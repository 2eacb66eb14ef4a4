//! The storage occupier: it holds disk space in files of a fixed size under
//! a directory of its own, and grows or shrinks their number so that the
//! disk's use reaches the set percentage. The files themselves are written
//! and removed by the caller, one step at a time, as `next_step` says.

use vstd::prelude::*;
use vstd::string::StringExecFns;
use crate::quota::{
    checked_target, in_smoothing_band, lemma_reading_target_fills_share, is_in_smoothing_band, own_bytes, part_bytes,
    reading_defined, reading_target, saturating_sub_bytes, target_part_count, MIB,
};
use crate::param::{
    all_digits, digits_value, is_decimal_digit, parse_unsigned, strip_plus, STORAGE_TEMP_DIR,
};

verus! {

/// The decimal digit `d` (0 to 9) as a character.
pub open spec fn digit_char(d: nat) -> char {
    (48 + d) as char
}

/// The decimal notation of `n`, without leading zeros.
pub open spec fn decimal(n: nat) -> Seq<char>
    decreases n,
{
    if n < 10 {
        seq![digit_char(n)]
    } else {
        decimal(n / 10).push(digit_char(n % 10))
    }
}

/// Calls `ToString::to_string` on a `usize`, whose `Display` writes the
/// number in decimal; the contract claims that notation.
#[verifier::external_body]
fn usize_to_string(n: usize) -> (s: String)
    ensures
        s@ == decimal(n as nat),
{
    n.to_string()
}

/// The path of the file that holds part `part_id`.
pub open spec fn part_path(part_id: usize) -> Seq<char> {
    STORAGE_TEMP_DIR@ + "/"@ + decimal(part_id as nat) + ".tmp"@
}

/// What the storage occupier asks its caller to do next.
#[derive(Debug, Clone, Copy, PartialEq, Eq)]
pub enum StorageStep {
    /// Write the file of the part whose number the variant carries and
    /// report it with `part_created`.
    Create(usize),
    /// Take the last part with `take_last_part`, remove its file and report
    /// it with `part_removed`.
    Remove,
    /// As many parts are held as the target asks for.
    Done,
}

/// Settings and state of the storage occupier.
#[derive(Debug, Clone)]
pub struct FileOccupyConfig {
    /// Target share of the disk in use, in percent (0 to 100).
    pub rate: u16,
    /// Number of parts that the last retarget asked for.
    pub target_part_count: u64,
    /// Number of parts held.
    pub current_part_count: u64,
    /// Size of one part, in MiB.
    pub part_size_mb: u16,
    /// Identifiers of the parts whose files were written, in order.
    pub used_parts: Vec<usize>,
    /// The content written into each part's file.
    pub seg_part_data: Vec<u8>,
}

impl FileOccupyConfig {
    /// Bytes the occupier holds by its own count of parts.
    pub open spec fn own_bytes(self) -> int {
        own_bytes(self.current_part_count, self.part_size_mb)
    }

    /// The target that a reading of `total` bytes with `avail` bytes
    /// available asks for.
    pub open spec fn target_for(self, total: u64, avail: u64) -> int {
        reading_target(self.rate, self.part_size_mb, self.current_part_count, total, avail)
    }

    /// The readings on which `update` can work.
    pub open spec fn update_defined(self, total: u64, avail: u64) -> bool {
        reading_defined(self.rate, self.part_size_mb, self.current_part_count, total, avail)
    }

    /// The step that the state asks for.
    pub open spec fn spec_next_step(self) -> StorageStep {
        if self.current_part_count < self.target_part_count {
            StorageStep::Create(self.used_parts@.len() as usize)
        } else if self.current_part_count > self.target_part_count {
            StorageStep::Remove
        } else {
            StorageStep::Done
        }
    }

    /// The settings and the part content are the same in both.
    pub open spec fn same_settings(self, other: Self) -> bool {
        &&& self.rate == other.rate
        &&& self.part_size_mb == other.part_size_mb
        &&& self.seg_part_data@ == other.seg_part_data@
    }

    /// A storage occupier for `rate` percent with parts of `part_size_mb`
    /// MiB, holding nothing yet.
    pub fn new(rate: u16, part_size_mb: u16) -> (c: Self)
        ensures
            c.rate == rate,
            c.part_size_mb == part_size_mb,
            c.target_part_count == 0,
            c.current_part_count == 0,
            c.used_parts@.len() == 0,
            c.seg_part_data@.len() == 0,
    {
        FileOccupyConfig {
            rate,
            target_part_count: 0,
            current_part_count: 0,
            part_size_mb,
            used_parts: Vec::new(),
            seg_part_data: Vec::new(),
        }
    }

    /// Bytes in one part.
    fn part_size_bytes(&self) -> (b: u64)
        ensures
            b == part_bytes(self.part_size_mb),
    {
        self.part_size_mb as u64 * MIB
    }

    /// Bytes held by the count of parts.
    fn total_used_bytes(&self) -> (b: u64)
        requires
            self.own_bytes() <= u64::MAX,
        ensures
            b == self.own_bytes(),
    {
        self.current_part_count * self.part_size_bytes()
    }

    /// Prepares the part content, `part_size_mb` MiB of ones, when the rate
    /// is above zero; does nothing otherwise. The caller then makes the
    /// occupier's directory afresh.
    pub fn init(&mut self)
        requires
            part_bytes(old(self).part_size_mb) <= usize::MAX,
        ensures
            final(self).rate == old(self).rate,
            final(self).part_size_mb == old(self).part_size_mb,
            final(self).used_parts@ == old(self).used_parts@,
            final(self).target_part_count == old(self).target_part_count,
            final(self).current_part_count == old(self).current_part_count,
            old(self).rate > 0 ==> final(self).seg_part_data@ == Seq::new(
                part_bytes(old(self).part_size_mb),
                |i: int| 1u8,
            ),
            old(self).rate == 0 ==> final(self).seg_part_data@ == old(self).seg_part_data@,
    {
        if self.rate > 0 {
            let size = self.part_size_bytes();
            let data: Vec<u8> = vec![1u8; size as usize];
            assert(data@ == Seq::new(part_bytes(self.part_size_mb), |i: int| 1u8));
            self.seg_part_data = data;
        }
    }

    /// Whether `update` can work on a reading of `total` bytes with `avail`
    /// available: false exactly where its arithmetic would overflow or
    /// divide by zero.
    pub fn can_update(&self, total: u64, avail: u64) -> (ok: bool)
        ensures
            ok == self.update_defined(total, avail),
    {
        checked_target(self.rate, self.part_size_mb, self.current_part_count, total, avail).is_some()
    }

    /// Takes a reading of the disk, `total` bytes of which `avail` are
    /// available, and sets the target to the number of parts that fills the
    /// budget (see `target_for`). A new target within the smoothing band of
    /// the old one changes nothing, and the result is false. Otherwise the
    /// target becomes the new one, the count of parts becomes the number of
    /// part files written, and the result is true: the caller then follows
    /// `next_step` until it says `Done`.
    pub fn update(&mut self, total: u64, avail: u64) -> (adjust: bool)
        requires
            old(self).update_defined(total, avail),
        ensures
            adjust == !in_smoothing_band(
                old(self).target_for(total, avail) as u64,
                old(self).target_part_count,
            ),
            !adjust ==> *final(self) == *old(self),
            adjust ==> {
                &&& final(self).same_settings(*old(self))
                &&& final(self).used_parts@ == old(self).used_parts@
                &&& final(self).target_part_count == old(self).target_for(total, avail)
                &&& final(self).current_part_count == old(self).used_parts@.len()
            },
    {
        let used = saturating_sub_bytes(total, avail);
        let own = self.total_used_bytes();
        let part = self.part_size_bytes();
        let new_target = target_part_count(total, used, self.rate, own, part);
        if is_in_smoothing_band(new_target, self.target_part_count) {
            return false;
        }
        self.target_part_count = new_target;
        self.current_part_count = self.used_parts.len() as u64;
        true
    }

    /// The next step toward holding as many parts as the target asks for:
    /// a new part, numbered by the count of part files written, while fewer
    /// are held; the removal of the last part while more are held.
    pub fn next_step(&self) -> (step: StorageStep)
        ensures
            step == self.spec_next_step(),
    {
        if self.current_part_count < self.target_part_count {
            StorageStep::Create(self.used_parts.len())
        } else if self.current_part_count > self.target_part_count {
            StorageStep::Remove
        } else {
            StorageStep::Done
        }
    }

    /// Records that the file of part `part_id` was written.
    pub fn part_created(&mut self, part_id: usize)
        requires
            old(self).current_part_count < u64::MAX,
        ensures
            final(self).same_settings(*old(self)),
            final(self).target_part_count == old(self).target_part_count,
            final(self).used_parts@ == old(self).used_parts@.push(part_id),
            final(self).current_part_count == old(self).current_part_count + 1,
    {
        self.used_parts.push(part_id);
        self.current_part_count += 1;
    }

    /// Takes the last part written off the list and returns its identifier;
    /// the count of parts stays until `part_removed` reports its file gone.
    pub fn take_last_part(&mut self) -> (part_id: usize)
        requires
            old(self).used_parts@.len() > 0,
        ensures
            part_id == old(self).used_parts@.last(),
            final(self).used_parts@ == old(self).used_parts@.drop_last(),
            final(self).same_settings(*old(self)),
            final(self).target_part_count == old(self).target_part_count,
            final(self).current_part_count == old(self).current_part_count,
    {
        match self.used_parts.pop() {
            Some(id) => id,
            None => 0,
        }
    }

    /// Records that the file of the part taken last was removed.
    pub fn part_removed(&mut self)
        requires
            old(self).current_part_count > 0,
        ensures
            final(self).same_settings(*old(self)),
            final(self).target_part_count == old(self).target_part_count,
            final(self).used_parts@ == old(self).used_parts@,
            final(self).current_part_count == old(self).current_part_count - 1,
    {
        self.current_part_count -= 1;
    }

    /// The path of the file that holds part `part_id`:
    /// `STORAGE_TEMP_DIR/<part_id>.tmp`.
    pub fn part_file_path(part_id: usize) -> (path: String)
        ensures
            path@ == part_path(part_id),
    {
        let mut path = String::from_str(STORAGE_TEMP_DIR);
        path.append("/");
        let digits = usize_to_string(part_id);
        path.append(digits.as_str());
        path.append(".tmp");
        path
    }

    /// How many successful steps separate the count of parts from the target.
    pub open spec fn steps_left(self) -> nat {
        if self.current_part_count <= self.target_part_count {
            (self.target_part_count - self.current_part_count) as nat
        } else {
            (self.current_part_count - self.target_part_count) as nat
        }
    }

    /// Parts `0`, `1`, ... up to `n` are held, in that order.
    pub open spec fn numbered_up_to(self, n: nat) -> bool {
        self.used_parts@ == Seq::new(n, |i: int| i as usize)
    }
}

/// `next_step` says `Done` exactly when the count of parts is at the target.
pub proof fn lemma_done_iff_at_target(s: FileOccupyConfig)
    ensures
        (s.spec_next_step() == StorageStep::Done) <==> s.steps_left() == 0,
{
}

/// Each step that `next_step` asks for, once it succeeds (`part_created`
/// after `Create`, `part_removed` after `Remove`, the target unchanged),
/// leaves one step fewer to the target.
pub proof fn lemma_step_nears_target(s: FileOccupyConfig, t: FileOccupyConfig)
    requires
        t.target_part_count == s.target_part_count,
        s.spec_next_step() is Create ==> t.current_part_count == s.current_part_count + 1,
        s.spec_next_step() is Remove ==> t.current_part_count == s.current_part_count - 1,
        !(s.spec_next_step() is Done),
    ensures
        t.steps_left() + 1 == s.steps_left(),
{
}

/// Parts stay numbered by their place: where parts `0` to `n - 1` are held
/// in order, the part that `next_step` asks to create is part `n`, a number
/// no held part has, and after it is recorded parts `0` to `n` are held;
/// taking the last part off leaves parts `0` to `n - 2`.
pub proof fn lemma_parts_stay_numbered(s: FileOccupyConfig, n: nat, t: FileOccupyConfig)
    requires
        s.numbered_up_to(n),
        n <= usize::MAX,
    ensures
        s.spec_next_step() matches StorageStep::Create(id) ==> {
            &&& id == n
            &&& !s.used_parts@.contains(id)
            &&& t.used_parts@ == s.used_parts@.push(id) ==> t.numbered_up_to(n + 1)
        },
        n > 0 && t.used_parts@ == s.used_parts@.drop_last() ==> t.numbered_up_to((n - 1) as nat),
{
    if let StorageStep::Create(id) = s.spec_next_step() {
        assert(s.used_parts@.len() == n);
        if s.used_parts@.contains(id) {
            let k = choose|k: int| 0 <= k < s.used_parts@.len() && s.used_parts@[k] == id;
            assert(s.used_parts@[k] == k as usize);
        }
        if t.used_parts@ == s.used_parts@.push(id) {
            assert(t.used_parts@ =~= Seq::new(n + 1, |i: int| i as usize));
        }
    }
    if n > 0 && t.used_parts@ == s.used_parts@.drop_last() {
        assert(t.used_parts@ =~= Seq::new((n - 1) as nat, |i: int| i as usize));
    }
}

/// Length of the next write when `remaining` bytes of a file are still to
/// be written through a buffer of `buffer_len` bytes: the smaller of the two.
pub fn next_write_len(remaining: u64, buffer_len: usize) -> (n: usize)
    ensures
        n == (if remaining < buffer_len { remaining as int } else { buffer_len as int }),
{
    if remaining < buffer_len as u64 {
        remaining as usize
    } else {
        buffer_len
    }
}

/// After a storage update that retargets, the target fills `rate` percent
/// of the disk to within one part, counting as others' use the bytes in use
/// (`total - avail`) less the parts held before: `t` parts stay within the
/// share and `t + 1` would exceed it; where others already reach the share,
/// the target is 0.
pub proof fn lemma_update_fills_budget(
    before: FileOccupyConfig,
    total: u64,
    avail: u64,
    after: FileOccupyConfig,
)
    requires
        before.part_size_mb > 0,
        after.target_part_count == before.target_for(total, avail),
    ensures
        ({
            let y = total as int * before.rate as int;
            let part = before.part_size_mb as int * 1048576;
            let used = if total >= avail { total - avail } else { 0 };
            let other = used - before.current_part_count as int * part;
            let t = after.target_part_count as int;
            &&& y < 100 * (other + 1) ==> t == 0
            &&& y >= 100 * (other + 1) ==> 100 * (other + t * part) <= y
            &&& y >= 100 * (other + 1) ==> y < 100 * (other + (t + 1) * part)
        }),
{
    lemma_reading_target_fills_share(
        before.rate,
        before.part_size_mb,
        before.current_part_count,
        total,
        avail,
    );
}

/// The decimal notation of `n` reads back as `n`: it is one or more digits
/// with no sign, whose value is `n`, so that parsing it as a number of at
/// most `max` gives `n` wherever `n <= max`.
pub proof fn lemma_decimal_parses_back(n: nat, max: nat)
    requires
        n <= max,
    ensures
        parse_unsigned(decimal(n), max) == Some(n),
{
    lemma_decimal_digits(n);
    assert(strip_plus(decimal(n)) == decimal(n)) by {
        assert(is_decimal_digit(decimal(n)[0]));
    }
}

proof fn lemma_decimal_digits(n: nat)
    ensures
        decimal(n).len() > 0,
        all_digits(decimal(n)),
        digits_value(decimal(n)) == n,
    decreases n,
{
    if n < 10 {
        assert(decimal(n).drop_last() =~= Seq::<char>::empty());
        assert(digit_char(n) as int == 48 + n);
        assert(digits_value(decimal(n)) == digits_value(Seq::<char>::empty()) * 10 + (
        digit_char(n) as int - 48) as nat);
    } else {
        lemma_decimal_digits(n / 10);
        let prefix = decimal(n / 10);
        let c = digit_char(n % 10);
        assert(c as int == 48 + n % 10);
        assert(decimal(n).drop_last() =~= prefix);
        assert(decimal(n).last() == c);
        vstd::arithmetic::div_mod::lemma_fundamental_div_mod(n as int, 10);
        assert(digits_value(decimal(n)) == digits_value(prefix) * 10 + (c as int - 48) as nat);
        assert forall|i: int| 0 <= i < decimal(n).len() implies is_decimal_digit(
            #[trigger] decimal(n)[i],
        ) by {
            if i < prefix.len() {
                assert(decimal(n)[i] == prefix[i]);
            }
        }
    }
}

/// Distinct parts have distinct files: the path of a part determines its
/// number.
pub proof fn lemma_part_path_injective(a: usize, b: usize)
    ensures
        part_path(a) == part_path(b) ==> a == b,
{
    if part_path(a) == part_path(b) {
        let head = STORAGE_TEMP_DIR@ + "/"@;
        let tail = ".tmp"@;
        let da = decimal(a as nat);
        let db = decimal(b as nat);
        assert(part_path(a) == head + da + tail);
        assert(part_path(b) == head + db + tail);
        assert(da.len() == db.len());
        assert(da =~= part_path(a).subrange(head.len() as int, (head.len() + da.len()) as int));
        assert(db =~= part_path(b).subrange(head.len() as int, (head.len() + db.len()) as int));
        lemma_decimal_parses_back(a as nat, usize::MAX as nat);
        lemma_decimal_parses_back(b as nat, usize::MAX as nat);
    }
}

} // verus!
