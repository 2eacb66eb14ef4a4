//! The memory occupier: it holds memory in parts of a fixed size and grows
//! or shrinks their number so that the machine's memory use reaches the set
//! percentage.

use vstd::prelude::*;
use crate::quota::{
    budget_bytes, checked_target, in_smoothing_band, is_in_smoothing_band, lemma_budget_monotone,
    lemma_reading_target_fills_share, lemma_target_monotone, own_bytes, part_bytes, parts_for_budget,
    reading_defined, reading_target, saturating_diff, saturating_sub_bytes, target_part_count, MIB,
};

verus! {

/// Settings and state of the memory occupier.
#[derive(Debug, Clone)]
pub struct MemOccupyConfig {
    /// Target share of the memory in use, in percent (0 to 100).
    pub rate: u16,
    /// Number of parts that the last retarget asked for.
    pub target_part_count: u64,
    /// Number of parts held.
    pub current_part_count: u64,
    /// Size of one part, in MiB.
    pub part_size_mb: u16,
    /// Identifiers of parts in use.
    pub used_parts: Vec<u32>,
    /// The content that each new part copies.
    pub seg_part_data: Vec<u8>,
    /// The parts held.
    pub buckets: Vec<Vec<u8>>,
}

impl MemOccupyConfig {
    /// Bytes the occupier holds by its own count of parts.
    pub open spec fn own_bytes(self) -> int {
        own_bytes(self.current_part_count, self.part_size_mb)
    }

    /// The target that a reading of `total` bytes with `free` bytes free asks for.
    pub open spec fn target_for(self, total: u64, free: u64) -> int {
        reading_target(self.rate, self.part_size_mb, self.current_part_count, total, free)
    }

    /// The readings on which `update` can work: where its arithmetic neither
    /// overflows nor divides by zero, and the target fits the index range.
    pub open spec fn update_defined(self, total: u64, free: u64) -> bool {
        &&& reading_defined(self.rate, self.part_size_mb, self.current_part_count, total, free)
        &&& self.target_for(total, free) <= usize::MAX
    }

    /// The settings and the data that new parts copy are the same in both.
    pub open spec fn same_settings(self, other: Self) -> bool {
        &&& self.rate == other.rate
        &&& self.part_size_mb == other.part_size_mb
        &&& self.used_parts@ == other.used_parts@
        &&& self.seg_part_data@ == other.seg_part_data@
    }

    /// `self` is `before` with one more part, a copy of the part content.
    pub open spec fn pushed_from(self, before: Self) -> bool {
        &&& self.same_settings(before)
        &&& self.target_part_count == before.target_part_count
        &&& self.current_part_count == before.current_part_count + 1
        &&& self.buckets@.len() == before.buckets@.len() + 1
        &&& self.buckets@.drop_last() == before.buckets@
        &&& self.buckets@.last()@ == before.seg_part_data@
    }

    /// `self` is `before` with the last part given back (where there was
    /// one) and the count one lower.
    pub open spec fn popped_from(self, before: Self) -> bool {
        &&& self.same_settings(before)
        &&& self.target_part_count == before.target_part_count
        &&& self.current_part_count == before.current_part_count - 1
        &&& before.buckets@.len() > 0 ==> self.buckets@ == before.buckets@.drop_last()
        &&& before.buckets@.len() == 0 ==> self.buckets@ == before.buckets@
    }

    /// A memory occupier for `rate` percent with parts of `part_size_mb` MiB,
    /// holding nothing yet.
    pub fn new(rate: u16, part_size_mb: u16) -> (c: Self)
        ensures
            c.rate == rate,
            c.part_size_mb == part_size_mb,
            c.target_part_count == 0,
            c.current_part_count == 0,
            c.used_parts@.len() == 0,
            c.seg_part_data@.len() == 0,
            c.buckets@.len() == 0,
    {
        MemOccupyConfig {
            rate,
            target_part_count: 0,
            current_part_count: 0,
            part_size_mb,
            used_parts: Vec::new(),
            seg_part_data: Vec::new(),
            buckets: Vec::new(),
        }
    }

    /// Bytes in one part.
    fn part_size_bytes(&self) -> (b: u64)
        ensures
            b == part_bytes(self.part_size_mb),
    {
        self.part_size_mb as u64 * MIB
    }

    /// Bytes held by the count of parts.
    fn total_used_bytes(&self) -> (b: u64)
        requires
            self.own_bytes() <= u64::MAX,
        ensures
            b == self.own_bytes(),
    {
        self.current_part_count * self.part_size_bytes()
    }

    /// Takes one more part, a copy of the part content.
    pub fn push(&mut self)
        requires
            old(self).current_part_count < u64::MAX,
        ensures
            final(self).pushed_from(*old(self)),
    {
        let ghost before = self.buckets@;
        let part = vstd::slice::slice_to_vec(self.seg_part_data.as_slice());
        self.buckets.push(part);
        self.current_part_count += 1;
        assert(self.buckets@.drop_last() =~= before);
    }

    /// Gives the last part back; the count drops by one part in any case.
    pub fn pop(&mut self)
        requires
            old(self).current_part_count > 0,
        ensures
            final(self).popped_from(*old(self)),
    {
        self.buckets.pop();
        self.current_part_count -= 1;
    }

    /// Prepares the part content, `part_size_mb` MiB of ones, when the rate
    /// is above zero; does nothing otherwise.
    pub fn init(&mut self)
        requires
            part_bytes(old(self).part_size_mb) <= usize::MAX,
        ensures
            final(self).rate == old(self).rate,
            final(self).part_size_mb == old(self).part_size_mb,
            final(self).used_parts@ == old(self).used_parts@,
            final(self).target_part_count == old(self).target_part_count,
            final(self).current_part_count == old(self).current_part_count,
            final(self).buckets@ == old(self).buckets@,
            old(self).rate > 0 ==> final(self).seg_part_data@ == Seq::new(
                part_bytes(old(self).part_size_mb),
                |i: int| 1u8,
            ),
            old(self).rate == 0 ==> final(self).seg_part_data@ == old(self).seg_part_data@,
    {
        if self.rate > 0 {
            let size = self.part_size_bytes();
            let data: Vec<u8> = vec![1u8; size as usize];
            assert(data@ == Seq::new(part_bytes(self.part_size_mb), |i: int| 1u8));
            self.seg_part_data = data;
        }
    }

    /// Whether `update` can work on a reading of `total` bytes with `free`
    /// bytes free: false exactly where its arithmetic would overflow or
    /// divide by zero.
    pub fn can_update(&self, total: u64, free: u64) -> (ok: bool)
        ensures
            ok == self.update_defined(total, free),
    {
        match checked_target(self.rate, self.part_size_mb, self.current_part_count, total, free) {
            Some(t) => t as u128 <= usize::MAX as u128,
            None => false,
        }
    }

    /// Takes a reading of the machine's memory, `total` bytes of which `free`
    /// are free, and moves the held parts to the number that fills the budget
    /// (see `target_for`). A new target within the smoothing band of the old
    /// one changes nothing. Otherwise the target becomes the new one and the
    /// held parts are taken or given back, last in first out, until as many
    /// are held as the target asks for; new parts copy the part content.
    pub fn update(&mut self, total: u64, free: u64)
        requires
            old(self).update_defined(total, free),
        ensures
            in_smoothing_band(
                old(self).target_for(total, free) as u64,
                old(self).target_part_count,
            ) ==> *final(self) == *old(self),
            !in_smoothing_band(
                old(self).target_for(total, free) as u64,
                old(self).target_part_count,
            ) ==> {
                let t = old(self).target_for(total, free);
                &&& final(self).same_settings(*old(self))
                &&& final(self).target_part_count == t
                &&& final(self).current_part_count == t
                &&& final(self).buckets@.len() == t
                &&& forall|i: int|
                    0 <= i < t && i < old(self).buckets@.len() ==> #[trigger] final(self).buckets@[i]
                        == old(self).buckets@[i]
                &&& forall|i: int|
                    old(self).buckets@.len() <= i < t ==> #[trigger] final(self).buckets@[i]@
                        == old(self).seg_part_data@
            },
    {
        let used = saturating_sub_bytes(total, free);
        let own = self.total_used_bytes();
        let part = self.part_size_bytes();
        let new_target = target_part_count(total, used, self.rate, own, part);
        if is_in_smoothing_band(new_target, self.target_part_count) {
            return;
        }
        let ghost orig = *self;
        self.target_part_count = new_target;
        self.current_part_count = self.buckets.len() as u64;
        while self.current_part_count < self.target_part_count
            invariant
                self.same_settings(orig),
                self.target_part_count == new_target,
                new_target <= usize::MAX,
                self.current_part_count == self.buckets@.len(),
                forall|i: int|
                    0 <= i < self.buckets@.len() && i < orig.buckets@.len() ==> #[trigger] self.buckets@[i]
                        == orig.buckets@[i],
                forall|i: int|
                    orig.buckets@.len() <= i < self.buckets@.len() ==> #[trigger] self.buckets@[i]@
                        == orig.seg_part_data@,
                self.buckets@.len() >= orig.buckets@.len(),
            decreases self.target_part_count - self.current_part_count,
        {
            let ghost before = self.buckets@;
            self.push();
            assert forall|i: int|
                0 <= i < self.buckets@.len() && i < orig.buckets@.len() implies #[trigger] self.buckets@[i]
                    == orig.buckets@[i] by {
                assert(self.buckets@.drop_last()[i] == self.buckets@[i]);
            }
            assert forall|i: int|
                orig.buckets@.len() <= i < self.buckets@.len() implies #[trigger] self.buckets@[i]@
                    == orig.seg_part_data@ by {
                if i < before.len() {
                    assert(self.buckets@.drop_last()[i] == self.buckets@[i]);
                }
            }
        }
        while self.current_part_count > self.target_part_count
            invariant
                self.same_settings(orig),
                self.target_part_count == new_target,
                self.current_part_count == self.buckets@.len(),
                self.current_part_count >= self.target_part_count,
                forall|i: int|
                    0 <= i < self.buckets@.len() && i < orig.buckets@.len() ==> #[trigger] self.buckets@[i]
                        == orig.buckets@[i],
                forall|i: int|
                    orig.buckets@.len() <= i < self.buckets@.len() ==> #[trigger] self.buckets@[i]@
                        == orig.seg_part_data@,
            decreases self.current_part_count,
        {
            let ghost before = self.buckets@;
            self.pop();
            assert forall|i: int|
                0 <= i < self.buckets@.len() && i < orig.buckets@.len() implies #[trigger] self.buckets@[i]
                    == orig.buckets@[i] by {
                assert(before.drop_last()[i] == before[i]);
            }
            assert forall|i: int|
                orig.buckets@.len() <= i < self.buckets@.len() implies #[trigger] self.buckets@[i]@
                    == orig.seg_part_data@ by {
                assert(before.drop_last()[i] == before[i]);
            }
        }
    }

    /// Gives all parts back when the rate is above zero, and says whether it did.
    pub fn release(&mut self) -> (released: bool)
        ensures
            released == (old(self).rate > 0),
            final(self).same_settings(*old(self)),
            final(self).target_part_count == old(self).target_part_count,
            final(self).current_part_count == old(self).current_part_count,
            released ==> final(self).buckets@.len() == 0,
            !released ==> final(self).buckets@ == old(self).buckets@,
    {
        if self.rate > 0 {
            self.buckets.clear();
            true
        } else {
            false
        }
    }
}

/// The parts held after an update that retargets, together with what
/// others use, fill `rate` percent of the memory to within one part: they
/// never exceed it, and one part more would. Others' use is the memory in
/// use (`total - free`) less the parts held before. Where others already
/// use the whole share, nothing is held.
pub proof fn lemma_update_fills_budget(
    before: MemOccupyConfig,
    total: u64,
    free: u64,
    after: MemOccupyConfig,
)
    requires
        before.part_size_mb > 0,
        after.current_part_count == before.target_for(total, free),
    ensures
        ({
            let y = total as int * before.rate as int;
            let part = before.part_size_mb as int * 1048576;
            let used = if total >= free { total - free } else { 0 };
            let other = used - before.current_part_count as int * part;
            let t = after.current_part_count as int;
            &&& y < 100 * (other + 1) ==> t == 0
            &&& y >= 100 * (other + 1) ==> 100 * (other + t * part) <= y
            &&& y >= 100 * (other + 1) ==> y < 100 * (other + (t + 1) * part)
        }),
{
    lemma_reading_target_fills_share(
        before.rate,
        before.part_size_mb,
        before.current_part_count,
        total,
        free,
    );
}

/// Giving a part back undoes taking one: after `push` and then `pop`, the
/// parts, their count, the target and the settings are as before.
pub proof fn lemma_pop_undoes_push(s0: MemOccupyConfig, s1: MemOccupyConfig, s2: MemOccupyConfig)
    requires
        s1.pushed_from(s0),
        s2.popped_from(s1),
    ensures
        s2.buckets@ == s0.buckets@,
        s2.current_part_count == s0.current_part_count,
        s2.target_part_count == s0.target_part_count,
        s2.same_settings(s0),
{
}

/// More memory in use by others never gives more parts: for one occupier
/// and one total, the parts held after an update that retargets on a
/// reading with less free memory are no more than after one with more.
pub proof fn lemma_update_monotone_in_free(
    before: MemOccupyConfig,
    total: u64,
    free_lo: u64,
    free_hi: u64,
    after_lo: MemOccupyConfig,
    after_hi: MemOccupyConfig,
)
    requires
        before.update_defined(total, free_lo),
        before.update_defined(total, free_hi),
        before.part_size_mb > 0,
        free_lo <= free_hi,
        after_lo.buckets@.len() == before.target_for(total, free_lo),
        after_hi.buckets@.len() == before.target_for(total, free_hi),
    ensures
        after_lo.buckets@.len() <= after_hi.buckets@.len(),
{
    let budget = budget_bytes(total, before.rate);
    lemma_target_monotone(
        budget,
        saturating_diff(total, free_lo) - before.own_bytes(),
        budget,
        saturating_diff(total, free_hi) - before.own_bytes(),
        part_bytes(before.part_size_mb) as int,
    );
}

/// A higher rate never gives fewer parts: for two occupiers that differ
/// only in rate, on one reading, the one with the higher rate holds no
/// fewer parts after an update that retargets.
pub proof fn lemma_update_monotone_in_rate(
    lo: MemOccupyConfig,
    hi: MemOccupyConfig,
    total: u64,
    free: u64,
    after_lo: MemOccupyConfig,
    after_hi: MemOccupyConfig,
)
    requires
        lo.update_defined(total, free),
        hi.update_defined(total, free),
        lo.part_size_mb == hi.part_size_mb,
        lo.current_part_count == hi.current_part_count,
        lo.part_size_mb > 0,
        lo.rate <= hi.rate,
        after_lo.buckets@.len() == lo.target_for(total, free),
        after_hi.buckets@.len() == hi.target_for(total, free),
    ensures
        after_lo.buckets@.len() <= after_hi.buckets@.len(),
{
    lemma_budget_monotone(total, lo.rate, hi.rate);
    let other = saturating_diff(total, free) - lo.own_bytes();
    lemma_target_monotone(
        budget_bytes(total, lo.rate),
        other,
        budget_bytes(total, hi.rate),
        other,
        part_bytes(lo.part_size_mb) as int,
    );
}

} // verus!
