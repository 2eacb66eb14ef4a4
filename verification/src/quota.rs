//! Arithmetic shared by the memory and storage occupiers: the size of one
//! part, the byte budget a percentage allows, the number of parts that fills
//! that budget, and the band within which a new target is ignored.

use vstd::prelude::*;

verus! {

/// Bytes in one mebibyte.
pub const MIB: u64 = 1048576;

/// Bytes in one part of `part_size_mb` mebibytes.
pub open spec fn part_bytes(part_size_mb: u16) -> nat {
    part_size_mb as nat * 1048576
}

/// Bytes that `rate` percent of `total` allows, rounded down.
pub open spec fn budget_bytes(total: u64, rate: u16) -> int {
    (total as int * rate as int) / 100
}

/// The number of parts that fills what the budget leaves after `other_used`
/// bytes that others hold: none when others already reach the budget.
pub open spec fn parts_for_budget(budget: int, other_used: int, part: int) -> int {
    if budget <= other_used {
        0
    } else {
        (budget - other_used) / part
    }
}

/// A new target that lies strictly between 95% and 105% of a nonzero old
/// target is too close to it to act on.
pub open spec fn in_smoothing_band(new_target: u64, old_target: u64) -> bool {
    &&& old_target > 0
    &&& 95 * old_target < 100 * new_target
    &&& 100 * new_target < 105 * old_target
}

/// Bytes held by `current` parts of `part_size_mb` MiB.
pub open spec fn own_bytes(current: u64, part_size_mb: u16) -> int {
    current * part_bytes(part_size_mb)
}

/// The target that a reading of `total` bytes, `spare` of them not in use,
/// asks for from an occupier at `rate` percent that holds `current` parts of
/// `part_size_mb` MiB: the parts that fill the budget left by what others use.
pub open spec fn reading_target(rate: u16, part_size_mb: u16, current: u64, total: u64, spare: u64) -> int {
    parts_for_budget(
        budget_bytes(total, rate),
        saturating_diff(total, spare) - own_bytes(current, part_size_mb),
        part_bytes(part_size_mb) as int,
    )
}

/// The readings on which the target arithmetic neither overflows, nor
/// counts fewer bytes in use than the occupier holds, nor divides by zero.
pub open spec fn reading_defined(rate: u16, part_size_mb: u16, current: u64, total: u64, spare: u64) -> bool {
    &&& total as int * rate as int <= u64::MAX
    &&& own_bytes(current, part_size_mb) <= u64::MAX
    &&& own_bytes(current, part_size_mb) <= saturating_diff(total, spare)
    &&& budget_bytes(total, rate) > saturating_diff(total, spare) - own_bytes(current, part_size_mb)
        ==> part_size_mb > 0
}

/// What `systemstat::saturating_sub_bytes` returns, taken in bytes.
pub open spec fn saturating_diff(l: u64, r: u64) -> u64 {
    if l >= r {
        (l - r) as u64
    } else {
        0
    }
}

/// Calls `systemstat::saturating_sub_bytes` on two byte counts. Its source
/// subtracts the second from the first with `u64::saturating_sub`, so the
/// contract claims the difference, or 0 where the second is larger.
#[verifier::external_body]
pub(crate) fn saturating_sub_bytes(l: u64, r: u64) -> (res: u64)
    ensures
        res == saturating_diff(l, r),
{
    systemstat::saturating_sub_bytes(systemstat::ByteSize::b(l), systemstat::ByteSize::b(r)).as_u64()
}

/// Whether `new_target` lies in the smoothing band of `old_target`.
pub fn is_in_smoothing_band(new_target: u64, old_target: u64) -> (b: bool)
    ensures
        b == in_smoothing_band(new_target, old_target),
{
    let n: u128 = new_target as u128;
    let o: u128 = old_target as u128;
    old_target > 0 && 95 * o < 100 * n && 100 * n < 105 * o
}

/// The number of parts that fills the budget that `rate` percent of
/// `total_bytes` allows, given `used_bytes` in use of which `own_bytes` are
/// the occupier's own.
pub fn target_part_count(
    total_bytes: u64,
    used_bytes: u64,
    rate: u16,
    own_bytes: u64,
    part_size_bytes: u64,
) -> (t: u64)
    requires
        total_bytes as int * rate as int <= u64::MAX,
        own_bytes <= used_bytes,
        budget_bytes(total_bytes, rate) > used_bytes - own_bytes ==> part_size_bytes > 0,
    ensures
        t as int == parts_for_budget(
            budget_bytes(total_bytes, rate),
            used_bytes - own_bytes,
            part_size_bytes as int,
        ),
{
    let budget: u64 = total_bytes * (rate as u64) / 100;
    let other_used: u64 = used_bytes - own_bytes;
    if budget <= other_used {
        0
    } else {
        (budget - other_used) / part_size_bytes
    }
}

/// The target for a reading, or `None` exactly where the reading is not
/// one the target arithmetic can work on.
pub fn checked_target(rate: u16, part_size_mb: u16, current: u64, total: u64, spare: u64) -> (t: Option<u64>)
    ensures
        t is Some <==> reading_defined(rate, part_size_mb, current, total, spare),
        t matches Some(v) ==> v as int == reading_target(rate, part_size_mb, current, total, spare),
{
    let rate: u64 = rate as u64;
    assert((total as int) * (rate as int) <= 0xffff_ffff_ffff_ffff * 0xffff) by (nonlinear_arith)
        requires
            total <= 0xffff_ffff_ffff_ffffu64,
            rate <= 0xffff,
    ;
    if (total as u128) * (rate as u128) > u64::MAX as u128 {
        return None;
    }
    let part: u64 = part_size_mb as u64 * MIB;
    assert((current as int) * (part as int) <= 0xffff_ffff_ffff_ffff * 0xffff_ffff_ffff_ffff)
        by (nonlinear_arith)
        requires
            current <= 0xffff_ffff_ffff_ffffu64,
            part <= 0xffff_ffff_ffff_ffffu64,
    ;
    let own: u128 = (current as u128) * (part as u128);
    if own > u64::MAX as u128 {
        return None;
    }
    let own: u64 = own as u64;
    let used = saturating_sub_bytes(total, spare);
    if own > used {
        return None;
    }
    let budget: u64 = total * rate / 100;
    let other: u64 = used - own;
    if budget <= other {
        Some(0)
    } else if part == 0 {
        None
    } else {
        Some((budget - other) / part)
    }
}

/// A mount's bytes in use, `total` less `avail` (0 where `avail` is
/// larger), and that use in whole percent of `total`, rounded down; `None`
/// where `total` is 0 or a hundred times the use overflows a `u64`.
pub fn mount_usage(total: u64, avail: u64) -> (r: Option<(u64, u64)>)
    ensures
        r is None <==> (total == 0 || 100 * saturating_diff(total, avail) > u64::MAX),
        r matches Some((used, percent)) ==> {
            &&& used == saturating_diff(total, avail)
            &&& percent == (100 * saturating_diff(total, avail)) / total as int
        },
{
    let used = saturating_sub_bytes(total, avail);
    if total == 0 || used > u64::MAX / 100 {
        None
    } else {
        Some((used, 100 * used / total))
    }
}

/// Memory's bytes in use, `total` less `free` (0 where `free` is larger),
/// and that use in whole percent of `total`, rounded down; `None` where
/// `total` is 0, `free` exceeds `total`, or a hundred times the use
/// overflows a `u64`.
pub fn memory_usage(total: u64, free: u64) -> (r: Option<(u64, u64)>)
    ensures
        r is None <==> (total == 0 || free > total || 100 * (total - free) > u64::MAX),
        r matches Some((used, percent)) ==> {
            &&& used == saturating_diff(total, free)
            &&& percent == (100 * (total - free)) / total as int
        },
{
    let used = saturating_sub_bytes(total, free);
    if total == 0 || free > total || total - free > u64::MAX / 100 {
        None
    } else {
        Some((used, 100 * (total - free) / total))
    }
}

/// The parts that a target asks for fill the budget without exceeding it,
/// to within one part: with `t` parts, `other_used + t * part` stays within
/// the budget and one part more would exceed it. Where others already hold
/// the budget or more, the target is no part at all.
pub proof fn lemma_target_fills_budget(budget: int, other_used: int, part: int)
    requires
        part > 0,
    ensures
        budget <= other_used ==> parts_for_budget(budget, other_used, part) == 0,
        budget > other_used ==> {
            let t = parts_for_budget(budget, other_used, part);
            &&& t >= 0
            &&& other_used + t * part <= budget
            &&& budget < other_used + (t + 1) * part
        },
{
    if budget > other_used {
        let d = budget - other_used;
        let t = d / part;
        vstd::arithmetic::div_mod::lemma_fundamental_div_mod(d, part);
        vstd::arithmetic::div_mod::lemma_mod_bound(d, part);
        vstd::arithmetic::div_mod::lemma_div_pos_is_pos(d, part);
        assert(t * part + d % part == d) by (nonlinear_arith)
            requires d == part * t + d % part;
        assert((t + 1) * part == t * part + part) by (nonlinear_arith);
    }
}

/// The target never grows when others use more, and never shrinks when the
/// budget grows: with a budget no larger and others' use no smaller, the
/// target is no larger.
pub proof fn lemma_target_monotone(
    budget_lo: int,
    other_hi: int,
    budget_hi: int,
    other_lo: int,
    part: int,
)
    requires
        part > 0,
        budget_lo <= budget_hi,
        other_lo <= other_hi,
    ensures
        parts_for_budget(budget_lo, other_hi, part) <= parts_for_budget(budget_hi, other_lo, part),
{
    if budget_hi > other_lo {
        vstd::arithmetic::div_mod::lemma_div_pos_is_pos(budget_hi - other_lo, part);
        if budget_lo > other_hi {
            vstd::arithmetic::div_mod::lemma_div_is_ordered(budget_lo - other_hi, budget_hi - other_lo, part);
        }
    }
}

/// A higher rate never gives a smaller budget.
pub proof fn lemma_budget_monotone(total: u64, rate_lo: u16, rate_hi: u16)
    requires
        rate_lo <= rate_hi,
    ensures
        budget_bytes(total, rate_lo) <= budget_bytes(total, rate_hi),
{
    assert(total as int * rate_lo as int <= total as int * rate_hi as int) by (nonlinear_arith)
        requires
            rate_lo <= rate_hi,
            total >= 0,
    ;
    vstd::arithmetic::div_mod::lemma_div_is_ordered(
        total as int * rate_lo as int,
        total as int * rate_hi as int,
        100,
    );
}

/// The budget is exactly `rate` percent of `total`, rounded down: a
/// hundred budgets reach `total * rate` and a hundred and one more exceed it.
pub proof fn lemma_budget_is_rate_percent(total: u64, rate: u16)
    ensures
        100 * budget_bytes(total, rate) <= (total as int) * (rate as int),
        (total as int) * (rate as int) < 100 * (budget_bytes(total, rate) + 1),
{
    let y = total as int * rate as int;
    vstd::arithmetic::div_mod::lemma_fundamental_div_mod(y, 100);
    vstd::arithmetic::div_mod::lemma_mod_bound(y, 100);
}

/// The parts a budget of `rate` percent of `total` asks for, where others
/// use `other` bytes and a part has `part` bytes, fill that share to within
/// one part: with `t` parts, `other + t * part` bytes stay within `rate`
/// percent of `total`, and `t + 1` parts would exceed it; where others
/// already reach the share, `t` is 0.
pub proof fn lemma_parts_fill_rate_share(total: u64, rate: u16, other: int, part: int)
    requires
        part > 0,
    ensures
        ({
            let y = total as int * rate as int;
            let t = parts_for_budget(budget_bytes(total, rate), other, part);
            &&& t >= 0
            &&& y < 100 * (other + 1) ==> t == 0
            &&& y >= 100 * (other + 1) ==> 100 * (other + t * part) <= y
            &&& y >= 100 * (other + 1) ==> y < 100 * (other + (t + 1) * part)
        }),
{
    let b = budget_bytes(total, rate);
    lemma_budget_is_rate_percent(total, rate);
    lemma_target_fills_budget(b, other, part);
}

/// The target of a reading fills `rate` percent of `total` to within one
/// part of `part_size_mb` MiB, counting as others' use the bytes in use
/// (`total - spare`, or 0) less the `current` parts held: see
/// `lemma_parts_fill_rate_share`.
pub proof fn lemma_reading_target_fills_share(
    rate: u16,
    part_size_mb: u16,
    current: u64,
    total: u64,
    spare: u64,
)
    requires
        part_size_mb > 0,
    ensures
        ({
            let y = total as int * rate as int;
            let part = part_size_mb as int * 1048576;
            let used = if total >= spare { total - spare } else { 0 };
            let other = used - current as int * part;
            let t = reading_target(rate, part_size_mb, current, total, spare);
            &&& t >= 0
            &&& y < 100 * (other + 1) ==> t == 0
            &&& y >= 100 * (other + 1) ==> 100 * (other + t * part) <= y
            &&& y >= 100 * (other + 1) ==> y < 100 * (other + (t + 1) * part)
        }),
{
    let part = part_size_mb as int * 1048576;
    assert(own_bytes(current, part_size_mb) == current as int * part) by (nonlinear_arith)
        requires
            part == part_size_mb as int * 1048576,
    ;
    lemma_parts_fill_rate_share(
        total,
        rate,
        saturating_diff(total, spare) - own_bytes(current, part_size_mb),
        part,
    );
}

/// The smoothing band is the open interval from 95% to 105% of a nonzero
/// old target: a new target at or below 95% of the old one, or at or above
/// 105% of it, is always acted on, as is any target when the old one is 0;
/// a new target strictly between those bounds is not.
pub proof fn lemma_smoothing_band_bounds(new_target: u64, old_target: u64)
    ensures
        old_target == 0 ==> !in_smoothing_band(new_target, old_target),
        100 * (new_target as int) <= 95 * (old_target as int) ==> !in_smoothing_band(
            new_target,
            old_target,
        ),
        100 * (new_target as int) >= 105 * (old_target as int) ==> !in_smoothing_band(
            new_target,
            old_target,
        ),
        old_target > 0 && 95 * (old_target as int) < 100 * (new_target as int) && 100 * (
        new_target as int) < 105 * (old_target as int) ==> in_smoothing_band(new_target, old_target),
{
}

/// A part of `p` MiB has `p` times 1024 * 1024 bytes.
pub proof fn lemma_part_is_mebibytes(p: u16)
    ensures
        MIB == 1024 * 1024,
        part_bytes(p) == p as int * 1024 * 1024,
{
}

/// The bytes in use never exceed the total; where the spare bytes are at
/// most the total, they and the bytes in use make up the total, and where
/// they are more, nothing counts as in use.
pub proof fn lemma_saturating_diff_splits_total(total: u64, spare: u64)
    ensures
        saturating_diff(total, spare) <= total,
        spare <= total ==> saturating_diff(total, spare) + spare == total,
        spare >= total ==> saturating_diff(total, spare) == 0,
{
}

/// A reading can be worked on exactly when `total * rate` fits in a `u64`,
/// the bytes of the `current` parts of `part_size_mb` MiB fit in a `u64`
/// and are no more than the bytes in use, and parts have a size wherever
/// the share left by others asks for any.
pub proof fn lemma_reading_defined_exactly(
    rate: u16,
    part_size_mb: u16,
    current: u64,
    total: u64,
    spare: u64,
)
    ensures
        reading_defined(rate, part_size_mb, current, total, spare) <==> ({
            let y = total as int * rate as int;
            let own = current as int * (part_size_mb as int * 1048576);
            let used = if total >= spare { total - spare } else { 0 };
            &&& y <= u64::MAX
            &&& own <= u64::MAX
            &&& own <= used
            &&& y >= 100 * (used - own + 1) ==> part_size_mb > 0
        }),
{
    let y = total as int * rate as int;
    lemma_budget_is_rate_percent(total, rate);
    let part = part_size_mb as int * 1048576;
    assert(own_bytes(current, part_size_mb) == current as int * part) by (nonlinear_arith)
        requires
            part == part_size_mb as int * 1048576,
    ;
}

} // verus!
