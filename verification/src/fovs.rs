//! The spread of the fields of view over a video.

use crate::double::{Double, LARGEST, SMALLEST};
use vstd::prelude::*;

verus! {

/// The lowest and the highest field of view of a video.
#[derive(Clone, Copy, Debug, PartialEq, Eq, Structural)]
pub struct FovRange {
    pub lowest: Double,
    pub highest: Double,
}

/// `value` is the least number among `fovs` and `bound`, the NaNs left out.
pub open spec fn is_least(value: Double, fovs: Seq<Double>, bound: Double) -> bool {
    &&& value == bound || fovs.contains(value)
    &&& !value.not_a_number()
    &&& value.units() <= bound.units()
    &&& forall|i: int|
        0 <= i < fovs.len() && !(#[trigger] fovs[i]).not_a_number() ==> value.units()
            <= fovs[i].units()
}

/// `value` is the greatest number among `fovs` and `bound`, the NaNs left out.
pub open spec fn is_greatest(value: Double, fovs: Seq<Double>, bound: Double) -> bool {
    &&& value == bound || fovs.contains(value)
    &&& !value.not_a_number()
    &&& value.units() >= bound.units()
    &&& forall|i: int|
        0 <= i < fovs.len() && !(#[trigger] fovs[i]).not_a_number() ==> value.units()
            >= fovs[i].units()
}

/// The lowest and the highest of `fovs`. The search begins at the largest and at the smallest
/// finite number, which are the answer for a video without frames.
pub fn fov_range(fovs: &[Double]) -> (range: FovRange)
    ensures
        is_least(range.lowest, fovs@, Double::from_bits(LARGEST)),
        is_greatest(range.highest, fovs@, Double::from_bits(SMALLEST)),
        forall|i: int|
            0 <= i < fovs@.len() && !(#[trigger] fovs@[i]).not_a_number() ==> range.lowest.units()
                <= fovs@[i].units() <= range.highest.units(),
        range.lowest.bits == 0x7fef_ffff_ffff_ffff || fovs@.contains(range.lowest),
        range.highest.bits == 0xffef_ffff_ffff_ffff || fovs@.contains(range.highest),
        !range.lowest.not_a_number(),
        !range.highest.not_a_number(),
{
    let mut lowest = Double::from_bits(LARGEST);
    let mut highest = Double::from_bits(SMALLEST);
    let mut i: usize = 0;
    assert(fovs@.take(0) == Seq::<Double>::empty());
    while i < fovs.len()
        invariant
            i <= fovs.len(),
            is_least(lowest, fovs@.take(i as int), Double::from_bits(LARGEST)),
            is_greatest(highest, fovs@.take(i as int), Double::from_bits(SMALLEST)),
        decreases fovs.len() - i,
    {
        let fov = fovs[i];
        let ghost before = fovs@.take(i as int);
        let ghost after = fovs@.take(i + 1);
        assert(after == before.push(fov));
        proof {
            if before.contains(lowest) {
                let k = before.index_of(lowest);
                assert(after[k] == lowest);
            }
            if before.contains(highest) {
                let k = before.index_of(highest);
                assert(after[k] == highest);
            }
            assert(after[i as int] == fov);
        }
        lowest = lowest.smaller(fov);
        highest = highest.larger(fov);
        i = i + 1;
    }
    assert(fovs@.take(i as int) == fovs@);
    FovRange { lowest, highest }
}

/// A video with a field of view that is a number has its lowest no higher than its highest.
pub proof fn law_lowest_at_most_highest(range: FovRange, fovs: Seq<Double>, i: int)
    requires
        is_least(range.lowest, fovs, Double::from_bits(LARGEST)),
        is_greatest(range.highest, fovs, Double::from_bits(SMALLEST)),
        0 <= i < fovs.len(),
        !fovs[i].not_a_number(),
    ensures
        range.lowest.units() <= range.highest.units(),
{
}

/// The ends of a range bound every number of the video, and each of them is a field of view of
/// the video or the finite number that the search began at, which it does not pass.
pub proof fn law_range_ends(range: FovRange, fovs: Seq<Double>)
    requires
        is_least(range.lowest, fovs, Double::from_bits(LARGEST)),
        is_greatest(range.highest, fovs, Double::from_bits(SMALLEST)),
    ensures
        forall|i: int|
            0 <= i < fovs.len() && !(#[trigger] fovs[i]).not_a_number() ==> range.lowest.units()
                <= fovs[i].units() <= range.highest.units(),
        range.lowest.bits == 0x7fef_ffff_ffff_ffff || exists|i: int|
            0 <= i < fovs.len() && #[trigger] fovs[i] == range.lowest,
        range.highest.bits == 0xffef_ffff_ffff_ffff || exists|i: int|
            0 <= i < fovs.len() && #[trigger] fovs[i] == range.highest,
        !range.lowest.not_a_number(),
        !range.highest.not_a_number(),
        range.lowest.units() <= Double::from_bits(0x7fef_ffff_ffff_ffff).units(),
        range.highest.units() >= Double::from_bits(0xffef_ffff_ffff_ffff).units(),
{
}

/// One more frame moves the ends of the range to its field of view where that lies outside, and
/// leaves them where it lies inside or is not a number.
pub proof fn law_one_more_frame(before: FovRange, after: FovRange, fovs: Seq<Double>, fov: Double)
    requires
        is_least(before.lowest, fovs, Double::from_bits(LARGEST)),
        is_greatest(before.highest, fovs, Double::from_bits(SMALLEST)),
        is_least(after.lowest, fovs.push(fov), Double::from_bits(LARGEST)),
        is_greatest(after.highest, fovs.push(fov), Double::from_bits(SMALLEST)),
    ensures
        after.lowest.units() == (if !fov.not_a_number() && fov.units() < before.lowest.units() {
            fov.units()
        } else {
            before.lowest.units()
        }),
        after.highest.units() == (if !fov.not_a_number() && fov.units() > before.highest.units() {
            fov.units()
        } else {
            before.highest.units()
        }),
{
    let all = fovs.push(fov);
    assert(all[fovs.len() as int] == fov);
    assert forall|d: Double| fovs.contains(d) implies all.contains(d) by {
        let k = fovs.index_of(d);
        assert(all[k] == d);
    }
    assert forall|i: int| 0 <= i < fovs.len() implies #[trigger] fovs[i] == all[i] by {}
    if fovs.contains(before.lowest) {
        let k = fovs.index_of(before.lowest);
        assert(all[k] == before.lowest);
    }
    if fovs.contains(before.highest) {
        let k = fovs.index_of(before.highest);
        assert(all[k] == before.highest);
    }
    if all.contains(after.lowest) {
        let k = all.index_of(after.lowest);
        if k < fovs.len() {
            assert(fovs[k] == after.lowest);
        }
    }
    if all.contains(after.highest) {
        let k = all.index_of(after.highest);
        if k < fovs.len() {
            assert(fovs[k] == after.highest);
        }
    }
}

} // verus!
