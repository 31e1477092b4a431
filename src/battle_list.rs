//! Reading the battle list: how many entries it shows and which of them are
//! attacking.

use vstd::prelude::*;
use crate::frame::GrayImage;

verus! {

/// Number of filled entries of the battle list. The list is not analysed
/// yet: every list reads as five entries.
pub fn count_filled_slots(list: &GrayImage) -> (r: i32)
    ensures
        r == 5,
{
    5
}

/// For each of the `filled` entries, whether it is attacking; `None` for a
/// negative count. Only the first entry is reported as attacking for now.
pub fn determine_being_attacked(list: &GrayImage, filled: i32) -> (r: Option<Vec<bool>>)
    ensures
        r is None <==> filled < 0,
        r matches Some(v) ==> v@ == Seq::new(filled as nat, |i: int| i == 0),
{
    if filled < 0 {
        return None;
    }
    let mut flags: Vec<bool> = Vec::new();
    let mut i: i32 = 0;
    while i < filled
        invariant
            0 <= i <= filled,
            flags@ == Seq::new(i as nat, |k: int| k == 0),
        decreases filled - i,
    {
        flags.push(i == 0);
        proof {
            assert(flags@ =~= Seq::new((i + 1) as nat, |k: int| k == 0));
        }
        i = i + 1;
    }
    Some(flags)
}

} // verus!
