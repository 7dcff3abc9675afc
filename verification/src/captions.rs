use vstd::prelude::*;
use crate::random::random_below;

verus! {

/// A fart is a "mega" one, with its own captions, when the zone boost exceeds 1.2x.
pub open spec fn is_mega_boost(boost_tenths: u32) -> bool {
    boost_tenths > 12
}

/// Number of captions of each kind.
pub open spec fn caption_count(mega: bool) -> nat {
    if mega { 4 } else { 5 }
}

/// The `i`-th caption of a kind.
pub open spec fn caption_text(mega: bool, i: int) -> Seq<char> {
    if mega {
        if i == 0 {
            "MEGA PET!"@
        } else if i == 1 {
            "SPLORTCH!"@
        } else if i == 2 {
            "BRAAAAP!!"@
        } else {
            "KABOOM PET!"@
        }
    } else {
        if i == 0 {
            "PFFFT!"@
        } else if i == 1 {
            "PROUT!"@
        } else if i == 2 {
            "BRAAAP!"@
        } else if i == 3 {
            "FLOOOP!"@
        } else {
            "~pff~"@
        }
    }
}

/// Number of captions of each kind.
pub fn fart_caption_count(mega: bool) -> (n: usize)
    ensures
        n == caption_count(mega),
{
    if mega { 4 } else { 5 }
}

/// The `pick`-th caption of a kind.
pub fn fart_caption(mega: bool, pick: usize) -> (r: &'static str)
    requires
        pick < caption_count(mega),
    ensures
        r@ == caption_text(mega, pick as int),
{
    if mega {
        if pick == 0 {
            "MEGA PET!"
        } else if pick == 1 {
            "SPLORTCH!"
        } else if pick == 2 {
            "BRAAAAP!!"
        } else {
            "KABOOM PET!"
        }
    } else {
        if pick == 0 {
            "PFFFT!"
        } else if pick == 1 {
            "PROUT!"
        } else if pick == 2 {
            "BRAAAP!"
        } else if pick == 3 {
            "FLOOOP!"
        } else {
            "~pff~"
        }
    }
}

/// A caption for a fart with the given zone boost, picked at random among the captions
/// of its kind (mega captions above a 1.2x boost).
pub fn random_fart_caption(boost_tenths: u32) -> (r: &'static str)
    ensures
        exists|i: int| 0 <= i < caption_count(is_mega_boost(boost_tenths))
            && r@ == #[trigger] caption_text(is_mega_boost(boost_tenths), i),
{
    let mega = boost_tenths > 12;
    let pick = random_below(fart_caption_count(mega));
    let r = fart_caption(mega, pick);
    assert(mega == is_mega_boost(boost_tenths));
    assert(r@ == caption_text(is_mega_boost(boost_tenths), pick as int));
    r
}

} // verus!
