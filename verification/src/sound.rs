use vstd::prelude::*;
use crate::random::{random_below, RANDOM_RANGE_MAX};

verus! {

/// A sound effect that the game asks the audio layer to play.
#[derive(Clone, Copy, PartialEq, Eq, Structural, Hash, Debug)]
pub enum SoundAction {
    /// One of the ordinary fart variants, picked at random by the audio layer.
    Fart,
    /// The big fart of a long combo (five or more recent farts).
    MegaFart,
    /// Death on the ground.
    Splat,
    /// Death in space.
    Boom,
    /// The combo level went up.
    ComboUp,
    /// Danger-zone beep.
    AlertBeep,
    /// End of a round.
    GameOver,
}

/// Which recorded variant of a sound to play: none while the sound is muted or when no
/// variant was loaded, otherwise one picked at random among the `variants` loaded.
pub fn choose_variant(muted: bool, variants: usize) -> (r: Option<usize>)
    requires
        variants <= RANDOM_RANGE_MAX,
    ensures
        (muted || variants == 0) <==> r is None,
        r matches Some(i) ==> i < variants,
{
    if muted || variants == 0 {
        None
    } else {
        Some(random_below(variants))
    }
}

} // verus!
