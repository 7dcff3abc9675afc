use vstd::prelude::*;
use crate::sound::SoundAction;

verus! {

/// How the current round ended (or `Alive` while it is still running).
#[derive(Clone, Copy, PartialEq, Eq, Structural, Debug)]
pub enum DeathType {
    /// The round has not ended.
    Alive,
    /// Hit the ground.
    Splat,
    /// Flew out into space.
    Explode,
    /// Hit an obstacle cloud.
    Cloud,
}

impl DeathType {
    /// The name under which the platform records the death.
    pub open spec fn wire_name(self) -> Seq<char> {
        match self {
            DeathType::Splat => "splat"@,
            DeathType::Explode => "explode"@,
            DeathType::Cloud => "cloud"@,
            DeathType::Alive => "none"@,
        }
    }

    /// The name under which the platform records the death.
    pub fn api_name(&self) -> (r: &'static str)
        ensures
            r@ == self.wire_name(),
    {
        match self {
            DeathType::Splat => "splat",
            DeathType::Explode => "explode",
            DeathType::Cloud => "cloud",
            DeathType::Alive => "none",
        }
    }

    /// The banner shown while the death animation plays.
    pub open spec fn banner_text(self) -> Seq<char> {
        match self {
            DeathType::Splat => "*SPLAT!*"@,
            DeathType::Explode => "*BOOM!*"@,
            DeathType::Cloud => "*POUF!*"@,
            DeathType::Alive => ""@,
        }
    }

    /// The banner shown while the death animation plays.
    pub fn banner(&self) -> (r: &'static str)
        ensures
            r@ == self.banner_text(),
    {
        match self {
            DeathType::Splat => "*SPLAT!*",
            DeathType::Explode => "*BOOM!*",
            DeathType::Cloud => "*POUF!*",
            DeathType::Alive => "",
        }
    }

    /// The sentence of the game-over screen.
    pub open spec fn game_over_text(self) -> Seq<char> {
        match self {
            DeathType::Splat => "Tu t'es ecrase au sol!"@,
            DeathType::Explode => "Tu as explose dans l'espace!"@,
            DeathType::Cloud => "Tu as percute un nuage!"@,
            DeathType::Alive => "Game Over!"@,
        }
    }

    /// The sentence of the game-over screen.
    pub fn game_over_message(&self) -> (r: &'static str)
        ensures
            r@ == self.game_over_text(),
    {
        match self {
            DeathType::Splat => "Tu t'es ecrase au sol!",
            DeathType::Explode => "Tu as explose dans l'espace!",
            DeathType::Cloud => "Tu as percute un nuage!",
            DeathType::Alive => "Game Over!",
        }
    }

    /// The sound that accompanies this death, if any.
    pub open spec fn sound_of(self) -> Option<SoundAction> {
        match self {
            DeathType::Splat => Some(SoundAction::Splat),
            DeathType::Explode => Some(SoundAction::Boom),
            _ => None,
        }
    }

    /// The sound that accompanies this death, if any.
    pub fn death_sound(&self) -> (r: Option<SoundAction>)
        ensures
            r == self.sound_of(),
    {
        match self {
            DeathType::Splat => Some(SoundAction::Splat),
            DeathType::Explode => Some(SoundAction::Boom),
            _ => None,
        }
    }
}

} // verus!
