use vstd::prelude::*;

verus! {

/// The four altitude bands of the world, from the top (space) to the bottom (ground).
#[derive(Clone, Copy, PartialEq, Eq, Structural, Debug)]
pub enum AltitudeZone {
    /// Top quarter of the world.
    Space,
    /// Second quarter.
    HighSky,
    /// Third quarter.
    Sky,
    /// Bottom quarter.
    Ground,
}

impl AltitudeZone {
    /// Fart power factor of this zone, in tenths (15 means 1.5x).
    /// Space pushes harder upwards, the ground pushes harder downwards.
    pub open spec fn boost_tenths(self, going_up: bool) -> u32 {
        match self {
            AltitudeZone::Space => if going_up { 15 } else { 7 },
            AltitudeZone::HighSky => if going_up { 12 } else { 9 },
            AltitudeZone::Sky => 10,
            AltitudeZone::Ground => if going_up { 7 } else { 15 },
        }
    }

    /// Fart power factor of this zone for a fart in the given direction, in tenths.
    pub fn fart_boost_tenths(&self, going_up: bool) -> (r: u32)
        ensures
            r == self.boost_tenths(going_up),
    {
        match self {
            AltitudeZone::Space => if going_up { 15 } else { 7 },
            AltitudeZone::HighSky => if going_up { 12 } else { 9 },
            AltitudeZone::Sky => 10,
            AltitudeZone::Ground => if going_up { 7 } else { 15 },
        }
    }

    /// Visual intensity of the zone's effects, in tenths.
    pub open spec fn intensity_tenths(self) -> u32 {
        match self {
            AltitudeZone::Space => 3,
            AltitudeZone::HighSky => 6,
            AltitudeZone::Sky => 10,
            AltitudeZone::Ground => 14,
        }
    }

    /// Visual intensity of the zone's effects (colours, particles), in tenths.
    pub fn zone_intensity_tenths(&self) -> (r: u32)
        ensures
            r == self.intensity_tenths(),
    {
        match self {
            AltitudeZone::Space => 3,
            AltitudeZone::HighSky => 6,
            AltitudeZone::Sky => 10,
            AltitudeZone::Ground => 14,
        }
    }

    /// The banner that the HUD shows for the zone.
    pub open spec fn display_name(self) -> Seq<char> {
        match self {
            AltitudeZone::Space => "* ESPACE *"@,
            AltitudeZone::HighSky => "~ HAUTE ALTITUDE ~"@,
            AltitudeZone::Sky => "= CIEL ="@,
            AltitudeZone::Ground => "^ SOL ^"@,
        }
    }

    /// The banner that the HUD shows for the zone.
    pub fn zone_name(&self) -> (r: &'static str)
        ensures
            r@ == self.display_name(),
    {
        match self {
            AltitudeZone::Space => "* ESPACE *",
            AltitudeZone::HighSky => "~ HAUTE ALTITUDE ~",
            AltitudeZone::Sky => "= CIEL =",
            AltitudeZone::Ground => "^ SOL ^",
        }
    }

    /// The name under which the platform records the zone of a death.
    pub open spec fn wire_name(self) -> Seq<char> {
        match self {
            AltitudeZone::Space => "space"@,
            AltitudeZone::HighSky => "high_sky"@,
            AltitudeZone::Sky => "sky"@,
            AltitudeZone::Ground => "ground"@,
        }
    }

    /// The name under which the platform records the zone of a death.
    pub fn api_name(&self) -> (r: &'static str)
        ensures
            r@ == self.wire_name(),
    {
        match self {
            AltitudeZone::Space => "space",
            AltitudeZone::HighSky => "high_sky",
            AltitudeZone::Sky => "sky",
            AltitudeZone::Ground => "ground",
        }
    }
}

/// The boost is tilted towards the nearer edge of the world: in the two upper zones an
/// upward fart is stronger than a downward one, on the ground a downward fart is the
/// stronger, and the middle sky is neutral. Space and ground mirror each other.
pub proof fn lemma_boost_points_to_the_edges(going_up: bool)
    ensures
        AltitudeZone::Space.boost_tenths(true) > AltitudeZone::Space.boost_tenths(false),
        AltitudeZone::HighSky.boost_tenths(true) > AltitudeZone::HighSky.boost_tenths(false),
        AltitudeZone::Ground.boost_tenths(false) > AltitudeZone::Ground.boost_tenths(true),
        AltitudeZone::Sky.boost_tenths(true) == AltitudeZone::Sky.boost_tenths(false),
        AltitudeZone::Space.boost_tenths(going_up) == AltitudeZone::Ground.boost_tenths(!going_up),
{
}

} // verus!
