use fartcloud::captions::{fart_caption, fart_caption_count, random_fart_caption};
use fartcloud::death::DeathType;
use fartcloud::sound::{choose_variant, SoundAction};
use fartcloud::zone::AltitudeZone;

#[test]
fn zone_boosts_match_the_zone_table() {
    assert_eq!(AltitudeZone::Space.fart_boost_tenths(true), 15);
    assert_eq!(AltitudeZone::Space.fart_boost_tenths(false), 7);
    assert_eq!(AltitudeZone::HighSky.fart_boost_tenths(true), 12);
    assert_eq!(AltitudeZone::HighSky.fart_boost_tenths(false), 9);
    assert_eq!(AltitudeZone::Sky.fart_boost_tenths(true), 10);
    assert_eq!(AltitudeZone::Sky.fart_boost_tenths(false), 10);
    assert_eq!(AltitudeZone::Ground.fart_boost_tenths(true), 7);
    assert_eq!(AltitudeZone::Ground.fart_boost_tenths(false), 15);
}

#[test]
fn space_and_ground_boosts_mirror_each_other() {
    for up in [true, false] {
        assert_eq!(
            AltitudeZone::Space.fart_boost_tenths(up),
            AltitudeZone::Ground.fart_boost_tenths(!up)
        );
    }
}

#[test]
fn zone_intensities() {
    assert_eq!(AltitudeZone::Space.zone_intensity_tenths(), 3);
    assert_eq!(AltitudeZone::HighSky.zone_intensity_tenths(), 6);
    assert_eq!(AltitudeZone::Sky.zone_intensity_tenths(), 10);
    assert_eq!(AltitudeZone::Ground.zone_intensity_tenths(), 14);
}

#[test]
fn zone_banners() {
    assert_eq!(AltitudeZone::Space.zone_name(), "* ESPACE *");
    assert_eq!(AltitudeZone::HighSky.zone_name(), "~ HAUTE ALTITUDE ~");
    assert_eq!(AltitudeZone::Sky.zone_name(), "= CIEL =");
    assert_eq!(AltitudeZone::Ground.zone_name(), "^ SOL ^");
}

#[test]
fn zone_names_sent_to_the_platform() {
    assert_eq!(AltitudeZone::Space.api_name(), "space");
    assert_eq!(AltitudeZone::HighSky.api_name(), "high_sky");
    assert_eq!(AltitudeZone::Sky.api_name(), "sky");
    assert_eq!(AltitudeZone::Ground.api_name(), "ground");
}

#[test]
fn death_names_sent_to_the_platform() {
    assert_eq!(DeathType::Splat.api_name(), "splat");
    assert_eq!(DeathType::Explode.api_name(), "explode");
    assert_eq!(DeathType::Cloud.api_name(), "cloud");
    assert_eq!(DeathType::Alive.api_name(), "none");
}

#[test]
fn death_banners_and_messages() {
    assert_eq!(DeathType::Splat.banner(), "*SPLAT!*");
    assert_eq!(DeathType::Explode.banner(), "*BOOM!*");
    assert_eq!(DeathType::Cloud.banner(), "*POUF!*");
    assert_eq!(DeathType::Alive.banner(), "");
    assert_eq!(DeathType::Splat.game_over_message(), "Tu t'es ecrase au sol!");
    assert_eq!(DeathType::Explode.game_over_message(), "Tu as explose dans l'espace!");
    assert_eq!(DeathType::Cloud.game_over_message(), "Tu as percute un nuage!");
    assert_eq!(DeathType::Alive.game_over_message(), "Game Over!");
}

#[test]
fn death_sounds() {
    assert_eq!(DeathType::Splat.death_sound(), Some(SoundAction::Splat));
    assert_eq!(DeathType::Explode.death_sound(), Some(SoundAction::Boom));
    assert_eq!(DeathType::Cloud.death_sound(), None);
    assert_eq!(DeathType::Alive.death_sound(), None);
}

#[test]
fn captions_by_index() {
    assert_eq!(fart_caption_count(false), 5);
    assert_eq!(fart_caption_count(true), 4);
    assert_eq!(fart_caption(false, 0), "PFFFT!");
    assert_eq!(fart_caption(false, 4), "~pff~");
    assert_eq!(fart_caption(true, 0), "MEGA PET!");
    assert_eq!(fart_caption(true, 3), "KABOOM PET!");
}

#[test]
fn random_captions_come_from_the_right_list() {
    let normal = ["PFFFT!", "PROUT!", "BRAAAP!", "FLOOOP!", "~pff~"];
    let mega = ["MEGA PET!", "SPLORTCH!", "BRAAAAP!!", "KABOOM PET!"];
    for _ in 0..200 {
        assert!(mega.contains(&random_fart_caption(15)));
        assert!(normal.contains(&random_fart_caption(12)));
        assert!(normal.contains(&random_fart_caption(7)));
    }
}

#[test]
fn random_captions_vary() {
    let mut seen = std::collections::HashSet::new();
    for _ in 0..500 {
        seen.insert(random_fart_caption(10));
    }
    assert!(seen.len() > 1);
}

#[test]
fn variant_choice() {
    assert_eq!(choose_variant(true, 3), None);
    assert_eq!(choose_variant(false, 0), None);
    for _ in 0..200 {
        let v = choose_variant(false, 3).unwrap();
        assert!(v < 3);
    }
    assert_eq!(choose_variant(false, 1), Some(0));
}
