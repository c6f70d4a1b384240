use openzt::zoo_settings::{IntSetting, ZooSettings};
use openzt::zoostatus::newguest_dispatch;

#[test]
fn defaults_match_a_fresh_tracker() {
    let s = ZooSettings::init(None);
    assert_eq!(s.rating_check_interval, 10000);
    assert_eq!(s.message_check_interval, 10000);
    assert_eq!(s.newguest_check_interval, 10000);
    assert_eq!(s.arrival_multipliers(), [1, 1, 1, 1, 1]);
    assert_eq!(s.high_species_threshold, 10);
    assert_eq!(s.low_species_threshold, 2);
    assert_eq!(s.high_avg_animal_happy_threshold, 90);
    assert_eq!(s.happy_animals_change, 10);
    assert_eq!(s.donation_count_bound, 3);
    assert_eq!(s.donation_amount_min, 10000);
    assert_eq!(s.donation_amount_max, 20000);
    assert_eq!(s.species_rating_cap, 44);
    assert_eq!(s.membership_join_happiness, 80);
    assert_eq!(s.membership_join_chance, 50);
    assert_eq!(s.max_guests, 1000);
    assert_eq!(s, ZooSettings::defaults());
}

#[test]
fn config_values_replace_defaults_and_the_last_read_wins() {
    let reads = vec![
        (IntSetting::RatingCheckInterval, 500),
        (IntSetting::SpeciesAvailable, 60),
        (IntSetting::RatingCheckInterval, 700),
        (IntSetting::CreateGuestChanceHigh, 7),
    ];
    let s = ZooSettings::init(Some(&reads));
    assert_eq!(s.get(IntSetting::RatingCheckInterval), 700);
    assert_eq!(s.species_rating_cap, 60);
    assert_eq!(s.arrival_multipliers(), [1, 1, 1, 7, 1]);
    assert_eq!(s.message_check_interval, 10000);
    assert_eq!(s.max_guests, 1000);
}

#[test]
fn missing_config_leaves_settings_unchanged() {
    let mut s = ZooSettings::defaults();
    s.set(IntSetting::DonationChance, 25);
    let before = s;
    s.override_config(None);
    assert_eq!(s, before);
    s.override_config(Some(&Vec::new()));
    assert_eq!(s, before);
    assert_eq!(s.get(IntSetting::DonationChance), 25);
}

#[test]
fn configured_multipliers_drive_new_guest_arrivals() {
    let reads = vec![
        (IntSetting::CreateGuestChanceVeryLow, 11),
        (IntSetting::CreateGuestChanceLow, 12),
        (IntSetting::CreateGuestChanceMed, 13),
        (IntSetting::CreateGuestChanceHigh, 14),
        (IntSetting::CreateGuestChanceVeryHigh, 15),
    ];
    let s = ZooSettings::init(Some(&reads));
    assert_eq!(s.arrival_multipliers(), [11, 12, 13, 14, 15]);
    assert_eq!(newguest_dispatch(0x60, 4, s.arrival_multipliers()), Some((15, true)));
    assert_eq!(newguest_dispatch(0x60, 0, s.arrival_multipliers()), Some((11, false)));
}
