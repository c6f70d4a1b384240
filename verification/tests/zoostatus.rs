use openzt::zoo_settings::IntSetting;
use openzt::zoostatus::{
    filled_categories, finance_pending_from_counter, flat_migration_band, history_counts_fit, legacy_band, load_format,
    donation_outcome, monthly_migration_band, newguest_attendance, newguest_dispatch, newguest_plan, newguest_possible, roll_succeeded, zoo_messages, count_escaped_animals, ConditionShares, DonationOutcome, ZooMessage, research_completion_percent, research_decay, score_average, tally, yearly_migration_band,
    zoo_rating, AnimalSample, CheckTimers, GuestSample, HistoryLayout, PendingChecks, ZooRatingInputs, ZooTallies,
};

#[test]
fn newguest_dispatch_matches_the_derived_band_tier_table() {
    let m = [10, 20, 30, 40, 50];
    let high = 0x60;
    let mid_high = 0x40;
    let mid_low = 0x30;
    let low = 0x10;

    let cases: [(i32, i32, Option<(i32, bool)>); 20] = [
        (low, 0, None),
        (low, 1, None),
        (low, 2, Some((m[0], false))),
        (low, 3, Some((m[1], false))),
        (low, 4, Some((m[1], false))),
        (mid_low, 0, None),
        (mid_low, 1, Some((m[0], false))),
        (mid_low, 2, Some((m[2], false))),
        (mid_low, 3, Some((m[2], false))),
        (mid_low, 4, Some((m[3], true))),
        (mid_high, 0, None),
        (mid_high, 1, Some((m[1], false))),
        (mid_high, 2, Some((m[2], false))),
        (mid_high, 3, Some((m[3], false))),
        (mid_high, 4, Some((m[4], true))),
        (high, 0, Some((m[0], false))),
        (high, 1, Some((m[2], false))),
        (high, 2, Some((m[3], false))),
        (high, 3, Some((m[3], true))),
        (high, 4, Some((m[4], true))),
    ];

    for (attendance, price_tier, expected) in cases {
        assert_eq!(
            newguest_dispatch(attendance, price_tier, m),
            expected,
            "attendance={:#x}, price_tier={}",
            attendance,
            price_tier
        );
    }
}

#[test]
fn newguest_band_edges() {
    let m = [1, 2, 3, 4, 5];
    assert_eq!(newguest_dispatch(0x51, 0, m), Some((1, false)));
    assert_eq!(newguest_dispatch(0x50, 0, m), None);
    assert_eq!(newguest_dispatch(0x3c, 1, m), Some((2, false)));
    assert_eq!(newguest_dispatch(0x3b, 1, m), Some((1, false)));
    assert_eq!(newguest_dispatch(0x1e, 1, m), Some((1, false)));
    assert_eq!(newguest_dispatch(0x1d, 1, m), None);
    assert_eq!(newguest_dispatch(-5, 7, m), None);
}

#[test]
fn legacy_band_checks_in_order() {
    assert_eq!(legacy_band(2, 2, 10, 12, 5, 8), Some(false));
    assert_eq!(legacy_band(11, 2, 10, 12, 5, 8), Some(false));
    assert_eq!(legacy_band(6, 2, 10, 12, 5, 8), Some(true));
    assert_eq!(legacy_band(4, 2, 10, 12, 5, 8), None);
    assert_eq!(legacy_band(9, 2, 10, 12, 5, 8), None);
    assert_eq!(legacy_band(13, 2, 10, 12, 5, 20), Some(true));
}

#[test]
fn check_timers_fire_after_their_interval() {
    let mut t = CheckTimers::new();
    assert_eq!(t.advance(10000, false), PendingChecks { rating: false, message: false, newguest: false });
    assert_eq!(t.advance(1, false), PendingChecks { rating: true, message: true, newguest: true });
    let mut t = CheckTimers::new();
    assert_eq!(t.advance(5, true), PendingChecks { rating: true, message: false, newguest: false });
    assert_eq!(t.rating_check_elapsed, 5);
}

#[test]
fn score_average_rounds_toward_zero() {
    assert_eq!(score_average(&vec![]), 0);
    assert_eq!(score_average(&vec![10, 20, 31]), 20);
    assert_eq!(score_average(&vec![-10, -21]), -15);
}

#[test]
fn research_completion_is_a_whole_percentage() {
    assert_eq!(research_completion_percent(&vec![]), 100);
    assert_eq!(research_completion_percent(&vec![true, false, false]), 33);
    assert_eq!(research_completion_percent(&vec![true, true]), 100);
}

fn rating_inputs() -> ZooRatingInputs {
    ZooRatingInputs {
        num_animals: 10,
        animal_condition_counter_1: 2,
        num_species: 5,
        species_rating_cap: 44,
        animal_rating_metric: 60,
        guest_rating_metric: -20,
        field_0x4c: 45000,
        research_completion_percent: 40,
        attendance_penalty: 3,
        hours_since_escape: 48 * 24,
        escape_decay_baseline: 30,
        escape_decay_per_day: 1,
    }
}

#[test]
fn zoo_rating_adds_its_terms() {
    assert_eq!(zoo_rating(&rating_inputs()), 52);
    assert_eq!(zoo_rating(&ZooRatingInputs { hours_since_escape: 0, ..rating_inputs() }), 22);
    assert_eq!(zoo_rating(&ZooRatingInputs { species_rating_cap: -10, ..rating_inputs() }), 61);
}

#[test]
fn zoo_rating_is_clamped() {
    let low = ZooRatingInputs { attendance_penalty: 500, ..rating_inputs() };
    assert_eq!(zoo_rating(&low), 0);
    let high = ZooRatingInputs { attendance_penalty: -500, ..rating_inputs() };
    assert_eq!(zoo_rating(&high), 100);
    let empty = ZooRatingInputs { num_animals: 0, num_species: 0, ..rating_inputs() };
    assert_eq!(zoo_rating(&empty), 39);
    assert_eq!(research_decay(40), 2);
    assert_eq!(research_decay(-30), -1);
}

#[test]
fn load_format_by_version() {
    let old = load_format(0xc);
    assert!(!old.has_header && old.history.is_none() && !old.has_admission_price && !old.has_escape_time);
    let v16 = load_format(0x16);
    assert!(v16.has_header && v16.finance_flag_as_counter && v16.has_discarded_word && v16.history.is_none());
    assert_eq!(load_format(0x17).history, Some(HistoryLayout::Legacy));
    assert!(load_format(0x17).has_discarded_word && !load_format(0x18).has_discarded_word);
    assert!(load_format(0x18).migrates_bands && !load_format(0x19).migrates_bands);
    assert_eq!(load_format(0x26).history, Some(HistoryLayout::Compat));
    assert!(!load_format(0x26).has_admission_price && load_format(0x27).has_admission_price);
    assert_eq!(load_format(0x47).history, Some(HistoryLayout::Current));
    assert!(load_format(0x47).has_escape_time && !load_format(0x46).has_escape_time);
}

#[test]
fn history_sizes_and_bands() {
    assert!(finance_pending_from_counter(360_001));
    assert!(!finance_pending_from_counter(360_000));
    assert!(history_counts_fit(31, 20));
    assert!(!history_counts_fit(32, 20));
    assert!(!history_counts_fit(31, -1));
    assert_eq!(filled_categories(-3), 0);
    assert_eq!(filled_categories(40), 31);
    assert_eq!(filled_categories(12), 12);
    assert_eq!(monthly_migration_band(0), Some(false));
    assert_eq!(monthly_migration_band(3), Some(false));
    assert_eq!(monthly_migration_band(4), None);
    assert_eq!(monthly_migration_band(5), Some(true));
    assert_eq!(monthly_migration_band(13), Some(false));
    assert_eq!(yearly_migration_band(3), Some(false));
    assert_eq!(yearly_migration_band(5), Some(true));
    assert_eq!(flat_migration_band(7), Some(true));
    assert_eq!(flat_migration_band(12), Some(false));
    assert_eq!(flat_migration_band(4), None);
}

fn guest(hunger: i32, thirst: i32, restroom: i32, tired: i32, flag: bool, sub_flag: bool, score: i32) -> GuestSample {
    GuestSample { hunger, thirst, restroom, tired, flag, sub_flag, score }
}

#[test]
fn tallies_count_needs_flags_and_means() {
    let guests = vec![guest(60, 10, 0, 51, true, false, 70), guest(50, 90, 80, 0, false, true, 30), guest(0, 0, 0, 0, false, false, -10)];
    let animals = vec![AnimalSample { score: 40, flag: true }, AnimalSample { score: 45, flag: false }];
    let t = tally(&guests, &animals, 50);
    assert_eq!(
        t,
        ZooTallies {
            num_animals: 2,
            animal_condition_counter_1: 1,
            num_tired_guests: 1,
            num_hungry_guests: 1,
            num_thirst_guests: 1,
            num_guests_restroom_need: 1,
            guest_condition_counter_1: 1,
            guest_condition_counter_2: 1,
            guest_tile_count: 3,
            animal_rating_metric: 42,
            guest_rating_metric: 30,
        }
    );
    let empty = tally(&vec![], &vec![], 0);
    assert_eq!((empty.guest_tile_count, empty.guest_rating_metric, empty.animal_rating_metric), (0, 0, 0));
}

#[test]
fn newguest_gates_and_attendance() {
    assert!(newguest_possible(0, 2));
    assert!(!newguest_possible(1, 2));
    assert!(!newguest_possible(0, 0));
    assert_eq!(newguest_attendance(50, None, true, false), 50);
    assert_eq!(newguest_attendance(50, Some(7), false, false), 57);
    assert_eq!(newguest_attendance(50, Some(7), true, true), 94);
    assert_eq!(newguest_attendance(-10, Some(-5), true, false), -20);
}

#[test]
fn donation_roll_grants_within_range_until_the_allowance_is_used() {
    // allowance of 3 per period, donations between 10000 and 20000
    assert_eq!(donation_outcome(1, 3, 10000, 20000, 1234), DonationOutcome::Grant(11234));
    assert_eq!(donation_outcome(3, 3, 10000, 20000, 32767), DonationOutcome::Grant(12767));
    assert_eq!(donation_outcome(2, 3, 10000, 20000, 25000), DonationOutcome::Grant(15000));
    assert_eq!(donation_outcome(4, 3, 10000, 20000, 7), DonationOutcome::AllowanceUsedUp);
    assert_eq!(donation_outcome(5, 3, 10000, 20000, 7), DonationOutcome::Nothing);
    // an empty or inverted range grants the minimum
    assert_eq!(donation_outcome(1, 3, 500, 500, 99), DonationOutcome::Grant(500));
    assert_eq!(donation_outcome(1, 3, 500, 100, 99), DonationOutcome::Grant(500));
    // a negative roll keeps the sign of Rust's remainder
    assert_eq!(donation_outcome(1, 3, 10000, 20000, -3), DonationOutcome::Grant(9997));
}

#[test]
fn chance_rolls_read_only_the_low_byte() {
    assert!(!roll_succeeded(0));
    assert!(!roll_succeeded(0xabcd_ef00));
    assert!(roll_succeeded(1));
    assert!(roll_succeeded(0x0000_0180));
}

#[test]
fn newguest_plan_combines_gate_attendance_and_dispatch() {
    let m = [10, 20, 30, 40, 50];
    // an escaped animal or no occupied exhibit stops the check
    assert_eq!(newguest_plan(1, 4, 90, None, false, false, 4, m), None);
    assert_eq!(newguest_plan(0, 0, 90, None, false, false, 4, m), None);
    // rating 50 + benefit 10 doubled = 70: upper middle band, cheapest tier
    assert_eq!(newguest_plan(0, 2, 50, Some(10), true, false, 4, m), Some((50, true)));
    assert_eq!(newguest_plan(0, 2, 50, Some(10), true, false, 4, m), newguest_dispatch(70, 4, m));
    // rating 20 + flat 30 = 50: lower middle band
    assert_eq!(newguest_plan(0, 2, 20, None, false, true, 1, m), newguest_dispatch(50, 1, m));
}

fn no_shares() -> ConditionShares {
    ConditionShares {
        protestors: false,
        sick: false,
        hungry: false,
        thirsty: false,
        bathroom: false,
        souvenir: false,
        tired: false,
        trash: false,
    }
}

fn ids(v: &[ZooMessage]) -> Vec<u32> {
    v.iter().map(|m| m.id).collect()
}

#[test]
fn message_check_posts_in_order_and_gates_guest_checks() {
    let mut shares = no_shares();
    shares.protestors = true;
    shares.hungry = true;
    shares.trash = true;
    // few guests: only the protestors warning and the cash warnings
    let few = zoo_messages(shares, 10, 50, 90, 0, 500);
    assert_eq!(ids(&few), vec![0x2719, 0x2722]);
    // many guests: the guest checks run too
    let many = zoo_messages(shares, 11, 50, 90, 0, 500);
    assert_eq!(ids(&many), vec![0x2719, 0x271b, 0x2720, 0x2722]);
    assert_eq!(many[0], ZooMessage { id: 0x2719, priority: 2 });
}

#[test]
fn message_check_guest_happiness_and_cash() {
    let happy = zoo_messages(no_shares(), 20, 90, 90, 0, 5000);
    assert_eq!(happy, vec![ZooMessage { id: 0x2725, priority: 1 }]);
    let unhappy = zoo_messages(no_shares(), 20, -5, 90, 0, 5000);
    assert_eq!(ids(&unhappy), vec![0x2726]);
    assert_eq!(ids(&zoo_messages(no_shares(), 0, 0, 90, 0, 0)), vec![0x2723]);
    assert_eq!(ids(&zoo_messages(no_shares(), 0, 0, 90, 0, -1)), vec![0x2723, 0x2724]);
    assert!(zoo_messages(no_shares(), 0, 0, 90, 0, 1000).is_empty());
}

#[test]
fn escaped_animals_are_counted_through_the_list_global() {
    let mut mem = openzt::memory::ZtMemory::zeroed(0x3000, 0x40).unwrap();
    // the global at 0x3000 holds the sentinel's address, 0x3010
    mem.save_u32(0x3000, 0x3010);
    mem.save_u32(0x3010, 0x3010);
    assert_eq!(count_escaped_animals(&mem, 0x3000), 0);
    mem.save_u32(0x3010, 0x3020);
    mem.save_u32(0x3020, 0x3030);
    mem.save_u32(0x3030, 0x3010);
    assert_eq!(count_escaped_animals(&mem, 0x3000), 2);
}

fn sample_core() -> openzt::zoostatus::StatusCore {
    openzt::zoostatus::StatusCore {
        timers: CheckTimers::new(),
        finance_check_pending: true,
        zoo_rating_current: 55,
        tallies: ZooTallies {
            num_animals: 4,
            animal_condition_counter_1: 3,
            num_tired_guests: 1,
            num_hungry_guests: 1,
            num_thirst_guests: 1,
            num_guests_restroom_need: 1,
            guest_condition_counter_1: 1,
            guest_condition_counter_2: 1,
            guest_tile_count: 9,
            animal_rating_metric: 7,
            guest_rating_metric: 8,
        },
        num_species: 6,
        field_0x48: 9,
        field_0x4c: 9,
        field_0x50: 9,
        field_0x54: 9,
        field_0x58: 9,
        research_completion_percent: 40,
        current_month_index: 7,
        current_year_index: 3,
        settings: openzt::zoo_settings::ZooSettings::defaults(),
        last_animal_escape_timestamp: 5,
    }
}

fn all_reads() -> openzt::zoostatus::LoadReads {
    openzt::zoostatus::LoadReads {
        rating_check_elapsed: Some(11),
        message_check_elapsed: Some(12),
        newguest_check_elapsed: Some(13),
        finance: Some(1),
        zoo_rating_current: Some(70),
        field_0x48: Some(3),
        field_0x50: Some(21),
        field_0x54: Some(22),
        discarded_word_read: true,
        donation_count_read: true,
        current_month_index: Some(4),
        current_year_index: Some(2),
        category_count: Some(31),
        year_count: Some(20),
        history_read: true,
        admission_price_read: true,
        escape_time: Some(0xdead),
    }
}

#[test]
fn tracker_init_sets_cursor_timers_and_settings() {
    let mut c = sample_core();
    let reads = vec![(IntSetting::RatingCheckInterval, 500)];
    c.init(Some(&reads), 0x1234);
    assert_eq!(c.current_month_index, 1);
    assert_eq!(c.current_year_index, 0);
    assert_eq!(c.timers.rating_check_interval, 500);
    assert_eq!(c.timers.message_check_interval, 10000);
    assert_eq!(c.timers.rating_check_elapsed, 0);
    assert_eq!(c.settings.rating_check_interval, 500);
    assert!(!c.finance_check_pending);
    assert_eq!(c.zoo_rating_current, 0);
    assert_eq!(c.tallies.num_animals, 0);
    assert_eq!(c.tallies.animal_condition_counter_1, 3);
    assert_eq!(c.num_species, 6);
    assert_eq!((c.field_0x48, c.field_0x4c), (2, 10000));
    assert_eq!(c.last_animal_escape_timestamp, 0x1234);
    c.override_config(Some(&vec![(IntSetting::NewguestCheckInterval, 77)]));
    assert_eq!(c.timers.newguest_check_interval, 77);
    assert_eq!(c.timers.rating_check_interval, 500);
}

#[test]
fn tracker_load_of_oldest_saves_reads_nothing() {
    let mut c = sample_core();
    let before = c;
    let mut r = all_reads();
    r.rating_check_elapsed = None;
    assert_eq!(c.load(0xc, &r, 0x99), 1);
    assert_eq!(c.last_animal_escape_timestamp, 0x99);
    c.last_animal_escape_timestamp = before.last_animal_escape_timestamp;
    assert_eq!(c, before);
}

#[test]
fn tracker_load_current_layout_reads_everything() {
    let mut c = sample_core();
    assert_eq!(c.load(0x50, &all_reads(), 0x99), 1);
    assert_eq!(c.timers.rating_check_elapsed, 11);
    assert_eq!(c.timers.newguest_check_elapsed, 13);
    assert!(c.finance_check_pending);
    assert_eq!(c.zoo_rating_current, 70);
    assert_eq!((c.field_0x48, c.field_0x50, c.field_0x54), (3, 21, 22));
    assert_eq!((c.current_month_index, c.current_year_index), (4, 2));
    assert_eq!(c.last_animal_escape_timestamp, 0xdead);
    assert_eq!(c.timers.rating_check_interval, 10000);
}

#[test]
fn tracker_load_failures() {
    // a failed read before the history sizes fails at once, leaving the escape time
    let mut c = sample_core();
    let mut r = all_reads();
    r.field_0x50 = None;
    assert_eq!(c.load(0x50, &r, 0x99), 0);
    assert_eq!(c.field_0x50, 9);
    assert_eq!(c.zoo_rating_current, 70);
    assert_eq!(c.last_animal_escape_timestamp, 5);
    // history sizes too large for a current-layout save
    let mut c = sample_core();
    let mut r = all_reads();
    r.category_count = Some(32);
    assert_eq!(c.load(0x50, &r, 0x99), 0);
    assert_eq!(c.current_month_index, 4);
    assert_eq!(c.last_animal_escape_timestamp, 5);
    // the same sizes in a compat-layout save are fine
    let mut c = sample_core();
    assert_eq!(c.load(0x30, &r, 0x99), 1);
    assert_eq!(c.last_animal_escape_timestamp, 0x99);
    // an old save's finance counter
    let mut c = sample_core();
    let mut r = all_reads();
    r.finance = Some(360_000);
    assert_eq!(c.load(0x15, &r, 0x99), 1);
    assert!(!c.finance_check_pending);
    assert_eq!(c.current_month_index, 7);
    // a failed escape-time read
    let mut c = sample_core();
    let mut r = all_reads();
    r.escape_time = None;
    assert_eq!(c.load(0x50, &r, 0x99), 0);
    // a failed price read in a save that stores it
    let mut c = sample_core();
    let mut r = all_reads();
    r.admission_price_read = false;
    assert_eq!(c.load(0x30, &r, 0x99), 0);
    assert_eq!(c.load(0x20, &r, 0x99), 1);
}
