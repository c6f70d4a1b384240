use openzt::gamemgr::{GameMgrClock, GameMgrLoad};
use openzt::gamemgr::{
    advance_clock, advance_sim_counters, animal_time_ago, command_enable_dev_mode, command_get_date_str, command_zoostats,
    hours_ago, is_game_date, is_real_world_date, load_header_ok, month_changed, new_game_date, parse_bool, people_time_ago,
    rating_from_metric, stores_elapsed_ticks,
    time_ago, CommandError, GameDate, ZooStats, ANY_DATE_FIELD, DEV_MODE_ADDRESS,
};
use openzt::memory::ZtMemory;

#[test]
fn rating_from_metric_zero_population_short_circuits() {
    assert_eq!(rating_from_metric(500, 0), 0);
    assert_eq!(rating_from_metric(-500, 0), 0);
}

#[test]
fn rating_from_metric_applies_the_real_formula() {
    assert_eq!(rating_from_metric(0, 1), 50);
    assert_eq!(rating_from_metric(100, 1), 100);
    assert_eq!(rating_from_metric(-100, 1), 0);
    assert_eq!(rating_from_metric(300, 1), 200);
}

#[test]
fn rating_from_metric_rounds_toward_zero() {
    assert_eq!(rating_from_metric(-103, 5), -1);
    assert_eq!(rating_from_metric(-101, 5), 0);
    assert_eq!(rating_from_metric(1, 5), 50);
}

const HOUR: u64 = 36_000_000_000;

#[test]
fn time_differences_wrap_and_divide_into_hours() {
    assert_eq!(time_ago(100, 40), 60);
    assert_eq!(time_ago(40, 100), u64::MAX - 59);
    assert_eq!(hours_ago(5 * HOUR + 7, 0), 5);
    assert_eq!(hours_ago(HOUR - 1, 0), 0);
}

#[test]
fn animal_time_buckets() {
    assert_eq!(animal_time_ago(1439 * HOUR, 0), 0);
    assert_eq!(animal_time_ago(1440 * HOUR, 0), 1);
    assert_eq!(animal_time_ago(8640 * HOUR, 0), 1);
    assert_eq!(animal_time_ago(8641 * HOUR, 0), 2);
}

#[test]
fn people_time_buckets() {
    assert_eq!(people_time_ago(1439 * HOUR, 0), 0);
    assert_eq!(people_time_ago(1440 * HOUR, 0), 1);
    assert_eq!(people_time_ago(5759 * HOUR, 0), 1);
    assert_eq!(people_time_ago(5760 * HOUR, 0), 2);
    assert_eq!(people_time_ago(8639 * HOUR, 0), 2);
    assert_eq!(people_time_ago(8640 * HOUR, 0), 3);
}

fn date(year: u16, month: u16, day: u16) -> GameDate {
    GameDate { year, month, day_of_week: 0, day, hour: 7, minute: 5, second: 9, milliseconds: 0 }
}

#[test]
fn game_date_queries_honour_the_wildcard() {
    let d = Some(date(2001, 3, 14));
    assert!(is_game_date(d, 14, 3));
    assert!(is_game_date(d, ANY_DATE_FIELD, 3));
    assert!(is_game_date(d, 14, ANY_DATE_FIELD));
    assert!(!is_game_date(d, 15, 3));
    assert!(!is_game_date(None, ANY_DATE_FIELD, ANY_DATE_FIELD));
    assert!(is_real_world_date(date(2024, 12, 25), 25, 12));
    assert!(!is_real_world_date(date(2024, 12, 25), ANY_DATE_FIELD, 12));
}

#[test]
fn sim_counters_refresh_past_the_threshold() {
    let c = advance_sim_counters(10, 1000, 1);
    assert_eq!(c.elapsed_sim_ticks, 11);
    assert_eq!(c.tick_accumulator, 1001);
    assert!(!c.refresh_ui);
    let c = advance_sim_counters(u32::MAX, 1001, 2);
    assert_eq!(c.elapsed_sim_ticks, 1);
    assert!(c.refresh_ui);
    assert_eq!(c.tick_accumulator, 1003 % 1001);
}

#[test]
fn clock_and_month_change() {
    assert_eq!(advance_clock(5, 2), 5 + 144_000_000);
    assert_eq!(advance_clock(u64::MAX, 1), 71_999_999);
    assert!(month_changed(date(2001, 1, 31), date(2001, 2, 1)));
    assert!(!month_changed(date(2001, 1, 30), date(2001, 1, 31)));
}

#[test]
fn new_game_starts_on_the_first_of_january_2001() {
    let d = new_game_date();
    assert_eq!((d.year, d.month, d.day, d.day_of_week, d.hour), (2001, 1, 1, 1, 0));
}

#[test]
fn date_string_is_zero_padded() {
    assert_eq!(command_get_date_str(date(2001, 3, 4)).unwrap(), "2001-03-04 07:05:09");
    let mut late = date(12345, 11, 30);
    late.hour = 23;
    assert_eq!(command_get_date_str(late).unwrap(), "12345-11-30 23:05:09");
}

#[test]
fn parse_bool_accepts_exactly_true_and_false() {
    assert_eq!(parse_bool("true"), Some(true));
    assert_eq!(parse_bool("false"), Some(false));
    assert_eq!(parse_bool("True"), None);
    assert_eq!(parse_bool(" true"), None);
    assert_eq!(parse_bool(""), None);
}

#[test]
fn dev_mode_command_writes_the_flag() {
    let mut mem = ZtMemory::zeroed(DEV_MODE_ADDRESS - 2, 8).unwrap();
    assert_eq!(command_enable_dev_mode(&mut mem, vec!["true"]).unwrap(), "Dev mode enabled: true");
    assert_eq!(mem.get_u8(DEV_MODE_ADDRESS), 1);
    assert_eq!(command_enable_dev_mode(&mut mem, vec!["false"]).unwrap(), "Dev mode enabled: false");
    assert_eq!(mem.get_u8(DEV_MODE_ADDRESS), 0);
    assert_eq!(command_enable_dev_mode(&mut mem, vec!["yes"]), Err(CommandError::InvalidBool));
    assert_eq!(mem.get_u8(DEV_MODE_ADDRESS), 0);
}

#[test]
fn zoostats_lists_every_figure() {
    let stats = ZooStats {
        budget: "50000".to_string(),
        animals: 12,
        species: 4,
        tired_guests: 1,
        hungry_guests: 2,
        thirsty_guests: 3,
        guests_need_restroom: 0,
        guest_tiles: 250,
        admission_cost: "20".to_string(),
    };
    assert_eq!(
        command_zoostats(&stats).unwrap(),
        "\nBudget: 50000\nAnimals: 12\nSpecies: 4\nTired Guests: 1\nHungry Guests: 2\nThirsty Guests: 3\nGuests Need Restroom: 0\nGuest Tiles: 250\nZoo Admission Cost: $20"
    );
}

#[test]
fn load_steps() {
    assert!(load_header_ok(true, 1));
    assert!(load_header_ok(true, 0x101));
    assert!(!load_header_ok(true, 0x100));
    assert!(!load_header_ok(false, 1));
    assert!(stores_elapsed_ticks(0x49));
    assert!(!stores_elapsed_ticks(0x48));
}

#[test]
fn game_mgr_load_steps_and_failures() {
    let start = GameMgrClock { date: new_game_date(), elapsed_sim_ticks: 42 };
    let mut later = new_game_date();
    later.year = 2003;
    // marker or tracker failure: nothing changes
    let mut c = start;
    assert_eq!(c.load(0x50, false, 1, Some(later), true, Some(9)), GameMgrLoad { ok: false, take_cash: false });
    assert_eq!(c, start);
    assert_eq!(c.load(0x50, true, 0x100, Some(later), true, Some(9)), GameMgrLoad { ok: false, take_cash: false });
    assert_eq!(c, start);
    // failed budget read: the date is stored, the ticks stay
    assert_eq!(c.load(0x50, true, 1, Some(later), false, Some(9)), GameMgrLoad { ok: false, take_cash: false });
    assert_eq!(c.date.year, 2003);
    assert_eq!(c.elapsed_sim_ticks, 42);
    // newer save: ticks read
    let mut c = start;
    assert_eq!(c.load(0x50, true, 1, Some(later), true, Some(9)), GameMgrLoad { ok: true, take_cash: true });
    assert_eq!(c.elapsed_sim_ticks, 9);
    // older save: ticks restart
    let mut c = start;
    assert_eq!(c.load(0x48, true, 1, Some(later), true, None), GameMgrLoad { ok: true, take_cash: true });
    assert_eq!(c.elapsed_sim_ticks, 0);
    // failed ticks read
    let mut c = start;
    assert_eq!(c.load(0x49, true, 1, Some(later), true, None), GameMgrLoad { ok: false, take_cash: true });
    assert_eq!(c.elapsed_sim_ticks, 42);
}
