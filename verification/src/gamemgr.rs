//! The game manager's arithmetic: ratings shown in the UI, the simulation clock, date queries and
//! the console commands that read or change game state.
//!
//! Dates are held the way the game holds them: a calendar date (`GameDate`, the fields of a Win32
//! `SYSTEMTIME`) and, for arithmetic, a count of 100 ns ticks (a `FILETIME`). Converting between the
//! two is the operating system's work and happens outside this library; the functions here take the
//! converted values.
use vstd::prelude::*;
use crate::memory::ZtMemory;
use crate::zoostatus::trunc_div;
use crate::text::{decimal, owned, padded_decimal, push_char, push_padded_decimal, push_str, str_eq};

verus! {

/// The calendar date and time of the game clock.
#[derive(Clone, Copy, Debug, PartialEq, Eq, Structural)]
pub struct GameDate {
    pub year: u16,
    pub month: u16,
    pub day_of_week: u16,
    pub day: u16,
    pub hour: u16,
    pub minute: u16,
    pub second: u16,
    pub milliseconds: u16,
}

/// The rating the UI shows for a raw metric: 0 when nothing is counted, else
/// `(metric + 100) * 100 / 200` rounded toward zero.
pub open spec fn spec_rating(metric: int, population: int) -> int {
    if population == 0 {
        0
    } else {
        trunc_div((metric + 100) * 100, 200)
    }
}

/// Whether the rating formula stays within 32-bit arithmetic for `metric`.
pub open spec fn rating_fits(metric: int, population: int) -> bool {
    population != 0 ==> i32::MIN <= (metric + 100) * 100 <= i32::MAX
}

/// The animal or guest rating shown in the UI for the zoo's raw `metric`, 0 when `population` (the
/// number of animals, or of guest tiles) is 0.
pub fn rating_from_metric(metric: i32, population: u16) -> (r: i32)
    requires
        rating_fits(metric as int, population as int),
    ensures
        r == spec_rating(metric as int, population as int),
{
    if population == 0 {
        0
    } else {
        (metric + 100) * 100 / 200
    }
}

/// The date a new game starts on: Monday, January 1st 2001, midnight.
pub fn new_game_date() -> (d: GameDate)
    ensures
        d == (GameDate {
            year: 2001,
            month: 1,
            day_of_week: 1,
            day: 1,
            hour: 0,
            minute: 0,
            second: 0,
            milliseconds: 0,
        }),
{
    GameDate { year: 0x7d1, month: 1, day_of_week: 1, day: 1, hour: 0, minute: 0, second: 0, milliseconds: 0 }
}

/// Ticks of 100 ns in one hour.
pub const TICKS_PER_HOUR: u64 = 36_000_000_000;

/// Ticks of 100 ns that one simulation tick advances the game clock by.
pub const TICKS_PER_SIM_TICK: u64 = 72_000_000;

/// The raw tick accumulator value above which the UI ratings, money and date are refreshed.
pub const UI_REFRESH_THRESHOLD: i32 = 0x3e9;

/// Time elapsed from `reference` to `now`, both in ticks, as a wrapping 64-bit difference.
pub fn time_ago(now: u64, reference: u64) -> (r: u64)
    ensures
        r == now.wrapping_sub(reference),
        reference <= now ==> r == now - reference,
{
    now.wrapping_sub(reference)
}

/// Whole hours elapsed from `reference` to `now`.
pub fn hours_ago(now: u64, reference: u64) -> (r: u64)
    ensures
        r == now.wrapping_sub(reference) / TICKS_PER_HOUR,
{
    time_ago(now, reference) / TICKS_PER_HOUR
}

/// The hour count as the game compares it: its low 32 bits, read as signed.
pub open spec fn signed_hours(hours: u64) -> i32 {
    (hours as u32) as i32
}

/// How long ago, for an animal, `reference` was: 0 under 60 days (1440 hours), 2 over 360 days
/// (8640 hours), 1 in between.
pub open spec fn spec_animal_time_ago(hours: i32) -> u32 {
    if hours < 0x5a0 {
        0
    } else if hours > 0x21c0 {
        2
    } else {
        1
    }
}

/// How long ago, for a guest, `reference` was: 0 under 1440 hours, 1 up to 5759, 2 up to 8639,
/// 3 beyond.
pub open spec fn spec_people_time_ago(hours: i32) -> u32 {
    if hours < 0x5a0 {
        0
    } else if hours <= 0x167f {
        1
    } else if hours <= 0x21bf {
        2
    } else {
        3
    }
}

/// The low 32 bits of an hour count, read as a signed value.
fn low_signed(hours: u64) -> (r: i32)
    ensures
        r == signed_hours(hours),
{
    (hours as u32) as i32
}

/// The age bucket of `reference` for an animal, from the game clock `now`.
pub fn animal_time_ago(now: u64, reference: u64) -> (r: u32)
    ensures
        r == spec_animal_time_ago(signed_hours(now.wrapping_sub(reference) / TICKS_PER_HOUR)),
{
    let hours = low_signed(hours_ago(now, reference));
    if hours < 0x5a0 {
        0
    } else if hours > 0x21c0 {
        2
    } else {
        1
    }
}

/// The age bucket of `reference` for a guest, from the game clock `now`.
pub fn people_time_ago(now: u64, reference: u64) -> (r: u32)
    ensures
        r == spec_people_time_ago(signed_hours(now.wrapping_sub(reference) / TICKS_PER_HOUR)),
{
    let hours = low_signed(hours_ago(now, reference));
    if hours < 0x5a0 {
        0
    } else if hours <= 0x167f {
        1
    } else if hours <= 0x21bf {
        2
    } else {
        3
    }
}

/// The value that matches any day or any month in a date query.
pub const ANY_DATE_FIELD: u32 = 0xffffffff;

/// Whether `date` falls on `day` of `month`, either of which may be `ANY_DATE_FIELD`.
pub open spec fn spec_date_matches(date: GameDate, day: u32, month: u32) -> bool {
    (day == ANY_DATE_FIELD || date.day as u32 == day) && (month == ANY_DATE_FIELD || date.month as u32
        == month)
}

/// Whether the game clock, converted back to a calendar date (`None` when that conversion failed),
/// falls on `day` of `month`; `ANY_DATE_FIELD` matches any day or month.
pub fn is_game_date(converted: Option<GameDate>, day: u32, month: u32) -> (r: bool)
    ensures
        r == match converted {
            Some(date) => spec_date_matches(date, day, month),
            None => false,
        },
{
    match converted {
        Some(date) => (day == ANY_DATE_FIELD || date.day as u32 == day) && (month == ANY_DATE_FIELD
            || date.month as u32 == month),
        None => false,
    }
}

/// Whether today's real-world date `today` is `day` of `month` (no wildcard here).
pub fn is_real_world_date(today: GameDate, day: u32, month: u32) -> (r: bool)
    ensures
        r == (today.day as u32 == day && today.month as u32 == month),
{
    today.day as u32 == day && today.month as u32 == month
}

/// The simulation counters after one update.
#[derive(Clone, Copy, Debug, PartialEq, Eq, Structural)]
pub struct SimCounters {
    /// Simulation ticks since the game started.
    pub elapsed_sim_ticks: u32,
    /// The global accumulator that paces UI refreshes.
    pub tick_accumulator: i32,
    /// Whether this update refreshes the ratings, money and date shown in the UI.
    pub refresh_ui: bool,
}

/// The accumulator after adding `delta`, before any refresh.
pub open spec fn accumulated(accumulator: i32, delta: u32) -> i32 {
    accumulator.wrapping_add(delta as i32)
}

/// Advances the simulation counters by `delta` ticks: the elapsed count and the accumulator wrap
/// on overflow; once the accumulator exceeds `UI_REFRESH_THRESHOLD` it is reduced modulo that value
/// and the UI is refreshed.
pub fn advance_sim_counters(elapsed_sim_ticks: u32, tick_accumulator: i32, delta: u32) -> (c: SimCounters)
    ensures
        c.elapsed_sim_ticks == elapsed_sim_ticks.wrapping_add(delta),
        c.refresh_ui == (accumulated(tick_accumulator, delta) > UI_REFRESH_THRESHOLD),
        c.refresh_ui ==> c.tick_accumulator == accumulated(tick_accumulator, delta) % UI_REFRESH_THRESHOLD,
        !c.refresh_ui ==> c.tick_accumulator == accumulated(tick_accumulator, delta),
        c.tick_accumulator <= UI_REFRESH_THRESHOLD,
{
    let elapsed = elapsed_sim_ticks.wrapping_add(delta);
    let mut acc = tick_accumulator.wrapping_add(delta as i32);
    let refresh = acc > UI_REFRESH_THRESHOLD;
    if refresh {
        acc = acc % UI_REFRESH_THRESHOLD;
    }
    SimCounters { elapsed_sim_ticks: elapsed, tick_accumulator: acc, refresh_ui: refresh }
}

/// The game clock, in ticks, after `delta` simulation ticks (wrapping on overflow).
pub fn advance_clock(ticks: u64, delta: u32) -> (r: u64)
    ensures
        r == ticks.wrapping_add((delta as u64 * TICKS_PER_SIM_TICK) as u64),
{
    assert(delta as u64 * TICKS_PER_SIM_TICK <= u64::MAX) by (nonlinear_arith)
        requires
            delta <= u32::MAX,
    ;
    ticks.wrapping_add(delta as u64 * TICKS_PER_SIM_TICK)
}

/// Whether advancing the clock turned the month: the flag the game raises for month-end work.
pub fn month_changed(previous: GameDate, next: GameDate) -> (r: bool)
    ensures
        r == (previous.month != next.month),
{
    previous.month != next.month
}

/// The text `command_get_date_str` gives for `d`: `YYYY-MM-DD hh:mm:ss`, each field zero-padded.
pub open spec fn date_text(d: GameDate) -> Seq<char> {
    padded_decimal(d.year as nat, 4) + seq!['-'] + padded_decimal(d.month as nat, 2) + seq!['-']
        + padded_decimal(d.day as nat, 2) + seq![' '] + padded_decimal(d.hour as nat, 2) + seq![':']
        + padded_decimal(d.minute as nat, 2) + seq![':'] + padded_decimal(d.second as nat, 2)
}

/// The error of a console command.
#[derive(Clone, Copy, Debug, PartialEq, Eq, Structural)]
pub enum CommandError {
    /// The argument is not `true` or `false`.
    InvalidBool,
}

/// The game date as text, `YYYY-MM-DD hh:mm:ss`.
pub fn command_get_date_str(date: GameDate) -> (r: Result<String, CommandError>)
    ensures
        r matches Ok(s) && s@ == date_text(date),
{
    let mut s = String::new();
    push_padded_decimal(&mut s, date.year as u64, 4);
    push_char(&mut s, '-');
    push_padded_decimal(&mut s, date.month as u64, 2);
    push_char(&mut s, '-');
    push_padded_decimal(&mut s, date.day as u64, 2);
    push_char(&mut s, ' ');
    push_padded_decimal(&mut s, date.hour as u64, 2);
    push_char(&mut s, ':');
    push_padded_decimal(&mut s, date.minute as u64, 2);
    push_char(&mut s, ':');
    push_padded_decimal(&mut s, date.second as u64, 2);
    assert(s@ =~= date_text(date));
    Ok(s)
}

/// `bool`'s parse: exactly `true` or `false`.
pub open spec fn spec_parse_bool(s: Seq<char>) -> Option<bool> {
    if s == seq!['t', 'r', 'u', 'e'] {
        Some(true)
    } else if s == seq!['f', 'a', 'l', 's', 'e'] {
        Some(false)
    } else {
        None
    }
}

/// Parses `true` or `false`; any other text is refused.
pub fn parse_bool(s: &str) -> (r: Option<bool>)
    ensures
        r == spec_parse_bool(s@),
{
    let t = "true";
    let f = "false";
    proof {
        reveal_strlit("true");
        reveal_strlit("false");
        assert(t@ =~= seq!['t', 'r', 'u', 'e']);
        assert(f@ =~= seq!['f', 'a', 'l', 's', 'e']);
    }
    if str_eq(s, t) {
        Some(true)
    } else if str_eq(s, f) {
        Some(false)
    } else {
        None
    }
}

/// The address of the game's developer-mode flag.
pub const DEV_MODE_ADDRESS: u32 = 0x63858A;

/// The reply of `command_enable_dev_mode` for `enable`.
pub open spec fn dev_mode_reply(enable: bool) -> Seq<char> {
    seq!['D', 'e', 'v', ' ', 'm', 'o', 'd', 'e', ' ', 'e', 'n', 'a', 'b', 'l', 'e', 'd', ':', ' ']
        + if enable {
        seq!['t', 'r', 'u', 'e']
    } else {
        seq!['f', 'a', 'l', 's', 'e']
    }
}

/// Turns developer mode on or off as the first argument (`true` or `false`) says, by writing the
/// flag byte at `DEV_MODE_ADDRESS`. The command needs its argument.
pub fn command_enable_dev_mode(mem: &mut ZtMemory, args: Vec<&str>) -> (r: Result<String, CommandError>)
    requires
        old(mem).mapped(DEV_MODE_ADDRESS as int),
        args@.len() > 0,
    ensures
        match spec_parse_bool(args@[0]@) {
            None => r == Err::<String, CommandError>(CommandError::InvalidBool) && *final(mem) == *old(mem),
            Some(b) => {
                &&& r matches Ok(s) && s@ == dev_mode_reply(b)
                &&& final(mem).spec_base() == old(mem).spec_base()
                &&& final(mem).spec_bytes() == old(mem).with_byte(DEV_MODE_ADDRESS as int, if b { 1u8 } else { 0u8 })
            },
        },
{
    let enable = match parse_bool(args[0]) {
        Some(b) => b,
        None => return Err(CommandError::InvalidBool),
    };
    mem.save_u8(DEV_MODE_ADDRESS, if enable { 1u8 } else { 0u8 });
    let mut reply = owned("Dev mode enabled: ");
    if enable {
        push_str(&mut reply, "true");
    } else {
        push_str(&mut reply, "false");
    }
    proof {
        reveal_strlit("Dev mode enabled: ");
        reveal_strlit("true");
        reveal_strlit("false");
    }
    assert(reply@ =~= dev_mode_reply(enable));
    Ok(reply)
}


/// The zoo figures `command_zoostats` reports. The budget and the admission price are money
/// amounts, given as the text the game prints for them.
#[derive(Debug)]
pub struct ZooStats {
    pub budget: String,
    pub animals: u16,
    pub species: u16,
    pub tired_guests: u16,
    pub hungry_guests: u16,
    pub thirsty_guests: u16,
    pub guests_need_restroom: u16,
    pub guest_tiles: u16,
    pub admission_cost: String,
}

/// The report of `command_zoostats`: one labelled line per figure.
pub open spec fn zoostats_text(z: ZooStats) -> Seq<char> {
    "\nBudget: "@ + z.budget@ + "\nAnimals: "@ + decimal(z.animals as nat) + "\nSpecies: "@
        + decimal(z.species as nat) + "\nTired Guests: "@ + decimal(z.tired_guests as nat)
        + "\nHungry Guests: "@ + decimal(z.hungry_guests as nat) + "\nThirsty Guests: "@
        + decimal(z.thirsty_guests as nat) + "\nGuests Need Restroom: "@ + decimal(
        z.guests_need_restroom as nat,
    ) + "\nGuest Tiles: "@ + decimal(z.guest_tiles as nat) + "\nZoo Admission Cost: $"@
        + z.admission_cost@
}

/// Reports the zoo's budget, animal and guest counts and admission price.
pub fn command_zoostats(stats: &ZooStats) -> (r: Result<String, CommandError>)
    ensures
        r matches Ok(s) && s@ == zoostats_text(*stats),
{
    let mut s = String::new();
    push_str(&mut s, "\nBudget: ");
    push_str(&mut s, stats.budget.as_str());
    push_str(&mut s, "\nAnimals: ");
    push_padded_decimal(&mut s, stats.animals as u64, 1);
    push_str(&mut s, "\nSpecies: ");
    push_padded_decimal(&mut s, stats.species as u64, 1);
    push_str(&mut s, "\nTired Guests: ");
    push_padded_decimal(&mut s, stats.tired_guests as u64, 1);
    push_str(&mut s, "\nHungry Guests: ");
    push_padded_decimal(&mut s, stats.hungry_guests as u64, 1);
    push_str(&mut s, "\nThirsty Guests: ");
    push_padded_decimal(&mut s, stats.thirsty_guests as u64, 1);
    push_str(&mut s, "\nGuests Need Restroom: ");
    push_padded_decimal(&mut s, stats.guests_need_restroom as u64, 1);
    push_str(&mut s, "\nGuest Tiles: ");
    push_padded_decimal(&mut s, stats.guest_tiles as u64, 1);
    push_str(&mut s, "\nZoo Admission Cost: $");
    push_str(&mut s, stats.admission_cost.as_str());
    assert(s@ =~= zoostats_text(*stats));
    Ok(s)
}

/// Whether loading the game manager's part of a save goes on past its first two steps: the marker
/// word was read and the status tracker's load succeeded (its result's low byte is non-zero).
pub fn load_header_ok(marker_read: bool, zoostatus_result: u32) -> (r: bool)
    ensures
        r == (marker_read && zoostatus_result % 256 != 0),
{
    let low = zoostatus_result & 0xff;
    assert(low == zoostatus_result % 256) by (bit_vector)
        requires
            low == zoostatus_result & 0xff,
    ;
    marker_read && low != 0
}

/// Whether a save of `version` stores the elapsed simulation ticks (older saves start them at 0).
pub fn stores_elapsed_ticks(version: u32) -> (r: bool)
    ensures
        r == (version > 0x48),
{
    version > 0x48
}

/// The integer part of the game manager that a load restores: the game clock's date and the
/// elapsed simulation ticks. The budget is floating point and is kept by the caller.
#[derive(Clone, Copy, Debug, PartialEq, Eq, Structural)]
pub struct GameMgrClock {
    pub date: GameDate,
    pub elapsed_sim_ticks: u32,
}

/// What a load of the game manager's part of a save reports.
#[derive(Clone, Copy, Debug, PartialEq, Eq, Structural)]
pub struct GameMgrLoad {
    /// The load succeeded.
    pub ok: bool,
    /// The budget read from the save is to be taken over.
    pub take_cash: bool,
}

/// The clock and report after loading the game manager's part of a save of `version`; see
/// `GameMgrClock::load`.
pub open spec fn spec_game_mgr_load(
    c: GameMgrClock,
    version: u32,
    marker_read: bool,
    zoostatus_result: u32,
    date: Option<GameDate>,
    cash_read: bool,
    elapsed: Option<u32>,
) -> (GameMgrClock, GameMgrLoad) {
    if !(marker_read && zoostatus_result % 256 != 0) {
        (c, GameMgrLoad { ok: false, take_cash: false })
    } else {
        let c1 = match date {
            Some(d) => GameMgrClock { date: d, ..c },
            None => c,
        };
        if !(date is Some && cash_read) {
            (c1, GameMgrLoad { ok: false, take_cash: false })
        } else if version > 0x48 {
            match elapsed {
                Some(t) => (GameMgrClock { elapsed_sim_ticks: t, ..c1 }, GameMgrLoad { ok: true, take_cash: true }),
                None => (c1, GameMgrLoad { ok: false, take_cash: true }),
            }
        } else {
            (GameMgrClock { elapsed_sim_ticks: 0, ..c1 }, GameMgrLoad { ok: true, take_cash: true })
        }
    }
}

impl GameMgrClock {
    /// Loads the game manager's part of a save of `version`, given the outcome of each read in
    /// file order: the marker word, the status tracker's load result (its low byte tells
    /// success), the date, the budget and, for saves newer than 0x48, the elapsed ticks (`None`
    /// where a read failed).
    ///
    /// A failed marker read or tracker load fails the load at once: nothing else is read, and the
    /// clock stays as it was. A date that was read is stored; a failed date or budget read then
    /// fails the load, leaving the budget and the ticks alone. Otherwise the budget is taken over,
    /// and the ticks are read (newer saves) or restart at 0 (older ones); a failed ticks read fails
    /// the load.
    pub fn load(
        &mut self,
        version: u32,
        marker_read: bool,
        zoostatus_result: u32,
        date: Option<GameDate>,
        cash_read: bool,
        elapsed: Option<u32>,
    ) -> (r: GameMgrLoad)
        ensures
            (*final(self), r) == spec_game_mgr_load(*old(self), version, marker_read, zoostatus_result, date, cash_read, elapsed),
    {
        if !load_header_ok(marker_read, zoostatus_result) {
            return GameMgrLoad { ok: false, take_cash: false };
        }
        if let Some(d) = date {
            self.date = d;
        }
        if !(date.is_some() && cash_read) {
            return GameMgrLoad { ok: false, take_cash: false };
        }
        if stores_elapsed_ticks(version) {
            match elapsed {
                Some(t) => {
                    self.elapsed_sim_ticks = t;
                    GameMgrLoad { ok: true, take_cash: true }
                },
                None => GameMgrLoad { ok: false, take_cash: true },
            }
        } else {
            self.elapsed_sim_ticks = 0;
            GameMgrLoad { ok: true, take_cash: true }
        }
    }
}

} // verus!
