//! The zoo status tracker's integer decisions: when its periodic checks run, how new guests are
//! drawn in, the averages it derives from the zoo's animals and guests, and the banding used when
//! migrating finance history from old saves.
use vstd::prelude::*;
use crate::memory::{list_len_is, list_node_count, ZtMemory};
use crate::zoo_settings::{default_settings, spec_override, IntSetting, ZooSettings};

verus! {

/// Attendance at or above this value is the highest band.
pub const ATTENDANCE_HIGH: i32 = 0x51;

/// Attendance above this value (and below `ATTENDANCE_HIGH`) is the upper middle band.
pub const ATTENDANCE_MID_HIGH: i32 = 0x3b;

/// Attendance above this value, up to `ATTENDANCE_MID_HIGH`, is the lower middle band.
pub const ATTENDANCE_MID_LOW: i32 = 0x1d;

/// The arrival chance and whether the arrival shows a message, for attendance `attendance` and
/// admission price tier `tier` (0 for a price above every tier boundary, up to 4 for one at or
/// below the lowest), picking from the five guest-type multipliers `m`; `None` when no guest
/// arrives.
pub open spec fn spec_newguest_dispatch(attendance: i32, tier: i32, m: Seq<i32>) -> Option<(i32, bool)> {
    if attendance >= ATTENDANCE_HIGH {
        if tier == 1 {
            Some((m[2], false))
        } else if tier == 2 {
            Some((m[3], false))
        } else if tier == 3 {
            Some((m[3], true))
        } else if tier == 4 {
            Some((m[4], true))
        } else {
            Some((m[0], false))
        }
    } else if attendance > ATTENDANCE_MID_HIGH {
        if tier == 1 {
            Some((m[1], false))
        } else if tier == 2 {
            Some((m[2], false))
        } else if tier == 3 {
            Some((m[3], false))
        } else if tier == 4 {
            Some((m[4], true))
        } else {
            None
        }
    } else if attendance > ATTENDANCE_MID_LOW {
        if tier == 1 {
            Some((m[0], false))
        } else if tier == 2 {
            Some((m[2], false))
        } else if tier == 3 {
            Some((m[2], false))
        } else if tier == 4 {
            Some((m[3], true))
        } else {
            None
        }
    } else {
        if tier == 2 {
            Some((m[0], false))
        } else if tier == 3 || tier == 4 {
            Some((m[1], false))
        } else {
            None
        }
    }
}

/// Decides whether a new guest may arrive this check: the chance multiplier to roll with and
/// whether an arrival shows the admission message, or `None` for no arrival.
pub fn newguest_dispatch(attendance: i32, price_tier: i32, multipliers: [i32; 5]) -> (r: Option<(i32, bool)>)
    ensures
        r == spec_newguest_dispatch(attendance, price_tier, multipliers@),
{
    let m = multipliers;
    if attendance >= ATTENDANCE_HIGH {
        if price_tier == 1 {
            Some((m[2], false))
        } else if price_tier == 2 {
            Some((m[3], false))
        } else if price_tier == 3 {
            Some((m[3], true))
        } else if price_tier == 4 {
            Some((m[4], true))
        } else {
            Some((m[0], false))
        }
    } else if attendance > ATTENDANCE_MID_HIGH {
        if price_tier == 1 {
            Some((m[1], false))
        } else if price_tier == 2 {
            Some((m[2], false))
        } else if price_tier == 3 {
            Some((m[3], false))
        } else if price_tier == 4 {
            Some((m[4], true))
        } else {
            None
        }
    } else if attendance > ATTENDANCE_MID_LOW {
        if price_tier == 1 {
            Some((m[0], false))
        } else if price_tier == 2 {
            Some((m[2], false))
        } else if price_tier == 3 {
            Some((m[2], false))
        } else if price_tier == 4 {
            Some((m[3], true))
        } else {
            None
        }
    } else {
        if price_tier == 2 {
            Some((m[0], false))
        } else if price_tier == 3 || price_tier == 4 {
            Some((m[1], false))
        } else {
            None
        }
    }
}

/// At every attendance, the cheapest price tier lets a guest arrive; the admission message is
/// shown there only from the lower middle band up, and never for the dearer tiers 0 to 2.
pub proof fn law_cheapest_tier_always_admits(attendance: i32, m: Seq<i32>)
    ensures
        spec_newguest_dispatch(attendance, 4, m) is Some,
        attendance > ATTENDANCE_MID_LOW <==> (spec_newguest_dispatch(attendance, 4, m) matches Some((_, shown)) && shown),
        forall|tier: i32| 0 <= tier <= 2 ==> !(#[trigger] spec_newguest_dispatch(attendance, tier, m) matches Some((_, true))),
{
}

/// Raising attendance never turns an arrival into no arrival.
pub proof fn law_attendance_monotone(a: i32, b: i32, tier: i32, m: Seq<i32>)
    requires
        a <= b,
        spec_newguest_dispatch(a, tier, m) is Some,
    ensures
        spec_newguest_dispatch(b, tier, m) is Some,
{
}

/// How a legacy history entry at position `x` is migrated: `Some(false)` to subtract it,
/// `Some(true)` to add it, `None` to leave the target alone.
pub open spec fn spec_legacy_band(
    x: i32,
    subtract_le: i32,
    subtract_ge: i32,
    subtract_le2: i32,
    add_ge: i32,
    add_le: i32,
) -> Option<bool> {
    if x <= subtract_le {
        Some(false)
    } else if subtract_ge <= x && x <= subtract_le2 {
        Some(false)
    } else if x < add_ge || x > add_le {
        None
    } else {
        Some(true)
    }
}

/// The band of position `x` when old finance history is migrated: subtracted up to
/// `subtract_le` and within `subtract_ge..=subtract_le2`, added within `add_ge..=add_le`,
/// untouched elsewhere (the checks run in that order).
pub fn legacy_band(
    x: i32,
    subtract_le: i32,
    subtract_ge: i32,
    subtract_le2: i32,
    add_ge: i32,
    add_le: i32,
) -> (r: Option<bool>)
    ensures
        r == spec_legacy_band(x, subtract_le, subtract_ge, subtract_le2, add_ge, add_le),
{
    if x <= subtract_le {
        return Some(false);
    }
    if x >= subtract_ge && x <= subtract_le2 {
        return Some(false);
    }
    if x < add_ge || x > add_le {
        return None;
    }
    Some(true)
}

/// Elapsed time and interval of each of the tracker's three periodic checks.
#[derive(Clone, Copy, Debug, PartialEq, Eq, Structural)]
pub struct CheckTimers {
    pub rating_check_elapsed: i32,
    pub rating_check_interval: i32,
    pub message_check_elapsed: i32,
    pub message_check_interval: i32,
    pub newguest_check_elapsed: i32,
    pub newguest_check_interval: i32,
}

/// Which periodic checks an update runs.
#[derive(Clone, Copy, Debug, PartialEq, Eq, Structural)]
pub struct PendingChecks {
    pub rating: bool,
    pub message: bool,
    pub newguest: bool,
}

impl CheckTimers {
    /// The timers a freshly initialised tracker starts with: every check every 10000 ticks,
    /// nothing elapsed.
    pub fn new() -> (t: CheckTimers)
        ensures
            t == (CheckTimers {
                rating_check_elapsed: 0,
                rating_check_interval: 10000,
                message_check_elapsed: 0,
                message_check_interval: 10000,
                newguest_check_elapsed: 0,
                newguest_check_interval: 10000,
            }),
    {
        CheckTimers {
            rating_check_elapsed: 0,
            rating_check_interval: 10000,
            message_check_elapsed: 0,
            message_check_interval: 10000,
            newguest_check_elapsed: 0,
            newguest_check_interval: 10000,
        }
    }

    /// Whether adding `delta` to every elapsed count stays within 32-bit arithmetic.
    pub open spec fn advance_fits(self, delta: i32) -> bool {
        &&& i32::MIN <= self.rating_check_elapsed + delta <= i32::MAX
        &&& i32::MIN <= self.message_check_elapsed + delta <= i32::MAX
        &&& i32::MIN <= self.newguest_check_elapsed + delta <= i32::MAX
    }

    /// Adds `delta` ticks to every check and reports which are due: a check is due once its
    /// elapsed time exceeds its interval; the rating check is also due while a finance check is
    /// pending.
    pub fn advance(&mut self, delta: i32, finance_check_pending: bool) -> (p: PendingChecks)
        requires
            old(self).advance_fits(delta),
        ensures
            final(self).rating_check_elapsed == old(self).rating_check_elapsed + delta,
            final(self).message_check_elapsed == old(self).message_check_elapsed + delta,
            final(self).newguest_check_elapsed == old(self).newguest_check_elapsed + delta,
            final(self).rating_check_interval == old(self).rating_check_interval,
            final(self).message_check_interval == old(self).message_check_interval,
            final(self).newguest_check_interval == old(self).newguest_check_interval,
            p.rating == (final(self).rating_check_elapsed > final(self).rating_check_interval
                || finance_check_pending),
            p.message == (final(self).message_check_elapsed > final(self).message_check_interval),
            p.newguest == (final(self).newguest_check_elapsed > final(self).newguest_check_interval),
    {
        self.rating_check_elapsed = self.rating_check_elapsed + delta;
        let rating = self.rating_check_elapsed > self.rating_check_interval || finance_check_pending;
        self.message_check_elapsed = self.message_check_elapsed + delta;
        let message = self.message_check_elapsed > self.message_check_interval;
        self.newguest_check_elapsed = self.newguest_check_elapsed + delta;
        let newguest = self.newguest_check_elapsed > self.newguest_check_interval;
        PendingChecks { rating, message, newguest }
    }
}

/// The sum of `s`.
pub open spec fn sum(s: Seq<i32>) -> int
    decreases s.len(),
{
    if s.len() == 0 {
        0
    } else {
        sum(s.drop_last()) + s.last()
    }
}

/// Whether every running total of `s` fits in 32 bits.
pub open spec fn prefix_sums_fit(s: Seq<i32>) -> bool {
    forall|k: int| 0 <= k <= s.len() ==> i32::MIN <= #[trigger] sum(s.take(k)) <= i32::MAX
}

/// Rust's `/` on integers: the quotient rounded toward zero.
pub open spec fn trunc_div(a: int, b: int) -> int {
    let q = (if a < 0 { -a } else { a }) / (if b < 0 { -b } else { b });
    if (a < 0) == (b < 0) {
        q
    } else {
        -q
    }
}

/// The rating metric of a group from its members' scores: their mean rounded toward zero, 0 for
/// an empty group.
pub open spec fn spec_score_average(scores: Seq<i32>) -> int {
    if scores.len() == 0 {
        0
    } else {
        trunc_div(sum(scores), scores.len() as int)
    }
}

/// The mean of `scores`, rounded toward zero; 0 for none. The count is kept in 16 bits, as the
/// tracker keeps its animal and guest counts.
pub fn score_average(scores: &Vec<i32>) -> (r: i32)
    requires
        scores@.len() <= u16::MAX,
        prefix_sums_fit(scores@),
    ensures
        r == spec_score_average(scores@),
{
    let mut total: i32 = 0;
    let mut count: u16 = 0;
    let mut i: usize = 0;
    while i < scores.len()
        invariant
            i <= scores@.len() <= u16::MAX,
            count == i,
            total == sum(scores@.take(i as int)),
            prefix_sums_fit(scores@),
        decreases scores@.len() - i,
    {
        assert(scores@.take(i as int + 1).drop_last() =~= scores@.take(i as int));
        assert(i32::MIN <= sum(scores@.take(i as int + 1)) <= i32::MAX);
        total = total + scores[i];
        count = count + 1;
        i = i + 1;
    }
    assert(scores@.take(scores@.len() as int) =~= scores@);
    if count > 0 {
        total / (count as i32)
    } else {
        0
    }
}

/// The number of `true` entries of `s`.
pub open spec fn count_true(s: Seq<bool>) -> int
    decreases s.len(),
{
    if s.len() == 0 {
        0
    } else {
        count_true(s.drop_last()) + if s.last() {
            1int
        } else {
            0int
        }
    }
}

/// The percentage of research programs complete, rounded down; 100 when there are none.
pub open spec fn spec_completion_percent(complete: Seq<bool>) -> int {
    if complete.len() == 0 {
        100
    } else {
        count_true(complete) * 100 / (complete.len() as int)
    }
}

proof fn lemma_count_true_bounds(s: Seq<bool>)
    ensures
        0 <= count_true(s) <= s.len(),
    decreases s.len(),
{
    if s.len() > 0 {
        lemma_count_true_bounds(s.drop_last());
    }
}

/// The share of research programs complete, in whole percent; `complete` holds one entry per
/// program of every category of every branch.
pub fn research_completion_percent(complete: &Vec<bool>) -> (r: i32)
    requires
        complete@.len() * 100 <= i32::MAX,
    ensures
        r == spec_completion_percent(complete@),
        0 <= r <= 100,
{
    let mut completed: i32 = 0;
    let mut total: i32 = 0;
    let mut i: usize = 0;
    while i < complete.len()
        invariant
            i <= complete@.len(),
            complete@.len() * 100 <= i32::MAX,
            total == i,
            completed == count_true(complete@.take(i as int)),
        decreases complete@.len() - i,
    {
        assert(complete@.take(i as int + 1).drop_last() =~= complete@.take(i as int));
        proof {
            lemma_count_true_bounds(complete@.take(i as int));
        }
        if complete[i] {
            completed = completed + 1;
        }
        total = total + 1;
        i = i + 1;
    }
    assert(complete@.take(complete@.len() as int) =~= complete@);
    proof {
        lemma_count_true_bounds(complete@);
    }
    if total != 0 {
        assert(completed * 100 <= total * 100) by (nonlinear_arith)
            requires
                completed <= total,
        ;
        assert(completed * 100 / (total as int) <= 100) by (nonlinear_arith)
            requires
                0 <= completed <= total,
                total > 0,
        ;
        assert(completed * 100 / (total as int) >= 0) by (nonlinear_arith)
            requires
                0 <= completed,
                total > 0,
        ;
        completed * 100 / total
    } else {
        100
    }
}

/// Whether `v` fits in 32 signed bits.
pub open spec fn fits_i32(v: int) -> bool {
    i32::MIN <= v <= i32::MAX
}

/// The rating bonus of research progress: 5 points per 100 percent, rounded toward zero.
pub open spec fn spec_research_decay(percent: i32) -> int {
    trunc_div(percent * 5, 100)
}

/// The research term of the zoo rating.
pub fn research_decay(percent: i32) -> (r: i32)
    requires
        fits_i32(percent * 5),
    ensures
        r == spec_research_decay(percent),
{
    (percent * 5) / 100
}

/// What the zoo rating is computed from. The attendance penalty is worked out by the caller from
/// the zoo's floating-point attendance figures.
#[derive(Clone, Copy, Debug, PartialEq, Eq, Structural)]
pub struct ZooRatingInputs {
    pub num_animals: u16,
    /// Animals with their condition flag set.
    pub animal_condition_counter_1: u16,
    pub num_species: u16,
    /// The species count beyond which more species add nothing.
    pub species_rating_cap: i32,
    pub animal_rating_metric: i32,
    pub guest_rating_metric: i32,
    /// The zoo's value figure the rating rewards, up to 30000.
    pub field_0x4c: i32,
    pub research_completion_percent: i32,
    pub attendance_penalty: i32,
    /// Hours since an animal last escaped.
    pub hours_since_escape: u64,
    pub escape_decay_baseline: i32,
    pub escape_decay_per_day: i32,
}

/// The animal condition term.
pub open spec fn animal_term(i: ZooRatingInputs) -> int {
    if i.num_animals > 0 {
        trunc_div((i.num_animals - i.animal_condition_counter_1) * 15, i.num_animals as int)
    } else {
        0
    }
}

/// The species count capped at the cap.
pub open spec fn capped_species(i: ZooRatingInputs) -> int {
    if (i.num_species as int) < i.species_rating_cap {
        i.num_species as int
    } else {
        i.species_rating_cap as int
    }
}

/// The species term.
pub open spec fn species_term(i: ZooRatingInputs) -> int {
    if i.num_species > 0 {
        trunc_div(capped_species(i) * 10, i.species_rating_cap as int)
    } else {
        0
    }
}

/// A rating metric's term: `(metric + 100) * 25 / 200`, rounded toward zero.
pub open spec fn metric_term(metric: i32) -> int {
    trunc_div((metric + 100) * 25, 200)
}

/// The zoo value term: the figure clamped to 0..=30000, times 10 over 30000.
pub open spec fn value_term(v: i32) -> int {
    let c = if v < 0 {
        0
    } else if v > 30000 {
        30000
    } else {
        v as int
    };
    c * 10 / 30000
}

/// Whole days since the last escape, as the game counts them.
pub open spec fn escape_days(hours: u64) -> int {
    ((hours as u32) as int) / 24
}

/// The escape penalty before clamping: the baseline less the per-day decay.
pub open spec fn escape_decay(i: ZooRatingInputs) -> int {
    i.escape_decay_baseline - i.escape_decay_per_day * escape_days(i.hours_since_escape)
}

/// The escape penalty: the decay, or 0 once it has dropped below 1.
pub open spec fn escape_penalty(i: ZooRatingInputs) -> int {
    if escape_decay(i) < 1 {
        0
    } else {
        escape_decay(i)
    }
}

/// The partial sums of the rating, in the order the game adds them.
pub open spec fn rating_sums(i: ZooRatingInputs) -> Seq<int> {
    let s1 = animal_term(i);
    let s2 = s1 + species_term(i);
    let s3 = s2 + metric_term(i.animal_rating_metric);
    let s4 = s3 + metric_term(i.guest_rating_metric);
    let s5 = s4 + value_term(i.field_0x4c);
    let s6 = s5 + spec_research_decay(i.research_completion_percent);
    let s7 = s6 - i.attendance_penalty;
    let s8 = s7 - escape_penalty(i);
    seq![s1, s2, s3, s4, s5, s6, s7, s8]
}

/// Whether the rating computation stays within 32-bit arithmetic (and never divides by zero).
pub open spec fn zoo_rating_fits(i: ZooRatingInputs) -> bool {
    &&& i.num_species > 0 ==> i.species_rating_cap != 0 && fits_i32(capped_species(i) * 10)
    &&& fits_i32((i.animal_rating_metric + 100) * 25)
    &&& fits_i32((i.guest_rating_metric + 100) * 25)
    &&& fits_i32(i.research_completion_percent * 5)
    &&& fits_i32(i.escape_decay_per_day * escape_days(i.hours_since_escape))
    &&& fits_i32(escape_decay(i))
    &&& forall|k: int| 0 <= k < 8 ==> fits_i32(#[trigger] rating_sums(i)[k])
}

/// The zoo rating: the sum of the terms, clamped to 0..=100.
pub open spec fn spec_zoo_rating(i: ZooRatingInputs) -> int {
    let r = rating_sums(i)[7];
    if r < 0 {
        0
    } else if r > 100 {
        100
    } else {
        r
    }
}

/// Rounding toward zero is monotone: a larger numerator never gives a smaller quotient.
pub proof fn lemma_trunc_div_monotone(a1: int, a2: int, b: int)
    requires
        a1 <= a2,
        b > 0,
    ensures
        trunc_div(a1, b) <= trunc_div(a2, b),
{
    if a1 >= 0 {
        vstd::arithmetic::div_mod::lemma_div_is_ordered(a1, a2, b);
    } else if a2 < 0 {
        vstd::arithmetic::div_mod::lemma_div_is_ordered(-a2, -a1, b);
    } else {
        assert((-a1) / b >= 0) by {
            vstd::arithmetic::div_mod::lemma_div_pos_is_pos(-a1, b);
        }
        assert(a2 / b >= 0) by {
            vstd::arithmetic::div_mod::lemma_div_pos_is_pos(a2, b);
        }
    }
}

/// Better animal and guest ratings, a higher zoo value, more research and a smaller attendance
/// penalty never lower the zoo rating, all else equal.
pub proof fn law_zoo_rating_monotone(i: ZooRatingInputs, j: ZooRatingInputs)
    requires
        j == (ZooRatingInputs {
            animal_rating_metric: j.animal_rating_metric,
            guest_rating_metric: j.guest_rating_metric,
            field_0x4c: j.field_0x4c,
            research_completion_percent: j.research_completion_percent,
            attendance_penalty: j.attendance_penalty,
            ..i
        }),
        i.animal_rating_metric <= j.animal_rating_metric,
        i.guest_rating_metric <= j.guest_rating_metric,
        i.field_0x4c <= j.field_0x4c,
        i.research_completion_percent <= j.research_completion_percent,
        j.attendance_penalty <= i.attendance_penalty,
    ensures
        spec_zoo_rating(i) <= spec_zoo_rating(j),
{
    lemma_trunc_div_monotone((i.animal_rating_metric + 100) * 25, (j.animal_rating_metric + 100) * 25, 200);
    lemma_trunc_div_monotone((i.guest_rating_metric + 100) * 25, (j.guest_rating_metric + 100) * 25, 200);
    lemma_trunc_div_monotone(i.research_completion_percent * 5, j.research_completion_percent * 5, 100);
    let ci = if i.field_0x4c < 0 { 0 } else if i.field_0x4c > 30000 { 30000 } else { i.field_0x4c as int };
    let cj = if j.field_0x4c < 0 { 0 } else if j.field_0x4c > 30000 { 30000 } else { j.field_0x4c as int };
    assert(ci <= cj);
    vstd::arithmetic::div_mod::lemma_div_is_ordered(ci * 10, cj * 10, 30000);
    assert(rating_sums(i)[7] <= rating_sums(j)[7]);
}

/// Computes the zoo rating the status tracker shows: animal condition, species variety, animal
/// and guest ratings, zoo value and research progress add to it; the attendance penalty and a
/// recent animal escape take from it; the result is clamped to 0..=100.
pub fn zoo_rating(i: &ZooRatingInputs) -> (r: i32)
    requires
        zoo_rating_fits(*i),
    ensures
        r == spec_zoo_rating(*i),
        0 <= r <= 100,
{
    let ghost sums = rating_sums(*i);
    assert(fits_i32(sums[0]) && fits_i32(sums[1]) && fits_i32(sums[2]) && fits_i32(sums[3]));
    assert(fits_i32(sums[4]) && fits_i32(sums[5]) && fits_i32(sums[6]) && fits_i32(sums[7]));
    let mut rating: i32 = 0;
    if i.num_animals > 0 {
        rating = ((i.num_animals as i32 - i.animal_condition_counter_1 as i32) * 15) / i.num_animals as i32;
    }
    assert(rating == sums[0]);
    if i.num_species > 0 {
        let capped = if (i.num_species as i32) < i.species_rating_cap {
            i.num_species as i32
        } else {
            i.species_rating_cap
        };
        assert(capped == capped_species(*i));
        let term = div_toward_zero(capped * 10, i.species_rating_cap);
        assert(term == species_term(*i));
        rating = rating + term;
    }
    assert(rating == sums[1]);
    let animal = ((i.animal_rating_metric + 100) * 25) / 200;
    assert(animal == metric_term(i.animal_rating_metric));
    rating = rating + animal;
    assert(rating == sums[2]);
    let guest = ((i.guest_rating_metric + 100) * 25) / 200;
    assert(guest == metric_term(i.guest_rating_metric));
    rating = rating + guest;
    assert(rating == sums[3]);
    let clamped = if i.field_0x4c < 0 {
        0
    } else if i.field_0x4c > 30000 {
        30000
    } else {
        i.field_0x4c
    };
    rating = rating + (clamped * 10) / 30000;
    assert(rating == sums[4]);
    let decay = research_decay(i.research_completion_percent);
    rating = rating + decay;
    assert(rating == sums[5]);
    rating = rating - i.attendance_penalty;
    assert(rating == sums[6]);
    let days = ((i.hours_since_escape as u32) as u64 / 24) as i32;
    assert(days == escape_days(i.hours_since_escape));
    let escape = i.escape_decay_baseline - i.escape_decay_per_day * days;
    let escape_clamped = if escape < 1 {
        0
    } else {
        escape
    };
    assert(escape_clamped == escape_penalty(*i));
    rating = rating - escape_clamped;
    assert(rating == sums[7]);
    if rating < 0 {
        0
    } else if rating > 100 {
        100
    } else {
        rating
    }
}

/// `a / b` on 32-bit integers, rounded toward zero as Rust rounds.
fn div_toward_zero(a: i32, b: i32) -> (r: i32)
    requires
        b != 0,
        !(a == i32::MIN && b == -1),
    ensures
        r == trunc_div(a as int, b as int),
{
    let na: i64 = if a < 0 { -(a as i64) } else { a as i64 };
    let nb: i64 = if b < 0 { -(b as i64) } else { b as i64 };
    let q = na / nb;
    assert(0 <= q <= na) by (nonlinear_arith)
        requires
            na >= 0,
            nb >= 1,
            q == na / nb,
    ;
    if (a < 0) == (b < 0) {
        assert(q <= i32::MAX) by {
            if na > i32::MAX {
                assert(a == i32::MIN);
                assert(nb >= 2);
                assert(q <= na / 2) by (nonlinear_arith)
                    requires
                        na >= 0,
                        nb >= 2,
                        q == na / nb,
                ;
            }
        }
        q as i32
    } else {
        (-q) as i32
    }
}

/// How the finance history of a save is laid out.
#[derive(Clone, Copy, Debug, PartialEq, Eq, Structural)]
pub enum HistoryLayout {
    /// Integer entries, with category bands folded into the totals category on migration.
    Legacy,
    /// Float entries, any number of categories and years, extra ones skipped.
    Compat,
    /// Float entries, at most as many categories and years as the tracker holds.
    Current,
}

/// What a save of a given version holds for the status tracker, in file order.
#[derive(Clone, Copy, Debug, PartialEq, Eq, Structural)]
pub struct LoadFormat {
    /// The check timers, flags, ratings and counters come first (otherwise only the tail).
    pub has_header: bool,
    /// The finance flag is stored as a counter (pending above 360000) rather than a byte.
    pub finance_flag_as_counter: bool,
    /// A retired word follows the header fields.
    pub has_discarded_word: bool,
    /// The finance history, if stored.
    pub history: Option<HistoryLayout>,
    /// Legacy history entries are also folded into the totals category.
    pub migrates_bands: bool,
    /// The admission price is stored (otherwise it is reset to its default).
    pub has_admission_price: bool,
    /// The last-escape time is stored (otherwise it is reset to the game's start date).
    pub has_escape_time: bool,
}

/// The layout of a save of `version`.
pub open spec fn spec_load_format(version: u32) -> LoadFormat {
    LoadFormat {
        has_header: version > 0xc,
        finance_flag_as_counter: version < 0x17,
        has_discarded_word: version < 0x18,
        history: if version <= 0xc || version < 0x17 {
            None
        } else if version < 0x26 {
            Some(HistoryLayout::Legacy)
        } else if version < 0x47 {
            Some(HistoryLayout::Compat)
        } else {
            Some(HistoryLayout::Current)
        },
        migrates_bands: version < 0x19,
        has_admission_price: version >= 0x27,
        has_escape_time: version >= 0x47,
    }
}

/// The layout of the status tracker's part of a save of `version`.
pub fn load_format(version: u32) -> (f: LoadFormat)
    ensures
        f == spec_load_format(version),
{
    LoadFormat {
        has_header: version > 0xc,
        finance_flag_as_counter: version < 0x17,
        has_discarded_word: version < 0x18,
        history: if version < 0x17 {
            None
        } else if version < 0x26 {
            Some(HistoryLayout::Legacy)
        } else if version < 0x47 {
            Some(HistoryLayout::Compat)
        } else {
            Some(HistoryLayout::Current)
        },
        migrates_bands: version < 0x19,
        has_admission_price: version >= 0x27,
        has_escape_time: version >= 0x47,
    }
}

/// The finance flag of an old save, from the counter it stored.
pub fn finance_pending_from_counter(raw: i32) -> (r: bool)
    ensures
        r == (raw > 360_000),
{
    raw > 360_000
}

/// Categories of finance history the tracker holds.
pub const HISTORY_CATEGORIES: i32 = 31;

/// Years of finance history the tracker holds.
pub const HISTORY_YEARS: i32 = 20;

/// Whether a current-layout save's history sizes fit the tracker; a save whose sizes do not
/// fails to load.
pub fn history_counts_fit(category_count: i32, year_count: i32) -> (r: bool)
    ensures
        r == (0 <= category_count <= HISTORY_CATEGORIES && 0 <= year_count <= HISTORY_YEARS),
{
    0 <= category_count && category_count <= HISTORY_CATEGORIES && 0 <= year_count && year_count <= HISTORY_YEARS
}

/// The categories a compat-layout save fills; the tracker's others are zeroed.
pub fn filled_categories(category_count: i32) -> (r: i32)
    ensures
        r == if category_count < 0 {
            0
        } else if category_count > HISTORY_CATEGORIES {
            HISTORY_CATEGORIES
        } else {
            category_count
        },
{
    if category_count < 0 {
        0
    } else if category_count > HISTORY_CATEGORIES {
        HISTORY_CATEGORIES
    } else {
        category_count
    }
}

/// How a legacy monthly entry of `category` is folded into the totals category.
pub fn monthly_migration_band(category: i32) -> (r: Option<bool>)
    requires
        0 <= category,
        fits_i32(0x55 + category * 0xc),
    ensures
        r == spec_legacy_band((0x55 + category * 0xc) as i32, 0x79, 0xd9, 0xf1, 0x91, 0xcd),
{
    legacy_band(0x55 + category * 0xc, 0x79, 0xd9, 0xf1, 0x91, 0xcd)
}

/// How a legacy yearly entry of `category` is folded into the totals category.
pub fn yearly_migration_band(category: i32) -> (r: Option<bool>)
    requires
        0 <= category,
        fits_i32(0x1c9 + category * 0x14),
    ensures
        r == spec_legacy_band((0x1c9 + category * 0x14) as i32, 0x205, 0x2a5, 0x2cd, 0x22d, 0x291),
{
    legacy_band(0x1c9 + category * 0x14, 0x205, 0x2a5, 0x2cd, 0x22d, 0x291)
}

/// How a legacy flat total of `category` is folded into the totals category.
pub fn flat_migration_band(category: i32) -> (r: Option<bool>)
    ensures
        r == spec_legacy_band(category, 3, 0xb, 0xd, 5, 0xa),
{
    legacy_band(category, 3, 0xb, 0xd, 5, 0xa)
}

/// Newer saves store everything older ones do: the header, the admission price and the escape
/// time are present from their version on.
pub proof fn law_load_format_monotone(a: u32, b: u32)
    requires
        a <= b,
    ensures
        spec_load_format(a).has_header ==> spec_load_format(b).has_header,
        spec_load_format(a).history is Some ==> spec_load_format(b).history is Some,
        spec_load_format(a).has_admission_price ==> spec_load_format(b).has_admission_price,
        spec_load_format(a).has_escape_time ==> spec_load_format(b).has_escape_time,
        spec_load_format(b).migrates_bands ==> spec_load_format(a).migrates_bands,
{
}

/// What the status tracker reads from one guest.
#[derive(Clone, Copy, Debug, PartialEq, Eq, Structural)]
pub struct GuestSample {
    pub hunger: i32,
    pub thirst: i32,
    pub restroom: i32,
    pub tired: i32,
    /// The guest's condition flag.
    pub flag: bool,
    /// The flag of the guest's attached sub-object.
    pub sub_flag: bool,
    pub score: i32,
}

/// What the status tracker reads from one animal.
#[derive(Clone, Copy, Debug, PartialEq, Eq, Structural)]
pub struct AnimalSample {
    pub score: i32,
    /// The animal's condition flag.
    pub flag: bool,
}

/// The counts and averages the tracker derives from the zoo's guests and animals.
#[derive(Clone, Copy, Debug, PartialEq, Eq, Structural)]
pub struct ZooTallies {
    pub num_animals: u16,
    pub animal_condition_counter_1: u16,
    pub num_tired_guests: u16,
    pub num_hungry_guests: u16,
    pub num_thirst_guests: u16,
    pub num_guests_restroom_need: u16,
    pub guest_condition_counter_1: u16,
    pub guest_condition_counter_2: u16,
    pub guest_tile_count: u16,
    pub animal_rating_metric: i32,
    pub guest_rating_metric: i32,
}

/// How many elements of `s` satisfy `p`.
pub open spec fn count_where<A>(s: Seq<A>, p: spec_fn(A) -> bool) -> nat
    decreases s.len(),
{
    if s.len() == 0 {
        0
    } else {
        count_where(s.drop_last(), p) + if p(s.last()) {
            1nat
        } else {
            0nat
        }
    }
}

proof fn lemma_count_where_le<A>(s: Seq<A>, p: spec_fn(A) -> bool)
    ensures
        count_where(s, p) <= s.len(),
    decreases s.len(),
{
    if s.len() > 0 {
        lemma_count_where_le(s.drop_last(), p);
    }
}

/// The scores of the guests.
pub open spec fn guest_scores(g: Seq<GuestSample>) -> Seq<i32> {
    g.map_values(|x: GuestSample| x.score)
}

/// The scores of the animals.
pub open spec fn animal_scores(a: Seq<AnimalSample>) -> Seq<i32> {
    a.map_values(|x: AnimalSample| x.score)
}

/// The tallies of the guests and animals: guests whose hunger, thirst, restroom need or tiredness
/// is above `need_threshold`, flags set, and the mean scores.
pub open spec fn spec_tallies(guests: Seq<GuestSample>, animals: Seq<AnimalSample>, need_threshold: i32) -> ZooTallies {
    ZooTallies {
        num_animals: animals.len() as u16,
        animal_condition_counter_1: count_where(animals, |a: AnimalSample| a.flag) as u16,
        num_tired_guests: count_where(guests, |g: GuestSample| g.tired > need_threshold) as u16,
        num_hungry_guests: count_where(guests, |g: GuestSample| g.hunger > need_threshold) as u16,
        num_thirst_guests: count_where(guests, |g: GuestSample| g.thirst > need_threshold) as u16,
        num_guests_restroom_need: count_where(guests, |g: GuestSample| g.restroom > need_threshold) as u16,
        guest_condition_counter_1: count_where(guests, |g: GuestSample| g.flag) as u16,
        guest_condition_counter_2: count_where(guests, |g: GuestSample| g.sub_flag) as u16,
        guest_tile_count: guests.len() as u16,
        animal_rating_metric: spec_score_average(animal_scores(animals)) as i32,
        guest_rating_metric: spec_score_average(guest_scores(guests)) as i32,
    }
}

fn count_up(c: u16, yes: bool) -> (r: u16)
    requires
        yes ==> c < u16::MAX,
    ensures
        r == c + if yes {
            1int
        } else {
            0int
        },
{
    if yes {
        c + 1
    } else {
        c
    }
}

/// Tallies the zoo's guests and animals as the tracker's sums pass does: every count and both
/// rating metrics (the mean guest and animal scores, rounded toward zero).
#[verifier::loop_isolation(false)]
pub fn tally(guests: &Vec<GuestSample>, animals: &Vec<AnimalSample>, need_threshold: i32) -> (t: ZooTallies)
    requires
        guests@.len() <= u16::MAX,
        animals@.len() <= u16::MAX,
        prefix_sums_fit(guest_scores(guests@)),
        prefix_sums_fit(animal_scores(animals@)),
    ensures
        t == spec_tallies(guests@, animals@, need_threshold),
{
    let ghost g = guests@;
    let ghost tired = |x: GuestSample| x.tired > need_threshold;
    let ghost hungry = |x: GuestSample| x.hunger > need_threshold;
    let ghost thirsty = |x: GuestSample| x.thirst > need_threshold;
    let ghost restroom = |x: GuestSample| x.restroom > need_threshold;
    let ghost flagged = |x: GuestSample| x.flag;
    let ghost sub_flagged = |x: GuestSample| x.sub_flag;
    let mut n_tired: u16 = 0;
    let mut n_hungry: u16 = 0;
    let mut n_thirsty: u16 = 0;
    let mut n_restroom: u16 = 0;
    let mut n_flag: u16 = 0;
    let mut n_sub: u16 = 0;
    let mut guest_score_list: Vec<i32> = Vec::new();
    let mut i: usize = 0;
    while i < guests.len()
        invariant
            g == guests@,
            i <= g.len() <= u16::MAX,
            n_tired == count_where(g.take(i as int), tired),
            n_hungry == count_where(g.take(i as int), hungry),
            n_thirsty == count_where(g.take(i as int), thirsty),
            n_restroom == count_where(g.take(i as int), restroom),
            n_flag == count_where(g.take(i as int), flagged),
            n_sub == count_where(g.take(i as int), sub_flagged),
            guest_score_list@ == guest_scores(g.take(i as int)),
        decreases g.len() - i,
    {
        let x = guests[i];
        let ghost pre = g.take(i as int);
        assert(g.take(i + 1).drop_last() =~= pre);
        assert(g.take(i + 1).last() == x);
        proof {
            lemma_count_where_le(pre, tired);
            lemma_count_where_le(pre, hungry);
            lemma_count_where_le(pre, thirsty);
            lemma_count_where_le(pre, restroom);
            lemma_count_where_le(pre, flagged);
            lemma_count_where_le(pre, sub_flagged);
        }
        n_tired = count_up(n_tired, x.tired > need_threshold);
        n_hungry = count_up(n_hungry, x.hunger > need_threshold);
        n_thirsty = count_up(n_thirsty, x.thirst > need_threshold);
        n_restroom = count_up(n_restroom, x.restroom > need_threshold);
        n_flag = count_up(n_flag, x.flag);
        n_sub = count_up(n_sub, x.sub_flag);
        guest_score_list.push(x.score);
        assert(guest_score_list@ =~= guest_scores(g.take(i + 1)));
        i = i + 1;
    }
    assert(g.take(g.len() as int) =~= g);
    let ghost a = animals@;
    let ghost animal_flagged = |x: AnimalSample| x.flag;
    let mut n_animal_flag: u16 = 0;
    let mut animal_score_list: Vec<i32> = Vec::new();
    let mut k: usize = 0;
    while k < animals.len()
        invariant
            a == animals@,
            k <= a.len() <= u16::MAX,
            n_animal_flag == count_where(a.take(k as int), animal_flagged),
            animal_score_list@ == animal_scores(a.take(k as int)),
        decreases a.len() - k,
    {
        let x = animals[k];
        let ghost pre = a.take(k as int);
        assert(a.take(k + 1).drop_last() =~= pre);
        assert(a.take(k + 1).last() == x);
        proof {
            lemma_count_where_le(pre, animal_flagged);
        }
        n_animal_flag = count_up(n_animal_flag, x.flag);
        animal_score_list.push(x.score);
        assert(animal_score_list@ =~= animal_scores(a.take(k + 1)));
        k = k + 1;
    }
    assert(a.take(a.len() as int) =~= a);
    let guest_metric = score_average(&guest_score_list);
    let animal_metric = score_average(&animal_score_list);
    let t = ZooTallies {
        num_animals: animals.len() as u16,
        animal_condition_counter_1: n_animal_flag,
        num_tired_guests: n_tired,
        num_hungry_guests: n_hungry,
        num_thirst_guests: n_thirsty,
        num_guests_restroom_need: n_restroom,
        guest_condition_counter_1: n_flag,
        guest_condition_counter_2: n_sub,
        guest_tile_count: guests.len() as u16,
        animal_rating_metric: animal_metric,
        guest_rating_metric: guest_metric,
    };
    assert(t == spec_tallies(guests@, animals@, need_threshold));
    t
}

/// The number of animals on the loose: the length of the game's list of escaped animals, whose
/// sentinel node's address is stored at `list_global`.
pub fn count_escaped_animals(mem: &ZtMemory, list_global: u32) -> (count: i32)
    requires
        mem.range_mapped(list_global as int, 4),
        mem.range_mapped(mem.u32_at(list_global as int) as int, 4),
        exists|n: nat| n <= i32::MAX && list_len_is(mem, mem.u32_at(list_global as int), n),
    ensures
        count >= 0,
        list_len_is(mem, mem.u32_at(list_global as int), count as nat),
{
    let sentinel = mem.get_u32(list_global);
    list_node_count(mem, sentinel)
}

/// Whether a new guest may be considered at all: no animal is on the loose and at least one
/// exhibit holds animals.
pub fn newguest_possible(escaped_animals: i32, occupied_habitats: i32) -> (r: bool)
    ensures
        r == (escaped_animals == 0 && occupied_habitats != 0),
{
    escaped_animals == 0 && occupied_habitats != 0
}

/// The attendance figure new guests are drawn by: the zoo rating, plus the current marketing
/// level's benefit (twice when the double-benefit flag is set), plus 30 when the flat bonus flag
/// is set.
pub open spec fn spec_newguest_attendance(zoo_rating: i32, benefit: Option<i32>, double_benefit: bool, flat_bonus: bool) -> int {
    zoo_rating + match benefit {
        Some(b) => if double_benefit {
            2 * b
        } else {
            b as int
        },
        None => 0,
    } + if flat_bonus {
        30int
    } else {
        0int
    }
}

/// Whether the attendance sums stay within 32-bit arithmetic.
pub open spec fn newguest_attendance_fits(zoo_rating: i32, benefit: Option<i32>, double_benefit: bool, flat_bonus: bool) -> bool {
    &&& match benefit {
        Some(b) => fits_i32(zoo_rating + b) && (double_benefit ==> fits_i32(zoo_rating + 2 * b)),
        None => true,
    }
    &&& fits_i32(spec_newguest_attendance(zoo_rating, benefit, double_benefit, flat_bonus))
}

/// Computes the attendance figure for a new-guest check.
pub fn newguest_attendance(zoo_rating: i32, benefit: Option<i32>, double_benefit: bool, flat_bonus: bool) -> (r: i32)
    requires
        newguest_attendance_fits(zoo_rating, benefit, double_benefit, flat_bonus),
    ensures
        r == spec_newguest_attendance(zoo_rating, benefit, double_benefit, flat_bonus),
{
    let mut attendance = zoo_rating;
    if let Some(b) = benefit {
        attendance = attendance + b;
        if double_benefit {
            attendance = attendance + b;
        }
    }
    if flat_bonus {
        attendance = attendance + 30;
    }
    attendance
}

/// Whether a chance roll succeeded: only the low byte of the game's roll result is defined, and
/// the roll succeeded when that byte is not zero.
pub fn roll_succeeded(chance: u32) -> (r: bool)
    ensures
        r == (chance % 256 != 0),
{
    let low = chance & 0xff;
    assert(low == chance % 256) by (bit_vector)
        requires
            low == chance & 0xff,
    ;
    low != 0
}

/// The whole decision of a new-guest check: `None` when no animal may draw guests (one is on the
/// loose, or no exhibit holds animals) or the attendance and price tier admit no arrival;
/// otherwise the chance multiplier to roll with and whether an arrival shows the admission
/// message.
pub fn newguest_plan(
    escaped_animals: i32,
    occupied_habitats: i32,
    zoo_rating: i32,
    benefit: Option<i32>,
    double_benefit: bool,
    flat_bonus: bool,
    price_tier: i32,
    multipliers: [i32; 5],
) -> (r: Option<(i32, bool)>)
    requires
        newguest_attendance_fits(zoo_rating, benefit, double_benefit, flat_bonus),
    ensures
        r == (if escaped_animals == 0 && occupied_habitats != 0 {
            spec_newguest_dispatch(
                spec_newguest_attendance(zoo_rating, benefit, double_benefit, flat_bonus) as i32,
                price_tier,
                multipliers@,
            )
        } else {
            None
        }),
{
    if !newguest_possible(escaped_animals, occupied_habitats) {
        return None;
    }
    let attendance = newguest_attendance(zoo_rating, benefit, double_benefit, flat_bonus);
    newguest_dispatch(attendance, price_tier, multipliers)
}

/// A message the tracker posts to the player: its string id and priority.
#[derive(Clone, Copy, Debug, PartialEq, Eq, Structural)]
pub struct ZooMessage {
    pub id: u32,
    pub priority: u32,
}

/// Which of the tracker's condition shares exceed their configured limits. Each compares a count
/// against a configured fraction of the animals or guests, which the caller works out in floating
/// point.
#[derive(Clone, Copy, Debug, PartialEq, Eq, Structural)]
pub struct ConditionShares {
    /// Animals with the condition flag, against the protestors fraction.
    pub protestors: bool,
    /// Animals with the condition flag, against the sickness fraction.
    pub sick: bool,
    pub hungry: bool,
    pub thirsty: bool,
    pub bathroom: bool,
    /// Guests with the first condition flag, against the souvenir fraction.
    pub souvenir: bool,
    pub tired: bool,
    /// Guests with the second condition flag, against the trash fraction.
    pub trash: bool,
}

/// `s` with `m` added at the end when `cond` holds.
pub open spec fn push_if(s: Seq<ZooMessage>, cond: bool, m: ZooMessage) -> Seq<ZooMessage> {
    if cond {
        s.push(m)
    } else {
        s
    }
}

/// The message with string id `id` and priority `priority`.
pub open spec fn msg(id: u32, priority: u32) -> ZooMessage {
    ZooMessage { id, priority }
}

/// The messages of the guest checks, which run only with more than ten guests.
pub open spec fn spec_guest_messages(
    s: Seq<ZooMessage>,
    shares: ConditionShares,
    guest_rating_metric: i32,
    high_guest_threshold: i32,
    low_guest_threshold: i32,
) -> Seq<ZooMessage> {
    let s = push_if(s, shares.sick, msg(0x2718, 2));
    let s = push_if(s, shares.hungry, msg(0x271b, 2));
    let s = push_if(s, shares.thirsty, msg(0x271c, 2));
    let s = push_if(s, shares.bathroom, msg(0x271d, 2));
    let s = push_if(s, shares.souvenir, msg(0x271e, 2));
    let s = push_if(s, shares.tired, msg(0x271f, 2));
    let s = push_if(s, shares.trash, msg(0x2720, 2));
    let s = push_if(s, high_guest_threshold <= guest_rating_metric, msg(0x2725, 1));
    push_if(s, guest_rating_metric <= low_guest_threshold, msg(0x2726, 2))
}

/// The messages of one message check, in the order they are posted: the protestors warning; with
/// more than ten guests, the sickness and guest-need warnings and the guest happiness messages
/// (happy at or above the high threshold, unhappy at or below the low one); then the cash
/// warnings (low cash under 1000, no cash at 0 or below, debt below 0).
pub open spec fn spec_zoo_messages(
    shares: ConditionShares,
    guest_tile_count: u16,
    guest_rating_metric: i32,
    high_guest_threshold: i32,
    low_guest_threshold: i32,
    cash: i32,
) -> Seq<ZooMessage> {
    let s = push_if(Seq::empty(), shares.protestors, msg(0x2719, 2));
    let s = if guest_tile_count > 10 {
        spec_guest_messages(s, shares, guest_rating_metric, high_guest_threshold, low_guest_threshold)
    } else {
        s
    };
    if cash > 0 {
        push_if(s, cash < 1000, msg(0x2722, 2))
    } else {
        push_if(s.push(msg(0x2723, 2)), cash < 0, msg(0x2724, 2))
    }
}

/// Pushes `m` onto `v` when `cond` holds.
fn push_message_if(v: &mut Vec<ZooMessage>, cond: bool, id: u32, priority: u32)
    ensures
        final(v)@ == push_if(old(v)@, cond, msg(id, priority)),
{
    if cond {
        v.push(ZooMessage { id, priority });
    }
}

/// The messages one message check posts (see `spec_zoo_messages`).
pub fn zoo_messages(
    shares: ConditionShares,
    guest_tile_count: u16,
    guest_rating_metric: i32,
    high_guest_threshold: i32,
    low_guest_threshold: i32,
    cash: i32,
) -> (r: Vec<ZooMessage>)
    ensures
        r@ == spec_zoo_messages(shares, guest_tile_count, guest_rating_metric, high_guest_threshold, low_guest_threshold, cash),
{
    let mut v: Vec<ZooMessage> = Vec::new();
    push_message_if(&mut v, shares.protestors, 0x2719, 2);
    if guest_tile_count > 10 {
        push_message_if(&mut v, shares.sick, 0x2718, 2);
        push_message_if(&mut v, shares.hungry, 0x271b, 2);
        push_message_if(&mut v, shares.thirsty, 0x271c, 2);
        push_message_if(&mut v, shares.bathroom, 0x271d, 2);
        push_message_if(&mut v, shares.souvenir, 0x271e, 2);
        push_message_if(&mut v, shares.tired, 0x271f, 2);
        push_message_if(&mut v, shares.trash, 0x2720, 2);
        push_message_if(&mut v, high_guest_threshold <= guest_rating_metric, 0x2725, 1);
        push_message_if(&mut v, guest_rating_metric <= low_guest_threshold, 0x2726, 2);
    }
    if cash > 0 {
        push_message_if(&mut v, cash < 1000, 0x2722, 2);
    } else {
        v.push(ZooMessage { id: 0x2723, priority: 2 });
        push_message_if(&mut v, cash < 0, 0x2724, 2);
    }
    v
}

/// A message is in `push_if(s, cond, m)` exactly when it is in `s` or it is `m` and `cond` holds.
proof fn lemma_push_if_contains(s: Seq<ZooMessage>, cond: bool, m: ZooMessage)
    ensures
        forall|y: ZooMessage| #[trigger] push_if(s, cond, m).contains(y) == (s.contains(y) || (cond && y == m)),
{
    assert forall|y: ZooMessage| #[trigger] push_if(s, cond, m).contains(y) == (s.contains(y) || (cond && y == m)) by {
        if cond {
            let t = s.push(m);
            if t.contains(y) {
                let k = choose|k: int| 0 <= k < t.len() && t[k] == y;
                if k < s.len() {
                    assert(s[k] == y);
                }
            }
            if s.contains(y) {
                let k = choose|k: int| 0 <= k < s.len() && s[k] == y;
                assert(t[k] == y);
            }
            if y == m {
                assert(t[s.len() as int] == y);
            }
        }
    }
}

/// Each condition of a message check posts its own message, and only then: the protestors
/// warning (0x2719) when too many animals are flagged; with more than ten guests, one warning each
/// for sickness (0x2718), hunger (0x271b), thirst (0x271c), the bathroom (0x271d), souvenirs
/// (0x271e), tiredness (0x271f) and trash (0x2720), the happy-guests message (0x2725, priority 1)
/// at or above the high threshold and the unhappy-guests one (0x2726) at or below the low one;
/// the low-cash warning (0x2722) for cash from 1 to 999, the no-cash one (0x2723) at 0 or below,
/// and the debt one (0x2724) below 0. Every warning but the happy-guests message has priority 2.
#[verifier::rlimit(60)]
pub proof fn law_each_condition_posts_its_message(
    shares: ConditionShares,
    guest_tile_count: u16,
    guest_rating_metric: i32,
    high_guest_threshold: i32,
    low_guest_threshold: i32,
    cash: i32,
)
    ensures
        ({
            let out = spec_zoo_messages(shares, guest_tile_count, guest_rating_metric, high_guest_threshold, low_guest_threshold, cash);
            let many = guest_tile_count > 10;
            &&& out.contains(ZooMessage { id: 0x2719, priority: 2 }) == shares.protestors
            &&& out.contains(ZooMessage { id: 0x2718, priority: 2 }) == (many && shares.sick)
            &&& out.contains(ZooMessage { id: 0x271b, priority: 2 }) == (many && shares.hungry)
            &&& out.contains(ZooMessage { id: 0x271c, priority: 2 }) == (many && shares.thirsty)
            &&& out.contains(ZooMessage { id: 0x271d, priority: 2 }) == (many && shares.bathroom)
            &&& out.contains(ZooMessage { id: 0x271e, priority: 2 }) == (many && shares.souvenir)
            &&& out.contains(ZooMessage { id: 0x271f, priority: 2 }) == (many && shares.tired)
            &&& out.contains(ZooMessage { id: 0x2720, priority: 2 }) == (many && shares.trash)
            &&& out.contains(ZooMessage { id: 0x2725, priority: 1 }) == (many && high_guest_threshold <= guest_rating_metric)
            &&& out.contains(ZooMessage { id: 0x2726, priority: 2 }) == (many && guest_rating_metric <= low_guest_threshold)
            &&& out.contains(ZooMessage { id: 0x2722, priority: 2 }) == (0 < cash < 1000)
            &&& out.contains(ZooMessage { id: 0x2723, priority: 2 }) == (cash <= 0)
            &&& out.contains(ZooMessage { id: 0x2724, priority: 2 }) == (cash < 0)
        }),
{
    let s0 = Seq::<ZooMessage>::empty();
    assert(forall|y: ZooMessage| !s0.contains(y));
    let s1 = push_if(s0, shares.protestors, msg(0x2719, 2));
    lemma_push_if_contains(s0, shares.protestors, msg(0x2719, 2));
    let g1 = push_if(s1, shares.sick, msg(0x2718, 2));
    lemma_push_if_contains(s1, shares.sick, msg(0x2718, 2));
    let g2 = push_if(g1, shares.hungry, msg(0x271b, 2));
    lemma_push_if_contains(g1, shares.hungry, msg(0x271b, 2));
    let g3 = push_if(g2, shares.thirsty, msg(0x271c, 2));
    lemma_push_if_contains(g2, shares.thirsty, msg(0x271c, 2));
    let g4 = push_if(g3, shares.bathroom, msg(0x271d, 2));
    lemma_push_if_contains(g3, shares.bathroom, msg(0x271d, 2));
    let g5 = push_if(g4, shares.souvenir, msg(0x271e, 2));
    lemma_push_if_contains(g4, shares.souvenir, msg(0x271e, 2));
    let g6 = push_if(g5, shares.tired, msg(0x271f, 2));
    lemma_push_if_contains(g5, shares.tired, msg(0x271f, 2));
    let g7 = push_if(g6, shares.trash, msg(0x2720, 2));
    lemma_push_if_contains(g6, shares.trash, msg(0x2720, 2));
    let g8 = push_if(g7, high_guest_threshold <= guest_rating_metric, msg(0x2725, 1));
    lemma_push_if_contains(g7, high_guest_threshold <= guest_rating_metric, msg(0x2725, 1));
    let g9 = push_if(g8, guest_rating_metric <= low_guest_threshold, msg(0x2726, 2));
    lemma_push_if_contains(g8, guest_rating_metric <= low_guest_threshold, msg(0x2726, 2));
    assert(g9 == spec_guest_messages(s1, shares, guest_rating_metric, high_guest_threshold, low_guest_threshold));
    let s2 = if guest_tile_count > 10 { g9 } else { s1 };
    lemma_push_if_contains(s2, cash < 1000, msg(0x2722, 2));
    lemma_push_if_contains(s2.push(msg(0x2723, 2)), cash < 0, msg(0x2724, 2));
    lemma_push_if_contains(s2, true, msg(0x2723, 2));
    assert(push_if(s2, true, msg(0x2723, 2)) == s2.push(msg(0x2723, 2)));
}

/// What a donation roll does, given the period's donation count after counting this roll.
#[derive(Clone, Copy, Debug, PartialEq, Eq, Structural)]
pub enum DonationOutcome {
    /// The roll just went past the period's allowance: the "no more donations" message shows.
    AllowanceUsedUp,
    /// The allowance was used up earlier in the period: nothing happens.
    Nothing,
    /// A donation of this many dollars is granted and announced.
    Grant(i32),
}

/// Rust's `%` on integers: the remainder takes the sign of the dividend.
pub open spec fn trunc_rem(a: int, b: int) -> int {
    a - b * trunc_div(a, b)
}

/// The outcome of a donation roll: `count` is the period's donation count including this roll,
/// `bound` the allowance per period, `amount_min`..`amount_max` the configured donation range,
/// and `roll` the random number drawn for the amount.
pub open spec fn spec_donation_outcome(count: i32, bound: i32, amount_min: i32, amount_max: i32, roll: i32) -> DonationOutcome {
    if count == bound + 1 {
        DonationOutcome::AllowanceUsedUp
    } else if count > bound {
        DonationOutcome::Nothing
    } else if amount_max - amount_min > 0 {
        DonationOutcome::Grant((amount_min + trunc_rem(roll as int, amount_max - amount_min)) as i32)
    } else {
        DonationOutcome::Grant(amount_min)
    }
}

/// Decides a donation roll (see `spec_donation_outcome`). A granted amount lies in
/// `amount_min..amount_max` whenever the roll is not negative.
pub fn donation_outcome(count: i32, bound: i32, amount_min: i32, amount_max: i32, roll: i32) -> (r: DonationOutcome)
    requires
        bound < i32::MAX,
        fits_i32(amount_max - amount_min),
        amount_max - amount_min > 0 ==> fits_i32(amount_min + trunc_rem(roll as int, amount_max - amount_min)),
    ensures
        r == spec_donation_outcome(count, bound, amount_min, amount_max, roll),
        match r {
            DonationOutcome::Grant(a) => if amount_max - amount_min > 0 && roll >= 0 {
                amount_min <= a < amount_max
            } else if amount_max - amount_min > 0 {
                amount_min - (amount_max - amount_min) < a <= amount_min
            } else {
                a == amount_min
            },
            _ => true,
        },
{
    if count == bound + 1 {
        return DonationOutcome::AllowanceUsedUp;
    }
    if count > bound {
        return DonationOutcome::Nothing;
    }
    let range = amount_max - amount_min;
    if range > 0 {
        let wide: i64 = roll as i64;
        let magnitude: u64 = if wide < 0 { (-wide) as u64 } else { wide as u64 };
        let rem: u64 = magnitude % (range as u64);
        proof {
            vstd::arithmetic::div_mod::lemma_fundamental_div_mod(magnitude as int, range as int);
        }
        let offset: i32 = if wide < 0 { -(rem as i32) } else { rem as i32 };
        assert(trunc_div(roll as int, range as int) == if roll < 0 {
            -(magnitude as int / range as int)
        } else {
            magnitude as int / range as int
        });
        let ghost q: int = magnitude as int / range as int;
        assert(magnitude as int == range as int * q + rem as int);
        assert(0 <= rem < range);
        if wide < 0 {
            let ghost t: int = trunc_div(roll as int, range as int);
            assert(t == -q);
            assert(range as int * t == -(range as int * q)) by (nonlinear_arith)
                requires
                    t == -q,
            ;
            assert(trunc_rem(roll as int, range as int) == roll as int + range as int * q);
            assert(roll as int == -(magnitude as int));
        } else {
            assert(trunc_rem(roll as int, range as int) == roll as int - range as int * q);
        }
        assert(offset == trunc_rem(roll as int, range as int));
        DonationOutcome::Grant(amount_min + offset)
    } else {
        DonationOutcome::Grant(amount_min)
    }
}

/// The integer state of the zoo status tracker: its check timers, flags and counters, the cursor
/// into its finance history, its settings and the time an animal last escaped. Its
/// floating-point figures (finance history, prices, thresholds) are kept by the caller.
#[derive(Clone, Copy, Debug, PartialEq, Eq, Structural)]
pub struct StatusCore {
    pub timers: CheckTimers,
    pub finance_check_pending: bool,
    pub zoo_rating_current: i32,
    pub tallies: ZooTallies,
    pub num_species: u16,
    /// The current price tier.
    pub field_0x48: i32,
    /// The zoo's value figure the rating rewards.
    pub field_0x4c: i32,
    pub field_0x50: i32,
    pub field_0x54: i32,
    pub field_0x58: i32,
    pub research_completion_percent: i32,
    /// The month column the finance history writes to.
    pub current_month_index: i32,
    /// The year column the finance history writes to.
    pub current_year_index: i32,
    pub settings: ZooSettings,
    pub last_animal_escape_timestamp: u64,
}

/// The check timers run on the intervals the settings give.
pub open spec fn intervals_follow_settings(s: StatusCore) -> bool {
    &&& s.timers.rating_check_interval == s.settings.rating_check_interval
    &&& s.timers.message_check_interval == s.settings.message_check_interval
    &&& s.timers.newguest_check_interval == s.settings.newguest_check_interval
}

/// The settings after applying a configuration, if any, to `s`.
pub open spec fn settings_after(s: ZooSettings, config: Option<Seq<(IntSetting, i32)>>) -> ZooSettings {
    match config {
        Some(reads) => spec_override(s, reads),
        None => s,
    }
}

/// The tracker `s` after its settings take a configuration: the timers follow the new
/// intervals, nothing else changes.
pub open spec fn spec_core_override(s: StatusCore, config: Option<Seq<(IntSetting, i32)>>) -> StatusCore {
    let settings = settings_after(s.settings, config);
    StatusCore {
        timers: CheckTimers {
            rating_check_interval: settings.rating_check_interval,
            message_check_interval: settings.message_check_interval,
            newguest_check_interval: settings.newguest_check_interval,
            ..s.timers
        },
        settings,
        ..s
    }
}

/// The tracker `s` after initialisation with `config`, `start_date` being the game's start date:
/// timers, flags and counters cleared, the history cursor at month 1 of year 0, the default
/// settings with the configuration applied, the escape time at the start date. The species count
/// and the flagged-animal count are left as they were.
pub open spec fn spec_core_init(s: StatusCore, config: Option<Seq<(IntSetting, i32)>>, start_date: u64) -> StatusCore {
    let settings = settings_after(default_settings(), config);
    StatusCore {
        timers: CheckTimers {
            rating_check_elapsed: 0,
            rating_check_interval: settings.rating_check_interval,
            message_check_elapsed: 0,
            message_check_interval: settings.message_check_interval,
            newguest_check_elapsed: 0,
            newguest_check_interval: settings.newguest_check_interval,
        },
        finance_check_pending: false,
        zoo_rating_current: 0,
        tallies: ZooTallies {
            num_animals: 0,
            animal_condition_counter_1: s.tallies.animal_condition_counter_1,
            num_tired_guests: 0,
            num_hungry_guests: 0,
            num_thirst_guests: 0,
            num_guests_restroom_need: 0,
            guest_condition_counter_1: 0,
            guest_condition_counter_2: 0,
            guest_tile_count: 0,
            animal_rating_metric: 0,
            guest_rating_metric: 0,
        },
        num_species: s.num_species,
        field_0x48: 2,
        field_0x4c: 10000,
        field_0x50: 0,
        field_0x54: 0,
        field_0x58: 0,
        research_completion_percent: 0,
        current_month_index: 1,
        current_year_index: 0,
        settings,
        last_animal_escape_timestamp: start_date,
    }
}

/// The view of an optional configuration.
pub open spec fn config_view(config: Option<&Vec<(IntSetting, i32)>>) -> Option<Seq<(IntSetting, i32)>> {
    match config {
        Some(reads) => Some(reads@),
        None => None,
    }
}

impl StatusCore {
    /// Initialises the tracker (see `spec_core_init`).
    pub fn init(&mut self, config: Option<&Vec<(IntSetting, i32)>>, start_date: u64)
        ensures
            *final(self) == spec_core_init(*old(self), config_view(config), start_date),
            intervals_follow_settings(*final(self)),
    {
        let settings = ZooSettings::init(config);
        self.timers = CheckTimers {
            rating_check_elapsed: 0,
            rating_check_interval: settings.rating_check_interval,
            message_check_elapsed: 0,
            message_check_interval: settings.message_check_interval,
            newguest_check_elapsed: 0,
            newguest_check_interval: settings.newguest_check_interval,
        };
        self.finance_check_pending = false;
        self.zoo_rating_current = 0;
        self.tallies = ZooTallies {
            num_animals: 0,
            animal_condition_counter_1: self.tallies.animal_condition_counter_1,
            num_tired_guests: 0,
            num_hungry_guests: 0,
            num_thirst_guests: 0,
            num_guests_restroom_need: 0,
            guest_condition_counter_1: 0,
            guest_condition_counter_2: 0,
            guest_tile_count: 0,
            animal_rating_metric: 0,
            guest_rating_metric: 0,
        };
        self.field_0x48 = 2;
        self.field_0x4c = 10000;
        self.field_0x50 = 0;
        self.field_0x54 = 0;
        self.field_0x58 = 0;
        self.research_completion_percent = 0;
        self.current_month_index = 1;
        self.current_year_index = 0;
        self.settings = settings;
        self.last_animal_escape_timestamp = start_date;
    }

    /// Applies a configuration to the settings; the timers follow the new intervals.
    pub fn override_config(&mut self, config: Option<&Vec<(IntSetting, i32)>>)
        ensures
            *final(self) == spec_core_override(*old(self), config_view(config)),
            intervals_follow_settings(*final(self)),
    {
        self.settings.override_config(config);
        self.timers.rating_check_interval = self.settings.rating_check_interval;
        self.timers.message_check_interval = self.settings.message_check_interval;
        self.timers.newguest_check_interval = self.settings.newguest_check_interval;
    }
}

/// The outcome of each read a load of the status tracker's part of a save makes, in file order;
/// `None` (or `false`) where the read failed. Reads that a save's version does not hold are not
/// looked at.
#[derive(Clone, Copy, Debug, PartialEq, Eq, Structural)]
pub struct LoadReads {
    pub rating_check_elapsed: Option<i32>,
    pub message_check_elapsed: Option<i32>,
    pub newguest_check_elapsed: Option<i32>,
    /// The stored finance word: a counter for saves before 0x17, the flag byte after.
    pub finance: Option<i32>,
    pub zoo_rating_current: Option<i32>,
    pub field_0x48: Option<i32>,
    pub field_0x50: Option<i32>,
    pub field_0x54: Option<i32>,
    /// The retired word of saves before 0x18 was read.
    pub discarded_word_read: bool,
    /// The period's donation count (floating point, kept by the caller) was read.
    pub donation_count_read: bool,
    pub current_month_index: Option<i32>,
    pub current_year_index: Option<i32>,
    /// The stored number of history categories.
    pub category_count: Option<i32>,
    /// The stored number of history years.
    pub year_count: Option<i32>,
    /// Every finance history entry (floating point, kept by the caller) was read.
    pub history_read: bool,
    /// The admission price (floating point, kept by the caller) was read.
    pub admission_price_read: bool,
    pub escape_time: Option<u64>,
}

/// `v`'s value, or `old` where the read failed.
pub open spec fn read_or(v: Option<i32>, old: i32) -> i32 {
    match v {
        Some(x) => x,
        None => old,
    }
}

/// A load's result word: 1 for success, 0 for failure.
pub open spec fn result_word(ok: bool) -> u32 {
    if ok {
        1
    } else {
        0
    }
}

/// The last step of every load: the admission price (read for saves from 0x27 on, else reset
/// by the caller), then the escape time, read for saves from 0x47 on and otherwise reset to the
/// game's start date `start_date`.
pub open spec fn spec_load_tail(s: StatusCore, version: u32, r: LoadReads, start_date: u64, ok: bool) -> (StatusCore, u32) {
    let ok = if version < 0x27 {
        ok
    } else {
        ok && r.admission_price_read
    };
    if version < 0x47 {
        (StatusCore { last_animal_escape_timestamp: start_date, ..s }, result_word(ok))
    } else {
        match r.escape_time {
            Some(t) => (StatusCore { last_animal_escape_timestamp: t, ..s }, result_word(ok)),
            None => (s, 0),
        }
    }
}

/// The header fields read from a save of `version` into `s`.
pub open spec fn spec_load_header(s: StatusCore, version: u32, r: LoadReads) -> StatusCore {
    StatusCore {
        timers: CheckTimers {
            rating_check_elapsed: read_or(r.rating_check_elapsed, s.timers.rating_check_elapsed),
            message_check_elapsed: read_or(r.message_check_elapsed, s.timers.message_check_elapsed),
            newguest_check_elapsed: read_or(r.newguest_check_elapsed, s.timers.newguest_check_elapsed),
            ..s.timers
        },
        finance_check_pending: match r.finance {
            Some(w) => if version < 0x17 {
                w > 360_000
            } else {
                w != 0
            },
            None => s.finance_check_pending,
        },
        zoo_rating_current: read_or(r.zoo_rating_current, s.zoo_rating_current),
        field_0x48: read_or(r.field_0x48, s.field_0x48),
        field_0x50: read_or(r.field_0x50, s.field_0x50),
        field_0x54: read_or(r.field_0x54, s.field_0x54),
        ..s
    }
}

/// Every header read of a save of `version` succeeded.
pub open spec fn header_read(version: u32, r: LoadReads) -> bool {
    &&& r.rating_check_elapsed is Some
    &&& r.message_check_elapsed is Some
    &&& r.newguest_check_elapsed is Some
    &&& r.finance is Some
    &&& r.zoo_rating_current is Some
    &&& r.field_0x48 is Some
    &&& r.field_0x50 is Some
    &&& r.field_0x54 is Some
    &&& (version < 0x18 ==> r.discarded_word_read)
    &&& r.donation_count_read
}

/// The tracker and the result word after loading its part of a save of `version` into `s`, given
/// the outcome of each read: saves up to 0xc hold only the tail and always load; older saves
/// hold the header and then the tail; from 0x17 on the history cursor and the two history sizes
/// follow, and a failed read up to there fails the load at once; a current-layout save (0x47 on)
/// whose sizes exceed the tracker's history fails too; otherwise the history, then the tail.
/// A field whose read failed keeps its value; every field not read keeps its value.
pub open spec fn spec_core_load(s: StatusCore, version: u32, r: LoadReads, start_date: u64) -> (StatusCore, u32) {
    if version <= 0xc {
        spec_load_tail(s, version, r, start_date, true)
    } else {
        let h = spec_load_header(s, version, r);
        let ok = header_read(version, r);
        if version < 0x17 {
            spec_load_tail(h, version, r, start_date, ok)
        } else {
            let h2 = StatusCore {
                current_month_index: read_or(r.current_month_index, h.current_month_index),
                current_year_index: read_or(r.current_year_index, h.current_year_index),
                ..h
            };
            let counts_read = ok && r.current_month_index is Some && r.current_year_index is Some
                && r.category_count is Some && r.year_count is Some;
            if !counts_read {
                (h2, 0)
            } else if version >= 0x47 && !(0 <= r.category_count.unwrap() <= HISTORY_CATEGORIES
                && 0 <= r.year_count.unwrap() <= HISTORY_YEARS) {
                (h2, 0)
            } else {
                spec_load_tail(h2, version, r, start_date, r.history_read)
            }
        }
    }
}

impl StatusCore {
    /// The last step of every load (see `spec_load_tail`).
    fn load_tail(&mut self, version: u32, r: &LoadReads, start_date: u64, ok: bool) -> (res: u32)
        ensures
            (*final(self), res) == spec_load_tail(*old(self), version, *r, start_date, ok),
    {
        let ok = if version < 0x27 {
            ok
        } else {
            ok && r.admission_price_read
        };
        if version < 0x47 {
            self.last_animal_escape_timestamp = start_date;
            return if ok { 1 } else { 0 };
        }
        match r.escape_time {
            Some(t) => {
                self.last_animal_escape_timestamp = t;
                if ok { 1 } else { 0 }
            },
            None => 0,
        }
    }

    /// Loads the tracker's part of a save of `version` (see `spec_core_load`); `start_date` is
    /// the game's start date, which older saves reset the escape time to. Returns 1 on success,
    /// 0 on failure.
    pub fn load(&mut self, version: u32, r: &LoadReads, start_date: u64) -> (res: u32)
        ensures
            (*final(self), res) == spec_core_load(*old(self), version, *r, start_date),
    {
        if version <= 0xc {
            return self.load_tail(version, r, start_date, true);
        }
        let mut ok = true;
        match r.rating_check_elapsed {
            Some(v) => self.timers.rating_check_elapsed = v,
            None => ok = false,
        }
        match r.message_check_elapsed {
            Some(v) => self.timers.message_check_elapsed = v,
            None => ok = false,
        }
        match r.newguest_check_elapsed {
            Some(v) => self.timers.newguest_check_elapsed = v,
            None => ok = false,
        }
        match r.finance {
            Some(w) => {
                self.finance_check_pending = if version < 0x17 {
                    finance_pending_from_counter(w)
                } else {
                    w != 0
                };
            },
            None => ok = false,
        }
        match r.zoo_rating_current {
            Some(v) => self.zoo_rating_current = v,
            None => ok = false,
        }
        match r.field_0x48 {
            Some(v) => self.field_0x48 = v,
            None => ok = false,
        }
        match r.field_0x50 {
            Some(v) => self.field_0x50 = v,
            None => ok = false,
        }
        match r.field_0x54 {
            Some(v) => self.field_0x54 = v,
            None => ok = false,
        }
        if version < 0x18 && !r.discarded_word_read {
            ok = false;
        }
        if !r.donation_count_read {
            ok = false;
        }
        if version < 0x17 {
            return self.load_tail(version, r, start_date, ok);
        }
        match r.current_month_index {
            Some(v) => self.current_month_index = v,
            None => ok = false,
        }
        match r.current_year_index {
            Some(v) => self.current_year_index = v,
            None => ok = false,
        }
        let (category_count, year_count) = match (r.category_count, r.year_count) {
            (Some(c), Some(y)) => (c, y),
            _ => return 0,
        };
        if !ok {
            return 0;
        }
        if version >= 0x47 && !history_counts_fit(category_count, year_count) {
            return 0;
        }
        self.load_tail(version, r, start_date, r.history_read)
    }
}

} // verus!
