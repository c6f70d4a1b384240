//! The money and date read-outs of the overlay and the help texts built around numbers and dates.
use vstd::prelude::*;
use crate::text::{
    contains_str, decimal, owned, padded_decimal, push_char, push_padded_decimal, push_str, replace_str,
    spec_contains, spec_replace,
};

verus! {

/// The decimal digits of `n` with a comma between each group of three, counted from the right.
pub open spec fn grouped_decimal(n: nat) -> Seq<char>
    decreases n,
{
    if n < 1000 {
        decimal(n)
    } else {
        grouped_decimal(n / 1000) + seq![','] + padded_decimal(n % 1000, 3)
    }
}

/// The money text for a rounded amount: `$` and the grouped digits, with `-` in front when
/// negative.
pub open spec fn spec_format_money(amount: int) -> Seq<char> {
    if amount < 0 {
        seq!['-', '$'] + grouped_decimal((-amount) as nat)
    } else {
        seq!['$'] + grouped_decimal(amount as nat)
    }
}

fn push_grouped(s: &mut String, n: u64)
    ensures
        final(s)@ == old(s)@ + grouped_decimal(n as nat),
    decreases n,
{
    if n < 1000 {
        push_padded_decimal(s, n, 1);
    } else {
        push_grouped(s, n / 1000);
        push_char(s, ',');
        push_padded_decimal(s, n % 1000, 3);
        assert(final(s)@ =~= old(s)@ + grouped_decimal(n as nat));
    }
}

/// Formats a money amount already rounded to whole dollars, such as `$50,000` or `-$1,234`.
pub fn format_money(amount: i64) -> (r: String)
    requires
        amount != i64::MIN,
    ensures
        r@ == spec_format_money(amount as int),
{
    let mut s = String::new();
    if amount < 0 {
        push_char(&mut s, '-');
        push_char(&mut s, '$');
        push_grouped(&mut s, (-amount) as u64);
    } else {
        push_char(&mut s, '$');
        push_grouped(&mut s, amount as u64);
    }
    assert(s@ =~= spec_format_money(amount as int));
    s
}

/// The money read-out.
#[derive(Debug)]
pub struct MoneyDisplay {
    pub text: String,
    /// The budget is exactly zero.
    pub zero: bool,
    /// The budget is below zero.
    pub negative: bool,
}

impl Default for MoneyDisplay {
    /// The read-out before the game reports the budget: `$50,000`.
    fn default() -> (d: MoneyDisplay)
        ensures
            d.text@ == "$50,000"@,
            !d.zero,
            !d.negative,
    {
        MoneyDisplay { text: owned("$50,000"), zero: false, negative: false }
    }
}

impl MoneyDisplay {
    /// Shows a budget: its amount rounded to whole dollars, and whether the exact budget is zero or
    /// negative.
    pub fn set_value(&mut self, rounded: i64, zero: bool, negative: bool)
        requires
            rounded != i64::MIN,
        ensures
            final(self).text@ == spec_format_money(rounded as int),
            final(self).zero == zero,
            final(self).negative == negative,
    {
        self.text = format_money(rounded);
        self.zero = zero;
        self.negative = negative;
    }

    /// A copy of the read-out.
    pub fn current(&self) -> (r: MoneyDisplay)
        ensures
            r.text@ == self.text@,
            r.zero == self.zero,
            r.negative == self.negative,
    {
        MoneyDisplay { text: owned(self.text.as_str()), zero: self.zero, negative: self.negative }
    }
}

/// A day of the week.
#[derive(Clone, Copy, Debug, PartialEq, Eq, Structural)]
pub enum Weekday {
    Monday,
    Tuesday,
    Wednesday,
    Thursday,
    Friday,
    Saturday,
    Sunday,
}

/// A month of the year.
#[derive(Clone, Copy, Debug, PartialEq, Eq, Structural)]
pub enum Month {
    January,
    February,
    March,
    April,
    May,
    June,
    July,
    August,
    September,
    October,
    November,
    December,
}

/// The parts of the game date the read-out and its tooltip use.
#[derive(Clone, Copy, Debug, PartialEq, Eq, Structural)]
pub struct DisplayDate {
    pub weekday: Weekday,
    pub month: Month,
    pub day: u8,
}

/// The three-letter name of a weekday.
pub open spec fn spec_weekday_abbreviation(w: Weekday) -> Seq<char> {
    match w {
        Weekday::Monday => seq!['M', 'o', 'n'],
        Weekday::Tuesday => seq!['T', 'u', 'e'],
        Weekday::Wednesday => seq!['W', 'e', 'd'],
        Weekday::Thursday => seq!['T', 'h', 'u'],
        Weekday::Friday => seq!['F', 'r', 'i'],
        Weekday::Saturday => seq!['S', 'a', 't'],
        Weekday::Sunday => seq!['S', 'u', 'n'],
    }
}

/// The three-letter name of a month.
pub open spec fn spec_month_abbreviation(m: Month) -> Seq<char> {
    match m {
        Month::January => seq!['J', 'a', 'n'],
        Month::February => seq!['F', 'e', 'b'],
        Month::March => seq!['M', 'a', 'r'],
        Month::April => seq!['A', 'p', 'r'],
        Month::May => seq!['M', 'a', 'y'],
        Month::June => seq!['J', 'u', 'n'],
        Month::July => seq!['J', 'u', 'l'],
        Month::August => seq!['A', 'u', 'g'],
        Month::September => seq!['S', 'e', 'p'],
        Month::October => seq!['O', 'c', 't'],
        Month::November => seq!['N', 'o', 'v'],
        Month::December => seq!['D', 'e', 'c'],
    }
}

/// The English name of a month.
pub open spec fn month_name(m: Month) -> Seq<char> {
    match m {
        Month::January => "January"@,
        Month::February => "February"@,
        Month::March => "March"@,
        Month::April => "April"@,
        Month::May => "May"@,
        Month::June => "June"@,
        Month::July => "July"@,
        Month::August => "August"@,
        Month::September => "September"@,
        Month::October => "October"@,
        Month::November => "November"@,
        Month::December => "December"@,
    }
}

/// The English name of a weekday.
pub open spec fn weekday_name(w: Weekday) -> Seq<char> {
    match w {
        Weekday::Monday => "Monday"@,
        Weekday::Tuesday => "Tuesday"@,
        Weekday::Wednesday => "Wednesday"@,
        Weekday::Thursday => "Thursday"@,
        Weekday::Friday => "Friday"@,
        Weekday::Saturday => "Saturday"@,
        Weekday::Sunday => "Sunday"@,
    }
}

/// A month's abbreviation is the first three letters of its English name, and no two months
/// share one.
pub proof fn law_month_abbreviations(m: Month, other: Month)
    ensures
        spec_month_abbreviation(m) == month_name(m).take(3),
        m != other ==> spec_month_abbreviation(m) != spec_month_abbreviation(other),
{
    reveal_strlit("January");
    reveal_strlit("February");
    reveal_strlit("March");
    reveal_strlit("April");
    reveal_strlit("May");
    reveal_strlit("June");
    reveal_strlit("July");
    reveal_strlit("August");
    reveal_strlit("September");
    reveal_strlit("October");
    reveal_strlit("November");
    reveal_strlit("December");
    assert(spec_month_abbreviation(m) =~= month_name(m).take(3));
    if m != other {
        let a = spec_month_abbreviation(m);
        let b = spec_month_abbreviation(other);
        assert(a[0] != b[0] || a[1] != b[1] || a[2] != b[2]);
    }
}

/// A weekday's abbreviation is the first three letters of its English name, and no two
/// weekdays share one.
pub proof fn law_weekday_abbreviations(w: Weekday, other: Weekday)
    ensures
        spec_weekday_abbreviation(w) == weekday_name(w).take(3),
        w != other ==> spec_weekday_abbreviation(w) != spec_weekday_abbreviation(other),
{
    reveal_strlit("Monday");
    reveal_strlit("Tuesday");
    reveal_strlit("Wednesday");
    reveal_strlit("Thursday");
    reveal_strlit("Friday");
    reveal_strlit("Saturday");
    reveal_strlit("Sunday");
    assert(spec_weekday_abbreviation(w) =~= weekday_name(w).take(3));
    if w != other {
        let a = spec_weekday_abbreviation(w);
        let b = spec_weekday_abbreviation(other);
        assert(a[0] != b[0] || a[1] != b[1] || a[2] != b[2]);
    }
}

fn push3(s: &mut String, a: char, b: char, c: char)
    ensures
        final(s)@ == old(s)@ + seq![a, b, c],
{
    push_char(s, a);
    push_char(s, b);
    push_char(s, c);
    assert(final(s)@ =~= old(s)@ + seq![a, b, c]);
}

/// Appends the three-letter name of `w`.
pub fn push_weekday_abbreviation(s: &mut String, w: Weekday)
    ensures
        final(s)@ == old(s)@ + spec_weekday_abbreviation(w),
{
    match w {
        Weekday::Monday => push3(s, 'M', 'o', 'n'),
        Weekday::Tuesday => push3(s, 'T', 'u', 'e'),
        Weekday::Wednesday => push3(s, 'W', 'e', 'd'),
        Weekday::Thursday => push3(s, 'T', 'h', 'u'),
        Weekday::Friday => push3(s, 'F', 'r', 'i'),
        Weekday::Saturday => push3(s, 'S', 'a', 't'),
        Weekday::Sunday => push3(s, 'S', 'u', 'n'),
    }
}

/// Appends the three-letter name of `m`.
pub fn push_month_abbreviation(s: &mut String, m: Month)
    ensures
        final(s)@ == old(s)@ + spec_month_abbreviation(m),
{
    match m {
        Month::January => push3(s, 'J', 'a', 'n'),
        Month::February => push3(s, 'F', 'e', 'b'),
        Month::March => push3(s, 'M', 'a', 'r'),
        Month::April => push3(s, 'A', 'p', 'r'),
        Month::May => push3(s, 'M', 'a', 'y'),
        Month::June => push3(s, 'J', 'u', 'n'),
        Month::July => push3(s, 'J', 'u', 'l'),
        Month::August => push3(s, 'A', 'u', 'g'),
        Month::September => push3(s, 'S', 'e', 'p'),
        Month::October => push3(s, 'O', 'c', 't'),
        Month::November => push3(s, 'N', 'o', 'v'),
        Month::December => push3(s, 'D', 'e', 'c'),
    }
}

/// The date as the date tooltip writes it, such as `Mon. Jan 1`.
pub open spec fn spec_format_tooltip_date(d: DisplayDate) -> Seq<char> {
    spec_weekday_abbreviation(d.weekday) + seq!['.', ' '] + spec_month_abbreviation(d.month) + seq![' ']
        + decimal(d.day as nat)
}

/// Writes the date as the date tooltip shows it.
pub fn format_tooltip_date(d: DisplayDate) -> (r: String)
    ensures
        r@ == spec_format_tooltip_date(d),
{
    let mut s = String::new();
    push_weekday_abbreviation(&mut s, d.weekday);
    push_char(&mut s, '.');
    push_char(&mut s, ' ');
    push_month_abbreviation(&mut s, d.month);
    push_char(&mut s, ' ');
    push_padded_decimal(&mut s, d.day as u64, 1);
    assert(s@ =~= spec_format_tooltip_date(d));
    s
}

/// A help text with a value filled in: every `placeholder` of `template` replaced by `value`
/// when there is one, else `value` appended.
pub open spec fn spec_fill_help_text(template: Seq<char>, placeholder: Seq<char>, value: Seq<char>) -> Seq<char> {
    if spec_contains(template, placeholder) {
        spec_replace(template, placeholder, value)
    } else {
        template + value
    }
}

/// The date tooltip's text: the help text `template` with the formatted date in place of each
/// `%s`, or after it when it has none.
pub fn format_date_help_text(template: &str, date: DisplayDate) -> (r: String)
    ensures
        r@ == spec_fill_help_text(template@, seq!['%', 's'], spec_format_tooltip_date(date)),
{
    let formatted = format_tooltip_date(date);
    let placeholder = "%s";
    proof {
        reveal_strlit("%s");
        assert(placeholder@ =~= seq!['%', 's']);
    }
    if contains_str(template, placeholder) {
        replace_str(template, placeholder, formatted.as_str())
    } else {
        let mut s = owned(template);
        push_str(&mut s, formatted.as_str());
        s
    }
}

/// A meter's tooltip: the help text `template` with `value` in decimal in place of each `%d`, or
/// after it when it has none.
pub fn format_numeric_help_text(template: &str, value: u32) -> (r: String)
    ensures
        r@ == spec_fill_help_text(template@, seq!['%', 'd'], decimal(value as nat)),
{
    let mut digits = String::new();
    push_padded_decimal(&mut digits, value as u64, 1);
    assert(digits@ =~= decimal(value as nat));
    let placeholder = "%d";
    proof {
        reveal_strlit("%d");
        assert(placeholder@ =~= seq!['%', 'd']);
    }
    if contains_str(template, placeholder) {
        replace_str(template, placeholder, digits.as_str())
    } else {
        let mut s = owned(template);
        push_str(&mut s, digits.as_str());
        s
    }
}

/// The string id of the date read-out's help text: the long one when long tooltips are on.
pub fn date_help_id(long_tooltips: bool) -> (r: u32)
    ensures
        r == if long_tooltips {
            31_030u32
        } else {
            1_030u32
        },
{
    if long_tooltips {
        31_030
    } else {
        1_030
    }
}

/// The date read-out.
#[derive(Debug)]
pub struct DateDisplay {
    pub text: String,
    /// The date shown, once the game has reported one.
    pub date: Option<DisplayDate>,
}

/// The read-out's text before the game reports a date.
pub open spec fn default_date_text() -> Seq<char> {
    "Jan 1, Year 1"@
}

impl DateDisplay {
    /// The read-out before the game reports a date.
    pub fn new() -> (d: DateDisplay)
        ensures
            d.text@ == default_date_text(),
            d.date is None,
    {
        DateDisplay { text: owned("Jan 1, Year 1"), date: None }
    }

    /// Shows `date`, written as `text`.
    pub fn set_value(&mut self, date: DisplayDate, text: String)
        ensures
            final(self).text@ == text@,
            final(self).date == Some(date),
    {
        self.text = text;
        self.date = Some(date);
    }

    /// The read-out's text.
    pub fn current(&self) -> (r: String)
        ensures
            r@ == self.text@,
    {
        owned(self.text.as_str())
    }

    /// The read-out's tooltip from its help text `template`: about the date shown, or failing that
    /// `game_date`, the game's own; `None` when there is neither.
    pub fn tooltip_text(&self, game_date: Option<DisplayDate>, template: &str) -> (r: Option<String>)
        ensures
            match (if self.date is Some { self.date } else { game_date }) {
                None => r is None,
                Some(d) => r matches Some(t) && t@ == spec_fill_help_text(template@, seq!['%', 's'], spec_format_tooltip_date(d)),
            },
    {
        let date = match self.date {
            Some(d) => d,
            None => match game_date {
                Some(d) => d,
                None => return None,
            },
        };
        Some(format_date_help_text(template, date))
    }
}

} // verus!
