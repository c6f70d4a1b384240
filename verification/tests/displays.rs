use openzt::displays::{
    date_help_id, format_date_help_text, format_money, format_numeric_help_text, format_tooltip_date, DateDisplay, DisplayDate,
    MoneyDisplay, Month, Weekday,
};

#[test]
fn formats_money_with_grouping() {
    assert_eq!(format_money(50000), "$50,000");
    assert_eq!(format_money(-1234), "-$1,234");
}

#[test]
fn money_groups_every_three_digits() {
    assert_eq!(format_money(0), "$0");
    assert_eq!(format_money(999), "$999");
    assert_eq!(format_money(1000), "$1,000");
    assert_eq!(format_money(1_000_005), "$1,000,005");
    assert_eq!(format_money(i64::MAX), "$9,223,372,036,854,775,807");
    assert_eq!(format_money(-i64::MAX), "-$9,223,372,036,854,775,807");
}

#[test]
fn money_display_defaults_and_updates() {
    let mut display = MoneyDisplay::default();
    assert_eq!(display.text, "$50,000");
    assert!(!display.zero && !display.negative);
    display.set_value(-12, false, true);
    let copy = display.current();
    assert_eq!(copy.text, "-$12");
    assert!(copy.negative);
    display.set_value(0, false, true);
    assert_eq!(display.text, "$0");
}

fn date() -> DisplayDate {
    DisplayDate { weekday: Weekday::Monday, month: Month::January, day: 1 }
}

#[test]
fn tooltip_date_uses_abbreviations() {
    assert_eq!(format_tooltip_date(date()), "Mon. Jan 1");
    let d = DisplayDate { weekday: Weekday::Sunday, month: Month::December, day: 31 };
    assert_eq!(format_tooltip_date(d), "Sun. Dec 31");
}

#[test]
fn date_help_text_fills_or_appends() {
    assert_eq!(format_date_help_text("Today is %s.", date()), "Today is Mon. Jan 1.");
    assert_eq!(format_date_help_text("%s / %s", date()), "Mon. Jan 1 / Mon. Jan 1");
    assert_eq!(format_date_help_text("Date: ", date()), "Date: Mon. Jan 1");
    assert_eq!(date_help_id(true), 31_030);
    assert_eq!(date_help_id(false), 1_030);
}

#[test]
fn numeric_help_text_fills_or_appends() {
    assert_eq!(format_numeric_help_text("Zoo rating: %d%", 75), "Zoo rating: 75%");
    assert_eq!(format_numeric_help_text("Rating ", 0), "Rating 0");
    assert_eq!(format_numeric_help_text("%%dd", 12), "%12d");
}

#[test]
fn date_display_prefers_its_own_date() {
    let mut display = DateDisplay::new();
    assert_eq!(display.current(), "Jan 1, Year 1");
    assert_eq!(display.tooltip_text(None, "%s"), None);
    let game = DisplayDate { weekday: Weekday::Friday, month: Month::March, day: 9 };
    assert_eq!(display.tooltip_text(Some(game), "%s"), Some("Fri. Mar 9".to_string()));
    display.set_value(date(), "Jan 1, 2001".to_string());
    assert_eq!(display.current(), "Jan 1, 2001");
    assert_eq!(display.tooltip_text(Some(game), "%s"), Some("Mon. Jan 1".to_string()));
}
