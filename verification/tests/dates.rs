use emias_repr::date::{leap_year, month_length, Date};

#[test]
fn a_date_is_a_day_that_exists() {
    assert!(Date::new(2024, 3, 15).is_some());
    assert!(Date::new(2024, 2, 29).is_some());
    assert!(Date::new(2023, 2, 29).is_none());
    assert!(Date::new(1900, 2, 29).is_none());
    assert!(Date::new(2000, 2, 29).is_some());
    assert!(Date::new(2024, 4, 31).is_none());
    assert!(Date::new(2024, 0, 1).is_none());
    assert!(Date::new(2024, 13, 1).is_none());
    assert!(Date::new(2024, 1, 0).is_none());
    assert!(Date::new(2024, 1, 32).is_none());
}

#[test]
fn the_years_of_a_date_have_bounds() {
    assert!(Date::new(262142, 12, 31).is_some());
    assert!(Date::new(262143, 1, 1).is_none());
    assert!(Date::new(-262143, 1, 1).is_some());
    assert!(Date::new(-262144, 12, 31).is_none());
}

#[test]
fn a_date_gives_back_its_parts() {
    let date = Date::new(1990, 1, 2).unwrap();
    assert_eq!(date.year(), 1990);
    assert_eq!(date.month(), 1);
    assert_eq!(date.day(), 2);
}

#[test]
fn leap_years_follow_the_gregorian_rule() {
    assert!(leap_year(2024));
    assert!(!leap_year(2023));
    assert!(!leap_year(1900));
    assert!(leap_year(2000));
    assert!(leap_year(0));
    assert!(leap_year(-4));
    assert!(!leap_year(-1));
    assert_eq!(month_length(2024, 2), 29);
    assert_eq!(month_length(2023, 2), 28);
    assert_eq!(month_length(2023, 4), 30);
    assert_eq!(month_length(2023, 12), 31);
    assert_eq!(month_length(2023, 13), 0);
    assert_eq!(month_length(2023, 0), 0);
}

#[test]
fn a_date_is_written_as_day_month_year() {
    assert_eq!(Date::new(2024, 3, 15).unwrap().format_dmy(), "15.03.2024");
    assert_eq!(Date::new(1990, 1, 1).unwrap().format_dmy(), "01.01.1990");
    assert_eq!(Date::new(987, 12, 31).unwrap().format_dmy(), "31.12.0987");
    assert_eq!(Date::new(0, 1, 1).unwrap().format_dmy(), "01.01.0000");
    assert_eq!(Date::new(9999, 12, 31).unwrap().format_dmy(), "31.12.9999");
}

#[test]
fn a_year_outside_four_digits_is_written_with_its_sign() {
    assert_eq!(Date::new(10000, 1, 1).unwrap().format_dmy(), "01.01.+10000");
    assert_eq!(Date::new(-1, 1, 1).unwrap().format_dmy(), "01.01.-0001");
    assert_eq!(Date::new(-12345, 6, 7).unwrap().format_dmy(), "07.06.-12345");
    assert_eq!(Date::new(262142, 12, 31).unwrap().format_dmy(), "31.12.+262142");
    assert_eq!(Date::new(10000, 1, 1).unwrap().to_iso_string(), "+10000-01-01");
    assert_eq!(Date::new(-1, 1, 1).unwrap().to_iso_string(), "-0001-01-01");
}

#[test]
fn a_date_is_written_as_year_month_day() {
    assert_eq!(Date::new(2024, 3, 15).unwrap().to_iso_string(), "2024-03-15");
    assert_eq!(Date::new(1990, 1, 1).unwrap().to_iso_string(), "1990-01-01");
    assert_eq!(Date::new(7, 10, 9).unwrap().to_iso_string(), "0007-10-09");
}

#[test]
fn a_plain_date_is_read_as_its_digits_say() {
    assert_eq!(Date::parse_from_str("01.01.1990", "%d.%m.%Y"), Date::new(1990, 1, 1));
    assert_eq!(Date::parse_from_str("29.02.2024", "%d.%m.%Y"), Date::new(2024, 2, 29));
    assert_eq!(Date::parse_from_str("01.01.+10000", "%d.%m.%Y"), Date::new(10000, 1, 1));
    assert_eq!(Date::parse_from_str("01.01.-0001", "%d.%m.%Y"), Date::new(-1, 1, 1));
    assert_eq!(Date::parse_from_str("01.01.-0", "%d.%m.%Y"), Date::new(0, 1, 1));
    assert_eq!(Date::parse_from_str("01.01.0090", "%d.%m.%Y"), Date::new(90, 1, 1));
}

#[test]
fn a_plain_date_that_does_not_exist_is_not_read() {
    assert_eq!(Date::parse_from_str("29.02.2023", "%d.%m.%Y"), None);
    assert_eq!(Date::parse_from_str("00.01.2023", "%d.%m.%Y"), None);
    assert_eq!(Date::parse_from_str("32.01.2023", "%d.%m.%Y"), None);
    assert_eq!(Date::parse_from_str("01.13.2023", "%d.%m.%Y"), None);
    assert_eq!(Date::parse_from_str("01.01.+262143", "%d.%m.%Y"), None);
    assert_eq!(Date::parse_from_str("01.01.-262144", "%d.%m.%Y"), None);
    assert_eq!(Date::parse_from_str("01.01.+99999999999999999999999", "%d.%m.%Y"), None);
}

#[test]
fn what_is_no_date_is_not_read() {
    assert_eq!(Date::parse_from_str("", "%d.%m.%Y"), None);
    assert_eq!(Date::parse_from_str("1990-01-01", "%d.%m.%Y"), None);
    assert_eq!(Date::parse_from_str("01.01.1990 ", "%d.%m.%Y"), None);
    assert_eq!(Date::parse_from_str("yesterday", "%d.%m.%Y"), None);
    assert_eq!(Date::parse_from_str("01.01.19900", "%d.%m.%Y"), None);
}

#[test]
fn a_date_is_read_under_the_format_of_the_service() {
    assert_eq!(Date::parse_from_str("2024-03-15", "%Y-%m-%d"), Date::new(2024, 3, 15));
    assert_eq!(Date::parse_from_str("15.03.2024", "%Y-%m-%d"), None);
}

#[test]
fn writing_and_reading_a_date_gives_the_date() {
    let dates = [
        (1990, 1, 1),
        (2024, 2, 29),
        (0, 1, 1),
        (9999, 12, 31),
        (10000, 1, 1),
        (-1, 12, 31),
        (-9999, 5, 5),
        (-10000, 5, 5),
        (262142, 12, 31),
        (-262143, 1, 1),
        (5, 6, 7),
    ];
    for (year, month, day) in dates {
        let date = Date::new(year, month, day).unwrap();
        let text = date.format_dmy();
        assert_eq!(Date::parse_from_str(&text, "%d.%m.%Y"), Some(date));
    }
}

#[test]
fn zeros_before_a_signed_year_do_not_count() {
    assert_eq!(
        Date::parse_from_str("01.01.+0000000000000000000000001990", "%d.%m.%Y"),
        Date::new(1990, 1, 1)
    );
    assert_eq!(Date::parse_from_str("31.12.-00262143", "%d.%m.%Y"), Date::new(-262143, 12, 31));
    assert_eq!(Date::parse_from_str("01.01.+0", "%d.%m.%Y"), Date::new(0, 1, 1));
    assert_eq!(Date::parse_from_str("01.01.+", "%d.%m.%Y"), None);
    assert_eq!(Date::parse_from_str("01.01.+19a0", "%d.%m.%Y"), None);
}

#[test]
fn the_parts_of_a_plain_date_are_digits() {
    assert_eq!(Date::parse_from_str("0a.01.1990", "%d.%m.%Y"), None);
    assert_eq!(Date::parse_from_str("01/01/1990", "%d.%m.%Y"), None);
    assert_eq!(Date::parse_from_str("01.01.١٩٩٠", "%d.%m.%Y"), None);
    assert_eq!(Date::parse_from_str("31.04.2024", "%d.%m.%Y"), None);
    assert_eq!(Date::parse_from_str("30.04.2024", "%d.%m.%Y"), Date::new(2024, 4, 30));
}
