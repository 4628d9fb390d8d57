use chrono::TimeZone;
use person::whole_years_between;

fn ms(y: i32, mo: u32, d: u32, h: u32, mi: u32, s: u32) -> i64 {
    chrono::Utc
        .with_ymd_and_hms(y, mo, d, h, mi, s)
        .unwrap()
        .timestamp_millis()
}

#[test]
fn whole_years_are_exact_on_anniversaries() {
    let dob = ms(2000, 1, 1, 0, 0, 0);
    assert_eq!(whole_years_between(dob, ms(2021, 1, 1, 0, 0, 0)), 21);
    assert_eq!(whole_years_between(dob, ms(2021, 6, 1, 0, 0, 0)), 21);
    assert_eq!(whole_years_between(dob, ms(2020, 12, 31, 0, 0, 0)), 20);
    assert_eq!(whole_years_between(dob, ms(2000, 12, 31, 23, 59, 59)), 0);
    assert_eq!(whole_years_between(dob, dob), 0);
}

#[test]
fn whole_years_count_time_of_day() {
    let dob = ms(2000, 6, 15, 12, 0, 0);
    // One second before the 18th anniversary's time of day: still 17.
    assert_eq!(whole_years_between(dob, ms(2018, 6, 15, 11, 59, 59)), 17);
    assert_eq!(whole_years_between(dob, ms(2018, 6, 15, 12, 0, 0)), 18);
}

#[test]
fn whole_years_clamp_at_zero_before_birth() {
    let dob = ms(2000, 1, 1, 0, 0, 0);
    assert_eq!(whole_years_between(dob, ms(1999, 12, 31, 23, 59, 59)), 0);
    assert_eq!(whole_years_between(dob, ms(1950, 5, 5, 0, 0, 0)), 0);
}

#[test]
fn whole_years_agree_with_chrono() {
    let instants = [
        ms(1970, 1, 1, 0, 0, 0),
        ms(1969, 7, 20, 20, 17, 40),
        ms(2000, 2, 29, 12, 30, 0),
        ms(2004, 2, 29, 0, 0, 0),
        ms(2024, 2, 29, 23, 59, 59),
        ms(1999, 12, 31, 23, 59, 59),
        ms(2021, 1, 1, 0, 0, 0),
        ms(2038, 1, 19, 3, 14, 8),
        ms(1900, 6, 1, 6, 0, 0),
    ];
    for &dob in &instants {
        for &now in &instants {
            let got = whole_years_between(dob, now);
            let cd = chrono::DateTime::from_timestamp_millis(dob).unwrap();
            let cn = chrono::DateTime::from_timestamp_millis(now).unwrap();
            let expected = cn.years_since(cd).unwrap_or(0);
            assert_eq!(got, expected, "dob {dob} now {now}");
        }
    }
}
