use person::{Person, Timestamp};

const MS_2000_01_01: i64 = 946_684_800_000;
const MS_2021_01_01: i64 = 1_609_459_200_000;
const DAY_MS: i64 = 86_400_000;

#[test]
fn dob_stays_in_supplied_range() {
    let min = Timestamp { millis: MS_2000_01_01 };
    let max = Timestamp { millis: MS_2021_01_01 };
    for _ in 0..200 {
        let p = Person::random_with_dob_range(min, max);
        let dob = p.get_date_of_birth();
        assert!(min.millis <= dob.millis && dob.millis < max.millis);
    }
}

#[test]
fn dob_stays_in_tight_range() {
    let min = Timestamp { millis: MS_2000_01_01 };
    let max = Timestamp { millis: MS_2000_01_01 + 1 };
    for _ in 0..50 {
        let p = Person::with_dob_range(min, max, false);
        assert_eq!(p.get_date_of_birth().millis, MS_2000_01_01);
    }
}

#[test]
fn middle_name_flag_is_honored() {
    let min = Timestamp { millis: MS_2000_01_01 };
    let max = Timestamp { millis: MS_2021_01_01 };
    for _ in 0..100 {
        assert!(Person::new(true).get_middle_name().is_some());
        assert!(Person::new(false).get_middle_name().is_none());
        assert!(Person::with_dob_range(min, max, true).get_middle_name().is_some());
        assert!(Person::with_dob_range(min, max, false).get_middle_name().is_none());
    }
    let m = Person::new(true).get_middle_name().unwrap();
    assert!(!m.is_empty());
}

#[test]
fn full_name_with_middle_has_three_segments() {
    let min = Timestamp { millis: MS_2000_01_01 };
    let max = Timestamp { millis: MS_2021_01_01 };
    let p = Person::with_dob_range(min, max, true);
    let full = p.get_full_name();
    let expected = format!(
        "{} {} {}",
        p.get_first_name(),
        p.get_middle_name().unwrap(),
        p.get_last_name()
    );
    assert_eq!(full, expected);
    assert_eq!(p.get_full_name(), full);
}

#[test]
fn full_name_without_middle_is_first_space_last() {
    let min = Timestamp { millis: MS_2000_01_01 };
    let max = Timestamp { millis: MS_2021_01_01 };
    let p = Person::with_dob_range(min, max, false);
    let full = p.get_full_name();
    let expected = format!("{} {}", p.get_first_name(), p.get_last_name());
    assert_eq!(full, expected);
    assert_eq!(p.get_full_name(), full);
}

#[test]
fn short_full_name_abbreviates_middle_to_initial_and_period() {
    let min = Timestamp { millis: MS_2000_01_01 };
    let max = Timestamp { millis: MS_2021_01_01 };
    let p = Person::with_dob_range(min, max, true);
    let middle = p.get_middle_name().unwrap();
    let initial = middle.chars().next().unwrap();
    let expected = format!(
        "{} {}. {}",
        p.get_first_name(),
        initial,
        p.get_last_name()
    );
    assert_eq!(p.get_short_full_name(), expected);

    let q = Person::with_dob_range(min, max, false);
    let expected_q = format!("{} {}", q.get_first_name(), q.get_last_name());
    assert_eq!(q.get_short_full_name(), expected_q);
}

#[test]
fn display_string_is_short_name_comma_age() {
    let min = Timestamp { millis: MS_2000_01_01 };
    let max = Timestamp { millis: MS_2021_01_01 };
    let p = Person::with_dob_range(min, max, true);
    let s = p.display_string();
    let expected = format!("{}, {}", p.get_short_full_name(), p.get_age());
    assert_eq!(s, expected);
}

#[test]
fn age_in_bounded_range_is_at_least_twenty_one() {
    let now = chrono::Utc::now().timestamp_millis();
    let min = Timestamp { millis: now - 40 * 366 * DAY_MS };
    let max = Timestamp { millis: now - 21 * 366 * DAY_MS };
    for _ in 0..50 {
        let p = Person::with_dob_range(min, max, false);
        assert!(p.get_age() >= 21);
        assert!(p.get_age() <= 41);
    }
}

#[test]
fn mass_construction_never_fails() {
    assert!(person::names::first_names().len() >= 1);
    assert!(person::names::surnames().len() >= 1);
    for _ in 0..10_000 {
        let p = Person::random();
        assert!(!p.get_first_name().is_empty());
        assert!(!p.get_last_name().is_empty());
    }
}

#[test]
fn random_person_age_is_at_most_a_hundred() {
    for _ in 0..100 {
        let p = Person::random();
        assert!(p.get_age() <= 100);
        let dob = p.get_date_of_birth().millis;
        let now = chrono::Utc::now().timestamp_millis();
        assert!(dob <= now);
        assert!(dob >= now - 100 * 366 * DAY_MS);
    }
}

#[test]
fn names_come_from_the_static_lists() {
    let firsts = person::names::first_names();
    let surnames = person::names::surnames();
    for _ in 0..100 {
        let p = Person::new(true);
        assert!(firsts.contains(&p.get_first_name().as_str()));
        assert!(firsts.contains(&p.get_middle_name().unwrap().as_str()));
        assert!(surnames.contains(&p.get_last_name().as_str()));
    }
}
