use t3_chat_viewer::calendar::civil_month_of;
use t3_chat_viewer::calendar::window_start;
use t3_chat_viewer::calendar::CivilMonth;
use t3_chat_viewer::time::Timestamp;
use t3_chat_viewer::time::FIRST_SECOND;
use t3_chat_viewer::time::LAST_SECOND;

fn stamp(rfc3339: &str) -> Timestamp {
    let t = chrono::DateTime::parse_from_rfc3339(rfc3339).unwrap();
    Timestamp::from_secs(t.timestamp()).unwrap()
}

#[test]
fn window_of_one_month_starts_with_the_month_itself() {
    assert_eq!(window_start(2024, 3, 1), (2024, 3));
    assert_eq!(window_start(2024, 1, 1), (2024, 1));
    assert_eq!(window_start(2024, 12, 1), (2024, 12));
}

#[test]
fn one_month_before_january_is_december_of_the_year_before() {
    assert_eq!(window_start(2024, 1, 2), (2023, 12));
    assert_eq!(window_start(1, 1, 2), (0, 12));
    assert_eq!(window_start(0, 1, 2), (-1, 12));
    assert_eq!(window_start(-1, 1, 2), (-2, 12));
}

#[test]
fn one_month_before_any_other_month_stays_in_the_year() {
    for month in 2..=12u32 {
        assert_eq!(window_start(2024, month, 2), (2024, month - 1));
    }
}

#[test]
fn twelve_months_seen_from_march_start_in_april_of_the_year_before() {
    assert_eq!(window_start(2024, 3, 12), (2023, 4));
    assert_eq!(window_start(2024, 12, 12), (2024, 1));
    assert_eq!(window_start(2024, 1, 12), (2023, 2));
    assert_eq!(window_start(2024, 11, 12), (2023, 12));
}

#[test]
fn windows_of_many_months_cross_many_years() {
    assert_eq!(window_start(2024, 3, 13), (2023, 3));
    assert_eq!(window_start(2024, 3, 25), (2022, 3));
    assert_eq!(window_start(2024, 3, 12 * 2024 + 3), (0, 1));
    assert_eq!(window_start(2024, 3, 12 * 2024 + 4), (-1, 12));
    assert_eq!(window_start(0, 1, 1 + 12 * 1_000_000), (-1_000_000, 1));
}

#[test]
fn window_of_no_month_starts_with_the_month_after() {
    assert_eq!(window_start(2024, 3, 0), (2024, 4));
    assert_eq!(window_start(2024, 12, 0), (2025, 1));
}

#[test]
fn window_start_walks_back_month_by_month() {
    let mut year: i64 = 2024;
    let mut month: u32 = 7;
    for n in 1..200usize {
        assert_eq!(window_start(2024, 7, n), (year, month));
        if month == 1 {
            year -= 1;
            month = 12;
        } else {
            month -= 1;
        }
    }
}

#[test]
fn window_start_takes_the_largest_window() {
    let (year, month) = window_start(i32::MIN, 1, usize::MAX);
    assert!((1..=12).contains(&month));
    let place = i128::from(year) * 12 + i128::from(month) - 1;
    assert_eq!(
        place,
        i128::from(i32::MIN) * 12 - (usize::MAX as i128 - 1)
    );
}

#[test]
fn civil_month_of_names_year_month_and_first_instant() {
    assert_eq!(
        civil_month_of(stamp("2024-01-01T10:15:00Z")),
        Some(CivilMonth { year: 2024, month: 1, start: 1_704_067_200 })
    );
    assert_eq!(
        civil_month_of(stamp("2024-02-29T23:59:59Z")),
        Some(CivilMonth { year: 2024, month: 2, start: 1_706_745_600 })
    );
    assert_eq!(
        civil_month_of(stamp("2023-12-31T23:59:59Z")),
        Some(CivilMonth { year: 2023, month: 12, start: 1_701_388_800 })
    );
    assert_eq!(
        civil_month_of(stamp("1970-01-01T00:00:00Z")),
        Some(CivilMonth { year: 1970, month: 1, start: 0 })
    );
    assert_eq!(
        civil_month_of(stamp("1969-12-31T23:59:59Z")),
        Some(CivilMonth { year: 1969, month: 12, start: -2_678_400 })
    );
}

#[test]
fn civil_month_of_goes_by_the_utc_date() {
    assert_eq!(
        civil_month_of(stamp("2024-03-01T00:30:00+01:00")),
        Some(CivilMonth { year: 2024, month: 2, start: 1_706_745_600 })
    );
}

#[test]
fn civil_month_of_knows_the_ends_of_the_range() {
    let first = civil_month_of(Timestamp::from_secs(FIRST_SECOND).unwrap()).unwrap();
    assert_eq!((first.year, first.month, first.start), (-262_143, 1, FIRST_SECOND));
    let last = civil_month_of(Timestamp::from_secs(LAST_SECOND).unwrap()).unwrap();
    assert_eq!((last.year, last.month), (262_142, 12));
    assert_eq!(last.start, LAST_SECOND - 31 * 86_400 + 1);
}
