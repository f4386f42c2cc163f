use t3_chat_viewer::charts::label_or_empty;
use t3_chat_viewer::charts::ChartState;
use t3_chat_viewer::charts::ChartType;
use t3_chat_viewer::series::Point;
use t3_chat_viewer::series::ProcessedChartData;
use t3_chat_viewer::time::FIRST_SECOND;
use t3_chat_viewer::time::LAST_SECOND;

fn epoch(rfc3339: &str) -> i64 {
    chrono::DateTime::parse_from_rfc3339(rfc3339).unwrap().timestamp()
}

#[test]
fn weekday_axis_shows_the_label_at_the_index() {
    let data = ChartState::new().process_day_of_week(&[]);
    let names = ["Mon", "Tue", "Wed", "Thu", "Fri", "Sat", "Sun"];
    for (i, name) in names.iter().enumerate() {
        assert_eq!(ChartType::DayOfWeek.axis_label(&data, i as i64), *name);
    }
}

#[test]
fn weekday_axis_shows_nothing_outside_the_bars() {
    let data = ChartState::new().process_day_of_week(&[]);
    assert_eq!(ChartType::DayOfWeek.axis_label(&data, 7), "");
    assert_eq!(ChartType::DayOfWeek.axis_label(&data, -1), "");
    assert_eq!(ChartType::DayOfWeek.axis_label(&data, i64::MAX), "");
    assert_eq!(ChartType::DayOfWeek.axis_label(&data, i64::MIN), "");
    assert_eq!(ChartType::DayOfWeek.axis_label(&data, 4_294_967_296), "");
}

#[test]
fn time_of_day_axis_shows_the_start_of_the_bin() {
    let data = ChartState::new().process_time_of_day(&[]);
    assert_eq!(ChartType::TimeOfDay.axis_label(&data, 0), "00:00");
    assert_eq!(ChartType::TimeOfDay.axis_label(&data, 20), "10:00");
    assert_eq!(ChartType::TimeOfDay.axis_label(&data, 21), "10:30");
    assert_eq!(ChartType::TimeOfDay.axis_label(&data, 47), "23:30");
    assert_eq!(ChartType::TimeOfDay.axis_label(&data, 48), "");
    assert_eq!(ChartType::TimeOfDay.axis_label(&data, -1), "");
}

#[test]
fn bar_axis_shows_nothing_without_bars() {
    let empty = ProcessedChartData::Empty;
    let lines = ProcessedChartData::Lines { points: vec![Point { x: 0, y: 1 }] };
    assert_eq!(ChartType::DayOfWeek.axis_label(&empty, 0), "");
    assert_eq!(ChartType::TimeOfDay.axis_label(&lines, 0), "");
}

#[test]
fn last_thirty_days_axis_shows_month_and_day() {
    let data = ProcessedChartData::Empty;
    let view = ChartType::Last30Days;
    assert_eq!(view.axis_label(&data, epoch("2024-01-01T10:15:00Z")), "01-01");
    assert_eq!(view.axis_label(&data, epoch("2024-02-29T00:00:00Z")), "02-29");
    assert_eq!(view.axis_label(&data, epoch("2023-12-31T23:59:59Z")), "12-31");
    assert_eq!(view.axis_label(&data, 0), "01-01");
    assert_eq!(view.axis_label(&data, -1), "12-31");
}

#[test]
fn last_twelve_months_axis_shows_year_and_month() {
    let data = ProcessedChartData::Empty;
    let view = ChartType::Last12Months;
    assert_eq!(view.axis_label(&data, epoch("2024-01-01T00:00:00Z")), "2024-01");
    assert_eq!(view.axis_label(&data, epoch("2023-12-31T23:59:59Z")), "2023-12");
    assert_eq!(view.axis_label(&data, 0), "1970-01");
    assert_eq!(view.axis_label(&data, -1), "1969-12");
    assert_eq!(view.axis_label(&data, epoch("0999-06-15T00:00:00Z")), "0999-06");
}

#[test]
fn time_axis_shows_nothing_for_an_instant_without_a_date() {
    let data = ProcessedChartData::Empty;
    assert_eq!(ChartType::Last30Days.axis_label(&data, i64::MAX), "");
    assert_eq!(ChartType::Last30Days.axis_label(&data, i64::MIN), "");
    assert_eq!(ChartType::Last12Months.axis_label(&data, LAST_SECOND + 1), "");
    assert_eq!(ChartType::Last12Months.axis_label(&data, FIRST_SECOND - 1), "");
    assert_eq!(ChartType::Last30Days.axis_label(&data, LAST_SECOND), "12-31");
    assert_eq!(ChartType::Last30Days.axis_label(&data, FIRST_SECOND), "01-01");
}

#[test]
fn time_axis_does_not_look_at_the_data() {
    let bars = ChartState::new().process_day_of_week(&[]);
    assert_eq!(ChartType::Last30Days.axis_label(&bars, 0), "01-01");
    assert_eq!(ChartType::Last12Months.axis_label(&bars, 0), "1970-01");
}

#[test]
fn label_or_empty_keeps_a_text_and_fills_in_for_none() {
    assert_eq!(label_or_empty(Some(String::from("03-15"))), "03-15");
    assert_eq!(label_or_empty(Some(String::new())), "");
    assert_eq!(label_or_empty(None), "");
}

fn first_of(year: i32, month: u32) -> i64 {
    chrono::NaiveDate::from_ymd_opt(year, month, 1)
        .unwrap()
        .and_time(chrono::NaiveTime::MIN)
        .and_utc()
        .timestamp()
}

#[test]
fn years_of_four_digits_stand_without_a_sign() {
    let data = ProcessedChartData::Empty;
    let view = ChartType::Last12Months;
    assert_eq!(view.axis_label(&data, first_of(0, 1)), "0000-01");
    assert_eq!(view.axis_label(&data, first_of(1, 2)), "0001-02");
    assert_eq!(view.axis_label(&data, first_of(12, 3)), "0012-03");
    assert_eq!(view.axis_label(&data, first_of(123, 10)), "0123-10");
    assert_eq!(view.axis_label(&data, first_of(1000, 11)), "1000-11");
    assert_eq!(view.axis_label(&data, first_of(9999, 12)), "9999-12");
}

#[test]
fn years_before_zero_and_after_9999_carry_a_sign() {
    let data = ProcessedChartData::Empty;
    let view = ChartType::Last12Months;
    assert_eq!(view.axis_label(&data, first_of(-1, 12)), "-0001-12");
    assert_eq!(view.axis_label(&data, first_of(-44, 3)), "-0044-03");
    assert_eq!(view.axis_label(&data, first_of(-9999, 1)), "-9999-01");
    assert_eq!(view.axis_label(&data, first_of(-10000, 1)), "-10000-01");
    assert_eq!(view.axis_label(&data, first_of(10000, 1)), "+10000-01");
    assert_eq!(view.axis_label(&data, first_of(123456, 7)), "+123456-07");
    assert_eq!(view.axis_label(&data, FIRST_SECOND), "-262143-01");
    assert_eq!(view.axis_label(&data, LAST_SECOND), "+262142-12");
}

#[test]
fn month_and_day_always_have_two_digits() {
    let data = ProcessedChartData::Empty;
    let view = ChartType::Last30Days;
    assert_eq!(view.axis_label(&data, first_of(2024, 9)), "09-01");
    assert_eq!(view.axis_label(&data, first_of(2024, 10) + 8 * 86_400), "10-09");
    assert_eq!(view.axis_label(&data, first_of(2024, 10) + 9 * 86_400), "10-10");
    assert_eq!(view.axis_label(&data, first_of(-5, 2) + 27 * 86_400), "02-28");
}
