use t3_chat_viewer::charts::ChartState;
use t3_chat_viewer::charts::ChartType;
use t3_chat_viewer::series::ProcessedChartData;
use t3_chat_viewer::t3_json::T3Message;
use t3_chat_viewer::t3_json::T3MessageRole;
use t3_chat_viewer::t3_json::T3MessageStatus;
use t3_chat_viewer::time::Timestamp;

fn moment(rfc3339: &str) -> Timestamp {
    let at = chrono::DateTime::parse_from_rfc3339(rfc3339).unwrap();
    Timestamp::from_secs(at.timestamp()).unwrap()
}

fn written(rfc3339: &str) -> T3Message {
    T3Message {
        id: String::from("m"),
        thread_id: String::from("t"),
        content: String::from("hello"),
        created_at: moment(rfc3339),
        role: T3MessageRole::User,
        status: T3MessageStatus::Deleted,
        model: String::from("model"),
    }
}

fn counts(data: &ProcessedChartData) -> Vec<usize> {
    match data {
        ProcessedChartData::Bars { buckets } => buckets.iter().map(|b| b.count).collect(),
        ProcessedChartData::Lines { points } => points.iter().map(|p| p.y).collect(),
        ProcessedChartData::Empty => Vec::new(),
    }
}

#[test]
fn second_request_returns_what_the_first_computed() {
    let a = vec![written("2024-01-01T10:15:00Z"), written("2024-01-03T10:15:00Z")];
    let b = vec![written("2024-01-05T10:15:00Z")];
    let mut state = ChartState::new();
    let first = state.process_messages(ChartType::DayOfWeek, &a);
    let second = state.process_messages(ChartType::DayOfWeek, &b);
    assert_eq!(counts(&first), vec![1, 0, 1, 0, 0, 0, 0]);
    assert_eq!(second, first);
    let third = state.process_messages(ChartType::DayOfWeek, &[]);
    assert_eq!(third, first);
}

#[test]
fn a_fresh_state_computes_from_what_it_is_given() {
    let b = vec![written("2024-01-05T10:15:00Z")];
    let mut state = ChartState::new();
    let data = state.process_messages(ChartType::DayOfWeek, &b);
    assert_eq!(counts(&data), vec![0, 0, 0, 0, 1, 0, 0]);
}

#[test]
fn each_view_is_cached_by_itself() {
    let a = vec![written("2024-01-01T10:15:00Z")];
    let b = vec![written("2024-01-05T22:45:00Z")];
    let mut state = ChartState::new();
    let week = state.process_messages(ChartType::DayOfWeek, &a);
    let clock = state.process_messages(ChartType::TimeOfDay, &b);
    assert_eq!(counts(&week)[0], 1);
    assert_eq!(counts(&clock)[45], 1);
    assert_eq!(counts(&clock).iter().sum::<usize>(), 1);
    assert_eq!(state.process_messages(ChartType::DayOfWeek, &b), week);
    assert_eq!(state.process_messages(ChartType::TimeOfDay, &a), clock);
}

#[test]
fn an_empty_chart_is_cached_like_any_other() {
    let now = moment("2024-03-15T12:00:00Z");
    let old = vec![written("2020-01-01T00:00:00Z")];
    let new = vec![written("2024-03-15T11:00:00Z")];
    let mut state = ChartState::new();
    assert_eq!(
        state.process_messages_at(ChartType::Last30Days, &old, now),
        ProcessedChartData::Empty
    );
    assert_eq!(
        state.process_messages_at(ChartType::Last30Days, &new, now),
        ProcessedChartData::Empty
    );
    assert_eq!(
        state.process_messages_at(ChartType::Last12Months, &old, now),
        ProcessedChartData::Empty
    );
    assert_eq!(
        state.process_messages_at(ChartType::Last12Months, &new, now),
        ProcessedChartData::Empty
    );
}

#[test]
fn the_cache_outlives_a_change_of_time() {
    let messages = vec![written("2024-03-15T11:00:00Z")];
    let mut state = ChartState::new();
    let first = state.process_messages_at(
        ChartType::Last30Days,
        &messages,
        moment("2024-03-15T12:00:00Z"),
    );
    assert_eq!(counts(&first), vec![1]);
    let later = state.process_messages_at(
        ChartType::Last30Days,
        &messages,
        moment("2025-03-15T12:00:00Z"),
    );
    assert_eq!(later, first);
}

#[test]
fn the_four_views_dispatch_to_their_charts() {
    let now = moment("2024-03-15T12:00:00Z");
    let messages = vec![
        written("2024-03-14T10:15:00Z"),
        written("2024-03-15T10:45:00Z"),
        written("2023-12-25T10:50:00Z"),
        written("2022-12-25T00:00:00Z"),
    ];
    let plain = ChartState::new();
    let mut state = ChartState::new();
    assert_eq!(
        state.process_messages_at(ChartType::DayOfWeek, &messages, now),
        plain.process_day_of_week(&messages)
    );
    assert_eq!(
        state.process_messages_at(ChartType::TimeOfDay, &messages, now),
        plain.process_time_of_day(&messages)
    );
    let days = state.process_messages_at(ChartType::Last30Days, &messages, now);
    assert_eq!(days, plain.process_last_n_days_at(&messages, 30, now));
    assert_eq!(counts(&days), vec![1, 1]);
    let months = state.process_messages_at(ChartType::Last12Months, &messages, now);
    assert_eq!(months, plain.process_last_n_months_at(&messages, 12, now));
    assert_eq!(counts(&months), vec![1, 2]);
}

#[test]
fn selecting_a_view_leaves_the_cache_alone() {
    let a = vec![written("2024-01-01T10:15:00Z")];
    let b = vec![written("2024-01-02T10:15:00Z")];
    let mut state = ChartState::new();
    let first = state.process_messages(ChartType::DayOfWeek, &a);
    state.select(ChartType::TimeOfDay);
    state.select(ChartType::DayOfWeek);
    assert_eq!(state.process_messages(state.selected_chart, &b), first);
}

#[test]
fn a_copy_of_the_data_equals_the_data() {
    let now = moment("2024-03-15T12:00:00Z");
    let messages = vec![written("2024-03-14T10:15:00Z"), written("2024-03-15T10:45:00Z")];
    let state = ChartState::new();
    let bars = state.process_day_of_week(&messages);
    assert_eq!(bars.clone(), bars);
    let lines = state.process_last_n_days_at(&messages, 30, now);
    assert_eq!(lines.clone(), lines);
    assert_eq!(ProcessedChartData::Empty.clone(), ProcessedChartData::Empty);
}
