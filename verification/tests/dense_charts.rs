use t3_chat_viewer::charts::ChartState;
use t3_chat_viewer::series::Bucket;
use t3_chat_viewer::series::ProcessedChartData;
use t3_chat_viewer::t3_json::T3Message;
use t3_chat_viewer::t3_json::T3MessageRole;
use t3_chat_viewer::t3_json::T3MessageStatus;
use t3_chat_viewer::time::Timestamp;

fn sent_at(rfc3339: &str) -> T3Message {
    let at = chrono::DateTime::parse_from_rfc3339(rfc3339).unwrap();
    T3Message {
        id: String::from("m"),
        thread_id: String::from("t"),
        content: String::from("hello"),
        created_at: Timestamp::from_secs(at.timestamp()).unwrap(),
        role: T3MessageRole::Assistant,
        status: T3MessageStatus::Done,
        model: String::from("model"),
    }
}

fn bars_of(data: ProcessedChartData) -> Vec<Bucket> {
    match data {
        ProcessedChartData::Bars { buckets } => buckets,
        other => panic!("expected bars, got {:?}", other),
    }
}

fn counts_of(buckets: &[Bucket]) -> Vec<usize> {
    buckets.iter().map(|b| b.count).collect()
}

fn labels_of(buckets: &[Bucket]) -> Vec<String> {
    buckets.iter().map(|b| b.label.clone()).collect()
}

fn a_week_and_more() -> Vec<T3Message> {
    vec![
        sent_at("2024-01-01T10:15:00Z"),
        sent_at("2024-01-01T10:29:59Z"),
        sent_at("2024-01-02T10:30:00Z"),
        sent_at("2024-01-03T00:00:00Z"),
        sent_at("2024-01-06T23:59:59Z"),
        sent_at("2024-01-07T12:00:00Z"),
        sent_at("2024-01-08T12:29:00Z"),
        sent_at("1969-12-31T23:45:00Z"),
        sent_at("2031-07-04T05:31:00Z"),
    ]
}

#[test]
fn day_of_week_has_seven_bars_from_monday_to_sunday() {
    let buckets = bars_of(ChartState::new().process_day_of_week(&a_week_and_more()));
    assert_eq!(
        labels_of(&buckets),
        vec!["Mon", "Tue", "Wed", "Thu", "Fri", "Sat", "Sun"]
    );
}

#[test]
fn day_of_week_without_messages_has_seven_empty_bars() {
    let buckets = bars_of(ChartState::new().process_day_of_week(&[]));
    assert_eq!(
        labels_of(&buckets),
        vec!["Mon", "Tue", "Wed", "Thu", "Fri", "Sat", "Sun"]
    );
    assert_eq!(counts_of(&buckets), vec![0; 7]);
}

#[test]
fn monday_and_wednesday_only() {
    let messages = vec![sent_at("2024-01-01T10:15:00Z"), sent_at("2024-01-03T18:00:00Z")];
    let buckets = bars_of(ChartState::new().process_day_of_week(&messages));
    assert_eq!(counts_of(&buckets), vec![1, 0, 1, 0, 0, 0, 0]);
}

#[test]
fn day_of_week_counts_every_message_once() {
    let messages = a_week_and_more();
    let buckets = bars_of(ChartState::new().process_day_of_week(&messages));
    assert_eq!(counts_of(&buckets), vec![3, 1, 2, 0, 1, 1, 1]);
    assert_eq!(counts_of(&buckets).iter().sum::<usize>(), messages.len());
}

#[test]
fn day_of_week_folds_all_weeks_into_one() {
    let messages = vec![
        sent_at("2024-01-05T10:00:00Z"),
        sent_at("2024-01-12T11:00:00Z"),
        sent_at("2023-06-16T12:00:00Z"),
    ];
    let buckets = bars_of(ChartState::new().process_day_of_week(&messages));
    assert_eq!(counts_of(&buckets), vec![0, 0, 0, 0, 3, 0, 0]);
}

#[test]
fn time_of_day_has_forty_eight_labelled_bars() {
    let buckets = bars_of(ChartState::new().process_time_of_day(&a_week_and_more()));
    assert_eq!(buckets.len(), 48);
    for (i, bucket) in buckets.iter().enumerate() {
        assert_eq!(bucket.label, format!("{:02}:{:02}", i / 2, (i % 2) * 30));
    }
    assert_eq!(buckets[0].label, "00:00");
    assert_eq!(buckets[1].label, "00:30");
    assert_eq!(buckets[19].label, "09:30");
    assert_eq!(buckets[47].label, "23:30");
}

#[test]
fn time_of_day_without_messages_has_forty_eight_empty_bars() {
    let buckets = bars_of(ChartState::new().process_time_of_day(&[]));
    assert_eq!(counts_of(&buckets), vec![0; 48]);
}

#[test]
fn single_message_at_a_quarter_past_ten() {
    let messages = vec![sent_at("2024-01-01T10:15:00Z")];
    let buckets = bars_of(ChartState::new().process_time_of_day(&messages));
    assert_eq!(buckets.len(), 48);
    assert_eq!(buckets[20].label, "10:00");
    assert_eq!(buckets[20].count, 1);
    for (i, bucket) in buckets.iter().enumerate() {
        if i != 20 {
            assert_eq!(bucket.count, 0);
        }
    }
}

#[test]
fn time_of_day_counts_every_message_once() {
    let messages = a_week_and_more();
    let buckets = bars_of(ChartState::new().process_time_of_day(&messages));
    let mut expected = vec![0usize; 48];
    expected[20] = 2;
    expected[21] = 1;
    expected[0] = 1;
    expected[47] = 2;
    expected[24] = 2;
    expected[11] = 1;
    assert_eq!(counts_of(&buckets), expected);
    assert_eq!(counts_of(&buckets).iter().sum::<usize>(), messages.len());
}

#[test]
fn time_of_day_splits_the_hour_at_the_half() {
    let messages = vec![
        sent_at("2024-05-05T07:00:00Z"),
        sent_at("2024-05-06T07:29:59Z"),
        sent_at("2024-05-07T07:30:00Z"),
        sent_at("2024-05-08T07:59:59Z"),
        sent_at("2024-05-09T08:00:00Z"),
    ];
    let buckets = bars_of(ChartState::new().process_time_of_day(&messages));
    assert_eq!(buckets[14].count, 2);
    assert_eq!(buckets[15].count, 2);
    assert_eq!(buckets[16].count, 1);
}
