use t3_chat_viewer::charts::ChartState;
use t3_chat_viewer::charts::ChartType;

#[test]
fn names_are_stable() {
    assert_eq!(ChartType::DayOfWeek.name(), "Message Volume by Day of Week");
    assert_eq!(ChartType::Last30Days.name(), "Message Volume Last 30 Days");
    assert_eq!(ChartType::Last12Months.name(), "Message Volume Last 12 Months");
    assert_eq!(ChartType::TimeOfDay.name(), "Message Volume by Time of Day");
}

#[test]
fn all_lists_the_four_views_in_order() {
    assert_eq!(
        ChartType::all(),
        &[
            ChartType::DayOfWeek,
            ChartType::Last30Days,
            ChartType::Last12Months,
            ChartType::TimeOfDay,
        ]
    );
}

#[test]
fn every_view_has_its_own_name() {
    let all = ChartType::all();
    for (i, a) in all.iter().enumerate() {
        for b in &all[i + 1..] {
            assert_ne!(a.name(), b.name());
        }
    }
}

#[test]
fn new_state_shows_day_of_week() {
    assert_eq!(ChartState::new().selected_chart, ChartType::DayOfWeek);
}

#[test]
fn select_sets_the_view() {
    let mut state = ChartState::new();
    state.select(ChartType::TimeOfDay);
    assert_eq!(state.selected_chart, ChartType::TimeOfDay);
    state.select(ChartType::Last12Months);
    assert_eq!(state.selected_chart, ChartType::Last12Months);
}
