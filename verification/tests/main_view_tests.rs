use sandstorm::handle_requests::Metrics;
use sandstorm::tui::main_view::colored_logs::EventData;
use sandstorm::tui::main_view::horizontal_axis::{axis_marker_row, label_window, write_timestamp_to_string, HorizontalAxis};
use sandstorm::tui::main_view::metrics_display::{metrics_change, MetricsChange, MetricsDisplay};
use sandstorm::tui::main_view::FocusedElement::{ExpandButton, LogBlock, PrecisionSelector};
use sandstorm::tui::main_view::{focus_candidates, receive_order, LayoutMode};
use sandstorm::tui::ui_element::PassFocusDirection;

fn metrics() -> Metrics {
    Metrics {
        current_client_connections: 2,
        historic_client_connections: 10,
        client_bytes_sent: 1536,
        client_bytes_received: 900,
        current_sandstorm_connections: 1,
        historic_sandstorm_connections: 3,
    }
}

fn texts(display: &mut MetricsDisplay) -> Vec<String> {
    display.rows().into_iter().map(|(_, text)| text).collect()
}

#[test]
fn metrics_rows_show_each_counter() {
    let mut display = MetricsDisplay::new(metrics());
    let rows = display.rows();
    let labels: Vec<&str> = rows.iter().map(|(label, _)| *label).collect();
    assert_eq!(
        labels,
        vec![
            "Current clients:",
            "Historic clients:",
            "Bytes sent:",
            "Bytes received:",
            "Current managers:",
            "Historic managers:"
        ]
    );
    assert_eq!(texts(&mut display), vec!["2", "10", "1.50KB (1536)", "900B (900)", "1", "3"]);
}

#[test]
fn metrics_follow_the_events() {
    let mut display = MetricsDisplay::new(metrics());
    texts(&mut display);
    display.on_new_client_connection_accepted();
    display.on_client_bytes_sent(512);
    display.on_client_bytes_received(100);
    display.on_sandstorm_collection_finished();
    assert_eq!(texts(&mut display), vec!["3", "11", "2KB (2048)", "0.97KB (1000)", "0", "3"]);
    display.on_client_connection_finished();
    display.on_new_sandstorm_collection_accepted();
    assert_eq!(texts(&mut display), vec!["2", "11", "2KB (2048)", "0.97KB (1000)", "1", "4"]);
    assert_eq!(display.metrics().historic_sandstorm_connections, 4);
}

#[test]
fn events_change_the_matching_counter() {
    assert_eq!(metrics_change(&EventData::ClientBytesSent(1, 40)), MetricsChange::BytesSent(40));
    assert_eq!(metrics_change(&EventData::ClientBytesReceived(1, 41)), MetricsChange::BytesReceived(41));
    assert_eq!(metrics_change(&EventData::NewClientConnectionAccepted(1, "a".to_string())), MetricsChange::ClientAccepted);
    assert_eq!(metrics_change(&EventData::ClientConnectionFinished(1, 0, 0, Ok(()))), MetricsChange::ClientFinished);
    assert_eq!(
        metrics_change(&EventData::NewSandstormConnectionAccepted(1, "a".to_string())),
        MetricsChange::ManagerAccepted
    );
    assert_eq!(metrics_change(&EventData::SandstormConnectionFinished(1, Ok(()))), MetricsChange::ManagerFinished);
    assert_eq!(metrics_change(&EventData::ShutdownSignalReceived), MetricsChange::Unchanged);
    assert_eq!(metrics_change(&EventData::ClientSourceShutdown(3)), MetricsChange::Unchanged);
}

#[test]
fn applying_changes_matches_the_handlers() {
    let mut display = MetricsDisplay::new(metrics());
    display.apply(MetricsChange::BytesSent(10));
    display.apply(MetricsChange::ClientFinished);
    display.apply(MetricsChange::Unchanged);
    let m = display.metrics();
    assert_eq!(m.client_bytes_sent, 1546);
    assert_eq!(m.current_client_connections, 1);
    assert_eq!(m.historic_client_connections, 10);
}

#[test]
fn focus_walks_in_the_full_layout() {
    assert_eq!(focus_candidates(LogBlock, PassFocusDirection::Forward, LayoutMode::Full), vec![ExpandButton, PrecisionSelector]);
    assert_eq!(focus_candidates(PrecisionSelector, PassFocusDirection::Up, LayoutMode::Full), vec![ExpandButton]);
    assert_eq!(focus_candidates(ExpandButton, PassFocusDirection::Left, LayoutMode::Full), vec![LogBlock]);
    assert_eq!(focus_candidates(LogBlock, PassFocusDirection::Right, LayoutMode::Full), vec![PrecisionSelector]);
    assert!(focus_candidates(LogBlock, PassFocusDirection::Away, LayoutMode::Full).is_empty());
    assert!(focus_candidates(PrecisionSelector, PassFocusDirection::Forward, LayoutMode::Full).is_empty());
}

#[test]
fn focus_walks_in_the_other_layouts() {
    assert_eq!(focus_candidates(ExpandButton, PassFocusDirection::Down, LayoutMode::LogsOnly), vec![LogBlock]);
    assert_eq!(focus_candidates(LogBlock, PassFocusDirection::Up, LayoutMode::LogsOnly), vec![ExpandButton]);
    assert!(focus_candidates(LogBlock, PassFocusDirection::Down, LayoutMode::LogsOnly).is_empty());
    assert_eq!(
        focus_candidates(ExpandButton, PassFocusDirection::Forward, LayoutMode::GraphExpanded),
        vec![PrecisionSelector]
    );
    assert_eq!(focus_candidates(PrecisionSelector, PassFocusDirection::Left, LayoutMode::GraphExpanded), vec![ExpandButton]);
}

#[test]
fn focus_is_offered_nearest_first() {
    // Full layout: log block ends at column 40, the client activity line is on row 0.
    assert_eq!(receive_order(LayoutMode::Full, (10, 0), 40, 0, 80, 0), vec![LogBlock, ExpandButton, PrecisionSelector]);
    assert_eq!(receive_order(LayoutMode::Full, (60, 5), 40, 0, 80, 0), vec![PrecisionSelector, ExpandButton, LogBlock]);
    assert_eq!(receive_order(LayoutMode::Full, (60, 0), 40, 0, 80, 0), vec![ExpandButton, PrecisionSelector, LogBlock]);
    assert_eq!(receive_order(LayoutMode::LogsOnly, (0, 10), 80, 2, 30, 0), vec![LogBlock, ExpandButton]);
    assert_eq!(receive_order(LayoutMode::LogsOnly, (0, 2), 80, 2, 30, 0), vec![ExpandButton, LogBlock]);
    assert_eq!(receive_order(LayoutMode::GraphExpanded, (31, 0), 0, 0, 30, 0), vec![ExpandButton, PrecisionSelector]);
    assert_eq!(receive_order(LayoutMode::GraphExpanded, (32, 0), 0, 0, 30, 0), vec![PrecisionSelector, ExpandButton]);
}

fn axis_labels(axis: &HorizontalAxis) -> Vec<String> {
    axis.labels().iter().cloned().collect()
}

#[test]
fn axis_labels_are_clock_times() {
    assert_eq!(write_timestamp_to_string(0, 0, true), "00:00:00");
    assert_eq!(write_timestamp_to_string(3725, 0, false), "01:02");
    assert_eq!(write_timestamp_to_string(3725, 3600, true), "02:02:05");
    assert_eq!(write_timestamp_to_string(1700000000, -3 * 3600, true), "19:13:20");
}

#[test]
fn axis_first_recalculation_writes_the_latest_label() {
    let mut axis = HorizontalAxis::new(0);
    axis.recalculate_if_needed(1, 1000);
    assert_eq!(axis.spacing(), (15, 5, true));
    assert_eq!(axis.latest_label_timestamp(), 990);
    assert_eq!(axis_labels(&axis), vec!["00:16:30"]);
    // The same size again changes nothing.
    axis.recalculate_if_needed(1, 5000);
    assert_eq!(axis_labels(&axis), vec!["00:16:30"]);
}

#[test]
fn axis_labels_follow_the_window() {
    let mut axis = HorizontalAxis::new(0);
    axis.recalculate_if_needed(1, 1000);
    axis.ensure_has_labels(945, 1005);
    assert_eq!(axis_labels(&axis), vec!["00:15:45", "00:16:00", "00:16:15", "00:16:30", "00:16:45"]);
    assert_eq!(axis.latest_label_timestamp(), 1005);
    axis.ensure_has_labels(975, 1020);
    assert_eq!(axis_labels(&axis), vec!["00:16:15", "00:16:30", "00:16:45", "00:17:00"]);
    assert_eq!(axis.latest_label_timestamp(), 1020);
}

#[test]
fn axis_recalculation_rewrites_kept_labels_before_the_latest_multiple() {
    let mut axis = HorizontalAxis::new(0);
    axis.recalculate_if_needed(1, 1000);
    axis.ensure_has_labels(945, 1005);
    axis.recalculate_if_needed(2, 1030);
    // Five labels kept, rewritten as the five steps before 1020; the latest label time stays.
    assert_eq!(axis_labels(&axis), vec!["00:15:45", "00:16:00", "00:16:15", "00:16:30", "00:16:45"]);
    assert_eq!(axis.latest_label_timestamp(), 1005);
}

#[test]
fn axis_label_window_rounds_to_label_steps() {
    assert_eq!(label_window(1000, 70, 1, 15), (945, 990));
    assert_eq!(label_window(1000, 10, 1, 15), (1005, 990));
    assert_eq!(label_window(-20, 12, 1, 15), (0, -15));
}

#[test]
fn axis_line_marks_multiples_of_the_marker_spacing() {
    assert_eq!(axis_marker_row(1000, 1, 5, 15), vec![true, false, false, false, false]);
    assert_eq!(axis_marker_row(30, 15, 60, 13), vec![false, false, true]);
    assert_eq!(axis_marker_row(-5, 1, 5, 12), vec![true, false]);
    assert_eq!(axis_marker_row(7, 1, 1, 11), vec![true]);
}
