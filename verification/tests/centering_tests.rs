use std::cmp::Ordering;
use std::collections::VecDeque;

use sandstorm::sandstorm::{
    event_stream_config_outcome, take_request, CommandKind, StreamConfigAnswer, STREAM_ALREADY_ENABLED_MESSAGE,
    STREAM_ENABLED_MESSAGE, STREAM_REFUSED_MESSAGE,
};
use sandstorm::tui::elements::long_list::{LongList, LongListController, LongListHandler};
use sandstorm::tui::elements::OnEnterResult;
use sandstorm::tui::main_view::usage_tracker::UsageTracker;
use sandstorm::tui::popups::users_popup::strings_nocase_cmp;

/// Items whose lines are `(item, line number)`, each item with the same number of lines.
struct Numbered {
    per_item: usize,
}

impl LongListHandler<(usize, usize)> for Numbered {
    fn get_item_lines(&mut self, index: usize, _wrap_width: u16) -> Vec<(usize, usize)> {
        (0..self.per_item).map(|k| (index, k)).collect()
    }

    fn on_enter(&mut self, _index: usize) -> OnEnterResult {
        OnEnterResult::Unhandled
    }
}

fn window_lines(list: &LongList<(usize, usize), Numbered>, first: usize, count: usize) -> Vec<(usize, usize)> {
    list.controller.lines().iter().skip(first).take(count).map(|(line, _)| *line).collect()
}

#[test]
fn process_lines_splits_the_extra_lines_around_the_center() {
    let mut list = LongList::new(String::from("Items"), 50, false, false, Numbered { per_item: 2 });
    let w = list.process_lines(25, 20, 8);
    assert_eq!(w.count, 8);
    // Two lines of the center item leave six: three before it, three after it.
    assert_eq!(
        window_lines(&list, w.first, w.count),
        vec![(23, 1), (24, 0), (24, 1), (25, 0), (25, 1), (26, 0), (26, 1), (27, 0)]
    );
    assert_eq!(w.first_line_number, 1);
}

#[test]
fn process_lines_gives_the_other_side_what_one_side_lacks() {
    let mut list = LongList::new(String::from("Items"), 50, false, false, Numbered { per_item: 2 });
    let w = list.process_lines(0, 20, 8);
    assert_eq!(w.first, 0);
    assert_eq!(
        window_lines(&list, w.first, w.count),
        vec![(0, 0), (0, 1), (1, 0), (1, 1), (2, 0), (2, 1), (3, 0), (3, 1)]
    );

    let w = list.process_lines(49, 20, 8);
    assert_eq!(w.first + w.count, list.controller.lines().len());
    assert_eq!(
        window_lines(&list, w.first, w.count),
        vec![(46, 0), (46, 1), (47, 0), (47, 1), (48, 0), (48, 1), (49, 0), (49, 1)]
    );
}

#[test]
fn process_lines_shows_the_top_of_a_tall_center_item() {
    let mut list = LongList::new(String::from("Items"), 10, false, false, Numbered { per_item: 5 });
    let w = list.process_lines(4, 20, 3);
    assert_eq!(window_lines(&list, w.first, w.count), vec![(4, 0), (4, 1), (4, 2)]);
}

#[test]
fn removing_an_item_filters_its_lines_out() {
    let mut list = LongList::new(String::from("Items"), 6, false, false, Numbered { per_item: 1 });
    list.process_lines(2, 20, 6);
    let before: Vec<usize> = list.controller.lines().iter().map(|(_, i)| *i).collect();
    assert_eq!(before, vec![0, 1, 2, 3, 4, 5]);
    list.controller.on_item_removed(2);
    let after: Vec<(usize, usize)> = list.controller.lines().iter().map(|(line, i)| (line.0, *i)).collect();
    assert_eq!(after, vec![(0, 0), (1, 1), (3, 2), (4, 3), (5, 4)]);
    let mut controller: LongListController<u8> = LongListController::new(String::from("t"), 3, false, false);
    controller.on_item_removed(0);
    assert_eq!(controller.item_count(), 2);
}

#[test]
fn nocase_order_agrees_with_ascii_lowercase_on_ascii() {
    for (x, y) in [("alice", "Bob"), ("Bob", "bob"), ("ab", "A"), ("Zed", "apple"), ("A_b", "a]b"), ("", "a")] {
        let expected = x.to_ascii_lowercase().cmp(&y.to_ascii_lowercase());
        assert_eq!(strings_nocase_cmp(x, y), expected, "{x} vs {y}");
        assert_eq!(strings_nocase_cmp(y, x), expected.reverse(), "{y} vs {x}");
    }
    assert_eq!(strings_nocase_cmp("Zed", "apple"), Ordering::Greater);
}

#[test]
fn take_request_takes_the_first_of_its_kind() {
    let mut waiting: VecDeque<(CommandKind, u32)> = VecDeque::new();
    waiting.push_back((CommandKind::ListUsers, 1));
    waiting.push_back((CommandKind::AddUser, 2));
    waiting.push_back((CommandKind::AddUser, 3));
    assert_eq!(take_request(&mut waiting, CommandKind::AddUser), Some(2));
    assert_eq!(waiting, VecDeque::from(vec![(CommandKind::ListUsers, 1), (CommandKind::AddUser, 3)]));
    assert_eq!(take_request(&mut waiting, CommandKind::Meow), None);
    assert_eq!(waiting.len(), 2);
}

#[test]
fn stream_config_answers() {
    let refused = event_stream_config_outcome(StreamConfigAnswer::Disabled);
    assert_eq!(refused.message, STREAM_REFUSED_MESSAGE);
    assert!(refused.is_error && !refused.keep_reading);
    let enabled = event_stream_config_outcome(StreamConfigAnswer::Enabled);
    assert_eq!(enabled.message, "Event streaming enabled! Current metrics are:");
    assert_eq!(enabled.message, STREAM_ENABLED_MESSAGE);
    assert!(!enabled.is_error && enabled.keep_reading);
    let already = event_stream_config_outcome(StreamConfigAnswer::WasAlreadyEnabled);
    assert_eq!(already.message, STREAM_ALREADY_ENABLED_MESSAGE);
    assert!(already.is_error && !already.keep_reading);
}

#[test]
fn latest_timestamp_never_goes_back() {
    let mut tracker = UsageTracker::new(10);
    let mut latest = tracker.get_latest_timestamp();
    let start = latest - 1;
    for t in [start + 3, start + 1, start - 5, start + 20, start + 20, start + 25] {
        tracker.record_usage(t, 1, 1);
        let now = tracker.get_latest_timestamp();
        assert!(now >= latest);
        assert!(now >= t + 1 || t < start);
        latest = now;
        tracker.set_unit_size(3);
        assert_eq!(tracker.get_latest_timestamp(), latest);
        tracker.get_usage_by_unit(1);
        assert_eq!(tracker.get_latest_timestamp(), latest);
    }
    // The jump to `start + 20` drops the eleven oldest seconds and adds seventeen new ones.
    assert_eq!(latest, start + 28);
}
