use sandstorm::tui::elements::long_list::LongListHandler;
use sandstorm::tui::log_block::{LogBlock, LogListHandler, MAXIMUM_EVENT_HISTORY_LENGTH, TITLE};
use sandstorm::tui::main_view::colored_logs::{Event, EventData, LogStyle};
use sandstorm::tui::text_wrapper::{wrap_lines_by_chars, StaticString};

fn texts(lines: &[Vec<(StaticString, u8)>]) -> Vec<Vec<(String, u8)>> {
    lines.iter().map(|line| line.iter().map(|(s, style)| (s.as_str().to_string(), *style)).collect()).collect()
}

fn owned(pieces: &[(&str, u8)]) -> Vec<(StaticString, u8)> {
    pieces.iter().map(|(s, style)| (StaticString::Owned(s.to_string()), *style)).collect()
}

fn expect(lines: &[&[(&str, u8)]]) -> Vec<Vec<(String, u8)>> {
    lines.iter().map(|line| line.iter().map(|(s, style)| (s.to_string(), *style)).collect()).collect()
}

#[test]
fn wrapping_keeps_short_pieces_on_one_line() {
    let pieces = owned(&[("ab", 1), ("cd", 2)]);
    assert_eq!(texts(&wrap_lines_by_chars(10, &pieces)), expect(&[&[("ab", 1), ("cd", 2)]]));
}

#[test]
fn wrapping_cuts_a_piece_and_drops_the_spaces_around_the_cut() {
    let pieces = owned(&[("hello world", 1)]);
    assert_eq!(texts(&wrap_lines_by_chars(6, &pieces)), expect(&[&[("hello", 1)], &[("world", 1)]]));
    let pieces = owned(&[("abc", 1), ("defgh", 2)]);
    assert_eq!(
        texts(&wrap_lines_by_chars(4, &pieces)),
        expect(&[&[("abc", 1), ("d", 2)], &[("efgh", 2)]])
    );
}

#[test]
fn wrapping_ends_a_full_line() {
    let pieces = owned(&[("abcd", 1), ("ef", 2)]);
    assert_eq!(texts(&wrap_lines_by_chars(4, &pieces)), expect(&[&[("abcd", 1)], &[("ef", 2)]]));
    let pieces = owned(&[("abcdefgh", 3)]);
    assert_eq!(texts(&wrap_lines_by_chars(4, &pieces)), expect(&[&[("abcd", 3)], &[("efgh", 3)]]));
}

#[test]
fn wrapping_nothing_gives_no_line() {
    let pieces: Vec<(StaticString, u8)> = Vec::new();
    assert!(wrap_lines_by_chars(5, &pieces).is_empty());
    let pieces = owned(&[("", 1)]);
    assert_eq!(texts(&wrap_lines_by_chars(5, &pieces)), expect(&[&[("", 1)]]));
}

fn event(timestamp: i64) -> Event {
    Event { timestamp, data: EventData::ShutdownSignalReceived }
}

#[test]
fn log_block_lists_each_event() {
    let mut block = LogBlock::new(0);
    assert_eq!(block.list.controller.title(), TITLE);
    assert_eq!(TITLE, "\u{2500}Logs");
    block.new_stream_event(event(0));
    block.new_stream_event(event(1));
    assert_eq!(block.list.controller.item_count(), 2);
    assert_eq!(block.list.handler.event_history.len(), 2);
}

#[test]
fn log_block_item_lines_wrap_to_the_minimum_width() {
    let mut block = LogBlock::new(0);
    block.new_stream_event(event(0));
    let lines = block.list.handler.get_item_lines(0, 5);
    let shown: Vec<Vec<(String, LogStyle)>> =
        lines.iter().map(|l| l.iter().map(|(s, st)| (s.as_str().to_string(), *st)).collect()).collect();
    assert_eq!(
        shown,
        vec![
            vec![("[1970-01-01 00:00:00".to_string(), LogStyle::Timestamp)],
            vec![("]".to_string(), LogStyle::Timestamp), (" Shutdown signal re".to_string(), LogStyle::ShutdownSignal)],
            vec![("ceived".to_string(), LogStyle::ShutdownSignal)],
        ]
    );
    assert_eq!(block.list.handler.item_lines(0, 80).len(), 1);
}

#[test]
fn log_handler_answers_one_empty_line_past_the_events() {
    let mut handler = LogListHandler { event_history: Default::default(), utc_offset_seconds: 0 };
    let lines = handler.get_item_lines(3, 40);
    assert_eq!(lines.len(), 1);
    assert!(lines[0].is_empty());
}

#[test]
fn log_block_drops_the_oldest_event_at_the_limit() {
    let mut block = LogBlock::new(0);
    for t in 0..MAXIMUM_EVENT_HISTORY_LENGTH as i64 {
        block.new_stream_event(event(t));
    }
    assert_eq!(block.list.controller.item_count(), MAXIMUM_EVENT_HISTORY_LENGTH);
    block.new_stream_event(event(-1));
    assert_eq!(block.list.controller.item_count(), MAXIMUM_EVENT_HISTORY_LENGTH);
    assert_eq!(block.list.handler.event_history.front().unwrap().timestamp, 1);
    assert_eq!(block.list.handler.event_history.back().unwrap().timestamp, -1);
}
