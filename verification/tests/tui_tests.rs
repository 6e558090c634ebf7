use std::cmp::Ordering;

use sandstorm::args::{AuthMethod, SocketAddress, UserRole};
use sandstorm::tui::elements::dual_buttons::FocusedElement as DualFocus;
use sandstorm::tui::elements::long_list::{
    calc_index_of_first, calc_index_of_last, calc_index_of_selection_start, scrollbar_state, LongList,
    LongListController, LongListHandler,
};
use sandstorm::tui::elements::text_entry::{
    calc_wordskip_left, calc_wordskip_right, typing_view, CursorPosition, OnEnterResult as EntryEnter, TextEntry,
    TextEntryHandler,
};
use sandstorm::tui::elements::OnEnterResult;
use sandstorm::tui::main_view::usage_graph::{column_heights, pretty_round_max_bytes_value, VerticalAxis};
use sandstorm::tui::main_view::usage_tracker::{UsageMeasure, UsageTracker};
use sandstorm::tui::main_view::{FocusedElement as MainFocus, GraphPrecisionOption, LayoutMode};
use sandstorm::tui::menu_bar::FocusedElement as MenuFocus;
use sandstorm::tui::menu_bar::{
    buffer_size_label, buffer_size_loading_indicator_step, get_ping_text_color, initial_buffer_label,
    ping_loading_indicator_start, ping_loading_indicator_step, ping_loading_indicator_text, PingColor,
};
use sandstorm::tui::popups::auth_methods_popup::{
    auth_item_lines, AuthItemLine, AuthListHandler, Controller as AuthController, Refresh, ToggleFollowUp, ToggleResult,
    SERVER_ERROR_MESSAGE as AUTH_SERVER_ERROR_MESSAGE,
};
use sandstorm::tui::popups::buffer_size_popup::{
    on_char, on_text_changed, parse_buffer_size_entry, Controller, EntryColor, RequestFollowUp, SetBufferSizeResult,
    TopMessage, YesSelected, SERVER_ERROR_MESSAGE,
};
use sandstorm::tui::popups::loading_popup::LoadingPopupController;
use sandstorm::tui::popups::popup_base::PopupBaseController;
use sandstorm::tui::popups::size_constraint::SizeConstraint;
use sandstorm::tui::popups::yes_no_popup::YesNoPopupController;
use sandstorm::tui::popups::sockets_popup::{socket_sort_cmp, IpFilterType, SocketList};
use sandstorm::tui::popups::users_popup::{strings_nocase_cmp, users_sort_cmp};
use sandstorm::tui::pretty_print::{PrettyByteDisplayer, PrettyMillisDisplay};
use sandstorm::tui::text_wrapper::{StaticString, WrapTextIter};
use sandstorm::tui::ui_element::{HandleEventStatus, KeyCode, KeyInput, MouseInput, MouseKind, PassFocusDirection};

fn key(code: KeyCode) -> KeyInput {
    KeyInput { code, is_release: false, shift: false, control: false }
}

#[test]
fn pretty_bytes_examples() {
    assert_eq!(PrettyByteDisplayer(900).to_string(), "900B");
    assert_eq!(PrettyByteDisplayer(999).to_string(), "999B");
    assert_eq!(PrettyByteDisplayer(1024).to_string(), "1KB");
    assert_eq!(PrettyByteDisplayer(1536).to_string(), "1.50KB");
    assert_eq!(PrettyByteDisplayer(1000).to_string(), "0.97KB");
    assert_eq!(PrettyByteDisplayer(20 * 1024 + 512).to_string(), "20.5KB");
    assert_eq!(PrettyByteDisplayer(1024 * 1024).to_string(), "1MB");
    assert_eq!(PrettyByteDisplayer(500 * 1024 + 1).to_string(), "500KB");
}

#[test]
fn pretty_millis_examples() {
    assert_eq!(PrettyMillisDisplay(0).to_string(), "<1ms");
    assert_eq!(PrettyMillisDisplay(42).to_string(), "42ms");
    assert_eq!(PrettyMillisDisplay(9999).to_string(), "9999ms");
    assert_eq!(PrettyMillisDisplay(10000).to_string(), ">9999ms");
}

#[test]
fn usage_measure_arithmetic() {
    let a = UsageMeasure::new(3, 4);
    let b = UsageMeasure::new(10, 20);
    assert_eq!(a.sum(), 7);
    assert_eq!(a.add(b), UsageMeasure::new(13, 24));
    let mut c = UsageMeasure::zero();
    c.add_assign(b);
    assert_eq!(c, b);
    assert_eq!(UsageMeasure::default(), UsageMeasure::zero());
}

#[test]
fn usage_tracker_records_and_groups() {
    let mut tracker = UsageTracker::new(100);
    let latest = tracker.get_latest_timestamp();
    let t = latest - 1;
    tracker.record_usage(t, 10, 20);
    tracker.record_usage(t, 1, 2);
    assert_eq!(*tracker.get_usage_by_unit(1).back().unwrap(), UsageMeasure::new(11, 22));
    tracker.record_usage(t + 3, 5, 5);
    assert_eq!(tracker.get_latest_timestamp(), t + 4);
    let by_second: Vec<UsageMeasure> = tracker.get_usage_by_unit(1).iter().copied().collect();
    let n = by_second.len();
    assert_eq!(by_second[n - 4], UsageMeasure::new(11, 22));
    assert_eq!(by_second[n - 3], UsageMeasure::zero());
    assert_eq!(by_second[n - 2], UsageMeasure::zero());
    assert_eq!(by_second[n - 1], UsageMeasure::new(5, 5));
    let total_by_second = by_second.iter().fold(0u64, |acc, m| acc + m.sum());
    let by_unit: Vec<UsageMeasure> = tracker.get_usage_by_unit(3).iter().copied().collect();
    let total_by_unit = by_unit.iter().fold(0u64, |acc, m| acc + m.sum());
    assert_eq!(total_by_second, total_by_unit);
}

#[test]
fn usage_tracker_drops_old_seconds() {
    let mut tracker = UsageTracker::new(3);
    let t = tracker.get_latest_timestamp() - 1;
    tracker.record_usage(t + 1, 1, 1);
    tracker.record_usage(t + 2, 2, 2);
    tracker.record_usage(t + 3, 3, 3);
    assert_eq!(tracker.get_latest_timestamp(), t + 4);
    let kept: Vec<UsageMeasure> = tracker.get_usage_by_unit(1).iter().copied().collect();
    assert_eq!(kept, vec![UsageMeasure::new(1, 1), UsageMeasure::new(2, 2), UsageMeasure::new(3, 3)]);
    tracker.record_usage(t, 9, 9);
    let unchanged: Vec<UsageMeasure> = tracker.get_usage_by_unit(1).iter().copied().collect();
    assert_eq!(unchanged, kept);
}

#[test]
fn graph_axis_rounding() {
    assert_eq!(pretty_round_max_bytes_value(0), 0);
    assert_eq!(pretty_round_max_bytes_value(1), 64);
    assert_eq!(pretty_round_max_bytes_value(64), 64);
    assert_eq!(pretty_round_max_bytes_value(65), 128);
    assert_eq!(pretty_round_max_bytes_value(1000), 1024);
    assert_eq!(pretty_round_max_bytes_value(u64::MAX), u64::MAX);
    assert_eq!(pretty_round_max_bytes_value((1u64 << 63) + 1), (1u64 << 63) + 1);
}

#[test]
fn graph_column_heights() {
    assert_eq!(column_heights(0, 0, 10, 100), (0, 0));
    assert_eq!(column_heights(50, 0, 10, 100), (10, 0));
    assert_eq!(column_heights(0, 1, 10, 100), (0, 1));
    assert_eq!(column_heights(50, 50, 10, 100), (10, 10));
    assert_eq!(column_heights(1, 1, 10, 1000), (0, 1));
    let (s, r) = column_heights(100, 0, 7, 100);
    assert_eq!((s, r), (14, 0));
}

#[test]
fn graph_vertical_axis_labels() {
    let mut axis = VerticalAxis::new();
    axis.resize(10);
    axis.recalculate_if_needed(3000);
    let mut other = VerticalAxis::new();
    other.resize(13);
    other.recalculate_if_needed(4096);
    assert_eq!(axis.marker_labels().len(), 3);
    assert_eq!(axis.marker_labels()[0], "0.97KB/s");
    assert_eq!(axis.marker_labels()[2], "2.92KB/s");
    assert_eq!(other.marker_labels().len(), 4);
    assert_eq!(other.marker_labels()[3], "4KB/s");
}

#[test]
fn menu_bar_navigation() {
    assert_eq!(MenuFocus::leftmost(), MenuFocus::Shutdown);
    assert_eq!(MenuFocus::rightmost(), MenuFocus::Buffer);
    assert_eq!(MenuFocus::Shutdown.next_left(), None);
    assert_eq!(MenuFocus::Socks5.next_left(), Some(MenuFocus::Shutdown));
    assert_eq!(MenuFocus::Buffer.next_right(), None);
    assert_eq!(MenuFocus::Users.next_right(), Some(MenuFocus::Auth));
    assert_eq!(MenuFocus::Users.next_right().unwrap().next_left(), Some(MenuFocus::Users));
}

#[test]
fn main_view_focus_moves() {
    assert!(!MainFocus::PrecisionSelector.is_visible_in(LayoutMode::LogsOnly));
    assert!(!MainFocus::LogBlock.is_visible_in(LayoutMode::GraphExpanded));
    assert!(MainFocus::ExpandButton.is_visible_in(LayoutMode::Full));
    for mode in [LayoutMode::Full, LayoutMode::LogsOnly, LayoutMode::GraphExpanded] {
        for e in [MainFocus::LogBlock, MainFocus::ExpandButton, MainFocus::PrecisionSelector] {
            for next in [e.up(mode), e.down(mode), e.left(mode), e.right(mode), e.forward(mode)] {
                if let Some(n) = next {
                    assert!(n.is_visible_in(mode));
                }
            }
        }
    }
}

#[test]
fn precision_options() {
    assert_eq!(GraphPrecisionOption::default(), GraphPrecisionOption::OneSecond);
    assert_eq!(GraphPrecisionOption::from_index(3), Some(GraphPrecisionOption::TenSeconds));
    assert_eq!(GraphPrecisionOption::from_index(9), None);
    assert_eq!(GraphPrecisionOption::TenMinutes.to_str(), "10m");
    assert_eq!(GraphPrecisionOption::OneMinute.get_values(), (60, 600, 150, false));
}

#[test]
fn dual_buttons_switch() {
    assert_eq!(DualFocus::Left.other(), DualFocus::Right);
    assert_eq!(DualFocus::Right.other(), DualFocus::Left);
    assert_eq!(DualFocus::Unfocused.other(), DualFocus::Left);
}

#[test]
fn long_list_indices() {
    assert_eq!(calc_index_of_first(0), None);
    assert_eq!(calc_index_of_first(5), Some(0));
    assert_eq!(calc_index_of_last(0), None);
    assert_eq!(calc_index_of_last(5), Some(4));
    assert_eq!(calc_index_of_selection_start(true, 5), Some(4));
    assert_eq!(calc_index_of_selection_start(false, 5), Some(0));
    assert_eq!(calc_index_of_selection_start(true, 0), None);
    assert_eq!(scrollbar_state(100, 10, Some(99)), (90, 90));
    assert_eq!(scrollbar_state(100, 10, None), (90, 90));
    assert_eq!(scrollbar_state(5, 10, Some(2)), (0, 0));
}

struct Lines {
    per_item: usize,
    entered: Vec<usize>,
}

impl LongListHandler<(usize, usize)> for Lines {
    fn get_item_lines(&mut self, index: usize, _wrap_width: u16) -> Vec<(usize, usize)> {
        (0..self.per_item).map(|k| (index, k)).collect()
    }

    fn on_enter(&mut self, index: usize) -> OnEnterResult {
        self.entered.push(index);
        OnEnterResult::Handled
    }
}

#[test]
fn long_list_keys_and_focus() {
    let mut list = LongList::new(String::from("Items"), 20, false, false, Lines { per_item: 1, entered: Vec::new() });
    list.resize(0, 0, 30, 12);
    assert!(list.receive_focus());
    assert_eq!(list.controller.selected_index(), Some(0));
    assert_eq!(
        list.handle_key_event(key(KeyCode::Up), true),
        HandleEventStatus::PassFocus((0, 6), PassFocusDirection::Up)
    );
    assert_eq!(list.handle_key_event(key(KeyCode::Down), true), HandleEventStatus::Handled);
    assert_eq!(list.controller.selected_index(), Some(1));
    let shift_down = KeyInput { code: KeyCode::Down, is_release: false, shift: true, control: false };
    list.handle_key_event(shift_down, true);
    assert_eq!(list.controller.selected_index(), Some(6));
    list.handle_key_event(key(KeyCode::PageDown), true);
    assert_eq!(list.controller.selected_index(), Some(16));
    list.handle_key_event(key(KeyCode::End), true);
    assert_eq!(list.controller.selected_index(), Some(19));
    assert_eq!(
        list.handle_key_event(key(KeyCode::Down), true),
        HandleEventStatus::PassFocus((0, 6), PassFocusDirection::Down)
    );
    list.handle_key_event(key(KeyCode::Home), true);
    assert_eq!(list.controller.selected_index(), Some(0));
    assert_eq!(list.handle_key_event(key(KeyCode::Enter), true), HandleEventStatus::Handled);
    assert_eq!(list.handler.entered, vec![0]);
    assert_eq!(list.handle_key_event(key(KeyCode::Char('x')), true), HandleEventStatus::Unhandled);
    assert_eq!(list.handle_key_event(key(KeyCode::Down), false), HandleEventStatus::Unhandled);
    assert_eq!(
        list.handle_mouse_event(MouseInput { kind: MouseKind::ScrollDown, shift: true }, true),
        HandleEventStatus::Handled
    );
    assert_eq!(list.controller.selected_index(), Some(5));
    list.focus_lost();
    assert_eq!(list.controller.selected_index(), None);
    assert_eq!(list.begin_resize(40, 100), (40, 22));
    assert_eq!(list.begin_resize(40, 10), (40, 10));
}

#[test]
fn long_list_process_lines_fills_view() {
    let mut list = LongList::new(String::from("Items"), 50, false, false, Lines { per_item: 2, entered: Vec::new() });
    let w = list.process_lines(25, 20, 8);
    assert_eq!(w.count, 8);
    assert!(w.first + w.count <= 8 + 2);
    let w2 = list.process_lines(0, 20, 8);
    assert_eq!(w2.count, 8);
    assert_eq!(w2.first, 0);
    let w3 = list.process_lines(49, 20, 8);
    assert_eq!(w3.count, 8);
    let empty = list.process_lines(3, 20, 0);
    assert_eq!(empty.count, 0);
}

#[test]
fn long_list_controller_updates() {
    let mut c: LongListController<u8> = LongListController::new(String::from("t"), 10, true, true);
    assert_eq!(c.selection_start_index(), Some(9));
    assert!(c.set_item_count(4));
    assert!(!c.set_item_count(4));
    assert_eq!(c.item_count(), 4);
    c.on_item_removed(2);
    assert_eq!(c.item_count(), 3);
    c.reset_items_no_redraw(7, true);
    assert_eq!(c.item_count(), 7);
    assert_eq!(c.selected_index(), None);
    assert_eq!(c.title(), "t");
}

#[test]
fn long_list_removal_moves_selection() {
    let mut list = LongList::new(String::from("Items"), 5, false, false, Lines { per_item: 1, entered: Vec::new() });
    list.receive_focus();
    list.handle_key_event(key(KeyCode::End), true);
    assert_eq!(list.controller.selected_index(), Some(4));
    list.controller.on_item_removed(4);
    assert_eq!(list.controller.selected_index(), Some(3));
    list.controller.set_item_count(2);
    assert_eq!(list.controller.selected_index(), Some(1));
}

#[test]
fn wordskip_examples() {
    assert_eq!(calc_wordskip_left("hello world"), (5, 5));
    assert_eq!(calc_wordskip_left("hello world  "), (7, 7));
    assert_eq!(calc_wordskip_left("año ñandú"), (7, 5));
    assert_eq!(calc_wordskip_left(""), (0, 0));
    assert_eq!(calc_wordskip_right("hello world"), (6, 6));
    assert_eq!(calc_wordskip_right("  world"), (2, 2));
    assert_eq!(calc_wordskip_right("ñandú!? x"), (10, 8));
}

struct Entry {
    accept: bool,
    keep_focus: bool,
    entered: usize,
    changes: usize,
}

impl TextEntryHandler for Entry {
    fn on_enter(&mut self, _text: &Vec<char>) -> EntryEnter {
        self.entered += 1;
        EntryEnter::PassFocusAway
    }

    fn on_char(&mut self, _text: &Vec<char>, c: char, _cursor: &CursorPosition) -> bool {
        self.accept && c != '!'
    }

    fn on_text_changed(&mut self, _text: &Vec<char>) -> bool {
        self.changes += 1;
        self.keep_focus
    }
}

#[test]
fn text_entry_editing() {
    let handler = Entry { accept: true, keep_focus: true, entered: 0, changes: 0 };
    let mut entry = TextEntry::new(String::from("hi"), 10, handler);
    entry.resize(4, 5);
    assert!(!entry.is_typing());
    assert_eq!(entry.handle_event(key(KeyCode::Char('a')), true), HandleEventStatus::Unhandled);
    assert!(entry.receive_focus());
    assert_eq!(entry.cursor(), Some(CursorPosition { index_bytes: 2, index_chars: 2 }));
    assert_eq!(entry.handle_event(key(KeyCode::Char('ñ')), true), HandleEventStatus::Handled);
    assert_eq!(entry.text(), "hiñ");
    assert_eq!(entry.cursor(), Some(CursorPosition { index_bytes: 4, index_chars: 3 }));
    entry.handle_event(key(KeyCode::Char('!')), true);
    assert_eq!(entry.text(), "hiñ");
    entry.handle_event(key(KeyCode::Home), true);
    entry.handle_event(key(KeyCode::Char('x')), true);
    assert_eq!(entry.text(), "xhiñ");
    entry.handle_event(key(KeyCode::Delete), true);
    assert_eq!(entry.text(), "xiñ");
    entry.handle_event(key(KeyCode::End), true);
    entry.handle_event(key(KeyCode::Backspace), true);
    assert_eq!(entry.text(), "xi");
    assert_eq!(entry.cursor(), Some(CursorPosition { index_bytes: 2, index_chars: 2 }));
    entry.handle_event(key(KeyCode::Left), true);
    assert_eq!(entry.cursor(), Some(CursorPosition { index_bytes: 1, index_chars: 1 }));
    assert_eq!(
        entry.handle_event(key(KeyCode::Up), true),
        HandleEventStatus::PassFocus((4, 5), PassFocusDirection::Up)
    );
    assert_eq!(
        entry.handle_event(key(KeyCode::Enter), true),
        HandleEventStatus::PassFocus((4, 5), PassFocusDirection::Away)
    );
    entry.focus_lost();
    assert!(!entry.is_typing());
}

#[test]
fn text_entry_word_deletion_and_limit() {
    let handler = Entry { accept: true, keep_focus: false, entered: 0, changes: 0 };
    let mut entry = TextEntry::new(String::from("one two"), 7, handler);
    entry.receive_focus();
    let ctrl_backspace = KeyInput { code: KeyCode::Backspace, is_release: false, shift: false, control: true };
    assert_eq!(
        entry.handle_event(ctrl_backspace, true),
        HandleEventStatus::PassFocus((0, 0), PassFocusDirection::Away)
    );
    assert_eq!(entry.text(), "one ");
    entry.handle_event(key(KeyCode::Char('a')), true);
    entry.handle_event(key(KeyCode::Char('b')), true);
    entry.handle_event(key(KeyCode::Char('c')), true);
    assert_eq!(entry.text(), "one abc");
    assert_eq!(entry.handle_event(key(KeyCode::Char('d')), true), HandleEventStatus::Unhandled);
    assert_eq!(entry.text(), "one abc");
    assert_eq!(entry.begin_resize(20, 3), (7, 1));
    assert_eq!(entry.begin_resize(5, 3), (5, 1));
}

#[test]
fn text_entry_typing_view() {
    assert_eq!(typing_view(0, 0, 10, 20), (0, 0));
    assert_eq!(typing_view(5, 30, 10, 40), (5, 5));
    assert_eq!(typing_view(28, 30, 10, 40), (8, 2));
    let (before, after) = typing_view(15, 100, 9, 200);
    assert!(before + after <= 9);
}

#[test]
fn size_constraints() {
    let c = SizeConstraint::new().min(10, 5).max(40, 20);
    assert_eq!(c.min, (10, 5));
    assert_eq!(c.max, (40, 20));
    assert_eq!(c.available(100, 3), (40, 3));
    assert_eq!(c.constrain((3, 30)), (10, 20));
    assert_eq!(c.constrain((15, 7)), (15, 7));
    assert_eq!(SizeConstraint::default().max, (u16::MAX, u16::MAX));
}

#[test]
fn buffer_popup_messages() {
    assert_eq!(TopMessage::Offer.to_str(), "Do you want to set a new buffer size?");
    assert_eq!(TopMessage::Invalid.to_str(), "Please enter a valid buffer size");
}

#[test]
fn nocase_comparison() {
    assert_eq!(strings_nocase_cmp("ABC", "abd"), Ordering::Less);
    assert_eq!(strings_nocase_cmp("Hello", "hELLO"), Ordering::Equal);
    assert_eq!(strings_nocase_cmp("abc", "ab"), Ordering::Greater);
    assert_eq!(strings_nocase_cmp("", "a"), Ordering::Less);
    assert_eq!(strings_nocase_cmp("Ñu", "ñU"), Ordering::Equal);
    let pedro = String::from("Pedro");
    let ana = String::from("ana");
    assert_eq!(users_sort_cmp((&pedro, UserRole::Admin), (&ana, UserRole::Regular)), Ordering::Less);
    assert_eq!(users_sort_cmp((&pedro, UserRole::Regular), (&ana, UserRole::Regular)), Ordering::Greater);
}

#[test]
fn socket_list_order_and_filter() {
    let v4a = SocketAddress::V4 { ip: 0x7f000001, port: 1080 };
    let v4b = SocketAddress::V4 { ip: 0x0a000001, port: 1080 };
    let v4c = SocketAddress::V4 { ip: 0x0a000001, port: 80 };
    let v6 = SocketAddress::V6 { ip: 1, port: 9000, flowinfo: 0, scope_id: 0 };
    assert_eq!(socket_sort_cmp(&v6, &v4c), Ordering::Less);
    assert_eq!(socket_sort_cmp(&v4a, &v4b), Ordering::Greater);
    let mut list = SocketList::new();
    list.sockets_loaded(vec![v4a, v4b, v6, v4c]);
    let mut all = Vec::new();
    list.filter_list_into(&mut all);
    assert_eq!(all, vec![v6, v4c, v4b, v4a]);
    assert!(list.did_list_change());
    assert!(!list.did_list_change());
    assert!(!list.socket_changed(v4b, true));
    assert!(list.socket_changed(v4b, false));
    assert!(!list.socket_changed(v4b, false));
    list.on_ip_filter_changed(IpFilterType::IPv4);
    let mut v4s = Vec::new();
    list.filter_list_into(&mut v4s);
    assert_eq!(v4s, vec![v4c, v4a]);
    assert!(list.socket_changed(SocketAddress::V4 { ip: 5, port: 1080 }, true));
    let mut again = Vec::new();
    list.filter_list_into(&mut again);
    assert_eq!(again, vec![v4c, SocketAddress::V4 { ip: 5, port: 1080 }, v4a]);
}

#[test]
fn static_string_split_and_trim() {
    let s = StaticString::Static("hello   world");
    let (l, r) = s.split_at(6, true);
    assert_eq!(l.as_str(), "hello");
    assert_eq!(r.as_str(), "world");
    let o = StaticString::Owned(String::from("  añb  cd "));
    let (l2, r2) = o.split_at(5, false);
    assert_eq!(l2.as_str(), "  añ");
    assert_eq!(r2.as_str(), "b  cd ");
    let mut t = StaticString::Owned(String::from("\t x y \n"));
    t.trim_starting_whitespace();
    assert_eq!(t.as_str(), "x y \n");
    t.trim_trailing_whitespace();
    assert_eq!(t.as_str(), "x y");
    assert_eq!(StaticString::default().as_str(), "");
}

#[test]
fn wrap_text_lines() {
    let text = "  the quick brown fox  ";
    let trimmed = text.trim();
    let mut it = WrapTextIter::new(text, 10);
    let mut lines = Vec::new();
    while let Some(item) = it.next() {
        lines.push(item.get_substr(trimmed).to_string());
    }
    assert_eq!(lines, vec!["the quick", "brown fox"]);
    let mut it2 = WrapTextIter::new("abcdefghij", 4);
    let first = it2.next().unwrap();
    assert_eq!((first.index_start, first.len_bytes, first.len_chars), (0, 4, 4));
    assert!(WrapTextIter::new("   ", 5).next().is_none());
}

#[test]
fn ping_color_by_speed() {
    assert_eq!(get_ping_text_color(0), PingColor::Green);
    assert_eq!(get_ping_text_color(99), PingColor::Green);
    assert_eq!(get_ping_text_color(100), PingColor::Yellow);
    assert_eq!(get_ping_text_color(999), PingColor::Yellow);
    assert_eq!(get_ping_text_color(1000), PingColor::Red);
}

#[test]
fn buffer_labels() {
    assert_eq!(initial_buffer_label(), "      (b)");
    assert_eq!(buffer_size_label(8192), "8KB (b)");
    assert_eq!(buffer_size_label(500), "500B (b)");
}

#[test]
fn buffer_loading_indicator_fills_with_dots_and_starts_over() {
    let mut indicator: Vec<u8> = b"..x..".to_vec();
    assert_eq!(buffer_size_loading_indicator_step(&mut indicator, 0), 1);
    assert_eq!(indicator, b"     ".to_vec());
    assert_eq!(buffer_size_loading_indicator_step(&mut indicator, 1), 2);
    assert_eq!(indicator, b".    ".to_vec());
    assert_eq!(buffer_size_loading_indicator_step(&mut indicator, 2), 3);
    assert_eq!(buffer_size_loading_indicator_step(&mut indicator, 3), 4);
    assert_eq!(buffer_size_loading_indicator_step(&mut indicator, 4), 5);
    assert_eq!(buffer_size_loading_indicator_step(&mut indicator, 5), 0);
    assert_eq!(indicator, b".....".to_vec());
    assert_eq!(buffer_size_loading_indicator_step(&mut indicator, 0), 1);
    assert_eq!(indicator, b"     ".to_vec());
}

#[test]
fn ping_loading_indicator_bounces() {
    assert_eq!(ping_loading_indicator_start(), (2, 1));
    assert_eq!(ping_loading_indicator_text(2), "\u{2584}\u{2584}\u{2588}\u{2584}");
    assert_eq!(ping_loading_indicator_text(0), "\u{2588}\u{2584}\u{2584}\u{2584}");
    assert_eq!(ping_loading_indicator_text(3), "\u{2584}\u{2584}\u{2584}\u{2588}");
    assert_eq!(ping_loading_indicator_step(2, 1), (3, 1));
    assert_eq!(ping_loading_indicator_step(3, 1), (2, -1));
    assert_eq!(ping_loading_indicator_step(1, -1), (0, -1));
    assert_eq!(ping_loading_indicator_step(0, -1), (1, 1));
}

#[test]
fn buffer_size_popup_requests_valid_sizes_once() {
    let mut controller = Controller::new();
    assert_eq!(controller.get_top_message(), TopMessage::Offer);
    assert_eq!(controller.on_yes_selected("abc"), YesSelected::BeepRed);
    assert_eq!(controller.get_top_message(), TopMessage::Invalid);
    assert!(controller.get_state().is_beeping_red);
    assert_eq!(controller.on_yes_selected("4K"), YesSelected::Ignored);
    controller.beep_finished();
    assert_eq!(controller.on_yes_selected("4K"), YesSelected::Request(4096));
    let state = controller.get_state();
    assert_eq!(state.top_message, TopMessage::Offer);
    assert!(state.is_doing_request && !state.showing_buttons && !state.closable);
    assert_eq!(controller.on_yes_selected("8K"), YesSelected::Ignored);
    assert_eq!(controller.on_request_result(SetBufferSizeResult::Refused), RequestFollowUp::ShowError(SERVER_ERROR_MESSAGE));
    let state = controller.get_state();
    assert!(!state.is_doing_request && state.showing_buttons && state.closable);
    assert_eq!(controller.on_yes_selected("0x10"), YesSelected::Request(16));
    assert_eq!(
        controller.on_request_result(SetBufferSizeResult::NotSent),
        RequestFollowUp::ShowError("Couldn't send request to server. Is the server still running?")
    );
    assert_eq!(controller.on_yes_selected("1m"), YesSelected::Request(1048576));
    assert!(!controller.is_close_requested());
    assert_eq!(controller.on_request_result(SetBufferSizeResult::Accepted), RequestFollowUp::Close);
    assert!(controller.is_close_requested());
}

#[test]
fn buffer_size_popup_asks_for_redraws_on_changes() {
    let mut controller = Controller::new();
    assert!(!controller.take_redraw_request());
    controller.set_top_message(TopMessage::Offer);
    assert!(!controller.take_redraw_request());
    controller.set_top_message(TopMessage::Invalid);
    assert!(controller.take_redraw_request());
    assert!(!controller.take_redraw_request());
    assert_eq!(controller.on_yes_selected("12"), YesSelected::Request(12));
    assert!(controller.take_redraw_request());
    assert!(!controller.get_showing_buttons());
    assert!(!controller.get_closable());
    controller.set_closable(false);
    assert!(!controller.take_redraw_request());
    controller.redraw_notify();
    assert!(controller.take_redraw_request());
    controller.close_popup();
    assert!(controller.is_close_requested());
}

#[test]
fn buffer_size_entry_colors_and_chars() {
    assert_eq!(on_text_changed("1M"), EntryColor::Green);
    assert_eq!(on_text_changed(" 64kb "), EntryColor::Green);
    assert_eq!(on_text_changed(""), EntryColor::Red);
    assert_eq!(on_text_changed("0"), EntryColor::Red);
    assert_eq!(on_text_changed("5G"), EntryColor::Red);
    assert_eq!(parse_buffer_size_entry("2K"), Some(2048));
    assert!(on_char('a'));
    assert!(on_char('7'));
    assert!(!on_char('-'));
}

#[test]
fn auth_methods_follow_announcements() {
    let mut controller = AuthController::new();
    assert!(controller.get_is_loading());
    assert_eq!(controller.auth_method_changed(AuthMethod::NoAuth, false), Refresh::Resize);
    assert_eq!(*controller.auth_methods(), vec![(AuthMethod::NoAuth, false)]);
    controller.auth_methods_loaded(vec![(AuthMethod::NoAuth, true), (AuthMethod::UsernameAndPassword, false)]);
    assert!(!controller.get_is_loading());
    assert!(controller.did_list_change());
    assert!(!controller.did_list_change());
    assert_eq!(controller.auth_method_changed(AuthMethod::UsernameAndPassword, true), Refresh::Redraw);
    assert_eq!(
        *controller.auth_methods(),
        vec![(AuthMethod::NoAuth, true), (AuthMethod::UsernameAndPassword, true)]
    );
    assert!(controller.did_list_change());
}

#[test]
fn auth_methods_toggle_one_at_a_time() {
    let mut controller = AuthController::new();
    assert!(controller.set_auth_method(AuthMethod::NoAuth, true));
    assert!(controller.is_setting_auth_method());
    assert!(!controller.get_closable());
    assert!(!controller.set_auth_method(AuthMethod::UsernameAndPassword, true));
    assert_eq!(
        controller.on_set_auth_method_result(AuthMethod::NoAuth, true, ToggleResult::Refused),
        ToggleFollowUp::ShowError(AUTH_SERVER_ERROR_MESSAGE)
    );
    assert!(!controller.is_setting_auth_method());
    assert!(controller.get_closable());
    assert!(controller.set_auth_method(AuthMethod::NoAuth, true));
    assert_eq!(
        controller.on_set_auth_method_result(AuthMethod::NoAuth, true, ToggleResult::Accepted),
        ToggleFollowUp::Announce(AuthMethod::NoAuth, true)
    );
    assert!(controller.set_auth_method(AuthMethod::NoAuth, false));
    assert_eq!(
        controller.on_set_auth_method_result(AuthMethod::NoAuth, false, ToggleResult::NotSent),
        ToggleFollowUp::ShowError("Couldn't send request to server. Is the server still running?")
    );
    assert!(controller.get_new_loading_text().is_none());
    controller.take_resize_request();
    controller.auth_methods_load_failed();
    assert!(controller.take_resize_request());
    let text = controller.get_new_loading_text().map(|t| t.as_str().to_string());
    assert_eq!(text, Some("Couldn't send request to server. Is the server still running?".to_string()));
    assert!(controller.get_new_loading_text().is_none());
}

#[test]
fn auth_methods_popup_asks_for_redraws_and_resizes() {
    let mut controller = AuthController::new();
    assert!(!controller.take_resize_request());
    controller.auth_methods_loaded(vec![(AuthMethod::NoAuth, true)]);
    assert!(controller.take_resize_request());
    controller.auth_methods_loaded(vec![(AuthMethod::NoAuth, true)]);
    assert!(!controller.take_resize_request());
    assert!(!controller.take_redraw_request());
    assert_eq!(controller.auth_method_changed(AuthMethod::NoAuth, false), Refresh::Redraw);
    assert!(controller.take_redraw_request());
    assert!(!controller.take_resize_request());
    assert_eq!(controller.auth_method_changed(AuthMethod::UsernameAndPassword, true), Refresh::Resize);
    assert!(controller.take_resize_request());
    assert!(controller.set_auth_method(AuthMethod::NoAuth, true));
    assert!(controller.take_redraw_request());
    assert!(!controller.is_close_requested());
    controller.close_popup();
    assert!(controller.is_close_requested());
}

fn auth_line(status_text: &'static str, enabled: bool, locked: bool, method: AuthMethod, text_index: usize, text_len_bytes: usize) -> AuthItemLine {
    AuthItemLine { status_text, enabled, locked, method, text_index, text_len_bytes }
}

#[test]
fn auth_method_lines_wrap_the_description() {
    assert_eq!(
        auth_item_lines(AuthMethod::NoAuth, true, false, 30),
        vec![auth_line(" [Y] ", true, false, AuthMethod::NoAuth, 0, 17)]
    );
    assert_eq!(
        auth_item_lines(AuthMethod::UsernameAndPassword, false, true, 10),
        vec![
            auth_line(" [N] ", false, true, AuthMethod::UsernameAndPassword, 0, 12),
            auth_line("     ", false, true, AuthMethod::UsernameAndPassword, 13, 8),
        ]
    );
}

#[test]
fn auth_method_list_handler_toggles_on_enter() {
    let mut controller = AuthController::new();
    controller.auth_methods_loaded(vec![(AuthMethod::NoAuth, true), (AuthMethod::UsernameAndPassword, false)]);
    let mut handler = AuthListHandler { controller };
    assert_eq!(handler.get_item_lines(0, 30), vec![auth_line(" [Y] ", true, false, AuthMethod::NoAuth, 0, 17)]);
    assert_eq!(handler.get_item_lines(7, 30).len(), 1);
    assert_eq!(handler.on_enter(7), OnEnterResult::Handled);
    assert!(!handler.controller.is_setting_auth_method());
    assert_eq!(handler.on_enter(1), OnEnterResult::Handled);
    assert!(handler.controller.is_setting_auth_method());
    assert_eq!(handler.get_item_lines(0, 30), vec![auth_line(" [Y] ", true, true, AuthMethod::NoAuth, 0, 17)]);
}

#[test]
fn vertical_axis_marks_every_distance_rows() {
    let mut axis = VerticalAxis::new();
    axis.resize(7);
    assert_eq!(axis.marker_rows(100, 7), vec![false, false, true, false, false, true]);
    assert_eq!(axis.marker_rows(0, 7), vec![false; 6]);
    axis.resize(8);
    assert_eq!(axis.marker_rows(5, 8), vec![false, false, false, true, false, false, false]);
}

#[test]
fn long_list_removal_selects_the_next_item() {
    let mut list = LongList::new(String::from("Items"), 5, false, false, Lines { per_item: 1, entered: Vec::new() });
    list.receive_focus();
    list.handle_key_event(key(KeyCode::Down), true);
    list.handle_key_event(key(KeyCode::Down), true);
    assert_eq!(list.controller.selected_index(), Some(2));
    list.controller.on_item_removed(2);
    assert_eq!(list.controller.item_count(), 4);
    assert_eq!(list.controller.selected_index(), Some(2));
    list.controller.on_item_removed(3);
    assert_eq!(list.controller.selected_index(), Some(2));
    list.controller.on_item_removed(0);
    assert_eq!(list.controller.selected_index(), Some(1));
}
