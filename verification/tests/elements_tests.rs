use sandstorm::args::{escape_username, parse_into_user, CommandRequest, StartupArguments};
use sandstorm::sandstorm::{
    choose_buffer_sizes, unexpected_response_message, CommandKind, PendingResponses, ResponseAction, StreamEndError,
};
use sandstorm::tui::elements::arrow_selector::{ArrowSelector, ArrowSelectorHandler};
use sandstorm::tui::elements::dual_buttons::{ButtonPressed, DualButtons, DualButtonsHandler};
use sandstorm::tui::elements::padded::{offered_size, padded_size, Padded, Padding};
use sandstorm::tui::elements::split::Area;
use sandstorm::tui::elements::text::{Alignment, InnerLine, Text, TextLine};
use sandstorm::tui::menu_bar::{MenuAction, MenuBarState};
use sandstorm::tui::ui_element::AutosizeUIElement;
use sandstorm::tui::text_wrapper::StaticString;
use sandstorm::tui::ui_element::{HandleEventStatus, KeyCode, KeyInput, PassFocusDirection};

fn press(code: KeyCode) -> KeyInput {
    KeyInput { code, is_release: false, shift: false, control: false }
}

fn release(code: KeyCode) -> KeyInput {
    KeyInput { code, is_release: true, shift: false, control: false }
}

#[derive(Default)]
struct Presses {
    left: usize,
    right: usize,
}

impl DualButtonsHandler for Presses {
    fn on_left(&mut self) {
        self.left += 1;
    }

    fn on_right(&mut self) {
        self.right += 1;
    }
}

fn yes_no() -> DualButtons<Presses> {
    DualButtons::new(StaticString::Static("Yes"), StaticString::Static("No"), &['y'], &['n'], Presses::default())
}

#[test]
fn dual_buttons_shortcuts_press_without_focus() {
    let mut buttons = yes_no();
    assert_eq!(buttons.handle_event(press(KeyCode::Char('y')), false), (HandleEventStatus::Handled, Some(ButtonPressed::Left)));
    assert_eq!(buttons.handle_event(press(KeyCode::Char('n')), false), (HandleEventStatus::Handled, Some(ButtonPressed::Right)));
    assert_eq!(buttons.handle_event(press(KeyCode::Char('q')), false), (HandleEventStatus::Unhandled, None));
    assert_eq!(buttons.handle_event(release(KeyCode::Char('y')), false), (HandleEventStatus::Unhandled, None));
    assert_eq!(buttons.handlers.left, 1);
    assert_eq!(buttons.handlers.right, 1);
}

#[test]
fn dual_buttons_move_and_press_when_focused() {
    let mut buttons = yes_no();
    buttons.resize(0, 0, 20);
    assert!(buttons.receive_focus((0, 0)));
    assert_eq!(buttons.handle_event(press(KeyCode::Enter), true), (HandleEventStatus::Handled, Some(ButtonPressed::Left)));
    assert_eq!(buttons.handle_event(press(KeyCode::Left), true).0, HandleEventStatus::PassFocus((5, 0), PassFocusDirection::Left));
    assert_eq!(buttons.handle_event(press(KeyCode::Tab), true), (HandleEventStatus::Handled, None));
    assert_eq!(buttons.handle_event(press(KeyCode::Enter), true), (HandleEventStatus::Handled, Some(ButtonPressed::Right)));
    assert_eq!(buttons.handle_event(press(KeyCode::Right), true).0, HandleEventStatus::PassFocus((15, 0), PassFocusDirection::Right));
    assert_eq!(buttons.handle_event(press(KeyCode::Left), true), (HandleEventStatus::Handled, None));
    assert_eq!(buttons.handle_event(press(KeyCode::Esc), true).0, HandleEventStatus::PassFocus((5, 0), PassFocusDirection::Away));
    assert_eq!(buttons.handlers.left, 1);
    assert_eq!(buttons.handlers.right, 1);
}

#[test]
fn dual_buttons_unfocused_enter_does_nothing() {
    let mut buttons = yes_no();
    assert_eq!(buttons.handle_event(press(KeyCode::Enter), false), (HandleEventStatus::Unhandled, None));
    buttons.focus_lost();
    assert_eq!(buttons.handle_event(press(KeyCode::Enter), true), (HandleEventStatus::Unhandled, None));
    assert_eq!(buttons.handlers.left + buttons.handlers.right, 0);
}

#[derive(Default)]
struct Selections(Vec<usize>);

impl ArrowSelectorHandler for Selections {
    fn selection_changed(&mut self, selected_index: usize) {
        self.0.push(selected_index);
    }
}

fn selector(autoselect: bool) -> ArrowSelector<Selections> {
    let options = vec![
        (StaticString::Static("Small"), Some('S')),
        (StaticString::Static("Medium"), Some('m')),
        (StaticString::Static("Large"), None),
    ];
    ArrowSelector::new(options, 0, StaticString::Static(""), autoselect, Selections::default())
}

#[test]
fn arrow_selector_shortcuts_ignore_case() {
    let mut s = selector(false);
    assert_eq!(s.handle_event(press(KeyCode::Char('M')), false), HandleEventStatus::Handled);
    assert_eq!(s.selected_index(), 1);
    assert_eq!(s.handle_event(press(KeyCode::Char('m')), false), HandleEventStatus::Unhandled);
    assert_eq!(s.handle_event(press(KeyCode::Char('s')), false), HandleEventStatus::Handled);
    assert_eq!(s.selected_index(), 0);
    assert_eq!(s.handle_event(press(KeyCode::Char('x')), false), HandleEventStatus::Unhandled);
    assert_eq!(s.handler.0, vec![1, 0]);
}

#[test]
fn arrow_selector_moves_while_selecting() {
    let mut s = selector(true);
    assert!(s.receive_focus());
    assert_eq!(s.handle_event(press(KeyCode::Right), true), HandleEventStatus::Handled);
    assert_eq!(s.handle_event(press(KeyCode::Right), true), HandleEventStatus::Handled);
    assert_eq!(s.handle_event(press(KeyCode::Right), true), HandleEventStatus::Handled);
    assert_eq!(s.selected_index(), 2);
    assert_eq!(s.handle_event(press(KeyCode::Left), true), HandleEventStatus::Handled);
    assert_eq!(s.selected_index(), 1);
    assert_eq!(s.handle_event(press(KeyCode::Esc), true), HandleEventStatus::Handled);
    assert!(matches!(s.handle_event(press(KeyCode::Left), true), HandleEventStatus::PassFocus(_, PassFocusDirection::Left)));
    assert_eq!(s.selected_index(), 1);
    assert_eq!(s.handler.0, vec![1, 2, 1]);
}

#[test]
fn arrow_selector_enter_toggles_selecting() {
    let mut s = selector(false);
    assert!(s.receive_focus());
    assert!(matches!(s.handle_event(press(KeyCode::Right), true), HandleEventStatus::PassFocus(_, PassFocusDirection::Right)));
    assert_eq!(s.handle_event(press(KeyCode::Enter), true), HandleEventStatus::Handled);
    assert_eq!(s.handle_event(press(KeyCode::Right), true), HandleEventStatus::Handled);
    assert_eq!(s.selected_index(), 1);
    s.focus_lost();
    assert_eq!(s.handle_event(press(KeyCode::Right), false), HandleEventStatus::Unhandled);
}

#[test]
fn arrow_selector_keeps_selection_within_options() {
    let s = ArrowSelector::new(vec![], 3, StaticString::Static("after"), false, Selections::default());
    assert_eq!(s.selected_index(), 1);
    let mut s = selector(false);
    s.set_selected_index_no_redraw(2);
    assert_eq!(s.selected_index(), 2);
    assert!(s.handler.0.is_empty());
}

fn menu() -> MenuBarState {
    let mut m = MenuBarState::new();
    m.do_resize(0, 0, 100, (8, 6, 9, 5, 4, 11), 3);
    m
}

#[test]
fn menu_shortcuts_work_without_focus() {
    let mut m = menu();
    assert_eq!(m.handle_event(press(KeyCode::Char('u')), false), (HandleEventStatus::Handled, Some(MenuAction::Users)));
    assert_eq!(m.handle_event(press(KeyCode::Char('x')), false), (HandleEventStatus::Handled, Some(MenuAction::Shutdown)));
    assert_eq!(m.handle_event(press(KeyCode::Char('q')), false), (HandleEventStatus::Unhandled, None));
    assert_eq!(m.handle_event(press(KeyCode::Enter), false), (HandleEventStatus::Unhandled, None));
}

#[test]
fn menu_focus_walks_the_buttons() {
    let mut m = menu();
    assert!(m.receive_focus((0, 5)));
    assert_eq!(m.handle_event(press(KeyCode::Enter), true), (HandleEventStatus::Handled, Some(MenuAction::Shutdown)));
    assert_eq!(m.handle_event(press(KeyCode::Left), true), (HandleEventStatus::PassFocus((5, 0), PassFocusDirection::Left), None));
    assert_eq!(m.handle_event(press(KeyCode::Right), true), (HandleEventStatus::Handled, None));
    assert_eq!(m.handle_event(press(KeyCode::Enter), true), (HandleEventStatus::Handled, Some(MenuAction::Socks5)));
    assert_eq!(m.handle_event(press(KeyCode::Down), true), (HandleEventStatus::PassFocus((15, 0), PassFocusDirection::Down), None));
}

#[test]
fn menu_focus_comes_in_under_the_column() {
    let mut m = menu();
    assert!(m.receive_focus((21, 3)));
    assert_eq!(m.handle_event(press(KeyCode::Enter), true), (HandleEventStatus::Handled, Some(MenuAction::Sandstorm)));
    assert!(m.receive_focus((99, 3)));
    assert_eq!(m.handle_event(press(KeyCode::Enter), true), (HandleEventStatus::Handled, Some(MenuAction::Buffer)));
    assert_eq!(m.handle_event(press(KeyCode::Tab), true).0, HandleEventStatus::PassFocus((54, 0), PassFocusDirection::Forward));
    m.focus_lost();
    assert_eq!(m.handle_event(press(KeyCode::Enter), true), (HandleEventStatus::Unhandled, None));
}

#[test]
fn pending_responses_are_handled_once() {
    let mut p = PendingResponses::new();
    p.request_sent(CommandKind::Meow);
    p.request_sent(CommandKind::Meow);
    assert_eq!(p.pending(CommandKind::Meow), 2);
    assert_eq!(p.response_received(CommandKind::Meow), ResponseAction::CallHandler);
    assert_eq!(p.response_received(CommandKind::Meow), ResponseAction::CallHandler);
    assert_eq!(p.response_received(CommandKind::Meow), ResponseAction::Unexpected);
    assert_eq!(p.pending(CommandKind::Meow), 0);
    assert_eq!(p.response_received(CommandKind::EventStream), ResponseAction::ForwardEvent);
    assert!(p.is_flushed());
}

#[test]
fn stream_end_after_shutdown_and_all_answers() {
    let mut p = PendingResponses::new();
    p.request_sent(CommandKind::GetBufferSize);
    p.mark_shutdown();
    assert_eq!(p.stream_ended(), Err(StreamEndError::UnexpectedEof));
    assert_eq!(p.response_received(CommandKind::GetBufferSize), ResponseAction::CallHandler);
    assert_eq!(p.stream_ended(), Ok(()));
}

#[test]
fn stream_end_without_shutdown_is_a_reset() {
    let p = PendingResponses::new();
    assert_eq!(p.stream_ended(), Err(StreamEndError::ConnectionReset));
    let mut p = PendingResponses::new();
    p.request_sent(CommandKind::Shutdown);
    assert_eq!(p.stream_ended(), Ok(()));
}

#[test]
fn listing_users_is_not_waited_for() {
    let mut p = PendingResponses::new();
    p.request_sent(CommandKind::ListUsers);
    assert!(p.is_flushed());
    assert_eq!(p.pending(CommandKind::ListUsers), 1);
}

#[test]
fn unexpected_response_names_the_kind() {
    assert_eq!(unexpected_response_message(CommandKind::Meow), "Received unexpected Meow response");
}

#[test]
fn buffer_sizes_follow_the_arguments() {
    let mut args = StartupArguments::empty();
    assert_eq!(choose_buffer_sizes(&args), (0x1000, 0x1000));
    args.output_logs = true;
    for _ in 0..16 {
        args.requests.push(CommandRequest::Meow);
    }
    assert_eq!(choose_buffer_sizes(&args), (0x2000, 0x2000));
    args.requests.pop();
    assert_eq!(choose_buffer_sizes(&args), (0x2000, 0x1000));
}

#[test]
fn escaped_usernames_parse_back() {
    assert_eq!(escape_username("a:b:c"), "a\\:b\\:c");
    assert_eq!(escape_username("plain"), "plain");
    let spec = format!("{}:{}", escape_username("us:er"), "secret");
    let parsed = parse_into_user(&spec).unwrap();
    assert_eq!(parsed.0, "us:er");
    assert_eq!(parsed.1.as_deref(), Some("secret"));
    assert_eq!(parsed.2, None);
}

fn line_of(text_index: usize, text_len_bytes: u32, text_draw_width: u16, text_draw_offset: u16) -> InnerLine {
    InnerLine { text_index, text_len_bytes, text_draw_width, text_draw_offset }
}

#[test]
fn text_line_is_placed_by_its_alignment() {
    let mut left = TextLine::new(StaticString::Static("Hello"), Alignment::Left);
    let mut center = TextLine::new(StaticString::Static("Hello"), Alignment::Center);
    let mut right = TextLine::new(StaticString::Static("Hello"), Alignment::Right);
    let area = Area { x: 2, y: 3, width: 11, height: 1 };
    left.resize(area);
    center.resize(area);
    right.resize(area);
    assert_eq!(left.draw_offset(), 0);
    assert_eq!(center.draw_offset(), 3);
    assert_eq!(right.draw_offset(), 6);
    assert_eq!(center.draw_width(), 5);
    center.resize(Area { x: 0, y: 0, width: 3, height: 1 });
    assert_eq!(center.draw_offset(), 0);
    assert_eq!(center.draw_width(), 3);
    assert_eq!(center.begin_resize(3, 9), (3, 1));
    assert_eq!(center.begin_resize(40, 9), (5, 1));
}

#[test]
fn text_wraps_into_placed_lines() {
    let mut text = Text::new(StaticString::Static("  hello world foo "), Alignment::Left);
    assert_eq!(text.lines_len(), 0);
    assert_eq!(text.begin_resize(5, 10), (5, 3));
    assert_eq!(*text.lines(), vec![line_of(0, 5, 5, 0), line_of(6, 5, 5, 0), line_of(12, 3, 3, 0)]);

    let mut centered = Text::new(StaticString::Static("hello world foo"), Alignment::Center);
    centered.resize(Area { x: 0, y: 0, width: 5, height: 4 });
    assert_eq!(centered.lines()[2], line_of(12, 3, 3, 1));
}

#[test]
fn text_breaks_lines_at_whitespace() {
    let mut text = Text::new(StaticString::Static("ab cd ef"), Alignment::Right);
    text.resize(Area { x: 0, y: 0, width: 4, height: 4 });
    assert_eq!(*text.lines(), vec![line_of(0, 2, 2, 2), line_of(3, 2, 2, 2), line_of(6, 2, 2, 2)]);
    text.modify_text(StaticString::Static("abcdef"));
    assert_eq!(*text.lines(), vec![line_of(0, 4, 4, 0), line_of(4, 2, 2, 2)]);
    assert_eq!(text.begin_resize(4, 1), (4, 2));
}

#[test]
fn padded_element_gives_and_asks_space_around_it() {
    let padding = Padding { left: 1, right: 2, top: 1, bottom: 0 };
    let mut padded = Padded::new(padding, TextLine::new(StaticString::Static("abc"), Alignment::Left));
    assert_eq!(padded.inner_area(Area { x: 5, y: 5, width: 10, height: 4 }), Area { x: 6, y: 6, width: 7, height: 3 });
    assert_eq!(padded.inner_area(Area { x: 5, y: 5, width: 2, height: 0 }), Area { x: 6, y: 6, width: 0, height: 0 });
    assert_eq!(offered_size(padding, 10, 4), (7, 3));
    assert_eq!(offered_size(padding, 2, 0), (0, 0));
    assert_eq!(padded_size(padding, (3, 2)), (6, 3));
    assert_eq!(padded_size(padding, (65534, 0)), (65535, 1));
    assert_eq!(padded.begin_resize(10, 4), (6, 2));
}
