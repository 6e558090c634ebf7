use sandstorm::tui::elements::centered_button::{ButtonHandler, CenteredButton};
use sandstorm::tui::elements::focus_cell::{focus_cell_step, FocusCellStep};
use sandstorm::tui::elements::split::{
    after_focused, first_offered, second_offer, split_areas, split_request, Area, SplitAxis, SplitHalf, SplitStep,
};
use sandstorm::tui::elements::OnEnterResult;
use sandstorm::tui::main_view::areas::{distribute_areas, distribute_areas_expanded, fit_lines};
use sandstorm::tui::main_view::LayoutMode;
use sandstorm::tui::text_wrapper::StaticString;
use sandstorm::tui::ui_element::{HandleEventStatus, KeyCode, KeyInput, PassFocusDirection};

fn press(code: KeyCode) -> KeyInput {
    KeyInput { code, is_release: false, shift: false, control: false }
}

struct Answer {
    presses: usize,
    result: OnEnterResult,
}

impl ButtonHandler for Answer {
    fn on_pressed(&mut self) -> OnEnterResult {
        self.presses += 1;
        self.result
    }
}

fn button(result: OnEnterResult) -> CenteredButton<Answer> {
    let mut b = CenteredButton::new(StaticString::Static("[expand graph (g)]"), Some('G'), Answer { presses: 0, result });
    b.resize(10, 3, 30);
    b
}

#[test]
fn button_shortcut_ignores_case_and_focus() {
    let mut b = button(OnEnterResult::Unhandled);
    assert_eq!(b.handle_event(press(KeyCode::Char('g')), false), HandleEventStatus::Handled);
    assert_eq!(b.handle_event(press(KeyCode::Char('G')), false), HandleEventStatus::Handled);
    assert_eq!(b.handle_event(press(KeyCode::Char('q')), true), HandleEventStatus::Unhandled);
    assert_eq!(b.handler.presses, 2);
}

#[test]
fn button_enter_reports_the_handler_answer() {
    let mut b = button(OnEnterResult::Handled);
    assert_eq!(b.handle_event(press(KeyCode::Enter), false), HandleEventStatus::Unhandled);
    assert!(b.receive_focus((0, 0)));
    assert!(b.is_focused());
    assert_eq!(b.handle_event(press(KeyCode::Enter), true), HandleEventStatus::Handled);
    let mut b = button(OnEnterResult::PassFocus(PassFocusDirection::Away));
    assert_eq!(b.handle_event(press(KeyCode::Enter), true), HandleEventStatus::PassFocus((10, 3), PassFocusDirection::Away));
    assert_eq!(b.handler.presses, 1);
}

#[test]
fn button_arrows_pass_the_focus() {
    let mut b = button(OnEnterResult::Handled);
    assert_eq!(b.handle_event(press(KeyCode::Tab), true), HandleEventStatus::PassFocus((10, 3), PassFocusDirection::Forward));
    assert_eq!(b.handle_event(press(KeyCode::Up), true), HandleEventStatus::PassFocus((10, 3), PassFocusDirection::Up));
    assert_eq!(b.handle_event(press(KeyCode::Esc), true), HandleEventStatus::PassFocus((10, 3), PassFocusDirection::Away));
    assert_eq!(b.handle_event(press(KeyCode::Backspace), true), HandleEventStatus::Unhandled);
    assert_eq!(b.handler.presses, 0);
}

#[test]
fn button_size_and_text_position() {
    let mut b = button(OnEnterResult::Handled);
    assert_eq!(b.begin_resize(100, 5), (18, 1));
    assert_eq!(b.begin_resize(7, 5), (7, 1));
    assert_eq!(b.text_x(10, 30), 16);
    assert_eq!(b.text_x(10, 5), 10);
    b.set_text_no_redraw(StaticString::Static("[return to main view (q)]"));
    b.set_shortcut(Some('q'));
    assert_eq!(b.begin_resize(100, 5), (25, 1));
    assert_eq!(b.handle_event(press(KeyCode::Char('g')), false), HandleEventStatus::Unhandled);
    assert_eq!(b.handle_event(press(KeyCode::Char('Q')), false), HandleEventStatus::Handled);
    assert_eq!(b.text().as_str(), "[return to main view (q)]");
}

#[test]
fn horizontal_split_areas() {
    let area = Area { x: 5, y: 2, width: 40, height: 3 };
    let (left, right) = split_areas(SplitAxis::Horizontal, area, 16, 1);
    assert_eq!(left, Area { x: 5, y: 2, width: 16, height: 3 });
    assert_eq!(right, Area { x: 22, y: 2, width: 23, height: 3 });
    let (left, right) = split_areas(SplitAxis::Horizontal, Area { x: 0, y: 0, width: 10, height: 1 }, 16, 1);
    assert_eq!(left.width, 10);
    assert_eq!(right.width, 0);
}

#[test]
fn vertical_split_areas() {
    let area = Area { x: 0, y: 1, width: 20, height: 10 };
    let (upper, lower) = split_areas(SplitAxis::Vertical, area, 3, 1);
    assert_eq!(upper, Area { x: 0, y: 1, width: 20, height: 3 });
    assert_eq!(lower, Area { x: 0, y: 5, width: 20, height: 6 });
}

#[test]
fn split_sizes() {
    assert_eq!(second_offer(SplitAxis::Horizontal, 40, 1, (16, 1), 1), Some((23, 1)));
    assert_eq!(second_offer(SplitAxis::Horizontal, 17, 1, (16, 1), 1), None);
    assert_eq!(second_offer(SplitAxis::Vertical, 20, 10, (20, 3), 1), Some((20, 6)));
    assert_eq!(split_request(SplitAxis::Horizontal, 40, 1, (16, 1), (18, 1), 1), (35, 1));
    assert_eq!(split_request(SplitAxis::Horizontal, 30, 1, (16, 1), (13, 2), 1), (30, 2));
    assert_eq!(split_request(SplitAxis::Vertical, 50, 4, (10, 2), (30, 5), 1), (30, 4));
    assert_eq!(split_request(SplitAxis::Horizontal, 65535, 1, (65535, 1), (10, 1), 1), (65535, 1));
}

#[test]
fn split_offers_the_focus_to_the_nearer_half() {
    let area = Area { x: 5, y: 2, width: 40, height: 3 };
    assert_eq!(first_offered(SplitAxis::Horizontal, (21, 0), area, 16, 1), SplitHalf::First);
    assert_eq!(first_offered(SplitAxis::Horizontal, (22, 0), area, 16, 1), SplitHalf::Second);
    assert_eq!(first_offered(SplitAxis::Vertical, (0, 5), area, 3, 1), SplitHalf::First);
    assert_eq!(first_offered(SplitAxis::Vertical, (0, 6), area, 3, 1), SplitHalf::Second);
}

#[test]
fn split_moves_the_focus_between_halves() {
    assert_eq!(after_focused(SplitHalf::First, HandleEventStatus::Unhandled), SplitStep::AskOther);
    assert_eq!(
        after_focused(SplitHalf::First, HandleEventStatus::PassFocus((3, 4), PassFocusDirection::Forward)),
        SplitStep::OfferOther((3, 4))
    );
    assert_eq!(
        after_focused(SplitHalf::First, HandleEventStatus::PassFocus((3, 4), PassFocusDirection::Down)),
        SplitStep::OfferOther((3, 4))
    );
    assert_eq!(
        after_focused(SplitHalf::First, HandleEventStatus::PassFocus((3, 4), PassFocusDirection::Up)),
        SplitStep::Answer(HandleEventStatus::PassFocus((3, 4), PassFocusDirection::Up))
    );
    assert_eq!(
        after_focused(SplitHalf::Second, HandleEventStatus::PassFocus((3, 4), PassFocusDirection::Up)),
        SplitStep::OfferOther((3, 4))
    );
    assert_eq!(
        after_focused(SplitHalf::Second, HandleEventStatus::PassFocus((3, 4), PassFocusDirection::Away)),
        SplitStep::Answer(HandleEventStatus::PassFocus((3, 4), PassFocusDirection::Away))
    );
    assert_eq!(after_focused(SplitHalf::Second, HandleEventStatus::Handled), SplitStep::Answer(HandleEventStatus::Handled));
}

#[test]
fn focus_cell_keeps_the_focus_let_go() {
    let area = Area { x: 4, y: 7, width: 20, height: 1 };
    assert_eq!(
        focus_cell_step(HandleEventStatus::PassFocus((9, 9), PassFocusDirection::Away), press(KeyCode::Esc), area),
        FocusCellStep::KeepFocus
    );
    assert_eq!(focus_cell_step(HandleEventStatus::Unhandled, press(KeyCode::Left), area), FocusCellStep::OfferInner((24, 0)));
    assert_eq!(focus_cell_step(HandleEventStatus::Unhandled, press(KeyCode::Tab), area), FocusCellStep::OfferInner((4, 0)));
    assert_eq!(
        focus_cell_step(HandleEventStatus::Unhandled, press(KeyCode::Enter), area),
        FocusCellStep::Answer(HandleEventStatus::Unhandled)
    );
    assert_eq!(
        focus_cell_step(HandleEventStatus::PassFocus((1, 1), PassFocusDirection::Left), press(KeyCode::Left), area),
        FocusCellStep::Answer(HandleEventStatus::PassFocus((1, 1), PassFocusDirection::Left))
    );
    let released = KeyInput { code: KeyCode::Left, is_release: true, shift: false, control: false };
    assert_eq!(focus_cell_step(HandleEventStatus::Unhandled, released, area), FocusCellStep::Answer(HandleEventStatus::Unhandled));
}

fn area(x: u16, y: u16, width: u16, height: u16) -> Area {
    Area { x, y, width, height }
}

#[test]
fn main_view_full_layout_puts_graph_and_metrics_right_of_logs() {
    let r = distribute_areas(area(0, 0, 100, 30), 5);
    assert_eq!(r.layout_mode, LayoutMode::Full);
    assert_eq!(r.log_block, area(0, 0, 50, 30));
    assert_eq!(r.client_activity_line, area(51, 0, 49, 1));
    assert_eq!(r.graph_precision_line, area(51, 1, 49, 1));
    assert_eq!(r.usage_graph, area(51, 3, 49, 20));
    assert_eq!(r.metrics_display, area(51, 24, 49, 6));
    let fitted = fit_lines(r, 30, 40);
    assert_eq!(fitted.client_activity_line, area(60, 0, 30, 1));
    assert_eq!(fitted.graph_precision_line, area(60, 1, 40, 1));
    assert_eq!(fitted.usage_graph, r.usage_graph);
}

#[test]
fn main_view_full_layout_without_metrics_when_too_low() {
    let r = distribute_areas(area(0, 0, 100, 12), 5);
    assert_eq!(r.layout_mode, LayoutMode::Full);
    assert_eq!(r.metrics_display, area(0, 0, 0, 0));
    assert_eq!(r.usage_graph, area(51, 3, 49, 9));
}

#[test]
fn main_view_logs_only_when_right_side_too_narrow() {
    let r = distribute_areas(area(0, 0, 60, 20), 5);
    assert_eq!(r.layout_mode, LayoutMode::LogsOnly);
    assert_eq!(r.client_activity_line, area(0, 0, 60, 1));
    assert_eq!(r.log_block, area(0, 2, 60, 18));
    assert_eq!(r.usage_graph, area(0, 0, 0, 0));
    let fitted = fit_lines(r, 20, 0);
    assert_eq!(fitted.client_activity_line, area(20, 0, 20, 1));
}

#[test]
fn main_view_empty_area_shows_nothing() {
    let r = distribute_areas(area(3, 4, 0, 10), 5);
    assert_eq!(r.layout_mode, LayoutMode::Full);
    assert_eq!(r.log_block, area(0, 0, 0, 0));
    assert_eq!(r.client_activity_line, area(0, 0, 0, 0));
}

#[test]
fn main_view_expanded_layout() {
    let r = distribute_areas_expanded(area(0, 0, 80, 24));
    assert_eq!(r.layout_mode, LayoutMode::GraphExpanded);
    assert_eq!(r.client_activity_line, area(1, 0, 78, 1));
    assert_eq!(r.usage_graph, area(1, 2, 78, 22));
    let fitted = fit_lines(r, 30, 0);
    assert_eq!(fitted.client_activity_line, area(1, 0, 30, 1));
    assert_eq!(fitted.graph_precision_line, area(34, 0, 45, 1));
    let small = distribute_areas_expanded(area(0, 0, 12, 5));
    assert_eq!(small.usage_graph, area(0, 0, 0, 0));
    assert_eq!(small.client_activity_line, area(0, 0, 0, 0));
}
