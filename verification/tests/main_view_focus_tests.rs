use sandstorm::tui::elements::arrow_selector::ArrowSelector;
use sandstorm::tui::elements::centered_button::CenteredButton;
use sandstorm::tui::elements::split::Area;
use sandstorm::tui::main_view::areas::distribute_areas;
use sandstorm::tui::main_view::colored_logs::{Event, EventData};
use sandstorm::tui::main_view::view::{
    precision_options, ExpandButtonHandler, MainView, EXPAND_GRAPH_LABEL, EXPAND_GRAPH_SHORTCUT,
    PRECISION_SELECTOR_AFTER_TEXT, RETURN_TO_MAIN_VIEW_LABEL,
};
use sandstorm::tui::main_view::{FocusedElement, GraphPrecisionOption, LayoutMode, PrecisionSelectorHandler};
use sandstorm::tui::text_wrapper::StaticString;
use sandstorm::tui::ui_element::{HandleEventStatus, KeyCode, KeyInput, PassFocusDirection};

fn new_view() -> MainView<ExpandButtonHandler> {
    let button = CenteredButton::new(
        StaticString::Static(EXPAND_GRAPH_LABEL),
        Some(EXPAND_GRAPH_SHORTCUT),
        ExpandButtonHandler { toggle_requested: false },
    );
    let selector = ArrowSelector::new(
        precision_options(),
        0,
        StaticString::Static(PRECISION_SELECTOR_AFTER_TEXT),
        false,
        PrecisionSelectorHandler::new(GraphPrecisionOption::default()),
    );
    let areas = distribute_areas(Area { x: 0, y: 0, width: 120, height: 40 }, 0);
    MainView::new(0, button, selector, areas)
}

fn key(code: KeyCode) -> KeyInput {
    KeyInput { code, is_release: false, shift: false, control: false }
}

#[test]
fn an_empty_log_block_refuses_the_focus() {
    let mut view = new_view();
    assert_eq!(view.areas.layout_mode, LayoutMode::Full);
    assert!(view.receive_focus((0, 0)));
    assert!(view.is_focused);
    assert_eq!(view.focused_element, FocusedElement::ExpandButton);

    let status = HandleEventStatus::PassFocus((0, 0), PassFocusDirection::Left);
    assert_eq!(view.route_status(status), status);
    assert_eq!(view.focused_element, FocusedElement::ExpandButton);

    view.new_stream_event(Event { timestamp: 0, data: EventData::ShutdownSignalReceived });
    assert_eq!(view.route_status(status), HandleEventStatus::Handled);
    assert_eq!(view.focused_element, FocusedElement::LogBlock);
    assert_eq!(view.route_status(HandleEventStatus::Unhandled), HandleEventStatus::Unhandled);
}

#[test]
fn the_expand_shortcut_toggles_the_graph() {
    let mut view = new_view();
    assert!(!view.take_expand_request());
    assert_eq!(view.handle_key_event(key(KeyCode::Char('G')), false), HandleEventStatus::Handled);
    assert!(view.take_expand_request());
    assert!(view.graph_expanded);
    assert_eq!(view.expand_button.text().as_str(), RETURN_TO_MAIN_VIEW_LABEL);
    assert_eq!(view.handle_key_event(key(KeyCode::Char('q')), false), HandleEventStatus::Handled);
    assert!(view.take_expand_request());
    assert!(!view.graph_expanded);
    assert_eq!(view.expand_button.text().as_str(), EXPAND_GRAPH_LABEL);
}

#[test]
fn precision_options_are_keyed_by_digit() {
    let options = precision_options();
    assert_eq!(options.len(), 9);
    assert_eq!(options[0].0.as_str(), "1s");
    assert_eq!(options[0].1, Some('1'));
    assert_eq!(options[8].0.as_str(), "10m");
    assert_eq!(options[8].1, Some('9'));
}

#[test]
fn the_selector_digit_sets_the_precision() {
    let mut view = new_view();
    assert_eq!(view.handle_key_event(key(KeyCode::Char('4')), false), HandleEventStatus::Handled);
    assert_eq!(view.precision_selector.handler.precision, GraphPrecisionOption::TenSeconds);
}
