//! The main view as a whole: the log block, the expand button and the graph precision
//! selector, which of them has the focus, and how key presses and the focus move between them.

use vstd::prelude::*;

use crate::tui::elements::arrow_selector::ArrowSelector;
use crate::tui::elements::centered_button::{ButtonHandler, CenteredButton};
use crate::tui::elements::split::Area;
use crate::tui::elements::OnEnterResult;
use crate::tui::text_wrapper::StaticString;
use crate::tui::log_block::LogBlock;
use crate::tui::main_view::areas::MainViewAreas;
use crate::tui::main_view::colored_logs::Event;
use crate::tui::main_view::{
    focus_candidates, focus_walk, precision_at, precision_label, receive_order, receive_order_spec, FocusedElement,
    GraphPrecisionOption, LayoutMode, PrecisionSelectorHandler,
};
use crate::tui::ui_element::{HandleEventStatus, KeyInput};

verus! {

/// The label of the line above the usage graph.
pub const CLIENT_ACTIVITY_LABEL: &'static str = "Client Activity";

/// The text of the button that expands the graph, and its shortcut key.
pub const EXPAND_GRAPH_LABEL: &'static str = "[expand graph (g)]";
pub const EXPAND_GRAPH_SHORTCUT: char = 'g';

/// The text of the button that returns from the expanded graph, and its shortcut key.
pub const RETURN_TO_MAIN_VIEW_LABEL: &'static str = "[return to main view (q)]";
pub const RETURN_TO_MAIN_VIEW_SHORTCUT: char = 'q';

/// The label before the precision selector, and the text after it.
pub const GRAPH_PRECISION_LABEL: &'static str = "Graph precision:";
pub const PRECISION_SELECTOR_AFTER_TEXT: &'static str = "[change (1/2/3...9)]";

/// What the expand button does: it asks for the graph to be expanded, or brought back.
#[derive(Debug, Clone, Copy, PartialEq, Eq, Structural)]
pub struct ExpandButtonHandler {
    pub toggle_requested: bool,
}

impl ButtonHandler for ExpandButtonHandler {
    /// Pressing the button asks for the layout to be toggled.
    fn on_pressed(&mut self) -> (r: OnEnterResult)
        ensures
            r == OnEnterResult::Handled,
            final(self).toggle_requested,
    {
        self.toggle_requested = true;
        OnEnterResult::Handled
    }
}

/// The options of the precision selector, in order, each with its digit key: `'1'` for the
/// first up to `'9'` for the last.
pub fn precision_options() -> (v: Vec<(StaticString, Option<char>)>)
    ensures
        v@.len() == 9,
        forall|i: int|
            0 <= i < 9 ==> precision_at(i) is Some && (#[trigger] v@[i]).0@ == precision_label(precision_at(i)->0)
                && v@[i].1 == Some(((i + 49) as u8) as char),
{
    let mut v: Vec<(StaticString, Option<char>)> = Vec::new();
    let mut i: u8 = 0;
    while i < 9
        invariant
            i <= 9,
            v@.len() == i,
            forall|j: int|
                0 <= j < i ==> precision_at(j) is Some && (#[trigger] v@[j]).0@ == precision_label(precision_at(j)->0)
                    && v@[j].1 == Some(((j + 49) as u8) as char),
        decreases 9 - i,
    {
        let option = GraphPrecisionOption::from_index(i);
        assert(precision_at(i as int) is Some);
        if let Some(p) = option {
            let key: char = (i + 49) as char;
            v.push((StaticString::Static(p.to_str()), Some(key)));
        }
        i = i + 1;
    }
    v
}

/// Whether a part of the main view takes the focus when offered it: the log block only when it
/// holds an event, the button and the selector always.
pub open spec fn accepts_focus(e: FocusedElement, log_has_events: bool) -> bool {
    match e {
        FocusedElement::LogBlock => log_has_events,
        _ => true,
    }
}

/// The first of the parts, in order, that takes the focus, if any does.
pub open spec fn first_accepting(parts: Seq<FocusedElement>, log_has_events: bool) -> Option<FocusedElement>
    decreases parts.len(),
{
    if parts.len() == 0 {
        None
    } else if accepts_focus(parts[0], log_has_events) {
        Some(parts[0])
    } else {
        first_accepting(parts.drop_first(), log_has_events)
    }
}

/// The column just past an area, at most the largest `u16`.
pub open spec fn right_edge(a: Area) -> u16 {
    if a.x + a.width <= u16::MAX {
        (a.x + a.width) as u16
    } else {
        u16::MAX
    }
}

fn right_edge_exec(a: Area) -> (r: u16)
    ensures
        r == right_edge(a),
{
    a.x.saturating_add(a.width)
}

/// The main view.
pub struct MainView<B: ButtonHandler> {
    pub log_block: LogBlock,
    pub expand_button: CenteredButton<B>,
    pub precision_selector: ArrowSelector<PrecisionSelectorHandler>,
    pub areas: MainViewAreas,
    pub focused_element: FocusedElement,
    pub is_focused: bool,
    pub graph_expanded: bool,
}

impl<B: ButtonHandler> MainView<B> {
    /// The log block keeps its events in step with its list and stands within the screen, and
    /// the selector has an option.
    pub open spec fn wf(&self) -> bool {
        &&& self.log_block.wf()
        &&& self.log_block.list.area_ok()
        &&& self.precision_selector.wf()
    }

    /// Whether the log block holds an event.
    pub open spec fn log_has_events(&self) -> bool {
        self.log_block.history().len() > 0
    }

    /// A main view over an empty log block whose timestamps are shown at the given UTC offset
    /// (in seconds east of UTC), laid out in full with no area yet, and not focused.
    pub fn new(
        utc_offset_seconds: i32,
        expand_button: CenteredButton<B>,
        precision_selector: ArrowSelector<PrecisionSelectorHandler>,
        areas: MainViewAreas,
    ) -> (v: Self)
        requires
            precision_selector.wf(),
        ensures
            v.wf(),
            v.log_block.history().len() == 0,
            v.areas == areas,
            v.focused_element == FocusedElement::LogBlock,
            !v.is_focused,
            !v.graph_expanded,
    {
        Self {
            log_block: LogBlock::new(utc_offset_seconds),
            expand_button,
            precision_selector,
            areas,
            focused_element: FocusedElement::LogBlock,
            is_focused: false,
            graph_expanded: false,
        }
    }

    /// Adds an event of the stream to the log block.
    pub fn new_stream_event(&mut self, event: Event)
        requires
            old(self).wf(),
        ensures
            final(self).wf(),
            final(self).log_has_events(),
            final(self).areas == old(self).areas,
            final(self).focused_element == old(self).focused_element,
            final(self).is_focused == old(self).is_focused,
    {
        self.log_block.new_stream_event(event);
    }

    /// Offers the focus to one part, from the given position.
    fn offer_focus(&mut self, e: FocusedElement, focus_position: (u16, u16)) -> (accepted: bool)
        requires
            old(self).wf(),
        ensures
            final(self).wf(),
            accepted == accepts_focus(e, old(self).log_has_events()),
            final(self).log_block.history() == old(self).log_block.history(),
            final(self).areas == old(self).areas,
            final(self).focused_element == old(self).focused_element,
            final(self).is_focused == old(self).is_focused,
    {
        match e {
            FocusedElement::LogBlock => self.log_block.list.receive_focus(),
            FocusedElement::ExpandButton => self.expand_button.receive_focus(focus_position),
            FocusedElement::PrecisionSelector => self.precision_selector.receive_focus(),
        }
    }

    /// Takes the focus away from one part.
    fn take_focus_from(&mut self, e: FocusedElement)
        requires
            old(self).wf(),
        ensures
            final(self).wf(),
            final(self).log_block.history() == old(self).log_block.history(),
            final(self).areas == old(self).areas,
            final(self).focused_element == old(self).focused_element,
            final(self).is_focused == old(self).is_focused,
    {
        match e {
            FocusedElement::LogBlock => self.log_block.list.focus_lost(),
            FocusedElement::ExpandButton => self.expand_button.focus_lost(),
            FocusedElement::PrecisionSelector => self.precision_selector.focus_lost(),
        }
    }

    /// Offers the focus to the parts in order until one takes it, and says which did.
    fn offer_in_order(&mut self, parts: &Vec<FocusedElement>, focus_position: (u16, u16)) -> (taken: Option<
        FocusedElement,
    >)
        requires
            old(self).wf(),
        ensures
            final(self).wf(),
            taken == first_accepting(parts@, old(self).log_has_events()),
            final(self).log_block.history() == old(self).log_block.history(),
            final(self).areas == old(self).areas,
            final(self).focused_element == old(self).focused_element,
            final(self).is_focused == old(self).is_focused,
    {
        let ghost has = self.log_has_events();
        let mut i: usize = 0;
        assert(parts@.subrange(0, parts@.len() as int) =~= parts@);
        while i < parts.len()
            invariant
                self.wf(),
                i <= parts@.len(),
                has == old(self).log_has_events(),
                self.log_block.history() == old(self).log_block.history(),
                self.areas == old(self).areas,
                self.focused_element == old(self).focused_element,
                self.is_focused == old(self).is_focused,
                first_accepting(parts@, has) == first_accepting(parts@.subrange(i as int, parts@.len() as int), has),
            decreases parts@.len() - i,
        {
            let ghost rest = parts@.subrange(i as int, parts@.len() as int);
            assert(rest[0] == parts@[i as int]);
            assert(rest.drop_first() =~= parts@.subrange(i + 1, parts@.len() as int));
            let e = parts[i];
            if self.offer_focus(e, focus_position) {
                return Some(e);
            }
            i = i + 1;
        }
        None
    }

    /// What the main view does with the answer of its focused part: when that part passes the
    /// focus on, the focus goes to the first part, walking from it in the direction asked, that
    /// takes it, and the event is handled; when none takes it the answer stands. Any other
    /// answer stands as it is.
    pub fn route_status(&mut self, status: HandleEventStatus) -> (r: HandleEventStatus)
        requires
            old(self).wf(),
        ensures
            final(self).wf(),
            final(self).log_block.history() == old(self).log_block.history(),
            final(self).areas == old(self).areas,
            final(self).is_focused == old(self).is_focused,
            match status {
                HandleEventStatus::PassFocus(_, direction) => match first_accepting(
                    focus_walk(old(self).focused_element, direction, old(self).areas.layout_mode, 2),
                    old(self).log_has_events(),
                ) {
                    Some(e) => r == HandleEventStatus::Handled && final(self).focused_element == e,
                    None => r == status && final(self).focused_element == old(self).focused_element,
                },
                _ => r == status && final(self).focused_element == old(self).focused_element,
            },
    {
        match status {
            HandleEventStatus::PassFocus(focus_position, direction) => {
                let parts = focus_candidates(self.focused_element, direction, self.areas.layout_mode);
                match self.offer_in_order(&parts, focus_position) {
                    Some(e) => {
                        let previous = self.focused_element;
                        self.take_focus_from(previous);
                        self.focused_element = e;
                        HandleEventStatus::Handled
                    },
                    None => status,
                }
            },
            _ => status,
        }
    }

    /// Handles a key press: the focused part has it first, and the main view routes the focus
    /// as it asks (see `route_status`); a key the focused part leaves unhandled, or any key
    /// while the view is not focused, is offered to the log block, the expand button and the
    /// selector in turn, as to parts that are not focused.
    pub fn handle_key_event(&mut self, key: KeyInput, is_focused: bool) -> (status: HandleEventStatus)
        requires
            old(self).wf(),
        ensures
            final(self).wf(),
            final(self).log_block.history() == old(self).log_block.history(),
            final(self).areas == old(self).areas,
            final(self).is_focused == old(self).is_focused,
            !is_focused ==> final(self).focused_element == old(self).focused_element,
    {
        if is_focused {
            let first = match self.focused_element {
                FocusedElement::LogBlock => self.log_block.list.handle_key_event(key, true),
                FocusedElement::ExpandButton => self.expand_button.handle_event(key, true),
                FocusedElement::PrecisionSelector => self.precision_selector.handle_event(key, true),
            };
            match first {
                HandleEventStatus::Unhandled => {},
                _ => {
                    return self.route_status(first);
                },
            }
        }
        let from_log = self.log_block.list.handle_key_event(key, false);
        match from_log {
            HandleEventStatus::Unhandled => {},
            _ => {
                return from_log;
            },
        }
        let from_button = self.expand_button.handle_event(key, false);
        match from_button {
            HandleEventStatus::Unhandled => {},
            _ => {
                return from_button;
            },
        }
        self.precision_selector.handle_event(key, false)
    }

    /// Takes the focus coming from a position: the parts are offered it in the order that
    /// position gives (see `receive_order_spec`), and the first that takes it is focused. The
    /// expand button always takes it.
    pub fn receive_focus(&mut self, focus_position: (u16, u16)) -> (accepted: bool)
        requires
            old(self).wf(),
            old(self).areas.layout_mode == LayoutMode::GraphExpanded ==> right_edge(
                old(self).areas.client_activity_line,
            ) + 2 <= u16::MAX,
        ensures
            final(self).wf(),
            final(self).log_block.history() == old(self).log_block.history(),
            final(self).areas == old(self).areas,
            match first_accepting(
                receive_order_spec(
                    old(self).areas.layout_mode,
                    focus_position,
                    right_edge(old(self).areas.log_block),
                    old(self).areas.log_block.y,
                    right_edge(old(self).areas.client_activity_line),
                    old(self).areas.client_activity_line.y,
                ),
                old(self).log_has_events(),
            ) {
                Some(e) => accepted && final(self).is_focused && final(self).focused_element == e,
                None => !accepted && !final(self).is_focused && final(self).focused_element
                    == old(self).focused_element,
            },
    {
        let order = receive_order(
            self.areas.layout_mode,
            focus_position,
            right_edge_exec(self.areas.log_block),
            self.areas.log_block.y,
            right_edge_exec(self.areas.client_activity_line),
            self.areas.client_activity_line.y,
        );
        match self.offer_in_order(&order, focus_position) {
            Some(e) => {
                self.focused_element = e;
                self.is_focused = true;
                true
            },
            None => {
                self.is_focused = false;
                false
            },
        }
    }

    /// Drops the focus, taking it from the focused part.
    pub fn focus_lost(&mut self)
        requires
            old(self).wf(),
        ensures
            final(self).wf(),
            !final(self).is_focused,
            final(self).focused_element == old(self).focused_element,
            final(self).log_block.history() == old(self).log_block.history(),
            final(self).areas == old(self).areas,
    {
        self.is_focused = false;
        let e = self.focused_element;
        self.take_focus_from(e);
    }
}

impl MainView<ExpandButtonHandler> {
    /// When the expand button was pressed, toggles whether the graph is expanded and turns the
    /// button into the other one (expand, or return to the main view); answers whether it did.
    pub fn take_expand_request(&mut self) -> (toggled: bool)
        requires
            old(self).wf(),
        ensures
            final(self).wf(),
            toggled == old(self).expand_button.spec_handler().toggle_requested,
            !final(self).expand_button.spec_handler().toggle_requested,
            final(self).graph_expanded == (old(self).graph_expanded != toggled),
            toggled ==> final(self).expand_button.spec_text() == (if final(self).graph_expanded {
                RETURN_TO_MAIN_VIEW_LABEL@
            } else {
                EXPAND_GRAPH_LABEL@
            }),
            toggled ==> final(self).expand_button.spec_shortcut() == Some(if final(self).graph_expanded {
                RETURN_TO_MAIN_VIEW_SHORTCUT
            } else {
                EXPAND_GRAPH_SHORTCUT
            }),
            final(self).log_block.history() == old(self).log_block.history(),
            final(self).areas == old(self).areas,
            final(self).focused_element == old(self).focused_element,
            final(self).is_focused == old(self).is_focused,
    {
        if !self.expand_button.handler().toggle_requested {
            return false;
        }
        self.expand_button.set_handler(ExpandButtonHandler { toggle_requested: false });
        self.graph_expanded = !self.graph_expanded;
        if self.graph_expanded {
            self.expand_button.set_text_no_redraw(StaticString::Static(RETURN_TO_MAIN_VIEW_LABEL));
            self.expand_button.set_shortcut(Some(RETURN_TO_MAIN_VIEW_SHORTCUT));
        } else {
            self.expand_button.set_text_no_redraw(StaticString::Static(EXPAND_GRAPH_LABEL));
            self.expand_button.set_shortcut(Some(EXPAND_GRAPH_SHORTCUT));
        }
        true
    }
}

} // verus!
