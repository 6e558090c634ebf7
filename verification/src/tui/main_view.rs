//! The main view: focus navigation between its parts, the graph precision options, the usage
//! graph's axis and the usage history.

use vstd::prelude::*;

use crate::tui::elements::arrow_selector::ArrowSelectorHandler;
use crate::tui::ui_element::PassFocusDirection;

pub mod areas;
pub mod colored_logs;
pub mod horizontal_axis;
pub mod metrics_display;
pub mod usage_graph;
pub mod usage_tracker;
pub mod view;

verus! {

/// How the main view is laid out.
#[derive(Debug, Clone, Copy, PartialEq, Eq, Structural)]
pub enum LayoutMode {
    Full,
    LogsOnly,
    GraphExpanded,
}

/// The parts of the main view that can hold the focus.
#[derive(Debug, Clone, Copy, PartialEq, Eq, Structural)]
pub enum FocusedElement {
    LogBlock,
    ExpandButton,
    PrecisionSelector,
}

impl FocusedElement {
    /// Whether this part is shown in the given layout.
    pub fn is_visible_in(self, layout_mode: LayoutMode) -> (r: bool)
        ensures
            r == !((layout_mode == LayoutMode::LogsOnly && self == FocusedElement::PrecisionSelector) || (
            layout_mode == LayoutMode::GraphExpanded && self == FocusedElement::LogBlock)),
    {
        match layout_mode {
            LayoutMode::Full => match self {
                Self::LogBlock => true,
                Self::ExpandButton => true,
                Self::PrecisionSelector => true,
            },
            LayoutMode::LogsOnly => match self {
                Self::LogBlock => true,
                Self::ExpandButton => true,
                Self::PrecisionSelector => false,
            },
            LayoutMode::GraphExpanded => match self {
                Self::LogBlock => false,
                Self::ExpandButton => true,
                Self::PrecisionSelector => true,
            },
        }
    }

    /// The part above this one, if any.
    pub fn up(self, layout_mode: LayoutMode) -> (r: Option<Self>)
        ensures
            r == up_spec(self, layout_mode),
    {
        match layout_mode {
            LayoutMode::Full => match self {
                Self::LogBlock | Self::ExpandButton => None,
                Self::PrecisionSelector => Some(Self::ExpandButton),
            },
            LayoutMode::LogsOnly => match self {
                Self::LogBlock | Self::PrecisionSelector => Some(Self::ExpandButton),
                Self::ExpandButton => None,
            },
            LayoutMode::GraphExpanded => match self {
                Self::LogBlock | Self::ExpandButton | Self::PrecisionSelector => None,
            },
        }
    }

    /// The part below this one, if any.
    pub fn down(self, layout_mode: LayoutMode) -> (r: Option<Self>)
        ensures
            r == down_spec(self, layout_mode),
    {
        match layout_mode {
            LayoutMode::Full => match self {
                Self::LogBlock | Self::PrecisionSelector => None,
                Self::ExpandButton => Some(Self::PrecisionSelector),
            },
            LayoutMode::LogsOnly => match self {
                Self::LogBlock => None,
                Self::ExpandButton | Self::PrecisionSelector => Some(Self::LogBlock),
            },
            LayoutMode::GraphExpanded => match self {
                Self::LogBlock | Self::ExpandButton | Self::PrecisionSelector => None,
            },
        }
    }

    /// The part to the left of this one, if any.
    pub fn left(self, layout_mode: LayoutMode) -> (r: Option<Self>)
        ensures
            r == left_spec(self, layout_mode),
    {
        match layout_mode {
            LayoutMode::Full => match self {
                Self::LogBlock => None,
                Self::ExpandButton | Self::PrecisionSelector => Some(Self::LogBlock),
            },
            LayoutMode::LogsOnly => match self {
                Self::LogBlock | Self::ExpandButton | Self::PrecisionSelector => None,
            },
            LayoutMode::GraphExpanded => match self {
                Self::LogBlock | Self::ExpandButton => None,
                Self::PrecisionSelector => Some(Self::ExpandButton),
            },
        }
    }

    /// The part to the right of this one, if any.
    pub fn right(self, layout_mode: LayoutMode) -> (r: Option<Self>)
        ensures
            r == right_spec(self, layout_mode),
    {
        match layout_mode {
            LayoutMode::Full => match self {
                Self::LogBlock => Some(Self::PrecisionSelector),
                Self::ExpandButton | Self::PrecisionSelector => None,
            },
            LayoutMode::LogsOnly => match self {
                Self::LogBlock | Self::ExpandButton | Self::PrecisionSelector => None,
            },
            LayoutMode::GraphExpanded => match self {
                Self::LogBlock | Self::PrecisionSelector => None,
                Self::ExpandButton => Some(Self::PrecisionSelector),
            },
        }
    }

    /// The next part in TAB order, if any.
    pub fn forward(self, layout_mode: LayoutMode) -> (r: Option<Self>)
        ensures
            r == forward_spec(self, layout_mode),
    {
        match layout_mode {
            LayoutMode::Full => match self {
                Self::LogBlock => Some(Self::ExpandButton),
                Self::ExpandButton => Some(Self::PrecisionSelector),
                Self::PrecisionSelector => None,
            },
            LayoutMode::LogsOnly => match self {
                Self::LogBlock => None,
                Self::ExpandButton | Self::PrecisionSelector => Some(Self::LogBlock),
            },
            LayoutMode::GraphExpanded => match self {
                Self::LogBlock | Self::PrecisionSelector => None,
                Self::ExpandButton => Some(Self::PrecisionSelector),
            },
        }
    }
}

/// Upwards: in the full layout from the precision selector to the expand button; with only
/// logs, from the other parts to the expand button.
pub open spec fn up_spec(e: FocusedElement, l: LayoutMode) -> Option<FocusedElement> {
    match (l, e) {
        (LayoutMode::Full, FocusedElement::PrecisionSelector) => Some(FocusedElement::ExpandButton),
        (LayoutMode::LogsOnly, FocusedElement::LogBlock) => Some(FocusedElement::ExpandButton),
        (LayoutMode::LogsOnly, FocusedElement::PrecisionSelector) => Some(FocusedElement::ExpandButton),
        _ => None,
    }
}

/// Downwards: in the full layout from the expand button to the precision selector; with only
/// logs, from the other parts to the log block.
pub open spec fn down_spec(e: FocusedElement, l: LayoutMode) -> Option<FocusedElement> {
    match (l, e) {
        (LayoutMode::Full, FocusedElement::ExpandButton) => Some(FocusedElement::PrecisionSelector),
        (LayoutMode::LogsOnly, FocusedElement::ExpandButton) => Some(FocusedElement::LogBlock),
        (LayoutMode::LogsOnly, FocusedElement::PrecisionSelector) => Some(FocusedElement::LogBlock),
        _ => None,
    }
}

/// Leftwards: in the full layout to the log block; with the graph expanded, from the precision
/// selector to the expand button.
pub open spec fn left_spec(e: FocusedElement, l: LayoutMode) -> Option<FocusedElement> {
    match (l, e) {
        (LayoutMode::Full, FocusedElement::ExpandButton) => Some(FocusedElement::LogBlock),
        (LayoutMode::Full, FocusedElement::PrecisionSelector) => Some(FocusedElement::LogBlock),
        (LayoutMode::GraphExpanded, FocusedElement::PrecisionSelector) => Some(FocusedElement::ExpandButton),
        _ => None,
    }
}

/// Rightwards: in the full layout from the log block to the precision selector; with the
/// graph expanded, from the expand button to the precision selector.
pub open spec fn right_spec(e: FocusedElement, l: LayoutMode) -> Option<FocusedElement> {
    match (l, e) {
        (LayoutMode::Full, FocusedElement::LogBlock) => Some(FocusedElement::PrecisionSelector),
        (LayoutMode::GraphExpanded, FocusedElement::ExpandButton) => Some(FocusedElement::PrecisionSelector),
        _ => None,
    }
}

/// TAB order: log block, expand button, precision selector, among the visible parts; with only
/// logs, from the other parts back to the log block.
pub open spec fn forward_spec(e: FocusedElement, l: LayoutMode) -> Option<FocusedElement> {
    match (l, e) {
        (LayoutMode::Full, FocusedElement::LogBlock) => Some(FocusedElement::ExpandButton),
        (LayoutMode::Full, FocusedElement::ExpandButton) => Some(FocusedElement::PrecisionSelector),
        (LayoutMode::LogsOnly, FocusedElement::ExpandButton) => Some(FocusedElement::LogBlock),
        (LayoutMode::LogsOnly, FocusedElement::PrecisionSelector) => Some(FocusedElement::LogBlock),
        (LayoutMode::GraphExpanded, FocusedElement::ExpandButton) => Some(FocusedElement::PrecisionSelector),
        _ => None,
    }
}

/// Moving the focus never lands on a part that the layout hides.
pub proof fn lemma_focus_moves_stay_visible(e: FocusedElement, l: LayoutMode)
    ensures
        up_spec(e, l) matches Some(n) ==> is_visible_spec(n, l),
        down_spec(e, l) matches Some(n) ==> is_visible_spec(n, l),
        left_spec(e, l) matches Some(n) ==> is_visible_spec(n, l),
        right_spec(e, l) matches Some(n) ==> is_visible_spec(n, l),
        forward_spec(e, l) matches Some(n) ==> is_visible_spec(n, l),
{
}

/// Whether a part is shown in a layout: all are, except the precision selector when only logs
/// are shown and the log block when the graph is expanded.
pub open spec fn is_visible_spec(e: FocusedElement, l: LayoutMode) -> bool {
    !((l == LayoutMode::LogsOnly && e == FocusedElement::PrecisionSelector) || (l == LayoutMode::GraphExpanded
        && e == FocusedElement::LogBlock))
}

/// Moving left and right undo each other.
pub proof fn lemma_left_right_inverse(e: FocusedElement, f: FocusedElement, l: LayoutMode)
    ensures
        right_spec(e, l) == Some(f) ==> left_spec(f, l) is Some,
        left_spec(e, l) == Some(f) && l != LayoutMode::Full ==> right_spec(f, l) == Some(e),
{
}

/// The part a move in a direction reaches from a part, if any; moving away reaches none.
pub open spec fn step_spec(e: FocusedElement, d: PassFocusDirection, l: LayoutMode) -> Option<FocusedElement> {
    match d {
        PassFocusDirection::Up => up_spec(e, l),
        PassFocusDirection::Down => down_spec(e, l),
        PassFocusDirection::Left => left_spec(e, l),
        PassFocusDirection::Right => right_spec(e, l),
        PassFocusDirection::Forward => forward_spec(e, l),
        PassFocusDirection::Away => None,
    }
}

/// The parts a focus passed on in a direction is offered, in order: each the move from the one
/// before, for at most `steps` moves.
pub open spec fn focus_walk(e: FocusedElement, d: PassFocusDirection, l: LayoutMode, steps: nat) -> Seq<FocusedElement>
    decreases steps,
{
    if steps == 0 {
        seq![]
    } else {
        match step_spec(e, d, l) {
            None => seq![],
            Some(n) => seq![n] + focus_walk(n, d, l, (steps - 1) as nat),
        }
    }
}

/// Passing the focus on within the main view ends: whatever the part, direction and layout,
/// the walk takes at most two moves, never comes back to where it started, and a third move
/// would add nothing.
pub proof fn lemma_focus_walk_ends(e: FocusedElement, d: PassFocusDirection, l: LayoutMode)
    ensures
        focus_walk(e, d, l, 2).len() <= 2,
        !focus_walk(e, d, l, 2).contains(e),
        focus_walk(e, d, l, 3) == focus_walk(e, d, l, 2),
{
    reveal_with_fuel(focus_walk, 4);
    assert(focus_walk(e, d, l, 3) =~= focus_walk(e, d, l, 2));
}

fn step(e: FocusedElement, d: PassFocusDirection, l: LayoutMode) -> (r: Option<FocusedElement>)
    ensures
        r == step_spec(e, d, l),
{
    match d {
        PassFocusDirection::Up => e.up(l),
        PassFocusDirection::Down => e.down(l),
        PassFocusDirection::Left => e.left(l),
        PassFocusDirection::Right => e.right(l),
        PassFocusDirection::Forward => e.forward(l),
        PassFocusDirection::Away => None,
    }
}

/// The parts of the main view that a focus passed on from a part in a direction is offered,
/// in the order they are tried: each the move from the one before, until no move is left.
pub fn focus_candidates(from: FocusedElement, direction: PassFocusDirection, layout_mode: LayoutMode) -> (v: Vec<
    FocusedElement,
>)
    ensures
        v@ == focus_walk(from, direction, layout_mode, 2),
        v@.len() <= 2,
{
    proof {
        lemma_focus_walk_ends(from, direction, layout_mode);
        reveal_with_fuel(focus_walk, 3);
    }
    let mut v: Vec<FocusedElement> = Vec::new();
    match step(from, direction, layout_mode) {
        None => {},
        Some(first) => {
            v.push(first);
            match step(first, direction, layout_mode) {
                None => {},
                Some(second) => v.push(second),
            }
        },
    }
    assert(v@ =~= focus_walk(from, direction, layout_mode, 2));
    v
}

/// The order in which the parts of the main view are offered a focus coming from a position:
/// in the full layout, the log block first when the position is not right of it, and the
/// expand button before the precision selector when the position is not below the button's
/// line; with only logs, the log block first when the position is below its top; with the
/// graph expanded, the expand button first when the position is not right of its line (and
/// the gap after it).
pub open spec fn receive_order_spec(
    layout_mode: LayoutMode,
    focus_position: (u16, u16),
    log_block_right: u16,
    log_block_y: u16,
    client_activity_line_right: u16,
    client_activity_line_y: u16,
) -> Seq<FocusedElement> {
    match layout_mode {
        LayoutMode::Full => {
            let pair = if focus_position.1 <= client_activity_line_y {
                seq![FocusedElement::ExpandButton, FocusedElement::PrecisionSelector]
            } else {
                seq![FocusedElement::PrecisionSelector, FocusedElement::ExpandButton]
            };
            if focus_position.0 <= log_block_right {
                seq![FocusedElement::LogBlock] + pair
            } else {
                pair.push(FocusedElement::LogBlock)
            }
        },
        LayoutMode::LogsOnly => if focus_position.1 > log_block_y {
            seq![FocusedElement::LogBlock, FocusedElement::ExpandButton]
        } else {
            seq![FocusedElement::ExpandButton, FocusedElement::LogBlock]
        },
        LayoutMode::GraphExpanded => if focus_position.0 < client_activity_line_right + 2 {
            seq![FocusedElement::ExpandButton, FocusedElement::PrecisionSelector]
        } else {
            seq![FocusedElement::PrecisionSelector, FocusedElement::ExpandButton]
        },
    }
}

/// The order in which the parts of the main view are offered a focus coming from a position,
/// given where the log block and the client activity line stand (the right edge of each is the
/// column just past it).
pub fn receive_order(
    layout_mode: LayoutMode,
    focus_position: (u16, u16),
    log_block_right: u16,
    log_block_y: u16,
    client_activity_line_right: u16,
    client_activity_line_y: u16,
) -> (v: Vec<FocusedElement>)
    requires
        layout_mode == LayoutMode::GraphExpanded ==> client_activity_line_right + 2 <= u16::MAX,
    ensures
        v@ == receive_order_spec(
            layout_mode,
            focus_position,
            log_block_right,
            log_block_y,
            client_activity_line_right,
            client_activity_line_y,
        ),
        forall|e: FocusedElement| v@.contains(e) <==> is_visible_spec(e, layout_mode),
        v@.no_duplicates(),
{
    let v = match layout_mode {
        LayoutMode::Full => {
            let (a, b) = if focus_position.1 <= client_activity_line_y {
                (FocusedElement::ExpandButton, FocusedElement::PrecisionSelector)
            } else {
                (FocusedElement::PrecisionSelector, FocusedElement::ExpandButton)
            };
            if focus_position.0 <= log_block_right {
                vec![FocusedElement::LogBlock, a, b]
            } else {
                vec![a, b, FocusedElement::LogBlock]
            }
        },
        LayoutMode::LogsOnly => if focus_position.1 > log_block_y {
            vec![FocusedElement::LogBlock, FocusedElement::ExpandButton]
        } else {
            vec![FocusedElement::ExpandButton, FocusedElement::LogBlock]
        },
        LayoutMode::GraphExpanded => if focus_position.0 < client_activity_line_right + 2 {
            vec![FocusedElement::ExpandButton, FocusedElement::PrecisionSelector]
        } else {
            vec![FocusedElement::PrecisionSelector, FocusedElement::ExpandButton]
        },
    };
    let ghost expected = receive_order_spec(
        layout_mode,
        focus_position,
        log_block_right,
        log_block_y,
        client_activity_line_right,
        client_activity_line_y,
    );
    assert(v@ =~= expected);
    assert forall|e: FocusedElement| v@.contains(e) <==> is_visible_spec(e, layout_mode) by {
        if is_visible_spec(e, layout_mode) {
            assert(v@[0] == e || v@[1] == e || (v@.len() == 3 && v@[2] == e));
        }
    }
    v
}

/// The time span of each bar of the usage graph.
#[derive(Debug, Clone, Copy, PartialEq, Eq, Structural)]
pub enum GraphPrecisionOption {
    OneSecond,
    TwoSeconds,
    FiveSeconds,
    TenSeconds,
    ThirtySeconds,
    OneMinute,
    TwoMinutes,
    FiveMinutes,
    TenMinutes,
}

/// The options in the order the precision selector shows them.
pub open spec fn precision_at(index: int) -> Option<GraphPrecisionOption> {
    if index == 0 {
        Some(GraphPrecisionOption::OneSecond)
    } else if index == 1 {
        Some(GraphPrecisionOption::TwoSeconds)
    } else if index == 2 {
        Some(GraphPrecisionOption::FiveSeconds)
    } else if index == 3 {
        Some(GraphPrecisionOption::TenSeconds)
    } else if index == 4 {
        Some(GraphPrecisionOption::ThirtySeconds)
    } else if index == 5 {
        Some(GraphPrecisionOption::OneMinute)
    } else if index == 6 {
        Some(GraphPrecisionOption::TwoMinutes)
    } else if index == 7 {
        Some(GraphPrecisionOption::FiveMinutes)
    } else if index == 8 {
        Some(GraphPrecisionOption::TenMinutes)
    } else {
        None
    }
}

/// (unit size in seconds, labels on multiples of, markers on multiples of, print seconds) of
/// each option.
pub open spec fn precision_values(p: GraphPrecisionOption) -> (u32, u32, u32, bool) {
    match p {
        GraphPrecisionOption::OneSecond => (1, 15, 5, true),
        GraphPrecisionOption::TwoSeconds => (2, 30, 10, true),
        GraphPrecisionOption::FiveSeconds => (5, 60, 20, false),
        GraphPrecisionOption::TenSeconds => (10, 120, 30, false),
        GraphPrecisionOption::ThirtySeconds => (30, 240, 120, false),
        GraphPrecisionOption::OneMinute => (60, 600, 150, false),
        GraphPrecisionOption::TwoMinutes => (120, 1200, 300, false),
        GraphPrecisionOption::FiveMinutes => (300, 3600, 1200, false),
        GraphPrecisionOption::TenMinutes => (600, 7200, 1800, false),
    }
}

/// The label of an option.
pub open spec fn precision_label(p: GraphPrecisionOption) -> Seq<char> {
    match p {
        GraphPrecisionOption::OneSecond => seq!['1', 's'],
        GraphPrecisionOption::TwoSeconds => seq!['2', 's'],
        GraphPrecisionOption::FiveSeconds => seq!['5', 's'],
        GraphPrecisionOption::TenSeconds => seq!['1', '0', 's'],
        GraphPrecisionOption::ThirtySeconds => seq!['3', '0', 's'],
        GraphPrecisionOption::OneMinute => seq!['1', 'm'],
        GraphPrecisionOption::TwoMinutes => seq!['2', 'm'],
        GraphPrecisionOption::FiveMinutes => seq!['5', 'm'],
        GraphPrecisionOption::TenMinutes => seq!['1', '0', 'm'],
    }
}

impl GraphPrecisionOption {
    /// The option shown by default: one second.
    pub fn default() -> (r: Self)
        ensures
            r == GraphPrecisionOption::OneSecond,
    {
        GraphPrecisionOption::OneSecond
    }

    /// The label of the option.
    pub fn to_str(self) -> (s: &'static str)
        ensures
            s@ == precision_label(self),
    {
        proof {
            reveal_strlit("1s");
            reveal_strlit("2s");
            reveal_strlit("5s");
            reveal_strlit("10s");
            reveal_strlit("30s");
            reveal_strlit("1m");
            reveal_strlit("2m");
            reveal_strlit("5m");
            reveal_strlit("10m");
        }
        self.label()
    }

    fn label(self) -> (s: &'static str)
        ensures
            s@ == match self {
                GraphPrecisionOption::OneSecond => "1s"@,
                GraphPrecisionOption::TwoSeconds => "2s"@,
                GraphPrecisionOption::FiveSeconds => "5s"@,
                GraphPrecisionOption::TenSeconds => "10s"@,
                GraphPrecisionOption::ThirtySeconds => "30s"@,
                GraphPrecisionOption::OneMinute => "1m"@,
                GraphPrecisionOption::TwoMinutes => "2m"@,
                GraphPrecisionOption::FiveMinutes => "5m"@,
                GraphPrecisionOption::TenMinutes => "10m"@,
            },
    {
        match self {
            Self::OneSecond => "1s",
            Self::TwoSeconds => "2s",
            Self::FiveSeconds => "5s",
            Self::TenSeconds => "10s",
            Self::ThirtySeconds => "30s",
            Self::OneMinute => "1m",
            Self::TwoMinutes => "2m",
            Self::FiveMinutes => "5m",
            Self::TenMinutes => "10m",
        }
    }

    /// The option at the given position of the selector.
    pub fn from_index(index: u8) -> (r: Option<Self>)
        ensures
            r == precision_at(index as int),
    {
        match index {
            0 => Some(Self::OneSecond),
            1 => Some(Self::TwoSeconds),
            2 => Some(Self::FiveSeconds),
            3 => Some(Self::TenSeconds),
            4 => Some(Self::ThirtySeconds),
            5 => Some(Self::OneMinute),
            6 => Some(Self::TwoMinutes),
            7 => Some(Self::FiveMinutes),
            8 => Some(Self::TenMinutes),
            _ => None,
        }
    }

    /// Returns (unit_size_seconds, labels_on_multiples_of, markers_on_multiples_of,
    /// print_seconds).
    pub fn get_values(self) -> (r: (u32, u32, u32, bool))
        ensures
            r == precision_values(self),
    {
        match self {
            Self::OneSecond => (1, 15, 5, true),
            Self::TwoSeconds => (2, 30, 10, true),
            Self::FiveSeconds => (5, 60, 20, false),
            Self::TenSeconds => (10, 120, 30, false),
            Self::ThirtySeconds => (30, 240, 120, false),
            Self::OneMinute => (60, 600, 150, false),
            Self::TwoMinutes => (120, 1200, 300, false),
            Self::FiveMinutes => (300, 3600, 1200, false),
            Self::TenMinutes => (600, 7200, 1800, false),
        }
    }
}

/// The options are listed by increasing unit size, and labels fall on whole units.
pub proof fn lemma_precision_options_ordered(i: int, j: int)
    requires
        0 <= i < j <= 8,
    ensures
        precision_values(precision_at(i)->0).0 < precision_values(precision_at(j)->0).0,
        precision_values(precision_at(i)->0).1 % precision_values(precision_at(i)->0).0 == 0,
{
}

/// The handler of the graph precision selector: the precision the graph is to use, and whether
/// a redraw was asked for.
#[derive(Debug, Clone, Copy, PartialEq, Eq, Structural)]
pub struct PrecisionSelectorHandler {
    pub precision: GraphPrecisionOption,
    pub redraw_requested: bool,
}

impl PrecisionSelectorHandler {
    pub fn new(precision: GraphPrecisionOption) -> (h: Self)
        ensures
            h.precision == precision,
            !h.redraw_requested,
    {
        Self { precision, redraw_requested: false }
    }
}

impl ArrowSelectorHandler for PrecisionSelectorHandler {
    /// The option at the selected position (the index taken as a `u8`) becomes the precision,
    /// and a redraw is asked for; an index past the options keeps the precision.
    open spec fn told_selection(self, selected_index: usize) -> Self {
        PrecisionSelectorHandler {
            precision: match precision_at((selected_index as u8) as int) {
                Some(p) => p,
                None => self.precision,
            },
            redraw_requested: true,
        }
    }

    fn selection_changed(&mut self, selected_index: usize) {
        match GraphPrecisionOption::from_index(selected_index as u8) {
            Some(p) => self.precision = p,
            None => {},
        }
        self.redraw_requested = true;
    }
}

} // verus!
