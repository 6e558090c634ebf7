//! Where the parts of the main view go within its area: the log block on the left and the
//! graph with its labels and the metrics on the right, the logs alone when the right side is
//! too small, or the graph alone when it is expanded.
//!
//! Laying out takes two steps. The first places every part; then the two label lines above the
//! graph are each asked how wide they want to be within the area they were given, and the
//! second step narrows them to that and lines them up.

use vstd::prelude::*;

use crate::tui::elements::split::Area;
use crate::tui::main_view::metrics_display;
use crate::tui::main_view::usage_graph::VERTICAL_LABELS_AREA_WIDTH;
use crate::tui::main_view::LayoutMode;

verus! {

/// The least width the right side (graph and metrics) needs to be shown beside the logs.
pub const MIN_RIGHT_AREA_WIDTH: u16 = 34;

/// The areas of the parts of the main view; a part whose area is empty is not shown.
#[derive(Debug, Clone, Copy, PartialEq, Eq, Structural)]
pub struct MainViewAreas {
    pub log_block: Area,
    pub usage_graph: Area,
    pub metrics_display: Area,
    pub client_activity_line: Area,
    pub graph_precision_line: Area,
    pub layout_mode: LayoutMode,
}

/// The area at the origin with no size.
pub open spec fn no_area() -> Area {
    Area { x: 0, y: 0, width: 0, height: 0 }
}

/// Whether an area has no cell.
pub open spec fn is_empty(a: Area) -> bool {
    a.width == 0 || a.height == 0
}

/// An area of the terminal as the layout gets one: its right and bottom edges fit the
/// coordinates, and its number of cells fits a `u16`, so no area made from it is clipped.
pub open spec fn valid_area(a: Area) -> bool {
    &&& a.x + a.width <= u16::MAX
    &&& a.y + a.height <= u16::MAX
    &&& a.width * a.height <= u16::MAX
}

/// The smaller of two numbers.
pub open spec fn min(a: int, b: int) -> int {
    if a < b { a } else { b }
}

/// `a - b`, or zero where `b` is larger.
pub open spec fn sub_or_zero(a: int, b: int) -> int {
    if a > b { a - b } else { 0 }
}

/// The width of the log block beside the right side: half the area, rounded up.
pub open spec fn left_width(area: Area) -> int {
    (area.width + 1) / 2
}

/// The column where the right side starts: one past the log block, leaving a gap.
pub open spec fn right_x(area: Area) -> int {
    area.x + left_width(area) + 1
}

/// The width of the right side: what the log block leaves, less the gap.
pub open spec fn right_width(area: Area) -> int {
    sub_or_zero(area.width - left_width(area), 1)
}

/// Whether only the logs are shown: the right side is too narrow, or too low for the graph
/// and its two label lines.
pub open spec fn shows_logs_only(area: Area, graph_min_height: u16) -> bool {
    right_width(area) < MIN_RIGHT_AREA_WIDTH || area.height < graph_min_height + 3
}

/// Whether, beside the logs, the metrics display fits below the graph.
pub open spec fn shows_metrics(area: Area, graph_min_height: u16) -> bool {
    right_width(area) >= metrics_display::MIN_WIDTH && area.height >= metrics_display::HEIGHT + graph_min_height + 4
}

/// An area from plain numbers.
pub open spec fn area_of(x: int, y: int, width: int, height: int) -> Area {
    Area { x: x as u16, y: y as u16, width: width as u16, height: height as u16 }
}

/// Where the parts go before the label lines are narrowed. With no area nothing is shown.
/// With only logs, the client activity line takes the top row across the whole area and the
/// log block starts two rows below. Otherwise the log block takes the left half; on the right
/// the client activity line and the graph precision line take the first two rows, the graph
/// starts on the fourth, and the metrics display, where it fits, takes the bottom rows with a
/// blank row above it.
pub open spec fn distribute_areas_spec(area: Area, graph_min_height: u16) -> MainViewAreas {
    if is_empty(area) {
        MainViewAreas {
            log_block: no_area(),
            usage_graph: no_area(),
            metrics_display: no_area(),
            client_activity_line: no_area(),
            graph_precision_line: no_area(),
            layout_mode: LayoutMode::Full,
        }
    } else if shows_logs_only(area, graph_min_height) {
        MainViewAreas {
            log_block: area_of(area.x as int, area.y + 2, area.width as int, sub_or_zero(area.height as int, 2)),
            usage_graph: no_area(),
            metrics_display: no_area(),
            client_activity_line: area_of(area.x as int, area.y as int, area.width as int, 1),
            graph_precision_line: no_area(),
            layout_mode: LayoutMode::LogsOnly,
        }
    } else {
        let metrics = shows_metrics(area, graph_min_height);
        let lines_height = if metrics { area.height - metrics_display::HEIGHT - 1 } else { area.height as int };
        MainViewAreas {
            log_block: area_of(area.x as int, area.y as int, left_width(area), area.height as int),
            usage_graph: area_of(right_x(area), area.y + 3, right_width(area), lines_height - 3),
            metrics_display: if metrics {
                area_of(right_x(area), area.y + area.height - metrics_display::HEIGHT, right_width(area), metrics_display::HEIGHT as int)
            } else {
                no_area()
            },
            client_activity_line: area_of(right_x(area), area.y as int, right_width(area), 1),
            graph_precision_line: area_of(right_x(area), area.y + 1, right_width(area), 1),
            layout_mode: LayoutMode::Full,
        }
    }
}

/// Where the parts go before the label line is narrowed, with the graph expanded: nothing
/// where the area is too small for the graph's labels, else, one column in from each side,
/// the client activity line takes the top row and the graph starts two rows below.
pub open spec fn distribute_areas_expanded_spec(area: Area) -> MainViewAreas {
    if area.height == 0 || area.width < VERTICAL_LABELS_AREA_WIDTH + 4 {
        MainViewAreas {
            log_block: no_area(),
            usage_graph: no_area(),
            metrics_display: no_area(),
            client_activity_line: no_area(),
            graph_precision_line: no_area(),
            layout_mode: LayoutMode::GraphExpanded,
        }
    } else {
        MainViewAreas {
            log_block: no_area(),
            usage_graph: area_of(area.x + 1, area.y + 2, area.width - 2, sub_or_zero(area.height as int, 2)),
            metrics_display: no_area(),
            client_activity_line: area_of(area.x + 1, area.y as int, area.width - 2, 1),
            graph_precision_line: no_area(),
            layout_mode: LayoutMode::GraphExpanded,
        }
    }
}

/// The label lines narrowed to the widths they ask for. With only logs, the client activity
/// line is narrowed and centered. Beside the logs, both lines are narrowed and moved right by
/// the same amount: the least of the space each leaves and the width of the graph's vertical
/// labels, so they line up with the graph's axis. With the graph expanded, the client activity
/// line keeps at most the width it asks for and the graph precision line takes the rest of
/// the row, three columns after it.
pub open spec fn fit_lines_spec(areas: MainViewAreas, activity_width: u16, precision_width: u16) -> MainViewAreas {
    let a = areas.client_activity_line;
    let p = areas.graph_precision_line;
    match areas.layout_mode {
        LayoutMode::LogsOnly => {
            let extra = sub_or_zero(a.width as int, activity_width as int);
            MainViewAreas { client_activity_line: area_of(a.x + extra / 2, a.y as int, a.width - extra, a.height as int), ..areas }
        },
        LayoutMode::Full => {
            let extra_a = sub_or_zero(a.width as int, activity_width as int);
            let extra_p = sub_or_zero(p.width as int, precision_width as int);
            let offset = min(min(VERTICAL_LABELS_AREA_WIDTH as int, extra_a), extra_p);
            MainViewAreas {
                client_activity_line: area_of(a.x + offset, a.y as int, a.width - extra_a, a.height as int),
                graph_precision_line: area_of(p.x + offset, p.y as int, p.width - extra_p, p.height as int),
                ..areas
            }
        },
        LayoutMode::GraphExpanded => {
            if is_empty(a) {
                areas
            } else {
                let w = min(a.width as int, activity_width as int);
                MainViewAreas {
                    client_activity_line: area_of(a.x as int, a.y as int, w, 1),
                    graph_precision_line: area_of(a.x + w + 3, a.y as int, sub_or_zero(a.width as int, w + 3), 1),
                    ..areas
                }
            }
        },
    }
}

/// The additions of laying out `area` beside the logs stay within the coordinates: the right
/// side starts one past the log block's right edge, and, with only logs, the log block starts
/// two rows down.
pub open spec fn layout_fits(area: Area, graph_min_height: u16) -> bool {
    !is_empty(area) ==> {
        &&& right_x(area) <= u16::MAX
        &&& shows_logs_only(area, graph_min_height) ==> area.y + 2 <= u16::MAX
    }
}

/// Where the parts of the main view go within `area`, before the label lines are narrowed
/// (see `fit_lines`). `graph_min_height` is the least height of the usage graph.
pub fn distribute_areas(area: Area, graph_min_height: u16) -> (r: MainViewAreas)
    requires
        valid_area(area),
        graph_min_height + metrics_display::HEIGHT + 4 <= u16::MAX,
        layout_fits(area, graph_min_height),
    ensures
        r == distribute_areas_spec(area, graph_min_height),
{
    let empty = Area { x: 0, y: 0, width: 0, height: 0 };
    let mut r = MainViewAreas {
        log_block: empty,
        usage_graph: empty,
        metrics_display: empty,
        client_activity_line: empty,
        graph_precision_line: empty,
        layout_mode: LayoutMode::Full,
    };
    if area.width == 0 || area.height == 0 {
        return r;
    }
    let min_full_display_height: u16 = metrics_display::HEIGHT + graph_min_height + 4;
    let left_width: u16 = area.width / 2 + area.width % 2;
    assert(left_width == (area.width + 1) / 2);
    let right_x: u16 = area.x + left_width + 1;
    let right_width: u16 = if area.width - left_width > 1 { area.width - left_width - 1 } else { 0 };
    if right_width < MIN_RIGHT_AREA_WIDTH || area.height < graph_min_height + 3 {
        r.client_activity_line = Area { x: area.x, y: area.y, width: area.width, height: 1 };
        let remaining_height: u16 = if area.height > 2 { area.height - 2 } else { 0 };
        r.log_block = Area { x: area.x, y: area.y + 2, width: area.width, height: remaining_height };
        r.layout_mode = LayoutMode::LogsOnly;
    } else {
        r.log_block = Area { x: area.x, y: area.y, width: left_width, height: area.height };
        let mut remaining_height: u16 = area.height;
        if right_width >= metrics_display::MIN_WIDTH && area.height >= min_full_display_height {
            let metrics_y: u16 = area.y + area.height - metrics_display::HEIGHT;
            r.metrics_display = Area { x: right_x, y: metrics_y, width: right_width, height: metrics_display::HEIGHT };
            remaining_height = remaining_height - (metrics_display::HEIGHT + 1);
        }
        r.client_activity_line = Area { x: right_x, y: area.y, width: right_width, height: 1 };
        r.graph_precision_line = Area { x: right_x, y: area.y + 1, width: right_width, height: 1 };
        r.usage_graph = Area { x: right_x, y: area.y + 3, width: right_width, height: remaining_height - 3 };
    }
    r
}

/// Where the parts of the main view go within `area` with the graph expanded, before the
/// client activity line is narrowed (see `fit_lines`).
pub fn distribute_areas_expanded(area: Area) -> (r: MainViewAreas)
    requires
        valid_area(area),
        area.height > 0 && area.width >= VERTICAL_LABELS_AREA_WIDTH + 4 ==> area.y + 2 <= u16::MAX,
    ensures
        r == distribute_areas_expanded_spec(area),
{
    let empty = Area { x: 0, y: 0, width: 0, height: 0 };
    let mut r = MainViewAreas {
        log_block: empty,
        usage_graph: empty,
        metrics_display: empty,
        client_activity_line: empty,
        graph_precision_line: empty,
        layout_mode: LayoutMode::GraphExpanded,
    };
    if area.height == 0 || area.width < VERTICAL_LABELS_AREA_WIDTH + 4 {
        return r;
    }
    let inner = Area { x: area.x + 1, y: area.y, width: area.width - 2, height: area.height };
    r.client_activity_line = Area { x: inner.x, y: inner.y, width: inner.width, height: 1 };
    let graph_height: u16 = if area.height > 2 { area.height - 2 } else { 0 };
    r.usage_graph = Area { x: inner.x, y: inner.y + 2, width: inner.width, height: graph_height };
    r
}

/// The additions of narrowing the label lines stay within the coordinates: each line's right
/// edge fits, and with the graph expanded so does the start of the graph precision line.
pub open spec fn fit_lines_fits(areas: MainViewAreas, activity_width: u16) -> bool {
    let a = areas.client_activity_line;
    let p = areas.graph_precision_line;
    &&& a.x + a.width <= u16::MAX
    &&& p.x + p.width <= u16::MAX
    &&& areas.layout_mode == LayoutMode::GraphExpanded && !is_empty(a) ==> a.x + min(
        a.width as int,
        activity_width as int,
    ) + 3 <= u16::MAX
}

/// Narrows the label lines to the widths they ask for within the areas they were given:
/// `activity_width` for the client activity line and `precision_width` for the graph precision
/// line.
pub fn fit_lines(areas: MainViewAreas, activity_width: u16, precision_width: u16) -> (r: MainViewAreas)
    requires
        fit_lines_fits(areas, activity_width),
    ensures
        r == fit_lines_spec(areas, activity_width, precision_width),
{
    let a = areas.client_activity_line;
    let p = areas.graph_precision_line;
    match areas.layout_mode {
        LayoutMode::LogsOnly => {
            let extra: u16 = if a.width > activity_width { a.width - activity_width } else { 0 };
            MainViewAreas { client_activity_line: Area { x: a.x + extra / 2, width: a.width - extra, ..a }, ..areas }
        },
        LayoutMode::Full => {
            let extra_a: u16 = if a.width > activity_width { a.width - activity_width } else { 0 };
            let extra_p: u16 = if p.width > precision_width { p.width - precision_width } else { 0 };
            let mut offset: u16 = VERTICAL_LABELS_AREA_WIDTH;
            if extra_a < offset {
                offset = extra_a;
            }
            if extra_p < offset {
                offset = extra_p;
            }
            MainViewAreas {
                client_activity_line: Area { x: a.x + offset, width: a.width - extra_a, ..a },
                graph_precision_line: Area { x: p.x + offset, width: p.width - extra_p, ..p },
                ..areas
            }
        },
        LayoutMode::GraphExpanded => {
            if a.width == 0 || a.height == 0 {
                return areas;
            }
            let w: u16 = if a.width < activity_width { a.width } else { activity_width };
            let rest: u16 = if a.width > w + 3 { a.width - (w + 3) } else { 0 };
            MainViewAreas {
                client_activity_line: Area { x: a.x, y: a.y, width: w, height: 1 },
                graph_precision_line: Area { x: a.x + w + 3, y: a.y, width: rest, height: 1 },
                ..areas
            }
        },
    }
}

/// Whether `inner` is empty or lies within `outer`.
pub open spec fn lies_within(inner: Area, outer: Area) -> bool {
    is_empty(inner) || {
        &&& outer.x <= inner.x
        &&& inner.x + inner.width <= outer.x + outer.width
        &&& outer.y <= inner.y
        &&& inner.y + inner.height <= outer.y + outer.height
    }
}

/// Whether two areas share no cell.
pub open spec fn apart(a: Area, b: Area) -> bool {
    ||| is_empty(a)
    ||| is_empty(b)
    ||| a.x + a.width <= b.x
    ||| b.x + b.width <= a.x
    ||| a.y + a.height <= b.y
    ||| b.y + b.height <= a.y
}

/// Every part lies within `area`, and no two parts share a cell.
pub open spec fn well_placed(r: MainViewAreas, area: Area) -> bool {
    &&& lies_within(r.log_block, area)
    &&& lies_within(r.usage_graph, area)
    &&& lies_within(r.metrics_display, area)
    &&& lies_within(r.client_activity_line, area)
    &&& lies_within(r.graph_precision_line, area)
    &&& apart(r.log_block, r.usage_graph)
    &&& apart(r.log_block, r.metrics_display)
    &&& apart(r.log_block, r.client_activity_line)
    &&& apart(r.log_block, r.graph_precision_line)
    &&& apart(r.usage_graph, r.metrics_display)
    &&& apart(r.usage_graph, r.client_activity_line)
    &&& apart(r.usage_graph, r.graph_precision_line)
    &&& apart(r.metrics_display, r.client_activity_line)
    &&& apart(r.metrics_display, r.graph_precision_line)
    &&& apart(r.client_activity_line, r.graph_precision_line)
}

/// Laying out the main view beside the logs, or with only logs, puts every part within its
/// area with no two parts overlapping, before and after the label lines are narrowed, whatever
/// widths they ask for; and the narrowing can always be done.
pub proof fn lemma_layout_well_placed(area: Area, graph_min_height: u16, activity_width: u16, precision_width: u16)
    requires
        valid_area(area),
        graph_min_height + metrics_display::HEIGHT + 4 <= u16::MAX,
        layout_fits(area, graph_min_height),
    ensures
        well_placed(distribute_areas_spec(area, graph_min_height), area),
        fit_lines_fits(distribute_areas_spec(area, graph_min_height), activity_width),
        well_placed(fit_lines_spec(distribute_areas_spec(area, graph_min_height), activity_width, precision_width), area),
{
}

/// Laying out the main view with the graph expanded puts every part within its area with no
/// two parts overlapping, before and after the client activity line is narrowed.
pub proof fn lemma_expanded_layout_well_placed(area: Area, activity_width: u16, precision_width: u16)
    requires
        valid_area(area),
        area.height > 0 && area.width >= VERTICAL_LABELS_AREA_WIDTH + 4 ==> area.y + 2 <= u16::MAX,
        fit_lines_fits(distribute_areas_expanded_spec(area), activity_width),
    ensures
        well_placed(distribute_areas_expanded_spec(area), area),
        well_placed(fit_lines_spec(distribute_areas_expanded_spec(area), activity_width, precision_width), area),
{
}

} // verus!
