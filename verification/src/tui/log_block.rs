//! The block of server logs: the latest events of the stream, each shown as its log line
//! wrapped to the width of the block, in a long list.

use std::collections::VecDeque;

use vstd::prelude::*;

use crate::text::string_of;
use crate::tui::elements::long_list::{LongList, LongListHandler};
use crate::tui::elements::OnEnterResult;
use crate::tui::main_view::colored_logs::{
    log_event_to_single_line, log_line, offset_fits, timestamp_fits_offset, Event, LogStyle,
};
use crate::tui::text_wrapper::{
    lemma_wrapped_lines_fit, pieces_view, wrap_lines_by_chars, wrap_pieces_spec, wrapped_view, StaticString,
};

verus! {

/// The most events the block keeps; the oldest goes when a new one comes past it.
pub const MAXIMUM_EVENT_HISTORY_LENGTH: usize = 0x10000;

/// The narrowest width a log line is wrapped to, however narrow the block.
pub const LOG_LINE_MIN_LENGTH: u16 = 20;

/// The title of the block.
pub const TITLE: &'static str = "\u{2500}Logs";

/// A line of the block: pieces of text, each with its style.
pub type LogLine = Vec<(StaticString, LogStyle)>;

/// The width log lines are wrapped to in a block of the given width.
pub open spec fn log_wrap_width(wrap_width: u16) -> u16 {
    if wrap_width < LOG_LINE_MIN_LENGTH { LOG_LINE_MIN_LENGTH } else { wrap_width }
}

/// What the list of the block shows: the events kept, and the UTC offset (in seconds east of
/// UTC) their timestamps are shown at.
pub struct LogListHandler {
    pub event_history: VecDeque<Event>,
    pub utc_offset_seconds: i32,
}

impl LongListHandler<LogLine> for LogListHandler {
    /// ENTER on a log line leaves the events as they are.
    open spec fn changed_by_enter(&self, after: Self, index: usize) -> bool {
        after == *self
    }

    /// The log line of the event at `index`, wrapped to the width (at least the minimum line
    /// length). An index past the events, or an event whose timestamp cannot be shown at the
    /// offset, gives one empty line.
    fn get_item_lines(&mut self, index: usize, wrap_width: u16) -> (lines: Vec<LogLine>) {
        if index < self.event_history.len() && timestamp_fits_offset(
            self.event_history[index].timestamp,
            self.utc_offset_seconds,
        ) {
            let mut pieces: LogLine = Vec::new();
            log_event_to_single_line(&mut pieces, self.utc_offset_seconds, &self.event_history[index]);
            let width: u16 = if wrap_width < LOG_LINE_MIN_LENGTH { LOG_LINE_MIN_LENGTH } else { wrap_width };
            let lines = wrap_lines_by_chars(width as usize, &pieces);
            proof {
                lemma_wrapped_lines_fit(width as nat, pieces_view(pieces@));
                assert(pieces_view(pieces@).len() == pieces@.len());
            }
            lines
        } else {
            let empty: LogLine = Vec::new();
            vec![empty]
        }
    }

    /// ENTER on a log line does nothing, and leaves the event to others.
    fn on_enter(&mut self, index: usize) -> (r: OnEnterResult)
        ensures
            r == OnEnterResult::Unhandled,
            *final(self) == *old(self),
    {
        OnEnterResult::Unhandled
    }
}

impl LogListHandler {
    /// The log line of the event at `index`, wrapped to the width (at least the minimum line
    /// length), as the list is given it.
    pub fn item_lines(&mut self, index: usize, wrap_width: u16) -> (lines: Vec<LogLine>)
        requires
            index < old(self).event_history@.len(),
            offset_fits(old(self).event_history@[index as int].timestamp, old(self).utc_offset_seconds),
        ensures
            final(self).event_history@ == old(self).event_history@,
            wrapped_view(lines@) == wrap_pieces_spec(
                log_wrap_width(wrap_width) as nat,
                log_line(old(self).event_history@[index as int], old(self).utc_offset_seconds),
                seq![],
                0,
            ),
    {
        let mut pieces: LogLine = Vec::new();
        log_event_to_single_line(&mut pieces, self.utc_offset_seconds, &self.event_history[index]);
        assert(pieces_view(pieces@) =~= log_line(self.event_history@[index as int], self.utc_offset_seconds));
        let width: u16 = if wrap_width < LOG_LINE_MIN_LENGTH { LOG_LINE_MIN_LENGTH } else { wrap_width };
        wrap_lines_by_chars(width as usize, &pieces)
    }
}

/// Where a selection goes when an event is added: it stays on its event, which moves one place
/// up when the oldest event was dropped to make room (the first event stays selected).
pub open spec fn selection_after_event(selected: Option<usize>, dropped_oldest: bool) -> Option<usize> {
    match selected {
        Some(s) => if dropped_oldest {
            Some(if s == 0 { 0usize } else { (s - 1) as usize })
        } else {
            Some(s)
        },
        None => None,
    }
}

/// The block of server logs.
pub struct LogBlock {
    pub list: LongList<LogLine, LogListHandler>,
}

impl LogBlock {
    /// The events kept.
    pub open spec fn history(&self) -> Seq<Event> {
        self.list.handler.event_history@
    }

    /// The list holds one item per event kept, and no more events are kept than the limit.
    pub open spec fn wf(&self) -> bool {
        &&& self.list.controller.wf()
        &&& self.list.controller.spec_item_count() == self.history().len()
        &&& self.history().len() <= MAXIMUM_EVENT_HISTORY_LENGTH
        &&& !self.list.controller.spec_deselect_on_remove()
    }

    /// An empty block whose timestamps are shown at the given UTC offset (in seconds east of
    /// UTC); its list selects the latest event first.
    pub fn new(utc_offset_seconds: i32) -> (b: Self)
        ensures
            b.wf(),
            b.history().len() == 0,
            b.list.handler.utc_offset_seconds == utc_offset_seconds,
            b.list.controller.spec_title() == TITLE@,
            b.list.controller.spec_select_last_first(),
            b.list.controller.spec_selected() is None,
            b.list.area_ok(),
    {
        let handler = LogListHandler { event_history: VecDeque::new(), utc_offset_seconds };
        Self { list: LongList::new(string_of(TITLE), 0, true, false, handler) }
    }

    /// Adds an event of the stream. When the limit is reached, the oldest event is dropped
    /// first; the selection stays on its event.
    pub fn new_stream_event(&mut self, event: Event)
        requires
            old(self).wf(),
        ensures
            final(self).wf(),
            final(self).history() == (if old(self).history().len() >= MAXIMUM_EVENT_HISTORY_LENGTH {
                old(self).history().drop_first().push(event)
            } else {
                old(self).history().push(event)
            }),
            final(self).list.controller.spec_selected() == selection_after_event(
                old(self).list.controller.spec_selected(),
                old(self).history().len() >= MAXIMUM_EVENT_HISTORY_LENGTH,
            ),
            final(self).list.handler.utc_offset_seconds == old(self).list.handler.utc_offset_seconds,
            final(self).list.controller.spec_title() == old(self).list.controller.spec_title(),
            final(self).list.spec_area() == old(self).list.spec_area(),
    {
        let ghost old_history = self.history();
        if self.list.handler.event_history.len() >= MAXIMUM_EVENT_HISTORY_LENGTH {
            self.list.handler.event_history.pop_front();
            self.list.controller.on_item_removed(0);
            assert(self.history() =~= old_history.drop_first());
        }
        self.list.handler.event_history.push_back(event);
        let count = self.list.handler.event_history.len();
        self.list.controller.set_item_count(count);
    }
}

} // verus!
