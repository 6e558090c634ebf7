use vstd::prelude::*;

use crate::text::{is_ascii_alphanumeric, is_ascii_alphanumeric_spec, string_from_chars};
use crate::tui::elements::text_entry::{CursorPosition, OnEnterResult as EntryEnterResult, TextEntryHandler};
use crate::tui::popups::popup_base::PopupBaseController;
use crate::tui::popups::yes_no_popup::YesNoPopupController;
use crate::tui::popups::REQUEST_SEND_ERROR_MESSAGE;

verus! {

/// The message shown above the new buffer size entry.
#[derive(Debug, Clone, Copy, PartialEq, Eq, Structural)]
pub enum TopMessage {
    Offer,
    Invalid,
}

impl TopMessage {
    /// The text of the message.
    pub fn to_str(self) -> (s: &'static str)
        ensures
            s@ == (match self {
                TopMessage::Offer => "Do you want to set a new buffer size?"@,
                TopMessage::Invalid => "Please enter a valid buffer size"@,
            }),
    {
        match self {
            Self::Offer => "Do you want to set a new buffer size?",
            Self::Invalid => "Please enter a valid buffer size",
        }
    }
}

/// The message shown when the server refuses the new buffer size.
pub const SERVER_ERROR_MESSAGE: &'static str = "The server refused to update the buffer size.";

#[verifier::external_type_specification]
#[verifier::external_body]
pub struct ExPrettyBufferSizeParseError(dust_devil_core::buffer_size::PrettyBufferSizeParseError);

/// The size, in bytes, that a human-readable byte count such as `3M` or `0x400K` stands for,
/// as `dust_devil_core::buffer_size::parse_pretty_buffer_size` reads it, or none where it
/// refuses the text.
pub uninterp spec fn pretty_buffer_size_of(text: Seq<char>) -> Option<u32>;

/// `dust_devil_core::buffer_size::parse_pretty_buffer_size`: reads a human-readable byte count.
/// Whether it succeeds and the size it gives are named, not stated; a size it gives is never
/// zero, as its source shows (a zero is refused, and a non-zero value is only multiplied by a
/// non-zero unit, without overflow).
#[verifier::external_body]
fn parse_pretty_buffer_size(text: &str) -> (r: Result<u32, dust_devil_core::buffer_size::PrettyBufferSizeParseError>)
    ensures
        match r {
            Ok(size) => pretty_buffer_size_of(text@) == Some(size),
            Err(_) => pretty_buffer_size_of(text@) is None,
        },
        r matches Ok(size) ==> size > 0,
{
    dust_devil_core::buffer_size::parse_pretty_buffer_size(text)
}

/// The buffer size a text of the entry stands for, if any.
pub fn parse_buffer_size_entry(text: &str) -> (r: Option<u32>)
    ensures
        r == pretty_buffer_size_of(text@),
        r matches Some(size) ==> size > 0,
{
    match parse_pretty_buffer_size(text) {
        Ok(size) => Some(size),
        Err(_) => None,
    }
}

/// What became of a request to set the buffer size: the server accepted or refused it, or it
/// could not be sent or answered.
#[derive(Debug, Clone, Copy, PartialEq, Eq, Structural)]
pub enum SetBufferSizeResult {
    Accepted,
    Refused,
    NotSent,
}

/// What selecting YES comes to: nothing while the entry blinks red or a request is under way,
/// else a request for the size entered, or, where the entry holds no valid size, a red blink.
#[derive(Debug, Clone, Copy, PartialEq, Eq, Structural)]
pub enum YesSelected {
    Ignored,
    Request(u32),
    BeepRed,
}

/// What the popup does once a request is answered: close, or show an error message.
#[derive(Debug, Clone, Copy, PartialEq, Eq)]
pub enum RequestFollowUp {
    Close,
    ShowError(&'static str),
}

/// The background color of the entry while typing: green for a valid size, red otherwise.
#[derive(Debug, Clone, Copy, PartialEq, Eq, Structural)]
pub enum EntryColor {
    Green,
    Red,
}

/// The state of the buffer size popup: whether the entry is blinking red, whether a request is
/// under way, the message on top, and whether the buttons are shown and the popup can be
/// closed; and whether a redraw or the closing of the popup was asked for.
pub struct Controller {
    is_beeping_red: bool,
    is_doing_request: bool,
    top_message: TopMessage,
    showing_buttons: bool,
    closable: bool,
    redraw_requested: bool,
    close_requested: bool,
}

/// The state of the popup as plain values.
#[derive(Debug, Clone, Copy, PartialEq, Eq, Structural)]
pub struct ControllerState {
    pub is_beeping_red: bool,
    pub is_doing_request: bool,
    pub top_message: TopMessage,
    pub showing_buttons: bool,
    pub closable: bool,
}

/// The state after a request for a new size is sent: the offer is shown again, the buttons
/// are hidden and the popup cannot be closed until the answer.
pub open spec fn requesting(s: ControllerState) -> ControllerState {
    ControllerState {
        top_message: TopMessage::Offer,
        is_doing_request: true,
        showing_buttons: false,
        closable: false,
        ..s
    }
}

/// The state while the entry blinks red: the message asks for a valid size.
pub open spec fn beeping(s: ControllerState) -> ControllerState {
    ControllerState { top_message: TopMessage::Invalid, is_beeping_red: true, ..s }
}

/// What selecting YES does, given the size the entry stands for.
pub open spec fn yes_selected_spec(s: ControllerState, size: Option<u32>) -> (ControllerState, YesSelected) {
    if s.is_beeping_red || s.is_doing_request {
        (s, YesSelected::Ignored)
    } else {
        match size {
            Some(n) => (requesting(s), YesSelected::Request(n)),
            None => (beeping(s), YesSelected::BeepRed),
        }
    }
}

/// Once a request is sent, selecting YES again does nothing until it is answered, whatever the
/// entry holds; and a request is only ever sent from an idle popup.
pub proof fn lemma_one_request_at_a_time(s: ControllerState, size: Option<u32>, later: Option<u32>)
    ensures
        yes_selected_spec(requesting(s), later) == (requesting(s), YesSelected::Ignored),
        yes_selected_spec(s, size).1 is Request ==> !s.is_doing_request && !s.is_beeping_red,
{
}

impl Controller {
    pub closed spec fn state(&self) -> ControllerState {
        ControllerState {
            is_beeping_red: self.is_beeping_red,
            is_doing_request: self.is_doing_request,
            top_message: self.top_message,
            showing_buttons: self.showing_buttons,
            closable: self.closable,
        }
    }

    /// Whether a redraw was asked for and not yet taken.
    pub closed spec fn spec_redraw_requested(&self) -> bool {
        self.redraw_requested
    }

    /// Whether the closing of the popup was asked for.
    pub closed spec fn spec_close_requested(&self) -> bool {
        self.close_requested
    }

    /// A popup offering a new size, with its buttons, closable, and idle.
    pub fn new() -> (c: Self)
        ensures
            c.state() == (ControllerState {
                is_beeping_red: false,
                is_doing_request: false,
                top_message: TopMessage::Offer,
                showing_buttons: true,
                closable: true,
            }),
            !c.spec_redraw_requested(),
            !c.spec_close_requested(),
    {
        Self {
            is_beeping_red: false,
            is_doing_request: false,
            top_message: TopMessage::Offer,
            showing_buttons: true,
            closable: true,
            redraw_requested: false,
            close_requested: false,
        }
    }

    /// Whether a redraw was asked for since this was last asked; asking resets it.
    pub fn take_redraw_request(&mut self) -> (r: bool)
        ensures
            r == old(self).spec_redraw_requested(),
            !final(self).spec_redraw_requested(),
            final(self).state() == old(self).state(),
            final(self).spec_close_requested() == old(self).spec_close_requested(),
    {
        let r = self.redraw_requested;
        self.redraw_requested = false;
        r
    }

    /// Whether the closing of the popup was asked for.
    pub fn is_close_requested(&self) -> (r: bool)
        ensures
            r == self.spec_close_requested(),
    {
        self.close_requested
    }

    pub fn get_top_message(&self) -> (m: TopMessage)
        ensures
            m == self.state().top_message,
    {
        self.top_message
    }

    pub fn get_state(&self) -> (s: ControllerState)
        ensures
            s == self.state(),
    {
        ControllerState {
            is_beeping_red: self.is_beeping_red,
            is_doing_request: self.is_doing_request,
            top_message: self.top_message,
            showing_buttons: self.showing_buttons,
            closable: self.closable,
        }
    }

    /// Sets the message on top; a change asks for a redraw.
    pub fn set_top_message(&mut self, top_message: TopMessage)
        ensures
            final(self).state() == (ControllerState { top_message, ..old(self).state() }),
            final(self).spec_redraw_requested() == (old(self).spec_redraw_requested() || old(self).state().top_message
                != top_message),
            final(self).spec_close_requested() == old(self).spec_close_requested(),
    {
        if self.top_message != top_message {
            self.top_message = top_message;
            self.redraw_requested = true;
        }
    }

    /// The entry starts blinking red, and the message asks for a valid size.
    pub fn text_entry_beep_red(&mut self)
        ensures
            final(self).state() == beeping(old(self).state()),
            final(self).spec_redraw_requested(),
            final(self).spec_close_requested() == old(self).spec_close_requested(),
    {
        self.top_message = TopMessage::Invalid;
        self.is_beeping_red = true;
        self.redraw_requested = true;
    }

    /// The entry's red blinking has ended.
    pub fn beep_finished(&mut self)
        ensures
            final(self).state() == (ControllerState { is_beeping_red: false, ..old(self).state() }),
            final(self).spec_redraw_requested() == old(self).spec_redraw_requested(),
            final(self).spec_close_requested() == old(self).spec_close_requested(),
    {
        self.is_beeping_red = false;
    }

    /// A request for a new size is sent; hiding the buttons or making the popup unclosable
    /// asks for a redraw.
    pub fn perform_request(&mut self, buffer_size: u32)
        ensures
            final(self).state() == requesting(old(self).state()),
            final(self).spec_redraw_requested() == (old(self).spec_redraw_requested() || old(self).state().showing_buttons
                || old(self).state().closable),
            final(self).spec_close_requested() == old(self).spec_close_requested(),
    {
        self.top_message = TopMessage::Offer;
        self.is_doing_request = true;
        self.set_showing_buttons(false);
        self.set_closable(false);
    }

    /// YES was selected with the entry standing for `size`.
    pub fn on_buffer_size_entered(&mut self, size: Option<u32>) -> (r: YesSelected)
        ensures
            (final(self).state(), r) == yes_selected_spec(old(self).state(), size),
            final(self).spec_redraw_requested() == match r {
                YesSelected::Ignored => old(self).spec_redraw_requested(),
                YesSelected::Request(_) => old(self).spec_redraw_requested() || old(self).state().showing_buttons
                    || old(self).state().closable,
                YesSelected::BeepRed => true,
            },
            final(self).spec_close_requested() == old(self).spec_close_requested(),
    {
        if self.is_beeping_red || self.is_doing_request {
            return YesSelected::Ignored;
        }
        match size {
            Some(n) => {
                self.perform_request(n);
                YesSelected::Request(n)
            },
            None => {
                self.text_entry_beep_red();
                YesSelected::BeepRed
            },
        }
    }

    /// YES was selected with the entry holding `text`: the text is read only when the popup
    /// is idle.
    pub fn on_yes_selected(&mut self, text: &str) -> (r: YesSelected)
        ensures
            old(self).state().is_beeping_red || old(self).state().is_doing_request ==> r == YesSelected::Ignored
                && final(self).state() == old(self).state() && final(self).spec_redraw_requested()
                == old(self).spec_redraw_requested(),
            !(old(self).state().is_beeping_red || old(self).state().is_doing_request) ==> (final(self).state(), r)
                == yes_selected_spec(old(self).state(), pretty_buffer_size_of(text@)),
            final(self).spec_redraw_requested() == match r {
                YesSelected::Ignored => old(self).spec_redraw_requested(),
                YesSelected::Request(_) => old(self).spec_redraw_requested() || old(self).state().showing_buttons
                    || old(self).state().closable,
                YesSelected::BeepRed => true,
            },
            final(self).spec_close_requested() == old(self).spec_close_requested(),
    {
        if self.is_beeping_red || self.is_doing_request {
            return YesSelected::Ignored;
        }
        let size = parse_buffer_size_entry(text);
        self.on_buffer_size_entered(size)
    }

    /// The request was answered: an accepted size closes the popup; otherwise the error is
    /// shown and the popup is idle again, with its buttons, and closable (bringing either back
    /// asks for a redraw).
    pub fn on_request_result(&mut self, result: SetBufferSizeResult) -> (r: RequestFollowUp)
        ensures
            result == SetBufferSizeResult::Accepted ==> r == RequestFollowUp::Close && final(self).state()
                == old(self).state() && final(self).spec_close_requested() && final(self).spec_redraw_requested()
                == old(self).spec_redraw_requested(),
            result == SetBufferSizeResult::Refused ==> r == RequestFollowUp::ShowError(SERVER_ERROR_MESSAGE),
            result == SetBufferSizeResult::NotSent ==> r == RequestFollowUp::ShowError(REQUEST_SEND_ERROR_MESSAGE),
            result != SetBufferSizeResult::Accepted ==> final(self).state() == (ControllerState {
                is_doing_request: false,
                showing_buttons: true,
                closable: true,
                ..old(self).state()
            }) && final(self).spec_redraw_requested() == (old(self).spec_redraw_requested()
                || !old(self).state().showing_buttons || !old(self).state().closable)
                && final(self).spec_close_requested() == old(self).spec_close_requested(),
    {
        match result {
            SetBufferSizeResult::Accepted => {
                self.close_popup();
                RequestFollowUp::Close
            },
            _ => {
                self.is_doing_request = false;
                self.set_showing_buttons(true);
                self.set_closable(true);
                match result {
                    SetBufferSizeResult::Refused => RequestFollowUp::ShowError(SERVER_ERROR_MESSAGE),
                    _ => RequestFollowUp::ShowError(REQUEST_SEND_ERROR_MESSAGE),
                }
            },
        }
    }
}

impl PopupBaseController for Controller {
    fn redraw_notify(&mut self)
        ensures
            final(self).spec_redraw_requested(),
            final(self).state() == old(self).state(),
            final(self).spec_close_requested() == old(self).spec_close_requested(),
    {
        self.redraw_requested = true;
    }

    fn close_popup(&mut self)
        ensures
            final(self).spec_close_requested(),
            final(self).state() == old(self).state(),
            final(self).spec_redraw_requested() == old(self).spec_redraw_requested(),
    {
        self.close_requested = true;
    }

    /// A change asks for a redraw.
    fn set_closable(&mut self, closable: bool)
        ensures
            final(self).state() == (ControllerState { closable, ..old(self).state() }),
            final(self).spec_redraw_requested() == (old(self).spec_redraw_requested() || old(self).state().closable
                != closable),
            final(self).spec_close_requested() == old(self).spec_close_requested(),
    {
        if self.closable != closable {
            self.closable = closable;
            self.redraw_requested = true;
        }
    }

    fn get_closable(&self) -> (r: bool)
        ensures
            r == self.state().closable,
    {
        self.closable
    }
}

impl YesNoPopupController for Controller {
    /// A change asks for a redraw.
    fn set_showing_buttons(&mut self, showing: bool)
        ensures
            final(self).state() == (ControllerState { showing_buttons: showing, ..old(self).state() }),
            final(self).spec_redraw_requested() == (old(self).spec_redraw_requested() || old(self).state().showing_buttons
                != showing),
            final(self).spec_close_requested() == old(self).spec_close_requested(),
    {
        if self.showing_buttons != showing {
            self.showing_buttons = showing;
            self.redraw_requested = true;
        }
    }

    fn get_showing_buttons(&self) -> (r: bool)
        ensures
            r == self.state().showing_buttons,
    {
        self.showing_buttons
    }
}

/// The entry takes only ASCII letters and digits.
pub fn on_char(c: char) -> (accepted: bool)
    ensures
        accepted == is_ascii_alphanumeric_spec(c),
{
    is_ascii_alphanumeric(c)
}

/// The color of the entry while typing `text`.
pub fn on_text_changed(text: &str) -> (color: EntryColor)
    ensures
        color == (if pretty_buffer_size_of(text@) is Some { EntryColor::Green } else { EntryColor::Red }),
{
    match parse_buffer_size_entry(text) {
        Some(_) => EntryColor::Green,
        None => EntryColor::Red,
    }
}

/// The handler of the popup's buffer size entry: ENTER selects YES, only ASCII letters and
/// digits are typed, and the entry's color follows whether its text is a valid size.
pub struct BufferSizeEntryHandler {
    pub controller: Controller,
    pub typing_color: EntryColor,
}

impl TextEntryHandler for BufferSizeEntryHandler {
    open spec fn takes_char(&self, text: Seq<char>, c: char, cursor: CursorPosition) -> bool {
        is_ascii_alphanumeric_spec(c)
    }

    /// ENTER selects YES; the focus is passed away once a request is sent.
    fn on_enter(&mut self, text: &Vec<char>) -> (r: EntryEnterResult)
        ensures
            ({
                let (state, outcome) = yes_selected_spec(
                    old(self).controller.state(),
                    pretty_buffer_size_of(text@),
                );
                &&& (old(self).controller.state().is_beeping_red || old(self).controller.state().is_doing_request)
                    ==> r == EntryEnterResult::Handled && final(self).controller.state() == old(self).controller.state()
                &&& !(old(self).controller.state().is_beeping_red || old(self).controller.state().is_doing_request)
                    ==> final(self).controller.state() == state && r == (if outcome is Request {
                    EntryEnterResult::PassFocusAway
                } else {
                    EntryEnterResult::Handled
                })
            }),
    {
        let s = string_from_chars(text, 0, text.len());
        assert(s@ =~= text@);
        match self.controller.on_yes_selected(s.as_str()) {
            YesSelected::Request(_) => EntryEnterResult::PassFocusAway,
            _ => EntryEnterResult::Handled,
        }
    }

    fn on_char(&mut self, text: &Vec<char>, c: char, cursor: &CursorPosition) -> (taken: bool) {
        on_char(c)
    }

    /// The entry turns green for a valid size, red otherwise; it keeps the focus.
    fn on_text_changed(&mut self, text: &Vec<char>) -> (r: bool)
        ensures
            r,
            final(self).typing_color == (if pretty_buffer_size_of(text@) is Some {
                EntryColor::Green
            } else {
                EntryColor::Red
            }),
            final(self).controller.state() == old(self).controller.state(),
    {
        let s = string_from_chars(text, 0, text.len());
        assert(s@ =~= text@);
        self.typing_color = on_text_changed(s.as_str());
        true
    }
}

} // verus!
