//! The add socket popup: the address entered is checked, a request is sent for a valid one
//! (one at a time), and the server's answer closes the popup or shows its error.

use vstd::prelude::*;

use crate::args::SocketAddress;
use crate::tui::popups::request_popup::{beeping, done, is_busy, refused, requesting, RequestPopupState};
use crate::tui::popups::REQUEST_SEND_ERROR_MESSAGE;

verus! {

/// The message above the error the server met while opening the socket.
pub const SERVER_ADD_ERROR_MESSAGE: &'static str = "The server encountered an error while opening the socket:";

/// What selecting YES comes to: nothing while the entry blinks red or a request is under way,
/// else a request to open the address entered, or, where the entry holds no address, a red
/// blink.
#[derive(Debug, Clone, Copy, PartialEq, Eq, Structural)]
pub enum AddSocketYes {
    Ignored,
    Request(SocketAddress),
    BeepRed,
}

/// What follows the server's answer.
#[derive(Debug, PartialEq, Eq)]
pub enum AddSocketAction {
    /// The socket is open: every listener is told of it, and the popup closes.
    Close(SocketAddress),
    /// An error is shown: its message, and the server's description of it, if it gave one.
    ShowError(&'static str, Option<String>),
}

/// YES was selected with the entry standing for `address` (none where it is not an address).
pub fn add_socket_yes_selected(state: &mut RequestPopupState, address: Option<SocketAddress>) -> (r: AddSocketYes)
    ensures
        is_busy(*old(state)) ==> r == AddSocketYes::Ignored && *final(state) == *old(state),
        !is_busy(*old(state)) ==> match address {
            Some(a) => r == AddSocketYes::Request(a) && *final(state) == requesting(*old(state)),
            None => r == AddSocketYes::BeepRed && *final(state) == beeping(*old(state)),
        },
{
    if state.is_busy() {
        return AddSocketYes::Ignored;
    }
    match address {
        Some(a) => {
            state.perform_request();
            AddSocketYes::Request(a)
        },
        None => {
            state.text_entry_beep_red();
            AddSocketYes::BeepRed
        },
    }
}

/// The server answered the request to open `address` (`None`: the request could not be sent
/// or answered; `Some(Err(e))`: the server's error `e`). An open socket closes the popup;
/// otherwise the error is shown, and the popup is idle again, with its buttons and closable.
pub fn add_socket_answered(state: &mut RequestPopupState, address: SocketAddress, answer: Option<Result<(), String>>) -> (a:
    AddSocketAction)
    ensures
        answer matches Some(Ok(_)) ==> a == AddSocketAction::Close(address) && *final(state) == done(*old(state)),
        answer matches Some(Err(e)) ==> a == AddSocketAction::ShowError(SERVER_ADD_ERROR_MESSAGE, Some(e)),
        answer is None ==> a == AddSocketAction::ShowError(REQUEST_SEND_ERROR_MESSAGE, None),
        !(answer matches Some(Ok(_))) ==> *final(state) == refused(*old(state)),
{
    let action = match answer {
        Some(Ok(())) => {
            state.request_done();
            return AddSocketAction::Close(address);
        },
        Some(Err(e)) => AddSocketAction::ShowError(SERVER_ADD_ERROR_MESSAGE, Some(e)),
        None => AddSocketAction::ShowError(REQUEST_SEND_ERROR_MESSAGE, None),
    };
    state.request_refused();
    action
}

} // verus!
