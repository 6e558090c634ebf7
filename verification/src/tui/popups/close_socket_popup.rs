//! The close socket popup: YES sends the request, and the server's answer closes the popup or
//! shows that the socket was not found.

use vstd::prelude::*;

use crate::handle_requests::RemoveSocketStatus;
use crate::tui::popups::yes_no_popup::{request_failed, request_sent, YesNoSimpleController};
use crate::tui::popups::REQUEST_SEND_ERROR_MESSAGE;

verus! {

/// The message shown when the server did not find the socket.
pub const SERVER_REMOVE_ERROR_MESSAGE: &'static str = "The server could not find the socket you requested to remove.";

/// What follows the server's answer to closing a socket.
#[derive(Debug, Clone, Copy, PartialEq, Eq)]
pub enum CloseSocketAction {
    /// The socket was closed: every listener is told of it, and the popup closes.
    Close,
    /// An error message is shown.
    ShowError(&'static str),
}

/// YES was selected: the request is sent, so the buttons are hidden and the popup cannot be
/// closed.
pub fn close_socket_yes_selected(controller: &mut YesNoSimpleController)
    ensures
        *final(controller) == request_sent(*old(controller)),
{
    controller.begin_request();
}

/// The server answered (`None`: the request could not be sent or answered). A closed socket
/// closes the popup; otherwise the error is shown, and the buttons are back and the popup can
/// be closed again.
pub fn close_socket_answered(controller: &mut YesNoSimpleController, answer: Option<RemoveSocketStatus>) -> (a:
    CloseSocketAction)
    ensures
        answer == Some(RemoveSocketStatus::Removed) ==> a == CloseSocketAction::Close && *final(controller)
            == (YesNoSimpleController { close_requested: true, ..*old(controller) }),
        answer == Some(RemoveSocketStatus::SocketNotFound) ==> a == CloseSocketAction::ShowError(
            SERVER_REMOVE_ERROR_MESSAGE,
        ),
        answer is None ==> a == CloseSocketAction::ShowError(REQUEST_SEND_ERROR_MESSAGE),
        answer != Some(RemoveSocketStatus::Removed) ==> *final(controller) == request_failed(*old(controller)),
{
    let action = match answer {
        Some(RemoveSocketStatus::Removed) => {
            controller.close_requested = true;
            return CloseSocketAction::Close;
        },
        Some(RemoveSocketStatus::SocketNotFound) => CloseSocketAction::ShowError(SERVER_REMOVE_ERROR_MESSAGE),
        None => CloseSocketAction::ShowError(REQUEST_SEND_ERROR_MESSAGE),
    };
    controller.request_refused();
    action
}

} // verus!
