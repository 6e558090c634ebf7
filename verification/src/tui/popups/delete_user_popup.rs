//! The delete user popup: YES sends the request, and the server's answer closes the popup or
//! shows why the user was not deleted.

use vstd::prelude::*;

use crate::args::UserRole;
use crate::handle_requests::DeleteUserStatus;
use crate::tui::popups::update_user_popup::{CANNOT_DELETE_ONLY_ADMIN_MESSAGE, USER_NOT_FOUND_MESSAGE};
use crate::tui::popups::yes_no_popup::{request_failed, request_sent, YesNoSimpleController};
use crate::tui::popups::REQUEST_SEND_ERROR_MESSAGE;

verus! {

/// The message above the reason the server gave for refusing to delete the user.
pub const SERVER_DELETE_ERROR_MESSAGE: &'static str = "The user was not deleted because the server rejected the operation:";

/// What follows the server's answer to a deletion.
#[derive(Debug, Clone, Copy, PartialEq, Eq)]
pub enum DeleteUserAction {
    /// The user was deleted: every listener is told of it, with the user's role, and the popup
    /// closes.
    Close(UserRole),
    /// An error is shown: its message, and the reason the server gave, if it gave one.
    ShowError(&'static str, Option<&'static str>),
}

/// YES was selected: the request is sent, so the buttons are hidden and the popup cannot be
/// closed.
pub fn delete_user_yes_selected(controller: &mut YesNoSimpleController)
    ensures
        *final(controller) == request_sent(*old(controller)),
{
    controller.begin_request();
}

/// The server answered the deletion of a user with `role` (`None`: the request could not be
/// sent or answered). A deletion that went through closes the popup; any other answer shows
/// its error, and the buttons are back and the popup can be closed again.
pub fn delete_user_answered(controller: &mut YesNoSimpleController, answer: Option<DeleteUserStatus>, role: UserRole) -> (a:
    DeleteUserAction)
    ensures
        answer == Some(DeleteUserStatus::Deleted) ==> a == DeleteUserAction::Close(role) && *final(controller)
            == (YesNoSimpleController { close_requested: true, ..*old(controller) }),
        answer == Some(DeleteUserStatus::UserNotFound) ==> a == DeleteUserAction::ShowError(
            SERVER_DELETE_ERROR_MESSAGE,
            Some(USER_NOT_FOUND_MESSAGE),
        ),
        answer == Some(DeleteUserStatus::CannotDeleteOnlyAdmin) ==> a == DeleteUserAction::ShowError(
            SERVER_DELETE_ERROR_MESSAGE,
            Some(CANNOT_DELETE_ONLY_ADMIN_MESSAGE),
        ),
        answer is None ==> a == DeleteUserAction::ShowError(REQUEST_SEND_ERROR_MESSAGE, None),
        answer != Some(DeleteUserStatus::Deleted) ==> *final(controller) == request_failed(*old(controller)),
{
    let action = match answer {
        Some(DeleteUserStatus::Deleted) => {
            controller.close_requested = true;
            return DeleteUserAction::Close(role);
        },
        Some(DeleteUserStatus::UserNotFound) => DeleteUserAction::ShowError(
            SERVER_DELETE_ERROR_MESSAGE,
            Some(USER_NOT_FOUND_MESSAGE),
        ),
        Some(DeleteUserStatus::CannotDeleteOnlyAdmin) => DeleteUserAction::ShowError(
            SERVER_DELETE_ERROR_MESSAGE,
            Some(CANNOT_DELETE_ONLY_ADMIN_MESSAGE),
        ),
        None => DeleteUserAction::ShowError(REQUEST_SEND_ERROR_MESSAGE, None),
    };
    controller.request_refused();
    action
}

} // verus!
