//! The add user popup: the username and password entered are checked, a request is sent when
//! both are given (one at a time), and the server's answer closes the popup or shows why the
//! user was not added.

use vstd::prelude::*;

use crate::args::UserRole;
use crate::handle_requests::AddUserStatus;
use crate::text::string_from_chars;
use crate::tui::elements::arrow_selector::ArrowSelectorHandler;
use crate::tui::popups::request_popup::{beeping, done, is_busy, refused, requesting, RequestPopupState};
use crate::tui::popups::update_user_popup::role_at;
use crate::tui::popups::REQUEST_SEND_ERROR_MESSAGE;

verus! {

/// The message above the reason the server gave for refusing to add the user.
pub const SERVER_ADD_ERROR_MESSAGE: &'static str = "The user was not added because the server rejected the operation:";

/// The reason shown when the server finds the values invalid.
pub const SERVER_INVALID_VALUES_MESSAGE: &'static str = "The provided values are invalid";

/// The reason shown when the user already exists.
pub const SERVER_ALREADY_EXISTS_MESSAGE: &'static str = "A user with said username already exists";

/// The state of the add user popup: its request state and the role chosen.
#[derive(Debug, Clone, Copy, PartialEq, Eq, Structural)]
pub struct AddUserState {
    pub request: RequestPopupState,
    pub selected_role: UserRole,
}

/// What selecting YES comes to: nothing while an entry blinks red or a request is under way; a
/// red blink of the username entry when it is empty, else of the password entry when that is
/// empty; else a request to add the user with the chosen role.
#[derive(Debug, PartialEq, Eq)]
pub enum AddUserYes {
    Ignored,
    BeepUsername,
    BeepPassword,
    Request(String, String, UserRole),
}

/// What follows the server's answer.
#[derive(Debug, Clone, Copy, PartialEq, Eq)]
pub enum AddUserAction {
    /// The user was added: every listener is told of it, and the popup closes.
    Close,
    /// An error is shown: its message, and the reason the server gave, if it gave one.
    ShowError(&'static str, Option<&'static str>),
}

impl AddUserState {
    /// Idle, with its buttons, closable; the regular role chosen.
    pub fn new() -> (s: Self)
        ensures
            s.request == (RequestPopupState {
                base: crate::tui::popups::yes_no_popup::YesNoSimpleController {
                    showing_buttons: true,
                    closable: true,
                    redraw_requested: false,
                    close_requested: false,
                },
                is_beeping_red: false,
                is_doing_request: false,
            }),
            s.selected_role == UserRole::Regular,
    {
        AddUserState { request: RequestPopupState::new(), selected_role: UserRole::Regular }
    }

    /// YES was selected with `username` and `password` in the entries.
    pub fn on_yes_selected(&mut self, username: &Vec<char>, password: &Vec<char>) -> (r: AddUserYes)
        ensures
            final(self).selected_role == old(self).selected_role,
            is_busy(old(self).request) ==> r == AddUserYes::Ignored && *final(self) == *old(self),
            !is_busy(old(self).request) && username@.len() == 0 ==> r == AddUserYes::BeepUsername
                && final(self).request == beeping(old(self).request),
            !is_busy(old(self).request) && username@.len() > 0 && password@.len() == 0 ==> r
                == AddUserYes::BeepPassword && final(self).request == beeping(old(self).request),
            !is_busy(old(self).request) && username@.len() > 0 && password@.len() > 0 ==> {
                &&& final(self).request == requesting(old(self).request)
                &&& r matches AddUserYes::Request(u, p, role) && u@ == username@ && p@ == password@ && role
                    == old(self).selected_role
            },
    {
        if self.request.is_busy() {
            return AddUserYes::Ignored;
        }
        if username.len() == 0 {
            self.request.text_entry_beep_red();
            return AddUserYes::BeepUsername;
        }
        if password.len() == 0 {
            self.request.text_entry_beep_red();
            return AddUserYes::BeepPassword;
        }
        let u = string_from_chars(username, 0, username.len());
        let p = string_from_chars(password, 0, password.len());
        assert(u@ =~= username@);
        assert(p@ =~= password@);
        self.request.perform_request();
        AddUserYes::Request(u, p, self.selected_role)
    }

    /// The server answered (`None`: the request could not be sent or answered). An added
    /// user closes the popup; any other answer shows its error, and the popup is idle again,
    /// with its buttons and closable.
    pub fn on_answer(&mut self, answer: Option<AddUserStatus>) -> (a: AddUserAction)
        ensures
            final(self).selected_role == old(self).selected_role,
            answer == Some(AddUserStatus::Added) ==> a == AddUserAction::Close && final(self).request == done(
                old(self).request,
            ),
            answer == Some(AddUserStatus::AlreadyExists) ==> a == AddUserAction::ShowError(
                SERVER_ADD_ERROR_MESSAGE,
                Some(SERVER_ALREADY_EXISTS_MESSAGE),
            ),
            answer == Some(AddUserStatus::InvalidValues) ==> a == AddUserAction::ShowError(
                SERVER_ADD_ERROR_MESSAGE,
                Some(SERVER_INVALID_VALUES_MESSAGE),
            ),
            answer is None ==> a == AddUserAction::ShowError(REQUEST_SEND_ERROR_MESSAGE, None),
            answer != Some(AddUserStatus::Added) ==> final(self).request == refused(old(self).request),
    {
        let action = match answer {
            Some(AddUserStatus::Added) => {
                self.request.request_done();
                return AddUserAction::Close;
            },
            Some(AddUserStatus::AlreadyExists) => AddUserAction::ShowError(
                SERVER_ADD_ERROR_MESSAGE,
                Some(SERVER_ALREADY_EXISTS_MESSAGE),
            ),
            Some(AddUserStatus::InvalidValues) => AddUserAction::ShowError(
                SERVER_ADD_ERROR_MESSAGE,
                Some(SERVER_INVALID_VALUES_MESSAGE),
            ),
            None => AddUserAction::ShowError(REQUEST_SEND_ERROR_MESSAGE, None),
        };
        self.request.request_refused();
        action
    }
}

impl ArrowSelectorHandler for AddUserState {
    /// The role at the selected option is the one chosen.
    open spec fn told_selection(self, selected_index: usize) -> Self {
        AddUserState { selected_role: role_at(selected_index), ..self }
    }

    fn selection_changed(&mut self, selected_index: usize) {
        self.selected_role = if selected_index == 1 { UserRole::Admin } else { UserRole::Regular };
    }
}

} // verus!
