//! The update user popup: the role the user has and the one chosen, the request for a new
//! password or role, one at a time, and what follows the server's answer.

use vstd::prelude::*;

use crate::args::UserRole;
use crate::handle_requests::UpdateUserStatus;
use crate::text::string_from_chars;
use crate::tui::elements::arrow_selector::ArrowSelectorHandler;
use crate::tui::popups::REQUEST_SEND_ERROR_MESSAGE;

verus! {

/// The message above the reason the server gave for refusing an update.
pub const SERVER_UPDATE_ERROR_MESSAGE: &'static str = "The user was not updated because the server rejected the operation:";

/// The reason shown when the user does not exist.
pub const USER_NOT_FOUND_MESSAGE: &'static str = "No user was found with such username. Was it just deleted?";

/// The reason shown when the update would leave the server without an admin.
pub const CANNOT_DELETE_ONLY_ADMIN_MESSAGE: &'static str = "Cannot delete the only admin, that would leave the server inaccessible!";

/// The reason shown when neither a password nor a role was asked for.
pub const NOTHING_WAS_REQUESTED_MESSAGE: &'static str = "No changes were requested";

/// The state of the update user popup: the user's role as last heard, whether that role is yet
/// to be shown in the role selector, the role chosen in it (if one was), whether a password
/// entry is blinking red, whether a request is under way, whether the buttons are shown and
/// the popup can be closed, and whether a redraw or the closing of the popup was asked for.
#[derive(Debug, Clone, Copy, PartialEq, Eq, Structural)]
pub struct UpdateUserState {
    pub role: UserRole,
    pub did_role_change: bool,
    pub selected_role: Option<UserRole>,
    pub is_beeping_red: bool,
    pub is_doing_request: bool,
    pub showing_buttons: bool,
    pub closable: bool,
    pub redraw_requested: bool,
    pub close_requested: bool,
}

/// What follows the server's answer to an update.
#[derive(Debug, Clone, Copy, PartialEq, Eq)]
pub enum UpdateUserAction {
    /// The user was updated: every listener is told it now has this role, and the popup closes.
    Close(UserRole),
    /// An error is shown: its message, and the reason the server gave, if it gave one.
    ShowError(&'static str, Option<&'static str>),
}

/// The reason shown for each refusal of the server.
pub open spec fn update_refusal_reason(status: UpdateUserStatus) -> &'static str {
    match status {
        UpdateUserStatus::UserNotFound => USER_NOT_FOUND_MESSAGE,
        UpdateUserStatus::CannotDeleteOnlyAdmin => CANNOT_DELETE_ONLY_ADMIN_MESSAGE,
        _ => NOTHING_WAS_REQUESTED_MESSAGE,
    }
}

/// The role the role selector's option at `index` stands for: the second option is admin,
/// any other regular.
pub open spec fn role_at(index: usize) -> UserRole {
    if index == 1 { UserRole::Admin } else { UserRole::Regular }
}

impl UpdateUserState {
    /// The popup for a user with `role`: nothing chosen yet, idle, with its buttons, closable.
    pub fn new(role: UserRole) -> (s: Self)
        ensures
            s == (UpdateUserState {
                role,
                did_role_change: false,
                selected_role: None,
                is_beeping_red: false,
                is_doing_request: false,
                showing_buttons: true,
                closable: true,
                redraw_requested: false,
                close_requested: false,
            }),
    {
        UpdateUserState {
            role,
            did_role_change: false,
            selected_role: None,
            is_beeping_red: false,
            is_doing_request: false,
            showing_buttons: true,
            closable: true,
            redraw_requested: false,
            close_requested: false,
        }
    }

    /// The user's role was announced: it is kept, and, unless a role was chosen in the
    /// selector, it is to be shown there; a redraw is asked for.
    pub fn user_role_changed(&mut self, role: UserRole)
        ensures
            *final(self) == (UpdateUserState {
                role,
                did_role_change: old(self).selected_role is None,
                redraw_requested: true,
                ..*old(self)
            }),
    {
        self.role = role;
        self.did_role_change = self.selected_role.is_none();
        self.redraw_requested = true;
    }

    /// The role to show in the selector, if it changed since this was last asked; asking
    /// resets it.
    pub fn did_user_role_change(&mut self) -> (r: Option<UserRole>)
        ensures
            r == (if old(self).did_role_change { Some(old(self).role) } else { None }),
            *final(self) == (UpdateUserState { did_role_change: false, ..*old(self) }),
    {
        if self.did_role_change {
            self.did_role_change = false;
            Some(self.role)
        } else {
            None
        }
    }

    /// A role was chosen in the selector: it is the one to request, and the announced role no
    /// longer replaces it.
    pub fn selected_role_changed(&mut self, selected_role: UserRole)
        ensures
            *final(self) == (UpdateUserState {
                did_role_change: false,
                selected_role: Some(selected_role),
                ..*old(self)
            }),
    {
        self.did_role_change = false;
        self.selected_role = Some(selected_role);
    }

    /// A request is sent: the buttons are hidden and the popup cannot be closed (a change asks
    /// for a redraw).
    pub fn perform_request(&mut self)
        ensures
            *final(self) == (UpdateUserState {
                is_doing_request: true,
                showing_buttons: false,
                closable: false,
                redraw_requested: old(self).redraw_requested || old(self).showing_buttons || old(self).closable,
                ..*old(self)
            }),
    {
        self.is_doing_request = true;
        if self.showing_buttons || self.closable {
            self.redraw_requested = true;
        }
        self.showing_buttons = false;
        self.closable = false;
    }

    /// YES was selected with `password` in the password entry: unless the entry blinks red or
    /// a request is under way, a request is sent for the new password (none where the entry is
    /// empty) and the role chosen in the selector (none where none was chosen).
    pub fn on_yes_selected(&mut self, password: &Vec<char>) -> (r: Option<(Option<String>, Option<UserRole>)>)
        ensures
            old(self).is_beeping_red || old(self).is_doing_request ==> r is None && *final(self) == *old(self),
            !(old(self).is_beeping_red || old(self).is_doing_request) ==> {
                &&& r matches Some((p, role)) && role == old(self).selected_role && (match p {
                    Some(s) => password@.len() > 0 && s@ == password@,
                    None => password@.len() == 0,
                })
                &&& *final(self) == (UpdateUserState {
                    is_doing_request: true,
                    showing_buttons: false,
                    closable: false,
                    redraw_requested: old(self).redraw_requested || old(self).showing_buttons || old(self).closable,
                    ..*old(self)
                })
            },
    {
        if self.is_beeping_red || self.is_doing_request {
            return None;
        }
        let new_password = if password.len() == 0 {
            None
        } else {
            let s = string_from_chars(password, 0, password.len());
            assert(s@ =~= password@);
            Some(s)
        };
        let role = self.selected_role;
        self.perform_request();
        Some((new_password, role))
    }
}

/// The server answered an update (`None`: the request could not be sent or answered), which
/// asked for `requested_role` (if any). An update that went through closes the popup, telling
/// every listener of the role the user now has: the one requested, or else the one last
/// heard. Any other answer shows its error, and the popup is idle again, with its buttons and
/// closable (bringing either back asks for a redraw).
pub fn update_user_answered(
    state: &mut UpdateUserState,
    answer: Option<UpdateUserStatus>,
    requested_role: Option<UserRole>,
) -> (a: UpdateUserAction)
    ensures
        answer == Some(UpdateUserStatus::Updated) ==> {
            &&& a == UpdateUserAction::Close(
                match requested_role {
                    Some(r) => r,
                    None => old(state).role,
                },
            )
            &&& *final(state) == (UpdateUserState { close_requested: true, ..*old(state) })
        },
        answer matches Some(status) ==> (status != UpdateUserStatus::Updated ==> a == UpdateUserAction::ShowError(
            SERVER_UPDATE_ERROR_MESSAGE,
            Some(update_refusal_reason(status)),
        )),
        answer is None ==> a == UpdateUserAction::ShowError(REQUEST_SEND_ERROR_MESSAGE, None),
        answer != Some(UpdateUserStatus::Updated) ==> *final(state) == (UpdateUserState {
            is_doing_request: false,
            showing_buttons: true,
            closable: true,
            redraw_requested: old(state).redraw_requested || !old(state).showing_buttons || !old(state).closable,
            ..*old(state)
        }),
{
    let action = match answer {
        Some(UpdateUserStatus::Updated) => {
            let role = match requested_role {
                Some(r) => r,
                None => state.role,
            };
            state.close_requested = true;
            return UpdateUserAction::Close(role);
        },
        Some(UpdateUserStatus::UserNotFound) => UpdateUserAction::ShowError(
            SERVER_UPDATE_ERROR_MESSAGE,
            Some(USER_NOT_FOUND_MESSAGE),
        ),
        Some(UpdateUserStatus::CannotDeleteOnlyAdmin) => UpdateUserAction::ShowError(
            SERVER_UPDATE_ERROR_MESSAGE,
            Some(CANNOT_DELETE_ONLY_ADMIN_MESSAGE),
        ),
        Some(UpdateUserStatus::NothingWasRequested) => UpdateUserAction::ShowError(
            SERVER_UPDATE_ERROR_MESSAGE,
            Some(NOTHING_WAS_REQUESTED_MESSAGE),
        ),
        None => UpdateUserAction::ShowError(REQUEST_SEND_ERROR_MESSAGE, None),
    };
    state.is_doing_request = false;
    if !state.showing_buttons || !state.closable {
        state.redraw_requested = true;
    }
    state.closable = true;
    state.showing_buttons = true;
    action
}

impl ArrowSelectorHandler for UpdateUserState {
    /// The role at the selected option becomes the chosen one.
    open spec fn told_selection(self, selected_index: usize) -> Self {
        UpdateUserState { did_role_change: false, selected_role: Some(role_at(selected_index)), ..self }
    }

    fn selection_changed(&mut self, selected_index: usize) {
        let role = if selected_index == 1 { UserRole::Admin } else { UserRole::Regular };
        self.selected_role_changed(role);
    }
}

} // verus!
