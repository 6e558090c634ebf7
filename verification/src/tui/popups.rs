//! The logic of the popups: size constraints, focus order, sorting and filtering of listed
//! items, the state of the requests they make, and the messages shown.

pub mod add_socket_popup;
pub mod add_user_popup;
pub mod auth_methods_popup;
pub mod buffer_size_popup;
pub mod close_socket_popup;
pub mod confirm_close_popup;
pub mod delete_user_popup;
pub mod loading_popup;
pub mod popup_base;
pub mod request_popup;
pub mod shutdown_popup;
pub mod size_constraint;
pub mod sockets_popup;
pub mod update_user_popup;
pub mod users_popup;
pub mod yes_no_popup;

use vstd::prelude::*;

verus! {

/// The message shown when a request could not be sent to the server.
pub const REQUEST_SEND_ERROR_MESSAGE: &'static str = "Couldn't send request to server. Is the server still running?";

} // verus!
