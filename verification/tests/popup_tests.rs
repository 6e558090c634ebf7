use std::cmp::Ordering;

use sandstorm::args::{SocketAddress, UserRole};
use sandstorm::handle_requests::{AddUserStatus, DeleteUserStatus, RemoveSocketStatus, UpdateUserStatus};
use sandstorm::tui::elements::arrow_selector::{ArrowSelector, ArrowSelectorHandler};
use sandstorm::tui::elements::dual_buttons::DualButtonsHandler;
use sandstorm::tui::elements::text::{Alignment, TextLine};
use sandstorm::tui::elements::text_entry::TextEntry;
use sandstorm::tui::main_view::{GraphPrecisionOption, PrecisionSelectorHandler};
use sandstorm::tui::popups::add_socket_popup::{add_socket_answered, add_socket_yes_selected, AddSocketAction, AddSocketYes};
use sandstorm::tui::popups::add_user_popup::{
    AddUserAction, AddUserState, AddUserYes, SERVER_ADD_ERROR_MESSAGE as ADD_USER_ERROR, SERVER_ALREADY_EXISTS_MESSAGE,
    SERVER_INVALID_VALUES_MESSAGE,
};
use sandstorm::tui::popups::buffer_size_popup::{BufferSizeEntryHandler, Controller, EntryColor, TopMessage};
use sandstorm::tui::popups::close_socket_popup::{
    close_socket_answered, close_socket_yes_selected, CloseSocketAction, SERVER_REMOVE_ERROR_MESSAGE,
};
use sandstorm::tui::popups::confirm_close_popup::ConfirmCloseHandler;
use sandstorm::tui::popups::delete_user_popup::{
    delete_user_answered, delete_user_yes_selected, DeleteUserAction, SERVER_DELETE_ERROR_MESSAGE,
};
use sandstorm::tui::popups::request_popup::RequestPopupState;
use sandstorm::tui::popups::shutdown_popup::ShutdownHandler;
use sandstorm::tui::popups::size_constraint::{ConstrainedPopupContent, SizeConstraint};
use sandstorm::tui::popups::update_user_popup::{
    update_user_answered, UpdateUserAction, UpdateUserState, CANNOT_DELETE_ONLY_ADMIN_MESSAGE,
    NOTHING_WAS_REQUESTED_MESSAGE, SERVER_UPDATE_ERROR_MESSAGE, USER_NOT_FOUND_MESSAGE,
};
use sandstorm::tui::popups::users_popup::strings_nocase_cmp;
use sandstorm::tui::popups::yes_no_popup::YesNoSimpleController;
use sandstorm::tui::popups::REQUEST_SEND_ERROR_MESSAGE;
use sandstorm::tui::text_wrapper::StaticString;
use sandstorm::tui::ui_element::{HandleEventStatus, KeyCode, KeyInput};

fn press(code: KeyCode) -> KeyInput {
    KeyInput { code, is_release: false, shift: false, control: false }
}

fn chars(s: &str) -> Vec<char> {
    s.chars().collect()
}

#[test]
fn update_user_answer_updated_reports_the_requested_or_known_role() {
    let mut state = UpdateUserState::new(UserRole::Regular);
    assert!(state.on_yes_selected(&chars("")).is_some());
    assert_eq!(update_user_answered(&mut state, Some(UpdateUserStatus::Updated), None), UpdateUserAction::Close(UserRole::Regular));
    assert!(state.close_requested);
    let mut state = UpdateUserState::new(UserRole::Regular);
    assert_eq!(
        update_user_answered(&mut state, Some(UpdateUserStatus::Updated), Some(UserRole::Admin)),
        UpdateUserAction::Close(UserRole::Admin)
    );
}

#[test]
fn update_user_refusals_show_their_messages() {
    let cases = [
        (Some(UpdateUserStatus::UserNotFound), UpdateUserAction::ShowError(SERVER_UPDATE_ERROR_MESSAGE, Some(USER_NOT_FOUND_MESSAGE))),
        (
            Some(UpdateUserStatus::CannotDeleteOnlyAdmin),
            UpdateUserAction::ShowError(SERVER_UPDATE_ERROR_MESSAGE, Some(CANNOT_DELETE_ONLY_ADMIN_MESSAGE)),
        ),
        (
            Some(UpdateUserStatus::NothingWasRequested),
            UpdateUserAction::ShowError(SERVER_UPDATE_ERROR_MESSAGE, Some(NOTHING_WAS_REQUESTED_MESSAGE)),
        ),
        (None, UpdateUserAction::ShowError(REQUEST_SEND_ERROR_MESSAGE, None)),
    ];
    for (answer, expected) in cases {
        let mut state = UpdateUserState::new(UserRole::Admin);
        let request = state.on_yes_selected(&chars("secret"));
        assert_eq!(request.as_ref().map(|(p, r)| (p.clone(), *r)), Some((Some(String::from("secret")), None)));
        assert!(state.is_doing_request && !state.showing_buttons && !state.closable);
        assert!(state.on_yes_selected(&chars("again")).is_none());
        assert_eq!(update_user_answered(&mut state, answer, None), expected);
        assert!(!state.is_doing_request && state.showing_buttons && state.closable);
        assert!(!state.close_requested);
    }
}

#[test]
fn update_user_role_selection_and_announcements() {
    let mut state = UpdateUserState::new(UserRole::Regular);
    state.user_role_changed(UserRole::Admin);
    assert_eq!(state.did_user_role_change(), Some(UserRole::Admin));
    assert_eq!(state.did_user_role_change(), None);
    state.selection_changed(0);
    assert_eq!(state.selected_role, Some(UserRole::Regular));
    state.user_role_changed(UserRole::Regular);
    assert_eq!(state.did_user_role_change(), None);
    let request = state.on_yes_selected(&chars(""));
    assert_eq!(request, Some((None, Some(UserRole::Regular))));
}

#[test]
fn delete_user_and_close_socket_answers() {
    let mut c = YesNoSimpleController::new(true);
    delete_user_yes_selected(&mut c);
    assert!(!c.showing_buttons && !c.closable && c.redraw_requested);
    assert_eq!(
        delete_user_answered(&mut c, Some(DeleteUserStatus::CannotDeleteOnlyAdmin), UserRole::Admin),
        DeleteUserAction::ShowError(SERVER_DELETE_ERROR_MESSAGE, Some(CANNOT_DELETE_ONLY_ADMIN_MESSAGE))
    );
    assert!(c.showing_buttons && c.closable);
    assert_eq!(
        delete_user_answered(&mut c, Some(DeleteUserStatus::UserNotFound), UserRole::Admin),
        DeleteUserAction::ShowError(SERVER_DELETE_ERROR_MESSAGE, Some(USER_NOT_FOUND_MESSAGE))
    );
    assert_eq!(delete_user_answered(&mut c, None, UserRole::Admin), DeleteUserAction::ShowError(REQUEST_SEND_ERROR_MESSAGE, None));
    assert_eq!(delete_user_answered(&mut c, Some(DeleteUserStatus::Deleted), UserRole::Regular), DeleteUserAction::Close(UserRole::Regular));
    assert!(c.close_requested);

    let mut c = YesNoSimpleController::new(true);
    close_socket_yes_selected(&mut c);
    assert_eq!(
        close_socket_answered(&mut c, Some(RemoveSocketStatus::SocketNotFound)),
        CloseSocketAction::ShowError(SERVER_REMOVE_ERROR_MESSAGE)
    );
    assert_eq!(close_socket_answered(&mut c, None), CloseSocketAction::ShowError(REQUEST_SEND_ERROR_MESSAGE));
    assert!(!c.close_requested);
    assert_eq!(close_socket_answered(&mut c, Some(RemoveSocketStatus::Removed)), CloseSocketAction::Close);
    assert!(c.close_requested);
}

#[test]
fn add_socket_checks_the_address_first() {
    let address = SocketAddress::V4 { ip: 0x7f000001, port: 1080 };
    let mut state = RequestPopupState::new();
    assert_eq!(add_socket_yes_selected(&mut state, None), AddSocketYes::BeepRed);
    assert!(state.is_beeping_red);
    assert_eq!(add_socket_yes_selected(&mut state, Some(address)), AddSocketYes::Ignored);
    state.beep_finished();
    assert_eq!(add_socket_yes_selected(&mut state, Some(address)), AddSocketYes::Request(address));
    assert!(state.is_doing_request);
    assert_eq!(
        add_socket_answered(&mut state, address, Some(Err(String::from("address in use")))),
        AddSocketAction::ShowError("The server encountered an error while opening the socket:", Some(String::from("address in use")))
    );
    assert!(!state.is_doing_request && state.base.closable);
    assert_eq!(add_socket_answered(&mut state, address, None), AddSocketAction::ShowError(REQUEST_SEND_ERROR_MESSAGE, None));
    assert_eq!(add_socket_answered(&mut state, address, Some(Ok(()))), AddSocketAction::Close(address));
    assert!(state.base.close_requested);
}

#[test]
fn add_user_checks_both_entries() {
    let mut state = AddUserState::new();
    assert_eq!(state.on_yes_selected(&chars(""), &chars("pw")), AddUserYes::BeepUsername);
    state.request.beep_finished();
    assert_eq!(state.on_yes_selected(&chars("ana"), &chars("")), AddUserYes::BeepPassword);
    assert_eq!(state.on_yes_selected(&chars("ana"), &chars("pw")), AddUserYes::Ignored);
    state.request.beep_finished();
    state.selection_changed(1);
    assert_eq!(
        state.on_yes_selected(&chars("ana"), &chars("pw")),
        AddUserYes::Request(String::from("ana"), String::from("pw"), UserRole::Admin)
    );
    assert_eq!(state.on_answer(Some(AddUserStatus::AlreadyExists)), AddUserAction::ShowError(ADD_USER_ERROR, Some(SERVER_ALREADY_EXISTS_MESSAGE)));
    assert_eq!(state.on_answer(Some(AddUserStatus::InvalidValues)), AddUserAction::ShowError(ADD_USER_ERROR, Some(SERVER_INVALID_VALUES_MESSAGE)));
    assert_eq!(state.on_answer(None), AddUserAction::ShowError(REQUEST_SEND_ERROR_MESSAGE, None));
    assert_eq!(state.on_answer(Some(AddUserStatus::Added)), AddUserAction::Close);
    assert!(state.request.base.close_requested);
}

#[test]
fn confirm_and_shutdown_buttons() {
    let mut confirm = ConfirmCloseHandler { controller: YesNoSimpleController::new(true), shutdown_requested: false };
    confirm.on_right();
    assert!(confirm.controller.close_requested && !confirm.shutdown_requested);
    confirm.on_left();
    assert!(confirm.shutdown_requested && !confirm.controller.showing_buttons && !confirm.controller.closable);
    let mut shutdown = ShutdownHandler { controller: YesNoSimpleController::new(true), shutdown_requested: false };
    shutdown.on_left();
    assert!(shutdown.shutdown_requested && !shutdown.controller.closable);
}

#[test]
fn buffer_size_entry_takes_only_letters_and_digits() {
    let handler = BufferSizeEntryHandler { controller: Controller::new(), typing_color: EntryColor::Red };
    let mut entry = TextEntry::new(String::from("4"), 10, handler);
    assert!(entry.receive_focus());
    assert_eq!(entry.handle_event(press(KeyCode::Char('-')), true), HandleEventStatus::Handled);
    assert_eq!(entry.text(), "4");
    assert_eq!(entry.handle_event(press(KeyCode::Char('K')), true), HandleEventStatus::Handled);
    assert_eq!(entry.text(), "4K");
    assert_eq!(entry.handler.typing_color, EntryColor::Green);
    assert_eq!(entry.handle_event(press(KeyCode::Enter), true), HandleEventStatus::PassFocus((0, 0), sandstorm::tui::ui_element::PassFocusDirection::Away));
    assert_eq!(entry.handler.controller.get_top_message(), TopMessage::Offer);
    assert!(entry.handler.controller.get_state().is_doing_request);
}

#[test]
fn precision_selector_sets_the_graph_precision() {
    let options = vec![
        (StaticString::Static("1s"), Some('1')),
        (StaticString::Static("2s"), Some('2')),
        (StaticString::Static("5s"), Some('3')),
    ];
    let handler = PrecisionSelectorHandler::new(GraphPrecisionOption::OneSecond);
    let mut selector = ArrowSelector::new(options, 0, StaticString::Static(""), false, handler);
    assert_eq!(selector.handle_event(press(KeyCode::Char('3')), false), HandleEventStatus::Handled);
    assert_eq!(selector.handler.precision, GraphPrecisionOption::FiveSeconds);
    assert!(selector.handler.redraw_requested);
}

#[test]
fn unconstrained_content_keeps_its_size() {
    let line = TextLine::new(StaticString::Static("hello"), Alignment::Left);
    let mut content = ConstrainedPopupContent::new(SizeConstraint::new(), line);
    assert_eq!(content.begin_resize(40, 10), (5, 1));
    assert_eq!(content.begin_resize(3, 10), (3, 1));
    let line = TextLine::new(StaticString::Static("hello"), Alignment::Left);
    let mut content = ConstrainedPopupContent::new(SizeConstraint::new().min(8, 2).max(20, 5), line);
    assert_eq!(content.begin_resize(40, 10), (8, 2));
}

#[test]
fn static_strings_split_into_static_parts() {
    let (l, r) = StaticString::Static("ab cd").split_at(2, false);
    assert!(matches!(l, StaticString::Static("ab")));
    assert!(matches!(r, StaticString::Static(" cd")));
    let (l, r) = StaticString::Owned(String::from("ab cd")).split_at(2, true);
    assert!(matches!(l, StaticString::Owned(ref s) if s == "ab"));
    assert!(matches!(r, StaticString::Owned(ref s) if s == "cd"));
}

#[test]
fn nocase_comparison_is_antisymmetric() {
    assert_eq!(strings_nocase_cmp("alice", "Bob"), Ordering::Less);
    assert_eq!(strings_nocase_cmp("Bob", "alice"), Ordering::Greater);
    assert_eq!(strings_nocase_cmp("Bob", "bob"), Ordering::Equal);
    assert_eq!(strings_nocase_cmp("ab", "A"), Ordering::Greater);
    assert_eq!(strings_nocase_cmp("A", "ab"), Ordering::Less);
}
