//! The authentication methods popup: the list of methods the server supports and whether each
//! is enabled, kept up to date with the server's announcements, and the toggling of a method,
//! one request at a time.

use vstd::prelude::*;

use crate::args::AuthMethod;
use crate::text::trim_spec;
use crate::tui::elements::long_list::LongListHandler;
use crate::tui::elements::OnEnterResult;
use crate::tui::popups::loading_popup::LoadingPopupController;
use crate::tui::popups::popup_base::PopupBaseController;
use crate::tui::popups::REQUEST_SEND_ERROR_MESSAGE;
use crate::tui::text_wrapper::{
    lemma_wrap_rest_shorter, str_bytes_fit, wrap_items, StaticString, WrapTextIter, WrapTextIterItem,
};

verus! {

/// The message shown when the server refuses to toggle a method.
pub const SERVER_ERROR_MESSAGE: &'static str = "The server refused to toggle this authentication method.";

/// How the popup is refreshed after a method's state is announced: a known method is redrawn;
/// a new one is added, which asks for a resize.
#[derive(Debug, Clone, Copy, PartialEq, Eq, Structural)]
pub enum Refresh {
    Redraw,
    Resize,
}

/// What became of a request to toggle a method: the server accepted or refused it, or it could
/// not be sent or answered.
#[derive(Debug, Clone, Copy, PartialEq, Eq, Structural)]
pub enum ToggleResult {
    Accepted,
    Refused,
    NotSent,
}

/// What follows an answered toggle: the new state is announced to every listener (this popup
/// among them), or an error message is shown.
#[derive(Debug, Clone, Copy, PartialEq, Eq)]
pub enum ToggleFollowUp {
    Announce(AuthMethod, bool),
    ShowError(&'static str),
}

/// The state a method has in a list: that of its first entry, if listed.
pub open spec fn state_of(list: Seq<(AuthMethod, bool)>, method: AuthMethod) -> Option<bool>
    decreases list.len(),
{
    if list.len() == 0 {
        None
    } else if list[0].0 == method {
        Some(list[0].1)
    } else {
        state_of(list.drop_first(), method)
    }
}

/// No method is listed twice.
pub open spec fn distinct_methods(list: Seq<(AuthMethod, bool)>) -> bool {
    forall|i: int, j: int| 0 <= i < j < list.len() ==> #[trigger] list[i].0 != #[trigger] list[j].0
}

/// The position of the first entry of a method, if listed.
pub open spec fn position_of(list: Seq<(AuthMethod, bool)>, method: AuthMethod) -> Option<int>
    decreases list.len(),
{
    if list.len() == 0 {
        None
    } else if list[0].0 == method {
        Some(0)
    } else {
        match position_of(list.drop_first(), method) {
            Some(p) => Some(p + 1),
            None => None,
        }
    }
}

proof fn lemma_position_of(list: Seq<(AuthMethod, bool)>, method: AuthMethod)
    ensures
        position_of(list, method) matches Some(p) ==> 0 <= p < list.len() && list[p].0 == method && (forall|
            k: int,
        | 0 <= k < p ==> list[k].0 != method) && state_of(list, method) == Some(list[p].1),
        position_of(list, method) is None ==> (forall|k: int| 0 <= k < list.len() ==> list[k].0 != method)
            && state_of(list, method) is None,
    decreases list.len(),
{
    if list.len() > 0 && list[0].0 != method {
        lemma_position_of(list.drop_first(), method);
        assert forall|k: int| 1 <= k < list.len() implies list[k] == list.drop_first()[k - 1] by {}
    }
}

/// The state of a method after an entry is set or appended, for every method.
proof fn lemma_state_after_update(list: Seq<(AuthMethod, bool)>, p: int, method: AuthMethod, state: bool, other: AuthMethod)
    requires
        0 <= p < list.len(),
        list[p].0 == method,
        forall|k: int| 0 <= k < p ==> list[k].0 != method,
    ensures
        state_of(list.update(p, (method, state)), other) == if other == method {
            Some(state)
        } else {
            state_of(list, other)
        },
    decreases list.len(),
{
    let updated = list.update(p, (method, state));
    if p == 0 {
        assert(updated.drop_first() =~= list.drop_first());
    } else {
        assert(list[0].0 != method);
        assert(updated[0] == list[0]);
        if list[0].0 != other {
            let rest = list.drop_first();
            assert(updated.drop_first() =~= rest.update(p - 1, (method, state)));
            assert forall|k: int| 0 <= k < p - 1 implies rest[k].0 != method by {
                assert(rest[k] == list[k + 1]);
            }
            lemma_state_after_update(rest, p - 1, method, state, other);
        }
    }
}

proof fn lemma_state_after_push(list: Seq<(AuthMethod, bool)>, method: AuthMethod, state: bool, other: AuthMethod)
    requires
        forall|k: int| 0 <= k < list.len() ==> list[k].0 != method,
    ensures
        state_of(list.push((method, state)), other) == if other == method {
            Some(state)
        } else {
            state_of(list, other)
        },
    decreases list.len(),
{
    let pushed = list.push((method, state));
    if list.len() > 0 {
        assert(list[0].0 != method);
        assert(pushed[0] == list[0]);
        if list[0].0 != other {
            let rest = list.drop_first();
            assert(pushed.drop_first() =~= rest.push((method, state)));
            assert forall|k: int| 0 <= k < rest.len() implies rest[k].0 != method by {
                assert(rest[k] == list[k + 1]);
            }
            lemma_state_after_push(rest, method, state, other);
        }
    } else {
        assert(pushed.drop_first() =~= Seq::<(AuthMethod, bool)>::empty());
        assert(state_of(pushed.drop_first(), other) is None);
    }
}

/// Where a method's first entry is in a list, if anywhere.
fn find_method(list: &Vec<(AuthMethod, bool)>, method: AuthMethod) -> (r: Option<usize>)
    ensures
        r matches Some(i) ==> i < list@.len() && list@[i as int].0 == method && forall|k: int|
            0 <= k < i ==> list@[k].0 != method,
        r is None ==> forall|k: int| 0 <= k < list@.len() ==> list@[k].0 != method,
{
    let mut i: usize = 0;
    while i < list.len()
        invariant
            i <= list@.len(),
            forall|k: int| 0 <= k < i ==> list@[k].0 != method,
        decreases list@.len() - i,
    {
        if list[i].0 == method {
            return Some(i);
        }
        i = i + 1;
    }
    None
}

/// The state of the authentication methods popup, as plain values: the methods as last heard
/// from the server, whether the list changed since it was last shown, whether a toggle is under
/// way, whether the list is still loading, whether the popup can be closed, a new text for the
/// loading message if one is waiting, and whether a redraw, a resize or the closing of the
/// popup was asked for.
pub struct AuthPopupState {
    pub methods: Seq<(AuthMethod, bool)>,
    pub changed: bool,
    pub setting: bool,
    pub loading: bool,
    pub closable: bool,
    pub loading_text: Option<Seq<char>>,
    pub redraw_requested: bool,
    pub resize_requested: bool,
    pub close_requested: bool,
}

/// The state after a method's state is announced (see `Controller::auth_method_changed`).
pub open spec fn after_announcement(s: AuthPopupState, methods: Seq<(AuthMethod, bool)>, known: bool) -> AuthPopupState {
    AuthPopupState {
        methods,
        changed: true,
        redraw_requested: s.redraw_requested || known,
        resize_requested: s.resize_requested || !known,
        ..s
    }
}

/// The state of the authentication methods popup.
pub struct Controller {
    auth_methods: Vec<(AuthMethod, bool)>,
    did_list_change: bool,
    is_setting_auth_method: bool,
    is_loading: bool,
    closable: bool,
    new_loading_text: Option<StaticString>,
    redraw_requested: bool,
    resize_requested: bool,
    close_requested: bool,
}

impl Controller {
    pub closed spec fn state(&self) -> AuthPopupState {
        AuthPopupState {
            methods: self.auth_methods@,
            changed: self.did_list_change,
            setting: self.is_setting_auth_method,
            loading: self.is_loading,
            closable: self.closable,
            loading_text: match self.new_loading_text {
                Some(t) => Some(t@),
                None => None,
            },
            redraw_requested: self.redraw_requested,
            resize_requested: self.resize_requested,
            close_requested: self.close_requested,
        }
    }

    /// Loading, closable, with no method listed and nothing asked for.
    pub fn new() -> (c: Self)
        ensures
            c.state() == (AuthPopupState {
                methods: Seq::empty(),
                changed: false,
                setting: false,
                loading: true,
                closable: true,
                loading_text: None,
                redraw_requested: false,
                resize_requested: false,
                close_requested: false,
            }),
    {
        let c = Self {
            auth_methods: Vec::new(),
            did_list_change: false,
            is_setting_auth_method: false,
            is_loading: true,
            closable: true,
            new_loading_text: None,
            redraw_requested: false,
            resize_requested: false,
            close_requested: false,
        };
        assert(c.state().methods =~= Seq::empty());
        c
    }

    /// The methods and their states.
    pub fn auth_methods(&self) -> (r: &Vec<(AuthMethod, bool)>)
        ensures
            r@ == self.state().methods,
    {
        &self.auth_methods
    }

    /// Whether a toggle is under way; the popup's content takes no input meanwhile.
    pub fn is_setting_auth_method(&self) -> (r: bool)
        ensures
            r == self.state().setting,
    {
        self.is_setting_auth_method
    }

    /// Whether a redraw was asked for since this was last asked; asking resets it.
    pub fn take_redraw_request(&mut self) -> (r: bool)
        ensures
            r == old(self).state().redraw_requested,
            final(self).state() == (AuthPopupState { redraw_requested: false, ..old(self).state() }),
    {
        let r = self.redraw_requested;
        self.redraw_requested = false;
        r
    }

    /// Whether a resize was asked for since this was last asked; asking resets it.
    pub fn take_resize_request(&mut self) -> (r: bool)
        ensures
            r == old(self).state().resize_requested,
            final(self).state() == (AuthPopupState { resize_requested: false, ..old(self).state() }),
    {
        let r = self.resize_requested;
        self.resize_requested = false;
        r
    }

    /// Whether the closing of the popup was asked for.
    pub fn is_close_requested(&self) -> (r: bool)
        ensures
            r == self.state().close_requested,
    {
        self.close_requested
    }

    /// Whether the list changed since this was last asked; asking resets it.
    pub fn did_list_change(&mut self) -> (changed: bool)
        ensures
            changed == old(self).state().changed,
            final(self).state() == (AuthPopupState { changed: false, ..old(self).state() }),
    {
        let changed = self.did_list_change;
        self.did_list_change = false;
        changed
    }

    /// The server's list arrived: it is shown, and loading is over.
    pub fn auth_methods_loaded(&mut self, list: Vec<(AuthMethod, bool)>)
        ensures
            final(self).state() == (AuthPopupState {
                methods: list@,
                changed: true,
                loading: false,
                resize_requested: old(self).state().resize_requested || old(self).state().loading,
                ..old(self).state()
            }),
    {
        self.auth_methods = list;
        self.did_list_change = true;
        self.set_is_loading(false);
    }

    /// The list could not be had: the loading message is to be replaced by the send error.
    pub fn auth_methods_load_failed(&mut self)
        ensures
            final(self).state() == (AuthPopupState {
                loading_text: Some(REQUEST_SEND_ERROR_MESSAGE@),
                resize_requested: true,
                ..old(self).state()
            }),
    {
        self.set_new_loading_text(StaticString::Static(REQUEST_SEND_ERROR_MESSAGE));
    }

    /// A method's state was announced: its entry is updated (asking for a redraw), or it is
    /// appended if not listed (asking for a resize). Afterwards the method has that state,
    /// every other method keeps its own, and no method becomes listed twice.
    pub fn auth_method_changed(&mut self, auth_method: AuthMethod, state: bool) -> (r: Refresh)
        ensures
            r == (if state_of(old(self).state().methods, auth_method) is Some {
                Refresh::Redraw
            } else {
                Refresh::Resize
            }),
            final(self).state() == after_announcement(old(self).state(), final(self).state().methods, r == Refresh::Redraw),
            forall|m: AuthMethod|
                #[trigger] state_of(final(self).state().methods, m) == if m == auth_method {
                    Some(state)
                } else {
                    state_of(old(self).state().methods, m)
                },
            distinct_methods(old(self).state().methods) ==> distinct_methods(final(self).state().methods),
            final(self).state().methods.len() == old(self).state().methods.len() + (if r == Refresh::Resize {
                1int
            } else {
                0int
            }),
    {
        let ghost old_list = self.auth_methods@;
        proof {
            lemma_position_of(old_list, auth_method);
        }
        self.did_list_change = true;
        match find_method(&self.auth_methods, auth_method) {
            Some(i) => {
                self.auth_methods.set(i, (auth_method, state));
                self.redraw_requested = true;
                proof {
                    assert forall|m: AuthMethod|
                        #[trigger] state_of(self.auth_methods@, m) == if m == auth_method {
                            Some(state)
                        } else {
                            state_of(old_list, m)
                        } by {
                        lemma_state_after_update(old_list, i as int, auth_method, state, m);
                    }
                    assert forall|a: int, b: int|
                        0 <= a < b < self.auth_methods@.len() && distinct_methods(old_list) implies #[trigger] self.auth_methods@[a].0
                        != #[trigger] self.auth_methods@[b].0 by {
                        assert(old_list[a].0 != old_list[b].0);
                    }
                }
                Refresh::Redraw
            },
            None => {
                self.auth_methods.push((auth_method, state));
                self.resize_requested = true;
                proof {
                    assert forall|m: AuthMethod|
                        #[trigger] state_of(self.auth_methods@, m) == if m == auth_method {
                            Some(state)
                        } else {
                            state_of(old_list, m)
                        } by {
                        lemma_state_after_push(old_list, auth_method, state, m);
                    }
                    assert forall|a: int, b: int|
                        0 <= a < b < self.auth_methods@.len() && distinct_methods(old_list) implies #[trigger] self.auth_methods@[a].0
                        != #[trigger] self.auth_methods@[b].0 by {
                        if b < old_list.len() {
                            assert(old_list[a].0 != old_list[b].0);
                        } else {
                            assert(old_list[a].0 != auth_method);
                        }
                    }
                }
                Refresh::Resize
            },
        }
    }

    /// Asks to set a method's state, unless a toggle is already under way. While it is, the
    /// list is locked and the popup cannot be closed. Answers whether a request is to be sent.
    pub fn set_auth_method(&mut self, auth_method: AuthMethod, state: bool) -> (requested: bool)
        ensures
            requested == !old(self).state().setting,
            requested ==> final(self).state() == (AuthPopupState {
                setting: true,
                changed: true,
                closable: false,
                redraw_requested: old(self).state().redraw_requested || old(self).state().closable,
                ..old(self).state()
            }),
            !requested ==> final(self).state() == old(self).state(),
    {
        if self.is_setting_auth_method {
            return false;
        }
        self.is_setting_auth_method = true;
        self.did_list_change = true;
        self.set_closable(false);
        true
    }

    /// A toggle was answered: an accepted state is announced, otherwise the error is shown;
    /// either way the toggle is over, the list is unlocked and the popup can be closed again.
    pub fn on_set_auth_method_result(&mut self, auth_method: AuthMethod, state: bool, result: ToggleResult) -> (r:
        ToggleFollowUp)
        ensures
            r == (match result {
                ToggleResult::Accepted => ToggleFollowUp::Announce(auth_method, state),
                ToggleResult::Refused => ToggleFollowUp::ShowError(SERVER_ERROR_MESSAGE),
                ToggleResult::NotSent => ToggleFollowUp::ShowError(REQUEST_SEND_ERROR_MESSAGE),
            }),
            final(self).state() == (AuthPopupState {
                setting: false,
                changed: true,
                closable: true,
                redraw_requested: old(self).state().redraw_requested || !old(self).state().closable,
                ..old(self).state()
            }),
    {
        let r = match result {
            ToggleResult::Accepted => ToggleFollowUp::Announce(auth_method, state),
            ToggleResult::Refused => ToggleFollowUp::ShowError(SERVER_ERROR_MESSAGE),
            ToggleResult::NotSent => ToggleFollowUp::ShowError(REQUEST_SEND_ERROR_MESSAGE),
        };
        self.is_setting_auth_method = false;
        self.did_list_change = true;
        self.set_closable(true);
        r
    }
}

impl PopupBaseController for Controller {
    fn redraw_notify(&mut self)
        ensures
            final(self).state() == (AuthPopupState { redraw_requested: true, ..old(self).state() }),
    {
        self.redraw_requested = true;
    }

    fn close_popup(&mut self)
        ensures
            final(self).state() == (AuthPopupState { close_requested: true, ..old(self).state() }),
    {
        self.close_requested = true;
    }

    /// A change asks for a redraw.
    fn set_closable(&mut self, closable: bool)
        ensures
            final(self).state() == (AuthPopupState {
                closable,
                redraw_requested: old(self).state().redraw_requested || old(self).state().closable != closable,
                ..old(self).state()
            }),
    {
        if self.closable != closable {
            self.closable = closable;
            self.redraw_requested = true;
        }
    }

    fn get_closable(&self) -> (r: bool)
        ensures
            r == self.state().closable,
    {
        self.closable
    }
}

impl LoadingPopupController for Controller {
    /// A change asks for a resize.
    fn set_is_loading(&mut self, loading: bool)
        ensures
            final(self).state() == (AuthPopupState {
                loading,
                resize_requested: old(self).state().resize_requested || old(self).state().loading != loading,
                ..old(self).state()
            }),
    {
        if self.is_loading != loading {
            self.is_loading = loading;
            self.resize_requested = true;
        }
    }

    fn get_is_loading(&self) -> (r: bool)
        ensures
            r == self.state().loading,
    {
        self.is_loading
    }

    /// Asks for a resize.
    fn set_new_loading_text(&mut self, text: StaticString)
        ensures
            final(self).state() == (AuthPopupState {
                loading_text: Some(text@),
                resize_requested: true,
                ..old(self).state()
            }),
    {
        self.resize_requested = true;
        self.new_loading_text = Some(text);
    }

    fn get_new_loading_text(&mut self) -> (r: Option<StaticString>)
        ensures
            (match r {
                Some(t) => Some(t@),
                None => None,
            }) == old(self).state().loading_text,
            final(self).state() == (AuthPopupState { loading_text: None, ..old(self).state() }),
    {
        let r = self.new_loading_text.take();
        r
    }
}

/// How a method is described in the list.
pub open spec fn auth_method_label(method: AuthMethod) -> Seq<char> {
    match method {
        AuthMethod::NoAuth => "No authentication"@,
        AuthMethod::UsernameAndPassword => "Username and password"@,
    }
}

fn auth_method_label_str(method: AuthMethod) -> (s: &'static str)
    ensures
        s@ == auth_method_label(method),
{
    match method {
        AuthMethod::NoAuth => "No authentication",
        AuthMethod::UsernameAndPassword => "Username and password",
    }
}

/// The status shown before a method: ` [Y] ` when enabled, ` [N] ` when not.
pub open spec fn status_label(enabled: bool) -> Seq<char> {
    if enabled { " [Y] "@ } else { " [N] "@ }
}

/// The blank shown under the status on the following lines of a method.
pub open spec fn status_blank() -> Seq<char> {
    "     "@
}

/// One line of a method in the list: the status part (the status on the first line, blanks on
/// the following ones), whether the method is enabled and whether the list is locked while a
/// toggle is under way (which set the colors), and the part of the method's description on the
/// line, as where it starts in the trimmed description and how many bytes it takes.
#[derive(Debug, Clone, Copy, PartialEq, Eq)]
pub struct AuthItemLine {
    pub status_text: &'static str,
    pub enabled: bool,
    pub locked: bool,
    pub method: AuthMethod,
    pub text_index: usize,
    pub text_len_bytes: usize,
}

/// The width the description is wrapped to: the list's width, at least 20, less the status.
pub open spec fn description_width(wrap_width: u16) -> int {
    (if wrap_width < 20 { 20 } else { wrap_width as int }) - 5
}

/// Whether `line` is the `i`-th line of the method's entry for the wrapped description `items`.
pub open spec fn is_item_line(
    line: AuthItemLine,
    i: int,
    method: AuthMethod,
    enabled: bool,
    locked: bool,
    items: Seq<WrapTextIterItem>,
) -> bool {
    &&& line.status_text@ == (if i == 0 { status_label(enabled) } else { status_blank() })
    &&& line.enabled == enabled
    &&& line.locked == locked
    &&& line.method == method
    &&& line.text_index == items[i].index_start
    &&& line.text_len_bytes == items[i].len_bytes
}

/// The lines of a method's entry: one per line of its description wrapped to the width, or,
/// should the description wrap to no line, one line with the status and nothing after it.
pub open spec fn item_lines_spec(
    lines: Seq<AuthItemLine>,
    method: AuthMethod,
    enabled: bool,
    locked: bool,
    wrap_width: u16,
) -> bool {
    let items = wrap_items(trim_spec(auth_method_label(method)), description_width(wrap_width), 0);
    if items.len() == 0 {
        &&& lines.len() == 1
        &&& lines[0].status_text@ == status_label(enabled)
        &&& lines[0].enabled == enabled && lines[0].locked == locked && lines[0].method == method
        &&& lines[0].text_index == 0 && lines[0].text_len_bytes == 0
    } else {
        &&& lines.len() == items.len()
        &&& forall|i: int| 0 <= i < lines.len() ==> is_item_line(#[trigger] lines[i], i, method, enabled, locked, items)
    }
}

/// The lines of a method's entry in the list.
pub fn auth_item_lines(method: AuthMethod, enabled: bool, locked: bool, wrap_width: u16) -> (lines: Vec<AuthItemLine>)
    ensures
        lines.len() >= 1,
        item_lines_spec(lines@, method, enabled, locked, wrap_width),
{
    let label = auth_method_label_str(method);
    let status: &'static str = if enabled { " [Y] " } else { " [N] " };
    let blank: &'static str = "     ";
    let width: usize = (if wrap_width < 20 { 20 } else { wrap_width } - 5) as usize;
    let ghost all = wrap_items(trim_spec(label@), width as int, 0);
    str_bytes_fit(label);
    let mut it = WrapTextIter::new(label, width);
    let mut lines: Vec<AuthItemLine> = Vec::new();
    loop
        invariant
            it.wf(),
            it.width() == width,
            width as int == description_width(wrap_width),
            status@ == status_label(enabled),
            blank@ == status_blank(),
            all == wrap_items(trim_spec(label@), width as int, 0),
            all == all.subrange(0, lines@.len() as int) + wrap_items(it.remaining(), width as int, it.index() as int),
            lines@.len() <= all.len(),
            forall|i: int| 0 <= i < lines@.len() ==> is_item_line(#[trigger] lines@[i], i, method, enabled, locked, all),
        ensures
            lines@.len() == all.len(),
            forall|i: int| 0 <= i < lines@.len() ==> is_item_line(#[trigger] lines@[i], i, method, enabled, locked, all),
        decreases it.remaining().len(),
    {
        let ghost rem = it.remaining();
        let ghost index = it.index();
        let ghost done = lines@.len() as int;
        match it.next() {
            None => {
                assert(all =~= all.subrange(0, done));
                break;
            },
            Some(item) => {
                proof {
                    lemma_wrap_rest_shorter(rem, width as int);
                    let tail = wrap_items(it.remaining(), width as int, it.index() as int);
                    assert(wrap_items(rem, width as int, index as int) == seq![item] + tail);
                    assert(all[done] == item);
                    assert(all =~= all.subrange(0, done + 1) + tail);
                }
                let line = AuthItemLine {
                    status_text: if lines.len() == 0 { status } else { blank },
                    enabled,
                    locked,
                    method,
                    text_index: item.index_start,
                    text_len_bytes: item.len_bytes,
                };
                lines.push(line);
            },
        }
    }
    if lines.len() == 0 {
        lines.push(AuthItemLine { status_text: status, enabled, locked, method, text_index: 0, text_len_bytes: 0 });
    }
    lines
}

/// The list's handler: each item is a method of the controller's list.
pub struct AuthListHandler {
    pub controller: Controller,
}

impl LongListHandler<AuthItemLine> for AuthListHandler {
    /// The lines of the method at `index`, locked while a toggle is under way. An index past
    /// the list gives one blank line.
    fn get_item_lines(&mut self, index: usize, wrap_width: u16) -> (lines: Vec<AuthItemLine>)
        ensures
            final(self).controller.state().methods == old(self).controller.state().methods,
            final(self).controller.state().setting == old(self).controller.state().setting,
            index < old(self).controller.state().methods.len() ==> item_lines_spec(
                lines@,
                old(self).controller.state().methods[index as int].0,
                old(self).controller.state().methods[index as int].1,
                old(self).controller.state().setting,
                wrap_width,
            ),
            index >= old(self).controller.state().methods.len() ==> lines@.len() == 1 && lines@[0].text_len_bytes
                == 0,
    {
        if index < self.controller.auth_methods.len() {
            let (method, enabled) = self.controller.auth_methods[index];
            auth_item_lines(method, enabled, self.controller.is_setting_auth_method, wrap_width)
        } else {
            vec![
                AuthItemLine {
                    status_text: "     ",
                    enabled: false,
                    locked: self.controller.is_setting_auth_method,
                    method: AuthMethod::NoAuth,
                    text_index: 0,
                    text_len_bytes: 0,
                },
            ]
        }
    }

    /// ENTER on a method asks to toggle it, unless a toggle is under way. An index past the
    /// list does nothing.
    fn on_enter(&mut self, index: usize) -> (r: OnEnterResult)
        ensures
            r == OnEnterResult::Handled,
            final(self).controller.state().methods == old(self).controller.state().methods,
            index < old(self).controller.state().methods.len() && !old(self).controller.state().setting
                ==> final(self).controller.state().setting && !final(self).controller.state().closable
                && final(self).controller.state().changed,
            (index >= old(self).controller.state().methods.len() || old(self).controller.state().setting)
                ==> final(self).controller.state().setting == old(self).controller.state().setting
                && final(self).controller.state().closable == old(self).controller.state().closable,
    {
        if index < self.controller.auth_methods.len() {
            let (method, enabled) = self.controller.auth_methods[index];
            self.controller.set_auth_method(method, !enabled);
        }
        OnEnterResult::Handled
    }
}

} // verus!
