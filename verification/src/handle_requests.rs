//! What the client prints for each answered request: the lines that report the server's
//! answer, and the separator that ends them.

use vstd::prelude::*;

use crate::args::{
    auth_method_name, auth_method_to_str, escape_username, escape_username_spec, role_name, role_to_str, AuthMethod,
    UserRole,
};
use crate::text::{concat2, decimal, decimal_string, push_str, string_of};

verus! {

/// The line printed after the report of each answered request.
pub const RESULT_SEPARATOR: &'static str = "----------";

/// The server's counters, as a metrics snapshot holds them.
#[derive(Debug, Clone, Copy, PartialEq, Eq, Structural)]
pub struct Metrics {
    pub current_client_connections: u32,
    pub historic_client_connections: u64,
    pub client_bytes_sent: u64,
    pub client_bytes_received: u64,
    pub current_sandstorm_connections: u32,
    pub historic_sandstorm_connections: u64,
}

/// An IO error the server reported: its kind and its message, each as it is displayed.
#[derive(Debug)]
pub struct IoErrorText {
    pub kind: String,
    pub message: String,
}

/// The server's answer to a request to remove a socket.
#[derive(Debug, Clone, Copy, PartialEq, Eq, Structural)]
pub enum RemoveSocketStatus {
    Removed,
    SocketNotFound,
}

/// The server's answer to a request to add a user.
#[derive(Debug, Clone, Copy, PartialEq, Eq, Structural)]
pub enum AddUserStatus {
    Added,
    AlreadyExists,
    InvalidValues,
}

/// The server's answer to a request to update a user.
#[derive(Debug, Clone, Copy, PartialEq, Eq, Structural)]
pub enum UpdateUserStatus {
    Updated,
    UserNotFound,
    CannotDeleteOnlyAdmin,
    NothingWasRequested,
}

/// The server's answer to a request to delete a user.
#[derive(Debug, Clone, Copy, PartialEq, Eq, Structural)]
pub enum DeleteUserStatus {
    Deleted,
    UserNotFound,
    CannotDeleteOnlyAdmin,
}

/// A request together with the server's answer to it. Socket addresses are kept as they are
/// displayed.
#[derive(Debug)]
pub enum RequestOutcome {
    Shutdown,
    ListSocks5Sockets(Vec<String>),
    AddSocks5Socket(String, Result<(), IoErrorText>),
    RemoveSocks5Socket(String, RemoveSocketStatus),
    ListSandstormSockets(Vec<String>),
    AddSandstormSocket(Result<(), IoErrorText>),
    RemoveSandstormSocket(String, RemoveSocketStatus),
    ListUsers(Vec<(String, UserRole)>),
    AddUser(String, AddUserStatus),
    UpdateUser(String, UpdateUserStatus),
    DeleteUser(String, DeleteUserStatus),
    ListAuthMethods(Vec<(AuthMethod, bool)>),
    ToggleAuthMethod(AuthMethod, bool, bool),
    GetMetrics(Option<Metrics>),
    GetBufferSize(u32),
    SetBufferSize(bool),
    Meow,
}

/// The name of a remove-socket answer.
pub open spec fn remove_socket_name(status: RemoveSocketStatus) -> Seq<char> {
    match status {
        RemoveSocketStatus::Removed => "Ok"@,
        RemoveSocketStatus::SocketNotFound => "SocketNotFound"@,
    }
}

fn remove_socket_str(status: RemoveSocketStatus) -> (s: &'static str)
    ensures
        s@ == remove_socket_name(status),
{
    match status {
        RemoveSocketStatus::Removed => "Ok",
        RemoveSocketStatus::SocketNotFound => "SocketNotFound",
    }
}

/// The name of an add-user answer.
pub open spec fn add_user_name(status: AddUserStatus) -> Seq<char> {
    match status {
        AddUserStatus::Added => "Ok"@,
        AddUserStatus::AlreadyExists => "AlreadyExists"@,
        AddUserStatus::InvalidValues => "InvalidValues"@,
    }
}

fn add_user_str(status: AddUserStatus) -> (s: &'static str)
    ensures
        s@ == add_user_name(status),
{
    match status {
        AddUserStatus::Added => "Ok",
        AddUserStatus::AlreadyExists => "AlreadyExists",
        AddUserStatus::InvalidValues => "InvalidValues",
    }
}

/// The name of an update-user answer.
pub open spec fn update_user_name(status: UpdateUserStatus) -> Seq<char> {
    match status {
        UpdateUserStatus::Updated => "Ok"@,
        UpdateUserStatus::UserNotFound => "UserNotFound"@,
        UpdateUserStatus::CannotDeleteOnlyAdmin => "CannotDeleteOnlyAdmin"@,
        UpdateUserStatus::NothingWasRequested => "NothingWasRequested"@,
    }
}

fn update_user_str(status: UpdateUserStatus) -> (s: &'static str)
    ensures
        s@ == update_user_name(status),
{
    match status {
        UpdateUserStatus::Updated => "Ok",
        UpdateUserStatus::UserNotFound => "UserNotFound",
        UpdateUserStatus::CannotDeleteOnlyAdmin => "CannotDeleteOnlyAdmin",
        UpdateUserStatus::NothingWasRequested => "NothingWasRequested",
    }
}

/// The name of a delete-user answer.
pub open spec fn delete_user_name(status: DeleteUserStatus) -> Seq<char> {
    match status {
        DeleteUserStatus::Deleted => "Ok"@,
        DeleteUserStatus::UserNotFound => "UserNotFound"@,
        DeleteUserStatus::CannotDeleteOnlyAdmin => "CannotDeleteOnlyAdmin"@,
    }
}

fn delete_user_str(status: DeleteUserStatus) -> (s: &'static str)
    ensures
        s@ == delete_user_name(status),
{
    match status {
        DeleteUserStatus::Deleted => "Ok",
        DeleteUserStatus::UserNotFound => "UserNotFound",
        DeleteUserStatus::CannotDeleteOnlyAdmin => "CannotDeleteOnlyAdmin",
    }
}

/// `Ok` for success and `Error` for failure.
pub open spec fn ok_or_error(ok: bool) -> Seq<char> {
    if ok {
        "Ok"@
    } else {
        "Error"@
    }
}

fn ok_or_error_str(ok: bool) -> (s: &'static str)
    ensures
        s@ == ok_or_error(ok),
{
    if ok {
        "Ok"
    } else {
        "Error"
    }
}

/// A boolean as it is displayed.
pub open spec fn bool_text(b: bool) -> Seq<char> {
    if b {
        "true"@
    } else {
        "false"@
    }
}

fn bool_str(b: bool) -> (s: &'static str)
    ensures
        s@ == bool_text(b),
{
    if b {
        "true"
    } else {
        "false"
    }
}

/// The lines that show a metrics snapshot, one counter each.
pub open spec fn metrics_text(m: Metrics) -> Seq<Seq<char>> {
    seq![
        "current client connections: "@ + decimal(m.current_client_connections as nat),
        "historic client connections: "@ + decimal(m.historic_client_connections as nat),
        "client bytes sent: "@ + decimal(m.client_bytes_sent as nat),
        "client bytes received: "@ + decimal(m.client_bytes_received as nat),
        "current sandstorm connections: "@ + decimal(m.current_sandstorm_connections as nat),
        "historic sandstorm connections: "@ + decimal(m.historic_sandstorm_connections as nat),
    ]
}

/// Lines, each taken by its text.
pub open spec fn lines_view(lines: Seq<String>) -> Seq<Seq<char>> {
    Seq::new(lines.len(), |i: int| lines[i]@)
}

/// The lines that show a metrics snapshot, one counter each.
pub fn metrics_lines(m: &Metrics) -> (lines: Vec<String>)
    ensures
        lines_view(lines@) == metrics_text(*m),
{
    let lines = vec![
        concat2("current client connections: ", decimal_string(m.current_client_connections as u128).as_str()),
        concat2("historic client connections: ", decimal_string(m.historic_client_connections as u128).as_str()),
        concat2("client bytes sent: ", decimal_string(m.client_bytes_sent as u128).as_str()),
        concat2("client bytes received: ", decimal_string(m.client_bytes_received as u128).as_str()),
        concat2("current sandstorm connections: ", decimal_string(m.current_sandstorm_connections as u128).as_str()),
        concat2("historic sandstorm connections: ", decimal_string(m.historic_sandstorm_connections as u128).as_str()),
    ];
    assert(lines_view(lines@) =~= metrics_text(*m));
    lines
}

/// The heading of a listing: its title and, in brackets, how many entries follow.
pub open spec fn count_heading(title: Seq<char>, count: nat) -> Seq<char> {
    title + " ("@ + decimal(count) + ")"@
}

fn count_heading_string(title: &str, count: usize) -> (s: String)
    ensures
        s@ == count_heading(title@, count as nat),
{
    let mut s = string_of(title);
    push_str(&mut s, " (");
    push_str(&mut s, decimal_string(count as u128).as_str());
    push_str(&mut s, ")");
    s
}

/// How a listed user is shown: its role in brackets, then its name.
pub open spec fn user_entry(user: (String, UserRole)) -> Seq<char> {
    "("@ + role_name(user.1) + ") "@ + user.0@
}

/// How a listed authentication method is shown: its name, then whether it is enabled.
pub open spec fn auth_method_entry(entry: (AuthMethod, bool)) -> Seq<char> {
    auth_method_name(entry.0) + " "@ + (if entry.1 { "enabled"@ } else { "disabled"@ })
}

/// How an IO error is reported after the name of the request it failed.
pub open spec fn error_report(e: IoErrorText) -> Seq<char> {
    " Error "@ + e.kind@ + ": "@ + e.message@
}

/// The lines that report a request's answer, before the separator.
pub open spec fn outcome_report(outcome: RequestOutcome) -> Seq<Seq<char>> {
    match outcome {
        RequestOutcome::Shutdown => seq!["Shutdown Ok"@],
        RequestOutcome::ListSocks5Sockets(list) => seq![count_heading("ListSocks5Sockets"@, list@.len())]
            + Seq::new(list@.len(), |i: int| list@[i]@),
        RequestOutcome::AddSocks5Socket(address, result) => seq![
            "AddSocks5Socket "@ + address@ + match result {
                Ok(()) => " Ok"@,
                Err(e) => error_report(e),
            },
        ],
        RequestOutcome::RemoveSocks5Socket(address, status) => seq![
            "RemoveSocks5Socket "@ + address@ + " "@ + remove_socket_name(status),
        ],
        RequestOutcome::ListSandstormSockets(list) => seq![count_heading("ListSandstormSockets"@, list@.len())]
            + Seq::new(list@.len(), |i: int| list@[i]@),
        RequestOutcome::AddSandstormSocket(result) => seq![
            "AddSandstormSocket"@ + match result {
                Ok(()) => " Ok"@,
                Err(e) => error_report(e),
            },
        ],
        RequestOutcome::RemoveSandstormSocket(address, status) => seq![
            "RemoveSandstormSocket "@ + address@ + " "@ + remove_socket_name(status),
        ],
        RequestOutcome::ListUsers(list) => seq![count_heading("ListUsers"@, list@.len())]
            + Seq::new(list@.len(), |i: int| user_entry(list@[i])),
        RequestOutcome::AddUser(username, status) => seq![
            "AddUser "@ + escape_username_spec(username@) + " "@ + add_user_name(status),
        ],
        RequestOutcome::UpdateUser(username, status) => seq![
            "UpdateUser "@ + escape_username_spec(username@) + " "@ + update_user_name(status),
        ],
        RequestOutcome::DeleteUser(username, status) => seq![
            "DeleteUser "@ + escape_username_spec(username@) + " "@ + delete_user_name(status),
        ],
        RequestOutcome::ListAuthMethods(list) => seq![count_heading("ListAuthMethods"@, list@.len())]
            + Seq::new(list@.len(), |i: int| auth_method_entry(list@[i])),
        RequestOutcome::ToggleAuthMethod(method, status, ok) => seq![
            "ToggleAuthMethod "@ + auth_method_name(method) + " "@ + bool_text(status) + " "@ + ok_or_error(ok),
        ],
        RequestOutcome::GetMetrics(Some(m)) => seq!["RequestCurrentMetrics Some"@] + metrics_text(m),
        RequestOutcome::GetMetrics(None) => seq!["RequestCurrentMetrics None"@],
        RequestOutcome::GetBufferSize(size) => seq!["GetBufferSize "@ + decimal(size as nat)],
        RequestOutcome::SetBufferSize(ok) => seq!["SetBufferSize "@ + ok_or_error(ok)],
        RequestOutcome::Meow => seq!["Meow"@],
    }
}

/// Whether the report of an answer is printed: always for a deleted user, otherwise only when
/// the client is not silent.
pub open spec fn is_reported(outcome: RequestOutcome, silent: bool) -> bool {
    !silent || outcome is DeleteUser
}

/// All that is printed for an answered request: its report and the separator, or nothing.
pub open spec fn outcome_text(outcome: RequestOutcome, silent: bool) -> Seq<Seq<char>> {
    if is_reported(outcome, silent) {
        outcome_report(outcome).push(RESULT_SEPARATOR@)
    } else {
        seq![]
    }
}

proof fn lemma_lines_view_push(lines: Seq<String>, line: String)
    ensures
        lines_view(lines.push(line)) == lines_view(lines).push(line@),
{
    assert(lines_view(lines.push(line)) =~= lines_view(lines).push(line@));
}

fn error_report_string(prefix: &str, e: &IoErrorText) -> (s: String)
    ensures
        s@ == prefix@ + error_report(*e),
{
    let mut s = string_of(prefix);
    push_str(&mut s, " Error ");
    push_str(&mut s, e.kind.as_str());
    push_str(&mut s, ": ");
    push_str(&mut s, e.message.as_str());
    assert(s@ =~= prefix@ + error_report(*e));
    s
}

fn address_lines(lines: &mut Vec<String>, list: &Vec<String>)
    ensures
        lines_view(final(lines)@) == lines_view(old(lines)@) + Seq::new(list@.len(), |i: int| list@[i]@),
{
    let mut i: usize = 0;
    while i < list.len()
        invariant
            i <= list.len(),
            lines_view(lines@) == lines_view(old(lines)@) + Seq::new(i as nat, |j: int| list@[j]@),
        decreases list.len() - i,
    {
        let ghost prev = lines@;
        let line = list[i].clone();
        lines.push(line);
        proof {
            lemma_lines_view_push(prev, line);
        }
        i = i + 1;
        assert(lines_view(lines@) =~= lines_view(old(lines)@) + Seq::new(i as nat, |j: int| list@[j]@));
    }
}

fn user_lines(lines: &mut Vec<String>, list: &Vec<(String, UserRole)>)
    ensures
        lines_view(final(lines)@) == lines_view(old(lines)@) + Seq::new(list@.len(), |i: int| user_entry(list@[i])),
{
    let mut i: usize = 0;
    while i < list.len()
        invariant
            i <= list.len(),
            lines_view(lines@) == lines_view(old(lines)@) + Seq::new(i as nat, |j: int| user_entry(list@[j])),
        decreases list.len() - i,
    {
        let mut line = string_of("(");
        push_str(&mut line, role_to_str(list[i].1));
        push_str(&mut line, ") ");
        push_str(&mut line, list[i].0.as_str());
        assert(line@ =~= user_entry(list@[i as int]));
        let ghost prev = lines@;
        lines.push(line);
        proof {
            lemma_lines_view_push(prev, line);
        }
        i = i + 1;
        assert(lines_view(lines@) =~= lines_view(old(lines)@) + Seq::new(i as nat, |j: int| user_entry(list@[j])));
    }
}

fn auth_method_lines(lines: &mut Vec<String>, list: &Vec<(AuthMethod, bool)>)
    ensures
        lines_view(final(lines)@) == lines_view(old(lines)@) + Seq::new(
            list.len() as nat,
            |i: int| auth_method_entry(list@[i]),
        ),
{
    let mut i: usize = 0;
    while i < list.len()
        invariant
            i <= list.len(),
            lines_view(lines@) == lines_view(old(lines)@) + Seq::new(i as nat, |j: int| auth_method_entry(list@[j])),
        decreases list.len() - i,
    {
        let mut line = string_of(auth_method_to_str(list[i].0));
        push_str(&mut line, " ");
        push_str(&mut line, if list[i].1 { "enabled" } else { "disabled" });
        assert(line@ =~= auth_method_entry(list@[i as int]));
        let ghost prev = lines@;
        lines.push(line);
        proof {
            lemma_lines_view_push(prev, line);
        }
        i = i + 1;
        assert(lines_view(lines@) =~= lines_view(old(lines)@) + Seq::new(
            i as nat,
            |j: int| auth_method_entry(list@[j]),
        ));
    }
}

fn status_line(request: &str, subject: &str, status: &str) -> (s: String)
    ensures
        s@ == request@ + subject@ + " "@ + status@,
{
    let mut s = string_of(request);
    push_str(&mut s, subject);
    push_str(&mut s, " ");
    push_str(&mut s, status);
    s
}

/// The lines that report the server's answer to a request, before the separator.
pub fn outcome_report_lines(outcome: &RequestOutcome) -> (lines: Vec<String>)
    ensures
        lines_view(lines@) == outcome_report(*outcome),
{
    let mut lines: Vec<String> = Vec::new();
    let ghost empty = lines@;
    match outcome {
        RequestOutcome::Shutdown => lines.push(string_of("Shutdown Ok")),
        RequestOutcome::ListSocks5Sockets(list) => {
            let heading = count_heading_string("ListSocks5Sockets", list.len());
            lines.push(heading);
            proof {
                lemma_lines_view_push(empty, heading);
            }
            address_lines(&mut lines, list);
        },
        RequestOutcome::AddSocks5Socket(address, result) => {
            let prefix = concat2("AddSocks5Socket ", address.as_str());
            match result {
                Ok(()) => lines.push(concat2(prefix.as_str(), " Ok")),
                Err(e) => {
                    let line = error_report_string(prefix.as_str(), e);
                    assert(line@ =~= "AddSocks5Socket "@ + address@ + error_report(*e));
                    lines.push(line);
                },
            }
        },
        RequestOutcome::RemoveSocks5Socket(address, status) => {
            lines.push(status_line("RemoveSocks5Socket ", address.as_str(), remove_socket_str(*status)));
        },
        RequestOutcome::ListSandstormSockets(list) => {
            let heading = count_heading_string("ListSandstormSockets", list.len());
            lines.push(heading);
            proof {
                lemma_lines_view_push(empty, heading);
            }
            address_lines(&mut lines, list);
        },
        RequestOutcome::AddSandstormSocket(result) => match result {
            Ok(()) => lines.push(concat2("AddSandstormSocket", " Ok")),
            Err(e) => lines.push(error_report_string("AddSandstormSocket", e)),
        },
        RequestOutcome::RemoveSandstormSocket(address, status) => {
            lines.push(status_line("RemoveSandstormSocket ", address.as_str(), remove_socket_str(*status)));
        },
        RequestOutcome::ListUsers(list) => {
            let heading = count_heading_string("ListUsers", list.len());
            lines.push(heading);
            proof {
                lemma_lines_view_push(empty, heading);
            }
            user_lines(&mut lines, list);
        },
        RequestOutcome::AddUser(username, status) => {
            let escaped = escape_username(username.as_str());
            lines.push(status_line("AddUser ", escaped.as_str(), add_user_str(*status)));
        },
        RequestOutcome::UpdateUser(username, status) => {
            let escaped = escape_username(username.as_str());
            lines.push(status_line("UpdateUser ", escaped.as_str(), update_user_str(*status)));
        },
        RequestOutcome::DeleteUser(username, status) => {
            let escaped = escape_username(username.as_str());
            lines.push(status_line("DeleteUser ", escaped.as_str(), delete_user_str(*status)));
        },
        RequestOutcome::ListAuthMethods(list) => {
            let heading = count_heading_string("ListAuthMethods", list.len());
            lines.push(heading);
            proof {
                lemma_lines_view_push(empty, heading);
            }
            auth_method_lines(&mut lines, list);
        },
        RequestOutcome::ToggleAuthMethod(method, status, ok) => {
            let mut line = status_line("ToggleAuthMethod ", auth_method_to_str(*method), bool_str(*status));
            push_str(&mut line, " ");
            push_str(&mut line, ok_or_error_str(*ok));
            assert(line@ =~= "ToggleAuthMethod "@ + auth_method_name(*method) + " "@ + bool_text(*status) + " "@
                + ok_or_error(*ok));
            lines.push(line);
        },
        RequestOutcome::GetMetrics(Some(m)) => {
            let heading = string_of("RequestCurrentMetrics Some");
            lines.push(heading);
            proof {
                lemma_lines_view_push(empty, heading);
            }
            let ghost before = lines@;
            let mut rest = metrics_lines(m);
            let ghost rest_view = rest@;
            lines.append(&mut rest);
            assert(lines_view(lines@) =~= lines_view(before) + lines_view(rest_view));
        },
        RequestOutcome::GetMetrics(None) => lines.push(string_of("RequestCurrentMetrics None")),
        RequestOutcome::GetBufferSize(size) => {
            lines.push(concat2("GetBufferSize ", decimal_string(*size as u128).as_str()));
        },
        RequestOutcome::SetBufferSize(ok) => lines.push(concat2("SetBufferSize ", ok_or_error_str(*ok))),
        RequestOutcome::Meow => lines.push(string_of("Meow")),
    }
    assert(lines_view(lines@) =~= outcome_report(*outcome));
    lines
}

/// All that the client prints for an answered request: the report of the answer followed by
/// the separator, or nothing when the client is silent (a deleted user is reported even then).
pub fn outcome_lines(outcome: &RequestOutcome, silent: bool) -> (lines: Vec<String>)
    ensures
        lines_view(lines@) == outcome_text(*outcome, silent),
{
    let reported = match outcome {
        RequestOutcome::DeleteUser(..) => true,
        _ => !silent,
    };
    if reported {
        let mut lines = outcome_report_lines(outcome);
        lines.push(string_of(RESULT_SEPARATOR));
        assert(lines_view(lines@) =~= outcome_text(*outcome, silent));
        lines
    } else {
        let lines: Vec<String> = Vec::new();
        assert(lines_view(lines@) =~= outcome_text(*outcome, silent));
        lines
    }
}

} // verus!
