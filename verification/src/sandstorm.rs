//! The bookkeeping of the requests sent to a Sandstorm server and the responses awaited: how
//! many of each kind are pending, how many in all, and what the end of the connection means.

use std::collections::VecDeque;

use vstd::prelude::*;

use crate::args::StartupArguments;

verus! {

/// The kinds of Sandstorm commands, as responses are tagged with them.
#[derive(Debug, Clone, Copy, PartialEq, Eq, Structural)]
pub enum CommandKind {
    Shutdown,
    EventStreamConfig,
    EventStream,
    ListSocks5Sockets,
    AddSocks5Socket,
    RemoveSocks5Socket,
    ListSandstormSockets,
    AddSandstormSocket,
    RemoveSandstormSocket,
    ListUsers,
    AddUser,
    UpdateUser,
    DeleteUser,
    ListAuthMethods,
    ToggleAuthMethod,
    RequestCurrentMetrics,
    GetBufferSize,
    SetBufferSize,
    Meow,
}

/// The number of command kinds.
pub const COMMAND_KINDS: usize = 19;

/// The position of a kind among the kinds.
pub open spec fn kind_index(k: CommandKind) -> int {
    match k {
        CommandKind::Shutdown => 0,
        CommandKind::EventStreamConfig => 1,
        CommandKind::EventStream => 2,
        CommandKind::ListSocks5Sockets => 3,
        CommandKind::AddSocks5Socket => 4,
        CommandKind::RemoveSocks5Socket => 5,
        CommandKind::ListSandstormSockets => 6,
        CommandKind::AddSandstormSocket => 7,
        CommandKind::RemoveSandstormSocket => 8,
        CommandKind::ListUsers => 9,
        CommandKind::AddUser => 10,
        CommandKind::UpdateUser => 11,
        CommandKind::DeleteUser => 12,
        CommandKind::ListAuthMethods => 13,
        CommandKind::ToggleAuthMethod => 14,
        CommandKind::RequestCurrentMetrics => 15,
        CommandKind::GetBufferSize => 16,
        CommandKind::SetBufferSize => 17,
        CommandKind::Meow => 18,
    }
}

fn kind_index_exec(k: CommandKind) -> (i: usize)
    ensures
        i == kind_index(k),
        i < COMMAND_KINDS,
{
    match k {
        CommandKind::Shutdown => 0,
        CommandKind::EventStreamConfig => 1,
        CommandKind::EventStream => 2,
        CommandKind::ListSocks5Sockets => 3,
        CommandKind::AddSocks5Socket => 4,
        CommandKind::RemoveSocks5Socket => 5,
        CommandKind::ListSandstormSockets => 6,
        CommandKind::AddSandstormSocket => 7,
        CommandKind::RemoveSandstormSocket => 8,
        CommandKind::ListUsers => 9,
        CommandKind::AddUser => 10,
        CommandKind::UpdateUser => 11,
        CommandKind::DeleteUser => 12,
        CommandKind::ListAuthMethods => 13,
        CommandKind::ToggleAuthMethod => 14,
        CommandKind::RequestCurrentMetrics => 15,
        CommandKind::GetBufferSize => 16,
        CommandKind::SetBufferSize => 17,
        CommandKind::Meow => 18,
    }
}

/// What to do with a response that arrived.
#[derive(Debug, Clone, Copy, PartialEq, Eq, Structural)]
pub enum ResponseAction {
    /// An event of the event stream: hand it to the stream's receiver, if any.
    ForwardEvent,
    /// Call the oldest pending handler of the response's kind.
    CallHandler,
    /// No request of that kind is pending: the server sent something unexpected.
    Unexpected,
}

/// Why a connection's end was an error.
#[derive(Debug, Clone, Copy, PartialEq, Eq, Structural)]
pub enum StreamEndError {
    /// The connection was being shut down, but requests other than shutdowns went unanswered.
    UnexpectedEof,
    /// The server closed the connection without being asked to.
    ConnectionReset,
}

/// The pending responses: of each kind, how many are awaited; in all, how many the flush waits
/// for; and whether the connection is being shut down.
pub struct PendingResponses {
    pending: Vec<usize>,
    remaining: usize,
    was_shutdown: bool,
}

/// The abstract state of pending responses.
pub struct PendingState {
    pub pending: Seq<usize>,
    pub remaining: usize,
    pub was_shutdown: bool,
}

/// The state once a request of kind `k` was sent: one more of its kind awaited, one more in
/// all (except for the listing of users, which the flush does not wait for), and a shutdown
/// marks the connection as shutting down.
pub open spec fn after_request(s: PendingState, k: CommandKind) -> PendingState {
    PendingState {
        pending: s.pending.update(kind_index(k), (s.pending[kind_index(k)] + 1) as usize),
        remaining: if k == CommandKind::ListUsers { s.remaining } else { (s.remaining + 1) as usize },
        was_shutdown: s.was_shutdown || k == CommandKind::Shutdown,
    }
}

/// What a response of kind `k` comes to: events are forwarded, a response no request awaits
/// is unexpected, and any other takes one awaited response of its kind and one in all
/// (wrapping below zero, as `usize` subtraction does in release builds).
pub open spec fn after_response(s: PendingState, k: CommandKind) -> (PendingState, ResponseAction) {
    if k == CommandKind::EventStream {
        (s, ResponseAction::ForwardEvent)
    } else if s.pending[kind_index(k)] == 0 {
        (s, ResponseAction::Unexpected)
    } else {
        (
            PendingState {
                pending: s.pending.update(kind_index(k), (s.pending[kind_index(k)] - 1) as usize),
                remaining: if s.remaining == 0 { usize::MAX } else { (s.remaining - 1) as usize },
                was_shutdown: s.was_shutdown,
            },
            ResponseAction::CallHandler,
        )
    }
}

/// What the end of the stream of responses means: fine when shutting down and nothing but
/// shutdowns is awaited, unexpected otherwise.
pub open spec fn end_of_stream(s: PendingState) -> Result<(), StreamEndError> {
    if s.was_shutdown {
        if s.remaining == 0 || s.remaining == s.pending[0] {
            Ok(())
        } else {
            Err(StreamEndError::UnexpectedEof)
        }
    } else {
        Err(StreamEndError::ConnectionReset)
    }
}

impl PendingResponses {
    pub closed spec fn state(&self) -> PendingState {
        PendingState { pending: self.pending@, remaining: self.remaining, was_shutdown: self.was_shutdown }
    }

    /// There is a count for each kind.
    pub open spec fn wf(&self) -> bool {
        self.state().pending.len() == COMMAND_KINDS
    }

    pub fn new() -> (p: Self)
        ensures
            p.wf(),
            p.state().pending == Seq::new(COMMAND_KINDS as nat, |i: int| 0usize),
            p.state().remaining == 0,
            !p.state().was_shutdown,
    {
        let mut pending: Vec<usize> = Vec::new();
        while pending.len() < COMMAND_KINDS
            invariant
                pending.len() <= COMMAND_KINDS,
                forall|i: int| 0 <= i < pending.len() ==> pending@[i] == 0,
            decreases COMMAND_KINDS - pending.len(),
        {
            pending.push(0);
        }
        let p = Self { pending, remaining: 0, was_shutdown: false };
        assert(p.state().pending =~= Seq::new(COMMAND_KINDS as nat, |i: int| 0usize));
        p
    }

    /// How many responses of a kind are awaited.
    pub fn pending(&self, k: CommandKind) -> (n: usize)
        requires
            self.wf(),
        ensures
            n == self.state().pending[kind_index(k)],
    {
        self.pending[kind_index_exec(k)]
    }

    /// Records that a request of kind `k` was sent.
    pub fn request_sent(&mut self, k: CommandKind)
        requires
            old(self).wf(),
            k != CommandKind::EventStream,
            old(self).state().pending[kind_index(k)] < usize::MAX,
            old(self).state().remaining < usize::MAX,
        ensures
            final(self).wf(),
            final(self).state() == after_request(old(self).state(), k),
    {
        let i = kind_index_exec(k);
        let n = self.pending[i];
        self.pending.set(i, n + 1);
        if k != CommandKind::ListUsers {
            self.remaining = self.remaining + 1;
        }
        if k == CommandKind::Shutdown {
            self.was_shutdown = true;
        }
    }

    /// Records that no more requests will be sent: the connection is being shut down.
    pub fn mark_shutdown(&mut self)
        ensures
            final(self).state() == (PendingState { was_shutdown: true, ..old(self).state() }),
            old(self).wf() ==> final(self).wf(),
    {
        self.was_shutdown = true;
    }

    /// Records that a response of kind `k` arrived, and says what to do with it.
    pub fn response_received(&mut self, k: CommandKind) -> (action: ResponseAction)
        requires
            old(self).wf(),
        ensures
            final(self).wf(),
            (final(self).state(), action) == after_response(old(self).state(), k),
    {
        if k == CommandKind::EventStream {
            return ResponseAction::ForwardEvent;
        }
        let i = kind_index_exec(k);
        let n = self.pending[i];
        if n == 0 {
            return ResponseAction::Unexpected;
        }
        self.pending.set(i, n - 1);
        self.remaining = self.remaining.wrapping_sub(1);
        ResponseAction::CallHandler
    }

    /// Whether every response the flush waits for arrived.
    pub fn is_flushed(&self) -> (r: bool)
        ensures
            r == (self.state().remaining == 0),
    {
        self.remaining == 0
    }

    /// What the end of the stream of responses means.
    pub fn stream_ended(&self) -> (r: Result<(), StreamEndError>)
        requires
            self.wf(),
        ensures
            r == end_of_stream(self.state()),
    {
        if self.was_shutdown {
            if self.remaining == 0 || self.remaining == self.pending[0] {
                Ok(())
            } else {
                Err(StreamEndError::UnexpectedEof)
            }
        } else {
            Err(StreamEndError::ConnectionReset)
        }
    }
}

/// The text of the error for a response no request awaited.
pub fn unexpected_response_message(k: CommandKind) -> (s: &'static str)
    ensures
        s@ == "Received unexpected "@ + kind_name(k) + " response"@,
{
    proof {
        reveal_strlit("Received unexpected ");
        reveal_strlit(" response");
    }
    match k {
        CommandKind::Shutdown => {
            proof { reveal_strlit("Shutdown"); reveal_strlit("Received unexpected Shutdown response"); }
            "Received unexpected Shutdown response"
        },
        CommandKind::EventStreamConfig => {
            proof { reveal_strlit("EventStreamConfig"); reveal_strlit("Received unexpected EventStreamConfig response"); }
            "Received unexpected EventStreamConfig response"
        },
        CommandKind::EventStream => {
            proof { reveal_strlit("EventStream"); reveal_strlit("Received unexpected EventStream response"); }
            "Received unexpected EventStream response"
        },
        CommandKind::ListSocks5Sockets => {
            proof { reveal_strlit("ListSocks5Sockets"); reveal_strlit("Received unexpected ListSocks5Sockets response"); }
            "Received unexpected ListSocks5Sockets response"
        },
        CommandKind::AddSocks5Socket => {
            proof { reveal_strlit("AddSocks5Socket"); reveal_strlit("Received unexpected AddSocks5Socket response"); }
            "Received unexpected AddSocks5Socket response"
        },
        CommandKind::RemoveSocks5Socket => {
            proof { reveal_strlit("RemoveSocks5Socket"); reveal_strlit("Received unexpected RemoveSocks5Socket response"); }
            "Received unexpected RemoveSocks5Socket response"
        },
        CommandKind::ListSandstormSockets => {
            proof { reveal_strlit("ListSandstormSockets"); reveal_strlit("Received unexpected ListSandstormSockets response"); }
            "Received unexpected ListSandstormSockets response"
        },
        CommandKind::AddSandstormSocket => {
            proof { reveal_strlit("AddSandstormSocket"); reveal_strlit("Received unexpected AddSandstormSocket response"); }
            "Received unexpected AddSandstormSocket response"
        },
        CommandKind::RemoveSandstormSocket => {
            proof { reveal_strlit("RemoveSandstormSocket"); reveal_strlit("Received unexpected RemoveSandstormSocket response"); }
            "Received unexpected RemoveSandstormSocket response"
        },
        CommandKind::ListUsers => {
            proof { reveal_strlit("ListUsers"); reveal_strlit("Received unexpected ListUsers response"); }
            "Received unexpected ListUsers response"
        },
        CommandKind::AddUser => {
            proof { reveal_strlit("AddUser"); reveal_strlit("Received unexpected AddUser response"); }
            "Received unexpected AddUser response"
        },
        CommandKind::UpdateUser => {
            proof { reveal_strlit("UpdateUser"); reveal_strlit("Received unexpected UpdateUser response"); }
            "Received unexpected UpdateUser response"
        },
        CommandKind::DeleteUser => {
            proof { reveal_strlit("DeleteUser"); reveal_strlit("Received unexpected DeleteUser response"); }
            "Received unexpected DeleteUser response"
        },
        CommandKind::ListAuthMethods => {
            proof { reveal_strlit("ListAuthMethods"); reveal_strlit("Received unexpected ListAuthMethods response"); }
            "Received unexpected ListAuthMethods response"
        },
        CommandKind::ToggleAuthMethod => {
            proof { reveal_strlit("ToggleAuthMethod"); reveal_strlit("Received unexpected ToggleAuthMethod response"); }
            "Received unexpected ToggleAuthMethod response"
        },
        CommandKind::RequestCurrentMetrics => {
            proof { reveal_strlit("RequestCurrentMetrics"); reveal_strlit("Received unexpected RequestCurrentMetrics response"); }
            "Received unexpected RequestCurrentMetrics response"
        },
        CommandKind::GetBufferSize => {
            proof { reveal_strlit("GetBufferSize"); reveal_strlit("Received unexpected GetBufferSize response"); }
            "Received unexpected GetBufferSize response"
        },
        CommandKind::SetBufferSize => {
            proof { reveal_strlit("SetBufferSize"); reveal_strlit("Received unexpected SetBufferSize response"); }
            "Received unexpected SetBufferSize response"
        },
        CommandKind::Meow => {
            proof { reveal_strlit("Meow"); reveal_strlit("Received unexpected Meow response"); }
            "Received unexpected Meow response"
        },
    }
}

/// The name of a command kind, as the protocol calls it.
pub open spec fn kind_name(k: CommandKind) -> Seq<char> {
    match k {
        CommandKind::Shutdown => "Shutdown"@,
        CommandKind::EventStreamConfig => "EventStreamConfig"@,
        CommandKind::EventStream => "EventStream"@,
        CommandKind::ListSocks5Sockets => "ListSocks5Sockets"@,
        CommandKind::AddSocks5Socket => "AddSocks5Socket"@,
        CommandKind::RemoveSocks5Socket => "RemoveSocks5Socket"@,
        CommandKind::ListSandstormSockets => "ListSandstormSockets"@,
        CommandKind::AddSandstormSocket => "AddSandstormSocket"@,
        CommandKind::RemoveSandstormSocket => "RemoveSandstormSocket"@,
        CommandKind::ListUsers => "ListUsers"@,
        CommandKind::AddUser => "AddUser"@,
        CommandKind::UpdateUser => "UpdateUser"@,
        CommandKind::DeleteUser => "DeleteUser"@,
        CommandKind::ListAuthMethods => "ListAuthMethods"@,
        CommandKind::ToggleAuthMethod => "ToggleAuthMethod"@,
        CommandKind::RequestCurrentMetrics => "RequestCurrentMetrics"@,
        CommandKind::GetBufferSize => "GetBufferSize"@,
        CommandKind::SetBufferSize => "SetBufferSize"@,
        CommandKind::Meow => "Meow"@,
    }
}

/// A response to a request undoes the request's bookkeeping: the handler of the request is
/// called and the counts are back where they were (but for the listing of users, which the
/// flush never waited for).
pub proof fn lemma_response_undoes_request(s: PendingState, k: CommandKind)
    requires
        s.pending.len() == COMMAND_KINDS,
        k != CommandKind::EventStream,
        k != CommandKind::ListUsers,
        s.pending[kind_index(k)] < usize::MAX,
        s.remaining < usize::MAX,
    ensures
        after_response(after_request(s, k), k).1 == ResponseAction::CallHandler,
        after_response(after_request(s, k), k).0.pending == s.pending,
        after_response(after_request(s, k), k).0.remaining == s.remaining,
{
    let t = after_request(s, k);
    assert(t.pending[kind_index(k)] == s.pending[kind_index(k)] + 1);
    assert(after_response(t, k).0.pending =~= s.pending);
}

/// A response is handled only if a request of its kind is pending, and then the number
/// pending of its kind goes down by exactly one: no handler is called twice.
pub proof fn lemma_handlers_called_once(s: PendingState, k: CommandKind)
    requires
        s.pending.len() == COMMAND_KINDS,
    ensures
        after_response(s, k).1 == ResponseAction::CallHandler ==> s.pending[kind_index(k)] > 0
            && after_response(s, k).0.pending[kind_index(k)] == s.pending[kind_index(k)] - 1,
        after_response(s, k).1 != ResponseAction::CallHandler ==> after_response(s, k).0 == s,
{
}

/// The sizes of the read and write buffers of the connection: a larger read buffer when the
/// server's logs are streamed, a larger write buffer for sixteen requests or more.
pub fn choose_buffer_sizes(startup_args: &StartupArguments) -> (r: (usize, usize))
    ensures
        r.0 == (if startup_args.output_logs { 0x2000usize } else { 0x1000usize }),
        r.1 == (if startup_args.requests.len() < 16 { 0x1000usize } else { 0x2000usize }),
{
    let read_buffer_size: usize = if startup_args.output_logs { 0x2000 } else { 0x1000 };
    let write_buffer_size: usize = if startup_args.requests.len() < 16 { 0x1000 } else { 0x2000 };
    (read_buffer_size, write_buffer_size)
}

/// The position of the first request of the given kind among those awaiting an answer, or
/// how many are waiting when none is of that kind.
pub open spec fn first_of_kind<T>(waiting: Seq<(CommandKind, T)>, kind: CommandKind) -> int
    decreases waiting.len(),
{
    if waiting.len() == 0 {
        0
    } else if waiting[0].0 == kind {
        0
    } else {
        1 + first_of_kind(waiting.drop_first(), kind)
    }
}

proof fn lemma_first_of_kind<T>(waiting: Seq<(CommandKind, T)>, kind: CommandKind, i: int)
    requires
        0 <= i <= waiting.len(),
        forall|j: int| 0 <= j < i ==> (#[trigger] waiting[j]).0 != kind,
        i < waiting.len() ==> waiting[i].0 == kind,
    ensures
        first_of_kind(waiting, kind) == i,
    decreases i,
{
    if i > 0 {
        assert(waiting[0].0 != kind);
        let rest = waiting.drop_first();
        assert forall|j: int| 0 <= j < i - 1 implies (#[trigger] rest[j]).0 != kind by {
            assert(rest[j] == waiting[j + 1]);
        }
        if i < waiting.len() {
            assert(rest[i - 1] == waiting[i]);
        }
        lemma_first_of_kind(rest, kind, i - 1);
    }
}

/// Takes from the requests awaiting an answer the first one of the given kind, which an answer
/// of that kind belongs to; `None`, with nothing taken, when none is of that kind.
pub fn take_request<T>(waiting: &mut VecDeque<(CommandKind, T)>, kind: CommandKind) -> (r: Option<T>)
    ensures
        ({
            let i = first_of_kind(old(waiting)@, kind);
            if i < old(waiting)@.len() {
                &&& r == Some(old(waiting)@[i].1)
                &&& final(waiting)@ == old(waiting)@.remove(i)
            } else {
                &&& r is None
                &&& final(waiting)@ == old(waiting)@
            }
        }),
{
    let mut i: usize = 0;
    while i < waiting.len() && waiting[i].0 != kind
        invariant
            i <= waiting@.len(),
            waiting@ == old(waiting)@,
            forall|j: int| 0 <= j < i ==> (#[trigger] waiting@[j]).0 != kind,
        decreases waiting@.len() - i,
    {
        i = i + 1;
    }
    proof {
        lemma_first_of_kind(waiting@, kind, i as int);
    }
    match waiting.remove(i) {
        Some((_, request)) => Some(request),
        None => None,
    }
}

/// How the server answered a request to turn the event stream on.
#[derive(Debug, Clone, Copy, PartialEq, Eq, Structural)]
pub enum StreamConfigAnswer {
    Disabled,
    Enabled,
    WasAlreadyEnabled,
}

/// What the client does with that answer: the message it prints (to the error stream when
/// `is_error`), and whether it goes on reading the stream (then printing the metrics next).
#[derive(Debug, Clone, Copy)]
pub struct StreamConfigOutcome {
    pub message: &'static str,
    pub is_error: bool,
    pub keep_reading: bool,
}

/// The message printed when the server refuses the event stream.
pub const STREAM_REFUSED_MESSAGE: &'static str = "Server refused to enable event streaming";

/// The message printed when the event stream is turned on.
pub const STREAM_ENABLED_MESSAGE: &'static str = "Event streaming enabled! Current metrics are:";

/// The message printed when the server says the event stream was already on.
pub const STREAM_ALREADY_ENABLED_MESSAGE: &'static str =
    "Couldn't enable event streaming: Server responded with WasAlreadyEnabled.";

/// What the client does with the server's answer to turning the event stream on: only an
/// enabled stream is read further; the other answers end the session with an error message.
pub fn event_stream_config_outcome(answer: StreamConfigAnswer) -> (o: StreamConfigOutcome)
    ensures
        o.keep_reading == (answer == StreamConfigAnswer::Enabled),
        o.is_error == !o.keep_reading,
        o.message == (match answer {
            StreamConfigAnswer::Disabled => STREAM_REFUSED_MESSAGE,
            StreamConfigAnswer::Enabled => STREAM_ENABLED_MESSAGE,
            StreamConfigAnswer::WasAlreadyEnabled => STREAM_ALREADY_ENABLED_MESSAGE,
        }),
{
    match answer {
        StreamConfigAnswer::Disabled => StreamConfigOutcome {
            message: STREAM_REFUSED_MESSAGE,
            is_error: true,
            keep_reading: false,
        },
        StreamConfigAnswer::Enabled => StreamConfigOutcome {
            message: STREAM_ENABLED_MESSAGE,
            is_error: false,
            keep_reading: true,
        },
        StreamConfigAnswer::WasAlreadyEnabled => StreamConfigOutcome {
            message: STREAM_ALREADY_ENABLED_MESSAGE,
            is_error: true,
            keep_reading: false,
        },
    }
}

} // verus!
