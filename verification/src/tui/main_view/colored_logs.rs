//! Server events turned into log lines: a timestamp, then pieces of text each tagged with the
//! style it is drawn in.

use vstd::prelude::*;

use crate::args::{auth_method_name, auth_method_to_str, role_name, role_to_str, AuthMethod, UserRole};
use crate::text::{concat2, decimal, decimal_string, push_char, push_decimal, push_str};
use crate::tui::text_wrapper::StaticString;

verus! {

/// The first UNIX timestamp `time::OffsetDateTime` can represent: the start of the year -9999.
pub const MIN_TIMESTAMP: i64 = -377705116800;

/// The last UNIX timestamp `time::OffsetDateTime` can represent: the last second of the year
/// 9999.
pub const MAX_TIMESTAMP: i64 = 253402300799;

/// A calendar date and a time of day.
#[derive(Debug, Clone, Copy, PartialEq, Eq, Structural)]
pub struct DateTime {
    pub year: i32,
    pub month: u8,
    pub day: u8,
    pub hour: u8,
    pub minute: u8,
    pub second: u8,
}

/// Whether each field of a date and time lies in its range.
pub open spec fn date_time_in_range(dt: DateTime) -> bool {
    &&& -9999 <= dt.year <= 9999
    &&& 1 <= dt.month <= 12
    &&& 1 <= dt.day <= 31
    &&& dt.hour < 24
    &&& dt.minute < 60
    &&& dt.second < 60
}

/// The start of 1970 in UTC, the UNIX epoch.
pub open spec fn unix_epoch() -> DateTime {
    DateTime { year: 1970, month: 1, day: 1, hour: 0, minute: 0, second: 0 }
}

/// The date and time in UTC of a UNIX timestamp, as `time::OffsetDateTime::from_unix_timestamp`
/// computes it.
pub uninterp spec fn utc_date_time_of(timestamp: i64) -> DateTime;

/// `time::OffsetDateTime::from_unix_timestamp`, taken apart into its calendar date and time of
/// day. It succeeds exactly on the timestamps of the years -9999 to 9999 (the range the crate
/// is built with), and each field of what it gives lies in its documented range.
#[verifier::external_body]
fn utc_date_time(timestamp: i64) -> (r: Option<DateTime>)
    ensures
        r is Some <==> MIN_TIMESTAMP <= timestamp <= MAX_TIMESTAMP,
        r matches Some(dt) ==> dt == utc_date_time_of(timestamp) && date_time_in_range(dt),
{
    match time::OffsetDateTime::from_unix_timestamp(timestamp) {
        Ok(t) => Some(DateTime {
            year: t.year(),
            month: t.month() as u8,
            day: t.day(),
            hour: t.hour(),
            minute: t.minute(),
            second: t.second(),
        }),
        Err(_) => None,
    }
}

/// Whether a timestamp can be shown at a UTC offset: one the date type can hold must stay in
/// its range once the offset is added.
pub open spec fn offset_fits(timestamp: i64, utc_offset_seconds: i32) -> bool {
    MIN_TIMESTAMP <= timestamp <= MAX_TIMESTAMP ==> MIN_TIMESTAMP <= timestamp + utc_offset_seconds <= MAX_TIMESTAMP
}

/// Whether a timestamp can be shown at a UTC offset (in seconds east of UTC).
pub fn timestamp_fits_offset(timestamp: i64, utc_offset_seconds: i32) -> (r: bool)
    ensures
        r == offset_fits(timestamp, utc_offset_seconds),
{
    if MIN_TIMESTAMP <= timestamp && timestamp <= MAX_TIMESTAMP {
        let shifted: i64 = timestamp + utc_offset_seconds as i64;
        MIN_TIMESTAMP <= shifted && shifted <= MAX_TIMESTAMP
    } else {
        true
    }
}

/// The local date and time of a timestamp at a UTC offset: the date and time in UTC of the
/// timestamp moved by the offset, or the UNIX epoch for a timestamp out of the representable
/// range.
pub open spec fn local_date_time_spec(timestamp: i64, utc_offset_seconds: i32) -> DateTime {
    if MIN_TIMESTAMP <= timestamp <= MAX_TIMESTAMP {
        utc_date_time_of((timestamp + utc_offset_seconds) as i64)
    } else {
        unix_epoch()
    }
}

/// The local date and time of a timestamp at a UTC offset (given in seconds east of UTC), or
/// the UNIX epoch where the timestamp is out of the representable range.
pub fn local_date_time(timestamp: i64, utc_offset_seconds: i32) -> (r: DateTime)
    requires
        offset_fits(timestamp, utc_offset_seconds),
    ensures
        r == local_date_time_spec(timestamp, utc_offset_seconds),
        date_time_in_range(r),
{
    match utc_date_time(timestamp) {
        None => DateTime { year: 1970, month: 1, day: 1, hour: 0, minute: 0, second: 0 },
        Some(_) => {
            let shifted: i64 = timestamp + utc_offset_seconds as i64;
            match utc_date_time(shifted) {
                Some(dt) => dt,
                None => DateTime { year: 1970, month: 1, day: 1, hour: 0, minute: 0, second: 0 },
            }
        },
    }
}

/// A number's decimal digits, with zeros in front up to the given width.
pub open spec fn zero_padded(n: nat, width: nat) -> Seq<char> {
    let digits = decimal(n);
    if digits.len() < width {
        Seq::new((width - digits.len()) as nat, |_i: int| '0') + digits
    } else {
        digits
    }
}

/// A signed number as `{:0width$}` writes it: the sign, then the digits with zeros in front so
/// that the whole takes at least the width.
pub open spec fn signed_zero_padded(n: int, width: nat) -> Seq<char> {
    if n >= 0 {
        zero_padded(n as nat, width)
    } else {
        seq!['-'] + zero_padded((-n) as nat, (width - 1) as nat)
    }
}

/// A date and time as the log shows it: `[YYYY-MM-DD HH:MM:SS]`.
pub open spec fn timestamp_text(dt: DateTime) -> Seq<char> {
    seq!['['] + signed_zero_padded(dt.year as int, 4) + seq!['-'] + zero_padded(dt.month as nat, 2) + seq!['-']
        + zero_padded(dt.day as nat, 2) + seq![' '] + zero_padded(dt.hour as nat, 2) + seq![':']
        + zero_padded(dt.minute as nat, 2) + seq![':'] + zero_padded(dt.second as nat, 2) + seq![']']
}

/// The number of decimal digits of a number.
pub open spec fn digit_count(n: nat) -> nat
    decreases n,
{
    if n < 10 {
        1
    } else {
        1 + digit_count(n / 10)
    }
}

proof fn lemma_decimal_len(n: nat)
    ensures
        decimal(n).len() == digit_count(n),
    decreases n,
{
    if n >= 10 {
        lemma_decimal_len(n / 10);
    }
}

proof fn lemma_digit_count_small(n: nat)
    requires
        n < 10000,
    ensures
        digit_count(n) == (if n < 10 { 1nat } else if n < 100 { 2nat } else if n < 1000 { 3nat } else { 4nat }),
{
    reveal_with_fuel(digit_count, 5);
}

/// Appends `n` in decimal with zeros in front up to `width` digits.
pub(crate) fn push_zero_padded(s: &mut String, n: u32, width: usize)
    requires
        n < 10000,
        width <= 4,
    ensures
        final(s)@ == old(s)@ + zero_padded(n as nat, width as nat),
{
    let count: usize = if n < 10 {
        1
    } else if n < 100 {
        2
    } else if n < 1000 {
        3
    } else {
        4
    };
    proof {
        lemma_decimal_len(n as nat);
        lemma_digit_count_small(n as nat);
    }
    let pad: usize = if width > count { width - count } else { 0 };
    let mut zeros: usize = 0;
    while zeros < pad
        invariant
            zeros <= pad,
            s@ == old(s)@ + Seq::new(zeros as nat, |_i: int| '0'),
        decreases pad - zeros,
    {
        push_char(s, '0');
        zeros = zeros + 1;
        assert(s@ =~= old(s)@ + Seq::new(zeros as nat, |_i: int| '0'));
    }
    push_decimal(s, n as u128);
    assert(s@ =~= old(s)@ + zero_padded(n as nat, width as nat));
}

/// A date and time as the log shows it: `[YYYY-MM-DD HH:MM:SS]`, the year padded to four
/// characters with its sign.
pub fn timestamp_string(dt: &DateTime) -> (s: String)
    requires
        date_time_in_range(*dt),
    ensures
        s@ == timestamp_text(*dt),
{
    let mut s = String::new();
    push_char(&mut s, '[');
    if dt.year >= 0 {
        push_zero_padded(&mut s, dt.year as u32, 4);
    } else {
        push_char(&mut s, '-');
        push_zero_padded(&mut s, (0 - dt.year) as u32, 3);
    }
    push_char(&mut s, '-');
    push_zero_padded(&mut s, dt.month as u32, 2);
    push_char(&mut s, '-');
    push_zero_padded(&mut s, dt.day as u32, 2);
    push_char(&mut s, ' ');
    push_zero_padded(&mut s, dt.hour as u32, 2);
    push_char(&mut s, ':');
    push_zero_padded(&mut s, dt.minute as u32, 2);
    push_char(&mut s, ':');
    push_zero_padded(&mut s, dt.second as u32, 2);
    push_char(&mut s, ']');
    assert(s@ =~= timestamp_text(*dt));
    s
}

/// The timestamp of a log line: the local date and time of a UNIX timestamp at a UTC offset
/// (in seconds east of UTC), written as `[YYYY-MM-DD HH:MM:SS]`.
pub fn format_timestamp(timestamp: i64, utc_offset_seconds: i32) -> (s: String)
    requires
        offset_fits(timestamp, utc_offset_seconds),
    ensures
        s@ == timestamp_text(local_date_time_spec(timestamp, utc_offset_seconds)),
{
    let dt = local_date_time(timestamp, utc_offset_seconds);
    timestamp_string(&dt)
}

/// What a piece of a log line shows, which decides the style it is drawn in.
#[derive(Debug, Clone, Copy, PartialEq, Eq, Structural)]
pub enum LogStyle {
    Timestamp,
    Default,
    SocketAddress,
    Filename,
    Username,
    UserRole,
    AuthMethod,
    ClientId,
    ClientAddress,
    DestinationAddress,
    ManagerId,
    ManagerAddress,
    BufferSize,
    ShutdownRequest,
    Warning,
    Error,
    ShutdownSignal,
}

/// The pieces of a line, each taken by its text.
pub open spec fn pieces_view(pieces: Seq<(StaticString, LogStyle)>) -> Seq<(Seq<char>, LogStyle)> {
    Seq::new(pieces.len(), |i: int| (pieces[i].0@, pieces[i].1))
}

/// Where a client asked to connect: an IPv4 address (its octets as one integer, most
/// significant first), an IPv6 address already written out, or a domain name.
#[derive(Debug)]
pub enum SocksDestination {
    IPv4(u32),
    IPv6(String),
    Domainname(String),
}

/// A client's request to connect to a destination and port.
#[derive(Debug)]
pub struct SocksRequest {
    pub destination: SocksDestination,
    pub port: u16,
}

/// An IPv4 address in dotted decimal.
pub open spec fn ipv4_text(ip: u32) -> Seq<char> {
    decimal((ip / 0x100_0000) as nat) + seq!['.'] + decimal(((ip / 0x1_0000) % 0x100) as nat) + seq!['.']
        + decimal(((ip / 0x100) % 0x100) as nat) + seq!['.'] + decimal((ip % 0x100) as nat)
}

/// The pieces that name a requested destination and its port.
pub open spec fn destination_pieces(request: SocksRequest) -> Seq<(Seq<char>, LogStyle)> {
    let port = seq![':'] + decimal(request.port as nat);
    match request.destination {
        SocksDestination::IPv4(ip) => seq![
            ("IPv4 "@, LogStyle::Default),
            (ipv4_text(ip) + port, LogStyle::DestinationAddress),
        ],
        SocksDestination::IPv6(ip) => seq![
            ("IPv6 "@, LogStyle::Default),
            (seq!['['] + ip@ + seq![']'] + port, LogStyle::DestinationAddress),
        ],
        SocksDestination::Domainname(name) => seq![
            ("domainname "@, LogStyle::Default),
            (name@ + port, LogStyle::DestinationAddress),
        ],
    }
}

fn destination_pieces_vec(request: &SocksRequest) -> (pieces: Vec<(StaticString, LogStyle)>)
    ensures
        pieces_view(pieces@) == destination_pieces(*request),
{
    let mut text = String::new();
    let pieces = match &request.destination {
        SocksDestination::IPv4(ip) => {
            push_decimal(&mut text, (*ip / 0x100_0000) as u128);
            push_char(&mut text, '.');
            push_decimal(&mut text, ((*ip / 0x1_0000) % 0x100) as u128);
            push_char(&mut text, '.');
            push_decimal(&mut text, ((*ip / 0x100) % 0x100) as u128);
            push_char(&mut text, '.');
            push_decimal(&mut text, (*ip % 0x100) as u128);
            push_char(&mut text, ':');
            push_decimal(&mut text, request.port as u128);
            assert(text@ =~= ipv4_text(*ip) + (seq![':'] + decimal(request.port as nat)));
            vec![(StaticString::Static("IPv4 "), LogStyle::Default), (StaticString::Owned(text), LogStyle::DestinationAddress)]
        },
        SocksDestination::IPv6(ip) => {
            push_char(&mut text, '[');
            push_str(&mut text, ip.as_str());
            push_char(&mut text, ']');
            push_char(&mut text, ':');
            push_decimal(&mut text, request.port as u128);
            assert(text@ =~= seq!['['] + ip@ + seq![']'] + (seq![':'] + decimal(request.port as nat)));
            vec![(StaticString::Static("IPv6 "), LogStyle::Default), (StaticString::Owned(text), LogStyle::DestinationAddress)]
        },
        SocksDestination::Domainname(name) => {
            push_str(&mut text, name.as_str());
            push_char(&mut text, ':');
            push_decimal(&mut text, request.port as u128);
            assert(text@ =~= name@ + (seq![':'] + decimal(request.port as nat)));
            vec![(StaticString::Static("domainname "), LogStyle::Default), (StaticString::Owned(text), LogStyle::DestinationAddress)]
        },
    };
    assert(pieces_view(pieces@) =~= destination_pieces(*request));
    pieces
}

/// A server event, with the addresses and errors it reports already written out as text.
#[derive(Debug)]
pub enum EventData {
    NewSocks5Socket(String),
    FailedBindSocks5Socket(String, String),
    FailedBindAnySocketAborting,
    RemovedSocks5Socket(String),
    NewSandstormSocket(String),
    FailedBindSandstormSocket(String, String),
    RemovedSandstormSocket(String),
    LoadingUsersFromFile(String),
    UsersLoadedFromFile(String, Result<u64, String>),
    StartingUpWithSingleDefaultUser(String),
    SavingUsersToFile(String),
    UsersSavedToFile(String, Result<u64, String>),
    UserRegisteredByArgs(String, UserRole),
    UserReplacedByArgs(String, UserRole),
    NewClientConnectionAccepted(u64, String),
    ClientConnectionAcceptFailed(Option<String>, String),
    ClientRequestedUnsupportedVersion(u64, u8),
    ClientRequestedUnsupportedCommand(u64, u8),
    ClientRequestedUnsupportedAtyp(u64, u8),
    ClientSelectedAuthMethod(u64, AuthMethod),
    ClientNoAcceptableAuthMethod(u64),
    ClientRequestedUnsupportedUserpassVersion(u64, u8),
    ClientAuthenticatedWithUserpass(u64, String, bool),
    ClientSocksRequest(u64, SocksRequest),
    ClientDnsLookup(u64, String),
    ClientAttemptingConnect(u64, String),
    ClientConnectionAttemptBindFailed(u64, String),
    ClientConnectionAttemptConnectFailed(u64, String),
    ClientFailedToConnectToDestination(u64),
    ClientConnectedToDestination(u64, String),
    ClientBytesSent(u64, u64),
    ClientBytesReceived(u64, u64),
    ClientSourceShutdown(u64),
    ClientDestinationShutdown(u64),
    ClientConnectionFinished(u64, u64, u64, Result<(), String>),
    NewSandstormConnectionAccepted(u64, String),
    SandstormConnectionAcceptFailed(Option<String>, String),
    SandstormRequestedUnsupportedVersion(u64, u8),
    SandstormAuthenticatedAs(u64, String, bool),
    NewSocksSocketRequestedByManager(u64, String),
    RemoveSocksSocketRequestedByManager(u64, String),
    NewSandstormSocketRequestedByManager(u64, String),
    RemoveSandstormSocketRequestedByManager(u64, String),
    UserRegisteredByManager(u64, String, UserRole),
    UserUpdatedByManager(u64, String, UserRole, bool),
    UserDeletedByManager(u64, String, UserRole),
    AuthMethodToggledByManager(u64, AuthMethod, bool),
    BufferSizeChangedByManager(u64, u32),
    SandstormRequestedShutdown(u64),
    SandstormConnectionFinished(u64, Result<(), String>),
    ShutdownSignalReceived,
}

/// The pieces of a log line that follow its timestamp for each event: the text of each, and
/// the style it is drawn in.
pub open spec fn event_pieces(data: EventData) -> Seq<(Seq<char>, LogStyle)> {
    match data {
        EventData::NewSocks5Socket(socket_address) => seq![
            (" Listening for socks5 client connections at "@, LogStyle::Default),
            (socket_address@, LogStyle::SocketAddress),
        ],
        EventData::FailedBindSocks5Socket(socket_address, io_error) => seq![
            (" Failed to set up socks5 socket at "@, LogStyle::Default),
            (socket_address@, LogStyle::SocketAddress),
            (": "@, LogStyle::Default),
            (io_error@, LogStyle::Error),
        ],
        EventData::FailedBindAnySocketAborting => seq![
            (" Failed to bind any socks5 socket! Aborting"@, LogStyle::Error),
        ],
        EventData::RemovedSocks5Socket(socket_address) => seq![
            (" Will no longer listen for socks5 client connections at "@, LogStyle::Default),
            (socket_address@, LogStyle::SocketAddress),
        ],
        EventData::NewSandstormSocket(socket_address) => seq![
            (" Listening for Sandstorm connections at "@, LogStyle::Default),
            (socket_address@, LogStyle::SocketAddress),
        ],
        EventData::FailedBindSandstormSocket(socket_address, io_error) => seq![
            (" Failed to set up Sandstorm socket at "@, LogStyle::Default),
            (socket_address@, LogStyle::SocketAddress),
            (": "@, LogStyle::Default),
            (io_error@, LogStyle::Error),
        ],
        EventData::RemovedSandstormSocket(socket_address) => seq![
            (" Will no longer listen for Sandstorm connections at "@, LogStyle::Default),
            (socket_address@, LogStyle::SocketAddress),
        ],
        EventData::LoadingUsersFromFile(filename) => seq![
            (" Loading users from file "@, LogStyle::Default),
            (filename@, LogStyle::Filename),
        ],
        EventData::UsersLoadedFromFile(filename, result) => match result {
            Ok(user_count) => seq![
                (" Loaded "@, LogStyle::Default),
                (decimal(user_count as nat), LogStyle::Default),
                (" users from file "@, LogStyle::Default),
                (filename@, LogStyle::Filename),
            ],
            Err(load_users_error) => seq![
                (" Error while loading users from file "@, LogStyle::Default),
                (filename@, LogStyle::Filename),
                (": "@, LogStyle::Default),
                (load_users_error@, LogStyle::Error),
            ],
        },
        EventData::StartingUpWithSingleDefaultUser(userpass) => seq![
            (" Starting up with single default user "@, LogStyle::Default),
            (userpass@, LogStyle::Username),
        ],
        EventData::SavingUsersToFile(filename) => seq![
            (" Saving users to file "@, LogStyle::Default),
            (filename@, LogStyle::Filename),
        ],
        EventData::UsersSavedToFile(filename, result) => match result {
            Ok(amount) => seq![
                (" Successfully saved "@, LogStyle::Default),
                (decimal(amount as nat), LogStyle::Default),
                (" users to file "@, LogStyle::Default),
                (filename@, LogStyle::Filename),
            ],
            Err(io_error) => seq![
                (" Failed to save users to file "@, LogStyle::Default),
                (filename@, LogStyle::Filename),
                (": "@, LogStyle::Default),
                (io_error@, LogStyle::Error),
            ],
        },
        EventData::UserRegisteredByArgs(username, role) => seq![
            (" Registered new "@, LogStyle::Default),
            (role_name(role), LogStyle::UserRole),
            (" user "@, LogStyle::Default),
            (username@, LogStyle::Username),
            (" specified via argument"@, LogStyle::Default),
        ],
        EventData::UserReplacedByArgs(username, role) => seq![
            (" Replaced user loaded from file "@, LogStyle::Default),
            (username@, LogStyle::Username),
            (" with new "@, LogStyle::Default),
            (role_name(role), LogStyle::UserRole),
            (" user specified via argument"@, LogStyle::Default),
        ],
        EventData::NewClientConnectionAccepted(client_id, socket_address) => seq![
            (" New client connection from "@, LogStyle::Default),
            (socket_address@, LogStyle::ClientAddress),
            (" assigned "@, LogStyle::Default),
            ("ID "@ + decimal(client_id as nat), LogStyle::ClientId),
        ],
        EventData::ClientConnectionAcceptFailed(socket_address, io_error) => match socket_address {
            Some(address) => seq![
                (" Failed to accept incoming socks connection from socket "@, LogStyle::Default),
                (address@, LogStyle::ClientAddress),
                (": "@, LogStyle::Default),
                (io_error@, LogStyle::Error),
            ],
            None => seq![
                (" Failed to accept incoming socks connection from unknown socket: "@, LogStyle::Default),
                (io_error@, LogStyle::Error),
            ],
        },
        EventData::ClientRequestedUnsupportedVersion(client_id, version) => seq![
            (" Client "@, LogStyle::ClientId),
            (decimal(client_id as nat), LogStyle::ClientId),
            (" requested "@, LogStyle::Default),
            ("unsupported socks version: "@, LogStyle::Warning),
            (decimal(version as nat), LogStyle::Warning),
        ],
        EventData::ClientRequestedUnsupportedCommand(client_id, command) => seq![
            (" Client "@, LogStyle::ClientId),
            (decimal(client_id as nat), LogStyle::ClientId),
            (" requested "@, LogStyle::Default),
            ("unsupported socks command: "@, LogStyle::Warning),
            (decimal(command as nat), LogStyle::Warning),
        ],
        EventData::ClientRequestedUnsupportedAtyp(client_id, atyp) => seq![
            (" Client "@, LogStyle::ClientId),
            (decimal(client_id as nat), LogStyle::ClientId),
            (" requested "@, LogStyle::Default),
            ("unsupported socks ATYP: "@, LogStyle::Warning),
            (decimal(atyp as nat), LogStyle::Warning),
        ],
        EventData::ClientSelectedAuthMethod(client_id, auth_method) => seq![
            (" Client "@, LogStyle::ClientId),
            (decimal(client_id as nat), LogStyle::ClientId),
            (" will use auth method "@, LogStyle::Default),
            (auth_method_name(auth_method), LogStyle::AuthMethod),
        ],
        EventData::ClientNoAcceptableAuthMethod(client_id) => seq![
            (" Client "@, LogStyle::ClientId),
            (decimal(client_id as nat), LogStyle::ClientId),
            (" no acceptable authentication method found"@, LogStyle::Warning),
        ],
        EventData::ClientRequestedUnsupportedUserpassVersion(client_id, version) => seq![
            (" Client "@, LogStyle::ClientId),
            (decimal(client_id as nat), LogStyle::ClientId),
            (" requested "@, LogStyle::Default),
            ("unsupported userpass version: "@, LogStyle::Warning),
            (decimal(version as nat), LogStyle::Warning),
        ],
        EventData::ClientAuthenticatedWithUserpass(client_id, username, success) => if success {
            seq![
                (" Client "@, LogStyle::ClientId),
                (decimal(client_id as nat), LogStyle::ClientId),
                (" successfully authenticated as "@, LogStyle::Default),
                (username@, LogStyle::Username),
            ]
        } else {
            seq![
                (" Client "@, LogStyle::ClientId),
                (decimal(client_id as nat), LogStyle::ClientId),
                (" unsuccessfully authenticated as "@, LogStyle::Warning),
                (username@, LogStyle::Username),
            ]
        },
        EventData::ClientSocksRequest(client_id, request) => seq![
            (" Client "@, LogStyle::ClientId),
            (decimal(client_id as nat), LogStyle::ClientId),
            (" requested to connect to "@, LogStyle::Default),
        ] + destination_pieces(request),
        EventData::ClientDnsLookup(client_id, domainname) => seq![
            (" Client "@, LogStyle::ClientId),
            (decimal(client_id as nat), LogStyle::ClientId),
            (" performing DNS lookup for "@, LogStyle::Default),
            (domainname@, LogStyle::DestinationAddress),
        ],
        EventData::ClientAttemptingConnect(client_id, socket_address) => seq![
            (" Client "@, LogStyle::ClientId),
            (decimal(client_id as nat), LogStyle::ClientId),
            (" attempting to connect to destination at "@, LogStyle::Default),
            (socket_address@, LogStyle::DestinationAddress),
        ],
        EventData::ClientConnectionAttemptBindFailed(client_id, io_error) => seq![
            (" Client "@, LogStyle::ClientId),
            (decimal(client_id as nat), LogStyle::ClientId),
            (" failed to bind local socket: "@, LogStyle::Default),
            (io_error@, LogStyle::Error),
        ],
        EventData::ClientConnectionAttemptConnectFailed(client_id, io_error) => seq![
            (" Client "@, LogStyle::ClientId),
            (decimal(client_id as nat), LogStyle::ClientId),
            (" failed to connect to destination: "@, LogStyle::Default),
            (io_error@, LogStyle::Error),
        ],
        EventData::ClientFailedToConnectToDestination(client_id) => seq![
            (" Client "@, LogStyle::ClientId),
            (decimal(client_id as nat), LogStyle::ClientId),
            (" failed to connect to destination, "@, LogStyle::Default),
            ("sending error response"@, LogStyle::Error),
        ],
        EventData::ClientConnectedToDestination(client_id, socket_address) => seq![
            (" Client "@, LogStyle::ClientId),
            (decimal(client_id as nat), LogStyle::ClientId),
            (" successfully established connection to destination at "@, LogStyle::Default),
            (socket_address@, LogStyle::DestinationAddress),
        ],
        EventData::ClientBytesSent(client_id, count) => seq![
            (" Client "@, LogStyle::ClientId),
            (decimal(client_id as nat), LogStyle::ClientId),
            (" sent "@, LogStyle::Default),
            (decimal(count as nat), LogStyle::Default),
            (" bytes"@, LogStyle::Default),
        ],
        EventData::ClientBytesReceived(client_id, count) => seq![
            (" Client "@, LogStyle::ClientId),
            (decimal(client_id as nat), LogStyle::ClientId),
            (" received "@, LogStyle::Default),
            (decimal(count as nat), LogStyle::Default),
            (" bytes"@, LogStyle::Default),
        ],
        EventData::ClientSourceShutdown(client_id) => seq![
            (" Client "@, LogStyle::ClientId),
            (decimal(client_id as nat), LogStyle::ClientId),
            (" source socket shutdown"@, LogStyle::Default),
        ],
        EventData::ClientDestinationShutdown(client_id) => seq![
            (" Client "@, LogStyle::ClientId),
            (decimal(client_id as nat), LogStyle::ClientId),
            (" destination socket shutdown"@, LogStyle::Default),
        ],
        EventData::ClientConnectionFinished(client_id, total_bytes_sent, total_bytes_received, result) => match result {
            Ok(_) => seq![
                (" Client "@, LogStyle::ClientId),
                (decimal(client_id as nat), LogStyle::ClientId),
                (" finished after "@, LogStyle::Default),
                (decimal(total_bytes_sent as nat), LogStyle::Default),
                (" bytes sent and "@, LogStyle::Default),
                (decimal(total_bytes_received as nat), LogStyle::Default),
                (" bytes received"@, LogStyle::Default),
            ],
            Err(io_error) => seq![
                (" Client "@, LogStyle::ClientId),
                (decimal(client_id as nat), LogStyle::ClientId),
                (" closed with IO error after "@, LogStyle::Default),
                (decimal(total_bytes_sent as nat), LogStyle::Default),
                (" bytes sent and "@, LogStyle::Default),
                (decimal(total_bytes_received as nat), LogStyle::Default),
                (" bytes received: "@, LogStyle::Default),
                (io_error@, LogStyle::Error),
            ],
        },
        EventData::NewSandstormConnectionAccepted(manager_id, socket_address) => seq![
            (" New management connection from "@, LogStyle::Default),
            (socket_address@, LogStyle::ManagerAddress),
            (" assigned "@, LogStyle::Default),
            ("ID "@ + decimal(manager_id as nat), LogStyle::ManagerId),
        ],
        EventData::SandstormConnectionAcceptFailed(socket_address, io_error) => match socket_address {
            Some(address) => seq![
                (" Failed to accept incoming management connection from socket "@, LogStyle::Default),
                (address@, LogStyle::ManagerAddress),
                (": "@, LogStyle::Default),
                (io_error@, LogStyle::Error),
            ],
            None => seq![
                (" Failed to accept incoming management connection from unknown socket: "@, LogStyle::Default),
                (io_error@, LogStyle::Error),
            ],
        },
        EventData::SandstormRequestedUnsupportedVersion(manager_id, version) => seq![
            (" Manager "@, LogStyle::ManagerId),
            (decimal(manager_id as nat), LogStyle::ManagerId),
            (" requested "@, LogStyle::Default),
            ("unsupported sandstorm version: "@, LogStyle::Warning),
            (decimal(version as nat), LogStyle::Warning),
        ],
        EventData::SandstormAuthenticatedAs(manager_id, username, success) => if success {
            seq![
                (" Manager "@, LogStyle::ManagerId),
                (decimal(manager_id as nat), LogStyle::ManagerId),
                (" successfully authenticated as "@, LogStyle::Default),
                (username@, LogStyle::Username),
            ]
        } else {
            seq![
                (" Manager "@, LogStyle::ManagerId),
                (decimal(manager_id as nat), LogStyle::ManagerId),
                (" unsuccessfully authenticated as "@, LogStyle::Warning),
                (username@, LogStyle::Default),
            ]
        },
        EventData::NewSocksSocketRequestedByManager(manager_id, socket_address) => seq![
            (" Manager "@, LogStyle::ManagerId),
            (decimal(manager_id as nat), LogStyle::ManagerId),
            (" requested opening a new socks5 socket at "@, LogStyle::Default),
            (socket_address@, LogStyle::SocketAddress),
        ],
        EventData::RemoveSocksSocketRequestedByManager(manager_id, socket_address) => seq![
            (" Manager "@, LogStyle::ManagerId),
            (decimal(manager_id as nat), LogStyle::ManagerId),
            (" requested closing socks5 socket at "@, LogStyle::Default),
            (socket_address@, LogStyle::SocketAddress),
        ],
        EventData::NewSandstormSocketRequestedByManager(manager_id, socket_address) => seq![
            (" Manager "@, LogStyle::ManagerId),
            (decimal(manager_id as nat), LogStyle::ManagerId),
            (" requested opening a new sandstorm socket at "@, LogStyle::Default),
            (socket_address@, LogStyle::SocketAddress),
        ],
        EventData::RemoveSandstormSocketRequestedByManager(manager_id, socket_address) => seq![
            (" Manager "@, LogStyle::ManagerId),
            (decimal(manager_id as nat), LogStyle::ManagerId),
            (" requested closing sandstorm socket at "@, LogStyle::Default),
            (socket_address@, LogStyle::SocketAddress),
        ],
        EventData::UserRegisteredByManager(manager_id, username, role) => seq![
            (" Manager "@, LogStyle::ManagerId),
            (decimal(manager_id as nat), LogStyle::ManagerId),
            (" registered new "@, LogStyle::Default),
            (role_name(role), LogStyle::UserRole),
            (" user "@, LogStyle::Default),
            (username@, LogStyle::Username),
        ],
        EventData::UserUpdatedByManager(manager_id, username, role, password_changed) => if password_changed {
            seq![
                (" Manager "@, LogStyle::ManagerId),
                (decimal(manager_id as nat), LogStyle::ManagerId),
                (" updated user "@, LogStyle::Default),
                (username@, LogStyle::Username),
                (" with role "@, LogStyle::Default),
                (role_name(role), LogStyle::UserRole),
                (" and new password"@, LogStyle::Default),
            ]
        } else {
            seq![
                (" Manager "@, LogStyle::ManagerId),
                (decimal(manager_id as nat), LogStyle::ManagerId),
                (" updated role of user "@, LogStyle::Default),
                (username@, LogStyle::Username),
                (" to "@, LogStyle::Default),
                (role_name(role), LogStyle::UserRole),
            ]
        },
        EventData::UserDeletedByManager(manager_id, username, role) => seq![
            (" Manager "@, LogStyle::ManagerId),
            (decimal(manager_id as nat), LogStyle::ManagerId),
            (" deleted "@, LogStyle::Default),
            (role_name(role), LogStyle::UserRole),
            (" user "@, LogStyle::Default),
            (username@, LogStyle::Username),
        ],
        EventData::AuthMethodToggledByManager(manager_id, auth_method, enabled) => if enabled {
            seq![
                (" Manager "@, LogStyle::ManagerId),
                (decimal(manager_id as nat), LogStyle::ManagerId),
                (" enabled"@, LogStyle::Default),
                (" authentication method "@, LogStyle::Default),
                (auth_method_name(auth_method), LogStyle::AuthMethod),
            ]
        } else {
            seq![
                (" Manager "@, LogStyle::ManagerId),
                (decimal(manager_id as nat), LogStyle::ManagerId),
                (" disabled"@, LogStyle::Default),
                (" authentication method "@, LogStyle::Default),
                (auth_method_name(auth_method), LogStyle::AuthMethod),
            ]
        },
        EventData::BufferSizeChangedByManager(manager_id, buffer_size) => seq![
            (" Manager "@, LogStyle::ManagerId),
            (decimal(manager_id as nat), LogStyle::ManagerId),
            (" set client buffer size to "@, LogStyle::Default),
            (decimal(buffer_size as nat), LogStyle::BufferSize),
        ],
        EventData::SandstormRequestedShutdown(manager_id) => seq![
            (" Manager "@, LogStyle::ManagerId),
            (decimal(manager_id as nat), LogStyle::ManagerId),
            (" requested the server shuts down"@, LogStyle::ShutdownRequest),
        ],
        EventData::SandstormConnectionFinished(manager_id, result) => match result {
            Ok(_) => seq![
                (" Manager "@, LogStyle::ManagerId),
                (decimal(manager_id as nat), LogStyle::ManagerId),
                (" finished"@, LogStyle::Default),
            ],
            Err(io_error) => seq![
                (" Manager "@, LogStyle::ManagerId),
                (decimal(manager_id as nat), LogStyle::ManagerId),
                (" closed with IO error: "@, LogStyle::Default),
                (io_error@, LogStyle::Error),
            ],
        },
        EventData::ShutdownSignalReceived => seq![
            (" Shutdown signal received"@, LogStyle::ShutdownSignal),
        ],
    }
}

/// A number written in decimal is made of digits, at least one.
proof fn lemma_decimal_digits(n: nat)
    ensures
        decimal(n).len() >= 1,
        forall|i: int| 0 <= i < decimal(n).len() ==> #[trigger] decimal(n)[i] != ' ',
    decreases n,
{
    if n >= 10 {
        lemma_decimal_digits(n / 10);
        assert forall|i: int| 0 <= i < decimal(n).len() implies #[trigger] decimal(n)[i] != ' ' by {
            if i < decimal(n / 10).len() {
                assert(decimal(n)[i] == decimal(n / 10)[i]);
            }
        }
    }
}

/// In the log line of a finished client connection, whether it closed cleanly or with an
/// error, the first piece reading ` bytes sent and ` follows the count of bytes sent and is
/// followed by the count of bytes received, then by ` bytes received`.
pub proof fn lemma_finished_client_counts(
    client_id: u64,
    total_bytes_sent: u64,
    total_bytes_received: u64,
    result: Result<(), String>,
)
    ensures
        ({
            let p = event_pieces(
                EventData::ClientConnectionFinished(client_id, total_bytes_sent, total_bytes_received, result),
            );
            exists|i: int|
                #![trigger p[i]]
                1 <= i && i + 2 < p.len() && p[i].0 == " bytes sent and "@ && (forall|j: int|
                    0 <= j < i ==> (#[trigger] p[j]).0 != " bytes sent and "@) && p[i - 1].0 == decimal(
                    total_bytes_sent as nat,
                ) && p[i + 1].0 == decimal(total_bytes_received as nat) && p[i + 2].0.take(15)
                    == " bytes received"@
        }),
{
    reveal_strlit(" bytes sent and ");
    reveal_strlit(" bytes received");
    reveal_strlit(" bytes received: ");
    reveal_strlit(" Client ");
    reveal_strlit(" finished after ");
    reveal_strlit(" closed with IO error after ");
    let p = event_pieces(EventData::ClientConnectionFinished(client_id, total_bytes_sent, total_bytes_received, result));
    lemma_decimal_digits(client_id as nat);
    lemma_decimal_digits(total_bytes_sent as nat);
    let marker = " bytes sent and "@;
    assert(marker[1] == 'b');
    assert forall|j: int| 0 <= j < 4 implies (#[trigger] p[j]).0 != marker by {
        if j == 1 {
            assert(p[j].0[0] != marker[0]);
        } else if j == 3 {
            assert(p[j].0[0] != marker[0]);
        } else {
            assert(p[j].0[1] != marker[1]);
        }
    }
    assert(" bytes received"@.take(15) =~= " bytes received"@);
    assert(" bytes received: "@.take(15) =~= " bytes received"@);
    assert(p[4].0 == marker);
}

/// In the log line of the bytes a client moved, the client is named by its id, and the count
/// of bytes follows ` sent ` when it sent them and ` received ` when it received them.
pub proof fn lemma_client_transfer_counts(client_id: u64, count: u64)
    ensures
        ({
            let sent = event_pieces(EventData::ClientBytesSent(client_id, count));
            let received = event_pieces(EventData::ClientBytesReceived(client_id, count));
            &&& exists|i: int|
                #![trigger sent[i]]
                1 <= i && i + 2 < sent.len() && sent[i - 1].0 == " Client "@ && sent[i].0 == decimal(client_id as nat)
                    && sent[i + 1].0 == " sent "@ && sent[i + 2].0 == decimal(count as nat)
            &&& exists|i: int|
                #![trigger received[i]]
                1 <= i && i + 2 < received.len() && received[i - 1].0 == " Client "@ && received[i].0 == decimal(
                    client_id as nat,
                ) && received[i + 1].0 == " received "@ && received[i + 2].0 == decimal(count as nat)
            &&& forall|i: int| 0 <= i < sent.len() ==> (#[trigger] sent[i]).0 != " received "@
            &&& forall|i: int| 0 <= i < received.len() ==> (#[trigger] received[i]).0 != " sent "@
        }),
{
    reveal_strlit(" Client ");
    reveal_strlit(" sent ");
    reveal_strlit(" received ");
    reveal_strlit(" bytes");
    lemma_decimal_digits(client_id as nat);
    lemma_decimal_digits(count as nat);
    let sent = event_pieces(EventData::ClientBytesSent(client_id, count));
    let received = event_pieces(EventData::ClientBytesReceived(client_id, count));
    assert(sent[1].0 == decimal(client_id as nat));
    assert(received[1].0 == decimal(client_id as nat));
    assert forall|i: int| 0 <= i < sent.len() implies (#[trigger] sent[i]).0 != " received "@ by {
        if i == 1 || i == 3 {
            assert(sent[i].0[0] != ' ');
        } else {
            assert(sent[i].0[1] != " received "@[1] || sent[i].0.len() != " received "@.len());
        }
    }
    assert forall|i: int| 0 <= i < received.len() implies (#[trigger] received[i]).0 != " sent "@ by {
        if i == 1 || i == 3 {
            assert(received[i].0[0] != ' ');
        } else {
            assert(received[i].0[1] != " sent "@[1] || received[i].0.len() != " sent "@.len());
        }
    }
}

/// The pieces of a log line that follow its timestamp.
pub fn event_pieces_vec(data: &EventData) -> (pieces: Vec<(StaticString, LogStyle)>)
    ensures
        pieces_view(pieces@) == event_pieces(*data),
{
    let pieces = match data {
        EventData::NewSocks5Socket(socket_address) => vec![
            (StaticString::Static(" Listening for socks5 client connections at "), LogStyle::Default),
            (StaticString::Owned(socket_address.clone()), LogStyle::SocketAddress),
        ],
        EventData::FailedBindSocks5Socket(socket_address, io_error) => vec![
            (StaticString::Static(" Failed to set up socks5 socket at "), LogStyle::Default),
            (StaticString::Owned(socket_address.clone()), LogStyle::SocketAddress),
            (StaticString::Static(": "), LogStyle::Default),
            (StaticString::Owned(io_error.clone()), LogStyle::Error),
        ],
        EventData::FailedBindAnySocketAborting => vec![
            (StaticString::Static(" Failed to bind any socks5 socket! Aborting"), LogStyle::Error),
        ],
        EventData::RemovedSocks5Socket(socket_address) => vec![
            (StaticString::Static(" Will no longer listen for socks5 client connections at "), LogStyle::Default),
            (StaticString::Owned(socket_address.clone()), LogStyle::SocketAddress),
        ],
        EventData::NewSandstormSocket(socket_address) => vec![
            (StaticString::Static(" Listening for Sandstorm connections at "), LogStyle::Default),
            (StaticString::Owned(socket_address.clone()), LogStyle::SocketAddress),
        ],
        EventData::FailedBindSandstormSocket(socket_address, io_error) => vec![
            (StaticString::Static(" Failed to set up Sandstorm socket at "), LogStyle::Default),
            (StaticString::Owned(socket_address.clone()), LogStyle::SocketAddress),
            (StaticString::Static(": "), LogStyle::Default),
            (StaticString::Owned(io_error.clone()), LogStyle::Error),
        ],
        EventData::RemovedSandstormSocket(socket_address) => vec![
            (StaticString::Static(" Will no longer listen for Sandstorm connections at "), LogStyle::Default),
            (StaticString::Owned(socket_address.clone()), LogStyle::SocketAddress),
        ],
        EventData::LoadingUsersFromFile(filename) => vec![
            (StaticString::Static(" Loading users from file "), LogStyle::Default),
            (StaticString::Owned(filename.clone()), LogStyle::Filename),
        ],
        EventData::UsersLoadedFromFile(filename, result) => match result {
            Ok(user_count) => vec![
                (StaticString::Static(" Loaded "), LogStyle::Default),
                (StaticString::Owned(decimal_string(*user_count as u128)), LogStyle::Default),
                (StaticString::Static(" users from file "), LogStyle::Default),
                (StaticString::Owned(filename.clone()), LogStyle::Filename),
            ],
            Err(load_users_error) => vec![
                (StaticString::Static(" Error while loading users from file "), LogStyle::Default),
                (StaticString::Owned(filename.clone()), LogStyle::Filename),
                (StaticString::Static(": "), LogStyle::Default),
                (StaticString::Owned(load_users_error.clone()), LogStyle::Error),
            ],
        },
        EventData::StartingUpWithSingleDefaultUser(userpass) => vec![
            (StaticString::Static(" Starting up with single default user "), LogStyle::Default),
            (StaticString::Owned(userpass.clone()), LogStyle::Username),
        ],
        EventData::SavingUsersToFile(filename) => vec![
            (StaticString::Static(" Saving users to file "), LogStyle::Default),
            (StaticString::Owned(filename.clone()), LogStyle::Filename),
        ],
        EventData::UsersSavedToFile(filename, result) => match result {
            Ok(amount) => vec![
                (StaticString::Static(" Successfully saved "), LogStyle::Default),
                (StaticString::Owned(decimal_string(*amount as u128)), LogStyle::Default),
                (StaticString::Static(" users to file "), LogStyle::Default),
                (StaticString::Owned(filename.clone()), LogStyle::Filename),
            ],
            Err(io_error) => vec![
                (StaticString::Static(" Failed to save users to file "), LogStyle::Default),
                (StaticString::Owned(filename.clone()), LogStyle::Filename),
                (StaticString::Static(": "), LogStyle::Default),
                (StaticString::Owned(io_error.clone()), LogStyle::Error),
            ],
        },
        EventData::UserRegisteredByArgs(username, role) => vec![
            (StaticString::Static(" Registered new "), LogStyle::Default),
            (StaticString::Static(role_to_str(*role)), LogStyle::UserRole),
            (StaticString::Static(" user "), LogStyle::Default),
            (StaticString::Owned(username.clone()), LogStyle::Username),
            (StaticString::Static(" specified via argument"), LogStyle::Default),
        ],
        EventData::UserReplacedByArgs(username, role) => vec![
            (StaticString::Static(" Replaced user loaded from file "), LogStyle::Default),
            (StaticString::Owned(username.clone()), LogStyle::Username),
            (StaticString::Static(" with new "), LogStyle::Default),
            (StaticString::Static(role_to_str(*role)), LogStyle::UserRole),
            (StaticString::Static(" user specified via argument"), LogStyle::Default),
        ],
        EventData::NewClientConnectionAccepted(client_id, socket_address) => vec![
            (StaticString::Static(" New client connection from "), LogStyle::Default),
            (StaticString::Owned(socket_address.clone()), LogStyle::ClientAddress),
            (StaticString::Static(" assigned "), LogStyle::Default),
            (StaticString::Owned(concat2("ID ", decimal_string(*client_id as u128).as_str())), LogStyle::ClientId),
        ],
        EventData::ClientConnectionAcceptFailed(socket_address, io_error) => match socket_address {
            Some(address) => vec![
                (StaticString::Static(" Failed to accept incoming socks connection from socket "), LogStyle::Default),
                (StaticString::Owned(address.clone()), LogStyle::ClientAddress),
                (StaticString::Static(": "), LogStyle::Default),
                (StaticString::Owned(io_error.clone()), LogStyle::Error),
            ],
            None => vec![
                (StaticString::Static(" Failed to accept incoming socks connection from unknown socket: "), LogStyle::Default),
                (StaticString::Owned(io_error.clone()), LogStyle::Error),
            ],
        },
        EventData::ClientRequestedUnsupportedVersion(client_id, version) => vec![
            (StaticString::Static(" Client "), LogStyle::ClientId),
            (StaticString::Owned(decimal_string(*client_id as u128)), LogStyle::ClientId),
            (StaticString::Static(" requested "), LogStyle::Default),
            (StaticString::Static("unsupported socks version: "), LogStyle::Warning),
            (StaticString::Owned(decimal_string(*version as u128)), LogStyle::Warning),
        ],
        EventData::ClientRequestedUnsupportedCommand(client_id, command) => vec![
            (StaticString::Static(" Client "), LogStyle::ClientId),
            (StaticString::Owned(decimal_string(*client_id as u128)), LogStyle::ClientId),
            (StaticString::Static(" requested "), LogStyle::Default),
            (StaticString::Static("unsupported socks command: "), LogStyle::Warning),
            (StaticString::Owned(decimal_string(*command as u128)), LogStyle::Warning),
        ],
        EventData::ClientRequestedUnsupportedAtyp(client_id, atyp) => vec![
            (StaticString::Static(" Client "), LogStyle::ClientId),
            (StaticString::Owned(decimal_string(*client_id as u128)), LogStyle::ClientId),
            (StaticString::Static(" requested "), LogStyle::Default),
            (StaticString::Static("unsupported socks ATYP: "), LogStyle::Warning),
            (StaticString::Owned(decimal_string(*atyp as u128)), LogStyle::Warning),
        ],
        EventData::ClientSelectedAuthMethod(client_id, auth_method) => vec![
            (StaticString::Static(" Client "), LogStyle::ClientId),
            (StaticString::Owned(decimal_string(*client_id as u128)), LogStyle::ClientId),
            (StaticString::Static(" will use auth method "), LogStyle::Default),
            (StaticString::Static(auth_method_to_str(*auth_method)), LogStyle::AuthMethod),
        ],
        EventData::ClientNoAcceptableAuthMethod(client_id) => vec![
            (StaticString::Static(" Client "), LogStyle::ClientId),
            (StaticString::Owned(decimal_string(*client_id as u128)), LogStyle::ClientId),
            (StaticString::Static(" no acceptable authentication method found"), LogStyle::Warning),
        ],
        EventData::ClientRequestedUnsupportedUserpassVersion(client_id, version) => vec![
            (StaticString::Static(" Client "), LogStyle::ClientId),
            (StaticString::Owned(decimal_string(*client_id as u128)), LogStyle::ClientId),
            (StaticString::Static(" requested "), LogStyle::Default),
            (StaticString::Static("unsupported userpass version: "), LogStyle::Warning),
            (StaticString::Owned(decimal_string(*version as u128)), LogStyle::Warning),
        ],
        EventData::ClientAuthenticatedWithUserpass(client_id, username, success) => if *success {
            vec![
                (StaticString::Static(" Client "), LogStyle::ClientId),
                (StaticString::Owned(decimal_string(*client_id as u128)), LogStyle::ClientId),
                (StaticString::Static(" successfully authenticated as "), LogStyle::Default),
                (StaticString::Owned(username.clone()), LogStyle::Username),
            ]
        } else {
            vec![
                (StaticString::Static(" Client "), LogStyle::ClientId),
                (StaticString::Owned(decimal_string(*client_id as u128)), LogStyle::ClientId),
                (StaticString::Static(" unsuccessfully authenticated as "), LogStyle::Warning),
                (StaticString::Owned(username.clone()), LogStyle::Username),
            ]
        },
        EventData::ClientSocksRequest(client_id, request) => {
            let mut pieces = vec![
                (StaticString::Static(" Client "), LogStyle::ClientId),
                (StaticString::Owned(decimal_string(*client_id as u128)), LogStyle::ClientId),
                (StaticString::Static(" requested to connect to "), LogStyle::Default),
            ];
            let mut rest = destination_pieces_vec(request);
            pieces.append(&mut rest);
            pieces
        },
        EventData::ClientDnsLookup(client_id, domainname) => vec![
            (StaticString::Static(" Client "), LogStyle::ClientId),
            (StaticString::Owned(decimal_string(*client_id as u128)), LogStyle::ClientId),
            (StaticString::Static(" performing DNS lookup for "), LogStyle::Default),
            (StaticString::Owned(domainname.clone()), LogStyle::DestinationAddress),
        ],
        EventData::ClientAttemptingConnect(client_id, socket_address) => vec![
            (StaticString::Static(" Client "), LogStyle::ClientId),
            (StaticString::Owned(decimal_string(*client_id as u128)), LogStyle::ClientId),
            (StaticString::Static(" attempting to connect to destination at "), LogStyle::Default),
            (StaticString::Owned(socket_address.clone()), LogStyle::DestinationAddress),
        ],
        EventData::ClientConnectionAttemptBindFailed(client_id, io_error) => vec![
            (StaticString::Static(" Client "), LogStyle::ClientId),
            (StaticString::Owned(decimal_string(*client_id as u128)), LogStyle::ClientId),
            (StaticString::Static(" failed to bind local socket: "), LogStyle::Default),
            (StaticString::Owned(io_error.clone()), LogStyle::Error),
        ],
        EventData::ClientConnectionAttemptConnectFailed(client_id, io_error) => vec![
            (StaticString::Static(" Client "), LogStyle::ClientId),
            (StaticString::Owned(decimal_string(*client_id as u128)), LogStyle::ClientId),
            (StaticString::Static(" failed to connect to destination: "), LogStyle::Default),
            (StaticString::Owned(io_error.clone()), LogStyle::Error),
        ],
        EventData::ClientFailedToConnectToDestination(client_id) => vec![
            (StaticString::Static(" Client "), LogStyle::ClientId),
            (StaticString::Owned(decimal_string(*client_id as u128)), LogStyle::ClientId),
            (StaticString::Static(" failed to connect to destination, "), LogStyle::Default),
            (StaticString::Static("sending error response"), LogStyle::Error),
        ],
        EventData::ClientConnectedToDestination(client_id, socket_address) => vec![
            (StaticString::Static(" Client "), LogStyle::ClientId),
            (StaticString::Owned(decimal_string(*client_id as u128)), LogStyle::ClientId),
            (StaticString::Static(" successfully established connection to destination at "), LogStyle::Default),
            (StaticString::Owned(socket_address.clone()), LogStyle::DestinationAddress),
        ],
        EventData::ClientBytesSent(client_id, count) => vec![
            (StaticString::Static(" Client "), LogStyle::ClientId),
            (StaticString::Owned(decimal_string(*client_id as u128)), LogStyle::ClientId),
            (StaticString::Static(" sent "), LogStyle::Default),
            (StaticString::Owned(decimal_string(*count as u128)), LogStyle::Default),
            (StaticString::Static(" bytes"), LogStyle::Default),
        ],
        EventData::ClientBytesReceived(client_id, count) => vec![
            (StaticString::Static(" Client "), LogStyle::ClientId),
            (StaticString::Owned(decimal_string(*client_id as u128)), LogStyle::ClientId),
            (StaticString::Static(" received "), LogStyle::Default),
            (StaticString::Owned(decimal_string(*count as u128)), LogStyle::Default),
            (StaticString::Static(" bytes"), LogStyle::Default),
        ],
        EventData::ClientSourceShutdown(client_id) => vec![
            (StaticString::Static(" Client "), LogStyle::ClientId),
            (StaticString::Owned(decimal_string(*client_id as u128)), LogStyle::ClientId),
            (StaticString::Static(" source socket shutdown"), LogStyle::Default),
        ],
        EventData::ClientDestinationShutdown(client_id) => vec![
            (StaticString::Static(" Client "), LogStyle::ClientId),
            (StaticString::Owned(decimal_string(*client_id as u128)), LogStyle::ClientId),
            (StaticString::Static(" destination socket shutdown"), LogStyle::Default),
        ],
        EventData::ClientConnectionFinished(client_id, total_bytes_sent, total_bytes_received, result) => match result {
            Ok(_) => vec![
                (StaticString::Static(" Client "), LogStyle::ClientId),
                (StaticString::Owned(decimal_string(*client_id as u128)), LogStyle::ClientId),
                (StaticString::Static(" finished after "), LogStyle::Default),
                (StaticString::Owned(decimal_string(*total_bytes_sent as u128)), LogStyle::Default),
                (StaticString::Static(" bytes sent and "), LogStyle::Default),
                (StaticString::Owned(decimal_string(*total_bytes_received as u128)), LogStyle::Default),
                (StaticString::Static(" bytes received"), LogStyle::Default),
            ],
            Err(io_error) => vec![
                (StaticString::Static(" Client "), LogStyle::ClientId),
                (StaticString::Owned(decimal_string(*client_id as u128)), LogStyle::ClientId),
                (StaticString::Static(" closed with IO error after "), LogStyle::Default),
                (StaticString::Owned(decimal_string(*total_bytes_sent as u128)), LogStyle::Default),
                (StaticString::Static(" bytes sent and "), LogStyle::Default),
                (StaticString::Owned(decimal_string(*total_bytes_received as u128)), LogStyle::Default),
                (StaticString::Static(" bytes received: "), LogStyle::Default),
                (StaticString::Owned(io_error.clone()), LogStyle::Error),
            ],
        },
        EventData::NewSandstormConnectionAccepted(manager_id, socket_address) => vec![
            (StaticString::Static(" New management connection from "), LogStyle::Default),
            (StaticString::Owned(socket_address.clone()), LogStyle::ManagerAddress),
            (StaticString::Static(" assigned "), LogStyle::Default),
            (StaticString::Owned(concat2("ID ", decimal_string(*manager_id as u128).as_str())), LogStyle::ManagerId),
        ],
        EventData::SandstormConnectionAcceptFailed(socket_address, io_error) => match socket_address {
            Some(address) => vec![
                (StaticString::Static(" Failed to accept incoming management connection from socket "), LogStyle::Default),
                (StaticString::Owned(address.clone()), LogStyle::ManagerAddress),
                (StaticString::Static(": "), LogStyle::Default),
                (StaticString::Owned(io_error.clone()), LogStyle::Error),
            ],
            None => vec![
                (StaticString::Static(" Failed to accept incoming management connection from unknown socket: "), LogStyle::Default),
                (StaticString::Owned(io_error.clone()), LogStyle::Error),
            ],
        },
        EventData::SandstormRequestedUnsupportedVersion(manager_id, version) => vec![
            (StaticString::Static(" Manager "), LogStyle::ManagerId),
            (StaticString::Owned(decimal_string(*manager_id as u128)), LogStyle::ManagerId),
            (StaticString::Static(" requested "), LogStyle::Default),
            (StaticString::Static("unsupported sandstorm version: "), LogStyle::Warning),
            (StaticString::Owned(decimal_string(*version as u128)), LogStyle::Warning),
        ],
        EventData::SandstormAuthenticatedAs(manager_id, username, success) => if *success {
            vec![
                (StaticString::Static(" Manager "), LogStyle::ManagerId),
                (StaticString::Owned(decimal_string(*manager_id as u128)), LogStyle::ManagerId),
                (StaticString::Static(" successfully authenticated as "), LogStyle::Default),
                (StaticString::Owned(username.clone()), LogStyle::Username),
            ]
        } else {
            vec![
                (StaticString::Static(" Manager "), LogStyle::ManagerId),
                (StaticString::Owned(decimal_string(*manager_id as u128)), LogStyle::ManagerId),
                (StaticString::Static(" unsuccessfully authenticated as "), LogStyle::Warning),
                (StaticString::Owned(username.clone()), LogStyle::Default),
            ]
        },
        EventData::NewSocksSocketRequestedByManager(manager_id, socket_address) => vec![
            (StaticString::Static(" Manager "), LogStyle::ManagerId),
            (StaticString::Owned(decimal_string(*manager_id as u128)), LogStyle::ManagerId),
            (StaticString::Static(" requested opening a new socks5 socket at "), LogStyle::Default),
            (StaticString::Owned(socket_address.clone()), LogStyle::SocketAddress),
        ],
        EventData::RemoveSocksSocketRequestedByManager(manager_id, socket_address) => vec![
            (StaticString::Static(" Manager "), LogStyle::ManagerId),
            (StaticString::Owned(decimal_string(*manager_id as u128)), LogStyle::ManagerId),
            (StaticString::Static(" requested closing socks5 socket at "), LogStyle::Default),
            (StaticString::Owned(socket_address.clone()), LogStyle::SocketAddress),
        ],
        EventData::NewSandstormSocketRequestedByManager(manager_id, socket_address) => vec![
            (StaticString::Static(" Manager "), LogStyle::ManagerId),
            (StaticString::Owned(decimal_string(*manager_id as u128)), LogStyle::ManagerId),
            (StaticString::Static(" requested opening a new sandstorm socket at "), LogStyle::Default),
            (StaticString::Owned(socket_address.clone()), LogStyle::SocketAddress),
        ],
        EventData::RemoveSandstormSocketRequestedByManager(manager_id, socket_address) => vec![
            (StaticString::Static(" Manager "), LogStyle::ManagerId),
            (StaticString::Owned(decimal_string(*manager_id as u128)), LogStyle::ManagerId),
            (StaticString::Static(" requested closing sandstorm socket at "), LogStyle::Default),
            (StaticString::Owned(socket_address.clone()), LogStyle::SocketAddress),
        ],
        EventData::UserRegisteredByManager(manager_id, username, role) => vec![
            (StaticString::Static(" Manager "), LogStyle::ManagerId),
            (StaticString::Owned(decimal_string(*manager_id as u128)), LogStyle::ManagerId),
            (StaticString::Static(" registered new "), LogStyle::Default),
            (StaticString::Static(role_to_str(*role)), LogStyle::UserRole),
            (StaticString::Static(" user "), LogStyle::Default),
            (StaticString::Owned(username.clone()), LogStyle::Username),
        ],
        EventData::UserUpdatedByManager(manager_id, username, role, password_changed) => if *password_changed {
            vec![
                (StaticString::Static(" Manager "), LogStyle::ManagerId),
                (StaticString::Owned(decimal_string(*manager_id as u128)), LogStyle::ManagerId),
                (StaticString::Static(" updated user "), LogStyle::Default),
                (StaticString::Owned(username.clone()), LogStyle::Username),
                (StaticString::Static(" with role "), LogStyle::Default),
                (StaticString::Static(role_to_str(*role)), LogStyle::UserRole),
                (StaticString::Static(" and new password"), LogStyle::Default),
            ]
        } else {
            vec![
                (StaticString::Static(" Manager "), LogStyle::ManagerId),
                (StaticString::Owned(decimal_string(*manager_id as u128)), LogStyle::ManagerId),
                (StaticString::Static(" updated role of user "), LogStyle::Default),
                (StaticString::Owned(username.clone()), LogStyle::Username),
                (StaticString::Static(" to "), LogStyle::Default),
                (StaticString::Static(role_to_str(*role)), LogStyle::UserRole),
            ]
        },
        EventData::UserDeletedByManager(manager_id, username, role) => vec![
            (StaticString::Static(" Manager "), LogStyle::ManagerId),
            (StaticString::Owned(decimal_string(*manager_id as u128)), LogStyle::ManagerId),
            (StaticString::Static(" deleted "), LogStyle::Default),
            (StaticString::Static(role_to_str(*role)), LogStyle::UserRole),
            (StaticString::Static(" user "), LogStyle::Default),
            (StaticString::Owned(username.clone()), LogStyle::Username),
        ],
        EventData::AuthMethodToggledByManager(manager_id, auth_method, enabled) => if *enabled {
            vec![
                (StaticString::Static(" Manager "), LogStyle::ManagerId),
                (StaticString::Owned(decimal_string(*manager_id as u128)), LogStyle::ManagerId),
                (StaticString::Static(" enabled"), LogStyle::Default),
                (StaticString::Static(" authentication method "), LogStyle::Default),
                (StaticString::Static(auth_method_to_str(*auth_method)), LogStyle::AuthMethod),
            ]
        } else {
            vec![
                (StaticString::Static(" Manager "), LogStyle::ManagerId),
                (StaticString::Owned(decimal_string(*manager_id as u128)), LogStyle::ManagerId),
                (StaticString::Static(" disabled"), LogStyle::Default),
                (StaticString::Static(" authentication method "), LogStyle::Default),
                (StaticString::Static(auth_method_to_str(*auth_method)), LogStyle::AuthMethod),
            ]
        },
        EventData::BufferSizeChangedByManager(manager_id, buffer_size) => vec![
            (StaticString::Static(" Manager "), LogStyle::ManagerId),
            (StaticString::Owned(decimal_string(*manager_id as u128)), LogStyle::ManagerId),
            (StaticString::Static(" set client buffer size to "), LogStyle::Default),
            (StaticString::Owned(decimal_string(*buffer_size as u128)), LogStyle::BufferSize),
        ],
        EventData::SandstormRequestedShutdown(manager_id) => vec![
            (StaticString::Static(" Manager "), LogStyle::ManagerId),
            (StaticString::Owned(decimal_string(*manager_id as u128)), LogStyle::ManagerId),
            (StaticString::Static(" requested the server shuts down"), LogStyle::ShutdownRequest),
        ],
        EventData::SandstormConnectionFinished(manager_id, result) => match result {
            Ok(_) => vec![
                (StaticString::Static(" Manager "), LogStyle::ManagerId),
                (StaticString::Owned(decimal_string(*manager_id as u128)), LogStyle::ManagerId),
                (StaticString::Static(" finished"), LogStyle::Default),
            ],
            Err(io_error) => vec![
                (StaticString::Static(" Manager "), LogStyle::ManagerId),
                (StaticString::Owned(decimal_string(*manager_id as u128)), LogStyle::ManagerId),
                (StaticString::Static(" closed with IO error: "), LogStyle::Default),
                (StaticString::Owned(io_error.clone()), LogStyle::Error),
            ],
        },
        EventData::ShutdownSignalReceived => vec![
            (StaticString::Static(" Shutdown signal received"), LogStyle::ShutdownSignal),
        ],
    };
    assert(pieces_view(pieces@) =~= event_pieces(*data));
    pieces
}


/// A server event: when it happened, as a UNIX timestamp, and what happened.
#[derive(Debug)]
pub struct Event {
    pub timestamp: i64,
    pub data: EventData,
}

/// The whole log line of an event at a UTC offset: its timestamp, then its pieces.
pub open spec fn log_line(event: Event, utc_offset_seconds: i32) -> Seq<(Seq<char>, LogStyle)> {
    seq![(timestamp_text(local_date_time_spec(event.timestamp, utc_offset_seconds)), LogStyle::Timestamp)]
        + event_pieces(event.data)
}

/// Appends to `vec` the log line of an event: its local timestamp at the UTC offset (in
/// seconds east of UTC), then the pieces that describe it, each with its style.
pub fn log_event_to_single_line(vec: &mut Vec<(StaticString, LogStyle)>, utc_offset_seconds: i32, event: &Event)
    requires
        offset_fits(event.timestamp, utc_offset_seconds),
    ensures
        pieces_view(final(vec)@) == pieces_view(old(vec)@) + log_line(*event, utc_offset_seconds),
{
    let timestamp = format_timestamp(event.timestamp, utc_offset_seconds);
    vec.push((StaticString::Owned(timestamp), LogStyle::Timestamp));
    let mut pieces = event_pieces_vec(&event.data);
    vec.append(&mut pieces);
    assert(pieces_view(vec@) =~= pieces_view(old(vec)@) + log_line(*event, utc_offset_seconds));
}

} // verus!
