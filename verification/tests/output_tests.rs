use sandstorm::args::{AuthMethod, UserRole};
use sandstorm::handle_requests::{
    metrics_lines, outcome_lines, AddUserStatus, DeleteUserStatus, IoErrorText, Metrics, RemoveSocketStatus,
    RequestOutcome, UpdateUserStatus,
};
use sandstorm::tui::main_view::colored_logs::{
    event_pieces_vec, format_timestamp, local_date_time, log_event_to_single_line, timestamp_fits_offset, timestamp_string,
    DateTime, Event, EventData, LogStyle, SocksDestination, SocksRequest, MAX_TIMESTAMP, MIN_TIMESTAMP,
};
use sandstorm::tui::text_wrapper::StaticString;

fn texts(pieces: &[(StaticString, LogStyle)]) -> Vec<(String, LogStyle)> {
    pieces.iter().map(|(s, style)| (s.as_str().to_string(), *style)).collect()
}

fn piece(s: &str, style: LogStyle) -> (String, LogStyle) {
    (s.to_string(), style)
}

#[test]
fn timestamp_of_the_epoch() {
    assert_eq!(format_timestamp(0, 0), "[1970-01-01 00:00:00]");
}

#[test]
fn timestamp_in_utc_and_at_an_offset() {
    assert_eq!(format_timestamp(1700000000, 0), "[2023-11-14 22:13:20]");
    assert_eq!(format_timestamp(1700000000, 3600), "[2023-11-14 23:13:20]");
    assert_eq!(format_timestamp(1700000000, -3 * 3600), "[2023-11-14 19:13:20]");
    assert_eq!(format_timestamp(1700000000, 7200 + 1800), "[2023-11-15 00:43:20]");
}

#[test]
fn timestamp_out_of_range_shows_the_epoch() {
    assert_eq!(format_timestamp(MAX_TIMESTAMP + 1, 3600), "[1970-01-01 00:00:00]");
    assert_eq!(format_timestamp(i64::MIN, -3600), "[1970-01-01 00:00:00]");
    assert_eq!(
        local_date_time(i64::MAX, 0),
        DateTime { year: 1970, month: 1, day: 1, hour: 0, minute: 0, second: 0 }
    );
}

#[test]
fn timestamp_at_the_ends_of_the_range() {
    assert_eq!(format_timestamp(MAX_TIMESTAMP, 0), "[9999-12-31 23:59:59]");
    assert_eq!(format_timestamp(MIN_TIMESTAMP, 0), "[-9999-01-01 00:00:00]");
}

#[test]
fn offset_that_leaves_the_range_is_refused() {
    assert!(!timestamp_fits_offset(MAX_TIMESTAMP, 1));
    assert!(!timestamp_fits_offset(MIN_TIMESTAMP, -1));
    assert!(timestamp_fits_offset(MAX_TIMESTAMP, 0));
    assert!(timestamp_fits_offset(MAX_TIMESTAMP + 5, 3600));
}

#[test]
fn years_are_padded_with_their_sign() {
    let dt = DateTime { year: 5, month: 2, day: 3, hour: 4, minute: 5, second: 6 };
    assert_eq!(timestamp_string(&dt), "[0005-02-03 04:05:06]");
    let dt = DateTime { year: -42, month: 12, day: 31, hour: 23, minute: 59, second: 58 };
    assert_eq!(timestamp_string(&dt), "[-042-12-31 23:59:58]");
    let dt = DateTime { year: 2024, month: 10, day: 10, hour: 10, minute: 10, second: 10 };
    assert_eq!(timestamp_string(&dt), "[2024-10-10 10:10:10]");
}

#[test]
fn log_line_of_a_new_socket() {
    let mut line = Vec::new();
    let event = Event { timestamp: 0, data: EventData::NewSocks5Socket("127.0.0.1:1080".to_string()) };
    log_event_to_single_line(&mut line, 0, &event);
    assert_eq!(
        texts(&line),
        vec![
            piece("[1970-01-01 00:00:00]", LogStyle::Timestamp),
            piece(" Listening for socks5 client connections at ", LogStyle::Default),
            piece("127.0.0.1:1080", LogStyle::SocketAddress),
        ]
    );
}

#[test]
fn log_line_appends_to_what_is_there() {
    let mut line = vec![(StaticString::Static("before"), LogStyle::Default)];
    let event = Event { timestamp: 60, data: EventData::ShutdownSignalReceived };
    log_event_to_single_line(&mut line, 0, &event);
    assert_eq!(
        texts(&line),
        vec![
            piece("before", LogStyle::Default),
            piece("[1970-01-01 00:01:00]", LogStyle::Timestamp),
            piece(" Shutdown signal received", LogStyle::ShutdownSignal),
        ]
    );
}

#[test]
fn log_pieces_of_client_events() {
    let data = EventData::NewClientConnectionAccepted(7, "[::1]:5000".to_string());
    assert_eq!(
        texts(&event_pieces_vec(&data)),
        vec![
            piece(" New client connection from ", LogStyle::Default),
            piece("[::1]:5000", LogStyle::ClientAddress),
            piece(" assigned ", LogStyle::Default),
            piece("ID 7", LogStyle::ClientId),
        ]
    );

    let data = EventData::ClientRequestedUnsupportedVersion(3, 4);
    assert_eq!(
        texts(&event_pieces_vec(&data)),
        vec![
            piece(" Client ", LogStyle::ClientId),
            piece("3", LogStyle::ClientId),
            piece(" requested ", LogStyle::Default),
            piece("unsupported socks version: ", LogStyle::Warning),
            piece("4", LogStyle::Warning),
        ]
    );

    let data = EventData::ClientAuthenticatedWithUserpass(12, "pepe".to_string(), false);
    assert_eq!(
        texts(&event_pieces_vec(&data)),
        vec![
            piece(" Client ", LogStyle::ClientId),
            piece("12", LogStyle::ClientId),
            piece(" unsuccessfully authenticated as ", LogStyle::Warning),
            piece("pepe", LogStyle::Username),
        ]
    );

    let data = EventData::ClientConnectionFinished(1, 100, 2000, Err("broken pipe".to_string()));
    assert_eq!(
        texts(&event_pieces_vec(&data)),
        vec![
            piece(" Client ", LogStyle::ClientId),
            piece("1", LogStyle::ClientId),
            piece(" closed with IO error after ", LogStyle::Default),
            piece("100", LogStyle::Default),
            piece(" bytes sent and ", LogStyle::Default),
            piece("2000", LogStyle::Default),
            piece(" bytes received: ", LogStyle::Default),
            piece("broken pipe", LogStyle::Error),
        ]
    );
}

#[test]
fn log_pieces_of_socks_requests() {
    let request = SocksRequest { destination: SocksDestination::IPv4(0xC0A8_0001), port: 80 };
    let data = EventData::ClientSocksRequest(5, request);
    assert_eq!(
        texts(&event_pieces_vec(&data)),
        vec![
            piece(" Client ", LogStyle::ClientId),
            piece("5", LogStyle::ClientId),
            piece(" requested to connect to ", LogStyle::Default),
            piece("IPv4 ", LogStyle::Default),
            piece("192.168.0.1:80", LogStyle::DestinationAddress),
        ]
    );

    let request = SocksRequest { destination: SocksDestination::IPv6("::1".to_string()), port: 443 };
    let pieces = texts(&event_pieces_vec(&EventData::ClientSocksRequest(5, request)));
    assert_eq!(pieces[3], piece("IPv6 ", LogStyle::Default));
    assert_eq!(pieces[4], piece("[::1]:443", LogStyle::DestinationAddress));

    let request = SocksRequest { destination: SocksDestination::Domainname("example.com".to_string()), port: 8080 };
    let pieces = texts(&event_pieces_vec(&EventData::ClientSocksRequest(5, request)));
    assert_eq!(pieces[3], piece("domainname ", LogStyle::Default));
    assert_eq!(pieces[4], piece("example.com:8080", LogStyle::DestinationAddress));
}

#[test]
fn log_pieces_of_manager_events() {
    let data = EventData::UserUpdatedByManager(2, "ana".to_string(), UserRole::Admin, true);
    assert_eq!(
        texts(&event_pieces_vec(&data)),
        vec![
            piece(" Manager ", LogStyle::ManagerId),
            piece("2", LogStyle::ManagerId),
            piece(" updated user ", LogStyle::Default),
            piece("ana", LogStyle::Username),
            piece(" with role ", LogStyle::Default),
            piece("admin", LogStyle::UserRole),
            piece(" and new password", LogStyle::Default),
        ]
    );

    let data = EventData::AuthMethodToggledByManager(2, AuthMethod::UsernameAndPassword, false);
    assert_eq!(
        texts(&event_pieces_vec(&data)),
        vec![
            piece(" Manager ", LogStyle::ManagerId),
            piece("2", LogStyle::ManagerId),
            piece(" disabled", LogStyle::Default),
            piece(" authentication method ", LogStyle::Default),
            piece("userpass", LogStyle::AuthMethod),
        ]
    );

    let data = EventData::SandstormAuthenticatedAs(9, "eve".to_string(), false);
    let pieces = texts(&event_pieces_vec(&data));
    assert_eq!(pieces[2], piece(" unsuccessfully authenticated as ", LogStyle::Warning));
    assert_eq!(pieces[3], piece("eve", LogStyle::Default));

    let data = EventData::BufferSizeChangedByManager(1, 8192);
    let pieces = texts(&event_pieces_vec(&data));
    assert_eq!(pieces[3], piece("8192", LogStyle::BufferSize));
}

#[test]
fn log_pieces_of_server_events() {
    let data = EventData::UsersLoadedFromFile("users.txt".to_string(), Ok(3));
    assert_eq!(
        texts(&event_pieces_vec(&data)),
        vec![
            piece(" Loaded ", LogStyle::Default),
            piece("3", LogStyle::Default),
            piece(" users from file ", LogStyle::Default),
            piece("users.txt", LogStyle::Filename),
        ]
    );

    let data = EventData::ClientConnectionAcceptFailed(None, "oops".to_string());
    assert_eq!(
        texts(&event_pieces_vec(&data)),
        vec![
            piece(" Failed to accept incoming socks connection from unknown socket: ", LogStyle::Default),
            piece("oops", LogStyle::Error),
        ]
    );

    let data = EventData::UserRegisteredByArgs("root".to_string(), UserRole::Regular);
    assert_eq!(
        texts(&event_pieces_vec(&data)),
        vec![
            piece(" Registered new ", LogStyle::Default),
            piece("regular", LogStyle::UserRole),
            piece(" user ", LogStyle::Default),
            piece("root", LogStyle::Username),
            piece(" specified via argument", LogStyle::Default),
        ]
    );
}

fn metrics() -> Metrics {
    Metrics {
        current_client_connections: 1,
        historic_client_connections: 20,
        client_bytes_sent: 300,
        client_bytes_received: 4000,
        current_sandstorm_connections: 2,
        historic_sandstorm_connections: 5,
    }
}

#[test]
fn metrics_are_one_counter_per_line() {
    assert_eq!(
        metrics_lines(&metrics()),
        vec![
            "current client connections: 1",
            "historic client connections: 20",
            "client bytes sent: 300",
            "client bytes received: 4000",
            "current sandstorm connections: 2",
            "historic sandstorm connections: 5",
        ]
    );
}

#[test]
fn outcomes_end_with_the_separator() {
    assert_eq!(outcome_lines(&RequestOutcome::Meow, false), vec!["Meow", "----------"]);
    assert_eq!(outcome_lines(&RequestOutcome::Shutdown, false), vec!["Shutdown Ok", "----------"]);
    assert_eq!(outcome_lines(&RequestOutcome::GetBufferSize(4096), false), vec!["GetBufferSize 4096", "----------"]);
    assert_eq!(outcome_lines(&RequestOutcome::SetBufferSize(false), false), vec!["SetBufferSize Error", "----------"]);
}

#[test]
fn silent_outcomes_print_nothing_but_deleted_users() {
    assert!(outcome_lines(&RequestOutcome::Meow, true).is_empty());
    assert!(outcome_lines(&RequestOutcome::ListUsers(vec![]), true).is_empty());
    assert_eq!(
        outcome_lines(&RequestOutcome::DeleteUser("a:b".to_string(), DeleteUserStatus::UserNotFound), true),
        vec!["DeleteUser a\\:b UserNotFound", "----------"]
    );
}

#[test]
fn listings_show_their_count() {
    let outcome = RequestOutcome::ListSocks5Sockets(vec!["0.0.0.0:1080".to_string(), "[::]:1080".to_string()]);
    assert_eq!(outcome_lines(&outcome, false), vec!["ListSocks5Sockets (2)", "0.0.0.0:1080", "[::]:1080", "----------"]);

    let outcome = RequestOutcome::ListUsers(vec![("admin".to_string(), UserRole::Admin), ("joe".to_string(), UserRole::Regular)]);
    assert_eq!(outcome_lines(&outcome, false), vec!["ListUsers (2)", "(admin) admin", "(regular) joe", "----------"]);

    let outcome = RequestOutcome::ListAuthMethods(vec![(AuthMethod::NoAuth, false), (AuthMethod::UsernameAndPassword, true)]);
    assert_eq!(
        outcome_lines(&outcome, false),
        vec!["ListAuthMethods (2)", "noauth disabled", "userpass enabled", "----------"]
    );

    let outcome = RequestOutcome::ListSandstormSockets(vec![]);
    assert_eq!(outcome_lines(&outcome, false), vec!["ListSandstormSockets (0)", "----------"]);
}

#[test]
fn socket_outcomes_name_the_address() {
    let outcome = RequestOutcome::AddSocks5Socket("127.0.0.1:1080".to_string(), Ok(()));
    assert_eq!(outcome_lines(&outcome, false), vec!["AddSocks5Socket 127.0.0.1:1080 Ok", "----------"]);

    let error = IoErrorText { kind: "address in use".to_string(), message: "Address already in use".to_string() };
    let outcome = RequestOutcome::AddSocks5Socket("127.0.0.1:1080".to_string(), Err(error));
    assert_eq!(
        outcome_lines(&outcome, false),
        vec!["AddSocks5Socket 127.0.0.1:1080 Error address in use: Address already in use", "----------"]
    );

    let error = IoErrorText { kind: "other".to_string(), message: "nope".to_string() };
    let outcome = RequestOutcome::AddSandstormSocket(Err(error));
    assert_eq!(outcome_lines(&outcome, false), vec!["AddSandstormSocket Error other: nope", "----------"]);

    let outcome = RequestOutcome::RemoveSandstormSocket("[::1]:2222".to_string(), RemoveSocketStatus::SocketNotFound);
    assert_eq!(outcome_lines(&outcome, false), vec!["RemoveSandstormSocket [::1]:2222 SocketNotFound", "----------"]);

    let outcome = RequestOutcome::RemoveSocks5Socket("1.2.3.4:5".to_string(), RemoveSocketStatus::Removed);
    assert_eq!(outcome_lines(&outcome, false), vec!["RemoveSocks5Socket 1.2.3.4:5 Ok", "----------"]);
}

#[test]
fn user_outcomes_escape_the_name() {
    let outcome = RequestOutcome::AddUser("pe:pe".to_string(), AddUserStatus::AlreadyExists);
    assert_eq!(outcome_lines(&outcome, false), vec!["AddUser pe\\:pe AlreadyExists", "----------"]);

    let outcome = RequestOutcome::UpdateUser("x".to_string(), UpdateUserStatus::Updated);
    assert_eq!(outcome_lines(&outcome, false), vec!["UpdateUser x Ok", "----------"]);

    let outcome = RequestOutcome::AddUser("y".to_string(), AddUserStatus::Added);
    assert_eq!(outcome_lines(&outcome, false), vec!["AddUser y Ok", "----------"]);
}

#[test]
fn toggle_and_metrics_outcomes() {
    let outcome = RequestOutcome::ToggleAuthMethod(AuthMethod::NoAuth, true, false);
    assert_eq!(outcome_lines(&outcome, false), vec!["ToggleAuthMethod noauth true Error", "----------"]);

    let outcome = RequestOutcome::GetMetrics(None);
    assert_eq!(outcome_lines(&outcome, false), vec!["RequestCurrentMetrics None", "----------"]);

    let lines = outcome_lines(&RequestOutcome::GetMetrics(Some(metrics())), false);
    assert_eq!(lines.len(), 8);
    assert_eq!(lines[0], "RequestCurrentMetrics Some");
    assert_eq!(lines[6], "historic sandstorm connections: 5");
    assert_eq!(lines[7], "----------");
}
