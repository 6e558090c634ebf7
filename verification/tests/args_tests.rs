use sandstorm::args::{
    get_help_string, parse_add_user, parse_arguments, parse_auth_arg, parse_buffer_size_arg, parse_credentials,
    parse_delete_user, parse_env_credentials, parse_into_user, parse_update_user, AddUserErrorType, ArgumentsError,
    ArgumentsRequest, AuthMethod, AuthToggleErrorType, BufferSizeErrorType, CommandRequest, CredentialsErrorType,
    DeleteUserErrorType, EnvCredentials, EnvCredentialsErrorType, ParseIntoUserError, ParseOutcome, SocketAddress,
    SocketErrorType, UpdateUserErrorType, UserRole,
};

fn s(v: &str) -> String {
    v.to_string()
}

fn args(v: &[&str]) -> Vec<String> {
    v.iter().map(|a| a.to_string()).collect()
}

#[test]
fn parse_into_user_escaped_colon() {
    assert_eq!(
        parse_into_user("#chi\\:chí:4:3:2:1"),
        Ok((s("chi:chí"), Some(s("4:3:2:1")), Some(UserRole::Regular)))
    );
}

#[test]
fn parse_into_user_admin_and_plain() {
    assert_eq!(parse_into_user("@josé:4:4:4"), Ok((s("josé"), Some(s("4:4:4")), Some(UserRole::Admin))));
    assert_eq!(parse_into_user("carlos:1234"), Ok((s("carlos"), Some(s("1234")), None)));
    assert_eq!(parse_into_user("carlos"), Ok((s("carlos"), None, None)));
}

#[test]
fn parse_into_user_errors() {
    assert_eq!(parse_into_user(""), Err(ParseIntoUserError::Empty));
    assert_eq!(parse_into_user("#:pw"), Err(ParseIntoUserError::EmptyUsername));
    assert_eq!(parse_into_user("user:"), Err(ParseIntoUserError::EmptyPassword));
    let long_name = "a".repeat(256);
    assert_eq!(parse_into_user(&long_name), Err(ParseIntoUserError::UsernameTooLong));
    let long_pw = format!("a:{}", "b".repeat(256));
    assert_eq!(parse_into_user(&long_pw), Err(ParseIntoUserError::PasswordTooLong));
}

#[test]
fn buffer_size_values() {
    assert_eq!(parse_buffer_size_arg(s("-b"), Some(s("8192"))), Ok(8192));
    assert_eq!(parse_buffer_size_arg(s("-b"), Some(s("8K"))), Ok(8192));
    assert_eq!(parse_buffer_size_arg(s("-b"), Some(s("1M"))), Ok(1048576));
    assert_eq!(parse_buffer_size_arg(s("-b"), Some(s("0x10"))), Ok(16));
    assert_eq!(parse_buffer_size_arg(s("-b"), Some(s("0b101"))), Ok(5));
    assert_eq!(parse_buffer_size_arg(s("-b"), Some(s("0o17k"))), Ok(15 * 1024));
    assert_eq!(parse_buffer_size_arg(s("-b"), Some(s(" 3g "))), Ok(3 * 1024 * 1024 * 1024));
}

#[test]
fn buffer_size_errors() {
    assert_eq!(parse_buffer_size_arg(s("-b"), None), Err(BufferSizeErrorType::UnexpectedEnd(s("-b"))));
    assert_eq!(parse_buffer_size_arg(s("-b"), Some(s("k"))), Err(BufferSizeErrorType::Empty(s("-b"))));
    assert_eq!(
        parse_buffer_size_arg(s("-b"), Some(s("4G"))),
        Err(BufferSizeErrorType::InvalidSize(s("-b"), s("4G")))
    );
    assert_eq!(
        parse_buffer_size_arg(s("-b"), Some(s("0"))),
        Err(BufferSizeErrorType::InvalidSize(s("-b"), s("0")))
    );
    assert_eq!(
        parse_buffer_size_arg(s("-b"), Some(s("-5"))),
        Err(BufferSizeErrorType::InvalidSize(s("-b"), s("-5")))
    );
}

#[test]
fn credentials_parsing() {
    let mut creds = (String::new(), String::new());
    assert_eq!(parse_credentials(&mut creds, s("-c"), Some(s("admin:admin"))), Ok(()));
    assert_eq!(creds, (s("admin"), s("admin")));
    assert_eq!(
        parse_credentials(&mut creds, s("-c"), Some(s("other:pw"))),
        Err(CredentialsErrorType::AlreadySpecified(s("-c")))
    );
    let mut fresh = (String::new(), String::new());
    assert_eq!(
        parse_credentials(&mut fresh, s("-c"), Some(s("@admin:pw"))),
        Err(CredentialsErrorType::DontSpecifyRoleChar(s("-c"), '@'))
    );
    assert_eq!(
        parse_credentials(&mut fresh, s("-c"), Some(s("admin"))),
        Err(CredentialsErrorType::EmptyPassword(s("-c")))
    );
    assert_eq!(parse_credentials(&mut fresh, s("-c"), None), Err(CredentialsErrorType::UnexpectedEnd(s("-c"))));
    assert_eq!(fresh, (String::new(), String::new()));
}

#[test]
fn env_credentials_parsing() {
    assert_eq!(parse_env_credentials(EnvCredentials::NotPresent), Ok(None));
    assert_eq!(
        parse_env_credentials(EnvCredentials::NotUnicode),
        Err(EnvCredentialsErrorType::NotUnicode)
    );
    assert_eq!(
        parse_env_credentials(EnvCredentials::Present(s("user:pass"))),
        Ok(Some((s("user"), s("pass"))))
    );
    assert_eq!(parse_env_credentials(EnvCredentials::Present(s(""))), Err(EnvCredentialsErrorType::Empty));
    assert_eq!(
        parse_env_credentials(EnvCredentials::Present(s("#user:pass"))),
        Err(EnvCredentialsErrorType::DontSpecifyRoleChar('#'))
    );
}

#[test]
fn user_argument_parsing() {
    assert_eq!(parse_add_user(s("-u"), Some(s("pedro:1234"))), Ok((s("pedro"), s("1234"), UserRole::Regular)));
    assert_eq!(parse_add_user(s("-u"), Some(s("@pedro:1234"))), Ok((s("pedro"), s("1234"), UserRole::Admin)));
    assert_eq!(
        parse_add_user(s("-u"), Some(s("pedro"))),
        Err(AddUserErrorType::MissingPassword(s("-u")))
    );
    assert_eq!(parse_add_user(s("-u"), None), Err(AddUserErrorType::UnexpectedEnd(s("-u"))));
    assert_eq!(
        parse_update_user(s("-p"), Some(s("@pedro"))),
        Ok((s("pedro"), None, Some(UserRole::Admin)))
    );
    assert_eq!(
        parse_update_user(s("-p"), Some(s("pedro"))),
        Err(UpdateUserErrorType::NothingWasSpecified(s("-p")))
    );
    assert_eq!(parse_delete_user(s("-d"), Some(s("pedro"))), Ok(s("pedro")));
    assert_eq!(parse_delete_user(s("-d"), Some(s(""))), Err(DeleteUserErrorType::Empty(s("-d"))));
}

#[test]
fn auth_argument_parsing() {
    assert_eq!(parse_auth_arg(s("-A"), Some(s("noauth"))), Ok(AuthMethod::NoAuth));
    assert_eq!(parse_auth_arg(s("-A"), Some(s("UserPass"))), Ok(AuthMethod::UsernameAndPassword));
    assert_eq!(
        parse_auth_arg(s("-A"), Some(s("magic"))),
        Err(AuthToggleErrorType::InvalidAuthType(s("-A"), s("magic")))
    );
    assert_eq!(parse_auth_arg(s("-a"), None), Err(AuthToggleErrorType::UnexpectedEnd(s("-a"))));
}

#[test]
fn arguments_help_and_version() {
    let none: Vec<Option<Vec<SocketAddress>>> = Vec::new();
    assert_eq!(
        parse_arguments(&args(&["sandstorm", "-h"]), &none, EnvCredentials::NotPresent),
        ParseOutcome::Done(Ok(ArgumentsRequest::Help))
    );
    assert_eq!(
        parse_arguments(&args(&["sandstorm", "--VERSION"]), &none, EnvCredentials::NotPresent),
        ParseOutcome::Done(Ok(ArgumentsRequest::Version))
    );
}

#[test]
fn arguments_run_with_defaults() {
    let none: Vec<Option<Vec<SocketAddress>>> = Vec::new();
    let outcome = parse_arguments(&args(&["sandstorm", "-c", "admin:admin", "-m", "-w"]), &none, EnvCredentials::NotPresent);
    match outcome {
        ParseOutcome::Done(Ok(ArgumentsRequest::Run(a))) => {
            assert_eq!(a.login_credentials, (s("admin"), s("admin")));
            assert_eq!(a.requests, vec![CommandRequest::GetMetrics, CommandRequest::Meow]);
            assert_eq!(
                a.server_address,
                vec![
                    SocketAddress::V6 { ip: 1, port: 2222, flowinfo: 0, scope_id: 0 },
                    SocketAddress::V4 { ip: 0x7f000001, port: 2222 },
                ]
            );
            assert!(!a.output_logs && !a.interactive);
        }
        other => panic!("unexpected outcome {:?}", other),
    }
}

#[test]
fn arguments_credentials_from_environment() {
    let none: Vec<Option<Vec<SocketAddress>>> = Vec::new();
    match parse_arguments(&args(&["sandstorm", "-S"]), &none, EnvCredentials::Present(s("env:pw"))) {
        ParseOutcome::Done(Ok(ArgumentsRequest::Run(a))) => {
            assert_eq!(a.login_credentials, (s("env"), s("pw")));
            assert_eq!(a.requests, vec![CommandRequest::Shutdown]);
        }
        other => panic!("unexpected outcome {:?}", other),
    }
    assert_eq!(
        parse_arguments(&args(&["sandstorm", "-S"]), &none, EnvCredentials::NotPresent),
        ParseOutcome::Done(Err(ArgumentsError::NoCredentialsSpecified))
    );
}

#[test]
fn arguments_host_needs_resolution_then_runs() {
    let argv = args(&["sandstorm", "-x", "localhost", "-c", "a:b"]);
    let mut resolutions: Vec<Option<Vec<SocketAddress>>> = Vec::new();
    assert_eq!(
        parse_arguments(&argv, &resolutions, EnvCredentials::NotPresent),
        ParseOutcome::NeedsResolution { address: s("localhost"), default_port: 2222 }
    );
    resolutions.push(Some(vec![
        SocketAddress::V4 { ip: 0x7f000001, port: 2222 },
        SocketAddress::V4 { ip: 0x7f000001, port: 2222 },
    ]));
    match parse_arguments(&argv, &resolutions, EnvCredentials::NotPresent) {
        ParseOutcome::Done(Ok(ArgumentsRequest::Run(a))) => {
            assert_eq!(a.server_address, vec![SocketAddress::V4 { ip: 0x7f000001, port: 2222 }]);
        }
        other => panic!("unexpected outcome {:?}", other),
    }
}

#[test]
fn arguments_errors() {
    let none: Vec<Option<Vec<SocketAddress>>> = Vec::new();
    assert_eq!(
        parse_arguments(&args(&["sandstorm", "--nope"]), &none, EnvCredentials::NotPresent),
        ParseOutcome::Done(Err(ArgumentsError::UnknownArgument(s("--nope"))))
    );
    assert_eq!(
        parse_arguments(&args(&["sandstorm", "-c", "a:b", "-o", "-i"]), &none, EnvCredentials::NotPresent),
        ParseOutcome::Done(Err(ArgumentsError::CantMixOutputAndInteractive))
    );
    assert_eq!(
        parse_arguments(&args(&["sandstorm", "-x"]), &none, EnvCredentials::NotPresent),
        ParseOutcome::Done(Err(ArgumentsError::HostError(SocketErrorType::UnexpectedEnd(s("-x")))))
    );
    let failed: Vec<Option<Vec<SocketAddress>>> = vec![None];
    assert_eq!(
        parse_arguments(&args(&["sandstorm", "-k", "nowhere"]), &failed, EnvCredentials::NotPresent),
        ParseOutcome::Done(Err(ArgumentsError::AddSocks5Error(SocketErrorType::InvalidSocketAddress(
            s("-k"),
            s("nowhere")
        ))))
    );
}

#[test]
fn error_messages() {
    assert_eq!(
        BufferSizeErrorType::UnexpectedEnd(s("-b")).to_string(),
        "Expected buffer size after -b"
    );
    assert_eq!(
        SocketErrorType::InvalidSocketAddress(s("-x"), s("nowhere")).to_string(),
        "Invalid socket address after -x: nowhere"
    );
    assert_eq!(ArgumentsError::NoCredentialsSpecified.to_string().is_empty(), false);
}

#[test]
fn help_text_mentions_every_option() {
    let help = get_help_string();
    assert!(help.starts_with("Usage: sandstorm [options...]"));
    for flag in ["--help", "--version", "--host", "--credentials", "--output-logs", "--interactive"] {
        assert!(help.contains(flag));
    }
}
