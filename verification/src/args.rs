use vstd::prelude::*;
use vstd::utf8::encode_utf8;

use crate::text::{
    concat2, push_str, string_of,
    ascii_ci_eq_spec, ascii_lower_code, ascii_lower_code_exec, eq_ignore_ascii_case, is_alphanumeric, is_ascii_alphanumeric, is_ascii_alphanumeric_spec,
    lemma_encode_utf8_concat, lemma_encode_utf8_push, push_char, str_chars, str_eq, trim_chars, trim_spec, unicode_alphanumeric, utf8_len_exceeds,
};

verus! {

pub const DEFAULT_SOCKS5_PORT: u16 = 1080;

pub const DEFAULT_SANDSTORM_PORT: u16 = 2222;

/// The largest amount of UTF-8 bytes that a username or a password may take.
pub const MAX_CREDENTIAL_BYTES: usize = 255;

/// The roles a user can take on the server.
#[derive(Debug, Clone, Copy, PartialEq, Eq, Structural)]
pub enum UserRole {
    Admin,
    Regular,
}

/// The authentication methods of the SOCKS5 server that can be toggled.
#[derive(Debug, Clone, Copy, PartialEq, Eq, Structural)]
pub enum AuthMethod {
    NoAuth,
    UsernameAndPassword,
}

/// `dust_devil_core::users::ADMIN_PREFIX_CHAR`, the symbol that identifies the admin role.
#[verifier::external_body]
pub(crate) fn admin_prefix_char() -> (c: char)
    ensures
        c == '@',
{
    dust_devil_core::users::ADMIN_PREFIX_CHAR
}

/// `dust_devil_core::users::REGULAR_PREFIX_CHAR`, the symbol that identifies the regular role.
#[verifier::external_body]
pub(crate) fn regular_prefix_char() -> (c: char)
    ensures
        c == '#',
{
    dust_devil_core::users::REGULAR_PREFIX_CHAR
}

/// `dust_devil_core::users::ESCAPE_CHAR`, the character that escapes the next one when a user
/// is written out.
#[verifier::external_body]
pub(crate) fn escape_char() -> (c: char)
    ensures
        c == '\\',
{
    dust_devil_core::users::ESCAPE_CHAR
}

/// The symbol of each role, as `dust_devil_core::users::UserRole::into_role_char` gives it.
pub open spec fn role_char_spec(role: UserRole) -> char {
    match role {
        UserRole::Admin => '@',
        UserRole::Regular => '#',
    }
}

/// `dust_devil_core::users::UserRole::into_role_char` on the role of the same name.
#[verifier::external_body]
pub(crate) fn into_role_char(role: UserRole) -> (c: char)
    ensures
        c == role_char_spec(role),
{
    let core_role = match role {
        UserRole::Admin => dust_devil_core::users::UserRole::Admin,
        UserRole::Regular => dust_devil_core::users::UserRole::Regular,
    };
    core_role.into_role_char()
}

/// The name of each role, as `dust_devil_core::users::UserRole::to_str` gives it.
pub open spec fn role_name(role: UserRole) -> Seq<char> {
    match role {
        UserRole::Admin => "admin"@,
        UserRole::Regular => "regular"@,
    }
}

/// `dust_devil_core::users::UserRole::to_str` on the role of the same name: its name, which is
/// also how it is displayed.
#[verifier::external_body]
pub(crate) fn role_to_str(role: UserRole) -> (s: &'static str)
    ensures
        s@ == role_name(role),
{
    let core_role = match role {
        UserRole::Admin => dust_devil_core::users::UserRole::Admin,
        UserRole::Regular => dust_devil_core::users::UserRole::Regular,
    };
    core_role.to_str()
}

/// The name of each authentication method, as `dust_devil_core::socks5::AuthMethod::to_str`
/// gives it.
pub open spec fn auth_method_name(method: AuthMethod) -> Seq<char> {
    match method {
        AuthMethod::NoAuth => "noauth"@,
        AuthMethod::UsernameAndPassword => "userpass"@,
    }
}

/// `dust_devil_core::socks5::AuthMethod::to_str` on the method of the same name: its name,
/// which is also how it is displayed.
#[verifier::external_body]
pub(crate) fn auth_method_to_str(method: AuthMethod) -> (s: &'static str)
    ensures
        s@ == auth_method_name(method),
{
    let core_method = match method {
        AuthMethod::NoAuth => dust_devil_core::socks5::AuthMethod::NoAuth,
        AuthMethod::UsernameAndPassword => dust_devil_core::socks5::AuthMethod::UsernameAndPassword,
    };
    core_method.to_str()
}

/// The number of bytes the UTF-8 encoding of a character sequence takes.
pub open spec fn utf8_len(s: Seq<char>) -> int {
    encode_utf8(s).len() as int
}

/// The ways in which a user specification such as `@name:password` can be invalid.
#[derive(Debug, Clone, Copy, PartialEq, Eq, Structural)]
pub enum ParseIntoUserError {
    Empty,
    InvalidRoleChar(char),
    EmptyUsername,
    UsernameTooLong,
    EmptyPassword,
    PasswordTooLong,
}

/// A parsed user: username, optional password, optional role.
pub type SpecUser = (Seq<char>, Option<Seq<char>>, Option<UserRole>);

/// Scans the username part of a user specification, starting at character `i`, with `name`
/// holding the username so far and `escape` telling whether the previous character was an
/// unescaped escape character. Gives the username and the index just after the separating
/// `:`, or `None` as index when the text ends first.
pub open spec fn scan_username(s: Seq<char>, i: int, name: Seq<char>, escape: bool) -> Result<
    (Seq<char>, Option<int>),
    ParseIntoUserError,
>
    decreases s.len() - i,
{
    if i < 0 || i >= s.len() {
        Ok((name, None))
    } else {
        let c = s[i];
        let keep = escape || (c != '\\' && c != ':');
        if keep && utf8_len(name) >= 255 {
            Err(ParseIntoUserError::UsernameTooLong)
        } else {
            let name2 = if keep { name.push(c) } else { name };
            if escape {
                scan_username(s, i + 1, name2, false)
            } else if c == '\\' {
                scan_username(s, i + 1, name2, true)
            } else if c == ':' {
                Ok((name2, Some(i + 1)))
            } else {
                scan_username(s, i + 1, name2, false)
            }
        }
    }
}

/// Scans the password part of a user specification from character `i` to the end.
pub open spec fn scan_password(s: Seq<char>, i: int, pw: Seq<char>, escape: bool) -> Result<Seq<char>, ParseIntoUserError>
    decreases s.len() - i,
{
    if i < 0 || i >= s.len() {
        Ok(pw)
    } else {
        let c = s[i];
        let keep = escape || c != '\\';
        if keep && utf8_len(pw) >= 255 {
            Err(ParseIntoUserError::PasswordTooLong)
        } else {
            let pw2 = if keep { pw.push(c) } else { pw };
            scan_password(s, i + 1, pw2, !escape && c == '\\')
        }
    }
}

/// The result of parsing a user specification `(role)?username(:password)?`, where `\` escapes
/// the next character (so that a username may hold a `:`).
pub open spec fn parse_into_user_spec(s: Seq<char>) -> Result<SpecUser, ParseIntoUserError> {
    if s.len() == 0 {
        Err(ParseIntoUserError::Empty)
    } else {
        let first = s[0];
        let start: Result<(Seq<char>, bool, Option<UserRole>), ParseIntoUserError> =
            if unicode_alphanumeric(first) {
                Ok((seq![first], false, None))
            } else if first == '@' {
                Ok((Seq::empty(), false, Some(UserRole::Admin)))
            } else if first == '#' {
                Ok((Seq::empty(), false, Some(UserRole::Regular)))
            } else if first == '\\' {
                Ok((Seq::empty(), true, None))
            } else {
                Err(ParseIntoUserError::InvalidRoleChar(first))
            };
        match start {
            Err(e) => Err(e),
            Ok((name0, escape0, role)) => match scan_username(s, 1, name0, escape0) {
                Err(e) => Err(e),
                Ok((name, None)) => if name.len() == 0 {
                    Err(ParseIntoUserError::EmptyUsername)
                } else {
                    Ok((name, None, role))
                },
                Ok((name, Some(next))) => if name.len() == 0 {
                    Err(ParseIntoUserError::EmptyUsername)
                } else {
                    match scan_password(s, next, Seq::empty(), false) {
                        Err(e) => Err(e),
                        Ok(pw) => if pw.len() == 0 {
                            Err(ParseIntoUserError::EmptyPassword)
                        } else {
                            Ok((name, Some(pw), role))
                        },
                    }
                },
            },
        }
    }
}

/// A username with each `:` escaped by a `\\`, as it is written in a user specification.
pub open spec fn escape_username_spec(s: Seq<char>) -> Seq<char>
    decreases s.len(),
{
    if s.len() == 0 {
        Seq::empty()
    } else {
        (if s[0] == ':' { seq!['\\', ':'] } else { seq![s[0]] }) + escape_username_spec(s.drop_first())
    }
}

proof fn lemma_escape_push(s: Seq<char>, c: char)
    ensures
        escape_username_spec(s.push(c)) == escape_username_spec(s) + (if c == ':' { seq!['\\', ':'] } else { seq![c] }),
    decreases s.len(),
{
    if s.len() == 0 {
        assert(s.push(c).drop_first() =~= Seq::<char>::empty());
        assert(s.push(c)[0] == c);
        assert(escape_username_spec(Seq::<char>::empty()) =~= Seq::<char>::empty());
        assert(escape_username_spec(s) =~= Seq::<char>::empty());
        let esc = if c == ':' { seq!['\\', ':'] } else { seq![c] };
        assert(escape_username_spec(s.push(c)) == esc + escape_username_spec(Seq::<char>::empty()));
        assert(esc + Seq::<char>::empty() =~= esc);
        assert(Seq::<char>::empty() + esc =~= esc);
    } else {
        lemma_escape_push(s.drop_first(), c);
        assert(s.push(c).drop_first() =~= s.drop_first().push(c));
        assert(s.push(c)[0] == s[0]);
    }
}

/// Writes a username with each `:` escaped by a `\\`, so it can be given in a user
/// specification.
pub fn escape_username(username: &str) -> (r: String)
    ensures
        r@ == escape_username_spec(username@),
{
    let chars = str_chars(username);
    let mut r = String::new();
    let mut i: usize = 0;
    assert(chars@.take(0) =~= Seq::<char>::empty());
    while i < chars.len()
        invariant
            i <= chars.len(),
            chars@ == username@,
            r@ == escape_username_spec(chars@.take(i as int)),
        decreases chars.len() - i,
    {
        let c = chars[i];
        proof {
            lemma_escape_push(chars@.take(i as int), c);
            assert(chars@.take(i + 1) =~= chars@.take(i as int).push(c));
        }
        if c == ':' {
            push_char(&mut r, '\\');
            push_char(&mut r, ':');
        } else {
            push_char(&mut r, c);
        }
        assert(r@ =~= escape_username_spec(chars@.take(i + 1)));
        i = i + 1;
    }
    assert(chars@.take(chars@.len() as int) =~= username@);
    r
}

/// Each character takes at least one byte, and the bytes of a concatenation add up.
proof fn lemma_utf8_len_concat(a: Seq<char>, b: Seq<char>)
    ensures
        utf8_len(a + b) == utf8_len(a) + utf8_len(b),
{
    lemma_encode_utf8_concat(a, b);
}

proof fn lemma_utf8_len_char(c: char)
    ensures
        utf8_len(seq![c]) >= 1,
{
    lemma_encode_utf8_push(Seq::<char>::empty(), c);
    assert(Seq::<char>::empty().push(c) =~= seq![c]);
}

/// Scanning an escaped name with no `\\` in it adds the name, as long as it fits.
proof fn lemma_scan_escaped(s: Seq<char>, i: int, name: Seq<char>, w: Seq<char>)
    requires
        0 <= i,
        i + escape_username_spec(w).len() <= s.len(),
        s.subrange(i, i + escape_username_spec(w).len()) == escape_username_spec(w),
        forall|k: int| 0 <= k < w.len() ==> w[k] != '\\',
        utf8_len(name + w) <= 255,
    ensures
        scan_username(s, i, name, false) == scan_username(s, i + escape_username_spec(w).len(), name + w, false),
    decreases w.len(),
{
    if w.len() == 0 {
        assert(name + w =~= name);
    } else {
        let c = w[0];
        let e = escape_username_spec(w);
        let rest = w.drop_first();
        lemma_utf8_len_concat(name, w);
        lemma_utf8_len_concat(seq![c], rest);
        assert(w =~= seq![c] + rest);
        lemma_utf8_len_char(c);
        lemma_utf8_len_concat(name, seq![c]);
        assert(name.push(c) =~= name + seq![c]);
        assert((name + seq![c]) + rest =~= name + w);
        assert forall|k: int| 0 <= k < rest.len() implies rest[k] != '\\' by {
            assert(rest[k] == w[k + 1]);
        }
        assert(s[i] == s.subrange(i, i + e.len())[0]);
        if c == ':' {
            assert(s[i] == e[0]);
            assert(s[i + 1] == s.subrange(i, i + e.len())[1]);
            assert(s[i + 1] == e[1]);
            assert(scan_username(s, i, name, false) == scan_username(s, i + 1, name, true));
            assert(scan_username(s, i + 1, name, true) == scan_username(s, i + 2, name.push(c), false));
            assert(s.subrange(i + 2, i + 2 + escape_username_spec(rest).len()) =~= escape_username_spec(rest)) by {
                assert forall|k: int| 0 <= k < escape_username_spec(rest).len() implies s.subrange(
                    i + 2,
                    i + 2 + escape_username_spec(rest).len(),
                )[k] == escape_username_spec(rest)[k] by {
                    assert(s[i + 2 + k] == e[2 + k]);
                }
            }
            lemma_scan_escaped(s, i + 2, name.push(c), rest);
        } else {
            assert(s[i] == e[0]);
            assert(scan_username(s, i, name, false) == scan_username(s, i + 1, name.push(c), false));
            assert(s.subrange(i + 1, i + 1 + escape_username_spec(rest).len()) =~= escape_username_spec(rest)) by {
                assert forall|k: int| 0 <= k < escape_username_spec(rest).len() implies s.subrange(
                    i + 1,
                    i + 1 + escape_username_spec(rest).len(),
                )[k] == escape_username_spec(rest)[k] by {
                    assert(s[i + 1 + k] == e[1 + k]);
                }
            }
            lemma_scan_escaped(s, i + 1, name.push(c), rest);
        }
    }
}

/// Scanning a password with no `\\` in it gives it back, as long as it fits.
proof fn lemma_scan_plain_password(s: Seq<char>, i: int, pw: Seq<char>)
    requires
        0 <= i <= s.len(),
        forall|k: int| i <= k < s.len() ==> s[k] != '\\',
        utf8_len(pw + s.subrange(i, s.len() as int)) <= 255,
    ensures
        scan_password(s, i, pw, false) == Ok::<Seq<char>, ParseIntoUserError>(pw + s.subrange(i, s.len() as int)),
    decreases s.len() - i,
{
    if i < s.len() {
        let c = s[i];
        let rest = s.subrange(i + 1, s.len() as int);
        assert(s.subrange(i, s.len() as int) =~= seq![c] + rest);
        lemma_utf8_len_concat(pw, seq![c] + rest);
        lemma_utf8_len_concat(seq![c], rest);
        lemma_utf8_len_char(c);
        assert(pw.push(c) + rest =~= pw + s.subrange(i, s.len() as int));
        lemma_scan_plain_password(s, i + 1, pw.push(c));
    } else {
        assert(pw + s.subrange(i, s.len() as int) =~= pw);
    }
}

/// Escaping a username that starts with a letter or digit and holds no `\\`, and following
/// it with `:` and a password that holds no `\\`, gives a user specification that parses
/// back to that username and password, with no role, when both fit in 255 bytes.
pub proof fn lemma_escaped_user_roundtrip(username: Seq<char>, password: Seq<char>)
    requires
        username.len() >= 1,
        unicode_alphanumeric(username[0]),
        username[0] != ':',
        forall|k: int| 0 <= k < username.len() ==> username[k] != '\\',
        utf8_len(username) <= 255,
        password.len() >= 1,
        forall|k: int| 0 <= k < password.len() ==> password[k] != '\\',
        utf8_len(password) <= 255,
    ensures
        parse_into_user_spec(escape_username_spec(username) + seq![':'] + password) == Ok::<SpecUser, ParseIntoUserError>(
            (username, Some(password), None),
        ),
{
    let e = escape_username_spec(username);
    let s = e + seq![':'] + password;
    let rest = username.drop_first();
    let first = username[0];
    assert(e =~= seq![first] + escape_username_spec(rest));
    assert(s[0] == first);
    let er = escape_username_spec(rest);
    let n: int = er.len() as int;
    assert(s.subrange(1, 1 + n) =~= er) by {
        assert forall|k: int| 0 <= k < n implies s.subrange(1, 1 + n)[k] == er[k] by {
            assert(s[1 + k] == e[1 + k]);
        }
    }
    assert forall|k: int| 0 <= k < rest.len() implies rest[k] != '\\' by {
        assert(rest[k] == username[k + 1]);
    }
    assert(seq![first] + rest =~= username);
    lemma_scan_escaped(s, 1, seq![first], rest);
    let j: int = 1 + n;
    assert(s[j] == ':');
    assert(scan_username(s, j, username, false) == Ok::<(Seq<char>, Option<int>), ParseIntoUserError>((username, Some(j + 1)))) by {
        assert(!(false || (s[j] != '\\' && s[j] != ':')));
    }
    assert(s.subrange(j + 1, s.len() as int) =~= password);
    assert forall|k: int| j + 1 <= k < s.len() implies s[k] != '\\' by {
        assert(s[k] == password[k - j - 1]);
    }
    assert(Seq::<char>::empty() + password =~= password);
    lemma_scan_plain_password(s, j + 1, Seq::<char>::empty());
}

/// The view of a parsed user.
pub open spec fn user_view(u: (String, Option<String>, Option<UserRole>)) -> SpecUser {
    (
        u.0@,
        match u.1 {
            Some(p) => Some(p@),
            None => None,
        },
        u.2,
    )
}

/// Parses a user specification in the `(role)?username(:password)?` format. The role is `@`
/// for admins and `#` for regular users; `\` escapes the next character. A character is
/// refused once the username (or password) already holds 255 bytes, so either can end up
/// to 258 bytes long when its last character takes several bytes.
#[verifier::loop_isolation(false)]
pub fn parse_into_user(s: &str) -> (r: Result<(String, Option<String>, Option<UserRole>), ParseIntoUserError>)
    ensures
        match r {
            Ok(u) => parse_into_user_spec(s@) == Ok::<SpecUser, ParseIntoUserError>(user_view(u)),
            Err(e) => parse_into_user_spec(s@) == Err::<SpecUser, ParseIntoUserError>(e),
        },
{
    let chars = str_chars(s);
    if chars.len() == 0 {
        return Err(ParseIntoUserError::Empty);
    }
    let first_char = chars[0];
    let admin = admin_prefix_char();
    let regular = regular_prefix_char();
    let esc = escape_char();

    let mut username = String::new();
    let mut escape_next = false;

    let maybe_role = if is_alphanumeric(first_char) {
        push_char(&mut username, first_char);
        None
    } else if first_char == admin {
        Some(UserRole::Admin)
    } else if first_char == regular {
        Some(UserRole::Regular)
    } else if first_char == esc {
        escape_next = true;
        None
    } else {
        return Err(ParseIntoUserError::InvalidRoleChar(first_char));
    };
    assert(username@ =~= (if unicode_alphanumeric(first_char) { seq![first_char] } else { Seq::<char>::empty() }));

    proof {
        if unicode_alphanumeric(first_char) {
            lemma_encode_utf8_push(Seq::<char>::empty(), first_char);
            assert(Seq::<char>::empty().push(first_char) =~= seq![first_char]);
        }
        assert(encode_utf8(Seq::<char>::empty()) =~= Seq::<u8>::empty());
    }
    let ghost name0 = username@;
    let ghost escape0 = escape_next;
    let mut i: usize = 1;
    let mut next: Option<usize> = None;
    while i < chars.len() && next.is_none()
        invariant
            1 <= i <= chars.len(),
            chars@ == s@,
            esc == '\\',
            utf8_len(username@) <= 258,
            next is None ==> scan_username(s@, 1, name0, escape0) == scan_username(s@, i as int, username@, escape_next),
            next matches Some(n) ==> n <= chars.len() && scan_username(s@, 1, name0, escape0)
                == Ok::<(Seq<char>, Option<int>), ParseIntoUserError>((username@, Some(n as int))),
        decreases chars.len() - i,
    {
        let c = chars[i];
        if escape_next || (c != esc && c != ':') {
            if username.as_str().len() >= MAX_CREDENTIAL_BYTES {
                return Err(ParseIntoUserError::UsernameTooLong);
            }
            proof {
                lemma_encode_utf8_push(username@, c);
            }
            push_char(&mut username, c);
        }
        if escape_next {
            escape_next = false;
        } else if c == esc {
            escape_next = true;
        } else if c == ':' {
            next = Some(i + 1);
        }
        i = i + 1;
    }

    let next = match next {
        None => {
            if username.as_str().is_empty() {
                return Err(ParseIntoUserError::EmptyUsername);
            }
            return Ok((username, None, maybe_role));
        },
        Some(n) => n,
    };

    if username.as_str().is_empty() {
        return Err(ParseIntoUserError::EmptyUsername);
    }

    let mut password = String::new();
    let mut escape_next = false;
    assert(encode_utf8(Seq::<char>::empty()) =~= Seq::<u8>::empty());
    let mut j: usize = next;
    while j < chars.len()
        invariant
            next <= j <= chars.len(),
            chars@ == s@,
            scan_password(s@, next as int, Seq::empty(), false) == scan_password(s@, j as int, password@, escape_next),
            utf8_len(password@) <= 258,
            esc == '\\',
        decreases chars.len() - j,
    {
        let c = chars[j];
        if escape_next || c != esc {
            if password.as_str().len() >= MAX_CREDENTIAL_BYTES {
                return Err(ParseIntoUserError::PasswordTooLong);
            }
            proof {
                lemma_encode_utf8_push(password@, c);
            }
            push_char(&mut password, c);
        }
        if escape_next {
            escape_next = false;
        } else if c == esc {
            escape_next = true;
        }
        j = j + 1;
    }

    if password.as_str().is_empty() {
        return Err(ParseIntoUserError::EmptyPassword);
    }

    Ok((username, Some(password), maybe_role))
}


/// The view of a string option.
pub open spec fn opt_view(o: Option<String>) -> Option<Seq<char>> {
    match o {
        Some(s) => Some(s@),
        None => None,
    }
}

/// A socket address: an IPv4 address and port, or an IPv6 address, port, flow information
/// and scope id. Addresses are kept as the integers their octets spell, most significant
/// first.
#[derive(Debug, Clone, Copy, PartialEq, Eq, Structural, Hash)]
#[allow(inconsistent_fields)]
pub enum SocketAddress {
    V4 { ip: u32, port: u16 },
    V6 { ip: u128, port: u16, flowinfo: u32, scope_id: u32 },
}

/// A request to send to the server, as specified on the command line.
#[derive(Debug, PartialEq, Eq)]
pub enum CommandRequest<S = String> {
    Shutdown,
    ListSocks5Sockets,
    AddSocks5Socket(SocketAddress),
    RemoveSocks5Socket(SocketAddress),
    ListSandstormSockets,
    AddSandstormSocket(SocketAddress),
    RemoveSandstormSocket(SocketAddress),
    ListUsers,
    AddUser(S, S, UserRole),
    UpdateUser(S, Option<S>, Option<UserRole>),
    DeleteUser(S),
    ListAuthMethods,
    ToggleAuthMethod(AuthMethod, bool),
    GetMetrics,
    GetBufferSize,
    SetBufferSize(u32),
    Meow,
}

impl View for CommandRequest<String> {
    type V = CommandRequest<Seq<char>>;

    open spec fn view(&self) -> CommandRequest<Seq<char>> {
        match self {
            CommandRequest::Shutdown => CommandRequest::Shutdown,
            CommandRequest::ListSocks5Sockets => CommandRequest::ListSocks5Sockets,
            CommandRequest::AddSocks5Socket(a) => CommandRequest::AddSocks5Socket(*a),
            CommandRequest::RemoveSocks5Socket(a) => CommandRequest::RemoveSocks5Socket(*a),
            CommandRequest::ListSandstormSockets => CommandRequest::ListSandstormSockets,
            CommandRequest::AddSandstormSocket(a) => CommandRequest::AddSandstormSocket(*a),
            CommandRequest::RemoveSandstormSocket(a) => CommandRequest::RemoveSandstormSocket(*a),
            CommandRequest::ListUsers => CommandRequest::ListUsers,
            CommandRequest::AddUser(u, p, r) => CommandRequest::AddUser(u@, p@, *r),
            CommandRequest::UpdateUser(u, p, r) => CommandRequest::UpdateUser(u@, opt_view(*p), *r),
            CommandRequest::DeleteUser(u) => CommandRequest::DeleteUser(u@),
            CommandRequest::ListAuthMethods => CommandRequest::ListAuthMethods,
            CommandRequest::ToggleAuthMethod(m, e) => CommandRequest::ToggleAuthMethod(*m, *e),
            CommandRequest::GetMetrics => CommandRequest::GetMetrics,
            CommandRequest::GetBufferSize => CommandRequest::GetBufferSize,
            CommandRequest::SetBufferSize(n) => CommandRequest::SetBufferSize(*n),
            CommandRequest::Meow => CommandRequest::Meow,
        }
    }
}

/// The view of a list of requests.
pub open spec fn requests_view(v: Seq<CommandRequest>) -> Seq<CommandRequest<Seq<char>>> {
    v.map_values(|c: CommandRequest| c@)
}

/// What the client was asked to do at startup.
#[derive(Debug, PartialEq, Eq)]
pub struct StartupArguments {
    pub verbose: bool,
    pub silent: bool,
    pub server_address: Vec<SocketAddress>,
    pub login_credentials: (String, String),
    pub requests: Vec<CommandRequest>,
    pub output_logs: bool,
    pub interactive: bool,
}

/// The mathematical model of [`StartupArguments`].
pub struct SpecStartupArguments {
    pub verbose: bool,
    pub silent: bool,
    pub server_address: Seq<SocketAddress>,
    pub login_credentials: (Seq<char>, Seq<char>),
    pub requests: Seq<CommandRequest<Seq<char>>>,
    pub output_logs: bool,
    pub interactive: bool,
}

impl View for StartupArguments {
    type V = SpecStartupArguments;

    open spec fn view(&self) -> SpecStartupArguments {
        SpecStartupArguments {
            verbose: self.verbose,
            silent: self.silent,
            server_address: self.server_address@,
            login_credentials: (self.login_credentials.0@, self.login_credentials.1@),
            requests: requests_view(self.requests@),
            output_logs: self.output_logs,
            interactive: self.interactive,
        }
    }
}

/// Startup arguments with nothing specified.
pub open spec fn empty_arguments() -> SpecStartupArguments {
    SpecStartupArguments {
        verbose: false,
        silent: false,
        server_address: Seq::empty(),
        login_credentials: (Seq::empty(), Seq::empty()),
        requests: Seq::empty(),
        output_logs: false,
        interactive: false,
    }
}

/// `[::1]:2222`, the IPv6 localhost Sandstorm address.
pub open spec fn localhost_v6() -> SocketAddress {
    SocketAddress::V6 { ip: 1, port: DEFAULT_SANDSTORM_PORT, flowinfo: 0, scope_id: 0 }
}

/// `127.0.0.1:2222`, the IPv4 localhost Sandstorm address.
pub open spec fn localhost_v4() -> SocketAddress {
    SocketAddress::V4 { ip: 0x7f000001, port: DEFAULT_SANDSTORM_PORT }
}

/// The arguments with the server address defaulting to localhost on both IP versions.
pub open spec fn with_defaults(a: SpecStartupArguments) -> SpecStartupArguments {
    if a.server_address.len() == 0 {
        SpecStartupArguments { server_address: seq![localhost_v6(), localhost_v4()], ..a }
    } else {
        a
    }
}

impl StartupArguments {
    pub fn empty() -> (r: Self)
        ensures
            r@ == empty_arguments(),
    {
        let r = StartupArguments {
            verbose: false,
            silent: false,
            server_address: Vec::new(),
            login_credentials: (String::new(), String::new()),
            requests: Vec::new(),
            output_logs: false,
            interactive: false,
        };
        assert(r@.requests =~= Seq::<CommandRequest<Seq<char>>>::empty());
        r
    }

    /// If no server address was given, uses localhost on IPv6 and IPv4 at the default port.
    pub fn fill_empty_fields_with_defaults(&mut self)
        ensures
            final(self)@ == with_defaults(old(self)@),
    {
        if self.server_address.len() == 0 {
            self.server_address.push(SocketAddress::V6 { ip: 1, port: DEFAULT_SANDSTORM_PORT, flowinfo: 0, scope_id: 0 });
            self.server_address.push(SocketAddress::V4 { ip: 0x7f000001, port: DEFAULT_SANDSTORM_PORT });
            assert(self.server_address@ =~= seq![localhost_v6(), localhost_v4()]);
        }
    }

    /// The empty arguments with the defaults filled in.
    pub fn default() -> (r: Self)
        ensures
            r@ == with_defaults(empty_arguments()),
    {
        let mut args = Self::empty();
        args.fill_empty_fields_with_defaults();
        args
    }
}

/// What the client was asked to do: show the help menu, show the version, or run.
#[derive(Debug, PartialEq, Eq)]
pub enum ArgumentsRequest<A = StartupArguments> {
    Help,
    Version,
    Run(A),
}

impl View for ArgumentsRequest {
    type V = ArgumentsRequest<SpecStartupArguments>;

    open spec fn view(&self) -> ArgumentsRequest<SpecStartupArguments> {
        match self {
            ArgumentsRequest::Help => ArgumentsRequest::Help,
            ArgumentsRequest::Version => ArgumentsRequest::Version,
            ArgumentsRequest::Run(a) => ArgumentsRequest::Run(a@),
        }
    }
}

/// Errors on a socket address argument.
#[derive(Debug, PartialEq, Eq)]
pub enum SocketErrorType<S = String> {
    UnexpectedEnd(S),
    InvalidSocketAddress(S, S),
}

impl View for SocketErrorType {
    type V = SocketErrorType<Seq<char>>;

    open spec fn view(&self) -> SocketErrorType<Seq<char>> {
        match self {
            SocketErrorType::UnexpectedEnd(a) => SocketErrorType::UnexpectedEnd(a@),
            SocketErrorType::InvalidSocketAddress(a, b) => SocketErrorType::InvalidSocketAddress(a@, b@),
        }
    }
}

/// Errors on the credentials argument.
#[derive(Debug, PartialEq, Eq)]
pub enum CredentialsErrorType<S = String> {
    UnexpectedEnd(S),
    AlreadySpecified(S),
    Empty(S),
    DontSpecifyRoleChar(S, char),
    EmptyUsername(S),
    UsernameTooLong(S),
    EmptyPassword(S),
    PasswordTooLong(S),
}

impl View for CredentialsErrorType {
    type V = CredentialsErrorType<Seq<char>>;

    open spec fn view(&self) -> CredentialsErrorType<Seq<char>> {
        match self {
            CredentialsErrorType::UnexpectedEnd(a) => CredentialsErrorType::UnexpectedEnd(a@),
            CredentialsErrorType::AlreadySpecified(a) => CredentialsErrorType::AlreadySpecified(a@),
            CredentialsErrorType::Empty(a) => CredentialsErrorType::Empty(a@),
            CredentialsErrorType::DontSpecifyRoleChar(a, c) => CredentialsErrorType::DontSpecifyRoleChar(a@, *c),
            CredentialsErrorType::EmptyUsername(a) => CredentialsErrorType::EmptyUsername(a@),
            CredentialsErrorType::UsernameTooLong(a) => CredentialsErrorType::UsernameTooLong(a@),
            CredentialsErrorType::EmptyPassword(a) => CredentialsErrorType::EmptyPassword(a@),
            CredentialsErrorType::PasswordTooLong(a) => CredentialsErrorType::PasswordTooLong(a@),
        }
    }
}

/// Errors on the credentials taken from the environment.
#[derive(Debug, Clone, Copy, PartialEq, Eq, Structural)]
pub enum EnvCredentialsErrorType {
    Empty,
    NotUnicode,
    DontSpecifyRoleChar(char),
    EmptyUsername,
    UsernameTooLong,
    EmptyPassword,
    PasswordTooLong,
}

/// Errors on an add user argument.
#[derive(Debug, PartialEq, Eq)]
pub enum AddUserErrorType<S = String> {
    UnexpectedEnd(S),
    Empty(S),
    MissingPassword(S),
    InvalidRoleChar(S, char),
    EmptyUsername(S),
    UsernameTooLong(S),
    EmptyPassword(S),
    PasswordTooLong(S),
}

impl View for AddUserErrorType {
    type V = AddUserErrorType<Seq<char>>;

    open spec fn view(&self) -> AddUserErrorType<Seq<char>> {
        match self {
            AddUserErrorType::UnexpectedEnd(a) => AddUserErrorType::UnexpectedEnd(a@),
            AddUserErrorType::Empty(a) => AddUserErrorType::Empty(a@),
            AddUserErrorType::MissingPassword(a) => AddUserErrorType::MissingPassword(a@),
            AddUserErrorType::InvalidRoleChar(a, c) => AddUserErrorType::InvalidRoleChar(a@, *c),
            AddUserErrorType::EmptyUsername(a) => AddUserErrorType::EmptyUsername(a@),
            AddUserErrorType::UsernameTooLong(a) => AddUserErrorType::UsernameTooLong(a@),
            AddUserErrorType::EmptyPassword(a) => AddUserErrorType::EmptyPassword(a@),
            AddUserErrorType::PasswordTooLong(a) => AddUserErrorType::PasswordTooLong(a@),
        }
    }
}

/// Errors on an update user argument.
#[derive(Debug, PartialEq, Eq)]
pub enum UpdateUserErrorType<S = String> {
    UnexpectedEnd(S),
    Empty(S),
    NothingWasSpecified(S),
    InvalidRoleChar(S, char),
    EmptyUsername(S),
    UsernameTooLong(S),
    EmptyPassword(S),
    PasswordTooLong(S),
}

impl View for UpdateUserErrorType {
    type V = UpdateUserErrorType<Seq<char>>;

    open spec fn view(&self) -> UpdateUserErrorType<Seq<char>> {
        match self {
            UpdateUserErrorType::UnexpectedEnd(a) => UpdateUserErrorType::UnexpectedEnd(a@),
            UpdateUserErrorType::Empty(a) => UpdateUserErrorType::Empty(a@),
            UpdateUserErrorType::NothingWasSpecified(a) => UpdateUserErrorType::NothingWasSpecified(a@),
            UpdateUserErrorType::InvalidRoleChar(a, c) => UpdateUserErrorType::InvalidRoleChar(a@, *c),
            UpdateUserErrorType::EmptyUsername(a) => UpdateUserErrorType::EmptyUsername(a@),
            UpdateUserErrorType::UsernameTooLong(a) => UpdateUserErrorType::UsernameTooLong(a@),
            UpdateUserErrorType::EmptyPassword(a) => UpdateUserErrorType::EmptyPassword(a@),
            UpdateUserErrorType::PasswordTooLong(a) => UpdateUserErrorType::PasswordTooLong(a@),
        }
    }
}

/// Errors on a delete user argument.
#[derive(Debug, PartialEq, Eq)]
pub enum DeleteUserErrorType<S = String> {
    UnexpectedEnd(S),
    Empty(S),
    UsernameTooLong(S),
}

impl View for DeleteUserErrorType {
    type V = DeleteUserErrorType<Seq<char>>;

    open spec fn view(&self) -> DeleteUserErrorType<Seq<char>> {
        match self {
            DeleteUserErrorType::UnexpectedEnd(a) => DeleteUserErrorType::UnexpectedEnd(a@),
            DeleteUserErrorType::Empty(a) => DeleteUserErrorType::Empty(a@),
            DeleteUserErrorType::UsernameTooLong(a) => DeleteUserErrorType::UsernameTooLong(a@),
        }
    }
}

/// Errors on an authentication toggle argument.
#[derive(Debug, PartialEq, Eq)]
pub enum AuthToggleErrorType<S = String> {
    UnexpectedEnd(S),
    InvalidAuthType(S, S),
}

impl View for AuthToggleErrorType {
    type V = AuthToggleErrorType<Seq<char>>;

    open spec fn view(&self) -> AuthToggleErrorType<Seq<char>> {
        match self {
            AuthToggleErrorType::UnexpectedEnd(a) => AuthToggleErrorType::UnexpectedEnd(a@),
            AuthToggleErrorType::InvalidAuthType(a, b) => AuthToggleErrorType::InvalidAuthType(a@, b@),
        }
    }
}

/// Errors on a buffer size argument.
#[derive(Debug, PartialEq, Eq)]
pub enum BufferSizeErrorType<S = String> {
    UnexpectedEnd(S),
    Empty(S),
    InvalidSize(S, S),
}

impl View for BufferSizeErrorType {
    type V = BufferSizeErrorType<Seq<char>>;

    open spec fn view(&self) -> BufferSizeErrorType<Seq<char>> {
        match self {
            BufferSizeErrorType::UnexpectedEnd(a) => BufferSizeErrorType::UnexpectedEnd(a@),
            BufferSizeErrorType::Empty(a) => BufferSizeErrorType::Empty(a@),
            BufferSizeErrorType::InvalidSize(a, b) => BufferSizeErrorType::InvalidSize(a@, b@),
        }
    }
}

/// Errors while parsing the startup arguments.
#[derive(Debug, PartialEq, Eq)]
pub enum ArgumentsError<S = String> {
    UnknownArgument(S),
    HostError(SocketErrorType<S>),
    CredentialsError(CredentialsErrorType<S>),
    EnvCredentialsError(EnvCredentialsErrorType),
    NoCredentialsSpecified,
    AddSocks5Error(SocketErrorType<S>),
    RemoveSocks5Error(SocketErrorType<S>),
    AddSandstormError(SocketErrorType<S>),
    RemoveSandstormError(SocketErrorType<S>),
    AddUserError(AddUserErrorType<S>),
    UpdateUserError(UpdateUserErrorType<S>),
    DeleteUserError(DeleteUserErrorType<S>),
    AuthToggleError(AuthToggleErrorType<S>),
    BufferSizeError(BufferSizeErrorType<S>),
    CantMixOutputAndInteractive,
}

impl View for ArgumentsError {
    type V = ArgumentsError<Seq<char>>;

    open spec fn view(&self) -> ArgumentsError<Seq<char>> {
        match self {
            ArgumentsError::UnknownArgument(a) => ArgumentsError::UnknownArgument(a@),
            ArgumentsError::HostError(e) => ArgumentsError::HostError(e@),
            ArgumentsError::CredentialsError(e) => ArgumentsError::CredentialsError(e@),
            ArgumentsError::EnvCredentialsError(e) => ArgumentsError::EnvCredentialsError(*e),
            ArgumentsError::NoCredentialsSpecified => ArgumentsError::NoCredentialsSpecified,
            ArgumentsError::AddSocks5Error(e) => ArgumentsError::AddSocks5Error(e@),
            ArgumentsError::RemoveSocks5Error(e) => ArgumentsError::RemoveSocks5Error(e@),
            ArgumentsError::AddSandstormError(e) => ArgumentsError::AddSandstormError(e@),
            ArgumentsError::RemoveSandstormError(e) => ArgumentsError::RemoveSandstormError(e@),
            ArgumentsError::AddUserError(e) => ArgumentsError::AddUserError(e@),
            ArgumentsError::UpdateUserError(e) => ArgumentsError::UpdateUserError(e@),
            ArgumentsError::DeleteUserError(e) => ArgumentsError::DeleteUserError(e@),
            ArgumentsError::AuthToggleError(e) => ArgumentsError::AuthToggleError(e@),
            ArgumentsError::BufferSizeError(e) => ArgumentsError::BufferSizeError(e@),
            ArgumentsError::CantMixOutputAndInteractive => ArgumentsError::CantMixOutputAndInteractive,
        }
    }
}


/// The credentials given after `arg` (with `arg2` the following argument, if any), when
/// `already` tells whether credentials were given before.
pub open spec fn parse_credentials_spec(already: bool, arg: Seq<char>, arg2: Option<Seq<char>>) -> Result<
    (Seq<char>, Seq<char>),
    CredentialsErrorType<Seq<char>>,
> {
    if already {
        Err(CredentialsErrorType::AlreadySpecified(arg))
    } else {
        match arg2 {
            None => Err(CredentialsErrorType::UnexpectedEnd(arg)),
            Some(creds) => match parse_into_user_spec(creds) {
                Ok((name, Some(pw), None)) => Ok((name, pw)),
                Ok((_, _, Some(role))) => Err(CredentialsErrorType::DontSpecifyRoleChar(arg, role_char_spec(role))),
                Ok((_, None, _)) => Err(CredentialsErrorType::EmptyPassword(arg)),
                Err(ParseIntoUserError::Empty) => Err(CredentialsErrorType::Empty(arg)),
                Err(ParseIntoUserError::InvalidRoleChar(c)) => Err(CredentialsErrorType::DontSpecifyRoleChar(arg, c)),
                Err(ParseIntoUserError::EmptyUsername) => Err(CredentialsErrorType::EmptyUsername(arg)),
                Err(ParseIntoUserError::UsernameTooLong) => Err(CredentialsErrorType::UsernameTooLong(arg)),
                Err(ParseIntoUserError::EmptyPassword) => Err(CredentialsErrorType::EmptyPassword(arg)),
                Err(ParseIntoUserError::PasswordTooLong) => Err(CredentialsErrorType::PasswordTooLong(arg)),
            },
        }
    }
}

/// Parses the credentials given after `arg` into `result`. Credentials may be given only once
/// and, unlike users, carry no role char and need a password.
pub fn parse_credentials(result: &mut (String, String), arg: String, maybe_arg2: Option<String>) -> (r: Result<(), CredentialsErrorType>)
    ensures
        match parse_credentials_spec(old(result).0@.len() != 0, arg@, opt_view(maybe_arg2)) {
            Ok(c) => r is Ok && (final(result).0@, final(result).1@) == c,
            Err(e) => (r matches Err(e2) && e2@ == e) && *final(result) == *old(result),
        },
{
    if !result.0.as_str().is_empty() {
        return Err(CredentialsErrorType::AlreadySpecified(arg));
    }

    let credentials = match maybe_arg2 {
        Some(creds) => creds,
        None => return Err(CredentialsErrorType::UnexpectedEnd(arg)),
    };

    let creds_tuple = match parse_into_user(credentials.as_str()) {
        Ok((username, Some(password), None)) => (username, password),
        Ok((_, _, Some(role))) => return Err(CredentialsErrorType::DontSpecifyRoleChar(arg, into_role_char(role))),
        Ok((_, None, _)) => return Err(CredentialsErrorType::EmptyPassword(arg)),
        Err(ParseIntoUserError::Empty) => return Err(CredentialsErrorType::Empty(arg)),
        Err(ParseIntoUserError::InvalidRoleChar(role_char)) => return Err(CredentialsErrorType::DontSpecifyRoleChar(arg, role_char)),
        Err(ParseIntoUserError::EmptyUsername) => return Err(CredentialsErrorType::EmptyUsername(arg)),
        Err(ParseIntoUserError::UsernameTooLong) => return Err(CredentialsErrorType::UsernameTooLong(arg)),
        Err(ParseIntoUserError::EmptyPassword) => return Err(CredentialsErrorType::EmptyPassword(arg)),
        Err(ParseIntoUserError::PasswordTooLong) => return Err(CredentialsErrorType::PasswordTooLong(arg)),
    };

    *result = creds_tuple;
    Ok(())
}

/// The value of the credentials environment variable: absent, not valid Unicode, or a string.
#[derive(Debug, PartialEq, Eq)]
pub enum EnvCredentials<S = String> {
    NotPresent,
    NotUnicode,
    Present(S),
}

impl View for EnvCredentials {
    type V = EnvCredentials<Seq<char>>;

    open spec fn view(&self) -> EnvCredentials<Seq<char>> {
        match self {
            EnvCredentials::NotPresent => EnvCredentials::NotPresent,
            EnvCredentials::NotUnicode => EnvCredentials::NotUnicode,
            EnvCredentials::Present(s) => EnvCredentials::Present(s@),
        }
    }
}

/// The credentials taken from the value of the credentials environment variable.
pub open spec fn parse_env_credentials_spec(env: EnvCredentials<Seq<char>>) -> Result<
    Option<(Seq<char>, Seq<char>)>,
    EnvCredentialsErrorType,
> {
    match env {
        EnvCredentials::NotPresent => Ok(None),
        EnvCredentials::NotUnicode => Err(EnvCredentialsErrorType::NotUnicode),
        EnvCredentials::Present(creds) => match parse_into_user_spec(creds) {
            Ok((name, Some(pw), None)) => Ok(Some((name, pw))),
            Ok((_, _, Some(role))) => Err(EnvCredentialsErrorType::DontSpecifyRoleChar(role_char_spec(role))),
            Ok((_, None, _)) => Err(EnvCredentialsErrorType::EmptyPassword),
            Err(ParseIntoUserError::Empty) => Err(EnvCredentialsErrorType::Empty),
            Err(ParseIntoUserError::InvalidRoleChar(c)) => Err(EnvCredentialsErrorType::DontSpecifyRoleChar(c)),
            Err(ParseIntoUserError::EmptyUsername) => Err(EnvCredentialsErrorType::EmptyUsername),
            Err(ParseIntoUserError::UsernameTooLong) => Err(EnvCredentialsErrorType::UsernameTooLong),
            Err(ParseIntoUserError::EmptyPassword) => Err(EnvCredentialsErrorType::EmptyPassword),
            Err(ParseIntoUserError::PasswordTooLong) => Err(EnvCredentialsErrorType::PasswordTooLong),
        },
    }
}

/// Parses the credentials from the value of the credentials environment variable, which the
/// caller reads. An absent variable gives `Ok(None)`.
pub fn parse_env_credentials(env: EnvCredentials) -> (r: Result<Option<(String, String)>, EnvCredentialsErrorType>)
    ensures
        match r {
            Ok(None) => parse_env_credentials_spec(env@) == Ok::<Option<(Seq<char>, Seq<char>)>, EnvCredentialsErrorType>(None),
            Ok(Some(c)) => parse_env_credentials_spec(env@) == Ok::<Option<(Seq<char>, Seq<char>)>, EnvCredentialsErrorType>(Some((c.0@, c.1@))),
            Err(e) => parse_env_credentials_spec(env@) == Err::<Option<(Seq<char>, Seq<char>)>, EnvCredentialsErrorType>(e),
        },
{
    let credentials = match env {
        EnvCredentials::Present(s) => s,
        EnvCredentials::NotPresent => return Ok(None),
        EnvCredentials::NotUnicode => return Err(EnvCredentialsErrorType::NotUnicode),
    };

    match parse_into_user(credentials.as_str()) {
        Ok((username, Some(password), None)) => Ok(Some((username, password))),
        Ok((_, _, Some(role))) => Err(EnvCredentialsErrorType::DontSpecifyRoleChar(into_role_char(role))),
        Ok((_, None, _)) => Err(EnvCredentialsErrorType::EmptyPassword),
        Err(ParseIntoUserError::Empty) => Err(EnvCredentialsErrorType::Empty),
        Err(ParseIntoUserError::InvalidRoleChar(role_char)) => Err(EnvCredentialsErrorType::DontSpecifyRoleChar(role_char)),
        Err(ParseIntoUserError::EmptyUsername) => Err(EnvCredentialsErrorType::EmptyUsername),
        Err(ParseIntoUserError::UsernameTooLong) => Err(EnvCredentialsErrorType::UsernameTooLong),
        Err(ParseIntoUserError::EmptyPassword) => Err(EnvCredentialsErrorType::EmptyPassword),
        Err(ParseIntoUserError::PasswordTooLong) => Err(EnvCredentialsErrorType::PasswordTooLong),
    }
}

/// The user to add given after `arg`: it needs a password, and is a regular user unless a
/// role char says otherwise.
pub open spec fn parse_add_user_spec(arg: Seq<char>, arg2: Option<Seq<char>>) -> Result<
    (Seq<char>, Seq<char>, UserRole),
    AddUserErrorType<Seq<char>>,
> {
    match arg2 {
        None => Err(AddUserErrorType::UnexpectedEnd(arg)),
        Some(user) => match parse_into_user_spec(user) {
            Ok((name, Some(pw), role)) => Ok((name, pw, match role { Some(r) => r, None => UserRole::Regular })),
            Ok((_, None, _)) => Err(AddUserErrorType::MissingPassword(arg)),
            Err(ParseIntoUserError::Empty) => Err(AddUserErrorType::Empty(arg)),
            Err(ParseIntoUserError::InvalidRoleChar(c)) => Err(AddUserErrorType::InvalidRoleChar(arg, c)),
            Err(ParseIntoUserError::EmptyUsername) => Err(AddUserErrorType::EmptyUsername(arg)),
            Err(ParseIntoUserError::UsernameTooLong) => Err(AddUserErrorType::UsernameTooLong(arg)),
            Err(ParseIntoUserError::EmptyPassword) => Err(AddUserErrorType::EmptyPassword(arg)),
            Err(ParseIntoUserError::PasswordTooLong) => Err(AddUserErrorType::PasswordTooLong(arg)),
        },
    }
}

/// Parses the user to add given after `arg`.
pub fn parse_add_user(arg: String, maybe_arg2: Option<String>) -> (r: Result<(String, String, UserRole), AddUserErrorType>)
    ensures
        match r {
            Ok(u) => parse_add_user_spec(arg@, opt_view(maybe_arg2))
                == Ok::<(Seq<char>, Seq<char>, UserRole), AddUserErrorType<Seq<char>>>((u.0@, u.1@, u.2)),
            Err(e) => parse_add_user_spec(arg@, opt_view(maybe_arg2))
                == Err::<(Seq<char>, Seq<char>, UserRole), AddUserErrorType<Seq<char>>>(e@),
        },
{
    let user_string = match maybe_arg2 {
        Some(s) => s,
        None => return Err(AddUserErrorType::UnexpectedEnd(arg)),
    };

    match parse_into_user(user_string.as_str()) {
        Ok((username, Some(password), maybe_role)) => {
            let role = match maybe_role {
                Some(r) => r,
                None => UserRole::Regular,
            };
            Ok((username, password, role))
        },
        Ok((_, None, _)) => Err(AddUserErrorType::MissingPassword(arg)),
        Err(ParseIntoUserError::Empty) => Err(AddUserErrorType::Empty(arg)),
        Err(ParseIntoUserError::InvalidRoleChar(role_char)) => Err(AddUserErrorType::InvalidRoleChar(arg, role_char)),
        Err(ParseIntoUserError::EmptyUsername) => Err(AddUserErrorType::EmptyUsername(arg)),
        Err(ParseIntoUserError::UsernameTooLong) => Err(AddUserErrorType::UsernameTooLong(arg)),
        Err(ParseIntoUserError::EmptyPassword) => Err(AddUserErrorType::EmptyPassword(arg)),
        Err(ParseIntoUserError::PasswordTooLong) => Err(AddUserErrorType::PasswordTooLong(arg)),
    }
}

/// The user update given after `arg`: a username with a new password, a new role, or both.
pub open spec fn parse_update_user_spec(arg: Seq<char>, arg2: Option<Seq<char>>) -> Result<
    SpecUser,
    UpdateUserErrorType<Seq<char>>,
> {
    match arg2 {
        None => Err(UpdateUserErrorType::UnexpectedEnd(arg)),
        Some(user) => match parse_into_user_spec(user) {
            Ok((_, None, None)) => Err(UpdateUserErrorType::NothingWasSpecified(arg)),
            Ok(u) => Ok(u),
            Err(ParseIntoUserError::Empty) => Err(UpdateUserErrorType::Empty(arg)),
            Err(ParseIntoUserError::InvalidRoleChar(c)) => Err(UpdateUserErrorType::InvalidRoleChar(arg, c)),
            Err(ParseIntoUserError::EmptyUsername) => Err(UpdateUserErrorType::EmptyUsername(arg)),
            Err(ParseIntoUserError::UsernameTooLong) => Err(UpdateUserErrorType::UsernameTooLong(arg)),
            Err(ParseIntoUserError::EmptyPassword) => Err(UpdateUserErrorType::EmptyPassword(arg)),
            Err(ParseIntoUserError::PasswordTooLong) => Err(UpdateUserErrorType::PasswordTooLong(arg)),
        },
    }
}

/// Parses the user update given after `arg`.
pub fn parse_update_user(arg: String, maybe_arg2: Option<String>) -> (r: Result<(String, Option<String>, Option<UserRole>), UpdateUserErrorType>)
    ensures
        match r {
            Ok(u) => parse_update_user_spec(arg@, opt_view(maybe_arg2)) == Ok::<SpecUser, UpdateUserErrorType<Seq<char>>>(user_view(u)),
            Err(e) => parse_update_user_spec(arg@, opt_view(maybe_arg2)) == Err::<SpecUser, UpdateUserErrorType<Seq<char>>>(e@),
        },
{
    let user_string = match maybe_arg2 {
        Some(s) => s,
        None => return Err(UpdateUserErrorType::UnexpectedEnd(arg)),
    };

    match parse_into_user(user_string.as_str()) {
        Ok((_, None, None)) => Err(UpdateUserErrorType::NothingWasSpecified(arg)),
        Ok((username, maybe_password, maybe_role)) => Ok((username, maybe_password, maybe_role)),
        Err(ParseIntoUserError::Empty) => Err(UpdateUserErrorType::Empty(arg)),
        Err(ParseIntoUserError::InvalidRoleChar(role_char)) => Err(UpdateUserErrorType::InvalidRoleChar(arg, role_char)),
        Err(ParseIntoUserError::EmptyUsername) => Err(UpdateUserErrorType::EmptyUsername(arg)),
        Err(ParseIntoUserError::UsernameTooLong) => Err(UpdateUserErrorType::UsernameTooLong(arg)),
        Err(ParseIntoUserError::EmptyPassword) => Err(UpdateUserErrorType::EmptyPassword(arg)),
        Err(ParseIntoUserError::PasswordTooLong) => Err(UpdateUserErrorType::PasswordTooLong(arg)),
    }
}

/// The username to delete given after `arg`: taken as it is, without escapes.
pub open spec fn parse_delete_user_spec(arg: Seq<char>, arg2: Option<Seq<char>>) -> Result<Seq<char>, DeleteUserErrorType<Seq<char>>> {
    match arg2 {
        None => Err(DeleteUserErrorType::UnexpectedEnd(arg)),
        Some(name) => if name.len() == 0 {
            Err(DeleteUserErrorType::Empty(arg))
        } else if utf8_len(name) > 255 {
            Err(DeleteUserErrorType::UsernameTooLong(arg))
        } else {
            Ok(name)
        },
    }
}

/// Parses the username to delete given after `arg`.
pub fn parse_delete_user(arg: String, maybe_arg2: Option<String>) -> (r: Result<String, DeleteUserErrorType>)
    ensures
        match r {
            Ok(u) => parse_delete_user_spec(arg@, opt_view(maybe_arg2)) == Ok::<Seq<char>, DeleteUserErrorType<Seq<char>>>(u@),
            Err(e) => parse_delete_user_spec(arg@, opt_view(maybe_arg2)) == Err::<Seq<char>, DeleteUserErrorType<Seq<char>>>(e@),
        },
{
    match maybe_arg2 {
        None => Err(DeleteUserErrorType::UnexpectedEnd(arg)),
        Some(username) => {
            if username.as_str().is_empty() {
                Err(DeleteUserErrorType::Empty(arg))
            } else if utf8_len_exceeds(username.as_str(), MAX_CREDENTIAL_BYTES) {
                Err(DeleteUserErrorType::UsernameTooLong(arg))
            } else {
                Ok(username)
            }
        },
    }
}

/// The authentication method named after `arg`: `noauth` or `userpass`, in any ASCII case.
pub open spec fn parse_auth_arg_spec(arg: Seq<char>, arg2: Option<Seq<char>>) -> Result<AuthMethod, AuthToggleErrorType<Seq<char>>> {
    match arg2 {
        None => Err(AuthToggleErrorType::UnexpectedEnd(arg)),
        Some(a2) => if ascii_ci_eq_spec(a2, "noauth"@) {
            Ok(AuthMethod::NoAuth)
        } else if ascii_ci_eq_spec(a2, "userpass"@) {
            Ok(AuthMethod::UsernameAndPassword)
        } else {
            Err(AuthToggleErrorType::InvalidAuthType(arg, a2))
        },
    }
}

/// Parses the authentication method named after `arg`.
pub fn parse_auth_arg(arg: String, maybe_arg2: Option<String>) -> (r: Result<AuthMethod, AuthToggleErrorType>)
    ensures
        match r {
            Ok(m) => parse_auth_arg_spec(arg@, opt_view(maybe_arg2)) == Ok::<AuthMethod, AuthToggleErrorType<Seq<char>>>(m),
            Err(e) => parse_auth_arg_spec(arg@, opt_view(maybe_arg2)) == Err::<AuthMethod, AuthToggleErrorType<Seq<char>>>(e@),
        },
{
    let arg2 = match maybe_arg2 {
        Some(arg2) => arg2,
        None => return Err(AuthToggleErrorType::UnexpectedEnd(arg)),
    };

    if eq_ignore_ascii_case(arg2.as_str(), "noauth") {
        Ok(AuthMethod::NoAuth)
    } else if eq_ignore_ascii_case(arg2.as_str(), "userpass") {
        Ok(AuthMethod::UsernameAndPassword)
    } else {
        Err(AuthToggleErrorType::InvalidAuthType(arg, arg2))
    }
}


/// The text and radix left after an optional `0x`, `0o` or `0b` prefix (the letter in any ASCII
/// case) is taken off; decimal without one.
pub open spec fn radix_prefix(t: Seq<char>) -> (Seq<char>, nat) {
    if t.len() >= 2 && t[0] == '0' && ascii_lower_code(t[1]) == 'x' as u32 {
        (t.skip(2), 16)
    } else if t.len() >= 2 && t[0] == '0' && ascii_lower_code(t[1]) == 'o' as u32 {
        (t.skip(2), 8)
    } else if t.len() >= 2 && t[0] == '0' && ascii_lower_code(t[1]) == 'b' as u32 {
        (t.skip(2), 2)
    } else {
        (t, 10)
    }
}

/// The text and multiplier left after an optional `k`, `m` or `g` suffix (in any ASCII case)
/// is taken off.
pub open spec fn size_suffix(s: Seq<char>) -> (Seq<char>, nat) {
    if s.len() > 0 && ascii_lower_code(s.last()) == 'k' as u32 {
        (s.drop_last(), 1024)
    } else if s.len() > 0 && ascii_lower_code(s.last()) == 'm' as u32 {
        (s.drop_last(), 1024 * 1024)
    } else if s.len() > 0 && ascii_lower_code(s.last()) == 'g' as u32 {
        (s.drop_last(), 1024 * 1024 * 1024)
    } else {
        (s, 1)
    }
}

/// The value of a digit in the given radix (`char::to_digit`): `0`-`9`, then letters in any
/// ASCII case from 10 on.
pub open spec fn digit_value(c: char, radix: nat) -> Option<nat> {
    let d: int = if '0' <= c <= '9' {
        c as u32 - '0' as u32
    } else if 'a' <= c <= 'z' {
        c as u32 - 'a' as u32 + 10
    } else if 'A' <= c <= 'Z' {
        c as u32 - 'A' as u32 + 10
    } else {
        radix as int
    };
    if d < radix {
        Some(d as nat)
    } else {
        None
    }
}

/// The number the digits spell in the given radix, or `None` if one is not a digit.
pub open spec fn digits_value(s: Seq<char>, radix: nat) -> Option<nat>
    decreases s.len(),
{
    if s.len() == 0 {
        Some(0)
    } else {
        match (digits_value(s.drop_last(), radix), digit_value(s.last(), radix)) {
            (Some(v), Some(d)) => Some(v * radix + d),
            _ => None,
        }
    }
}

/// The buffer size given after `arg`: a positive number, in decimal or with a radix prefix,
/// optionally followed by a K, M or G multiplier, that fits in a `u32`. Surrounding whitespace
/// is ignored.
pub open spec fn parse_buffer_size_spec(arg: Seq<char>, arg2: Option<Seq<char>>) -> Result<u32, BufferSizeErrorType<Seq<char>>> {
    match arg2 {
        None => Err(BufferSizeErrorType::UnexpectedEnd(arg)),
        Some(a2) => {
            let (s, radix) = radix_prefix(trim_spec(a2));
            let (s2, mult) = size_suffix(s);
            if s2.len() == 0 {
                Err(BufferSizeErrorType::Empty(arg))
            } else if !is_ascii_alphanumeric_spec(s2[0]) {
                Err(BufferSizeErrorType::InvalidSize(arg, a2))
            } else {
                size_from_digits(arg, a2, s2, radix, mult)
            }
        },
    }
}

/// The buffer size spelled by the digits `s2` in the given radix, times the multiplier; it
/// must be positive and fit in a `u32`.
pub open spec fn size_from_digits(arg: Seq<char>, a2: Seq<char>, s2: Seq<char>, radix: nat, mult: nat) -> Result<u32, BufferSizeErrorType<Seq<char>>> {
    match digits_value(s2, radix) {
        Some(v) => if v == 0 || v > u32::MAX || v * mult > u32::MAX {
            Err(BufferSizeErrorType::InvalidSize(arg, a2))
        } else {
            Ok((v * mult) as u32)
        },
        None => Err(BufferSizeErrorType::InvalidSize(arg, a2)),
    }
}

/// A prefix of valid digits is valid and spells no more than the whole.
proof fn lemma_digits_prefix(s: Seq<char>, radix: nat, j: int)
    requires
        radix >= 1,
        0 <= j <= s.len(),
        digits_value(s, radix) is Some,
    ensures
        digits_value(s.take(j), radix) is Some,
        digits_value(s.take(j), radix)->0 <= digits_value(s, radix)->0,
    decreases s.len(),
{
    if j == s.len() {
        assert(s.take(j) =~= s);
    } else {
        let v = digits_value(s.drop_last(), radix)->0;
        let d = digit_value(s.last(), radix)->0;
        assert(v * radix >= v) by (nonlinear_arith)
            requires
                radix >= 1,
        ;
        lemma_digits_prefix(s.drop_last(), radix, j);
        assert(s.drop_last().take(j) =~= s.take(j));
    }
}

fn digit_value_exec(c: char, radix: u32) -> (r: Option<u32>)
    requires
        radix <= 36,
    ensures
        match r {
            Some(d) => digit_value(c, radix as nat) == Some(d as nat),
            None => digit_value(c, radix as nat) is None,
        },
{
    let d: u32 = if '0' <= c && c <= '9' {
        (c as u32) - ('0' as u32)
    } else if 'a' <= c && c <= 'z' {
        (c as u32) - ('a' as u32) + 10
    } else if 'A' <= c && c <= 'Z' {
        (c as u32) - ('A' as u32) + 10
    } else {
        radix
    };
    if d < radix {
        Some(d)
    } else {
        None
    }
}

/// Parses the buffer size given after `arg`.
pub fn parse_buffer_size_arg(arg: String, maybe_arg2: Option<String>) -> (r: Result<u32, BufferSizeErrorType>)
    ensures
        match r {
            Ok(n) => parse_buffer_size_spec(arg@, opt_view(maybe_arg2)) == Ok::<u32, BufferSizeErrorType<Seq<char>>>(n),
            Err(e) => parse_buffer_size_spec(arg@, opt_view(maybe_arg2)) == Err::<u32, BufferSizeErrorType<Seq<char>>>(e@),
        },
{
    let arg2 = match maybe_arg2 {
        Some(arg2) => arg2,
        None => return Err(BufferSizeErrorType::UnexpectedEnd(arg)),
    };

    let t = trim_chars(arg2.as_str());
    let ghost tv = t@;

    let mut start: usize = 0;
    let mut radix: u32 = 10;
    if t.len() >= 2 && t[0] == '0' {
        let second = ascii_lower_code_exec(t[1]);
        if second == ('x' as u32) {
            start = 2;
            radix = 16;
        } else if second == ('o' as u32) {
            start = 2;
            radix = 8;
        } else if second == ('b' as u32) {
            start = 2;
            radix = 2;
        }
    }
    assert(radix_prefix(tv) == (tv.subrange(start as int, tv.len() as int), radix as nat));

    let mut end: usize = t.len();
    let mut multiplier: u32 = 1;
    if end > start {
        let last = ascii_lower_code_exec(t[end - 1]);
        if last == ('k' as u32) {
            end = end - 1;
            multiplier = 1024;
        } else if last == ('m' as u32) {
            end = end - 1;
            multiplier = 1024 * 1024;
        } else if last == ('g' as u32) {
            end = end - 1;
            multiplier = 1024 * 1024 * 1024;
        }
    }
    let ghost s2 = tv.subrange(start as int, end as int);
    assert(size_suffix(tv.subrange(start as int, tv.len() as int)) == (s2, multiplier as nat));

    if start == end {
        return Err(BufferSizeErrorType::Empty(arg));
    }
    if !is_ascii_alphanumeric(t[start]) {
        return Err(BufferSizeErrorType::InvalidSize(arg, arg2));
    }

    let mut value: u64 = 0;
    let mut j: usize = start;
    assert(s2.take(0) =~= Seq::<char>::empty());
    while j < end
        invariant
            start <= j <= end <= t.len(),
            t@ == tv,
            s2 == tv.subrange(start as int, end as int),
            2 <= radix <= 16,
            value <= u32::MAX,
            digits_value(s2.take(j - start), radix as nat) == Some(value as nat),
            parse_buffer_size_spec(arg@, Some(arg2@)) == size_from_digits(arg@, arg2@, s2, radix as nat, multiplier as nat),
            opt_view(maybe_arg2) == Some(arg2@),
        decreases end - j,
    {
        let d = match digit_value_exec(t[j], radix) {
            Some(d) => d,
            None => {
                proof {
                    assert(s2.take(j - start + 1).drop_last() =~= s2.take(j - start));
                    assert(s2.take(j - start + 1).last() == t@[j as int]);
                    if digits_value(s2, radix as nat) is Some {
                        lemma_digits_prefix(s2, radix as nat, j - start + 1);
                    }
                }
                return Err(BufferSizeErrorType::InvalidSize(arg, arg2));
            },
        };
        assert(value * (radix as u64) <= (u32::MAX as u64) * 16) by (nonlinear_arith)
            requires
                value <= u32::MAX,
                radix <= 16,
        ;
        let next = value * (radix as u64) + (d as u64);
        proof {
            assert(s2.take(j - start + 1).drop_last() =~= s2.take(j - start));
            assert(s2.take(j - start + 1).last() == t@[j as int]);
        }
        if next > (u32::MAX as u64) {
            proof {
                if digits_value(s2, radix as nat) is Some {
                    lemma_digits_prefix(s2, radix as nat, j - start + 1);
                }
            }
            return Err(BufferSizeErrorType::InvalidSize(arg, arg2));
        }
        value = next;
        j = j + 1;
    }
    assert(s2.take(end - start) =~= s2);

    if value == 0 {
        return Err(BufferSizeErrorType::InvalidSize(arg, arg2));
    }
    let size = (value as u32).checked_mul(multiplier);
    match size {
        Some(size) => Ok(size),
        None => Err(BufferSizeErrorType::InvalidSize(arg, arg2)),
    }
}


/// `v` with each address of `new` appended in turn, unless it is already there.
pub open spec fn push_unique(v: Seq<SocketAddress>, new: Seq<SocketAddress>) -> Seq<SocketAddress>
    decreases new.len(),
{
    if new.len() == 0 {
        v
    } else {
        push_unique(if v.contains(new[0]) { v } else { v.push(new[0]) }, new.drop_first())
    }
}

/// The outcome of a socket argument: `arg` is the option, `arg2` the address text that
/// followed it (if any), and `resolved` the addresses that text resolved to (`None` when it did
/// not resolve).
pub open spec fn parse_socket_spec(
    v: Seq<SocketAddress>,
    arg: Seq<char>,
    arg2: Option<Seq<char>>,
    resolved: Option<Seq<SocketAddress>>,
) -> Result<Seq<SocketAddress>, SocketErrorType<Seq<char>>> {
    match arg2 {
        None => Err(SocketErrorType::UnexpectedEnd(arg)),
        Some(a2) => match resolved {
            None => Err(SocketErrorType::InvalidSocketAddress(arg, a2)),
            Some(addrs) => Ok(push_unique(v, addrs)),
        },
    }
}

fn contains_address(v: &Vec<SocketAddress>, a: SocketAddress) -> (r: bool)
    ensures
        r == v@.contains(a),
{
    let mut i: usize = 0;
    while i < v.len()
        invariant
            i <= v.len(),
            forall|j: int| 0 <= j < i ==> v@[j] != a,
        decreases v.len() - i,
    {
        if v[i] == a {
            assert(v@[i as int] == a);
            return true;
        }
        i = i + 1;
    }
    false
}

/// Appends to `result_vec` the addresses of `new` that it does not hold yet, in order.
pub fn push_unique_addresses(result_vec: &mut Vec<SocketAddress>, new: &Vec<SocketAddress>)
    ensures
        final(result_vec)@ == push_unique(old(result_vec)@, new@),
{
    let mut i: usize = 0;
    assert(new@.skip(0) =~= new@);
    while i < new.len()
        invariant
            i <= new.len(),
            push_unique(old(result_vec)@, new@) == push_unique(result_vec@, new@.skip(i as int)),
        decreases new.len() - i,
    {
        let a = new[i];
        assert(new@.skip(i as int).drop_first() =~= new@.skip(i + 1));
        if !contains_address(result_vec, a) {
            result_vec.push(a);
        }
        i = i + 1;
    }
}

/// Handles a socket address argument: the address text that follows `arg` is resolved by the
/// caller (with the option's default port when it holds none) and handed in as `resolved`,
/// `None` when it did not resolve. The resulting addresses not yet in `result_vec` are added to
/// it.
pub fn parse_socket_arg(
    result_vec: &mut Vec<SocketAddress>,
    arg: String,
    maybe_arg2: Option<String>,
    resolved: Option<Vec<SocketAddress>>,
) -> (r: Result<(), SocketErrorType>)
    ensures
        match parse_socket_spec(old(result_vec)@, arg@, opt_view(maybe_arg2), match resolved { Some(v) => Some(v@), None => None }) {
            Ok(v) => r is Ok && final(result_vec)@ == v,
            Err(e) => (r matches Err(e2) && e2@ == e) && final(result_vec)@ == old(result_vec)@,
        },
{
    let arg2 = match maybe_arg2 {
        Some(value) => value,
        None => return Err(SocketErrorType::UnexpectedEnd(arg)),
    };
    let addrs = match resolved {
        Some(addrs) => addrs,
        None => return Err(SocketErrorType::InvalidSocketAddress(arg, arg2)),
    };
    push_unique_addresses(result_vec, &addrs);
    Ok(())
}

/// The options the client understands.
#[derive(Debug, Clone, Copy, PartialEq, Eq, Structural)]
pub enum ArgFlag {
    Help,
    Version,
    Verbose,
    Silent,
    Host,
    Shutdown,
    Credentials,
    ListSocks5,
    AddSocks5,
    RemoveSocks5,
    ListSandstorm,
    AddSandstorm,
    RemoveSandstorm,
    ListUsers,
    AddUser,
    UpdateUser,
    DeleteUser,
    ListAuth,
    AuthEnable,
    AuthDisable,
    GetMetrics,
    GetBufferSize,
    SetBufferSize,
    Meow,
    OutputLogs,
    Interactive,
}

/// The option an argument names: its short form exactly, or its long form in any ASCII case.
pub open spec fn flag_spec(arg: Seq<char>) -> Option<ArgFlag> {
    if arg == "-h"@ || ascii_ci_eq_spec(arg, "--help"@) {
        Some(ArgFlag::Help)
    } else if arg == "-V"@ || ascii_ci_eq_spec(arg, "--version"@) {
        Some(ArgFlag::Version)
    } else if arg == "-v"@ || ascii_ci_eq_spec(arg, "--verbose"@) {
        Some(ArgFlag::Verbose)
    } else if arg == "-s"@ || ascii_ci_eq_spec(arg, "--silent"@) {
        Some(ArgFlag::Silent)
    } else if arg == "-x"@ || ascii_ci_eq_spec(arg, "--host"@) {
        Some(ArgFlag::Host)
    } else if arg == "-S"@ || ascii_ci_eq_spec(arg, "--shutdown"@) {
        Some(ArgFlag::Shutdown)
    } else if arg == "-c"@ || ascii_ci_eq_spec(arg, "--credentials"@) {
        Some(ArgFlag::Credentials)
    } else if arg == "-l"@ || ascii_ci_eq_spec(arg, "--list-socks5"@) {
        Some(ArgFlag::ListSocks5)
    } else if arg == "-k"@ || ascii_ci_eq_spec(arg, "--add-socks5"@) {
        Some(ArgFlag::AddSocks5)
    } else if arg == "-r"@ || ascii_ci_eq_spec(arg, "--remove-socks5"@) {
        Some(ArgFlag::RemoveSocks5)
    } else if arg == "-L"@ || ascii_ci_eq_spec(arg, "--list-sandstr"@) {
        Some(ArgFlag::ListSandstorm)
    } else if arg == "-K"@ || ascii_ci_eq_spec(arg, "--add-sandstr"@) {
        Some(ArgFlag::AddSandstorm)
    } else if arg == "-R"@ || ascii_ci_eq_spec(arg, "--remove-sandstr"@) {
        Some(ArgFlag::RemoveSandstorm)
    } else if arg == "-t"@ || ascii_ci_eq_spec(arg, "--list-users"@) {
        Some(ArgFlag::ListUsers)
    } else if arg == "-u"@ || ascii_ci_eq_spec(arg, "--add-user"@) {
        Some(ArgFlag::AddUser)
    } else if arg == "-p"@ || ascii_ci_eq_spec(arg, "--update-user"@) {
        Some(ArgFlag::UpdateUser)
    } else if arg == "-d"@ || ascii_ci_eq_spec(arg, "--delete-user"@) {
        Some(ArgFlag::DeleteUser)
    } else if arg == "-z"@ || ascii_ci_eq_spec(arg, "--list-auth"@) {
        Some(ArgFlag::ListAuth)
    } else if arg == "-A"@ || ascii_ci_eq_spec(arg, "--auth-enable"@) {
        Some(ArgFlag::AuthEnable)
    } else if arg == "-a"@ || ascii_ci_eq_spec(arg, "--auth-disable"@) {
        Some(ArgFlag::AuthDisable)
    } else if arg == "-m"@ || ascii_ci_eq_spec(arg, "--get-metrics"@) {
        Some(ArgFlag::GetMetrics)
    } else if arg == "-B"@ || ascii_ci_eq_spec(arg, "--get-buffer-size"@) {
        Some(ArgFlag::GetBufferSize)
    } else if arg == "-b"@ || ascii_ci_eq_spec(arg, "--set-buffer-size"@) {
        Some(ArgFlag::SetBufferSize)
    } else if arg == "-w"@ || ascii_ci_eq_spec(arg, "--meow"@) {
        Some(ArgFlag::Meow)
    } else if arg == "-o"@ || ascii_ci_eq_spec(arg, "--output-logs"@) {
        Some(ArgFlag::OutputLogs)
    } else if arg == "-i"@ || ascii_ci_eq_spec(arg, "--interactive"@) {
        Some(ArgFlag::Interactive)
    } else {
        None
    }
}

/// Finds the option an argument names.
pub fn classify_flag(arg: &str) -> (r: Option<ArgFlag>)
    ensures
        r == flag_spec(arg@),
{
    if str_eq(arg, "-h") || eq_ignore_ascii_case(arg, "--help") {
        Some(ArgFlag::Help)
    } else if str_eq(arg, "-V") || eq_ignore_ascii_case(arg, "--version") {
        Some(ArgFlag::Version)
    } else if str_eq(arg, "-v") || eq_ignore_ascii_case(arg, "--verbose") {
        Some(ArgFlag::Verbose)
    } else if str_eq(arg, "-s") || eq_ignore_ascii_case(arg, "--silent") {
        Some(ArgFlag::Silent)
    } else if str_eq(arg, "-x") || eq_ignore_ascii_case(arg, "--host") {
        Some(ArgFlag::Host)
    } else if str_eq(arg, "-S") || eq_ignore_ascii_case(arg, "--shutdown") {
        Some(ArgFlag::Shutdown)
    } else if str_eq(arg, "-c") || eq_ignore_ascii_case(arg, "--credentials") {
        Some(ArgFlag::Credentials)
    } else if str_eq(arg, "-l") || eq_ignore_ascii_case(arg, "--list-socks5") {
        Some(ArgFlag::ListSocks5)
    } else if str_eq(arg, "-k") || eq_ignore_ascii_case(arg, "--add-socks5") {
        Some(ArgFlag::AddSocks5)
    } else if str_eq(arg, "-r") || eq_ignore_ascii_case(arg, "--remove-socks5") {
        Some(ArgFlag::RemoveSocks5)
    } else if str_eq(arg, "-L") || eq_ignore_ascii_case(arg, "--list-sandstr") {
        Some(ArgFlag::ListSandstorm)
    } else if str_eq(arg, "-K") || eq_ignore_ascii_case(arg, "--add-sandstr") {
        Some(ArgFlag::AddSandstorm)
    } else if str_eq(arg, "-R") || eq_ignore_ascii_case(arg, "--remove-sandstr") {
        Some(ArgFlag::RemoveSandstorm)
    } else if str_eq(arg, "-t") || eq_ignore_ascii_case(arg, "--list-users") {
        Some(ArgFlag::ListUsers)
    } else if str_eq(arg, "-u") || eq_ignore_ascii_case(arg, "--add-user") {
        Some(ArgFlag::AddUser)
    } else if str_eq(arg, "-p") || eq_ignore_ascii_case(arg, "--update-user") {
        Some(ArgFlag::UpdateUser)
    } else if str_eq(arg, "-d") || eq_ignore_ascii_case(arg, "--delete-user") {
        Some(ArgFlag::DeleteUser)
    } else if str_eq(arg, "-z") || eq_ignore_ascii_case(arg, "--list-auth") {
        Some(ArgFlag::ListAuth)
    } else if str_eq(arg, "-A") || eq_ignore_ascii_case(arg, "--auth-enable") {
        Some(ArgFlag::AuthEnable)
    } else if str_eq(arg, "-a") || eq_ignore_ascii_case(arg, "--auth-disable") {
        Some(ArgFlag::AuthDisable)
    } else if str_eq(arg, "-m") || eq_ignore_ascii_case(arg, "--get-metrics") {
        Some(ArgFlag::GetMetrics)
    } else if str_eq(arg, "-B") || eq_ignore_ascii_case(arg, "--get-buffer-size") {
        Some(ArgFlag::GetBufferSize)
    } else if str_eq(arg, "-b") || eq_ignore_ascii_case(arg, "--set-buffer-size") {
        Some(ArgFlag::SetBufferSize)
    } else if str_eq(arg, "-w") || eq_ignore_ascii_case(arg, "--meow") {
        Some(ArgFlag::Meow)
    } else if str_eq(arg, "-o") || eq_ignore_ascii_case(arg, "--output-logs") {
        Some(ArgFlag::OutputLogs)
    } else if str_eq(arg, "-i") || eq_ignore_ascii_case(arg, "--interactive") {
        Some(ArgFlag::Interactive)
    } else {
        None
    }
}


/// What parsing the arguments comes to: either an address text that must be resolved before
/// parsing can go on, or the final result.
#[derive(Debug, PartialEq, Eq)]
pub enum ParseOutcome<S = String, A = StartupArguments> {
    NeedsResolution { address: S, default_port: u16 },
    Done(Result<ArgumentsRequest<A>, ArgumentsError<S>>),
}

impl View for ParseOutcome {
    type V = ParseOutcome<Seq<char>, SpecStartupArguments>;

    open spec fn view(&self) -> ParseOutcome<Seq<char>, SpecStartupArguments> {
        match self {
            ParseOutcome::NeedsResolution { address, default_port } => ParseOutcome::NeedsResolution {
                address: address@,
                default_port: *default_port,
            },
            ParseOutcome::Done(Ok(r)) => ParseOutcome::Done(Ok(r@)),
            ParseOutcome::Done(Err(e)) => ParseOutcome::Done(Err(e@)),
        }
    }
}

pub type SpecOutcome = ParseOutcome<Seq<char>, SpecStartupArguments>;

/// One step of parsing: stop with an outcome, or go on from argument `next_i` having used
/// `next_k` resolutions, with the arguments gathered so far.
pub enum SpecStep {
    Stop(SpecOutcome),
    Continue(int, int, SpecStartupArguments),
}

pub open spec fn stop_err(e: ArgumentsError<Seq<char>>) -> SpecStep {
    SpecStep::Stop(ParseOutcome::Done(Err(e)))
}

/// The argument after position `i`, if any.
pub open spec fn value_after(args: Seq<Seq<char>>, i: int) -> Option<Seq<char>> {
    if i + 1 < args.len() {
        Some(args[i + 1])
    } else {
        None
    }
}

/// The requests that each address of `addrs` gives, in order.
pub open spec fn socket_requests(flag: ArgFlag, addrs: Seq<SocketAddress>) -> Seq<CommandRequest<Seq<char>>> {
    addrs.map_values(|a: SocketAddress| socket_request(flag, a))
}

/// The request a socket option gives for one address.
pub open spec fn socket_request(flag: ArgFlag, a: SocketAddress) -> CommandRequest<Seq<char>> {
    match flag {
        ArgFlag::AddSocks5 => CommandRequest::AddSocks5Socket(a),
        ArgFlag::RemoveSocks5 => CommandRequest::RemoveSocks5Socket(a),
        ArgFlag::AddSandstorm => CommandRequest::AddSandstormSocket(a),
        _ => CommandRequest::RemoveSandstormSocket(a),
    }
}

/// The error a socket option gives.
pub open spec fn socket_error(flag: ArgFlag, e: SocketErrorType<Seq<char>>) -> ArgumentsError<Seq<char>> {
    match flag {
        ArgFlag::Host => ArgumentsError::HostError(e),
        ArgFlag::AddSocks5 => ArgumentsError::AddSocks5Error(e),
        ArgFlag::RemoveSocks5 => ArgumentsError::RemoveSocks5Error(e),
        ArgFlag::AddSandstorm => ArgumentsError::AddSandstormError(e),
        _ => ArgumentsError::RemoveSandstormError(e),
    }
}

/// The default port of the addresses a socket option names.
pub open spec fn socket_default_port(flag: ArgFlag) -> u16 {
    match flag {
        ArgFlag::AddSocks5 | ArgFlag::RemoveSocks5 => DEFAULT_SOCKS5_PORT,
        _ => DEFAULT_SANDSTORM_PORT,
    }
}

/// The request a plain option (one without a value) adds.
pub open spec fn plain_request(flag: ArgFlag) -> Option<CommandRequest<Seq<char>>> {
    match flag {
        ArgFlag::Shutdown => Some(CommandRequest::Shutdown),
        ArgFlag::ListSocks5 => Some(CommandRequest::ListSocks5Sockets),
        ArgFlag::ListSandstorm => Some(CommandRequest::ListSandstormSockets),
        ArgFlag::ListUsers => Some(CommandRequest::ListUsers),
        ArgFlag::ListAuth => Some(CommandRequest::ListAuthMethods),
        ArgFlag::GetMetrics => Some(CommandRequest::GetMetrics),
        ArgFlag::GetBufferSize => Some(CommandRequest::GetBufferSize),
        ArgFlag::Meow => Some(CommandRequest::Meow),
        _ => None,
    }
}

/// Whether the option takes a socket address.
pub open spec fn is_socket_flag(flag: ArgFlag) -> bool {
    flag == ArgFlag::Host || flag == ArgFlag::AddSocks5 || flag == ArgFlag::RemoveSocks5 || flag
        == ArgFlag::AddSandstorm || flag == ArgFlag::RemoveSandstorm
}

/// The step taken on a socket option at position `i`, with `k` resolutions used so far.
pub open spec fn socket_step(
    flag: ArgFlag,
    args: Seq<Seq<char>>,
    res: Seq<Option<Seq<SocketAddress>>>,
    i: int,
    k: int,
    acc: SpecStartupArguments,
) -> SpecStep {
    let arg = args[i];
    match value_after(args, i) {
        None => stop_err(socket_error(flag, SocketErrorType::UnexpectedEnd(arg))),
        Some(v) => if k >= res.len() {
            SpecStep::Stop(ParseOutcome::NeedsResolution { address: v, default_port: socket_default_port(flag) })
        } else {
            let base = if flag == ArgFlag::Host { acc.server_address } else { Seq::empty() };
            match parse_socket_spec(base, arg, Some(v), res[k]) {
                Err(e) => stop_err(socket_error(flag, e)),
                Ok(sv) => if flag == ArgFlag::Host {
                    SpecStep::Continue(i + 2, k + 1, SpecStartupArguments { server_address: sv, ..acc })
                } else {
                    SpecStep::Continue(
                        i + 2,
                        k + 1,
                        SpecStartupArguments { requests: acc.requests + socket_requests(flag, sv), ..acc },
                    )
                },
            }
        },
    }
}

/// The step taken on the argument at position `i` (which is within `args`).
pub open spec fn parse_step(
    args: Seq<Seq<char>>,
    res: Seq<Option<Seq<SocketAddress>>>,
    i: int,
    k: int,
    acc: SpecStartupArguments,
) -> SpecStep {
    let arg = args[i];
    let val = value_after(args, i);
    if arg.len() == 0 {
        SpecStep::Continue(i + 1, k, acc)
    } else {
        match flag_spec(arg) {
            None => stop_err(ArgumentsError::UnknownArgument(arg)),
            Some(flag) => if flag == ArgFlag::Help {
                SpecStep::Stop(ParseOutcome::Done(Ok(ArgumentsRequest::Help)))
            } else if flag == ArgFlag::Version {
                SpecStep::Stop(ParseOutcome::Done(Ok(ArgumentsRequest::Version)))
            } else if flag == ArgFlag::Verbose {
                SpecStep::Continue(i + 1, k, SpecStartupArguments { verbose: true, ..acc })
            } else if flag == ArgFlag::Silent {
                SpecStep::Continue(i + 1, k, SpecStartupArguments { silent: true, ..acc })
            } else if is_socket_flag(flag) {
                socket_step(flag, args, res, i, k, acc)
            } else if plain_request(flag) is Some {
                SpecStep::Continue(i + 1, k, SpecStartupArguments { requests: acc.requests.push(plain_request(flag)->0), ..acc })
            } else if flag == ArgFlag::Credentials {
                match parse_credentials_spec(acc.login_credentials.0.len() != 0, arg, val) {
                    Err(e) => stop_err(ArgumentsError::CredentialsError(e)),
                    Ok(c) => SpecStep::Continue(i + 2, k, SpecStartupArguments { login_credentials: c, ..acc }),
                }
            } else if flag == ArgFlag::AddUser {
                match parse_add_user_spec(arg, val) {
                    Err(e) => stop_err(ArgumentsError::AddUserError(e)),
                    Ok((u, p, r)) => SpecStep::Continue(
                        i + 2,
                        k,
                        SpecStartupArguments { requests: acc.requests.push(CommandRequest::AddUser(u, p, r)), ..acc },
                    ),
                }
            } else if flag == ArgFlag::UpdateUser {
                match parse_update_user_spec(arg, val) {
                    Err(e) => stop_err(ArgumentsError::UpdateUserError(e)),
                    Ok((u, p, r)) => SpecStep::Continue(
                        i + 2,
                        k,
                        SpecStartupArguments { requests: acc.requests.push(CommandRequest::UpdateUser(u, p, r)), ..acc },
                    ),
                }
            } else if flag == ArgFlag::DeleteUser {
                match parse_delete_user_spec(arg, val) {
                    Err(e) => stop_err(ArgumentsError::DeleteUserError(e)),
                    Ok(u) => SpecStep::Continue(
                        i + 2,
                        k,
                        SpecStartupArguments { requests: acc.requests.push(CommandRequest::DeleteUser(u)), ..acc },
                    ),
                }
            } else if flag == ArgFlag::AuthEnable || flag == ArgFlag::AuthDisable {
                match parse_auth_arg_spec(arg, val) {
                    Err(e) => stop_err(ArgumentsError::AuthToggleError(e)),
                    Ok(m) => SpecStep::Continue(
                        i + 2,
                        k,
                        SpecStartupArguments {
                            requests: acc.requests.push(CommandRequest::ToggleAuthMethod(m, flag == ArgFlag::AuthEnable)),
                            ..acc
                        },
                    ),
                }
            } else if flag == ArgFlag::SetBufferSize {
                match parse_buffer_size_spec(arg, val) {
                    Err(e) => stop_err(ArgumentsError::BufferSizeError(e)),
                    Ok(n) => SpecStep::Continue(
                        i + 2,
                        k,
                        SpecStartupArguments { requests: acc.requests.push(CommandRequest::SetBufferSize(n)), ..acc },
                    ),
                }
            } else if flag == ArgFlag::OutputLogs {
                if acc.interactive {
                    stop_err(ArgumentsError::CantMixOutputAndInteractive)
                } else {
                    SpecStep::Continue(i + 1, k, SpecStartupArguments { output_logs: true, ..acc })
                }
            } else {
                if acc.output_logs {
                    stop_err(ArgumentsError::CantMixOutputAndInteractive)
                } else {
                    SpecStep::Continue(i + 1, k, SpecStartupArguments { interactive: true, ..acc })
                }
            },
        }
    }
}

/// The outcome once every argument was read: credentials come from the environment when none
/// were given, and the server address defaults to localhost.
pub open spec fn finish_spec(acc: SpecStartupArguments, env: EnvCredentials<Seq<char>>) -> SpecOutcome {
    if acc.login_credentials.0.len() == 0 {
        match parse_env_credentials_spec(env) {
            Err(e) => ParseOutcome::Done(Err(ArgumentsError::EnvCredentialsError(e))),
            Ok(None) => ParseOutcome::Done(Err(ArgumentsError::NoCredentialsSpecified)),
            Ok(Some(c)) => ParseOutcome::Done(
                Ok(ArgumentsRequest::Run(with_defaults(SpecStartupArguments { login_credentials: c, ..acc }))),
            ),
        }
    } else {
        ParseOutcome::Done(Ok(ArgumentsRequest::Run(with_defaults(acc))))
    }
}

/// The outcome of parsing from argument `i` on, with `k` resolutions used and `acc` gathered.
pub open spec fn parse_from(
    args: Seq<Seq<char>>,
    res: Seq<Option<Seq<SocketAddress>>>,
    env: EnvCredentials<Seq<char>>,
    i: int,
    k: int,
    acc: SpecStartupArguments,
) -> SpecOutcome
    decreases args.len() - i,
{
    if i < 0 || i >= args.len() {
        finish_spec(acc, env)
    } else {
        match parse_step(args, res, i, k, acc) {
            SpecStep::Stop(o) => o,
            SpecStep::Continue(i2, k2, acc2) => if i2 > i {
                parse_from(args, res, env, i2, k2, acc2)
            } else {
                finish_spec(acc2, env)
            },
        }
    }
}

/// An argument equal, ignoring ASCII case, to one text is not so equal to another text that
/// differs from the first at some position, ignoring case.
proof fn lemma_ci_distinct(a: Seq<char>, x: Seq<char>, y: Seq<char>, j: int)
    requires
        ascii_ci_eq_spec(a, x),
        0 <= j < x.len(),
        j < y.len(),
        ascii_lower_code(x[j]) != ascii_lower_code(y[j]),
    ensures
        !ascii_ci_eq_spec(a, y),
{
    if ascii_ci_eq_spec(a, y) {
        assert(ascii_lower_code(a[j]) == ascii_lower_code(x[j]));
        assert(ascii_lower_code(a[j]) == ascii_lower_code(y[j]));
    }
}

/// An argument naming an option by its short form, or by its long form in any ASCII case, is
/// read as that option.
proof fn lemma_flag_names(a: Seq<char>)
    ensures
        (a == "-h"@ || ascii_ci_eq_spec(a, "--help"@)) ==> flag_spec(a) == Some(ArgFlag::Help),
        (a == "-V"@ || ascii_ci_eq_spec(a, "--version"@)) ==> flag_spec(a) == Some(ArgFlag::Version),
        (a == "-v"@ || ascii_ci_eq_spec(a, "--verbose"@)) ==> flag_spec(a) == Some(ArgFlag::Verbose),
        (a == "-s"@ || ascii_ci_eq_spec(a, "--silent"@)) ==> flag_spec(a) == Some(ArgFlag::Silent),
        (a == "-x"@ || ascii_ci_eq_spec(a, "--host"@)) ==> flag_spec(a) == Some(ArgFlag::Host),
        (a == "-S"@ || ascii_ci_eq_spec(a, "--shutdown"@)) ==> flag_spec(a) == Some(ArgFlag::Shutdown),
        (a == "-c"@ || ascii_ci_eq_spec(a, "--credentials"@)) ==> flag_spec(a) == Some(ArgFlag::Credentials),
        (a == "-l"@ || ascii_ci_eq_spec(a, "--list-socks5"@)) ==> flag_spec(a) == Some(ArgFlag::ListSocks5),
        (a == "-k"@ || ascii_ci_eq_spec(a, "--add-socks5"@)) ==> flag_spec(a) == Some(ArgFlag::AddSocks5),
        (a == "-r"@ || ascii_ci_eq_spec(a, "--remove-socks5"@)) ==> flag_spec(a) == Some(ArgFlag::RemoveSocks5),
        (a == "-L"@ || ascii_ci_eq_spec(a, "--list-sandstr"@)) ==> flag_spec(a) == Some(ArgFlag::ListSandstorm),
        (a == "-K"@ || ascii_ci_eq_spec(a, "--add-sandstr"@)) ==> flag_spec(a) == Some(ArgFlag::AddSandstorm),
        (a == "-R"@ || ascii_ci_eq_spec(a, "--remove-sandstr"@)) ==> flag_spec(a) == Some(ArgFlag::RemoveSandstorm),
        (a == "-t"@ || ascii_ci_eq_spec(a, "--list-users"@)) ==> flag_spec(a) == Some(ArgFlag::ListUsers),
        (a == "-u"@ || ascii_ci_eq_spec(a, "--add-user"@)) ==> flag_spec(a) == Some(ArgFlag::AddUser),
        (a == "-p"@ || ascii_ci_eq_spec(a, "--update-user"@)) ==> flag_spec(a) == Some(ArgFlag::UpdateUser),
        (a == "-d"@ || ascii_ci_eq_spec(a, "--delete-user"@)) ==> flag_spec(a) == Some(ArgFlag::DeleteUser),
        (a == "-z"@ || ascii_ci_eq_spec(a, "--list-auth"@)) ==> flag_spec(a) == Some(ArgFlag::ListAuth),
        (a == "-A"@ || ascii_ci_eq_spec(a, "--auth-enable"@)) ==> flag_spec(a) == Some(ArgFlag::AuthEnable),
        (a == "-a"@ || ascii_ci_eq_spec(a, "--auth-disable"@)) ==> flag_spec(a) == Some(ArgFlag::AuthDisable),
        (a == "-m"@ || ascii_ci_eq_spec(a, "--get-metrics"@)) ==> flag_spec(a) == Some(ArgFlag::GetMetrics),
        (a == "-B"@ || ascii_ci_eq_spec(a, "--get-buffer-size"@)) ==> flag_spec(a) == Some(ArgFlag::GetBufferSize),
        (a == "-b"@ || ascii_ci_eq_spec(a, "--set-buffer-size"@)) ==> flag_spec(a) == Some(ArgFlag::SetBufferSize),
        (a == "-w"@ || ascii_ci_eq_spec(a, "--meow"@)) ==> flag_spec(a) == Some(ArgFlag::Meow),
        (a == "-o"@ || ascii_ci_eq_spec(a, "--output-logs"@)) ==> flag_spec(a) == Some(ArgFlag::OutputLogs),
        (a == "-i"@ || ascii_ci_eq_spec(a, "--interactive"@)) ==> flag_spec(a) == Some(ArgFlag::Interactive),
{
    reveal_strlit("-h");
    reveal_strlit("--help");
    reveal_strlit("-V");
    reveal_strlit("--version");
    reveal_strlit("-v");
    reveal_strlit("--verbose");
    reveal_strlit("-s");
    reveal_strlit("--silent");
    reveal_strlit("-x");
    reveal_strlit("--host");
    reveal_strlit("-S");
    reveal_strlit("--shutdown");
    reveal_strlit("-c");
    reveal_strlit("--credentials");
    reveal_strlit("-l");
    reveal_strlit("--list-socks5");
    reveal_strlit("-k");
    reveal_strlit("--add-socks5");
    reveal_strlit("-r");
    reveal_strlit("--remove-socks5");
    reveal_strlit("-L");
    reveal_strlit("--list-sandstr");
    reveal_strlit("-K");
    reveal_strlit("--add-sandstr");
    reveal_strlit("-R");
    reveal_strlit("--remove-sandstr");
    reveal_strlit("-t");
    reveal_strlit("--list-users");
    reveal_strlit("-u");
    reveal_strlit("--add-user");
    reveal_strlit("-p");
    reveal_strlit("--update-user");
    reveal_strlit("-d");
    reveal_strlit("--delete-user");
    reveal_strlit("-z");
    reveal_strlit("--list-auth");
    reveal_strlit("-A");
    reveal_strlit("--auth-enable");
    reveal_strlit("-a");
    reveal_strlit("--auth-disable");
    reveal_strlit("-m");
    reveal_strlit("--get-metrics");
    reveal_strlit("-B");
    reveal_strlit("--get-buffer-size");
    reveal_strlit("-b");
    reveal_strlit("--set-buffer-size");
    reveal_strlit("-w");
    reveal_strlit("--meow");
    reveal_strlit("-o");
    reveal_strlit("--output-logs");
    reveal_strlit("-i");
    reveal_strlit("--interactive");
    if a == "-h"@ {
        assert(a[1] == 'h');
        assert(flag_spec(a) == Some(ArgFlag::Help));
    }
    if ascii_ci_eq_spec(a, "--help"@) {
        assert(flag_spec(a) == Some(ArgFlag::Help));
    }
    if a == "-V"@ {
        assert(a[1] == 'V');
        assert("-h"@[1] != a[1]);
        assert(flag_spec(a) == Some(ArgFlag::Version));
    }
    if ascii_ci_eq_spec(a, "--version"@) {
        assert(flag_spec(a) == Some(ArgFlag::Version));
    }
    if a == "-v"@ {
        assert(a[1] == 'v');
        assert("-h"@[1] != a[1]);
        assert("-V"@[1] != a[1]);
        assert(flag_spec(a) == Some(ArgFlag::Verbose));
    }
    if ascii_ci_eq_spec(a, "--verbose"@) {
        lemma_ci_distinct(a, "--verbose"@, "--version"@, 5);
        assert(flag_spec(a) == Some(ArgFlag::Verbose));
    }
    if a == "-s"@ {
        assert(a[1] == 's');
        assert("-h"@[1] != a[1]);
        assert("-V"@[1] != a[1]);
        assert("-v"@[1] != a[1]);
        assert(flag_spec(a) == Some(ArgFlag::Silent));
    }
    if ascii_ci_eq_spec(a, "--silent"@) {
        assert(flag_spec(a) == Some(ArgFlag::Silent));
    }
    if a == "-x"@ {
        assert(a[1] == 'x');
        assert("-h"@[1] != a[1]);
        assert("-V"@[1] != a[1]);
        assert("-v"@[1] != a[1]);
        assert("-s"@[1] != a[1]);
        assert(flag_spec(a) == Some(ArgFlag::Host));
    }
    if ascii_ci_eq_spec(a, "--host"@) {
        lemma_ci_distinct(a, "--host"@, "--help"@, 3);
        assert(flag_spec(a) == Some(ArgFlag::Host));
    }
    if a == "-S"@ {
        assert(a[1] == 'S');
        assert("-h"@[1] != a[1]);
        assert("-V"@[1] != a[1]);
        assert("-v"@[1] != a[1]);
        assert("-s"@[1] != a[1]);
        assert("-x"@[1] != a[1]);
        assert(flag_spec(a) == Some(ArgFlag::Shutdown));
    }
    if ascii_ci_eq_spec(a, "--shutdown"@) {
        assert(flag_spec(a) == Some(ArgFlag::Shutdown));
    }
    if a == "-c"@ {
        assert(a[1] == 'c');
        assert("-h"@[1] != a[1]);
        assert("-V"@[1] != a[1]);
        assert("-v"@[1] != a[1]);
        assert("-s"@[1] != a[1]);
        assert("-x"@[1] != a[1]);
        assert("-S"@[1] != a[1]);
        assert(flag_spec(a) == Some(ArgFlag::Credentials));
    }
    if ascii_ci_eq_spec(a, "--credentials"@) {
        assert(flag_spec(a) == Some(ArgFlag::Credentials));
    }
    if a == "-l"@ {
        assert(a[1] == 'l');
        assert("-h"@[1] != a[1]);
        assert("-V"@[1] != a[1]);
        assert("-v"@[1] != a[1]);
        assert("-s"@[1] != a[1]);
        assert("-x"@[1] != a[1]);
        assert("-S"@[1] != a[1]);
        assert("-c"@[1] != a[1]);
        assert(flag_spec(a) == Some(ArgFlag::ListSocks5));
    }
    if ascii_ci_eq_spec(a, "--list-socks5"@) {
        lemma_ci_distinct(a, "--list-socks5"@, "--credentials"@, 2);
        assert(flag_spec(a) == Some(ArgFlag::ListSocks5));
    }
    if a == "-k"@ {
        assert(a[1] == 'k');
        assert("-h"@[1] != a[1]);
        assert("-V"@[1] != a[1]);
        assert("-v"@[1] != a[1]);
        assert("-s"@[1] != a[1]);
        assert("-x"@[1] != a[1]);
        assert("-S"@[1] != a[1]);
        assert("-c"@[1] != a[1]);
        assert("-l"@[1] != a[1]);
        assert(flag_spec(a) == Some(ArgFlag::AddSocks5));
    }
    if ascii_ci_eq_spec(a, "--add-socks5"@) {
        assert(flag_spec(a) == Some(ArgFlag::AddSocks5));
    }
    if a == "-r"@ {
        assert(a[1] == 'r');
        assert("-h"@[1] != a[1]);
        assert("-V"@[1] != a[1]);
        assert("-v"@[1] != a[1]);
        assert("-s"@[1] != a[1]);
        assert("-x"@[1] != a[1]);
        assert("-S"@[1] != a[1]);
        assert("-c"@[1] != a[1]);
        assert("-l"@[1] != a[1]);
        assert("-k"@[1] != a[1]);
        assert(flag_spec(a) == Some(ArgFlag::RemoveSocks5));
    }
    if ascii_ci_eq_spec(a, "--remove-socks5"@) {
        assert(flag_spec(a) == Some(ArgFlag::RemoveSocks5));
    }
    if a == "-L"@ {
        assert(a[1] == 'L');
        assert("-h"@[1] != a[1]);
        assert("-V"@[1] != a[1]);
        assert("-v"@[1] != a[1]);
        assert("-s"@[1] != a[1]);
        assert("-x"@[1] != a[1]);
        assert("-S"@[1] != a[1]);
        assert("-c"@[1] != a[1]);
        assert("-l"@[1] != a[1]);
        assert("-k"@[1] != a[1]);
        assert("-r"@[1] != a[1]);
        assert(flag_spec(a) == Some(ArgFlag::ListSandstorm));
    }
    if ascii_ci_eq_spec(a, "--list-sandstr"@) {
        assert(flag_spec(a) == Some(ArgFlag::ListSandstorm));
    }
    if a == "-K"@ {
        assert(a[1] == 'K');
        assert("-h"@[1] != a[1]);
        assert("-V"@[1] != a[1]);
        assert("-v"@[1] != a[1]);
        assert("-s"@[1] != a[1]);
        assert("-x"@[1] != a[1]);
        assert("-S"@[1] != a[1]);
        assert("-c"@[1] != a[1]);
        assert("-l"@[1] != a[1]);
        assert("-k"@[1] != a[1]);
        assert("-r"@[1] != a[1]);
        assert("-L"@[1] != a[1]);
        assert(flag_spec(a) == Some(ArgFlag::AddSandstorm));
    }
    if ascii_ci_eq_spec(a, "--add-sandstr"@) {
        lemma_ci_distinct(a, "--add-sandstr"@, "--credentials"@, 2);
        lemma_ci_distinct(a, "--add-sandstr"@, "--list-socks5"@, 2);
        assert(flag_spec(a) == Some(ArgFlag::AddSandstorm));
    }
    if a == "-R"@ {
        assert(a[1] == 'R');
        assert("-h"@[1] != a[1]);
        assert("-V"@[1] != a[1]);
        assert("-v"@[1] != a[1]);
        assert("-s"@[1] != a[1]);
        assert("-x"@[1] != a[1]);
        assert("-S"@[1] != a[1]);
        assert("-c"@[1] != a[1]);
        assert("-l"@[1] != a[1]);
        assert("-k"@[1] != a[1]);
        assert("-r"@[1] != a[1]);
        assert("-L"@[1] != a[1]);
        assert("-K"@[1] != a[1]);
        assert(flag_spec(a) == Some(ArgFlag::RemoveSandstorm));
    }
    if ascii_ci_eq_spec(a, "--remove-sandstr"@) {
        assert(flag_spec(a) == Some(ArgFlag::RemoveSandstorm));
    }
    if a == "-t"@ {
        assert(a[1] == 't');
        assert("-h"@[1] != a[1]);
        assert("-V"@[1] != a[1]);
        assert("-v"@[1] != a[1]);
        assert("-s"@[1] != a[1]);
        assert("-x"@[1] != a[1]);
        assert("-S"@[1] != a[1]);
        assert("-c"@[1] != a[1]);
        assert("-l"@[1] != a[1]);
        assert("-k"@[1] != a[1]);
        assert("-r"@[1] != a[1]);
        assert("-L"@[1] != a[1]);
        assert("-K"@[1] != a[1]);
        assert("-R"@[1] != a[1]);
        assert(flag_spec(a) == Some(ArgFlag::ListUsers));
    }
    if ascii_ci_eq_spec(a, "--list-users"@) {
        lemma_ci_distinct(a, "--list-users"@, "--add-socks5"@, 2);
        assert(flag_spec(a) == Some(ArgFlag::ListUsers));
    }
    if a == "-u"@ {
        assert(a[1] == 'u');
        assert("-h"@[1] != a[1]);
        assert("-V"@[1] != a[1]);
        assert("-v"@[1] != a[1]);
        assert("-s"@[1] != a[1]);
        assert("-x"@[1] != a[1]);
        assert("-S"@[1] != a[1]);
        assert("-c"@[1] != a[1]);
        assert("-l"@[1] != a[1]);
        assert("-k"@[1] != a[1]);
        assert("-r"@[1] != a[1]);
        assert("-L"@[1] != a[1]);
        assert("-K"@[1] != a[1]);
        assert("-R"@[1] != a[1]);
        assert("-t"@[1] != a[1]);
        assert(flag_spec(a) == Some(ArgFlag::AddUser));
    }
    if ascii_ci_eq_spec(a, "--add-user"@) {
        lemma_ci_distinct(a, "--add-user"@, "--shutdown"@, 2);
        assert(flag_spec(a) == Some(ArgFlag::AddUser));
    }
    if a == "-p"@ {
        assert(a[1] == 'p');
        assert("-h"@[1] != a[1]);
        assert("-V"@[1] != a[1]);
        assert("-v"@[1] != a[1]);
        assert("-s"@[1] != a[1]);
        assert("-x"@[1] != a[1]);
        assert("-S"@[1] != a[1]);
        assert("-c"@[1] != a[1]);
        assert("-l"@[1] != a[1]);
        assert("-k"@[1] != a[1]);
        assert("-r"@[1] != a[1]);
        assert("-L"@[1] != a[1]);
        assert("-K"@[1] != a[1]);
        assert("-R"@[1] != a[1]);
        assert("-t"@[1] != a[1]);
        assert("-u"@[1] != a[1]);
        assert(flag_spec(a) == Some(ArgFlag::UpdateUser));
    }
    if ascii_ci_eq_spec(a, "--update-user"@) {
        lemma_ci_distinct(a, "--update-user"@, "--credentials"@, 2);
        lemma_ci_distinct(a, "--update-user"@, "--list-socks5"@, 2);
        lemma_ci_distinct(a, "--update-user"@, "--add-sandstr"@, 2);
        assert(flag_spec(a) == Some(ArgFlag::UpdateUser));
    }
    if a == "-d"@ {
        assert(a[1] == 'd');
        assert("-h"@[1] != a[1]);
        assert("-V"@[1] != a[1]);
        assert("-v"@[1] != a[1]);
        assert("-s"@[1] != a[1]);
        assert("-x"@[1] != a[1]);
        assert("-S"@[1] != a[1]);
        assert("-c"@[1] != a[1]);
        assert("-l"@[1] != a[1]);
        assert("-k"@[1] != a[1]);
        assert("-r"@[1] != a[1]);
        assert("-L"@[1] != a[1]);
        assert("-K"@[1] != a[1]);
        assert("-R"@[1] != a[1]);
        assert("-t"@[1] != a[1]);
        assert("-u"@[1] != a[1]);
        assert("-p"@[1] != a[1]);
        assert(flag_spec(a) == Some(ArgFlag::DeleteUser));
    }
    if ascii_ci_eq_spec(a, "--delete-user"@) {
        lemma_ci_distinct(a, "--delete-user"@, "--credentials"@, 2);
        lemma_ci_distinct(a, "--delete-user"@, "--list-socks5"@, 2);
        lemma_ci_distinct(a, "--delete-user"@, "--add-sandstr"@, 2);
        lemma_ci_distinct(a, "--delete-user"@, "--update-user"@, 2);
        assert(flag_spec(a) == Some(ArgFlag::DeleteUser));
    }
    if a == "-z"@ {
        assert(a[1] == 'z');
        assert("-h"@[1] != a[1]);
        assert("-V"@[1] != a[1]);
        assert("-v"@[1] != a[1]);
        assert("-s"@[1] != a[1]);
        assert("-x"@[1] != a[1]);
        assert("-S"@[1] != a[1]);
        assert("-c"@[1] != a[1]);
        assert("-l"@[1] != a[1]);
        assert("-k"@[1] != a[1]);
        assert("-r"@[1] != a[1]);
        assert("-L"@[1] != a[1]);
        assert("-K"@[1] != a[1]);
        assert("-R"@[1] != a[1]);
        assert("-t"@[1] != a[1]);
        assert("-u"@[1] != a[1]);
        assert("-p"@[1] != a[1]);
        assert("-d"@[1] != a[1]);
        assert(flag_spec(a) == Some(ArgFlag::ListAuth));
    }
    if ascii_ci_eq_spec(a, "--list-auth"@) {
        assert(flag_spec(a) == Some(ArgFlag::ListAuth));
    }
    if a == "-A"@ {
        assert(a[1] == 'A');
        assert("-h"@[1] != a[1]);
        assert("-V"@[1] != a[1]);
        assert("-v"@[1] != a[1]);
        assert("-s"@[1] != a[1]);
        assert("-x"@[1] != a[1]);
        assert("-S"@[1] != a[1]);
        assert("-c"@[1] != a[1]);
        assert("-l"@[1] != a[1]);
        assert("-k"@[1] != a[1]);
        assert("-r"@[1] != a[1]);
        assert("-L"@[1] != a[1]);
        assert("-K"@[1] != a[1]);
        assert("-R"@[1] != a[1]);
        assert("-t"@[1] != a[1]);
        assert("-u"@[1] != a[1]);
        assert("-p"@[1] != a[1]);
        assert("-d"@[1] != a[1]);
        assert("-z"@[1] != a[1]);
        assert(flag_spec(a) == Some(ArgFlag::AuthEnable));
    }
    if ascii_ci_eq_spec(a, "--auth-enable"@) {
        lemma_ci_distinct(a, "--auth-enable"@, "--credentials"@, 2);
        lemma_ci_distinct(a, "--auth-enable"@, "--list-socks5"@, 2);
        lemma_ci_distinct(a, "--auth-enable"@, "--add-sandstr"@, 3);
        lemma_ci_distinct(a, "--auth-enable"@, "--update-user"@, 2);
        lemma_ci_distinct(a, "--auth-enable"@, "--delete-user"@, 2);
        assert(flag_spec(a) == Some(ArgFlag::AuthEnable));
    }
    if a == "-a"@ {
        assert(a[1] == 'a');
        assert("-h"@[1] != a[1]);
        assert("-V"@[1] != a[1]);
        assert("-v"@[1] != a[1]);
        assert("-s"@[1] != a[1]);
        assert("-x"@[1] != a[1]);
        assert("-S"@[1] != a[1]);
        assert("-c"@[1] != a[1]);
        assert("-l"@[1] != a[1]);
        assert("-k"@[1] != a[1]);
        assert("-r"@[1] != a[1]);
        assert("-L"@[1] != a[1]);
        assert("-K"@[1] != a[1]);
        assert("-R"@[1] != a[1]);
        assert("-t"@[1] != a[1]);
        assert("-u"@[1] != a[1]);
        assert("-p"@[1] != a[1]);
        assert("-d"@[1] != a[1]);
        assert("-z"@[1] != a[1]);
        assert("-A"@[1] != a[1]);
        assert(flag_spec(a) == Some(ArgFlag::AuthDisable));
    }
    if ascii_ci_eq_spec(a, "--auth-disable"@) {
        lemma_ci_distinct(a, "--auth-disable"@, "--list-sandstr"@, 2);
        assert(flag_spec(a) == Some(ArgFlag::AuthDisable));
    }
    if a == "-m"@ {
        assert(a[1] == 'm');
        assert("-h"@[1] != a[1]);
        assert("-V"@[1] != a[1]);
        assert("-v"@[1] != a[1]);
        assert("-s"@[1] != a[1]);
        assert("-x"@[1] != a[1]);
        assert("-S"@[1] != a[1]);
        assert("-c"@[1] != a[1]);
        assert("-l"@[1] != a[1]);
        assert("-k"@[1] != a[1]);
        assert("-r"@[1] != a[1]);
        assert("-L"@[1] != a[1]);
        assert("-K"@[1] != a[1]);
        assert("-R"@[1] != a[1]);
        assert("-t"@[1] != a[1]);
        assert("-u"@[1] != a[1]);
        assert("-p"@[1] != a[1]);
        assert("-d"@[1] != a[1]);
        assert("-z"@[1] != a[1]);
        assert("-A"@[1] != a[1]);
        assert("-a"@[1] != a[1]);
        assert(flag_spec(a) == Some(ArgFlag::GetMetrics));
    }
    if ascii_ci_eq_spec(a, "--get-metrics"@) {
        lemma_ci_distinct(a, "--get-metrics"@, "--credentials"@, 2);
        lemma_ci_distinct(a, "--get-metrics"@, "--list-socks5"@, 2);
        lemma_ci_distinct(a, "--get-metrics"@, "--add-sandstr"@, 2);
        lemma_ci_distinct(a, "--get-metrics"@, "--update-user"@, 2);
        lemma_ci_distinct(a, "--get-metrics"@, "--delete-user"@, 2);
        lemma_ci_distinct(a, "--get-metrics"@, "--auth-enable"@, 2);
        assert(flag_spec(a) == Some(ArgFlag::GetMetrics));
    }
    if a == "-B"@ {
        assert(a[1] == 'B');
        assert("-h"@[1] != a[1]);
        assert("-V"@[1] != a[1]);
        assert("-v"@[1] != a[1]);
        assert("-s"@[1] != a[1]);
        assert("-x"@[1] != a[1]);
        assert("-S"@[1] != a[1]);
        assert("-c"@[1] != a[1]);
        assert("-l"@[1] != a[1]);
        assert("-k"@[1] != a[1]);
        assert("-r"@[1] != a[1]);
        assert("-L"@[1] != a[1]);
        assert("-K"@[1] != a[1]);
        assert("-R"@[1] != a[1]);
        assert("-t"@[1] != a[1]);
        assert("-u"@[1] != a[1]);
        assert("-p"@[1] != a[1]);
        assert("-d"@[1] != a[1]);
        assert("-z"@[1] != a[1]);
        assert("-A"@[1] != a[1]);
        assert("-a"@[1] != a[1]);
        assert("-m"@[1] != a[1]);
        assert(flag_spec(a) == Some(ArgFlag::GetBufferSize));
    }
    if ascii_ci_eq_spec(a, "--get-buffer-size"@) {
        assert(flag_spec(a) == Some(ArgFlag::GetBufferSize));
    }
    if a == "-b"@ {
        assert(a[1] == 'b');
        assert("-h"@[1] != a[1]);
        assert("-V"@[1] != a[1]);
        assert("-v"@[1] != a[1]);
        assert("-s"@[1] != a[1]);
        assert("-x"@[1] != a[1]);
        assert("-S"@[1] != a[1]);
        assert("-c"@[1] != a[1]);
        assert("-l"@[1] != a[1]);
        assert("-k"@[1] != a[1]);
        assert("-r"@[1] != a[1]);
        assert("-L"@[1] != a[1]);
        assert("-K"@[1] != a[1]);
        assert("-R"@[1] != a[1]);
        assert("-t"@[1] != a[1]);
        assert("-u"@[1] != a[1]);
        assert("-p"@[1] != a[1]);
        assert("-d"@[1] != a[1]);
        assert("-z"@[1] != a[1]);
        assert("-A"@[1] != a[1]);
        assert("-a"@[1] != a[1]);
        assert("-m"@[1] != a[1]);
        assert("-B"@[1] != a[1]);
        assert(flag_spec(a) == Some(ArgFlag::SetBufferSize));
    }
    if ascii_ci_eq_spec(a, "--set-buffer-size"@) {
        lemma_ci_distinct(a, "--set-buffer-size"@, "--get-buffer-size"@, 2);
        assert(flag_spec(a) == Some(ArgFlag::SetBufferSize));
    }
    if a == "-w"@ {
        assert(a[1] == 'w');
        assert("-h"@[1] != a[1]);
        assert("-V"@[1] != a[1]);
        assert("-v"@[1] != a[1]);
        assert("-s"@[1] != a[1]);
        assert("-x"@[1] != a[1]);
        assert("-S"@[1] != a[1]);
        assert("-c"@[1] != a[1]);
        assert("-l"@[1] != a[1]);
        assert("-k"@[1] != a[1]);
        assert("-r"@[1] != a[1]);
        assert("-L"@[1] != a[1]);
        assert("-K"@[1] != a[1]);
        assert("-R"@[1] != a[1]);
        assert("-t"@[1] != a[1]);
        assert("-u"@[1] != a[1]);
        assert("-p"@[1] != a[1]);
        assert("-d"@[1] != a[1]);
        assert("-z"@[1] != a[1]);
        assert("-A"@[1] != a[1]);
        assert("-a"@[1] != a[1]);
        assert("-m"@[1] != a[1]);
        assert("-B"@[1] != a[1]);
        assert("-b"@[1] != a[1]);
        assert(flag_spec(a) == Some(ArgFlag::Meow));
    }
    if ascii_ci_eq_spec(a, "--meow"@) {
        lemma_ci_distinct(a, "--meow"@, "--help"@, 2);
        lemma_ci_distinct(a, "--meow"@, "--host"@, 2);
        assert(flag_spec(a) == Some(ArgFlag::Meow));
    }
    if a == "-o"@ {
        assert(a[1] == 'o');
        assert("-h"@[1] != a[1]);
        assert("-V"@[1] != a[1]);
        assert("-v"@[1] != a[1]);
        assert("-s"@[1] != a[1]);
        assert("-x"@[1] != a[1]);
        assert("-S"@[1] != a[1]);
        assert("-c"@[1] != a[1]);
        assert("-l"@[1] != a[1]);
        assert("-k"@[1] != a[1]);
        assert("-r"@[1] != a[1]);
        assert("-L"@[1] != a[1]);
        assert("-K"@[1] != a[1]);
        assert("-R"@[1] != a[1]);
        assert("-t"@[1] != a[1]);
        assert("-u"@[1] != a[1]);
        assert("-p"@[1] != a[1]);
        assert("-d"@[1] != a[1]);
        assert("-z"@[1] != a[1]);
        assert("-A"@[1] != a[1]);
        assert("-a"@[1] != a[1]);
        assert("-m"@[1] != a[1]);
        assert("-B"@[1] != a[1]);
        assert("-b"@[1] != a[1]);
        assert("-w"@[1] != a[1]);
        assert(flag_spec(a) == Some(ArgFlag::OutputLogs));
    }
    if ascii_ci_eq_spec(a, "--output-logs"@) {
        lemma_ci_distinct(a, "--output-logs"@, "--credentials"@, 2);
        lemma_ci_distinct(a, "--output-logs"@, "--list-socks5"@, 2);
        lemma_ci_distinct(a, "--output-logs"@, "--add-sandstr"@, 2);
        lemma_ci_distinct(a, "--output-logs"@, "--update-user"@, 2);
        lemma_ci_distinct(a, "--output-logs"@, "--delete-user"@, 2);
        lemma_ci_distinct(a, "--output-logs"@, "--auth-enable"@, 2);
        lemma_ci_distinct(a, "--output-logs"@, "--get-metrics"@, 2);
        assert(flag_spec(a) == Some(ArgFlag::OutputLogs));
    }
    if a == "-i"@ {
        assert(a[1] == 'i');
        assert("-h"@[1] != a[1]);
        assert("-V"@[1] != a[1]);
        assert("-v"@[1] != a[1]);
        assert("-s"@[1] != a[1]);
        assert("-x"@[1] != a[1]);
        assert("-S"@[1] != a[1]);
        assert("-c"@[1] != a[1]);
        assert("-l"@[1] != a[1]);
        assert("-k"@[1] != a[1]);
        assert("-r"@[1] != a[1]);
        assert("-L"@[1] != a[1]);
        assert("-K"@[1] != a[1]);
        assert("-R"@[1] != a[1]);
        assert("-t"@[1] != a[1]);
        assert("-u"@[1] != a[1]);
        assert("-p"@[1] != a[1]);
        assert("-d"@[1] != a[1]);
        assert("-z"@[1] != a[1]);
        assert("-A"@[1] != a[1]);
        assert("-a"@[1] != a[1]);
        assert("-m"@[1] != a[1]);
        assert("-B"@[1] != a[1]);
        assert("-b"@[1] != a[1]);
        assert("-w"@[1] != a[1]);
        assert("-o"@[1] != a[1]);
        assert(flag_spec(a) == Some(ArgFlag::Interactive));
    }
    if ascii_ci_eq_spec(a, "--interactive"@) {
        lemma_ci_distinct(a, "--interactive"@, "--credentials"@, 2);
        lemma_ci_distinct(a, "--interactive"@, "--list-socks5"@, 2);
        lemma_ci_distinct(a, "--interactive"@, "--add-sandstr"@, 2);
        lemma_ci_distinct(a, "--interactive"@, "--update-user"@, 2);
        lemma_ci_distinct(a, "--interactive"@, "--delete-user"@, 2);
        lemma_ci_distinct(a, "--interactive"@, "--auth-enable"@, 2);
        lemma_ci_distinct(a, "--interactive"@, "--get-metrics"@, 2);
        lemma_ci_distinct(a, "--interactive"@, "--output-logs"@, 2);
        assert(flag_spec(a) == Some(ArgFlag::Interactive));
    }
}

/// The options that ask for something without a value add the request they name, and parsing
/// goes on with the next argument: `-S` a shutdown, `-l` the list of SOCKS5 sockets, `-L` the
/// list of Sandstorm sockets, `-t` the list of users, `-z` the list of authentication methods,
/// `-m` the metrics, `-B` the buffer size and `-w` a meow (each also by its long form, in any
/// ASCII case).
pub proof fn lemma_request_options_add_their_requests(
    args: Seq<Seq<char>>,
    res: Seq<Option<Seq<SocketAddress>>>,
    env: EnvCredentials<Seq<char>>,
    i: int,
    k: int,
    acc: SpecStartupArguments,
)
    requires
        1 <= i < args.len(),
    ensures
        (args[i] == "-S"@ || ascii_ci_eq_spec(args[i], "--shutdown"@)) ==> parse_from(args, res, env, i, k, acc)
            == parse_from(args, res, env, i + 1, k, SpecStartupArguments { requests: acc.requests.push(CommandRequest::Shutdown), ..acc }),
        (args[i] == "-l"@ || ascii_ci_eq_spec(args[i], "--list-socks5"@)) ==> parse_from(args, res, env, i, k, acc)
            == parse_from(args, res, env, i + 1, k, SpecStartupArguments { requests: acc.requests.push(CommandRequest::ListSocks5Sockets), ..acc }),
        (args[i] == "-L"@ || ascii_ci_eq_spec(args[i], "--list-sandstr"@)) ==> parse_from(args, res, env, i, k, acc)
            == parse_from(args, res, env, i + 1, k, SpecStartupArguments { requests: acc.requests.push(CommandRequest::ListSandstormSockets), ..acc }),
        (args[i] == "-t"@ || ascii_ci_eq_spec(args[i], "--list-users"@)) ==> parse_from(args, res, env, i, k, acc)
            == parse_from(args, res, env, i + 1, k, SpecStartupArguments { requests: acc.requests.push(CommandRequest::ListUsers), ..acc }),
        (args[i] == "-z"@ || ascii_ci_eq_spec(args[i], "--list-auth"@)) ==> parse_from(args, res, env, i, k, acc)
            == parse_from(args, res, env, i + 1, k, SpecStartupArguments { requests: acc.requests.push(CommandRequest::ListAuthMethods), ..acc }),
        (args[i] == "-m"@ || ascii_ci_eq_spec(args[i], "--get-metrics"@)) ==> parse_from(args, res, env, i, k, acc)
            == parse_from(args, res, env, i + 1, k, SpecStartupArguments { requests: acc.requests.push(CommandRequest::GetMetrics), ..acc }),
        (args[i] == "-B"@ || ascii_ci_eq_spec(args[i], "--get-buffer-size"@)) ==> parse_from(args, res, env, i, k, acc)
            == parse_from(args, res, env, i + 1, k, SpecStartupArguments { requests: acc.requests.push(CommandRequest::GetBufferSize), ..acc }),
        (args[i] == "-w"@ || ascii_ci_eq_spec(args[i], "--meow"@)) ==> parse_from(args, res, env, i, k, acc)
            == parse_from(args, res, env, i + 1, k, SpecStartupArguments { requests: acc.requests.push(CommandRequest::Meow), ..acc }),
{
    lemma_flag_names(args[i]);
    reveal_strlit("-S");
    reveal_strlit("-l");
    reveal_strlit("-L");
    reveal_strlit("-t");
    reveal_strlit("-z");
    reveal_strlit("-m");
    reveal_strlit("-B");
    reveal_strlit("-w");
    reveal_strlit("--shutdown");
    reveal_strlit("--list-socks5");
    reveal_strlit("--list-sandstr");
    reveal_strlit("--list-users");
    reveal_strlit("--list-auth");
    reveal_strlit("--get-metrics");
    reveal_strlit("--get-buffer-size");
    reveal_strlit("--meow");
}

/// The options that set how the client runs do so, and parsing goes on with the next
/// argument: `-v` makes it verbose and `-s` silent; `-o` asks for the logs and `-i` for the
/// interactive mode, each refused once the other was asked for; `-h` and `-V` end parsing with
/// a request for the help or the version (each also by its long form, in any ASCII case).
pub proof fn lemma_mode_options_set_their_modes(
    args: Seq<Seq<char>>,
    res: Seq<Option<Seq<SocketAddress>>>,
    env: EnvCredentials<Seq<char>>,
    i: int,
    k: int,
    acc: SpecStartupArguments,
)
    requires
        1 <= i < args.len(),
    ensures
        (args[i] == "-v"@ || ascii_ci_eq_spec(args[i], "--verbose"@)) ==> parse_from(args, res, env, i, k, acc)
            == parse_from(args, res, env, i + 1, k, SpecStartupArguments { verbose: true, ..acc }),
        (args[i] == "-s"@ || ascii_ci_eq_spec(args[i], "--silent"@)) ==> parse_from(args, res, env, i, k, acc)
            == parse_from(args, res, env, i + 1, k, SpecStartupArguments { silent: true, ..acc }),
        (args[i] == "-o"@ || ascii_ci_eq_spec(args[i], "--output-logs"@)) ==> parse_from(args, res, env, i, k, acc)
            == if acc.interactive {
            ParseOutcome::Done(Err(ArgumentsError::CantMixOutputAndInteractive))
        } else {
            parse_from(args, res, env, i + 1, k, SpecStartupArguments { output_logs: true, ..acc })
        },
        (args[i] == "-i"@ || ascii_ci_eq_spec(args[i], "--interactive"@)) ==> parse_from(args, res, env, i, k, acc)
            == if acc.output_logs {
            ParseOutcome::Done(Err(ArgumentsError::CantMixOutputAndInteractive))
        } else {
            parse_from(args, res, env, i + 1, k, SpecStartupArguments { interactive: true, ..acc })
        },
        (args[i] == "-h"@ || ascii_ci_eq_spec(args[i], "--help"@)) ==> parse_from(args, res, env, i, k, acc)
            == SpecOutcome::Done(Ok(ArgumentsRequest::Help)),
        (args[i] == "-V"@ || ascii_ci_eq_spec(args[i], "--version"@)) ==> parse_from(args, res, env, i, k, acc)
            == SpecOutcome::Done(Ok(ArgumentsRequest::Version)),
{
    lemma_flag_names(args[i]);
    reveal_strlit("-v");
    reveal_strlit("-s");
    reveal_strlit("-o");
    reveal_strlit("-i");
    reveal_strlit("-h");
    reveal_strlit("-V");
    reveal_strlit("--help");
    reveal_strlit("--version");
    reveal_strlit("--verbose");
    reveal_strlit("--silent");
    reveal_strlit("--output-logs");
    reveal_strlit("--interactive");
}

/// The outcome of parsing a command line (whose first argument, the program's name, is
/// skipped) given the resolutions of the socket addresses met so far, in order.
pub open spec fn parse_arguments_spec(
    args: Seq<Seq<char>>,
    res: Seq<Option<Seq<SocketAddress>>>,
    env: EnvCredentials<Seq<char>>,
) -> SpecOutcome {
    parse_from(args, res, env, 1, 0, empty_arguments())
}

/// The view of a list of strings.
pub open spec fn strings_view(v: Seq<String>) -> Seq<Seq<char>> {
    v.map_values(|s: String| s@)
}

/// The view of a list of resolutions.
pub open spec fn resolutions_view(v: Seq<Option<Vec<SocketAddress>>>) -> Seq<Option<Seq<SocketAddress>>> {
    v.map_values(|o: Option<Vec<SocketAddress>>| match o {
        Some(a) => Some(a@),
        None => None,
    })
}


/// One step of parsing, as carried out: stop with an outcome, or go on from the given
/// argument position with the given count of resolutions used.
enum ExecStep {
    Stop(ParseOutcome),
    Continue(usize, usize),
}

fn socket_error_exec(flag: ArgFlag, e: SocketErrorType) -> (r: ArgumentsError)
    ensures
        r@ == socket_error(flag, e@),
{
    match flag {
        ArgFlag::Host => ArgumentsError::HostError(e),
        ArgFlag::AddSocks5 => ArgumentsError::AddSocks5Error(e),
        ArgFlag::RemoveSocks5 => ArgumentsError::RemoveSocks5Error(e),
        ArgFlag::AddSandstorm => ArgumentsError::AddSandstormError(e),
        _ => ArgumentsError::RemoveSandstormError(e),
    }
}

fn socket_request_exec(flag: ArgFlag, a: SocketAddress) -> (r: CommandRequest)
    ensures
        r@ == socket_request(flag, a),
{
    match flag {
        ArgFlag::AddSocks5 => CommandRequest::AddSocks5Socket(a),
        ArgFlag::RemoveSocks5 => CommandRequest::RemoveSocks5Socket(a),
        ArgFlag::AddSandstorm => CommandRequest::AddSandstormSocket(a),
        _ => CommandRequest::RemoveSandstormSocket(a),
    }
}

fn copy_addresses(v: &Vec<SocketAddress>) -> (r: Vec<SocketAddress>)
    ensures
        r@ == v@,
{
    let mut r: Vec<SocketAddress> = Vec::new();
    let mut i: usize = 0;
    while i < v.len()
        invariant
            i <= v.len(),
            r@ == v@.take(i as int),
        decreases v.len() - i,
    {
        r.push(v[i]);
        assert(v@.take(i + 1) =~= v@.take(i as int).push(v@[i as int]));
        i = i + 1;
    }
    assert(v@.take(v.len() as int) =~= v@);
    r
}

fn push_request(requests: &mut Vec<CommandRequest>, c: CommandRequest)
    ensures
        requests_view(final(requests)@) == requests_view(old(requests)@).push(c@),
{
    requests.push(c);
    assert(requests_view(requests@) =~= requests_view(old(requests)@).push(c@));
}

fn plain_request_exec(flag: ArgFlag) -> (r: Option<CommandRequest>)
    ensures
        match r {
            Some(c) => plain_request(flag) == Some(c@),
            None => plain_request(flag) is None,
        },
{
    match flag {
        ArgFlag::Shutdown => Some(CommandRequest::Shutdown),
        ArgFlag::ListSocks5 => Some(CommandRequest::ListSocks5Sockets),
        ArgFlag::ListSandstorm => Some(CommandRequest::ListSandstormSockets),
        ArgFlag::ListUsers => Some(CommandRequest::ListUsers),
        ArgFlag::ListAuth => Some(CommandRequest::ListAuthMethods),
        ArgFlag::GetMetrics => Some(CommandRequest::GetMetrics),
        ArgFlag::GetBufferSize => Some(CommandRequest::GetBufferSize),
        ArgFlag::Meow => Some(CommandRequest::Meow),
        _ => None,
    }
}

fn socket_step_exec(
    flag: ArgFlag,
    result: &mut StartupArguments,
    args: &Vec<String>,
    resolutions: &Vec<Option<Vec<SocketAddress>>>,
    i: usize,
    k: usize,
) -> (r: ExecStep)
    requires
        i < args.len(),
        is_socket_flag(flag),
    ensures
        match socket_step(flag, strings_view(args@), resolutions_view(resolutions@), i as int, k as int, old(result)@) {
            SpecStep::Stop(o) => r matches ExecStep::Stop(o2) && o2@ == o,
            SpecStep::Continue(i2, k2, acc2) => r matches ExecStep::Continue(ei, ek) && ei == i2 && ek == k2
                && final(result)@ == acc2,
        },
{
    let ghost av = strings_view(args@);
    let arg = args[i].clone();
    if i + 1 >= args.len() {
        return ExecStep::Stop(ParseOutcome::Done(Err(socket_error_exec(flag, SocketErrorType::UnexpectedEnd(arg)))));
    }
    let v = args[i + 1].clone();
    assert(value_after(av, i as int) == Some(v@));
    if k >= resolutions.len() {
        let default_port = if flag == ArgFlag::AddSocks5 || flag == ArgFlag::RemoveSocks5 {
            DEFAULT_SOCKS5_PORT
        } else {
            DEFAULT_SANDSTORM_PORT
        };
        return ExecStep::Stop(ParseOutcome::NeedsResolution { address: v, default_port });
    }
    let resolved = match &resolutions[k] {
        Some(addrs) => Some(copy_addresses(addrs)),
        None => None,
    };
    assert(resolutions_view(resolutions@)[k as int] == match resolved { Some(x) => Some(x@), None => None::<Seq<SocketAddress>> });
    if flag == ArgFlag::Host {
        match parse_socket_arg(&mut result.server_address, arg, Some(v), resolved) {
            Err(e) => ExecStep::Stop(ParseOutcome::Done(Err(socket_error_exec(flag, e)))),
            Ok(()) => ExecStep::Continue(i + 2, k + 1),
        }
    } else {
        let mut tmp: Vec<SocketAddress> = Vec::new();
        match parse_socket_arg(&mut tmp, arg, Some(v), resolved) {
            Err(e) => ExecStep::Stop(ParseOutcome::Done(Err(socket_error_exec(flag, e)))),
            Ok(()) => {
                let ghost before = requests_view(result.requests@);
                let mut j: usize = 0;
                while j < tmp.len()
                    invariant
                        j <= tmp.len(),
                        requests_view(result.requests@) == before + socket_requests(flag, tmp@.take(j as int)),
                        result@ == (SpecStartupArguments { requests: result@.requests, ..old(result)@ }),
                        before == old(result)@.requests,
                    decreases tmp.len() - j,
                {
                    push_request(&mut result.requests, socket_request_exec(flag, tmp[j]));
                    assert(socket_requests(flag, tmp@.take(j + 1)) =~= socket_requests(flag, tmp@.take(j as int)).push(socket_request(flag, tmp@[j as int])));
                    j = j + 1;
                }
                assert(tmp@.take(tmp.len() as int) =~= tmp@);
                ExecStep::Continue(i + 2, k + 1)
            },
        }
    }
}


fn value_after_exec(args: &Vec<String>, i: usize) -> (r: Option<String>)
    requires
        i < args.len(),
    ensures
        opt_view(r) == value_after(strings_view(args@), i as int),
{
    if i + 1 < args.len() {
        Some(args[i + 1].clone())
    } else {
        None
    }
}

fn parse_step_exec(
    result: &mut StartupArguments,
    args: &Vec<String>,
    resolutions: &Vec<Option<Vec<SocketAddress>>>,
    i: usize,
    k: usize,
) -> (r: ExecStep)
    requires
        i < args.len(),
    ensures
        match parse_step(strings_view(args@), resolutions_view(resolutions@), i as int, k as int, old(result)@) {
            SpecStep::Stop(o) => r matches ExecStep::Stop(o2) && o2@ == o,
            SpecStep::Continue(i2, k2, acc2) => r matches ExecStep::Continue(ei, ek) && ei == i2 && ek == k2
                && final(result)@ == acc2,
        },
{
    let ghost av = strings_view(args@);
    let arg = args[i].clone();
    assert(av[i as int] == arg@);
    if arg.as_str().is_empty() {
        return ExecStep::Continue(i + 1, k);
    }
    let flag = match classify_flag(arg.as_str()) {
        None => return ExecStep::Stop(ParseOutcome::Done(Err(ArgumentsError::UnknownArgument(arg)))),
        Some(flag) => flag,
    };
    match flag {
        ArgFlag::Help => ExecStep::Stop(ParseOutcome::Done(Ok(ArgumentsRequest::Help))),
        ArgFlag::Version => ExecStep::Stop(ParseOutcome::Done(Ok(ArgumentsRequest::Version))),
        ArgFlag::Verbose => {
            result.verbose = true;
            ExecStep::Continue(i + 1, k)
        },
        ArgFlag::Silent => {
            result.silent = true;
            ExecStep::Continue(i + 1, k)
        },
        ArgFlag::Host | ArgFlag::AddSocks5 | ArgFlag::RemoveSocks5 | ArgFlag::AddSandstorm | ArgFlag::RemoveSandstorm => {
            socket_step_exec(flag, result, args, resolutions, i, k)
        },
        ArgFlag::Shutdown | ArgFlag::ListSocks5 | ArgFlag::ListSandstorm | ArgFlag::ListUsers | ArgFlag::ListAuth
        | ArgFlag::GetMetrics | ArgFlag::GetBufferSize | ArgFlag::Meow => {
            let c = plain_request_exec(flag);
            match c {
                Some(c) => push_request(&mut result.requests, c),
                None => {},
            }
            ExecStep::Continue(i + 1, k)
        },
        ArgFlag::Credentials => {
            let val = value_after_exec(args, i);
            match parse_credentials(&mut result.login_credentials, arg, val) {
                Err(e) => ExecStep::Stop(ParseOutcome::Done(Err(ArgumentsError::CredentialsError(e)))),
                Ok(()) => ExecStep::Continue(i + 2, k),
            }
        },
        ArgFlag::AddUser => {
            let val = value_after_exec(args, i);
            match parse_add_user(arg, val) {
                Err(e) => ExecStep::Stop(ParseOutcome::Done(Err(ArgumentsError::AddUserError(e)))),
                Ok((username, password, role)) => {
                    push_request(&mut result.requests, CommandRequest::AddUser(username, password, role));
                    ExecStep::Continue(i + 2, k)
                },
            }
        },
        ArgFlag::UpdateUser => {
            let val = value_after_exec(args, i);
            match parse_update_user(arg, val) {
                Err(e) => ExecStep::Stop(ParseOutcome::Done(Err(ArgumentsError::UpdateUserError(e)))),
                Ok((username, maybe_password, maybe_role)) => {
                    push_request(&mut result.requests, CommandRequest::UpdateUser(username, maybe_password, maybe_role));
                    ExecStep::Continue(i + 2, k)
                },
            }
        },
        ArgFlag::DeleteUser => {
            let val = value_after_exec(args, i);
            match parse_delete_user(arg, val) {
                Err(e) => ExecStep::Stop(ParseOutcome::Done(Err(ArgumentsError::DeleteUserError(e)))),
                Ok(username) => {
                    push_request(&mut result.requests, CommandRequest::DeleteUser(username));
                    ExecStep::Continue(i + 2, k)
                },
            }
        },
        ArgFlag::AuthEnable | ArgFlag::AuthDisable => {
            let val = value_after_exec(args, i);
            let enable = flag == ArgFlag::AuthEnable;
            match parse_auth_arg(arg, val) {
                Err(e) => ExecStep::Stop(ParseOutcome::Done(Err(ArgumentsError::AuthToggleError(e)))),
                Ok(auth_method) => {
                    push_request(&mut result.requests, CommandRequest::ToggleAuthMethod(auth_method, enable));
                    ExecStep::Continue(i + 2, k)
                },
            }
        },
        ArgFlag::SetBufferSize => {
            let val = value_after_exec(args, i);
            match parse_buffer_size_arg(arg, val) {
                Err(e) => ExecStep::Stop(ParseOutcome::Done(Err(ArgumentsError::BufferSizeError(e)))),
                Ok(buffer_size) => {
                    push_request(&mut result.requests, CommandRequest::SetBufferSize(buffer_size));
                    ExecStep::Continue(i + 2, k)
                },
            }
        },
        ArgFlag::OutputLogs => {
            if result.interactive {
                return ExecStep::Stop(ParseOutcome::Done(Err(ArgumentsError::CantMixOutputAndInteractive)));
            }
            result.output_logs = true;
            ExecStep::Continue(i + 1, k)
        },
        ArgFlag::Interactive => {
            if result.output_logs {
                return ExecStep::Stop(ParseOutcome::Done(Err(ArgumentsError::CantMixOutputAndInteractive)));
            }
            result.interactive = true;
            ExecStep::Continue(i + 1, k)
        },
    }
}

/// Parses the command line `args` (its first element, the program's name, is skipped).
///
/// Socket addresses are resolved by the caller: `resolutions` holds, in order, what each
/// address met so far resolved to (`None` when it did not resolve). When an address is met for
/// which there is no resolution yet, parsing stops with `ParseOutcome::NeedsResolution`; the
/// caller resolves it, appends the result and calls again. `env_credentials` is the value of
/// the credentials environment variable, used only when no credentials argument was given.
pub fn parse_arguments(
    args: &Vec<String>,
    resolutions: &Vec<Option<Vec<SocketAddress>>>,
    env_credentials: EnvCredentials,
) -> (r: ParseOutcome)
    ensures
        r@ == parse_arguments_spec(strings_view(args@), resolutions_view(resolutions@), env_credentials@),
{
    let ghost av = strings_view(args@);
    let ghost rv = resolutions_view(resolutions@);
    let mut result = StartupArguments::empty();
    let mut i: usize = 1;
    let mut k: usize = 0;

    while i < args.len()
        invariant
            1 <= i,
            av == strings_view(args@),
            rv == resolutions_view(resolutions@),
            parse_arguments_spec(av, rv, env_credentials@) == parse_from(av, rv, env_credentials@, i as int, k as int, result@),
        decreases args.len() - i,
    {
        match parse_step_exec(&mut result, args, resolutions, i, k) {
            ExecStep::Stop(outcome) => return outcome,
            ExecStep::Continue(next_i, next_k) => {
                i = next_i;
                k = next_k;
            },
        }
    }

    if result.login_credentials.0.as_str().is_empty() {
        match parse_env_credentials(env_credentials) {
            Err(e) => return ParseOutcome::Done(Err(ArgumentsError::EnvCredentialsError(e))),
            Ok(None) => return ParseOutcome::Done(Err(ArgumentsError::NoCredentialsSpecified)),
            Ok(Some(creds)) => {
                result.login_credentials = creds;
            },
        }
    }

    result.fill_empty_fields_with_defaults();
    ParseOutcome::Done(Ok(ArgumentsRequest::Run(result)))
}

/// The text that describes a socket error.
pub open spec fn socket_error_message(e: SocketErrorType<Seq<char>>) -> Seq<char> {
    match e {
        SocketErrorType::UnexpectedEnd(a) => "Expected socket address after "@ + a,
        SocketErrorType::InvalidSocketAddress(a, b) => "Invalid socket address after "@ + a + ": "@ + b,
    }
}

impl SocketErrorType {
    /// The text that describes this error.
    pub fn to_string(&self) -> (s: String)
        ensures
            s@ == socket_error_message(self@),
    {
        match self {
            SocketErrorType::UnexpectedEnd(a) => {
                let mut s = String::new();
                push_str(&mut s, "Expected socket address after ");
                push_str(&mut s, a.as_str());
                assert(s@ =~= socket_error_message(self@));
                s
            },
            SocketErrorType::InvalidSocketAddress(a, b) => {
                let mut s = String::new();
                push_str(&mut s, "Invalid socket address after ");
                push_str(&mut s, a.as_str());
                push_str(&mut s, ": ");
                push_str(&mut s, b.as_str());
                assert(s@ =~= socket_error_message(self@));
                s
            },
        }
    }
}

/// The text that describes a credentials error.
pub open spec fn credentials_error_message(e: CredentialsErrorType<Seq<char>>) -> Seq<char> {
    match e {
        CredentialsErrorType::UnexpectedEnd(a) => "Expected credentials after "@ + a,
        CredentialsErrorType::AlreadySpecified(a) => "Credentials already specified at "@ + a,
        CredentialsErrorType::Empty(a) => "Empty credentials argument after "@ + a,
        CredentialsErrorType::DontSpecifyRoleChar(a, c) => "Credentials after "@ + a + " shouldn't have a role char, remove the '"@ + seq![c] + "'"@,
        CredentialsErrorType::EmptyUsername(a) => "Credentials after "@ + a + " have no username"@,
        CredentialsErrorType::UsernameTooLong(a) => "Credentials after "@ + a + " username too long"@,
        CredentialsErrorType::EmptyPassword(a) => "Credentials after "@ + a + " have no password"@,
        CredentialsErrorType::PasswordTooLong(a) => "Credentials after "@ + a + " password too long"@,
    }
}

impl CredentialsErrorType {
    /// The text that describes this error.
    pub fn to_string(&self) -> (s: String)
        ensures
            s@ == credentials_error_message(self@),
    {
        match self {
            CredentialsErrorType::UnexpectedEnd(a) => {
                let mut s = String::new();
                push_str(&mut s, "Expected credentials after ");
                push_str(&mut s, a.as_str());
                assert(s@ =~= credentials_error_message(self@));
                s
            },
            CredentialsErrorType::AlreadySpecified(a) => {
                let mut s = String::new();
                push_str(&mut s, "Credentials already specified at ");
                push_str(&mut s, a.as_str());
                assert(s@ =~= credentials_error_message(self@));
                s
            },
            CredentialsErrorType::Empty(a) => {
                let mut s = String::new();
                push_str(&mut s, "Empty credentials argument after ");
                push_str(&mut s, a.as_str());
                assert(s@ =~= credentials_error_message(self@));
                s
            },
            CredentialsErrorType::DontSpecifyRoleChar(a, c) => {
                let mut s = String::new();
                push_str(&mut s, "Credentials after ");
                push_str(&mut s, a.as_str());
                push_str(&mut s, " shouldn't have a role char, remove the '");
                push_char(&mut s, *c);
                push_str(&mut s, "'");
                assert(s@ =~= credentials_error_message(self@));
                s
            },
            CredentialsErrorType::EmptyUsername(a) => {
                let mut s = String::new();
                push_str(&mut s, "Credentials after ");
                push_str(&mut s, a.as_str());
                push_str(&mut s, " have no username");
                assert(s@ =~= credentials_error_message(self@));
                s
            },
            CredentialsErrorType::UsernameTooLong(a) => {
                let mut s = String::new();
                push_str(&mut s, "Credentials after ");
                push_str(&mut s, a.as_str());
                push_str(&mut s, " username too long");
                assert(s@ =~= credentials_error_message(self@));
                s
            },
            CredentialsErrorType::EmptyPassword(a) => {
                let mut s = String::new();
                push_str(&mut s, "Credentials after ");
                push_str(&mut s, a.as_str());
                push_str(&mut s, " have no password");
                assert(s@ =~= credentials_error_message(self@));
                s
            },
            CredentialsErrorType::PasswordTooLong(a) => {
                let mut s = String::new();
                push_str(&mut s, "Credentials after ");
                push_str(&mut s, a.as_str());
                push_str(&mut s, " password too long");
                assert(s@ =~= credentials_error_message(self@));
                s
            },
        }
    }
}

/// The text that describes a add user error.
pub open spec fn add_user_error_message(e: AddUserErrorType<Seq<char>>) -> Seq<char> {
    match e {
        AddUserErrorType::UnexpectedEnd(a) => "Expected user after "@ + a,
        AddUserErrorType::Empty(a) => "Empty add user argument after "@ + a,
        AddUserErrorType::MissingPassword(a) => "User after "@ + a + " must have a password"@,
        AddUserErrorType::InvalidRoleChar(a, c) => "User after "@ + a + " has invalid role char '"@ + seq![c] + "'"@,
        AddUserErrorType::EmptyUsername(a) => "User after "@ + a + " has no username"@,
        AddUserErrorType::UsernameTooLong(a) => "User after "@ + a + " username too long"@,
        AddUserErrorType::EmptyPassword(a) => "User after "@ + a + " has no password"@,
        AddUserErrorType::PasswordTooLong(a) => "User after "@ + a + " password too long"@,
    }
}

impl AddUserErrorType {
    /// The text that describes this error.
    pub fn to_string(&self) -> (s: String)
        ensures
            s@ == add_user_error_message(self@),
    {
        match self {
            AddUserErrorType::UnexpectedEnd(a) => {
                let mut s = String::new();
                push_str(&mut s, "Expected user after ");
                push_str(&mut s, a.as_str());
                assert(s@ =~= add_user_error_message(self@));
                s
            },
            AddUserErrorType::Empty(a) => {
                let mut s = String::new();
                push_str(&mut s, "Empty add user argument after ");
                push_str(&mut s, a.as_str());
                assert(s@ =~= add_user_error_message(self@));
                s
            },
            AddUserErrorType::MissingPassword(a) => {
                let mut s = String::new();
                push_str(&mut s, "User after ");
                push_str(&mut s, a.as_str());
                push_str(&mut s, " must have a password");
                assert(s@ =~= add_user_error_message(self@));
                s
            },
            AddUserErrorType::InvalidRoleChar(a, c) => {
                let mut s = String::new();
                push_str(&mut s, "User after ");
                push_str(&mut s, a.as_str());
                push_str(&mut s, " has invalid role char '");
                push_char(&mut s, *c);
                push_str(&mut s, "'");
                assert(s@ =~= add_user_error_message(self@));
                s
            },
            AddUserErrorType::EmptyUsername(a) => {
                let mut s = String::new();
                push_str(&mut s, "User after ");
                push_str(&mut s, a.as_str());
                push_str(&mut s, " has no username");
                assert(s@ =~= add_user_error_message(self@));
                s
            },
            AddUserErrorType::UsernameTooLong(a) => {
                let mut s = String::new();
                push_str(&mut s, "User after ");
                push_str(&mut s, a.as_str());
                push_str(&mut s, " username too long");
                assert(s@ =~= add_user_error_message(self@));
                s
            },
            AddUserErrorType::EmptyPassword(a) => {
                let mut s = String::new();
                push_str(&mut s, "User after ");
                push_str(&mut s, a.as_str());
                push_str(&mut s, " has no password");
                assert(s@ =~= add_user_error_message(self@));
                s
            },
            AddUserErrorType::PasswordTooLong(a) => {
                let mut s = String::new();
                push_str(&mut s, "User after ");
                push_str(&mut s, a.as_str());
                push_str(&mut s, " password too long");
                assert(s@ =~= add_user_error_message(self@));
                s
            },
        }
    }
}

/// The text that describes a update user error.
pub open spec fn update_user_error_message(e: UpdateUserErrorType<Seq<char>>) -> Seq<char> {
    match e {
        UpdateUserErrorType::UnexpectedEnd(a) => "Expected user after "@ + a,
        UpdateUserErrorType::Empty(a) => "Empty update user argument after "@ + a,
        UpdateUserErrorType::NothingWasSpecified(a) => "User after "@ + a + " must have a role or a password"@,
        UpdateUserErrorType::InvalidRoleChar(a, c) => "User after "@ + a + " has invalid role char '"@ + seq![c] + "'"@,
        UpdateUserErrorType::EmptyUsername(a) => "User after "@ + a + " has no username"@,
        UpdateUserErrorType::UsernameTooLong(a) => "User after "@ + a + " username too long"@,
        UpdateUserErrorType::EmptyPassword(a) => "User after "@ + a + " has no password"@,
        UpdateUserErrorType::PasswordTooLong(a) => "User after "@ + a + " password too long"@,
    }
}

impl UpdateUserErrorType {
    /// The text that describes this error.
    pub fn to_string(&self) -> (s: String)
        ensures
            s@ == update_user_error_message(self@),
    {
        match self {
            UpdateUserErrorType::UnexpectedEnd(a) => {
                let mut s = String::new();
                push_str(&mut s, "Expected user after ");
                push_str(&mut s, a.as_str());
                assert(s@ =~= update_user_error_message(self@));
                s
            },
            UpdateUserErrorType::Empty(a) => {
                let mut s = String::new();
                push_str(&mut s, "Empty update user argument after ");
                push_str(&mut s, a.as_str());
                assert(s@ =~= update_user_error_message(self@));
                s
            },
            UpdateUserErrorType::NothingWasSpecified(a) => {
                let mut s = String::new();
                push_str(&mut s, "User after ");
                push_str(&mut s, a.as_str());
                push_str(&mut s, " must have a role or a password");
                assert(s@ =~= update_user_error_message(self@));
                s
            },
            UpdateUserErrorType::InvalidRoleChar(a, c) => {
                let mut s = String::new();
                push_str(&mut s, "User after ");
                push_str(&mut s, a.as_str());
                push_str(&mut s, " has invalid role char '");
                push_char(&mut s, *c);
                push_str(&mut s, "'");
                assert(s@ =~= update_user_error_message(self@));
                s
            },
            UpdateUserErrorType::EmptyUsername(a) => {
                let mut s = String::new();
                push_str(&mut s, "User after ");
                push_str(&mut s, a.as_str());
                push_str(&mut s, " has no username");
                assert(s@ =~= update_user_error_message(self@));
                s
            },
            UpdateUserErrorType::UsernameTooLong(a) => {
                let mut s = String::new();
                push_str(&mut s, "User after ");
                push_str(&mut s, a.as_str());
                push_str(&mut s, " username too long");
                assert(s@ =~= update_user_error_message(self@));
                s
            },
            UpdateUserErrorType::EmptyPassword(a) => {
                let mut s = String::new();
                push_str(&mut s, "User after ");
                push_str(&mut s, a.as_str());
                push_str(&mut s, " has no password");
                assert(s@ =~= update_user_error_message(self@));
                s
            },
            UpdateUserErrorType::PasswordTooLong(a) => {
                let mut s = String::new();
                push_str(&mut s, "User after ");
                push_str(&mut s, a.as_str());
                push_str(&mut s, " password too long");
                assert(s@ =~= update_user_error_message(self@));
                s
            },
        }
    }
}

/// The text that describes a delete user error.
pub open spec fn delete_user_error_message(e: DeleteUserErrorType<Seq<char>>) -> Seq<char> {
    match e {
        DeleteUserErrorType::UnexpectedEnd(a) => "Expected username after "@ + a,
        DeleteUserErrorType::Empty(a) => "Empty delete user argument after "@ + a,
        DeleteUserErrorType::UsernameTooLong(a) => "Username after "@ + a + " too long"@,
    }
}

impl DeleteUserErrorType {
    /// The text that describes this error.
    pub fn to_string(&self) -> (s: String)
        ensures
            s@ == delete_user_error_message(self@),
    {
        match self {
            DeleteUserErrorType::UnexpectedEnd(a) => {
                let mut s = String::new();
                push_str(&mut s, "Expected username after ");
                push_str(&mut s, a.as_str());
                assert(s@ =~= delete_user_error_message(self@));
                s
            },
            DeleteUserErrorType::Empty(a) => {
                let mut s = String::new();
                push_str(&mut s, "Empty delete user argument after ");
                push_str(&mut s, a.as_str());
                assert(s@ =~= delete_user_error_message(self@));
                s
            },
            DeleteUserErrorType::UsernameTooLong(a) => {
                let mut s = String::new();
                push_str(&mut s, "Username after ");
                push_str(&mut s, a.as_str());
                push_str(&mut s, " too long");
                assert(s@ =~= delete_user_error_message(self@));
                s
            },
        }
    }
}

/// The text that describes a auth toggle error.
pub open spec fn auth_toggle_error_message(e: AuthToggleErrorType<Seq<char>>) -> Seq<char> {
    match e {
        AuthToggleErrorType::UnexpectedEnd(a) => "Expected auth type after "@ + a,
        AuthToggleErrorType::InvalidAuthType(a, b) => "Invalid auth type at "@ + a + " "@ + b,
    }
}

impl AuthToggleErrorType {
    /// The text that describes this error.
    pub fn to_string(&self) -> (s: String)
        ensures
            s@ == auth_toggle_error_message(self@),
    {
        match self {
            AuthToggleErrorType::UnexpectedEnd(a) => {
                let mut s = String::new();
                push_str(&mut s, "Expected auth type after ");
                push_str(&mut s, a.as_str());
                assert(s@ =~= auth_toggle_error_message(self@));
                s
            },
            AuthToggleErrorType::InvalidAuthType(a, b) => {
                let mut s = String::new();
                push_str(&mut s, "Invalid auth type at ");
                push_str(&mut s, a.as_str());
                push_str(&mut s, " ");
                push_str(&mut s, b.as_str());
                assert(s@ =~= auth_toggle_error_message(self@));
                s
            },
        }
    }
}

/// The text that describes a buffer size error.
pub open spec fn buffer_size_error_message(e: BufferSizeErrorType<Seq<char>>) -> Seq<char> {
    match e {
        BufferSizeErrorType::UnexpectedEnd(a) => "Expected buffer size after "@ + a,
        BufferSizeErrorType::Empty(a) => "Empty buffer size argument after "@ + a,
        BufferSizeErrorType::InvalidSize(a, b) => "Invalid buffer size at "@ + a + " "@ + b,
    }
}

impl BufferSizeErrorType {
    /// The text that describes this error.
    pub fn to_string(&self) -> (s: String)
        ensures
            s@ == buffer_size_error_message(self@),
    {
        match self {
            BufferSizeErrorType::UnexpectedEnd(a) => {
                let mut s = String::new();
                push_str(&mut s, "Expected buffer size after ");
                push_str(&mut s, a.as_str());
                assert(s@ =~= buffer_size_error_message(self@));
                s
            },
            BufferSizeErrorType::Empty(a) => {
                let mut s = String::new();
                push_str(&mut s, "Empty buffer size argument after ");
                push_str(&mut s, a.as_str());
                assert(s@ =~= buffer_size_error_message(self@));
                s
            },
            BufferSizeErrorType::InvalidSize(a, b) => {
                let mut s = String::new();
                push_str(&mut s, "Invalid buffer size at ");
                push_str(&mut s, a.as_str());
                push_str(&mut s, " ");
                push_str(&mut s, b.as_str());
                assert(s@ =~= buffer_size_error_message(self@));
                s
            },
        }
    }
}

/// The text that describes a env credentials error.
pub open spec fn env_credentials_error_message(e: EnvCredentialsErrorType) -> Seq<char> {
    match e {
        EnvCredentialsErrorType::Empty => "Empty credentials at env variable SANDSTORM_USER"@,
        EnvCredentialsErrorType::NotUnicode => "Env variable SANDSTORM_USER exists, but is not valid Unicode"@,
        EnvCredentialsErrorType::DontSpecifyRoleChar(c) => "Credentials at env variable SANDSTORM_USER shouldn't have a role char, remove the '"@ + seq![c] + "'"@,
        EnvCredentialsErrorType::EmptyUsername => "Credentials at env variable SANDSTORM_USER have no username"@,
        EnvCredentialsErrorType::UsernameTooLong => "Credentials at env variable SANDSTORM_USER username too long"@,
        EnvCredentialsErrorType::EmptyPassword => "Credentials at env variable SANDSTORM_USER have no password"@,
        EnvCredentialsErrorType::PasswordTooLong => "Credentials at env variable SANDSTORM_USER password too long"@,
    }
}

impl EnvCredentialsErrorType {
    /// The text that describes this error.
    pub fn to_string(&self) -> (s: String)
        ensures
            s@ == env_credentials_error_message(*self),
    {
        match self {
            EnvCredentialsErrorType::Empty => {
                let mut s = String::new();
                push_str(&mut s, "Empty credentials at env variable SANDSTORM_USER");
                assert(s@ =~= env_credentials_error_message(*self));
                s
            },
            EnvCredentialsErrorType::NotUnicode => {
                let mut s = String::new();
                push_str(&mut s, "Env variable SANDSTORM_USER exists, but is not valid Unicode");
                assert(s@ =~= env_credentials_error_message(*self));
                s
            },
            EnvCredentialsErrorType::DontSpecifyRoleChar(c) => {
                let mut s = String::new();
                push_str(&mut s, "Credentials at env variable SANDSTORM_USER shouldn't have a role char, remove the '");
                push_char(&mut s, *c);
                push_str(&mut s, "'");
                assert(s@ =~= env_credentials_error_message(*self));
                s
            },
            EnvCredentialsErrorType::EmptyUsername => {
                let mut s = String::new();
                push_str(&mut s, "Credentials at env variable SANDSTORM_USER have no username");
                assert(s@ =~= env_credentials_error_message(*self));
                s
            },
            EnvCredentialsErrorType::UsernameTooLong => {
                let mut s = String::new();
                push_str(&mut s, "Credentials at env variable SANDSTORM_USER username too long");
                assert(s@ =~= env_credentials_error_message(*self));
                s
            },
            EnvCredentialsErrorType::EmptyPassword => {
                let mut s = String::new();
                push_str(&mut s, "Credentials at env variable SANDSTORM_USER have no password");
                assert(s@ =~= env_credentials_error_message(*self));
                s
            },
            EnvCredentialsErrorType::PasswordTooLong => {
                let mut s = String::new();
                push_str(&mut s, "Credentials at env variable SANDSTORM_USER password too long");
                assert(s@ =~= env_credentials_error_message(*self));
                s
            },
        }
    }
}

/// The text that describes an arguments error.
pub open spec fn arguments_error_message(e: ArgumentsError<Seq<char>>) -> Seq<char> {
    match e {
        ArgumentsError::UnknownArgument(a) => "Unknown argument: "@ + a,
        ArgumentsError::HostError(e) => socket_error_message(e),
        ArgumentsError::CredentialsError(e) => credentials_error_message(e),
        ArgumentsError::EnvCredentialsError(e) => env_credentials_error_message(e),
        ArgumentsError::NoCredentialsSpecified => "No credentials specified. Use -c/--credentials username:password, or set the SANDSTORM_USER environment variable"@,
        ArgumentsError::AddSocks5Error(e) => socket_error_message(e),
        ArgumentsError::RemoveSocks5Error(e) => socket_error_message(e),
        ArgumentsError::AddSandstormError(e) => socket_error_message(e),
        ArgumentsError::RemoveSandstormError(e) => socket_error_message(e),
        ArgumentsError::AddUserError(e) => add_user_error_message(e),
        ArgumentsError::UpdateUserError(e) => update_user_error_message(e),
        ArgumentsError::DeleteUserError(e) => delete_user_error_message(e),
        ArgumentsError::AuthToggleError(e) => auth_toggle_error_message(e),
        ArgumentsError::BufferSizeError(e) => buffer_size_error_message(e),
        ArgumentsError::CantMixOutputAndInteractive => "Cannot specify both -o/--output-logs and -i/--interactive together"@,
    }
}

impl ArgumentsError {
    /// The text that describes this error.
    pub fn to_string(&self) -> (s: String)
        ensures
            s@ == arguments_error_message(self@),
    {
        match self {
            ArgumentsError::UnknownArgument(a) => concat2("Unknown argument: ", a.as_str()),
            ArgumentsError::HostError(e) => e.to_string(),
            ArgumentsError::CredentialsError(e) => e.to_string(),
            ArgumentsError::EnvCredentialsError(e) => e.to_string(),
            ArgumentsError::NoCredentialsSpecified => string_of(
                "No credentials specified. Use -c/--credentials username:password, or set the SANDSTORM_USER environment variable",
            ),
            ArgumentsError::AddSocks5Error(e) => e.to_string(),
            ArgumentsError::RemoveSocks5Error(e) => e.to_string(),
            ArgumentsError::AddSandstormError(e) => e.to_string(),
            ArgumentsError::RemoveSandstormError(e) => e.to_string(),
            ArgumentsError::AddUserError(e) => e.to_string(),
            ArgumentsError::UpdateUserError(e) => e.to_string(),
            ArgumentsError::DeleteUserError(e) => e.to_string(),
            ArgumentsError::AuthToggleError(e) => e.to_string(),
            ArgumentsError::BufferSizeError(e) => e.to_string(),
            ArgumentsError::CantMixOutputAndInteractive => string_of(
                "Cannot specify both -o/--output-logs and -i/--interactive together",
            ),
        }
    }
}


/// The help menu, listing the options and how their values are written.
pub const HELP_TEXT: &'static str = "Usage: sandstorm [options...]\nOptions:\n  -h, --help                      Display this help menu and exit\n  -V, --version                   Display the version number and exit\n  -v, --verbose                   Display additional information while running\n  -s, --silent                    Do not print to stdout\n  -x, --host <address>            Specify the server to connect to\n  -c, --credentials <creds>       Specify the user to log in as, in user:password format\n  -S, --shutdown                  Requests the server to shut down\n  -l, --list-socks5               Requests the server sends a list of socks5 sockets\n  -k, --add-socks5 <address>      Requests the server opens a new socks5 socket\n  -r, --remove-socks5 <address>   Requests the server removes an existing socks5 socket\n  -L, --list-sandstr              Requests the server sends a list of Sandstorm sockets\n  -K, --add-sandstr <address>     Requests the server opens a new Sandstorm socket\n  -R, --remove-sandstr <address>  Requests the server removes an existing Sandstorm socket\n  -t, --list-users                Requests the server adds a new user\n  -u, --add-user <user>           Requests the server adds a new user\n  -p, --update-user <updt_user>   Requests the server updates an existing user\n  -d, --delete-user <username>    Requests the server deletes an existing user\n  -z, --list-auth                 Requests the server sends a list of auth methods\n  -A, --auth-enable <auth_type>   Requests the server enables an authentication method\n  -a, --auth-disable <auth_type>  Requests the server disables an authentication method\n  -m, --get-metrics               Requests the server sends the current metrics\n  -B, --get-buffer-size           Requests the server sends the current buffer size\n  -b, --set-buffer-size <size>    Requests the server changes its buffer size\n  -w, --meow                      Requests a meow ping to the server\n  -o, --output-logs               Remain open and print the server's logs to stdout\n  -i, --interactive               Remains open with an advanced terminal UI interface\n\nSocket addresses may be specified as an IPv4 or IPv6 address, or a domainname, and may include a port number. If no port is specified, then the appropriate default will be used (1080 for Socks5 and 2222 for Sandstorm). If no -x/--host parameter is specified, then localhost:2222 will be used.\n\nCredentials may be specified with the -c/--credentials argument, in username:password format. If no credentials argument is specified, then the credentials will be taken from the SANDSTORM_USER environment variable, which must follow the same format.\n\nWhen adding a user, it is specified in the (role)?user:password format. For example, \"#carlos:1234\" represents a regular user with username \"carlos\" and password \"1234\", and \"@josé:4:4:4\" represents an admin user with username \"josé\" and password \"4:4:4\". If the role char is omitted, then a regular user is assumed. Updating an existing user work much the same way, but the role char or password may be omitted. Only the fields present will be updated, those omitted will not be modified. To specify an username that contains a ':' character, you may escape it like so: \"#chi\\:chí:4:3:2:1\" (this produces a regular user \"chi:chí\" with password \"4:3:2:1\"). When deleting an user, no escaping is necessary, as only the username is specified.\nFor enabling or disabling authentication, the available authentication types are \"noauth\" and \"userpass\".\n\nBuffer sizes may be specified in bytes ('-b 8192'), kilobytes ('-b 8K'), megabytes ('-b 1M') or gigabytes ('-b 1G' if you respect your computer, please don't) but may not be equal to nor larger than 4GBs.\n\nThe requests are done in the order in which they're specified and their results printed to stdout (unless -s/--silent is specified). Pipelining will be used, so the requests are not guaranteed to come back in the same order. The only ordering guarantees are those defined in the Sandstorm protocol (so, for example, list/add/remove socks5 sockets operations are guaranteed to be handled in order and answered in order, but an add user request in the middle of all that may not come back in the same order.\n\nThe -o/--output-logs and -i/--interactive modes are mutually exclusive, only one may be enabled.\n";

/// The help menu.
pub fn get_help_string() -> (s: &'static str)
    ensures
        s@ == HELP_TEXT@,
{
    HELP_TEXT
}

} // verus!
