//! Sessions and roles: what a bearer token has to look like, when a stored
//! session still holds, and who may do what.

use vstd::prelude::*;
use crate::text::{
    chars_of, find_char, first_index, lemma_first_index, opt_view, same_text, text_of,
};

verus! {

/// The prefix of the keys under which sessions are stored.
pub const TOKEN_REDIS_KEY_PREFIX: &'static str = "tk";

/// The header that carries the token.
pub const AUTHORIZATION_HEADER: &'static str = "Authorization";

/// The scheme of the token.
pub const TOKEN_BASE_TYPE: &'static str = "Bearer";

/// The length of a token.
pub const TOKEN_LENGTH: u8 = 42;

/// The message sent for a token that is not shaped like one.
pub const BAD_TOKEN_MESSAGE: &'static str = "Bad token formatting";

/// The message sent for a token that no live session answers to.
pub const EXPIRED_TOKEN_MESSAGE: &'static str = "Token is invalid or has expired";

#[derive(Debug, Clone, Copy, PartialEq, Eq, Structural)]
pub enum Role {
    User,
    Mod,
    Admin,
}

/// A session as it is stored under its token.
#[derive(Debug, Clone)]
pub struct Session {
    pub token: String,
    /// The time, in milliseconds since the Unix epoch, from which the session
    /// no longer holds.
    pub expires_on: u64,
    pub user_id: String,
    pub role: Role,
}

/// What an `Authorization` header amounts to.
#[derive(Debug, Clone)]
pub enum Credentials {
    /// No header, or one of another scheme than `Bearer`.
    Anonymous,
    /// A bearer token that is not shaped like a token.
    Malformed,
    /// A well-shaped bearer token.
    Token(String),
}

/// What a request is taken for once its token has been looked up.
#[derive(Debug, Clone)]
pub enum SessionResult {
    Valid(Session),
    /// The request is refused with this message and HTTP status.
    Invalid(String, u16),
    Anonymous,
}

/// Whether `c` may stand in a token: a letter or digit of ASCII, `_` or `-`.
pub open spec fn is_nanoid_char(c: char) -> bool {
    let n = c as nat;
    c == '_' || c == '-' || 48 <= n <= 57 || 97 <= n <= 122 || 65 <= n <= 90
}

/// Whether `s` is an identifier of exactly `len` token characters.
pub open spec fn is_nanoid(s: Seq<char>, len: nat) -> bool {
    s.len() == len && forall|i: int| 0 <= i < s.len() ==> is_nanoid_char(#[trigger] s[i])
}

fn nanoid_char(c: char) -> (yes: bool)
    ensures
        yes == is_nanoid_char(c),
{
    let n: u32 = c as u32;
    c == '_' || c == '-' || (48 <= n && n <= 57) || (97 <= n && n <= 122) || (65 <= n && n
        <= 90)
}

fn all_nanoid(chars: &Vec<char>, from: usize) -> (yes: bool)
    requires
        from <= chars.len(),
    ensures
        yes == forall|i: int| from <= i < chars.len() ==> is_nanoid_char(#[trigger] chars@[i]),
{
    let mut i: usize = from;
    while i < chars.len()
        invariant
            from <= i <= chars.len(),
            forall|j: int| from <= j < i ==> is_nanoid_char(#[trigger] chars@[j]),
        decreases chars.len() - i,
    {
        if !nanoid_char(chars[i]) {
            return false;
        }
        i = i + 1;
    }
    true
}

/// Tells whether `text` is an identifier of exactly `expected_len`
/// characters, each a letter or digit of ASCII, `_` or `-`.
pub fn validate_nanoid(text: &str, expected_len: u8) -> (valid: bool)
    ensures
        valid == is_nanoid(text@, expected_len as nat),
{
    let chars = chars_of(text);
    chars.len() == expected_len as usize && all_nanoid(&chars, 0)
}

/// The scheme of a header value: what stands before its first space.
pub open spec fn scheme_of(header: Seq<char>) -> Option<Seq<char>> {
    match first_index(header, ' ') {
        Some(i) => Some(header.subrange(0, i)),
        None => None,
    }
}

/// The argument of a header value: what stands after its first space.
pub open spec fn argument_of(header: Seq<char>) -> Option<Seq<char>> {
    match first_index(header, ' ') {
        Some(i) => Some(header.subrange(i + 1, header.len() as int)),
        None => None,
    }
}

/// Whether a header value is of the `Bearer` scheme.
pub open spec fn is_bearer(header: Option<Seq<char>>) -> bool {
    header matches Some(h) && scheme_of(h) == Some(TOKEN_BASE_TYPE@)
}

/// Reads the `Authorization` header of a request.
///
/// A request without the header, and one whose header is not of the `Bearer`
/// scheme, is anonymous. The token of a bearer header has to be 42 token
/// characters; any other is malformed.
pub fn read_authorization(header: Option<&str>) -> (credentials: Credentials)
    ensures
        !is_bearer(opt_view(header)) ==> credentials is Anonymous,
        is_bearer(opt_view(header)) ==> {
            let token = argument_of(header.unwrap()@).unwrap();
            if is_nanoid(token, TOKEN_LENGTH as nat) {
                credentials matches Credentials::Token(t) && t@ == token
            } else {
                credentials is Malformed
            }
        },
{
    let value = match header {
        Some(v) => v,
        None => {
            return Credentials::Anonymous;
        },
    };
    let chars = chars_of(value);
    let space = match find_char(&chars, ' ') {
        Some(i) => i,
        None => {
            return Credentials::Anonymous;
        },
    };
    proof {
        lemma_first_index(chars@, ' ');
    }
    let scheme = text_of(&chars, 0, space);
    if !same_text(scheme.as_str(), TOKEN_BASE_TYPE) {
        return Credentials::Anonymous;
    }
    let token = text_of(&chars, space + 1, chars.len());
    if validate_nanoid(token.as_str(), TOKEN_LENGTH) {
        Credentials::Token(token)
    } else {
        Credentials::Malformed
    }
}

/// The key under which the session of a token is stored: `tk:{token}`.
pub fn session_key(token: &str) -> (key: String)
    ensures
        key@ == TOKEN_REDIS_KEY_PREFIX@.push(':') + token@,
{
    let mut key = String::from_str(TOKEN_REDIS_KEY_PREFIX);
    key.push(':');
    key.append(token);
    key
}

/// Whether a stored session still holds at the time `now`.
pub open spec fn is_live(session: Session, now: u64) -> bool {
    session.expires_on > now
}

/// Judges what was found under a token at the time `now`, in milliseconds
/// since the Unix epoch: a session that has not expired is valid; a missing
/// or expired one is refused with status 403.
pub fn judge_session(stored: Option<Session>, now: u64) -> (result: SessionResult)
    ensures
        match stored {
            Some(session) if is_live(session, now) => result == SessionResult::Valid(session),
            _ => result matches SessionResult::Invalid(message, status) && message@
                == EXPIRED_TOKEN_MESSAGE@ && status == 403,
        },
{
    match stored {
        Some(session) => {
            if session.expires_on <= now {
                SessionResult::Invalid(String::from_str(EXPIRED_TOKEN_MESSAGE), 403)
            } else {
                SessionResult::Valid(session)
            }
        },
        None => SessionResult::Invalid(String::from_str(EXPIRED_TOKEN_MESSAGE), 403),
    }
}

/// The refusal of a malformed token: status 400.
pub fn malformed_token() -> (result: SessionResult)
    ensures
        result matches SessionResult::Invalid(message, status) && message@ == BAD_TOKEN_MESSAGE@
            && status == 400,
{
    SessionResult::Invalid(String::from_str(BAD_TOKEN_MESSAGE), 400)
}

/// The name of a role as it is logged.
pub open spec fn role_name(role: Role) -> Seq<char> {
    match role {
        Role::User => "User"@,
        Role::Mod => "Mod"@,
        Role::Admin => "Admin"@,
    }
}

/// How a request is named in the access log: `<A>` for an anonymous one,
/// `<{role}@{user}>` for one with a session.
pub open spec fn user_label(session: Option<Session>) -> Seq<char> {
    match session {
        Some(s) => seq!['<'] + role_name(s.role) + seq!['@'] + s.user_id@ + seq!['>'],
        None => "<A>"@,
    }
}

/// Names a request for the access log.
pub fn pick_user_id(session: Option<&Session>) -> (label: String)
    ensures
        label@ == user_label(
            match session {
                Some(s) => Some(*s),
                None => None,
            },
        ),
{
    match session {
        Some(s) => {
            let mut label = String::new();
            label.push('<');
            match s.role {
                Role::User => label.append("User"),
                Role::Mod => label.append("Mod"),
                Role::Admin => label.append("Admin"),
            }
            label.push('@');
            label.append(s.user_id.as_str());
            label.push('>');
            assert(label@ =~= seq!['<'] + role_name(s.role) + seq!['@'] + s.user_id@ + seq!['>']);
            label
        },
        None => String::from_str("<A>"),
    }
}

/// Lets through the requests whose session has exactly the given role.
#[derive(Debug, Clone, Copy)]
pub struct RequireRoleGuard(pub Role);

impl RequireRoleGuard {
    /// Whether a request with this session, or without one, may pass.
    pub fn check(&self, session: Option<&Session>) -> (pass: bool)
        ensures
            pass == (session matches Some(s) && s.role == self.0),
    {
        match session {
            Some(s) => s.role == self.0,
            None => false,
        }
    }
}

} // verus!
