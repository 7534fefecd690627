//! The service's configuration and what is derived from it: listening
//! address, database URI and the target of the session store.

use vstd::prelude::*;
use vstd::utf8::encode_utf8;
use crate::text::{decimal, decimal_text};

verus! {

pub const CONFIG_FILE: &'static str = "config.toml";

pub const DEFAULT_PORT: u16 = 80;

pub const DEFAULT_MONGO_PORT: u16 = 27017;

pub const DEFAULT_REDIS_PORT: u16 = 6379;

pub struct Config<'ha, 'moa, 'mob, 'moc, 'msa, 'msb, 'cf> {
    pub debug: Option<bool>,
    pub cache_folder: &'cf str,
    pub http: HttpConfig<'ha>,
    pub mongodb: MongoDBConfig<'moa, 'mob, 'moc>,
    pub redis: RedisConfig,
    pub meilisearch: MeilisearchConfig<'msa, 'msb>,
}

#[derive(Clone)]
pub struct HttpConfig<'a> {
    pub host: &'a str,
    pub port: Option<u16>,
}

pub struct MongoDBConfig<'a, 'b, 'c> {
    pub host: &'a str,
    pub port: Option<u16>,
    pub username: &'b str,
    pub password: &'c str,
}

#[derive(Clone)]
pub struct RedisConfig {
    pub host: String,
    pub port: Option<u16>,
    pub username: String,
    pub password: String,
}

pub struct MeilisearchConfig<'a, 'b> {
    pub host: &'a str,
    pub master_key: &'b str,
    pub auto_sync: Option<bool>,
}

/// Where the session store is reached and as whom.
#[derive(Debug, Clone)]
pub struct RedisTarget {
    pub host: String,
    pub port: u16,
    pub db: i64,
    pub username: Option<String>,
    pub password: Option<String>,
}

/// The port that is configured, or `default` where none is.
pub open spec fn port_or(port: Option<u16>, default: u16) -> u16 {
    match port {
        Some(p) => p,
        None => default,
    }
}

/// The flag that is configured, or `default` where none is.
pub open spec fn flag_or(flag: Option<bool>, default: bool) -> bool {
    match flag {
        Some(f) => f,
        None => default,
    }
}

fn pick_port(port: Option<u16>, default: u16) -> (p: u16)
    ensures
        p == port_or(port, default),
{
    match port {
        Some(p) => p,
        None => default,
    }
}

/// The sets of bytes that are escaped in the parts of a URL.
#[derive(Debug, Clone, Copy, PartialEq, Eq, Structural)]
pub enum EscapeSet {
    Fragment,
    Path,
}

/// Whether the ASCII byte `b` is escaped in a part of a URL: the control
/// characters, the space and `"<>` and the backquote in either part, and
/// `#?^{}` in a path as well.
pub open spec fn is_reserved(b: u8, set: EscapeSet) -> bool {
    ||| b < 32
    ||| b == 127
    ||| b == 32
    ||| b == 34
    ||| b == 60
    ||| b == 62
    ||| b == 96
    ||| (set == EscapeSet::Path && (b == 35 || b == 63 || b == 94 || b == 123 || b == 125))
}

/// The upper-case hexadecimal digit for `d`, for `d < 16`.
pub open spec fn hex_upper(d: nat) -> char {
    if d < 10 {
        ((d + 48) as u8) as char
    } else {
        ((d + 55) as u8) as char
    }
}

/// One byte as it stands in a URL: `%` and two hexadecimal digits for a byte
/// that is not ASCII or is reserved, the byte itself otherwise.
pub open spec fn escaped_byte(b: u8, set: EscapeSet) -> Seq<char> {
    if b >= 128 || is_reserved(b, set) {
        seq!['%', hex_upper((b / 16) as nat), hex_upper((b % 16) as nat)]
    } else {
        seq![b as char]
    }
}

/// Bytes as they stand in a URL.
pub open spec fn escaped_bytes(bytes: Seq<u8>, set: EscapeSet) -> Seq<char>
    decreases bytes.len(),
{
    if bytes.len() == 0 {
        Seq::<char>::empty()
    } else {
        escaped_bytes(bytes.drop_last(), set) + escaped_byte(bytes.last(), set)
    }
}

/// A text as it stands in a part of a URL: its UTF-8 bytes, escaped.
pub open spec fn url_escaped(text: Seq<char>, set: EscapeSet) -> Seq<char> {
    escaped_bytes(encode_utf8(text), set)
}

/// `url_escape::encode_fragment`: percent-encodes the UTF-8 bytes of `text`
/// that are not ASCII or are in the fragment set.
#[verifier::external_body]
fn escape_fragment(text: &str) -> (escaped: String)
    ensures
        escaped@ == url_escaped(text@, EscapeSet::Fragment),
{
    url_escape::encode_fragment(text).into_owned()
}

/// `url_escape::encode_path`: percent-encodes the UTF-8 bytes of `text` that
/// are not ASCII or are in the path set.
#[verifier::external_body]
fn escape_path(text: &str) -> (escaped: String)
    ensures
        escaped@ == url_escaped(text@, EscapeSet::Path),
{
    url_escape::encode_path(text).into_owned()
}

/// Gives a text only if it is not empty.
pub fn empty(s: String) -> (r: Option<String>)
    ensures
        s@.len() == 0 ==> r is None,
        s@.len() > 0 ==> r == Some(s),
{
    if s.as_str().is_empty() {
        None
    } else {
        Some(s)
    }
}

impl<'a> HttpConfig<'a> {
    /// The address to listen on: the host, and the configured port or 80.
    pub fn address(&self) -> (addr: (String, u16))
        ensures
            addr.0@ == self.host@,
            addr.1 == port_or(self.port, DEFAULT_PORT),
    {
        (String::from_str(self.host), pick_port(self.port, DEFAULT_PORT))
    }
}

impl<'a, 'b, 'c> MongoDBConfig<'a, 'b, 'c> {
    /// The URI of the database:
    /// `mongodb://{username}:{password}@{host}:{port}/`, with the user's name
    /// and password escaped as fragments, the host as a path, and the
    /// configured port or 27017.
    pub open spec fn uri(&self) -> Seq<char> {
        "mongodb://"@ + url_escaped(self.username@, EscapeSet::Fragment) + seq![':']
            + url_escaped(self.password@, EscapeSet::Fragment) + seq!['@'] + url_escaped(
            self.host@,
            EscapeSet::Path,
        ) + seq![':'] + decimal(port_or(self.port, DEFAULT_MONGO_PORT) as nat) + seq!['/']
    }

    /// The URI of the database.
    pub fn to_string(&self) -> (uri: String)
        ensures
            uri@ == self.uri(),
    {
        let mut uri = String::from_str("mongodb://");
        uri.append(escape_fragment(self.username).as_str());
        uri.push(':');
        uri.append(escape_fragment(self.password).as_str());
        uri.push('@');
        uri.append(escape_path(self.host).as_str());
        uri.push(':');
        uri.append(decimal_text(pick_port(self.port, DEFAULT_MONGO_PORT) as u64).as_str());
        uri.push('/');
        assert(uri@ =~= self.uri());
        uri
    }

    /// The URI of the database with the name under which this service shows
    /// there: the URI, `?appname=` and the name escaped as a fragment.
    pub fn with_client_name(&self, app_name: &str) -> (uri: String)
        ensures
            uri@ == self.uri() + "?appname="@ + url_escaped(app_name@, EscapeSet::Fragment),
    {
        let mut uri = self.to_string();
        uri.append("?appname=");
        uri.append(escape_fragment(app_name).as_str());
        uri
    }
}

impl RedisConfig {
    /// Where the session store is reached: the host, the configured port or
    /// 6379, database 0, and the user's name and password where they are not
    /// empty.
    pub fn target(self) -> (target: RedisTarget)
        ensures
            target.host == self.host,
            target.port == port_or(self.port, DEFAULT_REDIS_PORT),
            target.db == 0,
            self.username@.len() == 0 ==> target.username is None,
            self.username@.len() > 0 ==> target.username == Some(self.username),
            self.password@.len() == 0 ==> target.password is None,
            self.password@.len() > 0 ==> target.password == Some(self.password),
    {
        RedisTarget {
            host: self.host,
            port: pick_port(self.port, DEFAULT_REDIS_PORT),
            db: 0,
            username: empty(self.username),
            password: empty(self.password),
        }
    }
}

impl<'a, 'b> MeilisearchConfig<'a, 'b> {
    /// Whether the search index is brought up to date at start: it is unless
    /// the configuration says otherwise.
    pub fn auto_sync_enabled(&self) -> (enabled: bool)
        ensures
            enabled == flag_or(self.auto_sync, true),
    {
        match self.auto_sync {
            Some(f) => f,
            None => true,
        }
    }
}

impl<'ha, 'moa, 'mob, 'moc, 'msa, 'msb, 'cf> Config<'ha, 'moa, 'mob, 'moc, 'msa, 'msb, 'cf> {
    /// Whether the service runs in debug mode: it does not unless the
    /// configuration says so.
    pub fn debug_enabled(&self) -> (enabled: bool)
        ensures
            enabled == flag_or(self.debug, false),
    {
        match self.debug {
            Some(f) => f,
            None => false,
        }
    }
}

} // verus!
