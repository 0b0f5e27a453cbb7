//! The settings of a connection, read from a connection string.

use vstd::prelude::*;
use crate::error::Error;

verus! {

/// The parts of a URL that a connection is set up from.
#[derive(Debug, Clone, PartialEq, Eq)]
pub struct UrlParts {
    pub host: Option<String>,
    pub port: Option<u16>,
    pub username: String,
    pub password: Option<String>,
    /// The first segment of the path.
    pub first_segment: Option<String>,
}

/// The characters of a string that may be absent.
pub open spec fn text_of(s: Option<String>) -> Option<Seq<char>> {
    match s {
        Some(s) => Some(s@),
        None => None,
    }
}

/// The parts of a URL, by their characters.
pub struct UrlShape {
    pub host: Option<Seq<char>>,
    pub port: Option<u16>,
    pub username: Seq<char>,
    pub password: Option<Seq<char>>,
    pub first_segment: Option<Seq<char>>,
}

impl View for UrlParts {
    type V = UrlShape;

    open spec fn view(&self) -> UrlShape {
        UrlShape {
            host: text_of(self.host),
            port: self.port,
            username: self.username@,
            password: text_of(self.password),
            first_segment: text_of(self.first_segment),
        }
    }
}

/// The parts of the URL that a string spells, or `None` where it spells
/// none.
pub uninterp spec fn parsed_url(input: Seq<char>) -> Option<UrlShape>;

/// The error of the url crate's `Url::parse`. Nothing is read from it.
#[verifier::external_type_specification]
#[verifier::external_body]
pub struct ExParseError(url::ParseError);

/// `Url::parse` of the url crate, and of the URL it gives `host_str`,
/// `port`, `username`, `password` and the first of `path_segments`.
/// Trusted: that the parts depend on the string alone.
#[verifier::external_body]
fn parse_url(input: &str) -> (r: Result<UrlParts, url::ParseError>)
    ensures
        match r {
            Ok(parts) => parsed_url(input@) == Some(parts@),
            Err(_) => parsed_url(input@) is None,
        },
{
    let url = url::Url::parse(input)?;
    Ok(
        UrlParts {
            host: url.host_str().map(String::from),
            port: url.port(),
            username: String::from(url.username()),
            password: url.password().map(String::from),
            first_segment: url.path_segments().and_then(|mut s| s.next()).map(String::from),
        },
    )
}

/// What a connection to a MySQL server is opened with.
#[derive(Debug, Clone, PartialEq, Eq)]
pub struct ConnectionSettings {
    pub host: Option<String>,
    pub port: u16,
    pub user: String,
    pub password: Option<String>,
    pub db_name: Option<String>,
    pub verify_peer: bool,
    pub stmt_cache_size: usize,
}

/// The port of a MySQL server that names none.
pub const DEFAULT_PORT: u16 = 3306;

/// The number of prepared statements a connection keeps.
pub const STATEMENT_CACHE_SIZE: usize = 1000;

/// True when the settings are those that the parts of a URL ask for: host,
/// user and password as given, the port given or else the default one, the
/// database named by the first segment of the path, the peer not verified,
/// and a statement cache of the usual size.
pub open spec fn is_setting_of(settings: ConnectionSettings, shape: UrlShape) -> bool {
    &&& text_of(settings.host) == shape.host
    &&& settings.port == match shape.port {
        Some(p) => p,
        None => DEFAULT_PORT,
    }
    &&& settings.user@ == shape.username
    &&& text_of(settings.password) == shape.password
    &&& text_of(settings.db_name) == shape.first_segment
    &&& !settings.verify_peer
    &&& settings.stmt_cache_size == STATEMENT_CACHE_SIZE
}

impl ConnectionSettings {
    /// The settings that the parts of a URL ask for.
    pub fn from_parts(parts: UrlParts) -> (settings: ConnectionSettings)
        ensures
            is_setting_of(settings, parts@),
            settings.host == parts.host,
            settings.user == parts.username,
            settings.password == parts.password,
            settings.db_name == parts.first_segment,
    {
        let port = match parts.port {
            Some(p) => p,
            None => DEFAULT_PORT,
        };
        ConnectionSettings {
            host: parts.host,
            port,
            user: parts.username,
            password: parts.password,
            db_name: parts.first_segment,
            verify_peer: false,
            stmt_cache_size: STATEMENT_CACHE_SIZE,
        }
    }

    /// The settings that a connection string asks for. A string that is
    /// not a URL is refused.
    pub fn from_url(url: &str) -> (r: Result<ConnectionSettings, Error>)
        ensures
            match parsed_url(url@) {
                Some(shape) => r matches Ok(settings) && is_setting_of(settings, shape),
                None => r == Err::<ConnectionSettings, Error>(Error::InvalidConnectionUrl),
            },
    {
        match parse_url(url) {
            Ok(parts) => Ok(ConnectionSettings::from_parts(parts)),
            Err(_) => Err(Error::InvalidConnectionUrl),
        }
    }
}

} // verus!
