//! Command-line settings and their validation into the runtime
//! configuration.

use vstd::prelude::*;
use crate::gateway::client::{url_parse, GatewayUrl, GatewayUrlError, MAX_URL_CHARS};
use crate::mcp::toolset::{selection_spec, string_views, ToolsetError, ToolsetSelection};
use crate::mcp::tools::common::owned_views;
use crate::text::owned;

verus! {

/// The MCP transport the server speaks.
#[derive(Debug, Clone, Copy, PartialEq, Eq, Structural)]
pub enum Transport {
    Stdio,
    StreamableHttp,
}

/// The password file named on the command line, as read by the caller.
#[derive(Debug)]
pub enum PasswordFile {
    /// The file was read: its path (for messages) and its contents.
    Read { path: String, contents: String },
    /// The file could not be read: its path and the reason.
    Unreadable { path: String, reason: String },
}

/// The command-line settings (flags or their environment variables).
#[derive(Debug)]
pub struct Cli {
    /// Base URL of the rust-gvm-api REST gateway (origin, without /api/v1)
    pub gateway_url: String,
    /// gvmd username used to authenticate gateway requests
    pub username: Option<String>,
    /// gvmd password (prefer a password file in production)
    pub password: Option<String>,
    /// File containing the gvmd password (e.g. a mounted secret); takes
    /// precedence over the password flag
    pub password_file: Option<PasswordFile>,
    /// MCP transport
    pub transport: Transport,
    /// Bind address for the streamable-http transport
    pub bind_addr: String,
    /// Host headers accepted by the streamable-http transport (DNS-rebinding
    /// guard). Use "*" to disable the check behind a trusted reverse proxy.
    pub allowed_hosts: Vec<String>,
    /// Require this bearer token on the streamable-http endpoint. Unset means
    /// no inbound authentication.
    pub auth_token: Option<String>,
    /// Toolsets to expose ("default", "all", or toolset names). Identity is
    /// always opt-in.
    pub toolsets: Vec<String>,
    /// Expose only read (non-mutating) tools
    pub read_only: bool,
    /// HTTP timeout towards the gateway, in seconds
    pub timeout_secs: u64,
    /// Log level when RUST_LOG is unset (error|warn|info|debug|trace)
    pub log_level: String,
    /// List available toolsets and exit
    pub list_toolsets: bool,
}

impl Default for Cli {
    /// The settings when no flag or environment variable is given.
    fn default() -> (c: Cli)
        ensures
            c.gateway_url@ == "http://127.0.0.1:8080"@,
            c.username is None,
            c.password is None,
            c.password_file is None,
            c.transport == Transport::Stdio,
            c.bind_addr@ == "127.0.0.1:8000"@,
            owned_views(c.allowed_hosts@) == seq!["localhost"@, "127.0.0.1"@, "::1"@],
            c.auth_token is None,
            c.toolsets@.len() == 0,
            !c.read_only,
            c.timeout_secs == 30,
            c.log_level@ == "info"@,
            !c.list_toolsets,
    {
        let mut allowed_hosts: Vec<String> = Vec::new();
        allowed_hosts.push(owned("localhost"));
        allowed_hosts.push(owned("127.0.0.1"));
        allowed_hosts.push(owned("::1"));
        assert(owned_views(allowed_hosts@) =~= seq!["localhost"@, "127.0.0.1"@, "::1"@]);
        Cli {
            gateway_url: owned("http://127.0.0.1:8080"),
            username: None,
            password: None,
            password_file: None,
            transport: Transport::Stdio,
            bind_addr: owned("127.0.0.1:8000"),
            allowed_hosts,
            auth_token: None,
            toolsets: Vec::new(),
            read_only: false,
            timeout_secs: 30,
            log_level: owned("info"),
            list_toolsets: false,
        }
    }
}

/// Validated runtime configuration derived from [`Cli`].
pub struct Config {
    pub gateway_url: GatewayUrl,
    pub username: String,
    pub password: String,
    pub transport: Transport,
    pub bind_addr: String,
    pub allowed_hosts: Vec<String>,
    pub auth_token: Option<String>,
    pub toolsets: ToolsetSelection,
    pub read_only: bool,
    pub timeout_secs: u64,
}

/// Why the settings were refused.
#[derive(Debug)]
pub enum ConfigError {
    /// The gateway URL does not parse: the text and the parser's message.
    InvalidUrl { input: String, reason: String },
    /// The gateway URL's scheme is not `http` or `https`.
    NonHttpScheme { url: String },
    /// The gateway URL has no host.
    NoHost { url: String },
    /// No (or an empty) username was given.
    MissingUsername,
    /// The password file could not be read.
    UnreadablePasswordFile { path: String, reason: String },
    /// The password file holds nothing but line breaks.
    EmptyPasswordFile { path: String },
    /// No (or an empty) password was given, and no password file.
    MissingPassword,
    /// The gateway timeout is zero.
    ZeroTimeout,
    /// The toolset selection is invalid.
    Toolsets(ToolsetError),
}

/// The mathematical form of [`ConfigError`].
pub enum ConfigErrorView {
    InvalidUrl { input: Seq<char>, reason: Seq<char> },
    NonHttpScheme { url: Seq<char> },
    NoHost { url: Seq<char> },
    MissingUsername,
    UnreadablePasswordFile { path: Seq<char>, reason: Seq<char> },
    EmptyPasswordFile { path: Seq<char> },
    MissingPassword,
    ZeroTimeout,
    UnknownToolset(Seq<char>),
    EmptyToolsets,
}

impl ConfigError {
    pub open spec fn view(&self) -> ConfigErrorView {
        match self {
            ConfigError::InvalidUrl { input, reason } => ConfigErrorView::InvalidUrl {
                input: input@,
                reason: reason@,
            },
            ConfigError::NonHttpScheme { url } => ConfigErrorView::NonHttpScheme { url: url@ },
            ConfigError::NoHost { url } => ConfigErrorView::NoHost { url: url@ },
            ConfigError::MissingUsername => ConfigErrorView::MissingUsername,
            ConfigError::UnreadablePasswordFile { path, reason } => ConfigErrorView::UnreadablePasswordFile {
                path: path@,
                reason: reason@,
            },
            ConfigError::EmptyPasswordFile { path } => ConfigErrorView::EmptyPasswordFile { path: path@ },
            ConfigError::MissingPassword => ConfigErrorView::MissingPassword,
            ConfigError::ZeroTimeout => ConfigErrorView::ZeroTimeout,
            ConfigError::Toolsets(ToolsetError::Unknown(raw)) => ConfigErrorView::UnknownToolset(raw@),
            ConfigError::Toolsets(ToolsetError::Empty) => ConfigErrorView::EmptyToolsets,
        }
    }

    /// The user-facing message.
    pub open spec fn spec_message(&self) -> Seq<char> {
        match self {
            ConfigError::InvalidUrl { input, reason } => "invalid gateway URL '"@ + input@ + "': "@
                + reason@,
            ConfigError::NonHttpScheme { url } => "gateway URL must use http or https, got '"@ + url@
                + "'"@,
            ConfigError::NoHost { url } => "gateway URL has no host: '"@ + url@ + "'"@,
            ConfigError::MissingUsername => "gvmd username is required (--username or GVM_USERNAME)"@,
            ConfigError::UnreadablePasswordFile { path, .. } => "failed to read password file '"@
                + path@ + "'"@,
            ConfigError::EmptyPasswordFile { path } => "password file '"@ + path@ + "' is empty"@,
            ConfigError::MissingPassword => "gvmd password is required (GVM_PASSWORD or --password-file)"@,
            ConfigError::ZeroTimeout => "--timeout-secs must be greater than 0"@,
            ConfigError::Toolsets(e) => e.spec_message(),
        }
    }

    /// The user-facing message.
    pub fn message(&self) -> (r: String)
        ensures
            r@ == self.spec_message(),
    {
        let mut r = String::new();
        match self {
            ConfigError::InvalidUrl { input, reason } => {
                r.append("invalid gateway URL '");
                r.append(input.as_str());
                r.append("': ");
                r.append(reason.as_str());
            },
            ConfigError::NonHttpScheme { url } => {
                r.append("gateway URL must use http or https, got '");
                r.append(url.as_str());
                r.append("'");
            },
            ConfigError::NoHost { url } => {
                r.append("gateway URL has no host: '");
                r.append(url.as_str());
                r.append("'");
            },
            ConfigError::MissingUsername => {
                r.append("gvmd username is required (--username or GVM_USERNAME)");
            },
            ConfigError::UnreadablePasswordFile { path, .. } => {
                r.append("failed to read password file '");
                r.append(path.as_str());
                r.append("'");
            },
            ConfigError::EmptyPasswordFile { path } => {
                r.append("password file '");
                r.append(path.as_str());
                r.append("' is empty");
            },
            ConfigError::MissingPassword => {
                r.append("gvmd password is required (GVM_PASSWORD or --password-file)");
            },
            ConfigError::ZeroTimeout => {
                r.append("--timeout-secs must be greater than 0");
            },
            ConfigError::Toolsets(e) => {
                r = e.message();
            },
        }
        assert(r@ =~= self.spec_message());
        r
    }
}

/// A given, non-empty text.
pub open spec fn non_empty(o: Option<String>) -> Option<Seq<char>> {
    match o {
        Some(s) => if s@.len() > 0 {
            Some(s@)
        } else {
            None
        },
        None => None,
    }
}

/// `s` without its trailing carriage returns and line feeds.
pub open spec fn trim_line_ends(s: Seq<char>) -> Seq<char>
    decreases s.len(),
{
    if s.len() > 0 && (s.last() == '\r' || s.last() == '\n') {
        trim_line_ends(s.drop_last())
    } else {
        s
    }
}

/// The password the settings give, or why they give none: a password file
/// wins over the password flag; a file's trailing line breaks are dropped.
pub open spec fn password_spec(cli: Cli) -> Result<Seq<char>, ConfigErrorView> {
    match cli.password_file {
        Some(PasswordFile::Read { path, contents }) => {
            let trimmed = trim_line_ends(contents@);
            if trimmed.len() == 0 {
                Err(ConfigErrorView::EmptyPasswordFile { path: path@ })
            } else {
                Ok(trimmed)
            }
        },
        Some(PasswordFile::Unreadable { path, reason }) => Err(
            ConfigErrorView::UnreadablePasswordFile { path: path@, reason: reason@ },
        ),
        None => match non_empty(cli.password) {
            Some(p) => Ok(p),
            None => Err(ConfigErrorView::MissingPassword),
        },
    }
}

/// The first thing wrong with the settings, checked in this order: the
/// gateway URL (parses, `http(s)`, has a host), the username, the password,
/// the timeout, the toolset selection. `None` when nothing is.
pub open spec fn config_error_spec(cli: Cli) -> Option<ConfigErrorView> {
    match url_parse(cli.gateway_url@) {
        Err(reason) => Some(ConfigErrorView::InvalidUrl { input: cli.gateway_url@, reason }),
        Ok((scheme, host, url)) => if !(scheme == "http"@ || scheme == "https"@) {
            Some(ConfigErrorView::NonHttpScheme { url })
        } else if host is None {
            Some(ConfigErrorView::NoHost { url })
        } else if non_empty(cli.username) is None {
            Some(ConfigErrorView::MissingUsername)
        } else if password_spec(cli) is Err {
            Some(password_spec(cli)->Err_0)
        } else if cli.timeout_secs == 0 {
            Some(ConfigErrorView::ZeroTimeout)
        } else {
            match selection_spec(string_views(cli.toolsets@)) {
                Ok(_) => None,
                Err(Some(i)) => Some(ConfigErrorView::UnknownToolset(cli.toolsets@[i]@)),
                Err(None) => Some(ConfigErrorView::EmptyToolsets),
            }
        },
    }
}

/// The configuration made of acceptable settings.
pub open spec fn config_matches(c: Config, cli: Cli) -> bool {
    &&& c.gateway_url.source() == cli.gateway_url@
    &&& url_parse(cli.gateway_url@) matches Ok((_, _, url)) && c.gateway_url@ == url
    &&& Some(c.username@) == non_empty(cli.username)
    &&& password_spec(cli) == Ok::<Seq<char>, ConfigErrorView>(c.password@)
    &&& c.transport == cli.transport
    &&& c.bind_addr@ == cli.bind_addr@
    &&& owned_views(c.allowed_hosts@) == owned_views(cli.allowed_hosts@)
    &&& (match c.auth_token {
        Some(t) => non_empty(cli.auth_token) == Some(t@),
        None => non_empty(cli.auth_token) is None,
    })
    &&& selection_spec(string_views(cli.toolsets@)) == Ok::<Set<crate::mcp::toolset::Toolset>, Option<int>>(c.toolsets@)
    &&& c.read_only == cli.read_only
    &&& c.timeout_secs == cli.timeout_secs
}

fn given(o: Option<String>) -> (r: Option<String>)
    ensures
        match r {
            Some(s) => non_empty(o) == Some(s@),
            None => non_empty(o) is None,
        },
{
    match o {
        Some(s) => if s.as_str().unicode_len() > 0 {
            Some(s)
        } else {
            None
        },
        None => None,
    }
}

/// `s` without its trailing `\r` and `\n` characters (std
/// `trim_end_matches(['\r', '\n'])`).
pub fn trim_line_ends_of(s: &str) -> (r: String)
    ensures
        r@ == trim_line_ends(s@),
{
    let n = s.unicode_len();
    let mut end: usize = n;
    assert(s@.subrange(0, n as int) =~= s@);
    while end > 0 && (s.get_char(end - 1) == '\r' || s.get_char(end - 1) == '\n')
        invariant
            end <= n,
            n == s@.len(),
            trim_line_ends(s@.subrange(0, end as int)) == trim_line_ends(s@),
        decreases end,
    {
        assert(s@.subrange(0, end as int).drop_last() =~= s@.subrange(0, end - 1));
        end = end - 1;
    }
    owned(s.substring_char(0, end))
}

fn password_of(password: Option<String>, password_file: Option<PasswordFile>) -> (r: Result<String, ConfigError>)
    ensures
        ({
            let cli_part = password_spec_parts(password, password_file);
            match r {
                Ok(p) => cli_part == Ok::<Seq<char>, ConfigErrorView>(p@),
                Err(e) => cli_part == Err::<Seq<char>, ConfigErrorView>(e.view()),
            }
        }),
{
    match password_file {
        Some(PasswordFile::Read { path, contents }) => {
            let trimmed = trim_line_ends_of(contents.as_str());
            if trimmed.as_str().unicode_len() == 0 {
                Err(ConfigError::EmptyPasswordFile { path })
            } else {
                Ok(trimmed)
            }
        },
        Some(PasswordFile::Unreadable { path, reason }) => Err(ConfigError::UnreadablePasswordFile { path, reason }),
        None => match given(password) {
            Some(p) => Ok(p),
            None => Err(ConfigError::MissingPassword),
        },
    }
}

/// [`password_spec`] on the two settings it reads.
pub open spec fn password_spec_parts(password: Option<String>, password_file: Option<PasswordFile>) -> Result<Seq<char>, ConfigErrorView> {
    match password_file {
        Some(PasswordFile::Read { path, contents }) => {
            let trimmed = trim_line_ends(contents@);
            if trimmed.len() == 0 {
                Err(ConfigErrorView::EmptyPasswordFile { path: path@ })
            } else {
                Ok(trimmed)
            }
        },
        Some(PasswordFile::Unreadable { path, reason }) => Err(
            ConfigErrorView::UnreadablePasswordFile { path: path@, reason: reason@ },
        ),
        None => match non_empty(password) {
            Some(p) => Ok(p),
            None => Err(ConfigErrorView::MissingPassword),
        },
    }
}

impl Config {
    /// Validate the settings: the first problem found is the error;
    /// otherwise the configuration holds the normalized gateway URL, the
    /// username, the password (from the password file when one is named,
    /// trailing line breaks dropped), the parsed toolset selection, and the
    /// other settings as given, an empty auth token counting as none.
    pub fn from_cli(cli: Cli) -> (r: Result<Config, ConfigError>)
        requires
            cli.gateway_url@.len() <= MAX_URL_CHARS / 2,
        ensures
            match r {
                Ok(c) => config_error_spec(cli) is None && config_matches(c, cli),
                Err(e) => config_error_spec(cli) == Some(e.view()),
            },
    {
        let ghost given_cli = cli;
        let gateway_url = match GatewayUrl::parse(cli.gateway_url.as_str()) {
            Ok(u) => u,
            Err(GatewayUrlError::Invalid { input, reason }) => {
                return Err(ConfigError::InvalidUrl { input, reason });
            },
            Err(GatewayUrlError::NotHttp { url }) => {
                return Err(ConfigError::NonHttpScheme { url });
            },
            Err(GatewayUrlError::NoHost { url }) => {
                return Err(ConfigError::NoHost { url });
            },
        };
        let username = match given(cli.username) {
            Some(u) => u,
            None => {
                return Err(ConfigError::MissingUsername);
            },
        };
        assert(password_spec(given_cli) == password_spec_parts(given_cli.password, given_cli.password_file));
        let password = match password_of(cli.password, cli.password_file) {
            Ok(p) => p,
            Err(e) => {
                return Err(e);
            },
        };
        if cli.timeout_secs == 0 {
            return Err(ConfigError::ZeroTimeout);
        }
        let toolsets = match ToolsetSelection::parse(cli.toolsets.as_slice()) {
            Ok(t) => t,
            Err(e) => {
                return Err(ConfigError::Toolsets(e));
            },
        };
        let auth_token = given(cli.auth_token);
        Ok(
            Config {
                gateway_url,
                username,
                password,
                transport: cli.transport,
                bind_addr: cli.bind_addr,
                allowed_hosts: cli.allowed_hosts,
                auth_token,
                toolsets,
                read_only: cli.read_only,
                timeout_secs: cli.timeout_secs,
            },
        )
    }
}

/// The settings are accepted exactly when the gateway URL parses with the
/// `http` or `https` scheme and has a host, a username and a password are
/// given, the timeout is not zero and the toolset selection parses: no
/// other condition on the URL's text.
pub proof fn law_settings_accepted_exactly_when_valid(cli: Cli)
    ensures
        config_error_spec(cli) is None <==> {
            &&& url_parse(cli.gateway_url@) matches Ok((scheme, host, _)) && (scheme == "http"@
                || scheme == "https"@) && host is Some
            &&& non_empty(cli.username) is Some
            &&& password_spec(cli) is Ok
            &&& cli.timeout_secs != 0
            &&& selection_spec(string_views(cli.toolsets@)) is Ok
        },
{
}

/// Two settings that differ only in their gateway URL, where both URLs
/// parse as `http` or `https` with a host, are both accepted or both
/// refused, for the same reason.
pub proof fn law_http_and_https_are_alike(a: Cli, b: Cli)
    requires
        url_parse(a.gateway_url@) matches Ok((scheme, host, _)) && (scheme == "http"@ || scheme == "https"@)
            && host is Some,
        url_parse(b.gateway_url@) matches Ok((scheme, host, _)) && (scheme == "http"@ || scheme == "https"@)
            && host is Some,
        a.username == b.username,
        password_spec(a) == password_spec(b),
        a.timeout_secs == b.timeout_secs,
        a.toolsets == b.toolsets,
    ensures
        config_error_spec(a) == config_error_spec(b),
{
}

/// A password file wins over the password flag: with a password file named,
/// the password flag makes no difference.
pub proof fn law_password_file_takes_precedence(file: PasswordFile, flag: Option<String>, other: Option<String>)
    ensures
        password_spec_parts(flag, Some(file)) == password_spec_parts(other, Some(file)),
{
}

proof fn lemma_trim_line_ends(s: Seq<char>)
    ensures
        trim_line_ends(s).len() > 0 ==> !(trim_line_ends(s).last() == '\r' || trim_line_ends(s).last() == '\n'),
        trim_line_ends(s).len() <= s.len(),
    decreases s.len(),
{
    if s.len() > 0 && (s.last() == '\r' || s.last() == '\n') {
        lemma_trim_line_ends(s.drop_last());
    }
}

/// A password read from a file is never empty and never ends in a line
/// break.
pub proof fn law_file_passwords_have_no_line_ends(path: String, contents: String, flag: Option<String>)
    ensures
        password_spec_parts(flag, Some(PasswordFile::Read { path, contents })) matches Ok(p) ==> p.len() > 0
            && !(p.last() == '\r' || p.last() == '\n'),
{
    lemma_trim_line_ends(contents@);
}

} // verus!
