//! Resolving the server's settings from command-line options or from a
//! configuration file, with their defaults.

use vstd::prelude::*;
use crate::serve::INDEX_PAGE;

verus! {

/// Where trace output goes.
#[derive(Clone, Copy, Debug, PartialEq, Eq, Structural)]
pub enum Trace {
    Stdout,
    Stderr,
    Tmp,
}

/// The most verbose trace level that is recorded.
#[derive(Clone, Copy, Debug, PartialEq, Eq, Structural)]
pub enum Level {
    Trace,
    Debug,
    Info,
    Warn,
    Error,
    Off,
}

/// An IP address: IPv4 as its 32 bits, IPv6 as its 128 bits, most significant first.
#[derive(Clone, Copy, Debug, PartialEq, Eq, Structural)]
pub enum IpAddress {
    V4(u32),
    V6(u128),
}

/// The port the server listens on unless told otherwise.
pub const DEFAULT_PORT: u16 = 1965;

/// 127.0.0.1, the address the server listens on unless told otherwise.
pub open spec fn localhost() -> IpAddress {
    IpAddress::V4(0x7f00_0001)
}

/// The settings a configuration file may hold.
#[derive(Debug)]
pub struct ConfigFile {
    pub addr: Option<IpAddress>,
    pub port: Option<u16>,
    pub cert: Option<String>,
    pub key: Option<String>,
    pub trace: Option<Trace>,
    pub level: Option<Level>,
    pub root: Option<String>,
    pub index: Option<String>,
    pub badge: Option<String>,
    pub footer: Option<String>,
}

/// The command-line options.
#[derive(Debug)]
pub struct Args {
    /// A configuration file to read in place of the other options.
    pub config: Option<String>,
    pub addr: Option<IpAddress>,
    pub port: Option<u16>,
    pub cert: Option<String>,
    pub key: Option<String>,
    pub trace: Option<Trace>,
    pub level: Option<Level>,
    pub root: Option<String>,
    pub index: Option<String>,
    pub badge: Option<String>,
    pub footer: Option<String>,
}

/// The settings the server runs with.
#[derive(Debug)]
pub struct ResolvedArgs {
    pub addr: IpAddress,
    pub port: u16,
    pub cert: String,
    pub key: String,
    pub trace: Trace,
    pub level: Level,
    pub root: String,
    pub index: String,
    pub badge: Option<String>,
    pub footer: Option<String>,
}

/// Why the settings could not be resolved.
#[derive(Clone, Copy, Debug, PartialEq, Eq, Structural)]
pub enum ResolveError {
    /// A configuration file was named together with other options.
    ConfigWithCliOptions,
    MissingCert,
    MissingKey,
    MissingRoot,
    MissingCertInConfig,
    MissingKeyInConfig,
    MissingRootInConfig,
}

/// What resolving the command-line options leads to.
#[derive(Debug)]
pub enum Resolution {
    /// The settings, taken from the command line.
    Ready(ResolvedArgs),
    /// The configuration file at this path must be read and resolved.
    LoadConfig(String),
}

/// The text of a resolution error.
pub open spec fn resolve_error_text(e: ResolveError) -> Seq<char> {
    match e {
        ResolveError::ConfigWithCliOptions => "--config cannot be used together with CLI options"@,
        ResolveError::MissingCert => "missing cert"@,
        ResolveError::MissingKey => "missing key"@,
        ResolveError::MissingRoot => "missing root"@,
        ResolveError::MissingCertInConfig => "missing cert in config"@,
        ResolveError::MissingKeyInConfig => "missing key in config"@,
        ResolveError::MissingRootInConfig => "missing root in config"@,
    }
}

impl ResolveError {
    /// The text of the error.
    pub fn message(&self) -> (s: String)
        ensures
            s@ == resolve_error_text(*self),
    {
        match self {
            ResolveError::ConfigWithCliOptions => String::from_str(
                "--config cannot be used together with CLI options",
            ),
            ResolveError::MissingCert => String::from_str("missing cert"),
            ResolveError::MissingKey => String::from_str("missing key"),
            ResolveError::MissingRoot => String::from_str("missing root"),
            ResolveError::MissingCertInConfig => String::from_str("missing cert in config"),
            ResolveError::MissingKeyInConfig => String::from_str("missing key in config"),
            ResolveError::MissingRootInConfig => String::from_str("missing root in config"),
        }
    }
}

/// The index page a setting names, or the default one.
pub open spec fn index_or_default(index: Option<String>) -> Seq<char> {
    match index {
        Some(i) => i@,
        None => INDEX_PAGE@,
    }
}

/// Whether `r` holds the given settings, each missing optional one replaced by its default.
pub open spec fn resolved_with_defaults(
    r: ResolvedArgs,
    addr: Option<IpAddress>,
    port: Option<u16>,
    cert: String,
    key: String,
    trace: Option<Trace>,
    level: Option<Level>,
    root: String,
    index: Option<String>,
    badge: Option<String>,
    footer: Option<String>,
) -> bool {
    &&& r.addr == (match addr {
        Some(a) => a,
        None => localhost(),
    })
    &&& r.port == (match port {
        Some(p) => p,
        None => DEFAULT_PORT,
    })
    &&& r.cert == cert
    &&& r.key == key
    &&& r.trace == (match trace {
        Some(t) => t,
        None => Trace::Stderr,
    })
    &&& r.level == (match level {
        Some(l) => l,
        None => Level::Info,
    })
    &&& r.root == root
    &&& r.index@ == index_or_default(index)
    &&& r.badge == badge
    &&& r.footer == footer
}

/// Whether any option other than the configuration file was given.
pub open spec fn cli_options_given(a: Args) -> bool {
    ||| a.addr is Some
    ||| a.port is Some
    ||| a.cert is Some
    ||| a.key is Some
    ||| a.trace is Some
    ||| a.level is Some
    ||| a.root is Some
    ||| a.index is Some
    ||| a.badge is Some
    ||| a.footer is Some
}

fn index_text(index: Option<String>) -> (s: String)
    ensures
        s@ == index_or_default(index),
{
    match index {
        Some(i) => i,
        None => String::from_str(INDEX_PAGE),
    }
}

fn settings_with_defaults(
    addr: Option<IpAddress>,
    port: Option<u16>,
    cert: String,
    key: String,
    trace: Option<Trace>,
    level: Option<Level>,
    root: String,
    index: Option<String>,
    badge: Option<String>,
    footer: Option<String>,
) -> (r: ResolvedArgs)
    ensures
        resolved_with_defaults(r, addr, port, cert, key, trace, level, root, index, badge, footer),
{
    ResolvedArgs {
        addr: match addr {
            Some(a) => a,
            None => IpAddress::V4(0x7f00_0001),
        },
        port: match port {
            Some(p) => p,
            None => DEFAULT_PORT,
        },
        cert,
        key,
        trace: match trace {
            Some(t) => t,
            None => Trace::Stderr,
        },
        level: match level {
            Some(l) => l,
            None => Level::Info,
        },
        root,
        index: index_text(index),
        badge,
        footer,
    }
}

impl ConfigFile {
    /// The settings a configuration file gives: its certificate, key and root
    /// are required (in that order), the rest default.
    pub fn resolve(self) -> (res: Result<ResolvedArgs, ResolveError>)
        ensures
            self.cert is None ==> res == Err::<ResolvedArgs, ResolveError>(
                ResolveError::MissingCertInConfig,
            ),
            self.cert is Some && self.key is None ==> res == Err::<ResolvedArgs, ResolveError>(
                ResolveError::MissingKeyInConfig,
            ),
            self.cert is Some && self.key is Some && self.root is None ==> res == Err::<
                ResolvedArgs,
                ResolveError,
            >(ResolveError::MissingRootInConfig),
            self.cert is Some && self.key is Some && self.root is Some ==> res is Ok
                && resolved_with_defaults(
                res->Ok_0,
                self.addr,
                self.port,
                self.cert->0,
                self.key->0,
                self.trace,
                self.level,
                self.root->0,
                self.index,
                self.badge,
                self.footer,
            ),
            res matches Ok(r) ==> r.cert == self.cert->0,
            res matches Ok(r) ==> r.key == self.key->0,
            res matches Ok(r) ==> r.root == self.root->0,
            res matches Ok(r) ==> r.badge == self.badge && r.footer == self.footer,
            res matches Ok(r) ==> r.port == (if self.port is Some { self.port->0 } else { 1965u16 }),
            res matches Ok(r) ==> r.addr == (if self.addr is Some { self.addr->0 } else { IpAddress::V4(0x7f00_0001) }),
            res matches Ok(r) ==> r.trace == (if self.trace is Some { self.trace->0 } else { Trace::Stderr }),
            res matches Ok(r) ==> r.level == (if self.level is Some { self.level->0 } else { Level::Info }),
            res matches Ok(r) ==> r.index@ == (if self.index is Some { self.index->0@ } else { "index.gmi"@ }),
    {
        let cert = match self.cert {
            Some(c) => c,
            None => return Err(ResolveError::MissingCertInConfig),
        };
        let key = match self.key {
            Some(k) => k,
            None => return Err(ResolveError::MissingKeyInConfig),
        };
        let root = match self.root {
            Some(r) => r,
            None => return Err(ResolveError::MissingRootInConfig),
        };
        Ok(
            settings_with_defaults(
                self.addr,
                self.port,
                cert,
                key,
                self.trace,
                self.level,
                root,
                self.index,
                self.badge,
                self.footer,
            ),
        )
    }
}

impl Args {
    /// Resolves the command-line options. With `--config`, no other option may
    /// be given, and the file must then be read
    /// (and resolved with `ConfigFile::resolve`); without it, the certificate,
    /// key and root are required (in that order) and the rest default.
    pub fn resolve(self) -> (res: Result<Resolution, ResolveError>)
        ensures
            self.config is Some && cli_options_given(self) ==> res == Err::<
                Resolution,
                ResolveError,
            >(ResolveError::ConfigWithCliOptions),
            self.config is Some && !cli_options_given(self) ==> res == Ok::<
                Resolution,
                ResolveError,
            >(Resolution::LoadConfig(self.config->0)),
            self.config is None && self.cert is None ==> res == Err::<Resolution, ResolveError>(
                ResolveError::MissingCert,
            ),
            self.config is None && self.cert is Some && self.key is None ==> res == Err::<
                Resolution,
                ResolveError,
            >(ResolveError::MissingKey),
            self.config is None && self.cert is Some && self.key is Some && self.root is None
                ==> res == Err::<Resolution, ResolveError>(ResolveError::MissingRoot),
            self.config is None && self.cert is Some && self.key is Some && self.root is Some
                ==> (res matches Ok(Resolution::Ready(r)) && resolved_with_defaults(
                r,
                self.addr,
                self.port,
                self.cert->0,
                self.key->0,
                self.trace,
                self.level,
                self.root->0,
                self.index,
                self.badge,
                self.footer,
            )),
            res matches Ok(Resolution::Ready(r)) ==> self.config is None,
            res matches Ok(Resolution::LoadConfig(p)) ==> self.config == Some(p),
            res matches Ok(Resolution::Ready(r)) ==> r.cert == self.cert->0,
            res matches Ok(Resolution::Ready(r)) ==> r.key == self.key->0,
            res matches Ok(Resolution::Ready(r)) ==> r.root == self.root->0,
            res matches Ok(Resolution::Ready(r)) ==> r.badge == self.badge && r.footer == self.footer,
            res matches Ok(Resolution::Ready(r)) ==> r.port == (if self.port is Some { self.port->0 } else { 1965u16 }),
            res matches Ok(Resolution::Ready(r)) ==> r.addr == (if self.addr is Some { self.addr->0 } else { IpAddress::V4(0x7f00_0001) }),
            res matches Ok(Resolution::Ready(r)) ==> r.trace == (if self.trace is Some { self.trace->0 } else { Trace::Stderr }),
            res matches Ok(Resolution::Ready(r)) ==> r.level == (if self.level is Some { self.level->0 } else { Level::Info }),
            res matches Ok(Resolution::Ready(r)) ==> r.index@ == (if self.index is Some { self.index->0@ } else { "index.gmi"@ }),
    {
        if let Some(path) = self.config {
            if self.addr.is_some() || self.port.is_some() || self.cert.is_some()
                || self.key.is_some() || self.trace.is_some() || self.level.is_some()
                || self.root.is_some() || self.index.is_some() || self.badge.is_some()
                || self.footer.is_some() {
                return Err(ResolveError::ConfigWithCliOptions);
            }
            return Ok(Resolution::LoadConfig(path));
        }
        let cert = match self.cert {
            Some(c) => c,
            None => return Err(ResolveError::MissingCert),
        };
        let key = match self.key {
            Some(k) => k,
            None => return Err(ResolveError::MissingKey),
        };
        let root = match self.root {
            Some(r) => r,
            None => return Err(ResolveError::MissingRoot),
        };
        Ok(
            Resolution::Ready(
                settings_with_defaults(
                    self.addr,
                    self.port,
                    cert,
                    key,
                    self.trace,
                    self.level,
                    root,
                    self.index,
                    self.badge,
                    self.footer,
                ),
            ),
        )
    }
}

} // verus!
