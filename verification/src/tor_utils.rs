//! What the overlay process is started with: its directories, the ports it
//! relays between, and the settings of its two modes.

use crate::decimal::{decimal, push_decimal};
use crate::random::sample_range;
use crate::text::{chars_of, opt_text, push_str, string_of, trim, trimmed};
use vstd::prelude::*;

verus! {

/// The pause between two looks at the hostname record, in milliseconds.
pub const HOSTNAME_POLL_MS: u64 = 50;

/// The smallest local port that is drawn.
pub const FIRST_PORT: u16 = 1024;

/// One more than the largest local port that is drawn.
pub const PORT_LIMIT: u16 = 65535;

/// The port under which a hidden service is reached.
pub const SERVICE_PORT: u16 = 80;

/// Where the user wants the overlay process to keep its files.
#[derive(Debug, Clone, PartialEq, Eq)]
pub struct TorDirOptions {
    pub tor_dir: Option<String>,
    pub tor_dir_hs: Option<String>,
}

/// The directories of one run of the overlay process: its state, and the
/// descriptor of the hidden service.
#[derive(Debug, PartialEq, Eq)]
pub struct TorDirectory {
    pub tor: String,
    pub hidden_service: String,
    /// Whether the directory was made for this run and is removed with it.
    pub temporary: bool,
}

/// Where a hidden service listens locally, and the port it is reached under.
#[derive(Debug, Clone, PartialEq, Eq)]
pub struct TorHiddenServiceConfig {
    pub local_host: String,
    pub local_port: u16,
    pub remote_port: u16,
}

/// The local relay a client sends its requests through.
#[derive(Debug, Clone, PartialEq, Eq)]
pub struct TorSocks5 {
    pub host: String,
    pub port: u16,
}

/// One setting of the overlay process.
#[derive(Debug, Clone, PartialEq, Eq)]
pub enum TorSetting {
    /// The directory of the process's state.
    DataDirectory(String),
    /// The port of the local relay; `0` for none.
    SocksPort(u16),
    /// The port of the control connection; `0` for none.
    ControlPort(u16),
    /// The directory of the hidden service's descriptor.
    HiddenServiceDir(String),
    /// The hidden service speaks version 3 of the protocol.
    HiddenServiceVersion3,
    /// Requests to the service's `remote_port` go to `local_host:local_port`.
    HiddenServicePort { remote_port: u16, local_host: String, local_port: u16 },
    /// Messages of level notice and above go to this file.
    LogNoticesTo(String),
}

/// `leaf` under the directory `dir`.
pub open spec fn joined(dir: Seq<char>, leaf: Seq<char>) -> Seq<char> {
    if dir.len() == 0 {
        leaf
    } else if dir.last() == '/' {
        dir + leaf
    } else {
        dir + seq!['/'] + leaf
    }
}

/// The hostname a record holds: its text without surrounding whitespace. A
/// record that is missing, or holds nothing else, gives none yet.
pub open spec fn recorded_hostname(contents: Option<Seq<char>>) -> Option<Seq<char>> {
    match contents {
        Some(c) if trimmed(c).len() > 0 => Some(trimmed(c)),
        _ => None,
    }
}

/// The text of a relay's address.
pub open spec fn socks5_url(host: Seq<char>, port: u16) -> Seq<char> {
    "socks5h://"@ + host + seq![':'] + decimal(port as nat)
}

/// Computes `joined`.
pub fn join(dir: &str, leaf: &str) -> (r: String)
    ensures
        r@ == joined(dir@, leaf@),
{
    let mut path = chars_of(dir);
    let n = path.len();
    if n > 0 && path[n - 1] != '/' {
        path.push('/');
    }
    push_str(&mut path, leaf);
    assert(path@ =~= joined(dir@, leaf@));
    string_of(path.as_slice())
}

/// Reads the hostname out of what the record file held, if it was there.
pub fn hostname_from_record(contents: Option<&str>) -> (r: Option<String>)
    ensures
        match recorded_hostname(opt_text(contents)) {
            Some(h) => r matches Some(s) && s@ == h,
            None => r is None,
        },
{
    match contents {
        None => None,
        Some(c) => {
            let text = chars_of(c);
            let hostname = trim(text.as_slice());
            if hostname.len() == 0 {
                None
            } else {
                Some(string_of(hostname.as_slice()))
            }
        },
    }
}

/// A port between `FIRST_PORT` and `PORT_LIMIT`, the latter excluded. Whether
/// it is free is not known.
pub fn random_port() -> (port: u16)
    ensures
        FIRST_PORT <= port < PORT_LIMIT,
{
    sample_range(FIRST_PORT, PORT_LIMIT)
}

impl TorDirectory {
    /// The directories under a temporary directory at `path`, which the
    /// caller has made for this run.
    pub fn from_tempdir(path: &str) -> (r: TorDirectory)
        ensures
            r.tor@ == path@,
            r.hidden_service@ == joined(path@, "hs"@),
            r.temporary,
    {
        TorDirectory { tor: path.to_owned(), hidden_service: join(path, "hs"), temporary: true }
    }

    /// The directories the user asked for. Without a state directory there
    /// are none: the caller makes a temporary one and goes on with
    /// `from_tempdir`. The descriptor's directory is `hs` under the state
    /// directory unless the user names another.
    pub fn from_general_options(tor_dir_options: &TorDirOptions) -> (r: Option<TorDirectory>)
        ensures
            match tor_dir_options.tor_dir {
                None => r is None,
                Some(dir) => {
                    &&& r matches Some(d)
                    &&& d.tor == dir
                    &&& !d.temporary
                    &&& match tor_dir_options.tor_dir_hs {
                        Some(hs) => d.hidden_service == hs,
                        None => d.hidden_service@ == joined(dir@, "hs"@),
                    }
                },
            },
    {
        match &tor_dir_options.tor_dir {
            None => None,
            Some(dir) => {
                let hidden_service = match &tor_dir_options.tor_dir_hs {
                    Some(hs) => hs.clone(),
                    None => join(dir.as_str(), "hs"),
                };
                Some(TorDirectory { tor: dir.clone(), hidden_service, temporary: false })
            },
        }
    }

    /// Gives the directory up. The answer says whether the caller has to
    /// remove it, which is so once, for a directory that was made for this
    /// run; any later call answers no.
    pub fn drop_if_temp(&mut self) -> (remove: bool)
        ensures
            remove == old(self).temporary,
            !final(self).temporary,
            final(self).tor == old(self).tor,
            final(self).hidden_service == old(self).hidden_service,
    {
        let remove = self.temporary;
        self.temporary = false;
        remove
    }

    /// The file in which the overlay process records the service's hostname.
    pub fn hostname_record(&self) -> (r: String)
        ensures
            r@ == self.hidden_service@ + "/hostname"@,
    {
        let mut path = chars_of(self.hidden_service.as_str());
        push_str(&mut path, "/hostname");
        string_of(path.as_slice())
    }
}

impl TorHiddenServiceConfig {
    /// A service reached under `SERVICE_PORT` that listens on a random local
    /// port.
    pub fn from_random_port() -> (r: TorHiddenServiceConfig)
        ensures
            r.local_host@ == "127.0.0.1"@,
            FIRST_PORT <= r.local_port < PORT_LIMIT,
            r.remote_port == SERVICE_PORT,
    {
        TorHiddenServiceConfig {
            local_host: "127.0.0.1".to_owned(),
            local_port: random_port(),
            remote_port: SERVICE_PORT,
        }
    }
}

impl TorSocks5 {
    /// A relay on a random local port.
    pub fn from_random_port() -> (r: TorSocks5)
        ensures
            r.host@ == "127.0.0.1"@,
            FIRST_PORT <= r.port < PORT_LIMIT,
    {
        TorSocks5 { host: "127.0.0.1".to_owned(), port: random_port() }
    }

    /// The address a client is configured with.
    pub fn to_string(&self) -> (s: String)
        ensures
            s@ == socks5_url(self.host@, self.port),
    {
        let mut text: Vec<char> = Vec::new();
        push_str(&mut text, "socks5h://");
        push_str(&mut text, self.host.as_str());
        text.push(':');
        push_decimal(&mut text, self.port as u64);
        string_of(text.as_slice())
    }
}

/// The settings of a process that publishes a hidden service: no relay and
/// no control port, the service's directory and version, the port mapping,
/// and notices kept off the terminal.
pub fn hidden_service_settings(tor_dir: &TorDirectory, config: &TorHiddenServiceConfig) -> (r: Vec<
    TorSetting,
>)
    ensures
        r@.len() == 7,
        r@[0] == TorSetting::DataDirectory(tor_dir.tor),
        r@[1] == TorSetting::SocksPort(0),
        r@[2] == TorSetting::ControlPort(0),
        r@[3] == TorSetting::HiddenServiceDir(tor_dir.hidden_service),
        r@[4] == TorSetting::HiddenServiceVersion3,
        r@[5] == (TorSetting::HiddenServicePort {
            remote_port: config.remote_port,
            local_host: config.local_host,
            local_port: config.local_port,
        }),
        r@[6] matches TorSetting::LogNoticesTo(file) && file@ == "/dev/null"@,
{
    let mut settings: Vec<TorSetting> = Vec::new();
    settings.push(TorSetting::DataDirectory(tor_dir.tor.clone()));
    settings.push(TorSetting::SocksPort(0));
    settings.push(TorSetting::ControlPort(0));
    settings.push(TorSetting::HiddenServiceDir(tor_dir.hidden_service.clone()));
    settings.push(TorSetting::HiddenServiceVersion3);
    settings.push(
        TorSetting::HiddenServicePort {
            remote_port: config.remote_port,
            local_host: config.local_host.clone(),
            local_port: config.local_port,
        },
    );
    settings.push(TorSetting::LogNoticesTo("/dev/null".to_owned()));
    settings
}

/// The settings of a process that relays a client's requests: its state
/// directory, no control port, and the relay's port.
pub fn socks5_settings(tor_dir: &TorDirectory, socks5: &TorSocks5) -> (r: Vec<TorSetting>)
    ensures
        r@ == seq![
            TorSetting::DataDirectory(tor_dir.tor),
            TorSetting::ControlPort(0),
            TorSetting::SocksPort(socks5.port),
        ],
{
    let mut settings: Vec<TorSetting> = Vec::new();
    settings.push(TorSetting::DataDirectory(tor_dir.tor.clone()));
    settings.push(TorSetting::ControlPort(0));
    settings.push(TorSetting::SocksPort(socks5.port));
    assert(settings@ =~= seq![
        TorSetting::DataDirectory(tor_dir.tor),
        TorSetting::ControlPort(0),
        TorSetting::SocksPort(socks5.port),
    ]);
    settings
}

} // verus!
