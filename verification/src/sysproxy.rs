//! System proxy settings as plain values: what to set, where it can be set,
//! and how a failure to set it reads.

use vstd::prelude::*;
use vstd::string::*;

verus! {

/// The operating system that the program runs on.
#[derive(Clone, Copy, Debug, PartialEq, Eq, Structural)]
pub enum TargetOs {
    Linux,
    MacOs,
    Windows,
    /// Any other system.
    Other,
}

impl TargetOs {
    /// Whether the system has proxy settings that can be read and set.
    pub open spec fn has_proxy_settings(self) -> bool {
        !(self is Other)
    }
}

/// A manual proxy configuration.
#[derive(Debug, Clone, PartialEq, Eq)]
pub struct Sysproxy {
    pub enable: bool,
    pub host: String,
    pub port: Option<u16>,
    pub bypass: String,
}

/// A manual proxy configuration as a mathematical value.
pub struct SysproxyView {
    pub enable: bool,
    pub host: Seq<char>,
    pub port: Option<u16>,
    pub bypass: Seq<char>,
}

impl View for Sysproxy {
    type V = SysproxyView;

    open spec fn view(&self) -> SysproxyView {
        SysproxyView {
            enable: self.enable,
            host: self.host@,
            port: self.port,
            bypass: self.bypass@,
        }
    }
}

impl Default for Sysproxy {
    /// A disabled configuration with empty host and bypass list and no port.
    fn default() -> (settings: Sysproxy)
        ensures
            settings@ == (SysproxyView {
                enable: false,
                host: Seq::empty(),
                port: None,
                bypass: Seq::empty(),
            }),
    {
        Sysproxy { enable: false, host: String::new(), port: None, bypass: String::new() }
    }
}

impl Sysproxy {
    /// Whether manual proxy settings are supported on `os`.
    pub fn is_support(os: TargetOs) -> (supported: bool)
        ensures
            supported == os.has_proxy_settings(),
    {
        match os {
            TargetOs::Linux | TargetOs::MacOs | TargetOs::Windows => true,
            TargetOs::Other => false,
        }
    }

    /// The configuration for a proxy given by host and port.
    pub fn manual(enable: bool, host: String, port: u16, bypass: String) -> (settings: Sysproxy)
        ensures
            settings@ == (SysproxyView {
                enable,
                host: host@,
                port: Some(port),
                bypass: bypass@,
            }),
    {
        Sysproxy { enable, host, port: Some(port), bypass }
    }

    /// The configuration for a proxy given by a URL that stands in the host's
    /// place, without a port of its own.
    pub fn by_url(enable: bool, url: String, bypass: String) -> (settings: Sysproxy)
        ensures
            settings@ == (SysproxyView { enable, host: url@, port: None, bypass: bypass@ }),
    {
        Sysproxy { enable, host: url, port: None, bypass }
    }
}

/// An automatic proxy configuration: the URL of a configuration script.
#[derive(Debug, Clone, PartialEq, Eq)]
pub struct Autoproxy {
    pub enable: bool,
    pub url: String,
}

/// An automatic proxy configuration as a mathematical value.
pub struct AutoproxyView {
    pub enable: bool,
    pub url: Seq<char>,
}

impl View for Autoproxy {
    type V = AutoproxyView;

    open spec fn view(&self) -> AutoproxyView {
        AutoproxyView { enable: self.enable, url: self.url@ }
    }
}

impl Default for Autoproxy {
    /// A disabled configuration with an empty URL.
    fn default() -> (settings: Autoproxy)
        ensures
            settings@ == (AutoproxyView { enable: false, url: Seq::empty() }),
    {
        Autoproxy { enable: false, url: String::new() }
    }
}

impl Autoproxy {
    /// Whether automatic proxy settings are supported on `os`.
    pub fn is_support(os: TargetOs) -> (supported: bool)
        ensures
            supported == os.has_proxy_settings(),
    {
        match os {
            TargetOs::Linux | TargetOs::MacOs | TargetOs::Windows => true,
            TargetOs::Other => false,
        }
    }

    /// The configuration for the script at `url`.
    pub fn new(enable: bool, url: String) -> (settings: Autoproxy)
        ensures
            settings@ == (AutoproxyView { enable, url: url@ }),
    {
        Autoproxy { enable, url }
    }
}

/// Why proxy settings could not be read or set.
#[derive(Debug, Clone, PartialEq, Eq)]
pub enum Error {
    /// A setting held a string that could not be parsed; the string is kept.
    ParseStr(String),
    /// Input or output failed; the failure's own message is kept.
    Io(String),
    /// No default network interface was found.
    NetworkInterface,
    /// The environment has no proxy settings that could be set.
    NotSupport,
    /// The base directories could not be determined; the failure's own
    /// message is kept.
    Xdg(String),
    /// A call into the operating system failed.
    SystemCall,
}

impl Error {
    /// The message of this error.
    pub open spec fn text(self) -> Seq<char> {
        match self {
            Error::ParseStr(string) => "failed to parse string `"@ + string@ + "`"@,
            Error::Io(message) => message@,
            Error::NetworkInterface => "failed to get default network interface"@,
            Error::NotSupport => "failed to set proxy for this environment"@,
            Error::Xdg(message) => message@,
            Error::SystemCall => "system call failed"@,
        }
    }

    /// The message of this error, as it is shown to the user.
    pub fn message(&self) -> (message: String)
        ensures
            message@ == self.text(),
    {
        match self {
            Error::ParseStr(string) => {
                let mut message = String::from_str("failed to parse string `");
                message.append(string.as_str());
                message.append("`");
                message
            },
            Error::Io(message) => message.clone(),
            Error::NetworkInterface => String::from_str(
                "failed to get default network interface",
            ),
            Error::NotSupport => String::from_str("failed to set proxy for this environment"),
            Error::Xdg(message) => message.clone(),
            Error::SystemCall => String::from_str("system call failed"),
        }
    }
}

/// What an attempt to apply settings reports to the caller: success as it
/// is, a failure by its message.
pub fn report(outcome: Result<(), Error>) -> (reported: Result<(), String>)
    ensures
        match outcome {
            Ok(_) => reported is Ok,
            Err(error) => reported matches Err(message) && message@ == error.text(),
        },
{
    match outcome {
        Ok(_) => Ok(()),
        Err(error) => Err(error.message()),
    }
}

} // verus!
