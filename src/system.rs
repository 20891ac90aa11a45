use vstd::prelude::*;
use vstd::string::*;

use crate::text::same_text;

verus! {

/// What the UI is told about the machine it runs on.
pub struct SystemInfo {
    release: String,
    arch: String,
}

impl SystemInfo {
    /// The operating system's release text.
    pub closed spec fn release_text(&self) -> Seq<char> {
        self.release@
    }

    /// The processor architecture's name.
    pub closed spec fn arch_text(&self) -> Seq<char> {
        self.arch@
    }

    pub fn new(release: String, arch: String) -> (r: SystemInfo)
        ensures
            r.release_text() == release@,
            r.arch_text() == arch@,
    {
        SystemInfo { release, arch }
    }

    pub fn release(&self) -> (r: &String)
        ensures
            r@ == self.release_text(),
    {
        &self.release
    }

    pub fn arch(&self) -> (r: &String)
        ensures
            r@ == self.arch_text(),
    {
        &self.arch
    }
}

/// How much the application logs.
#[derive(Clone, Copy, Debug, PartialEq, Eq, Structural)]
pub enum LogLevel {
    Error,
    Info,
    Debug,
}

/// The level named by the `log_level` setting.
pub open spec fn log_level_spec(name: Option<String>) -> LogLevel {
    match name {
        Some(n) => if n@ == "err"@ {
            LogLevel::Error
        } else if n@ == "debug"@ || n@ == "all"@ {
            LogLevel::Debug
        } else {
            LogLevel::Info
        },
        None => LogLevel::Info,
    }
}

/// Reads the `log_level` setting: `err` logs errors only, `debug` and `all`
/// log everything, anything else or nothing logs informational messages.
pub fn log_level_for(name: &Option<String>) -> (r: LogLevel)
    ensures
        r == log_level_spec(*name),
{
    proof {
        reveal_strlit("err");
        reveal_strlit("debug");
        reveal_strlit("all");
    }
    match name {
        Some(n) => {
            if same_text(n.as_str(), "err") {
                LogLevel::Error
            } else if same_text(n.as_str(), "debug") || same_text(n.as_str(), "all") {
                LogLevel::Debug
            } else {
                LogLevel::Info
            }
        },
        None => LogLevel::Info,
    }
}

/// Values fixed once at startup and handed to the commands that need them.
#[derive(Clone, Copy, Debug, PartialEq, Eq, Structural)]
pub struct StartupConfig {
    /// The port the local HTTP proxy listens on.
    pub proxy_port: u16,
}

/// The platform name the UI expects for a target operating system.
pub open spec fn platform_spec(os: Seq<char>) -> Seq<char> {
    if os == "windows"@ {
        "win32"@
    } else if os == "macos"@ {
        "darwin"@
    } else {
        "linux"@
    }
}

/// Maps the target operating system (`windows`, `macos`, ...) to `win32`,
/// `darwin`, or `linux` for every other system.
pub fn platform_name(os: &str) -> (r: String)
    ensures
        r@ == platform_spec(os@),
{
    proof {
        reveal_strlit("windows");
        reveal_strlit("macos");
        reveal_strlit("win32");
        reveal_strlit("darwin");
        reveal_strlit("linux");
    }
    if same_text(os, "windows") {
        String::from_str("win32")
    } else if same_text(os, "macos") {
        String::from_str("darwin")
    } else {
        String::from_str("linux")
    }
}

} // verus!
