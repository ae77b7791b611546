//! Where Ollama is installed from and where its binary is looked for.
//!
//! The installer is a shell one-liner per platform (PowerShell on Windows,
//! the install script through `sh` on macOS and Linux); other platforms
//! are not supported. The binary is looked for first at `$OLLAMA_BIN` (when
//! set and not blank), then on `PATH`, then at the platform's usual
//! install locations.

use vstd::prelude::*;
use crate::text::{blank, is_blank, owned, push_str};

verus! {

/// The platforms the installer knows.
#[derive(Debug, Clone, Copy, PartialEq, Eq, Structural)]
pub enum Platform {
    Windows,
    MacOs,
    Linux,
    Other,
}

/// A command that installs Ollama, and what its failure to start is
/// reported as.
#[derive(Debug, Clone)]
pub struct InstallCommand {
    pub program: &'static str,
    pub args: Vec<&'static str>,
    pub failure_context: &'static str,
}

/// The installer of a platform; `None` where none is supported.
pub fn install_command(os: Platform) -> (r: Option<InstallCommand>)
    ensures
        match os {
            Platform::Windows => r matches Some(c) && c.program@ == "powershell"@ && c.args@.len() == 5
                && c.args@[0]@ == "-NoProfile"@ && c.args@[1]@ == "-ExecutionPolicy"@
                && c.args@[2]@ == "Bypass"@ && c.args@[3]@ == "-Command"@
                && c.args@[4]@ == "irm https://ollama.com/install.ps1 | iex"@
                && c.failure_context@ == "failed to execute Ollama PowerShell installer"@,
            Platform::MacOs => r matches Some(c) && c.program@ == "sh"@ && c.args@.len() == 2
                && c.args@[0]@ == "-lc"@ && c.args@[1]@ == "curl -fsSL https://ollama.com/install.sh | sh -mac"@
                && c.failure_context@ == "failed to execute Ollama macOS installer"@,
            Platform::Linux => r matches Some(c) && c.program@ == "sh"@ && c.args@.len() == 2
                && c.args@[0]@ == "-lc"@ && c.args@[1]@ == "curl -fsSL https://ollama.com/install.sh | sh"@
                && c.failure_context@ == "failed to execute Ollama Linux installer"@,
            Platform::Other => r is None,
        },
{
    match os {
        Platform::Windows => Some(InstallCommand {
            program: "powershell",
            args: vec!["-NoProfile", "-ExecutionPolicy", "Bypass", "-Command", "irm https://ollama.com/install.ps1 | iex"],
            failure_context: "failed to execute Ollama PowerShell installer",
        }),
        Platform::MacOs => Some(InstallCommand {
            program: "sh",
            args: vec!["-lc", "curl -fsSL https://ollama.com/install.sh | sh -mac"],
            failure_context: "failed to execute Ollama macOS installer",
        }),
        Platform::Linux => Some(InstallCommand {
            program: "sh",
            args: vec!["-lc", "curl -fsSL https://ollama.com/install.sh | sh"],
            failure_context: "failed to execute Ollama Linux installer",
        }),
        Platform::Other => None,
    }
}

/// The error for a platform without an installer.
pub fn unsupported_platform_error(os: &str, arch: &str) -> (r: String)
    ensures
        r@ == "Unsupported platform for automatic Ollama install: "@ + os@ + "-"@ + arch@,
{
    let mut r = owned("Unsupported platform for automatic Ollama install: ");
    push_str(&mut r, os);
    push_str(&mut r, "-");
    push_str(&mut r, arch);
    r
}

/// The file name of the binary.
pub fn binary_name(os: Platform) -> (r: &'static str)
    ensures
        r@ == if os == Platform::Windows {
            "ollama.exe"@
        } else {
            "ollama"@
        },
{
    if os == Platform::Windows {
        "ollama.exe"
    } else {
        "ollama"
    }
}

/// The usual install locations of a platform, in the order they are tried.
pub fn common_locations(os: Platform) -> (r: Vec<&'static str>)
    ensures
        os == Platform::MacOs ==> r@.len() == 2 && r@[0]@ == "/usr/local/bin/ollama"@
            && r@[1]@ == "/opt/homebrew/bin/ollama"@,
        os == Platform::Linux ==> r@.len() == 2 && r@[0]@ == "/usr/local/bin/ollama"@
            && r@[1]@ == "/usr/bin/ollama"@,
        os == Platform::Windows || os == Platform::Other ==> r@.len() == 0,
{
    match os {
        Platform::MacOs => vec!["/usr/local/bin/ollama", "/opt/homebrew/bin/ollama"],
        Platform::Linux => vec!["/usr/local/bin/ollama", "/usr/bin/ollama"],
        _ => Vec::new(),
    }
}

/// The `OLLAMA_BIN` override: its value as given, unless it is blank.
pub fn env_override(value: Option<String>) -> (r: Option<String>)
    ensures
        match value {
            Some(v) => if is_blank(v@) {
                r is None
            } else {
                r matches Some(x) && x@ == v@
            },
            None => r is None,
        },
{
    match value {
        Some(v) => if blank(v.as_str()) {
            None
        } else {
            Some(v)
        },
        None => None,
    }
}

} // verus!
