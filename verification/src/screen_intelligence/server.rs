//! State and configuration of the screen intelligence server.

use vstd::prelude::*;
use crate::text::{decimal, owned, push_str, u64_to_string};

verus! {

/// Running state of the screen intelligence server.
#[derive(Debug, Clone, Copy, PartialEq, Eq, Structural)]
pub enum ServerState {
    /// Server is not running.
    Stopped,
    /// Server is running, engine ready, no active session.
    Idle,
    /// Active capture session is running.
    Capturing,
    /// Active capture + vision analysis session.
    CaptureAndVision,
}

impl ServerState {
    /// The state's name on the wire (snake case).
    pub fn as_str(&self) -> (s: &'static str)
        ensures
            s@ == match *self {
                ServerState::Stopped => "stopped"@,
                ServerState::Idle => "idle"@,
                ServerState::Capturing => "capturing"@,
                ServerState::CaptureAndVision => "capture_and_vision"@,
            },
    {
        match self {
            ServerState::Stopped => "stopped",
            ServerState::Idle => "idle",
            ServerState::Capturing => "capturing",
            ServerState::CaptureAndVision => "capture_and_vision",
        }
    }
}

/// Status snapshot of the screen intelligence server; `E` is the engine's
/// own status report.
#[derive(Debug, Clone)]
pub struct SiServerStatus<E> {
    pub state: ServerState,
    pub port: u16,
    pub engine_status: E,
}

/// Configuration for the standalone screen intelligence server.
#[derive(Debug, Clone)]
pub struct SiServerConfig {
    /// HTTP listen port.
    pub port: u16,
    /// Whether to auto-start a capture session on boot.
    pub auto_start_session: bool,
    /// Session TTL when auto-starting (seconds).
    pub session_ttl_secs: u64,
    /// Enable vision analysis in auto-started sessions.
    pub vision_enabled: bool,
}

/// The port the server listens on unless configured otherwise.
pub const DEFAULT_PORT: u16 = 7797;

impl Default for SiServerConfig {
    fn default() -> (c: Self)
        ensures
            c.port == DEFAULT_PORT,
            !c.auto_start_session,
            c.session_ttl_secs == 300,
            c.vision_enabled,
    {
        Self { port: DEFAULT_PORT, auto_start_session: false, session_ttl_secs: 300, vision_enabled: true }
    }
}

impl SiServerConfig {
    /// The configuration of the server embedded in the core process: no
    /// HTTP listener of its own and no auto-started session; the session
    /// TTL and vision flag come from the application's configuration.
    pub fn embedded(session_ttl_secs: u64, vision_enabled: bool) -> (c: Self)
        ensures
            c.port == DEFAULT_PORT,
            !c.auto_start_session,
            c.session_ttl_secs == session_ttl_secs,
            c.vision_enabled == vision_enabled,
    {
        Self { port: DEFAULT_PORT, auto_start_session: false, session_ttl_secs, vision_enabled }
    }
}

/// The state a freshly built server is in.
pub fn initial_state() -> (s: ServerState)
    ensures
        s == ServerState::Stopped,
{
    ServerState::Stopped
}

/// The state after a capture session started, with or without vision.
pub fn session_state(vision_enabled: bool) -> (s: ServerState)
    ensures
        s == (if vision_enabled {
            ServerState::CaptureAndVision
        } else {
            ServerState::Capturing
        }),
{
    if vision_enabled {
        ServerState::CaptureAndVision
    } else {
        ServerState::Capturing
    }
}

/// A status snapshot from the server's state, its configuration and the
/// engine's status.
pub fn status_of<E>(state: ServerState, config: &SiServerConfig, engine_status: E) -> (s: SiServerStatus<E>)
    ensures
        s.state == state,
        s.port == config.port,
        s.engine_status == engine_status,
{
    SiServerStatus { state, port: config.port, engine_status }
}


/// What happens to a running server.
#[derive(Debug, Clone, Copy, PartialEq, Eq, Structural)]
pub enum ServerEvent {
    /// The engine took the configuration; the server is up.
    EngineReady,
    /// The auto-started capture session began, with or without vision.
    SessionStarted { vision_enabled: bool },
    /// The auto-started session could not begin.
    SessionFailed,
    /// The HTTP listener could not bind its port.
    BindFailed,
    /// Serving ended with an error.
    ServeFailed,
    /// The server was cancelled.
    Cancelled,
}

/// The state after an event: ready means idle, a session means capturing,
/// a failed session changes nothing, and a server that stopped serving, for
/// whatever reason, is stopped.
pub fn next_state(state: ServerState, event: ServerEvent) -> (s: ServerState)
    ensures
        s == match event {
            ServerEvent::EngineReady => ServerState::Idle,
            ServerEvent::SessionStarted { vision_enabled } => if vision_enabled {
                ServerState::CaptureAndVision
            } else {
                ServerState::Capturing
            },
            ServerEvent::SessionFailed => state,
            ServerEvent::BindFailed => ServerState::Stopped,
            ServerEvent::ServeFailed => ServerState::Stopped,
            ServerEvent::Cancelled => ServerState::Stopped,
        },
{
    match event {
        ServerEvent::EngineReady => ServerState::Idle,
        ServerEvent::SessionStarted { vision_enabled } => session_state(vision_enabled),
        ServerEvent::SessionFailed => state,
        ServerEvent::BindFailed => ServerState::Stopped,
        ServerEvent::ServeFailed => ServerState::Stopped,
        ServerEvent::Cancelled => ServerState::Stopped,
    }
}


/// The address the server listens on for a port.
pub fn bind_addr(port: u16) -> (a: String)
    ensures
        a@ == "127.0.0.1:"@ + decimal(port as nat),
{
    let mut a = owned("127.0.0.1:");
    push_str(&mut a, u64_to_string(port as u64).as_str());
    a
}

/// The error of a server whose listener could not bind `port`.
pub fn bind_error(port: u16, err: &str) -> (m: String)
    ensures
        m@ == "failed to bind 127.0.0.1:"@ + decimal(port as nat) + ": "@ + err@,
{
    let mut m = owned("failed to bind ");
    push_str(&mut m, bind_addr(port).as_str());
    push_str(&mut m, ": ");
    push_str(&mut m, err);
    proof {
        assert(("failed to bind "@ + ("127.0.0.1:"@ + decimal(port as nat))) =~= "failed to bind 127.0.0.1:"@ + decimal(port as nat)) by {
            reveal_strlit("failed to bind ");
            reveal_strlit("127.0.0.1:");
            reveal_strlit("failed to bind 127.0.0.1:");
        }
    }
    m
}

/// The error of a server whose serving ended with `err`.
pub fn serve_error(err: &str) -> (m: String)
    ensures
        m@ == "server error: "@ + err@,
{
    let mut m = owned("server error: ");
    push_str(&mut m, err);
    m
}

} // verus!
