//! The scanner session: at most one supervised proxy at a time.
use vstd::prelude::*;
use crate::text::{decimal, join2, port_text};

verus! {

/// The platform descriptor of a spawned child, used to terminate its tree.
#[derive(Debug, Clone, Copy, PartialEq, Eq, Structural)]
pub struct PlatformProcess {
    pub pid: u32,
}

/// Handle to a spawned proxy, owned by the session.
#[derive(Debug, PartialEq, Eq, Structural)]
pub struct MitmproxyChild {
    pub platform: PlatformProcess,
}

impl MitmproxyChild {
    pub fn new(platform: PlatformProcess) -> (r: Self)
        ensures
            r.platform == platform,
    {
        MitmproxyChild { platform }
    }

    /// Names the process tree to terminate; delivering the signal is the
    /// caller's work. Terminating never fails at this level.
    pub fn kill_tree(&self) -> (r: Result<PlatformProcess, String>)
        ensures
            r == Ok::<PlatformProcess, String>(self.platform),
    {
        Ok(self.platform)
    }
}

/// What an active session holds.
#[derive(Debug)]
pub struct TcpStreamHandle {
    /// Raised once to end the relay bridge; never lowered.
    pub shutdown_flag: bool,
    pub mitmweb_child: Option<MitmproxyChild>,
}

/// Why a start or a stop was refused.
#[derive(Debug, PartialEq, Eq)]
pub enum SessionError {
    AlreadyRunning,
    NotRunning,
    SpawnFailed(String),
}

pub open spec fn error_text(e: SessionError) -> Seq<char> {
    match e {
        SessionError::AlreadyRunning => "Scanner already running"@,
        SessionError::NotRunning => "Scanner not running"@,
        SessionError::SpawnFailed(m) => "Failed to spawn mitmweb: "@ + m@,
    }
}

impl SessionError {
    /// The text shown to the caller for this error.
    pub fn message(&self) -> (r: String)
        ensures
            r@ == error_text(*self),
    {
        match self {
            SessionError::AlreadyRunning => "Scanner already running".to_owned(),
            SessionError::NotRunning => "Scanner not running".to_owned(),
            SessionError::SpawnFailed(m) => join2("Failed to spawn mitmweb: ", m.as_str()),
        }
    }
}

pub open spec fn started_text(port: u16) -> Seq<char> {
    "network scanner started - mitmweb listening on port "@ + decimal(port as nat)
}

pub open spec fn stopped_text() -> Seq<char> {
    "TCP scanner stopped"@
}

/// The session slot: active exactly while it holds a handle.
#[derive(Debug)]
pub struct TcpScannerState {
    pub connection: Option<TcpStreamHandle>,
}

impl TcpScannerState {
    pub open spec fn active(&self) -> bool {
        self.connection is Some
    }
}

/// The session after a start attempt with what spawning gave, and whether
/// the start succeeded.
pub open spec fn start_outcome(s: TcpScannerState, spawned: Result<MitmproxyChild, String>) -> (
    TcpScannerState,
    Result<(), SessionError>,
) {
    if s.active() {
        (s, Err(SessionError::AlreadyRunning))
    } else {
        match spawned {
            Ok(c) => (
                TcpScannerState {
                    connection: Some(TcpStreamHandle { shutdown_flag: false, mitmweb_child: Some(c) }),
                },
                Ok(()),
            ),
            Err(e) => (s, Err(SessionError::SpawnFailed(e))),
        }
    }
}

/// The session after a stop attempt, and the handle it gave up, with its
/// shutdown flag raised.
pub open spec fn stop_outcome(s: TcpScannerState) -> (TcpScannerState, Result<TcpStreamHandle, SessionError>) {
    match s.connection {
        Some(h) => (
            TcpScannerState { connection: None },
            Ok(TcpStreamHandle { shutdown_flag: true, mitmweb_child: h.mitmweb_child }),
        ),
        None => (s, Err(SessionError::NotRunning)),
    }
}

pub open spec fn unit_result<T>(r: Result<T, SessionError>) -> Result<(), SessionError> {
    match r {
        Ok(_) => Ok(()),
        Err(e) => Err(e),
    }
}

impl TcpScannerState {
    pub fn new() -> (r: Self)
        ensures
            !r.active(),
    {
        TcpScannerState { connection: None }
    }

    /// Whether a session is active; a caller spawns a proxy only when not.
    pub fn is_running(&self) -> (r: bool)
        ensures
            r == self.active(),
    {
        self.connection.is_some()
    }

    /// Completes a start with the outcome of spawning the proxy for `port`.
    /// An active session is left untouched and refuses; otherwise a spawned
    /// child becomes the session's, with a fresh lowered shutdown flag.
    pub fn start(&mut self, spawned: Result<MitmproxyChild, String>, port: u16) -> (r: Result<String, SessionError>)
        ensures
            (*final(self), unit_result(r)) == start_outcome(*old(self), spawned),
            r matches Ok(t) ==> t@ == started_text(port),
    {
        if self.connection.is_some() {
            return Err(SessionError::AlreadyRunning);
        }
        match spawned {
            Ok(c) => {
                self.connection = Some(TcpStreamHandle { shutdown_flag: false, mitmweb_child: Some(c) });
                Ok(join2("network scanner started - mitmweb listening on port ", port_text(port).as_str()))
            },
            Err(e) => Err(SessionError::SpawnFailed(e)),
        }
    }

    /// Ends the active session: its handle is given up with the shutdown
    /// flag raised, for the caller to signal the bridge and terminate the
    /// child. Without a session nothing changes and the stop is refused.
    pub fn stop(&mut self) -> (r: Result<TcpStreamHandle, SessionError>)
        ensures
            (*final(self), r) == stop_outcome(*old(self)),
    {
        match self.connection.take() {
            Some(h) => Ok(TcpStreamHandle { shutdown_flag: true, mitmweb_child: h.mitmweb_child }),
            None => Err(SessionError::NotRunning),
        }
    }
}

/// The status text of a completed stop.
pub fn stopped_status() -> (r: String)
    ensures
        r@ == stopped_text(),
{
    "TCP scanner stopped".to_owned()
}

/// A start on an idle session succeeds with the spawned child as the
/// session's own, and a second start before any stop is refused and leaves
/// that session exactly as it was, whatever a second spawn would have given.
pub proof fn lemma_start_is_exclusive(
    s: TcpScannerState,
    child: MitmproxyChild,
    second: Result<MitmproxyChild, String>,
)
    requires
        !s.active(),
    ensures
        ({
            let (s1, r1) = start_outcome(s, Ok(child));
            let (s2, r2) = start_outcome(s1, second);
            &&& r1 is Ok
            &&& s1.active()
            &&& s1.connection->0.mitmweb_child == Some(child)
            &&& !s1.connection->0.shutdown_flag
            &&& r2 == Err::<(), SessionError>(SessionError::AlreadyRunning)
            &&& s2 == s1
        }),
{
}

/// A stop on an idle session is refused and changes nothing.
pub proof fn lemma_stop_when_idle(s: TcpScannerState)
    requires
        !s.active(),
    ensures
        stop_outcome(s).0 == s,
        stop_outcome(s).1 is Err,
        stop_outcome(s).1->Err_0 == SessionError::NotRunning,
{
}

} // verus!
