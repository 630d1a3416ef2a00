//! The relay bridge: a state machine over the companion TCP connection.
//!
//! The caller sleeps, connects, checks the shutdown flag, waits for
//! readiness, reads and decodes JSON as each step's action says, and hands
//! the outcome back as the next event. Each step may also carry one
//! notification for the consumer.
use vstd::prelude::*;
use vstd::utf8::{decode_utf8, valid_utf8};
use crate::text::{decimal, join2, port_text};

verus! {

/// Seconds the bridge waits for the proxy to open its port.
pub const STARTUP_GRACE_SECS: u64 = 2;

/// Loopback port on which the proxy's relay script listens.
pub const RELAY_PORT: u16 = 12000;

/// Size of the buffer each read fills at most.
pub const READ_BUFFER_SIZE: usize = 81920;

/// A decoded relay envelope: an optional `message` text and the remaining
/// fields of the object, already rendered as JSON text.
#[derive(Debug, Clone)]
pub struct JsonMessage {
    pub message: Option<String>,
    pub extra: String,
}

/// The text forwarded for an envelope: its message, else the rest rendered.
pub open spec fn forwarded(m: JsonMessage) -> Seq<char> {
    match m.message {
        Some(t) => t@,
        None => m.extra@,
    }
}

/// Text to forward for a decoded envelope.
pub fn forwarded_text(m: JsonMessage) -> (r: String)
    ensures
        r@ == forwarded(m),
{
    match m.message {
        Some(t) => t,
        None => m.extra,
    }
}

/// What one non-blocking read of the socket gave.
#[derive(Debug)]
pub enum SocketRead {
    /// The bytes read; empty when the peer closed the connection.
    Data(Vec<u8>),
    /// Nothing was there after all.
    WouldBlock,
    /// The read failed with this message.
    Failed(String),
}

/// Outcome of the action the bridge last asked for.
#[derive(Debug)]
pub enum BridgeEvent {
    GraceElapsed,
    Connected,
    ConnectFailed(String),
    /// The current value of the shared shutdown flag.
    ShutdownFlag(bool),
    /// The readiness wait ended; whether the socket is readable.
    Ready(bool),
    ReadyFailed(String),
    Read(SocketRead),
    /// The JSON decoding of a chunk: `None` where it was malformed.
    Decoded(Option<JsonMessage>),
}

/// Work the caller performs next.
#[derive(Debug)]
pub enum BridgeAction {
    Sleep(u64),
    /// Connect to this port on 127.0.0.1.
    Connect(u16),
    CheckShutdown,
    WaitReadable,
    /// Attempt one non-blocking read into a buffer of this size.
    TryRead(usize),
    /// Decode this text as a JSON envelope.
    Decode(String),
    Stop,
}

pub enum ActionView {
    Sleep(u64),
    Connect(u16),
    CheckShutdown,
    WaitReadable,
    TryRead(usize),
    Decode(Seq<char>),
    Stop,
}

impl View for BridgeAction {
    type V = ActionView;

    open spec fn view(&self) -> ActionView {
        match self {
            BridgeAction::Sleep(s) => ActionView::Sleep(*s),
            BridgeAction::Connect(p) => ActionView::Connect(*p),
            BridgeAction::CheckShutdown => ActionView::CheckShutdown,
            BridgeAction::WaitReadable => ActionView::WaitReadable,
            BridgeAction::TryRead(n) => ActionView::TryRead(*n),
            BridgeAction::Decode(t) => ActionView::Decode(t@),
            BridgeAction::Stop => ActionView::Stop,
        }
    }
}

/// One step's answer: a notification for the consumer, if any, and the
/// next action.
#[derive(Debug)]
pub struct BridgeStep {
    pub notify: Option<String>,
    pub action: BridgeAction,
}

/// Where the bridge stands: which outcome it waits for.
#[derive(Debug, Clone, Copy, PartialEq, Eq, Structural)]
pub enum BridgePhase {
    Starting,
    Connecting,
    CheckingShutdown,
    AwaitingReady,
    Reading,
    Decoding,
    Finished,
}

pub open spec fn closed_text() -> Seq<char> {
    "Connection closed"@
}

pub open spec fn error_text(e: Seq<char>) -> Seq<char> {
    "Error: "@ + e
}

pub open spec fn connect_failed_text(e: Seq<char>) -> Seq<char> {
    "Failed to connect to port "@ + decimal(RELAY_PORT as nat) + ": "@ + e
}

/// The action a bridge in `phase` waits to have performed (for a decoding,
/// whose text the bridge does not keep, what follows a dropped chunk).
pub open spec fn pending_action(phase: BridgePhase) -> ActionView {
    match phase {
        BridgePhase::Starting => ActionView::Sleep(STARTUP_GRACE_SECS),
        BridgePhase::Connecting => ActionView::Connect(RELAY_PORT),
        BridgePhase::CheckingShutdown => ActionView::CheckShutdown,
        BridgePhase::AwaitingReady => ActionView::WaitReadable,
        BridgePhase::Reading => ActionView::TryRead(READ_BUFFER_SIZE),
        BridgePhase::Decoding => ActionView::CheckShutdown,
        BridgePhase::Finished => ActionView::Stop,
    }
}

/// The bridge's transition: next phase, notification and action for an
/// event in a phase. An event that does not answer the phase's pending
/// action changes nothing and asks for that action again, except during a
/// decoding, which then counts as malformed.
pub open spec fn bridge_step(phase: BridgePhase, event: BridgeEvent) -> (BridgePhase, Option<Seq<char>>, ActionView) {
    let stop = (BridgePhase::Finished, None::<Seq<char>>, ActionView::Stop);
    let check = (BridgePhase::CheckingShutdown, None::<Seq<char>>, ActionView::CheckShutdown);
    match (phase, event) {
        (BridgePhase::Starting, BridgeEvent::GraceElapsed) =>
            (BridgePhase::Connecting, None, ActionView::Connect(RELAY_PORT)),
        (BridgePhase::Connecting, BridgeEvent::Connected) => check,
        (BridgePhase::Connecting, BridgeEvent::ConnectFailed(e)) =>
            (BridgePhase::Finished, Some(connect_failed_text(e@)), ActionView::Stop),
        (BridgePhase::CheckingShutdown, BridgeEvent::ShutdownFlag(set)) => if set {
            stop
        } else {
            (BridgePhase::AwaitingReady, None, ActionView::WaitReadable)
        },
        (BridgePhase::AwaitingReady, BridgeEvent::Ready(readable)) => if readable {
            (BridgePhase::Reading, None, ActionView::TryRead(READ_BUFFER_SIZE))
        } else {
            check
        },
        (BridgePhase::AwaitingReady, BridgeEvent::ReadyFailed(e)) =>
            (BridgePhase::Finished, Some(error_text(e@)), ActionView::Stop),
        (BridgePhase::Reading, BridgeEvent::Read(r)) => match r {
            SocketRead::Data(b) => if b@.len() == 0 {
                (BridgePhase::Finished, Some(closed_text()), ActionView::Stop)
            } else if valid_utf8(b@) {
                (BridgePhase::Decoding, None, ActionView::Decode(decode_utf8(b@)))
            } else {
                check
            },
            SocketRead::WouldBlock => check,
            SocketRead::Failed(e) => (BridgePhase::Finished, Some(error_text(e@)), ActionView::Stop),
        },
        (BridgePhase::Decoding, BridgeEvent::Decoded(d)) => match d {
            Some(m) => (BridgePhase::CheckingShutdown, Some(forwarded(m)), ActionView::CheckShutdown),
            None => check,
        },
        _ => if phase == BridgePhase::Decoding {
            check
        } else {
            (phase, None, pending_action(phase))
        },
    }
}

pub open spec fn notify_view(n: Option<String>) -> Option<Seq<char>> {
    match n {
        Some(s) => Some(s@),
        None => None,
    }
}

/// Relies on std's `String::from_utf8`: it succeeds exactly on valid UTF-8
/// and then holds the characters that the bytes encode.
#[verifier::external_body]
fn utf8_text(b: &[u8]) -> (r: Option<String>)
    ensures
        r is Some <==> valid_utf8(b@),
        r matches Some(s) ==> s@ == decode_utf8(b@),
{
    String::from_utf8(b.to_vec()).ok()
}

/// The relay bridge of one session.
#[derive(Debug)]
pub struct RelayBridge {
    pub phase: BridgePhase,
}

impl RelayBridge {
    /// A bridge about to sleep through the startup grace period; the
    /// returned action is its first.
    pub fn new() -> (r: (Self, BridgeAction))
        ensures
            r.0.phase == BridgePhase::Starting,
            r.1@ == pending_action(BridgePhase::Starting),
    {
        (RelayBridge { phase: BridgePhase::Starting }, BridgeAction::Sleep(STARTUP_GRACE_SECS))
    }

    pub fn is_finished(&self) -> (r: bool)
        ensures
            r == (self.phase == BridgePhase::Finished),
    {
        self.phase == BridgePhase::Finished
    }

    fn pending(&self) -> (r: BridgeAction)
        ensures
            r@ == pending_action(self.phase),
    {
        match self.phase {
            BridgePhase::Starting => BridgeAction::Sleep(STARTUP_GRACE_SECS),
            BridgePhase::Connecting => BridgeAction::Connect(RELAY_PORT),
            BridgePhase::CheckingShutdown => BridgeAction::CheckShutdown,
            BridgePhase::AwaitingReady => BridgeAction::WaitReadable,
            BridgePhase::Reading => BridgeAction::TryRead(READ_BUFFER_SIZE),
            BridgePhase::Decoding => BridgeAction::CheckShutdown,
            BridgePhase::Finished => BridgeAction::Stop,
        }
    }

    /// Takes the outcome of the last action and answers with the next one.
    pub fn step(&mut self, event: BridgeEvent) -> (r: BridgeStep)
        ensures
            (final(self).phase, notify_view(r.notify), r.action@) == bridge_step(old(self).phase, event),
    {
        let phase = self.phase;
        let (next, notify, action) = match (phase, event) {
            (BridgePhase::Starting, BridgeEvent::GraceElapsed) =>
                (BridgePhase::Connecting, None, BridgeAction::Connect(RELAY_PORT)),
            (BridgePhase::Connecting, BridgeEvent::Connected) =>
                (BridgePhase::CheckingShutdown, None, BridgeAction::CheckShutdown),
            (BridgePhase::Connecting, BridgeEvent::ConnectFailed(e)) => {
                let head = join2("Failed to connect to port ", port_text(RELAY_PORT).as_str());
                let head = join2(head.as_str(), ": ");
                (BridgePhase::Finished, Some(join2(head.as_str(), e.as_str())), BridgeAction::Stop)
            },
            (BridgePhase::CheckingShutdown, BridgeEvent::ShutdownFlag(set)) => if set {
                (BridgePhase::Finished, None, BridgeAction::Stop)
            } else {
                (BridgePhase::AwaitingReady, None, BridgeAction::WaitReadable)
            },
            (BridgePhase::AwaitingReady, BridgeEvent::Ready(readable)) => if readable {
                (BridgePhase::Reading, None, BridgeAction::TryRead(READ_BUFFER_SIZE))
            } else {
                (BridgePhase::CheckingShutdown, None, BridgeAction::CheckShutdown)
            },
            (BridgePhase::AwaitingReady, BridgeEvent::ReadyFailed(e)) =>
                (BridgePhase::Finished, Some(join2("Error: ", e.as_str())), BridgeAction::Stop),
            (BridgePhase::Reading, BridgeEvent::Read(r)) => match r {
                SocketRead::Data(b) => if b.len() == 0 {
                    (BridgePhase::Finished, Some("Connection closed".to_owned()), BridgeAction::Stop)
                } else {
                    match utf8_text(b.as_slice()) {
                        Some(t) => (BridgePhase::Decoding, None, BridgeAction::Decode(t)),
                        None => (BridgePhase::CheckingShutdown, None, BridgeAction::CheckShutdown),
                    }
                },
                SocketRead::WouldBlock => (BridgePhase::CheckingShutdown, None, BridgeAction::CheckShutdown),
                SocketRead::Failed(e) =>
                    (BridgePhase::Finished, Some(join2("Error: ", e.as_str())), BridgeAction::Stop),
            },
            (BridgePhase::Decoding, BridgeEvent::Decoded(d)) => match d {
                Some(m) => (BridgePhase::CheckingShutdown, Some(forwarded_text(m)), BridgeAction::CheckShutdown),
                None => (BridgePhase::CheckingShutdown, None, BridgeAction::CheckShutdown),
            },
            _ => {
                let next = if phase == BridgePhase::Decoding {
                    BridgePhase::CheckingShutdown
                } else {
                    phase
                };
                (next, None, self.pending())
            },
        };
        self.phase = next;
        BridgeStep { notify, action }
    }
}

/// Notifications a bridge in `phase` sends while handed `events`.
pub open spec fn run_notices(phase: BridgePhase, events: Seq<BridgeEvent>) -> Seq<Seq<char>>
    decreases events.len(),
{
    if events.len() == 0 {
        Seq::empty()
    } else {
        let (next, notice, _) = bridge_step(phase, events[0]);
        let head = match notice {
            Some(t) => seq![t],
            None => Seq::empty(),
        };
        head + run_notices(next, events.drop_first())
    }
}

/// Actions a bridge in `phase` asks for while handed `events`.
pub open spec fn run_actions(phase: BridgePhase, events: Seq<BridgeEvent>) -> Seq<ActionView>
    decreases events.len(),
{
    if events.len() == 0 {
        Seq::empty()
    } else {
        let (next, _, action) = bridge_step(phase, events[0]);
        seq![action] + run_actions(next, events.drop_first())
    }
}

/// A finished bridge stays finished: whatever it is handed, it sends nothing
/// more and asks only to stop.
pub proof fn lemma_finished_is_final(events: Seq<BridgeEvent>)
    ensures
        run_notices(BridgePhase::Finished, events) =~= Seq::<Seq<char>>::empty(),
        forall|i: int| 0 <= i < events.len() ==> #[trigger] run_actions(BridgePhase::Finished, events)[i]
            == ActionView::Stop,
        run_actions(BridgePhase::Finished, events).len() == events.len(),
    decreases events.len(),
{
    if events.len() > 0 {
        lemma_finished_is_final(events.drop_first());
        let rest = run_actions(BridgePhase::Finished, events.drop_first());
        assert forall|i: int| 0 <= i < events.len() implies #[trigger] run_actions(BridgePhase::Finished, events)[i]
            == ActionView::Stop by {
            if i > 0 {
                assert(run_actions(BridgePhase::Finished, events)[i] == rest[i - 1]);
            }
        }
    }
}

/// When the shutdown flag is already set at the bridge's first check, it
/// never reads and never waits for readiness: after connecting it asks only
/// to stop, and it sends no notification at all.
pub proof fn lemma_shutdown_before_first_wait(rest: Seq<BridgeEvent>)
    ensures
        ({
            let events = seq![BridgeEvent::GraceElapsed, BridgeEvent::Connected, BridgeEvent::ShutdownFlag(true)]
                + rest;
            let actions = run_actions(BridgePhase::Starting, events);
            &&& run_notices(BridgePhase::Starting, events) =~= Seq::<Seq<char>>::empty()
            &&& actions.len() == events.len()
            &&& forall|i: int| 2 <= i < actions.len() ==> #[trigger] actions[i] == ActionView::Stop
        }),
{
    let events = seq![BridgeEvent::GraceElapsed, BridgeEvent::Connected, BridgeEvent::ShutdownFlag(true)]
        + rest;
    let e1 = events.drop_first();
    let e2 = e1.drop_first();
    let e3 = e2.drop_first();
    assert(e3 =~= rest);
    assert(events[0] == BridgeEvent::GraceElapsed);
    assert(e1[0] == BridgeEvent::Connected);
    assert(e2[0] == BridgeEvent::ShutdownFlag(true));
    lemma_finished_is_final(rest);
    let a3 = run_actions(BridgePhase::Finished, rest);
    let a2 = run_actions(BridgePhase::CheckingShutdown, e2);
    let a1 = run_actions(BridgePhase::Connecting, e1);
    let a = run_actions(BridgePhase::Starting, events);
    assert(a2 == seq![ActionView::Stop] + a3);
    assert(a1 == seq![ActionView::CheckShutdown] + a2);
    assert(a == seq![ActionView::Connect(RELAY_PORT)] + a1);
    assert(run_notices(BridgePhase::CheckingShutdown, e2) =~= Seq::<Seq<char>>::empty());
    assert(run_notices(BridgePhase::Connecting, e1) =~= Seq::<Seq<char>>::empty());
    assert(run_notices(BridgePhase::Starting, events) =~= Seq::<Seq<char>>::empty());
    assert forall|i: int| 2 <= i < a.len() implies #[trigger] a[i] == ActionView::Stop by {
        assert(a[i] == a1[i - 1]);
        assert(a1[i - 1] == a2[i - 2]);
        if i > 2 {
            assert(a2[i - 2] == a3[i - 3]);
        }
    }
}

/// A read of zero bytes ends the bridge with exactly one notification,
/// "Connection closed", whatever it is handed afterwards.
pub proof fn lemma_close_notifies_once(nothing: Vec<u8>, rest: Seq<BridgeEvent>)
    requires
        nothing@.len() == 0,
    ensures
        run_notices(BridgePhase::Reading, seq![BridgeEvent::Read(SocketRead::Data(nothing))] + rest)
            =~= seq![closed_text()],
{
    let events = seq![BridgeEvent::Read(SocketRead::Data(nothing))] + rest;
    assert(events.drop_first() =~= rest);
    lemma_finished_is_final(rest);
}

} // verus!
