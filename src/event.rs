//! Events produced by the stream readers and the exit waiter of a child.
use vstd::prelude::*;

verus! {

/// Exit information of a child that has finished.
#[derive(Debug, Clone, PartialEq, Eq, Structural)]
pub struct TerminatedPayload {
    pub code: Option<i32>,
}

/// One item of a supervised child's event stream.
#[derive(Debug, Clone)]
#[non_exhaustive]
pub enum MitmproxyCommandEvent {
    Stderr(Vec<u8>),
    Stdout(Vec<u8>),
    Error(String),
    Terminated(TerminatedPayload),
}

impl MitmproxyCommandEvent {
    /// Output bytes carried by the event; empty for the other kinds.
    pub open spec fn payload(&self) -> Seq<u8> {
        match self {
            MitmproxyCommandEvent::Stdout(b) => b@,
            MitmproxyCommandEvent::Stderr(b) => b@,
            _ => Seq::empty(),
        }
    }

    pub open spec fn is_terminated(&self) -> bool {
        self is Terminated
    }

    pub open spec fn is_error(&self) -> bool {
        self is Error
    }
}

/// Number of `Terminated` events in a stream.
pub open spec fn terminated_count(events: Seq<MitmproxyCommandEvent>) -> nat
    decreases events.len(),
{
    if events.len() == 0 {
        0
    } else {
        (if events[0].is_terminated() {
            1nat
        } else {
            0nat
        }) + terminated_count(events.drop_first())
    }
}

/// Number of `Error` events in a stream.
pub open spec fn error_count(events: Seq<MitmproxyCommandEvent>) -> nat
    decreases events.len(),
{
    if events.len() == 0 {
        0
    } else {
        (if events[0].is_error() {
            1nat
        } else {
            0nat
        }) + error_count(events.drop_first())
    }
}

/// The output bytes of a stream, in order.
pub open spec fn payload_concat(events: Seq<MitmproxyCommandEvent>) -> Seq<u8>
    decreases events.len(),
{
    if events.len() == 0 {
        Seq::empty()
    } else {
        events[0].payload() + payload_concat(events.drop_first())
    }
}

pub proof fn lemma_single_event(x: MitmproxyCommandEvent)
    ensures
        terminated_count(seq![x]) == if x.is_terminated() { 1nat } else { 0nat },
        error_count(seq![x]) == if x.is_error() { 1nat } else { 0nat },
        payload_concat(seq![x]) =~= x.payload(),
{
    let s = seq![x];
    assert(s.drop_first() =~= Seq::<MitmproxyCommandEvent>::empty());
    assert(terminated_count(s.drop_first()) == 0);
    assert(error_count(s.drop_first()) == 0);
    assert(payload_concat(s.drop_first()) =~= Seq::<u8>::empty());
}

pub proof fn lemma_terminated_count_append(a: Seq<MitmproxyCommandEvent>, b: Seq<MitmproxyCommandEvent>)
    ensures
        terminated_count(a + b) == terminated_count(a) + terminated_count(b),
    decreases a.len(),
{
    if a.len() > 0 {
        assert((a + b).drop_first() =~= a.drop_first() + b);
        lemma_terminated_count_append(a.drop_first(), b);
    } else {
        assert(a + b =~= b);
    }
}

pub proof fn lemma_error_count_append(a: Seq<MitmproxyCommandEvent>, b: Seq<MitmproxyCommandEvent>)
    ensures
        error_count(a + b) == error_count(a) + error_count(b),
    decreases a.len(),
{
    if a.len() > 0 {
        assert((a + b).drop_first() =~= a.drop_first() + b);
        lemma_error_count_append(a.drop_first(), b);
    } else {
        assert(a + b =~= b);
    }
}

pub proof fn lemma_payload_concat_append(a: Seq<MitmproxyCommandEvent>, b: Seq<MitmproxyCommandEvent>)
    ensures
        payload_concat(a + b) =~= payload_concat(a) + payload_concat(b),
    decreases a.len(),
{
    if a.len() > 0 {
        assert((a + b).drop_first() =~= a.drop_first() + b);
        lemma_payload_concat_append(a.drop_first(), b);
    } else {
        assert(a + b =~= b);
    }
}

} // verus!
