//! Stream readers and the exit waiter of a supervised child.
//!
//! A reader is handed what each line read from a pipe produced and answers
//! with the event to send; the waiter turns the child's exit into one event.
use vstd::prelude::*;
use crate::event::{
    error_count, lemma_error_count_append, lemma_payload_concat_append, lemma_single_event, lemma_terminated_count_append, payload_concat, terminated_count,
    MitmproxyCommandEvent, TerminatedPayload,
};

verus! {

/// What one read from a child's pipe produced.
#[derive(Debug)]
pub enum ReadOutcome {
    /// The bytes read, up to and including a newline; empty at end of stream.
    Bytes(Vec<u8>),
    /// The read failed with this message.
    Failed(String),
}

impl ReadOutcome {
    pub open spec fn bytes(&self) -> Seq<u8> {
        match self {
            ReadOutcome::Bytes(b) => b@,
            ReadOutcome::Failed(_) => Seq::empty(),
        }
    }

    /// End of stream or a failed read: the reader stops after it.
    pub open spec fn is_terminal(&self) -> bool {
        match self {
            ReadOutcome::Bytes(b) => b@.len() == 0,
            ReadOutcome::Failed(_) => true,
        }
    }
}

/// Turns the reads of one pipe into events tagged with the pipe's origin.
#[derive(Debug)]
pub struct StreamReader {
    pub is_stdout: bool,
    pub finished: bool,
}

/// The event for one read, and whether the reader is done after it.
pub open spec fn reader_step(is_stdout: bool, read: ReadOutcome) -> (Option<MitmproxyCommandEvent>, bool) {
    match read {
        ReadOutcome::Bytes(b) => if b@.len() == 0 {
            (None, true)
        } else if is_stdout {
            (Some(MitmproxyCommandEvent::Stdout(b)), false)
        } else {
            (Some(MitmproxyCommandEvent::Stderr(b)), false)
        },
        ReadOutcome::Failed(m) => (Some(MitmproxyCommandEvent::Error(m)), true),
    }
}

pub open spec fn option_seq(e: Option<MitmproxyCommandEvent>) -> Seq<MitmproxyCommandEvent> {
    match e {
        Some(x) => seq![x],
        None => Seq::empty(),
    }
}

/// Events that a fresh reader emits for the given reads; reads after the one
/// that stops it are never made.
pub open spec fn reader_run(is_stdout: bool, reads: Seq<ReadOutcome>) -> Seq<MitmproxyCommandEvent>
    decreases reads.len(),
{
    if reads.len() == 0 {
        Seq::empty()
    } else {
        let (e, done) = reader_step(is_stdout, reads[0]);
        if done {
            option_seq(e)
        } else {
            option_seq(e) + reader_run(is_stdout, reads.drop_first())
        }
    }
}

/// Number of reads a fresh reader consumes before it stops (all of them if
/// none stops it).
pub open spec fn reads_consumed(reads: Seq<ReadOutcome>) -> nat
    decreases reads.len(),
{
    if reads.len() == 0 {
        0
    } else if reads[0].is_terminal() {
        1
    } else {
        1 + reads_consumed(reads.drop_first())
    }
}

/// The bytes carried by a sequence of reads, in order.
pub open spec fn reads_bytes(reads: Seq<ReadOutcome>) -> Seq<u8>
    decreases reads.len(),
{
    if reads.len() == 0 {
        Seq::empty()
    } else {
        reads[0].bytes() + reads_bytes(reads.drop_first())
    }
}

impl StreamReader {
    pub fn new(is_stdout: bool) -> (r: Self)
        ensures
            r.is_stdout == is_stdout,
            !r.finished,
    {
        StreamReader { is_stdout, finished: false }
    }

    pub fn is_finished(&self) -> (r: bool)
        ensures
            r == self.finished,
    {
        self.finished
    }

    /// Handles one read: bytes become an output event of the reader's origin,
    /// end of stream stops the reader silently, a failure becomes an error
    /// event and stops it.
    pub fn on_read(&mut self, read: ReadOutcome) -> (r: Option<MitmproxyCommandEvent>)
        requires
            !old(self).finished,
        ensures
            (r, final(self).finished) == reader_step(old(self).is_stdout, read),
            final(self).is_stdout == old(self).is_stdout,
    {
        match read {
            ReadOutcome::Bytes(b) => {
                if b.len() == 0 {
                    self.finished = true;
                    None
                } else if self.is_stdout {
                    Some(MitmproxyCommandEvent::Stdout(b))
                } else {
                    Some(MitmproxyCommandEvent::Stderr(b))
                }
            },
            ReadOutcome::Failed(m) => {
                self.finished = true;
                Some(MitmproxyCommandEvent::Error(m))
            },
        }
    }
}

/// The single event the waiter sends once waiting for the child has ended.
pub open spec fn wait_event(status: Result<Option<i32>, String>) -> MitmproxyCommandEvent {
    match status {
        Ok(code) => MitmproxyCommandEvent::Terminated(TerminatedPayload { code }),
        Err(m) => MitmproxyCommandEvent::Error(m),
    }
}

/// Turns the outcome of waiting for the child (its exit code, if it has one,
/// or the wait's error) into the waiter's event.
pub fn waiter_event(status: Result<Option<i32>, String>) -> (r: MitmproxyCommandEvent)
    ensures
        r == wait_event(status),
{
    match status {
        Ok(code) => MitmproxyCommandEvent::Terminated(TerminatedPayload { code }),
        Err(m) => MitmproxyCommandEvent::Error(m),
    }
}

/// Readers never report a termination: that is the waiter's alone.
pub proof fn lemma_reader_never_terminates(is_stdout: bool, reads: Seq<ReadOutcome>)
    ensures
        terminated_count(reader_run(is_stdout, reads)) == 0,
    decreases reads.len(),
{
    if reads.len() > 0 {
        let (e, done) = reader_step(is_stdout, reads[0]);
        assert(terminated_count(option_seq(e)) == 0) by {
            if e is Some {
                lemma_single_event(e->0);
            }
        }
        if !done {
            lemma_reader_never_terminates(is_stdout, reads.drop_first());
            lemma_terminated_count_append(option_seq(e), reader_run(is_stdout, reads.drop_first()));
        }
    }
}

/// However a pipe's bytes are split into reads, the output events of its
/// reader carry exactly those bytes in order, and the reader stops exactly
/// once: on the final read, which is end of stream or a failure. An error
/// event is sent for a failure only, and then just one.
pub proof fn lemma_reader_keeps_bytes(is_stdout: bool, reads: Seq<ReadOutcome>)
    requires
        reads.len() > 0,
        reads.last().is_terminal(),
        forall|i: int| 0 <= i < reads.len() - 1 ==> !(#[trigger] reads[i]).is_terminal(),
    ensures
        payload_concat(reader_run(is_stdout, reads)) =~= reads_bytes(reads),
        reads_consumed(reads) == reads.len(),
        error_count(reader_run(is_stdout, reads)) == if reads.last() is Failed { 1nat } else { 0nat },
    decreases reads.len(),
{
    let (e, done) = reader_step(is_stdout, reads[0]);
    let rest = reads.drop_first();
    if reads.len() == 1 {
        assert(reads[0] == reads.last());
        assert(rest =~= Seq::<ReadOutcome>::empty());
        if e is Some {
            lemma_single_event(e->0);
        }
        assert(reads_bytes(rest) =~= Seq::<u8>::empty());
    } else {
        assert(!reads[0].is_terminal());
        assert(rest.last() == reads.last());
        assert forall|i: int| 0 <= i < rest.len() - 1 implies !(#[trigger] rest[i]).is_terminal() by {
            assert(rest[i] == reads[i + 1]);
        }
        lemma_reader_keeps_bytes(is_stdout, rest);
        lemma_payload_concat_append(option_seq(e), reader_run(is_stdout, rest));
        lemma_error_count_append(option_seq(e), reader_run(is_stdout, rest));
        lemma_single_event(e->0);
    }
}

/// Whatever the two readers produced before, the child's stopping (its wait
/// ending with an exit status) puts exactly one termination event in the
/// stream, counted over all three producers.
pub proof fn lemma_one_termination(
    stdout_reads: Seq<ReadOutcome>,
    stderr_reads: Seq<ReadOutcome>,
    code: Option<i32>,
)
    ensures
        terminated_count(
            reader_run(true, stdout_reads) + reader_run(false, stderr_reads) + seq![
                wait_event(Ok(code)),
            ],
        ) == 1,
{
    let a = reader_run(true, stdout_reads);
    let b = reader_run(false, stderr_reads);
    let w = seq![wait_event(Ok(code))];
    lemma_reader_never_terminates(true, stdout_reads);
    lemma_reader_never_terminates(false, stderr_reads);
    lemma_terminated_count_append(a, b);
    lemma_terminated_count_append(a + b, w);
    lemma_single_event(wait_event(Ok(code)));
}

} // verus!
