//! The decisions of one datagram exchange, apart from the I/O that they
//! drive. A caller performs each `Action` it is handed (bind, send, wait for
//! a reply) and reports what happened as an `Event`; the exchange answers
//! with the next action, until it hands out the result with `Complete`.
use vstd::prelude::*;
use crate::error::Error;
use crate::options::ReadOptions;

verus! {

/// How a finished exchange ended.
#[derive(Debug, Clone, Copy, PartialEq, Eq, Structural)]
pub enum Outcome {
    /// A reply datagram arrived before the deadline.
    Replied,
    /// The datagram was sent and no reply was asked for.
    Delivered,
    BindFailed,
    SendFailed,
    TimedOut,
    ReceiveFailed,
}

/// Where an exchange stands: `Unbound -> Bound -> Sent -> Finished`, where
/// each step may also finish it directly.
#[derive(Debug, Clone, Copy, PartialEq, Eq, Structural)]
pub enum Phase {
    /// Waiting for the local endpoint to be bound.
    Unbound,
    /// Bound; waiting for the outgoing datagram to be handed over.
    Bound,
    /// Sent; waiting for a reply or for the deadline, whichever comes first.
    Sent,
    /// Decided; nothing that is reported afterwards changes the outcome.
    Finished(Outcome),
}

/// What the caller observed while performing the last action.
#[derive(Debug)]
pub enum Event {
    Bound,
    BindError(std::io::Error),
    Sent,
    SendError(std::io::Error),
    /// A datagram was read into `buffer`, of which its first `len` bytes hold it.
    Arrived { buffer: Vec<u8>, len: usize },
    /// The deadline passed before a datagram was observed.
    Elapsed,
    ReceiveError(std::io::Error),
}

/// What the caller is to do next.
#[derive(Debug)]
pub enum Action {
    /// Bind a local endpoint to the unspecified address and port 0.
    Bind,
    /// Send the message to the destination over the bound endpoint.
    Send,
    /// Wait at most `timeout` for one datagram, read into `buffer`.
    Receive { buffer: Vec<u8>, timeout: std::time::Duration },
    /// Nothing: the event did not belong to the current phase.
    Wait,
    /// The exchange is over, with this result.
    Complete(Result<Vec<u8>, Error>),
}

impl Event {
    /// The byte count of a read lies within the buffer it was read into.
    pub open spec fn wf(&self) -> bool {
        self matches Event::Arrived { buffer, len } ==> len <= buffer@.len()
    }
}

/// Whether `event` may be reported in `phase`: it is well formed, and a
/// datagram that answers a `Receive` was read into the buffer handed out
/// with it, of the configured size.
pub open spec fn fits(phase: Phase, options: Option<ReadOptions>, event: Event) -> bool {
    &&& event.wf()
    &&& (phase == Phase::Sent && event is Arrived && options is Some) ==> event->buffer@.len()
        == options->Some_0.buffer_size()
}

/// The phase that follows `phase` once `event` is observed, where a reply is
/// awaited after sending iff `reply`. An event that does not belong to the
/// phase leaves it as it is.
pub open spec fn next_phase(phase: Phase, reply: bool, event: Event) -> Phase {
    match phase {
        Phase::Unbound => match event {
            Event::Bound => Phase::Bound,
            Event::BindError(_) => Phase::Finished(Outcome::BindFailed),
            _ => phase,
        },
        Phase::Bound => match event {
            Event::Sent => if reply {
                Phase::Sent
            } else {
                Phase::Finished(Outcome::Delivered)
            },
            Event::SendError(_) => Phase::Finished(Outcome::SendFailed),
            _ => phase,
        },
        Phase::Sent => match event {
            Event::Arrived { .. } => Phase::Finished(Outcome::Replied),
            Event::Elapsed => Phase::Finished(Outcome::TimedOut),
            Event::ReceiveError(_) => Phase::Finished(Outcome::ReceiveFailed),
            _ => phase,
        },
        Phase::Finished(_) => phase,
    }
}

/// Whether `action` is the answer to `event` in `phase`, for an exchange with
/// read options `options` (`None` where no reply is awaited).
pub open spec fn answers(
    phase: Phase,
    options: Option<ReadOptions>,
    event: Event,
    action: Action,
) -> bool {
    match phase {
        Phase::Unbound => match event {
            Event::Bound => action is Send,
            Event::BindError(e) => action == Action::Complete(Err(Error::BindFailed(e))),
            _ => action is Wait,
        },
        Phase::Bound => match event {
            Event::Sent => match options {
                Some(o) => action matches Action::Receive { buffer, timeout } && buffer@.len()
                    == o.buffer_size() && timeout == o.timeout(),
                None => action matches Action::Complete(Ok(p)) && p@ == Seq::<u8>::empty(),
            },
            Event::SendError(e) => action == Action::Complete(Err(Error::SendFailed(e))),
            _ => action is Wait,
        },
        Phase::Sent => match event {
            Event::Arrived { buffer, len } => action matches Action::Complete(Ok(p)) && p@
                == buffer@.take(len as int),
            Event::Elapsed => action == Action::Complete(Err(Error::TimeoutReached)),
            Event::ReceiveError(e) => action == Action::Complete(Err(Error::ReceiveFailed(e))),
            _ => action is Wait,
        },
        Phase::Finished(_) => action is Wait,
    }
}

/// One exchange: bind, send, and, where read options are given, wait for one
/// reply.
pub struct Exchange {
    phase: Phase,
    options: Option<ReadOptions>,
}

impl Exchange {
    pub closed spec fn spec_phase(&self) -> Phase {
        self.phase
    }

    pub closed spec fn spec_options(&self) -> Option<ReadOptions> {
        self.options
    }

    /// Whether a reply is awaited once the datagram is sent.
    pub open spec fn awaits_reply(&self) -> bool {
        self.spec_options() is Some
    }

    /// Starts an exchange, which first asks for a local endpoint. With
    /// `Some` options it waits for a reply after sending; with `None` it is
    /// done once the datagram is sent.
    pub fn new(options: Option<ReadOptions>) -> (r: (Self, Action))
        ensures
            r.0.spec_phase() == Phase::Unbound,
            r.0.spec_options() == options,
            r.1 is Bind,
    {
        (Exchange { phase: Phase::Unbound, options }, Action::Bind)
    }

    #[verifier::when_used_as_spec(spec_phase)]
    pub fn phase(&self) -> (r: Phase)
        ensures
            r == self.spec_phase(),
    {
        self.phase
    }

    /// Takes in what the caller observed and answers with what to do next.
    pub fn step(&mut self, event: Event) -> (action: Action)
        requires
            fits(old(self).spec_phase(), old(self).spec_options(), event),
        ensures
            final(self).spec_options() == old(self).spec_options(),
            final(self).spec_phase() == next_phase(
                old(self).spec_phase(),
                old(self).awaits_reply(),
                event,
            ),
            answers(old(self).spec_phase(), old(self).spec_options(), event, action),
            old(self).spec_options() matches Some(o) ==> (action matches Action::Complete(Ok(p))
                ==> p@.len() <= o.buffer_size()),
    {
        match self.phase {
            Phase::Unbound => match event {
                Event::Bound => {
                    self.phase = Phase::Bound;
                    Action::Send
                },
                Event::BindError(e) => {
                    self.phase = Phase::Finished(Outcome::BindFailed);
                    Action::Complete(Err(Error::BindFailed(e)))
                },
                _ => Action::Wait,
            },
            Phase::Bound => match event {
                Event::Sent => match self.options {
                    Some(o) => {
                        self.phase = Phase::Sent;
                        let buffer = vec![0u8; o.buffer_size()];
                        Action::Receive { buffer, timeout: o.timeout() }
                    },
                    None => {
                        self.phase = Phase::Finished(Outcome::Delivered);
                        Action::Complete(Ok(Vec::new()))
                    },
                },
                Event::SendError(e) => {
                    self.phase = Phase::Finished(Outcome::SendFailed);
                    Action::Complete(Err(Error::SendFailed(e)))
                },
                _ => Action::Wait,
            },
            Phase::Sent => match event {
                Event::Arrived { buffer, len } => {
                    self.phase = Phase::Finished(Outcome::Replied);
                    let mut payload = buffer;
                    payload.truncate(len);
                    Action::Complete(Ok(payload))
                },
                Event::Elapsed => {
                    self.phase = Phase::Finished(Outcome::TimedOut);
                    Action::Complete(Err(Error::TimeoutReached))
                },
                Event::ReceiveError(e) => {
                    self.phase = Phase::Finished(Outcome::ReceiveFailed);
                    Action::Complete(Err(Error::ReceiveFailed(e)))
                },
                _ => Action::Wait,
            },
            Phase::Finished(_) => Action::Wait,
        }
    }
}

/// The phase reached from `phase` once each of `events` is observed in turn.
pub open spec fn run(phase: Phase, reply: bool, events: Seq<Event>) -> Phase
    decreases events.len(),
{
    if events.len() == 0 {
        phase
    } else {
        run(next_phase(phase, reply, events[0]), reply, events.skip(1))
    }
}

/// How far an exchange has come.
pub open spec fn rank(phase: Phase) -> nat {
    match phase {
        Phase::Unbound => 0,
        Phase::Bound => 1,
        Phase::Sent => 2,
        Phase::Finished(_) => 3,
    }
}

/// Observing `first` and then `rest` is observing `rest` from the phase that
/// `first` leads to.
proof fn lemma_run_cons(phase: Phase, reply: bool, first: Event, rest: Seq<Event>)
    ensures
        run(phase, reply, seq![first] + rest) == run(next_phase(phase, reply, first), reply, rest),
{
    let events = seq![first] + rest;
    assert(events[0] == first);
    assert(events.skip(1) =~= rest);
}

/// Once finished, an exchange stays finished with the same outcome, whatever
/// is observed afterwards: no datagram that arrives after a reported timeout
/// is ever returned, and no timeout overrides a reply already handed out.
pub proof fn lemma_finished_is_final(outcome: Outcome, reply: bool, events: Seq<Event>)
    ensures
        run(Phase::Finished(outcome), reply, events) == Phase::Finished(outcome),
    decreases events.len(),
{
    if events.len() > 0 {
        lemma_finished_is_final(outcome, reply, events.skip(1));
    }
}

/// Every event either leaves the phase as it is or moves it strictly
/// forward, and the rank is bounded: an exchange is finished after at most
/// three events that belong to it, and none loops back to an earlier phase.
pub proof fn lemma_progress(phase: Phase, reply: bool, event: Event)
    ensures
        next_phase(phase, reply, event) == phase || rank(next_phase(phase, reply, event)) > rank(
            phase,
        ),
        rank(next_phase(phase, reply, event)) <= 3,
{
}

/// While a reply is awaited, whichever of arrival, deadline and receive
/// failure is observed first decides the outcome for good; when it is the
/// deadline, the outcome is a timeout whatever is observed afterwards.
pub proof fn lemma_first_receive_event_decides(reply: bool, first: Event, rest: Seq<Event>)
    requires
        first is Arrived || first is Elapsed || first is ReceiveError,
    ensures
        run(Phase::Sent, reply, seq![first] + rest) == next_phase(Phase::Sent, reply, first),
        next_phase(Phase::Sent, reply, first) is Finished,
        first is Elapsed ==> run(Phase::Sent, reply, seq![first] + rest) == Phase::Finished(
            Outcome::TimedOut,
        ),
        first is Arrived ==> run(Phase::Sent, reply, seq![first] + rest) == Phase::Finished(
            Outcome::Replied,
        ),
{
    lemma_run_cons(Phase::Sent, reply, first, rest);
    let o = next_phase(Phase::Sent, reply, first)->Finished_0;
    lemma_finished_is_final(o, reply, rest);
}

/// A failed send finishes the exchange with `SendFailed`, and the receive
/// step is never asked for afterwards, whatever is observed.
pub proof fn lemma_send_failure_skips_receive(
    options: Option<ReadOptions>,
    e: std::io::Error,
    rest: Seq<Event>,
)
    ensures
        run(Phase::Bound, options is Some, seq![Event::SendError(e)] + rest) == Phase::Finished(
            Outcome::SendFailed,
        ),
        forall|i: int, action: Action|
            0 <= i < rest.len() && #[trigger] answers(
                run(Phase::Bound, options is Some, seq![Event::SendError(e)] + rest.take(i)),
                options,
                rest[i],
                action,
            ) ==> !(action is Receive),
{
    let reply = options is Some;
    lemma_run_cons(Phase::Bound, reply, Event::SendError(e), rest);
    lemma_finished_is_final(Outcome::SendFailed, reply, rest);
    assert forall|i: int, action: Action|
        0 <= i < rest.len() && #[trigger] answers(
            run(Phase::Bound, reply, seq![Event::SendError(e)] + rest.take(i)),
            options,
            rest[i],
            action,
        ) implies !(action is Receive) by {
        lemma_run_cons(Phase::Bound, reply, Event::SendError(e), rest.take(i));
        lemma_finished_is_final(Outcome::SendFailed, reply, rest.take(i));
    }
}

/// A reply that arrives in time is handed out as exactly the bytes read into
/// the buffer that the exchange handed out for it, and so never holds more
/// than the configured buffer size.
pub proof fn lemma_reply_within_buffer(
    options: ReadOptions,
    buffer: Vec<u8>,
    len: usize,
    action: Action,
)
    requires
        fits(Phase::Sent, Some(options), Event::Arrived { buffer, len }),
        answers(Phase::Sent, Some(options), Event::Arrived { buffer, len }, action),
    ensures
        action matches Action::Complete(Ok(p)) && p@ == buffer@.take(len as int) && p@.len() <= options.buffer_size(),
{
}

} // verus!
