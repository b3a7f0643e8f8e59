//! One execution from its first step to its last, as a state machine.
//!
//! The caller that runs an execution owns an [`Execution`] and tells it what
//! happened outside: that the script was injected or refused, that the wait
//! on the result channel ended with a delivery, with a closed channel or with
//! the time running out, that the subscription was removed. The execution
//! answers with the envelope to return, where the event ends it, and takes
//! its entry out of the registry where the entry would otherwise stay behind.
//! An event that does not fit the execution's phase is ignored.

use crate::correlator::{disposition, raw_disposition, settled, Disposition};
use crate::envelope::{
    envelope_view, Envelope, EnvelopeView, CHANNEL_CLOSED_MESSAGE, INJECTION_FAILED_PREFIX,
    TIMEOUT_MESSAGE,
};
use crate::notification::NotificationView;
use crate::registry::{without, Pending, PendingRegistry};
use crate::script::{build_injected_script, injected_script, prepare_script, prepared};
use crate::token::{is_token, new_token};
use tokio::sync::oneshot::Receiver;
use vstd::prelude::*;
use vstd::string::*;

verus! {

/// The number of seconds that a caller waits for an execution's outcome.
pub const WAIT_SECONDS: u64 = 5;

/// Where an execution stands.
#[derive(Clone, Copy, Debug, PartialEq, Eq, Structural)]
pub enum Phase {
    /// The execution has its token.
    Created,
    /// Its entry is in the registry.
    Registered,
    /// Its script is in the remote engine, and the caller waits.
    Injected,
    /// A notification delivered its outcome.
    Resolved,
    /// The remote engine refused its script.
    InjectionFailed,
    /// The wait ran out of time.
    TimedOut,
    /// Its result channel closed without a delivery.
    ChannelClosed,
    /// Its entry and its subscription are gone.
    Cleaned,
}

/// What can happen to an execution.
#[derive(Clone, Copy, Debug, PartialEq, Eq, Structural)]
pub enum Event {
    /// Its entry went into the registry.
    Registered,
    /// The remote engine accepted its script.
    InjectionAccepted,
    /// The remote engine refused its script.
    InjectionFailed,
    /// The wait ended with an outcome on the result channel.
    Delivered,
    /// The wait ended with the result channel closed.
    ChannelClosed,
    /// The wait ended with the time running out.
    TimedOut,
    /// Its subscription was removed.
    Unsubscribed,
}

/// The execution has its outcome and only remains to be cleaned up.
pub open spec fn is_concluded(phase: Phase) -> bool {
    phase == Phase::Resolved || phase == Phase::InjectionFailed || phase == Phase::TimedOut
        || phase == Phase::ChannelClosed
}

/// An event fits a phase where the state machine has a transition for it.
pub open spec fn applies(phase: Phase, event: Event) -> bool {
    match event {
        Event::Registered => phase == Phase::Created,
        Event::InjectionAccepted | Event::InjectionFailed => phase == Phase::Registered,
        Event::Delivered | Event::ChannelClosed | Event::TimedOut => phase == Phase::Injected,
        Event::Unsubscribed => is_concluded(phase),
    }
}

/// The phase that an event leads to from a phase it fits.
pub open spec fn target(event: Event) -> Phase {
    match event {
        Event::Registered => Phase::Registered,
        Event::InjectionAccepted => Phase::Injected,
        Event::InjectionFailed => Phase::InjectionFailed,
        Event::Delivered => Phase::Resolved,
        Event::ChannelClosed => Phase::ChannelClosed,
        Event::TimedOut => Phase::TimedOut,
        Event::Unsubscribed => Phase::Cleaned,
    }
}

/// The phase after an event: the event's target where it fits, else the
/// phase as it was.
pub open spec fn next_phase(phase: Phase, event: Event) -> Phase {
    if applies(phase, event) {
        target(event)
    } else {
        phase
    }
}

/// The event ends the execution and so yields the envelope to return.
pub open spec fn yields_envelope(phase: Phase, event: Event) -> bool {
    applies(phase, event) && (event == Event::InjectionFailed || event == Event::Delivered || event
        == Event::ChannelClosed || event == Event::TimedOut)
}

/// The event ends the execution with its entry still in the registry, which
/// is therefore discarded.
pub open spec fn discards(phase: Phase, event: Event) -> bool {
    applies(phase, event) && (event == Event::InjectionFailed || event == Event::TimedOut)
}

/// The entries that wait once the execution with `token` has gone through
/// an event.
pub open spec fn cleared(pending: Pending, token: Seq<char>, phase: Phase, event: Event)
    -> Pending {
    if discards(phase, event) {
        without(pending, token)
    } else {
        pending
    }
}

/// The number of envelopes that an execution yields on its way from `phase`
/// through `events`.
pub open spec fn envelopes(phase: Phase, events: Seq<Event>) -> nat
    decreases events.len(),
{
    if events.len() == 0 {
        0
    } else {
        let rest = envelopes(next_phase(phase, events.first()), events.drop_first());
        if yields_envelope(phase, events.first()) {
            1 + rest
        } else {
            rest
        }
    }
}

/// The event is one of the three ways in which a wait ends.
pub open spec fn is_wait_outcome(event: Event) -> bool {
    event == Event::Delivered || event == Event::ChannelClosed || event == Event::TimedOut
}

/// One execution: its token and the phase it is in.
pub struct Execution {
    token: String,
    phase: Phase,
}

/// An [`Execution`] with its token as a sequence of characters.
pub struct ExecutionView {
    pub token: Seq<char>,
    pub phase: Phase,
}

impl View for Execution {
    type V = ExecutionView;

    closed spec fn view(&self) -> ExecutionView {
        ExecutionView { token: self.token@, phase: self.phase }
    }
}

impl Execution {
    /// A new execution with a fresh token.
    pub fn new() -> (e: Execution)
        ensures
            e@.phase == Phase::Created,
            is_token(e@.token),
    {
        Execution { token: new_token(), phase: Phase::Created }
    }

    /// The execution's token.
    pub fn token(&self) -> (t: &str)
        ensures
            t@ == self@.token,
    {
        self.token.as_str()
    }

    /// The phase that the execution is in.
    pub fn phase(&self) -> (p: Phase)
        ensures
            p == self@.phase,
    {
        self.phase
    }

    /// The text to inject for `script`: the prepared script inside the
    /// reporting shim that bears the execution's token.
    pub fn script(&self, script: &str) -> (text: String)
        ensures
            text@ == injected_script(self@.token, prepared(script@)),
    {
        let snippet = prepare_script(script);
        build_injected_script(self.token.as_str(), snippet.as_str())
    }

    /// Registers a created execution and returns the receiving half of its
    /// result channel. In any other phase nothing happens.
    pub fn register(&mut self, registry: &mut PendingRegistry) -> (receiver: Option<
        Receiver<Envelope>,
    >)
        ensures
            final(self)@.token == old(self)@.token,
            final(self)@.phase == next_phase(old(self)@.phase, Event::Registered),
            receiver is Some <==> applies(old(self)@.phase, Event::Registered),
            receiver is Some ==> final(registry)@ == old(registry)@.insert(
                old(self)@.token,
                final(registry)@[old(self)@.token],
            ),
            receiver is None ==> final(registry)@ == old(registry)@,
    {
        match self.phase {
            Phase::Created => {
                let receiver = registry.register(self.token.clone());
                self.phase = Phase::Registered;
                Some(receiver)
            },
            _ => None,
        }
    }

    /// The remote engine accepted the script: a registered execution now
    /// waits. Tells whether the event fitted.
    pub fn injection_accepted(&mut self) -> (fitted: bool)
        ensures
            final(self)@.token == old(self)@.token,
            final(self)@.phase == next_phase(old(self)@.phase, Event::InjectionAccepted),
            fitted == applies(old(self)@.phase, Event::InjectionAccepted),
    {
        match self.phase {
            Phase::Registered => {
                self.phase = Phase::Injected;
                true
            },
            _ => false,
        }
    }

    /// The remote engine refused the script for `reason`: a registered
    /// execution ends without a wait. Its entry is discarded, and the
    /// envelope to return says why the injection failed.
    pub fn injection_failed(&mut self, registry: &mut PendingRegistry, reason: &str) -> (envelope:
        Option<Envelope>)
        ensures
            final(self)@.token == old(self)@.token,
            final(self)@.phase == next_phase(old(self)@.phase, Event::InjectionFailed),
            final(registry)@ == cleared(
                old(registry)@,
                old(self)@.token,
                old(self)@.phase,
                Event::InjectionFailed,
            ),
            envelope_view(envelope) == if yields_envelope(old(self)@.phase, Event::InjectionFailed) {
                Some(EnvelopeView::Failure { error: INJECTION_FAILED_PREFIX@ + reason@ })
            } else {
                None
            },
    {
        match self.phase {
            Phase::Registered => {
                let _ = registry.take(self.token.as_str());
                self.phase = Phase::InjectionFailed;
                Some(Envelope::injection_failed(reason))
            },
            _ => None,
        }
    }

    /// The wait ended with `outcome` on the result channel: a waiting
    /// execution is resolved, and `outcome` is the envelope to return.
    pub fn delivered(&mut self, outcome: Envelope) -> (envelope: Option<Envelope>)
        ensures
            final(self)@.token == old(self)@.token,
            final(self)@.phase == next_phase(old(self)@.phase, Event::Delivered),
            envelope == if yields_envelope(old(self)@.phase, Event::Delivered) {
                Some(outcome)
            } else {
                None
            },
    {
        match self.phase {
            Phase::Injected => {
                self.phase = Phase::Resolved;
                Some(outcome)
            },
            _ => None,
        }
    }

    /// The wait ended with the result channel closed: a waiting execution
    /// ends, and the envelope to return says so.
    pub fn channel_closed(&mut self) -> (envelope: Option<Envelope>)
        ensures
            final(self)@.token == old(self)@.token,
            final(self)@.phase == next_phase(old(self)@.phase, Event::ChannelClosed),
            envelope_view(envelope) == if yields_envelope(old(self)@.phase, Event::ChannelClosed) {
                Some(EnvelopeView::Failure { error: CHANNEL_CLOSED_MESSAGE@ })
            } else {
                None
            },
    {
        match self.phase {
            Phase::Injected => {
                self.phase = Phase::ChannelClosed;
                Some(Envelope::channel_closed())
            },
            _ => None,
        }
    }

    /// The wait ran out of time: a waiting execution ends. Its entry is
    /// discarded, so that a notification that still comes finds nothing, and
    /// the envelope to return reports the timeout.
    pub fn timed_out(&mut self, registry: &mut PendingRegistry) -> (envelope: Option<Envelope>)
        ensures
            final(self)@.token == old(self)@.token,
            final(self)@.phase == next_phase(old(self)@.phase, Event::TimedOut),
            final(registry)@ == cleared(
                old(registry)@,
                old(self)@.token,
                old(self)@.phase,
                Event::TimedOut,
            ),
            envelope_view(envelope) == if yields_envelope(old(self)@.phase, Event::TimedOut) {
                Some(EnvelopeView::Failure { error: TIMEOUT_MESSAGE@ })
            } else {
                None
            },
    {
        match self.phase {
            Phase::Injected => {
                let _ = registry.take(self.token.as_str());
                self.phase = Phase::TimedOut;
                Some(Envelope::timeout())
            },
            _ => None,
        }
    }

    /// The subscription was removed: a concluded execution is cleaned. Tells
    /// whether the event fitted.
    pub fn unsubscribed(&mut self) -> (fitted: bool)
        ensures
            final(self)@.token == old(self)@.token,
            final(self)@.phase == next_phase(old(self)@.phase, Event::Unsubscribed),
            fitted == applies(old(self)@.phase, Event::Unsubscribed),
    {
        match self.phase {
            Phase::Resolved | Phase::InjectionFailed | Phase::TimedOut | Phase::ChannelClosed => {
                self.phase = Phase::Cleaned;
                true
            },
            _ => false,
        }
    }
}

/// However the events fall, an execution yields at most one envelope, and
/// none after the one that concluded it.
pub proof fn lemma_at_most_one_envelope(phase: Phase, events: Seq<Event>)
    ensures
        envelopes(phase, events) <= 1,
        is_concluded(phase) || phase == Phase::Cleaned ==> envelopes(phase, events) == 0,
    decreases events.len(),
{
    if events.len() > 0 {
        lemma_at_most_one_envelope(next_phase(phase, events.first()), events.drop_first());
    }
}

/// An execution that waits yields exactly one envelope as soon as the wait
/// ends in any way, whatever else happens before or after and however often:
/// where a delivery and the timeout both come, in either order, the first
/// decides and the second is ignored.
pub proof fn lemma_exactly_one_envelope(events: Seq<Event>)
    requires
        exists|i: int| 0 <= i < events.len() && is_wait_outcome(#[trigger] events[i]),
    ensures
        envelopes(Phase::Injected, events) == 1,
    decreases events.len(),
{
    let i = choose|i: int| 0 <= i < events.len() && is_wait_outcome(#[trigger] events[i]);
    if is_wait_outcome(events.first()) {
        lemma_at_most_one_envelope(next_phase(Phase::Injected, events.first()), events.drop_first());
    } else {
        assert(is_wait_outcome(events.drop_first()[i - 1]));
        lemma_exactly_one_envelope(events.drop_first());
    }
}

/// A notification for a waiting execution and the end of its wait by
/// timeout may come in either order. Both orders leave the registry without
/// the execution's entry and every other entry as it was, and in both only
/// the first of the two finds the entry: after the timeout the notification
/// is late and changes nothing.
pub proof fn lemma_notification_races_timeout(
    pending: Pending,
    token: Seq<char>,
    n: NotificationView,
)
    requires
        n.exec_id == Some(token),
    ensures
        cleared(
            settled(pending, token, disposition(pending, token, n)),
            token,
            Phase::Injected,
            Event::TimedOut,
        ) == without(pending, token),
        ({
            let between = cleared(pending, token, Phase::Injected, Event::TimedOut);
            &&& between == without(pending, token)
            &&& disposition(between, token, n) == Disposition::Late
            &&& settled(between, token, disposition(between, token, n)) == between
        }),
        !without(pending, token).contains_key(token),
{
}

/// Once an execution's entry has been discarded, as it is when the wait
/// times out or the injection fails, no payload that arrives for its token
/// resolves anything or changes the registry.
pub proof fn lemma_late_notification_is_inert(pending: Pending, token: Seq<char>, raw: Seq<char>)
    ensures
        raw_disposition(without(pending, token), token, raw) != Disposition::Resolved,
        settled(
            without(pending, token),
            token,
            raw_disposition(without(pending, token), token, raw),
        ) == without(pending, token),
{
}

} // verus!
