//! The generator: a queue of messages that is refilled at each slot boundary.

use crate::builder::{GeneratorBuilder, GeneratorBuilderView};
use crate::message::{Message, MsgType, Slot};
use crate::schedule::{
    lemma_messages_below_all, lemma_one_message_for_each_duty, messages_below, slot_messages,
};
use crate::slot_generator::{ResolverParams, SlotDuties, Subnet, ValId};
use std::collections::HashSet;
use std::collections::VecDeque;
use vstd::prelude::*;

verus! {

/// A length of time in whole nanoseconds.
pub type Nanos = u128;

/// What a generator is configured with, besides its validators.
#[derive(Debug, Clone, Copy, PartialEq, Eq, Structural)]
pub struct Config {
    /// When the first slot began, counted from the Unix epoch.
    pub genesis_time: Nanos,
    /// How long a slot lasts.
    pub slot_duration: Nanos,
    /// What the duty resolver is set up with.
    pub resolver_params: ResolverParams,
}

/// Yields the duty messages of each slot as the slot begins.
pub struct Generator {
    /// Fixed at construction.
    config: Config,
    /// Validators managed by this node.
    validators: HashSet<ValId>,
    /// Messages pending to be returned, oldest first.
    queued_messages: VecDeque<Message>,
}

/// The mathematical content of a [`Generator`].
pub struct GeneratorView {
    pub config: Config,
    pub validators: Set<ValId>,
    pub queued_messages: Seq<Message>,
}

impl View for Generator {
    type V = GeneratorView;

    closed spec fn view(&self) -> GeneratorView {
        GeneratorView {
            config: self.config,
            validators: self.validators@,
            queued_messages: self.queued_messages@,
        }
    }
}

/// What the generator's surroundings report to it.
#[derive(Debug, PartialEq, Eq)]
pub enum Event {
    /// The consumer asks for the next message.
    Pull,
    /// The deadline timer was inspected and has not fired.
    NotDue,
    /// The deadline timer fired. The time source names `slot` as the current
    /// one, the resolver reports `duties` for it, and the timer has been set
    /// anew for the next boundary.
    SlotStarted { slot: Slot, duties: SlotDuties },
    /// The deadline timer fired, but the time source could not tell the
    /// current slot or the time to the next boundary.
    ClockUnavailable,
}

/// What the generator asks of its surroundings.
#[derive(Debug, Clone, Copy, PartialEq, Eq, Structural)]
pub enum Action {
    /// Hand this message to the consumer.
    Deliver(Message),
    /// Nothing is queued: inspect the deadline timer and report
    /// [`Event::NotDue`], [`Event::SlotStarted`] or
    /// [`Event::ClockUnavailable`].
    InspectTimer,
    /// Nothing is queued and the deadline has not passed: suspend the
    /// consumer until the timer wakes it.
    Suspend,
}

/// Why the generator cannot go on.
#[derive(Debug, Clone, Copy, PartialEq, Eq, Structural)]
pub enum Error {
    /// The time source gave no answer.
    TimeSourceUnavailable,
}

impl GeneratorView {
    /// The queue once the messages that `event` brings have been appended.
    pub open spec fn arrived(self, event: Event) -> Seq<Message> {
        match event {
            Event::SlotStarted { slot, duties } => self.queued_messages + slot_messages(
                slot,
                duties@,
            ),
            _ => self.queued_messages,
        }
    }

    /// The generator's answer to `event`. A message that is queued, or that
    /// the event brings, is delivered before anything else is asked for.
    pub open spec fn answer(self, event: Event) -> Result<Action, Error> {
        if event is ClockUnavailable {
            Err(Error::TimeSourceUnavailable)
        } else if self.arrived(event).len() > 0 {
            Ok(Action::Deliver(self.arrived(event).first()))
        } else if event is NotDue {
            Ok(Action::Suspend)
        } else {
            Ok(Action::InspectTimer)
        }
    }

    /// The generator after `event`.
    pub open spec fn after(self, event: Event) -> GeneratorView {
        if event is ClockUnavailable {
            self
        } else if self.arrived(event).len() > 0 {
            GeneratorView { queued_messages: self.arrived(event).drop_first(), ..self }
        } else {
            self
        }
    }
}

/// The time that has passed of a slot of length `slot_duration` when
/// `duration_to_next_slot` is left of it: the difference, and zero where more
/// is left than a slot is long. Where the time left is not known, the whole
/// length.
pub open spec fn elapsed_in_slot(slot_duration: Nanos, duration_to_next_slot: Option<Nanos>) -> Nanos {
    match duration_to_next_slot {
        Some(remaining) => if remaining <= slot_duration {
            (slot_duration - remaining) as Nanos
        } else {
            0
        },
        None => slot_duration,
    }
}

/// The message of `kind` that stands for one resolved duty.
spec fn duty_message(kind: MsgType, slot: Slot, duty: (ValId, Subnet)) -> Message {
    match kind {
        MsgType::BeaconBlock => Message::BeaconBlock { proposer: duty.0, slot },
        MsgType::AggregateAndProofAttestation => Message::AggregateAndProofAttestation {
            aggregator: duty.0,
            subnet: duty.1,
            slot,
        },
        MsgType::Attestation => Message::Attestation { attester: duty.0, subnet: duty.1, slot },
        MsgType::SignedContributionAndProof => Message::SignedContributionAndProof {
            validator: duty.0,
            subnet: duty.1,
            slot,
        },
        MsgType::SyncCommitteeMessage => Message::SyncCommitteeMessage {
            validator: duty.0,
            subnet: duty.1,
            slot,
        },
    }
}

/// Appends to `queue` the message of `kind` for each of `duties`, in order.
fn extend_with_duties(
    queue: &mut VecDeque<Message>,
    kind: MsgType,
    slot: Slot,
    duties: &Vec<(ValId, Subnet)>,
)
    ensures
        final(queue)@ == old(queue)@ + duties@.map_values(
            |duty: (ValId, Subnet)| duty_message(kind, slot, duty),
        ),
{
    let mut i: usize = 0;
    while i < duties.len()
        invariant
            i <= duties.len(),
            queue@ == old(queue)@ + duties@.take(i as int).map_values(
                |duty: (ValId, Subnet)| duty_message(kind, slot, duty),
            ),
        decreases duties.len() - i,
    {
        let (validator, subnet) = duties[i];
        let message = match kind {
            MsgType::BeaconBlock => Message::BeaconBlock { proposer: validator, slot },
            MsgType::AggregateAndProofAttestation => Message::AggregateAndProofAttestation {
                aggregator: validator,
                subnet,
                slot,
            },
            MsgType::Attestation => Message::Attestation { attester: validator, subnet, slot },
            MsgType::SignedContributionAndProof => Message::SignedContributionAndProof {
                validator,
                subnet,
                slot,
            },
            MsgType::SyncCommitteeMessage => Message::SyncCommitteeMessage {
                validator,
                subnet,
                slot,
            },
        };
        queue.push_back(message);
        i += 1;
    }
}

impl Generator {
    /// Starts the construction of a generator.
    pub fn builder() -> (builder: GeneratorBuilder)
        ensures
            builder@ == GeneratorBuilderView::empty(),
    {
        GeneratorBuilder::default()
    }

    /// A generator with nothing queued.
    pub(crate) fn new(config: Config, validators: HashSet<ValId>) -> (generator: Generator)
        ensures
            generator@ == (GeneratorView {
                config,
                validators: validators@,
                queued_messages: Seq::empty(),
            }),
    {
        Generator { config, validators, queued_messages: VecDeque::new() }
    }

    /// Appends the messages of `current_slot` to the queue, behind whatever
    /// is still unread: for each kind in the declared order, one message for
    /// each duty that was resolved, in the resolver's order.
    pub fn queue_slot_msgs(&mut self, current_slot: Slot, duties: &SlotDuties)
        ensures
            final(self)@ == (GeneratorView {
                queued_messages: old(self)@.queued_messages + slot_messages(
                    current_slot,
                    duties@,
                ),
                ..old(self)@
            }),
    {
        let kinds = MsgType::iter();
        let mut k: usize = 0;
        while k < kinds.len()
            invariant
                kinds@ == MsgType::declared_order(),
                k <= 5,
                self.config == old(self).config,
                self.validators == old(self).validators,
                self.queued_messages@ == old(self).queued_messages@ + messages_below(
                    k as nat,
                    current_slot,
                    duties@,
                ),
            decreases 5 - k,
        {
            match kinds[k] {
                MsgType::BeaconBlock => {
                    if let Some(proposer) = duties.proposer {
                        self.queued_messages.push_back(
                            Message::BeaconBlock { proposer, slot: current_slot },
                        );
                    }
                },
                MsgType::AggregateAndProofAttestation => extend_with_duties(
                    &mut self.queued_messages,
                    MsgType::AggregateAndProofAttestation,
                    current_slot,
                    &duties.aggregates,
                ),
                MsgType::Attestation => extend_with_duties(
                    &mut self.queued_messages,
                    MsgType::Attestation,
                    current_slot,
                    &duties.attestations,
                ),
                MsgType::SignedContributionAndProof => extend_with_duties(
                    &mut self.queued_messages,
                    MsgType::SignedContributionAndProof,
                    current_slot,
                    &duties.sync_committee_aggregates,
                ),
                MsgType::SyncCommitteeMessage => extend_with_duties(
                    &mut self.queued_messages,
                    MsgType::SyncCommitteeMessage,
                    current_slot,
                    &duties.sync_committee_messages,
                ),
            }
            k += 1;
        }
        proof {
            lemma_messages_below_all(current_slot, duties@);
        }
    }

    /// Takes one event and says what is to be done next.
    ///
    /// A queued message is delivered first, whatever the event. With an empty
    /// queue a pull asks for the timer to be inspected; a timer that is not
    /// due suspends the consumer; the start of a slot queues the slot's
    /// messages and delivers the first of them at once, or asks for the timer
    /// again where the slot has none. A time source without an answer is an
    /// error, and leaves the generator as it was.
    pub fn poll_next(&mut self, event: Event) -> (answer: Result<Action, Error>)
        ensures
            answer == old(self)@.answer(event),
            final(self)@ == old(self)@.after(event),
    {
        let when_drained = match event {
            Event::ClockUnavailable => {
                return Err(Error::TimeSourceUnavailable);
            },
            Event::SlotStarted { slot, duties } => {
                self.queue_slot_msgs(slot, &duties);
                Action::InspectTimer
            },
            Event::NotDue => Action::Suspend,
            Event::Pull => Action::InspectTimer,
        };
        match self.queued_messages.pop_front() {
            Some(message) => Ok(Action::Deliver(message)),
            None => Ok(when_drained),
        }
    }

    /// The time since the current slot began, given the time that the clock
    /// reports to the next slot: the slot's length less that time, and zero
    /// where that would be negative. Without a report the whole length of a
    /// slot is returned.
    pub fn time_since_last_slot(&self, duration_to_next_slot: Option<Nanos>) -> (elapsed: Nanos)
        ensures
            elapsed == elapsed_in_slot(self@.config.slot_duration, duration_to_next_slot),
    {
        match duration_to_next_slot {
            Some(remaining) => self.config.slot_duration.saturating_sub(remaining),
            None => self.config.slot_duration,
        }
    }

    /// The validators managed by this node.
    pub fn validators(&self) -> (validators: &HashSet<ValId>)
        ensures
            validators@ == self@.validators,
    {
        &self.validators
    }

    /// What the generator was configured with.
    pub fn config(&self) -> (config: Config)
        ensures
            config == self@.config,
    {
        self.config
    }

    /// The number of messages that are queued.
    pub fn queued(&self) -> (count: usize)
        ensures
            count == self@.queued_messages.len(),
    {
        self.queued_messages.len()
    }
}

/// Once the deadline has passed the generator goes from waiting to
/// delivering by itself: with nothing queued, the start of a slot that has
/// any duty is answered with the first of the slot's messages, and the rest
/// of them is queued.
pub proof fn lemma_slot_start_delivers_at_once(view: GeneratorView, slot: Slot, duties: SlotDuties)
    requires
        view.queued_messages.len() == 0,
        duties@.total() > 0,
    ensures
        slot_messages(slot, duties@).len() > 0,
        view.answer(Event::SlotStarted { slot, duties }) == Ok::<Action, Error>(
            Action::Deliver(slot_messages(slot, duties@).first()),
        ),
        view.after(Event::SlotStarted { slot, duties }).queued_messages == slot_messages(
            slot,
            duties@,
        ).drop_first(),
{
    lemma_one_message_for_each_duty(slot, duties@);
}

/// The timer, and with it the resolver, is asked for only when the queue has
/// run dry. While anything is queued, a pull takes the message at the front
/// and changes nothing else.
pub proof fn lemma_timer_is_asked_for_only_when_drained(view: GeneratorView, event: Event)
    ensures
        view.answer(event) == Ok::<Action, Error>(Action::InspectTimer) ==> {
            &&& view.queued_messages.len() == 0
            &&& view.after(event).queued_messages.len() == 0
            &&& event is Pull || event is SlotStarted
        },
        view.queued_messages.len() > 0 && event is Pull ==> {
            &&& view.answer(event) == Ok::<Action, Error>(
                Action::Deliver(view.queued_messages.first()),
            )
            &&& view.after(event) == (GeneratorView {
                queued_messages: view.queued_messages.drop_first(),
                ..view
            })
        },
{
}

/// No event changes the validators or the settings.
pub proof fn lemma_registry_is_fixed(view: GeneratorView, event: Event)
    ensures
        view.after(event).validators == view.validators,
        view.after(event).config == view.config,
{
}

} // verus!
