//! What holds of a generator over any course of events.

use crate::generator::{Action, Error, Event, GeneratorView};
use crate::message::{Message, Slot};
use crate::schedule::{
    is_resolved, lemma_messages_carry_the_slot, lemma_slot_messages_are_the_resolved_duties,
    slot_messages,
};
use vstd::prelude::*;

verus! {

impl GeneratorView {
    /// The generator after `events`, taken one after another.
    pub open spec fn run(self, events: Seq<Event>) -> GeneratorView
        decreases events.len(),
    {
        if events.len() == 0 {
            self
        } else {
            self.run(events.drop_last()).after(events.last())
        }
    }

    /// The messages that the generator delivers in the course of `events`, in
    /// the order of delivery.
    pub open spec fn delivered(self, events: Seq<Event>) -> Seq<Message>
        decreases events.len(),
    {
        if events.len() == 0 {
            Seq::empty()
        } else {
            let earlier = self.delivered(events.drop_last());
            match self.run(events.drop_last()).answer(events.last()) {
                Ok(Action::Deliver(message)) => earlier.push(message),
                _ => earlier,
            }
        }
    }

    /// The generator's answer to the event at position `k` of `events`.
    pub open spec fn answer_at(self, events: Seq<Event>, k: int) -> Result<Action, Error>
        recommends
            0 <= k < events.len(),
    {
        self.run(events.take(k)).answer(events[k])
    }
}

/// The messages of the slots that start in the course of `events`, slot after
/// slot.
pub open spec fn resolved_messages(events: Seq<Event>) -> Seq<Message>
    decreases events.len(),
{
    if events.len() == 0 {
        Seq::empty()
    } else {
        let earlier = resolved_messages(events.drop_last());
        match events.last() {
            Event::SlotStarted { slot, duties } => earlier + slot_messages(slot, duties@),
            _ => earlier,
        }
    }
}

/// The slot that started last in the course of `events`, if any did.
pub open spec fn last_slot(events: Seq<Event>) -> Option<Slot>
    decreases events.len(),
{
    if events.len() == 0 {
        None
    } else {
        match events.last() {
            Event::SlotStarted { slot, .. } => Some(slot),
            _ => last_slot(events.drop_last()),
        }
    }
}

/// Whether the surroundings keep to their turn: the timer is inspected, and
/// a slot resolved, only in reply to the generator asking for the timer.
pub open spec fn in_turn(view: GeneratorView, events: Seq<Event>) -> bool {
    forall|k: int|
        0 <= k < events.len() && !(#[trigger] events[k] is Pull) ==> k > 0 && view.answer_at(
            events,
            k - 1,
        ) == Ok::<Action, Error>(Action::InspectTimer)
}

/// Nothing is lost, made up, repeated or reordered: what was queued at the
/// start, followed by the messages of every slot that started, is what has
/// been delivered followed by what is still queued.
pub proof fn lemma_first_in_first_out(view: GeneratorView, events: Seq<Event>)
    ensures
        view.queued_messages + resolved_messages(events) == view.delivered(events) + view.run(
            events,
        ).queued_messages,
    decreases events.len(),
{
    if events.len() > 0 {
        let earlier = events.drop_last();
        lemma_first_in_first_out(view, earlier);
        let brought = match events.last() {
            Event::SlotStarted { slot, duties } => slot_messages(slot, duties@),
            _ => Seq::empty(),
        };
        assert(view.queued_messages + resolved_messages(events) =~= (view.queued_messages
            + resolved_messages(earlier)) + brought);
    }
}

/// The validators and the settings are those of the start, whatever happens.
pub proof fn lemma_registry_never_changes(view: GeneratorView, events: Seq<Event>)
    ensures
        view.run(events).validators == view.validators,
        view.run(events).config == view.config,
    decreases events.len(),
{
    if events.len() > 0 {
        lemma_registry_never_changes(view, events.drop_last());
    }
}

/// A message that a slot's start brought belongs to a slot that did start,
/// and the resolver reported its duty for that slot.
pub proof fn lemma_resolved_messages_origin(events: Seq<Event>, i: int) -> (k: int)
    requires
        0 <= i < resolved_messages(events).len(),
    ensures
        0 <= k < events.len(),
        events[k] matches Event::SlotStarted { slot, duties } && slot == resolved_messages(
            events,
        )[i].slot() && is_resolved(duties@, slot, resolved_messages(events)[i]),
    decreases events.len(),
{
    let earlier = resolved_messages(events.drop_last());
    if i < earlier.len() {
        let k = lemma_resolved_messages_origin(events.drop_last(), i);
        k
    } else {
        let message = resolved_messages(events)[i];
        match events.last() {
            Event::SlotStarted { slot, duties } => {
                let at = i - earlier.len();
                lemma_messages_carry_the_slot(slot, duties@, at);
                lemma_slot_messages_are_the_resolved_duties(slot, duties@, message);
            },
            _ => {},
        }
        events.len() - 1
    }
}

/// Slots that went by unresolved are never filled in: a message that is
/// delivered or queued, and was not queued from the start, belongs to a slot
/// whose start was reported, and stands for a duty that the resolver
/// reported for that slot.
pub proof fn lemma_no_backfill(view: GeneratorView, events: Seq<Event>, message: Message) -> (k:
    int)
    requires
        view.delivered(events).contains(message) || view.run(events).queued_messages.contains(
            message,
        ),
        !view.queued_messages.contains(message),
    ensures
        0 <= k < events.len(),
        events[k] matches Event::SlotStarted { slot, duties } && slot == message.slot()
            && is_resolved(duties@, slot, message),
{
    lemma_first_in_first_out(view, events);
    let delivered = view.delivered(events);
    let queued = view.run(events).queued_messages;
    let all = view.queued_messages + resolved_messages(events);
    let at: int = if delivered.contains(message) {
        choose|i: int| 0 <= i < delivered.len() && delivered[i] == message
    } else {
        delivered.len() + choose|i: int| 0 <= i < queued.len() && queued[i] == message
    };
    assert(0 <= at < (delivered + queued).len());
    assert(all[at] == message);
    lemma_resolved_messages_origin(events, at - view.queued_messages.len())
}

/// Surroundings that keep to their turn over `events` did so over every
/// beginning of them.
proof fn lemma_in_turn_so_far(view: GeneratorView, events: Seq<Event>, n: int)
    requires
        in_turn(view, events),
        0 <= n <= events.len(),
    ensures
        in_turn(view, events.take(n)),
{
    let so_far = events.take(n);
    assert forall|k: int| 0 <= k < so_far.len() && !(#[trigger] so_far[k] is Pull) implies k > 0
        && view.answer_at(so_far, k - 1) == Ok::<Action, Error>(
        Action::InspectTimer,
    ) by {
        assert(so_far.take(k - 1) =~= events.take(k - 1));
    }
}

/// The resolver is never asked again while a slot's messages are being
/// handed out: where the surroundings keep to their turn, the start of a slot
/// always meets an empty queue.
pub proof fn lemma_slot_start_meets_an_empty_queue(
    view: GeneratorView,
    events: Seq<Event>,
    k: int,
)
    requires
        in_turn(view, events),
        0 <= k < events.len(),
        events[k] is SlotStarted,
    ensures
        view.run(events.take(k)).queued_messages.len() == 0,
{
    let so_far = events.take(k);
    assert(so_far.drop_last() =~= events.take(k - 1));
}

/// The queue holds messages of one slot only, the one that started last:
/// this holds at any time of a generator that began with an empty queue and
/// whose surroundings keep to their turn.
pub proof fn lemma_queue_holds_the_last_slot_only(
    view: GeneratorView,
    events: Seq<Event>,
    i: int,
)
    requires
        in_turn(view, events),
        view.queued_messages.len() == 0,
        0 <= i < view.run(events).queued_messages.len(),
    ensures
        last_slot(events) == Some(view.run(events).queued_messages[i].slot()),
    decreases events.len(),
{
    if events.len() > 0 {
        let earlier = events.drop_last();
        let before = view.run(earlier);
        lemma_in_turn_so_far(view, events, events.len() - 1);
        match events.last() {
            Event::SlotStarted { slot, duties } => {
                lemma_slot_start_meets_an_empty_queue(view, events, events.len() - 1);
                lemma_messages_carry_the_slot(slot, duties@, i + 1);
            },
            _ => {
                if events.last() is ClockUnavailable || before.queued_messages.len() == 0 {
                    lemma_queue_holds_the_last_slot_only(view, earlier, i);
                } else {
                    lemma_queue_holds_the_last_slot_only(view, earlier, i + 1);
                }
            },
        }
    }
}

} // verus!
