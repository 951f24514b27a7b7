//! The messages of one slot: which they are and in which order they come.
//!
//! [`slot_messages`] says what the generator queues when a slot starts. The
//! proof functions below state what follows from it for a consumer.

use crate::message::{Message, MsgType, Slot};
use crate::slot_generator::{SlotDutiesView, Subnet, ValId};
use vstd::prelude::*;

verus! {

/// The messages of one kind for `slot`: one for each duty that the resolver
/// reported for the kind, in the resolver's order.
pub open spec fn kind_messages(kind: MsgType, slot: Slot, duties: SlotDutiesView) -> Seq<Message> {
    match kind {
        MsgType::BeaconBlock => match duties.proposer {
            Some(proposer) => seq![Message::BeaconBlock { proposer, slot }],
            None => Seq::empty(),
        },
        MsgType::AggregateAndProofAttestation => duties.aggregates.map_values(
            |duty: (ValId, Subnet)|
                Message::AggregateAndProofAttestation { aggregator: duty.0, subnet: duty.1, slot },
        ),
        MsgType::Attestation => duties.attestations.map_values(
            |duty: (ValId, Subnet)| Message::Attestation { attester: duty.0, subnet: duty.1, slot },
        ),
        MsgType::SignedContributionAndProof => duties.sync_committee_aggregates.map_values(
            |duty: (ValId, Subnet)|
                Message::SignedContributionAndProof { validator: duty.0, subnet: duty.1, slot },
        ),
        MsgType::SyncCommitteeMessage => duties.sync_committee_messages.map_values(
            |duty: (ValId, Subnet)|
                Message::SyncCommitteeMessage { validator: duty.0, subnet: duty.1, slot },
        ),
    }
}

/// All messages of `slot`: those of each kind, the kinds in their declared
/// order.
pub open spec fn slot_messages(slot: Slot, duties: SlotDutiesView) -> Seq<Message> {
    kind_messages(MsgType::BeaconBlock, slot, duties)
        + kind_messages(MsgType::AggregateAndProofAttestation, slot, duties)
        + kind_messages(MsgType::Attestation, slot, duties)
        + kind_messages(MsgType::SignedContributionAndProof, slot, duties)
        + kind_messages(MsgType::SyncCommitteeMessage, slot, duties)
}

/// The messages of the kinds that come before position `rank` of the declared
/// order.
pub open spec fn messages_below(rank: nat, slot: Slot, duties: SlotDutiesView) -> Seq<Message>
    decreases rank,
{
    if rank == 0 {
        Seq::empty()
    } else if rank > 5 {
        messages_below(5, slot, duties)
    } else {
        messages_below((rank - 1) as nat, slot, duties) + kind_messages(
            MsgType::declared_order()[rank - 1],
            slot,
            duties,
        )
    }
}

/// The validators that hold a duty of `kind`, in the resolver's order.
pub open spec fn kind_validators(kind: MsgType, duties: SlotDutiesView) -> Seq<ValId> {
    match kind {
        MsgType::BeaconBlock => match duties.proposer {
            Some(proposer) => seq![proposer],
            None => Seq::empty(),
        },
        MsgType::AggregateAndProofAttestation => duties.aggregates.map_values(
            |duty: (ValId, Subnet)| duty.0,
        ),
        MsgType::Attestation => duties.attestations.map_values(|duty: (ValId, Subnet)| duty.0),
        MsgType::SignedContributionAndProof => duties.sync_committee_aggregates.map_values(
            |duty: (ValId, Subnet)| duty.0,
        ),
        MsgType::SyncCommitteeMessage => duties.sync_committee_messages.map_values(
            |duty: (ValId, Subnet)| duty.0,
        ),
    }
}

/// Whether the resolver's answer for `slot` holds the duty that `message`
/// stands for.
pub open spec fn is_resolved(duties: SlotDutiesView, slot: Slot, message: Message) -> bool {
    match message {
        Message::BeaconBlock { proposer, slot: s } => s == slot && duties.proposer == Some(
            proposer,
        ),
        Message::AggregateAndProofAttestation { aggregator, subnet, slot: s } => s == slot
            && duties.aggregates.contains((aggregator, subnet)),
        Message::Attestation { attester, subnet, slot: s } => s == slot
            && duties.attestations.contains((attester, subnet)),
        Message::SignedContributionAndProof { validator, subnet, slot: s } => s == slot
            && duties.sync_committee_aggregates.contains((validator, subnet)),
        Message::SyncCommitteeMessage { validator, subnet, slot: s } => s == slot
            && duties.sync_committee_messages.contains((validator, subnet)),
    }
}

/// Holds of the messages of `kind` and of no others.
pub open spec fn is_of_kind(kind: MsgType) -> spec_fn(Message) -> bool {
    |message: Message| message.kind() == kind
}

/// Whether the resolver names no duty twice within a kind.
pub open spec fn duties_are_distinct(duties: SlotDutiesView) -> bool {
    &&& duties.aggregates.no_duplicates()
    &&& duties.attestations.no_duplicates()
    &&& duties.sync_committee_aggregates.no_duplicates()
    &&& duties.sync_committee_messages.no_duplicates()
}

/// Taking the kinds one after another up to the last gives all messages of
/// the slot.
pub proof fn lemma_messages_below_all(slot: Slot, duties: SlotDutiesView)
    ensures
        messages_below(5, slot, duties) == slot_messages(slot, duties),
{
    reveal_with_fuel(messages_below, 6);
}

/// A sequence that is put together from two holds what either of them holds.
proof fn lemma_concat_contains(first: Seq<Message>, second: Seq<Message>, message: Message)
    ensures
        (first + second).contains(message) <==> first.contains(message) || second.contains(
            message,
        ),
{
    let both = first + second;
    if first.contains(message) {
        let i = choose|i: int| 0 <= i < first.len() && first[i] == message;
        assert(both[i] == message);
    }
    if second.contains(message) {
        let i = choose|i: int| 0 <= i < second.len() && second[i] == message;
        assert(both[first.len() + i] == message);
    }
}

/// Every message of a kind is of that kind, carries the slot, and names the
/// validator that the resolver named at the same position.
pub proof fn lemma_kind_messages_at(kind: MsgType, slot: Slot, duties: SlotDutiesView, i: int)
    requires
        0 <= i < kind_messages(kind, slot, duties).len(),
    ensures
        kind_messages(kind, slot, duties).len() == kind_validators(kind, duties).len(),
        kind_messages(kind, slot, duties)[i].kind() == kind,
        kind_messages(kind, slot, duties)[i].slot() == slot,
        kind_messages(kind, slot, duties)[i].validator() == kind_validators(kind, duties)[i],
{
}

/// The messages of a kind are the duties that the resolver reported for it.
proof fn lemma_kind_messages_contains(
    kind: MsgType,
    slot: Slot,
    duties: SlotDutiesView,
    message: Message,
)
    ensures
        kind_messages(kind, slot, duties).contains(message) <==> message.kind() == kind
            && is_resolved(duties, slot, message),
{
    let messages = kind_messages(kind, slot, duties);
    if messages.contains(message) {
        let i = choose|i: int| 0 <= i < messages.len() && messages[i] == message;
        lemma_kind_messages_at(kind, slot, duties, i);
    }
    if message.kind() == kind && is_resolved(duties, slot, message) {
        match message {
            Message::BeaconBlock { .. } => {
                assert(messages[0] == message);
            },
            Message::AggregateAndProofAttestation { aggregator, subnet, .. } => {
                let i = choose|i: int|
                    0 <= i < duties.aggregates.len() && duties.aggregates[i] == (
                        aggregator,
                        subnet,
                    );
                assert(messages[i] == message);
            },
            Message::Attestation { attester, subnet, .. } => {
                let i = choose|i: int|
                    0 <= i < duties.attestations.len() && duties.attestations[i] == (
                        attester,
                        subnet,
                    );
                assert(messages[i] == message);
            },
            Message::SignedContributionAndProof { validator, subnet, .. } => {
                let i = choose|i: int|
                    0 <= i < duties.sync_committee_aggregates.len()
                        && duties.sync_committee_aggregates[i] == (validator, subnet);
                assert(messages[i] == message);
            },
            Message::SyncCommitteeMessage { validator, subnet, .. } => {
                let i = choose|i: int|
                    0 <= i < duties.sync_committee_messages.len()
                        && duties.sync_committee_messages[i] == (validator, subnet);
                assert(messages[i] == message);
            },
        }
    }
}

/// There are as many messages of a slot as the resolver reported duties.
pub proof fn lemma_one_message_for_each_duty(slot: Slot, duties: SlotDutiesView)
    ensures
        slot_messages(slot, duties).len() == duties.total(),
{
}

/// Nothing is dropped and nothing is made up: a message is among those of a
/// slot exactly when the resolver reported its duty for that slot.
pub proof fn lemma_slot_messages_are_the_resolved_duties(
    slot: Slot,
    duties: SlotDutiesView,
    message: Message,
)
    ensures
        slot_messages(slot, duties).contains(message) <==> is_resolved(duties, slot, message),
{
    let blocks = kind_messages(MsgType::BeaconBlock, slot, duties);
    let aggregates = kind_messages(MsgType::AggregateAndProofAttestation, slot, duties);
    let attestations = kind_messages(MsgType::Attestation, slot, duties);
    let contributions = kind_messages(MsgType::SignedContributionAndProof, slot, duties);
    let sync_messages = kind_messages(MsgType::SyncCommitteeMessage, slot, duties);
    lemma_kind_messages_contains(MsgType::BeaconBlock, slot, duties, message);
    lemma_kind_messages_contains(MsgType::AggregateAndProofAttestation, slot, duties, message);
    lemma_kind_messages_contains(MsgType::Attestation, slot, duties, message);
    lemma_kind_messages_contains(MsgType::SignedContributionAndProof, slot, duties, message);
    lemma_kind_messages_contains(MsgType::SyncCommitteeMessage, slot, duties, message);
    lemma_concat_contains(blocks, aggregates, message);
    lemma_concat_contains(blocks + aggregates, attestations, message);
    lemma_concat_contains(blocks + aggregates + attestations, contributions, message);
    lemma_concat_contains(
        blocks + aggregates + attestations + contributions,
        sync_messages,
        message,
    );
}

/// Where the message at a position of a slot's messages comes from: its
/// kind's messages begin right behind those of the kinds before it.
pub proof fn lemma_slot_messages_at(slot: Slot, duties: SlotDutiesView, i: int)
    requires
        0 <= i < slot_messages(slot, duties).len(),
    ensures
        ({
            let kind = slot_messages(slot, duties)[i].kind();
            let start = messages_below(kind.rank(), slot, duties).len();
            &&& start <= i < start + kind_messages(kind, slot, duties).len()
            &&& slot_messages(slot, duties)[i] == kind_messages(kind, slot, duties)[i - start]
        }),
{
    reveal_with_fuel(messages_below, 6);
    let blocks = kind_messages(MsgType::BeaconBlock, slot, duties);
    let aggregates = kind_messages(MsgType::AggregateAndProofAttestation, slot, duties);
    let attestations = kind_messages(MsgType::Attestation, slot, duties);
    let contributions = kind_messages(MsgType::SignedContributionAndProof, slot, duties);
    let sync_messages = kind_messages(MsgType::SyncCommitteeMessage, slot, duties);
    let m1 = blocks.len();
    let m2 = m1 + aggregates.len();
    let m3 = m2 + attestations.len();
    let m4 = m3 + contributions.len();
    if i < m1 {
        lemma_kind_messages_at(MsgType::BeaconBlock, slot, duties, i);
    } else if i < m2 {
        lemma_kind_messages_at(MsgType::AggregateAndProofAttestation, slot, duties, i - m1);
    } else if i < m3 {
        lemma_kind_messages_at(MsgType::Attestation, slot, duties, i - m2);
    } else if i < m4 {
        lemma_kind_messages_at(MsgType::SignedContributionAndProof, slot, duties, i - m3);
    } else {
        lemma_kind_messages_at(MsgType::SyncCommitteeMessage, slot, duties, i - m4);
    }
}

/// The kinds of a slot's messages follow the declared order: a later message
/// is never of an earlier kind.
pub proof fn lemma_kinds_follow_the_declared_order(
    slot: Slot,
    duties: SlotDutiesView,
    i: int,
    j: int,
)
    requires
        0 <= i <= j < slot_messages(slot, duties).len(),
    ensures
        slot_messages(slot, duties)[i].kind().rank() <= slot_messages(slot, duties)[j].kind().rank(),
{
    reveal_with_fuel(messages_below, 6);
    lemma_slot_messages_at(slot, duties, i);
    lemma_slot_messages_at(slot, duties, j);
}

/// Every message of a slot carries that slot and no other.
pub proof fn lemma_messages_carry_the_slot(slot: Slot, duties: SlotDutiesView, i: int)
    requires
        0 <= i < slot_messages(slot, duties).len(),
    ensures
        slot_messages(slot, duties)[i].slot() == slot,
{
    lemma_slot_messages_at(slot, duties, i);
    let kind = slot_messages(slot, duties)[i].kind();
    lemma_kind_messages_at(
        kind,
        slot,
        duties,
        i - messages_below(kind.rank(), slot, duties).len(),
    );
}

/// The message at a position of a kind's messages stands in the slot's
/// messages at that position behind the kinds before it.
pub proof fn lemma_kind_messages_within(
    kind: MsgType,
    slot: Slot,
    duties: SlotDutiesView,
    i: int,
)
    requires
        0 <= i < kind_messages(kind, slot, duties).len(),
    ensures
        ({
            let start = messages_below(kind.rank(), slot, duties).len();
            &&& start + i < slot_messages(slot, duties).len()
            &&& slot_messages(slot, duties)[start + i] == kind_messages(kind, slot, duties)[i]
        }),
{
    reveal_with_fuel(messages_below, 6);
}

/// Selecting from messages that are all of one kind keeps all of them or
/// none.
proof fn lemma_filter_one_kind(messages: Seq<Message>, of: MsgType, kind: MsgType)
    requires
        forall|i: int| 0 <= i < messages.len() ==> (#[trigger] messages[i]).kind() == of,
    ensures
        messages.filter(is_of_kind(kind)) == if of == kind {
            messages
        } else {
            Seq::empty()
        },
    decreases messages.len(),
{
    reveal(Seq::filter);
    if messages.len() > 0 {
        lemma_filter_one_kind(messages.drop_last(), of, kind);
    }
}

/// Within a kind the resolver's order is kept: the messages of one kind,
/// picked from a slot's messages in the order in which they stand there, are
/// the resolver's duties for that kind in the resolver's order.
pub proof fn lemma_order_within_a_kind(slot: Slot, duties: SlotDutiesView, kind: MsgType)
    ensures
        slot_messages(slot, duties).filter(is_of_kind(kind)) == kind_messages(kind, slot, duties),
{
    broadcast use Seq::filter_distributes_over_add;

    let blocks = kind_messages(MsgType::BeaconBlock, slot, duties);
    let aggregates = kind_messages(MsgType::AggregateAndProofAttestation, slot, duties);
    let attestations = kind_messages(MsgType::Attestation, slot, duties);
    let contributions = kind_messages(MsgType::SignedContributionAndProof, slot, duties);
    let sync_messages = kind_messages(MsgType::SyncCommitteeMessage, slot, duties);
    lemma_filter_one_kind(blocks, MsgType::BeaconBlock, kind);
    lemma_filter_one_kind(aggregates, MsgType::AggregateAndProofAttestation, kind);
    lemma_filter_one_kind(attestations, MsgType::Attestation, kind);
    lemma_filter_one_kind(contributions, MsgType::SignedContributionAndProof, kind);
    lemma_filter_one_kind(sync_messages, MsgType::SyncCommitteeMessage, kind);
}

/// The generator neither repeats a duty nor merges two: no message stands
/// twice among those of a slot exactly when the resolver names no duty twice
/// within a kind.
pub proof fn lemma_no_message_twice(slot: Slot, duties: SlotDutiesView)
    ensures
        slot_messages(slot, duties).no_duplicates() <==> duties_are_distinct(duties),
{
    let messages = slot_messages(slot, duties);
    if duties_are_distinct(duties) {
        assert forall|i: int, j: int|
            0 <= i < messages.len() && 0 <= j < messages.len() && i != j implies messages[i]
            != messages[j] by {
            lemma_slot_messages_at(slot, duties, i);
            lemma_slot_messages_at(slot, duties, j);
        }
    }
    if messages.no_duplicates() {
        assert forall|kind: MsgType, i: int, j: int|
            0 <= i < kind_messages(kind, slot, duties).len() && 0 <= j < kind_messages(
                kind,
                slot,
                duties,
            ).len() && i != j implies #[trigger] kind_messages(kind, slot, duties)[i]
            != #[trigger] kind_messages(kind, slot, duties)[j] by {
            lemma_kind_messages_within(kind, slot, duties, i);
            lemma_kind_messages_within(kind, slot, duties, j);
        }
        assert forall|i: int, j: int|
            0 <= i < duties.aggregates.len() && 0 <= j < duties.aggregates.len() && i
                != j implies duties.aggregates[i] != duties.aggregates[j] by {
            let of_kind = kind_messages(MsgType::AggregateAndProofAttestation, slot, duties);
            assert(of_kind[i] != of_kind[j]);
        }
        assert forall|i: int, j: int|
            0 <= i < duties.attestations.len() && 0 <= j < duties.attestations.len() && i
                != j implies duties.attestations[i] != duties.attestations[j] by {
            let of_kind = kind_messages(MsgType::Attestation, slot, duties);
            assert(of_kind[i] != of_kind[j]);
        }
        assert forall|i: int, j: int|
            0 <= i < duties.sync_committee_aggregates.len() && 0 <= j
                < duties.sync_committee_aggregates.len() && i
                != j implies duties.sync_committee_aggregates[i]
            != duties.sync_committee_aggregates[j] by {
            let of_kind = kind_messages(MsgType::SignedContributionAndProof, slot, duties);
            assert(of_kind[i] != of_kind[j]);
        }
        assert forall|i: int, j: int|
            0 <= i < duties.sync_committee_messages.len() && 0 <= j
                < duties.sync_committee_messages.len() && i
                != j implies duties.sync_committee_messages[i]
            != duties.sync_committee_messages[j] by {
            let of_kind = kind_messages(MsgType::SyncCommitteeMessage, slot, duties);
            assert(of_kind[i] != of_kind[j]);
        }
    }
}

/// Where the resolver gives no validator two duties of one kind, no two
/// messages of a slot agree in kind and validator.
pub proof fn lemma_one_message_per_kind_and_validator(
    slot: Slot,
    duties: SlotDutiesView,
    i: int,
    j: int,
)
    requires
        forall|kind: MsgType| (#[trigger] kind_validators(kind, duties)).no_duplicates(),
        0 <= i < slot_messages(slot, duties).len(),
        0 <= j < slot_messages(slot, duties).len(),
        i != j,
    ensures
        slot_messages(slot, duties)[i].kind() != slot_messages(slot, duties)[j].kind()
            || slot_messages(slot, duties)[i].validator() != slot_messages(
            slot,
            duties,
        )[j].validator(),
{
    let first = slot_messages(slot, duties)[i];
    let second = slot_messages(slot, duties)[j];
    lemma_slot_messages_at(slot, duties, i);
    lemma_slot_messages_at(slot, duties, j);
    if first.kind() == second.kind() {
        let kind = first.kind();
        let start = messages_below(kind.rank(), slot, duties).len();
        lemma_kind_messages_at(kind, slot, duties, i - start);
        lemma_kind_messages_at(kind, slot, duties, j - start);
    }
}

} // verus!
