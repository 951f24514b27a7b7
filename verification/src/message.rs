//! The kinds of duty and the messages that stand for them.

use crate::slot_generator::{Subnet, ValId};
use vstd::prelude::*;

verus! {

/// A slot: one tick of the protocol's clock.
pub type Slot = u64;

/// The kinds of duty, declared in the order in which a slot's messages are
/// emitted.
#[derive(Debug, Clone, Copy, PartialEq, Eq, Hash, Structural)]
pub enum MsgType {
    BeaconBlock,
    AggregateAndProofAttestation,
    Attestation,
    SignedContributionAndProof,
    SyncCommitteeMessage,
}

impl MsgType {
    /// The position of a kind in the declared order.
    pub open spec fn rank(self) -> nat {
        match self {
            MsgType::BeaconBlock => 0,
            MsgType::AggregateAndProofAttestation => 1,
            MsgType::Attestation => 2,
            MsgType::SignedContributionAndProof => 3,
            MsgType::SyncCommitteeMessage => 4,
        }
    }

    /// Every kind once, in the declared order.
    pub open spec fn declared_order() -> Seq<MsgType> {
        seq![
            MsgType::BeaconBlock,
            MsgType::AggregateAndProofAttestation,
            MsgType::Attestation,
            MsgType::SignedContributionAndProof,
            MsgType::SyncCommitteeMessage,
        ]
    }

    /// The kind's name in kebab case.
    pub open spec fn name(self) -> Seq<char> {
        match self {
            MsgType::BeaconBlock => "beacon-block"@,
            MsgType::AggregateAndProofAttestation => "aggregate-and-proof-attestation"@,
            MsgType::Attestation => "attestation"@,
            MsgType::SignedContributionAndProof => "signed-contribution-and-proof"@,
            MsgType::SyncCommitteeMessage => "sync-committee-message"@,
        }
    }

    /// The kinds in the declared order.
    pub fn iter() -> (kinds: Vec<MsgType>)
        ensures
            kinds@ == MsgType::declared_order(),
    {
        let mut kinds: Vec<MsgType> = Vec::new();
        kinds.push(MsgType::BeaconBlock);
        kinds.push(MsgType::AggregateAndProofAttestation);
        kinds.push(MsgType::Attestation);
        kinds.push(MsgType::SignedContributionAndProof);
        kinds.push(MsgType::SyncCommitteeMessage);
        kinds
    }

    /// The kind's name in kebab case, as text.
    pub fn to_string(&self) -> (text: String)
        ensures
            text@ == self.name(),
    {
        match self {
            MsgType::BeaconBlock => "beacon-block".to_string(),
            MsgType::AggregateAndProofAttestation => "aggregate-and-proof-attestation".to_string(),
            MsgType::Attestation => "attestation".to_string(),
            MsgType::SignedContributionAndProof => "signed-contribution-and-proof".to_string(),
            MsgType::SyncCommitteeMessage => "sync-committee-message".to_string(),
        }
    }
}

/// The declared order lists each kind at the position of its rank, so it
/// holds every kind and none twice.
pub proof fn lemma_declared_order_is_by_rank(kind: MsgType)
    ensures
        MsgType::declared_order().len() == 5,
        kind.rank() < 5,
        MsgType::declared_order()[kind.rank() as int] == kind,
        forall|i: int|
            0 <= i < 5 ==> (#[trigger] MsgType::declared_order()[i]).rank() == i,
{
}

/// One duty of one validator in one slot.
#[derive(Debug, Clone, Copy, Hash, PartialEq, Eq, Structural)]
pub enum Message {
    BeaconBlock { proposer: ValId, slot: Slot },
    AggregateAndProofAttestation { aggregator: ValId, subnet: Subnet, slot: Slot },
    Attestation { attester: ValId, subnet: Subnet, slot: Slot },
    SignedContributionAndProof { validator: ValId, subnet: Subnet, slot: Slot },
    SyncCommitteeMessage { validator: ValId, subnet: Subnet, slot: Slot },
}

impl Message {
    /// The kind of duty that the message stands for.
    pub open spec fn spec_kind(self) -> MsgType {
        match self {
            Message::BeaconBlock { .. } => MsgType::BeaconBlock,
            Message::AggregateAndProofAttestation { .. } => MsgType::AggregateAndProofAttestation,
            Message::Attestation { .. } => MsgType::Attestation,
            Message::SignedContributionAndProof { .. } => MsgType::SignedContributionAndProof,
            Message::SyncCommitteeMessage { .. } => MsgType::SyncCommitteeMessage,
        }
    }

    /// The slot that the message belongs to.
    pub open spec fn spec_slot(self) -> Slot {
        match self {
            Message::BeaconBlock { slot, .. } => slot,
            Message::AggregateAndProofAttestation { slot, .. } => slot,
            Message::Attestation { slot, .. } => slot,
            Message::SignedContributionAndProof { slot, .. } => slot,
            Message::SyncCommitteeMessage { slot, .. } => slot,
        }
    }

    /// The validator that the duty falls to.
    pub open spec fn spec_validator(self) -> ValId {
        match self {
            Message::BeaconBlock { proposer, .. } => proposer,
            Message::AggregateAndProofAttestation { aggregator, .. } => aggregator,
            Message::Attestation { attester, .. } => attester,
            Message::SignedContributionAndProof { validator, .. } => validator,
            Message::SyncCommitteeMessage { validator, .. } => validator,
        }
    }

    /// The subnet of the duty; a block has none.
    pub open spec fn spec_subnet(self) -> Option<Subnet> {
        match self {
            Message::BeaconBlock { .. } => None,
            Message::AggregateAndProofAttestation { subnet, .. } => Some(subnet),
            Message::Attestation { subnet, .. } => Some(subnet),
            Message::SignedContributionAndProof { subnet, .. } => Some(subnet),
            Message::SyncCommitteeMessage { subnet, .. } => Some(subnet),
        }
    }

    /// The kind of duty that the message stands for.
    #[verifier::when_used_as_spec(spec_kind)]
    pub fn kind(self) -> (kind: MsgType)
        ensures
            kind == self.spec_kind(),
    {
        match self {
            Message::BeaconBlock { .. } => MsgType::BeaconBlock,
            Message::AggregateAndProofAttestation { .. } => MsgType::AggregateAndProofAttestation,
            Message::Attestation { .. } => MsgType::Attestation,
            Message::SignedContributionAndProof { .. } => MsgType::SignedContributionAndProof,
            Message::SyncCommitteeMessage { .. } => MsgType::SyncCommitteeMessage,
        }
    }

    /// The slot that the message belongs to.
    #[verifier::when_used_as_spec(spec_slot)]
    pub fn slot(self) -> (slot: Slot)
        ensures
            slot == self.spec_slot(),
    {
        match self {
            Message::BeaconBlock { slot, .. } => slot,
            Message::AggregateAndProofAttestation { slot, .. } => slot,
            Message::Attestation { slot, .. } => slot,
            Message::SignedContributionAndProof { slot, .. } => slot,
            Message::SyncCommitteeMessage { slot, .. } => slot,
        }
    }

    /// The validator that the duty falls to.
    #[verifier::when_used_as_spec(spec_validator)]
    pub fn validator(self) -> (validator: ValId)
        ensures
            validator == self.spec_validator(),
    {
        match self {
            Message::BeaconBlock { proposer, .. } => proposer,
            Message::AggregateAndProofAttestation { aggregator, .. } => aggregator,
            Message::Attestation { attester, .. } => attester,
            Message::SignedContributionAndProof { validator, .. } => validator,
            Message::SyncCommitteeMessage { validator, .. } => validator,
        }
    }

    /// The subnet of the duty; a block has none.
    #[verifier::when_used_as_spec(spec_subnet)]
    pub fn subnet(self) -> (subnet: Option<Subnet>)
        ensures
            subnet == self.spec_subnet(),
    {
        match self {
            Message::BeaconBlock { .. } => None,
            Message::AggregateAndProofAttestation { subnet, .. } => Some(subnet),
            Message::Attestation { subnet, .. } => Some(subnet),
            Message::SignedContributionAndProof { subnet, .. } => Some(subnet),
            Message::SyncCommitteeMessage { subnet, .. } => Some(subnet),
        }
    }
}

} // verus!
