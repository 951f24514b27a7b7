//! What the duty resolver is asked and what it answers.
//!
//! The resolver itself is not part of this crate. For a slot and the set of
//! validators it names, kind by kind, the validators that have a duty in that
//! slot. Its answer for one slot is a [`SlotDuties`].

use vstd::prelude::*;

verus! {

/// A validator's identity. Only equality matters.
pub type ValId = u64;

/// A gossip subnet.
pub type Subnet = u64;

/// Settings that only the duty resolver reads. The generator carries them
/// from its configuration to whoever calls the resolver.
#[derive(Debug, Clone, Copy, PartialEq, Eq, Structural)]
pub struct ResolverParams {
    /// How many subnets the duties are spread over.
    pub subnet_count: u64,
    /// How many validators a committee holds.
    pub committee_size: u64,
}

/// The duties of one slot as the resolver reports them: at most one block
/// proposer, and for each other kind the (validator, subnet) pairs in the
/// resolver's order.
#[derive(Debug, PartialEq, Eq)]
pub struct SlotDuties {
    pub proposer: Option<ValId>,
    pub aggregates: Vec<(ValId, Subnet)>,
    pub attestations: Vec<(ValId, Subnet)>,
    pub sync_committee_aggregates: Vec<(ValId, Subnet)>,
    pub sync_committee_messages: Vec<(ValId, Subnet)>,
}

/// The mathematical content of a [`SlotDuties`].
pub struct SlotDutiesView {
    pub proposer: Option<ValId>,
    pub aggregates: Seq<(ValId, Subnet)>,
    pub attestations: Seq<(ValId, Subnet)>,
    pub sync_committee_aggregates: Seq<(ValId, Subnet)>,
    pub sync_committee_messages: Seq<(ValId, Subnet)>,
}

impl View for SlotDuties {
    type V = SlotDutiesView;

    open spec fn view(&self) -> SlotDutiesView {
        SlotDutiesView {
            proposer: self.proposer,
            aggregates: self.aggregates@,
            attestations: self.attestations@,
            sync_committee_aggregates: self.sync_committee_aggregates@,
            sync_committee_messages: self.sync_committee_messages@,
        }
    }
}

impl SlotDutiesView {
    /// A slot in which nobody has a duty.
    pub open spec fn none() -> SlotDutiesView {
        SlotDutiesView {
            proposer: None,
            aggregates: Seq::empty(),
            attestations: Seq::empty(),
            sync_committee_aggregates: Seq::empty(),
            sync_committee_messages: Seq::empty(),
        }
    }

    /// The number of duties, all kinds together.
    pub open spec fn total(self) -> nat {
        (if self.proposer is Some { 1nat } else { 0nat })
            + self.aggregates.len()
            + self.attestations.len()
            + self.sync_committee_aggregates.len()
            + self.sync_committee_messages.len()
    }
}

/// A copy of the duties of one kind.
fn copy_of(duties: &Vec<(ValId, Subnet)>) -> (copy: Vec<(ValId, Subnet)>)
    ensures
        copy@ == duties@,
{
    let mut copy: Vec<(ValId, Subnet)> = Vec::new();
    let mut i: usize = 0;
    while i < duties.len()
        invariant
            i <= duties.len(),
            copy@ == duties@.take(i as int),
        decreases duties.len() - i,
    {
        copy.push(duties[i]);
        i += 1;
    }
    copy
}

impl Clone for SlotDuties {
    fn clone(&self) -> (duties: SlotDuties)
        ensures
            duties@ == self@,
    {
        SlotDuties {
            proposer: self.proposer,
            aggregates: copy_of(&self.aggregates),
            attestations: copy_of(&self.attestations),
            sync_committee_aggregates: copy_of(&self.sync_committee_aggregates),
            sync_committee_messages: copy_of(&self.sync_committee_messages),
        }
    }
}

impl SlotDuties {
    /// A slot in which nobody has a duty.
    pub fn none() -> (duties: SlotDuties)
        ensures
            duties@ == SlotDutiesView::none(),
    {
        SlotDuties {
            proposer: None,
            aggregates: Vec::new(),
            attestations: Vec::new(),
            sync_committee_aggregates: Vec::new(),
            sync_committee_messages: Vec::new(),
        }
    }
}

} // verus!
