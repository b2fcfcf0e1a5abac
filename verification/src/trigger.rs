//! Queued notices that somebody became verified.
//!
//! Each notice names a member. The member is then reconciled in every
//! community the engine serves, and the notice is acknowledged whether or not
//! the member was found anywhere.

use vstd::prelude::*;
use crate::queue::{acknowledgements, acks_view, handles_view, numbered, text_view, AckEntry};
use crate::text::{parse_u64, parsed_u64};

verus! {

/// The most communities that one sweep lists.
pub const GUILD_SWEEP_LIMIT: u64 = 100;

/// A notice as it is read from the queue.
#[derive(Debug, Clone, PartialEq, Eq)]
pub struct BecomeVerifiedMessage {
    pub discord_id: String,
}

/// One message of the queue: the notice it carries, and the handle by which it
/// is acknowledged.
#[derive(Debug, Clone, PartialEq, Eq)]
pub struct TriggerMessage {
    pub notice: BecomeVerifiedMessage,
    pub receipt_handle: Option<String>,
}

/// What to do about one batch of notices.
#[derive(Debug, Clone, PartialEq, Eq)]
pub struct TriggerPlan {
    /// The member to reconcile for each notice, in order.
    pub members: Vec<u64>,
    /// The acknowledgement of the batch.
    pub acks: Vec<AckEntry>,
}

/// The member that a notice names: the number its text denotes, or member
/// zero, who does not exist, where the text is no number.
pub open spec fn member_of(discord_id: Seq<char>) -> u64 {
    match parsed_u64(discord_id) {
        Some(id) => id,
        None => 0,
    }
}

/// The members that a batch names, in order.
pub open spec fn members_of(batch: Seq<TriggerMessage>) -> Seq<u64> {
    Seq::new(batch.len(), |i: int| member_of(batch[i].notice.discord_id@))
}

/// The handles of a batch, in order.
pub open spec fn handles_of(batch: Seq<TriggerMessage>) -> Seq<Option<Seq<char>>> {
    Seq::new(batch.len(), |i: int| text_view(batch[i].receipt_handle))
}

impl BecomeVerifiedMessage {
    /// The member that the notice names.
    pub fn member_id(&self) -> (id: u64)
        ensures
            id == member_of(self.discord_id@),
    {
        match parse_u64(self.discord_id.as_str()) {
            Some(id) => id,
            None => 0,
        }
    }
}

/// Plans a batch of notices: whom to reconcile, and how to acknowledge the
/// batch. Every notice is acknowledged.
pub fn became_verified(batch: Vec<TriggerMessage>) -> (plan: TriggerPlan)
    ensures
        plan.members@ == members_of(batch@),
        acks_view(plan.acks@) == numbered(handles_of(batch@)),
{
    let ghost all = batch@;
    let mut batch = batch;
    let total = batch.len();
    let mut members: Vec<u64> = Vec::new();
    let mut handles: Vec<Option<String>> = Vec::new();
    let mut i: usize = 0;
    while i < total
        invariant
            i <= total,
            all.len() == total,
            batch@.len() == total - i,
            forall|j: int| 0 <= j < total - i ==> #[trigger] batch@[j] == all[i + j],
            members@.len() == i,
            handles@.len() == i,
            forall|j: int| 0 <= j < i ==> #[trigger] members@[j] == member_of(all[j].notice.discord_id@),
            forall|j: int|
                0 <= j < i ==> text_view(#[trigger] handles@[j]) == text_view(all[j].receipt_handle),
        decreases total - i,
    {
        let message = batch.remove(0);
        members.push(message.notice.member_id());
        handles.push(message.receipt_handle);
        i += 1;
    }
    TriggerPlan { members, acks: acknowledgements(handles) }
}

} // verus!
