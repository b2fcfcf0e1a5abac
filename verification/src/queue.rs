//! Acknowledging what was pulled from a queue.
//!
//! Queues deliver at least once: a message stays in the queue until it is
//! acknowledged by the handle it came with, and comes again if it is not. A
//! batch is acknowledged in one request, whose entries are numbered within
//! the request.

use vstd::prelude::*;
use crate::text::{decimal, decimal_text};

verus! {

/// One entry of a batch acknowledgement.
#[derive(Debug, Clone, PartialEq, Eq)]
pub struct AckEntry {
    pub id: String,
    pub receipt_handle: Option<String>,
}

/// The mathematical content of an [`AckEntry`].
pub struct AckView {
    pub id: Seq<char>,
    pub receipt_handle: Option<Seq<char>>,
}

/// The content of an optional text.
pub open spec fn text_view(text: Option<String>) -> Option<Seq<char>> {
    match text {
        Some(text) => Some(text@),
        None => None,
    }
}

impl View for AckEntry {
    type V = AckView;

    open spec fn view(&self) -> AckView {
        AckView { id: self.id@, receipt_handle: text_view(self.receipt_handle) }
    }
}

/// The entries of an acknowledgement, in order.
pub open spec fn acks_view(acks: Seq<AckEntry>) -> Seq<AckView> {
    Seq::new(acks.len(), |i: int| acks[i]@)
}

/// The contents of a list of handles, in order.
pub open spec fn handles_view(handles: Seq<Option<String>>) -> Seq<Option<Seq<char>>> {
    Seq::new(handles.len(), |i: int| text_view(handles[i]))
}

/// The acknowledgement for a list of handles: one entry for each, numbered
/// from zero in decimal.
pub open spec fn numbered(handles: Seq<Option<Seq<char>>>) -> Seq<AckView> {
    Seq::new(
        handles.len(),
        |i: int| AckView { id: decimal_text(i as nat), receipt_handle: handles[i] },
    )
}

/// Builds the acknowledgement for a list of handles.
pub fn acknowledgements(handles: Vec<Option<String>>) -> (acks: Vec<AckEntry>)
    ensures
        acks_view(acks@) == numbered(handles_view(handles@)),
{
    let ghost all = handles_view(handles@);
    let mut handles = handles;
    let mut acks: Vec<AckEntry> = Vec::new();
    let total = handles.len();
    let mut i: usize = 0;
    while i < total
        invariant
            i <= total,
            acks@.len() == i,
            handles@.len() == total - i,
            all.len() == total,
            forall|j: int| 0 <= j < total - i ==> text_view(#[trigger] handles@[j]) == all[i + j],
            forall|j: int|
                0 <= j < i ==> (#[trigger] acks@[j])@ == (AckView {
                    id: decimal_text(j as nat),
                    receipt_handle: all[j],
                }),
        decreases total - i,
    {
        let receipt_handle = handles.remove(0);
        acks.push(AckEntry { id: decimal(i as u64), receipt_handle });
        i += 1;
    }
    acks
}

} // verus!
