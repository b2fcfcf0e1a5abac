//! The consumer of verification requests, as a machine.
//!
//! The program around the library owns the queue, the directory connection
//! and the mail hand-off. It tells the machine what happened; the machine
//! answers with what to do next. One cycle pulls a batch, opens one directory
//! connection, attempts every message in turn, acknowledges the whole batch,
//! and closes the connection. A request whose lookup fails counts as
//! attempted. A failure of the queue, the directory or the hand-off abandons
//! the cycle: nothing is acknowledged, and the connection, if one is open, is
//! closed before the machine waits for the next tick.

use vstd::prelude::*;
use crate::config::Keys;
use crate::directory::{entries_view, DirectoryEntry, LookupError, LookupErrorView, SEARCH_BASE};
use crate::request::{
    filter_of, request_verification, search_filter, verification_of, Notification,
    NotificationView, OutcomeView, RequestOutcome, VerificationRequest,
};
use crate::queue::{
    acknowledgements, acks_view, handles_view, numbered, text_view, AckEntry, AckView,
};

verus! {

/// The most messages that one cycle pulls.
pub const BATCH_LIMIT: i32 = 10;

/// The seconds between two cycles.
pub const TICK_SECONDS: u64 = 1;

/// One message of the queue: the request it carries, and the handle by which
/// it is acknowledged.
#[derive(Debug, Clone, PartialEq, Eq)]
pub struct QueueMessage {
    pub request: VerificationRequest,
    pub receipt_handle: Option<String>,
}

/// The mathematical content of a [`QueueMessage`].
pub struct MessageView {
    pub eid: Seq<char>,
    pub receipt_handle: Option<Seq<char>>,
}

impl View for QueueMessage {
    type V = MessageView;

    open spec fn view(&self) -> MessageView {
        MessageView { eid: self.request.eid@, receipt_handle: text_view(self.receipt_handle) }
    }
}

/// The messages of a batch, in order.
pub open spec fn batch_view(batch: Seq<QueueMessage>) -> Seq<MessageView> {
    Seq::new(batch.len(), |i: int| batch[i]@)
}

/// The handles of a batch, in order.
pub open spec fn handles_of(batch: Seq<MessageView>) -> Seq<Option<Seq<char>>> {
    Seq::new(batch.len(), |i: int| batch[i].receipt_handle)
}

/// The acknowledgement of a whole batch: one entry for each message, in
/// order.
pub open spec fn acks_for(batch: Seq<MessageView>) -> Seq<AckView> {
    numbered(handles_of(batch))
}

/// Where in its cycle the consumer stands.
#[derive(Debug, Clone, Copy, PartialEq, Eq)]
pub enum Phase {
    /// Between two cycles.
    Idle,
    /// A batch was asked for.
    Receiving,
    /// A batch is there and the directory connection is being opened.
    Connecting,
    /// The directory is being searched for the current request.
    Searching,
    /// The notification for the current request is being handed over.
    Dispatching,
    /// Every message was attempted and the batch is being acknowledged.
    Acknowledging,
    /// The directory connection is being closed.
    Closing,
}

/// Whether a directory connection is open in this phase.
pub open spec fn connected(phase: Phase) -> bool {
    phase is Searching || phase is Dispatching || phase is Acknowledging || phase is Closing
}

/// What the program reports to the machine.
#[derive(Debug, Clone, PartialEq, Eq)]
pub enum Signal {
    /// The time between two cycles has passed.
    Tick,
    /// The queue gave these messages.
    Received(Vec<QueueMessage>),
    /// The queue could not be read.
    ReceiveFailed,
    /// The directory connection is open.
    Connected,
    /// The directory connection could not be opened.
    ConnectFailed,
    /// The current request came to this.
    Resolved(RequestOutcome),
    /// The directory search failed in transport.
    SearchFailed,
    /// The notification was handed over.
    Dispatched,
    /// The notification could not be handed over.
    DispatchFailed,
    /// The queue took the acknowledgement.
    Acknowledged,
    /// The queue could not be told.
    AcknowledgeFailed,
    /// The directory connection is closed.
    Closed,
}

/// The mathematical content of a [`Signal`].
pub enum SignalView {
    Tick,
    Received(Seq<MessageView>),
    ReceiveFailed,
    Connected,
    ConnectFailed,
    Resolved(OutcomeView),
    SearchFailed,
    Dispatched,
    DispatchFailed,
    Acknowledged,
    AcknowledgeFailed,
    Closed,
}

impl View for Signal {
    type V = SignalView;

    open spec fn view(&self) -> SignalView {
        match self {
            Signal::Tick => SignalView::Tick,
            Signal::Received(batch) => SignalView::Received(batch_view(batch@)),
            Signal::ReceiveFailed => SignalView::ReceiveFailed,
            Signal::Connected => SignalView::Connected,
            Signal::ConnectFailed => SignalView::ConnectFailed,
            Signal::Resolved(outcome) => SignalView::Resolved(outcome@),
            Signal::SearchFailed => SignalView::SearchFailed,
            Signal::Dispatched => SignalView::Dispatched,
            Signal::DispatchFailed => SignalView::DispatchFailed,
            Signal::Acknowledged => SignalView::Acknowledged,
            Signal::AcknowledgeFailed => SignalView::AcknowledgeFailed,
            Signal::Closed => SignalView::Closed,
        }
    }
}

/// What the machine asks the program to do next.
#[derive(Debug, Clone, PartialEq, Eq)]
pub enum ConsumerAction {
    /// Sleep for `TICK_SECONDS`, then report `Tick`.
    Wait,
    /// Pull at most `limit` messages from the queue.
    Receive { limit: i32 },
    /// Open the directory connection.
    Connect,
    /// Search the directory under `base` with `filter`.
    Search { base: String, filter: String },
    /// Hand the notification over for sending.
    Dispatch(Notification),
    /// Acknowledge the batch with these entries.
    Acknowledge(Vec<AckEntry>),
    /// Close the directory connection.
    Close,
}

/// The mathematical content of a [`ConsumerAction`].
pub enum ActionView {
    Wait,
    Receive { limit: i32 },
    Connect,
    Search { base: Seq<char>, filter: Seq<char> },
    Dispatch(NotificationView),
    Acknowledge(Seq<AckView>),
    Close,
}

impl View for ConsumerAction {
    type V = ActionView;

    open spec fn view(&self) -> ActionView {
        match self {
            ConsumerAction::Wait => ActionView::Wait,
            ConsumerAction::Receive { limit } => ActionView::Receive { limit: *limit },
            ConsumerAction::Connect => ActionView::Connect,
            ConsumerAction::Search { base, filter } => ActionView::Search {
                base: base@,
                filter: filter@,
            },
            ConsumerAction::Dispatch(notification) => ActionView::Dispatch(notification@),
            ConsumerAction::Acknowledge(acks) => ActionView::Acknowledge(acks_view(acks@)),
            ConsumerAction::Close => ActionView::Close,
        }
    }
}

/// What the program should put on record about the step just taken.
#[derive(Debug, Clone, PartialEq, Eq)]
pub enum Note {
    /// Nothing.
    Quiet,
    /// The current request was attempted and its lookup failed.
    LookupFailed(LookupError),
    /// The current request was attempted and no token could be issued.
    Unissued,
    /// The cycle was abandoned; nothing of its batch is acknowledged.
    Abandoned,
}

/// The mathematical content of a [`Note`].
pub enum NoteView {
    Quiet,
    LookupFailed(LookupErrorView),
    Unissued,
    Abandoned,
}

impl View for Note {
    type V = NoteView;

    open spec fn view(&self) -> NoteView {
        match self {
            Note::Quiet => NoteView::Quiet,
            Note::LookupFailed(error) => NoteView::LookupFailed(error@),
            Note::Unissued => NoteView::Unissued,
            Note::Abandoned => NoteView::Abandoned,
        }
    }
}

/// The state of the machine: the phase, the batch at hand, and how many of
/// its messages are still to be attempted.
pub struct Consumer {
    phase: Phase,
    batch: Vec<QueueMessage>,
    remaining: usize,
}

/// The mathematical content of a [`Consumer`].
pub struct ConsumerView {
    pub phase: Phase,
    pub batch: Seq<MessageView>,
    pub attempted: nat,
}

impl View for Consumer {
    type V = ConsumerView;

    closed spec fn view(&self) -> ConsumerView {
        ConsumerView {
            phase: self.phase,
            batch: batch_view(self.batch@),
            attempted: (self.batch@.len() - self.remaining) as nat,
        }
    }
}

/// What holds of every state the machine reaches: outside a cycle it holds no
/// batch; while messages are attempted the current one exists; and the batch
/// is acknowledged only once all of it was attempted.
pub open spec fn coherent(state: ConsumerView) -> bool {
    match state.phase {
        Phase::Idle | Phase::Receiving => state.batch.len() == 0 && state.attempted == 0,
        Phase::Connecting => state.batch.len() > 0 && state.attempted == 0,
        Phase::Searching | Phase::Dispatching => state.attempted < state.batch.len(),
        Phase::Acknowledging => state.attempted == state.batch.len(),
        Phase::Closing => state.attempted <= state.batch.len(),
    }
}

/// The state between two cycles.
pub open spec fn idle() -> ConsumerView {
    ConsumerView { phase: Phase::Idle, batch: Seq::empty(), attempted: 0 }
}

/// The step after `attempted` messages of the batch were attempted: search
/// for the next one, or acknowledge the batch where none is left.
pub open spec fn proceed(batch: Seq<MessageView>, attempted: nat, note: NoteView) -> (
    ConsumerView,
    ActionView,
    NoteView,
) {
    if attempted < batch.len() {
        (
            ConsumerView { phase: Phase::Searching, batch, attempted },
            ActionView::Search { base: SEARCH_BASE@, filter: filter_of(batch[attempted as int].eid) },
            note,
        )
    } else {
        (
            ConsumerView { phase: Phase::Acknowledging, batch, attempted },
            ActionView::Acknowledge(acks_for(batch)),
            note,
        )
    }
}

/// The step that abandons the cycle: close the connection where one is open,
/// else wait for the next tick.
pub open spec fn abandon(state: ConsumerView) -> (ConsumerView, ActionView, NoteView) {
    if connected(state.phase) {
        (
            ConsumerView { phase: Phase::Closing, batch: state.batch, attempted: state.attempted },
            ActionView::Close,
            NoteView::Abandoned,
        )
    } else {
        (idle(), ActionView::Wait, NoteView::Abandoned)
    }
}

/// The machine: the next state, what to do, and what to put on record, for
/// each state and signal. A signal that the state does not wait for abandons
/// the cycle.
pub open spec fn transition(state: ConsumerView, signal: SignalView) -> (
    ConsumerView,
    ActionView,
    NoteView,
) {
    match (state.phase, signal) {
        (Phase::Idle, SignalView::Tick) => (
            ConsumerView { phase: Phase::Receiving, batch: Seq::empty(), attempted: 0 },
            ActionView::Receive { limit: BATCH_LIMIT },
            NoteView::Quiet,
        ),
        (Phase::Receiving, SignalView::Received(batch)) => if batch.len() == 0 {
            (idle(), ActionView::Wait, NoteView::Quiet)
        } else {
            (
                ConsumerView { phase: Phase::Connecting, batch, attempted: 0 },
                ActionView::Connect,
                NoteView::Quiet,
            )
        },
        (Phase::Connecting, SignalView::Connected) => proceed(state.batch, 0, NoteView::Quiet),
        (Phase::Searching, SignalView::Resolved(OutcomeView::Notify(notification))) => (
            ConsumerView {
                phase: Phase::Dispatching,
                batch: state.batch,
                attempted: state.attempted,
            },
            ActionView::Dispatch(notification),
            NoteView::Quiet,
        ),
        (Phase::Searching, SignalView::Resolved(OutcomeView::Rejected(error))) => proceed(
            state.batch,
            state.attempted + 1,
            NoteView::LookupFailed(error),
        ),
        (Phase::Searching, SignalView::Resolved(OutcomeView::Unissued)) => proceed(
            state.batch,
            state.attempted + 1,
            NoteView::Unissued,
        ),
        (Phase::Dispatching, SignalView::Dispatched) => proceed(
            state.batch,
            state.attempted + 1,
            NoteView::Quiet,
        ),
        (Phase::Acknowledging, SignalView::Acknowledged) => (
            ConsumerView { phase: Phase::Closing, batch: state.batch, attempted: state.attempted },
            ActionView::Close,
            NoteView::Quiet,
        ),
        (Phase::Closing, SignalView::Closed) => (idle(), ActionView::Wait, NoteView::Quiet),
        _ => abandon(state),
    }
}

/// The handles of a batch, in order.
pub fn receipt_handles(batch: &[QueueMessage]) -> (handles: Vec<Option<String>>)
    ensures
        handles_view(handles@) == handles_of(batch_view(batch@)),
{
    let mut handles: Vec<Option<String>> = Vec::new();
    let mut i: usize = 0;
    while i < batch.len()
        invariant
            i <= batch.len(),
            handles@.len() == i,
            forall|j: int|
                0 <= j < i ==> text_view(#[trigger] handles@[j]) == batch@[j]@.receipt_handle,
        decreases batch.len() - i,
    {
        let handle = match &batch[i].receipt_handle {
            Some(handle) => Some(handle.clone()),
            None => None,
        };
        handles.push(handle);
        i += 1;
    }
    handles
}

/// Whether an exec step says what the machine says.
pub open spec fn follows(
    step: (Consumer, ConsumerAction, Note),
    by: (ConsumerView, ActionView, NoteView),
) -> bool {
    step.0@ == by.0 && step.1@ == by.1 && step.2@ == by.2
}

impl Consumer {
    #[verifier::type_invariant]
    spec fn well_formed(&self) -> bool {
        self.remaining <= self.batch@.len() && coherent(self@)
    }

    /// A consumer between two cycles.
    pub fn new() -> (consumer: Consumer)
        ensures
            consumer@ == idle(),
    {
        let consumer = Consumer { phase: Phase::Idle, batch: Vec::new(), remaining: 0 };
        assert(consumer@.batch =~= Seq::empty());
        consumer
    }

    /// Where in its cycle the consumer stands. The state is coherent at every
    /// point.
    pub fn phase(&self) -> (phase: Phase)
        ensures
            phase == self@.phase,
            coherent(self@),
    {
        proof {
            use_type_invariant(self);
        }
        self.phase
    }

    /// The request that is being searched for or dispatched.
    pub fn current_request(&self) -> (request: Option<&VerificationRequest>)
        ensures
            match request {
                Some(request) => {
                    &&& self@.phase is Searching || self@.phase is Dispatching
                    &&& self@.attempted < self@.batch.len()
                    &&& request.eid@ == self@.batch[self@.attempted as int].eid
                },
                None => !(self@.phase is Searching || self@.phase is Dispatching),
            },
    {
        proof {
            use_type_invariant(self);
        }
        match self.phase {
            Phase::Searching | Phase::Dispatching => Some(
                &self.batch[self.batch.len() - self.remaining].request,
            ),
            _ => None,
        }
    }

    /// The step with `remaining` messages of the batch still to be attempted.
    fn proceed(batch: Vec<QueueMessage>, remaining: usize, note: Note) -> (step: (
        Consumer,
        ConsumerAction,
        Note,
    ))
        requires
            remaining <= batch@.len(),
        ensures
            follows(
                step,
                proceed(batch_view(batch@), (batch@.len() - remaining) as nat, note@),
            ),
    {
        if remaining > 0 {
            let current = batch.len() - remaining;
            let base = String::from_str(SEARCH_BASE);
            let filter = search_filter(batch[current].request.eid.as_str());
            (
                Consumer { phase: Phase::Searching, batch, remaining },
                ConsumerAction::Search { base, filter },
                note,
            )
        } else {
            let handles = receipt_handles(batch.as_slice());
            let acks = acknowledgements(handles);
            (
                Consumer { phase: Phase::Acknowledging, batch, remaining },
                ConsumerAction::Acknowledge(acks),
                note,
            )
        }
    }

    /// The step that abandons the cycle.
    fn abandon(phase: Phase, batch: Vec<QueueMessage>, remaining: usize) -> (step: (
        Consumer,
        ConsumerAction,
        Note,
    ))
        requires
            remaining <= batch@.len(),
        ensures
            follows(
                step,
                abandon(
                    ConsumerView {
                        phase,
                        batch: batch_view(batch@),
                        attempted: (batch@.len() - remaining) as nat,
                    },
                ),
            ),
    {
        match phase {
            Phase::Searching | Phase::Dispatching | Phase::Acknowledging | Phase::Closing => (
                Consumer { phase: Phase::Closing, batch, remaining },
                ConsumerAction::Close,
                Note::Abandoned,
            ),
            _ => (Consumer::new(), ConsumerAction::Wait, Note::Abandoned),
        }
    }

    /// Takes one step of the machine.
    pub fn advance(self, signal: Signal) -> (step: (Consumer, ConsumerAction, Note))
        ensures
            follows(step, transition(self@, signal@)),
            coherent(step.0@),
    {
        proof {
            use_type_invariant(&self);
        }
        let Consumer { phase, batch, remaining } = self;
        let step = match phase {
            Phase::Idle => match signal {
                Signal::Tick => {
                    let next = Consumer { phase: Phase::Receiving, batch: Vec::new(), remaining: 0 };
                    assert(next@.batch =~= Seq::empty());
                    (next, ConsumerAction::Receive { limit: BATCH_LIMIT }, Note::Quiet)
                },
                _ => Consumer::abandon(phase, batch, remaining),
            },
            Phase::Receiving => match signal {
                Signal::Received(received) => if received.len() == 0 {
                    (Consumer::new(), ConsumerAction::Wait, Note::Quiet)
                } else {
                    let remaining = received.len();
                    (
                        Consumer { phase: Phase::Connecting, batch: received, remaining },
                        ConsumerAction::Connect,
                        Note::Quiet,
                    )
                },
                _ => Consumer::abandon(phase, batch, remaining),
            },
            Phase::Connecting => match signal {
                Signal::Connected => Consumer::proceed(batch, remaining, Note::Quiet),
                _ => Consumer::abandon(phase, batch, remaining),
            },
            Phase::Searching => match signal {
                Signal::Resolved(RequestOutcome::Notify(notification)) => (
                    Consumer { phase: Phase::Dispatching, batch, remaining },
                    ConsumerAction::Dispatch(notification),
                    Note::Quiet,
                ),
                Signal::Resolved(RequestOutcome::Rejected(error)) => Consumer::proceed(
                    batch,
                    remaining - 1,
                    Note::LookupFailed(error),
                ),
                Signal::Resolved(RequestOutcome::Unissued) => Consumer::proceed(
                    batch,
                    remaining - 1,
                    Note::Unissued,
                ),
                _ => Consumer::abandon(phase, batch, remaining),
            },
            Phase::Dispatching => match signal {
                Signal::Dispatched => Consumer::proceed(batch, remaining - 1, Note::Quiet),
                _ => Consumer::abandon(phase, batch, remaining),
            },
            Phase::Acknowledging => match signal {
                Signal::Acknowledged => (
                    Consumer { phase: Phase::Closing, batch, remaining },
                    ConsumerAction::Close,
                    Note::Quiet,
                ),
                _ => Consumer::abandon(phase, batch, remaining),
            },
            Phase::Closing => match signal {
                Signal::Closed => (Consumer::new(), ConsumerAction::Wait, Note::Quiet),
                _ => Consumer::abandon(phase, batch, remaining),
            },
        };
        proof {
            use_type_invariant(&step.0);
        }
        step
    }

    /// Takes the step that follows a directory search: resolves the current
    /// request against the records found, issues its token, and goes on as
    /// the outcome says. A search result that nobody waits for abandons the
    /// cycle.
    pub fn search_done(self, entries: &[DirectoryEntry], keys: &Keys) -> (step: (
        Consumer,
        ConsumerAction,
        Note,
    ))
        ensures
            coherent(step.0@),
            self@.phase is Searching ==> follows(
                step,
                transition(
                    self@,
                    SignalView::Resolved(
                        verification_of(
                            entries_view(entries@),
                            self@.batch[self@.attempted as int].eid,
                            keys@.encryption_key,
                            keys@.shared_key,
                        ),
                    ),
                ),
            ),
            !(self@.phase is Searching) ==> follows(step, abandon(self@)),
    {
        proof {
            use_type_invariant(&self);
        }
        match self.phase {
            Phase::Searching => {
                let outcome = request_verification(
                    entries,
                    &self.batch[self.batch.len() - self.remaining].request,
                    keys,
                );
                self.advance(Signal::Resolved(outcome))
            },
            _ => self.advance(Signal::SearchFailed),
        }
    }
}

/// The directory connection is opened and closed in step with the cycle: the
/// machine enters a connected phase only when the connection was reported
/// open, asks for the connection to be closed whenever it turns to closing,
/// and leaves the connected phases only when the connection was reported
/// closed. This holds from every state and for every signal, so also on
/// every path that abandons the cycle.
pub proof fn lemma_connection_is_always_closed(state: ConsumerView, signal: SignalView)
    requires
        coherent(state),
    ensures
        ({
            let (next, action, note) = transition(state, signal);
            &&& coherent(next)
            &&& !connected(state.phase) && connected(next.phase) ==> state.phase is Connecting
                && signal is Connected
            &&& connected(state.phase) && !connected(next.phase) ==> state.phase is Closing
                && signal is Closed
            &&& next.phase is Closing ==> action is Close
            &&& action is Connect ==> state.phase is Receiving && next.phase is Connecting
            &&& action is Close ==> connected(state.phase) && next.phase is Closing
        }),
{
}

/// The state of the machine after a run of signals, from between two cycles.
pub open spec fn state_after(signals: Seq<SignalView>) -> ConsumerView
    decreases signals.len(),
{
    if signals.len() == 0 {
        idle()
    } else {
        transition(state_after(signals.drop_last()), signals.last()).0
    }
}

/// Whatever the program reports, and in whatever order, the machine stays
/// coherent: it never searches for a message that the batch does not have,
/// and never holds a batch between two cycles.
pub proof fn lemma_every_run_is_coherent(signals: Seq<SignalView>)
    ensures
        coherent(state_after(signals)),
    decreases signals.len(),
{
    if signals.len() > 0 {
        lemma_every_run_is_coherent(signals.drop_last());
        lemma_connection_is_always_closed(state_after(signals.drop_last()), signals.last());
    }
}

/// A batch is acknowledged only as a whole and only once every message of it
/// was attempted: the acknowledgement has one entry for each message, in
/// order, and it follows a success. Whatever abandons a cycle acknowledges
/// nothing.
pub proof fn lemma_acknowledged_only_when_attempted(state: ConsumerView, signal: SignalView)
    requires
        coherent(state),
    ensures
        ({
            let (next, action, note) = transition(state, signal);
            &&& action matches ActionView::Acknowledge(acks) ==> {
                &&& acks == acks_for(state.batch)
                &&& acks.len() == state.batch.len()
                &&& next.phase is Acknowledging
                &&& next.batch == state.batch
                &&& next.attempted == state.batch.len()
                &&& !(note is Abandoned)
            }
            &&& note is Abandoned ==> action is Close || action is Wait
        }),
{
}

/// A message counts as attempted once its lookup came to an end, whether it
/// found the person or not; a failed lookup does not hold up the rest of the
/// batch.
pub proof fn lemma_failed_lookup_counts_as_attempted(state: ConsumerView, error: LookupErrorView)
    requires
        coherent(state),
        state.phase is Searching,
    ensures
        ({
            let signal = SignalView::Resolved(OutcomeView::Rejected(error));
            let (next, action, note) = transition(state, signal);
            &&& next.attempted == state.attempted + 1
            &&& next.batch == state.batch
            &&& note == NoteView::LookupFailed(error)
            &&& action is Search || action is Acknowledge
        }),
{
}

} // verus!
