//! Bulk scans of a community's members.
//!
//! The member list comes in pages. A scan visits every member of a page in
//! order, then asks for the page after the last member it saw, and ends with
//! the first page that is shorter than a full one. The caller who triggers a
//! scan gets a rough estimate at once, made from the first page alone; the
//! scan itself is a value that whoever runs it in the background steps
//! through.

use vstd::prelude::*;
use crate::text::{decimal, decimal_text};

verus! {

/// The members of a full page.
pub const PAGE_LIMIT: usize = 1000;

/// The milliseconds to pause after each member, to stay clear of the
/// platform's rate limit.
pub const PACING_MILLIS: u64 = 100;

/// The estimate that is given where the first page is full.
pub const FULL_PAGE_ESTIMATE: &'static str = "\u{2265}250";

/// What goes before the number in the other estimates.
pub const ESTIMATE_HEAD: &'static str = "~";

/// The reply to somebody who may not scan.
pub const RESCAN_DENIED: &'static str = "You must be an administrator to run this command.";

/// The head of the reply to a scan that began.
pub const RESCAN_STARTED_HEAD: &'static str = "Command Sent Successfully (should complete in ";

/// The tail of the reply to a scan that began.
pub const RESCAN_STARTED_TAIL: &'static str = " seconds)";

/// The head of the reply to a scan that could not begin.
pub const RESCAN_FAILED_HEAD: &'static str = "Command Failed: ";

/// A rough estimate of the seconds a scan takes: a tenth of the first page's
/// members, or a fixed text where that page is full and more will follow.
pub open spec fn estimate_of(first_page: nat) -> Seq<char> {
    if first_page == PAGE_LIMIT {
        FULL_PAGE_ESTIMATE@
    } else {
        ESTIMATE_HEAD@ + decimal_text(first_page / 10)
    }
}

/// The estimate for a scan whose first page has `first_page` members.
pub fn estimate(first_page: usize) -> (text: String)
    ensures
        text@ == estimate_of(first_page as nat),
{
    if first_page == PAGE_LIMIT {
        String::from_str(FULL_PAGE_ESTIMATE)
    } else {
        let mut text = String::from_str(ESTIMATE_HEAD);
        let number = decimal((first_page / 10) as u64);
        text.append(number.as_str());
        text
    }
}

/// What a scan does next.
#[derive(Debug, Clone, Copy, PartialEq, Eq)]
pub enum ScanStep {
    /// Reconcile this member, then pause for `PACING_MILLIS`.
    Visit(u64),
    /// Fetch the page of members after this one and feed it to the scan.
    Fetch { after: u64 },
    /// The scan is over.
    Done,
}

/// A scan under way: the page at hand and how many of its members were
/// visited.
pub struct Scan {
    page: Vec<u64>,
    visited: usize,
}

/// The mathematical content of a [`Scan`].
pub struct ScanView {
    pub page: Seq<u64>,
    pub visited: nat,
}

impl View for Scan {
    type V = ScanView;

    closed spec fn view(&self) -> ScanView {
        ScanView { page: self.page@, visited: self.visited as nat }
    }
}

/// What a scan in this state does next, and the state it is in afterwards:
/// it visits the next member of the page; with the page done it fetches the
/// page after the last member where the page was full, and is over where the
/// page was short.
pub open spec fn scan_step(scan: ScanView) -> (ScanView, ScanStep) {
    if scan.visited < scan.page.len() {
        (
            ScanView { page: scan.page, visited: scan.visited + 1 },
            ScanStep::Visit(scan.page[scan.visited as int]),
        )
    } else if scan.page.len() >= PAGE_LIMIT {
        (scan, ScanStep::Fetch { after: scan.page.last() })
    } else {
        (scan, ScanStep::Done)
    }
}

impl Scan {
    #[verifier::type_invariant]
    spec fn well_formed(&self) -> bool {
        self.visited <= self.page@.len()
    }

    /// A scan that starts with this page.
    pub fn start(first_page: Vec<u64>) -> (scan: Scan)
        ensures
            scan@ == (ScanView { page: first_page@, visited: 0 }),
    {
        Scan { page: first_page, visited: 0 }
    }

    /// How many members of the page at hand were visited: never more than the
    /// page has.
    pub fn visited(&self) -> (n: usize)
        ensures
            n == self@.visited,
            n <= self@.page.len(),
    {
        proof {
            use_type_invariant(self);
        }
        self.visited
    }

    /// Takes the next step of the scan.
    pub fn step(&mut self) -> (step: ScanStep)
        ensures
            (final(self)@, step) == scan_step(old(self)@),
    {
        proof {
            use_type_invariant(&*self);
        }
        let size = self.page.len();
        if self.visited < size {
            let member = self.page[self.visited];
            self.visited = self.visited + 1;
            ScanStep::Visit(member)
        } else if size >= PAGE_LIMIT {
            ScanStep::Fetch { after: self.page[size - 1] }
        } else {
            ScanStep::Done
        }
    }

    /// Takes the page that was fetched; none of it is visited yet.
    pub fn feed(&mut self, page: Vec<u64>)
        ensures
            final(self)@ == (ScanView { page: page@, visited: 0 }),
    {
        self.visited = 0;
        self.page = page;
    }
}

/// A scan that was launched: the estimate for whoever asked, and the scan
/// for whoever runs it.
pub struct ScanTask {
    pub estimate: String,
    pub scan: Scan,
}

/// Launches a scan from its first page.
pub fn scan(first_page: Vec<u64>) -> (task: ScanTask)
    ensures
        task.estimate@ == estimate_of(first_page@.len()),
        task.scan@ == (ScanView { page: first_page@, visited: 0 }),
{
    let estimate = estimate(first_page.len());
    ScanTask { estimate, scan: Scan::start(first_page) }
}

/// What became of a request to scan again.
#[derive(Debug, Clone, PartialEq, Eq)]
pub enum Rescan {
    /// Whoever asked is no administrator; no scan was launched.
    Denied,
    /// The scan was launched, with this estimate.
    Started(String),
    /// The scan could not be launched, for this reason.
    Failed(String),
}

/// The reply to a request to scan again.
pub open spec fn rescan_reply_of(outcome: Rescan) -> Seq<char> {
    match outcome {
        Rescan::Denied => RESCAN_DENIED@,
        Rescan::Started(estimate) => RESCAN_STARTED_HEAD@ + estimate@ + RESCAN_STARTED_TAIL@,
        Rescan::Failed(reason) => RESCAN_FAILED_HEAD@ + reason@,
    }
}

/// Whether a request to scan again is to be followed. Only an administrator
/// may ask.
pub fn rescan(is_administrator: bool) -> (r: Result<(), Rescan>)
    ensures
        is_administrator ==> r is Ok,
        !is_administrator ==> r == Err::<(), Rescan>(Rescan::Denied),
{
    if is_administrator {
        Ok(())
    } else {
        Err(Rescan::Denied)
    }
}

/// Words the reply to a request to scan again.
pub fn rescan_reply(outcome: &Rescan) -> (text: String)
    ensures
        text@ == rescan_reply_of(*outcome),
{
    match outcome {
        Rescan::Denied => String::from_str(RESCAN_DENIED),
        Rescan::Started(estimate) => {
            let mut text = String::from_str(RESCAN_STARTED_HEAD);
            text.append(estimate.as_str());
            text.append(RESCAN_STARTED_TAIL);
            text
        },
        Rescan::Failed(reason) => {
            let mut text = String::from_str(RESCAN_FAILED_HEAD);
            text.append(reason.as_str());
            text
        },
    }
}

/// The state of a scan after so many steps.
pub open spec fn after_steps(scan: ScanView, steps: nat) -> ScanView
    decreases steps,
{
    if steps == 0 {
        scan
    } else {
        scan_step(after_steps(scan, (steps - 1) as nat)).0
    }
}

/// A page is visited in full and in order before the scan asks for more:
/// from a fresh page, the first `n` steps visit the first `n` members, one
/// each, and the step after them visits the next.
pub proof fn lemma_page_is_visited_in_order(page: Seq<u64>, n: nat)
    requires
        n < page.len(),
    ensures
        after_steps(ScanView { page, visited: 0 }, n) == (ScanView { page, visited: n }),
        scan_step(after_steps(ScanView { page, visited: 0 }, n)).1 == ScanStep::Visit(
            page[n as int],
        ),
    decreases n,
{
    if n > 0 {
        lemma_page_is_visited_in_order(page, (n - 1) as nat);
    }
}

/// A scan ends exactly with a short page, and until then asks for the page
/// after the last member it saw.
pub proof fn lemma_scan_ends_with_short_page(page: Seq<u64>)
    ensures
        scan_step(ScanView { page, visited: page.len() }).1 is Done <==> page.len() < PAGE_LIMIT,
        page.len() >= PAGE_LIMIT ==> scan_step(ScanView { page, visited: page.len() }).1
            == (ScanStep::Fetch { after: page.last() }),
{
}

} // verus!
