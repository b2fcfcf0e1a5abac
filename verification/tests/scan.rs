use ut_verification::scan::{
    estimate, rescan, rescan_reply, scan, Rescan, Scan, ScanStep, PACING_MILLIS, PAGE_LIMIT,
};

#[test]
fn estimate_is_a_tenth_of_the_first_page() {
    assert_eq!(estimate(0), "~0");
    assert_eq!(estimate(9), "~0");
    assert_eq!(estimate(10), "~1");
    assert_eq!(estimate(57), "~5");
    assert_eq!(estimate(999), "~99");
    assert_eq!(estimate(1001), "~100");
}

#[test]
fn estimate_for_a_full_page_is_fixed() {
    assert_eq!(PAGE_LIMIT, 1000);
    assert_eq!(estimate(1000), "\u{2265}250");
}

#[test]
fn pacing_is_a_tenth_of_a_second() {
    assert_eq!(PACING_MILLIS, 100);
}

#[test]
fn short_page_is_visited_in_order_and_ends_the_scan() {
    let mut scan = Scan::start(vec![5, 3, 9]);
    assert_eq!(scan.step(), ScanStep::Visit(5));
    assert_eq!(scan.visited(), 1);
    assert_eq!(scan.step(), ScanStep::Visit(3));
    assert_eq!(scan.step(), ScanStep::Visit(9));
    assert_eq!(scan.step(), ScanStep::Done);
    assert_eq!(scan.step(), ScanStep::Done);
}

#[test]
fn empty_first_page_ends_the_scan_at_once() {
    let mut scan = Scan::start(vec![]);
    assert_eq!(scan.step(), ScanStep::Done);
}

#[test]
fn full_page_asks_for_the_page_after_its_last_member() {
    let first: Vec<u64> = (1..=1000).collect();
    let mut scan = Scan::start(first);
    for id in 1..=1000u64 {
        assert_eq!(scan.step(), ScanStep::Visit(id));
    }
    assert_eq!(scan.step(), ScanStep::Fetch { after: 1000 });
    // asking again before the page is fed asks for the same page
    assert_eq!(scan.step(), ScanStep::Fetch { after: 1000 });
    scan.feed(vec![1001, 1002]);
    assert_eq!(scan.visited(), 0);
    assert_eq!(scan.step(), ScanStep::Visit(1001));
    assert_eq!(scan.step(), ScanStep::Visit(1002));
    assert_eq!(scan.step(), ScanStep::Done);
}

#[test]
fn full_page_followed_by_empty_page_ends_the_scan() {
    let mut scan = Scan::start((1..=1000).collect());
    let mut visited = 0;
    loop {
        match scan.step() {
            ScanStep::Visit(_) => visited += 1,
            ScanStep::Fetch { after } => {
                assert_eq!(after, 1000);
                scan.feed(vec![]);
            }
            ScanStep::Done => break,
        }
    }
    assert_eq!(visited, 1000);
}

#[test]
fn launching_a_scan_gives_estimate_and_scan() {
    let mut task = scan((0..25).collect());
    assert_eq!(task.estimate, "~2");
    assert_eq!(task.scan.step(), ScanStep::Visit(0));
}

#[test]
fn only_administrators_may_rescan() {
    assert_eq!(rescan(true), Ok(()));
    assert_eq!(rescan(false), Err(Rescan::Denied));
}

#[test]
fn rescan_replies() {
    assert_eq!(rescan_reply(&Rescan::Denied), "You must be an administrator to run this command.");
    assert_eq!(
        rescan_reply(&Rescan::Started("~5".to_string())),
        "Command Sent Successfully (should complete in ~5 seconds)"
    );
    assert_eq!(
        rescan_reply(&Rescan::Failed("Unknown Guild".to_string())),
        "Command Failed: Unknown Guild"
    );
}
