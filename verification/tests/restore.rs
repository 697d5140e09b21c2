use altbase_epic::request::EpicRequest;
use altbase_epic::restore::{
    ensure_recent_restore_scan, ensure_restore_scan, marker_scanned_height, marker_start_height,
    marker_u64, restore_scan_marker, restore_scan_marker_text, restore_start_height, ScanAction,
    ScanJob, ScanOrder,
};

fn starting_at(height: Option<u64>) -> EpicRequest {
    EpicRequest {
        action: "snapshot".to_string(),
        mnemonic: None,
        password: None,
        data_dir: None,
        node_url: None,
        restore_start_height: height,
        to: None,
        amount: None,
        fee: None,
        send_max: None,
        memo: None,
    }
}

fn order(recent: bool, from: u64, marker_start: u64, marker_scanned: u64) -> ScanOrder {
    ScanOrder { recent, from, marker_start, marker_scanned }
}

#[test]
fn marker_stands_in_the_wallet_directory() {
    let path = restore_scan_marker("dir");
    assert_eq!(path.base, "dir");
    assert_eq!(path.below, vec!["altbase.restore-scan.done".to_string()]);
}

#[test]
fn marker_text_reads_back() {
    let text = restore_scan_marker_text(3_540_000, u64::MAX);
    assert_eq!(text, "startHeight=3540000\nscannedHeight=18446744073709551615\n");
    assert_eq!(marker_start_height(&text), Some(3_540_000));
    assert_eq!(marker_scanned_height(&text), Some(u64::MAX));
}

#[test]
fn marker_is_read_line_by_line() {
    assert_eq!(marker_u64("a=1\r\nb= 2 \r\n", "b"), Some(2));
    assert_eq!(marker_u64("b=x\nb=2", "b"), None);
    assert_eq!(marker_u64(" b=2", "b"), None);
    assert_eq!(marker_u64("bb=2\nb=3", "b"), Some(3));
    assert_eq!(marker_u64("", "b"), None);
    assert_eq!(marker_u64("b=+4", "b"), Some(4));
    assert_eq!(marker_start_height("scannedHeight=5\n"), None);
}

#[test]
fn start_height_is_as_asked_for_but_not_zero() {
    assert_eq!(restore_start_height(&starting_at(Some(7))), 7);
    assert_eq!(restore_start_height(&starting_at(Some(0))), 3_540_000);
    assert_eq!(restore_start_height(&starting_at(None)), 3_540_000);
}

#[test]
fn restore_scan_is_due_without_a_marker_or_for_an_earlier_block() {
    let req = starting_at(Some(100));
    let fresh = order(false, 100, 100, 100);
    assert!(matches!(ensure_restore_scan(&req, false, None), ScanJob::Scan(o) if o == fresh));
    let later = restore_scan_marker_text(101, 200);
    assert!(
        matches!(ensure_restore_scan(&req, true, Some(&later)), ScanJob::Remove(o) if o == fresh)
    );
    let same = restore_scan_marker_text(100, 100);
    assert!(matches!(ensure_restore_scan(&req, true, Some(&same)), ScanJob::Mark(None)));
    assert!(matches!(ensure_restore_scan(&req, true, Some("garbage")), ScanJob::Mark(None)));
    assert!(matches!(ensure_restore_scan(&req, true, None), ScanJob::Mark(None)));
}

#[test]
fn recent_scan_goes_back_thirty_blocks_within_bounds() {
    let req = starting_at(Some(100));
    let scan = |marker: Option<&str>, tip: u64| match ensure_recent_restore_scan(&req, marker, tip)
    {
        ScanJob::Scan(order) => Some(order),
        ScanJob::Done(false) => None,
        _ => panic!("neither"),
    };
    assert_eq!(scan(None, 0), None);
    assert_eq!(scan(None, 500), Some(order(true, 470, 100, 500)));
    assert_eq!(scan(None, 110), Some(order(true, 100, 100, 110)));
    assert_eq!(scan(None, 50), Some(order(true, 50, 100, 50)));
    let marker = restore_scan_marker_text(90, 300);
    assert_eq!(scan(Some(&marker), 500), Some(order(true, 270, 90, 500)));
    assert_eq!(scan(Some(&marker), 300), None);
    assert_eq!(scan(Some(&marker), 299), None);
    let marker = restore_scan_marker_text(90, 95);
    assert_eq!(scan(Some(&marker), 500), Some(order(true, 90, 90, 500)));
    let marker = restore_scan_marker_text(90, 90);
    assert_eq!(scan(Some(&marker), 500), Some(order(true, 470, 90, 500)));
    let marker = restore_scan_marker_text(200, 300);
    assert_eq!(scan(Some(&marker), 500), Some(order(true, 270, 100, 500)));
    assert_eq!(scan(Some("scannedHeight=20"), 500), Some(order(true, 470, 100, 500)));
}

#[test]
fn scans_are_not_repeated() {
    let req = starting_at(Some(100));
    let left = restore_scan_marker_text(100, 500);
    assert!(matches!(ensure_recent_restore_scan(&req, Some(&left), 500), ScanJob::Done(false)));
    assert!(matches!(ensure_restore_scan(&req, true, Some(&left)), ScanJob::Mark(None)));
}

#[test]
fn what_is_scanned_is_scanned_for_every_request() {
    let left = restore_scan_marker_text(100, 500);
    for start in [None, Some(1), Some(100), Some(499), Some(9000)] {
        let job = ensure_recent_restore_scan(&starting_at(start), Some(&left), 500);
        assert!(matches!(job, ScanJob::Done(false)));
        let job = ensure_recent_restore_scan(&starting_at(start), Some(&left), 3);
        assert!(matches!(job, ScanJob::Done(false)));
    }
}

/// Runs a scan whose steps all succeed, and lists what it did.
fn run(mut job: ScanJob) -> (Vec<String>, bool) {
    let mut done = Vec::new();
    loop {
        done.push(match job.action() {
            ScanAction::RemoveMarker => "remove".to_string(),
            ScanAction::Scan(from) => format!("scan {}", from),
            ScanAction::MarkComplete => "mark".to_string(),
            ScanAction::WriteMarker(text) => text,
            ScanAction::Finish(recent) => return (done, recent),
            ScanAction::Fail(message) => panic!("{}", message),
        });
        job = job.advance(Ok(()));
    }
}

#[test]
fn scans_run_in_order() {
    let marker = "startHeight=5\nscannedHeight=9\n".to_string();
    let steps = vec!["remove".to_string(), "scan 7".to_string(), "mark".to_string(), marker];
    assert_eq!(run(ScanJob::Remove(order(false, 7, 5, 9))), (steps.clone(), false));
    assert_eq!(run(ScanJob::Scan(order(true, 7, 5, 9))), (steps[1..].to_vec(), true));
    assert_eq!(run(ScanJob::Mark(None)), (vec!["mark".to_string()], false));
    assert_eq!(run(ScanJob::Done(false)), (vec![], false));
}

fn failed(job: ScanJob) -> String {
    match job.advance(Err("why".to_string())).action() {
        ScanAction::Fail(message) => message,
        _ => panic!("not failed"),
    }
}

#[test]
fn failed_steps_end_a_scan() {
    assert_eq!(failed(ScanJob::Scan(order(false, 1, 1, 1))), "Epic restore scan: why");
    assert_eq!(failed(ScanJob::Scan(order(true, 1, 1, 1))), "Epic recent scan: why");
    assert_eq!(failed(ScanJob::Mark(None)), "why");
    assert_eq!(failed(ScanJob::Write(order(true, 1, 1, 1))), "Epic restore scan marker: why");
    assert_eq!(failed(ScanJob::Failed("first".to_string())), "first");
    let removed = ScanJob::Remove(order(false, 1, 1, 1)).advance(Err("gone".to_string()));
    assert!(matches!(removed.action(), ScanAction::Scan(1)));
}
