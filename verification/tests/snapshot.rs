use altbase_epic::block_times::{cached_block_times, BlockTimes};
use altbase_epic::outputs::{OutputRecord, OutputStatus};
use altbase_epic::snapshot::{
    balances, block_time_heights, ensure_reply, history, history_at, history_documents,
    latest_info, report, snapshot_reply, spendable_amount, written_fits, Listings, Report,
    SnapshotJob, WalletInfo, Written,
};
use altbase_epic::transactions::{TxRecord, TxType};

fn info(height: u64) -> WalletInfo {
    WalletInfo {
        last_confirmed_height: height,
        total: 100,
        amount_locked: 30,
        amount_currently_spendable: 60,
    }
}

fn record(id: u32) -> TxRecord {
    TxRecord {
        id,
        tx_type: TxType::TxReceived,
        confirmed: true,
        confirmation_height: Some(9),
        kernel_excess: None,
        stored_kernel_excess: None,
        slate_id: None,
        created_secs: 0,
        created_nanos: 0,
        amount_credited: 5,
        amount_debited: 0,
        fee: None,
        public_addr: None,
    }
}

fn output(commit: &str, status: OutputStatus, tx: Option<u32>) -> OutputRecord {
    OutputRecord {
        stored_commit: None,
        commit_hex: commit.to_string(),
        status,
        value: 11,
        height: 8,
        tx_log_entry: tx,
    }
}

#[test]
fn the_later_word_of_the_wallet_counts() {
    assert_eq!(latest_info((false, info(1)), None), (false, info(1)));
    assert_eq!(latest_info((true, info(1)), Some((false, info(2)))), (true, info(2)));
    assert_eq!(latest_info((false, info(1)), Some((true, info(2)))), (true, info(2)));
    assert_eq!(latest_info((false, info(1)), Some((false, info(2)))), (false, info(2)));
}

#[test]
fn balances_come_from_the_outputs_or_the_wallet() {
    assert_eq!(balances(Some((7, 3)), &info(1)), (7, 3));
    assert_eq!(balances(None, &info(1)), (70, 60));
    let mut locked = info(1);
    locked.amount_locked = 101;
    assert_eq!(balances(None, &locked), (0, 60));
    assert_eq!(spendable_amount(Some((7, 3)), &info(1)), 3);
    assert_eq!(spendable_amount(None, &info(1)), 60);
}

#[test]
fn heights_of_outputs_and_entries_are_wanted() {
    let outputs = Some(vec![output("a", OutputStatus::Unspent, None)]);
    let heights = block_time_heights(&outputs, &vec![record(1)]);
    assert_eq!(heights.len(), 2);
    assert!(heights.contains(&8) && heights.contains(&9));
    assert_eq!(block_time_heights(&None, &vec![]).len(), 0);
    let mut cache = BlockTimes::new();
    cache.insert(8, (80, "eight".to_string()));
    let (times, missing) = cached_block_times(Some(&cache), &heights);
    assert!(times.contains_key(&8));
    assert_eq!(missing, vec![9]);
}

#[test]
fn history_accounts_for_each_output_once() {
    let listings = Listings {
        spent: Some(vec![output("a", OutputStatus::Spent, Some(1))]),
        outputs: Some(vec![
            output("a", OutputStatus::Spent, Some(1)),
            output("b", OutputStatus::Unspent, Some(2)),
        ]),
        restored: Some(vec![
            output("a", OutputStatus::Spent, Some(1)),
            output("b", OutputStatus::Unspent, Some(2)),
            output("c", OutputStatus::Unspent, None),
        ]),
    };
    let mut txs = vec![record(1), record(3)];
    txs[1].fee = Some(2);
    let shown = history(&txs, &listings, BlockTimes::new(), "me", 10);
    assert_eq!(shown.transactions.len(), 2);
    assert_eq!(shown.transactions[0].txid, "a");
    assert!(shown.transactions[0].spent);
    assert_eq!(shown.transactions[1].txid, "epic-local-9-3");
    assert!(!shown.transactions[1].spent);
    let commits: Vec<&str> = shown.restored.iter().map(|o| o.commit.as_str()).collect();
    assert_eq!(commits, vec!["b", "c"]);

    let written = Written {
        amounts: vec!["A".to_string(), "B".to_string()],
        fees: vec![None, Some("F".to_string())],
        restored_amounts: vec!["C".to_string(), "D".to_string()],
    };
    assert!(written_fits(&written, &shown));
    let documents = history_documents(&shown, &written, "me");
    let amounts: Vec<&str> =
        documents.iter().map(|d| d.get("amount").unwrap().as_str().unwrap()).collect();
    assert_eq!(amounts, vec!["A", "B", "C", "D"]);
    assert!(documents[0].get("fee").unwrap().is_null());
    assert_eq!(documents[1].get("fee").unwrap().as_str(), Some("F"));
    assert_eq!(documents[3].get("id").unwrap().as_str(), Some("c"));
    let short = Written { amounts: vec![], fees: vec![], restored_amounts: vec![] };
    assert!(!written_fits(&short, &shown));
    let text = |t: &str| t.to_string();
    for fees in [vec![None, None], vec![Some(text("E")), Some(text("F"))]] {
        let other = Written {
            amounts: vec![text("A"), text("B")],
            fees,
            restored_amounts: vec![text("C"), text("D")],
        };
        assert!(!written_fits(&other, &shown));
    }
}

#[test]
fn confirmations_count_up_to_the_height_shown() {
    let listings = Listings {
        spent: None,
        outputs: None,
        restored: Some(vec![output("c", OutputStatus::Unspent, None)]),
    };
    let latest = (true, info(20));
    let shown = history_at(&vec![record(1)], &listings, BlockTimes::new(), "me", &latest.1);
    assert_eq!(shown.transactions[0].confirmations, 12);
    assert_eq!(shown.restored[0].confirmations, 13);
    let text = |t: &str| t.to_string();
    let report = report(latest, text("me"), text("1.5"), text("1.0"));
    assert!(report.updated_from_node);
    assert_eq!(report.last_scanned_height, 20);
    assert_eq!(report.address, "me");
    assert_eq!(report.balance, "1.5");
    assert_eq!(report.spendable, "1.0");
}

#[test]
fn failed_listings_leave_the_entries() {
    let listings = Listings { spent: None, outputs: None, restored: None };
    let shown = history(&vec![record(1)], &listings, BlockTimes::new(), "me", 10);
    assert_eq!(shown.transactions.len(), 1);
    assert_eq!(shown.transactions[0].output_commit, None);
    assert!(shown.restored.is_empty());
}

#[test]
fn snapshots_are_reported() {
    let report = Report {
        updated_from_node: true,
        address: "me".to_string(),
        balance: "1.5".to_string(),
        spendable: "1.0".to_string(),
        last_scanned_height: 12,
    };
    let expected = "{\"address\":\"me\",\"balance\":\"1.5\",\"code\":\"epic-native-wallet\",\
        \"lastScannedHeight\":12,\"last_scanned_height\":12,\"ok\":true,\"spendable\":\"1.0\",\
        \"transactions\":[null],\"updatedFromNode\":true,\"updated_from_node\":true}";
    assert_eq!(snapshot_reply(&report, vec![serde_json::Value::Null]), expected);
}

#[test]
fn a_ready_wallet_is_reported() {
    assert_eq!(
        ensure_reply("me"),
        "{\"address\":\"me\",\"balance\":\"0\",\"code\":\"epic-native-wallet\",\"ok\":true,\
         \"spendable\":\"0\",\"transactions\":[]}"
    );
}

/// Takes a snapshot whose steps all succeed.
fn steps(rescanned: bool) -> Vec<&'static str> {
    let mut job = SnapshotJob::start();
    let mut steps = Vec::new();
    loop {
        steps.push(match job {
            SnapshotJob::Address => "address",
            SnapshotJob::RestoreScan => "restore",
            SnapshotJob::Info => "info",
            SnapshotJob::RecentScan => "recent",
            SnapshotJob::InfoAgain => "again",
            SnapshotJob::Transactions => "transactions",
            SnapshotJob::Gather => return steps,
            SnapshotJob::Failed(message) => panic!("{}", message),
        });
        job = job.advance(Ok(rescanned));
    }
}

#[test]
fn snapshots_are_taken_step_by_step() {
    assert_eq!(steps(false), vec!["address", "restore", "info", "recent", "transactions"]);
    assert_eq!(
        steps(true),
        vec!["address", "restore", "info", "recent", "again", "transactions"]
    );
}

#[test]
fn failed_steps_end_a_snapshot() {
    let failed = |job: SnapshotJob| match job.advance(Err("why".to_string())) {
        SnapshotJob::Failed(message) => message,
        _ => panic!("not failed"),
    };
    assert_eq!(failed(SnapshotJob::Address), "why");
    assert_eq!(failed(SnapshotJob::RestoreScan), "why");
    assert_eq!(failed(SnapshotJob::Info), "Epic balance refresh: why");
    assert_eq!(failed(SnapshotJob::RecentScan), "why");
    assert_eq!(failed(SnapshotJob::InfoAgain), "Epic balance refresh: why");
    assert_eq!(failed(SnapshotJob::Transactions), "Epic transaction refresh: why");
    assert_eq!(failed(SnapshotJob::Failed("first".to_string())), "first");
    let gathered = SnapshotJob::Gather.advance(Err("why".to_string()));
    assert!(matches!(gathered, SnapshotJob::Gather));
}
