use altbase_epic::block_times::BlockTimes;
use altbase_epic::clock::{fits_calendar, millis, EARLIEST_SECS, LATEST_SECS};
use altbase_epic::outputs::{
    output_commits_and_heights_by_tx, spent_outputs_by_tx, OutputRecord, OutputStatus,
};
use altbase_epic::transactions::{
    add_confirmation_heights, confirmation_count, epic_time_for_height, represented_tx_ids,
    restored_document, restored_outputs, summarize, transaction_document, tx_amount, tx_direction,
    tx_status, Surroundings, TxRecord, TxType,
};
use chrono::Timelike;
use std::collections::HashSet;

const ALL_TYPES: [TxType; 8] = [
    TxType::ConfirmedCoinbase,
    TxType::TxReceived,
    TxType::TxReceivedMempool,
    TxType::TxReceivedCancelled,
    TxType::TxSent,
    TxType::TxSentMempool,
    TxType::TxSentCancelled,
    TxType::Other,
];

fn record(id: u32, tx_type: TxType) -> TxRecord {
    TxRecord {
        id,
        tx_type,
        confirmed: true,
        confirmation_height: Some(90),
        kernel_excess: None,
        stored_kernel_excess: None,
        slate_id: None,
        created_secs: 1_700_000_000,
        created_nanos: 250_000_000,
        amount_credited: 70,
        amount_debited: 10,
        fee: Some(3),
        public_addr: Some("peer".to_string()),
    }
}

fn output(commit: &str, status: OutputStatus, tx: Option<u32>) -> OutputRecord {
    OutputRecord {
        stored_commit: Some(commit.to_string()),
        commit_hex: "raw".to_string(),
        status,
        value: 11,
        height: 88,
        tx_log_entry: tx,
    }
}

fn around(outputs: Vec<OutputRecord>) -> Surroundings {
    let outputs = Some(outputs);
    let (spent_by_tx, spent_commits) = spent_outputs_by_tx(&outputs);
    let (commits_by_tx, _) = output_commits_and_heights_by_tx(&outputs);
    let mut block_times = BlockTimes::new();
    block_times.insert(90, (90_000, "ninety".to_string()));
    Surroundings {
        spent_by_tx,
        spent_commits,
        commits_by_tx,
        block_times,
        address: "me".to_string(),
        tip_height: 100,
    }
}

fn some(text: &str) -> Option<String> {
    Some(text.to_string())
}

#[test]
fn directions() {
    let words: Vec<&str> = ALL_TYPES.iter().map(|t| tx_direction(*t)).collect();
    assert_eq!(
        words,
        vec![
            "incoming", "incoming", "incoming", "outgoing", "outgoing", "outgoing", "outgoing",
            "outgoing"
        ]
    );
}

#[test]
fn statuses() {
    let words: Vec<&str> = ALL_TYPES.iter().map(|t| tx_status(*t, false)).collect();
    assert_eq!(
        words,
        vec![
            "pending", "pending", "mempool", "cancelled", "pending", "mempool", "cancelled",
            "pending"
        ]
    );
    for tx_type in ALL_TYPES {
        assert_eq!(tx_status(tx_type, true), "confirmed");
    }
}

#[test]
fn amounts() {
    assert_eq!(tx_amount(TxType::TxReceived, 70, 10, Some(3)), 60);
    assert_eq!(tx_amount(TxType::TxReceived, 10, 70, None), 0);
    assert_eq!(tx_amount(TxType::TxSent, 10, 70, Some(3)), 57);
    assert_eq!(tx_amount(TxType::TxSent, 10, 70, None), 60);
    assert_eq!(tx_amount(TxType::TxSent, 10, 12, Some(3)), 0);
    assert_eq!(tx_amount(TxType::Other, 70, 10, Some(3)), 0);
    assert_eq!(tx_amount(TxType::ConfirmedCoinbase, u64::MAX, 0, None), u64::MAX);
}

#[test]
fn confirmations() {
    assert_eq!(confirmation_count(false, Some(5), 9), 0);
    assert_eq!(confirmation_count(true, Some(5), 9), 5);
    assert_eq!(confirmation_count(true, Some(9), 9), 1);
    assert_eq!(confirmation_count(true, Some(10), 9), 1);
    assert_eq!(confirmation_count(true, Some(0), 9), 1);
    assert_eq!(confirmation_count(true, None, 9), 1);
    assert_eq!(confirmation_count(true, Some(1), u64::MAX), u64::MAX);
    assert_eq!(confirmation_count(true, Some(5), 10), 6);
}

#[test]
fn times_come_from_the_block_where_it_is_known() {
    let mut times = BlockTimes::new();
    times.insert(4, (44, "four".to_string()));
    let at = |height| epic_time_for_height(&times, height, 7, "made".to_string());
    assert_eq!(at(Some(4)), (44, "four".to_string()));
    assert_eq!(at(Some(5)), (7, "made".to_string()));
    assert_eq!(at(None), (7, "made".to_string()));
}

#[test]
fn the_calendar_is_that_of_chrono() {
    let earliest = chrono::DateTime::<chrono::Utc>::MIN_UTC;
    let latest = chrono::DateTime::<chrono::Utc>::MAX_UTC;
    assert_eq!(earliest.timestamp(), EARLIEST_SECS);
    assert_eq!(latest.timestamp(), LATEST_SECS);
    assert!(fits_calendar(EARLIEST_SECS, 0));
    assert!(fits_calendar(LATEST_SECS, latest.timestamp_subsec_nanos()));
    assert!(!fits_calendar(LATEST_SECS + 1, 0));
    assert!(!fits_calendar(EARLIEST_SECS - 1, 0));
    for (secs, nanos) in [
        (0i64, 999_999_999u32),
        (0, 1_000_000_000),
        (59, 1_999_999_999),
        (59, 2_000_000_000),
        (-2, 1_500_000_000),
        (LATEST_SECS, 1_999_999_999),
        (EARLIEST_SECS, 1_999_999_999),
        (LATEST_SECS + 1, 0),
        (EARLIEST_SECS - 1, 0),
        (i64::MAX, 0),
        (i64::MIN, 0),
    ] {
        let known = chrono::DateTime::from_timestamp(secs, 0)
            .and_then(|time| time.naive_utc().with_nanosecond(nanos))
            .is_some();
        assert_eq!(fits_calendar(secs, nanos), known, "{} {}", secs, nanos);
    }
    for (secs, nanos) in [
        (EARLIEST_SECS, 0u32),
        (LATEST_SECS, 999_999_999),
        (LATEST_SECS, 1_999_999_999),
        (-1, 999_000_000),
        (0, 1),
        (30, 1_500_000_000),
        (59, 1_999_999_999),
        (1_700_000_000, 123_456_789),
    ] {
        let whole = chrono::DateTime::from_timestamp(secs, 0).unwrap();
        let time = whole.naive_utc().with_nanosecond(nanos).unwrap().and_utc();
        assert_eq!(time.timestamp(), secs);
        assert_eq!(time.timestamp_subsec_nanos(), nanos);
        assert_eq!(millis(secs, nanos), time.timestamp_millis());
        let mut tx = record(4, TxType::TxSent);
        tx.confirmation_height = None;
        tx.created_secs = secs;
        tx.created_nanos = nanos;
        let shown = summarize(&tx, &around(vec![]));
        assert_eq!(shown.timestamp, time.timestamp_millis());
        assert_eq!(shown.date, time.to_rfc3339());
    }
}

#[test]
fn an_incoming_entry_is_shown() {
    let mut tx = record(4, TxType::TxReceived);
    tx.slate_id = some("slate");
    tx.stored_kernel_excess = some("stored");
    let shown = summarize(&tx, &around(vec![output("c1", OutputStatus::Unspent, Some(4))]));
    assert_eq!(shown.txid, "slate");
    assert_eq!(shown.chain_txid, "stored");
    assert_eq!(shown.slate_id, some("slate"));
    assert_eq!(shown.kernel_excess, None);
    assert_eq!(shown.stored_kernel_excess, some("stored"));
    assert_eq!(shown.output_commit, some("c1"));
    assert_eq!(shown.direction, "incoming");
    assert_eq!(shown.status, "confirmed");
    assert!(shown.confirmed);
    assert_eq!(shown.confirmations, 11);
    assert_eq!(shown.amount, 60);
    assert_eq!(shown.fee, Some(3));
    assert_eq!(shown.from, some("peer"));
    assert_eq!(shown.to, some("me"));
    assert_eq!((shown.timestamp, shown.date.as_str()), (90_000, "ninety"));
    assert_eq!(shown.height, Some(90));
    assert!(!shown.spent);
}

#[test]
fn an_outgoing_entry_is_shown() {
    let mut tx = record(4, TxType::TxSent);
    tx.confirmed = false;
    tx.confirmation_height = None;
    let shown = summarize(&tx, &around(vec![output("c1", OutputStatus::Spent, Some(4))]));
    assert_eq!(shown.txid, "c1");
    assert_eq!(shown.chain_txid, "c1");
    assert_eq!(shown.status, "pending");
    assert_eq!(shown.confirmations, 0);
    assert_eq!(shown.from, some("me"));
    assert_eq!(shown.to, some("peer"));
    assert_eq!(shown.timestamp, 1_700_000_000_250);
    assert_eq!(shown.date, "2023-11-14T22:13:20.250+00:00");
    assert!(!shown.spent);
}

#[test]
fn an_entry_goes_by_what_the_chain_knows_best() {
    let chain = |kernel: Option<&str>, stored: Option<&str>, commit: bool, slate: Option<&str>| {
        let mut tx = record(4, TxType::TxReceived);
        tx.kernel_excess = kernel.map(|t| t.to_string());
        tx.stored_kernel_excess = stored.map(|t| t.to_string());
        tx.slate_id = slate.map(|t| t.to_string());
        let outputs =
            if commit { vec![output("c", OutputStatus::Unspent, Some(4))] } else { vec![] };
        summarize(&tx, &around(outputs)).chain_txid
    };
    assert_eq!(chain(Some("k"), Some("s"), true, Some("l")), "k");
    assert_eq!(chain(None, Some("s"), true, Some("l")), "s");
    assert_eq!(chain(None, None, true, Some("l")), "c");
    assert_eq!(chain(None, None, false, Some("l")), "l");
    assert_eq!(chain(None, None, false, None), "epic-local-90-4");
    let mut tx = record(4294967295, TxType::TxSent);
    tx.confirmation_height = None;
    assert_eq!(summarize(&tx, &around(vec![])).txid, "epic-local-pending-4294967295");
}

#[test]
fn incoming_money_is_spent_with_its_outputs() {
    let spent = |tx_type, outputs| summarize(&record(4, tx_type), &around(outputs)).spent;
    let gone = || output("c1", OutputStatus::Spent, Some(4));
    let live = || output("c2", OutputStatus::Unspent, Some(4));
    assert!(spent(TxType::TxReceived, vec![gone()]));
    assert!(spent(TxType::TxReceived, vec![gone(), live()]));
    assert!(!spent(TxType::TxReceived, vec![live(), gone()]));
    assert!(!spent(TxType::TxReceived, vec![]));
    assert!(!spent(TxType::TxSent, vec![gone()]));
}

#[test]
fn an_entry_has_its_document() {
    let mut tx = record(4, TxType::TxReceived);
    tx.slate_id = some("slate");
    tx.kernel_excess = some("kernel");
    let shown = summarize(&tx, &around(vec![output("c1", OutputStatus::Unspent, Some(4))]));
    let document = transaction_document(&shown, "0.6", &some("0.03"));
    let expected = "{\"amount\":\"0.6\",\"chainTxid\":\"kernel\",\"chain_txid\":\"kernel\",\
        \"confirmations\":11,\"confirmed\":true,\"date\":\"ninety\",\"direction\":\"incoming\",\
        \"fee\":\"0.03\",\"from\":\"peer\",\"height\":90,\"id\":\"slate\",\
        \"kernelExcess\":\"kernel\",\"kernel_excess\":\"kernel\",\"outputCommit\":\"c1\",\
        \"output_commit\":\"c1\",\"slateId\":\"slate\",\"spent\":false,\"status\":\"confirmed\",\
        \"storedKernelExcess\":null,\"stored_kernel_excess\":null,\"timestamp\":90000,\
        \"to\":\"me\",\"tx_slate_id\":\"slate\",\"txid\":\"slate\",\"type\":\"incoming\"}";
    assert_eq!(document.to_string(), expected);
}

#[test]
fn missing_parts_are_null() {
    let mut tx = record(4, TxType::TxSent);
    tx.confirmation_height = None;
    tx.public_addr = None;
    tx.fee = None;
    let shown = summarize(&tx, &around(vec![]));
    let document = transaction_document(&shown, "1", &None);
    for key in ["fee", "to", "height", "slateId", "kernel_excess", "output_commit"] {
        assert!(document.get(key).unwrap().is_null(), "{}", key);
    }
    assert_eq!(document.get("from").unwrap().as_str(), Some("me"));
}

#[test]
fn outputs_without_an_entry_are_shown_by_themselves() {
    let outputs = Some(vec![
        output("a", OutputStatus::Unspent, Some(1)),
        output("b", OutputStatus::Spent, Some(2)),
        output("c", OutputStatus::Locked, None),
    ]);
    let txs = vec![record(1, TxType::TxReceived)];
    let ids = represented_tx_ids(&txs);
    let mut times = BlockTimes::new();
    let shown = restored_outputs(&outputs, &ids, 100, &times);
    assert_eq!(shown.len(), 2);
    assert_eq!(shown[0].commit, "b");
    assert_eq!(shown[0].confirmations, 13);
    assert_eq!(shown[0].amount, 11);
    assert_eq!((shown[0].timestamp, shown[0].date.as_str()), (0, ""));
    assert!(shown[0].spent);
    assert_eq!(shown[1].commit, "c");
    assert!(!shown[1].spent);
    assert!(restored_outputs(&None, &ids, 100, &times).is_empty());

    let document = restored_document(&shown[0], "0.11", "me");
    let expected = "{\"amount\":\"0.11\",\"confirmations\":13,\"confirmed\":true,\"date\":null,\
        \"direction\":\"incoming\",\"fee\":null,\"from\":\"Restore\",\"height\":88,\"id\":\"b\",\
        \"outputCommit\":\"b\",\"output_commit\":\"b\",\"spent\":true,\"status\":\"confirmed\",\
        \"timestamp\":0,\"to\":\"me\",\"txid\":\"b\",\"type\":\"incoming\"}";
    assert_eq!(document.to_string(), expected);

    times.insert(88, (-5, "then".to_string()));
    let shown = restored_outputs(&outputs, &ids, 100, &times);
    let document = restored_document(&shown[1], "0.11", "me");
    assert_eq!(document.get("timestamp").unwrap().as_i64(), Some(-5));
    assert_eq!(document.get("date").unwrap().as_str(), Some("then"));
}

#[test]
fn confirmation_heights_are_added() {
    let mut heights: HashSet<u64> = HashSet::new();
    heights.insert(5);
    let mut unconfirmed = record(2, TxType::TxSent);
    unconfirmed.confirmation_height = None;
    add_confirmation_heights(&mut heights, &vec![record(1, TxType::TxSent), unconfirmed]);
    assert_eq!(heights.len(), 2);
    assert!(heights.contains(&5));
    assert!(heights.contains(&90));
}
