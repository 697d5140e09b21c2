use altbase_epic::outputs::{
    output_commits_and_heights_by_tx, output_totals, spent_outputs_by_tx, BalanceEntry,
    OutputRecord, OutputStatus,
};

fn entry(status: OutputStatus, value: u64, eligible: bool) -> BalanceEntry {
    BalanceEntry { status, value, eligible }
}

fn output(commit: &str, status: OutputStatus, height: u64, tx: Option<u32>) -> OutputRecord {
    OutputRecord {
        stored_commit: None,
        commit_hex: commit.to_string(),
        status,
        value: 1,
        height,
        tx_log_entry: tx,
    }
}

#[test]
fn totals_count_by_status() {
    let entries = vec![
        entry(OutputStatus::Unspent, 10, true),
        entry(OutputStatus::Unspent, 20, false),
        entry(OutputStatus::Unconfirmed, 40, true),
        entry(OutputStatus::Locked, 80, true),
        entry(OutputStatus::Spent, 160, true),
        entry(OutputStatus::Deleted, 320, true),
    ];
    assert_eq!(output_totals(&Some(entries)), Some((70, 10)));
    assert_eq!(output_totals(&Some(vec![])), Some((0, 0)));
    assert_eq!(output_totals(&None), None);
}

#[test]
fn totals_stop_at_the_largest_amount() {
    let entries = vec![
        entry(OutputStatus::Unspent, u64::MAX, true),
        entry(OutputStatus::Unspent, 5, true),
        entry(OutputStatus::Unconfirmed, 7, false),
    ];
    assert_eq!(output_totals(&Some(entries)), Some((u64::MAX, u64::MAX)));
}

#[test]
fn totals_do_not_depend_on_the_order() {
    let mut entries = vec![
        entry(OutputStatus::Unspent, 10, true),
        entry(OutputStatus::Locked, 20, true),
        entry(OutputStatus::Unconfirmed, 40, false),
        entry(OutputStatus::Spent, 80, true),
    ];
    assert_eq!(output_totals(&Some(entries.clone())), Some((50, 10)));
    entries.reverse();
    assert_eq!(output_totals(&Some(entries.clone())), Some((50, 10)));
    entries.remove(2);
    entries.remove(0);
    assert_eq!(output_totals(&Some(entries)), Some((50, 10)));
}

#[test]
fn the_balance_does_not_depend_on_what_is_eligible() {
    let at = |eligible: bool| {
        output_totals(&Some(vec![
            entry(OutputStatus::Unspent, 10, eligible),
            entry(OutputStatus::Unconfirmed, 40, eligible),
            entry(OutputStatus::Locked, 20, eligible),
        ]))
    };
    assert_eq!(at(false), Some((50, 0)));
    assert_eq!(at(true), Some((50, 10)));
}

#[test]
fn transactions_are_spent_when_all_their_outputs_are() {
    let outputs = vec![
        output("a", OutputStatus::Spent, 1, Some(1)),
        output("b", OutputStatus::Deleted, 1, Some(1)),
        output("c", OutputStatus::Spent, 1, Some(2)),
        output("d", OutputStatus::Unspent, 1, Some(2)),
        output("e", OutputStatus::Locked, 1, Some(3)),
        output("f", OutputStatus::Spent, 1, None),
    ];
    let (by_tx, commits) = spent_outputs_by_tx(&Some(outputs));
    assert_eq!(by_tx.len(), 3);
    assert_eq!(by_tx.get(&1), Some(&true));
    assert_eq!(by_tx.get(&2), Some(&false));
    assert_eq!(by_tx.get(&3), Some(&false));
    for gone in ["a", "b", "c", "f"] {
        assert!(commits.contains(gone));
    }
    assert!(!commits.contains("d"));
    assert!(!commits.contains("e"));
}

#[test]
fn stored_commitments_come_first() {
    let mut first = output("raw", OutputStatus::Spent, 1, Some(1));
    first.stored_commit = Some("stored".to_string());
    let outputs = Some(vec![first]);
    let (_, commits) = spent_outputs_by_tx(&outputs);
    assert!(commits.contains("stored"));
    assert!(!commits.contains("raw"));
    let (by_tx, _) = output_commits_and_heights_by_tx(&outputs);
    assert_eq!(by_tx.get(&1), Some(&vec!["stored".to_string()]));
}

#[test]
fn commitments_keep_the_order_of_the_listing() {
    let outputs = vec![
        output("a", OutputStatus::Unspent, 9, Some(1)),
        output("b", OutputStatus::Unspent, 0, Some(2)),
        output("c", OutputStatus::Spent, 9, Some(1)),
        output("d", OutputStatus::Spent, 4, None),
    ];
    let (by_tx, heights) = output_commits_and_heights_by_tx(&Some(outputs));
    assert_eq!(by_tx.len(), 2);
    assert_eq!(by_tx.get(&1), Some(&vec!["a".to_string(), "c".to_string()]));
    assert_eq!(by_tx.get(&2), Some(&vec!["b".to_string()]));
    let mut heights: Vec<u64> = heights.into_iter().collect();
    heights.sort();
    assert_eq!(heights, vec![4, 9]);
}

#[test]
fn failed_listings_say_nothing() {
    let (by_tx, _) = spent_outputs_by_tx(&None);
    assert!(by_tx.is_empty());
    let (by_tx, heights) = output_commits_and_heights_by_tx(&None);
    assert!(by_tx.is_empty());
    assert!(heights.is_empty());
}
