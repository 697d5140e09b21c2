//! The state of a wallet, as it is reported.
use vstd::prelude::*;
use std::collections::HashSet;
use crate::block_times::{BlockTimes, known_of, missing_of, times_view};
use crate::failure::{Stage, failure, failure_text, law_failures_say_what_failed_and_why};
use crate::json::{
    JsonTree, json_array, json_bool, json_object, json_set, json_str, json_text, json_tree,
    json_u64, member, trees,
};
use crate::outputs::{
    OutputRecord, commits_of_tx, has_output, heights_of, lemma_no_commits, listed,
    output_commits_and_heights_by_tx, spent_outputs_by_tx,
};
use crate::reply::{ok, success_tree};
use crate::text::{opt_view, views};
use crate::transactions::{
    RestoredOutput, Surroundings, TxRecord, TxSummary, add_confirmation_heights,
    confirmation_heights, confirmations_of, fee_or_zero, ids_of, is_incoming, known_from, known_in,
    law_documents_show_the_summary, law_restored_documents_show_the_output, represented_tx_ids,
    restored_document, restored_outputs, restored_tree, restores, summarize_all, summarizes,
    transaction_document, transaction_tree, under_both, unrepresented,
};

verus! {

/// What the wallet says of its balance.
#[derive(Clone, Copy, Debug, PartialEq, Eq, Structural)]
pub struct WalletInfo {
    pub last_confirmed_height: u64,
    pub total: u64,
    pub amount_locked: u64,
    pub amount_currently_spendable: u64,
}

/// What the wallet said last, and whether it heard from its node at all.
pub open spec fn latest_of(first: (bool, WalletInfo), again: Option<(bool, WalletInfo)>) -> (
    bool,
    WalletInfo,
) {
    match again {
        Some(later) => (first.0 || later.0, later.1),
        None => first,
    }
}

/// What the wallet said last, and whether it heard from its node at all: `first` is what it said
/// at first, `again` what it said after a scan, if there was one.
pub fn latest_info(first: (bool, WalletInfo), again: Option<(bool, WalletInfo)>) -> (r: (
    bool,
    WalletInfo,
))
    ensures
        r == latest_of(first, again),
{
    match again {
        Some(later) => (first.0 || later.0, later.1),
        None => first,
    }
}

/// The state of a snapshot, by what is to be done next.
pub enum SnapshotJob {
    /// The wallet's address is to be looked up.
    Address,
    /// The wallet is to be scanned, if it was not since it was restored.
    RestoreScan,
    /// The balance is to be asked of the wallet.
    Info,
    /// Recent blocks are to be scanned, if they were not.
    RecentScan,
    /// The balance is to be asked again, behind a scan.
    InfoAgain,
    /// The log is to be listed.
    Transactions,
    /// All that can fail is done; the rest is to be put together.
    Gather,
    /// A step failed, with this error text.
    Failed(String),
}

/// One step of a snapshot: where `job` goes when what it asks for ends in `outcome`. Of the scan
/// of recent blocks the outcome says whether there was one; elsewhere the flag does not matter.
pub open spec fn snapshot_step(
    job: SnapshotJob,
    outcome: Result<bool, String>,
    next: SnapshotJob,
) -> bool {
    match outcome {
        Ok(flag) => match job {
            SnapshotJob::Address => next == SnapshotJob::RestoreScan,
            SnapshotJob::RestoreScan => next == SnapshotJob::Info,
            SnapshotJob::Info => next == SnapshotJob::RecentScan,
            SnapshotJob::RecentScan => if flag {
                next == SnapshotJob::InfoAgain
            } else {
                next == SnapshotJob::Transactions
            },
            SnapshotJob::InfoAgain => next == SnapshotJob::Transactions,
            SnapshotJob::Transactions => next == SnapshotJob::Gather,
            SnapshotJob::Gather => next == job,
            SnapshotJob::Failed(_) => next == job,
        },
        Err(detail) => match job {
            // The error texts of the address and of the scans are ready as they are.
            SnapshotJob::Address | SnapshotJob::RestoreScan | SnapshotJob::RecentScan => next
                is Failed && next->Failed_0@ == detail@,
            SnapshotJob::Info | SnapshotJob::InfoAgain => next is Failed && next->Failed_0@
                == failure_text(Stage::BalanceRefresh, detail@),
            SnapshotJob::Transactions => next is Failed && next->Failed_0@ == failure_text(
                Stage::TransactionRefresh,
                detail@,
            ),
            SnapshotJob::Gather => next == job,
            SnapshotJob::Failed(_) => next == job,
        },
    }
}

impl SnapshotJob {
    /// A snapshot at its start.
    pub fn start() -> (r: SnapshotJob)
        ensures
            r == SnapshotJob::Address,
    {
        SnapshotJob::Address
    }

    /// Where the snapshot goes when the thing to do ended in `outcome`.
    pub fn advance(self, outcome: Result<bool, String>) -> (next: SnapshotJob)
        ensures
            snapshot_step(self, outcome, next),
    {
        match outcome {
            Ok(flag) => match self {
                SnapshotJob::Address => SnapshotJob::RestoreScan,
                SnapshotJob::RestoreScan => SnapshotJob::Info,
                SnapshotJob::Info => SnapshotJob::RecentScan,
                SnapshotJob::RecentScan => if flag {
                    SnapshotJob::InfoAgain
                } else {
                    SnapshotJob::Transactions
                },
                SnapshotJob::InfoAgain => SnapshotJob::Transactions,
                SnapshotJob::Transactions => SnapshotJob::Gather,
                SnapshotJob::Gather => SnapshotJob::Gather,
                SnapshotJob::Failed(message) => SnapshotJob::Failed(message),
            },
            Err(detail) => match self {
                SnapshotJob::Address | SnapshotJob::RestoreScan | SnapshotJob::RecentScan => {
                    SnapshotJob::Failed(detail)
                },
                SnapshotJob::Info | SnapshotJob::InfoAgain => SnapshotJob::Failed(
                    failure(Stage::BalanceRefresh, detail.as_str()),
                ),
                SnapshotJob::Transactions => SnapshotJob::Failed(
                    failure(Stage::TransactionRefresh, detail.as_str()),
                ),
                SnapshotJob::Gather => SnapshotJob::Gather,
                SnapshotJob::Failed(message) => SnapshotJob::Failed(message),
            },
        }
    }
}

/// How many steps a snapshot can still take.
pub open spec fn steps_left(job: SnapshotJob) -> nat {
    match job {
        SnapshotJob::Address => 6,
        SnapshotJob::RestoreScan => 5,
        SnapshotJob::Info => 4,
        SnapshotJob::RecentScan => 3,
        SnapshotJob::InfoAgain => 2,
        SnapshotJob::Transactions => 1,
        SnapshotJob::Gather => 0,
        SnapshotJob::Failed(_) => 0,
    }
}

/// A snapshot comes to an end, whatever its steps end in.
pub proof fn law_snapshot_ends(job: SnapshotJob, outcome: Result<bool, String>, next: SnapshotJob)
    requires
        snapshot_step(job, outcome, next),
        !(job is Gather),
        !(job is Failed),
    ensures
        steps_left(next) < steps_left(job),
{
}

/// The balance in a snapshot is not older than its last scan: the log is listed right behind a
/// balance that was asked again, or where there was no scan since the balance was asked.
pub proof fn law_balance_is_read_behind_the_scan(
    job: SnapshotJob,
    outcome: Result<bool, String>,
    next: SnapshotJob,
)
    requires
        snapshot_step(job, outcome, next),
        next is Transactions,
    ensures
        (job is InfoAgain && outcome is Ok) || (job is RecentScan && outcome == Ok::<bool, String>(
            false,
        )),
{
}

/// The balance and what can be spent of it: as the outputs add up or, where they could not be
/// listed, as the wallet says; its locked money does not count.
pub open spec fn balances_of(totals: Option<(u64, u64)>, info: WalletInfo) -> (int, int) {
    match totals {
        Some(pair) => (pair.0 as int, pair.1 as int),
        None => (
            if info.total >= info.amount_locked {
                info.total - info.amount_locked
            } else {
                0
            },
            info.amount_currently_spendable as int,
        ),
    }
}

/// The balance and what can be spent of it.
pub fn balances(totals: Option<(u64, u64)>, info: &WalletInfo) -> (r: (u64, u64))
    ensures
        (r.0 as int, r.1 as int) == balances_of(totals, *info),
{
    match totals {
        Some(pair) => pair,
        None => (info.total.saturating_sub(info.amount_locked), info.amount_currently_spendable),
    }
}

/// What can be spent: as the outputs add up or, where they could not be listed, as the wallet
/// says.
pub fn spendable_amount(totals: Option<(u64, u64)>, info: &WalletInfo) -> (r: u64)
    ensures
        r == balances_of(totals, *info).1,
{
    match totals {
        Some((_total, spendable)) => spendable,
        None => info.amount_currently_spendable,
    }
}

/// The heights that block times are wanted for: those of the outputs and of the entries.
pub open spec fn wanted_heights(outputs: Seq<OutputRecord>, txs: Seq<TxRecord>) -> Set<u64> {
    heights_of(outputs).union(confirmation_heights(txs))
}

/// The heights that block times are wanted for.
pub fn block_time_heights(outputs: &Option<Vec<OutputRecord>>, txs: &Vec<TxRecord>) -> (r: HashSet<
    u64,
>)
    ensures
        r@ =~= wanted_heights(listed(*outputs), txs@),
{
    let (_commits, mut heights) = output_commits_and_heights_by_tx(outputs);
    add_confirmation_heights(&mut heights, txs);
    heights
}

/// Whatever is shown can be dated by its block: the height of every entry that is confirmed, and
/// of every output that is in a block, is one that a block time is asked for, unless it is known.
pub proof fn law_every_height_shown_is_asked_for(
    outputs: Seq<OutputRecord>,
    txs: Seq<TxRecord>,
    cache: Map<u64, (i64, String)>,
    height: u64,
)
    requires
        height > 0,
        (exists|i: int|
            0 <= i < txs.len() && (#[trigger] txs[i]).confirmation_height == Some(height)) || (
        exists|i: int| 0 <= i < outputs.len() && (#[trigger] outputs[i]).height == height),
    ensures
        known_of(cache, wanted_heights(outputs, txs)).contains(height) || missing_of(
            cache,
            wanted_heights(outputs, txs),
        ).contains(height),
{
}

/// The listings of a wallet's outputs that a snapshot is made from; each may have failed.
pub struct Listings {
    /// Tells which outputs are gone.
    pub spent: Option<Vec<OutputRecord>>,
    /// Tells the commitments and the heights.
    pub outputs: Option<Vec<OutputRecord>>,
    /// Tells the outputs that no entry accounts for.
    pub restored: Option<Vec<OutputRecord>>,
}

/// What a snapshot shows of the transactions, but for the way amounts are written.
pub struct History {
    pub transactions: Vec<TxSummary>,
    pub restored: Vec<RestoredOutput>,
}

/// What a snapshot shows of the transactions: each entry of the log, in order, and behind them
/// each output that none of them accounts for.
pub fn history(
    txs: &Vec<TxRecord>,
    listings: &Listings,
    block_times: BlockTimes,
    address: &str,
    tip_height: u64,
) -> (r: History)
    requires
        forall|i: int| 0 <= i < txs@.len() ==> (#[trigger] txs@[i]).wf(),
    ensures
        r.transactions@.len() == txs@.len(),
        forall|i: int|
            0 <= i < txs@.len() ==> summarizes(
                #[trigger] r.transactions@[i],
                txs@[i],
                known_from(
                    listed(listings.spent),
                    listed(listings.outputs),
                    times_view(block_times@),
                    address@,
                    tip_height,
                    txs@[i].id,
                ),
            ),
        forall|i: int|
            0 <= i < txs@.len() && !is_incoming(txs@[i].tx_type) && txs@[i].amount_debited
                >= txs@[i].amount_credited + fee_or_zero(txs@[i].fee) ==> (
            #[trigger] r.transactions@[i]).amount + txs@[i].amount_credited + fee_or_zero(
                txs@[i].fee,
            ) == txs@[i].amount_debited,
        forall|i: int|
            0 <= i < txs@.len() && is_incoming(txs@[i].tx_type) && txs@[i].amount_credited
                >= txs@[i].amount_debited ==> (#[trigger] r.transactions@[i]).amount
                + txs@[i].amount_debited == txs@[i].amount_credited,
        r.restored@.len() == unrepresented(listed(listings.restored), ids_of(txs@)).len(),
        forall|i: int|
            0 <= i < r.restored@.len() ==> restores(
                #[trigger] r.restored@[i],
                unrepresented(listed(listings.restored), ids_of(txs@))[i],
                tip_height,
                times_view(block_times@),
            ),
{
    let (spent_by_tx, spent_commits) = spent_outputs_by_tx(&listings.spent);
    let (commits_by_tx, _heights) = output_commits_and_heights_by_tx(&listings.outputs);
    let around = Surroundings {
        spent_by_tx,
        spent_commits,
        commits_by_tx,
        block_times,
        address: address.to_owned(),
        tip_height,
    };
    let transactions = summarize_all(txs, &around);
    proof {
        assert forall|id: u32| #[trigger]
            known_in(around, id) == known_from(
            listed(listings.spent),
            listed(listings.outputs),
            times_view(block_times@),
            address@,
            tip_height,
            id,
        ) by {
            let commits = commits_of_tx(listed(listings.outputs), id);
            assert(spent_by_tx@.contains_key(id) <==> has_output(listed(listings.spent), id));
            if commits_by_tx@.contains_key(id) {
                assert(views(commits_by_tx@[id]@) == commits);
                if commits.len() > 0 {
                    assert(views(commits_by_tx@[id]@)[0] == commits_by_tx@[id]@[0]@);
                }
            } else {
                lemma_no_commits(listed(listings.outputs), id);
            }
        }
    }
    let represented = represented_tx_ids(txs);
    let restored = restored_outputs(
        &listings.restored,
        &represented,
        tip_height,
        &around.block_times,
    );
    History { transactions, restored }
}

/// What a snapshot shows of the transactions, with their confirmations counted up to the height
/// that the wallet has confirmed.
pub fn history_at(
    txs: &Vec<TxRecord>,
    listings: &Listings,
    block_times: BlockTimes,
    address: &str,
    info: &WalletInfo,
) -> (r: History)
    requires
        forall|i: int| 0 <= i < txs@.len() ==> (#[trigger] txs@[i]).wf(),
    ensures
        r.transactions@.len() == txs@.len(),
        forall|i: int|
            0 <= i < txs@.len() ==> summarizes(
                #[trigger] r.transactions@[i],
                txs@[i],
                known_from(
                    listed(listings.spent),
                    listed(listings.outputs),
                    times_view(block_times@),
                    address@,
                    info.last_confirmed_height,
                    txs@[i].id,
                ),
            ),
        forall|i: int|
            0 <= i < txs@.len() && !is_incoming(txs@[i].tx_type) && txs@[i].amount_debited
                >= txs@[i].amount_credited + fee_or_zero(txs@[i].fee) ==> (
            #[trigger] r.transactions@[i]).amount + txs@[i].amount_credited + fee_or_zero(
                txs@[i].fee,
            ) == txs@[i].amount_debited,
        forall|i: int|
            0 <= i < txs@.len() && is_incoming(txs@[i].tx_type) && txs@[i].amount_credited
                >= txs@[i].amount_debited ==> (#[trigger] r.transactions@[i]).amount
                + txs@[i].amount_debited == txs@[i].amount_credited,
        r.restored@.len() == unrepresented(listed(listings.restored), ids_of(txs@)).len(),
        forall|i: int|
            0 <= i < r.restored@.len() ==> restores(
                #[trigger] r.restored@[i],
                unrepresented(listed(listings.restored), ids_of(txs@))[i],
                info.last_confirmed_height,
                times_view(block_times@),
            ),
{
    history(txs, listings, block_times, address, info.last_confirmed_height)
}

/// The amounts of a history as they are written, each in the place of its entry or output.
pub struct Written {
    pub amounts: Vec<String>,
    pub fees: Vec<Option<String>>,
    pub restored_amounts: Vec<String>,
}

impl Written {
    /// There is an amount for each entry, a fee for each that has one, and an amount for each
    /// output.
    pub open spec fn fits(self, history: History) -> bool {
        &&& self.amounts@.len() == history.transactions@.len()
        &&& self.fees@.len() == history.transactions@.len()
        &&& forall|i: int|
            0 <= i < self.fees@.len() ==> ((#[trigger] self.fees@[i]) is Some
                <==> history.transactions@[i].fee is Some)
        &&& self.restored_amounts@.len() == history.restored@.len()
    }
}

/// Whether there is an amount for each entry, a fee for each that has one, and an amount for each
/// output.
pub fn written_fits(written: &Written, history: &History) -> (r: bool)
    ensures
        r == written.fits(*history),
{
    if written.amounts.len() != history.transactions.len() || written.fees.len()
        != history.transactions.len() || written.restored_amounts.len() != history.restored.len() {
        return false;
    }
    let mut i: usize = 0;
    while i < written.fees.len()
        invariant
            i <= written.fees.len(),
            written.fees@.len() == history.transactions@.len(),
            forall|j: int|
                0 <= j < i ==> ((#[trigger] written.fees@[j]) is Some
                    <==> history.transactions@[j].fee is Some),
        decreases written.fees.len() - i,
    {
        if written.fees[i].is_some() != history.transactions[i].fee.is_some() {
            return false;
        }
        i = i + 1;
    }
    true
}

/// The documents of a history: the entries and behind them the outputs.
pub open spec fn history_trees(history: History, written: Written, address: Seq<char>) -> Seq<
    JsonTree,
> {
    Seq::new(
        history.transactions@.len(),
        |i: int|
            transaction_tree(
                history.transactions@[i],
                written.amounts@[i]@,
                opt_view(written.fees@[i]),
            ),
    ) + Seq::new(
        history.restored@.len(),
        |i: int| restored_tree(history.restored@[i], written.restored_amounts@[i]@, address),
    )
}

/// The fee in an entry's document is `null` exactly where the entry has none.
pub proof fn law_fee_is_null_where_there_is_none(
    history: History,
    written: Written,
    address: Seq<char>,
    i: int,
)
    requires
        written.fits(history),
        0 <= i < history.transactions@.len(),
    ensures
        ({
            let shown = member(history_trees(history, written, address)[i], "fee"@);
            if history.transactions@[i].fee is Some {
                shown == Some(JsonTree::Text(written.fees@[i]->0@))
            } else {
                shown == Some(JsonTree::Null)
            }
        }),
{
    reveal_strlit("fee");
    reveal_strlit("from");
    reveal_strlit("to");
    reveal_strlit("timestamp");
    reveal_strlit("date");
    reveal_strlit("height");
    reveal_strlit("spent");
    assert("fee"@.len() == 3);
    assert("from"@.len() == 4 && "to"@.len() == 2 && "timestamp"@.len() == 9);
    assert("date"@.len() == 4 && "height"@.len() == 6 && "spent"@.len() == 5);
    assert(written.fees@[i] is Some <==> history.transactions@[i].fee is Some);
}

/// The documents of a history.
pub fn history_documents(history: &History, written: &Written, address: &str) -> (r: Vec<
    serde_json::Value,
>)
    requires
        written.fits(*history),
    ensures
        trees(r@) =~= history_trees(*history, *written, address@),
{
    let mut documents: Vec<serde_json::Value> = Vec::new();
    let mut i: usize = 0;
    while i < history.transactions.len()
        invariant
            written.fits(*history),
            i <= history.transactions.len(),
            documents@.len() == i,
            forall|j: int|
                0 <= j < i ==> json_tree(#[trigger] documents@[j]) == history_trees(
                    *history,
                    *written,
                    address@,
                )[j],
        decreases history.transactions.len() - i,
    {
        documents.push(
            transaction_document(
                &history.transactions[i],
                written.amounts[i].as_str(),
                &written.fees[i],
            ),
        );
        i = i + 1;
    }
    let entries = history.transactions.len();
    let mut k: usize = 0;
    while k < history.restored.len()
        invariant
            written.fits(*history),
            entries == history.transactions@.len(),
            k <= history.restored.len(),
            documents@.len() == entries + k,
            forall|j: int|
                0 <= j < entries + k ==> json_tree(#[trigger] documents@[j]) == history_trees(
                    *history,
                    *written,
                    address@,
                )[j],
        decreases history.restored.len() - k,
    {
        documents.push(
            restored_document(
                &history.restored[k],
                written.restored_amounts[k].as_str(),
                address,
            ),
        );
        k = k + 1;
    }
    documents
}

/// What a snapshot reports besides the transactions.
pub struct Report {
    pub updated_from_node: bool,
    pub address: String,
    /// The balance, as it is written.
    pub balance: String,
    /// What can be spent, as it is written.
    pub spendable: String,
    pub last_scanned_height: u64,
}

/// `report` is what a snapshot reports of what the wallet said last.
pub open spec fn reports(
    report: Report,
    latest: (bool, WalletInfo),
    address: Seq<char>,
    balance: Seq<char>,
    spendable: Seq<char>,
) -> bool {
    &&& report.updated_from_node == latest.0
    &&& report.last_scanned_height == latest.1.last_confirmed_height
    &&& report.address@ == address
    &&& report.balance@ == balance
    &&& report.spendable@ == spendable
}

/// What a snapshot reports, out of what the wallet said last, and of the balance and what can be
/// spent as they are written. The height reported is the one that the wallet has confirmed.
pub fn report(
    latest: (bool, WalletInfo),
    address: String,
    balance: String,
    spendable: String,
) -> (r: Report)
    ensures
        reports(r, latest, address@, balance@, spendable@),
        r.updated_from_node == latest.0,
        r.last_scanned_height == latest.1.last_confirmed_height,
        r.address@ == address@,
        r.balance@ == balance@,
        r.spendable@ == spendable@,
{
    Report {
        updated_from_node: latest.0,
        address,
        balance,
        spendable,
        last_scanned_height: latest.1.last_confirmed_height,
    }
}

/// The payload of a snapshot.
pub open spec fn snapshot_tree(report: Report, transactions: Seq<JsonTree>) -> JsonTree {
    JsonTree::Object(
        Map::<Seq<char>, JsonTree>::empty()
            .insert("code"@, JsonTree::Text("epic-native-wallet"@))
            .insert("updatedFromNode"@, JsonTree::Bool(report.updated_from_node))
            .insert("updated_from_node"@, JsonTree::Bool(report.updated_from_node))
            .insert("address"@, JsonTree::Text(report.address@))
            .insert("balance"@, JsonTree::Text(report.balance@))
            .insert("spendable"@, JsonTree::Text(report.spendable@))
            .insert("lastScannedHeight"@, JsonTree::Int(report.last_scanned_height as int))
            .insert("last_scanned_height"@, JsonTree::Int(report.last_scanned_height as int))
            .insert("transactions"@, JsonTree::Array(transactions)),
    )
}

/// Confirmations are counted up to the height that the reply shows: both are the one that the
/// wallet has confirmed, in the entries and in the outputs that no entry accounts for.
pub proof fn law_confirmations_count_up_to_the_height_shown(
    info: WalletInfo,
    report: Report,
    transactions: Seq<JsonTree>,
    summary: TxSummary,
    tx: TxRecord,
    spent: Seq<OutputRecord>,
    outputs: Seq<OutputRecord>,
    block_times: Map<u64, (i64, Seq<char>)>,
    address: Seq<char>,
    shown: RestoredOutput,
    output: OutputRecord,
)
    requires
        report.last_scanned_height == info.last_confirmed_height,
        summarizes(
            summary,
            tx,
            known_from(
                spent,
                outputs,
                block_times,
                address,
                info.last_confirmed_height,
                tx.id,
            ),
        ),
        restores(shown, output, info.last_confirmed_height, block_times),
    ensures
        under_both(
            snapshot_tree(report, transactions),
            "lastScannedHeight"@,
            "last_scanned_height"@,
            JsonTree::Int(report.last_scanned_height as int),
        ),
        summary.confirmations == confirmations_of(
            tx.confirmed,
            tx.confirmation_height,
            report.last_scanned_height,
        ),
        shown.confirmations == confirmations_of(
            true,
            Some(output.height),
            report.last_scanned_height,
        ),
{
    reveal_strlit("lastScannedHeight");
    reveal_strlit("last_scanned_height");
    reveal_strlit("transactions");
    assert("lastScannedHeight"@.len() == 17);
    assert("last_scanned_height"@.len() == 19);
    assert("transactions"@.len() == 12);
}

/// The reply to a request for a snapshot.
pub fn snapshot_reply(report: &Report, transactions: Vec<serde_json::Value>) -> (reply: String)
    ensures
        reply@ == json_text(success_tree(snapshot_tree(*report, trees(transactions@)))),
        !reply@.contains('\0'),
{
    let mut payload = json_object();
    json_set(&mut payload, "code", json_str("epic-native-wallet"));
    json_set(&mut payload, "updatedFromNode", json_bool(report.updated_from_node));
    json_set(&mut payload, "updated_from_node", json_bool(report.updated_from_node));
    json_set(&mut payload, "address", json_str(report.address.as_str()));
    json_set(&mut payload, "balance", json_str(report.balance.as_str()));
    json_set(&mut payload, "spendable", json_str(report.spendable.as_str()));
    json_set(&mut payload, "lastScannedHeight", json_u64(report.last_scanned_height));
    json_set(&mut payload, "last_scanned_height", json_u64(report.last_scanned_height));
    json_set(&mut payload, "transactions", json_array(transactions));
    ok(payload)
}

/// The payload for a wallet that is ready, before anything is known of its state.
pub open spec fn ready_tree(address: Seq<char>) -> JsonTree {
    JsonTree::Object(
        Map::<Seq<char>, JsonTree>::empty()
            .insert("code"@, JsonTree::Text("epic-native-wallet"@))
            .insert("address"@, JsonTree::Text(address))
            .insert("balance"@, JsonTree::Text("0"@))
            .insert("spendable"@, JsonTree::Text("0"@))
            .insert("transactions"@, JsonTree::Array(Seq::empty())),
    )
}

/// The reply to a request to have a wallet ready.
pub fn ensure_reply(address: &str) -> (reply: String)
    ensures
        reply@ == json_text(success_tree(ready_tree(address@))),
        !reply@.contains('\0'),
{
    let none: Vec<serde_json::Value> = Vec::new();
    assert(trees(none@) =~= Seq::<JsonTree>::empty());
    let mut payload = json_object();
    json_set(&mut payload, "code", json_str("epic-native-wallet"));
    json_set(&mut payload, "address", json_str(address));
    json_set(&mut payload, "balance", json_str("0"));
    json_set(&mut payload, "spendable", json_str("0"));
    json_set(&mut payload, "transactions", json_array(none));
    ok(payload)
}

/// What the wallet says later counts, and it has heard from its node if it ever did.
pub proof fn law_the_later_word_counts(first: (bool, WalletInfo), later: (bool, WalletInfo))
    ensures
        latest_of(first, None) == first,
        latest_of(first, Some(later)).1 == later.1,
        latest_of(first, Some(later)).0 <==> first.0 || later.0,
{
}

/// What the outputs add up to counts, whatever the wallet says; where they could not be listed,
/// the balance and the locked money are together what the wallet has, and what can be spent is
/// what it says.
pub proof fn law_the_outputs_come_first(
    total: u64,
    spendable: u64,
    info: WalletInfo,
    other: WalletInfo,
)
    ensures
        balances_of(Some((total, spendable)), info) == balances_of(
            Some((total, spendable)),
            other,
        ),
        balances_of(Some((total, spendable)), info).0 == total,
        balances_of(Some((total, spendable)), info).1 == spendable,
        balances_of(None, info).1 == info.amount_currently_spendable,
        info.total >= info.amount_locked ==> balances_of(None, info).0 + info.amount_locked
            == info.total,
        info.total < info.amount_locked ==> balances_of(None, info).0 == 0,
{
}

/// A snapshot whose steps succeed goes through them all: the address, the scan of a restored
/// wallet, the balance, the scan of recent blocks, the balance again if there was such a scan, and
/// the log.
pub proof fn law_snapshots_go_through_all_their_steps(
    first: Result<bool, String>,
    restoring: SnapshotJob,
    second: Result<bool, String>,
    asking: SnapshotJob,
    third: Result<bool, String>,
    scanning: SnapshotJob,
    scanned: bool,
    next: SnapshotJob,
    fourth: Result<bool, String>,
    listing: SnapshotJob,
    fifth: Result<bool, String>,
    gathering: SnapshotJob,
)
    requires
        first is Ok && second is Ok && third is Ok && fourth is Ok && fifth is Ok,
        call_ensures(SnapshotJob::advance, (SnapshotJob::Address, first), restoring),
        call_ensures(SnapshotJob::advance, (restoring, second), asking),
        call_ensures(SnapshotJob::advance, (asking, third), scanning),
        call_ensures(SnapshotJob::advance, (scanning, Ok(scanned)), next),
        call_ensures(SnapshotJob::advance, (SnapshotJob::InfoAgain, fourth), listing),
        call_ensures(SnapshotJob::advance, (listing, fifth), gathering),
    ensures
        restoring is RestoreScan,
        asking is Info,
        scanning is RecentScan,
        scanned ==> next is InfoAgain,
        !scanned ==> next is Transactions,
        listing is Transactions,
        gathering is Gather,
{
}

/// A step that fails ends a snapshot, with an error text that says why and, where the step does
/// not say itself, what failed; an end is never undone.
pub proof fn law_failed_steps_end_a_snapshot(
    job: SnapshotJob,
    detail: String,
    next: SnapshotJob,
    ended: SnapshotJob,
    outcome: Result<bool, String>,
    after: SnapshotJob,
)
    requires
        call_ensures(SnapshotJob::advance, (job, Err(detail)), next),
        ended is Gather || ended is Failed,
        call_ensures(SnapshotJob::advance, (ended, outcome), after),
    ensures
        job is Address || job is RestoreScan || job is RecentScan ==> next is Failed
            && next->Failed_0@ == detail@,
        job is Info || job is InfoAgain ==> next is Failed && next->Failed_0@
            == "Epic balance refresh: "@ + detail@,
        job is Transactions ==> next is Failed && next->Failed_0@ == "Epic transaction refresh: "@
            + detail@,
        after == ended,
{
    law_failures_say_what_failed_and_why(detail@);
}

/// Block times are wanted for the heights of outputs and entries, and for no others.
pub proof fn law_only_heights_shown_are_wanted(
    outputs: Seq<OutputRecord>,
    txs: Seq<TxRecord>,
    height: u64,
)
    requires
        wanted_heights(outputs, txs).contains(height),
    ensures
        (exists|i: int|
            0 <= i < txs.len() && (#[trigger] txs[i]).confirmation_height == Some(height)) || (
        exists|i: int| 0 <= i < outputs.len() && (#[trigger] outputs[i]).height == height),
{
}

/// A history is shown whole and in order: each entry with its own amount, and behind all entries
/// each output with its own.
pub proof fn law_histories_are_shown_whole_and_in_order(
    history: History,
    written: Written,
    address: Seq<char>,
    i: int,
    k: int,
)
    requires
        written.fits(history),
        0 <= i < history.transactions@.len(),
        0 <= k < history.restored@.len(),
    ensures
        ({
            let documents = history_trees(history, written, address);
            let entry = documents[i];
            let output = documents[history.transactions@.len() + k];
            &&& documents.len() == history.transactions@.len() + history.restored@.len()
            &&& member(entry, "txid"@) == Some(JsonTree::Text(history.transactions@[i].txid@))
            &&& member(entry, "amount"@) == Some(JsonTree::Text(written.amounts@[i]@))
            &&& member(output, "txid"@) == Some(JsonTree::Text(history.restored@[k].commit@))
            &&& member(output, "amount"@) == Some(JsonTree::Text(written.restored_amounts@[k]@))
            &&& member(output, "to"@) == Some(JsonTree::Text(address))
        }),
{
    law_documents_show_the_summary(
        history.transactions@[i],
        written.amounts@[i]@,
        opt_view(written.fees@[i]),
    );
    law_restored_documents_show_the_output(
        history.restored@[k],
        written.restored_amounts@[k]@,
        address,
    );
}

/// The reply to a snapshot shows what was reported, each thing under its name, and the
/// transactions as they are.
pub proof fn law_snapshots_show_what_is_reported(
    shown: Report,
    latest: (bool, WalletInfo),
    address: String,
    balance: String,
    spendable: String,
    transactions: Seq<JsonTree>,
)
    requires
        call_ensures(report, (latest, address, balance, spendable), shown),
    ensures
        ({
            let document = snapshot_tree(shown, transactions);
            let height = JsonTree::Int(latest.1.last_confirmed_height as int);
            &&& member(document, "code"@) == Some(JsonTree::Text("epic-native-wallet"@))
            &&& under_both(
                document,
                "updatedFromNode"@,
                "updated_from_node"@,
                JsonTree::Bool(latest.0),
            )
            &&& member(document, "address"@) == Some(JsonTree::Text(address@))
            &&& member(document, "balance"@) == Some(JsonTree::Text(balance@))
            &&& member(document, "spendable"@) == Some(JsonTree::Text(spendable@))
            &&& under_both(document, "lastScannedHeight"@, "last_scanned_height"@, height)
            &&& member(document, "transactions"@) == Some(JsonTree::Array(transactions))
        }),
{
    lemma_reported_names_differ();
}

/// The names in a report, told apart by their lengths or by a character.
proof fn lemma_reported_names_differ()
    ensures
        "code"@.len() == 4,
        "updatedFromNode"@.len() == 15,
        "updated_from_node"@.len() == 17,
        "address"@.len() == 7,
        "balance"@.len() == 7,
        "spendable"@.len() == 9,
        "lastScannedHeight"@.len() == 17,
        "last_scanned_height"@.len() == 19,
        "transactions"@.len() == 12,
        "address"@[0] == 'a' && "balance"@[0] == 'b',
        "updated_from_node"@[0] == 'u' && "lastScannedHeight"@[0] == 'l',
{
    reveal_strlit("code");
    reveal_strlit("updatedFromNode");
    reveal_strlit("updated_from_node");
    reveal_strlit("address");
    reveal_strlit("balance");
    reveal_strlit("spendable");
    reveal_strlit("lastScannedHeight");
    reveal_strlit("last_scanned_height");
    reveal_strlit("transactions");
}

/// The reply for a wallet that is ready shows its address, and nothing of its state.
pub proof fn law_ready_wallets_show_their_address(address: Seq<char>)
    ensures
        ({
            let document = ready_tree(address);
            &&& member(document, "code"@) == Some(JsonTree::Text("epic-native-wallet"@))
            &&& member(document, "address"@) == Some(JsonTree::Text(address))
            &&& member(document, "balance"@) == Some(JsonTree::Text("0"@))
            &&& member(document, "spendable"@) == Some(JsonTree::Text("0"@))
            &&& member(document, "transactions"@) == Some(JsonTree::Array(Seq::empty()))
        }),
{
    lemma_reported_names_differ();
}

} // verus!
