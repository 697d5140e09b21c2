//! Transactions: what is shown of each entry of the wallet's log, and of each output that no
//! entry accounts for.
use vstd::prelude::*;
use vstd::hash_set::StringHashSet;
use std::collections::{HashMap, HashSet};
use crate::block_times::{BlockTimes, times_view};
use crate::clock::{in_calendar, millis, millis_of, rfc3339_of_utc, utc_rfc3339};
use crate::json::{
    JsonTree, json_bool, json_i64, json_null, json_object, json_opt_str, json_set, json_str,
    json_tree, json_u64, member, text_or_null,
};
use crate::outputs::{
    OutputRecord, OutputStatus, all_outputs_spent, commit_of, commits_of_tx, has_output, is_spent,
    law_first_commitment_is_of_the_first_output, law_gone_commitments_are_of_gone_outputs,
    lemma_no_commits, listed, output_commit, output_spent, spent_commits_of,
};
use crate::text::{decimal, opt_view, to_decimal};

verus! {

/// The kinds of entries in a wallet's log, as far as they are told apart.
#[derive(Clone, Copy, Debug, PartialEq, Eq, Structural)]
pub enum TxType {
    ConfirmedCoinbase,
    TxReceived,
    TxReceivedMempool,
    TxReceivedCancelled,
    TxSent,
    TxSentMempool,
    TxSentCancelled,
    Other,
}

/// Whether an entry brings money in. A cancelled entry never does.
pub open spec fn is_incoming(tx_type: TxType) -> bool {
    ||| tx_type == TxType::TxReceived
    ||| tx_type == TxType::TxReceivedMempool
    ||| tx_type == TxType::ConfirmedCoinbase
}

/// The word for the direction of an entry.
pub open spec fn direction_of(tx_type: TxType) -> Seq<char> {
    if is_incoming(tx_type) {
        "incoming"@
    } else {
        "outgoing"@
    }
}

/// The word for the state of an entry.
pub open spec fn status_of(tx_type: TxType, confirmed: bool) -> Seq<char> {
    if confirmed {
        "confirmed"@
    } else if tx_type == TxType::TxSentMempool || tx_type == TxType::TxReceivedMempool {
        "mempool"@
    } else if tx_type == TxType::TxSentCancelled || tx_type == TxType::TxReceivedCancelled {
        "cancelled"@
    } else {
        "pending"@
    }
}

/// Whether an entry brings money in.
pub fn tx_incoming(tx_type: TxType) -> (r: bool)
    ensures
        r == is_incoming(tx_type),
{
    match tx_type {
        TxType::TxReceived | TxType::TxReceivedMempool | TxType::ConfirmedCoinbase => true,
        _ => false,
    }
}

/// The word for the direction of an entry.
pub fn tx_direction(tx_type: TxType) -> (r: &'static str)
    ensures
        r@ == direction_of(tx_type),
{
    if tx_incoming(tx_type) {
        "incoming"
    } else {
        "outgoing"
    }
}

/// The word for the state of an entry.
pub fn tx_status(tx_type: TxType, confirmed: bool) -> (r: &'static str)
    ensures
        r@ == status_of(tx_type, confirmed),
{
    if confirmed {
        "confirmed"
    } else {
        match tx_type {
            TxType::TxSentMempool | TxType::TxReceivedMempool => "mempool",
            TxType::TxSentCancelled | TxType::TxReceivedCancelled => "cancelled",
            _ => "pending",
        }
    }
}

/// A difference, or nothing where it would be negative.
pub open spec fn at_least_zero(n: int) -> int {
    if n >= 0 {
        n
    } else {
        0
    }
}

/// A fee, or nothing where there is none.
pub open spec fn fee_or_zero(fee: Option<u64>) -> int {
    match fee {
        Some(fee) => fee as int,
        None => 0,
    }
}

/// The amount of an entry, in the smallest unit: of incoming money what was credited less what
/// was debited, of outgoing money what was debited less what was credited and the fee.
pub open spec fn amount_of(tx_type: TxType, credited: u64, debited: u64, fee: Option<u64>) -> int {
    if is_incoming(tx_type) {
        at_least_zero(credited - debited)
    } else {
        at_least_zero(debited - credited - fee_or_zero(fee))
    }
}

/// The amount of an entry, in the smallest unit.
pub fn tx_amount(tx_type: TxType, credited: u64, debited: u64, fee: Option<u64>) -> (units: u64)
    ensures
        units == amount_of(tx_type, credited, debited, fee),
{
    if tx_incoming(tx_type) {
        credited.saturating_sub(debited)
    } else {
        let fee: u64 = match fee {
            Some(fee) => fee,
            None => 0,
        };
        debited.saturating_sub(credited).saturating_sub(fee)
    }
}

/// How many blocks confirm a transaction: none if it is not confirmed; else the blocks from its
/// own to the tip or, where its block is not known or lies beyond the tip, one.
pub open spec fn confirmations_of(confirmed: bool, height: Option<u64>, tip_height: u64) -> int {
    if !confirmed {
        0
    } else {
        match height {
            Some(h) => if 0 < h <= tip_height {
                tip_height - h + 1
            } else {
                1
            },
            None => 1,
        }
    }
}

/// How many blocks confirm a transaction.
pub fn confirmation_count(confirmed: bool, height: Option<u64>, tip_height: u64) -> (r: u64)
    ensures
        r == confirmations_of(confirmed, height, tip_height),
{
    if !confirmed {
        return 0;
    }
    match height {
        Some(h) => if h > 0 && tip_height >= h {
            tip_height - h + 1
        } else {
            1
        },
        None => 1,
    }
}

/// A transaction has confirmations exactly if it is confirmed, and their number never falls as
/// the chain grows.
pub proof fn law_confirmations_grow_with_the_chain(
    confirmed: bool,
    height: Option<u64>,
    tip_height: u64,
    later_tip: u64,
)
    requires
        tip_height <= later_tip,
    ensures
        confirmed <==> confirmations_of(confirmed, height, tip_height) >= 1,
        confirmations_of(confirmed, height, tip_height) <= confirmations_of(
            confirmed,
            height,
            later_tip,
        ),
{
}

/// The amount of a transaction accounts for all its money, where it has any: what comes in is
/// the gain, what goes out is the loss less the fee.
pub proof fn law_amount_accounts_for_the_money(
    tx_type: TxType,
    credited: u64,
    debited: u64,
    fee: Option<u64>,
)
    ensures
        is_incoming(tx_type) && credited >= debited ==> debited + amount_of(
            tx_type,
            credited,
            debited,
            fee,
        ) == credited,
        !is_incoming(tx_type) && debited >= credited + fee_or_zero(fee) ==> credited + fee_or_zero(
            fee,
        ) + amount_of(tx_type, credited, debited, fee) == debited,
        0 <= amount_of(tx_type, credited, debited, fee) <= if is_incoming(tx_type) {
            credited
        } else {
            debited
        },
{
}

/// The time of the block at a height, or another time where there is no height or its block
/// time is not known.
pub open spec fn time_for_height(
    block_times: Map<u64, (i64, Seq<char>)>,
    height: Option<u64>,
    fallback: (i64, Seq<char>),
) -> (i64, Seq<char>) {
    match height {
        Some(h) => if block_times.contains_key(h) {
            block_times[h]
        } else {
            fallback
        },
        None => fallback,
    }
}

/// The time of the block at a height, or another time where it is not known.
pub fn epic_time_for_height(
    block_times: &BlockTimes,
    height: Option<u64>,
    fallback_timestamp: i64,
    fallback_date: String,
) -> (r: (i64, String))
    ensures
        (r.0, r.1@) == time_for_height(
            times_view(block_times@),
            height,
            (fallback_timestamp, fallback_date@),
        ),
{
    match height {
        Some(h) => match block_times.get(&h) {
            Some(time) => (time.0, time.1.clone()),
            None => (fallback_timestamp, fallback_date),
        },
        None => (fallback_timestamp, fallback_date),
    }
}

/// An entry of the wallet's log.
pub struct TxRecord {
    pub id: u32,
    pub tx_type: TxType,
    pub confirmed: bool,
    pub confirmation_height: Option<u64>,
    /// The excess of the kernel in the entry, in hexadecimal.
    pub kernel_excess: Option<String>,
    /// The excess of the first kernel of the stored transaction, in hexadecimal.
    pub stored_kernel_excess: Option<String>,
    pub slate_id: Option<String>,
    /// When the entry was made: seconds since 1970, and the nanoseconds behind them.
    pub created_secs: i64,
    pub created_nanos: u32,
    pub amount_credited: u64,
    pub amount_debited: u64,
    pub fee: Option<u64>,
    pub public_addr: Option<String>,
}

impl TxRecord {
    /// The entry was made at a time in the calendar.
    pub open spec fn wf(self) -> bool {
        in_calendar(self.created_secs, self.created_nanos)
    }
}

/// What is shown of an entry, but for the way amounts are written.
pub struct TxSummary {
    pub txid: String,
    pub chain_txid: String,
    pub slate_id: Option<String>,
    pub kernel_excess: Option<String>,
    pub stored_kernel_excess: Option<String>,
    pub output_commit: Option<String>,
    pub direction: &'static str,
    pub status: &'static str,
    pub confirmed: bool,
    pub confirmations: u64,
    /// The amount, in the smallest unit.
    pub amount: u64,
    /// The fee, in the smallest unit.
    pub fee: Option<u64>,
    pub from: Option<String>,
    pub to: Option<String>,
    pub timestamp: i64,
    pub date: String,
    pub height: Option<u64>,
    pub spent: bool,
}

/// What the wallet's outputs and the chain say about its transactions.
pub struct Surroundings {
    /// For each transaction with outputs, whether they are all gone.
    pub spent_by_tx: HashMap<u32, bool>,
    /// The commitments of all outputs that are gone.
    pub spent_commits: StringHashSet,
    /// For each transaction with outputs, their commitments.
    pub commits_by_tx: HashMap<u32, Vec<String>>,
    pub block_times: BlockTimes,
    /// The wallet's own address.
    pub address: String,
    /// The height that the wallet has confirmed.
    pub tip_height: u64,
}

/// The first of some optional texts that is there.
pub open spec fn first_text(a: Option<Seq<char>>, b: Option<Seq<char>>) -> Option<Seq<char>> {
    match a {
        Some(text) => Some(text),
        None => b,
    }
}

/// What is known of a transaction besides its entry.
pub struct Known {
    /// The commitment of its first output.
    pub first_commit: Option<Seq<char>>,
    /// Whether its outputs are all gone, or its first one is.
    pub outputs_gone: bool,
    pub block_times: Map<u64, (i64, Seq<char>)>,
    /// The wallet's own address.
    pub address: Seq<char>,
    /// The height that the wallet has confirmed.
    pub tip_height: u64,
}

/// What `around` says of a transaction.
pub open spec fn known_in(around: Surroundings, id: u32) -> Known {
    let first_commit = if around.commits_by_tx@.contains_key(id)
        && around.commits_by_tx@[id]@.len() > 0 {
        Some(around.commits_by_tx@[id]@[0]@)
    } else {
        None
    };
    Known {
        first_commit,
        outputs_gone: {
            ||| around.spent_by_tx@.contains_key(id) && around.spent_by_tx@[id]
            ||| first_commit is Some && around.spent_commits@.contains(first_commit->0)
        },
        block_times: times_view(around.block_times@),
        address: around.address@,
        tip_height: around.tip_height,
    }
}

/// What the listings of a wallet's outputs say of a transaction: `spent` is the listing that
/// tells which outputs are gone, `outputs` the one that commitments are looked up in.
pub open spec fn known_from(
    spent: Seq<OutputRecord>,
    outputs: Seq<OutputRecord>,
    block_times: Map<u64, (i64, Seq<char>)>,
    address: Seq<char>,
    tip_height: u64,
    id: u32,
) -> Known {
    let commits = commits_of_tx(outputs, id);
    let first_commit = if commits.len() > 0 {
        Some(commits[0])
    } else {
        None
    };
    Known {
        first_commit,
        outputs_gone: {
            ||| has_output(spent, id) && all_outputs_spent(spent, id)
            ||| first_commit is Some && spent_commits_of(spent).contains(first_commit->0)
        },
        block_times,
        address,
        tip_height,
    }
}

/// The name of an entry that the chain knows nothing of.
pub open spec fn local_id(height: Option<u64>, id: u32) -> Seq<char> {
    let place = match height {
        Some(h) => decimal(h as nat),
        None => "pending"@,
    };
    "epic-local-"@ + place + "-"@ + decimal(id as nat)
}

/// What an entry can be searched for by on the chain: the excess of its kernel, or of the stored
/// one, or the commitment of its first output; else the slate, or a local name.
pub open spec fn chain_txid_of(tx: TxRecord, known: Known) -> Seq<char> {
    let searchable = first_text(
        first_text(opt_view(tx.kernel_excess), opt_view(tx.stored_kernel_excess)),
        known.first_commit,
    );
    match first_text(searchable, opt_view(tx.slate_id)) {
        Some(text) => text,
        None => local_id(tx.confirmation_height, tx.id),
    }
}

/// What an entry goes by: its slate, or else what it can be searched for by.
pub open spec fn txid_of(tx: TxRecord, known: Known) -> Seq<char> {
    match opt_view(tx.slate_id) {
        Some(text) => text,
        None => chain_txid_of(tx, known),
    }
}

/// The time of an entry: that of its block, or when it was made.
pub open spec fn tx_time_of(tx: TxRecord, known: Known) -> (i64, Seq<char>) {
    time_for_height(
        known.block_times,
        tx.confirmation_height,
        (
            millis_of(tx.created_secs, tx.created_nanos) as i64,
            utc_rfc3339(tx.created_secs, tx.created_nanos),
        ),
    )
}

/// `summary` is what is shown of the entry `tx`. Incoming money counts as spent if its outputs
/// are gone; outgoing money never does.
pub open spec fn summarizes(summary: TxSummary, tx: TxRecord, known: Known) -> bool {
    let incoming = is_incoming(tx.tx_type);
    &&& summary.txid@ == txid_of(tx, known)
    &&& summary.chain_txid@ == chain_txid_of(tx, known)
    &&& opt_view(summary.slate_id) == opt_view(tx.slate_id)
    &&& opt_view(summary.kernel_excess) == opt_view(tx.kernel_excess)
    &&& opt_view(summary.stored_kernel_excess) == opt_view(tx.stored_kernel_excess)
    &&& opt_view(summary.output_commit) == known.first_commit
    &&& summary.direction@ == direction_of(tx.tx_type)
    &&& summary.status@ == status_of(tx.tx_type, tx.confirmed)
    &&& summary.confirmed == tx.confirmed
    &&& summary.confirmations == confirmations_of(
        tx.confirmed,
        tx.confirmation_height,
        known.tip_height,
    )
    &&& summary.amount == amount_of(tx.tx_type, tx.amount_credited, tx.amount_debited, tx.fee)
    &&& summary.fee == tx.fee
    &&& opt_view(summary.from) == if incoming {
        opt_view(tx.public_addr)
    } else {
        Some(known.address)
    }
    &&& opt_view(summary.to) == if incoming {
        Some(known.address)
    } else {
        opt_view(tx.public_addr)
    }
    &&& (summary.timestamp, summary.date@) == tx_time_of(tx, known)
    &&& summary.height == tx.confirmation_height
    &&& summary.spent == (incoming && known.outputs_gone)
}

/// A copy of an optional text.
fn copy_of(text: &Option<String>) -> (r: Option<String>)
    ensures
        opt_view(r) == opt_view(*text),
{
    match text {
        Some(t) => Some(t.clone()),
        None => None,
    }
}

/// A copy of the first of two optional texts that is there.
fn either(a: &Option<String>, b: &Option<String>) -> (r: Option<String>)
    ensures
        opt_view(r) == first_text(opt_view(*a), opt_view(*b)),
{
    match a {
        Some(t) => Some(t.clone()),
        None => copy_of(b),
    }
}

/// The name of an entry that the chain knows nothing of.
fn local_name(height: Option<u64>, id: u32) -> (r: String)
    ensures
        r@ == local_id(height, id),
{
    let place = match height {
        Some(h) => to_decimal(h),
        None => "pending".to_owned(),
    };
    "epic-local-".to_owned().concat(place.as_str()).concat("-").concat(
        to_decimal(id as u64).as_str(),
    )
}

/// The commitment of the first output of a transaction.
fn first_output_commit(around: &Surroundings, id: u32) -> (r: Option<String>)
    ensures
        opt_view(r) == known_in(*around, id).first_commit,
{
    match around.commits_by_tx.get(&id) {
        Some(commits) => if commits.len() > 0 {
            Some(commits[0].clone())
        } else {
            None
        },
        None => None,
    }
}

/// What is shown of an entry of the wallet's log.
pub fn summarize(tx: &TxRecord, around: &Surroundings) -> (summary: TxSummary)
    requires
        tx.wf(),
    ensures
        summarizes(summary, *tx, known_in(*around, tx.id)),
        !is_incoming(tx.tx_type) && tx.amount_debited >= tx.amount_credited + fee_or_zero(tx.fee)
            ==> summary.amount + tx.amount_credited + fee_or_zero(tx.fee) == tx.amount_debited,
        is_incoming(tx.tx_type) && tx.amount_credited >= tx.amount_debited ==> summary.amount
            + tx.amount_debited == tx.amount_credited,
{
    let incoming = tx_incoming(tx.tx_type);
    let output_commit = first_output_commit(around, tx.id);
    let all_spent = match around.spent_by_tx.get(&tx.id) {
        Some(all_spent) => *all_spent,
        None => false,
    };
    let first_spent = match &output_commit {
        Some(commit) => around.spent_commits.contains(commit.as_str()),
        None => false,
    };
    let (timestamp, date) = epic_time_for_height(
        &around.block_times,
        tx.confirmation_height,
        millis(tx.created_secs, tx.created_nanos),
        rfc3339_of_utc(tx.created_secs, tx.created_nanos),
    );
    let kernel = either(&tx.kernel_excess, &tx.stored_kernel_excess);
    let searchable = either(&kernel, &output_commit);
    let chain_txid = match either(&searchable, &tx.slate_id) {
        Some(text) => text,
        None => local_name(tx.confirmation_height, tx.id),
    };
    let txid = match &tx.slate_id {
        Some(text) => text.clone(),
        None => chain_txid.clone(),
    };
    TxSummary {
        txid,
        chain_txid,
        slate_id: copy_of(&tx.slate_id),
        kernel_excess: copy_of(&tx.kernel_excess),
        stored_kernel_excess: copy_of(&tx.stored_kernel_excess),
        output_commit,
        direction: tx_direction(tx.tx_type),
        status: tx_status(tx.tx_type, tx.confirmed),
        confirmed: tx.confirmed,
        confirmations: confirmation_count(
            tx.confirmed,
            tx.confirmation_height,
            around.tip_height,
        ),
        amount: tx_amount(tx.tx_type, tx.amount_credited, tx.amount_debited, tx.fee),
        fee: tx.fee,
        from: if incoming {
            copy_of(&tx.public_addr)
        } else {
            Some(around.address.clone())
        },
        to: if incoming {
            Some(around.address.clone())
        } else {
            copy_of(&tx.public_addr)
        },
        timestamp,
        date,
        height: tx.confirmation_height,
        spent: incoming && (all_spent || first_spent),
    }
}

/// What is shown of all entries, in their order.
pub fn summarize_all(txs: &Vec<TxRecord>, around: &Surroundings) -> (r: Vec<TxSummary>)
    requires
        forall|i: int| 0 <= i < txs@.len() ==> (#[trigger] txs@[i]).wf(),
    ensures
        r@.len() == txs@.len(),
        forall|i: int|
            0 <= i < txs@.len() ==> summarizes(
                #[trigger] r@[i],
                txs@[i],
                known_in(*around, txs@[i].id),
            ),
{
    let mut r: Vec<TxSummary> = Vec::new();
    let mut i: usize = 0;
    while i < txs.len()
        invariant
            i <= txs.len(),
            r@.len() == i,
            forall|j: int| 0 <= j < txs@.len() ==> (#[trigger] txs@[j]).wf(),
            forall|j: int|
                0 <= j < i ==> summarizes(
                    #[trigger] r@[j],
                    txs@[j],
                    known_in(*around, txs@[j].id),
                ),
        decreases txs.len() - i,
    {
        r.push(summarize(&txs[i], around));
        i = i + 1;
    }
    r
}

/// A height or, where there is none, `null`.
pub open spec fn height_or_null(height: Option<u64>) -> JsonTree {
    match height {
        Some(h) => JsonTree::Int(h as int),
        None => JsonTree::Null,
    }
}

/// A height or, where there is none, `null`.
fn json_opt_u64(height: Option<u64>) -> (r: serde_json::Value)
    ensures
        json_tree(r) == height_or_null(height),
{
    match height {
        Some(h) => json_u64(h),
        None => json_null(),
    }
}

/// The document of an entry, with its amount and its fee as they are written.
pub open spec fn transaction_tree(
    summary: TxSummary,
    amount: Seq<char>,
    fee: Option<Seq<char>>,
) -> JsonTree {
    JsonTree::Object(
        Map::<Seq<char>, JsonTree>::empty()
            .insert("id"@, JsonTree::Text(summary.txid@))
            .insert("txid"@, JsonTree::Text(summary.txid@))
            .insert("chainTxid"@, JsonTree::Text(summary.chain_txid@))
            .insert("chain_txid"@, JsonTree::Text(summary.chain_txid@))
            .insert("slateId"@, text_or_null(opt_view(summary.slate_id)))
            .insert("tx_slate_id"@, text_or_null(opt_view(summary.slate_id)))
            .insert("kernelExcess"@, text_or_null(opt_view(summary.kernel_excess)))
            .insert("kernel_excess"@, text_or_null(opt_view(summary.kernel_excess)))
            .insert("storedKernelExcess"@, text_or_null(opt_view(summary.stored_kernel_excess)))
            .insert("stored_kernel_excess"@, text_or_null(opt_view(summary.stored_kernel_excess)))
            .insert("outputCommit"@, text_or_null(opt_view(summary.output_commit)))
            .insert("output_commit"@, text_or_null(opt_view(summary.output_commit)))
            .insert("type"@, JsonTree::Text(summary.direction@))
            .insert("direction"@, JsonTree::Text(summary.direction@))
            .insert("status"@, JsonTree::Text(summary.status@))
            .insert("confirmed"@, JsonTree::Bool(summary.confirmed))
            .insert("confirmations"@, JsonTree::Int(summary.confirmations as int))
            .insert("amount"@, JsonTree::Text(amount))
            .insert("fee"@, text_or_null(fee))
            .insert("from"@, text_or_null(opt_view(summary.from)))
            .insert("to"@, text_or_null(opt_view(summary.to)))
            .insert("timestamp"@, JsonTree::Int(summary.timestamp as int))
            .insert("date"@, JsonTree::Text(summary.date@))
            .insert("height"@, height_or_null(summary.height))
            .insert("spent"@, JsonTree::Bool(summary.spent)),
    )
}

/// The document of an entry, with its amount and, if there is one, its fee as they are written.
pub fn transaction_document(summary: &TxSummary, amount: &str, fee: &Option<String>) -> (r:
    serde_json::Value)
    requires
        *fee is Some <==> summary.fee is Some,
    ensures
        json_tree(r) == transaction_tree(*summary, amount@, opt_view(*fee)),
{
    let mut document = json_object();
    json_set(&mut document, "id", json_str(summary.txid.as_str()));
    json_set(&mut document, "txid", json_str(summary.txid.as_str()));
    json_set(&mut document, "chainTxid", json_str(summary.chain_txid.as_str()));
    json_set(&mut document, "chain_txid", json_str(summary.chain_txid.as_str()));
    json_set(&mut document, "slateId", json_opt_str(&summary.slate_id));
    json_set(&mut document, "tx_slate_id", json_opt_str(&summary.slate_id));
    json_set(&mut document, "kernelExcess", json_opt_str(&summary.kernel_excess));
    json_set(&mut document, "kernel_excess", json_opt_str(&summary.kernel_excess));
    json_set(&mut document, "storedKernelExcess", json_opt_str(&summary.stored_kernel_excess));
    json_set(&mut document, "stored_kernel_excess", json_opt_str(&summary.stored_kernel_excess));
    json_set(&mut document, "outputCommit", json_opt_str(&summary.output_commit));
    json_set(&mut document, "output_commit", json_opt_str(&summary.output_commit));
    json_set(&mut document, "type", json_str(summary.direction));
    json_set(&mut document, "direction", json_str(summary.direction));
    json_set(&mut document, "status", json_str(summary.status));
    json_set(&mut document, "confirmed", json_bool(summary.confirmed));
    json_set(&mut document, "confirmations", json_u64(summary.confirmations));
    json_set(&mut document, "amount", json_str(amount));
    json_set(&mut document, "fee", json_opt_str(fee));
    json_set(&mut document, "from", json_opt_str(&summary.from));
    json_set(&mut document, "to", json_opt_str(&summary.to));
    json_set(&mut document, "timestamp", json_i64(summary.timestamp));
    json_set(&mut document, "date", json_str(summary.date.as_str()));
    json_set(&mut document, "height", json_opt_u64(summary.height));
    json_set(&mut document, "spent", json_bool(summary.spent));
    document
}

/// A document holds the same under both names.
pub open spec fn under_both(
    document: JsonTree,
    name: Seq<char>,
    other: Seq<char>,
    held: JsonTree,
) -> bool {
    member(document, name) == Some(held) && member(document, other) == Some(held)
}

/// The names in a document, told apart: those of different lengths differ, and those of the same
/// length differ in a character.
proof fn lemma_names_differ()
    ensures
        "id"@.len() == 2,
        "txid"@.len() == 4,
        "chainTxid"@.len() == 9,
        "chain_txid"@.len() == 10,
        "slateId"@.len() == 7,
        "tx_slate_id"@.len() == 11,
        "kernelExcess"@.len() == 12,
        "kernel_excess"@.len() == 13,
        "storedKernelExcess"@.len() == 18,
        "stored_kernel_excess"@.len() == 20,
        "outputCommit"@.len() == 12,
        "output_commit"@.len() == 13,
        "type"@.len() == 4,
        "direction"@.len() == 9,
        "status"@.len() == 6,
        "confirmed"@.len() == 9,
        "confirmations"@.len() == 13,
        "amount"@.len() == 6,
        "fee"@.len() == 3,
        "from"@.len() == 4,
        "to"@.len() == 2,
        "timestamp"@.len() == 9,
        "date"@.len() == 4,
        "height"@.len() == 6,
        "spent"@.len() == 5,
        "id"@[0] == 'i' && "to"@[0] == 't',
        "txid"@[1] == 'x' && "type"@[1] == 'y' && "from"@[1] == 'r' && "date"@[1] == 'a',
        "chainTxid"@[0] == 'c' && "direction"@[0] == 'd' && "timestamp"@[0] == 't',
        "chainTxid"@[1] == 'h' && "confirmed"@[1] == 'o' && "confirmed"@[0] == 'c',
        "kernelExcess"@[0] == 'k' && "outputCommit"@[0] == 'o',
        "kernel_excess"@[0] == 'k' && "output_commit"@[0] == 'o' && "confirmations"@[0] == 'c',
        "status"@[0] == 's' && "amount"@[0] == 'a' && "height"@[0] == 'h',
        "confirmed"@[2] == 'n' && "chainTxid"@[2] == 'a',
{
    reveal_strlit("id");
    reveal_strlit("txid");
    reveal_strlit("chainTxid");
    reveal_strlit("chain_txid");
    reveal_strlit("slateId");
    reveal_strlit("tx_slate_id");
    reveal_strlit("kernelExcess");
    reveal_strlit("kernel_excess");
    reveal_strlit("storedKernelExcess");
    reveal_strlit("stored_kernel_excess");
    reveal_strlit("outputCommit");
    reveal_strlit("output_commit");
    reveal_strlit("type");
    reveal_strlit("direction");
    reveal_strlit("status");
    reveal_strlit("confirmed");
    reveal_strlit("confirmations");
    reveal_strlit("amount");
    reveal_strlit("fee");
    reveal_strlit("from");
    reveal_strlit("to");
    reveal_strlit("timestamp");
    reveal_strlit("date");
    reveal_strlit("height");
    reveal_strlit("spent");
}

/// The two spellings of each name in an entry's document stand for the same thing.
pub proof fn law_spellings_agree(summary: TxSummary, amount: Seq<char>, fee: Option<Seq<char>>)
    ensures
        ({
            let document = transaction_tree(summary, amount, fee);
            let slate_id = text_or_null(opt_view(summary.slate_id));
            let kernel = text_or_null(opt_view(summary.kernel_excess));
            let stored = text_or_null(opt_view(summary.stored_kernel_excess));
            let commit = text_or_null(opt_view(summary.output_commit));
            &&& under_both(document, "id"@, "txid"@, JsonTree::Text(summary.txid@))
            &&& under_both(
                document,
                "chainTxid"@,
                "chain_txid"@,
                JsonTree::Text(summary.chain_txid@),
            )
            &&& under_both(document, "slateId"@, "tx_slate_id"@, slate_id)
            &&& under_both(document, "kernelExcess"@, "kernel_excess"@, kernel)
            &&& under_both(document, "storedKernelExcess"@, "stored_kernel_excess"@, stored)
            &&& under_both(document, "outputCommit"@, "output_commit"@, commit)
            &&& under_both(document, "type"@, "direction"@, JsonTree::Text(summary.direction@))
        }),
{
    lemma_names_differ();
}

/// What is shown of an output that no entry accounts for, but for the way its value is written.
pub struct RestoredOutput {
    pub commit: String,
    pub confirmations: u64,
    /// The value, in the smallest unit.
    pub amount: u64,
    pub timestamp: i64,
    pub date: String,
    pub height: u64,
    pub spent: bool,
}

/// Whether some entry accounts for an output.
pub open spec fn is_represented(output: OutputRecord, represented: Set<u32>) -> bool {
    match output.tx_log_entry {
        Some(id) => represented.contains(id),
        None => false,
    }
}

/// The outputs of a listing that no entry accounts for, in order.
pub open spec fn unrepresented(outputs: Seq<OutputRecord>, represented: Set<u32>) -> Seq<
    OutputRecord,
> {
    outputs.filter(|output: OutputRecord| !is_represented(output, represented))
}

/// `shown` is what is shown of `output`.
pub open spec fn restores(
    shown: RestoredOutput,
    output: OutputRecord,
    tip_height: u64,
    block_times: Map<u64, (i64, Seq<char>)>,
) -> bool {
    &&& shown.commit@ == commit_of(output)
    &&& shown.confirmations == confirmations_of(true, Some(output.height), tip_height)
    &&& shown.amount == output.value
    &&& (shown.timestamp, shown.date@) == time_for_height(
        block_times,
        Some(output.height),
        (0i64, Seq::empty()),
    )
    &&& shown.height == output.height
    &&& shown.spent == is_spent(output)
}

/// What is shown of an output that no entry accounts for.
pub fn restored_output(output: &OutputRecord, tip_height: u64, block_times: &BlockTimes) -> (r:
    RestoredOutput)
    ensures
        restores(r, *output, tip_height, times_view(block_times@)),
{
    let (timestamp, date) = epic_time_for_height(
        block_times,
        Some(output.height),
        0,
        String::new(),
    );
    RestoredOutput {
        commit: output_commit(output),
        confirmations: confirmation_count(true, Some(output.height), tip_height),
        amount: output.value,
        timestamp,
        date,
        height: output.height,
        spent: output_spent(output),
    }
}

/// What is shown of the outputs that no entry accounts for, in the order of the listing. There
/// are none if the outputs could not be listed.
pub fn restored_outputs(
    outputs: &Option<Vec<OutputRecord>>,
    represented_tx_ids: &HashSet<u32>,
    tip_height: u64,
    block_times: &BlockTimes,
) -> (r: Vec<RestoredOutput>)
    ensures
        r@.len() == unrepresented(listed(*outputs), represented_tx_ids@).len(),
        forall|i: int|
            0 <= i < r@.len() ==> restores(
                #[trigger] r@[i],
                unrepresented(listed(*outputs), represented_tx_ids@)[i],
                tip_height,
                times_view(block_times@),
            ),
{
    let mut r: Vec<RestoredOutput> = Vec::new();
    let list = match outputs {
        Some(list) => list,
        None => {
            reveal(Seq::filter);
            return r;
        },
    };
    let ghost all = list@;
    let ghost keep = |output: OutputRecord| !is_represented(output, represented_tx_ids@);
    let mut i: usize = 0;
    reveal(Seq::filter);
    while i < list.len()
        invariant
            i <= list.len(),
            all == list@,
            keep == (|output: OutputRecord| !is_represented(output, represented_tx_ids@)),
            r@.len() == all.take(i as int).filter(keep).len(),
            forall|j: int|
                0 <= j < r@.len() ==> restores(
                    #[trigger] r@[j],
                    all.take(i as int).filter(keep)[j],
                    tip_height,
                    times_view(block_times@),
                ),
        decreases list.len() - i,
    {
        let output = &list[i];
        proof {
            reveal(Seq::filter);
            assert(all.take(i + 1).drop_last() =~= all.take(i as int));
            assert(all.take(i + 1).last() == *output);
        }
        let represented = match output.tx_log_entry {
            Some(id) => represented_tx_ids.contains(&id),
            None => false,
        };
        if !represented {
            r.push(restored_output(output, tip_height, block_times));
        }
        i = i + 1;
    }
    assert(all.take(i as int) =~= all);
    r
}

/// A date or, where it is empty, `null`.
pub open spec fn date_or_null(date: Seq<char>) -> JsonTree {
    if date.len() == 0 {
        JsonTree::Null
    } else {
        JsonTree::Text(date)
    }
}

/// A date or, where it is empty, `null`.
fn json_date(date: &str) -> (r: serde_json::Value)
    ensures
        json_tree(r) == date_or_null(date@),
{
    if date.is_empty() {
        json_null()
    } else {
        json_str(date)
    }
}

/// The document of an output that no entry accounts for, with its value as it is written.
pub open spec fn restored_tree(
    output: RestoredOutput,
    amount: Seq<char>,
    address: Seq<char>,
) -> JsonTree {
    JsonTree::Object(
        Map::<Seq<char>, JsonTree>::empty()
            .insert("id"@, JsonTree::Text(output.commit@))
            .insert("txid"@, JsonTree::Text(output.commit@))
            .insert("outputCommit"@, JsonTree::Text(output.commit@))
            .insert("output_commit"@, JsonTree::Text(output.commit@))
            .insert("type"@, JsonTree::Text("incoming"@))
            .insert("direction"@, JsonTree::Text("incoming"@))
            .insert("status"@, JsonTree::Text("confirmed"@))
            .insert("confirmed"@, JsonTree::Bool(true))
            .insert("confirmations"@, JsonTree::Int(output.confirmations as int))
            .insert("amount"@, JsonTree::Text(amount))
            .insert("fee"@, JsonTree::Null)
            .insert("from"@, JsonTree::Text("Restore"@))
            .insert("to"@, JsonTree::Text(address))
            .insert("timestamp"@, JsonTree::Int(output.timestamp as int))
            .insert("date"@, date_or_null(output.date@))
            .insert("height"@, JsonTree::Int(output.height as int))
            .insert("spent"@, JsonTree::Bool(output.spent)),
    )
}

/// The document of an output that no entry accounts for, with its value as it is written.
pub fn restored_document(output: &RestoredOutput, amount: &str, address: &str) -> (r:
    serde_json::Value)
    ensures
        json_tree(r) == restored_tree(*output, amount@, address@),
{
    let mut document = json_object();
    json_set(&mut document, "id", json_str(output.commit.as_str()));
    json_set(&mut document, "txid", json_str(output.commit.as_str()));
    json_set(&mut document, "outputCommit", json_str(output.commit.as_str()));
    json_set(&mut document, "output_commit", json_str(output.commit.as_str()));
    json_set(&mut document, "type", json_str("incoming"));
    json_set(&mut document, "direction", json_str("incoming"));
    json_set(&mut document, "status", json_str("confirmed"));
    json_set(&mut document, "confirmed", json_bool(true));
    json_set(&mut document, "confirmations", json_u64(output.confirmations));
    json_set(&mut document, "amount", json_str(amount));
    json_set(&mut document, "fee", json_null());
    json_set(&mut document, "from", json_str("Restore"));
    json_set(&mut document, "to", json_str(address));
    json_set(&mut document, "timestamp", json_i64(output.timestamp));
    json_set(&mut document, "date", json_date(output.date.as_str()));
    json_set(&mut document, "height", json_u64(output.height));
    json_set(&mut document, "spent", json_bool(output.spent));
    document
}

/// The entries that the log accounts for.
pub open spec fn ids_of(txs: Seq<TxRecord>) -> Set<u32> {
    txs.map_values(|tx: TxRecord| tx.id).to_set()
}

/// The numbers of the entries in the wallet's log.
pub fn represented_tx_ids(txs: &Vec<TxRecord>) -> (r: HashSet<u32>)
    ensures
        r@ =~= ids_of(txs@),
{
    let mut r: HashSet<u32> = HashSet::new();
    let mut i: usize = 0;
    let ghost ids = txs@.map_values(|tx: TxRecord| tx.id);
    while i < txs.len()
        invariant
            i <= txs.len(),
            ids == txs@.map_values(|tx: TxRecord| tx.id),
            r@ =~= ids.take(i as int).to_set(),
        decreases txs.len() - i,
    {
        let id: u32 = txs[i].id;
        r.insert(id);
        assert(ids.take(i + 1) =~= ids.take(i as int).push(id));
        assert(ids.take(i as int).push(id).to_set() =~= ids.take(i as int).to_set().insert(id)) by {
            broadcast use vstd::seq_lib::group_seq_properties;
        }
        i = i + 1;
    }
    assert(ids.take(i as int) =~= ids);
    r
}

/// The heights that entries of the log were confirmed at.
pub open spec fn confirmation_heights(txs: Seq<TxRecord>) -> Set<u64> {
    Set::new(
        |height: u64|
            exists|i: int|
                0 <= i < txs.len() && (#[trigger] txs[i]).confirmation_height == Some(height),
    )
}

/// Adds the heights that entries of the log were confirmed at.
pub fn add_confirmation_heights(heights: &mut HashSet<u64>, txs: &Vec<TxRecord>)
    ensures
        final(heights)@ =~= old(heights)@.union(confirmation_heights(txs@)),
{
    let ghost before = heights@;
    let mut i: usize = 0;
    while i < txs.len()
        invariant
            i <= txs.len(),
            forall|h: u64| #[trigger]
                heights@.contains(h) <==> before.contains(h) || exists|j: int|
                    0 <= j < i && (#[trigger] txs@[j]).confirmation_height == Some(h),
        decreases txs.len() - i,
    {
        if let Some(height) = txs[i].confirmation_height {
            heights.insert(height);
            assert(txs@[i as int].confirmation_height == Some(height));
        }
        i = i + 1;
    }
}

/// Nothing is left out and nothing is shown twice: every output belongs to an entry that is
/// shown or is shown by itself, and no output is both.
pub proof fn law_every_output_is_accounted_for_once(
    outputs: Seq<OutputRecord>,
    txs: Seq<TxRecord>,
    i: int,
)
    requires
        0 <= i < outputs.len(),
    ensures
        unrepresented(outputs, ids_of(txs)).contains(outputs[i]) <==> !(exists|k: int|
            0 <= k < txs.len() && outputs[i].tx_log_entry == Some((#[trigger] txs[k]).id)),
{
    let keep = |output: OutputRecord| !is_represented(output, ids_of(txs));
    let ids = txs.map_values(|tx: TxRecord| tx.id);
    broadcast use vstd::seq_lib::group_filter_ensures;

    assert(outputs.contains(outputs[i]));
    if is_represented(outputs[i], ids_of(txs)) {
        let id = outputs[i].tx_log_entry->0;
        assert(ids.contains(id));
        let k = choose|k: int| 0 <= k < ids.len() && ids[k] == id;
        assert(txs[k].id == id);
        if outputs.filter(keep).contains(outputs[i]) {
            let j = choose|j: int|
                0 <= j < outputs.filter(keep).len() && outputs.filter(keep)[j] == outputs[i];
            assert(keep(outputs.filter(keep)[j]));
        }
    } else {
        assert(keep(outputs[i]));
        assert(outputs.filter(keep).contains(outputs[i]));
        assert forall|k: int| 0 <= k < txs.len() implies outputs[i].tx_log_entry != Some(
            (#[trigger] txs[k]).id,
        ) by {
            assert(ids[k] == txs[k].id);
            assert(ids.contains(ids[k]));
        }
    }
}

/// An entry's document shows each thing under its name: the texts, numbers and flags of the
/// summary, the amount and the fee as they are written, and `null` for what is not there.
pub proof fn law_documents_show_the_summary(
    summary: TxSummary,
    amount: Seq<char>,
    fee: Option<Seq<char>>,
)
    ensures
        ({
            let document = transaction_tree(summary, amount, fee);
            &&& member(document, "id"@) == Some(JsonTree::Text(summary.txid@))
            &&& member(document, "txid"@) == Some(JsonTree::Text(summary.txid@))
            &&& member(document, "chainTxid"@) == Some(JsonTree::Text(summary.chain_txid@))
            &&& member(document, "chain_txid"@) == Some(JsonTree::Text(summary.chain_txid@))
            &&& member(document, "type"@) == Some(JsonTree::Text(summary.direction@))
            &&& member(document, "direction"@) == Some(JsonTree::Text(summary.direction@))
            &&& member(document, "status"@) == Some(JsonTree::Text(summary.status@))
            &&& member(document, "confirmed"@) == Some(JsonTree::Bool(summary.confirmed))
            &&& member(document, "confirmations"@) == Some(
                JsonTree::Int(summary.confirmations as int),
            )
            &&& member(document, "amount"@) == Some(JsonTree::Text(amount))
            &&& member(document, "timestamp"@) == Some(JsonTree::Int(summary.timestamp as int))
            &&& member(document, "date"@) == Some(JsonTree::Text(summary.date@))
            &&& member(document, "spent"@) == Some(JsonTree::Bool(summary.spent))
            &&& member(document, "slateId"@) == Some(match summary.slate_id {
                Some(text) => JsonTree::Text(text@),
                None => JsonTree::Null,
            })
            &&& member(document, "tx_slate_id"@) == Some(match summary.slate_id {
                Some(text) => JsonTree::Text(text@),
                None => JsonTree::Null,
            })
            &&& member(document, "kernelExcess"@) == Some(match summary.kernel_excess {
                Some(text) => JsonTree::Text(text@),
                None => JsonTree::Null,
            })
            &&& member(document, "kernel_excess"@) == Some(match summary.kernel_excess {
                Some(text) => JsonTree::Text(text@),
                None => JsonTree::Null,
            })
            &&& member(document, "storedKernelExcess"@) == Some(match summary.stored_kernel_excess {
                Some(text) => JsonTree::Text(text@),
                None => JsonTree::Null,
            })
            &&& member(document, "stored_kernel_excess"@) == Some(match summary.stored_kernel_excess {
                Some(text) => JsonTree::Text(text@),
                None => JsonTree::Null,
            })
            &&& member(document, "outputCommit"@) == Some(match summary.output_commit {
                Some(text) => JsonTree::Text(text@),
                None => JsonTree::Null,
            })
            &&& member(document, "output_commit"@) == Some(match summary.output_commit {
                Some(text) => JsonTree::Text(text@),
                None => JsonTree::Null,
            })
            &&& member(document, "from"@) == Some(match summary.from {
                Some(text) => JsonTree::Text(text@),
                None => JsonTree::Null,
            })
            &&& member(document, "to"@) == Some(match summary.to {
                Some(text) => JsonTree::Text(text@),
                None => JsonTree::Null,
            })
            &&& member(document, "fee"@) == Some(match fee {
                Some(text) => JsonTree::Text(text),
                None => JsonTree::Null,
            })
            &&& member(document, "height"@) == Some(match summary.height {
                Some(height) => JsonTree::Int(height as int),
                None => JsonTree::Null,
            })
        }),
{
    lemma_names_differ();
}

/// An output's document shows each thing under its name: the commitment as what it goes by, the
/// value as it is written, and what is the same for all of them.
pub proof fn law_restored_documents_show_the_output(
    output: RestoredOutput,
    amount: Seq<char>,
    address: Seq<char>,
)
    ensures
        ({
            let document = restored_tree(output, amount, address);
            &&& member(document, "id"@) == Some(JsonTree::Text(output.commit@))
            &&& member(document, "txid"@) == Some(JsonTree::Text(output.commit@))
            &&& member(document, "outputCommit"@) == Some(JsonTree::Text(output.commit@))
            &&& member(document, "output_commit"@) == Some(JsonTree::Text(output.commit@))
            &&& member(document, "type"@) == Some(JsonTree::Text("incoming"@))
            &&& member(document, "direction"@) == Some(JsonTree::Text("incoming"@))
            &&& member(document, "status"@) == Some(JsonTree::Text("confirmed"@))
            &&& member(document, "confirmed"@) == Some(JsonTree::Bool(true))
            &&& member(document, "confirmations"@) == Some(
                JsonTree::Int(output.confirmations as int),
            )
            &&& member(document, "amount"@) == Some(JsonTree::Text(amount))
            &&& member(document, "fee"@) == Some(JsonTree::Null)
            &&& member(document, "from"@) == Some(JsonTree::Text("Restore"@))
            &&& member(document, "to"@) == Some(JsonTree::Text(address))
            &&& member(document, "timestamp"@) == Some(JsonTree::Int(output.timestamp as int))
            &&& member(document, "height"@) == Some(JsonTree::Int(output.height as int))
            &&& member(document, "spent"@) == Some(JsonTree::Bool(output.spent))
            &&& output.date@.len() > 0 ==> member(document, "date"@) == Some(
                JsonTree::Text(output.date@),
            )
            &&& output.date@.len() == 0 ==> member(document, "date"@) == Some(JsonTree::Null)
        }),
{
    lemma_names_differ();
}

/// Which way money goes, kind by kind, and what it is called.
pub proof fn law_direction_by_kind(tx_type: TxType)
    ensures
        match tx_type {
            TxType::ConfirmedCoinbase | TxType::TxReceived | TxType::TxReceivedMempool
                => direction_of(tx_type) == "incoming"@ && is_incoming(tx_type),
            TxType::TxReceivedCancelled | TxType::TxSent | TxType::TxSentMempool
            | TxType::TxSentCancelled | TxType::Other => direction_of(tx_type) == "outgoing"@
                && !is_incoming(tx_type),
        },
{
}

/// What state an entry is in, kind by kind: a confirmed one is confirmed whatever its kind.
pub proof fn law_status_by_kind(tx_type: TxType)
    ensures
        status_of(tx_type, true) == "confirmed"@,
        match tx_type {
            TxType::TxSentMempool | TxType::TxReceivedMempool => status_of(tx_type, false)
                == "mempool"@,
            TxType::TxSentCancelled | TxType::TxReceivedCancelled => status_of(tx_type, false)
                == "cancelled"@,
            TxType::ConfirmedCoinbase | TxType::TxReceived | TxType::TxSent | TxType::Other
                => status_of(tx_type, false) == "pending"@,
        },
{
}

/// Confirmations count the blocks from a transaction's own to the tip, both included.
pub proof fn law_confirmations_count_blocks(confirmed: bool, height: u64, tip_height: u64)
    ensures
        confirmations_of(false, Some(height), tip_height) == 0,
        confirmations_of(false, None, tip_height) == 0,
        confirmations_of(true, None, tip_height) == 1,
        0 < height <= tip_height ==> confirmations_of(true, Some(height), tip_height) + height
            == tip_height + 1,
        height == 0 || height > tip_height ==> confirmations_of(true, Some(height), tip_height)
            == 1,
{
}

/// What is shown of an entry accounts for its money: the amount, the fee and what came back are
/// together what was spent, and what was received is the gain. The fee shown is the entry's own.
/// Where the entry does not add up, nothing is shown as its amount.
pub proof fn law_summary_accounts_for_the_money(summary: TxSummary, tx: TxRecord, known: Known)
    requires
        summarizes(summary, tx, known),
    ensures
        ({
            let fee = match tx.fee {
                Some(units) => units as int,
                None => 0,
            };
            match tx.tx_type {
                TxType::ConfirmedCoinbase | TxType::TxReceived | TxType::TxReceivedMempool => {
                    &&& tx.amount_credited >= tx.amount_debited ==> summary.amount
                        + tx.amount_debited == tx.amount_credited
                    &&& tx.amount_credited < tx.amount_debited ==> summary.amount == 0
                },
                TxType::TxReceivedCancelled | TxType::TxSent | TxType::TxSentMempool
                | TxType::TxSentCancelled | TxType::Other => {
                    &&& tx.amount_debited >= tx.amount_credited + fee ==> summary.amount
                        + tx.amount_credited + fee == tx.amount_debited
                    &&& tx.amount_debited < tx.amount_credited + fee ==> summary.amount == 0
                },
            }
        }),
        summary.fee == tx.fee,
{
}

/// What is shown of an entry says which way the money went and between whom: received money comes
/// from the other side to the wallet's own address, all other goes the other way.
pub proof fn law_summary_tells_who_paid_whom(summary: TxSummary, tx: TxRecord, known: Known)
    requires
        summarizes(summary, tx, known),
    ensures
        match tx.tx_type {
            TxType::ConfirmedCoinbase | TxType::TxReceived | TxType::TxReceivedMempool => {
                &&& summary.direction@ == "incoming"@
                &&& summary.to is Some && summary.to->0@ == known.address
                &&& opt_view(summary.from) == opt_view(tx.public_addr)
            },
            TxType::TxReceivedCancelled | TxType::TxSent | TxType::TxSentMempool
            | TxType::TxSentCancelled | TxType::Other => {
                &&& summary.direction@ == "outgoing"@
                &&& summary.from is Some && summary.from->0@ == known.address
                &&& opt_view(summary.to) == opt_view(tx.public_addr)
                &&& !summary.spent
            },
        },
{
}

/// What is shown of an entry says what state it is in, as the entry does, and how many blocks
/// confirm it.
pub proof fn law_summary_tells_the_state(summary: TxSummary, tx: TxRecord, known: Known)
    requires
        summarizes(summary, tx, known),
    ensures
        summary.confirmed == tx.confirmed,
        summary.height == tx.confirmation_height,
        tx.confirmed <==> summary.status@ == "confirmed"@,
        !tx.confirmed ==> summary.confirmations == 0,
        !tx.confirmed ==> summary.status@ == (match tx.tx_type {
            TxType::TxSentMempool | TxType::TxReceivedMempool => "mempool"@,
            TxType::TxSentCancelled | TxType::TxReceivedCancelled => "cancelled"@,
            _ => "pending"@,
        }),
        tx.confirmed ==> summary.confirmations >= 1,
        tx.confirmed ==> (tx.confirmation_height matches Some(height) ==> (0 < height
            <= known.tip_height ==> summary.confirmations + height == known.tip_height + 1)),
        tx.confirmed && (tx.confirmation_height is None || tx.confirmation_height->0 == 0
            || tx.confirmation_height->0 > known.tip_height) ==> summary.confirmations == 1,
{
    reveal_strlit("confirmed");
    reveal_strlit("mempool");
    reveal_strlit("cancelled");
    reveal_strlit("pending");
    assert("confirmed"@.len() == 9 && "mempool"@.len() == 7 && "cancelled"@.len() == 9
        && "pending"@.len() == 7);
    assert("confirmed"@[1] == 'o' && "cancelled"@[1] == 'a');
}

/// What an entry goes by: its slate, wherever it has one; and what it can be searched for by is
/// the first that it has of its kernel, its stored kernel, its first commitment and its slate, to
/// the letter. An entry that has none of them goes by a name of its own.
pub proof fn law_summary_tells_what_it_goes_by(summary: TxSummary, tx: TxRecord, known: Known)
    requires
        summarizes(summary, tx, known),
    ensures
        tx.slate_id matches Some(slate) ==> summary.txid@ == slate@,
        tx.slate_id is None ==> summary.txid@ == summary.chain_txid@,
        tx.kernel_excess matches Some(kernel) ==> summary.chain_txid@ == kernel@,
        tx.kernel_excess is None ==> (tx.stored_kernel_excess matches Some(kernel)
            ==> summary.chain_txid@ == kernel@),
        tx.kernel_excess is None && tx.stored_kernel_excess is None ==> (
        known.first_commit matches Some(commit) ==> summary.chain_txid@ == commit),
        tx.kernel_excess is None && tx.stored_kernel_excess is None && known.first_commit is None
            ==> (tx.slate_id matches Some(slate) ==> summary.chain_txid@ == slate@),
        tx.kernel_excess is None && tx.stored_kernel_excess is None && known.first_commit is None
            && tx.slate_id is None ==> summary.chain_txid@ == "epic-local-"@ + (
        match tx.confirmation_height {
            Some(height) => decimal(height as nat),
            None => "pending"@,
        }) + "-"@ + decimal(tx.id as nat),
        opt_view(summary.slate_id) == opt_view(tx.slate_id),
        opt_view(summary.kernel_excess) == opt_view(tx.kernel_excess),
        opt_view(summary.stored_kernel_excess) == opt_view(tx.stored_kernel_excess),
        opt_view(summary.output_commit) == known.first_commit,
{
}

/// The time shown of an entry is that of its block where that is known, and else when the entry
/// was made, in UTC; the milliseconds and the text are of the same time.
pub proof fn law_summary_tells_the_time(summary: TxSummary, tx: TxRecord, known: Known)
    requires
        tx.wf(),
        summarizes(summary, tx, known),
    ensures
        tx.confirmation_height matches Some(height) ==> (known.block_times.contains_key(height)
            ==> summary.timestamp == known.block_times[height].0 && summary.date@
            == known.block_times[height].1),
        tx.confirmation_height is None || !known.block_times.contains_key(tx.confirmation_height->0)
            ==> summary.timestamp * 1_000_000 <= tx.created_secs * 1_000_000_000 + tx.created_nanos
            < (summary.timestamp + 1) * 1_000_000 && summary.date@ == utc_rfc3339(
            tx.created_secs,
            tx.created_nanos,
        ),
{
}

/// Received money is shown as spent exactly if its outputs are gone; all other money is never
/// shown as spent.
pub proof fn law_only_received_money_is_shown_as_spent(
    summary: TxSummary,
    tx: TxRecord,
    known: Known,
)
    requires
        summarizes(summary, tx, known),
    ensures
        match tx.tx_type {
            TxType::ConfirmedCoinbase | TxType::TxReceived | TxType::TxReceivedMempool => {
                summary.spent == known.outputs_gone
            },
            TxType::TxReceivedCancelled | TxType::TxSent | TxType::TxSentMempool
            | TxType::TxSentCancelled | TxType::Other => !summary.spent,
        },
{
}

/// The outputs of a transaction are gone exactly if there is one at least and each is spent or
/// deleted, or if the commitment of its first output, at `k` in the listing, is that of a spent or
/// deleted output. A transaction without outputs in the listing has no commitment to go by.
pub proof fn law_money_is_gone_with_its_outputs(
    spent: Seq<OutputRecord>,
    outputs: Seq<OutputRecord>,
    block_times: Map<u64, (i64, Seq<char>)>,
    address: Seq<char>,
    tip_height: u64,
    id: u32,
    k: int,
)
    ensures
        ({
            let known = known_from(spent, outputs, block_times, address, tip_height, id);
            let all_gone = (exists|i: int|
                0 <= i < spent.len() && (#[trigger] spent[i]).tx_log_entry == Some(id)) && (forall|
                i: int,
            |
                0 <= i < spent.len() && (#[trigger] spent[i]).tx_log_entry == Some(id) ==> (
                spent[i].status == OutputStatus::Spent || spent[i].status
                    == OutputStatus::Deleted));
            let is_first = 0 <= k < outputs.len() && outputs[k].tx_log_entry == Some(id) && (forall|
                j: int,
            |
                0 <= j < k ==> (#[trigger] outputs[j]).tx_log_entry != Some(id));
            &&& is_first ==> known.first_commit == Some(commit_of(outputs[k]))
            &&& is_first ==> (known.outputs_gone <==> all_gone || (exists|i: int|
                0 <= i < spent.len() && ((#[trigger] spent[i]).status == OutputStatus::Spent
                    || spent[i].status == OutputStatus::Deleted) && commit_of(spent[i])
                    == commit_of(outputs[k])))
            &&& (forall|j: int|
                0 <= j < outputs.len() ==> (#[trigger] outputs[j]).tx_log_entry != Some(id)) ==> (
            known.first_commit is None && (known.outputs_gone <==> all_gone))
            &&& known.block_times == block_times
            &&& known.address == address
            &&& known.tip_height == tip_height
        }),
{
    if 0 <= k < outputs.len() && outputs[k].tx_log_entry == Some(id) && (forall|j: int|
        0 <= j < k ==> (#[trigger] outputs[j]).tx_log_entry != Some(id)) {
        law_first_commitment_is_of_the_first_output(outputs, id, k);
        law_gone_commitments_are_of_gone_outputs(spent, commit_of(outputs[k]));
    }
    if !has_output(outputs, id) {
        lemma_no_commits(outputs, id);
    }
}

/// Money whose only output is still there is not shown as spent, and money whose only output is
/// gone is; whether an output is there goes by its state alone.
pub proof fn law_one_output_tells_whether_money_is_spent(
    summary: TxSummary,
    tx: TxRecord,
    output: OutputRecord,
    block_times: Map<u64, (i64, Seq<char>)>,
    address: Seq<char>,
    tip_height: u64,
)
    requires
        tx.tx_type == TxType::TxReceived || tx.tx_type == TxType::TxReceivedMempool || tx.tx_type
            == TxType::ConfirmedCoinbase,
        output.tx_log_entry == Some(tx.id),
        summarizes(
            summary,
            tx,
            known_from(seq![output], seq![output], block_times, address, tip_height, tx.id),
        ),
    ensures
        match output.status {
            OutputStatus::Unspent | OutputStatus::Unconfirmed | OutputStatus::Locked => {
                !summary.spent
            },
            OutputStatus::Spent | OutputStatus::Deleted => summary.spent,
        },
{
    let listing = seq![output];
    let known = known_from(listing, listing, block_times, address, tip_height, tx.id);
    assert(listing[0] == output);
    law_money_is_gone_with_its_outputs(
        listing,
        listing,
        block_times,
        address,
        tip_height,
        tx.id,
        0,
    );
    law_only_received_money_is_shown_as_spent(summary, tx, known);
}

/// What is shown of an output that no entry accounts for is the output's own: its commitment, its
/// value, its height and the time of its block, if that is known; and whether it is gone goes by
/// its state.
pub proof fn law_restored_outputs_are_shown_as_they_are(
    shown: RestoredOutput,
    output: OutputRecord,
    tip_height: u64,
    block_times: Map<u64, (i64, Seq<char>)>,
)
    requires
        restores(shown, output, tip_height, block_times),
    ensures
        shown.amount == output.value,
        shown.height == output.height,
        shown.commit@ == (match output.stored_commit {
            Some(commit) => commit@,
            None => output.commit_hex@,
        }),
        match output.status {
            OutputStatus::Unspent | OutputStatus::Unconfirmed | OutputStatus::Locked => {
                !shown.spent
            },
            OutputStatus::Spent | OutputStatus::Deleted => shown.spent,
        },
        0 < output.height <= tip_height ==> shown.confirmations + output.height == tip_height + 1,
        output.height == 0 || output.height > tip_height ==> shown.confirmations == 1,
        block_times.contains_key(output.height) ==> shown.timestamp
            == block_times[output.height].0 && shown.date@ == block_times[output.height].1,
        !block_times.contains_key(output.height) ==> shown.timestamp == 0 && shown.date@.len()
            == 0,
{
}

/// The outputs that no entry accounts for keep their order, and each counts for itself: those of
/// two listings, one behind the other, are those of the first and then those of the second.
pub proof fn law_restored_outputs_keep_their_order(
    first: Seq<OutputRecord>,
    second: Seq<OutputRecord>,
    represented: Set<u32>,
    output: OutputRecord,
)
    ensures
        unrepresented(first + second, represented) == unrepresented(first, represented)
            + unrepresented(second, represented),
        output.tx_log_entry is None ==> unrepresented(seq![output], represented) == seq![output],
        output.tx_log_entry matches Some(id) ==> unrepresented(seq![output], represented) == (
        if represented.contains(id) {
            Seq::<OutputRecord>::empty()
        } else {
            seq![output]
        }),
    decreases second.len(),
{
    let keep = |o: OutputRecord| !is_represented(o, represented);
    reveal(Seq::filter);
    if second.len() > 0 {
        let rest = second.drop_last();
        law_restored_outputs_keep_their_order(first, rest, represented, output);
        assert((first + second).drop_last() =~= first + rest);
        assert((first + second).last() == second.last());
        let kept = unrepresented(first, represented) + unrepresented(rest, represented);
        if keep(second.last()) {
            assert(kept.push(second.last()) =~= unrepresented(first, represented) + unrepresented(
                rest,
                represented,
            ).push(second.last()));
        }
    } else {
        assert(first + second =~= first);
        assert(unrepresented(second, represented) =~= Seq::<OutputRecord>::empty());
        assert(unrepresented(first, represented) + unrepresented(second, represented)
            =~= unrepresented(first, represented));
    }
    let one = seq![output];
    assert(one.drop_last() =~= Seq::<OutputRecord>::empty());
    assert(one.drop_last().filter(keep) =~= Seq::<OutputRecord>::empty());
    assert(Seq::<OutputRecord>::empty().push(output) =~= one);
}

/// The entries that the log accounts for are just those in it, and the heights that they were
/// confirmed at just theirs.
pub proof fn law_entries_stand_for_themselves(txs: Seq<TxRecord>, i: int, id: u32, height: u64)
    ensures
        0 <= i < txs.len() ==> ids_of(txs).contains(txs[i].id),
        ids_of(txs).contains(id) ==> exists|k: int|
            0 <= k < txs.len() && (#[trigger] txs[k]).id == id,
        0 <= i < txs.len() && txs[i].confirmation_height is Some ==> confirmation_heights(
            txs,
        ).contains(txs[i].confirmation_height->0),
        confirmation_heights(txs).contains(height) ==> exists|k: int|
            0 <= k < txs.len() && (#[trigger] txs[k]).confirmation_height == Some(height),
{
    let ids = txs.map_values(|tx: TxRecord| tx.id);
    if 0 <= i < txs.len() {
        assert(ids[i] == txs[i].id);
        assert(ids.contains(ids[i]));
    }
    if ids_of(txs).contains(id) {
        let k = choose|k: int| 0 <= k < ids.len() && ids[k] == id;
        assert(txs[k].id == id);
    }
}

} // verus!
