//! What the operations of the library do, stated of what goes into a call and what comes out of
//! it: each law holds of every call of the function that it names.
use vstd::prelude::*;
use vstd::hash_set::StringHashSet;
use std::collections::{HashMap, HashSet};
use crate::block_times::{
    BlockTimes, Lookup, block_times_of, epic_block_times_by_height, header_request_tree, known_of,
    law_calls_ask_for_all_heights, missing_of, take_answer, times_view,
};
use crate::clock::utc_rfc3339;
use crate::failure::{
    Stage, failure, law_failures_say_what_failed_and_why, sanitize_epicbox_error, stage_label,
};
use crate::json::{JsonTree, json_read, json_text, json_tree, member, trees};
use crate::outputs::{
    BalanceEntry, OutputRecord, OutputStatus, commit_of, commits_of_tx,
    law_first_commitment_is_of_the_first_output, law_spendable_within_balance, listed,
    output_commit, output_commits_and_heights_by_tx, output_spent, output_totals,
    spent_outputs_by_tx,
};
use crate::reply::{
    c_string, err, error_tree, law_reply_tells_success_from_failure, law_success_keeps_the_payload,
    null_request, ok, success_tree, utf8_request,
};
use crate::request::{
    EpicRequest, FilePath, SendAmount, SendOrder, config_file, default_fee_text, finish,
    law_node_url_is_as_given, law_yes_is_said_with_three_words, node_url, request_bool,
    requested_fee_text, seed_file, send_order, sends_max, wallet_dir,
};
use crate::restore::{
    ScanJob, ensure_recent_restore_scan, ensure_restore_scan, has_prefix,
    law_first_marker_line_decides, law_marker_reads_back,
    law_recent_blocks_are_scanned_as_the_chain_grows, law_recent_scan_goes_back_thirty_blocks,
    law_restored_wallets_are_scanned, marker_scanned_height, marker_start_height, marker_u64,
    restore_scan_marker, restore_scan_marker_text, restore_start_height, scanned_in, start_in,
};
use crate::send::{
    Funding, MaxSend, MaxStep, SendJob, delivery_failure, law_estimates_are_assumed_next,
    law_late_deliveries_say_so, law_replies_show_what_was_sent, send_reply,
};
use crate::snapshot::{
    History, Listings, Report, SnapshotJob, WalletInfo, Written, balances, block_time_heights,
    ensure_reply, history_at, history_documents, history_trees, latest_info,
    law_ready_wallets_show_their_address, law_snapshots_show_what_is_reported, report,
    snapshot_reply, spendable_amount,
};
use crate::text::{
    is_blank, is_white_space, lines_of, lowered, opt_view, parsed_u64, str_view, trimmed, views,
};
use crate::transactions::{
    RestoredOutput, Surroundings, TxRecord, TxSummary, TxType, confirmation_count,
    epic_time_for_height, ids_of, known_from, known_in, law_documents_show_the_summary,
    law_money_is_gone_with_its_outputs, law_one_output_tells_whether_money_is_spent,
    law_only_received_money_is_shown_as_spent, law_restored_documents_show_the_output,
    law_restored_outputs_are_shown_as_they_are, law_summary_accounts_for_the_money,
    law_summary_tells_the_state, law_summary_tells_the_time, law_summary_tells_what_it_goes_by,
    law_summary_tells_who_paid_whom, restored_document, restored_outputs, summarize,
    transaction_document, tx_amount, tx_direction, tx_status, unrepresented,
};
use crate::wallet::{BuildJob, OpenJob};

verus! {

/// The wallet's directory is the request's own text, to the letter, if any of it is not white
/// space; and else always the same.
pub proof fn law_wallet_dir(req: EpicRequest, dir: String)
    requires
        call_ensures(wallet_dir, (&req,), dir),
    ensures
        ({
            let given = req.data_dir is Some && exists|i: int|
                0 <= i < req.data_dir->0@.len() && !is_white_space(#[trigger] req.data_dir->0@[i]);
            dir@ == if given {
                req.data_dir->0@
            } else {
                "epic-light"@
            }
        }),
{
}

/// The node's address is the request's own text without the slashes at its end, if any of it is
/// not white space; and else always the same.
pub proof fn law_node_url(req: EpicRequest, url: String)
    requires
        call_ensures(node_url, (&req,), url),
    ensures
        req.node_url is Some && !is_blank(req.node_url->0@) ==> url@ == req.node_url->0@.take(
            url@.len() as int,
        ) && url@.len() <= req.node_url->0@.len() && (forall|i: int|
            url@.len() <= i < req.node_url->0@.len() ==> #[trigger] req.node_url->0@[i] == '/'),
        url@.len() == 0 || url@.last() != '/',
        req.node_url is None || is_blank(req.node_url->0@) ==> url@ == "https://api.altbase.io"@,
{
    if req.node_url is Some && !is_blank(req.node_url->0@) {
        let text = req.node_url->0@;
        let k = choose|k: int| 0 <= k < text.len() && !is_white_space(#[trigger] text[k]);
        law_node_url_is_as_given(req, k);
        let n = choose|n: int|
            0 <= n <= text.len() && url@ == #[trigger] text.take(n) && (forall|i: int|
                n <= i < text.len() ==> #[trigger] text[i] == '/') && (n > 0 ==> text[n - 1]
                != '/');
        assert(url@.len() == n);
        if n > 0 {
            assert(url@.last() == text[n - 1]);
        }
    } else {
        law_node_url_is_as_given(req, 0);
        reveal_strlit("https://api.altbase.io");
        assert(url@.len() == 22 && url@.last() == 'o');
    }
}

/// A flag is set by one of three words, in capitals or not, between any white space; and only by
/// them.
pub proof fn law_request_bool(
    text: &str,
    set: bool,
    missing: bool,
    before: Seq<char>,
    word: Seq<char>,
    behind: Seq<char>,
)
    requires
        call_ensures(request_bool, (Some(text),), set),
        call_ensures(request_bool, (None,), missing),
        is_blank(before),
        is_blank(behind),
        lowered(word) == "true"@ || lowered(word) == "1"@ || lowered(word) == "yes"@,
    ensures
        !missing,
        text@ == before + word + behind ==> set,
        set ==> exists|from: int, to: int|
            0 <= from < to <= text@.len() && {
                let part = lowered(#[trigger] text@.subrange(from, to));
                part == "true"@ || part == "1"@ || part == "yes"@
            } && (forall|i: int|
                (0 <= i < from || to <= i < text@.len()) ==> is_white_space(#[trigger] text@[i])),
{
    law_yes_is_said_with_three_words(before, word, behind, text@);
}

/// The fee that a request asks for is its own text, to the letter, if it is not blank; and the
/// default is a hundredth.
pub proof fn law_requested_fee_text(req: EpicRequest, r: Option<String>, default: &'static str)
    requires
        call_ensures(requested_fee_text, (&req,), r),
        call_ensures(default_fee_text, (), default),
    ensures
        default@ == "0.01"@,
        r is Some <==> req.fee is Some && !is_blank(req.fee->0@),
        r is Some ==> r->0@ == req.fee->0@,
{
}

/// An order goes where the request says, to the letter, for the amount that the request says, to
/// the letter, or for everything on demand; and there is one whenever the request says so much.
pub proof fn law_send_order(req: EpicRequest, r: Result<SendOrder, String>)
    requires
        call_ensures(send_order, (&req,), r),
    ensures
        r matches Ok(order) ==> req.to is Some && order.to@ == req.to->0@,
        r matches Ok(order) ==> (order.amount is Max <==> sends_max(req)),
        r matches Ok(order) ==> (order.amount matches SendAmount::Text(text) ==> req.amount is Some
            && text@ == req.amount->0@),
        r is Ok <==> req.to is Some && !is_blank(req.to->0@) && (sends_max(req) || (req.amount
            is Some && !is_blank(req.amount->0@))),
        r matches Err(message) ==> message@ == (if req.to is Some && !is_blank(req.to->0@) {
            "Amount is required"@
        } else {
            "Destination address is required"@
        }),
{
}

/// What the work replies goes back to the letter.
pub proof fn law_finish(outcome: Result<String, String>, reply: String)
    requires
        call_ensures(finish, (outcome,), reply),
    ensures
        outcome matches Ok(text) ==> reply@ == text@,
        outcome matches Err(message) ==> exists|tree: JsonTree|
            reply@ == #[trigger] json_text(tree) && member(tree, "ok"@) == Some(
                JsonTree::Bool(false),
            ) && member(tree, "code"@) == Some(JsonTree::Text("epic-native-wallet-error"@))
                && member(tree, "error"@) == Some(JsonTree::Text(message@)),
{
    if let Err(message) = outcome {
        law_reply_tells_success_from_failure(
            JsonTree::Null,
            "epic-native-wallet-error"@,
            message@,
        );
    }
}

/// The files of a wallet stand below its directory, to the letter.
pub proof fn law_files_stand_below_the_directory(
    dir: &str,
    config: FilePath,
    seed: FilePath,
    marker: FilePath,
)
    requires
        call_ensures(config_file, (dir,), config),
        call_ensures(seed_file, (dir,), seed),
        call_ensures(restore_scan_marker, (dir,), marker),
    ensures
        config.base@ == dir@ && seed.base@ == dir@ && marker.base@ == dir@,
        config.below@.len() == 1 && config.below@[0]@ == "epic-wallet.toml"@,
        seed.below@.len() == 2 && seed.below@[0]@ == "wallet_data"@ && seed.below@[1]@
            == "wallet.seed"@,
        marker.below@.len() == 1 && marker.below@[0]@ == "altbase.restore-scan.done"@,
{
}

/// What is written into a marker file is read back from it, whatever the heights are.
pub proof fn law_markers_read_back(
    start_height: u64,
    scanned_height: u64,
    text: String,
    marker: &str,
    start: Option<u64>,
    scanned: Option<u64>,
)
    requires
        call_ensures(restore_scan_marker_text, (start_height, scanned_height), text),
        marker@ == text@,
        call_ensures(marker_start_height, (marker,), start),
        call_ensures(marker_scanned_height, (marker,), scanned),
    ensures
        start == Some(start_height),
        scanned == Some(scanned_height),
{
    law_marker_reads_back(start_height, scanned_height);
}

/// A restored wallet is scanned from the block that the request names: always where it has no
/// marker, and where it has one exactly if that says a later block.
pub proof fn law_ensure_restore_scan(
    req: EpicRequest,
    marker_exists: bool,
    marker: Option<&str>,
    start_height: u64,
    job: ScanJob,
)
    requires
        call_ensures(restore_start_height, (&req,), start_height),
        call_ensures(ensure_restore_scan, (&req, marker_exists, marker), job),
    ensures
        start_height == (if req.restore_start_height is Some && req.restore_start_height->0 > 0 {
            req.restore_start_height->0
        } else {
            3_540_000
        }),
        !marker_exists ==> job is Scan && !job->Scan_0.recent && job->Scan_0.from == start_height
            && job->Scan_0.marker_start == start_height && job->Scan_0.marker_scanned
            == start_height,
        ({
            let later_only = marker is Some && start_in(marker->0@) is Some && start_in(
                marker->0@,
            )->0 > start_height;
            &&& marker_exists && later_only ==> job is Remove && !job->Remove_0.recent
                && job->Remove_0.from == start_height && job->Remove_0.marker_start
                == start_height && job->Remove_0.marker_scanned == start_height
            &&& marker_exists && !later_only ==> job == ScanJob::Mark(None)
        }),
{
    law_restored_wallets_are_scanned(start_height, marker_exists, str_view(marker));
}

/// Recent blocks are scanned whenever the chain has grown past what was scanned, by however
/// little, from thirty blocks back, and as far as the wallet goes back at most.
pub proof fn law_ensure_recent_restore_scan(
    req: EpicRequest,
    marker: Option<&str>,
    tip_height: u64,
    start_height: u64,
    job: ScanJob,
)
    requires
        call_ensures(restore_start_height, (&req,), start_height),
        call_ensures(ensure_recent_restore_scan, (&req, marker, tip_height), job),
    ensures
        ({
            let marked = if marker is Some {
                start_in(marker->0@)
            } else {
                None
            };
            let scanned = if marker is Some {
                scanned_in(marker->0@)
            } else {
                None
            };
            let first = if marked is Some && marked->0 < start_height {
                marked->0
            } else {
                start_height
            };
            let base = if scanned is Some && scanned->0 > first {
                scanned->0
            } else {
                tip_height
            };
            &&& job is Scan <==> tip_height > 0 && (scanned is None || scanned->0 < tip_height)
            &&& !(job is Scan) ==> job == ScanJob::Done(false)
            &&& job is Scan ==> {
                let order = job->Scan_0;
                &&& order.recent && order.marker_start == first && order.marker_scanned
                    == tip_height
                &&& first <= tip_height && base >= first + 30 ==> order.from + 30 == base
                &&& first <= tip_height && base < first + 30 ==> order.from == first
                &&& first > tip_height ==> order.from == tip_height
            }
        }),
{
    law_recent_blocks_are_scanned_as_the_chain_grows(start_height, str_view(marker), tip_height);
    if job is Scan {
        law_recent_scan_goes_back_thirty_blocks(start_height, str_view(marker), tip_height);
    }
}

/// One more output adds its value to the balance if it is unspent or unconfirmed, and to what can
/// be spent if it is unspent and eligible, as far as sums go; and nothing else changes either.
pub proof fn law_output_totals(
    list: Vec<BalanceEntry>,
    more: Vec<BalanceEntry>,
    entry: BalanceEntry,
    before: (u64, u64),
    after: (u64, u64),
    unlisted: Option<(u64, u64)>,
)
    requires
        more@ == list@.push(entry),
        call_ensures(output_totals, (&Some(list),), Some(before)),
        call_ensures(output_totals, (&Some(more),), Some(after)),
        call_ensures(output_totals, (&None,), unlisted),
    ensures
        unlisted is None,
        before.1 <= before.0,
        list@.len() == 0 ==> before == (0u64, 0u64),
        ({
            let held = entry.status == OutputStatus::Unspent || entry.status
                == OutputStatus::Unconfirmed;
            let spendable = entry.status == OutputStatus::Unspent && entry.eligible;
            let total = before.0 + if held {
                entry.value as int
            } else {
                0
            };
            let part = before.1 + if spendable {
                entry.value as int
            } else {
                0
            };
            &&& after.0 == if total <= u64::MAX {
                total
            } else {
                u64::MAX as int
            }
            &&& after.1 == if part <= u64::MAX {
                part
            } else {
                u64::MAX as int
            }
        }),
{
    assert(more@.drop_last() =~= list@);
    law_spendable_within_balance(list@);
}

/// A transaction counts as spent exactly if it has an output in the listing and each of its
/// outputs there is spent or deleted; and the commitments given are those of just these.
pub proof fn law_spent_outputs_by_tx(
    list: Vec<OutputRecord>,
    r: (HashMap<u32, bool>, StringHashSet),
    id: u32,
    commit: Seq<char>,
)
    requires
        call_ensures(spent_outputs_by_tx, (&Some(list),), r),
    ensures
        r.0@.contains_key(id) <==> exists|i: int|
            0 <= i < list@.len() && (#[trigger] list@[i]).tx_log_entry == Some(id),
        r.0@.contains_key(id) ==> (r.0@[id] <==> forall|i: int|
            0 <= i < list@.len() && (#[trigger] list@[i]).tx_log_entry == Some(id) ==> (
            list@[i].status == OutputStatus::Spent || list@[i].status == OutputStatus::Deleted)),
        r.1@.contains(commit) <==> exists|i: int|
            0 <= i < list@.len() && ((#[trigger] list@[i]).status == OutputStatus::Spent
                || list@[i].status == OutputStatus::Deleted) && commit_of(list@[i]) == commit,
{
}

/// Whether an output is gone goes by its state, and what it goes by is its stored commitment or,
/// without one, its own.
pub proof fn law_outputs_one_by_one(output: OutputRecord, gone: bool, commit: String)
    requires
        call_ensures(output_spent, (&output,), gone),
        call_ensures(output_commit, (&output,), commit),
    ensures
        match output.status {
            OutputStatus::Spent | OutputStatus::Deleted => gone,
            OutputStatus::Unspent | OutputStatus::Unconfirmed | OutputStatus::Locked => !gone,
        },
        commit@ == (match output.stored_commit {
            Some(stored) => stored@,
            None => output.commit_hex@,
        }),
{
}

/// A transaction's commitments start with that of its first output in the listing, and the
/// heights are those of all outputs but for block zero.
pub proof fn law_output_commits_and_heights(
    list: Vec<OutputRecord>,
    r: (HashMap<u32, Vec<String>>, HashSet<u64>),
    id: u32,
    k: int,
    height: u64,
)
    requires
        call_ensures(output_commits_and_heights_by_tx, (&Some(list),), r),
    ensures
        r.0@.contains_key(id) <==> exists|i: int|
            0 <= i < list@.len() && (#[trigger] list@[i]).tx_log_entry == Some(id),
        0 <= k < list@.len() && list@[k].tx_log_entry == Some(id) && (forall|i: int|
            0 <= i < k ==> (#[trigger] list@[i]).tx_log_entry != Some(id))
            ==> r.0@[id]@.len() > 0 && r.0@[id]@[0]@ == commit_of(list@[k]),
        r.1@.contains(height) <==> height > 0 && exists|i: int|
            0 <= i < list@.len() && (#[trigger] list@[i]).height == height,
{
    if 0 <= k < list@.len() && list@[k].tx_log_entry == Some(id) && (forall|i: int|
        0 <= i < k ==> (#[trigger] list@[i]).tx_log_entry != Some(id)) {
        law_first_commitment_is_of_the_first_output(list@, id, k);
        let texts = views(r.0@[id]@);
        assert(texts == commits_of_tx(list@, id));
        assert(texts[0] == r.0@[id]@[0]@);
    }
}

/// The node is asked exactly if a height that is wanted, but for block zero, is not known, and
/// then for those heights alone; what is known is given as it is.
pub proof fn law_block_times_lookup(
    node_url: &str,
    heights: HashSet<u64>,
    cache: BlockTimes,
    lookup: Lookup,
    height: u64,
)
    requires
        call_ensures(epic_block_times_by_height, (node_url, &heights, Some(&cache)), lookup),
    ensures
        ({
            let wanted = height > 0 && heights@.contains(height);
            match lookup {
                Lookup::Known(times) => {
                    &&& wanted ==> cache@.contains_key(height)
                    &&& times@.contains_key(height) <==> wanted
                    &&& wanted ==> times@[height] == cache@[height]
                },
                Lookup::Ask { known, url, calls } => {
                    &&& known@.contains_key(height) <==> wanted && cache@.contains_key(height)
                    &&& known@.contains_key(height) ==> known@[height] == cache@[height]
                    &&& json_tree(calls) is Array
                    &&& json_tree(calls)->Array_0.contains(header_request_tree(height))
                        <==> wanted && !cache@.contains_key(height)
                    &&& (node_url@.len() == 0 || node_url@.last() != '/') ==> url@ == node_url@
                        + "/v2/foreign"@
                },
            }
        }),
{
    assert(known_of(cache@, heights@).contains(height) <==> height > 0 && heights@.contains(height)
        && cache@.contains_key(height));
    assert(missing_of(cache@, heights@).contains(height) <==> height > 0 && heights@.contains(
        height,
    ) && !cache@.contains_key(height));
    match lookup {
        Lookup::Known(times) => {
            assert(times@.dom().contains(height) <==> known_of(cache@, heights@).contains(height));
            assert(!Set::<u64>::empty().contains(height));
        },
        Lookup::Ask { known, url, calls } => {
            assert(known@.dom().contains(height) <==> known_of(cache@, heights@).contains(height));
            law_calls_ask_for_all_heights(
                json_tree(calls),
                missing_of(cache@, heights@),
                height,
            );
        },
    }
}

/// What comes back from the node is added to what is known, and counts where both say something;
/// nothing that came back changes nothing.
pub proof fn law_take_answer(
    known: BlockTimes,
    body: &[u8],
    times: BlockTimes,
    fetched: BlockTimes,
    same: BlockTimes,
    none: BlockTimes,
    height: u64,
)
    requires
        call_ensures(take_answer, (known, Some(body)), (times, fetched)),
        call_ensures(take_answer, (known, None), (same, none)),
    ensures
        same@ =~= known@,
        times@.contains_key(height) <==> known@.contains_key(height) || fetched@.contains_key(
            height,
        ),
        fetched@.contains_key(height) ==> times@[height] == fetched@[height],
        known@.contains_key(height) && !fetched@.contains_key(height) ==> times@[height]
            == known@[height],
        json_read(body@) is None ==> !fetched@.contains_key(height),
        json_read(body@) matches Some(JsonTree::Array(answers)) ==> times_view(fetched@)
            == block_times_of(answers),
        json_read(body@) matches Some(JsonTree::Object(members)) ==> times_view(fetched@)
            == block_times_of(seq![JsonTree::Object(members)]),
        json_read(body@) is Some && !(json_read(body@)->0 is Array) && !(json_read(body@)->0
            is Object) ==> !fetched@.contains_key(height),
{
    assert(times_view(none@).dom() =~= none@.dom());
    assert(times_view(fetched@).dom() =~= fetched@.dom());
}

/// Which way money goes, what state it is in, what the amount is and how many blocks confirm it,
/// kind by kind and number by number.
pub proof fn law_entries_one_by_one(
    tx_type: TxType,
    confirmed: bool,
    credited: u64,
    debited: u64,
    fee: Option<u64>,
    height: Option<u64>,
    tip_height: u64,
    direction: &'static str,
    status: &'static str,
    units: u64,
    blocks: u64,
)
    requires
        call_ensures(tx_direction, (tx_type,), direction),
        call_ensures(tx_status, (tx_type, confirmed), status),
        call_ensures(tx_amount, (tx_type, credited, debited, fee), units),
        call_ensures(confirmation_count, (confirmed, height, tip_height), blocks),
    ensures
        ({
            let cost = if fee is Some {
                fee->0 as int
            } else {
                0
            };
            match tx_type {
                TxType::ConfirmedCoinbase | TxType::TxReceived | TxType::TxReceivedMempool => {
                    &&& direction@ == "incoming"@
                    &&& credited >= debited ==> units + debited == credited
                    &&& credited < debited ==> units == 0
                },
                TxType::TxReceivedCancelled | TxType::TxSent | TxType::TxSentMempool
                | TxType::TxSentCancelled | TxType::Other => {
                    &&& direction@ == "outgoing"@
                    &&& debited >= credited + cost ==> units + credited + cost == debited
                    &&& debited < credited + cost ==> units == 0
                },
            }
        }),
        confirmed ==> status@ == "confirmed"@,
        !confirmed ==> status@ == (match tx_type {
            TxType::TxSentMempool | TxType::TxReceivedMempool => "mempool"@,
            TxType::TxSentCancelled | TxType::TxReceivedCancelled => "cancelled"@,
            _ => "pending"@,
        }),
        !confirmed ==> blocks == 0,
        confirmed && height is Some && 0 < height->0 <= tip_height ==> blocks + height->0
            == tip_height + 1,
        confirmed && (height is None || height->0 == 0 || height->0 > tip_height) ==> blocks == 1,
{
}

/// The time of a height is that of its block if that is known, and else the other time, both
/// parts of it.
pub proof fn law_epic_time_for_height(
    block_times: BlockTimes,
    height: Option<u64>,
    timestamp: i64,
    date: String,
    r: (i64, String),
)
    requires
        call_ensures(epic_time_for_height, (&block_times, height, timestamp, date), r),
    ensures
        height is Some && block_times@.contains_key(height->0) ==> r.0 == block_times@[height->0].0
            && r.1@ == block_times@[height->0].1@,
        height is None || !block_times@.contains_key(height->0) ==> r.0 == timestamp && r.1@
            == date@,
{
}

/// What is shown of an entry: the money adds up, the sides are told apart, the state and the time
/// are the entry's own, and received money is spent exactly if the surroundings say so.
pub proof fn law_summarize(tx: TxRecord, around: Surroundings, summary: TxSummary)
    requires
        tx.wf(),
        call_ensures(summarize, (&tx, &around), summary),
    ensures
        ({
            let incoming = tx.tx_type == TxType::TxReceived || tx.tx_type
                == TxType::TxReceivedMempool || tx.tx_type == TxType::ConfirmedCoinbase;
            let fee = if tx.fee is Some {
                tx.fee->0 as int
            } else {
                0
            };
            let commits = around.commits_by_tx@;
            let first = if commits.contains_key(tx.id) && commits[tx.id]@.len() > 0 {
                Some(commits[tx.id]@[0]@)
            } else {
                None
            };
            &&& !incoming && tx.amount_debited >= tx.amount_credited + fee ==> summary.amount
                + tx.amount_credited + fee == tx.amount_debited
            &&& incoming && tx.amount_credited >= tx.amount_debited ==> summary.amount
                + tx.amount_debited == tx.amount_credited
            &&& summary.fee == tx.fee
            &&& summary.direction@ == if incoming {
                "incoming"@
            } else {
                "outgoing"@
            }
            &&& incoming ==> summary.to is Some && summary.to->0@ == around.address@
                && opt_view(summary.from) == opt_view(tx.public_addr)
            &&& !incoming ==> summary.from is Some && summary.from->0@ == around.address@
                && opt_view(summary.to) == opt_view(tx.public_addr)
            &&& summary.confirmed == tx.confirmed
            &&& summary.height == tx.confirmation_height
            &&& opt_view(summary.output_commit) == first
            &&& summary.spent <==> incoming && ((around.spent_by_tx@.contains_key(tx.id)
                && around.spent_by_tx@[tx.id]) || (first is Some && around.spent_commits@.contains(
                first->0,
            )))
            &&& tx.slate_id is Some ==> summary.txid@ == tx.slate_id->0@
            &&& tx.slate_id is None ==> summary.txid@ == summary.chain_txid@
            &&& tx.kernel_excess is Some ==> summary.chain_txid@ == tx.kernel_excess->0@
            &&& tx.kernel_excess is None && tx.stored_kernel_excess is Some
                ==> summary.chain_txid@ == tx.stored_kernel_excess->0@
            &&& tx.kernel_excess is None && tx.stored_kernel_excess is None && first is Some
                ==> summary.chain_txid@ == first->0
            &&& tx.confirmed <==> summary.status@ == "confirmed"@
            &&& !tx.confirmed ==> summary.confirmations == 0
            &&& tx.confirmed && tx.confirmation_height is Some && 0 < tx.confirmation_height->0
                <= around.tip_height ==> summary.confirmations + tx.confirmation_height->0
                == around.tip_height + 1
        }),
        tx.confirmation_height is Some && around.block_times@.contains_key(
            tx.confirmation_height->0,
        ) ==> summary.timestamp == around.block_times@[tx.confirmation_height->0].0
            && summary.date@ == around.block_times@[tx.confirmation_height->0].1@,
        tx.confirmation_height is None || !around.block_times@.contains_key(
            tx.confirmation_height->0,
        ) ==> summary.timestamp * 1_000_000 <= tx.created_secs * 1_000_000_000 + tx.created_nanos
            < (summary.timestamp + 1) * 1_000_000 && summary.date@ == utc_rfc3339(
            tx.created_secs,
            tx.created_nanos,
        ),
{
    let known = known_in(around, tx.id);
    law_summary_accounts_for_the_money(summary, tx, known);
    law_summary_tells_who_paid_whom(summary, tx, known);
    law_summary_tells_the_state(summary, tx, known);
    law_summary_tells_the_time(summary, tx, known);
    law_summary_tells_what_it_goes_by(summary, tx, known);
    law_only_received_money_is_shown_as_spent(summary, tx, known);
}

/// A history shows each entry with its own money, sides, state and names, its confirmations
/// counted up to the height that the wallet has confirmed; and each output that no entry accounts
/// for with its own value, commitment and state.
pub proof fn law_history_at(
    txs: Vec<TxRecord>,
    listings: Listings,
    block_times: BlockTimes,
    address: &str,
    info: WalletInfo,
    r: History,
    i: int,
    k: int,
)
    requires
        call_ensures(history_at, (&txs, &listings, block_times, address, &info), r),
    ensures
        r.transactions@.len() == txs@.len(),
        0 <= i < txs@.len() ==> {
            let tx = txs@[i];
            let shown = r.transactions@[i];
            let incoming = tx.tx_type == TxType::TxReceived || tx.tx_type
                == TxType::TxReceivedMempool || tx.tx_type == TxType::ConfirmedCoinbase;
            let fee = if tx.fee is Some {
                tx.fee->0 as int
            } else {
                0
            };
            &&& !incoming && tx.amount_debited >= tx.amount_credited + fee ==> shown.amount
                + tx.amount_credited + fee == tx.amount_debited
            &&& incoming && tx.amount_credited >= tx.amount_debited ==> shown.amount
                + tx.amount_debited == tx.amount_credited
            &&& shown.fee == tx.fee
            &&& !incoming ==> !shown.spent && shown.from is Some && shown.from->0@ == address@
            &&& incoming ==> shown.to is Some && shown.to->0@ == address@
            &&& !incoming ==> opt_view(shown.to) == opt_view(tx.public_addr) && shown.direction@
                == "outgoing"@
            &&& incoming ==> opt_view(shown.from) == opt_view(tx.public_addr) && shown.direction@
                == "incoming"@
            &&& tx.slate_id is Some ==> shown.txid@ == tx.slate_id->0@
            &&& tx.slate_id is None ==> shown.txid@ == shown.chain_txid@
            &&& tx.kernel_excess is Some ==> shown.chain_txid@ == tx.kernel_excess->0@
            &&& tx.confirmation_height is Some && block_times@.contains_key(
                tx.confirmation_height->0,
            ) ==> shown.timestamp == block_times@[tx.confirmation_height->0].0 && shown.date@
                == block_times@[tx.confirmation_height->0].1@
            &&& tx.confirmation_height is None || !block_times@.contains_key(
                tx.confirmation_height->0,
            ) ==> shown.date@ == utc_rfc3339(tx.created_secs, tx.created_nanos)
            &&& tx.confirmed <==> shown.status@ == "confirmed"@
            &&& shown.confirmed == tx.confirmed && shown.height == tx.confirmation_height
            &&& !tx.confirmed ==> shown.confirmations == 0
            &&& tx.confirmed && (tx.confirmation_height is None || tx.confirmation_height->0 == 0
                || tx.confirmation_height->0 > info.last_confirmed_height) ==> shown.confirmations
                == 1
            &&& tx.confirmed && tx.confirmation_height is Some && 0 < tx.confirmation_height->0
                <= info.last_confirmed_height ==> shown.confirmations + tx.confirmation_height->0
                == info.last_confirmed_height + 1
        },
        listings.restored matches Some(list) ==> r.restored@.len() == unrepresented(
            list@,
            ids_of(txs@),
        ).len(),
        listings.restored is None ==> r.restored@.len() == 0,
        listings.restored matches Some(list) ==> (0 <= k < r.restored@.len() ==> {
            let output = unrepresented(list@, ids_of(txs@))[k];
            let shown = r.restored@[k];
            &&& shown.amount == output.value && shown.height == output.height
            &&& shown.commit@ == commit_of(output)
            &&& shown.spent <==> output.status == OutputStatus::Spent || output.status
                == OutputStatus::Deleted
            &&& 0 < output.height <= info.last_confirmed_height ==> shown.confirmations
                + output.height == info.last_confirmed_height + 1
            &&& block_times@.contains_key(output.height) ==> shown.timestamp
                == block_times@[output.height].0 && shown.date@ == block_times@[output.height].1@
            &&& !block_times@.contains_key(output.height) ==> shown.timestamp == 0
                && shown.date@.len() == 0
        }),
{
    if 0 <= i < txs@.len() {
        let tx = txs@[i];
        let shown = r.transactions@[i];
        let known = known_from(
            listed(listings.spent),
            listed(listings.outputs),
            times_view(block_times@),
            address@,
            info.last_confirmed_height,
            tx.id,
        );
        law_summary_accounts_for_the_money(shown, tx, known);
        law_summary_tells_who_paid_whom(shown, tx, known);
        law_summary_tells_the_state(shown, tx, known);
        law_summary_tells_what_it_goes_by(shown, tx, known);
        law_only_received_money_is_shown_as_spent(shown, tx, known);
    }
    if let Some(list) = listings.restored {
        if 0 <= k < r.restored@.len() {
            law_restored_outputs_are_shown_as_they_are(
                r.restored@[k],
                unrepresented(list@, ids_of(txs@))[k],
                info.last_confirmed_height,
                times_view(block_times@),
            );
        }
    } else {
        reveal(Seq::filter);
    }
}

/// Received money is shown as spent by the two listings: if the first lists an output of it and
/// every one that it lists is spent or deleted; or if the first lists a spent or deleted output
/// with the commitment of the entry's first output in the second, at `k`.
pub proof fn law_history_tells_spent_money_by_its_outputs(
    txs: Vec<TxRecord>,
    listings: Listings,
    block_times: BlockTimes,
    address: &str,
    info: WalletInfo,
    r: History,
    i: int,
    spent: Vec<OutputRecord>,
    outputs: Vec<OutputRecord>,
    k: int,
)
    requires
        call_ensures(history_at, (&txs, &listings, block_times, address, &info), r),
        0 <= i < txs@.len(),
        txs@[i].tx_type == TxType::TxReceived || txs@[i].tx_type == TxType::TxReceivedMempool
            || txs@[i].tx_type == TxType::ConfirmedCoinbase,
        listings.spent == Some(spent),
        listings.outputs == Some(outputs),
        0 <= k < outputs@.len(),
        outputs@[k].tx_log_entry == Some(txs@[i].id),
        forall|j: int| 0 <= j < k ==> (#[trigger] outputs@[j]).tx_log_entry != Some(txs@[i].id),
    ensures
        ({
            let id = txs@[i].id;
            let all_gone = (exists|n: int|
                0 <= n < spent@.len() && (#[trigger] spent@[n]).tx_log_entry == Some(id)) && (
            forall|n: int|
                0 <= n < spent@.len() && (#[trigger] spent@[n]).tx_log_entry == Some(id) ==> (
                spent@[n].status == OutputStatus::Spent || spent@[n].status
                    == OutputStatus::Deleted));
            let first_gone = exists|n: int|
                0 <= n < spent@.len() && ((#[trigger] spent@[n]).status == OutputStatus::Spent
                    || spent@[n].status == OutputStatus::Deleted) && commit_of(spent@[n])
                    == commit_of(outputs@[k]);
            &&& r.transactions@[i].spent <==> all_gone || first_gone
            &&& r.transactions@[i].output_commit is Some && r.transactions@[i].output_commit->0@
                == commit_of(outputs@[k])
        }),
{
    let tx = txs@[i];
    let times = times_view(block_times@);
    let known = known_from(
        spent@,
        outputs@,
        times,
        address@,
        info.last_confirmed_height,
        tx.id,
    );
    law_only_received_money_is_shown_as_spent(r.transactions@[i], tx, known);
    law_summary_tells_what_it_goes_by(r.transactions@[i], tx, known);
    law_money_is_gone_with_its_outputs(
        spent@,
        outputs@,
        times,
        address@,
        info.last_confirmed_height,
        tx.id,
        k,
    );
}

/// Received money of one entry with one output in the listings is shown as spent exactly if that
/// output is spent or deleted.
pub proof fn law_history_tells_spent_money_by_its_output(
    txs: Vec<TxRecord>,
    listings: Listings,
    block_times: BlockTimes,
    address: &str,
    info: WalletInfo,
    r: History,
    i: int,
    output: OutputRecord,
)
    requires
        call_ensures(history_at, (&txs, &listings, block_times, address, &info), r),
        0 <= i < txs@.len(),
        txs@[i].tx_type == TxType::TxReceived || txs@[i].tx_type == TxType::TxReceivedMempool
            || txs@[i].tx_type == TxType::ConfirmedCoinbase,
        output.tx_log_entry == Some(txs@[i].id),
        listings.spent is Some && listings.spent->0@ == seq![output],
        listings.outputs is Some && listings.outputs->0@ == seq![output],
    ensures
        match output.status {
            OutputStatus::Unspent | OutputStatus::Unconfirmed | OutputStatus::Locked => {
                !r.transactions@[i].spent
            },
            OutputStatus::Spent | OutputStatus::Deleted => r.transactions@[i].spent,
        },
{
    law_one_output_tells_whether_money_is_spent(
        r.transactions@[i],
        txs@[i],
        output,
        times_view(block_times@),
        address@,
        info.last_confirmed_height,
    );
}

/// An entry's document shows the amount and the fee as they are written, and the names, the
/// direction, the state and whether the money is spent as they are summed up.
pub proof fn law_transaction_document(
    summary: TxSummary,
    amount: &str,
    fee: Option<String>,
    r: serde_json::Value,
)
    requires
        call_ensures(transaction_document, (&summary, amount, &fee), r),
    ensures
        member(json_tree(r), "amount"@) == Some(JsonTree::Text(amount@)),
        fee is Some ==> member(json_tree(r), "fee"@) == Some(JsonTree::Text(fee->0@)),
        fee is None ==> member(json_tree(r), "fee"@) == Some(JsonTree::Null),
        member(json_tree(r), "txid"@) == Some(JsonTree::Text(summary.txid@)),
        member(json_tree(r), "direction"@) == Some(JsonTree::Text(summary.direction@)),
        member(json_tree(r), "status"@) == Some(JsonTree::Text(summary.status@)),
        member(json_tree(r), "timestamp"@) == Some(JsonTree::Int(summary.timestamp as int)),
        member(json_tree(r), "confirmations"@) == Some(
            JsonTree::Int(summary.confirmations as int),
        ),
        member(json_tree(r), "spent"@) == Some(JsonTree::Bool(summary.spent)),
{
    law_documents_show_the_summary(summary, amount@, opt_view(fee));
}

/// An output's document shows the value as it is written, and the output as it is.
pub proof fn law_restored_document(
    output: RestoredOutput,
    amount: &str,
    address: &str,
    r: serde_json::Value,
)
    requires
        call_ensures(restored_document, (&output, amount, address), r),
    ensures
        member(json_tree(r), "amount"@) == Some(JsonTree::Text(amount@)),
        member(json_tree(r), "txid"@) == Some(JsonTree::Text(output.commit@)),
        member(json_tree(r), "to"@) == Some(JsonTree::Text(address@)),
        member(json_tree(r), "height"@) == Some(JsonTree::Int(output.height as int)),
        member(json_tree(r), "spent"@) == Some(JsonTree::Bool(output.spent)),
{
    law_restored_documents_show_the_output(output, amount@, address@);
}

/// A history's documents are as many as it has entries and outputs, entries first, each with the
/// amount that is written for it.
pub proof fn law_history_documents(
    history: History,
    written: Written,
    address: &str,
    r: Vec<serde_json::Value>,
    i: int,
    k: int,
)
    requires
        written.fits(history),
        call_ensures(history_documents, (&history, &written, address), r),
    ensures
        r@.len() == history.transactions@.len() + history.restored@.len(),
        0 <= i < history.transactions@.len() ==> member(json_tree(r@[i]), "amount"@) == Some(
            JsonTree::Text(written.amounts@[i]@),
        ),
        0 <= k < history.restored@.len() ==> member(
            json_tree(r@[history.transactions@.len() + k]),
            "amount"@,
        ) == Some(JsonTree::Text(written.restored_amounts@[k]@)),
{
    let shown = history_trees(history, written, address@);
    assert(trees(r@).len() == shown.len());
    if 0 <= i < history.transactions@.len() {
        assert(trees(r@)[i] == shown[i]);
        law_documents_show_the_summary(
            history.transactions@[i],
            written.amounts@[i]@,
            opt_view(written.fees@[i]),
        );
    }
    if 0 <= k < history.restored@.len() {
        let at = history.transactions@.len() + k;
        assert(trees(r@)[at] == shown[at]);
        law_restored_documents_show_the_output(
            history.restored@[k],
            written.restored_amounts@[k]@,
            address@,
        );
    }
}

/// The balance and what can be spent are what the outputs add up to or, unlisted, what the wallet
/// says without its locked money; and what the wallet says later counts.
pub proof fn law_balances(
    totals: (u64, u64),
    info: WalletInfo,
    listed: (u64, u64),
    unlisted: (u64, u64),
    spendable: u64,
    unlisted_spendable: u64,
    first: (bool, WalletInfo),
    later: (bool, WalletInfo),
    latest: (bool, WalletInfo),
)
    requires
        call_ensures(balances, (Some(totals), &info), listed),
        call_ensures(balances, (None, &info), unlisted),
        call_ensures(spendable_amount, (Some(totals), &info), spendable),
        call_ensures(spendable_amount, (None, &info), unlisted_spendable),
        call_ensures(latest_info, (first, Some(later)), latest),
    ensures
        listed == totals && spendable == totals.1,
        info.total >= info.amount_locked ==> unlisted.0 + info.amount_locked == info.total,
        info.total < info.amount_locked ==> unlisted.0 == 0,
        unlisted.1 == info.amount_currently_spendable && unlisted_spendable == unlisted.1,
        latest.1 == later.1 && (latest.0 <==> first.0 || later.0),
{
}

/// Block times are wanted for every height that an entry or an output has, but for outputs in no
/// block.
pub proof fn law_block_time_heights(
    list: Vec<OutputRecord>,
    txs: Vec<TxRecord>,
    heights: HashSet<u64>,
    height: u64,
)
    requires
        call_ensures(block_time_heights, (&Some(list), &txs), heights),
    ensures
        heights@.contains(height) <==> (exists|i: int|
            0 <= i < txs@.len() && (#[trigger] txs@[i]).confirmation_height == Some(height)) || (
        height > 0 && exists|i: int|
            0 <= i < list@.len() && (#[trigger] list@[i]).height == height),
{
}

/// The replies show what they are about, and say that the request succeeded.
pub proof fn law_replies_show_what_they_are_about(
    latest: (bool, WalletInfo),
    address: String,
    balance: String,
    spendable: String,
    shown: Report,
    transactions: Vec<serde_json::Value>,
    snapshot: String,
    text: &str,
    ready: String,
)
    requires
        call_ensures(report, (latest, address, balance, spendable), shown),
        call_ensures(snapshot_reply, (&shown, transactions), snapshot),
        call_ensures(ensure_reply, (text,), ready),
    ensures
        exists|tree: JsonTree|
            snapshot@ == #[trigger] json_text(tree) && member(tree, "ok"@) == Some(
                JsonTree::Bool(true),
            ) && member(tree, "address"@) == Some(JsonTree::Text(address@)) && member(
                tree,
                "balance"@,
            ) == Some(JsonTree::Text(balance@)) && member(tree, "spendable"@) == Some(
                JsonTree::Text(spendable@),
            ) && member(tree, "lastScannedHeight"@) == Some(
                JsonTree::Int(latest.1.last_confirmed_height as int),
            ) && member(tree, "transactions"@) == Some(JsonTree::Array(trees(transactions@))),
        exists|tree: JsonTree|
            ready@ == #[trigger] json_text(tree) && member(tree, "ok"@) == Some(
                JsonTree::Bool(true),
            ) && member(tree, "address"@) == Some(JsonTree::Text(text@)),
{
    law_snapshots_show_what_is_reported(
        shown,
        latest,
        address,
        balance,
        spendable,
        trees(transactions@),
    );
    law_ready_wallets_show_their_address(text@);
    lemma_ok_is_none_of_the_names();
}

/// The mark of a reply has a name of its own.
proof fn lemma_ok_is_none_of_the_names()
    ensures
        "ok"@ != "address"@,
        "ok"@ != "balance"@,
        "ok"@ != "spendable"@,
        "ok"@ != "lastScannedHeight"@,
        "ok"@ != "transactions"@,
        "ok"@ != "txid"@,
        "ok"@ != "amount"@,
        "ok"@ != "fee"@,
{
    reveal_strlit("ok");
    reveal_strlit("address");
    reveal_strlit("balance");
    reveal_strlit("spendable");
    reveal_strlit("lastScannedHeight");
    reveal_strlit("transactions");
    reveal_strlit("txid");
    reveal_strlit("amount");
    reveal_strlit("fee");
    assert("ok"@.len() == 2 && "address"@.len() == 7 && "balance"@.len() == 7);
    assert("spendable"@.len() == 9 && "lastScannedHeight"@.len() == 17);
    assert("transactions"@.len() == 12 && "txid"@.len() == 4 && "amount"@.len() == 6);
    assert("fee"@.len() == 3);
}

/// The reply to a payment shows where it came from and what was sent, and says that it succeeded.
pub proof fn law_send_reply(address: &str, txid: &str, amount: &str, fee: &str, reply: String)
    requires
        call_ensures(send_reply, (address, txid, amount, fee), reply),
    ensures
        exists|tree: JsonTree|
            reply@ == #[trigger] json_text(tree) && member(tree, "ok"@) == Some(
                JsonTree::Bool(true),
            ) && member(tree, "address"@) == Some(JsonTree::Text(address@)) && member(
                tree,
                "txid"@,
            ) == Some(JsonTree::Text(txid@)) && member(tree, "amount"@) == Some(
                JsonTree::Text(amount@),
            ) && member(tree, "fee"@) == Some(JsonTree::Text(fee@)),
{
    law_replies_show_what_was_sent(address@, txid@, amount@, fee@);
    lemma_ok_is_none_of_the_names();
}

/// A search starts from what there is, asks about all that the fee assumed leaves, assumes each
/// estimate next, and ends with what the last one leaves.
pub proof fn law_max_send(
    spendable: u64,
    fee: u64,
    start: MaxSend,
    search: MaxSend,
    step: MaxStep,
    estimate: u64,
    next: MaxSend,
    after: MaxStep,
)
    requires
        call_ensures(MaxSend::start, (spendable, fee), start),
        search@.wf(),
        call_ensures(MaxSend::step, (&search,), step),
        step is Estimate,
        call_ensures(MaxSend::take_estimate, (search, estimate), next),
        call_ensures(MaxSend::step, (&next,), after),
    ensures
        start@.spendable == spendable && start@.fee == fee && start@.rounds == 0,
        step->Estimate_0 + search@.fee == search@.spendable,
        next@.spendable == search@.spendable && next@.fee == estimate,
        after matches MaxStep::Send(amount) ==> amount > 0 && amount + estimate
            == search@.spendable,
        after matches MaxStep::Estimate(amount) ==> amount + estimate == search@.spendable,
        after matches MaxStep::Short { required, available } ==> required == estimate && available
            == search@.spendable && available <= required,
        estimate == search@.fee ==> after is Send,
        estimate != search@.fee && search@.rounds < 5 && estimate < search@.spendable ==> after
            is Estimate,
        after is Nothing ==> estimate >= search@.spendable,
{
    law_estimates_are_assumed_next(search@, estimate);
}

/// Error texts say what failed and why, to the letter; a late delivery says so, and a server that
/// cannot be reached is told in plain words.
pub proof fn law_error_texts(
    detail: &str,
    stage: Stage,
    text: String,
    lock: String,
    late: String,
    early: String,
    shown: String,
)
    requires
        call_ensures(failure, (stage, detail), text),
        call_ensures(failure, (Stage::OutputLock, detail), lock),
        call_ensures(delivery_failure, (true, detail), late),
        call_ensures(delivery_failure, (false, detail), early),
        call_ensures(sanitize_epicbox_error, (detail,), shown),
    ensures
        text@.len() > detail@.len(),
        text@.skip(text@.len() - detail@.len()) == detail@,
        lock@ == "Epic output lock: "@ + detail@,
        late@ == "Epicbox send timeout after 25s"@,
        early@ == "Epicbox send: "@ + shown@,
        shown@ == detail@ || shown@
            == "Epicbox server is not reachable. Please try again in a moment."@,
{
    law_failures_say_what_failed_and_why(detail@);
    law_late_deliveries_say_so(detail@, detail@);
    reveal_strlit(": ");
    let named = stage_label(stage) + ": "@;
    assert(text@ == named + detail@);
    assert(text@.skip(named.len() as int) =~= detail@);
}

/// A reply without a NUL is handed out to the letter, and one with a NUL never; a success says so
/// and keeps its payload, a failure says so with its code and its error text.
pub proof fn law_replies(
    text: String,
    handed: String,
    payload: serde_json::Value,
    success: String,
    code: &str,
    message: &str,
    failed: String,
    key: Seq<char>,
)
    requires
        call_ensures(c_string, (text,), handed),
        call_ensures(ok, (payload,), success),
        call_ensures(err, (code, message), failed),
    ensures
        !handed@.contains('\0') && !success@.contains('\0') && !failed@.contains('\0'),
        !text@.contains('\0') ==> handed@ == text@,
        exists|tree: JsonTree|
            success@ == #[trigger] json_text(tree) && member(tree, "ok"@) == Some(
                JsonTree::Bool(true),
            ) && (key != "ok"@ ==> member(tree, key) == member(json_tree(payload), key)),
        exists|tree: JsonTree|
            failed@ == #[trigger] json_text(tree) && member(tree, "ok"@) == Some(
                JsonTree::Bool(false),
            ) && member(tree, "code"@) == Some(JsonTree::Text(code@)) && member(tree, "error"@)
                == Some(JsonTree::Text(message@)),
{
    law_reply_tells_success_from_failure(json_tree(payload), code@, message@);
    if key != "ok"@ {
        law_success_keeps_the_payload(json_tree(payload), key);
    }
    assert(success@ == json_text(success_tree(json_tree(payload))));
    assert(failed@ == json_text(error_tree(code@, message@)));
}

/// A request that cannot be taken in is answered with a failure that says why.
pub proof fn law_requests_that_cannot_be_taken_in(message: &str, null: String, broken: String)
    requires
        call_ensures(null_request, (), null),
        call_ensures(utf8_request, (message,), broken),
    ensures
        exists|tree: JsonTree|
            null@ == #[trigger] json_text(tree) && member(tree, "ok"@) == Some(
                JsonTree::Bool(false),
            ) && member(tree, "code"@) == Some(JsonTree::Text("epic-native-null-request"@))
                && member(tree, "error"@) == Some(JsonTree::Text("request pointer is null"@)),
        exists|tree: JsonTree|
            broken@ == #[trigger] json_text(tree) && member(tree, "ok"@) == Some(
                JsonTree::Bool(false),
            ) && member(tree, "code"@) == Some(JsonTree::Text("epic-native-utf8-request"@))
                && member(tree, "error"@) == Some(JsonTree::Text(message@)),
{
    law_reply_tells_success_from_failure(
        JsonTree::Null,
        "epic-native-null-request"@,
        "request pointer is null"@,
    );
    law_reply_tells_success_from_failure(
        JsonTree::Null,
        "epic-native-utf8-request"@,
        message@,
    );
    assert(null@ == json_text(
        error_tree("epic-native-null-request"@, "request pointer is null"@),
    ));
    assert(broken@ == json_text(error_tree("epic-native-utf8-request"@, message@)));
}

/// The number under a key is read from the first line that has the key, and there is none
/// where no line has it.
pub proof fn law_marker_u64(
    text: &str,
    key: &str,
    r: Option<u64>,
    before: Seq<Seq<char>>,
    rest: Seq<char>,
    behind: Seq<Seq<char>>,
)
    requires
        call_ensures(marker_u64, (text, key), r),
        forall|i: int| 0 <= i < before.len() ==> !has_prefix(#[trigger] before[i], key@ + "="@),
    ensures
        lines_of(text@) == before + seq![key@ + "="@ + rest] + behind ==> r == parsed_u64(
            trimmed(rest),
        ),
        lines_of(text@) == before ==> r is None,
{
    law_first_marker_line_decides(text@, key@, before, rest, behind);
}

/// Work starts at its first step, whichever it is.
pub proof fn law_work_starts_at_its_first_step(
    send: SendJob,
    snapshot: SnapshotJob,
    open: OpenJob,
    build: BuildJob,
    order: SendOrder,
    funding: Funding,
)
    requires
        call_ensures(SendJob::start, (), send),
        call_ensures(SnapshotJob::start, (), snapshot),
        call_ensures(OpenJob::start, (), open),
        call_ensures(BuildJob::start, (), build),
        call_ensures(Funding::start, (&order,), funding),
    ensures
        send is Create,
        snapshot is Address,
        open is CreateDirectory,
        build is NodeClient,
        order.amount matches SendAmount::Text(text) ==> funding is Read && funding->Read_0@
            == text@,
        order.amount is Max ==> funding is Ask,
{
}

/// The outputs that no entry accounts for are shown one for one, in the order of the listing.
pub proof fn law_restored_outputs(
    list: Vec<OutputRecord>,
    represented: HashSet<u32>,
    tip_height: u64,
    block_times: BlockTimes,
    r: Vec<RestoredOutput>,
    unlisted: Vec<RestoredOutput>,
    i: int,
)
    requires
        call_ensures(restored_outputs, (&Some(list), &represented, tip_height, &block_times), r),
        call_ensures(restored_outputs, (&None, &represented, tip_height, &block_times), unlisted),
    ensures
        unlisted@.len() == 0,
        r@.len() == unrepresented(list@, represented@).len(),
        0 <= i < r@.len() ==> {
            let output = unrepresented(list@, represented@)[i];
            &&& r@[i].amount == output.value
            &&& r@[i].height == output.height
            &&& r@[i].commit@ == commit_of(output)
            &&& r@[i].spent <==> output.status == OutputStatus::Spent || output.status
                == OutputStatus::Deleted
        },
{
    reveal(Seq::filter);
    if 0 <= i < r@.len() {
        law_restored_outputs_are_shown_as_they_are(
            r@[i],
            unrepresented(list@, represented@)[i],
            tip_height,
            times_view(block_times@),
        );
    }
}

} // verus!
