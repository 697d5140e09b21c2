//! The outputs of a wallet: balances, and what is known of each transaction's outputs.
use vstd::prelude::*;
use vstd::hash_set::StringHashSet;
use std::collections::{HashMap, HashSet};
use crate::text::views;

verus! {

/// The state of an output.
#[derive(Clone, Copy, Debug, PartialEq, Eq, Structural)]
pub enum OutputStatus {
    Unconfirmed,
    Unspent,
    Locked,
    Spent,
    Deleted,
}

/// What a balance needs to know of an output.
#[derive(Clone, Copy, Debug, PartialEq, Eq, Structural)]
pub struct BalanceEntry {
    pub status: OutputStatus,
    pub value: u64,
    /// Whether the wallet finds it eligible to be spent, with one confirmation, at the height
    /// that the balance is taken at.
    pub eligible: bool,
}

/// An output, as the wallet lists it.
pub struct OutputRecord {
    /// The commitment that the wallet stored with the output, in hexadecimal.
    pub stored_commit: Option<String>,
    /// The commitment of the output itself, in hexadecimal.
    pub commit_hex: String,
    pub status: OutputStatus,
    pub value: u64,
    pub height: u64,
    /// The transaction that the output belongs to.
    pub tx_log_entry: Option<u32>,
}

/// Whether an output counts towards the balance.
pub open spec fn is_held(entry: BalanceEntry) -> bool {
    entry.status == OutputStatus::Unspent || entry.status == OutputStatus::Unconfirmed
}

/// Whether an output counts towards what can be spent.
pub open spec fn is_spendable(entry: BalanceEntry) -> bool {
    entry.status == OutputStatus::Unspent && entry.eligible
}

/// The value of all outputs that count towards the balance.
pub open spec fn held_value(entries: Seq<BalanceEntry>) -> nat
    decreases entries.len(),
{
    if entries.len() == 0 {
        0
    } else {
        held_value(entries.drop_last()) + if is_held(entries.last()) {
            entries.last().value as nat
        } else {
            0
        }
    }
}

/// The value of all outputs that can be spent.
pub open spec fn spendable_value(entries: Seq<BalanceEntry>) -> nat
    decreases entries.len(),
{
    if entries.len() == 0 {
        0
    } else {
        spendable_value(entries.drop_last()) + if is_spendable(entries.last()) {
            entries.last().value as nat
        } else {
            0
        }
    }
}

/// A sum, held at the largest amount there is.
pub open spec fn capped(n: nat) -> u64 {
    if n <= u64::MAX {
        n as u64
    } else {
        u64::MAX
    }
}

/// The balance and what can be spent of it, out of the outputs; nothing if they could not be
/// listed.
pub fn output_totals(entries: &Option<Vec<BalanceEntry>>) -> (r: Option<(u64, u64)>)
    ensures
        match *entries {
            Some(list) => r == Some((capped(held_value(list@)), capped(spendable_value(list@)))),
            None => r is None,
        },
{
    let list = match entries {
        Some(list) => list,
        None => {
            return None;
        },
    };
    let mut total: u64 = 0;
    let mut spendable: u64 = 0;
    let mut i: usize = 0;
    while i < list.len()
        invariant
            i <= list.len(),
            total == capped(held_value(list@.take(i as int))),
            spendable == capped(spendable_value(list@.take(i as int))),
        decreases list.len() - i,
    {
        let entry = list[i];
        assert(list@.take(i + 1).drop_last() =~= list@.take(i as int));
        match entry.status {
            OutputStatus::Unspent => {
                total = total.saturating_add(entry.value);
                if entry.eligible {
                    spendable = spendable.saturating_add(entry.value);
                }
            },
            OutputStatus::Unconfirmed => {
                total = total.saturating_add(entry.value);
            },
            OutputStatus::Locked => {},
            OutputStatus::Spent | OutputStatus::Deleted => {},
        }
        i = i + 1;
    }
    assert(list@.take(i as int) =~= list@);
    Some((total, spendable))
}

/// What can be spent is never more than the balance.
pub proof fn law_spendable_within_balance(entries: Seq<BalanceEntry>)
    ensures
        spendable_value(entries) <= held_value(entries),
        capped(spendable_value(entries)) <= capped(held_value(entries)),
    decreases entries.len(),
{
    if entries.len() > 0 {
        law_spendable_within_balance(entries.drop_last());
    }
}

/// Both totals are what an output adds to those of the others.
proof fn lemma_totals_without(entries: Seq<BalanceEntry>, i: int)
    requires
        0 <= i < entries.len(),
    ensures
        held_value(entries) == held_value(entries.remove(i)) + held_value(seq![entries[i]]),
        spendable_value(entries) == spendable_value(entries.remove(i)) + spendable_value(
            seq![entries[i]],
        ),
    decreases entries.len(),
{
    let one = seq![entries[i]];
    assert(one.drop_last() =~= Seq::<BalanceEntry>::empty());
    assert(held_value(one.drop_last()) == 0 && spendable_value(one.drop_last()) == 0);
    if i == entries.len() - 1 {
        assert(entries.remove(i) =~= entries.drop_last());
    } else {
        lemma_totals_without(entries.drop_last(), i);
        assert(entries.remove(i).drop_last() =~= entries.drop_last().remove(i));
        assert(entries.remove(i).last() == entries.last());
    }
}

/// The order of the outputs does not change the balance or what can be spent.
pub proof fn law_totals_do_not_depend_on_the_order(a: Seq<BalanceEntry>, b: Seq<BalanceEntry>)
    requires
        a.to_multiset() == b.to_multiset(),
    ensures
        held_value(a) == held_value(b),
        spendable_value(a) == spendable_value(b),
    decreases a.len(),
{
    broadcast use vstd::seq_lib::group_to_multiset_ensures;

    assert(a.len() == a.to_multiset().len() && b.len() == b.to_multiset().len());
    if a.len() > 0 {
        let last = a.len() - 1;
        assert(a.to_multiset().contains(a[last])) by {
            assert(a.contains(a[last]));
        }
        assert(b.contains(a[last]));
        let i = choose|i: int| 0 <= i < b.len() && b[i] == a[last];
        lemma_totals_without(a, last);
        lemma_totals_without(b, i);
        assert(a.remove(last).to_multiset() =~= b.remove(i).to_multiset());
        law_totals_do_not_depend_on_the_order(a.remove(last), b.remove(i));
    }
}

/// The balance does not depend on the height that it is taken at: which outputs are eligible to be
/// spent there makes no difference to it.
pub proof fn law_balance_does_not_depend_on_the_height(a: Seq<BalanceEntry>, b: Seq<BalanceEntry>)
    requires
        a.len() == b.len(),
        forall|i: int|
            0 <= i < a.len() ==> (#[trigger] a[i]).status == b[i].status && a[i].value
                == b[i].value,
    ensures
        held_value(a) == held_value(b),
    decreases a.len(),
{
    if a.len() > 0 {
        assert(a.last().status == b.last().status);
        law_balance_does_not_depend_on_the_height(a.drop_last(), b.drop_last());
    }
}

/// Outputs that are locked or gone change neither the balance nor what can be spent: both are
/// the same without them.
pub proof fn law_totals_leave_out_what_is_locked_or_gone(entries: Seq<BalanceEntry>)
    ensures
        held_value(entries.filter(|entry: BalanceEntry| is_held(entry))) == held_value(entries),
        spendable_value(entries.filter(|entry: BalanceEntry| is_held(entry))) == spendable_value(
            entries,
        ),
    decreases entries.len(),
{
    let held = |entry: BalanceEntry| is_held(entry);
    reveal(Seq::filter);
    if entries.len() > 0 {
        law_totals_leave_out_what_is_locked_or_gone(entries.drop_last());
        if is_held(entries.last()) {
            let rest = entries.drop_last().filter(held);
            assert(entries.filter(held) == rest.push(entries.last()));
            assert(rest.push(entries.last()).drop_last() =~= rest);
        }
    }
}

/// The commitment that an output goes by.
pub open spec fn commit_of(output: OutputRecord) -> Seq<char> {
    match output.stored_commit {
        Some(commit) => commit@,
        None => output.commit_hex@,
    }
}

/// Whether an output is gone.
pub open spec fn is_spent(output: OutputRecord) -> bool {
    output.status == OutputStatus::Spent || output.status == OutputStatus::Deleted
}

/// The commitment that an output goes by.
pub fn output_commit(output: &OutputRecord) -> (commit: String)
    ensures
        commit@ == commit_of(*output),
{
    match &output.stored_commit {
        Some(commit) => commit.clone(),
        None => output.commit_hex.clone(),
    }
}

/// Whether an output is gone.
pub fn output_spent(output: &OutputRecord) -> (r: bool)
    ensures
        r == is_spent(*output),
{
    match output.status {
        OutputStatus::Spent | OutputStatus::Deleted => true,
        _ => false,
    }
}

/// The outputs of a listing; none if they could not be listed.
pub open spec fn listed(outputs: Option<Vec<OutputRecord>>) -> Seq<OutputRecord> {
    match outputs {
        Some(list) => list@,
        None => Seq::empty(),
    }
}

/// The commitments of the outputs that are gone.
pub open spec fn spent_commits_of(outputs: Seq<OutputRecord>) -> Set<Seq<char>> {
    Set::new(
        |commit: Seq<char>|
            exists|i: int|
                0 <= i < outputs.len() && is_spent(#[trigger] outputs[i]) && commit_of(outputs[i])
                    == commit,
    )
}

/// Whether a transaction has an output in a listing.
pub open spec fn has_output(outputs: Seq<OutputRecord>, tx_id: u32) -> bool {
    exists|i: int| 0 <= i < outputs.len() && (#[trigger] outputs[i]).tx_log_entry == Some(tx_id)
}

/// Whether every output of a transaction in a listing is gone.
pub open spec fn all_outputs_spent(outputs: Seq<OutputRecord>, tx_id: u32) -> bool {
    forall|i: int|
        0 <= i < outputs.len() && (#[trigger] outputs[i]).tx_log_entry == Some(tx_id) ==> is_spent(
            outputs[i],
        )
}

/// For each transaction with outputs, whether they are all gone; and the commitments of all
/// outputs that are gone. Both are empty if the outputs could not be listed.
pub fn spent_outputs_by_tx(outputs: &Option<Vec<OutputRecord>>) -> (r: (
    HashMap<u32, bool>,
    StringHashSet,
))
    ensures
        forall|id: u32| #[trigger] r.0@.contains_key(id) <==> has_output(listed(*outputs), id),
        forall|id: u32|
            r.0@.contains_key(id) ==> (#[trigger] r.0@[id] <==> all_outputs_spent(
                listed(*outputs),
                id,
            )),
        r.1@ =~= spent_commits_of(listed(*outputs)),
{
    let mut spent_commits = StringHashSet::new();
    let mut spent_by_tx: HashMap<u32, bool> = HashMap::new();
    let list = match outputs {
        Some(list) => list,
        None => {
            return (spent_by_tx, spent_commits);
        },
    };
    let mut i: usize = 0;
    while i < list.len()
        invariant
            i <= list.len(),
            forall|id: u32|
                #[trigger] spent_by_tx@.contains_key(id) <==> has_output(list@.take(i as int), id),
            forall|id: u32|
                spent_by_tx@.contains_key(id) ==> (#[trigger] spent_by_tx@[id]
                    <==> all_outputs_spent(list@.take(i as int), id)),
            spent_commits@ =~= spent_commits_of(list@.take(i as int)),
        decreases list.len() - i,
    {
        let output = &list[i];
        let ghost before = list@.take(i as int);
        let ghost after = list@.take(i + 1);
        let ghost spent_before = spent_by_tx@;
        assert(after =~= before.push(*output));
        let gone = output_spent(output);
        if gone {
            spent_commits.insert(output_commit(output));
        }
        proof {
            lemma_spent_commits_push(before, *output);
        }
        if let Some(tx_id) = output.tx_log_entry {
            let all_gone = match spent_by_tx.get(&tx_id) {
                Some(all_gone) => *all_gone && gone,
                None => gone,
            };
            spent_by_tx.insert(tx_id, all_gone);
        }
        proof {
            assert forall|id: u32|
                #[trigger] spent_by_tx@.contains_key(id) <==> has_output(after, id) by {
                lemma_outputs_push(before, *output, id);
            }
            assert forall|id: u32| spent_by_tx@.contains_key(id) implies (
            #[trigger] spent_by_tx@[id] <==> all_outputs_spent(after, id)) by {
                lemma_outputs_push(before, *output, id);
                if !spent_before.contains_key(id) {
                    assert(!has_output(before, id));
                    assert(all_outputs_spent(before, id));
                }
            }
        }
        i = i + 1;
    }
    assert(list@.take(i as int) =~= list@);
    (spent_by_tx, spent_commits)
}

/// How the outputs of a transaction change with one more output in the listing.
proof fn lemma_outputs_push(outputs: Seq<OutputRecord>, output: OutputRecord, tx_id: u32)
    ensures
        has_output(outputs.push(output), tx_id) <==> has_output(outputs, tx_id)
            || output.tx_log_entry == Some(tx_id),
        all_outputs_spent(outputs.push(output), tx_id) <==> all_outputs_spent(outputs, tx_id) && (
        output.tx_log_entry == Some(tx_id) ==> is_spent(output)),
{
    let more = outputs.push(output);
    assert(more[outputs.len() as int] == output);
    assert forall|i: int| 0 <= i < outputs.len() implies #[trigger] more[i] == outputs[i] by {}
    if has_output(outputs, tx_id) {
        let i = choose|i: int|
            0 <= i < outputs.len() && (#[trigger] outputs[i]).tx_log_entry == Some(tx_id);
        assert(more[i] == outputs[i]);
    }
    if all_outputs_spent(more, tx_id) {
        assert forall|i: int|
            0 <= i < outputs.len() && (#[trigger] outputs[i]).tx_log_entry == Some(
                tx_id,
            ) implies is_spent(outputs[i]) by {
            assert(more[i] == outputs[i]);
        }
    }
}

/// How the commitments of the outputs that are gone change with one more output.
proof fn lemma_spent_commits_push(outputs: Seq<OutputRecord>, output: OutputRecord)
    ensures
        spent_commits_of(outputs.push(output)) =~= if is_spent(output) {
            spent_commits_of(outputs).insert(commit_of(output))
        } else {
            spent_commits_of(outputs)
        },
{
    let more = outputs.push(output);
    assert(more[outputs.len() as int] == output);
    assert forall|commit: Seq<char>|
        spent_commits_of(outputs).contains(commit) implies #[trigger] spent_commits_of(
        more,
    ).contains(commit) by {
        let i = choose|i: int|
            0 <= i < outputs.len() && is_spent(#[trigger] outputs[i]) && commit_of(outputs[i])
                == commit;
        assert(more[i] == outputs[i]);
    }
    assert forall|commit: Seq<char>| #[trigger]
        spent_commits_of(more).contains(commit) implies spent_commits_of(outputs).contains(commit)
        || (is_spent(output) && commit_of(output) == commit) by {
        let i = choose|i: int|
            0 <= i < more.len() && is_spent(#[trigger] more[i]) && commit_of(more[i]) == commit;
        if i < outputs.len() {
            assert(more[i] == outputs[i]);
        }
    }
}

/// The commitments of a transaction's outputs in a listing, in order.
pub open spec fn commits_of_tx(outputs: Seq<OutputRecord>, tx_id: u32) -> Seq<Seq<char>>
    decreases outputs.len(),
{
    if outputs.len() == 0 {
        Seq::empty()
    } else {
        let before = commits_of_tx(outputs.drop_last(), tx_id);
        if outputs.last().tx_log_entry == Some(tx_id) {
            before.push(commit_of(outputs.last()))
        } else {
            before
        }
    }
}

/// The heights of the outputs in a listing that are in a block.
pub open spec fn heights_of(outputs: Seq<OutputRecord>) -> Set<u64> {
    Set::new(
        |height: u64|
            height > 0 && exists|i: int|
                0 <= i < outputs.len() && (#[trigger] outputs[i]).height == height,
    )
}

/// A transaction without outputs in a listing has no commitments there.
pub proof fn lemma_no_commits(outputs: Seq<OutputRecord>, tx_id: u32)
    requires
        !has_output(outputs, tx_id),
    ensures
        commits_of_tx(outputs, tx_id).len() == 0,
    decreases outputs.len(),
{
    if outputs.len() > 0 {
        let before = outputs.drop_last();
        assert(outputs.last() == outputs[outputs.len() - 1]);
        assert(!has_output(before, tx_id)) by {
            if has_output(before, tx_id) {
                let i = choose|i: int|
                    0 <= i < before.len() && (#[trigger] before[i]).tx_log_entry == Some(tx_id);
                assert(outputs[i].tx_log_entry == Some(tx_id));
            }
        }
        lemma_no_commits(before, tx_id);
    }
}

/// For each transaction with outputs, their commitments in the order of the listing; and the
/// heights of all outputs that are in a block. Both are empty if the outputs could not be
/// listed.
pub fn output_commits_and_heights_by_tx(outputs: &Option<Vec<OutputRecord>>) -> (r: (
    HashMap<u32, Vec<String>>,
    HashSet<u64>,
))
    ensures
        forall|id: u32| #[trigger] r.0@.contains_key(id) <==> has_output(listed(*outputs), id),
        forall|id: u32|
            r.0@.contains_key(id) ==> views((#[trigger] r.0@[id])@) == commits_of_tx(
                listed(*outputs),
                id,
            ),
        r.1@ =~= heights_of(listed(*outputs)),
{
    let mut commits: HashMap<u32, Vec<String>> = HashMap::new();
    let mut heights: HashSet<u64> = HashSet::new();
    let list = match outputs {
        Some(list) => list,
        None => {
            return (commits, heights);
        },
    };
    let mut i: usize = 0;
    while i < list.len()
        invariant
            i <= list.len(),
            forall|id: u32|
                #[trigger] commits@.contains_key(id) <==> has_output(list@.take(i as int), id),
            forall|id: u32|
                commits@.contains_key(id) ==> views((#[trigger] commits@[id])@) == commits_of_tx(
                    list@.take(i as int),
                    id,
                ),
            heights@ =~= heights_of(list@.take(i as int)),
        decreases list.len() - i,
    {
        let output = &list[i];
        let ghost before = list@.take(i as int);
        let ghost after = list@.take(i + 1);
        let ghost commits_before = commits@;
        let ghost heights_before = heights@;
        assert(after =~= before.push(*output));
        assert(after.drop_last() =~= before);
        if output.height > 0 {
            heights.insert(output.height);
        }
        proof {
            lemma_heights_push(before, *output);
        }
        if let Some(tx_id) = output.tx_log_entry {
            let commit = output_commit(output);
            let ghost shown = commit@;
            let list_of_tx = commits.entry(tx_id).or_insert(Vec::new());
            let ghost old_list = list_of_tx@;
            list_of_tx.push(commit);
            assert(views(old_list.push(commit)) =~= views(old_list).push(shown));
            assert(commits@[tx_id]@ == old_list.push(commit));
            proof {
                if !commits_before.contains_key(tx_id) {
                    lemma_no_commits(before, tx_id);
                    assert(views(old_list) =~= commits_of_tx(before, tx_id));
                }
            }
        }
        proof {
            assert forall|id: u32|
                #[trigger] commits@.contains_key(id) <==> has_output(after, id) by {
                lemma_outputs_push(before, *output, id);
            }
            assert forall|id: u32| commits@.contains_key(id) implies views(
                (#[trigger] commits@[id])@,
            ) == commits_of_tx(after, id) by {
                if output.tx_log_entry != Some(id) {
                    assert(commits_before.contains_key(id));
                    assert(commits@[id] == commits_before[id]);
                }
            }
        }
        i = i + 1;
    }
    assert(list@.take(i as int) =~= list@);
    (commits, heights)
}

/// How the heights change with one more output in the listing.
proof fn lemma_heights_push(outputs: Seq<OutputRecord>, output: OutputRecord)
    ensures
        heights_of(outputs.push(output)) =~= if output.height > 0 {
            heights_of(outputs).insert(output.height)
        } else {
            heights_of(outputs)
        },
{
    let more = outputs.push(output);
    assert(more[outputs.len() as int] == output);
    assert forall|height: u64|
        heights_of(outputs).contains(height) implies #[trigger] heights_of(more).contains(
        height,
    ) by {
        let i = choose|i: int|
            0 <= i < outputs.len() && (#[trigger] outputs[i]).height == height;
        assert(more[i] == outputs[i]);
    }
    assert forall|height: u64| #[trigger]
        heights_of(more).contains(height) implies heights_of(outputs).contains(height) || (
    output.height > 0 && output.height == height) by {
        let i = choose|i: int| 0 <= i < more.len() && (#[trigger] more[i]).height == height;
        if i < outputs.len() {
            assert(more[i] == outputs[i]);
        }
    }
}

/// Each output counts by its state: one that is not spent or not yet confirmed adds its value to
/// the balance, one that is locked or gone adds nothing; and of the first only those that are
/// eligible add to what can be spent.
pub proof fn law_outputs_count_by_their_state(entries: Seq<BalanceEntry>, entry: BalanceEntry)
    ensures
        held_value(Seq::empty()) == 0,
        spendable_value(Seq::empty()) == 0,
        match entry.status {
            OutputStatus::Unspent => held_value(entries.push(entry)) == held_value(entries)
                + entry.value && spendable_value(entries.push(entry)) == spendable_value(entries) + (
            if entry.eligible {
                entry.value as int
            } else {
                0
            }),
            OutputStatus::Unconfirmed => held_value(entries.push(entry)) == held_value(entries)
                + entry.value && spendable_value(entries.push(entry)) == spendable_value(entries),
            OutputStatus::Locked | OutputStatus::Spent | OutputStatus::Deleted => held_value(
                entries.push(entry),
            ) == held_value(entries) && spendable_value(entries.push(entry)) == spendable_value(
                entries,
            ),
        },
{
    assert(entries.push(entry).drop_last() =~= entries);
}

/// A sum is given as it is, unless it is more than there can be: then it is the most there can be.
pub proof fn law_sums_are_exact_where_they_fit(n: nat)
    ensures
        n <= u64::MAX ==> capped(n) == n,
        n > u64::MAX ==> capped(n) == u64::MAX,
{
}

/// Which outputs are gone, state by state: those that are spent or deleted, and none that is
/// unspent, unconfirmed or locked.
pub proof fn law_outputs_are_gone_by_their_state(output: OutputRecord)
    ensures
        match output.status {
            OutputStatus::Spent | OutputStatus::Deleted => is_spent(output),
            OutputStatus::Unspent | OutputStatus::Unconfirmed | OutputStatus::Locked => !is_spent(
                output,
            ),
        },
{
}

/// No output that counts towards the balance is gone.
pub proof fn law_money_in_the_balance_is_not_gone(entry: BalanceEntry, output: OutputRecord)
    requires
        entry.status == output.status,
    ensures
        !(is_held(entry) && is_spent(output)),
        is_spent(output) ==> held_value(seq![entry]) == 0 && spendable_value(seq![entry]) == 0,
{
    law_outputs_count_by_their_state(Seq::empty(), entry);
    assert(Seq::<BalanceEntry>::empty().push(entry) =~= seq![entry]);
}

/// An output goes by the commitment that was stored with it, to the letter, and by its own where
/// none was.
pub proof fn law_stored_commitments_come_first(output: OutputRecord)
    ensures
        output.stored_commit matches Some(commit) ==> commit_of(output) == commit@,
        output.stored_commit is None ==> commit_of(output) == output.commit_hex@,
{
}

/// The commitments of a transaction are those of its outputs and of no others, in the order of
/// the listing.
pub proof fn law_commitments_follow_the_listing(
    outputs: Seq<OutputRecord>,
    output: OutputRecord,
    tx_id: u32,
)
    ensures
        commits_of_tx(Seq::empty(), tx_id) == Seq::<Seq<char>>::empty(),
        output.tx_log_entry == Some(tx_id) ==> commits_of_tx(outputs.push(output), tx_id)
            == commits_of_tx(outputs, tx_id) + seq![commit_of(output)],
        output.tx_log_entry != Some(tx_id) ==> commits_of_tx(outputs.push(output), tx_id)
            == commits_of_tx(outputs, tx_id),
{
    assert(outputs.push(output).drop_last() =~= outputs);
    assert(commits_of_tx(outputs, tx_id).push(commit_of(output)) =~= commits_of_tx(outputs, tx_id)
        + seq![commit_of(output)]);
    assert(commits_of_tx(Seq::empty(), tx_id) =~= Seq::<Seq<char>>::empty());
}

/// The first commitment of a transaction is that of its first output in the listing.
pub proof fn law_first_commitment_is_of_the_first_output(
    outputs: Seq<OutputRecord>,
    tx_id: u32,
    k: int,
)
    requires
        0 <= k < outputs.len(),
        outputs[k].tx_log_entry == Some(tx_id),
        forall|i: int| 0 <= i < k ==> (#[trigger] outputs[i]).tx_log_entry != Some(tx_id),
    ensures
        commits_of_tx(outputs, tx_id).len() > 0,
        commits_of_tx(outputs, tx_id)[0] == commit_of(outputs[k]),
    decreases outputs.len(),
{
    let before = outputs.drop_last();
    if k < before.len() {
        assert forall|i: int| 0 <= i < k implies (#[trigger] before[i]).tx_log_entry != Some(
            tx_id,
        ) by {
            assert(before[i] == outputs[i]);
        }
        law_first_commitment_is_of_the_first_output(before, tx_id, k);
    } else {
        assert(!has_output(before, tx_id)) by {
            if has_output(before, tx_id) {
                let i = choose|i: int|
                    0 <= i < before.len() && (#[trigger] before[i]).tx_log_entry == Some(tx_id);
                assert(outputs[i].tx_log_entry == Some(tx_id));
            }
        }
        lemma_no_commits(before, tx_id);
    }
}

/// The commitments of the outputs that are gone: each is that of a spent or deleted output, and
/// every such output's is among them.
pub proof fn law_gone_commitments_are_of_gone_outputs(outputs: Seq<OutputRecord>, commit: Seq<char>)
    ensures
        spent_commits_of(outputs).contains(commit) <==> exists|i: int|
            0 <= i < outputs.len() && ((#[trigger] outputs[i]).status == OutputStatus::Spent
                || outputs[i].status == OutputStatus::Deleted) && commit_of(outputs[i]) == commit,
{
}

/// All outputs of a transaction are gone exactly if none of them is unspent, unconfirmed or
/// locked; one live output is enough for it not to be spent.
pub proof fn law_one_live_output_is_enough(outputs: Seq<OutputRecord>, tx_id: u32, i: int)
    requires
        0 <= i < outputs.len(),
        outputs[i].tx_log_entry == Some(tx_id),
    ensures
        has_output(outputs, tx_id),
        (outputs[i].status == OutputStatus::Unspent || outputs[i].status
            == OutputStatus::Unconfirmed || outputs[i].status == OutputStatus::Locked)
            ==> !all_outputs_spent(outputs, tx_id),
        !all_outputs_spent(outputs, tx_id) ==> exists|k: int|
            0 <= k < outputs.len() && (#[trigger] outputs[k]).tx_log_entry == Some(tx_id)
                && outputs[k].status != OutputStatus::Spent && outputs[k].status
                != OutputStatus::Deleted,
{
}

/// The heights of a listing are those of its outputs, but for block zero.
pub proof fn law_heights_are_of_outputs_in_blocks(outputs: Seq<OutputRecord>, i: int, height: u64)
    ensures
        0 <= i < outputs.len() && outputs[i].height > 0 ==> heights_of(outputs).contains(
            outputs[i].height,
        ),
        heights_of(outputs).contains(height) ==> height > 0 && exists|k: int|
            0 <= k < outputs.len() && (#[trigger] outputs[k]).height == height,
{
}

} // verus!
