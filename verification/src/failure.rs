//! What went wrong and where: the error texts of the wallet's stages.
use vstd::prelude::*;
use crate::text::{
    contains, law_a_part_is_found_where_it_stands, lowered, occurs_at, occurs_in, to_lower,
};

verus! {

/// A stage of a request that can fail with an error of the wallet, the node or the disk.
#[derive(Clone, Copy, Debug, PartialEq, Eq, Structural)]
pub enum Stage {
    Fee,
    DefaultFee,
    NodeClient,
    WalletInit,
    LifecycleProvider,
    DataDirectory,
    DataDirectoryCreate,
    ConfigCreate,
    WalletRestore,
    WalletOpen,
    Address,
    WalletInstance,
    WalletBatch,
    ScanStatus,
    ScanStatusCommit,
    RestoreScan,
    ScanMarker,
    RecentScan,
    BalanceRefresh,
    TransactionRefresh,
    Amount,
    MaxFeeEstimate,
    TransactionCreate,
    EpicboxSend,
    OutputLock,
}

/// What a stage is called in an error text.
pub open spec fn stage_label(stage: Stage) -> Seq<char> {
    match stage {
        Stage::Fee => "Epic fee"@,
        Stage::DefaultFee => "Epic default fee"@,
        Stage::NodeClient => "Epic node client"@,
        Stage::WalletInit => "Epic wallet init"@,
        Stage::LifecycleProvider => "Epic lifecycle provider"@,
        Stage::DataDirectory => "Epic data directory"@,
        Stage::DataDirectoryCreate => "Epic data directory create"@,
        Stage::ConfigCreate => "Epic config create"@,
        Stage::WalletRestore => "Epic wallet restore"@,
        Stage::WalletOpen => "Epic wallet open"@,
        Stage::Address => "Epic address"@,
        Stage::WalletInstance => "Epic wallet instance"@,
        Stage::WalletBatch => "Epic wallet batch"@,
        Stage::ScanStatus => "Epic restore scan status"@,
        Stage::ScanStatusCommit => "Epic restore scan status commit"@,
        Stage::RestoreScan => "Epic restore scan"@,
        Stage::ScanMarker => "Epic restore scan marker"@,
        Stage::RecentScan => "Epic recent scan"@,
        Stage::BalanceRefresh => "Epic balance refresh"@,
        Stage::TransactionRefresh => "Epic transaction refresh"@,
        Stage::Amount => "Epic amount"@,
        Stage::MaxFeeEstimate => "Epic max fee estimate"@,
        Stage::TransactionCreate => "Epic transaction create"@,
        Stage::EpicboxSend => "Epicbox send"@,
        Stage::OutputLock => "Epic output lock"@,
    }
}

/// The error text of a stage: what the stage is called, a colon and the detail.
pub open spec fn failure_text(stage: Stage, detail: Seq<char>) -> Seq<char> {
    stage_label(stage) + ": "@ + detail
}

/// What a stage is called in an error text.
pub fn label(stage: Stage) -> (r: &'static str)
    ensures
        r@ == stage_label(stage),
{
    match stage {
        Stage::Fee => "Epic fee",
        Stage::DefaultFee => "Epic default fee",
        Stage::NodeClient => "Epic node client",
        Stage::WalletInit => "Epic wallet init",
        Stage::LifecycleProvider => "Epic lifecycle provider",
        Stage::DataDirectory => "Epic data directory",
        Stage::DataDirectoryCreate => "Epic data directory create",
        Stage::ConfigCreate => "Epic config create",
        Stage::WalletRestore => "Epic wallet restore",
        Stage::WalletOpen => "Epic wallet open",
        Stage::Address => "Epic address",
        Stage::WalletInstance => "Epic wallet instance",
        Stage::WalletBatch => "Epic wallet batch",
        Stage::ScanStatus => "Epic restore scan status",
        Stage::ScanStatusCommit => "Epic restore scan status commit",
        Stage::RestoreScan => "Epic restore scan",
        Stage::ScanMarker => "Epic restore scan marker",
        Stage::RecentScan => "Epic recent scan",
        Stage::BalanceRefresh => "Epic balance refresh",
        Stage::TransactionRefresh => "Epic transaction refresh",
        Stage::Amount => "Epic amount",
        Stage::MaxFeeEstimate => "Epic max fee estimate",
        Stage::TransactionCreate => "Epic transaction create",
        Stage::EpicboxSend => "Epicbox send",
        Stage::OutputLock => "Epic output lock",
    }
}

/// The error text of a stage that failed with `detail`.
pub fn failure(stage: Stage, detail: &str) -> (r: String)
    ensures
        r@ == failure_text(stage, detail@),
{
    label(stage).to_owned().concat(": ").concat(detail)
}

/// Whether an error of the Epicbox channel means that the server cannot be reached.
pub open spec fn is_unreachable(text: Seq<char>) -> bool {
    ||| occurs_in("can't connect to the epicbox server"@, lowered(text))
    ||| occurs_in("native-tls"@, lowered(text))
    ||| occurs_in("os error 10060"@, lowered(text))
}

/// What is shown for an error of the Epicbox channel: plain words where the server cannot be
/// reached, else the error itself.
pub open spec fn sanitized(text: Seq<char>) -> Seq<char> {
    if is_unreachable(text) {
        "Epicbox server is not reachable. Please try again in a moment."@
    } else {
        text
    }
}

/// What is shown for an error of the Epicbox channel.
pub fn sanitize_epicbox_error(text: &str) -> (r: String)
    ensures
        r@ == sanitized(text@),
{
    let lower = to_lower(text);
    if contains(lower.as_str(), "can't connect to the epicbox server") || contains(
        lower.as_str(),
        "native-tls",
    ) || contains(lower.as_str(), "os error 10060") {
        return "Epicbox server is not reachable. Please try again in a moment.".to_owned();
    }
    text.to_owned()
}

/// A text without some character holds no part that has this character.
proof fn lemma_part_needs_its_characters(part: Seq<char>, s: Seq<char>, k: int)
    requires
        0 <= k < part.len(),
        forall|i: int| 0 <= i < s.len() ==> #[trigger] s[i] != part[k],
    ensures
        !occurs_in(part, s),
{
    assert forall|at: int| !#[trigger] occurs_at(s, part, at) by {
        if occurs_at(s, part, at) {
            assert(s.subrange(at, at + part.len())[k] == part[k]);
        }
    }
}

/// What is shown never looks like an error of a server that cannot be reached, so that showing it
/// again shows the same.
pub proof fn law_sanitizing_settles(text: Seq<char>)
    ensures
        !is_unreachable(sanitized(text)),
        sanitized(sanitized(text)) == sanitized(text),
{
    if is_unreachable(text) {
        let shown = sanitized(text);
        let low = lowered(shown);
        reveal_strlit("Epicbox server is not reachable. Please try again in a moment.");
        reveal_strlit("can't connect to the epicbox server");
        reveal_strlit("native-tls");
        reveal_strlit("os error 10060");
        assert(shown.len() == 62);
        lemma_part_needs_its_characters("can't connect to the epicbox server"@, low, 3);
        lemma_part_needs_its_characters("native-tls"@, low, 6);
        lemma_part_needs_its_characters("os error 10060"@, low, 9);
    }
}

/// Every error text says in words what failed, and then why, to the letter.
pub proof fn law_failures_say_what_failed_and_why(detail: Seq<char>)
    ensures
        failure_text(Stage::Fee, detail) == "Epic fee: "@ + detail,
        failure_text(Stage::DefaultFee, detail) == "Epic default fee: "@ + detail,
        failure_text(Stage::NodeClient, detail) == "Epic node client: "@ + detail,
        failure_text(Stage::WalletInit, detail) == "Epic wallet init: "@ + detail,
        failure_text(Stage::LifecycleProvider, detail) == "Epic lifecycle provider: "@ + detail,
        failure_text(Stage::DataDirectory, detail) == "Epic data directory: "@ + detail,
        failure_text(Stage::DataDirectoryCreate, detail) == "Epic data directory create: "@
            + detail,
        failure_text(Stage::ConfigCreate, detail) == "Epic config create: "@ + detail,
        failure_text(Stage::WalletRestore, detail) == "Epic wallet restore: "@ + detail,
        failure_text(Stage::WalletOpen, detail) == "Epic wallet open: "@ + detail,
        failure_text(Stage::Address, detail) == "Epic address: "@ + detail,
        failure_text(Stage::WalletInstance, detail) == "Epic wallet instance: "@ + detail,
        failure_text(Stage::WalletBatch, detail) == "Epic wallet batch: "@ + detail,
        failure_text(Stage::ScanStatus, detail) == "Epic restore scan status: "@ + detail,
        failure_text(Stage::ScanStatusCommit, detail) == "Epic restore scan status commit: "@
            + detail,
        failure_text(Stage::RestoreScan, detail) == "Epic restore scan: "@ + detail,
        failure_text(Stage::ScanMarker, detail) == "Epic restore scan marker: "@ + detail,
        failure_text(Stage::RecentScan, detail) == "Epic recent scan: "@ + detail,
        failure_text(Stage::BalanceRefresh, detail) == "Epic balance refresh: "@ + detail,
        failure_text(Stage::TransactionRefresh, detail) == "Epic transaction refresh: "@ + detail,
        failure_text(Stage::Amount, detail) == "Epic amount: "@ + detail,
        failure_text(Stage::MaxFeeEstimate, detail) == "Epic max fee estimate: "@ + detail,
        failure_text(Stage::TransactionCreate, detail) == "Epic transaction create: "@ + detail,
        failure_text(Stage::EpicboxSend, detail) == "Epicbox send: "@ + detail,
        failure_text(Stage::OutputLock, detail) == "Epic output lock: "@ + detail,
{
    reveal_strlit(": ");
    reveal_strlit("Epic fee");
    reveal_strlit("Epic fee: ");
    assert("Epic fee"@ + ": "@ =~= "Epic fee: "@);
    reveal_strlit("Epic default fee");
    reveal_strlit("Epic default fee: ");
    assert("Epic default fee"@ + ": "@ =~= "Epic default fee: "@);
    reveal_strlit("Epic node client");
    reveal_strlit("Epic node client: ");
    assert("Epic node client"@ + ": "@ =~= "Epic node client: "@);
    reveal_strlit("Epic wallet init");
    reveal_strlit("Epic wallet init: ");
    assert("Epic wallet init"@ + ": "@ =~= "Epic wallet init: "@);
    reveal_strlit("Epic lifecycle provider");
    reveal_strlit("Epic lifecycle provider: ");
    assert("Epic lifecycle provider"@ + ": "@ =~= "Epic lifecycle provider: "@);
    reveal_strlit("Epic data directory");
    reveal_strlit("Epic data directory: ");
    assert("Epic data directory"@ + ": "@ =~= "Epic data directory: "@);
    reveal_strlit("Epic data directory create");
    reveal_strlit("Epic data directory create: ");
    assert("Epic data directory create"@ + ": "@ =~= "Epic data directory create: "@);
    reveal_strlit("Epic config create");
    reveal_strlit("Epic config create: ");
    assert("Epic config create"@ + ": "@ =~= "Epic config create: "@);
    reveal_strlit("Epic wallet restore");
    reveal_strlit("Epic wallet restore: ");
    assert("Epic wallet restore"@ + ": "@ =~= "Epic wallet restore: "@);
    reveal_strlit("Epic wallet open");
    reveal_strlit("Epic wallet open: ");
    assert("Epic wallet open"@ + ": "@ =~= "Epic wallet open: "@);
    reveal_strlit("Epic address");
    reveal_strlit("Epic address: ");
    assert("Epic address"@ + ": "@ =~= "Epic address: "@);
    reveal_strlit("Epic wallet instance");
    reveal_strlit("Epic wallet instance: ");
    assert("Epic wallet instance"@ + ": "@ =~= "Epic wallet instance: "@);
    reveal_strlit("Epic wallet batch");
    reveal_strlit("Epic wallet batch: ");
    assert("Epic wallet batch"@ + ": "@ =~= "Epic wallet batch: "@);
    reveal_strlit("Epic restore scan status");
    reveal_strlit("Epic restore scan status: ");
    assert("Epic restore scan status"@ + ": "@ =~= "Epic restore scan status: "@);
    reveal_strlit("Epic restore scan status commit");
    reveal_strlit("Epic restore scan status commit: ");
    assert("Epic restore scan status commit"@ + ": "@ =~= "Epic restore scan status commit: "@);
    reveal_strlit("Epic restore scan");
    reveal_strlit("Epic restore scan: ");
    assert("Epic restore scan"@ + ": "@ =~= "Epic restore scan: "@);
    reveal_strlit("Epic restore scan marker");
    reveal_strlit("Epic restore scan marker: ");
    assert("Epic restore scan marker"@ + ": "@ =~= "Epic restore scan marker: "@);
    reveal_strlit("Epic recent scan");
    reveal_strlit("Epic recent scan: ");
    assert("Epic recent scan"@ + ": "@ =~= "Epic recent scan: "@);
    reveal_strlit("Epic balance refresh");
    reveal_strlit("Epic balance refresh: ");
    assert("Epic balance refresh"@ + ": "@ =~= "Epic balance refresh: "@);
    reveal_strlit("Epic transaction refresh");
    reveal_strlit("Epic transaction refresh: ");
    assert("Epic transaction refresh"@ + ": "@ =~= "Epic transaction refresh: "@);
    reveal_strlit("Epic amount");
    reveal_strlit("Epic amount: ");
    assert("Epic amount"@ + ": "@ =~= "Epic amount: "@);
    reveal_strlit("Epic max fee estimate");
    reveal_strlit("Epic max fee estimate: ");
    assert("Epic max fee estimate"@ + ": "@ =~= "Epic max fee estimate: "@);
    reveal_strlit("Epic transaction create");
    reveal_strlit("Epic transaction create: ");
    assert("Epic transaction create"@ + ": "@ =~= "Epic transaction create: "@);
    reveal_strlit("Epicbox send");
    reveal_strlit("Epicbox send: ");
    assert("Epicbox send"@ + ": "@ =~= "Epicbox send: "@);
    reveal_strlit("Epic output lock");
    reveal_strlit("Epic output lock: ");
    assert("Epic output lock"@ + ": "@ =~= "Epic output lock: "@);
}

/// An error that has one of the three marks of a server that cannot be reached in it, in capitals
/// or not, is shown in plain words; any other is shown as it is, to the letter.
pub proof fn law_only_unreachable_servers_are_reworded(
    before: Seq<char>,
    mark: Seq<char>,
    behind: Seq<char>,
    text: Seq<char>,
)
    requires
        ({
            ||| lowered(mark) == "can't connect to the epicbox server"@
            ||| lowered(mark) == "native-tls"@
            ||| lowered(mark) == "os error 10060"@
        }),
    ensures
        sanitized(before + mark + behind)
            == "Epicbox server is not reachable. Please try again in a moment."@,
        sanitized(text) != text ==> exists|from: int, to: int|
            0 <= from < to <= text.len() && {
                let part = lowered(#[trigger] text.subrange(from, to));
                ||| part == "can't connect to the epicbox server"@
                ||| part == "native-tls"@
                ||| part == "os error 10060"@
            },
{
    reveal_strlit("can't connect to the epicbox server");
    reveal_strlit("native-tls");
    reveal_strlit("os error 10060");
    let whole = before + mark + behind;
    let low = lowered(mark);
    assert(lowered(whole) =~= lowered(before) + low + lowered(behind));
    law_a_part_is_found_where_it_stands(lowered(before), low, lowered(behind), whole);
    if sanitized(text) != text {
        let part = if occurs_in("can't connect to the epicbox server"@, lowered(text)) {
            "can't connect to the epicbox server"@
        } else if occurs_in("native-tls"@, lowered(text)) {
            "native-tls"@
        } else {
            "os error 10060"@
        };
        let at = choose|at: int| #[trigger] occurs_at(lowered(text), part, at);
        let n = part.len() as int;
        assert(lowered(text.subrange(at, at + n)) =~= lowered(text).subrange(at, at + n));
    }
}

} // verus!
