//! Restoring a wallet from the chain: when to scan, from which block, and the marker file that
//! remembers it.
use vstd::prelude::*;
use crate::failure::{Stage, failure, failure_text, law_failures_say_what_failed_and_why};
use crate::request::{EpicRequest, FilePath, leads_to};
use crate::text::{
    chars_of, decimal, law_decimal_reads_back, lemma_decimal_digits, lemma_line_end, line_end,
    lines, lines_of, parse_u64, parsed_u64, str_view, to_decimal, trim, trimmed, views,
};

verus! {

/// The block to scan from where a request names none.
pub const EPIC_ALTBASE_SUPPORT_START_HEIGHT: u64 = 3_540_000;

/// How many blocks a scan of recent blocks goes back behind what was scanned before.
pub const EPIC_RECENT_RESCAN_BLOCKS: u64 = 30;

/// Where the wallet in `scope` keeps its marker file.
pub fn restore_scan_marker(scope: &str) -> (path: FilePath)
    ensures
        leads_to(path, scope@, seq!["altbase.restore-scan.done"@]),
        path.base@ == scope@,
        path.below@.len() == 1,
        path.below@[0]@ == "altbase.restore-scan.done"@,
{
    let mut below: Vec<String> = Vec::new();
    below.push("altbase.restore-scan.done".to_owned());
    assert(views(below@) =~= seq!["altbase.restore-scan.done"@]);
    FilePath { base: scope.to_owned(), below }
}

/// `s` starts with `prefix`.
pub open spec fn has_prefix(s: Seq<char>, prefix: Seq<char>) -> bool {
    prefix.len() <= s.len() && s.take(prefix.len() as int) == prefix
}

/// What stands behind `prefix` in the first line that starts with it.
pub open spec fn first_behind(lines: Seq<Seq<char>>, prefix: Seq<char>) -> Option<Seq<char>>
    decreases lines.len(),
{
    if lines.len() == 0 {
        None
    } else if has_prefix(lines[0], prefix) {
        Some(lines[0].skip(prefix.len() as int))
    } else {
        first_behind(lines.drop_first(), prefix)
    }
}

/// The number that a marker file holds under a key: the first line of the form `key=number`
/// decides, and white space around the number does not matter.
pub open spec fn marker_value(text: Seq<char>, key: Seq<char>) -> Option<u64> {
    match first_behind(lines_of(text), key + "="@) {
        Some(rest) => parsed_u64(trimmed(rest)),
        None => None,
    }
}

/// The start height in a marker file.
pub open spec fn start_in(text: Seq<char>) -> Option<u64> {
    marker_value(text, "startHeight"@)
}

/// The scanned height in a marker file.
pub open spec fn scanned_in(text: Seq<char>) -> Option<u64> {
    marker_value(text, "scannedHeight"@)
}

/// The text of a marker file.
pub open spec fn marker_text_of(start_height: u64, scanned_height: u64) -> Seq<char> {
    "startHeight="@ + decimal(start_height as nat) + "\nscannedHeight="@ + decimal(
        scanned_height as nat,
    ) + "\n"@
}

/// What stands behind `prefix` in `text`, if it starts with it.
fn behind_prefix(text: &str, prefix: &str) -> (r: Option<String>)
    ensures
        match r {
            Some(rest) => has_prefix(text@, prefix@) && rest@ == text@.skip(prefix@.len() as int),
            None => !has_prefix(text@, prefix@),
        },
{
    let s = chars_of(text);
    let p = chars_of(prefix);
    if p.len() > s.len() {
        return None;
    }
    let mut i: usize = 0;
    while i < p.len()
        invariant
            i <= p.len() <= s.len(),
            s@ == text@,
            p@ == prefix@,
            forall|j: int| 0 <= j < i ==> #[trigger] s@[j] == p@[j],
        decreases p.len() - i,
    {
        if s[i] != p[i] {
            assert(text@.take(p.len() as int)[i as int] != prefix@[i as int]);
            return None;
        }
        i = i + 1;
    }
    assert(text@.take(p.len() as int) =~= prefix@);
    assert(text@.subrange(p.len() as int, s.len() as int) =~= text@.skip(p.len() as int));
    Some(text.substring_char(p.len(), s.len()).to_owned())
}

/// The number that a marker file with this text holds under a key.
pub fn marker_u64(text: &str, key: &str) -> (r: Option<u64>)
    ensures
        r == marker_value(text@, key@),
{
    let prefix = key.to_owned().concat("=");
    let list = lines(text);
    let ghost all = views(list@);
    let mut i: usize = 0;
    assert(all.skip(0) =~= all);
    while i < list.len()
        invariant
            i <= list.len(),
            all == views(list@),
            all == lines_of(text@),
            prefix@ == key@ + "="@,
            first_behind(all, prefix@) == first_behind(all.skip(i as int), prefix@),
        decreases list.len() - i,
    {
        let ghost rest = all.skip(i as int);
        assert(rest[0] == list@[i as int]@);
        assert(rest.drop_first() =~= all.skip(i + 1));
        if let Some(value) = behind_prefix(list[i].as_str(), prefix.as_str()) {
            return parse_u64(trim(value.as_str()));
        }
        i = i + 1;
    }
    assert(all.skip(i as int) =~= Seq::<Seq<char>>::empty());
    None
}

/// The start height in a marker file with this text.
pub fn marker_start_height(marker: &str) -> (r: Option<u64>)
    ensures
        r == start_in(marker@),
{
    marker_u64(marker, "startHeight")
}

/// The scanned height in a marker file with this text.
pub fn marker_scanned_height(marker: &str) -> (r: Option<u64>)
    ensures
        r == scanned_in(marker@),
{
    marker_u64(marker, "scannedHeight")
}

/// The text of a marker file for these heights.
pub fn restore_scan_marker_text(start_height: u64, scanned_height: u64) -> (r: String)
    ensures
        r@ == marker_text_of(start_height, scanned_height),
{
    "startHeight=".to_owned().concat(to_decimal(start_height).as_str()).concat(
        "\nscannedHeight=",
    ).concat(to_decimal(scanned_height).as_str()).concat("\n")
}

/// A text that starts with a line has that line first among its lines.
proof fn lemma_first_line(line: Seq<char>, rest: Seq<char>)
    requires
        forall|i: int| 0 <= i < line.len() ==> #[trigger] line[i] != '\n',
        line.len() > 0 ==> line.last() != '\r',
    ensures
        lines_of(line + "\n"@ + rest) == seq![line] + lines_of(rest),
{
    reveal_strlit("\n");
    let s = line + "\n"@ + rest;
    lemma_line_end(s, 0);
    assert(s[line.len() as int] == '\n');
    assert forall|i: int| 0 <= i < line.len() implies s[i] != '\n' by {
        assert(s[i] == line[i]);
    }
    assert(line_end(s, 0) == line.len());
    assert(s.take(line.len() as int) =~= line);
    assert(s.skip(line.len() as int + 1) =~= rest);
}

/// A number in a marker file's line is read back.
proof fn lemma_number_line(prefix: Seq<char>, n: u64)
    requires
        forall|i: int| 0 <= i < prefix.len() ==> #[trigger] prefix[i] != '\n',
    ensures
        ({
            let line = prefix + decimal(n as nat);
            &&& has_prefix(line, prefix)
            &&& line.skip(prefix.len() as int) == decimal(n as nat)
            &&& forall|i: int| 0 <= i < line.len() ==> #[trigger] line[i] != '\n'
            &&& line.len() > 0
            &&& line.last() != '\r'
        }),
{
    let line = prefix + decimal(n as nat);
    lemma_decimal_digits(n as nat);
    assert(line.take(prefix.len() as int) =~= prefix);
    assert(line.skip(prefix.len() as int) =~= decimal(n as nat));
    assert forall|i: int| 0 <= i < line.len() implies #[trigger] line[i] != '\n' by {
        if i < prefix.len() {
            assert(line[i] == prefix[i]);
        } else {
            assert('0' <= decimal(n as nat)[i - prefix.len()] <= '9');
        }
    }
    assert('0' <= decimal(n as nat).last() <= '9');
}

/// What was written into a marker file is read back from it: both heights, whatever they are.
pub proof fn law_marker_reads_back(start_height: u64, scanned_height: u64)
    ensures
        start_in(marker_text_of(start_height, scanned_height)) == Some(start_height),
        scanned_in(marker_text_of(start_height, scanned_height)) == Some(scanned_height),
{
    reveal_strlit("startHeight");
    reveal_strlit("scannedHeight");
    reveal_strlit("startHeight=");
    reveal_strlit("\nscannedHeight=");
    reveal_strlit("=");
    reveal_strlit("\n");
    let start_key = "startHeight"@ + "="@;
    let scanned_key = "scannedHeight"@ + "="@;
    assert(start_key =~= "startHeight="@);
    assert("\nscannedHeight="@ =~= "\n"@ + scanned_key);
    let first = start_key + decimal(start_height as nat);
    let second = scanned_key + decimal(scanned_height as nat);
    let text = marker_text_of(start_height, scanned_height);
    let nothing = Seq::<char>::empty();
    assert(text =~= first + "\n"@ + (second + "\n"@ + nothing));
    lemma_number_line(start_key, start_height);
    lemma_number_line(scanned_key, scanned_height);
    lemma_first_line(first, second + "\n"@ + nothing);
    lemma_first_line(second, nothing);
    law_decimal_reads_back(start_height);
    law_decimal_reads_back(scanned_height);
    let all = lines_of(text);
    assert(lines_of(nothing) =~= Seq::<Seq<char>>::empty());
    assert(all =~= seq![first, second]);
    assert(first_behind(all, start_key) == Some(decimal(start_height as nat)));
    assert(first[1] == 't');
    assert(!has_prefix(first, scanned_key)) by {
        if has_prefix(first, scanned_key) {
            assert(first.take(scanned_key.len() as int)[1] == scanned_key[1]);
        }
    }
    assert(all.drop_first() =~= seq![second]);
    assert(first_behind(seq![second], scanned_key) == Some(decimal(scanned_height as nat)));
    assert(first_behind(all, scanned_key) == Some(decimal(scanned_height as nat)));
}

/// The block that a restored wallet is scanned from: the one that the request names, if it is
/// not block zero.
pub open spec fn start_height_of(req: EpicRequest) -> u64 {
    match req.restore_start_height {
        Some(height) => if height > 0 {
            height
        } else {
            EPIC_ALTBASE_SUPPORT_START_HEIGHT
        },
        None => EPIC_ALTBASE_SUPPORT_START_HEIGHT,
    }
}

/// The block that a restored wallet is scanned from.
pub fn restore_start_height(req: &EpicRequest) -> (r: u64)
    ensures
        r == start_height_of(*req),
        r > 0,
{
    match req.restore_start_height {
        Some(height) => if height > 0 {
            height
        } else {
            EPIC_ALTBASE_SUPPORT_START_HEIGHT
        },
        None => EPIC_ALTBASE_SUPPORT_START_HEIGHT,
    }
}

/// A scan that is to be made, and the marker to be written behind it.
#[derive(Clone, Copy, Debug, PartialEq, Eq, Structural)]
pub struct ScanOrder {
    /// Whether it is a scan of recent blocks, not the scan of a restored wallet.
    pub recent: bool,
    /// The block to scan from.
    pub from: u64,
    /// The start height in the marker.
    pub marker_start: u64,
    /// The scanned height in the marker.
    pub marker_scanned: u64,
}

/// The state of a scan, by what is to be done next.
pub enum ScanJob {
    /// The old marker is to be removed.
    Remove(ScanOrder),
    /// The chain is to be scanned.
    Scan(ScanOrder),
    /// The wallet is to be marked complete, behind a scan or without one.
    Mark(Option<ScanOrder>),
    /// The new marker is to be written.
    Write(ScanOrder),
    /// All is done; the flag says whether recent blocks were scanned.
    Done(bool),
    /// A step failed, with this error text.
    Failed(String),
}

/// The next thing to do for a scan.
pub enum ScanAction {
    RemoveMarker,
    Scan(u64),
    MarkComplete,
    WriteMarker(String),
    Finish(bool),
    Fail(String),
}

/// The scan that the restoring of a wallet starts with: none if a marker says that it was
/// scanned from that block or an earlier one, or says nothing of where; a new one, in place of
/// what the marker says, if it was scanned from a later block only.
pub open spec fn restore_job(
    start_height: u64,
    marker_exists: bool,
    marker: Option<Seq<char>>,
) -> ScanJob {
    let order = ScanOrder {
        recent: false,
        from: start_height,
        marker_start: start_height,
        marker_scanned: start_height,
    };
    if !marker_exists {
        ScanJob::Scan(order)
    } else {
        match marker {
            Some(text) => match start_in(text) {
                Some(height) => if height <= start_height {
                    ScanJob::Mark(None)
                } else {
                    ScanJob::Remove(order)
                },
                None => ScanJob::Mark(None),
            },
            None => ScanJob::Mark(None),
        }
    }
}

/// The scan that the restoring of a wallet starts with. `marker` is the text of the marker
/// file, if there is one and it can be read.
pub fn ensure_restore_scan(req: &EpicRequest, marker_exists: bool, marker: Option<&str>) -> (job:
    ScanJob)
    ensures
        job == restore_job(start_height_of(*req), marker_exists, str_view(marker)),
{
    let start_height = restore_start_height(req);
    let order = ScanOrder {
        recent: false,
        from: start_height,
        marker_start: start_height,
        marker_scanned: start_height,
    };
    if marker_exists {
        let height = match marker {
            Some(text) => marker_start_height(text),
            None => None,
        };
        match height {
            Some(height) => {
                if height <= start_height {
                    return ScanJob::Mark(None);
                }
            },
            None => {
                return ScanJob::Mark(None);
            },
        }
        return ScanJob::Remove(order);
    }
    ScanJob::Scan(order)
}

/// The block that the wallet counts as restored from: what the marker says, unless that is
/// later than what the request asks for.
pub open spec fn restored_from(start_height: u64, marker: Option<Seq<char>>) -> u64 {
    match marker {
        Some(text) => match start_in(text) {
            Some(height) => if height <= start_height {
                height
            } else {
                start_height
            },
            None => start_height,
        },
        None => start_height,
    }
}

/// The block up to which the wallet was scanned, if the marker says so.
pub open spec fn scanned_before(marker: Option<Seq<char>>) -> Option<u64> {
    match marker {
        Some(text) => scanned_in(text),
        None => None,
    }
}

/// A height, some blocks back; block zero at the least.
pub open spec fn back(height: u64, blocks: u64) -> int {
    if height >= blocks {
        height - blocks
    } else {
        0
    }
}

/// The block that a scan of recent blocks starts from: some blocks behind what was scanned
/// before, or behind the tip where nothing was; but no earlier than what the wallet was restored
/// from, and no later than the tip.
pub open spec fn recent_from(restore_start: u64, scanned: Option<u64>, tip_height: u64) -> int {
    let wanted = if scanned is Some && scanned->0 > restore_start {
        back(scanned->0, EPIC_RECENT_RESCAN_BLOCKS)
    } else {
        back(tip_height, EPIC_RECENT_RESCAN_BLOCKS)
    };
    let bounded = if wanted >= restore_start {
        wanted
    } else {
        restore_start as int
    };
    if bounded <= tip_height {
        bounded
    } else {
        tip_height as int
    }
}

/// The scan of recent blocks that a refresh starts with: none without a tip, or if the wallet
/// was scanned up to the tip.
pub open spec fn recent_job(
    start_height: u64,
    marker: Option<Seq<char>>,
    tip_height: u64,
) -> ScanJob {
    let restore_start = restored_from(start_height, marker);
    let scanned = scanned_before(marker);
    if tip_height == 0 || (scanned is Some && scanned->0 >= tip_height) {
        ScanJob::Done(false)
    } else {
        ScanJob::Scan(
            ScanOrder {
                recent: true,
                from: recent_from(restore_start, scanned, tip_height) as u64,
                marker_start: restore_start,
                marker_scanned: tip_height,
            },
        )
    }
}

/// The scan of recent blocks that a refresh starts with. `marker` is the text of the marker
/// file, if it can be read.
pub fn ensure_recent_restore_scan(req: &EpicRequest, marker: Option<&str>, tip_height: u64) -> (job:
    ScanJob)
    ensures
        job == recent_job(start_height_of(*req), str_view(marker), tip_height),
{
    if tip_height == 0 {
        return ScanJob::Done(false);
    }
    let start_height = restore_start_height(req);
    let marked_start = match marker {
        Some(text) => marker_start_height(text),
        None => None,
    };
    let restore_start: u64 = match marked_start {
        Some(height) => if height <= start_height {
            height
        } else {
            start_height
        },
        None => start_height,
    };
    let previous_scanned = match marker {
        Some(text) => marker_scanned_height(text),
        None => None,
    };
    if let Some(height) = previous_scanned {
        if height >= tip_height {
            return ScanJob::Done(false);
        }
    }
    let wanted: u64 = match previous_scanned {
        Some(height) => if height > restore_start {
            height.saturating_sub(EPIC_RECENT_RESCAN_BLOCKS)
        } else {
            tip_height.saturating_sub(EPIC_RECENT_RESCAN_BLOCKS)
        },
        None => tip_height.saturating_sub(EPIC_RECENT_RESCAN_BLOCKS),
    };
    let bounded: u64 = if wanted >= restore_start {
        wanted
    } else {
        restore_start
    };
    let from: u64 = if bounded <= tip_height {
        bounded
    } else {
        tip_height
    };
    ScanJob::Scan(
        ScanOrder { recent: true, from, marker_start: restore_start, marker_scanned: tip_height },
    )
}

/// The stage that a scan fails in.
pub open spec fn scan_stage(order: ScanOrder) -> Stage {
    if order.recent {
        Stage::RecentScan
    } else {
        Stage::RestoreScan
    }
}

/// One step of a scan: where `job` goes when what it asks for ends in `outcome`.
pub open spec fn scan_step(job: ScanJob, outcome: Result<(), String>, next: ScanJob) -> bool {
    match job {
        // The old marker need not have been there to be removed.
        ScanJob::Remove(order) => next == ScanJob::Scan(order),
        ScanJob::Scan(order) => match outcome {
            Ok(_) => next == ScanJob::Mark(Some(order)),
            Err(detail) => next is Failed && next->Failed_0@ == failure_text(
                scan_stage(order),
                detail@,
            ),
        },
        ScanJob::Mark(behind) => match outcome {
            Ok(_) => match behind {
                Some(order) => next == ScanJob::Write(order),
                None => next == ScanJob::Done(false),
            },
            Err(message) => next is Failed && next->Failed_0@ == message@,
        },
        ScanJob::Write(order) => match outcome {
            Ok(_) => next == ScanJob::Done(order.recent),
            Err(detail) => next is Failed && next->Failed_0@ == failure_text(
                Stage::ScanMarker,
                detail@,
            ),
        },
        ScanJob::Done(_) => next == job,
        ScanJob::Failed(_) => next == job,
    }
}

/// `action` is the next thing to do for a scan.
pub open spec fn asks_to(job: ScanJob, action: ScanAction) -> bool {
    match job {
        ScanJob::Remove(_) => action == ScanAction::RemoveMarker,
        ScanJob::Scan(order) => action == ScanAction::Scan(order.from),
        ScanJob::Mark(_) => action == ScanAction::MarkComplete,
        ScanJob::Write(order) => action is WriteMarker && action->WriteMarker_0@ == marker_text_of(
            order.marker_start,
            order.marker_scanned,
        ),
        ScanJob::Done(recent) => action == ScanAction::Finish(recent),
        ScanJob::Failed(message) => action is Fail && action->Fail_0@ == message@,
    }
}

impl ScanJob {
    /// The next thing to do.
    pub fn action(&self) -> (r: ScanAction)
        ensures
            asks_to(*self, r),
    {
        match self {
            ScanJob::Remove(_) => ScanAction::RemoveMarker,
            ScanJob::Scan(order) => ScanAction::Scan(order.from),
            ScanJob::Mark(_) => ScanAction::MarkComplete,
            ScanJob::Write(order) => ScanAction::WriteMarker(
                restore_scan_marker_text(order.marker_start, order.marker_scanned),
            ),
            ScanJob::Done(recent) => ScanAction::Finish(*recent),
            ScanJob::Failed(message) => ScanAction::Fail(message.clone()),
        }
    }

    /// Where the scan goes when the thing to do ended in `outcome`.
    pub fn advance(self, outcome: Result<(), String>) -> (next: ScanJob)
        ensures
            scan_step(self, outcome, next),
    {
        match self {
            ScanJob::Remove(order) => ScanJob::Scan(order),
            ScanJob::Scan(order) => match outcome {
                Ok(_) => ScanJob::Mark(Some(order)),
                Err(detail) => {
                    let stage = if order.recent {
                        Stage::RecentScan
                    } else {
                        Stage::RestoreScan
                    };
                    ScanJob::Failed(failure(stage, detail.as_str()))
                },
            },
            ScanJob::Mark(behind) => match outcome {
                Ok(_) => match behind {
                    Some(order) => ScanJob::Write(order),
                    None => ScanJob::Done(false),
                },
                Err(message) => ScanJob::Failed(message),
            },
            ScanJob::Write(order) => match outcome {
                Ok(_) => ScanJob::Done(order.recent),
                Err(detail) => ScanJob::Failed(failure(Stage::ScanMarker, detail.as_str())),
            },
            ScanJob::Done(recent) => ScanJob::Done(recent),
            ScanJob::Failed(message) => ScanJob::Failed(message),
        }
    }
}

/// How many steps a scan can still take.
pub open spec fn steps_left(job: ScanJob) -> nat {
    match job {
        ScanJob::Remove(_) => 4,
        ScanJob::Scan(_) => 3,
        ScanJob::Mark(_) => 2,
        ScanJob::Write(_) => 1,
        ScanJob::Done(_) => 0,
        ScanJob::Failed(_) => 0,
    }
}

/// A scan comes to an end, whatever its steps end in.
pub proof fn law_scan_ends(job: ScanJob, outcome: Result<(), String>, next: ScanJob)
    requires
        scan_step(job, outcome, next),
        !(job is Done),
        !(job is Failed),
    ensures
        steps_left(next) < steps_left(job),
{
}

/// A marker is written only behind a scan of just these blocks that succeeded, once the wallet
/// has been marked complete; no failure leads to it.
pub proof fn law_marker_follows_the_scan(
    scanning: ScanJob,
    scanned: Result<(), String>,
    marking: ScanJob,
    marked: Result<(), String>,
    writing: ScanJob,
)
    requires
        scan_step(scanning, scanned, marking),
        scan_step(marking, marked, writing),
        writing is Write,
    ensures
        scanned is Ok,
        marked is Ok,
        scanning == ScanJob::Scan(writing->Write_0),
        marking == ScanJob::Mark(Some(writing->Write_0)),
{
}

/// A restored wallet is not scanned again: with the marker that its scan leaves, a request for
/// the same block or a later one needs no scan. A request for an earlier block has the wallet
/// scanned anew from there.
pub proof fn law_restore_scan_is_not_repeated(start_height: u64, later_start: u64)
    ensures
        start_height <= later_start ==> restore_job(
            later_start,
            true,
            Some(marker_text_of(start_height, start_height)),
        ) == ScanJob::Mark(None),
        later_start < start_height ==> restore_job(
            later_start,
            true,
            Some(marker_text_of(start_height, start_height)),
        ) == ScanJob::Remove(
            ScanOrder {
                recent: false,
                from: later_start,
                marker_start: later_start,
                marker_scanned: later_start,
            },
        ),
{
    law_marker_reads_back(start_height, start_height);
}

/// A scan of recent blocks stays within the chain and behind the wallet's first block, and
/// leaves no gap: it starts at or before the last block scanned, if there is one behind the
/// wallet's first block.
pub proof fn law_recent_scan_leaves_no_gap(
    start_height: u64,
    marker: Option<Seq<char>>,
    tip_height: u64,
)
    ensures
        recent_job(start_height, marker, tip_height) matches ScanJob::Scan(order) ==> {
            let first = restored_from(start_height, marker);
            let scanned = scanned_before(marker);
            &&& order.from <= tip_height
            &&& first <= tip_height ==> first <= order.from
            &&& scanned is Some && scanned->0 > first ==> order.from <= scanned->0
            &&& order.marker_start == first <= start_height
            &&& order.marker_scanned == tip_height
        },
{
}

/// Once recent blocks have been scanned up to the tip, there is nothing to scan until the chain
/// grows: with the marker that the scan leaves, neither scan is due for the same request.
pub proof fn law_recent_scan_is_not_repeated(
    start_height: u64,
    marker: Option<Seq<char>>,
    tip_height: u64,
    later_tip: u64,
)
    requires
        recent_job(start_height, marker, tip_height) is Scan,
        later_tip <= tip_height,
    ensures
        ({
            let order = recent_job(start_height, marker, tip_height)->Scan_0;
            let left = marker_text_of(order.marker_start, order.marker_scanned);
            &&& recent_job(start_height, Some(left), later_tip) == ScanJob::Done(false)
            &&& restore_job(start_height, true, Some(left)) == ScanJob::Mark(None)
        }),
{
    let order = recent_job(start_height, marker, tip_height)->Scan_0;
    law_marker_reads_back(order.marker_start, order.marker_scanned);
}

/// What one request has scanned is scanned for all: with the marker that a scan of recent blocks
/// leaves, no other scan of recent blocks is due up to that tip, whatever block a request starts
/// from.
pub proof fn law_recent_scan_serves_every_request(
    start_height: u64,
    marker: Option<Seq<char>>,
    tip_height: u64,
    other_start: u64,
    later_tip: u64,
)
    requires
        recent_job(start_height, marker, tip_height) is Scan,
        later_tip <= tip_height,
    ensures
        ({
            let order = recent_job(start_height, marker, tip_height)->Scan_0;
            let left = marker_text_of(order.marker_start, order.marker_scanned);
            recent_job(other_start, Some(left), later_tip) == ScanJob::Done(false)
        }),
{
    let order = recent_job(start_height, marker, tip_height)->Scan_0;
    law_marker_reads_back(order.marker_start, order.marker_scanned);
}

/// The first line of a marker file that starts with the key and an equals sign decides, whatever
/// the lines before it are, as long as they start otherwise, and whatever comes behind it.
proof fn lemma_first_line_decides(
    before: Seq<Seq<char>>,
    prefix: Seq<char>,
    rest: Seq<char>,
    behind: Seq<Seq<char>>,
)
    requires
        forall|i: int| 0 <= i < before.len() ==> !has_prefix(#[trigger] before[i], prefix),
    ensures
        first_behind(before + seq![prefix + rest] + behind, prefix) == Some(rest),
        first_behind(before, prefix) is None,
    decreases before.len(),
{
    let line = prefix + rest;
    let all = before + seq![line] + behind;
    if before.len() > 0 {
        let less = before.drop_first();
        assert forall|i: int| 0 <= i < less.len() implies !has_prefix(
            #[trigger] less[i],
            prefix,
        ) by {
            assert(less[i] == before[i + 1]);
        }
        lemma_first_line_decides(less, prefix, rest, behind);
        assert(all[0] == before[0]);
        assert(all.drop_first() =~= less + seq![line] + behind);
    } else {
        assert(all[0] == line);
        assert(line.take(prefix.len() as int) =~= prefix);
        assert(line.skip(prefix.len() as int) =~= rest);
    }
}

/// A line starts with a prefix exactly if it is the prefix and something behind it.
pub proof fn law_prefixes_stand_at_the_start(prefix: Seq<char>, rest: Seq<char>, line: Seq<char>)
    ensures
        has_prefix(prefix + rest, prefix),
        has_prefix(line, prefix) ==> line == prefix + line.skip(prefix.len() as int),
{
    assert((prefix + rest).take(prefix.len() as int) =~= prefix);
    if has_prefix(line, prefix) {
        assert(line =~= line.take(prefix.len() as int) + line.skip(prefix.len() as int));
    }
}

/// The first line of a marker file that has a key decides on its number, whatever stands on the
/// lines before it and behind it; a key that no line has has no number.
pub proof fn law_first_marker_line_decides(
    text: Seq<char>,
    key: Seq<char>,
    before: Seq<Seq<char>>,
    rest: Seq<char>,
    behind: Seq<Seq<char>>,
)
    requires
        forall|i: int| 0 <= i < before.len() ==> !has_prefix(#[trigger] before[i], key + "="@),
    ensures
        lines_of(text) == before + seq![key + "="@ + rest] + behind ==> marker_value(text, key)
            == parsed_u64(trimmed(rest)),
        lines_of(text) == before ==> marker_value(text, key) is None,
        start_in(text) == marker_value(text, "startHeight"@),
        scanned_in(text) == marker_value(text, "scannedHeight"@),
{
    lemma_first_line_decides(before, key + "="@, rest, behind);
}

/// A wallet is restored from the block that the request names, whichever it is but block zero;
/// else from one and the same block.
pub proof fn law_start_height_is_as_asked_for(req: EpicRequest)
    ensures
        req.restore_start_height matches Some(height) ==> (height > 0 ==> start_height_of(req)
            == height) && (height == 0 ==> start_height_of(req) == 3_540_000),
        req.restore_start_height is None ==> start_height_of(req) == 3_540_000,
{
}

/// A restored wallet is scanned: always where it has no marker, and where it has one exactly if
/// the marker says that it was scanned from a later block only. The scan is from the block asked
/// for, and its marker says just that. Elsewhere the wallet is marked complete without a scan.
pub proof fn law_restored_wallets_are_scanned(
    start_height: u64,
    marker_exists: bool,
    marker: Option<Seq<char>>,
)
    ensures
        ({
            let job = restore_job(start_height, marker_exists, marker);
            let later_only = marker matches Some(text) && start_in(text) matches Some(height)
                && height > start_height;
            &&& !marker_exists ==> job is Scan && !job->Scan_0.recent && job->Scan_0.from
                == start_height && job->Scan_0.marker_start == start_height
                && job->Scan_0.marker_scanned == start_height
            &&& marker_exists && later_only ==> job is Remove && !job->Remove_0.recent
                && job->Remove_0.from == start_height && job->Remove_0.marker_start
                == start_height && job->Remove_0.marker_scanned == start_height
            &&& marker_exists && !later_only ==> job == ScanJob::Mark(None)
        }),
{
}

/// Recent blocks are scanned whenever the chain has grown past what was scanned, by however
/// little: there is a scan exactly if there is a tip and the marker holds no scanned height or one
/// below it; and else there is nothing to do.
pub proof fn law_recent_blocks_are_scanned_as_the_chain_grows(
    start_height: u64,
    marker: Option<Seq<char>>,
    tip_height: u64,
)
    ensures
        ({
            let job = recent_job(start_height, marker, tip_height);
            let grown = match marker {
                Some(text) => match scanned_in(text) {
                    Some(height) => height < tip_height,
                    None => true,
                },
                None => true,
            };
            &&& job is Scan <==> tip_height > 0 && grown
            &&& !(job is Scan) ==> job == ScanJob::Done(false)
            &&& job is Scan ==> job->Scan_0.recent && job->Scan_0.marker_scanned == tip_height
        }),
{
}

/// What a wallet counts as restored from never moves up: it is the earlier of what the marker says
/// and what the request asks for.
pub proof fn law_restored_from_the_earlier_block(start_height: u64, marker: Option<Seq<char>>)
    ensures
        restored_from(start_height, marker) <= start_height,
        marker matches Some(text) ==> (start_in(text) matches Some(height) ==> restored_from(
            start_height,
            marker,
        ) <= height && (restored_from(start_height, marker) == height || restored_from(
            start_height,
            marker,
        ) == start_height)),
        (marker is None || start_in(marker->0) is None) ==> restored_from(start_height, marker)
            == start_height,
{
}

/// A scan of recent blocks goes back thirty blocks, no more and no less, behind what was scanned
/// or, where nothing was, behind the tip; only the wallet's first block and the tip cut it short.
pub proof fn law_recent_scan_goes_back_thirty_blocks(
    start_height: u64,
    marker: Option<Seq<char>>,
    tip_height: u64,
)
    requires
        recent_job(start_height, marker, tip_height) is Scan,
    ensures
        ({
            let order = recent_job(start_height, marker, tip_height)->Scan_0;
            let first = restored_from(start_height, marker);
            let base = if marker is Some && scanned_in(marker->0) is Some && scanned_in(
                marker->0,
            )->0 > first {
                scanned_in(marker->0)->0
            } else {
                tip_height
            };
            &&& order.marker_start == first
            &&& first <= tip_height && base >= first + 30 ==> order.from + 30 == base
            &&& first <= tip_height && base < first + 30 ==> order.from == first
            &&& first > tip_height ==> order.from == tip_height
        }),
{
}

/// A scan whose steps succeed goes through them all: behind the scan the wallet is marked, behind
/// that the marker is written, for the same order, and then all is done. Whether an old marker
/// could be removed makes no difference.
pub proof fn law_scans_go_through_all_their_steps(
    order: ScanOrder,
    removed: Result<(), String>,
    scanning: ScanJob,
    marking: ScanJob,
    writing: ScanJob,
    done: ScanJob,
    without: ScanJob,
)
    requires
        call_ensures(ScanJob::advance, (ScanJob::Remove(order), removed), scanning),
        call_ensures(ScanJob::advance, (scanning, Ok(())), marking),
        call_ensures(ScanJob::advance, (marking, Ok(())), writing),
        call_ensures(ScanJob::advance, (writing, Ok(())), done),
        call_ensures(ScanJob::advance, (ScanJob::Mark(None), Ok(())), without),
    ensures
        scanning == ScanJob::Scan(order),
        marking == ScanJob::Mark(Some(order)),
        writing == ScanJob::Write(order),
        done == ScanJob::Done(order.recent),
        without == ScanJob::Done(false),
{
}

/// A step that fails ends the scan, with an error text that says which it was and why; what was
/// done before stays as it is, and no later step undoes an end.
pub proof fn law_failed_steps_end_a_scan(
    job: ScanJob,
    detail: String,
    next: ScanJob,
    ended: ScanJob,
    outcome: Result<(), String>,
    after: ScanJob,
)
    requires
        call_ensures(ScanJob::advance, (job, Err(detail)), next),
        ended is Done || ended is Failed,
        call_ensures(ScanJob::advance, (ended, outcome), after),
    ensures
        job matches ScanJob::Scan(order) ==> next is Failed && next->Failed_0@ == (if order.recent {
            "Epic recent scan: "@
        } else {
            "Epic restore scan: "@
        }) + detail@,
        job is Mark ==> next is Failed && next->Failed_0@ == detail@,
        job is Write ==> next is Failed && next->Failed_0@ == "Epic restore scan marker: "@
            + detail@,
        after == ended,
{
    law_failures_say_what_failed_and_why(detail@);
}

/// What is asked for is what the order says: the scan starts at its block, and what is written
/// into the marker reads back as its heights.
pub proof fn law_scans_do_what_was_ordered(job: ScanJob, action: ScanAction)
    requires
        call_ensures(ScanJob::action, (&job,), action),
    ensures
        job matches ScanJob::Scan(order) ==> action == ScanAction::Scan(order.from),
        job matches ScanJob::Write(order) ==> action is WriteMarker && start_in(
            action->WriteMarker_0@,
        ) == Some(order.marker_start) && scanned_in(action->WriteMarker_0@) == Some(
            order.marker_scanned,
        ),
        job is Remove <==> action is RemoveMarker,
        job is Mark <==> action is MarkComplete,
        job matches ScanJob::Done(recent) ==> action == ScanAction::Finish(recent),
        job matches ScanJob::Failed(message) ==> action is Fail && action->Fail_0@ == message@,
{
    if let ScanJob::Write(order) = job {
        law_marker_reads_back(order.marker_start, order.marker_scanned);
    }
}

} // verus!
