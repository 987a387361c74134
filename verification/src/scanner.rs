//! The decisions of a cancellable directory scan, as a state machine: the
//! caller walks the directory tree and hands over each entry; the scanner says
//! what to do with it.

use vstd::prelude::*;
use crate::listing::ArchiveInfo;
use crate::text::{chars_of, ends_with_fold, has_suffix_fold};

verus! {

/// Where the inspection of one candidate file stands.
#[derive(Debug, Clone, Copy, PartialEq, Eq, Structural)]
pub enum ScanStatus {
    Pending,
    Supported,
    Unsupported,
    Error,
}

impl ScanStatus {
    /// The name under which the status is reported.
    pub fn name(&self) -> (s: &'static str)
        ensures
            s@ == match *self {
                ScanStatus::Pending => "Pending"@,
                ScanStatus::Supported => "Supported"@,
                ScanStatus::Unsupported => "Unsupported"@,
                ScanStatus::Error => "Error"@,
            },
    {
        match self {
            ScanStatus::Pending => "Pending",
            ScanStatus::Supported => "Supported",
            ScanStatus::Unsupported => "Unsupported",
            ScanStatus::Error => "Error",
        }
    }
}

/// What a scan reports of one candidate file.
#[derive(Debug, Clone)]
pub struct ScanResult {
    pub path: String,
    pub info: Option<ArchiveInfo>,
    pub error: Option<String>,
    pub status: ScanStatus,
}

impl ScanResult {
    /// A pending result holds neither record nor error; a finished one holds
    /// exactly one of them, and its status says which and whether the reader
    /// can open the archive.
    pub open spec fn well_formed(&self) -> bool {
        match self.status {
            ScanStatus::Pending => self.info is None && self.error is None,
            ScanStatus::Supported => self.error is None && self.info is Some
                && self.info.unwrap().unsupported_reason is None,
            ScanStatus::Unsupported => self.error is None && self.info is Some
                && self.info.unwrap().unsupported_reason is Some,
            ScanStatus::Error => self.info is None && self.error is Some,
        }
    }

    /// The result for a file that has not been inspected yet.
    pub fn pending(path: String) -> (r: ScanResult)
        ensures
            r.path == path,
            r.info is None,
            r.error is None,
            r.status == ScanStatus::Pending,
            r.well_formed(),
    {
        ScanResult { path, info: None, error: None, status: ScanStatus::Pending }
    }

    /// The result for a file whose inspection gave `outcome`.
    pub fn from_outcome(path: String, outcome: Result<ArchiveInfo, String>) -> (r: ScanResult)
        ensures
            r.path == path,
            r.well_formed(),
            match outcome {
                Ok(info) => r.info == Some(info) && r.error is None && r.status == (
                if info.unsupported_reason is None {
                    ScanStatus::Supported
                } else {
                    ScanStatus::Unsupported
                }),
                Err(e) => r.info is None && r.error == Some(e) && r.status == ScanStatus::Error,
            },
    {
        match outcome {
            Ok(info) => {
                let status = if info.unsupported_reason.is_none() {
                    ScanStatus::Supported
                } else {
                    ScanStatus::Unsupported
                };
                ScanResult { path, info: Some(info), error: None, status }
            },
            Err(e) => ScanResult { path, info: None, error: Some(e), status: ScanStatus::Error },
        }
    }
}

/// One entry that the walk of a directory tree hands over.
#[derive(Debug, Clone)]
pub enum WalkEntry {
    /// An entry that could not be read.
    Unreadable,
    /// An entry with its file name, and whether it is a regular file.
    Found { name: String, is_file: bool },
}

/// The mathematical value of a `WalkEntry`.
pub ghost enum WalkEntryView {
    Unreadable,
    Found { name: Seq<char>, is_file: bool },
}

impl View for WalkEntry {
    type V = WalkEntryView;

    open spec fn view(&self) -> WalkEntryView {
        match *self {
            WalkEntry::Unreadable => WalkEntryView::Unreadable,
            WalkEntry::Found { name, is_file } => WalkEntryView::Found { name: name@, is_file },
        }
    }
}

/// What the scan does with one entry.
#[derive(Debug, Clone, Copy, PartialEq, Eq, Structural)]
pub enum ScanAction {
    /// The entry is hidden: pass over it and all below it.
    Prune,
    /// Cancellation was requested: report it and end the scan.
    Stop,
    /// Nothing to do for this entry.
    Skip,
    /// A candidate: report the running count, inspect the file, report the
    /// result.
    Inspect(usize),
}

/// The kind of a `ScanAction`, without the count.
pub enum Decision {
    Prune,
    Stop,
    Skip,
    Inspect,
}

/// A hidden name begins with a dot.
pub open spec fn is_hidden_name(name: Seq<char>) -> bool {
    name.len() > 0 && name[0] == '.'
}

/// A candidate name has the extension cbr, cbz, rar or zip, in any case,
/// after a stem that is not empty.
pub open spec fn is_candidate_name(name: Seq<char>) -> bool {
    name.len() > 4 && (ends_with_fold(name, ".cbr"@) || ends_with_fold(name, ".cbz"@)
        || ends_with_fold(name, ".rar"@) || ends_with_fold(name, ".zip"@))
}

/// Whether an entry is a hidden one.
pub open spec fn is_hidden_entry(e: WalkEntryView) -> bool {
    match e {
        WalkEntryView::Found { name, is_file } => is_hidden_name(name),
        WalkEntryView::Unreadable => false,
    }
}

/// Whether an entry is a regular file with a candidate name.
pub open spec fn is_candidate_entry(e: WalkEntryView) -> bool {
    match e {
        WalkEntryView::Found { name, is_file } => is_file && is_candidate_name(name),
        WalkEntryView::Unreadable => false,
    }
}

/// What the scan decides for an entry, given whether cancellation had been
/// requested when the entry came up. Hidden entries are passed over before
/// the request is looked at.
pub open spec fn decide(cancelled: bool, e: WalkEntryView) -> Decision {
    if is_hidden_entry(e) {
        Decision::Prune
    } else if cancelled {
        Decision::Stop
    } else if is_candidate_entry(e) {
        Decision::Inspect
    } else {
        Decision::Skip
    }
}

/// Whether a file or directory name marks its entry as hidden.
pub fn is_hidden(name: &str) -> (r: bool)
    ensures
        r == is_hidden_name(name@),
{
    let chars = chars_of(name);
    chars.len() > 0 && chars[0] == '.'
}

/// Whether a file name marks a candidate for inspection.
pub fn is_candidate(name: &str) -> (r: bool)
    ensures
        r == is_candidate_name(name@),
{
    let chars = chars_of(name);
    if chars.len() <= 4 {
        return false;
    }
    let cbr = chars_of(".cbr");
    let cbz = chars_of(".cbz");
    let rar = chars_of(".rar");
    let zip = chars_of(".zip");
    has_suffix_fold(chars.as_slice(), cbr.as_slice()) || has_suffix_fold(
        chars.as_slice(),
        cbz.as_slice(),
    ) || has_suffix_fold(chars.as_slice(), rar.as_slice()) || has_suffix_fold(
        chars.as_slice(),
        zip.as_slice(),
    )
}

/// The state of one scan: how many candidates it has found.
#[derive(Debug, Clone, Copy)]
pub struct Scanner {
    found: usize,
}

impl Scanner {
    /// The number of candidates found so far.
    pub closed spec fn count(&self) -> nat {
        self.found as nat
    }

    /// A scan that has found nothing yet.
    pub fn new() -> (s: Scanner)
        ensures
            s.count() == 0,
    {
        Scanner { found: 0 }
    }

    /// The number of candidates found so far.
    pub fn found(&self) -> (n: usize)
        ensures
            n == self.count(),
    {
        self.found
    }

    /// Takes the next entry of the walk, with the state of the cancellation
    /// request at that moment, and says what to do with it. Only a candidate
    /// raises the count, by one, and its action carries the new count.
    pub fn step(&mut self, cancelled: bool, entry: &WalkEntry) -> (action: ScanAction)
        requires
            old(self).count() < usize::MAX,
        ensures
            match decide(cancelled, entry@) {
                Decision::Prune => action == ScanAction::Prune && final(self).count() == old(
                    self,
                ).count(),
                Decision::Stop => action == ScanAction::Stop && final(self).count() == old(
                    self,
                ).count(),
                Decision::Skip => action == ScanAction::Skip && final(self).count() == old(
                    self,
                ).count(),
                Decision::Inspect => final(self).count() == old(self).count() + 1 && action
                    == ScanAction::Inspect((old(self).count() + 1) as usize),
            },
    {
        match entry {
            WalkEntry::Found { name, is_file } => {
                if is_hidden(name.as_str()) {
                    ScanAction::Prune
                } else if cancelled {
                    ScanAction::Stop
                } else if *is_file && is_candidate(name.as_str()) {
                    self.found = self.found + 1;
                    ScanAction::Inspect(self.found)
                } else {
                    ScanAction::Skip
                }
            },
            WalkEntry::Unreadable => {
                if cancelled {
                    ScanAction::Stop
                } else {
                    ScanAction::Skip
                }
            },
        }
    }
}

/// One step of a walk as the scan sees it: the entry, and whether
/// cancellation had been requested when it came up.
pub ghost struct WalkItem {
    pub cancelled: bool,
    pub entry: WalkEntryView,
}

/// What a scan reports to its caller.
pub ghost enum ScanEvent {
    /// The running count of candidates.
    Progress(nat),
    /// The result for the entry at this index of the walk.
    Report(int),
    /// The scan was cancelled.
    Cancelled,
    /// The walk came to its end.
    Complete,
}

/// The events of a scan over the entries from index `i` on, when `count`
/// candidates were found before.
pub open spec fn events_from(items: Seq<WalkItem>, i: int, count: nat) -> Seq<ScanEvent>
    decreases items.len() - i,
{
    if i < 0 || i >= items.len() {
        seq![ScanEvent::Complete]
    } else {
        match decide(items[i].cancelled, items[i].entry) {
            Decision::Stop => seq![ScanEvent::Cancelled],
            Decision::Inspect => seq![ScanEvent::Progress(count + 1), ScanEvent::Report(i)]
                + events_from(items, i + 1, count + 1),
            _ => events_from(items, i + 1, count),
        }
    }
}

/// The events of a whole scan.
pub open spec fn scan_events(items: Seq<WalkItem>) -> Seq<ScanEvent> {
    events_from(items, 0, 0)
}

/// The number of entries from index `i` on that the scan inspects when it is
/// never cancelled.
pub open spec fn candidates_from(items: Seq<WalkItem>, i: int) -> nat
    decreases items.len() - i,
{
    if i < 0 || i >= items.len() {
        0
    } else if !is_hidden_entry(items[i].entry) && is_candidate_entry(items[i].entry) {
        1 + candidates_from(items, i + 1)
    } else {
        candidates_from(items, i + 1)
    }
}

/// The event at position `2 * k`.
pub open spec fn even_event(ev: Seq<ScanEvent>, k: int) -> ScanEvent {
    ev[2 * k]
}

/// The event at position `2 * k + 1`.
pub open spec fn odd_event(ev: Seq<ScanEvent>, k: int) -> ScanEvent {
    ev[2 * k + 1]
}

/// A scan that is never cancelled reports, for each of its N candidates in
/// turn, the running count and then the result, with counts that rise by one
/// from the first, and after them the end of the walk, once.
pub proof fn uncancelled_scan_reports_all(items: Seq<WalkItem>, i: int, count: nat)
    requires
        0 <= i <= items.len(),
        forall|j: int| i <= j < items.len() ==> !(#[trigger] items[j]).cancelled,
    ensures
        ({
            let ev = events_from(items, i, count);
            let n = candidates_from(items, i);
            &&& ev.len() == 2 * n + 1
            &&& ev.last() == ScanEvent::Complete
            &&& forall|k: int|
                0 <= k < n ==> #[trigger] even_event(ev, k) == ScanEvent::Progress(
                    (count + k + 1) as nat,
                )
            &&& forall|k: int| 0 <= k < n ==> #[trigger] odd_event(ev, k) is Report
        }),
    decreases items.len() - i,
{
    if i < items.len() {
        let ev = events_from(items, i, count);
        let n = candidates_from(items, i);
        assert(!items[i].cancelled);
        match decide(items[i].cancelled, items[i].entry) {
            Decision::Inspect => {
                uncancelled_scan_reports_all(items, i + 1, count + 1);
                let rest = events_from(items, i + 1, count + 1);
                let head = seq![ScanEvent::Progress(count + 1), ScanEvent::Report(i)];
                assert(ev == head + rest);
                assert(ev.last() == rest.last());
                assert forall|k: int| 0 <= k < n implies #[trigger] even_event(ev, k)
                    == ScanEvent::Progress((count + k + 1) as nat) by {
                    if k > 0 {
                        assert(even_event(ev, k) == even_event(rest, k - 1));
                    }
                }
                assert forall|k: int| 0 <= k < n implies #[trigger] odd_event(ev, k) is Report by {
                    if k > 0 {
                        assert(odd_event(ev, k) == odd_event(rest, k - 1));
                    }
                }
            },
            _ => {
                uncancelled_scan_reports_all(items, i + 1, count);
            },
        }
    }
}

/// When cancellation is requested before the first entry that is not hidden
/// comes up, the scan reports the cancellation and nothing else.
pub proof fn cancelled_scan_reports_only_cancellation(
    items: Seq<WalkItem>,
    i: int,
    first: int,
    count: nat,
)
    requires
        0 <= i <= first < items.len(),
        !is_hidden_entry(items[first].entry),
        forall|j: int| i <= j <= first ==> (#[trigger] items[j]).cancelled,
    ensures
        events_from(items, i, count) == seq![ScanEvent::Cancelled],
    decreases first - i,
{
    assert(items[i].cancelled);
    if is_hidden_entry(items[i].entry) {
        cancelled_scan_reports_only_cancellation(items, i + 1, first, count);
    }
}

/// A hidden entry is passed over whatever its name ends in, and no event of a
/// scan reports one.
pub proof fn hidden_entries_never_reported(items: Seq<WalkItem>, i: int, count: nat)
    requires
        0 <= i <= items.len(),
    ensures
        forall|c: bool, e: WalkEntryView|
            is_hidden_entry(e) ==> #[trigger] decide(c, e) == Decision::Prune,
        forall|k: int|
            0 <= k < events_from(items, i, count).len() ==> (match #[trigger] events_from(
                items,
                i,
                count,
            )[k] {
                ScanEvent::Report(j) => i <= j < items.len() && !is_hidden_entry(
                    items[j].entry,
                ),
                _ => true,
            }),
    decreases items.len() - i,
{
    if i < items.len() {
        let ev = events_from(items, i, count);
        match decide(items[i].cancelled, items[i].entry) {
            Decision::Stop => {},
            Decision::Inspect => {
                hidden_entries_never_reported(items, i + 1, count + 1);
                let rest = events_from(items, i + 1, count + 1);
                assert forall|k: int| 0 <= k < ev.len() implies (match #[trigger] ev[k] {
                    ScanEvent::Report(j) => i <= j < items.len() && !is_hidden_entry(
                        items[j].entry,
                    ),
                    _ => true,
                }) by {
                    if k >= 2 {
                        assert(ev[k] == rest[k - 2]);
                    }
                }
            },
            _ => {
                hidden_entries_never_reported(items, i + 1, count);
            },
        }
    }
}

} // verus!
