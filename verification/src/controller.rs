//! The download controller: one cancellable transfer at a time.
//!
//! The controller decides; it performs no input or output itself. Its caller
//! opens the destination file, runs the transfer and removes a partial file,
//! and tells the controller what came of each.

use vstd::prelude::*;
use vstd::string::*;
use crate::entry::Entry;
use crate::filename::{destination_name, destination_of};
use crate::progress::{percent, percent_of};
use crate::text::{decimal_text, push_decimal};

verus! {

/// Where the controller stands.
#[derive(Clone, Copy, Debug, PartialEq, Eq, Structural)]
pub enum Phase {
    /// No download has been asked for, or the last outcome has been shown.
    Idle,
    /// A download was accepted; its destination file is not open yet.
    Starting,
    /// The transfer is under way.
    Active,
    /// The transfer ended and the file is whole.
    Completed,
    /// The transfer ended after the user had asked to cancel it.
    Cancelled,
    /// The transfer ended with an error.
    Failed,
}

/// What can go wrong with a download.
#[derive(Clone, Copy, Debug, PartialEq, Eq, Structural)]
pub enum DownloadError {
    /// A download was asked for in an empty list.
    NoSelection,
    /// The entry names no source URL.
    NoDownloadUrl,
    /// The destination file could not be opened for writing.
    FileCreateError,
    /// The transfer failed, and not because the user cancelled it.
    TransferError,
    /// The partial file could not be removed after a cancel.
    CleanupError,
}

/// What the caller is to do for an accepted download: open `file` for
/// writing and transfer `url` into it.
pub struct TransferPlan {
    pub url: String,
    pub file: String,
}

/// What one bounded unit of transfer work reported.
pub enum TransferEvent {
    /// The transfer goes on.
    Pending,
    /// The transfer ended without an error.
    Finished,
    /// The transfer ended with an error, described by the text.
    Failed(String),
}

/// What the caller is to do after a tick.
#[derive(Clone, Copy, Debug, PartialEq, Eq, Structural)]
pub enum TickAction {
    /// Go on with the transfer.
    Continue,
    /// The session is over; nothing is left to do but to show the outcome.
    Settled,
    /// The session was cancelled: remove the partial destination file.
    RemovePartial,
}

/// The controller as a mathematical value.
pub struct ControllerView {
    pub phase: Phase,
    /// The destination file of the session.
    pub file: Seq<char>,
    /// The size of the source in bytes; zero while it is unknown.
    pub total: nat,
    /// The bytes transferred so far.
    pub so_far: nat,
    /// Whether the user has asked to cancel the session.
    pub cancel_requested: bool,
    /// The status message: the last fact, not a log.
    pub status: Option<Seq<char>>,
    /// The most recent failure.
    pub failure: Option<DownloadError>,
}

impl ControllerView {
    /// Whether a session exists that has not reached its outcome.
    pub open spec fn in_flight(self) -> bool {
        self.phase == Phase::Starting || self.phase == Phase::Active
    }

    /// Whether the session has reached its outcome.
    pub open spec fn settled(self) -> bool {
        self.phase == Phase::Completed || self.phase == Phase::Cancelled || self.phase
            == Phase::Failed
    }

    /// The progress as a percentage, while the size of the source is known.
    pub open spec fn percent(self) -> Option<nat> {
        percent_of(self.total, self.so_far)
    }
}

/// The status message of a session that has been accepted.
pub open spec fn starting_text(file: Seq<char>) -> Seq<char> {
    "Downloading "@ + file + "... (press 'x' to cancel)"@
}

/// The status message of a session under way. The percentage is left out
/// while the size of the source is unknown.
pub open spec fn downloading_text(file: Seq<char>, percent: Option<nat>) -> Seq<char> {
    match percent {
        Some(p) => "Downloading "@ + file + "... "@ + decimal_text(p)
            + "% (press 'x' to cancel)"@,
        None => starting_text(file),
    }
}

/// The status message of a completed session.
pub open spec fn completed_text(file: Seq<char>) -> Seq<char> {
    "Downloaded "@ + file
}

/// The status message of a cancelled session.
pub open spec fn cancelled_text(file: Seq<char>) -> Seq<char> {
    "Download of "@ + file + " cancelled"@
}

/// The status message of a session whose transfer failed.
pub open spec fn failed_text(file: Seq<char>, reason: Seq<char>) -> Seq<char> {
    "Error downloading "@ + file + ": "@ + reason
}

/// The status message of a cancelled session whose partial file is still
/// there.
pub open spec fn cleanup_text(file: Seq<char>, reason: Seq<char>) -> Seq<char> {
    cancelled_text(file) + "; the partial file could not be removed: "@ + reason
}

/// The status message of a download that could not be started.
pub open spec fn error_text(reason: Seq<char>) -> Seq<char> {
    "Error: "@ + reason
}

/// The controller before any download.
pub open spec fn initial() -> ControllerView {
    ControllerView {
        phase: Phase::Idle,
        file: Seq::empty(),
        total: 0,
        so_far: 0,
        cancel_requested: false,
        status: None,
        failure: None,
    }
}

/// The controller after a download that was refused for `error`, with the
/// reason as its status message.
pub open spec fn refused(v: ControllerView, error: DownloadError, reason: Seq<char>)
    -> ControllerView {
    ControllerView {
        phase: Phase::Idle,
        total: 0,
        so_far: 0,
        cancel_requested: false,
        status: Some(error_text(reason)),
        failure: Some(error),
        ..v
    }
}

/// The controller after a download into `file` was accepted.
pub open spec fn accepted(file: Seq<char>) -> ControllerView {
    ControllerView {
        phase: Phase::Starting,
        file,
        total: 0,
        so_far: 0,
        cancel_requested: false,
        status: Some(starting_text(file)),
        failure: None,
    }
}

/// Why a download of `entry` is refused, if it is: there is no entry, or it
/// names no source URL.
pub open spec fn start_error(entry: Option<&Entry>) -> Option<DownloadError> {
    match entry {
        None => Some(DownloadError::NoSelection),
        Some(e) => if e.candidate_urls().len() == 0 {
            Some(DownloadError::NoDownloadUrl)
        } else {
            None
        },
    }
}

/// The controller after a download was asked for, for the entry at `index`
/// if there is one.
pub open spec fn start_result(v: ControllerView, entry: Option<&Entry>, index: nat)
    -> ControllerView {
    match entry {
        None => refused(v, DownloadError::NoSelection, "No episode selected"@),
        Some(e) => if e.candidate_urls().len() == 0 {
            refused(v, DownloadError::NoDownloadUrl, "No download URL found"@)
        } else {
            accepted(destination_of(e.title_text(), index))
        },
    }
}

/// The controller after the destination file was opened (`failure` is
/// nothing) or could not be opened.
pub open spec fn opened_result(v: ControllerView, failure: Option<Seq<char>>) -> ControllerView {
    match failure {
        None => ControllerView { phase: Phase::Active, ..v },
        Some(reason) => refused(v, DownloadError::FileCreateError, reason),
    }
}

/// The controller after a progress report. A report without a total leaves
/// the progress as it was.
pub open spec fn observed(v: ControllerView, total: nat, so_far: nat) -> ControllerView {
    if total > 0 {
        ControllerView { total, so_far, ..v }
    } else {
        v
    }
}

/// The controller after the session ended in `phase`, with its progress
/// cleared.
pub open spec fn ended(
    v: ControllerView,
    phase: Phase,
    status: Seq<char>,
    failure: Option<DownloadError>,
) -> ControllerView {
    ControllerView { phase, total: 0, so_far: 0, status: Some(status), failure, ..v }
}

/// The controller after a tick of an active session that read the progress
/// `(total, so_far)` and saw the transfer report `event`.
pub open spec fn tick_result(v: ControllerView, total: nat, so_far: nat, event: TransferEvent)
    -> ControllerView {
    match event {
        TransferEvent::Pending => {
            let w = observed(v, total, so_far);
            ControllerView { status: Some(downloading_text(w.file, w.percent())), ..w }
        },
        TransferEvent::Finished => if v.cancel_requested {
            ended(v, Phase::Cancelled, cancelled_text(v.file), None)
        } else {
            ended(v, Phase::Completed, completed_text(v.file), None)
        },
        TransferEvent::Failed(reason) => if v.cancel_requested {
            ended(v, Phase::Cancelled, cancelled_text(v.file), None)
        } else {
            ended(
                v,
                Phase::Failed,
                failed_text(v.file, reason@),
                Some(DownloadError::TransferError),
            )
        },
    }
}

/// What the caller is to do after that tick.
pub open spec fn tick_action(v: ControllerView, event: TransferEvent) -> TickAction {
    match event {
        TransferEvent::Pending => TickAction::Continue,
        _ => if v.cancel_requested {
            TickAction::RemovePartial
        } else {
            TickAction::Settled
        },
    }
}

/// The controller after the user asked to cancel: only an active session
/// takes the request.
pub open spec fn cancel_result(v: ControllerView) -> ControllerView {
    if v.phase == Phase::Active {
        ControllerView { cancel_requested: true, ..v }
    } else {
        v
    }
}

/// The controller after the caller tried to remove the partial file of a
/// cancelled session. A failure is reported, and the session stays
/// cancelled.
pub open spec fn cleanup_result(v: ControllerView, failure: Option<Seq<char>>) -> ControllerView {
    match failure {
        Some(reason) => if v.phase == Phase::Cancelled {
            ControllerView {
                status: Some(cleanup_text(v.file, reason)),
                failure: Some(DownloadError::CleanupError),
                ..v
            }
        } else {
            v
        },
        None => v,
    }
}

/// The controller after the outcome of a session has been shown: it is idle
/// again, and the status message stays.
pub open spec fn acknowledged(v: ControllerView) -> ControllerView {
    if v.settled() {
        ControllerView { phase: Phase::Idle, cancel_requested: false, ..v }
    } else {
        v
    }
}

/// The controller. It holds at most one session: a download cannot be
/// started before the one before it has reached its outcome.
pub struct DownloadController {
    phase: Phase,
    file: String,
    total: u64,
    so_far: u64,
    cancel_requested: bool,
    status: Option<String>,
    failure: Option<DownloadError>,
}

impl View for DownloadController {
    type V = ControllerView;

    closed spec fn view(&self) -> ControllerView {
        ControllerView {
            phase: self.phase,
            file: self.file@,
            total: self.total as nat,
            so_far: self.so_far as nat,
            cancel_requested: self.cancel_requested,
            status: match self.status {
                Some(s) => Some(s@),
                None => None,
            },
            failure: self.failure,
        }
    }
}

/// Writes the status message of a session under way.
fn downloading_message(file: &str, percent: Option<u8>) -> (r: String)
    ensures
        r@ == downloading_text(
            file@,
            match percent {
                Some(p) => Some(p as nat),
                None => None,
            },
        ),
{
    let mut out = String::from_str("Downloading ");
    out.append(file);
    match percent {
        Some(p) => {
            out.append("... ");
            push_decimal(&mut out, p as u64);
            out.append("% (press 'x' to cancel)");
        },
        None => {
            out.append("... (press 'x' to cancel)");
        },
    }
    out
}

/// Writes a text in front of another.
fn joined(head: &str, tail: &str) -> (r: String)
    ensures
        r@ == head@ + tail@,
{
    let mut out = String::from_str(head);
    out.append(tail);
    out
}

impl DownloadController {
    /// A controller that has seen no download.
    pub fn new() -> (r: DownloadController)
        ensures
            r@ == initial(),
    {
        DownloadController {
            phase: Phase::Idle,
            file: String::new(),
            total: 0,
            so_far: 0,
            cancel_requested: false,
            status: None,
            failure: None,
        }
    }

    /// Where the controller stands.
    pub fn phase(&self) -> (r: Phase)
        ensures
            r == self@.phase,
    {
        self.phase
    }

    /// Tells whether a session exists that has not reached its outcome.
    pub fn in_flight(&self) -> (r: bool)
        ensures
            r == self@.in_flight(),
    {
        match self.phase {
            Phase::Starting | Phase::Active => true,
            _ => false,
        }
    }

    /// Tells whether the user has asked to cancel the session.
    pub fn cancel_requested(&self) -> (r: bool)
        ensures
            r == self@.cancel_requested,
    {
        self.cancel_requested
    }

    /// The destination file of the session.
    pub fn file_name(&self) -> (r: &str)
        ensures
            r@ == self@.file,
    {
        self.file.as_str()
    }

    /// The status message, if there has been any.
    pub fn status(&self) -> (r: Option<&str>)
        ensures
            match r {
                Some(s) => self@.status == Some(s@),
                None => self@.status.is_none(),
            },
    {
        match &self.status {
            Some(s) => Some(s.as_str()),
            None => None,
        }
    }

    /// The most recent failure, if there has been any.
    pub fn failure(&self) -> (r: Option<DownloadError>)
        ensures
            r == self@.failure,
    {
        self.failure
    }

    /// The progress of the session as a percentage between 0 and 100, or
    /// nothing while the size of the source is unknown.
    pub fn progress(&self) -> (r: Option<u8>)
        ensures
            match r {
                Some(p) => self@.percent() == Some(p as nat) && p <= 100,
                None => self@.percent().is_none(),
            },
    {
        percent(self.total, self.so_far)
    }

    /// Records that a download was refused.
    fn refuse(&mut self, error: DownloadError, reason: &str)
        ensures
            final(self)@ == refused(old(self)@, error, reason@),
    {
        self.phase = Phase::Idle;
        self.total = 0;
        self.so_far = 0;
        self.cancel_requested = false;
        self.status = Some(joined("Error: ", reason));
        self.failure = Some(error);
    }

    /// Records that the session ended.
    fn end(&mut self, phase: Phase, status: String, failure: Option<DownloadError>)
        ensures
            final(self)@ == ended(old(self)@, phase, status@, failure),
    {
        self.phase = phase;
        self.total = 0;
        self.so_far = 0;
        self.status = Some(status);
        self.failure = failure;
    }

    /// Asks for the download of `entry`, the selected entry, which stands at
    /// `index` in the list; `entry` is nothing in an empty list.
    ///
    /// The download is refused with `NoSelection` where there is no entry,
    /// and with `NoDownloadUrl` where the entry names no source URL; the
    /// controller is then idle, and the status message says why. Otherwise
    /// the controller is starting, and the plan names the first source URL
    /// of the entry and the destination file.
    pub fn start(&mut self, entry: Option<&Entry>, index: usize) -> (r: Result<
        TransferPlan,
        DownloadError,
    >)
        requires
            !old(self)@.in_flight(),
        ensures
            final(self)@ == start_result(old(self)@, entry, index as nat),
            match r {
                Ok(plan) => start_error(entry).is_none() && plan.url@
                    == entry.unwrap().candidate_urls()[0] && plan.file@ == destination_of(
                    entry.unwrap().title_text(),
                    index as nat,
                ),
                Err(e) => start_error(entry) == Some(e),
            },
            r.is_ok() ==> final(self)@.phase == Phase::Starting,
            r.is_err() ==> final(self)@.phase == Phase::Idle,
    {
        match entry {
            None => {
                self.refuse(DownloadError::NoSelection, "No episode selected");
                Err(DownloadError::NoSelection)
            },
            Some(e) => match e.first_url() {
                None => {
                    self.refuse(DownloadError::NoDownloadUrl, "No download URL found");
                    Err(DownloadError::NoDownloadUrl)
                },
                Some(url) => {
                    let file = destination_name(e.title_str(), index);
                    self.phase = Phase::Starting;
                    self.file = file.clone();
                    self.total = 0;
                    self.so_far = 0;
                    self.cancel_requested = false;
                    self.status = Some(downloading_message(file.as_str(), None));
                    self.failure = None;
                    Ok(TransferPlan { url: url.clone(), file })
                },
            },
        }
    }

    /// Tells the controller what came of opening the destination file of a
    /// starting session: `failure` is nothing where the file is open, and
    /// else says why it is not. With the file open the session is active.
    /// Otherwise the download fails with `FileCreateError`, the controller
    /// is idle, and the status message gives the reason.
    pub fn file_ready(&mut self, failure: Option<&str>) -> (r: Result<(), DownloadError>)
        requires
            old(self)@.phase == Phase::Starting,
        ensures
            final(self)@ == opened_result(
                old(self)@,
                match failure {
                    Some(reason) => Some(reason@),
                    None => None,
                },
            ),
            match r {
                Ok(_) => failure.is_none(),
                Err(e) => failure.is_some() && e == DownloadError::FileCreateError,
            },
    {
        match failure {
            None => {
                self.phase = Phase::Active;
                Ok(())
            },
            Some(reason) => {
                self.refuse(DownloadError::FileCreateError, reason);
                Err(DownloadError::FileCreateError)
            },
        }
    }

    /// One tick of an active session. The caller has read the shared
    /// progress, `so_far` bytes of `total` (zero while the size is unknown),
    /// and has driven the transfer by one bounded unit of work, which
    /// reported `event`.
    ///
    /// While the transfer goes on, the progress is recorded and the status
    /// message shows it. When the transfer has ended, the session is
    /// cancelled if the user had asked for that, whatever the transfer
    /// reported, and the caller is told to remove the partial file;
    /// otherwise it is completed, or failed with the description of the
    /// error in the status message.
    pub fn poll_tick(&mut self, total: u64, so_far: u64, event: TransferEvent) -> (action:
        TickAction)
        requires
            old(self)@.phase == Phase::Active,
        ensures
            final(self)@ == tick_result(old(self)@, total as nat, so_far as nat, event),
            action == tick_action(old(self)@, event),
    {
        match event {
            TransferEvent::Pending => {
                if total > 0 {
                    self.total = total;
                    self.so_far = so_far;
                }
                let p = percent(self.total, self.so_far);
                self.status = Some(downloading_message(self.file.as_str(), p));
                TickAction::Continue
            },
            TransferEvent::Finished => {
                if self.cancel_requested {
                    let text = self.cancelled_message();
                    self.end(Phase::Cancelled, text, None);
                    TickAction::RemovePartial
                } else {
                    let text = joined("Downloaded ", self.file.as_str());
                    self.end(Phase::Completed, text, None);
                    TickAction::Settled
                }
            },
            TransferEvent::Failed(reason) => {
                if self.cancel_requested {
                    let text = self.cancelled_message();
                    self.end(Phase::Cancelled, text, None);
                    TickAction::RemovePartial
                } else {
                    let mut text = joined("Error downloading ", self.file.as_str());
                    text.append(": ");
                    text.append(reason.as_str());
                    self.end(Phase::Failed, text, Some(DownloadError::TransferError));
                    TickAction::Settled
                }
            },
        }
    }

    /// Writes the status message of the session once it is cancelled.
    fn cancelled_message(&self) -> (r: String)
        ensures
            r@ == cancelled_text(self@.file),
    {
        let mut text = joined("Download of ", self.file.as_str());
        text.append(" cancelled");
        text
    }

    /// Asks to cancel the session. Only an active session takes the
    /// request: the result says whether it did, and the caller then raises
    /// the flag that the transfer watches. The session is cancelled at the
    /// tick that sees the transfer end.
    pub fn cancel(&mut self) -> (taken: bool)
        ensures
            taken == (old(self)@.phase == Phase::Active),
            final(self)@ == cancel_result(old(self)@),
    {
        match self.phase {
            Phase::Active => {
                self.cancel_requested = true;
                true
            },
            _ => false,
        }
    }

    /// Tells the controller what came of removing the partial file of a
    /// cancelled session: `failure` is nothing where the file is gone, and
    /// else says why it is not. A failure is shown in the status message and
    /// recorded as `CleanupError`; the session stays cancelled.
    pub fn cleanup_done(&mut self, failure: Option<&str>)
        ensures
            final(self)@ == cleanup_result(
                old(self)@,
                match failure {
                    Some(reason) => Some(reason@),
                    None => None,
                },
            ),
    {
        match failure {
            Some(reason) => {
                match self.phase {
                    Phase::Cancelled => {
                        let mut text = self.cancelled_message();
                        text.append("; the partial file could not be removed: ");
                        text.append(reason);
                        self.status = Some(text);
                        self.failure = Some(DownloadError::CleanupError);
                    },
                    _ => {},
                }
            },
            None => {},
        }
    }

    /// Tells the controller that the outcome of the session has been shown.
    /// A session that has reached its outcome is then over and the
    /// controller idle; the status message stays.
    pub fn acknowledge(&mut self)
        ensures
            final(self)@ == acknowledged(old(self)@),
    {
        match self.phase {
            Phase::Completed | Phase::Cancelled | Phase::Failed => {
                self.phase = Phase::Idle;
                self.cancel_requested = false;
            },
            _ => {},
        }
    }
}

/// A download that is refused leaves the controller idle: one asked for in
/// an empty list, with `NoSelection`, and one of an entry that names no
/// source URL, with `NoDownloadUrl`. The status message says which.
pub proof fn lemma_refused_start_is_idle(v: ControllerView, entry: Option<&Entry>, index: nat)
    requires
        start_error(entry).is_some(),
    ensures
        start_result(v, entry, index).phase == Phase::Idle,
        !start_result(v, entry, index).in_flight(),
        start_result(v, entry, index).failure == start_error(entry),
        entry.is_some() ==> start_error(entry) == Some(DownloadError::NoDownloadUrl)
            && start_result(v, entry, index).status == Some(
            error_text("No download URL found"@),
        ),
        entry.is_none() ==> start_error(entry) == Some(DownloadError::NoSelection)
            && start_result(v, entry, index).status == Some(error_text("No episode selected"@)),
{
}

/// The controller after a run of ticks during which the transfer went on,
/// each with the progress `(total, so_far)` that it read.
pub open spec fn after_pending(v: ControllerView, reports: Seq<(nat, nat)>) -> ControllerView
    decreases reports.len(),
{
    if reports.len() == 0 {
        v
    } else {
        tick_result(
            after_pending(v, reports.drop_last()),
            reports.last().0,
            reports.last().1,
            TransferEvent::Pending,
        )
    }
}

/// While the transfer goes on, the session stays active, and neither its
/// destination nor a request to cancel it is lost.
pub proof fn lemma_pending_keeps_session(v: ControllerView, reports: Seq<(nat, nat)>)
    ensures
        after_pending(v, reports).phase == v.phase,
        after_pending(v, reports).file == v.file,
        after_pending(v, reports).cancel_requested == v.cancel_requested,
    decreases reports.len(),
{
    if reports.len() > 0 {
        lemma_pending_keeps_session(v, reports.drop_last());
    }
}

/// The percentage of a session lies between 0 and 100.
pub proof fn lemma_percent_in_range(v: ControllerView)
    ensures
        match v.percent() {
            Some(p) => p <= 100,
            None => true,
        },
{
    if v.total > 0 && v.so_far < v.total {
        assert((v.so_far * 100) / v.total <= 100) by (nonlinear_arith)
            requires
                v.so_far < v.total,
        ;
    }
}

/// The percentage does not fall from one tick to the next: a tick that
/// reads no fewer bytes than were recorded, of a total that has not grown,
/// shows no smaller percentage than the tick before it.
pub proof fn lemma_percent_never_falls(v: ControllerView, total: nat, so_far: nat)
    requires
        v.so_far <= so_far,
        v.total == 0 || total <= v.total,
    ensures
        match v.percent() {
            Some(p) => match tick_result(v, total, so_far, TransferEvent::Pending).percent() {
                Some(q) => p <= q <= 100,
                None => false,
            },
            None => true,
        },
{
    let w = tick_result(v, total, so_far, TransferEvent::Pending);
    lemma_percent_in_range(v);
    lemma_percent_in_range(w);
    if v.total > 0 && total > 0 && so_far < total {
        assert((v.so_far * 100) / v.total <= (so_far * 100) / total) by (nonlinear_arith)
            requires
                v.so_far <= so_far,
                0 < total <= v.total,
        ;
    }
}

/// A request to cancel an active session is honoured when the transfer
/// ends: however many ticks pass while the transfer goes on, and whether it
/// then ends with or without an error, the tick that sees it end leaves the
/// session cancelled, says so in the status message, and tells the caller to
/// remove the partial file.
pub proof fn lemma_cancel_settles(
    v: ControllerView,
    reports: Seq<(nat, nat)>,
    total: nat,
    so_far: nat,
    event: TransferEvent,
)
    requires
        v.phase == Phase::Active,
        !(event is Pending),
    ensures
        after_pending(cancel_result(v), reports).phase == Phase::Active,
        tick_action(after_pending(cancel_result(v), reports), event) == TickAction::RemovePartial,
        tick_result(after_pending(cancel_result(v), reports), total, so_far, event).phase
            == Phase::Cancelled,
        tick_result(after_pending(cancel_result(v), reports), total, so_far, event).status
            == Some(cancelled_text(v.file)),
{
    lemma_pending_keeps_session(cancel_result(v), reports);
}

} // verus!
