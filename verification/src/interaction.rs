//! The decisions of the interactive loop: what a key press and a tick do to
//! the selection and to the download.
//!
//! The loop itself, which paints, waits for keys and runs the transfer,
//! belongs to the caller. It hands each key press and each tick to the
//! application state and carries out the command it gets back.

use vstd::prelude::*;
use crate::controller::{
    acknowledged,
    cancel_result,
    cleanup_result,
    initial,
    opened_result,
    start_result,
    tick_action,
    tick_result,
    ControllerView,
    DownloadController,
    DownloadError,
    Phase,
    TickAction,
    TransferEvent,
    TransferPlan,
};
use crate::entry::Entry;
use crate::filename::destination_of;
use crate::selection::{step_next, step_previous, SelectionStore};

verus! {

/// A key press, as far as the loop tells keys apart.
#[derive(Clone, Copy, Debug, PartialEq, Eq, Structural)]
pub enum Key {
    /// `q`: leave the program.
    Quit,
    /// The upward arrow: select the entry before.
    Up,
    /// The downward arrow: select the entry after.
    Down,
    /// `d`: download the selected entry.
    Download,
    /// `x`: cancel the download.
    Cancel,
    /// Any other key.
    Other,
}

/// What the loop is to do after a key press.
pub enum Command {
    /// Nothing but to paint again.
    Redraw,
    /// Leave the loop.
    Exit,
    /// Open the destination file and begin the transfer.
    Begin(TransferPlan),
    /// Raise the flag that tells the transfer to stop.
    Abort,
}

/// What the loop is to do after a tick.
#[derive(Clone, Copy, Debug, PartialEq, Eq, Structural)]
pub struct TickOutcome {
    /// What to do about the transfer.
    pub action: TickAction,
    /// Whether to leave the loop: the user had asked to quit, and the
    /// session has now reached its outcome.
    pub exit: bool,
}

/// The application state as a mathematical value.
pub struct AppView {
    pub entries: Seq<Entry>,
    pub position: nat,
    pub controller: ControllerView,
    /// Whether the user has asked to quit during a session.
    pub quitting: bool,
}

impl AppView {
    /// The selected entry, if the list has any.
    pub open spec fn selected(self) -> Option<Entry> {
        if self.entries.len() == 0 {
            None
        } else {
            Some(self.entries[self.position as int])
        }
    }
}

/// The application state after a key press.
pub open spec fn key_result(a: AppView, key: Key) -> AppView {
    match key {
        Key::Up => AppView { position: step_previous(a.position), ..a },
        Key::Down => AppView { position: step_next(a.position, a.entries.len()), ..a },
        Key::Download => if a.controller.in_flight() {
            a
        } else {
            AppView {
                controller: start_result(
                    a.controller,
                    match a.selected() {
                        Some(e) => Some(&e),
                        None => None,
                    },
                    a.position,
                ),
                ..a
            }
        },
        Key::Cancel => AppView { controller: cancel_result(a.controller), ..a },
        Key::Quit => if a.controller.phase == Phase::Active {
            AppView { controller: cancel_result(a.controller), quitting: true, ..a }
        } else {
            a
        },
        Key::Other => a,
    }
}

/// Whether a press of `key` begins a download.
pub open spec fn begins_download(a: AppView, key: Key) -> bool {
    key == Key::Download && !a.controller.in_flight() && a.selected().is_some()
        && a.selected().unwrap().candidate_urls().len() > 0
}

/// Whether a press of `key` tells the transfer to stop.
pub open spec fn aborts_transfer(a: AppView, key: Key) -> bool {
    (key == Key::Cancel || key == Key::Quit) && a.controller.phase == Phase::Active
}

/// Whether a press of `key` ends the loop at once.
pub open spec fn exits_at_once(a: AppView, key: Key) -> bool {
    key == Key::Quit && a.controller.phase != Phase::Active
}

/// The application state after a tick of an active session.
pub open spec fn app_tick_result(a: AppView, total: nat, so_far: nat, event: TransferEvent)
    -> AppView {
    AppView { controller: tick_result(a.controller, total, so_far, event), ..a }
}

/// The entries, the cursor and the download.
pub struct App {
    selection: SelectionStore,
    controller: DownloadController,
    quitting: bool,
}

impl View for App {
    type V = AppView;

    closed spec fn view(&self) -> AppView {
        AppView {
            entries: self.selection.entries(),
            position: self.selection.position(),
            controller: self.controller@,
            quitting: self.quitting,
        }
    }
}

impl App {
    /// The cursor points at an entry; in an empty list it rests at zero.
    pub closed spec fn wf(&self) -> bool {
        self.selection.wf()
    }

    /// The state at the start: the cursor on the first entry, no download.
    pub fn new(entries: Vec<Entry>) -> (r: App)
        ensures
            r.wf(),
            r@ == (AppView {
                entries: entries@,
                position: 0,
                controller: initial(),
                quitting: false,
            }),
    {
        App {
            selection: SelectionStore::new(entries),
            controller: DownloadController::new(),
            quitting: false,
        }
    }

    /// In a list that is not empty the cursor points at an entry.
    pub proof fn lemma_cursor_in_range(&self)
        requires
            self.wf(),
        ensures
            self@.entries.len() > 0 ==> self@.position < self@.entries.len(),
            self@.entries.len() == 0 ==> self@.position == 0,
    {
    }

    /// Selects the entry after the selected one, if there is one. The
    /// download, in whatever phase it is, is left alone.
    pub fn next(&mut self)
        requires
            old(self).wf(),
        ensures
            final(self).wf(),
            final(self)@ == key_result(old(self)@, Key::Down),
            final(self)@.controller == old(self)@.controller,
    {
        self.selection.move_next();
    }

    /// Selects the entry before the selected one, if there is one. The
    /// download, in whatever phase it is, is left alone.
    pub fn previous(&mut self)
        requires
            old(self).wf(),
        ensures
            final(self).wf(),
            final(self)@ == key_result(old(self)@, Key::Up),
            final(self)@.controller == old(self)@.controller,
    {
        self.selection.move_previous();
    }

    /// The list and its cursor.
    pub fn selection(&self) -> (r: &SelectionStore)
        ensures
            r.entries() == self@.entries,
            r.position() == self@.position,
            r.wf() == self.wf(),
    {
        &self.selection
    }

    /// The download controller.
    pub fn controller(&self) -> (r: &DownloadController)
        ensures
            r@ == self@.controller,
    {
        &self.controller
    }

    /// Tells whether the user has asked to quit during a session.
    pub fn quitting(&self) -> (r: bool)
        ensures
            r == self@.quitting,
    {
        self.quitting
    }

    /// Handles a key press and says what the loop is to do.
    ///
    /// The arrows move the cursor in every phase of a download. `d` starts
    /// the download of the selected entry unless a session is in flight.
    /// `x` asks an active session to cancel. `q` ends the loop at once
    /// unless a session is active; an active session is asked to cancel, and
    /// the loop ends when it has settled.
    pub fn handle_key(&mut self, key: Key) -> (command: Command)
        requires
            old(self).wf(),
        ensures
            final(self).wf(),
            final(self)@ == key_result(old(self)@, key),
            match command {
                Command::Begin(plan) => begins_download(old(self)@, key) && plan.url@
                    == old(self)@.selected().unwrap().candidate_urls()[0] && plan.file@
                    == destination_of(
                    old(self)@.selected().unwrap().title_text(),
                    old(self)@.position,
                ),
                Command::Abort => aborts_transfer(old(self)@, key),
                Command::Exit => exits_at_once(old(self)@, key),
                Command::Redraw => !begins_download(old(self)@, key) && !aborts_transfer(
                    old(self)@,
                    key,
                ) && !exits_at_once(old(self)@, key),
            },
    {
        match key {
            Key::Up => {
                self.selection.move_previous();
                Command::Redraw
            },
            Key::Down => {
                self.selection.move_next();
                Command::Redraw
            },
            Key::Download => {
                if self.controller.in_flight() {
                    Command::Redraw
                } else {
                    let index = self.selection.cursor();
                    match self.controller.start(self.selection.current(), index) {
                        Ok(plan) => Command::Begin(plan),
                        Err(_) => Command::Redraw,
                    }
                }
            },
            Key::Cancel => {
                if self.controller.cancel() {
                    Command::Abort
                } else {
                    Command::Redraw
                }
            },
            Key::Quit => {
                if self.controller.cancel() {
                    self.quitting = true;
                    Command::Abort
                } else {
                    Command::Exit
                }
            },
            Key::Other => Command::Redraw,
        }
    }

    /// Tells the download what came of opening the destination file of a
    /// starting session.
    pub fn file_ready(&mut self, failure: Option<&str>) -> (r: Result<(), DownloadError>)
        requires
            old(self)@.controller.phase == Phase::Starting,
        ensures
            final(self).wf() == old(self).wf(),
            final(self)@ == (AppView {
                controller: opened_result(
                    old(self)@.controller,
                    match failure {
                        Some(reason) => Some(reason@),
                        None => None,
                    },
                ),
                ..old(self)@
            }),
            match r {
                Ok(_) => failure.is_none(),
                Err(e) => failure.is_some() && e == DownloadError::FileCreateError,
            },
    {
        self.controller.file_ready(failure)
    }

    /// One tick of an active session: the download takes the progress and
    /// the report of the transfer, and the outcome says what to do about the
    /// transfer and whether the loop ends, which it does when the session
    /// has settled after the user asked to quit.
    pub fn tick(&mut self, total: u64, so_far: u64, event: TransferEvent) -> (r: TickOutcome)
        requires
            old(self)@.controller.phase == Phase::Active,
        ensures
            final(self).wf() == old(self).wf(),
            final(self)@ == app_tick_result(old(self)@, total as nat, so_far as nat, event),
            r.action == tick_action(old(self)@.controller, event),
            r.exit == (old(self)@.quitting && r.action != TickAction::Continue),
    {
        let action = self.controller.poll_tick(total, so_far, event);
        let exit = match action {
            TickAction::Continue => false,
            _ => self.quitting,
        };
        TickOutcome { action, exit }
    }

    /// Tells the download what came of removing the partial file of a
    /// cancelled session.
    pub fn cleanup_done(&mut self, failure: Option<&str>)
        ensures
            final(self).wf() == old(self).wf(),
            final(self)@ == (AppView {
                controller: cleanup_result(
                    old(self)@.controller,
                    match failure {
                        Some(reason) => Some(reason@),
                        None => None,
                    },
                ),
                ..old(self)@
            }),
    {
        self.controller.cleanup_done(failure);
    }

    /// Tells the download that the outcome of the session has been painted.
    pub fn acknowledge(&mut self)
        ensures
            final(self).wf() == old(self).wf(),
            final(self)@ == (AppView {
                controller: acknowledged(old(self)@.controller),
                ..old(self)@
            }),
    {
        self.controller.acknowledge();
    }
}

/// The selection stays responsive during a download: in every phase the
/// arrows move the cursor exactly as they do with no download, and leave
/// the download as it is.
pub proof fn lemma_selection_responsive(a: AppView, key: Key)
    requires
        key == Key::Up || key == Key::Down,
    ensures
        key_result(a, key).controller == a.controller,
        key_result(a, key).entries == a.entries,
        key == Key::Up ==> key_result(a, key).position == step_previous(a.position),
        key == Key::Down ==> key_result(a, key).position == step_next(
            a.position,
            a.entries.len(),
        ),
        a.entries.len() > 0 && a.position < a.entries.len() ==> key_result(a, key).position
            < a.entries.len(),
{
}

/// At most one session is in flight: a request to download during a session
/// changes nothing.
pub proof fn lemma_single_flight(a: AppView)
    requires
        a.controller.in_flight(),
    ensures
        key_result(a, Key::Download) == a,
        !begins_download(a, Key::Download),
{
}

} // verus!
