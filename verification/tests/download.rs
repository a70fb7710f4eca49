use podfetch::controller::{
    DownloadController, DownloadError, Phase, TickAction, TransferEvent,
};
use podfetch::entry::{Entry, MediaGroup};
use podfetch::progress::percent;

fn episode(title: Option<&str>, urls: &[&str]) -> Entry {
    Entry {
        title: title.map(String::from),
        published: None,
        media: vec![MediaGroup { sources: urls.iter().map(|u| Some(String::from(*u))).collect() }],
    }
}

fn active(title: &str) -> DownloadController {
    let e = episode(Some(title), &["http://example.org/a.mp3"]);
    let mut c = DownloadController::new();
    c.start(Some(&e), 0).unwrap();
    c.file_ready(None).unwrap();
    c
}

#[test]
fn new_controller_is_idle_and_silent() {
    let c = DownloadController::new();
    assert_eq!(c.phase(), Phase::Idle);
    assert!(!c.in_flight());
    assert!(!c.cancel_requested());
    assert_eq!(c.status(), None);
    assert_eq!(c.failure(), None);
    assert_eq!(c.progress(), None);
    assert_eq!(c.file_name(), "");
}

#[test]
fn percent_is_the_floor_of_the_ratio() {
    assert_eq!(percent(200, 50), Some(25));
    assert_eq!(percent(3, 1), Some(33));
    assert_eq!(percent(3, 2), Some(66));
    assert_eq!(percent(1000, 999), Some(99));
    assert_eq!(percent(1000, 9), Some(0));
    assert_eq!(percent(7, 0), Some(0));
    assert_eq!(percent(7, 7), Some(100));
}

#[test]
fn percent_is_clamped_to_one_hundred() {
    assert_eq!(percent(100, 101), Some(100));
    assert_eq!(percent(1, u64::MAX), Some(100));
}

#[test]
fn percent_of_an_unknown_total_is_unknown() {
    assert_eq!(percent(0, 0), None);
    assert_eq!(percent(0, 500), None);
}

#[test]
fn percent_of_very_large_counts() {
    assert_eq!(percent(u64::MAX, u64::MAX - 1), Some(99));
    assert_eq!(percent(u64::MAX, u64::MAX / 2), Some(49));
    assert_eq!(percent(u64::MAX, u64::MAX), Some(100));
}

#[test]
fn start_without_a_url_fails_and_stays_idle() {
    let e = episode(Some("No media"), &[]);
    let mut c = DownloadController::new();
    let r = c.start(Some(&e), 0);
    assert_eq!(r.err(), Some(DownloadError::NoDownloadUrl));
    assert_eq!(c.phase(), Phase::Idle);
    assert!(!c.in_flight());
    assert_eq!(c.status(), Some("Error: No download URL found"));
    assert_eq!(c.failure(), Some(DownloadError::NoDownloadUrl));
}

#[test]
fn start_in_an_empty_list_fails_with_no_selection() {
    let mut c = DownloadController::new();
    let r = c.start(None, 0);
    assert_eq!(r.err(), Some(DownloadError::NoSelection));
    assert_eq!(c.phase(), Phase::Idle);
    assert_eq!(c.status(), Some("Error: No episode selected"));
    assert_eq!(c.failure(), Some(DownloadError::NoSelection));
}

#[test]
fn start_plans_the_first_url_and_the_sanitized_name() {
    let e = episode(Some("A/B: Test?"), &["http://example.org/1", "http://example.org/2"]);
    let mut c = DownloadController::new();
    let plan = c.start(Some(&e), 4).unwrap();
    assert_eq!(plan.url, "http://example.org/1");
    assert_eq!(plan.file, "A_B_ Test_.mp3");
    assert_eq!(c.phase(), Phase::Starting);
    assert!(c.in_flight());
    assert_eq!(c.file_name(), "A_B_ Test_.mp3");
    assert_eq!(c.status(), Some("Downloading A_B_ Test_.mp3... (press 'x' to cancel)"));
    assert_eq!(c.failure(), None);
    assert_eq!(c.progress(), None);
}

#[test]
fn start_names_an_untitled_episode_by_its_index() {
    let e = episode(None, &["http://example.org/1"]);
    let mut c = DownloadController::new();
    let plan = c.start(Some(&e), 12).unwrap();
    assert_eq!(plan.file, "episode_12.mp3");
}

#[test]
fn opened_file_makes_the_session_active() {
    let c = active("show");
    assert_eq!(c.phase(), Phase::Active);
    assert_eq!(c.status(), Some("Downloading show.mp3... (press 'x' to cancel)"));
}

#[test]
fn file_that_cannot_be_opened_fails_the_start() {
    let e = episode(Some("show"), &["http://example.org/1"]);
    let mut c = DownloadController::new();
    c.start(Some(&e), 0).unwrap();
    let r = c.file_ready(Some("Permission denied (os error 13)"));
    assert_eq!(r, Err(DownloadError::FileCreateError));
    assert_eq!(c.phase(), Phase::Idle);
    assert_eq!(c.status(), Some("Error: Permission denied (os error 13)"));
    assert_eq!(c.failure(), Some(DownloadError::FileCreateError));
}

#[test]
fn tick_shows_the_percentage() {
    let mut c = active("show");
    assert_eq!(c.poll_tick(200, 50, TransferEvent::Pending), TickAction::Continue);
    assert_eq!(c.phase(), Phase::Active);
    assert_eq!(c.progress(), Some(25));
    assert_eq!(c.status(), Some("Downloading show.mp3... 25% (press 'x' to cancel)"));
    c.poll_tick(200, 200, TransferEvent::Pending);
    assert_eq!(c.status(), Some("Downloading show.mp3... 100% (press 'x' to cancel)"));
    c.poll_tick(200, 0, TransferEvent::Pending);
    assert_eq!(c.status(), Some("Downloading show.mp3... 0% (press 'x' to cancel)"));
}

#[test]
fn tick_leaves_the_percentage_out_while_the_total_is_unknown() {
    let mut c = active("show");
    assert_eq!(c.poll_tick(0, 4096, TransferEvent::Pending), TickAction::Continue);
    assert_eq!(c.progress(), None);
    assert_eq!(c.status(), Some("Downloading show.mp3... (press 'x' to cancel)"));
}

#[test]
fn report_without_a_total_keeps_the_last_known_progress() {
    let mut c = active("show");
    c.poll_tick(100, 40, TransferEvent::Pending);
    c.poll_tick(0, 90, TransferEvent::Pending);
    assert_eq!(c.progress(), Some(40));
    assert_eq!(c.status(), Some("Downloading show.mp3... 40% (press 'x' to cancel)"));
}

#[test]
fn percentage_never_falls_while_the_bytes_grow() {
    let mut c = active("show");
    let total: u64 = 1_000_003;
    let mut last: u8 = 0;
    let mut so_far: u64 = 0;
    while so_far < total + 10_000 {
        c.poll_tick(total, so_far, TransferEvent::Pending);
        let p = c.progress().unwrap();
        assert!(p <= 100);
        assert!(p >= last);
        last = p;
        so_far += 7919;
    }
    assert_eq!(last, 100);
}

#[test]
fn finished_transfer_completes_the_session() {
    let mut c = active("show");
    c.poll_tick(100, 60, TransferEvent::Pending);
    assert_eq!(c.poll_tick(100, 100, TransferEvent::Finished), TickAction::Settled);
    assert_eq!(c.phase(), Phase::Completed);
    assert!(!c.in_flight());
    assert_eq!(c.progress(), None);
    assert_eq!(c.status(), Some("Downloaded show.mp3"));
    assert_eq!(c.failure(), None);
}

#[test]
fn failed_transfer_shows_the_description() {
    let mut c = active("show");
    let event = TransferEvent::Failed(String::from("[6] Couldn't resolve host name"));
    assert_eq!(c.poll_tick(0, 0, event), TickAction::Settled);
    assert_eq!(c.phase(), Phase::Failed);
    assert_eq!(c.progress(), None);
    assert_eq!(
        c.status(),
        Some("Error downloading show.mp3: [6] Couldn't resolve host name")
    );
    assert_eq!(c.failure(), Some(DownloadError::TransferError));
}

#[test]
fn cancel_is_taken_only_by_an_active_session() {
    let mut idle = DownloadController::new();
    assert!(!idle.cancel());
    assert!(!idle.cancel_requested());

    let e = episode(Some("show"), &["http://example.org/1"]);
    let mut starting = DownloadController::new();
    starting.start(Some(&e), 0).unwrap();
    assert!(!starting.cancel());
    assert!(!starting.cancel_requested());

    let mut c = active("show");
    assert!(c.cancel());
    assert!(c.cancel_requested());
    assert_eq!(c.phase(), Phase::Active);
}

#[test]
fn cancelled_session_settles_when_the_transfer_ends_with_an_error() {
    let mut c = active("show");
    c.poll_tick(100, 10, TransferEvent::Pending);
    assert!(c.cancel());
    assert_eq!(c.poll_tick(100, 20, TransferEvent::Pending), TickAction::Continue);
    assert_eq!(c.phase(), Phase::Active);
    let event = TransferEvent::Failed(String::from("[42] Operation was aborted by a callback"));
    assert_eq!(c.poll_tick(100, 20, event), TickAction::RemovePartial);
    assert_eq!(c.phase(), Phase::Cancelled);
    assert_eq!(c.status(), Some("Download of show.mp3 cancelled"));
    assert_eq!(c.failure(), None);
    assert_eq!(c.progress(), None);
    assert_eq!(c.file_name(), "show.mp3");
}

#[test]
fn cancelled_session_settles_when_the_transfer_ends_without_an_error() {
    let mut c = active("show");
    assert!(c.cancel());
    assert_eq!(c.poll_tick(100, 100, TransferEvent::Finished), TickAction::RemovePartial);
    assert_eq!(c.phase(), Phase::Cancelled);
    assert_eq!(c.status(), Some("Download of show.mp3 cancelled"));
}

#[test]
fn failed_cleanup_is_reported_and_the_session_stays_cancelled() {
    let mut c = active("show");
    c.cancel();
    c.poll_tick(0, 0, TransferEvent::Finished);
    c.cleanup_done(Some("No such file or directory (os error 2)"));
    assert_eq!(c.phase(), Phase::Cancelled);
    assert_eq!(c.failure(), Some(DownloadError::CleanupError));
    assert_eq!(
        c.status(),
        Some(
            "Download of show.mp3 cancelled; the partial file could not be removed: \
             No such file or directory (os error 2)"
        )
    );
}

#[test]
fn cleanup_that_worked_changes_nothing() {
    let mut c = active("show");
    c.cancel();
    c.poll_tick(0, 0, TransferEvent::Finished);
    c.cleanup_done(None);
    assert_eq!(c.phase(), Phase::Cancelled);
    assert_eq!(c.failure(), None);
    assert_eq!(c.status(), Some("Download of show.mp3 cancelled"));
}

#[test]
fn cleanup_report_outside_a_cancelled_session_is_ignored() {
    let mut c = active("show");
    c.cleanup_done(Some("late"));
    assert_eq!(c.phase(), Phase::Active);
    assert_eq!(c.failure(), None);
    assert_eq!(c.status(), Some("Downloading show.mp3... (press 'x' to cancel)"));
}

#[test]
fn acknowledging_an_outcome_returns_to_idle() {
    let mut c = active("show");
    c.poll_tick(10, 10, TransferEvent::Finished);
    c.acknowledge();
    assert_eq!(c.phase(), Phase::Idle);
    assert_eq!(c.status(), Some("Downloaded show.mp3"));

    let mut d = active("show");
    d.cancel();
    d.poll_tick(10, 5, TransferEvent::Finished);
    d.acknowledge();
    assert_eq!(d.phase(), Phase::Idle);
    assert!(!d.cancel_requested());

    let mut f = active("show");
    f.poll_tick(10, 5, TransferEvent::Failed(String::from("timeout")));
    f.acknowledge();
    assert_eq!(f.phase(), Phase::Idle);
    assert_eq!(f.failure(), Some(DownloadError::TransferError));
}

#[test]
fn acknowledging_without_an_outcome_changes_nothing() {
    let mut c = active("show");
    c.acknowledge();
    assert_eq!(c.phase(), Phase::Active);
    let mut idle = DownloadController::new();
    idle.acknowledge();
    assert_eq!(idle.phase(), Phase::Idle);
    assert_eq!(idle.status(), None);
}

#[test]
fn second_session_starts_clean() {
    let mut c = active("first");
    c.poll_tick(100, 50, TransferEvent::Pending);
    c.cancel();
    c.poll_tick(100, 60, TransferEvent::Finished);
    let e = episode(Some("second"), &["http://example.org/2"]);
    let plan = c.start(Some(&e), 1).unwrap();
    assert_eq!(plan.file, "second.mp3");
    assert_eq!(c.phase(), Phase::Starting);
    assert!(!c.cancel_requested());
    assert_eq!(c.progress(), None);
    assert_eq!(c.failure(), None);
    c.file_ready(None).unwrap();
    c.poll_tick(0, 0, TransferEvent::Pending);
    assert_eq!(c.status(), Some("Downloading second.mp3... (press 'x' to cancel)"));
}
