//! The scheduler: what follows a cycle, and what is reported of it.

use vstd::prelude::*;
use vstd::string::*;

use crate::blob::{BlobError, BlobErrorView};
use crate::cycle::{
    CycleError, CycleErrorView, CycleOutcome, CycleOutcomeView, SyncError, SyncErrorView,
};
use crate::fetch::{FetchError, FetchErrorView};
use crate::plugin::{plugin_name, Plugin};
use crate::refresh::{RefreshError, RefreshErrorView};
use crate::views::{option_view, result_view};

verus! {

/// The seconds between the end of one cycle and the start of the next.
pub const CYCLE_DELAY_SECONDS: u64 = 30;

/// The classes of failure that a report tells apart.
#[derive(Clone, Copy, Debug, PartialEq, Eq, Structural)]
pub enum ErrorKind {
    /// A request to the service or to the store did not get through.
    Transport,
    /// An answer could not be understood.
    Parse,
    /// Something could not be written.
    Persist,
    /// Anything else.
    Unexpected,
}

/// What is handed to the error sink.
#[derive(Debug, PartialEq, Eq)]
pub struct ErrorReport {
    pub kind: ErrorKind,
    pub detail: String,
    pub source: String,
}

pub struct ErrorReportView {
    pub kind: ErrorKind,
    pub detail: Seq<char>,
    pub source: Seq<char>,
}

impl View for ErrorReport {
    type V = ErrorReportView;

    open spec fn view(&self) -> ErrorReportView {
        ErrorReportView { kind: self.kind, detail: self.detail@, source: self.source@ }
    }
}

/// What follows a cycle: the delay before the next one, or none where the
/// loop is to end, and what to report.
#[derive(Debug, PartialEq, Eq)]
pub struct Schedule {
    pub delay_seconds: Option<u64>,
    pub report: Option<ErrorReport>,
}

pub struct ScheduleView {
    pub delay_seconds: Option<u64>,
    pub report: Option<ErrorReportView>,
}

impl View for Schedule {
    type V = ScheduleView;

    open spec fn view(&self) -> ScheduleView {
        ScheduleView { delay_seconds: self.delay_seconds, report: option_view(self.report) }
    }
}

impl CycleErrorView {
    /// The class of the failure.
    pub open spec fn kind(self) -> ErrorKind {
        match self {
            CycleErrorView::Fetch(FetchErrorView::Transport(_)) => ErrorKind::Transport,
            CycleErrorView::Fetch(FetchErrorView::Unreadable(_)) => ErrorKind::Transport,
            CycleErrorView::Fetch(FetchErrorView::Parse(_)) => ErrorKind::Parse,
            CycleErrorView::Fetch(FetchErrorView::UnexpectedStatus(_)) => ErrorKind::Unexpected,
            CycleErrorView::Refresh(RefreshErrorView::Transport(_)) => ErrorKind::Transport,
            CycleErrorView::Refresh(RefreshErrorView::CacheWrite(_)) => ErrorKind::Persist,
            CycleErrorView::Sync(SyncErrorView::Lookup(_)) => ErrorKind::Transport,
            CycleErrorView::Sync(SyncErrorView::Persist(_)) => ErrorKind::Persist,
            CycleErrorView::Sync(SyncErrorView::Blob(BlobErrorView::Lookup(_)))
                => ErrorKind::Transport,
            CycleErrorView::Sync(SyncErrorView::Blob(BlobErrorView::FetchFailed(_)))
                => ErrorKind::Transport,
            CycleErrorView::Sync(SyncErrorView::Blob(BlobErrorView::Unreadable(_)))
                => ErrorKind::Transport,
            CycleErrorView::Sync(SyncErrorView::Blob(BlobErrorView::TooLarge))
                => ErrorKind::Unexpected,
            CycleErrorView::Sync(SyncErrorView::Blob(BlobErrorView::Persist(_)))
                => ErrorKind::Persist,
            CycleErrorView::UnexpectedReply => ErrorKind::Unexpected,
        }
    }

    /// The failure in words.
    pub open spec fn message(self) -> Seq<char> {
        match self {
            CycleErrorView::Fetch(FetchErrorView::Transport(detail)) => {
                "Unable to perform spotify player request: "@ + detail
            },
            CycleErrorView::Fetch(FetchErrorView::Unreadable(detail)) => {
                "Unable to read text from API Request: "@ + detail
            },
            CycleErrorView::Fetch(FetchErrorView::Parse(detail)) => {
                "Unable to parse spotify API response: "@ + detail
            },
            CycleErrorView::Fetch(FetchErrorView::UnexpectedStatus(_)) => {
                "Spotify API answered with an unknown http code"@
            },
            CycleErrorView::Refresh(RefreshErrorView::Transport(detail)) => {
                "Unable to update access token: "@ + detail
            },
            CycleErrorView::Refresh(RefreshErrorView::CacheWrite(detail)) => {
                "Unable to write to cache: "@ + detail
            },
            CycleErrorView::Sync(SyncErrorView::Lookup(detail)) => {
                "Unable to find last song: "@ + detail
            },
            CycleErrorView::Sync(SyncErrorView::Persist(detail)) => {
                "Unable to register song to database: "@ + detail
            },
            CycleErrorView::Sync(SyncErrorView::Blob(BlobErrorView::Lookup(detail))) => {
                "Unable to check if album cover is present: "@ + detail
            },
            CycleErrorView::Sync(SyncErrorView::Blob(BlobErrorView::FetchFailed(detail))) => {
                "Unable to fetch album cover: "@ + detail
            },
            CycleErrorView::Sync(SyncErrorView::Blob(BlobErrorView::Unreadable(detail))) => {
                "Unable to read album cover response: "@ + detail
            },
            CycleErrorView::Sync(SyncErrorView::Blob(BlobErrorView::TooLarge)) => {
                "Unable to keep album cover: it is too large"@
            },
            CycleErrorView::Sync(SyncErrorView::Blob(BlobErrorView::Persist(detail))) => {
                "Unable to register database event: "@ + detail
            },
            CycleErrorView::UnexpectedReply => "The reply does not answer the pending request"@,
        }
    }
}

/// A heading followed by a detail.
fn headed(heading: &str, detail: &String) -> (message: String)
    ensures
        message@ == heading@ + detail@,
{
    let mut message = String::from_str(heading);
    message.append(detail.as_str());
    message
}

impl CycleError {
    /// The class of the failure.
    pub fn kind(&self) -> (kind: ErrorKind)
        ensures
            kind == self@.kind(),
    {
        match self {
            CycleError::Fetch(FetchError::Transport(_)) => ErrorKind::Transport,
            CycleError::Fetch(FetchError::Unreadable(_)) => ErrorKind::Transport,
            CycleError::Fetch(FetchError::Parse(_)) => ErrorKind::Parse,
            CycleError::Fetch(FetchError::UnexpectedStatus(_)) => ErrorKind::Unexpected,
            CycleError::Refresh(RefreshError::Transport(_)) => ErrorKind::Transport,
            CycleError::Refresh(RefreshError::CacheWrite(_)) => ErrorKind::Persist,
            CycleError::Sync(SyncError::Lookup(_)) => ErrorKind::Transport,
            CycleError::Sync(SyncError::Persist(_)) => ErrorKind::Persist,
            CycleError::Sync(SyncError::Blob(BlobError::Lookup(_))) => ErrorKind::Transport,
            CycleError::Sync(SyncError::Blob(BlobError::FetchFailed(_))) => ErrorKind::Transport,
            CycleError::Sync(SyncError::Blob(BlobError::Unreadable(_))) => ErrorKind::Transport,
            CycleError::Sync(SyncError::Blob(BlobError::TooLarge)) => ErrorKind::Unexpected,
            CycleError::Sync(SyncError::Blob(BlobError::Persist(_))) => ErrorKind::Persist,
            CycleError::UnexpectedReply => ErrorKind::Unexpected,
        }
    }

    /// The failure in words.
    pub fn message(&self) -> (message: String)
        ensures
            message@ == self@.message(),
    {
        match self {
            CycleError::Fetch(FetchError::Transport(detail)) => headed(
                "Unable to perform spotify player request: ",
                detail,
            ),
            CycleError::Fetch(FetchError::Unreadable(detail)) => headed(
                "Unable to read text from API Request: ",
                detail,
            ),
            CycleError::Fetch(FetchError::Parse(detail)) => headed(
                "Unable to parse spotify API response: ",
                detail,
            ),
            CycleError::Fetch(FetchError::UnexpectedStatus(_)) => String::from_str(
                "Spotify API answered with an unknown http code",
            ),
            CycleError::Refresh(RefreshError::Transport(detail)) => headed(
                "Unable to update access token: ",
                detail,
            ),
            CycleError::Refresh(RefreshError::CacheWrite(detail)) => headed(
                "Unable to write to cache: ",
                detail,
            ),
            CycleError::Sync(SyncError::Lookup(detail)) => headed(
                "Unable to find last song: ",
                detail,
            ),
            CycleError::Sync(SyncError::Persist(detail)) => headed(
                "Unable to register song to database: ",
                detail,
            ),
            CycleError::Sync(SyncError::Blob(BlobError::Lookup(detail))) => headed(
                "Unable to check if album cover is present: ",
                detail,
            ),
            CycleError::Sync(SyncError::Blob(BlobError::FetchFailed(detail))) => headed(
                "Unable to fetch album cover: ",
                detail,
            ),
            CycleError::Sync(SyncError::Blob(BlobError::Unreadable(detail))) => headed(
                "Unable to read album cover response: ",
                detail,
            ),
            CycleError::Sync(SyncError::Blob(BlobError::TooLarge)) => String::from_str(
                "Unable to keep album cover: it is too large",
            ),
            CycleError::Sync(SyncError::Blob(BlobError::Persist(detail))) => headed(
                "Unable to register database event: ",
                detail,
            ),
            CycleError::UnexpectedReply => String::from_str(
                "The reply does not answer the pending request",
            ),
        }
    }
}

/// What is reported of a cycle: every failure, and the grant answer that
/// was malformed.
pub open spec fn reported(outcome: Result<CycleOutcomeView, CycleErrorView>) -> Option<
    ErrorReportView,
> {
    match outcome {
        Err(error) => Some(
            ErrorReportView { kind: error.kind(), detail: error.message(), source: plugin_name() },
        ),
        Ok(CycleOutcomeView::RefreshIgnored(detail)) => Some(
            ErrorReportView { kind: ErrorKind::Parse, detail, source: plugin_name() },
        ),
        Ok(_) => None,
    }
}

/// What follows a cycle that ended with `outcome`: the fixed delay,
/// whatever happened, and the report.
pub open spec fn scheduled(outcome: Result<CycleOutcomeView, CycleErrorView>) -> ScheduleView {
    ScheduleView { delay_seconds: Some(CYCLE_DELAY_SECONDS), report: reported(outcome) }
}

impl Plugin {
    /// Says what follows a cycle. No outcome ends the loop: after a failure
    /// the next cycle is as far away as after a success, and the failure is
    /// handed on as a report.
    pub fn request_loop(outcome: Result<CycleOutcome, CycleError>) -> (schedule: Schedule)
        ensures
            schedule@ == scheduled(result_view(outcome)),
            schedule.delay_seconds == Some(CYCLE_DELAY_SECONDS),
    {
        let report = match outcome {
            Err(error) => Some(
                ErrorReport {
                    kind: error.kind(),
                    detail: error.message(),
                    source: Plugin::get_type(),
                },
            ),
            Ok(CycleOutcome::RefreshIgnored(detail)) => Some(
                ErrorReport { kind: ErrorKind::Parse, detail, source: Plugin::get_type() },
            ),
            Ok(_) => None,
        };
        Schedule { delay_seconds: Some(CYCLE_DELAY_SECONDS), report }
    }
}

/// Where the loop stands.
#[derive(Clone, Copy, Debug, PartialEq, Eq, Structural)]
pub enum PollState {
    /// A cycle is under way.
    Running,
    /// The loop waits for the delay to pass.
    Sleeping,
    /// The loop has ended for good.
    Stopped,
}

/// What happened to the loop.
#[derive(Clone, Copy, Debug, PartialEq, Eq, Structural)]
pub enum PollEvent {
    /// The cycle ended and asks for this delay, or for the end of the loop.
    CycleEnded(Option<u64>),
    /// The delay has passed.
    Woke,
}

/// What the loop's host does next.
#[derive(Clone, Copy, Debug, PartialEq, Eq, Structural)]
pub enum PollAction {
    RunCycle,
    Sleep(u64),
    Stop,
}

/// The loop: a cycle that asks for a delay is followed by a sleep of that
/// length and then by another cycle; a cycle that asks for none ends the
/// loop, and nothing starts it again.
pub open spec fn poll_next(state: PollState, event: PollEvent) -> (PollState, PollAction) {
    match (state, event) {
        (PollState::Stopped, _) => (PollState::Stopped, PollAction::Stop),
        (_, PollEvent::CycleEnded(None)) => (PollState::Stopped, PollAction::Stop),
        (_, PollEvent::CycleEnded(Some(delay))) => (PollState::Sleeping, PollAction::Sleep(delay)),
        (_, PollEvent::Woke) => (PollState::Running, PollAction::RunCycle),
    }
}

/// Moves the loop on by one event.
pub fn poll_step(state: PollState, event: PollEvent) -> (next: (PollState, PollAction))
    ensures
        next == poll_next(state, event),
{
    match (state, event) {
        (PollState::Stopped, _) => (PollState::Stopped, PollAction::Stop),
        (_, PollEvent::CycleEnded(None)) => (PollState::Stopped, PollAction::Stop),
        (_, PollEvent::CycleEnded(Some(delay))) => (PollState::Sleeping, PollAction::Sleep(delay)),
        (_, PollEvent::Woke) => (PollState::Running, PollAction::RunCycle),
    }
}

/// No failure halts the loop: after a cycle that failed, for whatever
/// reason, the loop sleeps for the fixed delay and then runs another cycle.
pub proof fn failure_does_not_halt_the_loop(error: CycleErrorView)
    ensures
        poll_next(
            PollState::Running,
            PollEvent::CycleEnded(
                scheduled(Err::<CycleOutcomeView, CycleErrorView>(error)).delay_seconds,
            ),
        ) == (PollState::Sleeping, PollAction::Sleep(CYCLE_DELAY_SECONDS)),
        poll_next(PollState::Sleeping, PollEvent::Woke) == (
            PollState::Running,
            PollAction::RunCycle,
        ),
        scheduled(Err::<CycleOutcomeView, CycleErrorView>(error)).report is Some,
{
}

} // verus!
