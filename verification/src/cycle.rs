//! One synchronization cycle as a sequence of requests and replies.
//!
//! A cycle reads the player, refreshes the credential when it was turned
//! down, and otherwise writes what is playing unless the store's latest
//! observation is the same. The cycle never performs a request itself: each
//! step names the request to make and what it then waits for, and the host
//! comes back with the reply.

use vstd::prelude::*;
use vstd::string::*;

use crate::blob::{blob_of, BlobError, BlobErrorView, CoverFailure, CoverFailureView};
use crate::event::{
    Blob, Observation, ObservationView, Payload, PayloadView, PersistedEvent,
    PersistedEventView,
};
use crate::fetch::{
    interpreted, player_request_for, FetchError, FetchErrorView, Fetched, FetchedView,
    PlayerReply, PlayerReplyView, PlayerRequest, PlayerRequestView,
};
use crate::outside::{base64_input_limit, json_integer, now_millis};
use crate::plugin::{base64_input_limit_exec, plugin_name, Plugin, PluginView};
use crate::refresh::{
    plugin_after_refresh, refreshed, token_request_for, RefreshError, RefreshErrorView,
    Refreshed, RefreshedView, TokenReply, TokenReplyView, TokenRequest, TokenRequestView,
};
use crate::text::{decimal, decimal_holds_numeral_chars, decimal_is_injective, is_numeral_char};
use crate::views::{option_view, result_view};

verus! {

/// Why the observation was not written.
#[derive(Debug, PartialEq, Eq)]
pub enum SyncError {
    /// The store could not say what it holds last.
    Lookup(String),
    /// The cover could not be ensured.
    Blob(BlobError),
    /// The store did not take the observation.
    Persist(String),
}

pub enum SyncErrorView {
    Lookup(Seq<char>),
    Blob(BlobErrorView),
    Persist(Seq<char>),
}

impl View for SyncError {
    type V = SyncErrorView;

    open spec fn view(&self) -> SyncErrorView {
        match self {
            SyncError::Lookup(detail) => SyncErrorView::Lookup(detail@),
            SyncError::Blob(error) => SyncErrorView::Blob(error@),
            SyncError::Persist(detail) => SyncErrorView::Persist(detail@),
        }
    }
}

/// Why a cycle ended early.
#[derive(Debug, PartialEq, Eq)]
pub enum CycleError {
    Fetch(FetchError),
    Refresh(RefreshError),
    Sync(SyncError),
    /// The reply does not answer the request that was pending.
    UnexpectedReply,
}

pub enum CycleErrorView {
    Fetch(FetchErrorView),
    Refresh(RefreshErrorView),
    Sync(SyncErrorView),
    UnexpectedReply,
}

impl View for CycleError {
    type V = CycleErrorView;

    open spec fn view(&self) -> CycleErrorView {
        match self {
            CycleError::Fetch(error) => CycleErrorView::Fetch(error@),
            CycleError::Refresh(error) => CycleErrorView::Refresh(error@),
            CycleError::Sync(error) => CycleErrorView::Sync(error@),
            CycleError::UnexpectedReply => CycleErrorView::UnexpectedReply,
        }
    }
}

/// How a cycle ended when it did not fail.
#[derive(Debug, PartialEq, Eq)]
pub enum CycleOutcome {
    /// Nothing is playing.
    Idle,
    /// The credential was turned down; a new one is cached and persisted.
    Refreshed,
    /// The credential was turned down and the grant's answer was malformed.
    RefreshIgnored(String),
    /// What is playing is what the store holds last.
    Unchanged,
    /// A new observation was written.
    Stored,
    /// The cover is in the store, and nothing else was asked for.
    CoverEnsured,
}

pub enum CycleOutcomeView {
    Idle,
    Refreshed,
    RefreshIgnored(Seq<char>),
    Unchanged,
    Stored,
    CoverEnsured,
}

impl View for CycleOutcome {
    type V = CycleOutcomeView;

    open spec fn view(&self) -> CycleOutcomeView {
        match self {
            CycleOutcome::Idle => CycleOutcomeView::Idle,
            CycleOutcome::Refreshed => CycleOutcomeView::Refreshed,
            CycleOutcome::RefreshIgnored(detail) => CycleOutcomeView::RefreshIgnored(detail@),
            CycleOutcome::Unchanged => CycleOutcomeView::Unchanged,
            CycleOutcome::Stored => CycleOutcomeView::Stored,
            CycleOutcome::CoverEnsured => CycleOutcomeView::CoverEnsured,
        }
    }
}

/// What the cycle asks the host to do.
#[derive(Debug, PartialEq, Eq)]
pub enum Request {
    /// Read the player's state.
    Player(PlayerRequest),
    /// Ask for a new credential.
    Token(TokenRequest),
    /// Keep this text as the persisted credential.
    PersistCredential(String),
    /// Find the latest observation that `source` stored.
    FindLastSong { source: String },
    /// Count the blobs that `source` stored for `url`.
    CountBlobs { source: String, url: String },
    /// Fetch the bytes behind `url`.
    FetchCover { url: String },
    /// Insert this event.
    Insert(PersistedEvent),
}

pub enum RequestView {
    Player(PlayerRequestView),
    Token(TokenRequestView),
    PersistCredential(Seq<char>),
    FindLastSong { source: Seq<char> },
    CountBlobs { source: Seq<char>, url: Seq<char> },
    FetchCover { url: Seq<char> },
    Insert(PersistedEventView),
}

impl View for Request {
    type V = RequestView;

    open spec fn view(&self) -> RequestView {
        match self {
            Request::Player(request) => RequestView::Player(request@),
            Request::Token(request) => RequestView::Token(request@),
            Request::PersistCredential(text) => RequestView::PersistCredential(text@),
            Request::FindLastSong { source } => RequestView::FindLastSong { source: source@ },
            Request::CountBlobs { source, url } => RequestView::CountBlobs {
                source: source@,
                url: url@,
            },
            Request::FetchCover { url } => RequestView::FetchCover { url: url@ },
            Request::Insert(event) => RequestView::Insert(event@),
        }
    }
}

/// What the host comes back with.
#[derive(Debug, PartialEq, Eq)]
pub enum Reply {
    Player(PlayerReply),
    Token(TokenReply),
    /// Whether the credential was persisted.
    CredentialWritten(Result<(), String>),
    /// The identifier of the latest observation stored, if there is one.
    LastSong(Result<Option<String>, String>),
    BlobCount(Result<u64, String>),
    Cover(Result<Vec<u8>, CoverFailure>),
    Inserted(Result<(), String>),
}

pub enum ReplyView {
    Player(PlayerReplyView),
    Token(TokenReplyView),
    CredentialWritten(Result<(), Seq<char>>),
    LastSong(Result<Option<Seq<char>>, Seq<char>>),
    BlobCount(Result<u64, Seq<char>>),
    Cover(Result<Seq<u8>, CoverFailureView>),
    Inserted(Result<(), Seq<char>>),
}

impl View for Reply {
    type V = ReplyView;

    open spec fn view(&self) -> ReplyView {
        match self {
            Reply::Player(reply) => ReplyView::Player(reply@),
            Reply::Token(reply) => ReplyView::Token(reply@),
            Reply::CredentialWritten(written) => ReplyView::CredentialWritten(
                result_view(*written),
            ),
            Reply::LastSong(found) => ReplyView::LastSong(
                match found {
                    Ok(id) => Ok(option_view(*id)),
                    Err(detail) => Err(detail@),
                },
            ),
            Reply::BlobCount(count) => ReplyView::BlobCount(result_view(*count)),
            Reply::Cover(cover) => ReplyView::Cover(result_view(*cover)),
            Reply::Inserted(inserted) => ReplyView::Inserted(result_view(*inserted)),
        }
    }
}

/// What a cycle waits for, and what it keeps in mind meanwhile. While a
/// cover is being ensured, `then` is the observation to write once the
/// cover is in the store, if there is one.
#[derive(Debug, PartialEq, Eq)]
pub enum Pending {
    Player,
    Token,
    CredentialWrite,
    LastSong { song: Observation },
    BlobCount { url: String, then: Option<Observation> },
    Cover { url: String, timing: i64, then: Option<Observation> },
    BlobWrite { timing: i64, then: Option<Observation> },
    SongWrite,
}

pub enum PendingView {
    Player,
    Token,
    CredentialWrite,
    LastSong { song: ObservationView },
    BlobCount { url: Seq<char>, then: Option<ObservationView> },
    Cover { url: Seq<char>, timing: int, then: Option<ObservationView> },
    BlobWrite { timing: int, then: Option<ObservationView> },
    SongWrite,
}

impl View for Pending {
    type V = PendingView;

    open spec fn view(&self) -> PendingView {
        match self {
            Pending::Player => PendingView::Player,
            Pending::Token => PendingView::Token,
            Pending::CredentialWrite => PendingView::CredentialWrite,
            Pending::LastSong { song } => PendingView::LastSong { song: song@ },
            Pending::BlobCount { url, then } => PendingView::BlobCount {
                url: url@,
                then: option_view(*then),
            },
            Pending::Cover { url, timing, then } => PendingView::Cover {
                url: url@,
                timing: *timing as int,
                then: option_view(*then),
            },
            Pending::BlobWrite { timing, then } => PendingView::BlobWrite {
                timing: *timing as int,
                then: option_view(*then),
            },
            Pending::SongWrite => PendingView::SongWrite,
        }
    }
}

impl PendingView {
    /// How many requests a cycle can still make from here, at most.
    pub open spec fn rank(self) -> nat {
        match self {
            PendingView::Player => 7,
            PendingView::Token => 2,
            PendingView::CredentialWrite => 1,
            PendingView::LastSong { .. } => 5,
            PendingView::BlobCount { .. } => 4,
            PendingView::Cover { .. } => 3,
            PendingView::BlobWrite { .. } => 2,
            PendingView::SongWrite => 1,
        }
    }
}

/// A step of the cycle: a request to make and what is then pending, or the
/// end of the cycle.
#[derive(Debug, PartialEq, Eq)]
pub enum Step {
    Ask(Request, Pending),
    Finish(Result<CycleOutcome, CycleError>),
}

pub enum StepView {
    Ask(RequestView, PendingView),
    Finish(Result<CycleOutcomeView, CycleErrorView>),
}

impl View for Step {
    type V = StepView;

    open spec fn view(&self) -> StepView {
        match self {
            Step::Ask(request, pending) => StepView::Ask(request@, pending@),
            Step::Finish(outcome) => StepView::Finish(result_view(*outcome)),
        }
    }
}

/// The identifier of an observation's event: the observation's own
/// identifier, `@`, and the timing in decimal.
pub open spec fn composite_id(id: Seq<char>, serialized_timing: Seq<char>) -> Seq<char> {
    id + "@"@ + serialized_timing
}

/// A composite identifier is read in one way only: two of them are equal
/// only where the observations' identifiers and the timings are. So the
/// events of one observation made at different times never share an
/// identifier.
pub proof fn composite_id_is_injective(
    id: Seq<char>,
    timing: int,
    other_id: Seq<char>,
    other_timing: int,
)
    requires
        composite_id(id, decimal(timing)) == composite_id(other_id, decimal(other_timing)),
    ensures
        id == other_id,
        timing == other_timing,
{
    reveal_strlit("@");
    let at = "@"@;
    let numeral = decimal(timing);
    let other_numeral = decimal(other_timing);
    let whole = composite_id(id, numeral);
    let other_whole = composite_id(other_id, other_numeral);
    decimal_holds_numeral_chars(timing);
    decimal_holds_numeral_chars(other_timing);
    assert(at.len() == 1 && at[0] == '@');
    assert(whole.len() == id.len() + 1 + numeral.len());
    assert(other_whole.len() == other_id.len() + 1 + other_numeral.len());
    assert(whole[id.len() as int] == '@');
    assert(other_whole[other_id.len() as int] == '@');
    if id.len() < other_id.len() {
        let k = other_id.len() as int;
        assert(whole[k] == numeral[k - id.len() - 1]);
        assert(is_numeral_char(numeral[k - id.len() - 1]));
        assert(false);
    }
    if other_id.len() < id.len() {
        let k = id.len() as int;
        assert(other_whole[k] == other_numeral[k - other_id.len() - 1]);
        assert(is_numeral_char(other_numeral[k - other_id.len() - 1]));
        assert(false);
    }
    assert(id =~= other_id) by {
        assert forall|i: int| 0 <= i < id.len() implies id[i] == other_id[i] by {
            assert(whole[i] == id[i]);
            assert(other_whole[i] == other_id[i]);
        }
    }
    assert(numeral =~= other_numeral) by {
        assert forall|i: int| 0 <= i < numeral.len() implies numeral[i] == other_numeral[i] by {
            assert(whole[id.len() + 1 + i] == numeral[i]);
            assert(other_whole[id.len() + 1 + i] == other_numeral[i]);
        }
    }
    decimal_is_injective(timing, other_timing);
}

/// The event that records `song` at `timing`.
pub open spec fn song_event(song: ObservationView, timing: int) -> PersistedEventView {
    PersistedEventView {
        id: composite_id(song.id, decimal(timing)),
        timing,
        source: plugin_name(),
        payload: PayloadView::Song(song),
    }
}

/// The event that keeps `bytes` as the blob of `url`. Its identifier is the
/// URL, so a store holds one blob for a URL at most.
pub open spec fn blob_event(url: Seq<char>, bytes: Seq<u8>, timing: int) -> PersistedEventView {
    PersistedEventView {
        id: url,
        timing,
        source: plugin_name(),
        payload: PayloadView::ImageData(blob_of(url, bytes)),
    }
}

/// The step that opens the writing of `song`: ask the store for its latest
/// observation.
pub open spec fn sync_step(song: ObservationView) -> StepView {
    StepView::Ask(
        RequestView::FindLastSong { source: plugin_name() },
        PendingView::LastSong { song },
    )
}

/// The step that opens the ensuring of a cover, with `then` to write after
/// it: ask the store how many blobs it holds for the cover's address.
pub open spec fn ensure_step(url: Seq<char>, then: Option<ObservationView>) -> StepView {
    StepView::Ask(
        RequestView::CountBlobs { source: plugin_name(), url },
        PendingView::BlobCount { url, then },
    )
}

/// The step that follows the ensuring of a cover: the observation is
/// written with the timing that the cover's blob has, or the work is done.
pub open spec fn step_after_cover(then: Option<ObservationView>, timing: int) -> StepView {
    match then {
        Some(song) => StepView::Ask(
            RequestView::Insert(song_event(song, timing)),
            PendingView::SongWrite,
        ),
        None => StepView::Finish(Ok(CycleOutcomeView::CoverEnsured)),
    }
}

/// The first step of a cycle: read the player's state.
pub open spec fn first_step(plugin: PluginView) -> StepView {
    StepView::Ask(RequestView::Player(player_request_for(plugin.credential)), PendingView::Player)
}

/// The plugin after a reply: only a token that answers a pending grant
/// request changes it.
pub open spec fn plugin_after(plugin: PluginView, pending: PendingView, reply: ReplyView)
    -> PluginView {
    match (pending, reply) {
        (PendingView::Token, ReplyView::Token(answer)) => plugin_after_refresh(plugin, answer),
        _ => plugin,
    }
}

/// The step that follows when `reply` arrives while `pending` is awaited,
/// with `now` as the time of day.
pub open spec fn next_step(plugin: PluginView, pending: PendingView, reply: ReplyView, now: int)
    -> StepView {
    match (pending, reply) {
        (PendingView::Player, ReplyView::Player(answer)) => match interpreted(answer) {
            Err(error) => StepView::Finish(Err(CycleErrorView::Fetch(error))),
            Ok(FetchedView::Nothing) => StepView::Finish(Ok(CycleOutcomeView::Idle)),
            Ok(FetchedView::Expired) => StepView::Ask(
                RequestView::Token(token_request_for(plugin.config)),
                PendingView::Token,
            ),
            Ok(FetchedView::Song(song)) => sync_step(song),
        },
        (PendingView::Token, ReplyView::Token(answer)) => match refreshed(answer) {
            Err(error) => StepView::Finish(Err(CycleErrorView::Refresh(error))),
            Ok(RefreshedView::Ignored(detail)) => StepView::Finish(
                Ok(CycleOutcomeView::RefreshIgnored(detail)),
            ),
            Ok(RefreshedView::Stored { persist }) => StepView::Ask(
                RequestView::PersistCredential(persist),
                PendingView::CredentialWrite,
            ),
        },
        (PendingView::CredentialWrite, ReplyView::CredentialWritten(written)) => match written {
            Ok(_) => StepView::Finish(Ok(CycleOutcomeView::Refreshed)),
            Err(detail) => StepView::Finish(
                Err(CycleErrorView::Refresh(RefreshErrorView::CacheWrite(detail))),
            ),
        },
        (PendingView::LastSong { song }, ReplyView::LastSong(found)) => match found {
            Err(detail) => StepView::Finish(
                Err(CycleErrorView::Sync(SyncErrorView::Lookup(detail))),
            ),
            Ok(last) => if last == Some(song.id) {
                StepView::Finish(Ok(CycleOutcomeView::Unchanged))
            } else {
                ensure_step(song.image_url, Some(song))
            },
        },
        (PendingView::BlobCount { url, then }, ReplyView::BlobCount(counted)) => match counted {
            Err(detail) => StepView::Finish(
                Err(CycleErrorView::Sync(SyncErrorView::Blob(BlobErrorView::Lookup(detail)))),
            ),
            Ok(count) => if count < 1 {
                StepView::Ask(
                    RequestView::FetchCover { url },
                    PendingView::Cover { url, timing: now, then },
                )
            } else {
                step_after_cover(then, now)
            },
        },
        (PendingView::Cover { url, timing, then }, ReplyView::Cover(cover)) => match cover {
            Err(CoverFailureView::Unreachable(detail)) => StepView::Finish(
                Err(
                    CycleErrorView::Sync(SyncErrorView::Blob(BlobErrorView::FetchFailed(detail))),
                ),
            ),
            Err(CoverFailureView::Unreadable(detail)) => StepView::Finish(
                Err(CycleErrorView::Sync(SyncErrorView::Blob(BlobErrorView::Unreadable(detail)))),
            ),
            Ok(bytes) => if bytes.len() > base64_input_limit() {
                StepView::Finish(
                    Err(CycleErrorView::Sync(SyncErrorView::Blob(BlobErrorView::TooLarge))),
                )
            } else {
                StepView::Ask(
                    RequestView::Insert(blob_event(url, bytes, timing)),
                    PendingView::BlobWrite { timing, then },
                )
            },
        },
        (PendingView::BlobWrite { timing, then }, ReplyView::Inserted(inserted)) => match inserted {
            Err(detail) => StepView::Finish(
                Err(CycleErrorView::Sync(SyncErrorView::Blob(BlobErrorView::Persist(detail)))),
            ),
            Ok(_) => step_after_cover(then, timing),
        },
        (PendingView::SongWrite, ReplyView::Inserted(inserted)) => match inserted {
            Err(detail) => StepView::Finish(
                Err(CycleErrorView::Sync(SyncErrorView::Persist(detail))),
            ),
            Ok(_) => StepView::Finish(Ok(CycleOutcomeView::Stored)),
        },
        _ => StepView::Finish(Err(CycleErrorView::UnexpectedReply)),
    }
}

/// Every step leaves fewer requests to make.
pub proof fn steps_run_out(plugin: PluginView, pending: PendingView, reply: ReplyView, now: int)
    ensures
        next_step(plugin, pending, reply, now) matches StepView::Ask(_, then) ==> then.rank()
            < pending.rank(),
{
}

/// Writes the identifier of an observation's event from the observation's
/// own identifier and the serialized timing.
pub fn compose_id(id: &str, serialized_timing: &str) -> (composite: String)
    ensures
        composite@ == composite_id(id@, serialized_timing@),
{
    let mut composite = String::from_str(id);
    composite.append("@");
    composite.append(serialized_timing);
    composite
}

/// Builds the event that records `song` at `timing`.
pub fn make_song_event(song: Observation, timing: i64) -> (event: PersistedEvent)
    ensures
        event@ == song_event(song@, timing as int),
{
    let serialized = json_integer(timing).unwrap();
    let id = compose_id(song.id.as_str(), serialized.as_str());
    PersistedEvent { id, timing, source: Plugin::get_type(), payload: Payload::Song(song) }
}

/// Builds the event that keeps `bytes` as the blob of `url`.
pub fn make_blob_event(url: &String, bytes: &Vec<u8>, timing: i64) -> (event: PersistedEvent)
    requires
        bytes@.len() <= base64_input_limit(),
    ensures
        event@ == blob_event(url@, bytes@, timing as int),
{
    PersistedEvent {
        id: url.clone(),
        timing,
        source: Plugin::get_type(),
        payload: Payload::ImageData(Blob::encode(url.clone(), bytes)),
    }
}

/// Opens the writing of `song`: the store is asked for its latest
/// observation, and `song` is written unless that one has its identifier.
pub fn sync(song: Observation) -> (step: Step)
    ensures
        step@ == sync_step(song@),
{
    Step::Ask(Request::FindLastSong { source: Plugin::get_type() }, Pending::LastSong { song })
}

/// Opens the ensuring of the cover behind `url`: the store is asked whether
/// it holds the cover, and the cover is fetched and stored if it does not.
pub fn ensure(url: String) -> (step: Step)
    ensures
        step@ == ensure_step(url@, None),
{
    ensure_and(url, None)
}

/// Opens the ensuring of a cover, with `then` to write after it.
fn ensure_and(url: String, then: Option<Observation>) -> (step: Step)
    ensures
        step@ == ensure_step(url@, option_view(then)),
{
    Step::Ask(
        Request::CountBlobs { source: Plugin::get_type(), url: url.clone() },
        Pending::BlobCount { url, then },
    )
}

/// Goes on after the ensuring of a cover.
fn after_cover(then: Option<Observation>, timing: i64) -> (step: Step)
    ensures
        step@ == step_after_cover(option_view(then), timing as int),
{
    match then {
        Some(song) => Step::Ask(Request::Insert(make_song_event(song, timing)), Pending::SongWrite),
        None => Step::Finish(Ok(CycleOutcome::CoverEnsured)),
    }
}

impl Plugin {
    /// Opens a cycle: the first request reads the player's state with the
    /// cached credential.
    pub fn begin(&self) -> (step: Step)
        ensures
            step@ == first_step(self@),
    {
        Step::Ask(Request::Player(self.player_request()), Pending::Player)
    }

    /// Takes the reply to the pending request and says what comes next,
    /// with `now` as the time in milliseconds since the Unix epoch.
    pub fn advance(&mut self, pending: Pending, reply: Reply, now: i64) -> (step: Step)
        requires
            old(self).wf(),
        ensures
            final(self).wf(),
            final(self)@ == plugin_after(old(self)@, pending@, reply@),
            step@ == next_step(old(self)@, pending@, reply@, now as int),
    {
        match (pending, reply) {
            (Pending::Player, Reply::Player(answer)) => match Plugin::get_current_song(answer) {
                Err(error) => Step::Finish(Err(CycleError::Fetch(error))),
                Ok(Fetched::Nothing) => Step::Finish(Ok(CycleOutcome::Idle)),
                Ok(Fetched::Expired) => Step::Ask(
                    Request::Token(self.token_request()),
                    Pending::Token,
                ),
                Ok(Fetched::Song(song)) => sync(song),
            },
            (Pending::Token, Reply::Token(answer)) => match self.update_access_token(answer) {
                Err(error) => Step::Finish(Err(CycleError::Refresh(error))),
                Ok(Refreshed::Ignored(detail)) => Step::Finish(
                    Ok(CycleOutcome::RefreshIgnored(detail)),
                ),
                Ok(Refreshed::Stored { persist }) => Step::Ask(
                    Request::PersistCredential(persist),
                    Pending::CredentialWrite,
                ),
            },
            (Pending::CredentialWrite, Reply::CredentialWritten(written)) => match written {
                Ok(_) => Step::Finish(Ok(CycleOutcome::Refreshed)),
                Err(detail) => Step::Finish(
                    Err(CycleError::Refresh(RefreshError::CacheWrite(detail))),
                ),
            },
            (Pending::LastSong { song }, Reply::LastSong(found)) => match found {
                Err(detail) => Step::Finish(Err(CycleError::Sync(SyncError::Lookup(detail)))),
                Ok(last) => {
                    let same = match &last {
                        Some(id) => *id == song.id,
                        None => false,
                    };
                    if same {
                        Step::Finish(Ok(CycleOutcome::Unchanged))
                    } else {
                        let url = song.image_url.clone();
                        ensure_and(url, Some(song))
                    }
                },
            },
            (Pending::BlobCount { url, then }, Reply::BlobCount(counted)) => match counted {
                Err(detail) => Step::Finish(
                    Err(CycleError::Sync(SyncError::Blob(BlobError::Lookup(detail)))),
                ),
                Ok(count) => {
                    if count < 1 {
                        Step::Ask(
                            Request::FetchCover { url: url.clone() },
                            Pending::Cover { url, timing: now, then },
                        )
                    } else {
                        after_cover(then, now)
                    }
                },
            },
            (Pending::Cover { url, timing, then }, Reply::Cover(cover)) => match cover {
                Err(CoverFailure::Unreachable(detail)) => Step::Finish(
                    Err(CycleError::Sync(SyncError::Blob(BlobError::FetchFailed(detail)))),
                ),
                Err(CoverFailure::Unreadable(detail)) => Step::Finish(
                    Err(CycleError::Sync(SyncError::Blob(BlobError::Unreadable(detail)))),
                ),
                Ok(bytes) => {
                    if bytes.len() > base64_input_limit_exec() {
                        Step::Finish(Err(CycleError::Sync(SyncError::Blob(BlobError::TooLarge))))
                    } else {
                        let event = make_blob_event(&url, &bytes, timing);
                        Step::Ask(Request::Insert(event), Pending::BlobWrite { timing, then })
                    }
                },
            },
            (Pending::BlobWrite { timing, then }, Reply::Inserted(inserted)) => match inserted {
                Err(detail) => Step::Finish(
                    Err(CycleError::Sync(SyncError::Blob(BlobError::Persist(detail)))),
                ),
                Ok(_) => after_cover(then, timing),
            },
            (Pending::SongWrite, Reply::Inserted(inserted)) => match inserted {
                Err(detail) => Step::Finish(Err(CycleError::Sync(SyncError::Persist(detail)))),
                Ok(_) => Step::Finish(Ok(CycleOutcome::Stored)),
            },
            _ => Step::Finish(Err(CycleError::UnexpectedReply)),
        }
    }

    /// Takes the reply to the pending request and says what comes next. The
    /// time that stamps a new observation is read off the system clock when
    /// the count of blobs arrives.
    pub fn save_current_song(&mut self, pending: Pending, reply: Reply) -> (step: Step)
        requires
            old(self).wf(),
        ensures
            final(self).wf(),
            final(self)@ == plugin_after(old(self)@, pending@, reply@),
            exists|now: int|
                i64::MIN <= now <= i64::MAX && step@ == next_step(
                    old(self)@,
                    pending@,
                    reply@,
                    now,
                ),
    {
        let reads_clock = match &pending {
            Pending::BlobCount { .. } => true,
            _ => false,
        };
        let now: i64 = if reads_clock {
            now_millis()
        } else {
            0
        };
        self.advance(pending, reply, now)
    }
}

} // verus!
