//! A whole cycle, run against the in-memory store and a script of what the
//! world outside answers.
//!
//! A host does with network and disk what `run_cycle` does here with a
//! script: it makes each request the cycle asks for and hands the reply
//! back, until the cycle ends.

use vstd::prelude::*;
use vstd::string::*;

use crate::blob::{CoverFailure, CoverFailureView};
use crate::cycle::{
    first_step, next_step, plugin_after, CycleError, CycleErrorView, CycleOutcome,
    CycleOutcomeView, Reply, ReplyView, Request, RequestView, Step, StepView,
};
use crate::event::{EventKind, Payload, PayloadView, PersistedEventView};
use crate::fetch::{PlayerReply, PlayerReplyView};
use crate::plugin::{Plugin, PluginView};
use crate::refresh::{TokenReply, TokenReplyView};
use crate::store::{
    count_blobs, has_id, inserted, insertion_keeps_ids_unique, latest_song,
    latest_song_is_latest, unique_ids, EventStore,
};
use crate::views::{option_view, result_view};

verus! {

/// The kinds of request, without what they carry.
#[derive(Clone, Copy, Debug, PartialEq, Eq, Structural)]
pub enum RequestKind {
    Player,
    Token,
    PersistCredential,
    FindLastSong,
    CountBlobs,
    FetchCover,
    Insert(EventKind),
}

impl RequestView {
    pub open spec fn kind(self) -> RequestKind {
        match self {
            RequestView::Player(_) => RequestKind::Player,
            RequestView::Token(_) => RequestKind::Token,
            RequestView::PersistCredential(_) => RequestKind::PersistCredential,
            RequestView::FindLastSong { .. } => RequestKind::FindLastSong,
            RequestView::CountBlobs { .. } => RequestKind::CountBlobs,
            RequestView::FetchCover { .. } => RequestKind::FetchCover,
            RequestView::Insert(event) => RequestKind::Insert(event.payload.kind()),
        }
    }
}

impl Request {
    /// The kind of this request.
    pub fn kind(&self) -> (kind: RequestKind)
        ensures
            kind == self@.kind(),
    {
        match self {
            Request::Player(_) => RequestKind::Player,
            Request::Token(_) => RequestKind::Token,
            Request::PersistCredential(_) => RequestKind::PersistCredential,
            Request::FindLastSong { .. } => RequestKind::FindLastSong,
            Request::CountBlobs { .. } => RequestKind::CountBlobs,
            Request::FetchCover { .. } => RequestKind::FetchCover,
            Request::Insert(event) => RequestKind::Insert(event.payload.kind()),
        }
    }
}

/// What the world outside the store will answer, each answer once. A
/// request whose answer is missing or used up fails as one that did not get
/// through.
#[derive(Debug, PartialEq, Eq)]
pub struct Script {
    pub player: Option<PlayerReply>,
    pub token: Option<TokenReply>,
    pub credential_write: Option<Result<(), String>>,
    pub cover: Option<Result<Vec<u8>, CoverFailure>>,
}

pub struct ScriptView {
    pub player: Option<PlayerReplyView>,
    pub token: Option<TokenReplyView>,
    pub credential_write: Option<Result<(), Seq<char>>>,
    pub cover: Option<Result<Seq<u8>, CoverFailureView>>,
}

impl View for Script {
    type V = ScriptView;

    open spec fn view(&self) -> ScriptView {
        ScriptView {
            player: option_view(self.player),
            token: option_view(self.token),
            credential_write: match self.credential_write {
                Some(written) => Some(result_view(written)),
                None => None,
            },
            cover: match self.cover {
                Some(cover) => Some(result_view(cover)),
                None => None,
            },
        }
    }
}

/// What is said of a request that the script has no answer for.
pub open spec fn unanswered() -> Seq<char> {
    "the script holds no answer"@
}

/// What is said of an insertion that the store turned down.
pub open spec fn duplicate() -> Seq<char> {
    "an event with this identifier exists"@
}

/// The identifier of the latest observation that `source` stored.
pub open spec fn last_song_id(events: Seq<PersistedEventView>, source: Seq<char>) -> Option<
    Seq<char>,
> {
    match latest_song(events, source) {
        Some(i) => match events[i].payload {
            PayloadView::Song(observation) => Some(observation.id),
            PayloadView::ImageData(_) => None,
        },
        None => None,
    }
}

/// A count as a store reports it: what does not fit the report's number is
/// reported as the greatest number it has.
pub open spec fn reported_count(count: nat) -> u64 {
    if count > u64::MAX {
        u64::MAX
    } else {
        count as u64
    }
}

/// The reply that store and script give to a request.
pub open spec fn reply_to(events: Seq<PersistedEventView>, script: ScriptView, request: RequestView)
    -> ReplyView {
    match request {
        RequestView::Player(_) => ReplyView::Player(
            match script.player {
                Some(reply) => reply,
                None => PlayerReplyView::Unreachable(unanswered()),
            },
        ),
        RequestView::Token(_) => ReplyView::Token(
            match script.token {
                Some(reply) => reply,
                None => TokenReplyView::Unreachable(unanswered()),
            },
        ),
        RequestView::PersistCredential(_) => ReplyView::CredentialWritten(
            match script.credential_write {
                Some(written) => written,
                None => Err(unanswered()),
            },
        ),
        RequestView::FetchCover { .. } => ReplyView::Cover(
            match script.cover {
                Some(cover) => cover,
                None => Err(CoverFailureView::Unreachable(unanswered())),
            },
        ),
        RequestView::FindLastSong { source } => ReplyView::LastSong(
            Ok(last_song_id(events, source)),
        ),
        RequestView::CountBlobs { source, url } => ReplyView::BlobCount(
            Ok(reported_count(count_blobs(events, source, url))),
        ),
        RequestView::Insert(event) => ReplyView::Inserted(
            if has_id(events, event.id) {
                Err(duplicate())
            } else {
                Ok(())
            },
        ),
    }
}

/// The store after a request: only an insertion changes it.
pub open spec fn events_after(events: Seq<PersistedEventView>, request: RequestView) -> Seq<
    PersistedEventView,
> {
    match request {
        RequestView::Insert(event) => inserted(events, event),
        _ => events,
    }
}

/// The script after a request: the answer given is used up.
pub open spec fn script_after(script: ScriptView, request: RequestView) -> ScriptView {
    match request {
        RequestView::Player(_) => ScriptView { player: None, ..script },
        RequestView::Token(_) => ScriptView { token: None, ..script },
        RequestView::PersistCredential(_) => ScriptView { credential_write: None, ..script },
        RequestView::FetchCover { .. } => ScriptView { cover: None, ..script },
        _ => script,
    }
}

/// How a cycle ended and what it left behind.
pub struct RunView {
    pub plugin: PluginView,
    pub events: Seq<PersistedEventView>,
    pub outcome: Result<CycleOutcomeView, CycleErrorView>,
    pub log: Seq<RequestKind>,
}

impl StepView {
    /// How many requests a cycle can still make from this step, at most.
    pub open spec fn rank(self) -> nat {
        match self {
            StepView::Ask(_, pending) => pending.rank(),
            StepView::Finish(_) => 0,
        }
    }
}

/// The rest of a cycle from `step` on.
pub open spec fn driven(
    plugin: PluginView,
    events: Seq<PersistedEventView>,
    script: ScriptView,
    step: StepView,
    now: int,
) -> RunView
    decreases step.rank(),
{
    match step {
        StepView::Finish(outcome) => RunView { plugin, events, outcome, log: Seq::empty() },
        StepView::Ask(request, pending) => {
            let reply = reply_to(events, script, request);
            let rest = driven(
                plugin_after(plugin, pending, reply),
                events_after(events, request),
                script_after(script, request),
                next_step(plugin, pending, reply, now),
                now,
            );
            RunView { log: seq![request.kind()] + rest.log, ..rest }
        },
    }
}

/// A whole cycle of `plugin` on `events`, with `script` for the world
/// outside and `now` for the time.
pub open spec fn cycle_run(
    plugin: PluginView,
    events: Seq<PersistedEventView>,
    script: ScriptView,
    now: int,
) -> RunView {
    driven(plugin, events, script, first_step(plugin), now)
}

/// How a cycle ended, and the requests it made in their order.
#[derive(Debug, PartialEq, Eq)]
pub struct Run {
    pub outcome: Result<CycleOutcome, CycleError>,
    pub log: Vec<RequestKind>,
}

impl EventStore {
    /// The identifier of the latest observation that `source` stored.
    pub fn last_song_id(&self, source: &String) -> (id: Option<String>)
        ensures
            option_view(id) == last_song_id(self@, source@),
    {
        proof {
            latest_song_is_latest(self@, source@);
        }
        match self.latest_song(source) {
            Some(i) => match self.get(i) {
                Some(event) => match &event.payload {
                    Payload::Song(observation) => Some(observation.id.clone()),
                    Payload::ImageData(_) => None,
                },
                None => None,
            },
            None => None,
        }
    }
}

/// Answers `request` from the store and the script, and applies it to both.
pub fn answer(store: &mut EventStore, script: &mut Script, request: Request) -> (reply: Reply)
    ensures
        reply@ == reply_to(old(store)@, old(script)@, request@),
        final(store)@ == events_after(old(store)@, request@),
        final(script)@ == script_after(old(script)@, request@),
{
    match request {
        Request::Player(_) => Reply::Player(
            match script.player.take() {
                Some(reply) => reply,
                None => PlayerReply::Unreachable(String::from_str("the script holds no answer")),
            },
        ),
        Request::Token(_) => Reply::Token(
            match script.token.take() {
                Some(reply) => reply,
                None => TokenReply::Unreachable(String::from_str("the script holds no answer")),
            },
        ),
        Request::PersistCredential(_) => Reply::CredentialWritten(
            match script.credential_write.take() {
                Some(written) => written,
                None => Err(String::from_str("the script holds no answer")),
            },
        ),
        Request::FetchCover { .. } => Reply::Cover(
            match script.cover.take() {
                Some(cover) => cover,
                None => Err(
                    CoverFailure::Unreachable(String::from_str("the script holds no answer")),
                ),
            },
        ),
        Request::FindLastSong { source } => Reply::LastSong(Ok(store.last_song_id(&source))),
        Request::CountBlobs { source, url } => Reply::BlobCount(
            Ok(store.count_blobs(&source, &url) as u64),
        ),
        Request::Insert(event) => Reply::Inserted(
            match store.insert_one(event) {
                Ok(_) => Ok(()),
                Err(_) => Err(String::from_str("an event with this identifier exists")),
            },
        ),
    }
}

/// Carries a cycle on from `step` to its end, against `store`, with
/// `script` for the world outside and `now` for the time.
pub fn drive(plugin: &mut Plugin, store: &mut EventStore, script: Script, step: Step, now: i64)
    -> (run: Run)
    requires
        old(plugin).wf(),
    ensures
        final(plugin).wf(),
        final(plugin)@ == driven(old(plugin)@, old(store)@, script@, step@, now as int).plugin,
        final(store)@ == driven(old(plugin)@, old(store)@, script@, step@, now as int).events,
        result_view(run.outcome) == driven(
            old(plugin)@,
            old(store)@,
            script@,
            step@,
            now as int,
        ).outcome,
        run.log@ == driven(old(plugin)@, old(store)@, script@, step@, now as int).log,
        unique_ids(old(store)@) ==> unique_ids(final(store)@),
{
    let ghost whole = driven(plugin@, store@, script@, step@, now as int);
    let ghost first_events = store@;
    let ghost first_script = script@;
    let ghost first_step = step@;
    let mut left = script;
    let mut current = step;
    let mut log: Vec<RequestKind> = Vec::new();
    proof {
        assert(log@ + whole.log =~= whole.log);
    }
    loop
        invariant
            plugin.wf(),
            first_events == old(store)@,
            first_script == script@,
            first_step == step@,
            whole == driven(old(plugin)@, old(store)@, first_script, first_step, now as int),
            whole.plugin == driven(plugin@, store@, left@, current@, now as int).plugin,
            whole.events == driven(plugin@, store@, left@, current@, now as int).events,
            whole.outcome == driven(plugin@, store@, left@, current@, now as int).outcome,
            whole.log == log@ + driven(plugin@, store@, left@, current@, now as int).log,
            unique_ids(first_events) ==> unique_ids(store@),
        decreases current@.rank(),
    {
        match current {
            Step::Finish(outcome) => {
                proof {
                    assert(log@ + Seq::<RequestKind>::empty() =~= log@);
                }
                return Run { outcome, log };
            },
            Step::Ask(request, pending) => {
                let ghost before = driven(plugin@, store@, left@, current@, now as int);
                let ghost logged = log@;
                let ghost asked = request@;
                proof {
                    if let RequestView::Insert(event) = asked {
                        insertion_keeps_ids_unique(store@, event);
                    }
                }
                log.push(request.kind());
                let reply = answer(store, &mut left, request);
                current = plugin.advance(pending, reply, now);
                proof {
                    let rest = driven(plugin@, store@, left@, current@, now as int);
                    assert(before.log == seq![asked.kind()] + rest.log);
                    assert(logged.push(asked.kind()) + rest.log =~= logged + (seq![asked.kind()]
                        + rest.log));
                }
            },
        }
    }
}

/// Runs one cycle of `plugin` against `store`, with `script` for the world
/// outside and `now` for the time.
pub fn run_cycle(plugin: &mut Plugin, store: &mut EventStore, script: Script, now: i64) -> (run:
    Run)
    requires
        old(plugin).wf(),
    ensures
        final(plugin).wf(),
        final(plugin)@ == cycle_run(old(plugin)@, old(store)@, script@, now as int).plugin,
        final(store)@ == cycle_run(old(plugin)@, old(store)@, script@, now as int).events,
        result_view(run.outcome) == cycle_run(
            old(plugin)@,
            old(store)@,
            script@,
            now as int,
        ).outcome,
        run.log@ == cycle_run(old(plugin)@, old(store)@, script@, now as int).log,
        unique_ids(old(store)@) ==> unique_ids(final(store)@),
{
    let step = plugin.begin();
    drive(plugin, store, script, step, now)
}

} // verus!
