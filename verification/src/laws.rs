//! What holds of every cycle, whatever the store holds and whatever the
//! world outside answers.

use vstd::prelude::*;

use crate::blob::{BlobErrorView, CoverFailureView};
use crate::cycle::{
    blob_event, ensure_step, song_event, sync_step, CycleErrorView, CycleOutcomeView,
    PendingView, RequestView, StepView, SyncErrorView,
};
use crate::event::{EventKind, ObservationView, PersistedEventView};
use crate::fetch::{interpreted, FetchedView};
use crate::outside::base64_input_limit;
use crate::plugin::{plugin_name, PluginView};
use crate::refresh::{plugin_after_refresh, refreshed, RefreshedView, TokenReplyView};
use crate::run::{
    cycle_run, driven, duplicate, last_song_id, reported_count, unanswered, RequestKind,
    RunView, ScriptView,
};
use crate::store::{count_blobs, has_id, inserted, is_song_of};

verus! {

/// The script answers the player request with a reply that yields `song`.
pub open spec fn plays(script: ScriptView, song: ObservationView) -> bool {
    script.player matches Some(reply) && interpreted(reply) == Ok::<
        FetchedView,
        crate::fetch::FetchErrorView,
    >(FetchedView::Song(song))
}

/// The script answers the player request with a reply that turns the
/// credential down.
pub open spec fn turns_down(script: ScriptView) -> bool {
    script.player matches Some(reply) && interpreted(reply) == Ok::<
        FetchedView,
        crate::fetch::FetchErrorView,
    >(FetchedView::Expired)
}

/// The token reply of a script, as the grant request receives it.
pub open spec fn token_reply(script: ScriptView) -> TokenReplyView {
    match script.token {
        Some(reply) => reply,
        None => TokenReplyView::Unreachable(crate::run::unanswered()),
    }
}

/// How many observations of this plugin a store holds.
pub open spec fn count_songs(events: Seq<PersistedEventView>) -> nat
    decreases events.len(),
{
    if events.len() == 0 {
        0
    } else {
        count_songs(events.drop_last()) + if is_song_of(events.last(), plugin_name()) {
            1nat
        } else {
            0nat
        }
    }
}

/// What the last request of a cycle does: the store takes the observation's
/// event unless its identifier is taken.
pub open spec fn song_written(
    plugin: PluginView,
    events: Seq<PersistedEventView>,
    song: ObservationView,
    timing: int,
) -> RunView {
    let event = song_event(song, timing);
    RunView {
        plugin,
        events: inserted(events, event),
        outcome: if has_id(events, event.id) {
            Err(CycleErrorView::Sync(SyncErrorView::Persist(duplicate())))
        } else {
            Ok(CycleOutcomeView::Stored)
        },
        log: seq![RequestKind::Insert(EventKind::Song)],
    }
}

/// Why the cover of a script cannot be kept, if it cannot.
pub open spec fn cover_failure(script: ScriptView) -> Option<BlobErrorView> {
    match script.cover {
        None => Some(BlobErrorView::FetchFailed(unanswered())),
        Some(Err(CoverFailureView::Unreachable(detail))) => Some(
            BlobErrorView::FetchFailed(detail),
        ),
        Some(Err(CoverFailureView::Unreadable(detail))) => Some(BlobErrorView::Unreadable(detail)),
        Some(Ok(bytes)) => if bytes.len() > base64_input_limit() {
            Some(BlobErrorView::TooLarge)
        } else {
            None
        },
    }
}

/// What the ensuring of a cover leaves behind: the store, the failure if
/// there was one, and the requests made.
pub struct EnsuredView {
    pub events: Seq<PersistedEventView>,
    pub failure: Option<BlobErrorView>,
    pub log: Seq<RequestKind>,
}

/// What the ensuring of the cover behind `url` does. Where the store holds
/// a blob for `url`, nothing but the count is asked. Where it holds none,
/// the bytes are fetched and stored as a blob at `now`; if they cannot be,
/// the store stays as it was.
pub open spec fn cover_ensured(
    events: Seq<PersistedEventView>,
    script: ScriptView,
    url: Seq<char>,
    now: int,
) -> EnsuredView {
    if count_blobs(events, plugin_name(), url) >= 1 {
        EnsuredView { events, failure: None, log: seq![RequestKind::CountBlobs] }
    } else {
        match cover_failure(script) {
            Some(error) => EnsuredView {
                events,
                failure: Some(error),
                log: seq![RequestKind::CountBlobs, RequestKind::FetchCover],
            },
            None => {
                let blob = blob_event(url, script.cover->0->Ok_0, now);
                EnsuredView {
                    events: inserted(events, blob),
                    failure: if has_id(events, blob.id) {
                        Some(BlobErrorView::Persist(duplicate()))
                    } else {
                        None
                    },
                    log: seq![
                        RequestKind::CountBlobs,
                        RequestKind::FetchCover,
                        RequestKind::Insert(EventKind::ImageData),
                    ],
                }
            },
        }
    }
}

/// What a cycle does from the ensuring of a cover on: it ensures the cover
/// and, if that went well, writes `then` where there is one to write.
pub open spec fn ensure_run(
    plugin: PluginView,
    events: Seq<PersistedEventView>,
    script: ScriptView,
    url: Seq<char>,
    then: Option<ObservationView>,
    now: int,
) -> RunView {
    let ensured = cover_ensured(events, script, url, now);
    match ensured.failure {
        Some(error) => RunView {
            plugin,
            events: ensured.events,
            outcome: Err(CycleErrorView::Sync(SyncErrorView::Blob(error))),
            log: ensured.log,
        },
        None => match then {
            None => RunView {
                plugin,
                events: ensured.events,
                outcome: Ok(CycleOutcomeView::CoverEnsured),
                log: ensured.log,
            },
            Some(song) => {
                let rest = song_written(plugin, ensured.events, song, now);
                RunView { log: ensured.log + rest.log, ..rest }
            },
        },
    }
}

/// What the writing of an observation does: nothing where the store's
/// latest observation has the same identifier; otherwise the cover is
/// ensured and the observation written.
pub open spec fn sync_run(
    plugin: PluginView,
    events: Seq<PersistedEventView>,
    script: ScriptView,
    song: ObservationView,
    now: int,
) -> RunView {
    if last_song_id(events, plugin_name()) == Some(song.id) {
        RunView {
            plugin,
            events,
            outcome: Ok(CycleOutcomeView::Unchanged),
            log: seq![RequestKind::FindLastSong],
        }
    } else {
        let rest = ensure_run(plugin, events, script, song.image_url, Some(song), now);
        RunView { log: seq![RequestKind::FindLastSong] + rest.log, ..rest }
    }
}

proof fn last_request_writes_song(
    plugin: PluginView,
    events: Seq<PersistedEventView>,
    script: ScriptView,
    song: ObservationView,
    timing: int,
    now: int,
)
    ensures
        driven(
            plugin,
            events,
            script,
            StepView::Ask(RequestView::Insert(song_event(song, timing)), PendingView::SongWrite),
            now,
        ) == song_written(plugin, events, song, timing),
{
    reveal_with_fuel(driven, 2);
    let run = driven(
        plugin,
        events,
        script,
        StepView::Ask(RequestView::Insert(song_event(song, timing)), PendingView::SongWrite),
        now,
    );
    assert(run.log =~= song_written(plugin, events, song, timing).log);
}

/// A run that starts with `ensure` does what `ensure_run` says.
pub proof fn ensure_does_as_said(
    plugin: PluginView,
    events: Seq<PersistedEventView>,
    script: ScriptView,
    url: Seq<char>,
    then: Option<ObservationView>,
    now: int,
)
    ensures
        driven(plugin, events, script, ensure_step(url, then), now) == ensure_run(
            plugin,
            events,
            script,
            url,
            then,
            now,
        ),
{
    let run = driven(plugin, events, script, ensure_step(url, then), now);
    let goal = ensure_run(plugin, events, script, url, then, now);
    let count = count_blobs(events, plugin_name(), url);
    assert(reported_count(count) < 1 <==> count == 0);
    let after_fetch = crate::run::script_after(script, RequestView::FetchCover { url });
    if count >= 1 {
        if let Some(song) = then {
            last_request_writes_song(plugin, events, script, song, now, now);
        }
        assert(run.events == goal.events && run.outcome == goal.outcome && run.plugin
            == goal.plugin && run.log =~= goal.log) by {
            reveal_with_fuel(driven, 2);
        }
    } else {
        match cover_failure(script) {
            Some(error) => {
                assert(run.events == goal.events && run.outcome == goal.outcome && run.plugin
                    == goal.plugin && run.log =~= goal.log) by {
                    reveal_with_fuel(driven, 3);
                }
            },
            None => {
                let blob = blob_event(url, script.cover->0->Ok_0, now);
                if has_id(events, blob.id) {
                    assert(run.events == goal.events && run.outcome == goal.outcome && run.plugin
                        == goal.plugin && run.log =~= goal.log) by {
                        reveal_with_fuel(driven, 4);
                    }
                } else {
                    if let Some(song) = then {
                        last_request_writes_song(
                            plugin,
                            events.push(blob),
                            after_fetch,
                            song,
                            now,
                            now,
                        );
                    }
                    assert(run.events == goal.events && run.outcome == goal.outcome && run.plugin
                        == goal.plugin && run.log =~= goal.log) by {
                        reveal_with_fuel(driven, 4);
                    }
                }
            },
        }
    }
}

/// A run that starts with `sync` does what `sync_run` says.
pub proof fn sync_does_as_said(
    plugin: PluginView,
    events: Seq<PersistedEventView>,
    script: ScriptView,
    song: ObservationView,
    now: int,
)
    ensures
        driven(plugin, events, script, sync_step(song), now) == sync_run(
            plugin,
            events,
            script,
            song,
            now,
        ),
{
    let run = driven(plugin, events, script, sync_step(song), now);
    let goal = sync_run(plugin, events, script, song, now);
    ensure_does_as_said(plugin, events, script, song.image_url, Some(song), now);
    assert(run.events == goal.events && run.outcome == goal.outcome && run.plugin == goal.plugin
        && run.log =~= goal.log) by {
        reveal_with_fuel(driven, 2);
    }
}

/// A cycle whose player request yields an observation is that request
/// followed by the writing of the observation.
pub proof fn cycle_syncs_observation(
    plugin: PluginView,
    events: Seq<PersistedEventView>,
    script: ScriptView,
    now: int,
    song: ObservationView,
)
    requires
        plays(script, song),
    ensures
        cycle_run(plugin, events, script, now).plugin == plugin,
        cycle_run(plugin, events, script, now).events == sync_run(
            plugin,
            events,
            script,
            song,
            now,
        ).events,
        cycle_run(plugin, events, script, now).outcome == sync_run(
            plugin,
            events,
            script,
            song,
            now,
        ).outcome,
        cycle_run(plugin, events, script, now).log == seq![RequestKind::Player] + sync_run(
            plugin,
            events,
            script,
            song,
            now,
        ).log,
{
    let run = cycle_run(plugin, events, script, now);
    let after_player = crate::run::script_after(
        script,
        RequestView::Player(crate::fetch::player_request_for(plugin.credential)),
    );
    assert(after_player.cover == script.cover);
    sync_does_as_said(plugin, events, after_player, song, now);
    let goal = sync_run(plugin, events, script, song, now);
    assert(sync_run(plugin, events, after_player, song, now) == goal);
    assert(run.events == goal.events && run.outcome == goal.outcome && run.plugin == plugin
        && run.log =~= seq![RequestKind::Player] + goal.log) by {
        reveal_with_fuel(driven, 2);
    }
}

/// An observation whose identifier is that of the latest one stored is not
/// written again, at whatever time it is made: the store is asked for its
/// latest observation and nothing else, and it is as it was.
pub proof fn same_observation_is_not_written_again(
    plugin: PluginView,
    events: Seq<PersistedEventView>,
    script: ScriptView,
    now: int,
    song: ObservationView,
)
    requires
        last_song_id(events, plugin_name()) == Some(song.id),
    ensures
        driven(plugin, events, script, sync_step(song), now).events == events,
        driven(plugin, events, script, sync_step(song), now).outcome == Ok::<
            CycleOutcomeView,
            CycleErrorView,
        >(CycleOutcomeView::Unchanged),
        driven(plugin, events, script, sync_step(song), now).log == seq![
            RequestKind::FindLastSong,
        ],
        plays(script, song) ==> cycle_run(plugin, events, script, now).events == events,
{
    sync_does_as_said(plugin, events, script, song, now);
    if plays(script, song) {
        cycle_syncs_observation(plugin, events, script, now, song);
    }
}

/// An observation whose identifier differs from that of the latest one
/// stored is written once: the store gains one observation event, whose
/// identifier is the observation's own, `@` and the time in decimal, and
/// whose timing is that time. Before it stands the cover's blob where the
/// store had none.
///
/// The law leaves out the writings whose cover cannot be ensured and those
/// in which the store already holds the new event's identifier.
pub proof fn new_observation_is_written_once(
    plugin: PluginView,
    events: Seq<PersistedEventView>,
    script: ScriptView,
    now: int,
    song: ObservationView,
)
    requires
        last_song_id(events, plugin_name()) != Some(song.id),
        cover_ensured(events, script, song.image_url, now).failure is None,
        !has_id(
            cover_ensured(events, script, song.image_url, now).events,
            song_event(song, now).id,
        ),
    ensures
        driven(plugin, events, script, sync_step(song), now).events == cover_ensured(
            events,
            script,
            song.image_url,
            now,
        ).events.push(song_event(song, now)),
        driven(plugin, events, script, sync_step(song), now).outcome == Ok::<
            CycleOutcomeView,
            CycleErrorView,
        >(CycleOutcomeView::Stored),
        count_songs(driven(plugin, events, script, sync_step(song), now).events) == count_songs(
            events,
        ) + 1,
        plays(script, song) ==> cycle_run(plugin, events, script, now).events == driven(
            plugin,
            events,
            script,
            sync_step(song),
            now,
        ).events,
{
    sync_does_as_said(plugin, events, script, song, now);
    if plays(script, song) {
        cycle_syncs_observation(plugin, events, script, now, song);
    }
    let base = cover_ensured(events, script, song.image_url, now).events;
    let written = base.push(song_event(song, now));
    assert(written.drop_last() =~= base);
    assert(count_songs(written) == count_songs(base) + 1);
    if base != events {
        assert(base.drop_last() =~= events);
        assert(count_songs(base) == count_songs(events));
    }
}

/// A cover is fetched and stored once. Of two calls of `ensure` for one
/// address on a store that holds no blob for it, the first, if it goes
/// well, fetches the bytes and writes the blob; the second, whatever the
/// world would answer, asks the store for the count and nothing else.
pub proof fn cover_is_ensured_once(
    plugin: PluginView,
    events: Seq<PersistedEventView>,
    script: ScriptView,
    now: int,
    url: Seq<char>,
    later_plugin: PluginView,
    later_script: ScriptView,
    later: int,
)
    requires
        count_blobs(events, plugin_name(), url) == 0,
        cover_ensured(events, script, url, now).failure is None,
    ensures
        driven(plugin, events, script, ensure_step(url, None), now).log == seq![
            RequestKind::CountBlobs,
            RequestKind::FetchCover,
            RequestKind::Insert(EventKind::ImageData),
        ],
        ({
            let first = driven(plugin, events, script, ensure_step(url, None), now);
            let second = driven(
                later_plugin,
                first.events,
                later_script,
                ensure_step(url, None),
                later,
            );
            &&& first.outcome == Ok::<CycleOutcomeView, CycleErrorView>(
                CycleOutcomeView::CoverEnsured,
            )
            &&& first.events == events.push(blob_event(url, script.cover->0->Ok_0, now))
            &&& count_blobs(first.events, plugin_name(), url) == 1
            &&& second.log == seq![RequestKind::CountBlobs]
            &&& second.events == first.events
            &&& second.outcome == Ok::<CycleOutcomeView, CycleErrorView>(
                CycleOutcomeView::CoverEnsured,
            )
        }),
{
    ensure_does_as_said(plugin, events, script, url, None, now);
    let first = driven(plugin, events, script, ensure_step(url, None), now);
    let with_blob = events.push(blob_event(url, script.cover->0->Ok_0, now));
    assert(with_blob.drop_last() =~= events);
    assert(count_blobs(with_blob, plugin_name(), url) == 1);
    ensure_does_as_said(later_plugin, first.events, later_script, url, None, later);
}

/// What holds of single calls holds of cycles: once a cycle has stored a
/// cover, no later cycle whose observation shows that cover fetches it or
/// writes a blob, whatever else it observes and whatever the world answers.
pub proof fn stored_cover_is_not_fetched_again(
    plugin: PluginView,
    events: Seq<PersistedEventView>,
    script: ScriptView,
    now: int,
    song: ObservationView,
)
    requires
        plays(script, song),
        count_blobs(events, plugin_name(), song.image_url) >= 1,
    ensures
        count_blobs(cycle_run(plugin, events, script, now).events, plugin_name(), song.image_url)
            == count_blobs(events, plugin_name(), song.image_url),
        forall|i: int|
            0 <= i < cycle_run(plugin, events, script, now).log.len() ==> cycle_run(
                plugin,
                events,
                script,
                now,
            ).log[i] != RequestKind::FetchCover && cycle_run(plugin, events, script, now).log[i]
                != RequestKind::Insert(EventKind::ImageData),
{
    cycle_syncs_observation(plugin, events, script, now, song);
    let run = cycle_run(plugin, events, script, now);
    if last_song_id(events, plugin_name()) == Some(song.id) {
        assert(run.log =~= seq![RequestKind::Player, RequestKind::FindLastSong]);
    } else {
        assert(run.log =~= seq![
            RequestKind::Player,
            RequestKind::FindLastSong,
            RequestKind::CountBlobs,
            RequestKind::Insert(EventKind::Song),
        ]);
        let event = song_event(song, now);
        if !has_id(events, event.id) {
            assert(run.events == events.push(event));
            assert(events.push(event).drop_last() =~= events);
        }
    }
}

/// A credential that is turned down is refreshed once and nothing is
/// written: the cycle makes the grant request, persists the credential if
/// one came back, and ends. It asks the store nothing, and the store is as
/// it was.
pub proof fn unauthorized_refreshes_and_writes_nothing(
    plugin: PluginView,
    events: Seq<PersistedEventView>,
    script: ScriptView,
    now: int,
)
    requires
        turns_down(script),
    ensures
        cycle_run(plugin, events, script, now).events == events,
        cycle_run(plugin, events, script, now).plugin == plugin_after_refresh(
            plugin,
            token_reply(script),
        ),
        cycle_run(plugin, events, script, now).log == (if refreshed(token_reply(script))
            matches Ok(RefreshedView::Stored { .. }) {
            seq![RequestKind::Player, RequestKind::Token, RequestKind::PersistCredential]
        } else {
            seq![RequestKind::Player, RequestKind::Token]
        }),
{
    reveal_with_fuel(driven, 4);
    let run = cycle_run(plugin, events, script, now);
    if refreshed(token_reply(script)) matches Ok(RefreshedView::Stored { .. }) {
        assert(run.log =~= seq![
            RequestKind::Player,
            RequestKind::Token,
            RequestKind::PersistCredential,
        ]);
    } else {
        assert(run.log =~= seq![RequestKind::Player, RequestKind::Token]);
    }
}

} // verus!
