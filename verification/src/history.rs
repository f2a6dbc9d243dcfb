//! What stays true of a store that cycles write to.
//!
//! A store that only cycles of this plugin write to keeps one blob for each
//! cover, and, as long as time moves forward, never shows the same
//! observation twice in a row.

use vstd::prelude::*;

use crate::cycle::{blob_event, song_event};
use crate::event::{PayloadView, PersistedEventView};
use crate::fetch::{interpreted, FetchedView};
use crate::laws::{cover_ensured, cycle_syncs_observation, plays};
use crate::plugin::{plugin_name, PluginView};
use crate::run::{cycle_run, driven, last_song_id, ScriptView};
use crate::store::{
    count_blobs, counted_blob_is_found, first_blob, has_id, is_blob_of, is_song_of,
    latest_song, latest_song_is_latest, unique_ids,
};

verus! {

/// A blob of this plugin, written at `now` under the address of its cover.
pub open spec fn is_cover_event(event: PersistedEventView, now: int) -> bool {
    event.source == plugin_name() && event.timing == now && match event.payload {
        PayloadView::ImageData(blob) => event.id == blob.url,
        PayloadView::Song(_) => false,
    }
}

/// An observation of this plugin, written at `now`, whose identifier
/// differs from that of the latest observation in `events`.
pub open spec fn is_new_song_event(
    events: Seq<PersistedEventView>,
    event: PersistedEventView,
    now: int,
) -> bool {
    match event.payload {
        PayloadView::Song(song) => event == song_event(song, now) && last_song_id(
            events,
            plugin_name(),
        ) != Some(song.id),
        PayloadView::ImageData(_) => false,
    }
}

/// `after` is `events` with what one cycle may append at `now`: nothing, a
/// cover, a new observation, or a cover and then a new observation, each
/// under an identifier that was free.
pub open spec fn appended_by_cycle(
    events: Seq<PersistedEventView>,
    after: Seq<PersistedEventView>,
    now: int,
) -> bool {
    ||| after == events
    ||| {
        &&& after.len() == events.len() + 1
        &&& after.drop_last() == events
        &&& !has_id(events, after.last().id)
        &&& (is_cover_event(after.last(), now) || is_new_song_event(events, after.last(), now))
    }
    ||| {
        &&& after.len() == events.len() + 2
        &&& after.drop_last().drop_last() == events
        &&& !has_id(events, after.drop_last().last().id)
        &&& !has_id(after.drop_last(), after.last().id)
        &&& is_cover_event(after.drop_last().last(), now)
        &&& is_new_song_event(events, after.last(), now)
    }
}

/// A cycle appends to the store and nothing else, and it appends little: a
/// cover at most, and an observation at most, the observation only where it
/// differs from the latest one.
pub proof fn cycle_appends_little(
    plugin: PluginView,
    events: Seq<PersistedEventView>,
    script: ScriptView,
    now: int,
)
    ensures
        appended_by_cycle(events, cycle_run(plugin, events, script, now).events, now),
{
    let after = cycle_run(plugin, events, script, now).events;
    let yields_song = script.player matches Some(reply) && interpreted(reply) matches Ok(
        FetchedView::Song(_),
    );
    if yields_song {
        let song = interpreted(script.player->0)->Ok_0->Song_0;
        assert(plays(script, song));
        cycle_syncs_observation(plugin, events, script, now, song);
        if after != events {
            let written = song_event(song, now);
            let ensured = cover_ensured(events, script, song.image_url, now).events;
            if ensured == events {
                assert(after == events.push(written));
                assert(after.drop_last() =~= events);
            } else {
                let cover = blob_event(song.image_url, script.cover->0->Ok_0, now);
                let with_cover = events.push(cover);
                assert(ensured == with_cover);
                assert(with_cover.drop_last() =~= events);
                if after != with_cover {
                    assert(after == with_cover.push(written));
                    assert(after.drop_last() =~= with_cover);
                }
            }
        }
    } else {
        assert(after == events) by {
            reveal_with_fuel(driven, 4);
        }
    }
}

/// Every blob of this plugin is stored under the address of its cover.
pub open spec fn covers_keyed_by_url(events: Seq<PersistedEventView>) -> bool {
    forall|i: int|
        0 <= i < events.len() && (#[trigger] events[i]).source == plugin_name() ==> (
        match events[i].payload {
            PayloadView::ImageData(blob) => events[i].id == blob.url,
            PayloadView::Song(_) => true,
        })
}

/// Where identifiers differ and blobs are stored under their covers'
/// addresses, no address has two blobs.
pub proof fn one_cover_per_url(events: Seq<PersistedEventView>, url: Seq<char>)
    requires
        unique_ids(events),
        covers_keyed_by_url(events),
    ensures
        count_blobs(events, plugin_name(), url) <= 1,
    decreases events.len(),
{
    if events.len() > 0 {
        let front = events.drop_last();
        assert(forall|j: int| 0 <= j < front.len() ==> front[j] == events[j]);
        one_cover_per_url(front, url);
        if is_blob_of(events.last(), plugin_name(), url) && count_blobs(front, plugin_name(), url)
            >= 1 {
            counted_blob_is_found(front, plugin_name(), url);
            let j = first_blob(front, plugin_name(), url)->0;
            assert(events[j].id == url);
            assert(events[events.len() - 1].id == url);
            assert(false);
        }
    }
}

/// A cycle keeps identifiers apart and blobs under their covers' addresses,
/// so that after it, as before, no cover has two blobs.
pub proof fn cycle_keeps_one_cover_per_url(
    plugin: PluginView,
    events: Seq<PersistedEventView>,
    script: ScriptView,
    now: int,
    url: Seq<char>,
)
    requires
        unique_ids(events),
        covers_keyed_by_url(events),
    ensures
        unique_ids(cycle_run(plugin, events, script, now).events),
        covers_keyed_by_url(cycle_run(plugin, events, script, now).events),
        count_blobs(cycle_run(plugin, events, script, now).events, plugin_name(), url) <= 1,
{
    let after = cycle_run(plugin, events, script, now).events;
    cycle_appends_little(plugin, events, script, now);
    if after != events {
        if after.len() == events.len() + 1 {
            assert(forall|j: int| 0 <= j < events.len() ==> after[j] == after.drop_last()[j]);
        } else {
            let middle = after.drop_last();
            assert(forall|j: int| 0 <= j < middle.len() ==> after[j] == middle[j]);
            assert(forall|j: int| 0 <= j < events.len() ==> middle[j] == middle.drop_last()[j]);
            assert(unique_ids(middle));
        }
    }
    one_cover_per_url(after, url);
}

/// The identifier of the observation that an event records.
pub open spec fn observed_id(event: PersistedEventView) -> Seq<char> {
    match event.payload {
        PayloadView::Song(song) => song.id,
        PayloadView::ImageData(_) => Seq::empty(),
    }
}

/// The observation at `k` lies strictly between those at `i` and `j` in
/// time and differs from the one at `i`.
pub open spec fn separates(events: Seq<PersistedEventView>, i: int, j: int, k: int) -> bool {
    &&& 0 <= k < events.len()
    &&& is_song_of(events[k], plugin_name())
    &&& observed_id(events[k]) != observed_id(events[i])
    &&& events[i].timing < events[k].timing < events[j].timing
}

/// No two observations of this plugin share a timing, and between any two
/// of them that record the same identifier lies one that records another.
/// Read in the order of their timings, the observations therefore never
/// show the same identifier twice in a row.
pub open spec fn deduplicated(events: Seq<PersistedEventView>) -> bool {
    &&& forall|i: int, j: int|
        0 <= i < events.len() && 0 <= j < events.len() && i != j && is_song_of(
            #[trigger] events[i],
            plugin_name(),
        ) && is_song_of(#[trigger] events[j], plugin_name()) ==> events[i].timing
            != events[j].timing
    &&& forall|i: int, j: int|
        0 <= i < events.len() && 0 <= j < events.len() && is_song_of(
            #[trigger] events[i],
            plugin_name(),
        ) && is_song_of(#[trigger] events[j], plugin_name()) && observed_id(events[i])
            == observed_id(events[j]) && events[i].timing < events[j].timing ==> exists|k: int|
            #[trigger] separates(events, i, j, k)
}

/// Every observation of this plugin was made before `now`.
pub open spec fn all_before(events: Seq<PersistedEventView>, now: int) -> bool {
    forall|i: int|
        0 <= i < events.len() && is_song_of(#[trigger] events[i], plugin_name())
            ==> events[i].timing < now
}

/// A cycle that runs later than every observation stored keeps the
/// observations deduplicated.
pub proof fn cycle_keeps_observations_deduplicated(
    plugin: PluginView,
    events: Seq<PersistedEventView>,
    script: ScriptView,
    now: int,
)
    requires
        deduplicated(events),
        all_before(events, now),
    ensures
        deduplicated(cycle_run(plugin, events, script, now).events),
{
    let after = cycle_run(plugin, events, script, now).events;
    cycle_appends_little(plugin, events, script, now);
    if after != events {
        let n = events.len() as int;
        let last = after.len() - 1;
        assert(forall|j: int| 0 <= j < n ==> after[j] == events[j]) by {
            if after.len() == n + 1 {
                assert(forall|j: int| 0 <= j < n ==> after[j] == after.drop_last()[j]);
            } else {
                let middle = after.drop_last();
                assert(forall|j: int| 0 <= j < middle.len() ==> after[j] == middle[j]);
                assert(forall|j: int| 0 <= j < n ==> middle[j] == middle.drop_last()[j]);
            }
        }
        assert(forall|j: int|
            n <= j < last ==> !is_song_of(#[trigger] after[j], plugin_name())) by {
            if after.len() == n + 2 {
                assert(after[n] == after.drop_last().last());
            }
        }
        latest_song_is_latest(events, plugin_name());
        assert forall|i: int, j: int|
            0 <= i < after.len() && 0 <= j < after.len() && is_song_of(
                #[trigger] after[i],
                plugin_name(),
            ) && is_song_of(#[trigger] after[j], plugin_name()) && observed_id(after[i])
                == observed_id(after[j]) && after[i].timing < after[j].timing implies exists|
            k: int,
        | #[trigger] separates(after, i, j, k) by {
            if i < n && j < n {
                let k = choose|k: int| #[trigger] separates(events, i, j, k);
                assert(separates(after, i, j, k));
            } else if i < n && j == last {
                assert(is_new_song_event(events, after[last], now));
                let newest = latest_song(events, plugin_name())->0;
                assert(is_song_of(events[newest], plugin_name()));
                assert(observed_id(events[newest]) != observed_id(after[last]));
                assert(newest != i);
                assert(events[i].timing <= events[newest].timing);
                assert(separates(after, i, j, newest));
            } else {
                assert(i == last);
                assert(after[i].timing == now);
            }
        }
    }
}

} // verus!
