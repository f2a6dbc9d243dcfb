use timeline_plugin_spotify::blob::{BlobError, CoverFailure};
use timeline_plugin_spotify::cycle::{
    compose_id, ensure, make_blob_event, make_song_event, sync, CycleError, CycleOutcome,
    Pending, Reply, Request, Step, SyncError,
};
use timeline_plugin_spotify::event::{
    Blob, EventKind, Observation, Payload, PersistedEvent,
};
use timeline_plugin_spotify::fetch::{
    BodyFailure, FetchError, ImageVariant, PlayerData, PlayerReply, PlayerRequest,
};
use timeline_plugin_spotify::plugin::{ConfigEntries, Plugin};
use timeline_plugin_spotify::refresh::{RefreshError, TokenReply};
use timeline_plugin_spotify::run::{answer, drive, run_cycle, RequestKind, Run, Script};
use timeline_plugin_spotify::store::EventStore;

const SPOTIFY: &str = "timeline_plugin_spotify";
const COVER: &str = "https://img.example/cover";

fn plugin(persisted: Option<&str>) -> Plugin {
    Plugin::new(
        Some(ConfigEntries {
            client_id: Some("id".to_string()),
            client_secret: Some("secret".to_string()),
            refresh_token: Some("refresh".to_string()),
        }),
        persisted,
    )
    .unwrap()
}

fn observation(id: &str) -> Observation {
    Observation {
        id: id.to_string(),
        name: "Song".to_string(),
        artist: "Ann, Bob".to_string(),
        image_url: COVER.to_string(),
    }
}

fn playing(id: &str) -> PlayerReply {
    PlayerReply::Answer {
        status: 200,
        body: Ok(PlayerData {
            id: id.to_string(),
            name: "Song".to_string(),
            artists: vec!["Ann".to_string(), "Bob".to_string()],
            images: vec![
                ImageVariant { height: 64, url: "https://img.example/small".to_string() },
                ImageVariant { height: 640, url: COVER.to_string() },
                ImageVariant { height: 300, url: "https://img.example/medium".to_string() },
            ],
        }),
    }
}

fn status(code: u16) -> PlayerReply {
    PlayerReply::Answer { status: code, body: Err(BodyFailure::Malformed("EOF".to_string())) }
}

fn script(player: PlayerReply) -> Script {
    Script { player: Some(player), token: None, credential_write: None, cover: None }
}

fn with_cover(player: PlayerReply, bytes: &[u8]) -> Script {
    Script { cover: Some(Ok(bytes.to_vec())), ..script(player) }
}

fn song_event(id: &str, timing: i64) -> PersistedEvent {
    PersistedEvent {
        id: format!("{}@{}", id, timing),
        timing,
        source: SPOTIFY.to_string(),
        payload: Payload::Song(observation(id)),
    }
}

fn blob_event(data: &str, timing: i64) -> PersistedEvent {
    PersistedEvent {
        id: COVER.to_string(),
        timing,
        source: SPOTIFY.to_string(),
        payload: Payload::ImageData(Blob { url: COVER.to_string(), data: data.to_string() }),
    }
}

fn events(store: &EventStore) -> Vec<PersistedEvent> {
    (0..store.len()).map(|i| store.get(i).unwrap().clone()).collect()
}

fn count(log: &[RequestKind], kind: RequestKind) -> usize {
    log.iter().filter(|k| **k == kind).count()
}

#[test]
fn composite_identifier_is_id_at_timing() {
    assert_eq!(compose_id("Y", "1700000000000"), "Y@1700000000000");
    assert_eq!(compose_id("", ""), "@");
    assert_eq!(compose_id("a@b", "c"), "a@b@c");
}

#[test]
fn song_event_serializes_its_timing_in_decimal() {
    assert_eq!(make_song_event(observation("Y"), 1700000000000), song_event("Y", 1700000000000));
    assert_eq!(make_song_event(observation("Y"), 0).id, "Y@0");
    assert_eq!(make_song_event(observation("Y"), 7).id, "Y@7");
    assert_eq!(make_song_event(observation("Y"), 10).id, "Y@10");
    assert_eq!(make_song_event(observation("Y"), -5).id, "Y@-5");
    assert_eq!(make_song_event(observation("Y"), i64::MAX).id, "Y@9223372036854775807");
    assert_eq!(make_song_event(observation("Y"), i64::MIN).id, "Y@-9223372036854775808");
}

#[test]
fn blob_event_is_keyed_by_its_url() {
    let event = make_blob_event(&COVER.to_string(), &b"hello".to_vec(), 42);
    assert_eq!(event, blob_event("aGVsbG8=", 42));
    assert_eq!(event.payload.kind(), EventKind::ImageData);
}

#[test]
fn cycle_begins_with_the_player_request() {
    let step = plugin(Some("access_token=abc")).begin();
    assert_eq!(
        step,
        Step::Ask(
            Request::Player(PlayerRequest {
                url: "https://api.spotify.com/v1/me/player".to_string(),
                authorization: "Bearer abc".to_string(),
            }),
            Pending::Player,
        )
    );
}

#[test]
fn idempotent_dedup() {
    let mut plugin = plugin(Some("access_token=abc"));
    let mut store = EventStore::new();
    store.insert_one(song_event("X", 1000)).unwrap();
    let before = events(&store);
    for later in [1000, 1001, 5000, i64::MAX] {
        let run = run_cycle(&mut plugin, &mut store, with_cover(playing("X"), b"img"), later);
        assert_eq!(
            run,
            Run {
                outcome: Ok(CycleOutcome::Unchanged),
                log: vec![RequestKind::Player, RequestKind::FindLastSong],
            }
        );
        assert_eq!(events(&store), before);
    }
}

#[test]
fn novel_write() {
    let mut plugin = plugin(Some("access_token=abc"));
    let mut store = EventStore::new();
    store.insert_one(blob_event("aW1n", 1000)).unwrap();
    store.insert_one(song_event("X", 1000)).unwrap();
    let run = run_cycle(&mut plugin, &mut store, script(playing("Y")), 2000);
    assert_eq!(run.outcome, Ok(CycleOutcome::Stored));
    assert_eq!(
        run.log,
        vec![
            RequestKind::Player,
            RequestKind::FindLastSong,
            RequestKind::CountBlobs,
            RequestKind::Insert(EventKind::Song),
        ]
    );
    assert_eq!(
        events(&store),
        vec![blob_event("aW1n", 1000), song_event("X", 1000), song_event("Y", 2000)]
    );
    assert_eq!(store.get(2).unwrap().id, "Y@2000");
    assert_eq!(store.get(2).unwrap().timing, 2000);
}

#[test]
fn first_observation_is_written_with_its_cover() {
    let mut plugin = plugin(Some("access_token=abc"));
    let mut store = EventStore::new();
    let run = run_cycle(&mut plugin, &mut store, with_cover(playing("Y"), b"img"), 2000);
    assert_eq!(run.outcome, Ok(CycleOutcome::Stored));
    assert_eq!(
        run.log,
        vec![
            RequestKind::Player,
            RequestKind::FindLastSong,
            RequestKind::CountBlobs,
            RequestKind::FetchCover,
            RequestKind::Insert(EventKind::ImageData),
            RequestKind::Insert(EventKind::Song),
        ]
    );
    assert_eq!(events(&store), vec![blob_event("aW1n", 2000), song_event("Y", 2000)]);
}

#[test]
fn same_observation_recurring_after_a_gap_is_written_again() {
    let mut plugin = plugin(Some("access_token=abc"));
    let mut store = EventStore::new();
    for (id, now) in [("X", 1), ("Y", 2), ("X", 3)] {
        let run = run_cycle(&mut plugin, &mut store, with_cover(playing(id), b"img"), now);
        assert_eq!(run.outcome, Ok(CycleOutcome::Stored));
    }
    assert_eq!(
        events(&store),
        vec![blob_event("aW1n", 1), song_event("X", 1), song_event("Y", 2), song_event("X", 3)]
    );
}

fn no_player() -> Script {
    Script { player: None, token: None, credential_write: None, cover: None }
}

fn cover_only(bytes: &[u8]) -> Script {
    Script { cover: Some(Ok(bytes.to_vec())), ..no_player() }
}

#[test]
fn ensure_asks_for_the_count_of_blobs() {
    assert_eq!(
        ensure(COVER.to_string()),
        Step::Ask(
            Request::CountBlobs { source: SPOTIFY.to_string(), url: COVER.to_string() },
            Pending::BlobCount { url: COVER.to_string(), then: None },
        )
    );
}

#[test]
fn sync_asks_for_the_last_observation() {
    assert_eq!(
        sync(observation("Y")),
        Step::Ask(
            Request::FindLastSong { source: SPOTIFY.to_string() },
            Pending::LastSong { song: observation("Y") },
        )
    );
}

#[test]
fn ensure_twice_fetches_once_and_writes_once() {
    let mut plugin = plugin(Some("access_token=abc"));
    let mut store = EventStore::new();
    let first = drive(&mut plugin, &mut store, cover_only(b"img"), ensure(COVER.to_string()), 10);
    let second =
        drive(&mut plugin, &mut store, cover_only(b"other"), ensure(COVER.to_string()), 20);
    assert_eq!(
        first,
        Run {
            outcome: Ok(CycleOutcome::CoverEnsured),
            log: vec![
                RequestKind::CountBlobs,
                RequestKind::FetchCover,
                RequestKind::Insert(EventKind::ImageData),
            ],
        }
    );
    assert_eq!(
        second,
        Run { outcome: Ok(CycleOutcome::CoverEnsured), log: vec![RequestKind::CountBlobs] }
    );
    assert_eq!(events(&store), vec![blob_event("aW1n", 10)]);
}

#[test]
fn ensure_that_cannot_fetch_leaves_the_store_alone() {
    let mut plugin = plugin(Some("access_token=abc"));
    let mut store = EventStore::new();
    let run = drive(&mut plugin, &mut store, no_player(), ensure(COVER.to_string()), 10);
    assert_eq!(
        run.outcome,
        Err(CycleError::Sync(SyncError::Blob(BlobError::FetchFailed(
            "the script holds no answer".to_string()
        ))))
    );
    assert_eq!(run.log, vec![RequestKind::CountBlobs, RequestKind::FetchCover]);
    assert_eq!(store.len(), 0);
}

#[test]
fn sync_of_the_last_observation_writes_nothing() {
    let mut plugin = plugin(Some("access_token=abc"));
    let mut store = EventStore::new();
    store.insert_one(song_event("X", 1000)).unwrap();
    let run = drive(&mut plugin, &mut store, cover_only(b"img"), sync(observation("X")), 2000);
    assert_eq!(
        run,
        Run { outcome: Ok(CycleOutcome::Unchanged), log: vec![RequestKind::FindLastSong] }
    );
    assert_eq!(events(&store), vec![song_event("X", 1000)]);
}

#[test]
fn sync_of_a_new_observation_writes_one_event() {
    let mut plugin = plugin(Some("access_token=abc"));
    let mut store = EventStore::new();
    store.insert_one(song_event("X", 1000)).unwrap();
    let run = drive(&mut plugin, &mut store, cover_only(b"img"), sync(observation("Y")), 2000);
    assert_eq!(run.outcome, Ok(CycleOutcome::Stored));
    assert_eq!(
        events(&store),
        vec![song_event("X", 1000), blob_event("aW1n", 2000), song_event("Y", 2000)]
    );
}

#[test]
fn blob_fetch_once() {
    let mut plugin = plugin(Some("access_token=abc"));
    let mut store = EventStore::new();
    let first = run_cycle(&mut plugin, &mut store, with_cover(playing("X"), b"img"), 1000);
    let second = run_cycle(&mut plugin, &mut store, with_cover(playing("Y"), b"other"), 2000);
    assert_eq!(first.outcome, Ok(CycleOutcome::Stored));
    assert_eq!(second.outcome, Ok(CycleOutcome::Stored));
    let fetches = count(&first.log, RequestKind::FetchCover)
        + count(&second.log, RequestKind::FetchCover);
    let writes = count(&first.log, RequestKind::Insert(EventKind::ImageData))
        + count(&second.log, RequestKind::Insert(EventKind::ImageData));
    assert_eq!(fetches, 1);
    assert_eq!(writes, 1);
    assert_eq!(store.count_blobs(&SPOTIFY.to_string(), &COVER.to_string()), 1);
    assert_eq!(
        events(&store),
        vec![blob_event("aW1n", 1000), song_event("X", 1000), song_event("Y", 2000)]
    );
}

#[test]
fn unauthorized_triggers_refresh_no_write() {
    let mut plugin = plugin(Some("access_token=old"));
    let mut store = EventStore::new();
    store.insert_one(song_event("X", 1000)).unwrap();
    let before = events(&store);
    let script = Script {
        player: Some(status(401)),
        token: Some(TokenReply::Token("new".to_string())),
        credential_write: Some(Ok(())),
        cover: Some(Ok(b"img".to_vec())),
    };
    let run = run_cycle(&mut plugin, &mut store, script, 2000);
    assert_eq!(run.outcome, Ok(CycleOutcome::Refreshed));
    assert_eq!(
        run.log,
        vec![RequestKind::Player, RequestKind::Token, RequestKind::PersistCredential]
    );
    assert_eq!(count(&run.log, RequestKind::Token), 1);
    assert_eq!(events(&store), before);
    assert_eq!(plugin.cache().get().access_token, "new");
}

#[test]
fn refresh_with_malformed_answer_ends_the_cycle_without_error() {
    let mut plugin = plugin(Some("access_token=old"));
    let mut store = EventStore::new();
    let script = Script {
        player: Some(status(401)),
        token: Some(TokenReply::Malformed("no token".to_string())),
        credential_write: None,
        cover: None,
    };
    let run = run_cycle(&mut plugin, &mut store, script, 2000);
    assert_eq!(run.outcome, Ok(CycleOutcome::RefreshIgnored("no token".to_string())));
    assert_eq!(run.log, vec![RequestKind::Player, RequestKind::Token]);
    assert_eq!(plugin.cache().get().access_token, "old");
    assert_eq!(store.len(), 0);
}

#[test]
fn refresh_that_does_not_get_through_is_an_error() {
    let mut plugin = plugin(Some("access_token=old"));
    let mut store = EventStore::new();
    let script = Script {
        player: Some(status(401)),
        token: Some(TokenReply::Unreachable("refused".to_string())),
        credential_write: None,
        cover: None,
    };
    let run = run_cycle(&mut plugin, &mut store, script, 2000);
    assert_eq!(
        run.outcome,
        Err(CycleError::Refresh(RefreshError::Transport("refused".to_string())))
    );
    assert_eq!(run.log, vec![RequestKind::Player, RequestKind::Token]);
}

#[test]
fn credential_that_cannot_be_persisted_is_an_error() {
    let mut plugin = plugin(Some("access_token=old"));
    let mut store = EventStore::new();
    let script = Script {
        player: Some(status(401)),
        token: Some(TokenReply::Token("new".to_string())),
        credential_write: Some(Err("disk full".to_string())),
        cover: None,
    };
    let run = run_cycle(&mut plugin, &mut store, script, 2000);
    assert_eq!(
        run.outcome,
        Err(CycleError::Refresh(RefreshError::CacheWrite("disk full".to_string())))
    );
}

#[test]
fn nothing_playing_ends_the_cycle() {
    let mut plugin = plugin(Some("access_token=abc"));
    let mut store = EventStore::new();
    let run = run_cycle(&mut plugin, &mut store, script(status(204)), 2000);
    assert_eq!(run, Run { outcome: Ok(CycleOutcome::Idle), log: vec![RequestKind::Player] });
    assert_eq!(store.len(), 0);
}

#[test]
fn failures_of_the_player_request_end_the_cycle() {
    let mut plugin = plugin(Some("access_token=abc"));
    let mut store = EventStore::new();
    let run = run_cycle(&mut plugin, &mut store, script(status(500)), 2000);
    assert_eq!(run.outcome, Err(CycleError::Fetch(FetchError::UnexpectedStatus(500))));
    let run = run_cycle(
        &mut plugin,
        &mut store,
        script(PlayerReply::Unreachable("timed out".to_string())),
        2000,
    );
    assert_eq!(
        run.outcome,
        Err(CycleError::Fetch(FetchError::Transport("timed out".to_string())))
    );
    let empty = Script { player: None, token: None, credential_write: None, cover: None };
    let run = run_cycle(&mut plugin, &mut store, empty, 2000);
    assert_eq!(
        run.outcome,
        Err(CycleError::Fetch(FetchError::Transport("the script holds no answer".to_string())))
    );
    assert_eq!(run.log, vec![RequestKind::Player]);
    assert_eq!(store.len(), 0);
}

#[test]
fn cover_that_cannot_be_fetched_aborts_before_any_write() {
    let mut plugin = plugin(Some("access_token=abc"));
    let mut store = EventStore::new();
    let failing = Script {
        cover: Some(Err(CoverFailure::Unreachable("timed out".to_string()))),
        ..script(playing("Y"))
    };
    let run = run_cycle(&mut plugin, &mut store, failing, 2000);
    assert_eq!(
        run.outcome,
        Err(CycleError::Sync(SyncError::Blob(BlobError::FetchFailed("timed out".to_string()))))
    );
    assert_eq!(store.len(), 0);
    let failing = Script {
        cover: Some(Err(CoverFailure::Unreadable("reset".to_string()))),
        ..script(playing("Y"))
    };
    let run = run_cycle(&mut plugin, &mut store, failing, 2000);
    assert_eq!(
        run.outcome,
        Err(CycleError::Sync(SyncError::Blob(BlobError::Unreadable("reset".to_string()))))
    );
    assert_eq!(store.len(), 0);
    assert_eq!(
        run.log,
        vec![
            RequestKind::Player,
            RequestKind::FindLastSong,
            RequestKind::CountBlobs,
            RequestKind::FetchCover,
        ]
    );
}

#[test]
fn taken_identifier_is_a_persist_error() {
    let mut plugin = plugin(Some("access_token=abc"));
    let mut store = EventStore::new();
    store.insert_one(blob_event("aW1n", 1)).unwrap();
    store.insert_one(song_event("Y", 2000)).unwrap();
    store.insert_one(song_event("X", 3000)).unwrap();
    let run = run_cycle(&mut plugin, &mut store, script(playing("Y")), 2000);
    assert_eq!(
        run.outcome,
        Err(CycleError::Sync(SyncError::Persist(
            "an event with this identifier exists".to_string()
        )))
    );
    assert_eq!(store.len(), 3);
}

#[test]
fn taken_blob_identifier_is_a_blob_persist_error() {
    let mut plugin = plugin(Some("access_token=abc"));
    let mut store = EventStore::new();
    store
        .insert_one(PersistedEvent {
            id: COVER.to_string(),
            timing: 1,
            source: "other".to_string(),
            payload: Payload::Song(observation("Z")),
        })
        .unwrap();
    let run = run_cycle(&mut plugin, &mut store, with_cover(playing("Y"), b"img"), 2000);
    assert_eq!(
        run.outcome,
        Err(CycleError::Sync(SyncError::Blob(BlobError::Persist(
            "an event with this identifier exists".to_string()
        ))))
    );
    assert_eq!(store.len(), 1);
}

#[test]
fn reply_that_does_not_fit_is_refused() {
    let mut plugin = plugin(Some("access_token=abc"));
    let step = plugin.advance(Pending::Player, Reply::Inserted(Ok(())), 0);
    assert_eq!(step, Step::Finish(Err(CycleError::UnexpectedReply)));
    let step = plugin.advance(Pending::SongWrite, Reply::BlobCount(Ok(1)), 0);
    assert_eq!(step, Step::Finish(Err(CycleError::UnexpectedReply)));
    let step = plugin.advance(Pending::Token, Reply::Player(status(204)), 0);
    assert_eq!(step, Step::Finish(Err(CycleError::UnexpectedReply)));
}

#[test]
fn store_failures_end_the_cycle() {
    let mut plugin = plugin(Some("access_token=abc"));
    let step = plugin.advance(
        Pending::LastSong { song: observation("Y") },
        Reply::LastSong(Err("down".to_string())),
        0,
    );
    assert_eq!(
        step,
        Step::Finish(Err(CycleError::Sync(SyncError::Lookup("down".to_string()))))
    );
    let step = plugin.advance(
        Pending::BlobCount { url: COVER.to_string(), then: Some(observation("Y")) },
        Reply::BlobCount(Err("down".to_string())),
        0,
    );
    assert_eq!(
        step,
        Step::Finish(Err(CycleError::Sync(SyncError::Blob(BlobError::Lookup(
            "down".to_string()
        )))))
    );
    let step = plugin.advance(
        Pending::BlobWrite { timing: 5, then: Some(observation("Y")) },
        Reply::Inserted(Err("down".to_string())),
        9,
    );
    assert_eq!(
        step,
        Step::Finish(Err(CycleError::Sync(SyncError::Blob(BlobError::Persist(
            "down".to_string()
        )))))
    );
    let step = plugin.advance(Pending::SongWrite, Reply::Inserted(Err("down".to_string())), 9);
    assert_eq!(
        step,
        Step::Finish(Err(CycleError::Sync(SyncError::Persist("down".to_string()))))
    );
}

#[test]
fn steps_follow_the_replies() {
    let mut plugin = plugin(Some("access_token=abc"));
    let step = plugin.advance(Pending::Player, Reply::Player(playing("Y")), 0);
    assert_eq!(
        step,
        Step::Ask(
            Request::FindLastSong { source: SPOTIFY.to_string() },
            Pending::LastSong { song: observation("Y") },
        )
    );
    let step = plugin.advance(
        Pending::LastSong { song: observation("Y") },
        Reply::LastSong(Ok(Some("X".to_string()))),
        0,
    );
    assert_eq!(
        step,
        Step::Ask(
            Request::CountBlobs { source: SPOTIFY.to_string(), url: COVER.to_string() },
            Pending::BlobCount { url: COVER.to_string(), then: Some(observation("Y")) },
        )
    );
    let step = plugin.advance(
        Pending::LastSong { song: observation("Y") },
        Reply::LastSong(Ok(None)),
        0,
    );
    assert!(matches!(step, Step::Ask(Request::CountBlobs { .. }, _)));
    let step = plugin.advance(
        Pending::BlobCount { url: COVER.to_string(), then: Some(observation("Y")) },
        Reply::BlobCount(Ok(0)),
        77,
    );
    assert_eq!(
        step,
        Step::Ask(
            Request::FetchCover { url: COVER.to_string() },
            Pending::Cover { url: COVER.to_string(), timing: 77, then: Some(observation("Y")) },
        )
    );
    let step = plugin.advance(
        Pending::BlobCount { url: COVER.to_string(), then: Some(observation("Y")) },
        Reply::BlobCount(Ok(3)),
        77,
    );
    assert_eq!(step, Step::Ask(Request::Insert(song_event("Y", 77)), Pending::SongWrite));
    let step = plugin.advance(
        Pending::Cover { url: COVER.to_string(), timing: 77, then: Some(observation("Y")) },
        Reply::Cover(Ok(b"img".to_vec())),
        99,
    );
    assert_eq!(
        step,
        Step::Ask(
            Request::Insert(blob_event("aW1n", 77)),
            Pending::BlobWrite { timing: 77, then: Some(observation("Y")) },
        )
    );
    let step = plugin.advance(
        Pending::BlobWrite { timing: 77, then: Some(observation("Y")) },
        Reply::Inserted(Ok(())),
        99,
    );
    assert_eq!(step, Step::Ask(Request::Insert(song_event("Y", 77)), Pending::SongWrite));
    let step = plugin.advance(Pending::SongWrite, Reply::Inserted(Ok(())), 99);
    assert_eq!(step, Step::Finish(Ok(CycleOutcome::Stored)));
}

#[test]
fn clock_stamps_the_new_observation() {
    let mut plugin = plugin(Some("access_token=abc"));
    let step = plugin.save_current_song(
        Pending::BlobCount { url: COVER.to_string(), then: Some(observation("Y")) },
        Reply::BlobCount(Ok(1)),
    );
    match step {
        Step::Ask(Request::Insert(event), Pending::SongWrite) => {
            assert!(event.timing > 1_600_000_000_000);
            assert_eq!(event.id, format!("Y@{}", event.timing));
            assert_eq!(event.payload, Payload::Song(observation("Y")));
            assert_eq!(event.source, SPOTIFY);
        }
        other => panic!("unexpected {:?}", other),
    }
    let step = plugin.save_current_song(Pending::Player, Reply::Player(status(204)));
    assert_eq!(step, Step::Finish(Ok(CycleOutcome::Idle)));
}

#[test]
fn script_answers_each_request_once() {
    let mut store = EventStore::new();
    let mut script = with_cover(status(204), b"img");
    let request = || Request::FetchCover { url: COVER.to_string() };
    assert_eq!(answer(&mut store, &mut script, request()), Reply::Cover(Ok(b"img".to_vec())));
    assert_eq!(
        answer(&mut store, &mut script, request()),
        Reply::Cover(Err(CoverFailure::Unreachable("the script holds no answer".to_string())))
    );
    assert_eq!(script.player, Some(status(204)));
}

#[test]
fn store_answers_lookups_and_insertions() {
    let mut store = EventStore::new();
    let mut script = script(status(204));
    let source = || SPOTIFY.to_string();
    assert_eq!(
        answer(&mut store, &mut script, Request::FindLastSong { source: source() }),
        Reply::LastSong(Ok(None))
    );
    assert_eq!(
        answer(&mut store, &mut script, Request::Insert(song_event("X", 1))),
        Reply::Inserted(Ok(()))
    );
    assert_eq!(
        answer(&mut store, &mut script, Request::Insert(song_event("X", 1))),
        Reply::Inserted(Err("an event with this identifier exists".to_string()))
    );
    assert_eq!(
        answer(&mut store, &mut script, Request::FindLastSong { source: source() }),
        Reply::LastSong(Ok(Some("X".to_string())))
    );
    assert_eq!(
        answer(
            &mut store,
            &mut script,
            Request::CountBlobs { source: source(), url: COVER.to_string() }
        ),
        Reply::BlobCount(Ok(0))
    );
    assert_eq!(
        answer(&mut store, &mut script, Request::Insert(blob_event("aW1n", 1))),
        Reply::Inserted(Ok(()))
    );
    assert_eq!(
        answer(
            &mut store,
            &mut script,
            Request::CountBlobs { source: source(), url: COVER.to_string() }
        ),
        Reply::BlobCount(Ok(1))
    );
    assert_eq!(store.len(), 2);
}

#[test]
fn request_kinds_are_named() {
    assert_eq!(Request::PersistCredential("t".to_string()).kind(), RequestKind::PersistCredential);
    assert_eq!(Request::Insert(song_event("X", 1)).kind(), RequestKind::Insert(EventKind::Song));
    assert_eq!(
        Request::Insert(blob_event("d", 1)).kind(),
        RequestKind::Insert(EventKind::ImageData)
    );
    assert_eq!(Request::FetchCover { url: "u".to_string() }.kind(), RequestKind::FetchCover);
}

#[test]
fn store_written_by_cycles_never_repeats_an_observation() {
    let mut plugin = plugin(Some("access_token=abc"));
    let mut store = EventStore::new();
    let played = ["A", "A", "B", "B", "B", "A", "C", "C", "A", "A"];
    for (tick, id) in played.iter().enumerate() {
        let now = 1000 + tick as i64;
        let run = run_cycle(&mut plugin, &mut store, with_cover(playing(id), b"img"), now);
        assert!(run.outcome.is_ok());
    }
    let mut songs: Vec<(i64, String)> = events(&store)
        .into_iter()
        .filter_map(|event| match event.payload {
            Payload::Song(song) => Some((event.timing, song.id)),
            Payload::ImageData(_) => None,
        })
        .collect();
    songs.sort_by(|left, right| right.0.cmp(&left.0));
    let ids: Vec<&str> = songs.iter().map(|song| song.1.as_str()).collect();
    assert_eq!(ids, vec!["A", "C", "A", "B", "A"]);
    assert!(songs.windows(2).all(|pair| pair[0].1 != pair[1].1));
    assert_eq!(store.count_blobs(&SPOTIFY.to_string(), &COVER.to_string()), 1);
}
