use timeline_plugin_spotify::blob::get_cover;
use timeline_plugin_spotify::event::{
    Blob, CompressedEvent, EventKind, Observation, Payload, PersistedEvent, TimeRange,
};
use timeline_plugin_spotify::plugin::Plugin;
use timeline_plugin_spotify::store::{EventStore, StoreError};
use timeline_plugin_spotify::timeline::Query;

const SPOTIFY: &str = "timeline_plugin_spotify";

fn observation(id: &str) -> Observation {
    Observation {
        id: id.to_string(),
        name: format!("name of {}", id),
        artist: "Ann".to_string(),
        image_url: "https://img.example/a".to_string(),
    }
}

fn song(event_id: &str, timing: i64, source: &str, id: &str) -> PersistedEvent {
    PersistedEvent {
        id: event_id.to_string(),
        timing,
        source: source.to_string(),
        payload: Payload::Song(observation(id)),
    }
}

fn blob(event_id: &str, timing: i64, source: &str, url: &str, data: &str) -> PersistedEvent {
    PersistedEvent {
        id: event_id.to_string(),
        timing,
        source: source.to_string(),
        payload: Payload::ImageData(Blob { url: url.to_string(), data: data.to_string() }),
    }
}

fn name() -> String {
    SPOTIFY.to_string()
}

#[test]
fn new_store_is_empty() {
    let store = EventStore::new();
    assert_eq!(store.len(), 0);
    assert_eq!(store.get(0), None);
    assert_eq!(store.latest_song(&name()), None);
    assert_eq!(store.last_song_id(&name()), None);
    assert_eq!(store.count_blobs(&name(), &"x".to_string()), 0);
    assert!(!store.contains_id(&"x".to_string()));
}

#[test]
fn insert_appends_in_order() {
    let mut store = EventStore::new();
    assert_eq!(store.insert_one(song("a", 1, SPOTIFY, "X")), Ok(()));
    assert_eq!(store.insert_one(song("b", 2, SPOTIFY, "Y")), Ok(()));
    assert_eq!(store.len(), 2);
    assert_eq!(store.get(0), Some(&song("a", 1, SPOTIFY, "X")));
    assert_eq!(store.get(1), Some(&song("b", 2, SPOTIFY, "Y")));
    assert_eq!(store.get(2), None);
    assert!(store.contains_id(&"a".to_string()));
    assert!(!store.contains_id(&"c".to_string()));
}

#[test]
fn insert_rejects_a_taken_identifier() {
    let mut store = EventStore::new();
    assert_eq!(store.insert_one(song("a", 1, SPOTIFY, "X")), Ok(()));
    assert_eq!(store.insert_one(song("a", 2, "other", "Y")), Err(StoreError::DuplicateId));
    assert_eq!(store.insert_one(blob("a", 2, SPOTIFY, "u", "d")), Err(StoreError::DuplicateId));
    assert_eq!(store.len(), 1);
    assert_eq!(store.get(0), Some(&song("a", 1, SPOTIFY, "X")));
}

#[test]
fn latest_song_is_the_one_with_the_greatest_timing() {
    let mut store = EventStore::new();
    store.insert_one(song("a", 10, SPOTIFY, "X")).unwrap();
    store.insert_one(song("b", 30, SPOTIFY, "Y")).unwrap();
    store.insert_one(song("c", 20, SPOTIFY, "Z")).unwrap();
    assert_eq!(store.latest_song(&name()), Some(1));
    assert_eq!(store.last_song_id(&name()), Some("Y".to_string()));
}

#[test]
fn latest_song_of_equal_timings_is_the_last_inserted() {
    let mut store = EventStore::new();
    store.insert_one(song("a", 10, SPOTIFY, "X")).unwrap();
    store.insert_one(song("b", 10, SPOTIFY, "Y")).unwrap();
    assert_eq!(store.latest_song(&name()), Some(1));
    assert_eq!(store.last_song_id(&name()), Some("Y".to_string()));
}

#[test]
fn latest_song_ignores_blobs_and_other_plugins() {
    let mut store = EventStore::new();
    store.insert_one(song("a", 10, SPOTIFY, "X")).unwrap();
    store.insert_one(song("b", 99, "other", "Y")).unwrap();
    store.insert_one(blob("c", 100, SPOTIFY, "u", "d")).unwrap();
    assert_eq!(store.latest_song(&name()), Some(0));
    assert_eq!(store.last_song_id(&name()), Some("X".to_string()));
    assert_eq!(store.latest_song(&"other".to_string()), Some(1));
    assert_eq!(store.latest_song(&"nobody".to_string()), None);
}

#[test]
fn latest_song_handles_negative_timings() {
    let mut store = EventStore::new();
    store.insert_one(song("a", -5, SPOTIFY, "X")).unwrap();
    store.insert_one(song("b", -10, SPOTIFY, "Y")).unwrap();
    assert_eq!(store.latest_song(&name()), Some(0));
}

#[test]
fn blobs_are_counted_by_source_and_url() {
    let mut store = EventStore::new();
    store.insert_one(blob("1", 1, SPOTIFY, "u", "d")).unwrap();
    store.insert_one(blob("2", 1, SPOTIFY, "v", "d")).unwrap();
    store.insert_one(blob("3", 1, "other", "u", "d")).unwrap();
    store.insert_one(blob("4", 1, SPOTIFY, "u", "e")).unwrap();
    store.insert_one(song("5", 1, SPOTIFY, "u")).unwrap();
    assert_eq!(store.count_blobs(&name(), &"u".to_string()), 2);
    assert_eq!(store.count_blobs(&name(), &"v".to_string()), 1);
    assert_eq!(store.count_blobs(&name(), &"w".to_string()), 0);
    assert_eq!(store.count_blobs(&"other".to_string(), &"u".to_string()), 1);
}

#[test]
fn find_blob_returns_the_first_match() {
    let mut store = EventStore::new();
    store.insert_one(blob("1", 1, "other", "u", "x")).unwrap();
    store.insert_one(blob("2", 1, SPOTIFY, "u", "first")).unwrap();
    store.insert_one(blob("3", 1, SPOTIFY, "u", "second")).unwrap();
    assert_eq!(
        store.find_blob(&name(), &"u".to_string()),
        Some(&Blob { url: "u".to_string(), data: "first".to_string() })
    );
    assert_eq!(store.find_blob(&name(), &"v".to_string()), None);
}

#[test]
fn events_within_filters_by_source_kind_and_time() {
    let mut store = EventStore::new();
    store.insert_one(song("a", 10, SPOTIFY, "X")).unwrap();
    store.insert_one(song("b", 20, SPOTIFY, "Y")).unwrap();
    store.insert_one(song("c", 30, SPOTIFY, "Z")).unwrap();
    store.insert_one(song("d", 20, "other", "W")).unwrap();
    store.insert_one(blob("e", 20, SPOTIFY, "u", "d")).unwrap();
    let found = store.events_within(&name(), EventKind::Song, TimeRange { start: 10, end: 20 });
    assert_eq!(found, vec![song("a", 10, SPOTIFY, "X"), song("b", 20, SPOTIFY, "Y")]);
    let found = store.events_within(&name(), EventKind::Song, TimeRange { start: 21, end: 29 });
    assert_eq!(found, vec![]);
    let found = store.events_within(&name(), EventKind::Song, TimeRange { start: 30, end: 10 });
    assert_eq!(found, vec![]);
    let found = store.events_within(&name(), EventKind::ImageData, TimeRange { start: 0, end: 99 });
    assert_eq!(found, vec![blob("e", 20, SPOTIFY, "u", "d")]);
}

#[test]
fn time_range_includes_its_ends() {
    let range = TimeRange { start: -1, end: 1 };
    assert!(range.contains(-1));
    assert!(range.contains(0));
    assert!(range.contains(1));
    assert!(!range.contains(-2));
    assert!(!range.contains(2));
}

#[test]
fn payload_knows_its_kind() {
    assert_eq!(Payload::Song(observation("X")).kind(), EventKind::Song);
    assert_eq!(
        Payload::ImageData(Blob { url: "u".to_string(), data: "d".to_string() }).kind(),
        EventKind::ImageData
    );
}

#[test]
fn songs_query_names_plugin_kind_and_range() {
    let range = TimeRange { start: 1, end: 2 };
    assert_eq!(
        Plugin::songs_query(range),
        Query { source: SPOTIFY.to_string(), kind: EventKind::Song, range }
    );
}

#[test]
fn compressed_events_show_name_time_and_observation() {
    let mut store = EventStore::new();
    store.insert_one(song("a", 10, SPOTIFY, "X")).unwrap();
    store.insert_one(blob("e", 15, SPOTIFY, "u", "d")).unwrap();
    store.insert_one(song("b", 20, SPOTIFY, "Y")).unwrap();
    let found = store.find(&Plugin::songs_query(TimeRange { start: 0, end: 100 }));
    let entries = Plugin::get_compressed_events(Ok(found)).unwrap();
    assert_eq!(
        entries,
        vec![
            CompressedEvent { title: "name of X".to_string(), time: 10, data: observation("X") },
            CompressedEvent { title: "name of Y".to_string(), time: 20, data: observation("Y") },
        ]
    );
}

#[test]
fn compressed_events_skip_blobs_and_hand_failures_on() {
    let entries = Plugin::get_compressed_events(Ok(vec![
        blob("e", 15, SPOTIFY, "u", "d"),
        song("a", 10, SPOTIFY, "X"),
    ]))
    .unwrap();
    assert_eq!(entries.len(), 1);
    assert_eq!(entries[0].title, "name of X");
    assert_eq!(Plugin::get_compressed_events(Ok(vec![])), Ok(vec![]));
    assert_eq!(
        Plugin::get_compressed_events(Err("connection lost".to_string())),
        Err("connection lost".to_string())
    );
}

#[test]
fn blob_encodes_bytes_in_standard_base64() {
    let blob = Blob::encode("u".to_string(), &b"hello".to_vec());
    assert_eq!(blob, Blob { url: "u".to_string(), data: "aGVsbG8=".to_string() });
    assert_eq!(Blob::encode("u".to_string(), &vec![]).data, "");
    assert_eq!(Blob::encode("u".to_string(), &vec![0xfb, 0xff]).data, "+/8=");
}

#[test]
fn blob_decodes_what_it_encoded() {
    for bytes in [vec![], vec![0u8], vec![1, 2], vec![1, 2, 3], vec![255; 100]] {
        let blob = Blob::encode("u".to_string(), &bytes);
        assert_eq!(blob.decode(), Some(bytes));
    }
}

#[test]
fn blob_with_data_that_is_no_base64_decodes_to_nothing() {
    let decode = |data: &str| Blob { url: "u".to_string(), data: data.to_string() }.decode();
    assert_eq!(decode("aGVsbG8="), Some(b"hello".to_vec()));
    assert_eq!(decode("aGVsbG8"), None);
    assert_eq!(decode("a"), None);
    assert_eq!(decode("!!!!"), None);
    assert_eq!(decode("aGVsbG9="), None);
}

#[test]
fn cover_is_served_from_the_blob_found() {
    let found = Blob { url: "u".to_string(), data: "aGVsbG8=".to_string() };
    assert_eq!(get_cover(Ok(Some(found))), Some(b"hello".to_vec()));
    assert_eq!(get_cover(Ok(None)), None);
    assert_eq!(get_cover(Err("connection lost".to_string())), None);
    let broken = Blob { url: "u".to_string(), data: "???".to_string() };
    assert_eq!(get_cover(Ok(Some(broken))), None);
}

#[test]
fn cover_stored_by_a_cycle_is_served_back() {
    let mut store = EventStore::new();
    let bytes = vec![7u8, 8, 9, 10];
    let blob = Blob::encode("https://img.example/a".to_string(), &bytes);
    store
        .insert_one(PersistedEvent {
            id: "https://img.example/a".to_string(),
            timing: 1,
            source: name(),
            payload: Payload::ImageData(blob),
        })
        .unwrap();
    let found = store.find_blob(&name(), &"https://img.example/a".to_string()).cloned();
    assert_eq!(get_cover(Ok(found)), Some(bytes));
}
