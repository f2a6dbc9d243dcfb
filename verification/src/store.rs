//! An append-only event store held in memory.
//!
//! It answers the few questions the synchronization cycle asks of a store:
//! the latest observation of a plugin, how many blobs carry a URL, the
//! observations in a span of time, and the insertion of one event. The real
//! store of a host answers the same questions over the network; this one
//! says what the answers mean.

use vstd::prelude::*;

use crate::event::{
    Blob, EventKind, Payload, PayloadView, PersistedEvent, PersistedEventView, TimeRange,
};

verus! {

/// An observation written by `source`.
pub open spec fn is_song_of(event: PersistedEventView, source: Seq<char>) -> bool {
    event.source == source && event.payload is Song
}

/// A blob written by `source` for `url`.
pub open spec fn is_blob_of(event: PersistedEventView, source: Seq<char>, url: Seq<char>) -> bool {
    event.source == source && match event.payload {
        PayloadView::ImageData(blob) => blob.url == url,
        PayloadView::Song(_) => false,
    }
}

/// The position of the observation of `source` with the greatest timing; of
/// several with that timing, the one inserted last.
pub open spec fn latest_song(events: Seq<PersistedEventView>, source: Seq<char>) -> Option<int>
    decreases events.len(),
{
    if events.len() == 0 {
        None
    } else {
        let earlier = latest_song(events.drop_last(), source);
        let last = events.last();
        if is_song_of(last, source) && (earlier matches Some(i) ==> events[i].timing
            <= last.timing) {
            Some(events.len() - 1)
        } else {
            earlier
        }
    }
}

/// How many blobs `source` has stored for `url`.
pub open spec fn count_blobs(
    events: Seq<PersistedEventView>,
    source: Seq<char>,
    url: Seq<char>,
) -> nat
    decreases events.len(),
{
    if events.len() == 0 {
        0
    } else {
        count_blobs(events.drop_last(), source, url) + if is_blob_of(events.last(), source, url) {
            1nat
        } else {
            0nat
        }
    }
}

/// The position of the first blob that `source` stored for `url`.
pub open spec fn first_blob(
    events: Seq<PersistedEventView>,
    source: Seq<char>,
    url: Seq<char>,
) -> Option<int>
    decreases events.len(),
{
    if events.len() == 0 {
        None
    } else {
        let earlier = first_blob(events.drop_last(), source, url);
        if earlier is Some {
            earlier
        } else if is_blob_of(events.last(), source, url) {
            Some(events.len() - 1)
        } else {
            None
        }
    }
}

/// An event of the given kind written by `source`.
pub open spec fn is_of(event: PersistedEventView, source: Seq<char>, kind: EventKind) -> bool {
    event.source == source && event.payload.kind() == kind
}

/// The events of `source` and `kind` whose timing lies in `range`, in the
/// order of their insertion.
pub open spec fn events_within(
    events: Seq<PersistedEventView>,
    source: Seq<char>,
    kind: EventKind,
    range: TimeRange,
) -> Seq<PersistedEventView>
    decreases events.len(),
{
    if events.len() == 0 {
        Seq::empty()
    } else {
        let earlier = events_within(events.drop_last(), source, kind, range);
        if is_of(events.last(), source, kind) && range.holds(events.last().timing) {
            earlier.push(events.last())
        } else {
            earlier
        }
    }
}

/// Some event carries the identifier `id`.
pub open spec fn has_id(events: Seq<PersistedEventView>, id: Seq<char>) -> bool {
    exists|i: int| 0 <= i < events.len() && (#[trigger] events[i]).id == id
}

/// No identifier occurs twice.
pub open spec fn unique_ids(events: Seq<PersistedEventView>) -> bool {
    forall|i: int, j: int|
        0 <= i < j < events.len() ==> (#[trigger] events[i]).id != (#[trigger] events[j]).id
}

/// What a store holds after it was asked to insert `event`: the event is
/// appended unless its identifier is taken.
pub open spec fn inserted(
    events: Seq<PersistedEventView>,
    event: PersistedEventView,
) -> Seq<PersistedEventView> {
    if has_id(events, event.id) {
        events
    } else {
        events.push(event)
    }
}

/// `latest_song` names the latest observation: no observation of the source
/// is later, and none inserted after it is as late.
pub proof fn latest_song_is_latest(events: Seq<PersistedEventView>, source: Seq<char>)
    ensures
        latest_song(events, source) matches Some(i) ==> {
            &&& 0 <= i < events.len()
            &&& is_song_of(events[i], source)
            &&& forall|j: int|
                0 <= j < events.len() && is_song_of(#[trigger] events[j], source)
                    ==> events[j].timing <= events[i].timing
            &&& forall|j: int|
                i < j < events.len() && is_song_of(#[trigger] events[j], source)
                    ==> events[j].timing < events[i].timing
        },
        latest_song(events, source) is None ==> forall|j: int|
            0 <= j < events.len() ==> !is_song_of(#[trigger] events[j], source),
    decreases events.len(),
{
    if events.len() > 0 {
        let front = events.drop_last();
        latest_song_is_latest(front, source);
        assert(forall|j: int| 0 <= j < front.len() ==> front[j] == events[j]);
    }
}

/// A store counts at least one blob for a URL exactly when it can find one.
pub proof fn counted_blob_is_found(
    events: Seq<PersistedEventView>,
    source: Seq<char>,
    url: Seq<char>,
)
    ensures
        count_blobs(events, source, url) >= 1 <==> first_blob(events, source, url) is Some,
        first_blob(events, source, url) matches Some(i) ==> 0 <= i < events.len() && is_blob_of(
            events[i],
            source,
            url,
        ),
    decreases events.len(),
{
    if events.len() > 0 {
        let front = events.drop_last();
        counted_blob_is_found(front, source, url);
        assert(forall|j: int| 0 <= j < front.len() ==> front[j] == events[j]);
    }
}

/// Insertion never makes two identifiers equal.
pub proof fn insertion_keeps_ids_unique(events: Seq<PersistedEventView>, event: PersistedEventView)
    ensures
        unique_ids(events) ==> unique_ids(inserted(events, event)),
{
}

/// Why the store turned an insertion down.
#[derive(Clone, Copy, Debug, PartialEq, Eq, Structural)]
pub enum StoreError {
    /// Another event already carries the identifier.
    DuplicateId,
}

#[derive(Debug)]
/// The events of all plugins, in the order of their insertion. A store that
/// grows by `insert_one` alone never holds two events with one identifier.
pub struct EventStore {
    events: Vec<PersistedEvent>,
}

impl View for EventStore {
    type V = Seq<PersistedEventView>;

    closed spec fn view(&self) -> Seq<PersistedEventView> {
        self.events.deep_view()
    }
}

impl EventStore {
    /// A store without events.
    pub fn new() -> (store: EventStore)
        ensures
            store@ == Seq::<PersistedEventView>::empty(),
    {
        let store = EventStore { events: Vec::new() };
        assert(store.events.deep_view() =~= Seq::<PersistedEventView>::empty());
        store
    }

    /// The number of events.
    pub fn len(&self) -> (n: usize)
        ensures
            n == self@.len(),
    {
        self.events.len()
    }

    /// The event at position `index`, counted from the first insertion.
    pub fn get(&self, index: usize) -> (event: Option<&PersistedEvent>)
        ensures
            match event {
                Some(found) => index < self@.len() && found@ == self@[index as int],
                None => index >= self@.len(),
            },
    {
        if index < self.events.len() {
            Some(&self.events[index])
        } else {
            None
        }
    }

    /// Whether an event carries the identifier `id`.
    pub fn contains_id(&self, id: &String) -> (found: bool)
        ensures
            found == has_id(self@, id@),
    {
        let mut i: usize = 0;
        while i < self.events.len()
            invariant
                i <= self.events.len(),
                forall|j: int| 0 <= j < i ==> (#[trigger] self.events.deep_view()[j]).id != id@,
            decreases self.events.len() - i,
        {
            if self.events[i].id == *id {
                assert(self.events.deep_view()[i as int].id == id@);
                return true;
            }
            i = i + 1;
        }
        false
    }

    /// Appends `event`, unless its identifier is taken.
    pub fn insert_one(&mut self, event: PersistedEvent) -> (outcome: Result<(), StoreError>)
        ensures
            final(self)@ == inserted(old(self)@, event@),
            outcome is Err <==> has_id(old(self)@, event@.id),
            unique_ids(old(self)@) ==> unique_ids(final(self)@),
    {
        proof {
            insertion_keeps_ids_unique(self@, event@);
        }
        if self.contains_id(&event.id) {
            return Err(StoreError::DuplicateId);
        }
        let ghost before = self.events.deep_view();
        let ghost added = event@;
        self.events.push(event);
        proof {
            assert(self.events.deep_view() =~= before.push(added));
        }
        Ok(())
    }

    /// The position of the latest observation that `source` stored.
    pub fn latest_song(&self, source: &String) -> (position: Option<usize>)
        ensures
            position matches Some(i) ==> latest_song(self@, source@) == Some(i as int),
            position is None ==> latest_song(self@, source@) is None,
    {
        let mut best: Option<usize> = None;
        let mut i: usize = 0;
        let ghost all = self.events.deep_view();
        proof {
            assert(all.take(0) =~= Seq::<PersistedEventView>::empty());
        }
        while i < self.events.len()
            invariant
                i <= self.events.len(),
                all == self.events.deep_view(),
                best matches Some(b) ==> b < i && latest_song(all.take(i as int), source@) == Some(
                    b as int,
                ),
                best is None ==> latest_song(all.take(i as int), source@) is None,
            decreases self.events.len() - i,
        {
            proof {
                assert(all.take(i + 1).drop_last() =~= all.take(i as int));
                assert(all.take(i + 1).last() == self.events[i as int]@);
            }
            let event = &self.events[i];
            let song_of_source = event.source == *source && match &event.payload {
                Payload::Song(_) => true,
                Payload::ImageData(_) => false,
            };
            if song_of_source {
                let later = match best {
                    Some(b) => self.events[b].timing <= event.timing,
                    None => true,
                };
                if later {
                    best = Some(i);
                }
            }
            i = i + 1;
        }
        proof {
            assert(all.take(self.events.len() as int) =~= all);
        }
        best
    }

    /// How many blobs `source` has stored for `url`.
    pub fn count_blobs(&self, source: &String, url: &String) -> (count: usize)
        ensures
            count == count_blobs(self@, source@, url@),
    {
        let mut count: usize = 0;
        let mut i: usize = 0;
        let ghost all = self.events.deep_view();
        proof {
            assert(all.take(0) =~= Seq::<PersistedEventView>::empty());
        }
        while i < self.events.len()
            invariant
                i <= self.events.len(),
                all == self.events.deep_view(),
                count <= i,
                count == count_blobs(all.take(i as int), source@, url@),
            decreases self.events.len() - i,
        {
            proof {
                assert(all.take(i + 1).drop_last() =~= all.take(i as int));
                assert(all.take(i + 1).last() == self.events[i as int]@);
            }
            let event = &self.events[i];
            let blob_of_source = event.source == *source && match &event.payload {
                Payload::ImageData(blob) => blob.url == *url,
                Payload::Song(_) => false,
            };
            if blob_of_source {
                count = count + 1;
            }
            i = i + 1;
        }
        proof {
            assert(all.take(self.events.len() as int) =~= all);
        }
        count
    }

    /// The first blob that `source` stored for `url`.
    pub fn find_blob(&self, source: &String, url: &String) -> (blob: Option<&Blob>)
        ensures
            match (first_blob(self@, source@, url@), blob) {
                (Some(i), Some(found)) => PayloadView::ImageData(found@) == self@[i].payload,
                (None, None) => true,
                _ => false,
            },
    {
        let mut i: usize = 0;
        let ghost all = self.events.deep_view();
        proof {
            assert(all.take(0) =~= Seq::<PersistedEventView>::empty());
        }
        while i < self.events.len()
            invariant
                i <= self.events.len(),
                all == self.events.deep_view(),
                first_blob(all.take(i as int), source@, url@) is None,
            decreases self.events.len() - i,
        {
            proof {
                assert(all.take(i + 1).drop_last() =~= all.take(i as int));
                assert(all.take(i + 1).last() == self.events[i as int]@);
            }
            let event = &self.events[i];
            if event.source == *source {
                match &event.payload {
                    Payload::ImageData(blob) => {
                        if blob.url == *url {
                            proof {
                                first_blob_of_prefix(all, source@, url@, i + 1);
                            }
                            return Some(blob);
                        }
                    },
                    Payload::Song(_) => {},
                }
            }
            i = i + 1;
        }
        proof {
            assert(all.take(self.events.len() as int) =~= all);
        }
        None
    }

    /// The events of `source` and `kind` whose timing lies in `range`, in
    /// the order of their insertion.
    pub fn events_within(&self, source: &String, kind: EventKind, range: TimeRange) -> (found: Vec<
        PersistedEvent,
    >)
        ensures
            found.deep_view() == events_within(self@, source@, kind, range),
    {
        let mut found: Vec<PersistedEvent> = Vec::new();
        let mut i: usize = 0;
        let ghost all = self.events.deep_view();
        proof {
            assert(all.take(0) =~= Seq::<PersistedEventView>::empty());
            assert(found.deep_view() =~= Seq::<PersistedEventView>::empty());
        }
        while i < self.events.len()
            invariant
                i <= self.events.len(),
                all == self.events.deep_view(),
                found.deep_view() == events_within(all.take(i as int), source@, kind, range),
            decreases self.events.len() - i,
        {
            proof {
                assert(all.take(i + 1).drop_last() =~= all.take(i as int));
                assert(all.take(i + 1).last() == self.events[i as int]@);
            }
            let event = &self.events[i];
            let wanted = event.source == *source && event.payload.kind() == kind;
            if wanted && range.contains(event.timing) {
                let ghost before = found.deep_view();
                let copy = event.clone();
                found.push(copy);
                proof {
                    assert(found.deep_view() =~= before.push(event@));
                }
            }
            i = i + 1;
        }
        proof {
            assert(all.take(self.events.len() as int) =~= all);
        }
        found
    }
}

/// A blob found in the first `n` events is the first blob of the whole store.
proof fn first_blob_of_prefix(
    events: Seq<PersistedEventView>,
    source: Seq<char>,
    url: Seq<char>,
    n: int,
)
    requires
        0 <= n <= events.len(),
        first_blob(events.take(n), source, url) is Some,
    ensures
        first_blob(events, source, url) == first_blob(events.take(n), source, url),
    decreases events.len() - n,
{
    if n < events.len() {
        assert(events.take(n + 1).drop_last() =~= events.take(n));
        first_blob_of_prefix(events, source, url, n + 1);
    } else {
        assert(events.take(n) =~= events);
    }
}

} // verus!
