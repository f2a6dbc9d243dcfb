//! Stored observations as a timeline shows them.

use vstd::prelude::*;

use crate::event::{
    CompressedEvent, CompressedEventView, EventKind, Payload, PayloadView, PersistedEvent,
    PersistedEventView, TimeRange,
};
use crate::plugin::{plugin_name, Plugin};
use crate::store::{events_within, EventStore};

verus! {

/// What a timeline asks the store for: the events of one plugin and one
/// kind in a span of time.
#[derive(Debug, PartialEq, Eq)]
pub struct Query {
    pub source: String,
    pub kind: EventKind,
    pub range: TimeRange,
}

pub struct QueryView {
    pub source: Seq<char>,
    pub kind: EventKind,
    pub range: TimeRange,
}

impl View for Query {
    type V = QueryView;

    open spec fn view(&self) -> QueryView {
        QueryView { source: self.source@, kind: self.kind, range: self.range }
    }
}

/// The timeline's entry for one event, if the event is an observation.
pub open spec fn compressed_one(event: PersistedEventView) -> Option<CompressedEventView> {
    match event.payload {
        PayloadView::Song(observation) => Some(
            CompressedEventView { title: observation.name, time: event.timing, data: observation },
        ),
        PayloadView::ImageData(_) => None,
    }
}

/// The timeline's entries for `events`: one for each observation, in the
/// order of the events.
pub open spec fn compressed(events: Seq<PersistedEventView>) -> Seq<CompressedEventView>
    decreases events.len(),
{
    if events.len() == 0 {
        Seq::empty()
    } else {
        match compressed_one(events.last()) {
            Some(entry) => compressed(events.drop_last()).push(entry),
            None => compressed(events.drop_last()),
        }
    }
}

/// What the timeline shows for what the store found.
pub open spec fn shown(found: Result<Seq<PersistedEventView>, Seq<char>>) -> Result<
    Seq<CompressedEventView>,
    Seq<char>,
> {
    match found {
        Ok(events) => Ok(compressed(events)),
        Err(detail) => Err(detail),
    }
}

/// The view of what the store found.
pub open spec fn found_view(found: Result<Vec<PersistedEvent>, String>) -> Result<
    Seq<PersistedEventView>,
    Seq<char>,
> {
    match found {
        Ok(events) => Ok(events.deep_view()),
        Err(detail) => Err(detail@),
    }
}

/// The view of what the timeline shows.
pub open spec fn shown_view(shown: Result<Vec<CompressedEvent>, String>) -> Result<
    Seq<CompressedEventView>,
    Seq<char>,
> {
    match shown {
        Ok(entries) => Ok(entries.deep_view()),
        Err(detail) => Err(detail@),
    }
}

impl Plugin {
    /// The query for this plugin's observations in `range`.
    pub fn songs_query(range: TimeRange) -> (query: Query)
        ensures
            query@ == (QueryView { source: plugin_name(), kind: EventKind::Song, range }),
    {
        Query { source: Plugin::get_type(), kind: EventKind::Song, range }
    }

    /// Turns what the store found for `songs_query` into the timeline's
    /// entries: each observation under its track's name and at its timing. A
    /// failure of the store is handed on as it is.
    pub fn get_compressed_events(found: Result<Vec<PersistedEvent>, String>) -> (entries: Result<
        Vec<CompressedEvent>,
        String,
    >)
        ensures
            shown_view(entries) == shown(found_view(found)),
    {
        let events = match found {
            Ok(events) => events,
            Err(detail) => {
                return Err(detail);
            },
        };
        let ghost all = events.deep_view();
        let mut entries: Vec<CompressedEvent> = Vec::new();
        let mut i: usize = 0;
        proof {
            assert(all.take(0) =~= Seq::<PersistedEventView>::empty());
            assert(entries.deep_view() =~= Seq::<CompressedEventView>::empty());
        }
        while i < events.len()
            invariant
                i <= events.len(),
                all == events.deep_view(),
                entries.deep_view() == compressed(all.take(i as int)),
            decreases events.len() - i,
        {
            proof {
                assert(all.take(i + 1).drop_last() =~= all.take(i as int));
                assert(all.take(i + 1).last() == events[i as int]@);
            }
            let event = &events[i];
            match &event.payload {
                Payload::Song(observation) => {
                    let ghost before = entries.deep_view();
                    let entry = CompressedEvent {
                        title: observation.name.clone(),
                        time: event.timing,
                        data: observation.clone(),
                    };
                    let ghost added = entry@;
                    entries.push(entry);
                    proof {
                        assert(entries.deep_view() =~= before.push(added));
                    }
                },
                Payload::ImageData(_) => {},
            }
            i = i + 1;
        }
        proof {
            assert(all.take(events.len() as int) =~= all);
        }
        Ok(entries)
    }
}

impl EventStore {
    /// Answers a timeline's query.
    pub fn find(&self, query: &Query) -> (found: Vec<PersistedEvent>)
        ensures
            found.deep_view() == events_within(
                self@,
                query@.source,
                query@.kind,
                query@.range,
            ),
    {
        self.events_within(&query.source, query.kind, query.range)
    }
}

} // verus!
