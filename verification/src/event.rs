//! What is observed and what is kept: observations, blobs and the events that
//! persist them.

use vstd::prelude::*;

verus! {

/// The two kinds of event this plugin writes.
#[derive(Clone, Copy, Debug, PartialEq, Eq, Structural)]
pub enum EventKind {
    Song,
    ImageData,
}

/// A snapshot of what the account is playing.
#[derive(Debug, PartialEq, Eq)]
pub struct Observation {
    pub id: String,
    pub name: String,
    pub artist: String,
    pub image_url: String,
}

pub struct ObservationView {
    pub id: Seq<char>,
    pub name: Seq<char>,
    pub artist: Seq<char>,
    pub image_url: Seq<char>,
}

impl View for Observation {
    type V = ObservationView;

    open spec fn view(&self) -> ObservationView {
        ObservationView {
            id: self.id@,
            name: self.name@,
            artist: self.artist@,
            image_url: self.image_url@,
        }
    }
}

impl Clone for Observation {
    fn clone(&self) -> (copy: Self)
        ensures
            copy@ == self@,
    {
        Observation {
            id: self.id.clone(),
            name: self.name.clone(),
            artist: self.artist.clone(),
            image_url: self.image_url.clone(),
        }
    }
}

/// A cached secondary asset: the URL it was fetched from, and its bytes in
/// base64.
#[derive(Debug, PartialEq, Eq)]
pub struct Blob {
    pub url: String,
    pub data: String,
}

pub struct BlobView {
    pub url: Seq<char>,
    pub data: Seq<char>,
}

impl View for Blob {
    type V = BlobView;

    open spec fn view(&self) -> BlobView {
        BlobView { url: self.url@, data: self.data@ }
    }
}

impl Clone for Blob {
    fn clone(&self) -> (copy: Self)
        ensures
            copy@ == self@,
    {
        Blob { url: self.url.clone(), data: self.data.clone() }
    }
}

/// What an event carries.
#[derive(Debug, PartialEq, Eq)]
pub enum Payload {
    Song(Observation),
    ImageData(Blob),
}

pub enum PayloadView {
    Song(ObservationView),
    ImageData(BlobView),
}

impl View for Payload {
    type V = PayloadView;

    open spec fn view(&self) -> PayloadView {
        match self {
            Payload::Song(observation) => PayloadView::Song(observation@),
            Payload::ImageData(blob) => PayloadView::ImageData(blob@),
        }
    }
}

impl Clone for Payload {
    fn clone(&self) -> (copy: Self)
        ensures
            copy@ == self@,
    {
        match self {
            Payload::Song(observation) => Payload::Song(observation.clone()),
            Payload::ImageData(blob) => Payload::ImageData(blob.clone()),
        }
    }
}

impl Payload {
    /// The kind of event this payload makes.
    pub fn kind(&self) -> (kind: EventKind)
        ensures
            kind == self@.kind(),
    {
        match self {
            Payload::Song(_) => EventKind::Song,
            Payload::ImageData(_) => EventKind::ImageData,
        }
    }
}

impl PayloadView {
    pub open spec fn kind(self) -> EventKind {
        match self {
            PayloadView::Song(_) => EventKind::Song,
            PayloadView::ImageData(_) => EventKind::ImageData,
        }
    }
}

/// One record of the append-only store. `timing` counts milliseconds since
/// the Unix epoch; `source` names the plugin that wrote the record.
#[derive(Debug, PartialEq, Eq)]
pub struct PersistedEvent {
    pub id: String,
    pub timing: i64,
    pub source: String,
    pub payload: Payload,
}

pub struct PersistedEventView {
    pub id: Seq<char>,
    pub timing: int,
    pub source: Seq<char>,
    pub payload: PayloadView,
}

impl View for PersistedEvent {
    type V = PersistedEventView;

    open spec fn view(&self) -> PersistedEventView {
        PersistedEventView {
            id: self.id@,
            timing: self.timing as int,
            source: self.source@,
            payload: self.payload@,
        }
    }
}

impl DeepView for PersistedEvent {
    type V = PersistedEventView;

    open spec fn deep_view(&self) -> PersistedEventView {
        self@
    }
}

impl Clone for PersistedEvent {
    fn clone(&self) -> (copy: Self)
        ensures
            copy@ == self@,
    {
        PersistedEvent {
            id: self.id.clone(),
            timing: self.timing,
            source: self.source.clone(),
            payload: self.payload.clone(),
        }
    }
}

/// A closed span of time, in milliseconds since the Unix epoch.
#[derive(Clone, Copy, Debug, PartialEq, Eq, Structural)]
pub struct TimeRange {
    pub start: i64,
    pub end: i64,
}

impl TimeRange {
    pub open spec fn holds(self, timing: int) -> bool {
        self.start <= timing <= self.end
    }

    /// Whether `timing` lies in the span, ends included.
    pub fn contains(&self, timing: i64) -> (inside: bool)
        ensures
            inside == self.holds(timing as int),
    {
        self.start <= timing && timing <= self.end
    }
}

/// A stored observation as a timeline shows it: a title, a time, and the
/// observation itself.
#[derive(Debug, PartialEq, Eq)]
pub struct CompressedEvent {
    pub title: String,
    pub time: i64,
    pub data: Observation,
}

pub struct CompressedEventView {
    pub title: Seq<char>,
    pub time: int,
    pub data: ObservationView,
}

impl View for CompressedEvent {
    type V = CompressedEventView;

    open spec fn view(&self) -> CompressedEventView {
        CompressedEventView { title: self.title@, time: self.time as int, data: self.data@ }
    }
}

impl DeepView for CompressedEvent {
    type V = CompressedEventView;

    open spec fn deep_view(&self) -> CompressedEventView {
        self@
    }
}

} // verus!
