//! Reading the player's state: the request to make, and what its answer
//! means.

use vstd::prelude::*;
use vstd::string::*;

use crate::credential::CredentialView;
use crate::event::{Observation, ObservationView};
use crate::outside::{normalized_url, parse_url};
use crate::plugin::Plugin;
use crate::text::{join, joined};
use crate::views::result_view;

verus! {

/// The classes of answer that the poller tells apart by status code.
#[derive(Clone, Copy, Debug, PartialEq, Eq, Structural)]
pub enum ResponseClass {
    /// 204: nothing is playing.
    NoContent,
    /// 401: the credential is no longer accepted.
    Unauthorized,
    /// 200: the body describes what is playing.
    Success,
    /// Any other status.
    Other(u16),
}

pub open spec fn class_of(status: u16) -> ResponseClass {
    if status == 204 {
        ResponseClass::NoContent
    } else if status == 401 {
        ResponseClass::Unauthorized
    } else if status == 200 {
        ResponseClass::Success
    } else {
        ResponseClass::Other(status)
    }
}

/// Sorts a status code into its class.
pub fn classify_status(status: u16) -> (class: ResponseClass)
    ensures
        class == class_of(status),
{
    if status == 204 {
        ResponseClass::NoContent
    } else if status == 401 {
        ResponseClass::Unauthorized
    } else if status == 200 {
        ResponseClass::Success
    } else {
        ResponseClass::Other(status)
    }
}

/// One rendition of the album's cover.
#[derive(Debug, PartialEq, Eq)]
pub struct ImageVariant {
    pub height: u64,
    pub url: String,
}

pub struct ImageVariantView {
    pub height: int,
    pub url: Seq<char>,
}

impl View for ImageVariant {
    type V = ImageVariantView;

    open spec fn view(&self) -> ImageVariantView {
        ImageVariantView { height: self.height as int, url: self.url@ }
    }
}

impl DeepView for ImageVariant {
    type V = ImageVariantView;

    open spec fn deep_view(&self) -> ImageVariantView {
        self@
    }
}

/// What the player reports as playing: the track, its artists in order, and
/// the renditions of its album's cover.
#[derive(Debug, PartialEq, Eq)]
pub struct PlayerData {
    pub id: String,
    pub name: String,
    pub artists: Vec<String>,
    pub images: Vec<ImageVariant>,
}

pub struct PlayerDataView {
    pub id: Seq<char>,
    pub name: Seq<char>,
    pub artists: Seq<Seq<char>>,
    pub images: Seq<ImageVariantView>,
}

impl View for PlayerData {
    type V = PlayerDataView;

    open spec fn view(&self) -> PlayerDataView {
        PlayerDataView {
            id: self.id@,
            name: self.name@,
            artists: self.artists.deep_view(),
            images: self.images.deep_view(),
        }
    }
}

/// Why a body that arrived could not be used.
#[derive(Debug, PartialEq, Eq)]
pub enum BodyFailure {
    /// The body could not be read off the connection.
    Unreadable(String),
    /// The body does not describe a player.
    Malformed(String),
}

pub enum BodyFailureView {
    Unreadable(Seq<char>),
    Malformed(Seq<char>),
}

impl View for BodyFailure {
    type V = BodyFailureView;

    open spec fn view(&self) -> BodyFailureView {
        match self {
            BodyFailure::Unreadable(detail) => BodyFailureView::Unreadable(detail@),
            BodyFailure::Malformed(detail) => BodyFailureView::Malformed(detail@),
        }
    }
}

/// What came back for the request of the player's state.
#[derive(Debug, PartialEq, Eq)]
pub enum PlayerReply {
    /// No answer arrived.
    Unreachable(String),
    /// An answer arrived, with this status and this body.
    Answer { status: u16, body: Result<PlayerData, BodyFailure> },
}

pub enum PlayerReplyView {
    Unreachable(Seq<char>),
    Answer { status: u16, body: Result<PlayerDataView, BodyFailureView> },
}

impl View for PlayerReply {
    type V = PlayerReplyView;

    open spec fn view(&self) -> PlayerReplyView {
        match self {
            PlayerReply::Unreachable(detail) => PlayerReplyView::Unreachable(detail@),
            PlayerReply::Answer { status, body } => PlayerReplyView::Answer {
                status: *status,
                body: result_view(*body),
            },
        }
    }
}

/// What a reply amounts to when it is no error.
#[derive(Debug, PartialEq, Eq)]
pub enum Fetched {
    /// Nothing is playing.
    Nothing,
    /// The credential was turned down and has to be refreshed.
    Expired,
    /// This is playing.
    Song(Observation),
}

pub enum FetchedView {
    Nothing,
    Expired,
    Song(ObservationView),
}

impl View for Fetched {
    type V = FetchedView;

    open spec fn view(&self) -> FetchedView {
        match self {
            Fetched::Nothing => FetchedView::Nothing,
            Fetched::Expired => FetchedView::Expired,
            Fetched::Song(observation) => FetchedView::Song(observation@),
        }
    }
}

/// Why the player's state could not be read.
#[derive(Debug, PartialEq, Eq)]
pub enum FetchError {
    /// The request did not get through.
    Transport(String),
    /// The answer's body could not be read.
    Unreadable(String),
    /// The answer's body does not yield an observation.
    Parse(String),
    /// The answer carries a status the poller has no use for.
    UnexpectedStatus(u16),
}

pub enum FetchErrorView {
    Transport(Seq<char>),
    Unreadable(Seq<char>),
    Parse(Seq<char>),
    UnexpectedStatus(u16),
}

impl View for FetchError {
    type V = FetchErrorView;

    open spec fn view(&self) -> FetchErrorView {
        match self {
            FetchError::Transport(detail) => FetchErrorView::Transport(detail@),
            FetchError::Unreadable(detail) => FetchErrorView::Unreadable(detail@),
            FetchError::Parse(detail) => FetchErrorView::Parse(detail@),
            FetchError::UnexpectedStatus(code) => FetchErrorView::UnexpectedStatus(*code),
        }
    }
}

/// The request for the player's state.
#[derive(Debug, PartialEq, Eq)]
pub struct PlayerRequest {
    pub url: String,
    pub authorization: String,
}

pub struct PlayerRequestView {
    pub url: Seq<char>,
    pub authorization: Seq<char>,
}

impl View for PlayerRequest {
    type V = PlayerRequestView;

    open spec fn view(&self) -> PlayerRequestView {
        PlayerRequestView { url: self.url@, authorization: self.authorization@ }
    }
}

/// The token that goes on the wire: the cached one, or a stand-in when the
/// cache is blank. The stand-in is turned down, which sets off a refresh.
pub open spec fn wire_token(credential: CredentialView) -> Seq<char> {
    if credential.access_token.len() == 0 {
        "update_access_token"@
    } else {
        credential.access_token
    }
}

/// The request that reads the player's state with `credential`.
pub open spec fn player_request_for(credential: CredentialView) -> PlayerRequestView {
    PlayerRequestView {
        url: "https://api.spotify.com/v1/me/player"@,
        authorization: "Bearer "@ + wire_token(credential),
    }
}

/// The position of the tallest image; of several that tall, the first.
pub open spec fn tallest(images: Seq<ImageVariantView>) -> int
    decreases images.len(),
{
    if images.len() <= 1 {
        0
    } else {
        let best = tallest(images.drop_last());
        if images.last().height > images[best].height {
            images.len() - 1
        } else {
            best
        }
    }
}

/// `tallest` names an image that none exceeds and none before it equals.
pub proof fn tallest_is_first_greatest(images: Seq<ImageVariantView>)
    requires
        images.len() > 0,
    ensures
        0 <= tallest(images) < images.len(),
        forall|j: int|
            0 <= j < images.len() ==> (#[trigger] images[j]).height
                <= images[tallest(images)].height,
        forall|j: int|
            0 <= j < tallest(images) ==> (#[trigger] images[j]).height
                < images[tallest(images)].height,
    decreases images.len(),
{
    if images.len() > 1 {
        let front = images.drop_last();
        tallest_is_first_greatest(front);
        assert(forall|j: int| 0 <= j < front.len() ==> front[j] == images[j]);
    }
}

/// Every image address parses as a URL.
pub open spec fn all_addresses_parse(images: Seq<ImageVariantView>) -> bool {
    forall|i: int| 0 <= i < images.len() ==> normalized_url((#[trigger] images[i]).url) is Some
}

/// The observation made of `player` with `cover` as its image.
pub open spec fn observation_with(player: PlayerDataView, cover: Seq<char>) -> ObservationView {
    ObservationView {
        id: player.id,
        name: player.name,
        artist: joined(player.artists, ", "@),
        image_url: cover,
    }
}

/// What a player's report yields: an observation with the address of its
/// tallest image, or the reason why there is none.
pub open spec fn observed(player: PlayerDataView) -> Result<ObservationView, FetchErrorView> {
    if player.images.len() == 0 {
        Err(FetchErrorView::Parse("the album has no image"@))
    } else if !all_addresses_parse(player.images) {
        Err(FetchErrorView::Parse("an image address is not a URL"@))
    } else {
        Ok(
            observation_with(
                player,
                normalized_url(player.images[tallest(player.images)].url)->0,
            ),
        )
    }
}

/// What a reply means.
pub open spec fn interpreted(reply: PlayerReplyView) -> Result<FetchedView, FetchErrorView> {
    match reply {
        PlayerReplyView::Unreachable(detail) => Err(FetchErrorView::Transport(detail)),
        PlayerReplyView::Answer { status, body } => match class_of(status) {
            ResponseClass::NoContent => Ok(FetchedView::Nothing),
            ResponseClass::Unauthorized => Ok(FetchedView::Expired),
            ResponseClass::Other(code) => Err(FetchErrorView::UnexpectedStatus(code)),
            ResponseClass::Success => match body {
                Err(BodyFailureView::Unreadable(detail)) => Err(FetchErrorView::Unreadable(detail)),
                Err(BodyFailureView::Malformed(detail)) => Err(FetchErrorView::Parse(detail)),
                Ok(player) => match observed(player) {
                    Ok(observation) => Ok(FetchedView::Song(observation)),
                    Err(error) => Err(error),
                },
            },
        },
    }
}

/// Finds the tallest image; of several that tall, the first. A list without
/// images has none.
pub fn tallest_image(images: &Vec<ImageVariant>) -> (best: Option<usize>)
    ensures
        match best {
            Some(position) => images.len() > 0 && position == tallest(images.deep_view())
                && position < images.len(),
            None => images.len() == 0,
        },
{
    if images.len() == 0 {
        return None;
    }
    let ghost all = images.deep_view();
    let mut best: usize = 0;
    let mut i: usize = 1;
    proof {
        assert(all.take(1).len() == 1);
    }
    while i < images.len()
        invariant
            1 <= i <= images.len(),
            all == images.deep_view(),
            best < i,
            best == tallest(all.take(i as int)),
        decreases images.len() - i,
    {
        proof {
            assert(all.take(i + 1).drop_last() =~= all.take(i as int));
            assert(all.take(i + 1).last() == images[i as int]@);
            assert(all.take(i + 1)[best as int] == images[best as int]@);
        }
        if images[i].height > images[best].height {
            best = i;
        }
        i = i + 1;
    }
    proof {
        assert(all.take(images.len() as int) =~= all);
    }
    Some(best)
}

impl Observation {
    /// Makes the observation of what `player` reports, with `cover` as the
    /// address of its image.
    pub fn from_player(player: PlayerData, cover: String) -> (observation: Observation)
        ensures
            observation@ == observation_with(player@, cover@),
    {
        let artist = join(&player.artists, ", ");
        Observation { id: player.id, name: player.name, artist, image_url: cover }
    }
}

/// Turns a player's report into an observation, choosing the tallest image.
pub fn observe(player: PlayerData) -> (outcome: Result<Observation, FetchError>)
    ensures
        result_view(outcome) == observed(player@),
{
    let best = match tallest_image(&player.images) {
        Some(position) => position,
        None => {
            return Err(FetchError::Parse(String::from_str("the album has no image")));
        },
    };
    let ghost images = player.images.deep_view();
    let mut cover: Option<String> = None;
    let mut i: usize = 0;
    while i < player.images.len()
        invariant
            i <= player.images.len(),
            images == player.images.deep_view(),
            best < player.images.len(),
            forall|j: int| 0 <= j < i ==> normalized_url((#[trigger] images[j]).url) is Some,
            i <= best ==> cover is None,
            i > best ==> cover.is_some() && Some(cover->0@) == normalized_url(
                images[best as int].url,
            ),
        decreases player.images.len() - i,
    {
        match parse_url(player.images[i].url.as_str()) {
            Ok(normal) => {
                if i == best {
                    cover = Some(normal);
                }
            },
            Err(_) => {
                assert(normalized_url(images[i as int].url) is None);
                return Err(FetchError::Parse(String::from_str("an image address is not a URL")));
            },
        }
        i = i + 1;
    }
    match cover {
        Some(address) => Ok(Observation::from_player(player, address)),
        None => Err(FetchError::Parse(String::from_str("the album has no image"))),
    }
}

impl Plugin {
    /// The request that reads the player's state with the cached credential.
    pub fn player_request(&self) -> (request: PlayerRequest)
        ensures
            request@ == player_request_for(self@.credential),
    {
        proof {
            self.view_of_fields();
        }
        let credential = self.cache.get();
        let mut authorization = String::from_str("Bearer ");
        if credential.access_token.as_str().unicode_len() == 0 {
            authorization.append("update_access_token");
        } else {
            authorization.append(credential.access_token.as_str());
        }
        PlayerRequest {
            url: String::from_str("https://api.spotify.com/v1/me/player"),
            authorization,
        }
    }

    /// Says what the reply to the player request means: nothing playing, a
    /// credential to refresh, an observation, or an error.
    pub fn get_current_song(reply: PlayerReply) -> (outcome: Result<Fetched, FetchError>)
        ensures
            result_view(outcome) == interpreted(reply@),
    {
        match reply {
            PlayerReply::Unreachable(detail) => Err(FetchError::Transport(detail)),
            PlayerReply::Answer { status, body } => match classify_status(status) {
                ResponseClass::NoContent => Ok(Fetched::Nothing),
                ResponseClass::Unauthorized => Ok(Fetched::Expired),
                ResponseClass::Other(code) => Err(FetchError::UnexpectedStatus(code)),
                ResponseClass::Success => match body {
                    Err(BodyFailure::Unreadable(detail)) => Err(FetchError::Unreadable(detail)),
                    Err(BodyFailure::Malformed(detail)) => Err(FetchError::Parse(detail)),
                    Ok(player) => match observe(player) {
                        Ok(observation) => Ok(Fetched::Song(observation)),
                        Err(error) => Err(error),
                    },
                },
            },
        }
    }
}

} // verus!
