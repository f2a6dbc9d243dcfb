use timeline_plugin_spotify::event::Observation;
use timeline_plugin_spotify::fetch::{
    classify_status, observe, tallest_image, BodyFailure, FetchError, Fetched, ImageVariant,
    PlayerData, PlayerReply, ResponseClass,
};
use timeline_plugin_spotify::plugin::{ConfigEntries, Plugin};
use timeline_plugin_spotify::refresh::{
    basic_authorization, RefreshError, Refreshed, TokenReply,
};
use timeline_plugin_spotify::text::{equal, join};

fn plugin(persisted: Option<&str>) -> Plugin {
    Plugin::new(
        Some(ConfigEntries {
            client_id: Some("id".to_string()),
            client_secret: Some("secret".to_string()),
            refresh_token: Some("refresh".to_string()),
        }),
        persisted,
    )
    .unwrap()
}

fn image(height: u64, url: &str) -> ImageVariant {
    ImageVariant { height, url: url.to_string() }
}

fn player(images: Vec<ImageVariant>) -> PlayerData {
    PlayerData {
        id: "track-1".to_string(),
        name: "Song".to_string(),
        artists: vec!["Ann".to_string(), "Bob".to_string()],
        images,
    }
}

fn answer(status: u16, body: Result<PlayerData, BodyFailure>) -> PlayerReply {
    PlayerReply::Answer { status, body }
}

#[test]
fn status_codes_fall_into_their_classes() {
    assert_eq!(classify_status(204), ResponseClass::NoContent);
    assert_eq!(classify_status(401), ResponseClass::Unauthorized);
    assert_eq!(classify_status(200), ResponseClass::Success);
    assert_eq!(classify_status(201), ResponseClass::Other(201));
    assert_eq!(classify_status(403), ResponseClass::Other(403));
    assert_eq!(classify_status(500), ResponseClass::Other(500));
    assert_eq!(classify_status(0), ResponseClass::Other(0));
}

#[test]
fn highest_resolution_selection() {
    let images = vec![
        image(64, "https://img.example/64"),
        image(640, "https://img.example/640"),
        image(300, "https://img.example/300"),
    ];
    assert_eq!(tallest_image(&images), Some(1));
    let observation = observe(player(images)).unwrap();
    assert_eq!(observation.image_url, "https://img.example/640");
}

#[test]
fn tallest_image_prefers_the_first_of_equals() {
    let images = vec![image(300, "a"), image(640, "b"), image(640, "c"), image(1, "d")];
    assert_eq!(tallest_image(&images), Some(1));
    assert_eq!(tallest_image(&vec![image(0, "a")]), Some(0));
    assert_eq!(tallest_image(&vec![image(5, "a"), image(5, "b")]), Some(0));
    assert_eq!(tallest_image(&vec![image(1, "a"), image(2, "b"), image(3, "c")]), Some(2));
    assert_eq!(tallest_image(&vec![]), None);
}

#[test]
fn artists_are_joined_with_comma_and_space() {
    assert_eq!(join(&vec![], ", "), "");
    assert_eq!(join(&vec!["Ann".to_string()], ", "), "Ann");
    assert_eq!(join(&vec!["Ann".to_string(), "Bob".to_string()], ", "), "Ann, Bob");
    assert_eq!(
        join(&vec!["a".to_string(), "".to_string(), "c".to_string()], "-"),
        "a--c"
    );
}

#[test]
fn text_equality_compares_characters() {
    assert!(equal("abc", "abc"));
    assert!(!equal("abc", "abd"));
    assert!(!equal("abc", "ab"));
    assert!(equal("", ""));
}

#[test]
fn observation_takes_fields_from_the_player() {
    let observation = observe(player(vec![image(640, "https://img.example/a")])).unwrap();
    assert_eq!(
        observation,
        Observation {
            id: "track-1".to_string(),
            name: "Song".to_string(),
            artist: "Ann, Bob".to_string(),
            image_url: "https://img.example/a".to_string(),
        }
    );
}

#[test]
fn observation_from_player_uses_the_given_cover() {
    let observation = Observation::from_player(player(vec![]), "cover".to_string());
    assert_eq!(observation.image_url, "cover");
    assert_eq!(observation.artist, "Ann, Bob");
    assert_eq!(observation.id, "track-1");
    assert_eq!(observation.name, "Song");
}

#[test]
fn image_address_is_normalized_by_the_url_parser() {
    let observation = observe(player(vec![image(1, "HTTPS://IMG.Example")])).unwrap();
    assert_eq!(observation.image_url, "https://img.example/");
}

#[test]
fn player_without_images_is_a_parse_failure() {
    assert_eq!(
        observe(player(vec![])),
        Err(FetchError::Parse("the album has no image".to_string()))
    );
}

#[test]
fn any_image_address_that_is_no_url_is_a_parse_failure() {
    let images = vec![image(640, "https://img.example/640"), image(64, "not a url")];
    assert_eq!(
        observe(player(images)),
        Err(FetchError::Parse("an image address is not a URL".to_string()))
    );
}

#[test]
fn no_content_means_nothing_is_playing() {
    let reply = answer(204, Err(BodyFailure::Malformed("EOF".to_string())));
    assert_eq!(Plugin::get_current_song(reply), Ok(Fetched::Nothing));
}

#[test]
fn unauthorized_means_credential_expired() {
    let reply = answer(401, Err(BodyFailure::Malformed("EOF".to_string())));
    assert_eq!(Plugin::get_current_song(reply), Ok(Fetched::Expired));
    let reply = answer(401, Ok(player(vec![image(1, "https://img.example/a")])));
    assert_eq!(Plugin::get_current_song(reply), Ok(Fetched::Expired));
}

#[test]
fn other_status_is_unexpected() {
    let reply = answer(500, Ok(player(vec![image(1, "https://img.example/a")])));
    assert_eq!(Plugin::get_current_song(reply), Err(FetchError::UnexpectedStatus(500)));
    let reply = answer(403, Err(BodyFailure::Unreadable("x".to_string())));
    assert_eq!(Plugin::get_current_song(reply), Err(FetchError::UnexpectedStatus(403)));
}

#[test]
fn unreachable_player_is_a_transport_failure() {
    let reply = PlayerReply::Unreachable("timed out".to_string());
    assert_eq!(
        Plugin::get_current_song(reply),
        Err(FetchError::Transport("timed out".to_string()))
    );
}

#[test]
fn success_with_unusable_body_is_an_error() {
    let reply = answer(200, Err(BodyFailure::Malformed("missing field".to_string())));
    assert_eq!(
        Plugin::get_current_song(reply),
        Err(FetchError::Parse("missing field".to_string()))
    );
    let reply = answer(200, Err(BodyFailure::Unreadable("reset".to_string())));
    assert_eq!(
        Plugin::get_current_song(reply),
        Err(FetchError::Unreadable("reset".to_string()))
    );
}

#[test]
fn success_with_player_yields_observation() {
    let reply = answer(200, Ok(player(vec![image(1, "https://img.example/a")])));
    match Plugin::get_current_song(reply) {
        Ok(Fetched::Song(observation)) => {
            assert_eq!(observation.id, "track-1");
            assert_eq!(observation.image_url, "https://img.example/a");
        }
        other => panic!("unexpected {:?}", other),
    }
}

#[test]
fn player_request_carries_the_cached_token() {
    let request = plugin(Some("access_token=abc")).player_request();
    assert_eq!(request.url, "https://api.spotify.com/v1/me/player");
    assert_eq!(request.authorization, "Bearer abc");
}

#[test]
fn player_request_with_blank_cache_carries_the_stand_in() {
    let request = plugin(None).player_request();
    assert_eq!(request.authorization, "Bearer update_access_token");
}

#[test]
fn token_request_uses_basic_authentication() {
    let request = plugin(None).token_request();
    assert_eq!(request.url, "https://accounts.spotify.com/api/token");
    assert_eq!(request.content_type, "application/x-www-form-urlencoded");
    assert_eq!(request.authorization, "Basic aWQ6c2VjcmV0");
    assert_eq!(request.body, "grant_type=refresh_token&refresh_token=refresh");
}

#[test]
fn token_replaces_the_cached_credential() {
    let mut plugin = plugin(Some("access_token=old"));
    let outcome = plugin.update_access_token(TokenReply::Token("new".to_string()));
    assert_eq!(outcome, Ok(Refreshed::Stored { persist: "access_token=new".to_string() }));
    assert_eq!(plugin.cache().get().access_token, "new");
    assert_eq!(plugin.player_request().authorization, "Bearer new");
}

#[test]
fn malformed_token_answer_is_ignored() {
    let mut plugin = plugin(Some("access_token=old"));
    let outcome = plugin.update_access_token(TokenReply::Malformed("no token".to_string()));
    assert_eq!(outcome, Ok(Refreshed::Ignored("no token".to_string())));
    assert_eq!(plugin.cache().get().access_token, "old");
}

#[test]
fn unreachable_token_endpoint_is_a_transport_failure() {
    let mut plugin = plugin(Some("access_token=old"));
    let outcome = plugin.update_access_token(TokenReply::Unreachable("refused".to_string()));
    assert_eq!(outcome, Err(RefreshError::Transport("refused".to_string())));
    assert_eq!(plugin.cache().get().access_token, "old");
}

#[test]
fn basic_authorization_prefixes_the_encoded_pair() {
    assert_eq!(basic_authorization("aWQ6c2VjcmV0"), "Basic aWQ6c2VjcmV0");
    assert_eq!(basic_authorization(""), "Basic ");
}

#[test]
fn started_plugin_is_well_formed() {
    assert!(plugin(None).is_well_formed());
}
