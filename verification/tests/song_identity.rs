//! The song identity: validation, the filename codec and the URL codec.

use twitch_bot::commands::radio::{RadioPlatformSong, SongRequestError};

fn song(id: &str) -> RadioPlatformSong {
    RadioPlatformSong::new_youtube(id).unwrap()
}

#[test]
fn new_youtube_accepts_allowed_characters() {
    assert!(RadioPlatformSong::new_youtube("abc123XYZ_-").is_ok());
    assert!(RadioPlatformSong::new_youtube("").is_ok());
    assert!(RadioPlatformSong::new_youtube("dQw4w9WgXcQ").is_ok());
}

#[test]
fn new_youtube_rejects_disallowed_characters() {
    assert!(RadioPlatformSong::new_youtube("has space").is_err());
    assert!(RadioPlatformSong::new_youtube("a/b").is_err());
    assert!(RadioPlatformSong::new_youtube("a?b").is_err());
    assert!(RadioPlatformSong::new_youtube("a.b").is_err());
    assert!(RadioPlatformSong::new_youtube("a!b").is_err());
}

#[test]
fn to_filename_is_tagged() {
    assert_eq!(song("abc123XYZ_-").to_filename(), "youtube-abc123XYZ_-");
    assert_eq!(song("").to_filename(), "youtube-");
}

#[test]
fn filename_round_trip() {
    let x = song("abc123XYZ_-");
    let back = RadioPlatformSong::from_filename(&x.to_filename()).unwrap();
    assert!(back == x);
}

#[test]
fn from_filename_strips_extension() {
    let got = RadioPlatformSong::from_filename("youtube-abc.ogg").unwrap();
    assert!(got == song("abc"));
    let dashed = RadioPlatformSong::from_filename("youtube-a-b.ogg").unwrap();
    assert!(dashed == song("a-b"));
}

#[test]
fn from_filename_rejects_unknown_platform() {
    assert!(RadioPlatformSong::from_filename("spotify-abc").is_none());
    assert!(RadioPlatformSong::from_filename("abc.ogg").is_none());
}

#[test]
fn from_filename_bare_tag_is_empty_id() {
    let got = RadioPlatformSong::from_filename("youtube").unwrap();
    assert!(got == song(""));
}

#[test]
fn to_url_is_canonical() {
    assert_eq!(
        song("abc123XYZ_-").to_url(),
        "https://www.youtube.com/watch?v=abc123XYZ_-"
    );
}

#[test]
fn url_round_trip() {
    let x = song("abc123XYZ_-");
    let back = RadioPlatformSong::parse_from_url(&x.to_url()).unwrap();
    assert!(back == x);
}

#[test]
fn parse_from_url_short_link() {
    let got = RadioPlatformSong::parse_from_url("https://youtu.be/dQw4w9WgXcQ").unwrap();
    assert!(got == song("dQw4w9WgXcQ"));
}

#[test]
fn parse_from_url_with_extra_query_pairs() {
    let got =
        RadioPlatformSong::parse_from_url("https://www.youtube.com/watch?t=42&v=dQw4w9WgXcQ")
            .unwrap();
    assert!(got == song("dQw4w9WgXcQ"));
}

#[test]
fn parse_from_url_rejects_garbage() {
    assert!(matches!(
        RadioPlatformSong::parse_from_url("not-a-url"),
        Err(SongRequestError::InvalidUrl)
    ));
}

#[test]
fn parse_from_url_rejects_unknown_domain() {
    assert!(matches!(
        RadioPlatformSong::parse_from_url("https://example.com/watch?v=abc"),
        Err(SongRequestError::UnsupportedPlatform)
    ));
}

#[test]
fn parse_from_url_requires_video_id() {
    assert!(matches!(
        RadioPlatformSong::parse_from_url("https://www.youtube.com/watch"),
        Err(SongRequestError::MissingVideoId)
    ));
}

#[test]
fn parse_from_url_rejects_invalid_id() {
    assert!(matches!(
        RadioPlatformSong::parse_from_url("https://www.youtube.com/watch?v=a%2Fb"),
        Err(SongRequestError::InvalidYouTubeId)
    ));
}

#[test]
fn error_messages() {
    assert_eq!(SongRequestError::InvalidUrl.message(), "Invalid URL");
    assert_eq!(SongRequestError::UnsupportedPlatform.message(), "Unsupported platform");
    assert_eq!(
        SongRequestError::MissingVideoId.message(),
        "Could not extract YouTube video ID from URL"
    );
    assert_eq!(SongRequestError::InvalidYouTubeId.message(), "Invalid YouTube ID");
}
