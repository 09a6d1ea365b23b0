//! The radio engine: the bounded history, random selection, the command
//! surface and the auto-advance tick.

use twitch_bot::command::CommandArgsResult;
use twitch_bot::commands::radio::{
    config_default_audio_format, config_default_audio_format_ext,
    config_default_playlist_blacklist_previous_songs_len, MediaEvent, Radio, RadioAction,
    RadioArgs, RadioConfig, RadioPlatformSong, SinkAction,
};

fn config(capacity: usize) -> RadioConfig {
    RadioConfig {
        playlist: String::from("https://www.youtube.com/playlist?list=PL0"),
        playlist_path: String::from("playlist"),
        playlist_blacklist_previous_songs_len: capacity,
        requested_path: String::from("requested"),
        audio_format: config_default_audio_format(),
        audio_format_ext: config_default_audio_format_ext(),
    }
}

fn song(id: &str) -> RadioPlatformSong {
    RadioPlatformSong::new_youtube(id).unwrap()
}

#[test]
fn defaults() {
    assert_eq!(config_default_playlist_blacklist_previous_songs_len(), 5);
    assert_eq!(config_default_audio_format(), "vorbis");
    assert_eq!(config_default_audio_format_ext(), "ogg");
}

#[test]
fn initialize_is_idle() {
    let radio = Radio::initialize(config(5));
    assert_eq!(radio.queue_len(), 0);
    assert_eq!(radio.history_len(), 0);
    assert!(radio.current_song().is_none());
}

#[test]
fn load_next_song_fills_queue_and_history() {
    let mut radio = Radio::initialize(config(5));
    radio.load_next_song("youtube-a.ogg").unwrap();
    radio.load_next_song("youtube-b.ogg").unwrap();
    assert_eq!(radio.queue_len(), 2);
    assert_eq!(radio.history_len(), 2);
    assert!(radio.current_song().unwrap() == song("a"));
}

#[test]
fn load_next_song_rejects_unknown_filename() {
    let mut radio = Radio::initialize(config(5));
    assert!(radio.load_next_song("mystery.ogg").is_err());
    assert_eq!(radio.queue_len(), 0);
    assert_eq!(radio.history_len(), 0);
}

#[test]
fn history_is_bounded_and_evicts_oldest_first() {
    let mut radio = Radio::initialize(config(2));
    radio.load_next_song("youtube-a.ogg").unwrap();
    radio.load_next_song("youtube-b.ogg").unwrap();
    assert_eq!(radio.history_len(), 2);
    radio.load_next_song("youtube-c.ogg").unwrap();
    assert_eq!(radio.history_len(), 2);
    assert!(radio.played[0] == song("b"));
    assert!(radio.played[1] == song("c"));
    radio.load_next_song("youtube-d.ogg").unwrap();
    assert_eq!(radio.history_len(), 2);
    assert!(radio.played[0] == song("c"));
    assert!(radio.played[1] == song("d"));
}

#[test]
fn select_random_next_excludes_history() {
    let mut radio = Radio::initialize(config(5));
    radio.load_next_song("youtube-a.ogg").unwrap();
    let candidates = vec![song("a"), song("b")];
    for _ in 0..20 {
        let chosen = radio.select_random_next(&candidates).unwrap();
        assert!(chosen == song("b"));
    }
}

#[test]
fn select_random_next_empty_after_filtering() {
    let mut radio = Radio::initialize(config(5));
    radio.load_next_song("youtube-a.ogg").unwrap();
    radio.load_next_song("youtube-b.ogg").unwrap();
    let candidates = vec![song("a"), song("b")];
    assert!(radio.select_random_next(&candidates).is_none());
}

#[test]
fn load_random_next_song_filters_extension_history_and_tag() {
    let mut radio = Radio::initialize(config(5));
    radio.load_next_song("youtube-a.ogg").unwrap();
    let files = vec![
        String::from("youtube-a.ogg"),
        String::from("youtube-b.mp3"),
        String::from("junk.ogg"),
        String::from("youtube-c.ogg"),
    ];
    for _ in 0..20 {
        assert_eq!(radio.load_random_next_song(&files).unwrap(), "youtube-c.ogg");
    }
}

#[test]
fn parse_args_commands() {
    let radio = Radio::initialize(config(5));
    assert!(matches!(
        radio.parse_args("!currentsong"),
        CommandArgsResult::Execute(RadioArgs::DisplayCurrentSong)
    ));
    assert!(matches!(
        radio.parse_args("!song"),
        CommandArgsResult::Execute(RadioArgs::DisplayCurrentSong)
    ));
    assert!(matches!(
        radio.parse_args("!skipsong"),
        CommandArgsResult::Execute(RadioArgs::SkipCurrentSong)
    ));
    assert!(matches!(
        radio.parse_args("!skip"),
        CommandArgsResult::Execute(RadioArgs::SkipCurrentSong)
    ));
    assert!(matches!(radio.parse_args("!dance"), CommandArgsResult::WrongCommand));
    assert!(matches!(radio.parse_args("hello"), CommandArgsResult::WrongCommand));
}

#[test]
fn parse_args_song_request() {
    let radio = Radio::initialize(config(5));
    match radio.parse_args("!sr https://www.youtube.com/watch?v=abc123XYZ_-") {
        CommandArgsResult::Execute(RadioArgs::SongRequest(s)) => {
            assert!(s == song("abc123XYZ_-"));
        },
        _ => panic!("request not recognized"),
    }
    match radio.parse_args("!songrequest https://youtu.be/abc123XYZ_-") {
        CommandArgsResult::Execute(RadioArgs::SongRequest(s)) => {
            assert!(s == song("abc123XYZ_-"));
        },
        _ => panic!("request not recognized"),
    }
}

#[test]
fn parse_args_song_request_errors() {
    let radio = Radio::initialize(config(5));
    match radio.parse_args("!sr") {
        CommandArgsResult::BadArguments(m) => assert_eq!(m, "Must include URL"),
        _ => panic!("missing URL not reported"),
    }
    match radio.parse_args("!sr not-a-url") {
        CommandArgsResult::BadArguments(m) => assert_eq!(m, "Invalid URL"),
        _ => panic!("bad URL not reported"),
    }
    match radio.parse_args("!sr https://example.com/watch?v=abc") {
        CommandArgsResult::BadArguments(m) => assert_eq!(m, "Unsupported platform"),
        _ => panic!("unknown platform not reported"),
    }
}

#[test]
fn execute_display_and_skip() {
    let mut radio = Radio::initialize(config(5));
    let (reply, action) = radio.execute(RadioArgs::DisplayCurrentSong);
    assert!(reply.is_none());
    assert!(matches!(action, RadioAction::Nothing));

    radio.load_next_song("youtube-abc.ogg").unwrap();
    let (reply, action) = radio.execute(RadioArgs::DisplayCurrentSong);
    assert_eq!(reply.unwrap(), "https://www.youtube.com/watch?v=abc");
    assert!(matches!(action, RadioAction::Nothing));

    let (reply, action) = radio.execute(RadioArgs::SkipCurrentSong);
    assert!(reply.is_none());
    assert!(matches!(action, RadioAction::SkipSink));

    let (reply, action) = radio.execute(RadioArgs::SongRequest(song("xyz")));
    assert!(reply.is_none());
    match action {
        RadioAction::Fetch(s) => assert!(s == song("xyz")),
        _ => panic!("request did not ask for a fetch"),
    }
}

#[test]
fn update_media_events() {
    let mut radio = Radio::initialize(config(5));
    let none: Vec<String> = Vec::new();
    let d = radio.update(Some(MediaEvent::Toggle), false, false, &none);
    assert!(matches!(d.sink_action, SinkAction::Pause));
    let d = radio.update(Some(MediaEvent::Toggle), true, false, &none);
    assert!(matches!(d.sink_action, SinkAction::Resume));
    let d = radio.update(Some(MediaEvent::Next), false, false, &none);
    assert!(matches!(d.sink_action, SinkAction::SkipOne));
    let d = radio.update(Some(MediaEvent::Previous), false, false, &none);
    assert!(matches!(d.sink_action, SinkAction::Ignore));
    let d = radio.update(None, false, false, &none);
    assert!(matches!(d.sink_action, SinkAction::Ignore));
    assert!(d.next_song.is_none());
}

#[test]
fn update_skip_then_auto_advance() {
    let mut radio = Radio::initialize(config(5));
    radio.load_next_song("youtube-a.ogg").unwrap();
    radio.load_next_song("youtube-b.ogg").unwrap();
    // A skip stops the sink; the next tick sees it empty, discards the
    // finished front entry and picks a fresh eligible file.
    let (_, action) = radio.execute(RadioArgs::SkipCurrentSong);
    assert!(matches!(action, RadioAction::SkipSink));
    let files = vec![String::from("youtube-a.ogg"), String::from("youtube-c.ogg")];
    let d = radio.update(None, false, true, &files);
    assert_eq!(radio.queue_len(), 1);
    assert!(radio.current_song().unwrap() == song("b"));
    assert_eq!(d.next_song.unwrap(), "youtube-c.ogg");
    radio.load_next_song("youtube-c.ogg").unwrap();
    assert_eq!(radio.queue_len(), 2);
}

#[test]
fn update_with_no_eligible_candidate_is_a_no_op() {
    let mut radio = Radio::initialize(config(5));
    radio.load_next_song("youtube-a.ogg").unwrap();
    let files = vec![String::from("youtube-a.ogg")];
    let d = radio.update(None, false, true, &files);
    assert!(d.next_song.is_none());
    // No mutation at all: the queue and the history are left as they were.
    assert_eq!(radio.queue_len(), 1);
    assert!(radio.current_song().unwrap() == song("a"));
    assert_eq!(radio.history_len(), 1);
    // The tick is retried without error.
    let d = radio.update(None, false, true, &files);
    assert!(d.next_song.is_none());
    assert_eq!(radio.queue_len(), 1);
}
