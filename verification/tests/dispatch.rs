//! The command registry: fanning one chat message out to every handler.

use twitch_bot::command::CommandArgsResult;
use twitch_bot::commands::neovim;
use twitch_bot::commands::radio::{
    RadioAction, RadioConfig, RadioPlatformSong,
};
use twitch_bot::commands::simple_reply::{SimpleReplyCommand, SimpleReplyCommandHandler};
use twitch_bot::commands::CommandRegistry;
use twitch_bot::config::{Config, ConfigData};
use twitch_bot::commands::neovim::NeovimArgs;

fn song(id: &str) -> RadioPlatformSong {
    RadioPlatformSong::new_youtube(id).unwrap()
}

fn registry(commands: Vec<(String, SimpleReplyCommand)>) -> CommandRegistry {
    let config = Config {
        bot_user_id: String::from("12345"),
        data_file: String::from("data.yaml"),
        data: Some(ConfigData {
            simple_reply_commands: SimpleReplyCommandHandler { commands },
        }),
        radio: RadioConfig {
            playlist: String::from("https://www.youtube.com/playlist?list=PL0"),
            playlist_path: String::from("playlist"),
            playlist_blacklist_previous_songs_len: 5,
            requested_path: String::from("requested"),
            audio_format: String::from("vorbis"),
            audio_format_ext: String::from("ogg"),
        },
    };
    CommandRegistry::initialize(&config)
}

fn greeter() -> Vec<(String, SimpleReplyCommand)> {
    vec![(
        String::from("greet"),
        SimpleReplyCommand {
            names: vec![String::from("hello"), String::from("hi")],
            responds: String::from("Hey there!"),
        },
    )]
}

#[test]
fn song_request_while_idle() {
    let mut registry = registry(Vec::new());
    let outcome =
        registry.try_execute("!sr https://www.youtube.com/watch?v=abc123XYZ_-");
    // A successful request sends no reply; it asks for a fetch.
    assert!(outcome.replies.is_empty());
    assert!(outcome.neovim_message.is_none());
    let requested = match outcome.radio_action {
        RadioAction::Fetch(s) => s,
        _ => panic!("request did not ask for a fetch"),
    };
    assert!(requested == song("abc123XYZ_-"));
    // The caller fetches, then records the download; the queue holds the
    // requested identity and playback can start.
    let filename = format!("{}.ogg", requested.to_filename());
    registry.radio.load_next_song(&filename).unwrap();
    assert_eq!(registry.radio.queue_len(), 1);
    assert!(registry.radio.current_song().unwrap() == song("abc123XYZ_-"));
}

#[test]
fn malformed_request_replies_and_mutates_nothing() {
    let registry = registry(Vec::new());
    let outcome = registry.try_execute("!sr not-a-url");
    assert_eq!(outcome.replies.len(), 1);
    assert_eq!(outcome.replies[0], "Invalid URL");
    assert!(matches!(outcome.radio_action, RadioAction::Nothing));
    assert_eq!(registry.radio.queue_len(), 0);
    assert_eq!(registry.radio.history_len(), 0);
}

#[test]
fn current_song_reply() {
    let mut registry = registry(Vec::new());
    registry.radio.load_next_song("youtube-abc.ogg").unwrap();
    let outcome = registry.try_execute("!currentsong");
    assert_eq!(outcome.replies, vec![String::from("https://www.youtube.com/watch?v=abc")]);
}

#[test]
fn current_song_is_silent_when_idle() {
    let registry = registry(Vec::new());
    let outcome = registry.try_execute("!song");
    assert!(outcome.replies.is_empty());
}

#[test]
fn skip_asks_for_the_sink_to_stop() {
    let registry = registry(Vec::new());
    let outcome = registry.try_execute("!skip");
    assert!(matches!(outcome.radio_action, RadioAction::SkipSink));
    assert!(outcome.replies.is_empty());
}

#[test]
fn simple_reply_matches_case_insensitively() {
    let registry = registry(greeter());
    let outcome = registry.try_execute("!HELLO everyone");
    assert_eq!(outcome.replies, vec![String::from("Hey there!")]);
    let outcome = registry.try_execute("!hi");
    assert_eq!(outcome.replies, vec![String::from("Hey there!")]);
    let outcome = registry.try_execute("!goodbye");
    assert!(outcome.replies.is_empty());
}

#[test]
fn theme_command_produces_wire_message() {
    let registry = registry(Vec::new());
    let outcome = registry.try_execute("!theme gruvbox");
    assert_eq!(outcome.neovim_message.unwrap(), "set_theme gruvbox");
    assert!(outcome.replies.is_empty());

    let outcome = registry.try_execute("!theme");
    assert!(outcome.neovim_message.is_none());
    assert_eq!(outcome.replies, vec![String::from("Usage: !theme [theme]")]);
}

#[test]
fn neovim_parse_args_variants() {
    match neovim::parse_args("!colorscheme nord extra") {
        CommandArgsResult::Execute(NeovimArgs::SetTheme(t)) => assert_eq!(t, "nord"),
        _ => panic!("theme command not recognized"),
    }
    assert!(matches!(neovim::parse_args("!volume 3"), CommandArgsResult::WrongCommand));
}

#[test]
fn replies_keep_handler_order() {
    // A simple command named like the radio's request command: the radio's
    // bad-arguments reply comes first, the fixed reply second.
    let mut commands = greeter();
    commands.push((
        String::from("srhelp"),
        SimpleReplyCommand {
            names: vec![String::from("sr")],
            responds: String::from("usage: !sr <url>"),
        },
    ));
    let registry = registry(commands);
    let outcome = registry.try_execute("!sr");
    assert_eq!(
        outcome.replies,
        vec![String::from("Must include URL"), String::from("usage: !sr <url>")]
    );
}

#[test]
fn config_data_round_trip() {
    let registry = registry(greeter());
    let outcome = registry.try_execute("!hello");
    assert_eq!(outcome.replies, vec![String::from("Hey there!")]);
}
