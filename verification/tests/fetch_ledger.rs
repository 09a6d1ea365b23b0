//! The fetch ledger: planning a fetch, ledger hits, and the archive codec.

use twitch_bot::commands::fetcher::{ledger_line, FetchStep, Fetcher};
use twitch_bot::commands::radio::RadioPlatformSong;

fn song(id: &str) -> RadioPlatformSong {
    RadioPlatformSong::new_youtube(id).unwrap()
}

#[test]
fn ensure_local_plans_a_download_once() {
    let mut fetcher = Fetcher::new();
    let s = song("abc");
    match fetcher.ensure_local(&s, "requested", "ogg") {
        FetchStep::Download(url, path) => {
            assert_eq!(url, "https://www.youtube.com/watch?v=abc");
            assert_eq!(path, "requested/youtube-abc.ogg");
        },
        FetchStep::AlreadyLocal(_) => panic!("fresh ledger cannot have the song"),
    }
    fetcher.record_fetched(s.clone());
    // The second call for the same identity and directory is a ledger hit:
    // no second download is asked for.
    match fetcher.ensure_local(&s, "requested", "ogg") {
        FetchStep::AlreadyLocal(path) => assert_eq!(path, "requested/youtube-abc.ogg"),
        FetchStep::Download(_, _) => panic!("recorded song downloaded again"),
    }
}

#[test]
fn ledger_survives_its_file_form() {
    let s = song("abc123XYZ_-");
    let line = ledger_line(&s);
    assert_eq!(line, "youtube abc123XYZ_-");
    let fetcher = Fetcher::from_ledger(&vec![line]);
    assert!(matches!(
        fetcher.ensure_local(&s, "playlist", "ogg"),
        FetchStep::AlreadyLocal(_)
    ));
}

#[test]
fn from_ledger_passes_over_foreign_lines() {
    let lines = vec![
        String::from("youtube abc"),
        String::from("# comment"),
        String::from("soundcloud xyz"),
        String::from("youtube xyz"),
    ];
    let fetcher = Fetcher::from_ledger(&lines);
    assert!(matches!(
        fetcher.ensure_local(&song("abc"), "d", "ogg"),
        FetchStep::AlreadyLocal(_)
    ));
    assert!(matches!(
        fetcher.ensure_local(&song("xyz"), "d", "ogg"),
        FetchStep::AlreadyLocal(_)
    ));
    assert!(matches!(
        fetcher.ensure_local(&song("other"), "d", "ogg"),
        FetchStep::Download(_, _)
    ));
}
