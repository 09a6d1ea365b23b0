//! The fetch ledger: which identities have already been downloaded into a
//! directory, read from the downloader's archive file. `ensure_local` plans
//! a fetch — a ledger hit needs no download at all — and `record_fetched`
//! appends an identity after a successful download, which makes a repeated
//! fetch of the same identity a ledger hit.

use vstd::prelude::*;

use crate::commands::radio::{
    contains_song, song_views, spec_to_filename, spec_to_url, RadioPlatformSong,
    RadioPlatformSongView,
};
use crate::text::{has_prefix, is_prefix_of};

verus! {

/// The archive line recorded for a fetched identity.
pub open spec fn spec_ledger_line(v: RadioPlatformSongView) -> Seq<char> {
    "youtube "@ + v.id()
}

/// Read one archive line back into an identity: the platform tag, a space,
/// then the id.
pub open spec fn spec_parse_ledger_line(s: Seq<char>) -> Option<RadioPlatformSongView> {
    if is_prefix_of("youtube "@, s) {
        Some(RadioPlatformSongView::YouTube { id: s.skip("youtube "@.len() as int) })
    } else {
        None
    }
}

/// The identities named by a whole archive, in file order; lines that name
/// no identity are passed over.
pub open spec fn spec_parse_ledger(lines: Seq<Seq<char>>) -> Seq<RadioPlatformSongView>
    decreases lines.len(),
{
    if lines.len() == 0 {
        Seq::empty()
    } else {
        spec_parse_ledger(lines.drop_last()) + (match spec_parse_ledger_line(lines.last()) {
            Some(v) => seq![v],
            None => Seq::<RadioPlatformSongView>::empty(),
        })
    }
}

/// The local path an identity is fetched to inside `dir`.
pub open spec fn spec_local_path(dir: Seq<char>, v: RadioPlatformSongView, ext: Seq<char>) -> Seq<
    char,
> {
    dir + "/"@ + spec_to_filename(v) + "."@ + ext
}

/// What `ensure_local` asks of its caller: nothing, because the identity is
/// already local at the given path, or a download of the given URL expected
/// to land at the given path.
pub enum FetchStep {
    AlreadyLocal(String),
    Download(String, String),
}

pub ghost enum FetchStepView {
    AlreadyLocal(Seq<char>),
    Download(Seq<char>, Seq<char>),
}

impl View for FetchStep {
    type V = FetchStepView;

    open spec fn view(&self) -> FetchStepView {
        match self {
            FetchStep::AlreadyLocal(path) => FetchStepView::AlreadyLocal(path@),
            FetchStep::Download(url, path) => FetchStepView::Download(url@, path@),
        }
    }
}

/// What `ensure_local` decides for a ledger: a hit is already local at its
/// deterministic path; a miss must be downloaded from its canonical URL.
pub open spec fn spec_ensure_local(
    ledger: Seq<RadioPlatformSongView>,
    v: RadioPlatformSongView,
    dir: Seq<char>,
    ext: Seq<char>,
) -> FetchStepView {
    if ledger.contains(v) {
        FetchStepView::AlreadyLocal(spec_local_path(dir, v, ext))
    } else {
        FetchStepView::Download(spec_to_url(v), spec_local_path(dir, v, ext))
    }
}

/// Fetching is idempotent: once a download of an identity has been recorded,
/// `ensure_local` for that identity and directory is a ledger hit, so the
/// external download runs at most once.
pub proof fn lemma_fetch_idempotent(
    ledger: Seq<RadioPlatformSongView>,
    v: RadioPlatformSongView,
    dir: Seq<char>,
    ext: Seq<char>,
)
    ensures
        spec_ensure_local(ledger.push(v), v, dir, ext) == FetchStepView::AlreadyLocal(
            spec_local_path(dir, v, ext),
        ),
{
    assert(ledger.push(v)[ledger.len() as int] == v);
}

/// The in-memory image of one directory's download ledger.
pub struct Fetcher {
    pub fetched: Vec<RadioPlatformSong>,
}

fn parse_ledger_line(line: &str) -> (r: Option<RadioPlatformSong>)
    ensures
        match r {
            Some(song) => spec_parse_ledger_line(line@) == Some(song@),
            None => spec_parse_ledger_line(line@) is None,
        },
{
    if has_prefix(line, "youtube ") {
        let n = line.unicode_len();
        let plen = "youtube ".unicode_len();
        let id = line.substring_char(plen, n).to_owned();
        proof {
            assert(id@ =~= line@.skip("youtube "@.len() as int));
        }
        Some(RadioPlatformSong::YouTube { id })
    } else {
        None
    }
}

impl Fetcher {
    /// The identities this ledger holds, oldest first.
    pub open spec fn ledger(&self) -> Seq<RadioPlatformSongView> {
        song_views(self.fetched@)
    }

    /// A ledger that has recorded nothing.
    pub fn new() -> (r: Fetcher)
        ensures
            r.ledger() == Seq::<RadioPlatformSongView>::empty(),
    {
        let r = Fetcher { fetched: Vec::new() };
        proof {
            assert(r.ledger() =~= Seq::<RadioPlatformSongView>::empty());
        }
        r
    }

    /// Read a ledger back from the lines of its archive file.
    pub fn from_ledger(lines: &Vec<String>) -> (r: Fetcher)
        ensures
            r.ledger() == spec_parse_ledger(lines.deep_view()),
    {
        let ghost all = lines.deep_view();
        let mut fetched: Vec<RadioPlatformSong> = Vec::new();
        let mut i: usize = 0;
        while i < lines.len()
            invariant
                0 <= i <= lines@.len(),
                all == lines.deep_view(),
                all.len() == lines@.len(),
                song_views(fetched@) == spec_parse_ledger(all.take(i as int)),
            decreases lines@.len() - i,
        {
            let ghost before = song_views(fetched@);
            match parse_ledger_line(lines[i].as_str()) {
                Some(song) => {
                    fetched.push(song);
                    proof {
                        assert(song_views(fetched@) =~= before.push(
                            spec_parse_ledger_line(all[i as int]).unwrap(),
                        ));
                    }
                },
                None => {},
            }
            proof {
                assert(all.take(i as int + 1).drop_last() =~= all.take(i as int));
                assert(all.take(i as int + 1).last() == all[i as int]);
                assert(song_views(fetched@) =~= spec_parse_ledger(all.take(i as int + 1)));
            }
            i += 1;
        }
        proof {
            assert(all.take(all.len() as int) =~= all);
        }
        let r = Fetcher { fetched };
        r
    }

    /// Plan the fetch of `song` into `target_dir`: a ledger hit is already
    /// local at its deterministic path, and anything else must be downloaded
    /// from its canonical URL to that path.
    pub fn ensure_local(&self, song: &RadioPlatformSong, target_dir: &str, ext: &str) -> (r:
        FetchStep)
        ensures
            r@ == spec_ensure_local(self.ledger(), song@, target_dir@, ext@),
    {
        let mut path = target_dir.to_owned();
        path.append("/");
        let fname = song.to_filename();
        path.append(fname.as_str());
        path.append(".");
        path.append(ext);
        if contains_song(&self.fetched, song) {
            FetchStep::AlreadyLocal(path)
        } else {
            FetchStep::Download(song.to_url(), path)
        }
    }

    /// Record a successful download. After this, `ensure_local` for the same
    /// identity is a ledger hit: the download happens at most once.
    pub fn record_fetched(&mut self, song: RadioPlatformSong)
        ensures
            final(self).ledger() == old(self).ledger().push(song@),
            final(self).ledger().contains(song@),
    {
        let ghost before = self.ledger();
        let ghost v = song@;
        self.fetched.push(song);
        proof {
            assert(self.ledger() =~= before.push(v));
            assert(self.ledger()[before.len() as int] == v);
        }
    }
}

/// The archive line written for an identity.
pub fn ledger_line(song: &RadioPlatformSong) -> (r: String)
    ensures
        r@ == spec_ledger_line(song@),
{
    let fname = match song {
        RadioPlatformSong::YouTube { id } => String::from_str("youtube ").concat(id.as_str()),
    };
    fname
}

/// Ledger lines read back as the identity they were written for.
pub proof fn lemma_ledger_line_round_trip(v: RadioPlatformSongView)
    ensures
        spec_parse_ledger_line(spec_ledger_line(v)) == Some(v),
{
    let p = "youtube "@;
    let s = spec_ledger_line(v);
    assert(s.subrange(0, p.len() as int) =~= p);
    assert(s.skip(p.len() as int) =~= v.id());
}

} // verus!
