//! The radio subsystem: validated song identities with a URL/filename codec,
//! a playback queue with a bounded recently-played history, random selection
//! that avoids near-term repeats, and the chat-facing command surface.

use std::collections::VecDeque;
use vstd::prelude::*;

use crate::command::{CommandArgsResult, CommandParseView};
use crate::text::{
    find_char, first_index_of, first_word, has_prefix, is_prefix_of, lemma_first_index_of,
    lemma_first_index_of_absent, second_token, str_eq,
};

verus! {

// ---------------------------------------------------------------------------
// Song identity
// ---------------------------------------------------------------------------

/// The characters a platform id may contain: ASCII letters, digits, `-`
/// and `_`.
pub open spec fn valid_id_char(c: char) -> bool {
    ('a' as u32 <= c as u32 && c as u32 <= 'z' as u32)
        || ('A' as u32 <= c as u32 && c as u32 <= 'Z' as u32)
        || ('0' as u32 <= c as u32 && c as u32 <= '9' as u32)
        || c == '-'
        || c == '_'
}

pub open spec fn valid_id(s: Seq<char>) -> bool {
    forall|i: int| 0 <= i < s.len() ==> valid_id_char(s[i])
}

/// The mathematical value of a song identity: which platform it belongs to
/// and its id on that platform.
pub ghost enum RadioPlatformSongView {
    YouTube { id: Seq<char> },
}

impl RadioPlatformSongView {
    pub open spec fn id(self) -> Seq<char> {
        match self {
            RadioPlatformSongView::YouTube { id } => id,
        }
    }

    /// A well-formed identity carries only allowed characters.
    pub open spec fn wf(self) -> bool {
        valid_id(self.id())
    }
}

/// A platform-tagged reference to a requestable track. Construct identities
/// through [`RadioPlatformSong::new_youtube`], which enforces the allowed
/// character set.
pub enum RadioPlatformSong {
    YouTube { id: String },
}

impl View for RadioPlatformSong {
    type V = RadioPlatformSongView;

    open spec fn view(&self) -> RadioPlatformSongView {
        match self {
            RadioPlatformSong::YouTube { id } => RadioPlatformSongView::YouTube { id: id@ },
        }
    }
}

impl Clone for RadioPlatformSong {
    fn clone(&self) -> (r: Self)
        ensures
            r@ == self@,
    {
        match self {
            RadioPlatformSong::YouTube { id } => RadioPlatformSong::YouTube { id: id.clone() },
        }
    }
}

impl PartialEq for RadioPlatformSong {
    fn eq(&self, other: &Self) -> (r: bool)
        ensures
            r == (self@ == other@),
    {
        song_eq(self, other)
    }
}

impl vstd::std_specs::cmp::PartialEqSpecImpl for RadioPlatformSong {
    open spec fn obeys_eq_spec() -> bool {
        true
    }

    open spec fn eq_spec(&self, other: &Self) -> bool {
        self@ == other@
    }
}

/// Why a song request was rejected before it reached the queue.
#[derive(Clone, Copy, Debug, PartialEq, Eq, Structural)]
pub enum SongRequestError {
    InvalidUrl,
    UnsupportedPlatform,
    MissingVideoId,
    InvalidYouTubeId,
}

impl SongRequestError {
    /// The reply text reported back to the requester.
    pub open spec fn spec_message(self) -> Seq<char> {
        match self {
            SongRequestError::InvalidUrl => "Invalid URL"@,
            SongRequestError::UnsupportedPlatform => "Unsupported platform"@,
            SongRequestError::MissingVideoId => "Could not extract YouTube video ID from URL"@,
            SongRequestError::InvalidYouTubeId => "Invalid YouTube ID"@,
        }
    }

    pub fn message(&self) -> (r: String)
        ensures
            r@ == self.spec_message(),
    {
        match self {
            SongRequestError::InvalidUrl => String::from_str("Invalid URL"),
            SongRequestError::UnsupportedPlatform => String::from_str("Unsupported platform"),
            SongRequestError::MissingVideoId => {
                String::from_str("Could not extract YouTube video ID from URL")
            },
            SongRequestError::InvalidYouTubeId => String::from_str("Invalid YouTube ID"),
        }
    }
}

fn id_char_ok(c: char) -> (r: bool)
    ensures
        r == valid_id_char(c),
{
    let u = c as u32;
    ('a' as u32 <= u && u <= 'z' as u32) || ('A' as u32 <= u && u <= 'Z' as u32) || ('0' as u32
        <= u && u <= '9' as u32) || c == '-' || c == '_'
}

fn valid_id_str(s: &str) -> (r: bool)
    ensures
        r == valid_id(s@),
{
    let n = s.unicode_len();
    let mut i: usize = 0;
    while i < n
        invariant
            0 <= i <= n,
            n == s@.len(),
            forall|j: int| 0 <= j < i ==> valid_id_char(s@[j]),
        decreases n - i,
    {
        if !id_char_ok(s.get_char(i)) {
            return false;
        }
        i += 1;
    }
    true
}

// ---------------------------------------------------------------------------
// Filename codec
// ---------------------------------------------------------------------------

/// The deterministic local filename (without extension) of an identity.
pub open spec fn spec_to_filename(v: RadioPlatformSongView) -> Seq<char> {
    "youtube-"@ + v.id()
}

/// Recover an identity from a local filename: the platform tag before the
/// first `-`, then the id up to the first `.` (so an audio extension is
/// ignored).
pub open spec fn spec_from_filename(s: Seq<char>) -> Option<RadioPlatformSongView> {
    if s == "youtube"@ {
        Some(RadioPlatformSongView::YouTube { id: Seq::empty() })
    } else if is_prefix_of("youtube-"@, s) {
        let rest = s.skip("youtube-"@.len() as int);
        Some(
            RadioPlatformSongView::YouTube {
                id: rest.subrange(0, first_index_of(rest, '.')),
            },
        )
    } else {
        None
    }
}

impl RadioPlatformSong {
    /// Validated constructor: accepts exactly the ids drawn from the allowed
    /// character set, and rejects everything else.
    pub fn new_youtube(id: &str) -> (r: Result<RadioPlatformSong, SongRequestError>)
        ensures
            r is Ok <==> valid_id(id@),
            r matches Ok(song) ==> song@ == (RadioPlatformSongView::YouTube { id: id@ }),
            r matches Err(e) ==> e == SongRequestError::InvalidYouTubeId,
    {
        if valid_id_str(id) {
            Ok(RadioPlatformSong::YouTube { id: id.to_owned() })
        } else {
            Err(SongRequestError::InvalidYouTubeId)
        }
    }

    /// The deterministic filename the fetcher writes this identity to,
    /// without the audio extension.
    pub fn to_filename(&self) -> (r: String)
        ensures
            r@ == spec_to_filename(self@),
    {
        match self {
            RadioPlatformSong::YouTube { id } => {
                String::from_str("youtube-").concat(id.as_str())
            },
        }
    }

    /// Recover an identity from a local filename, if the filename carries a
    /// known platform tag.
    pub fn from_filename(filename: &str) -> (r: Option<RadioPlatformSong>)
        ensures
            match r {
                Some(song) => spec_from_filename(filename@) == Some(song@),
                None => spec_from_filename(filename@) is None,
            },
    {
        if str_eq(filename, "youtube") {
            return Some(RadioPlatformSong::YouTube { id: String::new() });
        }
        if !has_prefix(filename, "youtube-") {
            return None;
        }
        let n = filename.unicode_len();
        let plen = "youtube-".unicode_len();
        let rest = filename.substring_char(plen, n);
        proof {
            assert(rest@ =~= filename@.skip("youtube-"@.len() as int));
        }
        let d = find_char(rest, '.');
        proof {
            lemma_first_index_of(rest@, '.');
        }
        let id = rest.substring_char(0, d).to_owned();
        Some(RadioPlatformSong::YouTube { id })
    }
}

// ---------------------------------------------------------------------------
// URL codec
// ---------------------------------------------------------------------------

/// The pieces of a parsed URL that the request logic reads: the domain, the
/// decoded query pairs in order, and the path segments.
pub struct UrlParts {
    pub domain: Option<String>,
    pub query: Vec<(String, String)>,
    pub path_segments: Option<Vec<String>>,
}

pub ghost struct UrlPartsView {
    pub domain: Option<Seq<char>>,
    pub query: Seq<(Seq<char>, Seq<char>)>,
    pub path_segments: Option<Seq<Seq<char>>>,
}

impl View for UrlParts {
    type V = UrlPartsView;

    open spec fn view(&self) -> UrlPartsView {
        UrlPartsView {
            domain: self.domain.deep_view(),
            query: self.query.deep_view(),
            path_segments: self.path_segments.deep_view(),
        }
    }
}

/// What the URL parser of the `url` crate extracts from a string: a function
/// of the string alone.
pub uninterp spec fn url_parts_of(s: Seq<char>) -> Option<UrlPartsView>;

/// Relies on `url::Url::parse` and the accessors `domain`, `query_pairs` and
/// `path_segments` of the parsed URL: all are deterministic in the input
/// string, and `query_pairs` yields the decoded pairs in query order.
#[verifier::external_body]
fn parse_url(s: &str) -> (r: Option<UrlParts>)
    ensures
        r matches Some(p) ==> url_parts_of(s@) == Some(p@),
        r is None ==> url_parts_of(s@) is None,
{
    match url::Url::parse(s) {
        Ok(u) => Some(UrlParts {
            domain: u.domain().map(|d| d.to_string()),
            query: u.query_pairs().map(|(k, v)| (k.into_owned(), v.into_owned())).collect(),
            path_segments: u.path_segments().map(|it| it.map(|x| x.to_string()).collect()),
        }),
        Err(_) => None,
    }
}

/// The value of the first query pair whose key is `v`, if any.
pub open spec fn first_v_value(q: Seq<(Seq<char>, Seq<char>)>) -> Option<Seq<char>>
    decreases q.len(),
{
    if q.len() == 0 {
        None
    } else if q[0].0 == "v"@ {
        Some(q[0].1)
    } else {
        first_v_value(q.skip(1))
    }
}

proof fn lemma_first_v_value_is(q: Seq<(Seq<char>, Seq<char>)>, i: int)
    requires
        0 <= i <= q.len(),
        forall|j: int| 0 <= j < i ==> q[j].0 != "v"@,
        i < q.len() ==> q[i].0 == "v"@,
    ensures
        first_v_value(q) == if i == q.len() {
            None::<Seq<char>>
        } else {
            Some(q[i].1)
        },
    decreases q.len(),
{
    if q.len() == 0 {
    } else if q[0].0 == "v"@ {
        assert(i == 0);
    } else {
        assert(i >= 1);
        assert forall|j: int| 0 <= j < i - 1 implies q.skip(1)[j].0 != "v"@ by {
            assert(q.skip(1)[j] == q[j + 1]);
        }
        if i < q.len() {
            assert(q.skip(1)[i - 1] == q[i]);
        }
        lemma_first_v_value_is(q.skip(1), i - 1);
    }
}

/// The first path segment, if the URL has path segments at all.
pub open spec fn first_segment(p: Option<Seq<Seq<char>>>) -> Option<Seq<char>> {
    match p {
        None => None,
        Some(segs) => if segs.len() == 0 {
            None
        } else {
            Some(segs[0])
        },
    }
}

/// How a song request is read off the parsed pieces of its URL.
pub open spec fn spec_parse_from_parts(p: Option<UrlPartsView>) -> Result<
    RadioPlatformSongView,
    SongRequestError,
> {
    match p {
        None => Err(SongRequestError::InvalidUrl),
        Some(parts) => {
            if parts.domain == Some("www.youtube.com"@) {
                match first_v_value(parts.query) {
                    Some(val) => if valid_id(val) {
                        Ok(RadioPlatformSongView::YouTube { id: val })
                    } else {
                        Err(SongRequestError::InvalidYouTubeId)
                    },
                    None => Err(SongRequestError::MissingVideoId),
                }
            } else if parts.domain == Some("youtu.be"@) {
                match first_segment(parts.path_segments) {
                    Some(seg) => if valid_id(seg) {
                        Ok(RadioPlatformSongView::YouTube { id: seg })
                    } else {
                        Err(SongRequestError::InvalidYouTubeId)
                    },
                    None => Err(SongRequestError::MissingVideoId),
                }
            } else {
                Err(SongRequestError::UnsupportedPlatform)
            }
        },
    }
}

fn find_query_v(query: &Vec<(String, String)>) -> (r: Option<String>)
    ensures
        match r {
            Some(val) => first_v_value(query.deep_view()) == Some(val@),
            None => first_v_value(query.deep_view()) is None,
        },
{
    let ghost q = query.deep_view();
    let mut i: usize = 0;
    while i < query.len()
        invariant
            0 <= i <= query.len(),
            q == query.deep_view(),
            q.len() == query.len(),
            forall|j: int| 0 <= j < i ==> q[j].0 != "v"@,
        decreases query.len() - i,
    {
        if str_eq(query[i].0.as_str(), "v") {
            proof {
                assert(q[i as int] == (query@[i as int].0@, query@[i as int].1@));
                lemma_first_v_value_is(q, i as int);
            }
            return Some(query[i].1.clone());
        }
        proof {
            assert(q[i as int] == (query@[i as int].0@, query@[i as int].1@));
        }
        i += 1;
    }
    proof {
        lemma_first_v_value_is(q, q.len() as int);
    }
    None
}

fn first_path_segment(p: &Option<Vec<String>>) -> (r: Option<String>)
    ensures
        match r {
            Some(seg) => first_segment(p.deep_view()) == Some(seg@),
            None => first_segment(p.deep_view()) is None,
        },
{
    match p {
        None => None,
        Some(segs) => if segs.len() == 0 {
            None
        } else {
            Some(segs[0].clone())
        },
    }
}

/// Turn the parsed pieces of a URL into a song request, exactly as
/// [`spec_parse_from_parts`] describes.
pub fn song_request_from_parts(parts: &UrlParts) -> (r: Result<
    RadioPlatformSong,
    SongRequestError,
>)
    ensures
        match r {
            Ok(song) => spec_parse_from_parts(Some(parts@)) == Ok::<
                RadioPlatformSongView,
                SongRequestError,
            >(song@),
            Err(e) => spec_parse_from_parts(Some(parts@)) == Err::<
                RadioPlatformSongView,
                SongRequestError,
            >(e),
        },
{
    match &parts.domain {
        Some(d) => {
            if str_eq(d.as_str(), "www.youtube.com") {
                match find_query_v(&parts.query) {
                    Some(val) => RadioPlatformSong::new_youtube(val.as_str()),
                    None => Err(SongRequestError::MissingVideoId),
                }
            } else if str_eq(d.as_str(), "youtu.be") {
                match first_path_segment(&parts.path_segments) {
                    Some(seg) => RadioPlatformSong::new_youtube(seg.as_str()),
                    None => Err(SongRequestError::MissingVideoId),
                }
            } else {
                Err(SongRequestError::UnsupportedPlatform)
            }
        },
        None => Err(SongRequestError::UnsupportedPlatform),
    }
}

/// The canonical remote URL of an identity.
pub open spec fn spec_to_url(v: RadioPlatformSongView) -> Seq<char> {
    "https://www.youtube.com/watch?v="@ + v.id()
}

/// A string in the exact shape `to_url` produces for a valid identity.
pub open spec fn canonical_form(s: Seq<char>) -> bool {
    is_prefix_of("https://www.youtube.com/watch?v="@, s) && valid_id(
        s.skip("https://www.youtube.com/watch?v="@.len() as int),
    )
}

/// What `parse_from_url` returns: a string in canonical shape yields its
/// identity outright; anything else is read through the URL parser.
pub open spec fn spec_parse_from_url(s: Seq<char>) -> Result<
    RadioPlatformSongView,
    SongRequestError,
> {
    if canonical_form(s) {
        Ok(
            RadioPlatformSongView::YouTube {
                id: s.skip("https://www.youtube.com/watch?v="@.len() as int),
            },
        )
    } else {
        spec_parse_from_parts(url_parts_of(s))
    }
}

impl RadioPlatformSong {
    /// The canonical remote URL for this identity.
    pub fn to_url(&self) -> (r: String)
        ensures
            r@ == spec_to_url(self@),
    {
        match self {
            RadioPlatformSong::YouTube { id } => {
                String::from_str("https://www.youtube.com/watch?v=").concat(id.as_str())
            },
        }
    }

    /// Recognize a song request URL. A URL in the canonical shape produced
    /// by [`RadioPlatformSong::to_url`] is accepted directly; everything
    /// else goes through the URL parser and must carry a known domain with
    /// a valid id.
    pub fn parse_from_url(url_str: &str) -> (r: Result<RadioPlatformSong, SongRequestError>)
        ensures
            match r {
                Ok(song) => spec_parse_from_url(url_str@) == Ok::<
                    RadioPlatformSongView,
                    SongRequestError,
                >(song@),
                Err(e) => spec_parse_from_url(url_str@) == Err::<
                    RadioPlatformSongView,
                    SongRequestError,
                >(e),
            },
    {
        if has_prefix(url_str, "https://www.youtube.com/watch?v=") {
            let plen = "https://www.youtube.com/watch?v=".unicode_len();
            let n = url_str.unicode_len();
            let rest = url_str.substring_char(plen, n);
            proof {
                assert(rest@ =~= url_str@.skip("https://www.youtube.com/watch?v="@.len() as int));
            }
            if valid_id_str(rest) {
                return Ok(RadioPlatformSong::YouTube { id: rest.to_owned() });
            }
        }
        match parse_url(url_str) {
            None => Err(SongRequestError::InvalidUrl),
            Some(parts) => song_request_from_parts(&parts),
        }
    }
}

/// Identities survive the trip through their canonical URL: a valid identity
/// written with `to_url` is recovered exactly by `parse_from_url`.
pub proof fn lemma_url_round_trip(v: RadioPlatformSongView)
    requires
        v.wf(),
    ensures
        spec_parse_from_url(spec_to_url(v)) == Ok::<RadioPlatformSongView, SongRequestError>(v),
{
    let p = "https://www.youtube.com/watch?v="@;
    let s = spec_to_url(v);
    assert(s.subrange(0, p.len() as int) =~= p);
    assert(s.skip(p.len() as int) =~= v.id());
}

/// Identities survive the trip through their filename: a valid identity
/// written with `to_filename` is recovered exactly by `from_filename`.
pub proof fn lemma_filename_round_trip(v: RadioPlatformSongView)
    requires
        v.wf(),
    ensures
        spec_from_filename(spec_to_filename(v)) == Some(v),
{
    reveal_strlit("youtube");
    reveal_strlit("youtube-");
    let s = spec_to_filename(v);
    assert(s.len() >= 8 && "youtube"@.len() == 7);
    assert(s != "youtube"@);
    assert(s.subrange(0, "youtube-"@.len() as int) =~= "youtube-"@);
    let rest = s.skip("youtube-"@.len() as int);
    assert(rest =~= v.id());
    assert(!valid_id_char('.'));
    lemma_first_index_of_absent(rest, '.');
    assert(rest.subrange(0, rest.len() as int) =~= v.id());
}

// ---------------------------------------------------------------------------
// Radio configuration
// ---------------------------------------------------------------------------

pub fn config_default_playlist_blacklist_previous_songs_len() -> (r: usize)
    ensures
        r == 5,
{
    5
}

pub fn config_default_audio_format() -> (r: String)
    ensures
        r@ == "vorbis"@,
{
    String::from_str("vorbis")
}

pub fn config_default_audio_format_ext() -> (r: String)
    ensures
        r@ == "ogg"@,
{
    String::from_str("ogg")
}

/// The radio's immutable configuration, loaded once at startup.
pub struct RadioConfig {
    /// The remote playlist reference synced into the playlist directory.
    pub playlist: String,
    /// The directory that holds the synced playlist files.
    pub playlist_path: String,
    /// How many recently played songs are kept out of random selection.
    pub playlist_blacklist_previous_songs_len: usize,
    /// The directory that requested songs are fetched into.
    pub requested_path: String,
    /// The audio codec the fetcher extracts.
    pub audio_format: String,
    /// The file extension of the extracted audio.
    pub audio_format_ext: String,
}

impl Clone for RadioConfig {
    fn clone(&self) -> (r: Self)
        ensures
            r == *self,
    {
        RadioConfig {
            playlist: self.playlist.clone(),
            playlist_path: self.playlist_path.clone(),
            playlist_blacklist_previous_songs_len: self.playlist_blacklist_previous_songs_len,
            requested_path: self.requested_path.clone(),
            audio_format: self.audio_format.clone(),
            audio_format_ext: self.audio_format_ext.clone(),
        }
    }
}

// ---------------------------------------------------------------------------
// History and queue
// ---------------------------------------------------------------------------

/// The identities of a sequence of songs.
pub open spec fn song_views(s: Seq<RadioPlatformSong>) -> Seq<RadioPlatformSongView> {
    s.map_values(|x: RadioPlatformSong| x@)
}

/// Append a song to the history and evict the oldest entry once the history
/// would exceed its capacity.
pub open spec fn push_trim(
    h: Seq<RadioPlatformSongView>,
    cap: nat,
    v: RadioPlatformSongView,
) -> Seq<RadioPlatformSongView> {
    if h.len() + 1 <= cap {
        h.push(v)
    } else {
        h.push(v).skip(1)
    }
}

/// The history after playing a whole sequence of songs in order.
pub open spec fn play_all(
    h: Seq<RadioPlatformSongView>,
    cap: nat,
    songs: Seq<RadioPlatformSongView>,
) -> Seq<RadioPlatformSongView>
    decreases songs.len(),
{
    if songs.len() == 0 {
        h
    } else {
        play_all(push_trim(h, cap, songs[0]), cap, songs.skip(1))
    }
}

/// After any number of plays a bounded history never exceeds its capacity;
/// each play that overflows it evicts exactly the oldest entry.
pub proof fn lemma_history_bound(
    h: Seq<RadioPlatformSongView>,
    cap: nat,
    songs: Seq<RadioPlatformSongView>,
)
    requires
        h.len() <= cap,
    ensures
        play_all(h, cap, songs).len() <= cap,
    decreases songs.len(),
{
    if songs.len() > 0 {
        lemma_history_bound(push_trim(h, cap, songs[0]), cap, songs.skip(1));
    }
}

fn song_eq(a: &RadioPlatformSong, b: &RadioPlatformSong) -> (r: bool)
    ensures
        r == (a@ == b@),
{
    match (a, b) {
        (RadioPlatformSong::YouTube { id: ia }, RadioPlatformSong::YouTube { id: ib }) => {
            str_eq(ia.as_str(), ib.as_str())
        },
    }
}

/// Whether `song` is among the identities of `list`.
pub fn contains_song(list: &Vec<RadioPlatformSong>, song: &RadioPlatformSong) -> (r: bool)
    ensures
        r == song_views(list@).contains(song@),
{
    let mut i: usize = 0;
    while i < list.len()
        invariant
            0 <= i <= list@.len(),
            forall|j: int| 0 <= j < i ==> list@[j]@ != song@,
        decreases list@.len() - i,
    {
        if song_eq(&list[i], song) {
            assert(song_views(list@)[i as int] == song@);
            return true;
        }
        i += 1;
    }
    assert(forall|j: int|
        0 <= j < song_views(list@).len() ==> song_views(list@)[j] != song@);
    false
}

// ---------------------------------------------------------------------------
// Random selection
// ---------------------------------------------------------------------------

/// Relies on `rand::Rng::gen_range` over `0..n`: the draw is an index
/// strictly below `n`. Nothing more is promised of a random value.
#[verifier::external_body]
fn random_index(n: usize) -> (r: usize)
    requires
        n > 0,
    ensures
        r < n,
{
    rand::Rng::gen_range(&mut rand::thread_rng(), 0..n)
}

/// A local file is an eligible candidate for auto-advance when it carries
/// the configured audio extension, names a recoverable identity, and that
/// identity is not in the recently-played history.
pub open spec fn spec_eligible(
    history: Seq<RadioPlatformSongView>,
    ext: Seq<char>,
    f: Seq<char>,
) -> bool {
    has_extension(f, ext) && match spec_from_filename(f) {
        Some(v) => !history.contains(v),
        None => false,
    }
}

/// `f` ends in `.` followed by exactly `ext`, with the dot not the leading
/// character.
pub open spec fn has_extension(f: Seq<char>, ext: Seq<char>) -> bool {
    exists|p: int|
        0 < p < f.len() && f[p] == '.' && (forall|j: int| p < j < f.len() ==> f[j] != '.')
            && f.skip(p + 1) == ext
}

proof fn lemma_extension_at(f: Seq<char>, p: int, ext: Seq<char>)
    requires
        0 <= p < f.len(),
        f[p] == '.',
        forall|j: int| p < j < f.len() ==> f[j] != '.',
    ensures
        has_extension(f, ext) <==> (0 < p && f.skip(p + 1) == ext),
{
    if 0 < p && f.skip(p + 1) == ext {
        assert(0 < p < f.len() && f[p] == '.' && (forall|j: int|
            p < j < f.len() ==> f[j] != '.') && f.skip(p + 1) == ext);
        assert(has_extension(f, ext));
    }
    if has_extension(f, ext) {
        let q = choose|q: int|
            0 < q < f.len() && f[q] == '.' && (forall|j: int| q < j < f.len() ==> f[j] != '.')
                && f.skip(q + 1) == ext;
        if q < p {
            assert(f[p] != '.');
        } else if p < q {
            assert(f[q] != '.');
        }
        assert(q == p);
    }
}

proof fn lemma_no_extension(f: Seq<char>, ext: Seq<char>)
    requires
        forall|j: int| 0 <= j < f.len() ==> f[j] != '.',
    ensures
        !has_extension(f, ext),
{
    if has_extension(f, ext) {
        let q = choose|q: int|
            0 < q < f.len() && f[q] == '.' && (forall|j: int| q < j < f.len() ==> f[j] != '.')
                && f.skip(q + 1) == ext;
        assert(f[q] != '.');
    }
}

fn extension_matches(f: &str, ext: &str) -> (r: bool)
    ensures
        r == has_extension(f@, ext@),
{
    let n = f.unicode_len();
    let mut i: usize = n;
    while i > 0
        invariant
            0 <= i <= n,
            n == f@.len(),
            forall|j: int| i <= j < n ==> f@[j] != '.',
        decreases i,
    {
        if f.get_char(i - 1) == '.' {
            let p = i - 1;
            proof {
                lemma_extension_at(f@, p as int, ext@);
            }
            if p == 0 {
                return false;
            }
            let suffix = f.substring_char(p + 1, n);
            proof {
                assert(suffix@ =~= f@.skip(p as int + 1));
            }
            return str_eq(suffix, ext);
        }
        i -= 1;
    }
    proof {
        lemma_no_extension(f@, ext@);
    }
    false
}

// ---------------------------------------------------------------------------
// The engine
// ---------------------------------------------------------------------------

/// The radio engine's state: its configuration, the bounded recently-played
/// history (oldest first) and the playback queue (front is the currently
/// loaded song). The audio sink, the media-control channel and all file and
/// process work belong to the caller; the engine makes every decision about
/// them through the methods below.
pub struct Radio {
    pub config: RadioConfig,
    pub played: Vec<RadioPlatformSong>,
    pub queue: VecDeque<RadioPlatformSong>,
}

/// What the engine asks its caller to do to the audio sink.
#[derive(PartialEq, Eq, Structural)]
pub enum SinkAction {
    Resume,
    Pause,
    SkipOne,
    Ignore,
}

/// A media-control event delivered from the platform integration.
#[derive(PartialEq, Eq, Structural)]
pub enum MediaEvent {
    Toggle,
    Next,
    Previous,
    Other,
}

/// What the engine asks its caller to do after a chat command.
pub enum RadioAction {
    Nothing,
    SkipSink,
    Fetch(RadioPlatformSong),
}

pub ghost enum RadioActionView {
    Nothing,
    SkipSink,
    Fetch(RadioPlatformSongView),
}

impl View for RadioAction {
    type V = RadioActionView;

    open spec fn view(&self) -> RadioActionView {
        match self {
            RadioAction::Nothing => RadioActionView::Nothing,
            RadioAction::SkipSink => RadioActionView::SkipSink,
            RadioAction::Fetch(song) => RadioActionView::Fetch(song@),
        }
    }
}

/// A chat command addressed to the radio.
pub enum RadioArgs {
    DisplayCurrentSong,
    SkipCurrentSong,
    SongRequest(RadioPlatformSong),
}

pub ghost enum RadioArgsView {
    DisplayCurrentSong,
    SkipCurrentSong,
    SongRequest(RadioPlatformSongView),
}

impl View for RadioArgs {
    type V = RadioArgsView;

    open spec fn view(&self) -> RadioArgsView {
        match self {
            RadioArgs::DisplayCurrentSong => RadioArgsView::DisplayCurrentSong,
            RadioArgs::SkipCurrentSong => RadioArgsView::SkipCurrentSong,
            RadioArgs::SongRequest(song) => RadioArgsView::SongRequest(song@),
        }
    }
}

/// Why the engine refused to record a loaded song.
#[derive(Debug, PartialEq, Eq, Structural)]
pub enum RadioError {
    UnknownFilename,
}

/// The sink manipulation each media-control event calls for.
pub open spec fn spec_sink_action(event: Option<MediaEvent>, sink_paused: bool) -> SinkAction {
    match event {
        None => SinkAction::Ignore,
        Some(MediaEvent::Toggle) => if sink_paused {
            SinkAction::Resume
        } else {
            SinkAction::Pause
        },
        Some(MediaEvent::Next) => SinkAction::SkipOne,
        Some(MediaEvent::Previous) => SinkAction::Ignore,
        Some(MediaEvent::Other) => SinkAction::Ignore,
    }
}

/// How the radio reads a chat message.
pub open spec fn spec_radio_parse(s: Seq<char>) -> CommandParseView<RadioArgsView> {
    let w = first_word(s);
    if w == "!currentsong"@ || w == "!song"@ {
        CommandParseView::Execute(RadioArgsView::DisplayCurrentSong)
    } else if w == "!skipsong"@ || w == "!skip"@ {
        CommandParseView::Execute(RadioArgsView::SkipCurrentSong)
    } else if w == "!songrequest"@ || w == "!sr"@ {
        match second_token(s) {
            None => CommandParseView::BadArguments("Must include URL"@),
            Some(t) => match spec_parse_from_url(t) {
                Ok(v) => CommandParseView::Execute(RadioArgsView::SongRequest(v)),
                Err(e) => CommandParseView::BadArguments(e.spec_message()),
            },
        }
    } else {
        CommandParseView::WrongCommand
    }
}

/// What one `update` tick decides: a sink manipulation for the drained
/// media-control event, and, when the sink had emptied, the filename of the
/// next song to decode.
pub struct UpdateDecision {
    pub sink_action: SinkAction,
    pub next_song: Option<String>,
}

impl Radio {
    pub open spec fn history(&self) -> Seq<RadioPlatformSongView> {
        song_views(self.played@)
    }

    pub open spec fn queue_view(&self) -> Seq<RadioPlatformSongView> {
        self.queue@.map_values(|x: RadioPlatformSong| x@)
    }

    pub open spec fn capacity(&self) -> nat {
        self.config.playlist_blacklist_previous_songs_len as nat
    }

    /// The engine's invariant: the history never exceeds its capacity.
    pub open spec fn wf(&self) -> bool {
        self.history().len() <= self.capacity()
    }

    /// A fresh engine: idle, with an empty queue and an empty history. The
    /// caller performs the one-time sync of the remote playlist and owns the
    /// audio sink.
    pub fn initialize(config: RadioConfig) -> (r: Radio)
        ensures
            r.config == config,
            r.history() == Seq::<RadioPlatformSongView>::empty(),
            r.queue_view() == Seq::<RadioPlatformSongView>::empty(),
            r.wf(),
    {
        let r = Radio { config, played: Vec::new(), queue: VecDeque::new() };
        proof {
            assert(r.history() =~= Seq::<RadioPlatformSongView>::empty());
            assert(r.queue_view() =~= Seq::<RadioPlatformSongView>::empty());
        }
        r
    }

    /// The identity at the front of the queue: the currently loaded song.
    pub fn current_song(&self) -> (r: Option<RadioPlatformSong>)
        ensures
            match r {
                Some(song) => self.queue_view().len() > 0 && song@ == self.queue_view()[0],
                None => self.queue_view().len() == 0,
            },
    {
        if self.queue.len() > 0 {
            Some(self.queue[0].clone())
        } else {
            None
        }
    }

    pub fn queue_len(&self) -> (r: usize)
        ensures
            r == self.queue_view().len(),
    {
        self.queue.len()
    }

    pub fn history_len(&self) -> (r: usize)
        ensures
            r == self.history().len(),
    {
        self.played.len()
    }

    /// Record a song that the caller has just decoded into the sink: append
    /// its identity to the history (evicting the oldest entry beyond
    /// capacity) and to the queue tail. A filename that names no identity is
    /// refused and the engine is left untouched.
    pub fn load_next_song(&mut self, filename: &str) -> (r: Result<(), RadioError>)
        ensures
            old(self).wf() ==> final(self).wf(),
            final(self).config == old(self).config,
            match spec_from_filename(filename@) {
                Some(v) => r is Ok && final(self).history() == push_trim(
                    old(self).history(),
                    old(self).capacity(),
                    v,
                ) && final(self).queue_view() == old(self).queue_view().push(v),
                None => r == Err::<(), RadioError>(RadioError::UnknownFilename) && *final(self)
                    == *old(self),
            },
    {
        match RadioPlatformSong::from_filename(filename) {
            None => Err(RadioError::UnknownFilename),
            Some(song) => {
                let ghost v = song@;
                let ghost h0 = self.history();
                let ghost q0 = self.queue_view();
                self.played.push(song.clone());
                proof {
                    assert(self.history() =~= h0.push(v));
                }
                if self.played.len() > self.config.playlist_blacklist_previous_songs_len {
                    let ghost h1 = self.history();
                    self.played.remove(0);
                    proof {
                        assert(self.history() =~= h1.skip(1));
                    }
                }
                self.queue.push_back(song);
                proof {
                    assert(self.queue_view() =~= q0.push(v));
                }
                Ok(())
            },
        }
    }

    /// Choose uniformly at random among the candidates that are not in the
    /// recently-played history. Returns nothing exactly when every candidate
    /// is in the history.
    pub fn select_random_next(&self, candidates: &Vec<RadioPlatformSong>) -> (r: Option<
        RadioPlatformSong,
    >)
        ensures
            r matches Some(song) ==> song_views(candidates@).contains(song@) && !self.history()
                .contains(song@),
            r is None <==> (forall|i: int|
                0 <= i < candidates@.len() ==> self.history().contains(#[trigger] candidates@[i]@)),
    {
        let mut eligible: Vec<RadioPlatformSong> = Vec::new();
        let mut i: usize = 0;
        while i < candidates.len()
            invariant
                0 <= i <= candidates@.len(),
                forall|j: int|
                    0 <= j < eligible@.len() ==> song_views(candidates@).contains(
                        #[trigger] eligible@[j]@,
                    ) && !self.history().contains(eligible@[j]@),
                eligible@.len() == 0 ==> (forall|j: int|
                    0 <= j < i ==> self.history().contains(#[trigger] candidates@[j]@)),
            decreases candidates@.len() - i,
        {
            if !contains_song(&self.played, &candidates[i]) {
                proof {
                    assert(song_views(candidates@)[i as int] == candidates@[i as int]@);
                }
                eligible.push(candidates[i].clone());
            }
            i += 1;
        }
        if eligible.len() == 0 {
            return None;
        }
        let idx = random_index(eligible.len());
        let chosen = eligible[idx].clone();
        proof {
            assert(song_views(candidates@).contains(chosen@));
            let k = choose|k: int|
                0 <= k < song_views(candidates@).len() && song_views(candidates@)[k] == chosen@;
            assert(!self.history().contains(candidates@[k]@));
        }
        Some(chosen)
    }

    /// Pick the next song to decode for auto-advance: a uniformly random
    /// file among those in the playlist directory that carry the configured
    /// extension, name a recoverable identity, and are not in the
    /// recently-played history. Returns nothing exactly when no file
    /// qualifies.
    pub fn load_random_next_song(&self, filenames: &Vec<String>) -> (r: Option<String>)
        ensures
            r matches Some(f) ==> (exists|i: int|
                0 <= i < filenames@.len() && #[trigger] filenames@[i]@ == f@) && spec_eligible(
                self.history(),
                self.config.audio_format_ext@,
                f@,
            ),
            r is None <==> (forall|i: int|
                0 <= i < filenames@.len() ==> !spec_eligible(
                    self.history(),
                    self.config.audio_format_ext@,
                    #[trigger] filenames@[i]@,
                )),
    {
        let mut eligible: Vec<String> = Vec::new();
        let mut i: usize = 0;
        while i < filenames.len()
            invariant
                0 <= i <= filenames@.len(),
                forall|j: int|
                    0 <= j < eligible@.len() ==> (exists|k: int|
                        0 <= k < filenames@.len() && filenames@[k]@ == #[trigger] eligible@[j]@)
                        && spec_eligible(
                        self.history(),
                        self.config.audio_format_ext@,
                        eligible@[j]@,
                    ),
                eligible@.len() == 0 ==> (forall|j: int|
                    0 <= j < i ==> !spec_eligible(
                        self.history(),
                        self.config.audio_format_ext@,
                        #[trigger] filenames@[j]@,
                    )),
            decreases filenames@.len() - i,
        {
            if extension_matches(filenames[i].as_str(), self.config.audio_format_ext.as_str()) {
                match RadioPlatformSong::from_filename(filenames[i].as_str()) {
                    Some(song) => {
                        if !contains_song(&self.played, &song) {
                            eligible.push(filenames[i].clone());
                        }
                    },
                    None => {},
                }
            }
            i += 1;
        }
        if eligible.len() == 0 {
            return None;
        }
        let idx = random_index(eligible.len());
        let chosen = eligible[idx].clone();
        proof {
            let k = choose|k: int|
                0 <= k < filenames@.len() && filenames@[k]@ == eligible@[idx as int]@;
            assert(filenames@[k]@ == chosen@);
            assert(spec_eligible(
                self.history(),
                self.config.audio_format_ext@,
                filenames@[k]@,
            ));
        }
        Some(chosen)
    }

    /// Read a chat message addressed to the radio.
    pub fn parse_args(&self, message_text: &str) -> (r: CommandArgsResult<RadioArgs>)
        ensures
            r@ == spec_radio_parse(message_text@),
    {
        let n = message_text.unicode_len();
        proof {
            lemma_first_index_of(message_text@, ' ');
        }
        let sp = find_char(message_text, ' ');
        let word = message_text.substring_char(0, sp);
        if str_eq(word, "!currentsong") || str_eq(word, "!song") {
            return CommandArgsResult::Execute(RadioArgs::DisplayCurrentSong);
        }
        if str_eq(word, "!skipsong") || str_eq(word, "!skip") {
            return CommandArgsResult::Execute(RadioArgs::SkipCurrentSong);
        }
        if str_eq(word, "!songrequest") || str_eq(word, "!sr") {
            if sp == n {
                return CommandArgsResult::BadArguments(String::from_str("Must include URL"));
            }
            let rest = message_text.substring_char(sp + 1, n);
            proof {
                assert(rest@ =~= message_text@.skip(sp as int + 1));
                lemma_first_index_of(rest@, ' ');
            }
            let sp2 = find_char(rest, ' ');
            let token = rest.substring_char(0, sp2);
            return match RadioPlatformSong::parse_from_url(token) {
                Ok(song) => CommandArgsResult::Execute(RadioArgs::SongRequest(song)),
                Err(e) => CommandArgsResult::BadArguments(e.message()),
            };
        }
        CommandArgsResult::WrongCommand
    }

    /// Decide what a chat command does. Displaying the current song replies
    /// with the canonical URL of the queue front; a skip asks the caller to
    /// stop the sink (the next tick auto-advances); a request asks the
    /// caller to fetch the identity and then record it with
    /// [`Radio::load_next_song`]. No decision mutates the engine.
    pub fn execute(&self, args: RadioArgs) -> (r: (Option<String>, RadioAction))
        ensures
            args@ matches RadioArgsView::DisplayCurrentSong ==> r.1@ == RadioActionView::Nothing
                && (match r.0 {
                Some(u) => self.queue_view().len() > 0 && u@ == spec_to_url(self.queue_view()[0]),
                None => self.queue_view().len() == 0,
            }),
            args@ matches RadioArgsView::SkipCurrentSong ==> r.0 is None && r.1@
                == RadioActionView::SkipSink,
            args@ matches RadioArgsView::SongRequest(v) ==> r.0 is None && r.1@
                == RadioActionView::Fetch(v),
    {
        match args {
            RadioArgs::DisplayCurrentSong => {
                if self.queue.len() > 0 {
                    (Some(self.queue[0].to_url()), RadioAction::Nothing)
                } else {
                    (None, RadioAction::Nothing)
                }
            },
            RadioArgs::SkipCurrentSong => (None, RadioAction::SkipSink),
            RadioArgs::SongRequest(song) => (None, RadioAction::Fetch(song)),
        }
    }

    /// One engine tick: act on the drained media-control event, and, when
    /// the sink has emptied and an eligible file exists, discard the
    /// finished queue front (it entered the history when it was loaded) and
    /// hand the caller a fresh random song to decode. When nothing
    /// qualifies the tick mutates nothing and is retried on the next call.
    ///
    /// Policy: auto-advance always selects at random. Entries queued behind
    /// the finished track stay in the queue but are not chosen by the
    /// advance itself.
    pub fn update(
        &mut self,
        event: Option<MediaEvent>,
        sink_paused: bool,
        sink_empty: bool,
        filenames: &Vec<String>,
    ) -> (r: UpdateDecision)
        ensures
            old(self).wf() ==> final(self).wf(),
            final(self).config == old(self).config,
            final(self).history() == old(self).history(),
            r.sink_action == spec_sink_action(event, sink_paused),
            !sink_empty ==> *final(self) == *old(self) && r.next_song is None,
            sink_empty ==> match r.next_song {
                Some(f) => (exists|i: int|
                    0 <= i < filenames@.len() && #[trigger] filenames@[i]@ == f@) && spec_eligible(
                    old(self).history(),
                    old(self).config.audio_format_ext@,
                    f@,
                ) && final(self).queue_view() == if old(self).queue_view().len() > 0 {
                    old(self).queue_view().skip(1)
                } else {
                    old(self).queue_view()
                },
                None => (forall|i: int|
                    0 <= i < filenames@.len() ==> !spec_eligible(
                        old(self).history(),
                        old(self).config.audio_format_ext@,
                        #[trigger] filenames@[i]@,
                    )) && *final(self) == *old(self),
            },
    {
        let sink_action = match event {
            None => SinkAction::Ignore,
            Some(MediaEvent::Toggle) => if sink_paused {
                SinkAction::Resume
            } else {
                SinkAction::Pause
            },
            Some(MediaEvent::Next) => SinkAction::SkipOne,
            Some(MediaEvent::Previous) => SinkAction::Ignore,
            Some(MediaEvent::Other) => SinkAction::Ignore,
        };
        if sink_empty {
            let next_song = self.load_random_next_song(filenames);
            match next_song {
                Some(filename) => {
                    let ghost q0 = self.queue_view();
                    let _ = self.queue.pop_front();
                    proof {
                        if q0.len() > 0 {
                            assert(self.queue_view() =~= q0.skip(1));
                        }
                    }
                    UpdateDecision { sink_action, next_song: Some(filename) }
                },
                None => UpdateDecision { sink_action, next_song: None },
            }
        } else {
            UpdateDecision { sink_action, next_song: None }
        }
    }
}

} // verus!
