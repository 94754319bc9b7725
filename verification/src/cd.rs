use vstd::prelude::*;
use crate::debug_text::{debug_str, push_debug_str};

verus! {

#[verifier::external_type_specification]
#[verifier::external_body]
pub struct ExLyrics(lrc::Lyrics);

#[verifier::external_type_specification]
#[verifier::external_body]
pub struct ExLyricsError(lrc::LyricsError);

/// Whether `lrc::Lyrics::from_str` accepts a text as LRC lyrics.
pub uninterp spec fn lrc_accepts(text: Seq<char>) -> bool;

/// The lyrics that `lrc::Lyrics::from_str` makes of a text it accepts.
pub uninterp spec fn lrc_parsed(text: Seq<char>) -> lrc::Lyrics;

/// What `str::to_lowercase` makes of a text.
pub uninterp spec fn lowercase(text: Seq<char>) -> Seq<char>;

/// Parses LRC lyrics with `lrc::Lyrics::from_str`. Claimed of that function: whether it
/// returns `Ok`, and the lyrics it returns, depend on the text alone (named `lrc_accepts`
/// and `lrc_parsed`). What the parsed lyrics hold is not spelled out.
#[verifier::external_body]
fn parse_lrc(text: &str) -> (parsed: Result<lrc::Lyrics, lrc::LyricsError>)
    ensures
        parsed is Ok <==> lrc_accepts(text@),
        parsed is Ok ==> parsed->Ok_0 == lrc_parsed(text@),
{
    lrc::Lyrics::from_str(text)
}

/// `Clone` of `lrc::Lyrics`, which the crate derives field by field. Claimed: the copy
/// equals the value it was made from.
pub assume_specification[ <lrc::Lyrics as Clone>::clone ](lyrics: &lrc::Lyrics) -> (copy: lrc::Lyrics)
    ensures
        copy == *lyrics,
;

/// Lower-cases a text with `str::to_lowercase`. Claimed: the result is a function of the
/// text alone, named `lowercase`.
#[verifier::external_body]
fn to_lowercase(text: &str) -> (lower: String)
    ensures
        lower@ == lowercase(text@),
{
    text.to_lowercase()
}

/// The album data kept for a disc (and cached as JSON by the program).
#[derive(Debug, Clone)]
pub struct DiscMetadata {
    pub title: String,
    pub artist: String,
    pub cover: Option<Vec<u8>>,
    pub tracks: Vec<Track>,
}

/// A track of a disc, with its synchronised lyrics where they were found.
#[derive(Debug, Clone)]
pub struct Track {
    pub title: String,
    pub lyrics: Option<lrc::Lyrics>,
}

impl Track {
    /// A copy of the track.
    pub fn duplicate(&self) -> (copy: Track)
        ensures
            copy == *self,
    {
        let lyrics = match &self.lyrics {
            Some(l) => Some(l.clone()),
            None => None,
        };
        Track { title: self.title.clone(), lyrics }
    }
}

/// The contents of a `DiscMetadata`.
pub struct DiscMetadataView {
    pub title: Seq<char>,
    pub artist: Seq<char>,
    pub cover: Option<Seq<u8>>,
    pub tracks: Seq<Track>,
}

impl View for DiscMetadata {
    type V = DiscMetadataView;

    open spec fn view(&self) -> DiscMetadataView {
        DiscMetadataView {
            title: self.title@,
            artist: self.artist@,
            cover: match self.cover {
                Some(bytes) => Some(bytes@),
                None => None,
            },
            tracks: self.tracks@,
        }
    }
}

/// The contents of optional metadata.
pub open spec fn metadata_view(meta: Option<DiscMetadata>) -> Option<DiscMetadataView> {
    match meta {
        Some(m) => Some(m@),
        None => None,
    }
}

/// The debug text of disc metadata: its title and artist only.
pub open spec fn metadata_debug(m: DiscMetadataView) -> Seq<char> {
    "DiscMetadata { title: "@ + debug_str(m.title) + ", artist: "@ + debug_str(m.artist) + " }"@
}

impl DiscMetadata {
    /// The debug text of the metadata, as the program shows it: title and artist, with
    /// the cover and the tracks left out.
    pub fn debug_text(&self) -> (text: String)
        ensures
            text@ == metadata_debug(self@),
    {
        let mut out = String::new();
        out.append("DiscMetadata { title: ");
        push_debug_str(&mut out, self.title.as_str());
        out.append(", artist: ");
        push_debug_str(&mut out, self.artist.as_str());
        out.append(" }");
        assert(out@ =~= metadata_debug(self@));
        out
    }

    /// A copy of the metadata.
    pub fn duplicate(&self) -> (copy: DiscMetadata)
        ensures
            copy@ == self@,
    {
        let cover = match &self.cover {
            Some(bytes) => Some(vstd::slice::slice_to_vec(bytes.as_slice())),
            None => None,
        };
        let mut tracks: Vec<Track> = Vec::new();
        let mut i: usize = 0;
        while i < self.tracks.len()
            invariant
                i <= self.tracks@.len(),
                tracks@ == self.tracks@.take(i as int),
            decreases self.tracks.len() - i,
        {
            tracks.push(self.tracks[i].duplicate());
            i = i + 1;
            assert(tracks@ =~= self.tracks@.take(i as int));
        }
        assert(self.tracks@.take(self.tracks@.len() as int) =~= self.tracks@);
        DiscMetadata { title: self.title.clone(), artist: self.artist.clone(), cover, tracks }
    }
}

/// What is known of the disc in the drive.
pub enum CdInfo {
    Cd { album: String, artist: String, tracks: Vec<Track> },
    Dvd { title: String },
}

/// A recording as MusicBrainz describes it: title, the names of its artist credits,
/// length in milliseconds.
pub struct RecordingInfo {
    pub title: String,
    pub artist_credit: Option<Vec<String>>,
    pub length: Option<u32>,
}

/// A track of a medium in a MusicBrainz release.
pub struct TrackInfo {
    pub recording: Option<RecordingInfo>,
}

/// A medium (disc) of a MusicBrainz release.
pub struct MediumInfo {
    pub tracks: Option<Vec<TrackInfo>>,
}

/// A MusicBrainz release: title, the names of its artist credits, its media.
pub struct ReleaseInfo {
    pub title: String,
    pub artist_credit: Option<Vec<String>>,
    pub media: Option<Vec<MediumInfo>>,
}

/// An image of the Cover Art Archive: whether it is the front cover, and the address of
/// its large thumbnail.
pub struct CoverImage {
    pub front: bool,
    pub large: Option<String>,
}

/// A track of the disc, as used to look up its lyrics.
pub struct TrackSummary {
    pub title: String,
    pub artist: String,
    pub length: u32,
}

/// The disc as read from the first release of a disc-ID lookup.
pub struct DiscSummary {
    pub title: String,
    pub artist: String,
    pub tracks: Vec<TrackSummary>,
}

/// The keys under which the lyrics database is searched: lower-cased track, album and
/// artist names, and the track's length.
pub struct LyricsQuery {
    pub track: String,
    pub album: String,
    pub artist: String,
    pub duration: u32,
}

/// Why no lyrics could be had from the database's answer.
#[derive(Debug, Clone, Copy, PartialEq, Eq, Structural)]
pub enum LyricsLookupError {
    /// The stored text is not valid LRC.
    InvalidLyrics,
}

/// The name of the cache file of a disc: its disc ID followed by `.json`.
pub fn cache_file_name(disc_id: &str) -> (name: String)
    ensures
        name@ == disc_id@ + ".json"@,
{
    let mut name = String::from_str(disc_id);
    name.append(".json");
    name
}

/// The name of the first artist credit, or the empty text where there is none.
pub open spec fn first_credit_name(credits: Seq<String>) -> Seq<char> {
    if credits.len() > 0 {
        credits[0]@
    } else {
        Seq::empty()
    }
}

/// The recordings of a list of tracks, in order; tracks without one are left out.
pub open spec fn recordings(tracks: Seq<TrackInfo>) -> Seq<RecordingInfo>
    decreases tracks.len(),
{
    if tracks.len() == 0 {
        Seq::empty()
    } else {
        let rest = recordings(tracks.drop_last());
        match tracks.last().recording {
            Some(r) => rest.push(r),
            None => rest,
        }
    }
}

/// Whether a summary describes a recording: its title, its first artist credit's name (or
/// the empty text), its length (or 0).
pub open spec fn summarizes(s: TrackSummary, r: RecordingInfo) -> bool {
    &&& s.title@ == r.title@
    &&& s.artist@ == first_credit_name(r.artist_credit.unwrap()@)
    &&& s.length == (match r.length {
        Some(l) => l,
        None => 0,
    })
}

/// Whether a lookup answer has what the summary reads: a first release with an artist
/// credit and a first medium with a track list, each of whose recordings has an artist
/// credit list.
pub open spec fn lookup_complete(releases: Option<Vec<ReleaseInfo>>) -> bool {
    &&& releases is Some
    &&& releases.unwrap()@.len() > 0
    &&& {
        let r = releases.unwrap()@[0];
        &&& r.artist_credit is Some
        &&& r.artist_credit.unwrap()@.len() > 0
        &&& r.media is Some
        &&& r.media.unwrap()@.len() > 0
        &&& r.media.unwrap()@[0].tracks is Some
        &&& forall|i: int|
            0 <= i < r.media.unwrap()@[0].tracks.unwrap()@.len() ==> match (
            #[trigger] r.media.unwrap()@[0].tracks.unwrap()@[i]).recording {
                Some(rec) => rec.artist_credit is Some,
                None => true,
            }
    }
}

/// Whether a lookup answer has everything that `disc_summary` reads.
#[verifier::loop_isolation(false)]
pub fn is_lookup_complete(releases: &Option<Vec<ReleaseInfo>>) -> (complete: bool)
    ensures
        complete == lookup_complete(*releases),
{
    let rs = match releases {
        Some(rs) => rs,
        None => return false,
    };
    if rs.len() == 0 {
        return false;
    }
    let r = &rs[0];
    match &r.artist_credit {
        Some(c) => {
            if c.len() == 0 {
                return false;
            }
        },
        None => return false,
    }
    let media = match &r.media {
        Some(m) => m,
        None => return false,
    };
    if media.len() == 0 {
        return false;
    }
    let tracks = match &media[0].tracks {
        Some(t) => t,
        None => return false,
    };
    let mut i: usize = 0;
    while i < tracks.len()
        invariant
            i <= tracks@.len(),
            forall|j: int|
                0 <= j < i ==> match (#[trigger] tracks@[j]).recording {
                    Some(rec) => rec.artist_credit is Some,
                    None => true,
                },
        decreases tracks.len() - i,
    {
        match &tracks[i].recording {
            Some(rec) => {
                if rec.artist_credit.is_none() {
                    return false;
                }
            },
            None => {},
        }
        i = i + 1;
    }
    true
}

/// Copies a text.
fn copy_string(s: &String) -> (c: String)
    ensures
        c@ == s@,
{
    s.clone()
}

/// The track summaries of a track list, each recording's artist credits being present.
fn summarize_tracks(tracks: &Vec<TrackInfo>) -> (out: Vec<TrackSummary>)
    requires
        forall|i: int|
            0 <= i < tracks@.len() ==> match (#[trigger] tracks@[i]).recording {
                Some(rec) => rec.artist_credit is Some,
                None => true,
            },
    ensures
        out@.len() == recordings(tracks@).len(),
        forall|i: int| 0 <= i < out@.len() ==> summarizes(#[trigger] out@[i], recordings(tracks@)[i]),
{
    let mut out: Vec<TrackSummary> = Vec::new();
    let mut i: usize = 0;
    while i < tracks.len()
        invariant
            i <= tracks@.len(),
            forall|j: int|
                0 <= j < tracks@.len() ==> match (#[trigger] tracks@[j]).recording {
                    Some(rec) => rec.artist_credit is Some,
                    None => true,
                },
            out@.len() == recordings(tracks@.take(i as int)).len(),
            forall|j: int|
                0 <= j < out@.len() ==> summarizes(
                    #[trigger] out@[j],
                    recordings(tracks@.take(i as int))[j],
                ),
        decreases tracks.len() - i,
    {
        let ghost before = out@;
        assert(tracks@.take(i + 1).drop_last() =~= tracks@.take(i as int));
        assert(tracks@.take(i + 1).last() == tracks@[i as int]);
        match &tracks[i].recording {
            Some(rec) => {
                let artist = match &rec.artist_credit {
                    Some(credits) => {
                        if credits.len() > 0 {
                            copy_string(&credits[0])
                        } else {
                            String::new()
                        }
                    },
                    None => String::new(),
                };
                let length = match rec.length {
                    Some(l) => l,
                    None => 0,
                };
                out.push(TrackSummary { title: copy_string(&rec.title), artist, length });
                assert(summarizes(out@[out@.len() - 1], *rec));
            },
            None => {},
        }
        i = i + 1;
        assert forall|j: int| 0 <= j < out@.len() implies summarizes(
            #[trigger] out@[j],
            recordings(tracks@.take(i as int))[j],
        ) by {
            if j < before.len() {
                assert(out@[j] == before[j]);
            }
        }
    }
    assert(tracks@.take(tracks@.len() as int) =~= tracks@);
    out
}

/// Reads a disc-ID lookup as the metadata fetcher does: the first release gives the
/// title and (its first artist credit) the artist; the tracks are the recordings of its
/// first medium.
pub fn disc_summary(releases: &Option<Vec<ReleaseInfo>>) -> (summary: DiscSummary)
    requires
        lookup_complete(*releases),
    ensures
        ({
            let r = releases.unwrap()@[0];
            let tracks = r.media.unwrap()@[0].tracks.unwrap()@;
            &&& summary.title@ == r.title@
            &&& summary.artist@ == r.artist_credit.unwrap()@[0]@
            &&& summary.tracks@.len() == recordings(tracks).len()
            &&& forall|i: int|
                0 <= i < summary.tracks@.len() ==> summarizes(
                    #[trigger] summary.tracks@[i],
                    recordings(tracks)[i],
                )
        }),
{
    let rs = releases.as_ref().unwrap();
    let r = &rs[0];
    let artist = match &r.artist_credit {
        Some(c) => copy_string(&c[0]),
        None => String::new(),
    };
    let tracks = match &r.media {
        Some(m) => match &m[0].tracks {
            Some(t) => summarize_tracks(t),
            None => Vec::new(),
        },
        None => Vec::new(),
    };
    DiscSummary { title: copy_string(&r.title), artist, tracks }
}

/// The keys for the lyrics of a track of the album `album`: track, album and artist
/// names lower-cased, and the track's length.
pub fn lyrics_query(track: &TrackSummary, album: &str) -> (query: LyricsQuery)
    ensures
        query.track@ == lowercase(track.title@),
        query.album@ == lowercase(album@),
        query.artist@ == lowercase(track.artist@),
        query.duration == track.length,
{
    LyricsQuery {
        track: to_lowercase(track.title.as_str()),
        album: to_lowercase(album),
        artist: to_lowercase(track.artist.as_str()),
        duration: track.length,
    }
}

/// Whether `query` holds the lyrics keys of `track` on the album `album`.
pub open spec fn is_query_for(query: LyricsQuery, track: TrackSummary, album: Seq<char>) -> bool {
    &&& query.track@ == lowercase(track.title@)
    &&& query.album@ == lowercase(album)
    &&& query.artist@ == lowercase(track.artist@)
    &&& query.duration == track.length
}

/// The lyrics keys of every track of a disc, in order; the album is the disc's title.
pub fn lyrics_queries(summary: &DiscSummary) -> (queries: Vec<LyricsQuery>)
    ensures
        queries@.len() == summary.tracks@.len(),
        forall|i: int|
            0 <= i < queries@.len() ==> is_query_for(
                #[trigger] queries@[i],
                summary.tracks@[i],
                summary.title@,
            ),
{
    let mut queries: Vec<LyricsQuery> = Vec::new();
    let mut i: usize = 0;
    while i < summary.tracks.len()
        invariant
            i <= summary.tracks@.len(),
            queries@.len() == i,
            forall|j: int|
                0 <= j < i ==> is_query_for(#[trigger] queries@[j], summary.tracks@[j], summary.title@),
        decreases summary.tracks.len() - i,
    {
        queries.push(lyrics_query(&summary.tracks[i], summary.title.as_str()));
        i = i + 1;
    }
    queries
}

/// A track read back from the cache, where its lyrics are kept as LRC text: the text is
/// parsed again, and an error comes where it is not valid LRC.
pub fn track_from_cache(title: String, lyrics: Option<String>) -> (track: Result<Track, LyricsLookupError>)
    ensures
        match lyrics {
            None => track == Ok::<Track, LyricsLookupError>(Track { title, lyrics: None }),
            Some(text) => {
                &&& (track is Ok <==> lrc_accepts(text@))
                &&& track is Ok ==> track->Ok_0 == (Track { title, lyrics: Some(lrc_parsed(text@)) })
                &&& track is Err ==> track == Err::<Track, LyricsLookupError>(
                    LyricsLookupError::InvalidLyrics,
                )
            },
        },
{
    match lyrics {
        None => Ok(Track { title, lyrics: None }),
        Some(text) => match parse_lrc(text.as_str()) {
            Ok(l) => Ok(Track { title, lyrics: Some(l) }),
            Err(_) => Err(LyricsLookupError::InvalidLyrics),
        },
    }
}

/// The lyrics of the first row that the database returned: none where it returned no
/// row; otherwise the first row's text parsed as LRC, and an error where it is not
/// valid LRC.
pub fn first_lyrics(rows: &Vec<String>) -> (lyrics: Result<Option<lrc::Lyrics>, LyricsLookupError>)
    ensures
        rows@.len() == 0 ==> lyrics == Ok::<Option<lrc::Lyrics>, LyricsLookupError>(None),
        rows@.len() > 0 ==> (lyrics is Ok <==> lrc_accepts(rows@[0]@)),
        rows@.len() > 0 && lyrics is Ok ==> lyrics->Ok_0 == Some(lrc_parsed(rows@[0]@)),
        lyrics is Err ==> lyrics == Err::<Option<lrc::Lyrics>, LyricsLookupError>(
            LyricsLookupError::InvalidLyrics,
        ),
{
    if rows.len() == 0 {
        return Ok(None);
    }
    match parse_lrc(rows[0].as_str()) {
        Ok(l) => Ok(Some(l)),
        Err(_) => Err(LyricsLookupError::InvalidLyrics),
    }
}

/// The first front image of a list and its large thumbnail: `None` where no image is
/// the front cover, else `Some` of that image's large thumbnail.
pub open spec fn first_front_large(images: Seq<CoverImage>) -> Option<Option<String>>
    decreases images.len(),
{
    if images.len() == 0 {
        None
    } else if images[0].front {
        Some(images[0].large)
    } else {
        first_front_large(images.drop_first())
    }
}

/// The address of the cover to download: the large thumbnail of the first front image
/// of the Cover Art Archive's listing. `images` is `None` where the archive did not answer
/// with a listing.
pub fn front_cover_url(images: &Option<Vec<CoverImage>>) -> (url: Option<String>)
    ensures
        url == (match *images {
            Some(imgs) => match first_front_large(imgs@) {
                Some(large) => large,
                None => None,
            },
            None => None,
        }),
{
    let imgs = match images {
        Some(imgs) => imgs,
        None => return None,
    };
    assert(imgs@.skip(0) =~= imgs@);
    let mut i: usize = 0;
    while i < imgs.len()
        invariant
            i <= imgs@.len(),
            *images == Some(*imgs),
            first_front_large(imgs@) == first_front_large(imgs@.skip(i as int)),
        decreases imgs.len() - i,
    {
        assert(imgs@.skip(i as int).drop_first() =~= imgs@.skip(i + 1));
        assert(imgs@.skip(i as int)[0] == imgs@[i as int]);
        if imgs[i].front {
            return match &imgs[i].large {
                Some(u) => Some(u.clone()),
                None => None,
            };
        }
        i = i + 1;
    }
    None
}

/// The metadata of a disc from its summary, the lyrics found for each of its tracks (in
/// the same order) and the cover image.
pub fn assemble_metadata(
    summary: DiscSummary,
    lyrics: Vec<Option<lrc::Lyrics>>,
    cover: Option<Vec<u8>>,
) -> (meta: DiscMetadata)
    requires
        lyrics@.len() == summary.tracks@.len(),
    ensures
        meta.title@ == summary.title@,
        meta.artist@ == summary.artist@,
        meta.cover == cover,
        meta.tracks@.len() == summary.tracks@.len(),
        forall|i: int|
            0 <= i < meta.tracks@.len() ==> (#[trigger] meta.tracks@[i]).title@
                == summary.tracks@[i].title@ && meta.tracks@[i].lyrics == lyrics@[i],
{
    let mut lyrics = lyrics;
    let mut tracks: Vec<Track> = Vec::new();
    let n = lyrics.len();
    let ghost all = lyrics@;
    let mut i: usize = 0;
    while i < n
        invariant
            n == all.len(),
            n == summary.tracks@.len(),
            i <= n,
            lyrics@ == all.skip(i as int),
            tracks@.len() == i,
            forall|j: int|
                0 <= j < i ==> (#[trigger] tracks@[j]).title@ == summary.tracks@[j].title@
                    && tracks@[j].lyrics == all[j],
        decreases n - i,
    {
        let l = lyrics.remove(0);
        assert(all.skip(i as int).drop_first() =~= all.skip(i + 1));
        tracks.push(Track { title: copy_string(&summary.tracks[i].title), lyrics: l });
        i = i + 1;
    }
    DiscMetadata { title: summary.title, artist: summary.artist, cover, tracks }
}

} // verus!
