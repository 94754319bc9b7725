use media_controller::cd::{
    assemble_metadata, cache_file_name, disc_summary, first_lyrics, front_cover_url,
    is_lookup_complete, lyrics_query, CoverImage, DiscSummary, LyricsLookupError, MediumInfo,
    RecordingInfo, ReleaseInfo, TrackInfo, TrackSummary,
};

fn recording(title: &str, credits: Option<Vec<&str>>, length: Option<u32>) -> TrackInfo {
    TrackInfo {
        recording: Some(RecordingInfo {
            title: title.to_string(),
            artist_credit: credits.map(|c| c.into_iter().map(|s| s.to_string()).collect()),
            length,
        }),
    }
}

fn release(tracks: Option<Vec<TrackInfo>>) -> ReleaseInfo {
    ReleaseInfo {
        title: "Abbey Road".to_string(),
        artist_credit: Some(vec!["The Beatles".to_string(), "Other".to_string()]),
        media: Some(vec![MediumInfo { tracks }, MediumInfo { tracks: None }]),
    }
}

#[test]
fn cache_name() {
    assert_eq!(cache_file_name("abc-123"), "abc-123.json");
    assert_eq!(cache_file_name(""), ".json");
}

#[test]
fn summary_of_lookup() {
    let releases = Some(vec![
        release(Some(vec![
            recording("Come Together", Some(vec!["The Beatles", "x"]), Some(259000)),
            TrackInfo { recording: None },
            recording("Something", Some(vec![]), None),
        ])),
        release(None),
    ]);
    assert!(is_lookup_complete(&releases));
    let s = disc_summary(&releases);
    assert_eq!(s.title, "Abbey Road");
    assert_eq!(s.artist, "The Beatles");
    assert_eq!(s.tracks.len(), 2);
    assert_eq!(s.tracks[0].title, "Come Together");
    assert_eq!(s.tracks[0].artist, "The Beatles");
    assert_eq!(s.tracks[0].length, 259000);
    assert_eq!(s.tracks[1].title, "Something");
    assert_eq!(s.tracks[1].artist, "");
    assert_eq!(s.tracks[1].length, 0);
}

#[test]
fn incomplete_lookups() {
    assert!(!is_lookup_complete(&None));
    assert!(!is_lookup_complete(&Some(vec![])));
    assert!(!is_lookup_complete(&Some(vec![release(None)])));
    let mut r = release(Some(vec![]));
    r.artist_credit = Some(vec![]);
    assert!(!is_lookup_complete(&Some(vec![r])));
    let mut r = release(Some(vec![]));
    r.media = Some(vec![]);
    assert!(!is_lookup_complete(&Some(vec![r])));
    let r = release(Some(vec![recording("a", None, Some(1))]));
    assert!(!is_lookup_complete(&Some(vec![r])));
    let r = release(Some(vec![]));
    assert!(is_lookup_complete(&Some(vec![r])));
}

#[test]
fn query_is_lower_cased() {
    let t = TrackSummary { title: "Come TOGETHER".to_string(), artist: "The Beatles".to_string(), length: 5 };
    let q = lyrics_query(&t, "Abbey Road");
    assert_eq!(q.track, "come together");
    assert_eq!(q.album, "abbey road");
    assert_eq!(q.artist, "the beatles");
    assert_eq!(q.duration, 5);
}

#[test]
fn lyrics_rows() {
    assert!(matches!(first_lyrics(&vec![]), Ok(None)));
    let ok = first_lyrics(&vec!["[00:12.00]Hello\n[00:15.30]World".to_string(), "bad [a:b]".to_string()]);
    match ok {
        Ok(Some(l)) => assert_eq!(l.get_timed_lines().len(), 2),
        _ => panic!("expected lyrics"),
    }
    let bad = first_lyrics(&vec!["word [ar:x]".to_string()]);
    assert!(matches!(bad, Err(LyricsLookupError::InvalidLyrics)));
}

#[test]
fn front_cover_choice() {
    assert_eq!(front_cover_url(&None), None);
    assert_eq!(front_cover_url(&Some(vec![])), None);
    let imgs = vec![
        CoverImage { front: false, large: Some("back".to_string()) },
        CoverImage { front: true, large: Some("front1".to_string()) },
        CoverImage { front: true, large: Some("front2".to_string()) },
    ];
    assert_eq!(front_cover_url(&Some(imgs)), Some("front1".to_string()));
    let imgs = vec![
        CoverImage { front: true, large: None },
        CoverImage { front: true, large: Some("front2".to_string()) },
    ];
    assert_eq!(front_cover_url(&Some(imgs)), None);
    let imgs = vec![CoverImage { front: false, large: Some("back".to_string()) }];
    assert_eq!(front_cover_url(&Some(imgs)), None);
}

#[test]
fn metadata_assembly() {
    let summary = DiscSummary {
        title: "T".to_string(),
        artist: "A".to_string(),
        tracks: vec![
            TrackSummary { title: "one".to_string(), artist: "A".to_string(), length: 1 },
            TrackSummary { title: "two".to_string(), artist: "A".to_string(), length: 2 },
        ],
    };
    let lyr = first_lyrics(&vec!["[00:01.00]x".to_string()]).unwrap();
    let meta = assemble_metadata(summary, vec![None, lyr], Some(vec![1, 2, 3]));
    assert_eq!(meta.title, "T");
    assert_eq!(meta.artist, "A");
    assert_eq!(meta.cover, Some(vec![1, 2, 3]));
    assert_eq!(meta.tracks.len(), 2);
    assert_eq!(meta.tracks[0].title, "one");
    assert!(meta.tracks[0].lyrics.is_none());
    assert_eq!(meta.tracks[1].title, "two");
    assert!(meta.tracks[1].lyrics.is_some());
    let copy = meta.duplicate();
    assert_eq!(copy.title, "T");
    assert_eq!(copy.cover, Some(vec![1, 2, 3]));
    assert_eq!(copy.tracks.len(), 2);
}
