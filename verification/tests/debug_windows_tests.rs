use media_controller::cd::{
    assemble_metadata, first_lyrics, lyrics_queries, track_from_cache, DiscSummary,
    LyricsLookupError, TrackSummary,
};
use media_controller::controller::Message;
use media_controller::dvd_monitor::{DiskReaderEvent, DiskType};
use media_controller::ir_remote_monitor::RemoteButton;
use media_controller::ui::debug_console::DebugLog;
use media_controller::ui::lyrics_app::LyricsState;
use media_controller::ui::prompt_window::PromptState;
use media_controller::ui::windows::{offer_message, WindowModel};

fn meta(title: &str, artist: &str) -> media_controller::cd::DiscMetadata {
    assemble_metadata(
        DiscSummary { title: title.to_string(), artist: artist.to_string(), tracks: vec![] },
        vec![],
        Some(vec![1, 2]),
    )
}

#[test]
fn metadata_debug_text_shows_title_and_artist() {
    assert_eq!(meta("T", "A").debug_text(), r#"DiscMetadata { title: "T", artist: "A" }"#);
    assert_eq!(
        meta("Say \"hi\"", "Å\n").debug_text(),
        format!("DiscMetadata {{ title: {:?}, artist: {:?} }}", "Say \"hi\"", "Å\n")
    );
}

#[test]
fn message_debug_text_keeps_variant_names() {
    assert_eq!(Message::Nothing.debug_text(), "None");
    assert_eq!(Message::Ir(RemoteButton::OkKey).debug_text(), "Ir(Ok)");
    assert_eq!(Message::Ir(RemoteButton::Number(7)).debug_text(), "Ir(Number(7))");
    assert_eq!(Message::Ir(RemoteButton::Left).debug_text(), "Ir(Left)");
    assert_eq!(Message::Disk(DiskReaderEvent::Ejected).debug_text(), "Disk(Ejected)");
    assert_eq!(Message::Disk(DiskReaderEvent::Inserted(DiskType::Dvd)).debug_text(), "Disk(Inserted(Dvd))");
    assert_eq!(
        Message::Disk(DiskReaderEvent::Inserted(DiskType::Cd { disc_id: "ab".to_string() })).debug_text(),
        r#"Disk(Inserted(Cd { disc_id: "ab" }))"#
    );
    assert_eq!(Message::SetPrompt { prompt: "Vill du?".to_string() }.debug_text(), r#"SetPrompt { prompt: "Vill du?" }"#);
    assert_eq!(Message::PromptChosen(true).debug_text(), "PromptChosen(true)");
    assert_eq!(Message::PromptChosen(false).debug_text(), "PromptChosen(false)");
    assert_eq!(
        Message::SetListPrompt {
            title: "t".to_string(),
            choices: vec!["a".to_string(), "b".to_string()],
            current_choice: -1,
        }
        .debug_text(),
        r#"SetListPrompt { title: "t", choices: ["a", "b"], current_choice: -1 }"#
    );
    assert_eq!(
        Message::SetListPrompt { title: "".to_string(), choices: vec![], current_choice: 0 }.debug_text(),
        r#"SetListPrompt { title: "", choices: [], current_choice: 0 }"#
    );
    assert_eq!(Message::ListPromptChosen(12).debug_text(), "ListPromptChosen(12)");
    assert_eq!(Message::DiskMetadata(None).debug_text(), "DiskMetadata(None)");
    assert_eq!(
        Message::DiskMetadata(Some(meta("T", "A"))).debug_text(),
        r#"DiskMetadata(Some(DiscMetadata { title: "T", artist: "A" }))"#
    );
}

#[test]
fn first_row_lyrics_are_parsed() {
    let rows = vec!["[00:01.00]first".to_string(), "[00:02.00]second\n[00:03.00]x".to_string()];
    let l = first_lyrics(&rows).unwrap().unwrap();
    let lines: Vec<String> = l.get_timed_lines().iter().map(|(_, s)| s.to_string()).collect();
    assert_eq!(lines, vec!["first".to_string()]);
    assert_eq!(l.to_string(), lrc::Lyrics::from_str("[00:01.00]first").unwrap().to_string());
}

#[test]
fn queries_for_all_tracks() {
    let summary = DiscSummary {
        title: "Abbey ROAD".to_string(),
        artist: "X".to_string(),
        tracks: vec![
            TrackSummary { title: "One".to_string(), artist: "The A".to_string(), length: 10 },
            TrackSummary { title: "TWO".to_string(), artist: "B".to_string(), length: 20 },
        ],
    };
    let q = lyrics_queries(&summary);
    assert_eq!(q.len(), 2);
    assert_eq!((q[0].track.as_str(), q[0].album.as_str(), q[0].artist.as_str(), q[0].duration), ("one", "abbey road", "the a", 10));
    assert_eq!((q[1].track.as_str(), q[1].album.as_str(), q[1].artist.as_str(), q[1].duration), ("two", "abbey road", "b", 20));
}

#[test]
fn cached_tracks() {
    let t = track_from_cache("a".to_string(), None).unwrap();
    assert_eq!(t.title, "a");
    assert!(t.lyrics.is_none());
    let t = track_from_cache("b".to_string(), Some("[00:01.00]x".to_string())).unwrap();
    assert_eq!(t.lyrics.unwrap().get_timed_lines().len(), 1);
    assert!(matches!(track_from_cache("c".to_string(), Some("w [a:b]".to_string())), Err(LyricsLookupError::InvalidLyrics)));
}

#[test]
fn messages_are_offered_until_taken() {
    let mut windows = vec![
        WindowModel::Debug(DebugLog::new()),
        WindowModel::Welcome,
        WindowModel::Prompt(PromptState::new()),
        WindowModel::Lyrics(LyricsState::new()),
    ];
    // the prompt takes the left button: the lyrics window does not see it
    let r = offer_message(&mut windows, &Message::Ir(RemoteButton::Left));
    assert_eq!(r.len(), 3);
    assert!(!r[0].handled && !r[1].handled && r[2].handled);
    assert!(r[1].visible.is_none());
    match &windows[2] {
        WindowModel::Prompt(p) => assert_eq!(p.choice, 0),
        _ => panic!("wrong window"),
    }
    // OK: the prompt answers yes and hides
    let r = offer_message(&mut windows, &Message::Ir(RemoteButton::OkKey));
    assert_eq!(r.len(), 3);
    assert_eq!(r[2].chosen, Some(true));
    assert_eq!(r[2].visible, Some(false));
    // an ejection reaches every window; the welcome window shows itself
    let r = offer_message(&mut windows, &Message::Disk(DiskReaderEvent::Ejected));
    assert_eq!(r.len(), 4);
    assert!(r.iter().all(|x| !x.handled));
    assert_eq!(r[1].visible, Some(true));
    // new metadata refreshes the lyrics window
    let r = offer_message(&mut windows, &Message::DiskMetadata(None));
    assert_eq!(r.len(), 4);
    assert!(r[3].refresh);
    assert_eq!(r[3].visible, Some(true));
    match &windows[0] {
        WindowModel::Debug(log) => assert_eq!(log.messages.len(), 4),
        _ => panic!("wrong window"),
    }
    let mut none: Vec<WindowModel> = vec![];
    assert!(offer_message(&mut none, &Message::Nothing).is_empty());
}

#[test]
fn prompt_choice_follows_latest_selection() {
    let mut p = PromptState::new();
    let seq = [RemoteButton::Up, RemoteButton::Right, RemoteButton::Down, RemoteButton::Left, RemoteButton::Star];
    let mut latest: Option<bool> = None;
    for b in seq {
        p.on_message(&Message::Ir(b));
        match b {
            RemoteButton::Left => latest = Some(true),
            RemoteButton::Right => latest = Some(false),
            _ => {},
        }
        let expected = match latest { None => -1, Some(true) => 0, Some(false) => 1 };
        assert_eq!(p.choice, expected);
    }
    assert_eq!(p.on_message(&Message::Ir(RemoteButton::OkKey)).chosen, Some(true));
}
