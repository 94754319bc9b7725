use media_controller::controller::{
    route_message, window_fits, window_position, ControlAction, Message, WindowPos,
};
use media_controller::dvd_monitor::{DiskReaderEvent, DiskType};
use media_controller::ir_remote_monitor::RemoteButton;
use media_controller::ui::debug_console::DebugLog;
use media_controller::ui::lyrics_app::LyricsState;
use media_controller::ui::prompt_window::{PromptReaction, PromptState};
use media_controller::ui::welcome_window::welcome_visibility;
use media_controller::vlc::MediaCommand;

fn ir(b: RemoteButton) -> Message {
    Message::Ir(b)
}

#[test]
fn default_message_is_nothing() {
    assert!(matches!(Message::default(), Message::Nothing));
}

#[test]
fn routing_of_messages() {
    let inserted = Message::Disk(DiskReaderEvent::Inserted(DiskType::Dvd));
    assert!(matches!(route_message(&inserted),
        Some(ControlAction::Media(MediaCommand::StartMedia { path })) if path == "dvdsimple:///dev/sr0"));
    let cd = Message::Disk(DiskReaderEvent::Inserted(DiskType::Cd { disc_id: "x".to_string() }));
    assert!(matches!(route_message(&cd), Some(ControlAction::Media(MediaCommand::StartMedia { .. }))));
    assert!(route_message(&Message::Disk(DiskReaderEvent::Ejected)).is_none());
    assert!(matches!(route_message(&ir(RemoteButton::Star)), Some(ControlAction::TvOn)));
    assert!(matches!(route_message(&ir(RemoteButton::Hash)), Some(ControlAction::TvOff)));
    assert!(matches!(route_message(&ir(RemoteButton::OkKey)), Some(ControlAction::Media(MediaCommand::TogglePlay))));
    assert!(matches!(route_message(&ir(RemoteButton::Up)), Some(ControlAction::Media(MediaCommand::VolumeUp))));
    assert!(matches!(route_message(&ir(RemoteButton::Down)), Some(ControlAction::Media(MediaCommand::VolumeDown))));
    assert!(matches!(route_message(&ir(RemoteButton::Left)), Some(ControlAction::Media(MediaCommand::Seek { seconds: -15 }))));
    assert!(matches!(route_message(&ir(RemoteButton::Right)), Some(ControlAction::Media(MediaCommand::Seek { seconds: 15 }))));
    assert!(route_message(&ir(RemoteButton::Number(3))).is_none());
    assert!(route_message(&Message::PromptChosen(true)).is_none());
    assert!(route_message(&Message::Nothing).is_none());
}

#[test]
fn window_positions() {
    let (mw, mh, ww, wh) = (1920, 1080, 500, 120);
    assert_eq!(window_position(WindowPos::Center, mw, mh, ww, wh), (710, 480));
    assert_eq!(window_position(WindowPos::TopLeft, mw, mh, ww, wh), (0, 0));
    assert_eq!(window_position(WindowPos::Top, mw, mh, ww, wh), (960, 0));
    assert_eq!(window_position(WindowPos::TopRight, mw, mh, ww, wh), (1420, 0));
    assert_eq!(window_position(WindowPos::Right, mw, mh, ww, wh), (1420, 540));
    assert_eq!(window_position(WindowPos::BottomRight, mw, mh, ww, wh), (1420, 960));
    assert_eq!(window_position(WindowPos::Bottom, mw, mh, ww, wh), (710, 960));
    assert_eq!(window_position(WindowPos::BottomLeft, mw, mh, ww, wh), (0, 960));
    assert_eq!(window_position(WindowPos::Left, mw, mh, ww, wh), (0, 540));
    // odd sizes: each half rounds down
    assert_eq!(window_position(WindowPos::Center, 101, 51, 11, 5), (45, 23));
}

#[test]
fn window_fit_checks() {
    assert!(window_fits(WindowPos::Center, 100, 100, 100, 100));
    assert!(window_fits(WindowPos::Center, 100, 100, 101, 100));
    assert!(!window_fits(WindowPos::Center, 100, 100, 102, 100));
    assert!(!window_fits(WindowPos::TopRight, 100, 100, 101, 1));
    assert!(window_fits(WindowPos::TopLeft, 0, 0, 500, 500));
    assert!(!window_fits(WindowPos::BottomLeft, 100, 100, 1, 101));
    assert!(!window_fits(WindowPos::Bottom, 100, 100, 1, 101));
    assert!(window_fits(WindowPos::Left, 0, 0, 5, 5));
}

#[test]
fn prompt_flow() {
    let mut p = PromptState::new();
    assert_eq!((p.choice, p.prompt.as_str()), (-1, ""));
    let r = p.on_message(&Message::SetPrompt { prompt: "Vill du börja där du slutade?".to_string() });
    assert!(r == PromptReaction { handled: true, visible: Some(true), chosen: None });
    assert_eq!(p.prompt, "Vill du börja där du slutade?");
    // OK with nothing chosen answers "no"
    let r = p.on_message(&ir(RemoteButton::OkKey));
    assert!(r == PromptReaction { handled: true, visible: Some(false), chosen: Some(false) });
    let r = p.on_message(&ir(RemoteButton::Left));
    assert!(r == PromptReaction { handled: true, visible: None, chosen: None });
    assert_eq!(p.choice, 0);
    let r = p.on_message(&ir(RemoteButton::OkKey));
    assert!(r.chosen == Some(true));
    p.on_message(&ir(RemoteButton::Right));
    assert_eq!(p.choice, 1);
    let r = p.on_message(&ir(RemoteButton::OkKey));
    assert!(r.chosen == Some(false));
    let r = p.on_message(&ir(RemoteButton::Up));
    assert!(r == PromptReaction { handled: false, visible: None, chosen: None });
    let r = p.on_message(&Message::Disk(DiskReaderEvent::Ejected));
    assert!(!r.handled);
    assert_eq!(p.choice, 1);
}

#[test]
fn welcome_window_visibility() {
    assert_eq!(welcome_visibility(&Message::Disk(DiskReaderEvent::Inserted(DiskType::Dvd))), Some(false));
    assert_eq!(welcome_visibility(&Message::Disk(DiskReaderEvent::Ejected)), Some(true));
    assert_eq!(welcome_visibility(&ir(RemoteButton::OkKey)), None);
}

#[test]
fn debug_log_records() {
    let mut log = DebugLog::new();
    assert!(!log.on_message(&ir(RemoteButton::Up)));
    assert!(!log.on_message(&Message::SetListPrompt {
        title: "t".to_string(),
        choices: vec!["a".to_string(), "b".to_string()],
        current_choice: 1,
    }));
    assert_eq!(log.messages.len(), 2);
    assert!(matches!(log.messages[0], Message::Ir(RemoteButton::Up)));
    match &log.messages[1] {
        Message::SetListPrompt { title, choices, current_choice } => {
            assert_eq!(title, "t");
            assert_eq!(choices, &vec!["a".to_string(), "b".to_string()]);
            assert_eq!(*current_choice, 1);
        },
        _ => panic!("wrong message"),
    }
}

#[test]
fn lyrics_window_state() {
    let mut s = LyricsState::new();
    assert_eq!(s.current_track, 4);
    assert!(s.displayed_track().is_none());
    assert!(!s.on_message(&ir(RemoteButton::Up)));
    assert!(s.disc_meta.is_none());
    let meta = media_controller::cd::assemble_metadata(
        media_controller::cd::DiscSummary {
            title: "T".to_string(),
            artist: "A".to_string(),
            tracks: (0..6)
                .map(|i| media_controller::cd::TrackSummary { title: format!("t{}", i), artist: "A".to_string(), length: 0 })
                .collect(),
        },
        (0..6).map(|_| None).collect(),
        None,
    );
    assert!(s.on_message(&Message::DiskMetadata(Some(meta))));
    assert!(s.selection_ok());
    assert_eq!(s.displayed_track().unwrap().title, "t4");
    s.current_track = 6;
    assert!(!s.selection_ok());
    s.current_track = -2;
    assert!(!s.selection_ok());
    s.current_track = -1;
    assert!(s.selection_ok());
    assert!(s.displayed_track().is_none());
    assert!(s.on_message(&Message::DiskMetadata(None)));
    assert!(s.disc_meta.is_none());
}
