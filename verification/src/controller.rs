use vstd::prelude::*;
use crate::cd::{DiscMetadata, DiscMetadataView, metadata_view, metadata_debug};
use crate::debug_text::{
    debug_str, debug_list, bool_debug, signed_decimal_chars, push_debug_str, push_debug_list,
    push_bool, push_signed_decimal_str, push_decimal_str,
};
use crate::dvd_monitor::DiskType;
use crate::text::decimal_chars;
use crate::dvd_monitor::DiskReaderEvent;
use crate::ir_remote_monitor::RemoteButton;
use crate::vlc::MediaCommand;

verus! {

/// The events that the parts of the program send to the user interface's event loop.
#[derive(Debug, Clone)]
pub enum Message {
    Nothing,
    Disk(DiskReaderEvent),
    Ir(RemoteButton),
    SetPrompt { prompt: String },
    PromptChosen(bool),
    SetListPrompt { title: String, choices: Vec<String>, current_choice: i32 },
    ListPromptChosen(i32),
    DiskMetadata(Option<DiscMetadata>),
}

/// The contents of a `Message`.
pub enum MessageView {
    Nothing,
    Disk(DiskReaderEvent),
    Ir(RemoteButton),
    SetPrompt { prompt: Seq<char> },
    PromptChosen(bool),
    SetListPrompt { title: Seq<char>, choices: Seq<Seq<char>>, current_choice: i32 },
    ListPromptChosen(i32),
    DiskMetadata(Option<DiscMetadataView>),
}

impl View for Message {
    type V = MessageView;

    open spec fn view(&self) -> MessageView {
        match self {
            Message::Nothing => MessageView::Nothing,
            Message::Disk(e) => MessageView::Disk(*e),
            Message::Ir(b) => MessageView::Ir(*b),
            Message::SetPrompt { prompt } => MessageView::SetPrompt { prompt: prompt@ },
            Message::PromptChosen(b) => MessageView::PromptChosen(*b),
            Message::SetListPrompt { title, choices, current_choice } => MessageView::SetListPrompt {
                title: title@,
                choices: choices@.map_values(|c: String| c@),
                current_choice: *current_choice,
            },
            Message::ListPromptChosen(i) => MessageView::ListPromptChosen(*i),
            Message::DiskMetadata(m) => MessageView::DiskMetadata(metadata_view(*m)),
        }
    }
}

impl Default for Message {
    fn default() -> (m: Message)
        ensures
            m == Message::Nothing,
    {
        Message::Nothing
    }
}

impl Message {
    /// A copy of the message.
    pub fn duplicate(&self) -> (copy: Message)
        ensures
            copy@ == self@,
    {
        match self {
            Message::Nothing => Message::Nothing,
            Message::Disk(e) => Message::Disk(e.duplicate()),
            Message::Ir(b) => Message::Ir(*b),
            Message::SetPrompt { prompt } => Message::SetPrompt { prompt: prompt.clone() },
            Message::PromptChosen(b) => Message::PromptChosen(*b),
            Message::SetListPrompt { title, choices, current_choice } => {
                let mut copied: Vec<String> = Vec::new();
                let mut i: usize = 0;
                while i < choices.len()
                    invariant
                        i <= choices@.len(),
                        copied@.len() == i,
                        forall|j: int| 0 <= j < i ==> (#[trigger] copied@[j])@ == choices@[j]@,
                    decreases choices.len() - i,
                {
                    copied.push(choices[i].clone());
                    i = i + 1;
                }
                assert(copied@.map_values(|c: String| c@) =~= choices@.map_values(|c: String| c@));
                Message::SetListPrompt {
                    title: title.clone(),
                    choices: copied,
                    current_choice: *current_choice,
                }
            },
            Message::ListPromptChosen(i) => Message::ListPromptChosen(*i),
            Message::DiskMetadata(m) => Message::DiskMetadata(
                match m {
                    Some(meta) => Some(meta.duplicate()),
                    None => None,
                },
            ),
        }
    }
}

/// The debug text of a remote-control button: the names the program prints (`Ok` for
/// `OkKey`).
pub open spec fn button_debug(b: RemoteButton) -> Seq<char> {
    match b {
        RemoteButton::Number(n) => "Number("@ + decimal_chars(n as nat) + ")"@,
        RemoteButton::Left => "Left"@,
        RemoteButton::Up => "Up"@,
        RemoteButton::Right => "Right"@,
        RemoteButton::Down => "Down"@,
        RemoteButton::Hash => "Hash"@,
        RemoteButton::Star => "Star"@,
        RemoteButton::OkKey => "Ok"@,
    }
}

/// The debug text of a disc event.
pub open spec fn disk_event_debug(e: DiskReaderEvent) -> Seq<char> {
    match e {
        DiskReaderEvent::Inserted(DiskType::Dvd) => "Inserted(Dvd)"@,
        DiskReaderEvent::Inserted(DiskType::Cd { disc_id }) => "Inserted(Cd { disc_id: "@
            + debug_str(disc_id@) + " })"@,
        DiskReaderEvent::Ejected => "Ejected"@,
    }
}

/// The debug text of a message, as the program prints it: the variant names of the
/// event loop's messages, and disc metadata shown by title and artist.
pub open spec fn message_debug(m: MessageView) -> Seq<char> {
    match m {
        MessageView::Nothing => "None"@,
        MessageView::Disk(e) => "Disk("@ + disk_event_debug(e) + ")"@,
        MessageView::Ir(b) => "Ir("@ + button_debug(b) + ")"@,
        MessageView::SetPrompt { prompt } => "SetPrompt { prompt: "@ + debug_str(prompt) + " }"@,
        MessageView::PromptChosen(b) => "PromptChosen("@ + bool_debug(b) + ")"@,
        MessageView::SetListPrompt { title, choices, current_choice } => "SetListPrompt { title: "@
            + debug_str(title) + ", choices: "@ + debug_list(choices) + ", current_choice: "@
            + signed_decimal_chars(current_choice as int) + " }"@,
        MessageView::ListPromptChosen(i) => "ListPromptChosen("@ + signed_decimal_chars(i as int)
            + ")"@,
        MessageView::DiskMetadata(None) => "DiskMetadata(None)"@,
        MessageView::DiskMetadata(Some(meta)) => "DiskMetadata(Some("@ + metadata_debug(meta)
            + "))"@,
    }
}

/// Appends the debug text of a button to `out`.
fn push_button(out: &mut String, b: RemoteButton)
    ensures
        final(out)@ == old(out)@ + button_debug(b),
{
    match b {
        RemoteButton::Number(n) => {
            out.append("Number(");
            push_decimal_str(out, n as u64);
            out.append(")");
        },
        RemoteButton::Left => out.append("Left"),
        RemoteButton::Up => out.append("Up"),
        RemoteButton::Right => out.append("Right"),
        RemoteButton::Down => out.append("Down"),
        RemoteButton::Hash => out.append("Hash"),
        RemoteButton::Star => out.append("Star"),
        RemoteButton::OkKey => out.append("Ok"),
    }
    assert(final(out)@ =~= old(out)@ + button_debug(b));
}

/// Appends the debug text of a disc event to `out`.
fn push_disk_event(out: &mut String, e: &DiskReaderEvent)
    ensures
        final(out)@ == old(out)@ + disk_event_debug(*e),
{
    match e {
        DiskReaderEvent::Inserted(DiskType::Dvd) => out.append("Inserted(Dvd)"),
        DiskReaderEvent::Inserted(DiskType::Cd { disc_id }) => {
            out.append("Inserted(Cd { disc_id: ");
            push_debug_str(out, disc_id.as_str());
            out.append(" })");
        },
        DiskReaderEvent::Ejected => out.append("Ejected"),
    }
    assert(final(out)@ =~= old(out)@ + disk_event_debug(*e));
}

impl Message {
    /// The debug text of the message, as the program prints it.
    pub fn debug_text(&self) -> (text: String)
        ensures
            text@ == message_debug(self@),
    {
        let mut out = String::new();
        match self {
            Message::Nothing => out.append("None"),
            Message::Disk(e) => {
                out.append("Disk(");
                push_disk_event(&mut out, e);
                out.append(")");
            },
            Message::Ir(b) => {
                out.append("Ir(");
                push_button(&mut out, *b);
                out.append(")");
            },
            Message::SetPrompt { prompt } => {
                out.append("SetPrompt { prompt: ");
                push_debug_str(&mut out, prompt.as_str());
                out.append(" }");
            },
            Message::PromptChosen(b) => {
                out.append("PromptChosen(");
                push_bool(&mut out, *b);
                out.append(")");
            },
            Message::SetListPrompt { title, choices, current_choice } => {
                out.append("SetListPrompt { title: ");
                push_debug_str(&mut out, title.as_str());
                out.append(", choices: ");
                push_debug_list(&mut out, choices);
                out.append(", current_choice: ");
                push_signed_decimal_str(&mut out, *current_choice as i64);
                out.append(" }");
            },
            Message::ListPromptChosen(i) => {
                out.append("ListPromptChosen(");
                push_signed_decimal_str(&mut out, *i as i64);
                out.append(")");
            },
            Message::DiskMetadata(None) => out.append("DiskMetadata(None)"),
            Message::DiskMetadata(Some(meta)) => {
                out.append("DiskMetadata(Some(");
                let t = meta.debug_text();
                out.append(t.as_str());
                out.append("))");
            },
        }
        assert(out@ =~= message_debug(self@));
        out
    }
}

/// What the event loop does with a message that no window took.
pub enum ControlAction {
    /// Hand a command to the media player.
    Media(MediaCommand),
    /// Make the television the active source (HDMI-CEC).
    TvOn,
    /// Put the television in standby (HDMI-CEC).
    TvOff,
}

/// How many seconds the right button seeks forward.
pub const SEEK_FORWARD_SECONDS: i32 = 15;

/// How many seconds the left button seeks (backward).
pub const SEEK_BACK_SECONDS: i32 = -15;

/// Whether `action` is what the event loop does with `msg`: an inserted disc starts the
/// DVD in the drive; the star and hash buttons turn the television on and off; OK toggles
/// playback; up and down change the volume; left and right seek 15 seconds back and
/// forth; everything else does nothing.
pub open spec fn routes_to(msg: Message, action: Option<ControlAction>) -> bool {
    match msg {
        Message::Disk(DiskReaderEvent::Inserted(_)) => action matches Some(
            ControlAction::Media(MediaCommand::StartMedia { path }),
        ) && path@ == "dvdsimple:///dev/sr0"@,
        Message::Ir(RemoteButton::Star) => action == Some(ControlAction::TvOn),
        Message::Ir(RemoteButton::Hash) => action == Some(ControlAction::TvOff),
        Message::Ir(RemoteButton::OkKey) => action == Some(
            ControlAction::Media(MediaCommand::TogglePlay),
        ),
        Message::Ir(RemoteButton::Up) => action == Some(ControlAction::Media(MediaCommand::VolumeUp)),
        Message::Ir(RemoteButton::Down) => action == Some(
            ControlAction::Media(MediaCommand::VolumeDown),
        ),
        Message::Ir(RemoteButton::Left) => action == Some(
            ControlAction::Media(MediaCommand::Seek { seconds: SEEK_BACK_SECONDS }),
        ),
        Message::Ir(RemoteButton::Right) => action == Some(
            ControlAction::Media(MediaCommand::Seek { seconds: SEEK_FORWARD_SECONDS }),
        ),
        _ => action is None,
    }
}

/// The action that the event loop takes for a message that no window handled.
pub fn route_message(msg: &Message) -> (action: Option<ControlAction>)
    ensures
        routes_to(*msg, action),
{
    match msg {
        Message::Disk(DiskReaderEvent::Inserted(_)) => Some(
            ControlAction::Media(
                MediaCommand::StartMedia { path: String::from_str("dvdsimple:///dev/sr0") },
            ),
        ),
        Message::Ir(RemoteButton::Star) => Some(ControlAction::TvOn),
        Message::Ir(RemoteButton::Hash) => Some(ControlAction::TvOff),
        Message::Ir(RemoteButton::OkKey) => Some(ControlAction::Media(MediaCommand::TogglePlay)),
        Message::Ir(RemoteButton::Up) => Some(ControlAction::Media(MediaCommand::VolumeUp)),
        Message::Ir(RemoteButton::Down) => Some(ControlAction::Media(MediaCommand::VolumeDown)),
        Message::Ir(RemoteButton::Left) => Some(
            ControlAction::Media(MediaCommand::Seek { seconds: SEEK_BACK_SECONDS }),
        ),
        Message::Ir(RemoteButton::Right) => Some(
            ControlAction::Media(MediaCommand::Seek { seconds: SEEK_FORWARD_SECONDS }),
        ),
        _ => None,
    }
}

/// Where on the monitor a window is placed.
#[derive(Clone, Copy, Debug, PartialEq, Eq, Structural)]
pub enum WindowPos {
    Center,
    TopLeft,
    Top,
    TopRight,
    Right,
    BottomRight,
    Bottom,
    BottomLeft,
    Left,
}

/// The outer position of a window of size `ww` by `wh` on a monitor of size `mw` by
/// `mh`, computed over the integers (the `/` rounds down).
pub open spec fn placement(pos: WindowPos, mw: u32, mh: u32, ww: u32, wh: u32) -> (int, int) {
    match pos {
        WindowPos::Center => (mw / 2 - ww / 2, mh / 2 - wh / 2),
        WindowPos::TopLeft => (0int, 0int),
        WindowPos::Top => ((mw / 2) as int, 0int),
        WindowPos::TopRight => (mw - ww, 0int),
        WindowPos::Right => (mw - ww, (mh / 2) as int),
        WindowPos::BottomRight => (mw - ww, mh - wh),
        WindowPos::Bottom => (mw / 2 - ww / 2, mh - wh),
        WindowPos::BottomLeft => (0int, mh - wh),
        WindowPos::Left => (0int, (mh / 2) as int),
    }
}

/// Whether the placement needs no negative coordinate (the subtractions of `u32`
/// do not underflow).
pub open spec fn placement_fits(pos: WindowPos, mw: u32, mh: u32, ww: u32, wh: u32) -> bool {
    placement(pos, mw, mh, ww, wh).0 >= 0 && placement(pos, mw, mh, ww, wh).1 >= 0
}

/// Whether a window of size `ww` by `wh` can be placed at `pos` on a monitor of size `mw`
/// by `mh`.
pub fn window_fits(pos: WindowPos, mw: u32, mh: u32, ww: u32, wh: u32) -> (fits: bool)
    ensures
        fits == placement_fits(pos, mw, mh, ww, wh),
{
    match pos {
        WindowPos::Center => mw / 2 >= ww / 2 && mh / 2 >= wh / 2,
        WindowPos::TopLeft | WindowPos::Top | WindowPos::Left => true,
        WindowPos::TopRight | WindowPos::Right => mw >= ww,
        WindowPos::BottomRight => mw >= ww && mh >= wh,
        WindowPos::Bottom => mw / 2 >= ww / 2 && mh >= wh,
        WindowPos::BottomLeft => mh >= wh,
    }
}

/// The outer position of a window of size `ww` by `wh` placed at `pos` on a monitor of
/// size `mw` by `mh`.
pub fn window_position(pos: WindowPos, mw: u32, mh: u32, ww: u32, wh: u32) -> (xy: (u32, u32))
    requires
        placement_fits(pos, mw, mh, ww, wh),
    ensures
        xy.0 == placement(pos, mw, mh, ww, wh).0,
        xy.1 == placement(pos, mw, mh, ww, wh).1,
{
    match pos {
        WindowPos::Center => (mw / 2 - ww / 2, mh / 2 - wh / 2),
        WindowPos::TopLeft => (0, 0),
        WindowPos::Top => (mw / 2, 0),
        WindowPos::TopRight => (mw - ww, 0),
        WindowPos::Right => (mw - ww, mh / 2),
        WindowPos::BottomRight => (mw - ww, mh - wh),
        WindowPos::Bottom => (mw / 2 - ww / 2, mh - wh),
        WindowPos::BottomLeft => (0, mh - wh),
        WindowPos::Left => (0, mh / 2),
    }
}

/// Each button prints in a message as `Ir(` and the name of its variant and `)`: `Up`
/// as `Ir(Up)`, `Down` as `Ir(Down)`, `OkKey` as `Ir(Ok)`, and `Number(n)` with the
/// digits of `n`. The messages without a payload to escape print as the program prints
/// them too: `None`, `Disk(Ejected)`, `Disk(Inserted(Dvd))`, `PromptChosen(true)`,
/// `PromptChosen(false)`, `DiskMetadata(None)`.
pub proof fn lemma_button_messages_print_their_names(n: u32)
    ensures
        message_debug(MessageView::Ir(RemoteButton::Left)) == "Ir(Left)"@,
        message_debug(MessageView::Ir(RemoteButton::Up)) == "Ir(Up)"@,
        message_debug(MessageView::Ir(RemoteButton::Right)) == "Ir(Right)"@,
        message_debug(MessageView::Ir(RemoteButton::Down)) == "Ir(Down)"@,
        message_debug(MessageView::Ir(RemoteButton::Hash)) == "Ir(Hash)"@,
        message_debug(MessageView::Ir(RemoteButton::Star)) == "Ir(Star)"@,
        message_debug(MessageView::Ir(RemoteButton::OkKey)) == "Ir(Ok)"@,
        message_debug(MessageView::Nothing) == "None"@,
        message_debug(MessageView::Disk(DiskReaderEvent::Ejected)) == "Disk(Ejected)"@,
        message_debug(MessageView::Disk(DiskReaderEvent::Inserted(DiskType::Dvd)))
            == "Disk(Inserted(Dvd))"@,
        message_debug(MessageView::PromptChosen(true)) == "PromptChosen(true)"@,
        message_debug(MessageView::PromptChosen(false)) == "PromptChosen(false)"@,
        message_debug(MessageView::DiskMetadata(None)) == "DiskMetadata(None)"@,
        message_debug(MessageView::Ir(RemoteButton::Number(n))) == "Ir(Number("@ + decimal_chars(
            n as nat,
        ) + "))"@,
{
    reveal_strlit("Ir(");
    reveal_strlit(")");
    reveal_strlit("Number(");
    reveal_strlit("Ir(Number(");
    reveal_strlit("))");
    reveal_strlit("Left");
    reveal_strlit("Ir(Left)");
    assert(message_debug(MessageView::Ir(RemoteButton::Left)) =~= "Ir(Left)"@);
    reveal_strlit("Up");
    reveal_strlit("Ir(Up)");
    assert(message_debug(MessageView::Ir(RemoteButton::Up)) =~= "Ir(Up)"@);
    reveal_strlit("Right");
    reveal_strlit("Ir(Right)");
    assert(message_debug(MessageView::Ir(RemoteButton::Right)) =~= "Ir(Right)"@);
    reveal_strlit("Down");
    reveal_strlit("Ir(Down)");
    assert(message_debug(MessageView::Ir(RemoteButton::Down)) =~= "Ir(Down)"@);
    reveal_strlit("Hash");
    reveal_strlit("Ir(Hash)");
    assert(message_debug(MessageView::Ir(RemoteButton::Hash)) =~= "Ir(Hash)"@);
    reveal_strlit("Star");
    reveal_strlit("Ir(Star)");
    assert(message_debug(MessageView::Ir(RemoteButton::Star)) =~= "Ir(Star)"@);
    reveal_strlit("Ok");
    reveal_strlit("Ir(Ok)");
    assert(message_debug(MessageView::Ir(RemoteButton::OkKey)) =~= "Ir(Ok)"@);
    reveal_strlit("None");
    reveal_strlit("Disk(");
    reveal_strlit("Ejected");
    reveal_strlit("Disk(Ejected)");
    assert(message_debug(MessageView::Disk(DiskReaderEvent::Ejected)) =~= "Disk(Ejected)"@);
    reveal_strlit("Inserted(Dvd)");
    reveal_strlit("Disk(Inserted(Dvd))");
    assert(message_debug(MessageView::Disk(DiskReaderEvent::Inserted(DiskType::Dvd)))
        =~= "Disk(Inserted(Dvd))"@);
    reveal_strlit("PromptChosen(");
    reveal_strlit("true");
    reveal_strlit("false");
    reveal_strlit("PromptChosen(true)");
    reveal_strlit("PromptChosen(false)");
    assert(message_debug(MessageView::PromptChosen(true)) =~= "PromptChosen(true)"@);
    assert(message_debug(MessageView::PromptChosen(false)) =~= "PromptChosen(false)"@);
    let d = decimal_chars(n as nat);
    assert("Ir(Number("@ =~= "Ir("@ + "Number("@);
    assert("))"@ =~= ")"@ + ")"@);
    assert("Ir("@ + ("Number("@ + d + ")"@) + ")"@ =~= ("Ir("@ + "Number("@) + d + (")"@
        + ")"@));
}

} // verus!
