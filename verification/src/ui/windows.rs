use vstd::prelude::*;
use crate::cd::metadata_view;
use crate::controller::Message;
use crate::ui::debug_console::DebugLog;
use crate::ui::lyrics_app::LyricsState;
use crate::ui::prompt_window::{PromptState, prompt_step};
use crate::ui::welcome_window::{welcome_visibility, welcome_visibility_after};

verus! {

/// The state of one on-screen window, as far as messages change it.
pub enum WindowModel {
    Debug(DebugLog),
    Welcome,
    Prompt(PromptState),
    Lyrics(LyricsState),
}

/// What a window does with a message.
#[derive(PartialEq, Eq, Structural)]
pub struct WindowReaction {
    /// Whether the window took the message (the windows after it do not see it then).
    pub handled: bool,
    /// Whether to show (`Some(true)`) or hide (`Some(false)`) the window.
    pub visible: Option<bool>,
    /// The answer to send back as `Message::PromptChosen`.
    pub chosen: Option<bool>,
    /// Whether new disc metadata came, so that the cover is loaded and the window redrawn.
    pub refresh: bool,
}

/// Whether a window went from `before` to `after` with reaction `r` on `msg`, as each
/// kind of window does it.
pub open spec fn window_step(before: WindowModel, after: WindowModel, msg: Message, r: WindowReaction) -> bool {
    match before {
        WindowModel::Debug(log) => after matches WindowModel::Debug(log2) && log2.entries()
            == log.entries().push(msg@) && r == (WindowReaction {
            handled: false,
            visible: None,
            chosen: None,
            refresh: false,
        }),
        WindowModel::Welcome => after is Welcome && r == (WindowReaction {
            handled: false,
            visible: welcome_visibility_after(msg),
            chosen: None,
            refresh: false,
        }),
        WindowModel::Prompt(p) => after matches WindowModel::Prompt(p2) && p2@ == prompt_step(
            p@,
            msg@,
        ).0 && r == (WindowReaction {
            handled: prompt_step(p@, msg@).1.handled,
            visible: prompt_step(p@, msg@).1.visible,
            chosen: prompt_step(p@, msg@).1.chosen,
            refresh: false,
        }),
        WindowModel::Lyrics(l) => after matches WindowModel::Lyrics(l2) && l2.current_track
            == l.current_track && r.handled == false && r.chosen is None && r.refresh == (
        msg@ is DiskMetadata) && (r.refresh ==> metadata_view(l2.disc_meta)
            == msg@->DiskMetadata_0 && r.visible == Some(true)) && (!r.refresh ==> metadata_view(
            l2.disc_meta,
        ) == metadata_view(l.disc_meta) && r.visible is None),
    }
}

impl WindowModel {
    /// Offers a message to this window.
    pub fn on_message(&mut self, message: &Message) -> (reaction: WindowReaction)
        ensures
            window_step(*old(self), *final(self), *message, reaction),
    {
        match self {
            WindowModel::Debug(log) => {
                let handled = log.on_message(message);
                WindowReaction { handled, visible: None, chosen: None, refresh: false }
            },
            WindowModel::Welcome => WindowReaction {
                handled: false,
                visible: welcome_visibility(message),
                chosen: None,
                refresh: false,
            },
            WindowModel::Prompt(p) => {
                let r = p.on_message(message);
                WindowReaction { handled: r.handled, visible: r.visible, chosen: r.chosen, refresh: false }
            },
            WindowModel::Lyrics(l) => {
                let refresh = l.on_message(message);
                WindowReaction {
                    handled: false,
                    visible: if refresh {
                        Some(true)
                    } else {
                        None
                    },
                    chosen: None,
                    refresh,
                }
            },
        }
    }
}

/// Offers a message to the windows in order, until one takes it. The result holds the
/// reaction of each window that saw the message, in order: all but the last did not take
/// it, and where windows were left out, the last one did. The windows that saw the
/// message changed as each kind does; the others are unchanged.
pub fn offer_message(windows: &mut Vec<WindowModel>, message: &Message) -> (reactions: Vec<WindowReaction>)
    ensures
        final(windows)@.len() == old(windows)@.len(),
        reactions@.len() <= old(windows)@.len(),
        forall|j: int|
            0 <= j < reactions@.len() ==> window_step(
                old(windows)@[j],
                final(windows)@[j],
                *message,
                #[trigger] reactions@[j],
            ),
        forall|j: int| 0 <= j < reactions@.len() - 1 ==> !(#[trigger] reactions@[j]).handled,
        reactions@.len() < old(windows)@.len() ==> reactions@.len() > 0
            && reactions@[reactions@.len() - 1].handled,
        forall|j: int|
            reactions@.len() <= j < old(windows)@.len() ==> #[trigger] final(windows)@[j]
                == old(windows)@[j],
{
    let ghost start = windows@;
    let n = windows.len();
    let mut reactions: Vec<WindowReaction> = Vec::new();
    let mut i: usize = 0;
    while i < n
        invariant
            n == start.len(),
            start == old(windows)@,
            windows@.len() == n,
            i <= n,
            reactions@.len() == i,
            forall|j: int|
                0 <= j < i ==> window_step(start[j], windows@[j], *message, #[trigger] reactions@[j]),
            forall|j: int| 0 <= j < i ==> !(#[trigger] reactions@[j]).handled,
            forall|j: int| i <= j < n ==> #[trigger] windows@[j] == start[j],
        decreases n - i,
    {
        let mut w = windows.remove(i);
        let r = w.on_message(message);
        windows.insert(i, w);
        let handled = r.handled;
        let ghost before = reactions@;
        reactions.push(r);
        i = i + 1;
        assert forall|j: int| 0 <= j < i implies window_step(
            start[j],
            windows@[j],
            *message,
            #[trigger] reactions@[j],
        ) by {
            if j < i - 1 {
                assert(reactions@[j] == before[j]);
            }
        }
        if handled {
            return reactions;
        }
    }
    reactions
}

} // verus!
