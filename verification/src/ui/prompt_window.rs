use vstd::prelude::*;
use crate::controller::{Message, MessageView};
use crate::ir_remote_monitor::RemoteButton;

verus! {

/// The state of the yes/no prompt window: the text asked, and the answer chosen so far
/// (0 for yes, 1 for no, -1 for none).
pub struct PromptState {
    pub choice: i32,
    pub prompt: String,
}

/// The contents of a `PromptState`.
pub struct PromptView {
    pub choice: i32,
    pub prompt: Seq<char>,
}

impl View for PromptState {
    type V = PromptView;

    open spec fn view(&self) -> PromptView {
        PromptView { choice: self.choice, prompt: self.prompt@ }
    }
}

/// What the prompt window does with a message.
#[derive(PartialEq, Eq, Structural)]
pub struct PromptReaction {
    /// Whether the window took the message (no other window sees it then).
    pub handled: bool,
    /// Whether to show (`Some(true)`) or hide (`Some(false)`) the window.
    pub visible: Option<bool>,
    /// The answer to send back to the event loop, as `Message::PromptChosen`.
    pub chosen: Option<bool>,
}

/// The prompt window's state and reaction after a message: a new prompt is stored and
/// shown; left chooses yes, right chooses no; OK answers whether yes is chosen and hides
/// the window; nothing else is taken.
pub open spec fn prompt_step(s: PromptView, msg: MessageView) -> (PromptView, PromptReaction) {
    let ignore = PromptReaction { handled: false, visible: None, chosen: None };
    match msg {
        MessageView::SetPrompt { prompt } => (
            PromptView { choice: s.choice, prompt },
            PromptReaction { handled: true, visible: Some(true), chosen: None },
        ),
        MessageView::Ir(RemoteButton::Left) => (
            PromptView { choice: 0, prompt: s.prompt },
            PromptReaction { handled: true, visible: None, chosen: None },
        ),
        MessageView::Ir(RemoteButton::Right) => (
            PromptView { choice: 1, prompt: s.prompt },
            PromptReaction { handled: true, visible: None, chosen: None },
        ),
        MessageView::Ir(RemoteButton::OkKey) => (
            s,
            PromptReaction { handled: true, visible: Some(false), chosen: Some(s.choice == 0) },
        ),
        _ => (s, ignore),
    }
}

impl PromptState {
    /// The prompt window as it is created: no text and no choice.
    pub fn new() -> (s: PromptState)
        ensures
            s@ == (PromptView { choice: -1i32, prompt: Seq::<char>::empty() }),
    {
        PromptState { choice: -1, prompt: String::new() }
    }

    /// Takes a message sent to the windows.
    pub fn on_message(&mut self, message: &Message) -> (reaction: PromptReaction)
        ensures
            (final(self)@, reaction) == prompt_step(old(self)@, message@),
    {
        match message {
            Message::SetPrompt { prompt } => {
                self.prompt = prompt.clone();
                PromptReaction { handled: true, visible: Some(true), chosen: None }
            },
            Message::Ir(RemoteButton::Left) => {
                self.choice = 0;
                PromptReaction { handled: true, visible: None, chosen: None }
            },
            Message::Ir(RemoteButton::Right) => {
                self.choice = 1;
                PromptReaction { handled: true, visible: None, chosen: None }
            },
            Message::Ir(RemoteButton::OkKey) => PromptReaction {
                handled: true,
                visible: Some(false),
                chosen: Some(self.choice == 0),
            },
            _ => PromptReaction { handled: false, visible: None, chosen: None },
        }
    }
}

/// The answer to a prompt after the left button and then OK is yes, whatever came before.
pub proof fn lemma_left_then_ok_answers_yes(s: PromptView)
    ensures
        ({
            let after_left = prompt_step(s, MessageView::Ir(RemoteButton::Left)).0;
            prompt_step(after_left, MessageView::Ir(RemoteButton::OkKey)).1.chosen == Some(true)
        }),
{
}

/// The answer to a prompt after the right button and then OK is no, whatever came before.
pub proof fn lemma_right_then_ok_answers_no(s: PromptView)
    ensures
        ({
            let after_right = prompt_step(s, MessageView::Ir(RemoteButton::Right)).0;
            prompt_step(after_right, MessageView::Ir(RemoteButton::OkKey)).1.chosen == Some(false)
        }),
{
}

/// A new prompt text keeps the choice already made, and OK leaves the state as it is.
pub proof fn lemma_prompt_text_and_ok_keep_choice(s: PromptView, text: Seq<char>)
    ensures
        prompt_step(s, MessageView::SetPrompt { prompt: text }).0.choice == s.choice,
        prompt_step(s, MessageView::Ir(RemoteButton::OkKey)).0 == s,
{
}

/// The prompt window's state after the messages, in order.
pub open spec fn prompt_run(s: PromptView, msgs: Seq<MessageView>) -> PromptView
    decreases msgs.len(),
{
    if msgs.len() == 0 {
        s
    } else {
        prompt_step(prompt_run(s, msgs.drop_last()), msgs.last()).0
    }
}

/// The latest choice among the messages: `Some(true)` where the left button (yes) came
/// last, `Some(false)` where the right button (no) did, `None` where neither came.
pub open spec fn last_selection(msgs: Seq<MessageView>) -> Option<bool>
    decreases msgs.len(),
{
    if msgs.len() == 0 {
        None
    } else {
        match msgs.last() {
            MessageView::Ir(RemoteButton::Left) => Some(true),
            MessageView::Ir(RemoteButton::Right) => Some(false),
            _ => last_selection(msgs.drop_last()),
        }
    }
}

/// The choice that a selection leaves: 0 for yes, 1 for no, `none` where there is none.
pub open spec fn choice_after(selection: Option<bool>, none: i32) -> i32 {
    match selection {
        Some(true) => 0,
        Some(false) => 1,
        None => none,
    }
}

/// Over any messages, the prompt's choice is that of the latest left or right button
/// (the choice it started with where there was none), and OK then answers yes exactly
/// when the left button came last.
pub proof fn lemma_prompt_follows_latest_selection(s: PromptView, msgs: Seq<MessageView>)
    ensures
        prompt_run(s, msgs).choice == choice_after(last_selection(msgs), s.choice),
        prompt_step(prompt_run(s, msgs), MessageView::Ir(RemoteButton::OkKey)).1.chosen == Some(
            choice_after(last_selection(msgs), s.choice) == 0,
        ),
    decreases msgs.len(),
{
    if msgs.len() > 0 {
        lemma_prompt_follows_latest_selection(s, msgs.drop_last());
    }
}

/// From a new prompt window, the choice is always -1, 0 or 1, and OK answers yes exactly
/// when the latest left or right button was left.
pub proof fn lemma_new_prompt_choice(msgs: Seq<MessageView>)
    ensures
        ({
            let s = PromptView { choice: -1i32, prompt: Seq::<char>::empty() };
            &&& -1 <= prompt_run(s, msgs).choice <= 1
            &&& prompt_step(prompt_run(s, msgs), MessageView::Ir(RemoteButton::OkKey)).1.chosen
                == Some(last_selection(msgs) == Some(true))
        }),
{
    let s = PromptView { choice: -1i32, prompt: Seq::<char>::empty() };
    lemma_prompt_follows_latest_selection(s, msgs);
}

/// The prompt window takes its three buttons, left, right and OK, whatever its state, so
/// no other window and no route sees them; it takes a new prompt text too, and lets
/// every other message pass.
pub proof fn lemma_prompt_takes_its_buttons(s: PromptView, msg: MessageView)
    ensures
        prompt_step(s, MessageView::Ir(RemoteButton::Left)).1.handled,
        prompt_step(s, MessageView::Ir(RemoteButton::Right)).1.handled,
        prompt_step(s, MessageView::Ir(RemoteButton::OkKey)).1.handled,
        prompt_step(s, msg).1.handled <==> (msg is SetPrompt || msg == MessageView::Ir(
            RemoteButton::Left,
        ) || msg == MessageView::Ir(RemoteButton::Right) || msg == MessageView::Ir(
            RemoteButton::OkKey,
        )),
        prompt_step(s, MessageView::Ir(RemoteButton::Left)).0.choice == 0,
        prompt_step(s, MessageView::Ir(RemoteButton::Right)).0.choice == 1,
{
}

/// Only a new prompt text shows the window and only OK hides it; OK alone answers, with
/// yes exactly when yes (0) is chosen. Left and right keep the text, a new text keeps the
/// choice, and a message the prompt does not take changes nothing.
pub proof fn lemma_prompt_shows_asks_and_answers(s: PromptView, text: Seq<char>, msg: MessageView)
    ensures
        prompt_step(s, MessageView::SetPrompt { prompt: text }).0 == (PromptView {
            choice: s.choice,
            prompt: text,
        }),
        prompt_step(s, MessageView::SetPrompt { prompt: text }).1.visible == Some(true),
        prompt_step(s, MessageView::Ir(RemoteButton::OkKey)).1.visible == Some(false),
        prompt_step(s, MessageView::Ir(RemoteButton::OkKey)).1.chosen == Some(s.choice == 0),
        prompt_step(s, MessageView::Ir(RemoteButton::Left)).0.prompt == s.prompt,
        prompt_step(s, MessageView::Ir(RemoteButton::Right)).0.prompt == s.prompt,
        msg != MessageView::Ir(RemoteButton::OkKey) ==> prompt_step(s, msg).1.chosen is None,
        !(msg is SetPrompt) && msg != MessageView::Ir(RemoteButton::OkKey) ==> prompt_step(
            s,
            msg,
        ).1.visible is None,
        !prompt_step(s, msg).1.handled ==> prompt_step(s, msg).0 == s,
{
}

} // verus!
