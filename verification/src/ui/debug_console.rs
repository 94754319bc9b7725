use vstd::prelude::*;
use crate::controller::{Message, MessageView};

verus! {

/// The messages that the debug console lists, oldest first.
pub struct DebugLog {
    pub messages: Vec<Message>,
}

impl DebugLog {
    /// The contents of the log.
    pub open spec fn entries(&self) -> Seq<MessageView> {
        self.messages@.map_values(|m: Message| m@)
    }

    /// An empty log.
    pub fn new() -> (log: DebugLog)
        ensures
            log.entries() == Seq::<MessageView>::empty(),
    {
        let log = DebugLog { messages: Vec::new() };
        assert(log.entries() =~= Seq::<MessageView>::empty());
        log
    }

    /// Records a message sent to the windows. The console never takes a message.
    pub fn on_message(&mut self, message: &Message) -> (handled: bool)
        ensures
            final(self).entries() == old(self).entries().push(message@),
            !handled,
    {
        self.messages.push(message.duplicate());
        assert(self.entries() =~= old(self).entries().push(message@));
        false
    }
}

} // verus!
