use vstd::prelude::*;
use crate::controller::Message;
use crate::dvd_monitor::{DiskReaderEvent, DiskType};

verus! {

/// Whether the welcome window ("insert a CD or DVD") is to be shown after a message:
/// hidden when a disc is inserted, shown when it is ejected, unchanged otherwise. The
/// window never takes a message, so the others see it too.
pub open spec fn welcome_visibility_after(msg: Message) -> Option<bool> {
    match msg {
        Message::Disk(DiskReaderEvent::Inserted(_)) => Some(false),
        Message::Disk(DiskReaderEvent::Ejected) => Some(true),
        _ => None,
    }
}

/// Whether to show (`Some(true)`) or hide (`Some(false)`) the welcome window after a
/// message.
pub fn welcome_visibility(message: &Message) -> (visible: Option<bool>)
    ensures
        visible == welcome_visibility_after(*message),
{
    match message {
        Message::Disk(DiskReaderEvent::Inserted(_)) => Some(false),
        Message::Disk(DiskReaderEvent::Ejected) => Some(true),
        _ => None,
    }
}

/// Inserting a disc of any type hides the welcome window, and ejecting it shows the
/// window again; a message that is no disc event leaves it as it is.
pub proof fn lemma_welcome_hidden_while_a_disc_is_in(t: DiskType, msg: Message)
    ensures
        welcome_visibility_after(Message::Disk(DiskReaderEvent::Inserted(t))) == Some(false),
        welcome_visibility_after(Message::Disk(DiskReaderEvent::Ejected)) == Some(true),
        !(msg is Disk) ==> welcome_visibility_after(msg) is None,
{
}

} // verus!
