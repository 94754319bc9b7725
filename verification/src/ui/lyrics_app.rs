use vstd::prelude::*;
use crate::cd::{DiscMetadata, Track, metadata_view};
use crate::controller::Message;

verus! {

/// The state of the lyrics window: the disc's metadata, once known, and the track shown
/// (-1 for none).
pub struct LyricsState {
    pub disc_meta: Option<DiscMetadata>,
    pub current_track: i32,
}

impl LyricsState {
    /// The lyrics window as it is created: no metadata yet, track 4 selected.
    pub fn new() -> (s: LyricsState)
        ensures
            s.disc_meta is None,
            s.current_track == 4,
    {
        LyricsState { disc_meta: None, current_track: 4 }
    }

    /// Takes a message sent to the windows. New disc metadata replaces the old; the result
    /// says whether it came, so that the window loads the cover, shows itself and redraws.
    /// The window never takes a message.
    pub fn on_message(&mut self, message: &Message) -> (refresh: bool)
        ensures
            refresh == (message@ is DiskMetadata),
            refresh ==> metadata_view(final(self).disc_meta) == message@->DiskMetadata_0,
            !refresh ==> metadata_view(final(self).disc_meta) == metadata_view(old(self).disc_meta),
            final(self).current_track == old(self).current_track,
    {
        match message {
            Message::DiskMetadata(meta) => {
                self.disc_meta = match meta {
                    Some(m) => Some(m.duplicate()),
                    None => None,
                };
                true
            },
            _ => false,
        }
    }

    /// Whether the selected track can be shown: there is no metadata, no track is
    /// selected, or the selected track is one of the disc's.
    pub open spec fn selection_valid(&self) -> bool {
        match self.disc_meta {
            Some(m) => self.current_track == -1 || (0 <= self.current_track
                < m.tracks@.len()),
            None => true,
        }
    }

    /// Whether the selected track can be shown.
    pub fn selection_ok(&self) -> (ok: bool)
        ensures
            ok == self.selection_valid(),
    {
        match &self.disc_meta {
            Some(m) => self.current_track == -1 || (0 <= self.current_track
                && (self.current_track as usize) < m.tracks.len()),
            None => true,
        }
    }

    /// The track whose lyrics are drawn: none without metadata or without a selection.
    pub fn displayed_track(&self) -> (track: Option<&Track>)
        requires
            self.selection_valid(),
        ensures
            match self.disc_meta {
                Some(m) => if self.current_track == -1 {
                    track is None
                } else {
                    track == Some(&m.tracks@[self.current_track as int])
                },
                None => track is None,
            },
    {
        match &self.disc_meta {
            Some(meta) => {
                if self.current_track == -1 {
                    None
                } else {
                    Some(&meta.tracks[self.current_track as usize])
                }
            },
            None => None,
        }
    }
}

/// Without disc metadata every selection is valid, whatever track is selected: the window
/// then draws nothing. With metadata, a selection is valid exactly when it is none (-1)
/// or the index of one of the disc's tracks.
pub proof fn lemma_selection_needs_metadata_to_fail(s: LyricsState)
    ensures
        s.disc_meta is None ==> s.selection_valid(),
        s.disc_meta is Some ==> (s.selection_valid() <==> (s.current_track == -1 || (0
            <= s.current_track < s.disc_meta->Some_0.tracks@.len()))),
{
}

} // verus!
