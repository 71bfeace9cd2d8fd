use vstd::prelude::*;

use crate::playlist::{PlayerState, PlayerView};

verus! {

/// What a request to play asks of the audio output.
pub enum PlayStart {
    /// A playback loop is already running: the output only resumes.
    Resume,
    /// A new playback loop starts under this identifier: queue the current
    /// song and start the output.
    Start { play_counter: usize },
}

/// What one period of a running playback loop asks of the audio output.
pub enum TickAction {
    /// The loop ends: clear the output and call `finish_playback`.
    Stop,
    /// Nothing to do until the next period.
    Wait,
    /// Append this song to the output; the position has moved onto it.
    Enqueue { song: String },
}

/// The state after a request to play.
pub open spec fn play_spec(s: PlayerView) -> PlayerView {
    if s.stopped {
        PlayerView { stopped: false, requested_counter: s.requested_counter + 1, ..s }
    } else {
        s
    }
}

/// True when a loop with identifier `play_counter` is told to end: the
/// bitwise complement of the requested identifier equals `play_counter`.
pub open spec fn tick_stops(requested: usize, play_counter: usize) -> bool {
    !requested == play_counter
}

/// The owner of the output once a loop with identifier `play_counter` has
/// claimed it: an unowned output (0) is taken over.
pub open spec fn tick_owner(playing: nat, play_counter: nat) -> nat {
    if playing == 0 { play_counter } else { playing }
}

/// True when the loop owns the output and at most one song is left in it,
/// so that the next song of the queue is due.
pub open spec fn tick_wants_next(s: PlayerView, play_counter: nat, queued: nat) -> bool {
    tick_owner(s.playing_counter, play_counter) == play_counter && queued <= 1
}

/// The inputs on which a period of the loop would overflow the position.
pub open spec fn tick_overflows(s: PlayerState, play_counter: usize, queued: usize) -> bool {
    &&& !tick_stops(s.requested_playing_counter, play_counter)
    &&& tick_wants_next(s@, play_counter as nat, queued as nat)
    &&& s.current_playlist_idx == usize::MAX
}

/// True when the period advances the position onto the next song.
pub open spec fn tick_advances(s: PlayerView, play_counter: nat, queued: nat) -> bool {
    tick_wants_next(s, play_counter, queued) && s.idx + 1 < s.playlist.len()
}

/// The state after one period of a loop that did not stop.
pub open spec fn tick_spec(s: PlayerView, play_counter: nat, queued: nat) -> PlayerView {
    let owned = PlayerView { playing_counter: tick_owner(s.playing_counter, play_counter), ..s };
    if tick_advances(s, play_counter, queued) {
        PlayerView { idx: s.idx + 1, ..owned }
    } else {
        owned
    }
}

/// The state once a loop has ended: the output belongs to the most recently
/// requested loop.
pub open spec fn finish_spec(s: PlayerView) -> PlayerView {
    PlayerView { playing_counter: s.requested_counter, ..s }
}

/// The state once the output device has been replaced: no loop owns the
/// output and the identifiers start again from 0.
pub open spec fn device_reset_spec(s: PlayerView) -> PlayerView {
    PlayerView { playing_counter: 0, requested_counter: 0, ..s }
}

impl PlayerState {
    /// Handles a request to play. A running player only resumes; a stopped
    /// one starts a new playback loop under the next identifier.
    pub fn play_current_idx(&mut self) -> (r: PlayStart)
        requires
            old(self).stopped ==> old(self).requested_playing_counter < usize::MAX,
        ensures
            final(self)@ == play_spec(old(self)@),
            !old(self)@.stopped ==> r is Resume,
            old(self)@.stopped ==> r == (PlayStart::Start {
                play_counter: (old(self).requested_playing_counter + 1) as usize,
            }),
    {
        if !self.stopped {
            return PlayStart::Resume;
        }
        self.stopped = false;
        let play_counter = self.requested_playing_counter + 1;
        self.requested_playing_counter = play_counter;
        PlayStart::Start { play_counter }
    }

    /// One period of the playback loop with identifier `play_counter`, given
    /// how many songs the output still holds (`queued`).
    pub fn playback_tick(&mut self, play_counter: usize, queued: usize) -> (r: TickAction)
        requires
            !tick_overflows(*old(self), play_counter, queued),
        ensures
            tick_stops(old(self).requested_playing_counter, play_counter) ==> {
                &&& r is Stop
                &&& final(self)@ == old(self)@
            },
            !tick_stops(old(self).requested_playing_counter, play_counter) ==> {
                &&& final(self)@ == tick_spec(old(self)@, play_counter as nat, queued as nat)
                &&& match r {
                    TickAction::Enqueue { song } => {
                        &&& tick_advances(old(self)@, play_counter as nat, queued as nat)
                        &&& song@ == final(self)@.playlist[final(self)@.idx as int]
                    },
                    TickAction::Wait => !tick_advances(old(self)@, play_counter as nat, queued as nat),
                    TickAction::Stop => false,
                }
            },
    {
        if !self.requested_playing_counter == play_counter {
            return TickAction::Stop;
        }
        if self.current_playing_counter == 0 {
            self.current_playing_counter = play_counter;
        }
        if self.current_playing_counter == play_counter {
            if queued <= 1 {
                if self.current_playlist_idx + 1 < self.current_playlist.len() {
                    self.current_playlist_idx = self.current_playlist_idx + 1;
                    let song = self.current_playlist[self.current_playlist_idx].clone();
                    return TickAction::Enqueue { song };
                }
            }
        }
        TickAction::Wait
    }

    /// Whether a period of the loop with identifier `play_counter` would
    /// overflow the position: a caller must not run such a period.
    pub fn playback_tick_overflows(&self, play_counter: usize, queued: usize) -> (r: bool)
        ensures
            r == tick_overflows(*self, play_counter, queued),
    {
        let owner = if self.current_playing_counter == 0 {
            play_counter
        } else {
            self.current_playing_counter
        };
        !(!self.requested_playing_counter == play_counter) && owner == play_counter && queued <= 1
            && self.current_playlist_idx == usize::MAX
    }

    /// Records that a playback loop has ended.
    pub fn finish_playback(&mut self)
        ensures
            final(self)@ == finish_spec(old(self)@),
    {
        self.current_playing_counter = self.requested_playing_counter;
    }

    /// Records that the output device was replaced.
    pub fn reset_for_device_switch(&mut self)
        ensures
            final(self)@ == device_reset_spec(old(self)@),
    {
        self.current_playing_counter = 0;
        self.requested_playing_counter = 0;
    }
}

} // verus!
