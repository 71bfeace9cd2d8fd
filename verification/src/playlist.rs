use vstd::prelude::*;

verus! {

/// Mathematical model of the player's bookkeeping.
pub struct PlayerView {
    /// The queued song paths, in play order.
    pub playlist: Seq<Seq<char>>,
    /// Index of the song that plays (or would play) now.
    pub idx: nat,
    /// Identifier of the playback loop that owns the output, 0 for none.
    pub playing_counter: nat,
    /// Identifier handed to the most recently started playback loop.
    pub requested_counter: nat,
    /// True while no playback loop has been started since the last stop.
    pub stopped: bool,
}

/// The player's bookkeeping: the queue of song paths, the position in it,
/// and the counters that tell concurrent playback loops apart.
pub struct PlayerState {
    pub current_playlist: Vec<String>,
    pub current_playlist_idx: usize,
    pub current_playing_counter: usize,
    pub requested_playing_counter: usize,
    pub stopped: bool,
}

impl View for PlayerState {
    type V = PlayerView;

    open spec fn view(&self) -> PlayerView {
        PlayerView {
            playlist: self.current_playlist.deep_view(),
            idx: self.current_playlist_idx as nat,
            playing_counter: self.current_playing_counter as nat,
            requested_counter: self.requested_playing_counter as nat,
            stopped: self.stopped,
        }
    }
}

/// The state in which the player starts: nothing queued, nothing playing.
pub open spec fn initial_player() -> PlayerView {
    PlayerView {
        playlist: Seq::empty(),
        idx: 0,
        playing_counter: 0,
        requested_counter: 0,
        stopped: true,
    }
}

/// Replacing the queue rewinds the position to its start.
pub open spec fn load_playlist_spec(s: PlayerView, p: Seq<Seq<char>>) -> PlayerView {
    PlayerView { playlist: p, idx: 0, ..s }
}

/// The position moves only to an index beyond the queue's length.
pub open spec fn set_playlist_idx_spec(s: PlayerView, new_idx: nat) -> PlayerView {
    if s.playlist.len() < new_idx {
        PlayerView { idx: new_idx, ..s }
    } else {
        s
    }
}

/// The song at the current position, if the position is inside the queue.
pub open spec fn current_song_spec(s: PlayerView) -> Option<Seq<char>> {
    if s.idx < s.playlist.len() {
        Some(s.playlist[s.idx as int])
    } else {
        None
    }
}

/// The message given when the position is outside the queue.
pub open spec fn invalid_index_message() -> Seq<char> {
    "Invalid index for playlist"@
}

impl PlayerState {
    /// A player with an empty queue that is stopped.
    pub fn new() -> (s: PlayerState)
        ensures
            s@ == initial_player(),
    {
        let s = PlayerState {
            current_playlist: Vec::new(),
            current_playlist_idx: 0,
            current_playing_counter: 0,
            requested_playing_counter: 0,
            stopped: true,
        };
        assert(s@.playlist =~= Seq::<Seq<char>>::empty());
        s
    }

    /// Replaces the queue and rewinds to its first song.
    pub fn load_playlist(&mut self, new_playlist: Vec<String>)
        ensures
            final(self)@ == load_playlist_spec(old(self)@, new_playlist.deep_view()),
    {
        self.current_playlist = new_playlist;
        self.current_playlist_idx = 0;
    }

    /// Moves the position to `new_idx`, which happens only when `new_idx`
    /// exceeds the queue's length; otherwise nothing changes.
    pub fn set_playlist_idx(&mut self, new_idx: usize)
        ensures
            final(self)@ == set_playlist_idx_spec(old(self)@, new_idx as nat),
    {
        if self.current_playlist.len() < new_idx {
            self.current_playlist_idx = new_idx;
        }
    }

    /// The path of the song at the current position.
    pub fn get_current_song(&self) -> (res: Result<String, String>)
        ensures
            match res {
                Ok(song) => current_song_spec(self@) == Some(song@),
                Err(msg) => current_song_spec(self@) is None && msg@ == invalid_index_message()
                    && msg@ == "Invalid index for playlist"@,
            },
    {
        if self.current_playlist_idx < self.current_playlist.len() {
            Ok(self.current_playlist[self.current_playlist_idx].clone())
        } else {
            Err("Invalid index for playlist".to_owned())
        }
    }
}

} // verus!
