use vstd::prelude::*;

use crate::devices::is_selection;
use crate::play::{device_reset_spec, finish_spec, play_spec, tick_advances, tick_spec, tick_stops};
use crate::playlist::{current_song_spec, load_playlist_spec, set_playlist_idx_spec, PlayerView};
use crate::scan::{
    scan_accepts, scan_start_spec, scan_step_spec, scan_wf, AlbumJson, DiscJson, ScanActionView, ScanEvent, ScanStage, ScanView, TrackJson,
};

verus! {

/// After a new queue is loaded, the current song is the queue's first song,
/// and there is none when the queue is empty.
pub proof fn law_load_then_current_song(s: PlayerView, p: Seq<Seq<char>>)
    ensures
        current_song_spec(load_playlist_spec(s, p)) == (if p.len() > 0 {
            Some(p[0])
        } else {
            None::<Seq<char>>
        }),
{
}

/// Setting the position either leaves the player as it was or moves the
/// position past the end of the queue, where there is no current song.
pub proof fn law_set_index_never_selects_a_song(s: PlayerView, n: nat)
    ensures
        set_playlist_idx_spec(s, n) == s || current_song_spec(set_playlist_idx_spec(s, n)) is None,
{
}

/// A request to play while playing changes nothing, so a second request
/// right after a first one only resumes.
pub proof fn law_play_twice_is_play_once(s: PlayerView)
    ensures
        !s.stopped ==> play_spec(s) == s,
        play_spec(play_spec(s)) == play_spec(s),
{
}

/// Starting playback hands out an identifier larger than every one handed
/// out before, and neither the queue nor the position moves.
pub proof fn law_start_uses_fresh_identifier(s: PlayerView)
    requires
        s.stopped,
    ensures
        play_spec(s).requested_counter == s.requested_counter + 1,
        !play_spec(s).stopped,
        play_spec(s).playlist == s.playlist,
        play_spec(s).idx == s.idx,
{
}

/// A period of the playback loop never changes the queue; when it moves the
/// position, it moves it by one onto a song that exists, and that song is
/// the next one of the queue.
pub proof fn law_advance_stays_in_queue(s: PlayerView, play_counter: nat, queued: nat)
    ensures
        tick_spec(s, play_counter, queued).playlist == s.playlist,
        tick_spec(s, play_counter, queued).requested_counter == s.requested_counter,
        tick_advances(s, play_counter, queued) ==> {
            &&& tick_spec(s, play_counter, queued).idx == s.idx + 1
            &&& current_song_spec(tick_spec(s, play_counter, queued)) == Some(s.playlist[s.idx + 1int])
        },
        !tick_advances(s, play_counter, queued) ==> tick_spec(s, play_counter, queued).idx == s.idx,
{
}

/// Once a loop owns the output, a period of any loop with another
/// identifier neither moves the position nor takes the output over.
pub proof fn law_only_owner_advances(s: PlayerView, other: nat, queued: nat)
    requires
        s.playing_counter != 0,
        other != s.playing_counter,
    ensures
        tick_spec(s, other, queued).idx == s.idx,
        tick_spec(s, other, queued).playing_counter == s.playing_counter,
{
}

/// A loop that finds the output unowned claims it in its period; from then
/// on, any other loop's period leaves both the owner and the position
/// alone, so only one loop at a time moves through the queue.
pub proof fn law_first_loop_claims_output(s: PlayerView, play_counter: nat, queued: nat, other: nat, other_queued: nat)
    requires
        s.playing_counter == 0,
        play_counter != 0,
        other != play_counter,
    ensures
        tick_spec(s, play_counter, queued).playing_counter == play_counter,
        tick_spec(tick_spec(s, play_counter, queued), other, other_queued).playing_counter == play_counter,
        tick_spec(tick_spec(s, play_counter, queued), other, other_queued).idx == tick_spec(
            s,
            play_counter,
            queued,
        ).idx,
{
    law_only_owner_advances(tick_spec(s, play_counter, queued), other, other_queued);
}

/// The queue and the position survive the end of a loop and the change of
/// output device.
pub proof fn law_queue_survives_stop_and_device_change(s: PlayerView)
    ensures
        finish_spec(s).playlist == s.playlist && finish_spec(s).idx == s.idx,
        device_reset_spec(s).playlist == s.playlist && device_reset_spec(s).idx == s.idx,
        finish_spec(s).playing_counter == finish_spec(s).requested_counter,
{
}

/// The rank of a scan: what is left of it, compared lexicographically.
pub open spec fn scan_rank(s: ScanView) -> Seq<int> {
    let albums_left = s.albums.len() - s.album_pos;
    let discs_left = s.discs.len() - s.disc_pos;
    let tracks_left = s.tracks.len() - s.track_pos;
    match s.stage {
        ScanStage::ReadingAlbum => seq![albums_left, 3, 0, 0, 0, 0],
        ScanStage::InsertingAlbum => seq![albums_left, 2, 0, 0, 0, 0],
        ScanStage::ReadingDisc => seq![albums_left, 1, discs_left, 2, 0, 0],
        ScanStage::InsertingDisc => seq![albums_left, 1, discs_left, 1, 0, 0],
        ScanStage::ReadingTrack => seq![albums_left, 1, discs_left, 0, tracks_left, 1],
        ScanStage::InsertingTrack => seq![albums_left, 1, discs_left, 0, tracks_left, 0],
        ScanStage::Finished => seq![albums_left, 0, 0, 0, 0, 0],
    }
}

/// Lexicographic order on equally long sequences of integers.
pub open spec fn lex_less(a: Seq<int>, b: Seq<int>) -> bool
    decreases a.len(),
{
    if a.len() == 0 || b.len() == 0 {
        false
    } else if a[0] < b[0] {
        true
    } else {
        a[0] == b[0] && lex_less(a.drop_first(), b.drop_first())
    }
}

/// Every step of a scan makes progress: its rank, made of non-negative
/// numbers, decreases lexicographically, and a finished scan takes no
/// more events. A scan over finitely many files therefore always ends.
pub proof fn law_scan_makes_progress(s: ScanView, e: ScanEvent)
    requires
        scan_wf(s),
        scan_accepts(s.stage, e),
    ensures
        lex_less(scan_rank(scan_step_spec(s, e).0), scan_rank(s)),
        forall|i: int| 0 <= i < 6 ==> 0 <= #[trigger] scan_rank(scan_step_spec(s, e).0)[i],
        !scan_accepts(ScanStage::Finished, e),
{
    reveal_with_fuel(lex_less, 7);
    let t = scan_step_spec(s, e).0;
    assert(scan_rank(t).len() == 6);
    assert(scan_rank(s).len() == 6);
    let a = scan_rank(t);
    let b = scan_rank(s);
    assert(a.drop_first() =~= a.subrange(1, 6));
    assert(b.drop_first() =~= b.subrange(1, 6));
    assert(a.drop_first().drop_first() =~= a.subrange(2, 6));
    assert(b.drop_first().drop_first() =~= b.subrange(2, 6));
    assert(a.drop_first().drop_first().drop_first() =~= a.subrange(3, 6));
    assert(b.drop_first().drop_first().drop_first() =~= b.subrange(3, 6));
    assert(a.subrange(3, 6).drop_first() =~= a.subrange(4, 6));
    assert(b.subrange(3, 6).drop_first() =~= b.subrange(4, 6));
    assert(a.subrange(4, 6).drop_first() =~= a.subrange(5, 6));
    assert(b.subrange(4, 6).drop_first() =~= b.subrange(5, 6));
}

/// Disc and track rows are tied to their parents: the album id changes only
/// when an album row has just been inserted (it becomes that row's id), and
/// the disc id only when a disc row has just been inserted.
pub proof fn law_scan_links_rows_to_parents(s: ScanView, e: ScanEvent)
    requires
        scan_wf(s),
        scan_accepts(s.stage, e),
    ensures
        scan_step_spec(s, e).0.album_id == (match e {
            ScanEvent::Inserted(id) => if s.stage == ScanStage::InsertingAlbum {
                id as int
            } else {
                s.album_id
            },
            _ => s.album_id,
        }),
        scan_step_spec(s, e).0.disc_id == (match e {
            ScanEvent::Inserted(id) => if s.stage == ScanStage::InsertingDisc {
                id as int
            } else {
                s.disc_id
            },
            _ => s.disc_id,
        }),
        scan_step_spec(s, e).0.albums == s.albums,
{
}

/// Files are visited in the order in which they are listed: an album file
/// right after the previous one, the first disc of an album right after the
/// album row, each later disc right after the previous disc, and likewise
/// for tracks. Each disc and track row is numbered one more than the
/// position of its file in its list.
pub proof fn law_scan_visits_in_order(s: ScanView, e: ScanEvent)
    requires
        scan_wf(s),
        scan_accepts(s.stage, e),
    ensures
        ({
            let (t, a) = scan_step_spec(s, e);
            &&& a matches ScanActionView::ReadAlbum(p) ==> p == t.albums[t.album_pos as int]
                && t.album_pos == s.album_pos + 1
            &&& a matches ScanActionView::ReadDisc(p) ==> p == t.discs[t.disc_pos as int]
                && (if s.stage == ScanStage::InsertingAlbum { t.disc_pos == 0 } else { t.disc_pos == s.disc_pos + 1 })
            &&& a matches ScanActionView::ReadTrack(p) ==> p == t.tracks[t.track_pos as int]
                && (if s.stage == ScanStage::InsertingDisc { t.track_pos == 0 } else { t.track_pos == s.track_pos + 1 })
            &&& a matches ScanActionView::InsertDisc(row) ==> row.disc_num == s.disc_pos + 1
                && row.json_path == s.discs[s.disc_pos as int] && row.album == s.album_id
            &&& a matches ScanActionView::InsertTrack(row) ==> row.track_num == s.track_pos + 1
                && row.json_path == s.tracks[s.track_pos as int] && row.album == s.album_id
                && row.disc == s.disc_id
            &&& a matches ScanActionView::InsertAlbum(row) ==> row.json_path == s.albums[s.album_pos as int]
        }),
{
}

/// A failure ends the scan; only a failed track-row insertion is fatal.
pub proof fn law_failure_ends_scan(s: ScanView)
    requires
        s.stage != ScanStage::Finished,
    ensures
        scan_step_spec(s, ScanEvent::Failed).0.stage == ScanStage::Finished,
        scan_step_spec(s, ScanEvent::Failed).1 == (ScanActionView::Fail {
            fatal: s.stage == ScanStage::InsertingTrack,
        }),
{
}


/// Loading a queue replaces the queue by exactly the given songs, in the
/// given order, puts the position on its first song and leaves the playback
/// counters and the stopped flag alone.
pub proof fn law_load_replaces_queue(s: PlayerView, p: Seq<Seq<char>>)
    ensures
        load_playlist_spec(s, p).playlist == p,
        load_playlist_spec(s, p).idx == 0,
        load_playlist_spec(s, p).playing_counter == s.playing_counter,
        load_playlist_spec(s, p).requested_counter == s.requested_counter,
        load_playlist_spec(s, p).stopped == s.stopped,
{
}

/// Setting the position to `n` gives position `n` when `n` exceeds the
/// queue's length and keeps the old position otherwise; nothing else moves.
pub proof fn law_set_index_outcome(s: PlayerView, n: nat)
    ensures
        set_playlist_idx_spec(s, n).idx == (if s.playlist.len() < n { n } else { s.idx }),
        set_playlist_idx_spec(s, n).playlist == s.playlist,
        set_playlist_idx_spec(s, n).playing_counter == s.playing_counter,
        set_playlist_idx_spec(s, n).requested_counter == s.requested_counter,
        set_playlist_idx_spec(s, n).stopped == s.stopped,
{
}

/// The current song is the queue's entry at the position exactly when the
/// position lies inside the queue.
pub proof fn law_current_song_is_entry_at_position(s: PlayerView)
    ensures
        s.idx < s.playlist.len() ==> current_song_spec(s) == Some(s.playlist[s.idx as int]),
        s.idx >= s.playlist.len() ==> current_song_spec(s) is None,
{
}

/// A request to play on a stopped player clears the stopped flag and raises
/// the requested counter by one; on a running player it changes nothing.
/// The queue, the position and the owner of the output never change.
pub proof fn law_play_outcome(s: PlayerView)
    ensures
        s.stopped ==> !play_spec(s).stopped && play_spec(s).requested_counter == s.requested_counter + 1,
        !s.stopped ==> play_spec(s) == s,
        play_spec(s).playlist == s.playlist,
        play_spec(s).idx == s.idx,
        play_spec(s).playing_counter == s.playing_counter,
{
}

/// One period of a loop that does not stop: the output goes to the loop
/// when it is unowned; the position moves on by one exactly when the output
/// belongs to this loop, at most one song is left in the output and a song
/// follows the current one in the queue, whatever that song is; nothing
/// else changes.
pub proof fn law_tick_outcome(s: PlayerView, play_counter: nat, queued: nat)
    ensures
        ({
            let owner = if s.playing_counter == 0 { play_counter } else { s.playing_counter };
            let due = owner == play_counter && queued <= 1 && s.idx + 1 < s.playlist.len();
            let t = tick_spec(s, play_counter, queued);
            &&& tick_advances(s, play_counter, queued) <==> due
            &&& t.playing_counter == owner
            &&& t.idx == (if due { s.idx + 1 } else { s.idx })
            &&& t.playlist == s.playlist
            &&& t.requested_counter == s.requested_counter
            &&& t.stopped == s.stopped
        }),
{
}

/// The end of a loop hands the output to the latest requested loop, and a
/// change of device resets both counters to 0; neither touches the queue,
/// the position or the stopped flag.
pub proof fn law_finish_and_reset_outcome(s: PlayerView)
    ensures
        finish_spec(s).playing_counter == s.requested_counter,
        finish_spec(s).requested_counter == s.requested_counter,
        finish_spec(s).stopped == s.stopped,
        device_reset_spec(s).playing_counter == 0,
        device_reset_spec(s).requested_counter == 0,
        device_reset_spec(s).stopped == s.stopped,
{
}

/// Reading an album file asks for the album row built from that file: its
/// name as title, its artist, its art, and the path of the file; the scan
/// then keeps the file's disc list.
pub proof fn law_album_row_from_album_file(s: ScanView, a: AlbumJson)
    requires
        scan_wf(s),
        s.stage == ScanStage::ReadingAlbum,
    ensures
        scan_step_spec(s, ScanEvent::AlbumRead(a)).1 matches ScanActionView::InsertAlbum(row) && {
            &&& row.title == a.name@
            &&& row.album_artist == a.artist@
            &&& row.album_art_path == a.art.deep_view()
            &&& row.json_path == s.albums[s.album_pos as int]
        },
        scan_step_spec(s, ScanEvent::AlbumRead(a)).0.discs == a.discs.deep_view(),
        scan_step_spec(s, ScanEvent::AlbumRead(a)).0.album_pos == s.album_pos,
{
}

/// Reading a disc file asks for the disc row built from that file: its
/// name as title, its art, the number one more than the disc's place in the
/// album's disc list, the current album's row id and the file's path; the
/// scan then keeps the file's track list.
pub proof fn law_disc_row_from_disc_file(s: ScanView, d: DiscJson)
    requires
        scan_wf(s),
        s.stage == ScanStage::ReadingDisc,
    ensures
        scan_step_spec(s, ScanEvent::DiscRead(d)).1 matches ScanActionView::InsertDisc(row) && {
            &&& row.disc_title == d.name.deep_view()
            &&& row.disc_art_path == d.art.deep_view()
            &&& row.disc_num == s.disc_pos + 1
            &&& row.album == s.album_id
            &&& row.json_path == s.discs[s.disc_pos as int]
        },
        scan_step_spec(s, ScanEvent::DiscRead(d)).0.tracks == d.tracks.deep_view(),
{
}

/// Reading a track file asks for the track row built from that file: its
/// title, its art, its artist (never its composer), its audio path, the
/// number one more than the track's place in the disc's track list, the
/// current album's and disc's row ids and the file's path.
pub proof fn law_track_row_from_track_file(s: ScanView, t: TrackJson)
    requires
        scan_wf(s),
        s.stage == ScanStage::ReadingTrack,
    ensures
        scan_step_spec(s, ScanEvent::TrackRead(t)).1 matches ScanActionView::InsertTrack(row) && {
            &&& row.track_title == t.title@
            &&& row.track_art_path == t.art.deep_view()
            &&& row.artist == t.artist.deep_view()
            &&& row.track_path == t.path@
            &&& row.track_num == s.track_pos + 1
            &&& row.album == s.album_id
            &&& row.disc == s.disc_id
            &&& row.json_path == s.tracks[s.track_pos as int]
        },
{
}

/// After an album row is stored, the scan asks for the album's first disc
/// file; with no discs, for the next album file, or it is done.
pub proof fn law_after_album_row(s: ScanView, id: i64)
    requires
        scan_wf(s),
        s.stage == ScanStage::InsertingAlbum,
    ensures
        ({
            let (t, a) = scan_step_spec(s, ScanEvent::Inserted(id));
            &&& t.album_id == id
            &&& s.discs.len() > 0 ==> a == ScanActionView::ReadDisc(s.discs[0]) && t.disc_pos == 0
            &&& s.discs.len() == 0 && s.album_pos + 1 < s.albums.len() ==> a == ScanActionView::ReadAlbum(
                s.albums[s.album_pos + 1int],
            )
            &&& s.discs.len() == 0 && s.album_pos + 1 >= s.albums.len() ==> a == ScanActionView::Done
        }),
{
}

/// After a disc row is stored, the scan asks for the disc's first track
/// file; with no tracks, for the album's next disc file, the next album
/// file, or it is done.
pub proof fn law_after_disc_row(s: ScanView, id: i64)
    requires
        scan_wf(s),
        s.stage == ScanStage::InsertingDisc,
    ensures
        ({
            let (t, a) = scan_step_spec(s, ScanEvent::Inserted(id));
            &&& t.disc_id == id
            &&& t.album_id == s.album_id
            &&& s.tracks.len() > 0 ==> a == ScanActionView::ReadTrack(s.tracks[0]) && t.track_pos == 0
            &&& s.tracks.len() == 0 && s.disc_pos + 1 < s.discs.len() ==> a == ScanActionView::ReadDisc(
                s.discs[s.disc_pos + 1int],
            )
            &&& s.tracks.len() == 0 && s.disc_pos + 1 >= s.discs.len() && s.album_pos + 1 < s.albums.len()
                ==> a == ScanActionView::ReadAlbum(s.albums[s.album_pos + 1int])
            &&& s.tracks.len() == 0 && s.disc_pos + 1 >= s.discs.len() && s.album_pos + 1 >= s.albums.len()
                ==> a == ScanActionView::Done
        }),
{
}

/// After a track row is stored, the scan asks for the disc's next track
/// file; after the last, for the album's next disc file, the next album
/// file, or it is done.
pub proof fn law_after_track_row(s: ScanView, id: i64)
    requires
        scan_wf(s),
        s.stage == ScanStage::InsertingTrack,
    ensures
        ({
            let (t, a) = scan_step_spec(s, ScanEvent::Inserted(id));
            &&& t.album_id == s.album_id
            &&& t.disc_id == s.disc_id
            &&& s.track_pos + 1 < s.tracks.len() ==> a == ScanActionView::ReadTrack(s.tracks[s.track_pos + 1int])
            &&& s.track_pos + 1 >= s.tracks.len() && s.disc_pos + 1 < s.discs.len() ==> a
                == ScanActionView::ReadDisc(s.discs[s.disc_pos + 1int])
            &&& s.track_pos + 1 >= s.tracks.len() && s.disc_pos + 1 >= s.discs.len() && s.album_pos + 1
                < s.albums.len() ==> a == ScanActionView::ReadAlbum(s.albums[s.album_pos + 1int])
            &&& s.track_pos + 1 >= s.tracks.len() && s.disc_pos + 1 >= s.discs.len() && s.album_pos + 1
                >= s.albums.len() ==> a == ScanActionView::Done
        }),
{
}


/// A running loop is told to stop exactly when its identifier and the
/// requested identifier add up to the `usize` whose bits are all set.
pub proof fn law_stop_condition(requested: usize, play_counter: usize)
    ensures
        tick_stops(requested, play_counter) <==> requested as int + play_counter as int == (!0usize) as int,
{
    assert((!requested == play_counter) <==> (requested as int + play_counter as int == (!0usize) as int))
        by (bit_vector);
}

/// A scan starts by asking for the first listed album file, and is done at
/// once when the list is empty.
pub proof fn law_scan_start(albums: Seq<Seq<char>>)
    ensures
        albums.len() > 0 ==> scan_start_spec(albums).1 == ScanActionView::ReadAlbum(albums[0])
            && scan_start_spec(albums).0.stage == ScanStage::ReadingAlbum,
        albums.len() == 0 ==> scan_start_spec(albums).1 == ScanActionView::Done && scan_start_spec(
            albums,
        ).0.stage == ScanStage::Finished,
        scan_start_spec(albums).0.albums == albums,
        scan_start_spec(albums).0.album_pos == 0,
{
}

/// The devices selected are exactly those whose name is the one asked for,
/// each once, in the order of the listing.
pub proof fn law_selection_is_all_matches(names: Seq<Seq<char>>, wanted: Seq<char>, picked: Seq<usize>)
    requires
        is_selection(names, wanted, picked),
        names.len() <= usize::MAX,
    ensures
        forall|i: int| 0 <= i < names.len() ==> (names[i] == wanted <==> picked.contains(i as usize)),
        forall|x: usize| picked.contains(x) ==> x < names.len() && names[x as int] == wanted,
        picked.no_duplicates(),
        forall|k: int, l: int| 0 <= k < l < picked.len() ==> picked[k] < picked[l],
{
    assert forall|i: int| 0 <= i < names.len() && picked.contains(i as usize) implies names[i] == wanted by {
        let k = choose|k: int| 0 <= k < picked.len() && picked[k] == i as usize;
        assert(names[picked[k] as int] == wanted);
    }
    assert forall|x: usize| picked.contains(x) implies x < names.len() && names[x as int] == wanted by {
        let k = choose|k: int| 0 <= k < picked.len() && picked[k] == x;
        assert(picked[k] < names.len());
        assert(names[picked[k] as int] == wanted);
    }
    assert forall|k: int, l: int| 0 <= k < picked.len() && 0 <= l < picked.len() && k != l implies picked[k]
        != picked[l] by {
        if k < l {
            assert(picked[k] < picked[l]);
        } else {
            assert(picked[l] < picked[k]);
        }
    }
}

} // verus!
