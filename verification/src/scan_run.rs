use vstd::prelude::*;

use crate::scan::{scan_accepts, scan_start_spec, scan_step_spec, scan_wf, ScanActionView, ScanEvent, ScanStage, ScanView};

verus! {

/// The state of a scan of `albums` and its request after it has taken in
/// the first `n` events of `evs`.
pub open spec fn run_at(albums: Seq<Seq<char>>, evs: Seq<ScanEvent>, n: nat) -> (ScanView, ScanActionView)
    decreases n,
{
    if n == 0 {
        scan_start_spec(albums)
    } else {
        scan_step_spec(run_at(albums, evs, (n - 1) as nat).0, evs[n - 1])
    }
}

/// Each event of `evs` answers the request that the scan had made when it
/// arrives, and none of them reports a failure: every file could be read
/// and understood and every row inserted.
pub open spec fn run_succeeds(albums: Seq<Seq<char>>, evs: Seq<ScanEvent>) -> bool {
    forall|k: nat|
        k < evs.len() ==> scan_accepts(#[trigger] run_at(albums, evs, k).0.stage, evs[k as int])
            && !(evs[k as int] is Failed)
}

/// The index of the last album-row request among the first `n` requests,
/// or -1 when there is none.
pub open spec fn last_album_insert(albums: Seq<Seq<char>>, evs: Seq<ScanEvent>, n: nat) -> int
    decreases n,
{
    if n == 0 {
        -1
    } else if run_at(albums, evs, (n - 1) as nat).1 is InsertAlbum {
        n - 1
    } else {
        last_album_insert(albums, evs, (n - 1) as nat)
    }
}

/// The index of the last disc-row request among the first `n` requests, or
/// -1 when there is none.
pub open spec fn last_disc_insert(albums: Seq<Seq<char>>, evs: Seq<ScanEvent>, n: nat) -> int
    decreases n,
{
    if n == 0 {
        -1
    } else if run_at(albums, evs, (n - 1) as nat).1 is InsertDisc {
        n - 1
    } else {
        last_disc_insert(albums, evs, (n - 1) as nat)
    }
}

/// How many of the requests with index in `lo .. hi` ask for a disc row.
pub open spec fn disc_inserts_between(albums: Seq<Seq<char>>, evs: Seq<ScanEvent>, lo: nat, hi: nat) -> nat
    decreases hi,
{
    if hi <= lo {
        0
    } else {
        disc_inserts_between(albums, evs, lo, (hi - 1) as nat) + if run_at(albums, evs, (hi - 1) as nat).1 is InsertDisc {
            1nat
        } else {
            0nat
        }
    }
}

/// How many of the requests with index in `lo .. hi` ask for a track row.
pub open spec fn track_inserts_between(albums: Seq<Seq<char>>, evs: Seq<ScanEvent>, lo: nat, hi: nat) -> nat
    decreases hi,
{
    if hi <= lo {
        0
    } else {
        track_inserts_between(albums, evs, lo, (hi - 1) as nat) + if run_at(albums, evs, (hi - 1) as nat).1 is InsertTrack {
            1nat
        } else {
            0nat
        }
    }
}

/// The file paths of the album rows requested among the first `n` requests,
/// in request order.
pub open spec fn inserted_album_paths(albums: Seq<Seq<char>>, evs: Seq<ScanEvent>, n: nat) -> Seq<Seq<char>>
    decreases n,
{
    if n == 0 {
        Seq::empty()
    } else {
        let prev = inserted_album_paths(albums, evs, (n - 1) as nat);
        match run_at(albums, evs, (n - 1) as nat).1 {
            ScanActionView::InsertAlbum(row) => prev.push(row.json_path),
            _ => prev,
        }
    }
}

/// How many album rows a scan in state `s` has requested.
pub open spec fn album_rows_requested(s: ScanView) -> nat {
    if s.stage == ScanStage::ReadingAlbum || s.stage == ScanStage::Finished {
        s.album_pos
    } else {
        s.album_pos + 1
    }
}

pub open spec fn within_album(stage: ScanStage) -> bool {
    stage == ScanStage::ReadingDisc || stage == ScanStage::InsertingDisc || stage == ScanStage::ReadingTrack
        || stage == ScanStage::InsertingTrack
}

pub open spec fn within_disc(stage: ScanStage) -> bool {
    stage == ScanStage::ReadingTrack || stage == ScanStage::InsertingTrack
}

/// When an album row was requested before index `n`, a disc row has been
/// requested since for every disc that its album file lists.
pub open spec fn album_discs_complete(albums: Seq<Seq<char>>, evs: Seq<ScanEvent>, n: nat) -> bool {
    let l = last_album_insert(albums, evs, n);
    l >= 1 ==> (evs[l - 1] matches ScanEvent::AlbumRead(alb) && disc_inserts_between(
        albums,
        evs,
        (l + 1) as nat,
        n,
    ) == alb.discs.len())
}

/// When a disc row was requested before index `n`, a track row has been
/// requested since for every track that its disc file lists.
pub open spec fn disc_tracks_complete(albums: Seq<Seq<char>>, evs: Seq<ScanEvent>, n: nat) -> bool {
    let d = last_disc_insert(albums, evs, n);
    d >= 1 ==> (evs[d - 1] matches ScanEvent::DiscRead(dj) && track_inserts_between(
        albums,
        evs,
        (d + 1) as nat,
        n,
    ) == dj.tracks.len())
}

/// What holds of a successful run after `n` events.
pub open spec fn run_inv(albums: Seq<Seq<char>>, evs: Seq<ScanEvent>, n: nat) -> bool {
    let s = run_at(albums, evs, n).0;
    let a = run_at(albums, evs, n).1;
    let l = last_album_insert(albums, evs, n + 1);
    let d = last_disc_insert(albums, evs, n + 1);
    &&& scan_wf(s)
    &&& s.albums == albums
    &&& (a is InsertAlbum <==> s.stage == ScanStage::InsertingAlbum)
    &&& (a is InsertDisc <==> s.stage == ScanStage::InsertingDisc)
    &&& (a is InsertTrack <==> s.stage == ScanStage::InsertingTrack)
    &&& (a is Done ==> s.stage == ScanStage::Finished)
    &&& s.stage == ScanStage::InsertingDisc ==> (a matches ScanActionView::InsertDisc(r) && r.album == s.album_id
        && r.disc_num == s.disc_pos + 1 && r.json_path == s.discs[s.disc_pos as int])
    &&& s.stage == ScanStage::InsertingTrack ==> (a matches ScanActionView::InsertTrack(r) && r.album
        == s.album_id && r.disc == s.disc_id && r.track_num == s.track_pos + 1 && r.json_path
        == s.tracks[s.track_pos as int])
    &&& s.stage == ScanStage::InsertingAlbum ==> (n >= 1 && (evs[n - 1] matches ScanEvent::AlbumRead(alb)
        && alb.discs.deep_view() == s.discs))
    &&& s.stage == ScanStage::InsertingDisc ==> (n >= 1 && (evs[n - 1] matches ScanEvent::DiscRead(dj)
        && dj.tracks.deep_view() == s.tracks))
    &&& s.stage == ScanStage::Finished ==> s.album_pos == albums.len()
    &&& inserted_album_paths(albums, evs, n + 1) == albums.take(album_rows_requested(s) as int)
    &&& within_album(s.stage) ==> {
        &&& 1 <= l < n
        &&& run_at(albums, evs, l as nat).1 is InsertAlbum
        &&& evs[l] matches ScanEvent::Inserted(id) && id == s.album_id
        &&& evs[l - 1] matches ScanEvent::AlbumRead(alb) && alb.discs.deep_view() == s.discs
        &&& disc_inserts_between(albums, evs, (l + 1) as nat, n + 1) == s.disc_pos + (if s.stage
            == ScanStage::ReadingDisc {
            0int
        } else {
            1int
        })
    }
    &&& !within_album(s.stage) ==> album_discs_complete(albums, evs, n)
    &&& !within_disc(s.stage) ==> disc_tracks_complete(albums, evs, n)
    &&& within_disc(s.stage) ==> {
        &&& l < d < n
        &&& run_at(albums, evs, d as nat).1 matches ScanActionView::InsertDisc(r) && r.album == s.album_id
        &&& evs[d] matches ScanEvent::Inserted(id) && id == s.disc_id
        &&& evs[d - 1] matches ScanEvent::DiscRead(dj) && dj.tracks.deep_view() == s.tracks
        &&& track_inserts_between(albums, evs, (d + 1) as nat, n + 1) == s.track_pos + (if s.stage
            == ScanStage::ReadingTrack {
            0int
        } else {
            1int
        })
    }
}

proof fn lemma_run_start(albums: Seq<Seq<char>>, evs: Seq<ScanEvent>)
    ensures
        run_inv(albums, evs, 0),
{
    assert(inserted_album_paths(albums, evs, 0) == Seq::<Seq<char>>::empty());
    assert(albums.take(0) =~= Seq::<Seq<char>>::empty());
}


proof fn lemma_step_wf(s: ScanView, e: ScanEvent)
    requires
        scan_wf(s),
        scan_accepts(s.stage, e),
    ensures
        scan_wf(scan_step_spec(s, e).0),
        scan_step_spec(s, e).0.albums == s.albums,
{
}

proof fn lemma_run_step(albums: Seq<Seq<char>>, evs: Seq<ScanEvent>, n: nat)
    requires
        run_inv(albums, evs, n),
        n < evs.len(),
        scan_accepts(run_at(albums, evs, n).0.stage, evs[n as int]),
        !(evs[n as int] is Failed),
    ensures
        run_inv(albums, evs, n + 1),
{
    let s = run_at(albums, evs, n).0;
    let a = run_at(albums, evs, n).1;
    let e = evs[n as int];
    let t = run_at(albums, evs, n + 1).0;
    let b = run_at(albums, evs, n + 1).1;
    assert((t, b) == scan_step_spec(s, e));
    lemma_step_wf(s, e);
    let l = last_album_insert(albums, evs, n + 1);
    let d = last_disc_insert(albums, evs, n + 1);
    assert(last_album_insert(albums, evs, n + 1) == if a is InsertAlbum { n as int } else {
        last_album_insert(albums, evs, n)
    });
    assert(last_disc_insert(albums, evs, n + 1) == if a is InsertDisc { n as int } else {
        last_disc_insert(albums, evs, n)
    });
    assert(last_album_insert(albums, evs, n + 2) == if b is InsertAlbum { (n + 1) as int } else { l });
    assert(last_disc_insert(albums, evs, n + 2) == if b is InsertDisc { (n + 1) as int } else { d });
    assert(inserted_album_paths(albums, evs, n + 2) == match b {
        ScanActionView::InsertAlbum(row) => inserted_album_paths(albums, evs, n + 1).push(row.json_path),
        _ => inserted_album_paths(albums, evs, n + 1),
    });
    assert(disc_inserts_between(albums, evs, n + 1, n + 1) == 0);
    assert(track_inserts_between(albums, evs, n + 1, n + 1) == 0);
    assert forall|lo: nat| lo <= n + 1 implies #[trigger] disc_inserts_between(albums, evs, lo, n + 2)
        == disc_inserts_between(albums, evs, lo, n + 1) + (if b is InsertDisc { 1nat } else { 0nat }) by {
    }
    assert forall|lo: nat| lo <= n + 1 implies #[trigger] track_inserts_between(albums, evs, lo, n + 2)
        == track_inserts_between(albums, evs, lo, n + 1) + (if b is InsertTrack { 1nat } else { 0nat }) by {
    }
    let k = album_rows_requested(s);
    if s.stage == ScanStage::ReadingAlbum {
        assert(albums.take(k as int).push(albums[k as int]) =~= albums.take(k + 1int));
    }
}


proof fn lemma_run_inv(albums: Seq<Seq<char>>, evs: Seq<ScanEvent>, n: nat)
    requires
        run_succeeds(albums, evs),
        n <= evs.len(),
    ensures
        run_inv(albums, evs, n),
    decreases n,
{
    if n == 0 {
        lemma_run_start(albums, evs);
    } else {
        let m = (n - 1) as nat;
        lemma_run_inv(albums, evs, m);
        assert(scan_accepts(run_at(albums, evs, m).0.stage, evs[m as int]));
        lemma_run_step(albums, evs, m);
    }
}

/// The disc row requested at index `n` carries the row id given to the
/// latest album row, is numbered one more than the disc rows requested
/// since that album row, and names the disc file found at that place of the
/// album file's disc list.
pub open spec fn disc_row_placed(albums: Seq<Seq<char>>, evs: Seq<ScanEvent>, n: nat) -> bool {
    let row = run_at(albums, evs, n).1->InsertDisc_0;
    let l = last_album_insert(albums, evs, n);
    &&& 1 <= l < n
    &&& run_at(albums, evs, l as nat).1 is InsertAlbum
    &&& evs[l] matches ScanEvent::Inserted(id) && id == row.album
    &&& evs[l - 1] matches ScanEvent::AlbumRead(alb) && {
        &&& row.disc_num == disc_inserts_between(albums, evs, (l + 1) as nat, n) + 1
        &&& row.disc_num <= alb.discs.len()
        &&& row.json_path == alb.discs.deep_view()[row.disc_num - 1]
    }
}

/// The track row requested at index `n` carries the row id given to the
/// latest disc row and that disc row's album id, which is the row id given
/// to the latest album row; it is numbered one more than the track rows
/// requested since that disc row and names the track file found at that
/// place of the disc file's track list.
pub open spec fn track_row_placed(albums: Seq<Seq<char>>, evs: Seq<ScanEvent>, n: nat) -> bool {
    let row = run_at(albums, evs, n).1->InsertTrack_0;
    let l = last_album_insert(albums, evs, n);
    let d = last_disc_insert(albums, evs, n);
    &&& 1 <= l < d < n
    &&& evs[l] matches ScanEvent::Inserted(id) && id == row.album
    &&& run_at(albums, evs, d as nat).1 matches ScanActionView::InsertDisc(disc_row) && disc_row.album
        == row.album
    &&& evs[d] matches ScanEvent::Inserted(id) && id == row.disc
    &&& evs[d - 1] matches ScanEvent::DiscRead(dj) && {
        &&& row.track_num == track_inserts_between(albums, evs, (d + 1) as nat, n) + 1
        &&& row.track_num <= dj.tracks.len()
        &&& row.json_path == dj.tracks.deep_view()[row.track_num - 1]
    }
}

/// A scan in which every file is read and understood and every row is
/// inserted stores one album row for each listed album file, in the order
/// of the list (all of them once it is done); every disc row it stores
/// points at the album row stored last and is numbered by its place in the
/// album file's disc list; every track row points at the disc row stored
/// last and at that disc's album, and is numbered by its place in the disc
/// file's track list. By the time the next album row is requested, or the
/// scan is done, every disc of an album file has its row; by the time the
/// next disc or album row is requested, or the scan is done, every track of
/// a disc file has its row.
pub proof fn law_complete_scan(albums: Seq<Seq<char>>, evs: Seq<ScanEvent>)
    requires
        run_succeeds(albums, evs),
    ensures
        forall|n: nat|
            n <= evs.len() ==> #[trigger] inserted_album_paths(albums, evs, n + 1).len() <= albums.len()
                && inserted_album_paths(albums, evs, n + 1) == albums.take(
                inserted_album_paths(albums, evs, n + 1).len() as int,
            ),
        run_at(albums, evs, evs.len()).1 is Done ==> inserted_album_paths(albums, evs, evs.len() + 1)
            == albums,
        forall|n: nat|
            #![trigger run_at(albums, evs, n)]
            n <= evs.len() && run_at(albums, evs, n).1 is InsertDisc ==> disc_row_placed(albums, evs, n),
        forall|n: nat|
            #![trigger run_at(albums, evs, n)]
            n <= evs.len() && run_at(albums, evs, n).1 is InsertTrack ==> track_row_placed(albums, evs, n),
        forall|n: nat|
            #![trigger run_at(albums, evs, n)]
            n <= evs.len() && (run_at(albums, evs, n).1 is InsertAlbum || run_at(albums, evs, n).1 is Done)
                ==> album_discs_complete(albums, evs, n),
        forall|n: nat|
            #![trigger run_at(albums, evs, n)]
            n <= evs.len() && (run_at(albums, evs, n).1 is InsertAlbum || run_at(albums, evs, n).1 is Done
                || run_at(albums, evs, n).1 is InsertDisc) ==> disc_tracks_complete(albums, evs, n),
{
    assert forall|n: nat|
        #![trigger run_at(albums, evs, n)]
        n <= evs.len() && (run_at(albums, evs, n).1 is InsertAlbum || run_at(albums, evs, n).1 is Done)
            implies album_discs_complete(albums, evs, n) by {
        lemma_run_inv(albums, evs, n);
    }
    assert forall|n: nat|
        #![trigger run_at(albums, evs, n)]
        n <= evs.len() && (run_at(albums, evs, n).1 is InsertAlbum || run_at(albums, evs, n).1 is Done
            || run_at(albums, evs, n).1 is InsertDisc) implies disc_tracks_complete(albums, evs, n) by {
        lemma_run_inv(albums, evs, n);
    }
    assert forall|n: nat| n <= evs.len() implies #[trigger] inserted_album_paths(albums, evs, n + 1).len()
        <= albums.len() && inserted_album_paths(albums, evs, n + 1) == albums.take(
        inserted_album_paths(albums, evs, n + 1).len() as int,
    ) by {
        lemma_run_inv(albums, evs, n);
    }
    lemma_run_inv(albums, evs, evs.len());
    if run_at(albums, evs, evs.len()).1 is Done {
        assert(albums.take(albums.len() as int) =~= albums);
    }
    assert forall|n: nat|
        #![trigger run_at(albums, evs, n)]
        n <= evs.len() && run_at(albums, evs, n).1 is InsertDisc implies disc_row_placed(albums, evs, n) by {
        lemma_run_inv(albums, evs, n);
        assert(last_album_insert(albums, evs, n + 1) == last_album_insert(albums, evs, n));
        let l = last_album_insert(albums, evs, n);
        assert(disc_inserts_between(albums, evs, (l + 1) as nat, n + 1) == disc_inserts_between(
            albums,
            evs,
            (l + 1) as nat,
            n,
        ) + 1);
    }
    assert forall|n: nat|
        #![trigger run_at(albums, evs, n)]
        n <= evs.len() && run_at(albums, evs, n).1 is InsertTrack implies track_row_placed(albums, evs, n) by {
        lemma_run_inv(albums, evs, n);
        assert(last_album_insert(albums, evs, n + 1) == last_album_insert(albums, evs, n));
        assert(last_disc_insert(albums, evs, n + 1) == last_disc_insert(albums, evs, n));
        let d = last_disc_insert(albums, evs, n);
        assert(track_inserts_between(albums, evs, (d + 1) as nat, n + 1) == track_inserts_between(
            albums,
            evs,
            (d + 1) as nat,
            n,
        ) + 1);
    }
}

} // verus!
