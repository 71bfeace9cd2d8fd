use vstd::prelude::*;

use crate::json::{json_string_array, parse_json_string_array};

verus! {

/// An album description file.
pub struct AlbumJson {
    pub name: String,
    pub artist: String,
    /// Paths of the disc description files, in disc order.
    pub discs: Vec<String>,
    pub art: Option<String>,
    pub copyright: Option<String>,
    pub comment: Option<String>,
    pub years: Option<Vec<i32>>,
}

/// A disc description file.
pub struct DiscJson {
    /// Paths of the track description files, in track order.
    pub tracks: Vec<String>,
    pub name: Option<String>,
    pub art: Option<String>,
    pub comment: Option<String>,
}

/// A track description file.
pub struct TrackJson {
    pub title: String,
    pub path: String,
    pub art: Option<String>,
    pub artist: Option<String>,
    pub composer: Option<String>,
    pub rating: Option<i32>,
    pub lyric_path_raw: Option<String>,
    pub lyric_path_transliterated: Option<String>,
    pub lyric_path_translated: Option<String>,
    pub has_lyrics: Option<bool>,
    pub has_vocals: Option<bool>,
    pub synchronized_lyrics_path: Option<String>,
}

/// The values of one new row of the albums table.
pub struct AlbumRow {
    pub title: String,
    pub album_artist: String,
    pub album_art_path: Option<String>,
    pub json_path: String,
}

/// The values of one new row of the discs table.
pub struct DiscRow {
    pub disc_title: Option<String>,
    pub disc_num: i32,
    pub disc_art_path: Option<String>,
    pub album: i64,
    pub json_path: String,
}

/// The values of one new row of the tracks table.
pub struct TrackRow {
    pub track_num: i32,
    pub track_title: String,
    pub track_art_path: Option<String>,
    pub artist: Option<String>,
    pub track_path: String,
    pub album: i64,
    pub disc: i64,
    pub json_path: String,
}

pub struct AlbumRowView {
    pub title: Seq<char>,
    pub album_artist: Seq<char>,
    pub album_art_path: Option<Seq<char>>,
    pub json_path: Seq<char>,
}

pub struct DiscRowView {
    pub disc_title: Option<Seq<char>>,
    pub disc_num: int,
    pub disc_art_path: Option<Seq<char>>,
    pub album: int,
    pub json_path: Seq<char>,
}

pub struct TrackRowView {
    pub track_num: int,
    pub track_title: Seq<char>,
    pub track_art_path: Option<Seq<char>>,
    pub artist: Option<Seq<char>>,
    pub track_path: Seq<char>,
    pub album: int,
    pub disc: int,
    pub json_path: Seq<char>,
}

impl View for AlbumRow {
    type V = AlbumRowView;

    open spec fn view(&self) -> AlbumRowView {
        AlbumRowView {
            title: self.title@,
            album_artist: self.album_artist@,
            album_art_path: self.album_art_path.deep_view(),
            json_path: self.json_path@,
        }
    }
}

impl View for DiscRow {
    type V = DiscRowView;

    open spec fn view(&self) -> DiscRowView {
        DiscRowView {
            disc_title: self.disc_title.deep_view(),
            disc_num: self.disc_num as int,
            disc_art_path: self.disc_art_path.deep_view(),
            album: self.album as int,
            json_path: self.json_path@,
        }
    }
}

impl View for TrackRow {
    type V = TrackRowView;

    open spec fn view(&self) -> TrackRowView {
        TrackRowView {
            track_num: self.track_num as int,
            track_title: self.track_title@,
            track_art_path: self.track_art_path.deep_view(),
            artist: self.artist.deep_view(),
            track_path: self.track_path@,
            album: self.album as int,
            disc: self.disc as int,
            json_path: self.json_path@,
        }
    }
}

/// The album row for the album described by the file at `json_path`.
pub open spec fn album_row_spec(album: AlbumJson, json_path: Seq<char>) -> AlbumRowView {
    AlbumRowView {
        title: album.name@,
        album_artist: album.artist@,
        album_art_path: album.art.deep_view(),
        json_path,
    }
}

/// The disc row for the `disc_num`-th disc of album `album_id`, described
/// by the file at `json_path`.
pub open spec fn disc_row_spec(disc: DiscJson, disc_num: int, album_id: int, json_path: Seq<char>) -> DiscRowView {
    DiscRowView {
        disc_title: disc.name.deep_view(),
        disc_num,
        disc_art_path: disc.art.deep_view(),
        album: album_id,
        json_path,
    }
}

/// The track row for the `track_num`-th track of disc `disc_id` of album
/// `album_id`, described by the file at `json_path`.
pub open spec fn track_row_spec(
    track: TrackJson,
    track_num: int,
    album_id: int,
    disc_id: int,
    json_path: Seq<char>,
) -> TrackRowView {
    TrackRowView {
        track_num,
        track_title: track.title@,
        track_art_path: track.art.deep_view(),
        artist: track.artist.deep_view(),
        track_path: track.path@,
        album: album_id,
        disc: disc_id,
        json_path,
    }
}

/// Where the scan stands: what it waits for next.
#[derive(PartialEq, Eq, Structural, Clone, Copy, Debug)]
pub enum ScanStage {
    ReadingAlbum,
    InsertingAlbum,
    ReadingDisc,
    InsertingDisc,
    ReadingTrack,
    InsertingTrack,
    Finished,
}

/// What the outside world reports back to the scan.
pub enum ScanEvent {
    /// The album file asked for was read and understood.
    AlbumRead(AlbumJson),
    /// The disc file asked for was read and understood.
    DiscRead(DiscJson),
    /// The track file asked for was read and understood.
    TrackRead(TrackJson),
    /// The row asked for was inserted under this row id.
    Inserted(i64),
    /// The file could not be read or understood, or the row not inserted.
    Failed,
}

/// What the scan asks of the outside world next.
pub enum ScanAction {
    /// Read the album description file at this path.
    ReadAlbum(String),
    InsertAlbum(AlbumRow),
    /// Read the disc description file at this path.
    ReadDisc(String),
    InsertDisc(DiscRow),
    /// Read the track description file at this path.
    ReadTrack(String),
    InsertTrack(TrackRow),
    /// Every album has been stored.
    Done,
    /// The scan ended on a failure; `fatal` when the failure was that of a
    /// track row's insertion, which aborts rather than being reported.
    Fail { fatal: bool },
}

pub enum ScanActionView {
    ReadAlbum(Seq<char>),
    InsertAlbum(AlbumRowView),
    ReadDisc(Seq<char>),
    InsertDisc(DiscRowView),
    ReadTrack(Seq<char>),
    InsertTrack(TrackRowView),
    Done,
    Fail { fatal: bool },
}

impl View for ScanAction {
    type V = ScanActionView;

    open spec fn view(&self) -> ScanActionView {
        match self {
            ScanAction::ReadAlbum(p) => ScanActionView::ReadAlbum(p@),
            ScanAction::InsertAlbum(r) => ScanActionView::InsertAlbum(r@),
            ScanAction::ReadDisc(p) => ScanActionView::ReadDisc(p@),
            ScanAction::InsertDisc(r) => ScanActionView::InsertDisc(r@),
            ScanAction::ReadTrack(p) => ScanActionView::ReadTrack(p@),
            ScanAction::InsertTrack(r) => ScanActionView::InsertTrack(r@),
            ScanAction::Done => ScanActionView::Done,
            ScanAction::Fail { fatal } => ScanActionView::Fail { fatal: *fatal },
        }
    }
}

/// Model of the scan: the album files to visit, and the position reached in
/// the album list, in the current album's disc list and in the current
/// disc's track list, with the row ids of the current album and disc.
pub struct ScanView {
    pub albums: Seq<Seq<char>>,
    pub album_pos: nat,
    pub album_id: int,
    pub discs: Seq<Seq<char>>,
    pub disc_pos: nat,
    pub disc_id: int,
    pub tracks: Seq<Seq<char>>,
    pub track_pos: nat,
    pub stage: ScanStage,
}

/// The scan of the album files listed in a library file: it reads each
/// album file, stores its album row, then for each of its discs reads the
/// disc file and stores the disc row, then for each track of that disc reads
/// the track file and stores the track row.
pub struct ScanState {
    albums: Vec<String>,
    album_pos: usize,
    album_id: i64,
    discs: Vec<String>,
    disc_pos: usize,
    disc_id: i64,
    tracks: Vec<String>,
    track_pos: usize,
    stage: ScanStage,
}

impl View for ScanState {
    type V = ScanView;

    closed spec fn view(&self) -> ScanView {
        ScanView {
            albums: self.albums.deep_view(),
            album_pos: self.album_pos as nat,
            album_id: self.album_id as int,
            discs: self.discs.deep_view(),
            disc_pos: self.disc_pos as nat,
            disc_id: self.disc_id as int,
            tracks: self.tracks.deep_view(),
            track_pos: self.track_pos as nat,
            stage: self.stage,
        }
    }
}

/// The positions a scan in each stage points at exist, and the disc and
/// track numbers handed out fit in an `i32`.
pub open spec fn scan_wf(s: ScanView) -> bool {
    match s.stage {
        ScanStage::ReadingAlbum => s.album_pos < s.albums.len(),
        ScanStage::InsertingAlbum => {
            &&& s.album_pos < s.albums.len()
            &&& s.discs.len() < i32::MAX
        },
        ScanStage::ReadingDisc => {
            &&& s.album_pos < s.albums.len()
            &&& s.disc_pos < s.discs.len()
            &&& s.discs.len() < i32::MAX
        },
        ScanStage::InsertingDisc => {
            &&& s.album_pos < s.albums.len()
            &&& s.disc_pos < s.discs.len()
            &&& s.discs.len() < i32::MAX
            &&& s.tracks.len() < i32::MAX
        },
        ScanStage::ReadingTrack | ScanStage::InsertingTrack => {
            &&& s.album_pos < s.albums.len()
            &&& s.disc_pos < s.discs.len()
            &&& s.discs.len() < i32::MAX
            &&& s.track_pos < s.tracks.len()
            &&& s.tracks.len() < i32::MAX
        },
        ScanStage::Finished => true,
    }
}

/// The events that the scan in stage `stage` waits for: the answer to the
/// action it gave, or a failure.
pub open spec fn scan_accepts(stage: ScanStage, e: ScanEvent) -> bool {
    match e {
        ScanEvent::AlbumRead(a) => stage == ScanStage::ReadingAlbum && a.discs.len() < i32::MAX,
        ScanEvent::DiscRead(d) => stage == ScanStage::ReadingDisc && d.tracks.len() < i32::MAX,
        ScanEvent::TrackRead(_) => stage == ScanStage::ReadingTrack,
        ScanEvent::Inserted(_) => stage == ScanStage::InsertingAlbum || stage
            == ScanStage::InsertingDisc || stage == ScanStage::InsertingTrack,
        ScanEvent::Failed => stage != ScanStage::Finished,
    }
}

/// Moves on to the album after the current one, or ends the scan.
pub open spec fn next_album(s: ScanView) -> (ScanView, ScanActionView) {
    let pos = s.album_pos + 1;
    if pos < s.albums.len() {
        (ScanView { album_pos: pos, stage: ScanStage::ReadingAlbum, ..s }, ScanActionView::ReadAlbum(s.albums[pos as int]))
    } else {
        (ScanView { album_pos: pos, stage: ScanStage::Finished, ..s }, ScanActionView::Done)
    }
}

/// Moves on to the disc at `pos` of the current album, or past its last.
pub open spec fn disc_at(s: ScanView, pos: nat) -> (ScanView, ScanActionView) {
    if pos < s.discs.len() {
        (ScanView { disc_pos: pos, stage: ScanStage::ReadingDisc, ..s }, ScanActionView::ReadDisc(s.discs[pos as int]))
    } else {
        next_album(ScanView { disc_pos: pos, ..s })
    }
}

/// Moves on to the track at `pos` of the current disc, or past its last.
pub open spec fn track_at(s: ScanView, pos: nat) -> (ScanView, ScanActionView) {
    if pos < s.tracks.len() {
        (ScanView { track_pos: pos, stage: ScanStage::ReadingTrack, ..s }, ScanActionView::ReadTrack(s.tracks[pos as int]))
    } else {
        disc_at(ScanView { track_pos: pos, ..s }, s.disc_pos + 1)
    }
}

/// How a scan starts on the list of album files.
pub open spec fn scan_start_spec(albums: Seq<Seq<char>>) -> (ScanView, ScanActionView) {
    let s = ScanView {
        albums,
        album_pos: 0,
        album_id: 0,
        discs: Seq::empty(),
        disc_pos: 0,
        disc_id: 0,
        tracks: Seq::empty(),
        track_pos: 0,
        stage: ScanStage::ReadingAlbum,
    };
    if albums.len() > 0 {
        (s, ScanActionView::ReadAlbum(albums[0]))
    } else {
        (ScanView { stage: ScanStage::Finished, ..s }, ScanActionView::Done)
    }
}

/// One step of the scan: the state it moves to and what it asks next.
pub open spec fn scan_step_spec(s: ScanView, e: ScanEvent) -> (ScanView, ScanActionView) {
    match e {
        ScanEvent::Failed => (
            ScanView { stage: ScanStage::Finished, ..s },
            ScanActionView::Fail { fatal: s.stage == ScanStage::InsertingTrack },
        ),
        ScanEvent::AlbumRead(a) => (
            ScanView { discs: a.discs.deep_view(), stage: ScanStage::InsertingAlbum, ..s },
            ScanActionView::InsertAlbum(album_row_spec(a, s.albums[s.album_pos as int])),
        ),
        ScanEvent::DiscRead(d) => (
            ScanView { tracks: d.tracks.deep_view(), stage: ScanStage::InsertingDisc, ..s },
            ScanActionView::InsertDisc(
                disc_row_spec(d, s.disc_pos + 1int, s.album_id, s.discs[s.disc_pos as int]),
            ),
        ),
        ScanEvent::TrackRead(t) => (
            ScanView { stage: ScanStage::InsertingTrack, ..s },
            ScanActionView::InsertTrack(
                track_row_spec(t, s.track_pos + 1int, s.album_id, s.disc_id, s.tracks[s.track_pos as int]),
            ),
        ),
        ScanEvent::Inserted(id) => {
            if s.stage == ScanStage::InsertingAlbum {
                disc_at(ScanView { album_id: id as int, ..s }, 0)
            } else if s.stage == ScanStage::InsertingDisc {
                track_at(ScanView { disc_id: id as int, ..s }, 0)
            } else {
                track_at(s, s.track_pos + 1)
            }
        },
    }
}

/// The library file does not hold a JSON array of strings.
pub enum ScanError {
    /// The parser's report of what is wrong with the text.
    InvalidAlbumList(serde_json::Error),
}

impl ScanState {
    proof fn lemma_lens(&self)
        ensures
            self@.albums.len() == self.albums.len(),
            self@.discs.len() == self.discs.len(),
            self@.tracks.len() == self.tracks.len(),
    {
    }

    /// The stage the scan is in.
    pub fn stage(&self) -> (r: ScanStage)
        ensures
            r == self@.stage,
    {
        self.stage
    }

    /// A scan over the album files at `albums`, in order, and its first
    /// request.
    pub fn start(albums: Vec<String>) -> (r: (ScanState, ScanAction))
        ensures
            (r.0@, r.1@) == scan_start_spec(albums.deep_view()),
            scan_wf(r.0@),
    {
        let empty = albums.len() == 0;
        let first = if empty { ScanAction::Done } else { ScanAction::ReadAlbum(albums[0].clone()) };
        let s = ScanState {
            albums,
            album_pos: 0,
            album_id: 0,
            discs: Vec::new(),
            disc_pos: 0,
            disc_id: 0,
            tracks: Vec::new(),
            track_pos: 0,
            stage: if empty { ScanStage::Finished } else { ScanStage::ReadingAlbum },
        };
        assert(s@.discs =~= Seq::<Seq<char>>::empty());
        assert(s@.tracks =~= Seq::<Seq<char>>::empty());
        (s, first)
    }

    fn next_album(&mut self) -> (r: ScanAction)
        requires
            old(self)@.album_pos < old(self)@.albums.len(),
        ensures
            (final(self)@, r@) == next_album(old(self)@),
    {
        proof { self.lemma_lens(); }
        let pos = self.album_pos + 1;
        self.album_pos = pos;
        if pos < self.albums.len() {
            self.stage = ScanStage::ReadingAlbum;
            ScanAction::ReadAlbum(self.albums[pos].clone())
        } else {
            self.stage = ScanStage::Finished;
            ScanAction::Done
        }
    }

    fn disc_at(&mut self, pos: usize) -> (r: ScanAction)
        requires
            old(self)@.album_pos < old(self)@.albums.len(),
            pos <= old(self)@.discs.len(),
        ensures
            (final(self)@, r@) == disc_at(old(self)@, pos as nat),
    {
        proof { self.lemma_lens(); }
        if pos < self.discs.len() {
            self.disc_pos = pos;
            self.stage = ScanStage::ReadingDisc;
            ScanAction::ReadDisc(self.discs[pos].clone())
        } else {
            self.disc_pos = pos;
            self.next_album()
        }
    }

    fn track_at(&mut self, pos: usize) -> (r: ScanAction)
        requires
            old(self)@.album_pos < old(self)@.albums.len(),
            old(self)@.disc_pos < old(self)@.discs.len(),
            pos <= old(self)@.tracks.len(),
        ensures
            (final(self)@, r@) == track_at(old(self)@, pos as nat),
    {
        proof { self.lemma_lens(); }
        if pos < self.tracks.len() {
            self.track_pos = pos;
            self.stage = ScanStage::ReadingTrack;
            ScanAction::ReadTrack(self.tracks[pos].clone())
        } else {
            self.track_pos = pos;
            let next = self.disc_pos + 1;
            self.disc_at(next)
        }
    }

    /// Takes in what the outside world reports and gives the next request.
    pub fn step(&mut self, event: ScanEvent) -> (r: ScanAction)
        requires
            scan_wf(old(self)@),
            scan_accepts(old(self)@.stage, event),
        ensures
            (final(self)@, r@) == scan_step_spec(old(self)@, event),
            scan_wf(final(self)@),
    {
        proof { self.lemma_lens(); }
        match event {
            ScanEvent::Failed => {
                let fatal = self.stage == ScanStage::InsertingTrack;
                self.stage = ScanStage::Finished;
                ScanAction::Fail { fatal }
            },
            ScanEvent::AlbumRead(a) => {
                let row = AlbumRow {
                    title: a.name,
                    album_artist: a.artist,
                    album_art_path: a.art,
                    json_path: self.albums[self.album_pos].clone(),
                };
                self.discs = a.discs;
                self.stage = ScanStage::InsertingAlbum;
                ScanAction::InsertAlbum(row)
            },
            ScanEvent::DiscRead(d) => {
                let num = (self.disc_pos + 1) as i32;
                let row = DiscRow {
                    disc_title: d.name,
                    disc_num: num,
                    disc_art_path: d.art,
                    album: self.album_id,
                    json_path: self.discs[self.disc_pos].clone(),
                };
                self.tracks = d.tracks;
                self.stage = ScanStage::InsertingDisc;
                ScanAction::InsertDisc(row)
            },
            ScanEvent::TrackRead(t) => {
                let num = (self.track_pos + 1) as i32;
                let row = TrackRow {
                    track_num: num,
                    track_title: t.title,
                    track_art_path: t.art,
                    artist: t.artist,
                    track_path: t.path,
                    album: self.album_id,
                    disc: self.disc_id,
                    json_path: self.tracks[self.track_pos].clone(),
                };
                self.stage = ScanStage::InsertingTrack;
                ScanAction::InsertTrack(row)
            },
            ScanEvent::Inserted(id) => {
                if self.stage == ScanStage::InsertingAlbum {
                    self.album_id = id;
                    self.disc_at(0)
                } else if self.stage == ScanStage::InsertingDisc {
                    self.disc_id = id;
                    self.track_at(0)
                } else {
                    let next = self.track_pos + 1;
                    self.track_at(next)
                }
            },
        }
    }
}

/// Reads the library file's text as the list of album file paths and starts
/// the scan over them.
pub fn scan(album_list: &str) -> (r: Result<(ScanState, ScanAction), ScanError>)
    ensures
        match json_string_array(album_list@) {
            Some(albums) => r matches Ok(started) && (started.0@, started.1@) == scan_start_spec(albums)
                && scan_wf(started.0@),
            None => r is Err,
        },
{
    match parse_json_string_array(album_list) {
        Ok(albums) => Ok(ScanState::start(albums)),
        Err(err) => Err(ScanError::InvalidAlbumList(err)),
    }
}

/// What came of creating the database file before opening it.
#[derive(PartialEq, Eq, Structural, Clone, Copy, Debug)]
pub enum DbFileStatus {
    /// The file did not exist and was created.
    Created,
    /// The file was there already.
    AlreadyExists,
    /// Creating the file failed for another reason.
    Failed,
}

/// Whether the library must be scanned into a freshly opened database:
/// only a database file that was just created is filled; a failure to
/// create it for any reason but its existence is fatal (`None`).
pub fn needs_initial_scan(status: DbFileStatus) -> (r: Option<bool>)
    ensures
        r == (match status {
            DbFileStatus::Created => Some(true),
            DbFileStatus::AlreadyExists => Some(false),
            DbFileStatus::Failed => None::<bool>,
        }),
{
    match status {
        DbFileStatus::Created => Some(true),
        DbFileStatus::AlreadyExists => Some(false),
        DbFileStatus::Failed => None,
    }
}

} // verus!
