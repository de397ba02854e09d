use vstd::prelude::*;
use vstd::string::StringExecFns;
use crate::player::{self, Action, Notice, Player};

verus! {

/// What the playback engine tells the interface.
#[derive(Clone, Copy, Debug, PartialEq, Eq, Structural)]
pub enum PlayerMsg {
    /// Playback started or resumed.
    PlayerPlay,
    /// Playback stopped or paused.
    PlayerStop,
    /// The elapsed time, in milliseconds.
    PlayerTime(u64),
}

/// The text of one playlist entry, as its columns show it.
#[derive(Debug)]
pub struct Row {
    pub title: String,
    pub artist: String,
    pub album: String,
    pub genre: String,
    pub year: String,
    pub track: String,
    pub path: String,
}

/// The metadata shown for the playing entry: title, artist, album, genre and
/// year.
pub open spec fn meta_of(row: Row) -> Seq<Seq<char>> {
    seq![row.title@, row.artist@, row.album@, row.genre@, row.year@]
}

/// What a playlist call asks of the rest of the program, in order.
#[derive(Debug)]
pub enum Output {
    /// The effects of a call on the player's control side.
    Control(Vec<Notice>),
    /// The duration of the entry that starts, in milliseconds.
    SongDuration(u64),
    /// The selected entry started playing.
    SongStarted,
    /// The metadata of the entry that started.
    SongMeta(Vec<String>),
    /// Read the tags and the duration of the file at this path, and add it.
    AddFile(String),
    /// Add the entries of the playlist file at this path.
    ReadList(String),
    /// Write the entries' paths to the playlist file at this path.
    WriteList(String),
}

/// What reaches the playlist: requests of the window, durations computed in
/// the background, and what it reports itself, which the window handles.
#[derive(Debug)]
pub enum Msg {
    SongDuration(u64),
    DurationComputed(String, u64),
    AddSong(String),
    LoadSong(String),
    NextSong,
    PauseSong,
    PlayerMsgRecv(PlayerMsg),
    PlaySong,
    PreviousSong,
    RemoveSong,
    SaveSong(String),
    Skip(u32),
    SongStarted,
    SongMeta(Vec<String>),
    StopSong,
}

/// What `play` outputs where it loads `path`: the load, the duration where one
/// is known, the start and the metadata of the entry.
pub open spec fn started_outputs(r: Seq<Output>, path: String, duration: Option<u64>, meta: Seq<Seq<char>>) -> bool {
    let n: int = if duration is Some { 2 } else { 1 };
    &&& r.len() == n + 2
    &&& r[0] matches Output::Control(v) && v@ == player::load_notices(path)
    &&& duration matches Some(d) ==> r[1] == Output::SongDuration(d)
    &&& r[n] is SongStarted
    &&& r[n + 1] matches Output::SongMeta(m) && m@.map_values(|s: String| s@) == meta
}

/// The last duration recorded for `path`, if any.
pub open spec fn lookup(durations: Seq<(String, u64)>, path: Seq<char>) -> Option<u64> {
    if exists|i: int| 0 <= i < durations.len() && durations[i].0@ == path {
        Some(durations[choose|i: int| 0 <= i < durations.len() && durations[i].0@ == path].1)
    } else {
        None
    }
}

/// No path is recorded twice.
pub open spec fn unique_paths(durations: Seq<(String, u64)>) -> bool {
    forall|i: int, j: int|
        0 <= i < j < durations.len() ==> #[trigger] durations[i].0@ != #[trigger] durations[j].0@
}

/// What a path's recorded duration is, where the entry at `i` holds that path.
proof fn lemma_lookup_at(durations: Seq<(String, u64)>, i: int)
    requires
        unique_paths(durations),
        0 <= i < durations.len(),
    ensures
        lookup(durations, durations[i].0@) == Some(durations[i].1),
{
    let p = durations[i].0@;
    assert(0 <= i < durations.len() && durations[i].0@ == p);
    let j = choose|j: int| 0 <= j < durations.len() && durations[j].0@ == p;
    if j < i {
        assert(durations[j].0@ != durations[i].0@);
    } else if i < j {
        assert(durations[i].0@ != durations[j].0@);
    }
}

/// A path that no entry holds has no recorded duration.
proof fn lemma_lookup_absent(durations: Seq<(String, u64)>, p: Seq<char>)
    requires
        forall|i: int| 0 <= i < durations.len() ==> #[trigger] durations[i].0@ != p,
    ensures
        lookup(durations, p) is None,
{
}

/// The entry that `next` selects: the one after the selection, or the first
/// where nothing is selected; `None` where there is none.
pub open spec fn next_index(selected: Option<usize>, len: int) -> Option<int> {
    match selected {
        Some(i) => if i + 1 < len { Some(i + 1) } else { None },
        None => if len > 0 { Some(0) } else { None },
    }
}

/// The entry that `previous` selects: the one before the selection, or the
/// last where nothing is selected; `None` where there is none.
pub open spec fn previous_index(selected: Option<usize>, len: int) -> Option<int> {
    match selected {
        Some(i) => if i > 0 { Some(i - 1) } else { None },
        None => if len > 0 { Some(len - 1) } else { None },
    }
}

/// The list of entries, which one is selected, and which one plays.
pub struct Playlist {
    rows: Vec<Row>,
    selected: Option<usize>,
    current_song: Option<String>,
    durations: Vec<(String, u64)>,
    player: Player,
}

/// `play`: with nothing selected nothing changes and nothing is output. The
/// selected entry is resumed where it is the paused one that plays; else it
/// is loaded, becomes the one that plays, and is announced.
pub open spec fn play_post(before: Playlist, after: Playlist, r: Seq<Output>) -> bool {
    &&& after.rows() == before.rows()
    &&& after.selection() == before.selection()
    &&& after.durations() == before.durations()
    &&& before.selection() is None ==> r.len() == 0 && after == before
    &&& before.selection() matches Some(i) ==> {
        let row = before.rows()[i as int];
        if before.control().paused() && (before.current() matches Some(c) && c@ == row.path@) {
            &&& r.len() == 1
            &&& r[0] matches Output::Control(v) && v@ == player::resume_notices()
            &&& after.current() == before.current()
            &&& !after.control().paused()
            &&& !after.control().stopped()
        } else {
            &&& started_outputs(r, row.path, lookup(before.durations(), row.path@), meta_of(row))
            &&& after.current() == Some(row.path)
            &&& after.control().paused() == before.control().paused()
            &&& !after.control().stopped()
        }
    }
}

/// `next`: selects and plays the entry after the selection (the first where
/// nothing is selected); at the end of the list nothing changes.
pub open spec fn next_post(before: Playlist, after: Playlist, r: Seq<Output>) -> bool {
    &&& after.rows() == before.rows()
    &&& after.durations() == before.durations()
    &&& next_index(before.selection(), before.rows().len() as int) is None ==> r.len() == 0 && after == before
    &&& next_index(before.selection(), before.rows().len() as int) matches Some(k) ==> {
        let row = before.rows()[k];
        &&& after.selection() == Some(k as usize)
        &&& if before.control().paused() && (before.current() matches Some(c) && c@ == row.path@) {
            r.len() == 1 && (r[0] matches Output::Control(v) && v@ == player::resume_notices())
        } else {
            &&& started_outputs(r, row.path, lookup(before.durations(), row.path@), meta_of(row))
            &&& after.current() == Some(row.path)
        }
    }
}

/// `previous`: selects and plays the entry before the selection (the last
/// where nothing is selected); at the start of the list nothing changes.
pub open spec fn previous_post(before: Playlist, after: Playlist, r: Seq<Output>) -> bool {
    &&& after.rows() == before.rows()
    &&& after.durations() == before.durations()
    &&& previous_index(before.selection(), before.rows().len() as int) is None ==> r.len() == 0 && after == before
    &&& previous_index(before.selection(), before.rows().len() as int) matches Some(k) ==> {
        let row = before.rows()[k];
        &&& after.selection() == Some(k as usize)
        &&& if before.control().paused() && (before.current() matches Some(c) && c@ == row.path@) {
            r.len() == 1 && (r[0] matches Output::Control(v) && v@ == player::resume_notices())
        } else {
            &&& started_outputs(r, row.path, lookup(before.durations(), row.path@), meta_of(row))
            &&& after.current() == Some(row.path)
        }
    }
}

/// `pause`: the player pauses; the list is as it was.
pub open spec fn pause_post(before: Playlist, after: Playlist, r: Seq<Output>) -> bool {
    &&& r.len() == 1
    &&& r[0] matches Output::Control(v) && v@ == player::pause_notices()
    &&& after.control().paused()
    &&& after.rows() == before.rows()
    &&& after.selection() == before.selection()
    &&& after.current() == before.current()
    &&& after.durations() == before.durations()
}

/// `stop`: the player stops and no entry plays.
pub open spec fn stop_post(before: Playlist, after: Playlist, r: Seq<Output>) -> bool {
    &&& r.len() == 1
    &&& r[0] matches Output::Control(v) && v@ == player::stop_notices(before.control().stopped())
    &&& after.current() is None
    &&& !after.control().paused()
    &&& after.control().stopped()
    &&& after.rows() == before.rows()
    &&& after.selection() == before.selection()
    &&& after.durations() == before.durations()
}

/// `skip`: asks the player to seek in the selected entry; nothing else changes.
pub open spec fn skip_post(before: Playlist, after: Playlist, r: Seq<Output>, time: u32) -> bool {
    &&& after == before
    &&& before.selection() is None ==> r.len() == 0
    &&& before.selection() matches Some(i) ==> r.len() == 1
        && (r[0] matches Output::Control(v) && v@ == player::skip_notices(before.rows()[i as int].path, time))
}

/// `duration_computed`: records the duration in milliseconds, and passes it
/// on where it belongs to the entry that plays.
pub open spec fn duration_computed_post(before: Playlist, after: Playlist, r: Seq<Output>, path: String, seconds: u64) -> bool {
    &&& after.rows() == before.rows()
    &&& after.selection() == before.selection()
    &&& after.current() == before.current()
    &&& after.control() == before.control()
    &&& lookup(after.durations(), path@) == Some(millis_of_seconds(seconds))
    &&& forall|p: Seq<char>| p != path@ ==> #[trigger] lookup(after.durations(), p) == lookup(before.durations(), p)
    &&& after.durations().len() <= before.durations().len() + 1
    &&& (before.current() matches Some(c) && c@ == path@) ==> r == seq![Output::SongDuration(millis_of_seconds(seconds))]
    &&& !(before.current() matches Some(c) && c@ == path@) ==> r.len() == 0
}

/// `remove_selection`: removes the selected entry and clears the selection.
pub open spec fn remove_selection_post(before: Playlist, after: Playlist) -> bool {
    &&& before.selection() matches Some(i) ==> after.rows() == before.rows().remove(i as int)
        && after.selection() is None
    &&& before.selection() is None ==> after == before
    &&& after.current() == before.current()
    &&& after.durations() == before.durations()
    &&& after.control() == before.control()
}

impl Playlist {
    pub closed spec fn wf(&self) -> bool {
        &&& self.selected matches Some(i) ==> i < self.rows@.len()
        &&& unique_paths(self.durations@)
    }

    pub closed spec fn rows(&self) -> Seq<Row> {
        self.rows@
    }

    pub closed spec fn selection(&self) -> Option<usize> {
        self.selected
    }

    pub closed spec fn current(&self) -> Option<String> {
        self.current_song
    }

    pub closed spec fn durations(&self) -> Seq<(String, u64)> {
        self.durations@
    }

    pub closed spec fn control(&self) -> Player {
        self.player
    }

    pub fn new() -> (r: Playlist)
        ensures
            r.wf(),
            r.rows().len() == 0,
            r.selection() is None,
            r.current() is None,
            r.durations().len() == 0,
            !r.control().paused(),
            !r.control().stopped(),
    {
        Playlist {
            rows: Vec::new(),
            selected: None,
            current_song: None,
            durations: Vec::new(),
            player: Player::new(),
        }
    }

    /// The entries, in order.
    pub fn rows_list(&self) -> (r: &Vec<Row>)
        ensures
            r@ == self.rows(),
    {
        &self.rows
    }

    /// Which entry is selected.
    pub fn selected(&self) -> (r: Option<usize>)
        ensures
            r == self.selection(),
    {
        self.selected
    }

    /// Selects entry `index`, or nothing.
    pub fn select(&mut self, index: Option<usize>)
        requires
            old(self).wf(),
            index matches Some(i) ==> i < old(self).rows().len(),
        ensures
            final(self).wf(),
            final(self).selection() == index,
            final(self).rows() == old(self).rows(),
            final(self).current() == old(self).current(),
            final(self).durations() == old(self).durations(),
            final(self).control() == old(self).control(),
    {
        self.selected = index;
    }

    /// Appends an entry at the end of the list.
    pub fn add(&mut self, row: Row)
        requires
            old(self).wf(),
        ensures
            final(self).wf(),
            final(self).rows() == old(self).rows().push(row),
            final(self).selection() == old(self).selection(),
            final(self).current() == old(self).current(),
            final(self).durations() == old(self).durations(),
            final(self).control() == old(self).control(),
    {
        self.rows.push(row);
    }

    /// The path of the entry that plays.
    pub fn path(&self) -> (r: Option<String>)
        ensures
            r == self.current(),
    {
        self.current_song.clone()
    }

    /// The path of the selected entry.
    pub fn selected_path(&self) -> (r: Option<String>)
        requires
            self.wf(),
        ensures
            r == (match self.selection() {
                Some(i) => Some(self.rows()[i as int].path),
                None => None,
            }),
    {
        match self.selected {
            Some(i) => Some(self.rows[i].path.clone()),
            None => None,
        }
    }

    /// The metadata of the selected entry; empty where nothing is selected.
    pub fn selected_meta(&self) -> (r: Vec<String>)
        requires
            self.wf(),
        ensures
            r@.map_values(|s: String| s@) == (match self.selection() {
                Some(i) => meta_of(self.rows()[i as int]),
                None => Seq::empty(),
            }),
    {
        let mut metadata: Vec<String> = Vec::with_capacity(5);
        match self.selected {
            Some(i) => {
                let row = &self.rows[i];
                metadata.push(row.title.clone());
                metadata.push(row.artist.clone());
                metadata.push(row.album.clone());
                metadata.push(row.genre.clone());
                metadata.push(row.year.clone());
                proof {
                    assert(metadata@.map_values(|s: String| s@) =~= meta_of(self.rows()[i as int]));
                }
            },
            None => {
                proof {
                    assert(metadata@.map_values(|s: String| s@) =~= Seq::<Seq<char>>::empty());
                }
            },
        }
        metadata
    }

    /// Where the duration of `path` is recorded.
    fn find_duration(&self, path: &String) -> (r: Option<usize>)
        requires
            self.wf(),
        ensures
            r matches Some(i) ==> i < self.durations@.len() && self.durations@[i as int].0@ == path@,
            r is None ==> forall|i: int| 0 <= i < self.durations@.len() ==> #[trigger] self.durations@[i].0@ != path@,
    {
        let mut i: usize = 0;
        while i < self.durations.len()
            invariant
                i <= self.durations@.len(),
                forall|j: int| 0 <= j < i ==> #[trigger] self.durations@[j].0@ != path@,
            decreases self.durations@.len() - i,
        {
            if self.durations[i].0 == *path {
                return Some(i);
            }
            i = i + 1;
        }
        None
    }

    /// The duration recorded for `path`, in milliseconds.
    pub fn duration_for(&self, path: &String) -> (r: Option<u64>)
        requires
            self.wf(),
        ensures
            r == lookup(self.durations(), path@),
    {
        match self.find_duration(path) {
            Some(i) => {
                proof {
                    lemma_lookup_at(self.durations@, i as int);
                }
                Some(self.durations[i].1)
            },
            None => {
                proof {
                    lemma_lookup_absent(self.durations@, path@);
                }
                None
            },
        }
    }

    /// Records the duration of the file at `path`, given in whole seconds, as
    /// milliseconds (held at `u64::MAX`), in place of any earlier one, and
    /// passes it on where that file plays.
    pub fn duration_computed(&mut self, path: String, seconds: u64) -> (r: Vec<Output>)
        requires
            old(self).wf(),
        ensures
            final(self).wf(),
            duration_computed_post(*old(self), *final(self), r@, path, seconds),
    {
        let ms: u64 = match seconds.checked_mul(1000) {
            Some(v) => v,
            None => u64::MAX,
        };
        let mut out: Vec<Output> = Vec::new();
        let plays = match &self.current_song {
            Some(c) => *c == path,
            None => false,
        };
        if plays {
            out.push(Output::SongDuration(ms));
        }
        let ghost before = self.durations@;
        let ghost key = path@;
        match self.find_duration(&path) {
            Some(i) => {
                self.durations.set(i, (path, ms));
                proof {
                    let after = self.durations@;
                    assert(forall|j: int| 0 <= j < after.len() ==> #[trigger] after[j].0@ == before[j].0@);
                    assert(unique_paths(after));
                    lemma_lookup_at(after, i as int);
                    assert forall|p: Seq<char>| p != key implies #[trigger] lookup(after, p) == lookup(before, p) by {
                        if exists|j: int| 0 <= j < before.len() && before[j].0@ == p {
                            let j = choose|j: int| 0 <= j < before.len() && before[j].0@ == p;
                            lemma_lookup_at(before, j);
                            lemma_lookup_at(after, j);
                        } else {
                            lemma_lookup_absent(before, p);
                            lemma_lookup_absent(after, p);
                        }
                    }
                }
            },
            None => {
                self.durations.push((path, ms));
                proof {
                    let after = self.durations@;
                    assert(unique_paths(after));
                    lemma_lookup_at(after, before.len() as int);
                    assert forall|p: Seq<char>| p != key implies #[trigger] lookup(after, p) == lookup(before, p) by {
                        if exists|j: int| 0 <= j < before.len() && before[j].0@ == p {
                            let j = choose|j: int| 0 <= j < before.len() && before[j].0@ == p;
                            lemma_lookup_at(before, j);
                            lemma_lookup_at(after, j);
                        } else {
                            lemma_lookup_absent(before, p);
                            lemma_lookup_absent(after, p);
                        }
                    }
                }
            },
        }
        proof {
            if plays {
                assert(out@ =~= seq![Output::SongDuration(millis_of_seconds(seconds))]);
            }
        }
        out
    }

    /// Plays the selected entry: resumes it where it is the paused one, and
    /// loads it otherwise.
    pub fn play(&mut self) -> (r: Vec<Output>)
        requires
            old(self).wf(),
        ensures
            final(self).wf(),
            play_post(*old(self), *final(self), r@),
    {
        let mut out: Vec<Output> = Vec::new();
        match self.selected_path() {
            None => {},
            Some(path) => {
                let same = match &self.current_song {
                    Some(c) => *c == path,
                    None => false,
                };
                if self.player.is_paused() && same {
                    out.push(Output::Control(self.player.resume()));
                } else {
                    let duration = self.duration_for(&path);
                    out.push(Output::Control(self.player.load(path.clone())));
                    match duration {
                        Some(d) => out.push(Output::SongDuration(d)),
                        None => {},
                    }
                    self.current_song = Some(path);
                    out.push(Output::SongStarted);
                    out.push(Output::SongMeta(self.selected_meta()));
                }
            },
        }
        out
    }

    /// Selects the entry after the selected one (the first, where nothing is
    /// selected) and plays it; does nothing at the end of the list.
    pub fn next(&mut self) -> (r: Vec<Output>)
        requires
            old(self).wf(),
        ensures
            final(self).wf(),
            next_post(*old(self), *final(self), r@),
    {
        let len = self.rows.len();
        let target: Option<usize> = match self.selected {
            Some(i) => if i + 1 < len { Some(i + 1) } else { None },
            None => if len > 0 { Some(0) } else { None },
        };
        match target {
            Some(k) => {
                self.selected = Some(k);
                self.play()
            },
            None => Vec::new(),
        }
    }

    /// Selects the entry before the selected one (the last, where nothing is
    /// selected) and plays it; does nothing at the start of the list.
    pub fn previous(&mut self) -> (r: Vec<Output>)
        requires
            old(self).wf(),
        ensures
            final(self).wf(),
            previous_post(*old(self), *final(self), r@),
    {
        let len = self.rows.len();
        let target: Option<usize> = match self.selected {
            Some(i) => if i > 0 { Some(i - 1) } else { None },
            None => if len > 0 { Some(len - 1) } else { None },
        };
        match target {
            Some(k) => {
                self.selected = Some(k);
                self.play()
            },
            None => Vec::new(),
        }
    }

    /// Holds playback.
    pub fn pause(&mut self) -> (r: Vec<Output>)
        requires
            old(self).wf(),
        ensures
            final(self).wf(),
            pause_post(*old(self), *final(self), r@),
    {
        let notices = self.player.pause();
        vec![Output::Control(notices)]
    }

    /// Stops playback; no entry plays afterwards.
    pub fn stop(&mut self) -> (r: Vec<Output>)
        requires
            old(self).wf(),
        ensures
            final(self).wf(),
            stop_post(*old(self), *final(self), r@),
    {
        self.current_song = None;
        let notices = self.player.stop();
        vec![Output::Control(notices)]
    }

    /// Moves playback of the selected entry to `time` milliseconds.
    pub fn skip(&mut self, time: u32) -> (r: Vec<Output>)
        requires
            old(self).wf(),
        ensures
            final(self).wf(),
            skip_post(*old(self), *final(self), r@, time),
    {
        match self.selected_path() {
            Some(path) => vec![Output::Control(self.player.skip(path, time))],
            None => Vec::new(),
        }
    }

    /// The columns of the playlist view, left to right: the thumbnail, title,
    /// artist, album, genre, year and track, and the full cover, hidden.
    pub fn create_columns(&self) -> (r: Vec<Column>)
        ensures
            r@.len() == 8,
            r@[0].index == THUMBNAIL_COLUMN && r@[0].title is None && r@[0].visible,
            text_column(r@[1], TITLE_COLUMN, "Title"@),
            text_column(r@[2], ARTIST_COLUMN, "Artist"@),
            text_column(r@[3], ALBUM_COLUMN, "Album"@),
            text_column(r@[4], GENRE_COLUMN, "Genre"@),
            text_column(r@[5], YEAR_COLUMN, "Year"@),
            text_column(r@[6], TRACK_COLUMN, "Track"@),
            r@[7].index == PIXBUF_COLUMN && r@[7].title is None && !r@[7].visible,
    {
        let mut columns: Vec<Column> = Vec::with_capacity(8);
        columns.push(Column { index: THUMBNAIL_COLUMN, title: None, visible: true });
        columns.push(titled(TITLE_COLUMN, "Title"));
        columns.push(titled(ARTIST_COLUMN, "Artist"));
        columns.push(titled(ALBUM_COLUMN, "Album"));
        columns.push(titled(GENRE_COLUMN, "Genre"));
        columns.push(titled(YEAR_COLUMN, "Year"));
        columns.push(titled(TRACK_COLUMN, "Track"));
        columns.push(Column { index: PIXBUF_COLUMN, title: None, visible: false });
        columns
    }

    /// Reacts to a message by the operation it names; file work goes out as
    /// requests, and what the window handles is passed over.
    pub fn update(&mut self, event: Msg) -> (r: Vec<Output>)
        requires
            old(self).wf(),
        ensures
            final(self).wf(),
            match event {
                Msg::AddSong(p) => r@ == seq![Output::AddFile(p)] && *final(self) == *old(self),
                Msg::LoadSong(p) => r@ == seq![Output::ReadList(p)] && *final(self) == *old(self),
                Msg::SaveSong(p) => r@ == seq![Output::WriteList(p)] && *final(self) == *old(self),
                Msg::DurationComputed(p, d) => duration_computed_post(*old(self), *final(self), r@, p, d),
                Msg::NextSong => next_post(*old(self), *final(self), r@),
                Msg::PreviousSong => previous_post(*old(self), *final(self), r@),
                Msg::PlaySong => play_post(*old(self), *final(self), r@),
                Msg::PauseSong => pause_post(*old(self), *final(self), r@),
                Msg::StopSong => stop_post(*old(self), *final(self), r@),
                Msg::Skip(t) => skip_post(*old(self), *final(self), r@, t),
                Msg::RemoveSong => remove_selection_post(*old(self), *final(self)) && r@.len() == 0,
                _ => r@.len() == 0 && *final(self) == *old(self),
            },
    {
        match event {
            Msg::AddSong(p) => vec![Output::AddFile(p)],
            Msg::LoadSong(p) => vec![Output::ReadList(p)],
            Msg::SaveSong(p) => vec![Output::WriteList(p)],
            Msg::DurationComputed(p, d) => self.duration_computed(p, d),
            Msg::NextSong => self.next(),
            Msg::PreviousSong => self.previous(),
            Msg::PlaySong => self.play(),
            Msg::PauseSong => self.pause(),
            Msg::StopSong => self.stop(),
            Msg::Skip(t) => self.skip(t),
            Msg::RemoveSong => {
                self.remove_selection();
                Vec::new()
            },
            Msg::PlayerMsgRecv(_) | Msg::SongDuration(_) | Msg::SongStarted | Msg::SongMeta(_) => Vec::new(),
        }
    }

    /// Removes the selected entry; nothing is selected afterwards.
    pub fn remove_selection(&mut self)
        requires
            old(self).wf(),
        ensures
            final(self).wf(),
            remove_selection_post(*old(self), *final(self)),
    {
        match self.selected {
            Some(i) => {
                self.rows.remove(i);
                self.selected = None;
            },
            None => {},
        }
    }
}

/// The first value of each tag an entry's file carries.
#[derive(Debug)]
pub struct TagFields {
    pub title: Option<String>,
    pub artist: Option<String>,
    pub album: Option<String>,
    pub genre: Option<String>,
    pub year: Option<String>,
    pub track: Option<String>,
}

/// A tag's text, or "Unknown" where the file lacks the tag.
pub open spec fn or_unknown(value: Option<String>) -> Seq<char> {
    match value {
        Some(v) => v@,
        None => "Unknown"@,
    }
}

fn text_or_unknown(value: Option<String>) -> (r: String)
    ensures
        r@ == or_unknown(value),
{
    match value {
        Some(v) => v,
        None => String::from_str("Unknown"),
    }
}

/// The row an entry gets: the tags where the file has them, its file name
/// (without extension) as title where it has no title, and "Unknown" for the
/// other tags it lacks. The track column reads "<track> / ??". A file whose
/// tags cannot be read shows its file name alone.
pub fn row_for(path: String, file_stem: String, tags: Option<TagFields>) -> (r: Row)
    ensures
        r.path == path,
        tags is None ==> {
            &&& r.title == file_stem
            &&& r.artist@.len() == 0 && r.album@.len() == 0 && r.genre@.len() == 0
            &&& r.year@.len() == 0 && r.track@.len() == 0
        },
        tags matches Some(t) ==> {
            &&& r.title@ == (match t.title {
                Some(v) => v@,
                None => file_stem@,
            })
            &&& r.artist@ == or_unknown(t.artist)
            &&& r.album@ == or_unknown(t.album)
            &&& r.genre@ == or_unknown(t.genre)
            &&& r.year@ == or_unknown(t.year)
            &&& r.track@ == or_unknown(t.track) + " / ??"@
        },
{
    match tags {
        Some(t) => {
            let title = match t.title {
                Some(v) => v,
                None => file_stem,
            };
            let track = text_or_unknown(t.track).concat(" / ??");
            Row {
                title,
                artist: text_or_unknown(t.artist),
                album: text_or_unknown(t.album),
                genre: text_or_unknown(t.genre),
                year: text_or_unknown(t.year),
                track,
                path,
            }
        },
        None => Row {
            title: file_stem,
            artist: String::new(),
            album: String::new(),
            genre: String::new(),
            year: String::new(),
            track: String::new(),
            path,
        },
    }
}

/// One column of the playlist view: which field of the store it shows, under
/// which title. A column without a title shows a picture.
#[derive(Debug)]
pub struct Column {
    pub index: u32,
    pub title: Option<String>,
    pub visible: bool,
}

/// The store fields: the thumbnail, the texts, the path and the full cover.
pub const THUMBNAIL_COLUMN: u32 = 0;
pub const TITLE_COLUMN: u32 = 1;
pub const ARTIST_COLUMN: u32 = 2;
pub const ALBUM_COLUMN: u32 = 3;
pub const GENRE_COLUMN: u32 = 4;
pub const YEAR_COLUMN: u32 = 5;
pub const TRACK_COLUMN: u32 = 6;
pub const PATH_COLUMN: u32 = 7;
pub const PIXBUF_COLUMN: u32 = 8;

pub open spec fn text_column(c: Column, index: u32, title: Seq<char>) -> bool {
    c.index == index && c.visible && (c.title matches Some(t) && t@ == title)
}

fn titled(index: u32, title: &str) -> (r: Column)
    ensures
        r.index == index,
        r.visible,
        r.title matches Some(t) && t@ == title@,
{
    Column { index, title: Some(String::from_str(title)), visible: true }
}

/// A duration in seconds as milliseconds, held at `u64::MAX`.
pub open spec fn millis_of_seconds(seconds: u64) -> u64 {
    if seconds * 1000 > u64::MAX { u64::MAX } else { (seconds * 1000) as u64 }
}

} // verus!
