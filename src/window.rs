use vstd::prelude::*;
use vstd::string::StringExecFns;
use crate::playlist::PlayerMsg;

verus! {

/// The decimal digit `d`.
pub open spec fn digit(d: nat) -> char {
    if d == 0 { '0' }
    else if d == 1 { '1' }
    else if d == 2 { '2' }
    else if d == 3 { '3' }
    else if d == 4 { '4' }
    else if d == 5 { '5' }
    else if d == 6 { '6' }
    else if d == 7 { '7' }
    else if d == 8 { '8' }
    else { '9' }
}

/// `n` written in decimal, without leading zeros.
pub open spec fn decimal(n: nat) -> Seq<char>
    decreases n,
{
    if n < 10 {
        seq![digit(n)]
    } else {
        decimal(n / 10).push(digit(n % 10))
    }
}

/// A duration in milliseconds as minutes and two-digit seconds, "m:ss".
pub open spec fn minutes_text(millis: nat) -> Seq<char> {
    let seconds = millis / 1000;
    let s = seconds % 60;
    decimal(seconds / 60) + seq![':', digit(s / 10), digit(s % 10)]
}

fn digit_str(d: u64) -> (r: &'static str)
    requires
        d < 10,
    ensures
        r@ == seq![digit(d as nat)],
{
    proof {
        reveal_strlit("0");
        reveal_strlit("1");
        reveal_strlit("2");
        reveal_strlit("3");
        reveal_strlit("4");
        reveal_strlit("5");
        reveal_strlit("6");
        reveal_strlit("7");
        reveal_strlit("8");
        reveal_strlit("9");
    }
    if d == 0 { "0" }
    else if d == 1 { "1" }
    else if d == 2 { "2" }
    else if d == 3 { "3" }
    else if d == 4 { "4" }
    else if d == 5 { "5" }
    else if d == 6 { "6" }
    else if d == 7 { "7" }
    else if d == 8 { "8" }
    else {
        assert(d == 9);
        "9"
    }
}

/// `n` in decimal.
pub fn decimal_string(n: u64) -> (r: String)
    ensures
        r@ == decimal(n as nat),
    decreases n,
{
    if n < 10 {
        String::from_str(digit_str(n))
    } else {
        decimal_string(n / 10).concat(digit_str(n % 10))
    }
}

/// A duration in milliseconds as "m:ss": whole minutes, then the seconds
/// left over in two digits.
pub fn millis_to_minutes(millis: u64) -> (r: String)
    ensures
        r@ == minutes_text(millis as nat),
{
    let mut seconds = millis / 1000;
    let minutes = seconds / 60;
    seconds = seconds % 60;
    proof {
        reveal_strlit(":");
    }
    let text = decimal_string(minutes).concat(":").concat(digit_str(seconds / 10)).concat(digit_str(seconds % 10));
    proof {
        assert(text@ =~= minutes_text(millis as nat));
    }
    text
}

/// What opening a folder does with each file found in it, by its extension.
#[derive(Clone, Copy, Debug, PartialEq, Eq, Structural)]
pub enum FileKind {
    /// A FLAC file: added to the playlist.
    Song,
    /// A file passed over in silence: an MP3 or M3U file, or one without an
    /// extension.
    Ignored,
    /// Any other file: reported as not opened.
    Unsupported,
}

pub open spec fn kind_of(extension: Option<Seq<char>>) -> FileKind {
    match extension {
        Some(e) => if e == "flac"@ {
            FileKind::Song
        } else if e == "mp3"@ || e == "m3u"@ {
            FileKind::Ignored
        } else {
            FileKind::Unsupported
        },
        None => FileKind::Ignored,
    }
}

/// Sorts a file found in an opened folder by its extension.
pub fn classify(extension: Option<String>) -> (r: FileKind)
    ensures
        r == kind_of(match extension {
            Some(e) => Some(e@),
            None => None,
        }),
{
    match extension {
        Some(e) => {
            if e == String::from_str("flac") {
                FileKind::Song
            } else if e == String::from_str("mp3") || e == String::from_str("m3u") {
                FileKind::Ignored
            } else {
                FileKind::Unsupported
            }
        },
        None => FileKind::Ignored,
    }
}

/// The names, each followed by a line break.
pub open spec fn lines(names: Seq<String>) -> Seq<char>
    decreases names.len(),
{
    if names.len() == 0 {
        Seq::empty()
    } else {
        lines(names.drop_last()) + names.last()@ + "\n"@
    }
}

pub open spec fn report_text(names: Seq<String>) -> Seq<char> {
    "Finished opening folder but could not open the following files:\n"@ + lines(names)
}

/// The message that lists the files of an opened folder that could not be
/// opened, one per line.
pub fn unopened_report(names: &Vec<String>) -> (r: String)
    ensures
        r@ == report_text(names@),
{
    let mut text = String::from_str("Finished opening folder but could not open the following files:\n");
    let mut i: usize = 0;
    while i < names.len()
        invariant
            i <= names@.len(),
            text@ == "Finished opening folder but could not open the following files:\n"@ + lines(names@.take(i as int)),
        decreases names@.len() - i,
    {
        text.append(names[i].as_str());
        text.append("\n");
        proof {
            assert(names@.take(i + 1).drop_last() =~= names@.take(i as int));
            assert(text@ =~= "Finished opening folder but could not open the following files:\n"@ + lines(names@.take(i + 1)));
        }
        i = i + 1;
    }
    proof {
        assert(names@.take(i as int) =~= names@);
    }
    text
}

/// The play button's picture.
#[derive(Clone, Copy, Debug, PartialEq, Eq, Structural)]
pub enum Icon {
    Play,
    Pause,
}

/// What the window asks of the playlist.
#[derive(Clone, Copy, Debug, PartialEq, Eq, Structural)]
pub enum Request {
    PlaySong,
    PauseSong,
    StopSong,
    NextSong,
    PreviousSong,
    RemoveSong,
}

/// What reaches the window: the buttons, and what the playlist and the
/// player report.
#[derive(Debug)]
pub enum Msg {
    Open,
    PlayPause,
    Previous,
    Stop,
    Meta(Vec<String>),
    MsgRecv(PlayerMsg),
    Next,
    Remove,
    Save,
    Started,
    Quit,
    Duration(u64),
    Changed,
}

/// What the window does in turn, besides changing its own state.
#[derive(Debug)]
pub enum Effect {
    /// Asks the playlist.
    Playlist(Request),
    /// Lets the user pick a folder to add.
    ShowOpenDialog,
    /// Lets the user pick a file to save the playlist in.
    ShowSaveDialog,
    /// Shows the title, artist, album, genre and year of the entry that plays.
    ShowMeta(Vec<String>),
    /// Ends the program.
    Quit,
}

/// The window after a message of the player.
pub open spec fn after_player_message(w: Window, msg: PlayerMsg) -> Window {
    match msg {
        PlayerMsg::PlayerPlay => Window { stopped: false, icon: Icon::Pause, ..w },
        PlayerMsg::PlayerStop => Window { stopped: true, icon: Icon::Play, ..w },
        PlayerMsg::PlayerTime(t) => Window { current_time: t, ..w },
    }
}

/// The window after its play/pause button, and what it asks.
pub open spec fn after_play_pause(w: Window) -> (Window, Request) {
    if w.stopped {
        (w, Request::PlaySong)
    } else {
        (Window { icon: Icon::Play, ..w }, Request::PauseSong)
    }
}

/// The window after its stop button.
pub open spec fn after_stop(w: Window) -> Window {
    Window { current_time: 0, current_duration: 0, cover_visible: false, icon: Icon::Play, ..w }
}

/// The window after an entry started.
pub open spec fn after_started(w: Window) -> Window {
    Window { cover_visible: true, icon: Icon::Pause, ..w }
}

/// What the window shows of playback: whether it is stopped, the elapsed
/// time and the duration in milliseconds, whether the cover shows, and the
/// play button's picture.
#[derive(Clone, Copy, Debug, PartialEq, Eq, Structural)]
pub struct Window {
    pub stopped: bool,
    pub current_time: u64,
    pub current_duration: u64,
    pub cover_visible: bool,
    pub icon: Icon,
}

impl Window {
    pub fn new() -> (r: Window)
        ensures
            r == (Window { stopped: true, current_time: 0, current_duration: 0, cover_visible: false, icon: Icon::Play }),
    {
        Window { stopped: true, current_time: 0, current_duration: 0, cover_visible: false, icon: Icon::Play }
    }

    /// Follows a message of the player.
    pub fn player_message(&mut self, msg: PlayerMsg)
        ensures
            *final(self) == after_player_message(*old(self), msg),
    {
        match msg {
            PlayerMsg::PlayerPlay => {
                self.stopped = false;
                self.icon = Icon::Pause;
            },
            PlayerMsg::PlayerStop => {
                self.icon = Icon::Play;
                self.stopped = true;
            },
            PlayerMsg::PlayerTime(time) => {
                self.current_time = time;
            },
        }
    }

    /// The play/pause button: plays where playback is stopped, and pauses it
    /// otherwise.
    pub fn play_pause(&mut self) -> (r: Request)
        ensures
            (*final(self), r) == after_play_pause(*old(self)),
    {
        if self.stopped {
            Request::PlaySong
        } else {
            self.icon = Icon::Play;
            Request::PauseSong
        }
    }

    /// The stop button: the time and the duration go back to zero and the
    /// cover hides.
    pub fn stop(&mut self) -> (r: Request)
        ensures
            r == Request::StopSong,
            *final(self) == after_stop(*old(self)),
    {
        self.current_time = 0;
        self.current_duration = 0;
        self.cover_visible = false;
        self.icon = Icon::Play;
        Request::StopSong
    }

    /// An entry started: the cover shows and the button offers a pause.
    pub fn started(&mut self)
        ensures
            *final(self) == after_started(*old(self)),
    {
        self.icon = Icon::Pause;
        self.cover_visible = true;
    }

    /// The duration of the playing entry became known.
    pub fn set_duration(&mut self, duration: u64)
        ensures
            *final(self) == (Window { current_duration: duration, ..*old(self) }),
    {
        self.current_duration = duration;
    }

    /// Reacts to a message: the buttons become requests to the playlist or
    /// dialogs, and what the player and the playlist report updates the
    /// window.
    pub fn update(&mut self, event: Msg) -> (r: Option<Effect>)
        ensures
            match event {
                Msg::MsgRecv(m) => *final(self) == after_player_message(*old(self), m) && r is None,
                Msg::PlayPause => *final(self) == after_play_pause(*old(self)).0
                    && r == Some(Effect::Playlist(after_play_pause(*old(self)).1)),
                Msg::Stop => *final(self) == after_stop(*old(self)) && r == Some(Effect::Playlist(Request::StopSong)),
                Msg::Started => *final(self) == after_started(*old(self)) && r is None,
                Msg::Duration(d) => *final(self) == (Window { current_duration: d, ..*old(self) }) && r is None,
                Msg::Previous => *final(self) == *old(self) && r == Some(Effect::Playlist(Request::PreviousSong)),
                Msg::Next => *final(self) == *old(self) && r == Some(Effect::Playlist(Request::NextSong)),
                Msg::Remove => *final(self) == *old(self) && r == Some(Effect::Playlist(Request::RemoveSong)),
                Msg::Open => *final(self) == *old(self) && r == Some(Effect::ShowOpenDialog),
                Msg::Save => *final(self) == *old(self) && r == Some(Effect::ShowSaveDialog),
                Msg::Meta(m) => *final(self) == *old(self) && r == Some(Effect::ShowMeta(m)),
                Msg::Quit => *final(self) == *old(self) && r == Some(Effect::Quit),
                Msg::Changed => *final(self) == *old(self) && r is None,
            },
    {
        match event {
            Msg::MsgRecv(m) => {
                self.player_message(m);
                None
            },
            Msg::PlayPause => Some(Effect::Playlist(self.play_pause())),
            Msg::Stop => Some(Effect::Playlist(self.stop())),
            Msg::Started => {
                self.started();
                None
            },
            Msg::Duration(d) => {
                self.set_duration(d);
                None
            },
            Msg::Previous => Some(Effect::Playlist(Request::PreviousSong)),
            Msg::Next => Some(Effect::Playlist(Request::NextSong)),
            Msg::Remove => Some(Effect::Playlist(Request::RemoveSong)),
            Msg::Open => Some(Effect::ShowOpenDialog),
            Msg::Save => Some(Effect::ShowSaveDialog),
            Msg::Meta(m) => Some(Effect::ShowMeta(m)),
            Msg::Quit => Some(Effect::Quit),
            Msg::Changed => None,
        }
    }

    /// The elapsed-time label.
    pub fn elapsed_label(&self) -> (r: String)
        ensures
            r@ == minutes_text(self.current_time as nat),
    {
        millis_to_minutes(self.current_time)
    }

    /// The duration label.
    pub fn duration_label(&self) -> (r: String)
        ensures
            r@ == minutes_text(self.current_duration as nat),
    {
        millis_to_minutes(self.current_duration)
    }
}

} // verus!
