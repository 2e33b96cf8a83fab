//! The player's picture of MPD: playback status, queued songs, library
//! entries and the commands sent to the server, with the decisions that turn
//! what the server reports into these values.
use vstd::prelude::*;
use crate::text::{
    eq_ignore_ascii_case, file_name_or_path, get_filename_fallback, join_str, push_char,
    spec_eq_ignore_ascii_case, text_eq,
};

verus! {

/// Whether MPD is playing, and whether it could be reached at all.
#[derive(Debug, Clone, Copy, PartialEq, Eq, Structural)]
pub enum PlaybackState {
    Playing,
    Paused,
    Stopped,
    Disconnected,
}

/// A song in the play queue.  Durations are whole milliseconds.
#[derive(Debug, Clone)]
pub struct SongInfo {
    pub id: u32,
    pub pos: usize,
    pub file: String,
    pub title: String,
    pub artist: String,
    pub album: String,
    pub duration: Option<u64>,
}

/// The value of a `SongInfo`.
pub struct SongView {
    pub id: u32,
    pub pos: usize,
    pub file: Seq<char>,
    pub title: Seq<char>,
    pub artist: Seq<char>,
    pub album: Seq<char>,
    pub duration: Option<u64>,
}

impl View for SongInfo {
    type V = SongView;

    open spec fn view(&self) -> SongView {
        SongView {
            id: self.id,
            pos: self.pos,
            file: self.file@,
            title: self.title@,
            artist: self.artist@,
            album: self.album@,
            duration: self.duration,
        }
    }
}

impl DeepView for SongInfo {
    type V = SongView;

    open spec fn deep_view(&self) -> SongView {
        self@
    }
}

/// MPD's playback status as the player shows it.  `elapsed` and `total` are
/// whole milliseconds; `volume` is -1 when MPD has no mixer.
#[derive(Debug, Clone)]
pub struct MpdStatus {
    pub state: PlaybackState,
    pub volume: i8,
    pub repeat: bool,
    pub random: bool,
    pub single: bool,
    pub elapsed: Option<u64>,
    pub total: Option<u64>,
    pub current_song: Option<SongInfo>,
}

/// The value of an `MpdStatus`.
pub struct StatusView {
    pub state: PlaybackState,
    pub volume: i8,
    pub repeat: bool,
    pub random: bool,
    pub single: bool,
    pub elapsed: Option<u64>,
    pub total: Option<u64>,
    pub current_song: Option<SongView>,
}

impl View for MpdStatus {
    type V = StatusView;

    open spec fn view(&self) -> StatusView {
        StatusView {
            state: self.state,
            volume: self.volume,
            repeat: self.repeat,
            random: self.random,
            single: self.single,
            elapsed: self.elapsed,
            total: self.total,
            current_song: match self.current_song {
                Some(s) => Some(s@),
                None => None,
            },
        }
    }
}

/// The status shown while MPD cannot be reached.
pub open spec fn disconnected_status() -> StatusView {
    StatusView {
        state: PlaybackState::Disconnected,
        volume: -1i8,
        repeat: false,
        random: false,
        single: false,
        elapsed: None,
        total: None,
        current_song: None,
    }
}

impl Default for MpdStatus {
    /// Disconnected, with no volume and no song.
    fn default() -> (s: Self)
        ensures
            s@ == disconnected_status(),
    {
        MpdStatus {
            state: PlaybackState::Disconnected,
            volume: -1,
            repeat: false,
            random: false,
            single: false,
            elapsed: None,
            total: None,
            current_song: None,
        }
    }
}

/// An entry of the library browser: a directory or a song file.
#[derive(Debug, Clone)]
pub struct DirEntry {
    pub name: String,
    pub path: String,
    pub is_dir: bool,
}

/// The value of a `DirEntry`.
pub struct DirEntryView {
    pub name: Seq<char>,
    pub path: Seq<char>,
    pub is_dir: bool,
}

impl View for DirEntry {
    type V = DirEntryView;

    open spec fn view(&self) -> DirEntryView {
        DirEntryView { name: self.name@, path: self.path@, is_dir: self.is_dir }
    }
}

impl DeepView for DirEntry {
    type V = DirEntryView;

    open spec fn deep_view(&self) -> DirEntryView {
        self@
    }
}

/// A request sent to MPD.
#[derive(Debug)]
pub enum MpdCommand {
    TogglePause,
    Next,
    Prev,
    ChangeVolume(i8),
    PlayIndex(usize),
    DeleteIndex(u32),
    ClearQueue,
    AddPath(String),
    ImmersionMode(Option<String>),
    ToggleSingle,
    ToggleRandom,
    ToggleRepeat,
    SeekRelative(i64),
}

/// The value of an `MpdCommand`.
pub enum CommandView {
    TogglePause,
    Next,
    Prev,
    ChangeVolume(i8),
    PlayIndex(usize),
    DeleteIndex(u32),
    ClearQueue,
    AddPath(Seq<char>),
    ImmersionMode(Option<Seq<char>>),
    ToggleSingle,
    ToggleRandom,
    ToggleRepeat,
    SeekRelative(i64),
}

impl View for MpdCommand {
    type V = CommandView;

    open spec fn view(&self) -> CommandView {
        match self {
            MpdCommand::TogglePause => CommandView::TogglePause,
            MpdCommand::Next => CommandView::Next,
            MpdCommand::Prev => CommandView::Prev,
            MpdCommand::ChangeVolume(d) => CommandView::ChangeVolume(*d),
            MpdCommand::PlayIndex(i) => CommandView::PlayIndex(*i),
            MpdCommand::DeleteIndex(i) => CommandView::DeleteIndex(*i),
            MpdCommand::ClearQueue => CommandView::ClearQueue,
            MpdCommand::AddPath(p) => CommandView::AddPath(p@),
            MpdCommand::ImmersionMode(t) => CommandView::ImmersionMode(
                match t {
                    Some(p) => Some(p@),
                    None => None,
                },
            ),
            MpdCommand::ToggleSingle => CommandView::ToggleSingle,
            MpdCommand::ToggleRandom => CommandView::ToggleRandom,
            MpdCommand::ToggleRepeat => CommandView::ToggleRepeat,
            MpdCommand::SeekRelative(s) => CommandView::SeekRelative(*s),
        }
    }
}

// ---------------------------------------------------------------------------
// Songs
// ---------------------------------------------------------------------------

/// The value of the first tag whose name equals `key` up to ASCII case.
pub open spec fn find_tag(tags: Seq<(Seq<char>, Seq<char>)>, key: Seq<char>) -> Option<Seq<char>>
    decreases tags.len(),
{
    if tags.len() == 0 {
        None
    } else if spec_eq_ignore_ascii_case(tags[0].0, key) {
        Some(tags[0].1)
    } else {
        find_tag(tags.drop_first(), key)
    }
}

/// The tag value, or `fallback` when the song lacks the tag.
pub open spec fn tag_or(tags: Seq<(Seq<char>, Seq<char>)>, key: Seq<char>, fallback: Seq<char>) -> Seq<char> {
    match find_tag(tags, key) {
        Some(v) => v,
        None => fallback,
    }
}

/// The song the queue shows for a file with its tags, queue place
/// `(id, pos)` and length: the title falls back to the file name, the
/// artist and album to fixed placeholders, and a song with no place gets
/// id and position 0.
pub open spec fn song_of(
    file: Seq<char>,
    tags: Seq<(Seq<char>, Seq<char>)>,
    place: Option<(u32, u32)>,
    duration: Option<u64>,
) -> SongView {
    SongView {
        id: match place {
            Some(p) => p.0,
            None => 0,
        },
        pos: match place {
            Some(p) => p.1 as usize,
            None => 0,
        },
        file: file,
        title: tag_or(tags, "Title"@, file_name_or_path(file)),
        artist: tag_or(tags, "Artist"@, "Unknown Artist"@),
        album: tag_or(tags, "Album"@, "Unknown Album"@),
        duration: duration,
    }
}

/// The value of the first tag named `key`, ignoring ASCII case.
pub fn get_tag(tags: &Vec<(String, String)>, key: &str) -> (out: Option<String>)
    ensures
        match out {
            Some(v) => find_tag(tags.deep_view(), key@) == Some(v@),
            None => find_tag(tags.deep_view(), key@) is None,
        },
{
    let ghost all = tags.deep_view();
    let mut i: usize = 0;
    assert(all.skip(0) =~= all);
    while i < tags.len()
        invariant
            i <= tags.len(),
            all == tags.deep_view(),
            find_tag(all, key@) == find_tag(all.skip(i as int), key@),
        decreases tags.len() - i,
    {
        assert(all.skip(i as int)[0] == all[i as int]);
        assert(all.skip(i as int).drop_first() =~= all.skip(i + 1));
        if eq_ignore_ascii_case(tags[i].0.as_str(), key) {
            return Some(tags[i].1.clone());
        }
        i = i + 1;
    }
    None
}

/// The queue entry for a song MPD reports: its file, its tags, its queue
/// place `(id, pos)` if queued, and its length in milliseconds.
pub fn song_info(
    file: String,
    tags: &Vec<(String, String)>,
    place: Option<(u32, u32)>,
    duration: Option<u64>,
) -> (song: SongInfo)
    ensures
        song@ == song_of(file@, tags.deep_view(), place, duration),
{
    let title = match get_tag(tags, "Title") {
        Some(t) => t,
        None => get_filename_fallback(file.as_str()),
    };
    let artist = match get_tag(tags, "Artist") {
        Some(a) => a,
        None => String::from_str("Unknown Artist"),
    };
    let album = match get_tag(tags, "Album") {
        Some(a) => a,
        None => String::from_str("Unknown Album"),
    };
    let (id, pos) = match place {
        Some((id, pos)) => (id, pos as usize),
        None => (0, 0),
    };
    SongInfo { id, pos, file, title, artist, album, duration }
}

// ---------------------------------------------------------------------------
// Command decisions
// ---------------------------------------------------------------------------

/// What a play/pause toggle asks of MPD in each state.
#[derive(Debug, Clone, Copy, PartialEq, Eq, Structural)]
pub enum PauseStep {
    /// `pause 1`: playback was running.
    Pause,
    /// `pause 0`: playback was paused.
    Resume,
    /// `play`: playback was stopped.
    Start,
}

/// Play/pause toggling: pause what plays, resume what is paused, start what
/// is stopped.  The state is one MPD reports, so never `Disconnected`.
pub fn toggle_pause_step(state: PlaybackState) -> (step: PauseStep)
    requires
        state != PlaybackState::Disconnected,
    ensures
        state == PlaybackState::Playing ==> step == PauseStep::Pause,
        state == PlaybackState::Paused ==> step == PauseStep::Resume,
        state == PlaybackState::Stopped ==> step == PauseStep::Start,
{
    match state {
        PlaybackState::Playing => PauseStep::Pause,
        PlaybackState::Paused => PauseStep::Resume,
        _ => PauseStep::Start,
    }
}

/// `x` limited to `lo..=hi`.
pub open spec fn clamp(x: int, lo: int, hi: int) -> int {
    if x < lo {
        lo
    } else if x > hi {
        hi
    } else {
        x
    }
}

/// The volume to set after a change by `delta`: `current + delta` kept
/// within 0..=100.  The sum is computed in `i8` and must not overflow.
pub fn volume_target(current: i8, delta: i8) -> (v: i8)
    requires
        i8::MIN <= current + delta <= i8::MAX,
    ensures
        v == clamp(current + delta, 0, 100),
        0 <= v <= 100,
{
    let sum = current + delta;
    if sum < 0 {
        0
    } else if sum > 100 {
        100
    } else {
        sum
    }
}

/// The position to seek to, in seconds, after moving `delta` seconds from
/// `elapsed_secs`: never before the start of the song.  The elapsed seconds
/// are taken `as i64`, and adding `delta` to them must not overflow.
pub fn seek_target(elapsed_secs: u64, delta: i64) -> (t: i64)
    requires
        i64::MIN <= (elapsed_secs as i64) + delta <= i64::MAX,
    ensures
        t == if (elapsed_secs as i64) + delta < 0 {
            0
        } else {
            (elapsed_secs as i64) + delta
        },
        t >= 0,
{
    let base = elapsed_secs as i64;
    let sum = base + delta;
    if sum < 0 {
        0
    } else {
        sum
    }
}

/// The library path that immersion mode fills the queue from: the whole
/// library (`""`) when no folder is given or the folder is `/`.
pub open spec fn immersion_path(target: Option<Seq<char>>) -> Seq<char> {
    match target {
        None => Seq::empty(),
        Some(p) => if p == "/"@ {
            Seq::empty()
        } else {
            p
        },
    }
}

/// The library path that immersion mode fills the queue from.
pub fn immersion_target(target: Option<String>) -> (path: String)
    ensures
        path@ == immersion_path(
            match target {
                Some(p) => Some(p@),
                None => None,
            },
        ),
{
    match target {
        None => String::new(),
        Some(p) => {
            if text_eq(p.as_str(), "/") {
                String::new()
            } else {
                p
            }
        },
    }
}

pub const DEFAULT_ADDRESS: &'static str = "127.0.0.1:6600";
pub const DEFAULT_HOST: &'static str = "127.0.0.1";
pub const DEFAULT_PORT: &'static str = "6600";

/// The address to connect to: the one given, unless it is the default
/// `127.0.0.1:6600`, in which case `$MPD_HOST` and `$MPD_PORT` (when set)
/// take the place of the default host and port.
pub open spec fn server_address_of(
    given: Seq<char>,
    host: Option<Seq<char>>,
    port: Option<Seq<char>>,
) -> Seq<char> {
    if given == DEFAULT_ADDRESS@ {
        let h = match host {
            Some(h) => h,
            None => DEFAULT_HOST@,
        };
        let p = match port {
            Some(p) => p,
            None => DEFAULT_PORT@,
        };
        h + seq![':'] + p
    } else {
        given
    }
}

/// The address to connect to, from the `--address` argument and the
/// `MPD_HOST` and `MPD_PORT` variables.
pub fn server_address(given: &str, host: Option<String>, port: Option<String>) -> (addr: String)
    ensures
        addr@ == server_address_of(
            given@,
            match host {
                Some(h) => Some(h@),
                None => None,
            },
            match port {
                Some(p) => Some(p@),
                None => None,
            },
        ),
{
    if text_eq(given, DEFAULT_ADDRESS) {
        let mut addr = match host {
            Some(h) => h,
            None => String::from_str(DEFAULT_HOST),
        };
        push_char(&mut addr, ':');
        let port_text = match port {
            Some(p) => p,
            None => String::from_str(DEFAULT_PORT),
        };
        let addr = join_str(addr.as_str(), port_text.as_str());
        addr
    } else {
        String::from_str(given)
    }
}

/// A direct `add` of a path took effect exactly when the queue grew.
pub fn direct_add_worked(queue_len_before: usize, queue_len_after: usize) -> (b: bool)
    ensures
        b == (queue_len_after > queue_len_before),
{
    queue_len_after > queue_len_before
}

/// What adding a folder entry by entry does with one entry of the folder's
/// listing: a directory is added the same way in turn, a file is queued.
#[derive(Debug)]
pub enum AddWork {
    Recurse(String),
    PushFile(String),
}

/// The value of an `AddWork`.
pub enum AddWorkView {
    Recurse(Seq<char>),
    PushFile(Seq<char>),
}

impl View for AddWork {
    type V = AddWorkView;

    open spec fn view(&self) -> AddWorkView {
        match self {
            AddWork::Recurse(p) => AddWorkView::Recurse(p@),
            AddWork::PushFile(p) => AddWorkView::PushFile(p@),
        }
    }
}

/// The work for one entry of a listing.
pub open spec fn work_for(e: DirEntryView) -> AddWorkView {
    if e.is_dir {
        AddWorkView::Recurse(e.path)
    } else {
        AddWorkView::PushFile(e.path)
    }
}

/// When a direct `add` of a path did not take effect, the work that adds
/// its listing entry by entry, in listing order.
pub fn fallback_work(entries: &Vec<DirEntry>) -> (out: Vec<AddWork>)
    ensures
        out.len() == entries.len(),
        forall|i: int| 0 <= i < out.len() ==> #[trigger] out[i]@ == work_for(entries[i]@),
{
    let mut out: Vec<AddWork> = Vec::new();
    let mut i: usize = 0;
    while i < entries.len()
        invariant
            i <= entries.len(),
            out.len() == i,
            forall|j: int| 0 <= j < i ==> #[trigger] out[j]@ == work_for(entries[j]@),
        decreases entries.len() - i,
    {
        let e = &entries[i];
        let w = if e.is_dir {
            AddWork::Recurse(e.path.clone())
        } else {
            AddWork::PushFile(e.path.clone())
        };
        out.push(w);
        i = i + 1;
    }
    out
}

} // verus!
