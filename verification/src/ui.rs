//! The texts and figures the screen shows, computed from the state; drawing
//! them is left to the terminal front end.
use vstd::prelude::*;
use crate::app::{is_filtering, AppState, AppView};
use crate::format::{clock, clock_string, decimal, decimal_string};
use crate::text::join_str;

verus! {

pub const ROOT_LABEL: &'static str = "Root";
pub const LIBRARY_PREFIX: &'static str = " 📂 Library [";
pub const LIBRARY_ALL_SUFFIX: &'static str = "] (All) ";
pub const LIBRARY_SUFFIX: &'static str = "] ";
pub const SEARCH_PREFIX: &'static str = " 🔍 SEARCH: ";
pub const SEARCH_SUFFIX: &'static str = "█ ";
pub const FILTERED_PREFIX: &'static str = " 🔍 Filtered: '";
pub const FILTERED_SUFFIX: &'static str = "' ";
pub const QUEUE_PREFIX: &'static str = " 🎵 Queue (";
pub const QUEUE_SUFFIX: &'static str = ") ";
pub const TIME_SEPARATOR: &'static str = " / ";
pub const VOLUME_ICON: &'static str = "🔊 ";
pub const VOLUME_UNKNOWN: &'static str = "🔊 N/A";
pub const PERCENT_SIGN: &'static str = "%";
pub const NO_DURATION: &'static str = "--:--";
pub const NO_TRACK: &'static str = "No track playing";
pub const UNKNOWN_ARTIST: &'static str = "Unknown Artist";
pub const UNKNOWN_ALBUM: &'static str = "Unknown Album";

/// The title of the library pane: the folder (`Root` for the library root),
/// marked `(All)` while hidden names are shown.
pub open spec fn browser_title_text(path: Seq<char>, show_hidden: bool) -> Seq<char> {
    let shown = if path.len() == 0 { ROOT_LABEL@ } else { path };
    LIBRARY_PREFIX@ + shown + if show_hidden { LIBRARY_ALL_SUFFIX@ } else { LIBRARY_SUFFIX@ }
}

/// The title of the playlist pane: the query being typed, the query that
/// filters, or the length of the queue.
pub open spec fn playlist_title_text(v: AppView) -> Seq<char> {
    if v.search_mode {
        SEARCH_PREFIX@ + v.search_query + SEARCH_SUFFIX@
    } else if v.search_query.len() > 0 {
        FILTERED_PREFIX@ + v.search_query + FILTERED_SUFFIX@
    } else {
        QUEUE_PREFIX@ + decimal(v.queue.len()) + QUEUE_SUFFIX@
    }
}

/// The queue positions the playlist pane lists, top to bottom.
pub open spec fn playlist_rows_of(v: AppView) -> Seq<usize> {
    if is_filtering(v) {
        v.filtered_queue_indices
    } else {
        Seq::new(v.queue.len(), |i: int| i as usize)
    }
}

/// The two-character marker before a playlist row.
pub open spec fn row_marker_text(is_playing: bool, is_selected: bool) -> Seq<char> {
    if is_playing && is_selected {
        "▶▸"@
    } else if is_playing {
        "▶ "@
    } else if is_selected {
        "▸ "@
    } else {
        "  "@
    }
}

/// `s` right-aligned in a field of `width` characters (`{:>width}`).
pub open spec fn pad_left(s: Seq<char>, width: nat) -> Seq<char> {
    if s.len() < width {
        Seq::new((width - s.len()) as nat, |i: int| ' ') + s
    } else {
        s
    }
}

/// The title of the library pane.
pub fn browser_title(path: &str, show_hidden: bool) -> (out: String)
    ensures
        out@ == browser_title_text(path@, show_hidden),
{
    let shown = if path.is_empty() {
        ROOT_LABEL
    } else {
        path
    };
    let head = join_str(LIBRARY_PREFIX, shown);
    let out = if show_hidden {
        join_str(head.as_str(), LIBRARY_ALL_SUFFIX)
    } else {
        join_str(head.as_str(), LIBRARY_SUFFIX)
    };
    out
}

/// `played / total`, each as `mm:ss`.
pub fn progress_label(elapsed_secs: u64, total_secs: u64) -> (out: String)
    ensures
        out@ == clock(elapsed_secs as nat) + TIME_SEPARATOR@ + clock(total_secs as nat),
{
    let e = clock_string(elapsed_secs);
    let t = clock_string(total_secs);
    let head = join_str(e.as_str(), TIME_SEPARATOR);
    join_str(head.as_str(), t.as_str())
}

/// The volume in percent, or `N/A` when MPD has no mixer.
pub fn volume_text(volume: i8) -> (out: String)
    ensures
        out@ == if volume >= 0 {
            VOLUME_ICON@ + decimal(volume as nat) + PERCENT_SIGN@
        } else {
            VOLUME_UNKNOWN@
        },
{
    if volume >= 0 {
        let n = decimal_string(volume as u64);
        let head = join_str(VOLUME_ICON, n.as_str());
        join_str(head.as_str(), PERCENT_SIGN)
    } else {
        String::from_str(VOLUME_UNKNOWN)
    }
}

/// A song's length as `mm:ss`, or `--:--` when unknown.
pub fn duration_text(duration_ms: Option<u64>) -> (out: String)
    ensures
        out@ == match duration_ms {
            Some(ms) => clock((ms / 1000) as nat),
            None => NO_DURATION@,
        },
{
    match duration_ms {
        Some(ms) => clock_string(ms / 1000),
        None => String::from_str(NO_DURATION),
    }
}

/// The two-character marker before a playlist row: whether it plays and
/// whether it is selected.
pub fn row_marker(is_playing: bool, is_selected: bool) -> (out: &'static str)
    ensures
        out@ == row_marker_text(is_playing, is_selected),
{
    if is_playing && is_selected {
        "▶▸"
    } else if is_playing {
        "▶ "
    } else if is_selected {
        "▸ "
    } else {
        "  "
    }
}

/// The one-based queue number of a song, right-aligned in three columns.
pub fn queue_number(pos: usize) -> (out: String)
    requires
        pos < usize::MAX,
    ensures
        out@ == pad_left(decimal((pos + 1) as nat), 3),
{
    let digits = decimal_string((pos + 1) as u64);
    let n = digits.as_str().unicode_len();
    let mut out = String::new();
    let mut i: usize = n;
    while i < 3
        invariant
            n == decimal((pos + 1) as nat).len(),
            n <= i <= 3 || (n > 3 && i == n),
            out@ == Seq::new((i - n) as nat, |j: int| ' '),
        decreases 3 - i,
    {
        crate::text::push_char(&mut out, ' ');
        assert(out@ =~= Seq::new((i + 1 - n) as nat, |j: int| ' '));
        i = i + 1;
    }
    let out = join_str(out.as_str(), digits.as_str());
    assert(out@ =~= pad_left(decimal((pos + 1) as nat), 3));
    out
}

/// Where the help overlay goes on a screen of `width` by `height` cells:
/// centred, at most 62 by 24.  Returns `(x, y, width, height)`.
pub fn help_popup_area(width: u16, height: u16) -> (area: (u16, u16, u16, u16))
    ensures
        area.0 == (if width >= 62 { width - 62 } else { 0 }) / 2,
        area.1 == (if height >= 24 { height - 24 } else { 0 }) / 2,
        area.2 == if width < 62 { width } else { 62 },
        area.3 == if height < 24 { height } else { 24 },
{
    let x = width.saturating_sub(62) / 2;
    let y = height.saturating_sub(24) / 2;
    let w = if width < 62 {
        width
    } else {
        62
    };
    let h = if height < 24 {
        height
    } else {
        24
    };
    (x, y, w, h)
}

impl AppState {
    /// The title of the playlist pane.
    pub fn playlist_title(&self) -> (out: String)
        ensures
            out@ == playlist_title_text(self@),
    {
        if self.search_mode {
            let head = join_str(SEARCH_PREFIX, self.search_query.as_str());
            join_str(head.as_str(), SEARCH_SUFFIX)
        } else if !self.search_query.as_str().is_empty() {
            let head = join_str(FILTERED_PREFIX, self.search_query.as_str());
            join_str(head.as_str(), FILTERED_SUFFIX)
        } else {
            let n = decimal_string(self.queue.len() as u64);
            let head = join_str(QUEUE_PREFIX, n.as_str());
            join_str(head.as_str(), QUEUE_SUFFIX)
        }
    }

    /// The queue positions the playlist pane lists, top to bottom.
    pub fn playlist_rows(&self) -> (rows: Vec<usize>)
        ensures
            rows@ == playlist_rows_of(self@),
    {
        if self.is_filtering() {
            self.filtered_queue_indices.clone()
        } else {
            let mut rows: Vec<usize> = Vec::new();
            let mut i: usize = 0;
            while i < self.queue.len()
                invariant
                    i <= self.queue.len(),
                    rows@ == Seq::new(i as nat, |j: int| j as usize),
                decreases self.queue.len() - i,
            {
                rows.push(i);
                assert(rows@ =~= Seq::new((i + 1) as nat, |j: int| j as usize));
                i = i + 1;
            }
            rows
        }
    }

    /// The title, artist and album of the current song, or placeholders.
    pub fn now_playing(&self) -> (out: (String, String, String))
        ensures
            match self@.status.current_song {
                Some(s) => out.0@ == s.title && out.1@ == s.artist && out.2@ == s.album,
                None => out.0@ == NO_TRACK@ && out.1@ == UNKNOWN_ARTIST@ && out.2@
                    == UNKNOWN_ALBUM@,
            },
    {
        match &self.status.current_song {
            Some(s) => (s.title.clone(), s.artist.clone(), s.album.clone()),
            None => (
                String::from_str(NO_TRACK),
                String::from_str(UNKNOWN_ARTIST),
                String::from_str(UNKNOWN_ALBUM),
            ),
        }
    }

    /// The whole seconds played and the whole seconds of the current song,
    /// 0 when unknown.
    pub fn progress_secs(&self) -> (out: (u64, u64))
        ensures
            out.0 == match self@.status.elapsed {
                Some(ms) => ms / 1000,
                None => 0,
            },
            out.1 == match self@.status.total {
                Some(ms) => ms / 1000,
                None => 0,
            },
    {
        let e = match self.status.elapsed {
            Some(ms) => ms / 1000,
            None => 0,
        };
        let t = match self.status.total {
            Some(ms) => ms / 1000,
            None => 0,
        };
        (e, t)
    }
}

} // verus!
