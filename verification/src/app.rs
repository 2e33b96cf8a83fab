//! The player's interface state: which pane is focused, the queue and its
//! search filter, the library browser, the toast notification, and what is
//! remembered for the next run.
use vstd::prelude::*;
use std::time::Instant;
use crate::clock::{millis_since, now};
use crate::mpd_client::{DirEntry, DirEntryView, MpdStatus, SongInfo, SongView, StatusView, disconnected_status};
use crate::state::{PersistentState, PersistentView};
use crate::text::{
    chars_of, has_in_order, is_blank, lowercase, seq_has_in_order, spec_is_blank, to_lowercase,
};

verus! {

/// The pane that has the keyboard focus.
#[derive(Debug, Clone, Copy, PartialEq, Eq, Structural)]
pub enum ActiveTab {
    Playlist,
    Browser,
}

/// Everything the interface shows and remembers while it runs.
pub struct AppState {
    pub active_tab: ActiveTab,
    pub status: MpdStatus,
    pub queue: Vec<SongInfo>,
    pub playlist_selected: usize,
    pub browser_path: String,
    pub browser_entries: Vec<DirEntry>,
    pub browser_selected: usize,
    pub browser_history: Vec<String>,
    pub show_hidden: bool,
    pub resume_mode: bool,
    pub search_mode: bool,
    pub search_query: String,
    pub filtered_queue_indices: Vec<usize>,
    pub show_help: bool,
    pub show_archive_settings: bool,
    pub archive_settings_selected: usize,
    pub notification: Option<(String, Instant)>,
    pub running: bool,
    pub persistent_state: PersistentState,
    pub last_tracked_song: Option<String>,
}

/// The value of an `AppState`: its strings as char sequences, and the
/// notification's text and the instant it was raised at apart.
#[verifier::ext_equal]
pub struct AppView {
    pub active_tab: ActiveTab,
    pub status: StatusView,
    pub queue: Seq<SongView>,
    pub playlist_selected: usize,
    pub browser_path: Seq<char>,
    pub browser_entries: Seq<DirEntryView>,
    pub browser_selected: usize,
    pub browser_history: Seq<Seq<char>>,
    pub show_hidden: bool,
    pub resume_mode: bool,
    pub search_mode: bool,
    pub search_query: Seq<char>,
    pub filtered_queue_indices: Seq<usize>,
    pub show_help: bool,
    pub show_archive_settings: bool,
    pub archive_settings_selected: usize,
    pub notice: Option<Seq<char>>,
    pub notice_at: Option<Instant>,
    pub running: bool,
    pub persistent: PersistentView,
    pub last_tracked_song: Option<Seq<char>>,
}

impl View for AppState {
    type V = AppView;

    open spec fn view(&self) -> AppView {
        AppView {
            active_tab: self.active_tab,
            status: self.status@,
            queue: self.queue.deep_view(),
            playlist_selected: self.playlist_selected,
            browser_path: self.browser_path@,
            browser_entries: self.browser_entries.deep_view(),
            browser_selected: self.browser_selected,
            browser_history: self.browser_history.deep_view(),
            show_hidden: self.show_hidden,
            resume_mode: self.resume_mode,
            search_mode: self.search_mode,
            search_query: self.search_query@,
            filtered_queue_indices: self.filtered_queue_indices@,
            show_help: self.show_help,
            show_archive_settings: self.show_archive_settings,
            archive_settings_selected: self.archive_settings_selected,
            notice: match self.notification {
                Some(n) => Some(n.0@),
                None => None,
            },
            notice_at: match self.notification {
                Some(n) => Some(n.1),
                None => None,
            },
            running: self.running,
            persistent: self.persistent_state@,
            last_tracked_song: match self.last_tracked_song {
                Some(s) => Some(s@),
                None => None,
            },
        }
    }
}

// ---------------------------------------------------------------------------
// Specification of the state changes
// ---------------------------------------------------------------------------

/// The state at start-up, from what was remembered: the browser opens the
/// remembered folder with the remembered hidden-file and resume settings;
/// everything else starts empty, on the playlist pane, running.
pub open spec fn initial_view(p: PersistentView) -> AppView {
    AppView {
        active_tab: ActiveTab::Playlist,
        status: disconnected_status(),
        queue: Seq::empty(),
        playlist_selected: 0,
        browser_path: p.last_folder,
        browser_entries: Seq::empty(),
        browser_selected: 0,
        browser_history: Seq::empty(),
        show_hidden: p.show_hidden,
        resume_mode: p.resume_mode,
        search_mode: false,
        search_query: Seq::empty(),
        filtered_queue_indices: Seq::empty(),
        show_help: false,
        show_archive_settings: false,
        archive_settings_selected: 0,
        notice: None,
        notice_at: None,
        running: true,
        persistent: p,
        last_tracked_song: None,
    }
}

/// The playlist shows the search results rather than the whole queue.
pub open spec fn is_filtering(v: AppView) -> bool {
    v.search_mode || v.search_query.len() > 0
}

/// A song matches a lower-cased query when the query's chars occur in order
/// (a fuzzy match) in its lower-cased title, artist, album or file.
pub open spec fn song_matches(s: SongView, lowered_query: Seq<char>) -> bool {
    ||| seq_has_in_order(lowercase(s.title), lowered_query)
    ||| seq_has_in_order(lowercase(s.artist), lowered_query)
    ||| seq_has_in_order(lowercase(s.album), lowered_query)
    ||| seq_has_in_order(lowercase(s.file), lowered_query)
}

/// A song passes the search filter: every song does while the query is
/// blank, otherwise the songs that match the lower-cased query.
pub open spec fn passes_filter(s: SongView, query: Seq<char>) -> bool {
    spec_is_blank(query) || song_matches(s, lowercase(query))
}

/// The queue positions that pass the search filter, in queue order.
pub open spec fn matching_indices(queue: Seq<SongView>, query: Seq<char>) -> Seq<usize> {
    Seq::new(queue.len(), |i: int| i as usize).filter(
        |i: usize| passes_filter(queue[i as int], query),
    )
}

/// A selection pulled back onto the last of `count` rows when it is past it.
pub open spec fn clamp_selection(sel: usize, count: nat) -> usize {
    if sel < count {
        sel
    } else if count == 0 {
        0
    } else {
        (count - 1) as usize
    }
}

/// The state after the search results are recomputed.
pub open spec fn refiltered(v: AppView) -> AppView {
    let f = matching_indices(v.queue, v.search_query);
    AppView {
        filtered_queue_indices: f,
        playlist_selected: clamp_selection(v.playlist_selected, f.len()),
        ..v
    }
}

/// The number of rows the playlist pane shows.
pub open spec fn playlist_count(v: AppView) -> nat {
    if is_filtering(v) {
        v.filtered_queue_indices.len()
    } else {
        v.queue.len()
    }
}

/// The queue position of the selected playlist row, if it names one.
pub open spec fn selected_index(v: AppView) -> Option<usize> {
    if is_filtering(v) {
        if v.playlist_selected < v.filtered_queue_indices.len() {
            Some(v.filtered_queue_indices[v.playlist_selected as int])
        } else {
            None
        }
    } else if v.playlist_selected < v.queue.len() {
        Some(v.playlist_selected)
    } else {
        None
    }
}

/// Moving down one row stays on the last row.
pub open spec fn after_next(v: AppView) -> AppView {
    match v.active_tab {
        ActiveTab::Playlist => if v.playlist_selected + 1 < playlist_count(v) {
            AppView { playlist_selected: (v.playlist_selected + 1) as usize, ..v }
        } else {
            v
        },
        ActiveTab::Browser => if v.browser_selected + 1 < v.browser_entries.len() {
            AppView { browser_selected: (v.browser_selected + 1) as usize, ..v }
        } else {
            v
        },
    }
}

/// Moving up one row stays on the first row.
pub open spec fn after_prev(v: AppView) -> AppView {
    match v.active_tab {
        ActiveTab::Playlist => if v.playlist_selected > 0 {
            AppView { playlist_selected: (v.playlist_selected - 1) as usize, ..v }
        } else {
            v
        },
        ActiveTab::Browser => if v.browser_selected > 0 {
            AppView { browser_selected: (v.browser_selected - 1) as usize, ..v }
        } else {
            v
        },
    }
}

/// `min(a, b)`.
pub open spec fn min(a: int, b: int) -> int {
    if a < b {
        a
    } else {
        b
    }
}

/// Moving down ten rows stops at the last row; an empty pane keeps its
/// selection.
pub open spec fn after_page_down(v: AppView) -> AppView {
    match v.active_tab {
        ActiveTab::Playlist => if playlist_count(v) > 0 {
            AppView {
                playlist_selected: min(v.playlist_selected + 10, playlist_count(v) - 1) as usize,
                ..v
            }
        } else {
            v
        },
        ActiveTab::Browser => if v.browser_entries.len() > 0 {
            AppView {
                browser_selected: min(v.browser_selected + 10, v.browser_entries.len() - 1) as usize,
                ..v
            }
        } else {
            v
        },
    }
}

/// Moving up ten rows stops at the first row.
pub open spec fn after_page_up(v: AppView) -> AppView {
    match v.active_tab {
        ActiveTab::Playlist => AppView {
            playlist_selected: if v.playlist_selected >= 10 {
                (v.playlist_selected - 10) as usize
            } else {
                0
            },
            ..v
        },
        ActiveTab::Browser => AppView {
            browser_selected: if v.browser_selected >= 10 {
                (v.browser_selected - 10) as usize
            } else {
                0
            },
            ..v
        },
    }
}

/// Moving down one row computes `selected + 1` on a non-empty pane, which
/// must not overflow.
pub open spec fn next_defined(v: AppView) -> bool {
    match v.active_tab {
        ActiveTab::Playlist => playlist_count(v) > 0 ==> v.playlist_selected < usize::MAX,
        ActiveTab::Browser => v.browser_entries.len() > 0 ==> v.browser_selected < usize::MAX,
    }
}

/// Moving down ten rows computes `selected + 10` on a non-empty pane, which
/// must not overflow.
pub open spec fn page_down_defined(v: AppView) -> bool {
    match v.active_tab {
        ActiveTab::Playlist => playlist_count(v) > 0 ==> v.playlist_selected + 10 <= usize::MAX,
        ActiveTab::Browser => v.browser_entries.len() > 0 ==> v.browser_selected + 10
            <= usize::MAX,
    }
}

/// What is remembered is brought up to date: the browsed folder, the
/// hidden-file and resume settings, and, when MPD reports them, the current
/// song's file and the whole seconds played of it.
pub open spec fn recorded(v: AppView) -> AppView {
    AppView {
        persistent: PersistentView {
            last_folder: v.browser_path,
            show_hidden: v.show_hidden,
            resume_mode: v.resume_mode,
            last_file: match v.status.current_song {
                Some(s) => Some(s.file),
                None => v.persistent.last_file,
            },
            last_elapsed_secs: match v.status.elapsed {
                Some(ms) => ms / 1000,
                None => v.persistent.last_elapsed_secs,
            },
        },
        ..v
    }
}

/// The state with a new notification text, raised at the instant `now`.
pub open spec fn with_notice(v: AppView, msg: Seq<char>, now: Instant) -> AppView {
    AppView { notice: Some(msg), notice_at: Some(now), ..v }
}

/// The instant the notification of `v` was raised at; any instant when
/// there is none.
pub open spec fn notice_stamp(v: AppView) -> Instant {
    match v.notice_at {
        Some(t) => t,
        None => arbitrary(),
    }
}

/// How long a notification stays visible, in milliseconds.
pub open spec fn notice_lifetime_ms() -> nat {
    3000
}

// ---------------------------------------------------------------------------
// Executable
// ---------------------------------------------------------------------------

/// Whether a query matches a song given the lower-cased title, artist,
/// album and file: the lower-cased query's chars occur in order in one of
/// them.
pub fn lowered_song_matches(
    title: &Vec<char>,
    artist: &Vec<char>,
    album: &Vec<char>,
    file: &Vec<char>,
    lowered_query: &Vec<char>,
) -> (b: bool)
    ensures
        b == (seq_has_in_order(title@, lowered_query@) || seq_has_in_order(artist@, lowered_query@)
            || seq_has_in_order(album@, lowered_query@) || seq_has_in_order(file@, lowered_query@)),
{
    has_in_order(title, lowered_query) || has_in_order(artist, lowered_query)
        || has_in_order(album, lowered_query) || has_in_order(file, lowered_query)
}

/// Whether a song matches a lower-cased query.
fn song_matches_query(song: &SongInfo, lowered_query: &Vec<char>) -> (b: bool)
    ensures
        b == song_matches(song@, lowered_query@),
{
    let title = chars_of(to_lowercase(song.title.as_str()).as_str());
    let artist = chars_of(to_lowercase(song.artist.as_str()).as_str());
    let album = chars_of(to_lowercase(song.album.as_str()).as_str());
    let file = chars_of(to_lowercase(song.file.as_str()).as_str());
    lowered_song_matches(&title, &artist, &album, &file, lowered_query)
}

impl AppState {
    /// The state at start-up, from what was remembered of the last run.
    pub fn new(persistent: PersistentState) -> (app: Self)
        ensures
            app@ == initial_view(persistent@),
    {
        let app = AppState {
            active_tab: ActiveTab::Playlist,
            status: MpdStatus::default(),
            queue: Vec::new(),
            playlist_selected: 0,
            browser_path: persistent.last_folder.clone(),
            browser_entries: Vec::new(),
            browser_selected: 0,
            browser_history: Vec::new(),
            show_hidden: persistent.show_hidden,
            resume_mode: persistent.resume_mode,
            search_mode: false,
            search_query: String::new(),
            filtered_queue_indices: Vec::new(),
            show_help: false,
            show_archive_settings: false,
            archive_settings_selected: 0,
            notification: None,
            running: true,
            persistent_state: persistent,
            last_tracked_song: None,
        };
        assert(app.queue.deep_view() =~= Seq::<SongView>::empty());
        assert(app.browser_entries.deep_view() =~= Seq::<DirEntryView>::empty());
        assert(app.browser_history.deep_view() =~= Seq::<Seq<char>>::empty());
        assert(app@ =~= initial_view(persistent@));
        app
    }

    /// Brings what is remembered up to date with the current state; the
    /// caller writes `persistent_state` out.
    pub fn save_current_state(&mut self)
        ensures
            final(self)@ == recorded(old(self)@),
    {
        self.persistent_state.last_folder = self.browser_path.clone();
        self.persistent_state.show_hidden = self.show_hidden;
        self.persistent_state.resume_mode = self.resume_mode;
        match &self.status.current_song {
            Some(song) => {
                self.persistent_state.last_file = Some(song.file.clone());
            },
            None => {},
        }
        match self.status.elapsed {
            Some(ms) => {
                self.persistent_state.last_elapsed_secs = ms / 1000;
            },
            None => {},
        }
        assert(self@ =~= recorded(old(self)@));
    }

    /// Shows `msg` as the notification, from now on.
    pub fn set_notification(&mut self, msg: String)
        ensures
            final(self)@ == with_notice(old(self)@, msg@, notice_stamp(final(self)@)),
    {
        let at = now();
        self.notification = Some((msg, at));
        assert(self@ =~= with_notice(old(self)@, msg@, at));
    }

    /// The notification text, given that `elapsed_ms` milliseconds have
    /// passed since it was raised: shown for less than three seconds.
    pub fn notification_at(&self, elapsed_ms: u128) -> (out: Option<&str>)
        ensures
            match out {
                Some(m) => self@.notice == Some(m@) && elapsed_ms < notice_lifetime_ms(),
                None => self@.notice is None || elapsed_ms >= notice_lifetime_ms(),
            },
    {
        match &self.notification {
            Some(n) => {
                if elapsed_ms < 3000 {
                    Some(n.0.as_str())
                } else {
                    None
                }
            },
            None => None,
        }
    }

    /// The notification text while it is less than three seconds old; its
    /// age is read from the clock.
    pub fn get_active_notification(&self) -> (out: Option<&str>)
        ensures
            out is Some ==> self@.notice == Some(out->0@),
            self@.notice is None ==> out is None,
    {
        match &self.notification {
            Some(n) => {
                let elapsed = millis_since(&n.1);
                self.notification_at(elapsed)
            },
            None => None,
        }
    }

    /// Recomputes the search results from the queue and the query, and pulls
    /// the playlist selection back onto the results.
    pub fn update_filtered_indices(&mut self)
        ensures
            final(self)@ == refiltered(old(self)@),
    {
        let ghost queue = self.queue.deep_view();
        let ghost query = self.search_query@;
        let ghost pred = |i: usize| passes_filter(queue[i as int], query);
        let blank = is_blank(self.search_query.as_str());
        let lowered = if blank {
            Vec::new()
        } else {
            chars_of(to_lowercase(self.search_query.as_str()).as_str())
        };
        let mut indices: Vec<usize> = Vec::new();
        let mut i: usize = 0;
        assert(Seq::new(0, |j: int| j as usize) =~= Seq::<usize>::empty());
        proof {
            reveal(Seq::filter);
        }
        while i < self.queue.len()
            invariant
                i <= self.queue.len(),
                queue == self.queue.deep_view(),
                query == self.search_query@,
                blank == spec_is_blank(query),
                !blank ==> lowered@ == lowercase(query),
                pred == (|i: usize| passes_filter(queue[i as int], query)),
                indices@ == Seq::new(i as nat, |j: int| j as usize).filter(pred),
            decreases self.queue.len() - i,
        {
            let ghost before = Seq::new(i as nat, |j: int| j as usize);
            proof {
                assert(Seq::new((i + 1) as nat, |j: int| j as usize) =~= before.push(i));
                before.lemma_filter_push(i, pred);
            }
            if blank || song_matches_query(&self.queue[i], &lowered) {
                indices.push(i);
            }
            i = i + 1;
        }
        self.filtered_queue_indices = indices;
        let n = self.filtered_queue_indices.len();
        if self.playlist_selected >= n {
            self.playlist_selected = n.saturating_sub(1);
        }
        assert(self@ =~= refiltered(old(self)@));
    }

    /// Whether the playlist shows search results.
    pub fn is_filtering(&self) -> (b: bool)
        ensures
            b == is_filtering(self@),
    {
        self.search_mode || !self.search_query.as_str().is_empty()
    }

    /// The queue position of the selected playlist row, if any.
    pub fn selected_song_index(&self) -> (out: Option<usize>)
        ensures
            out == selected_index(self@),
    {
        if self.is_filtering() {
            if self.playlist_selected < self.filtered_queue_indices.len() {
                Some(self.filtered_queue_indices[self.playlist_selected])
            } else {
                None
            }
        } else if self.playlist_selected < self.queue.len() {
            Some(self.playlist_selected)
        } else {
            None
        }
    }

    /// The number of rows the playlist pane shows.
    fn playlist_len(&self) -> (n: usize)
        ensures
            n == playlist_count(self@),
    {
        if self.is_filtering() {
            self.filtered_queue_indices.len()
        } else {
            self.queue.len()
        }
    }

    /// Moves the focused pane's selection down one row.
    pub fn next_item(&mut self)
        requires
            next_defined(old(self)@),
        ensures
            final(self)@ == after_next(old(self)@),
    {
        match self.active_tab {
            ActiveTab::Playlist => {
                let count = self.playlist_len();
                if count > 0 && self.playlist_selected + 1 < count {
                    self.playlist_selected = self.playlist_selected + 1;
                }
            },
            ActiveTab::Browser => {
                if self.browser_entries.len() > 0 && self.browser_selected + 1
                    < self.browser_entries.len() {
                    self.browser_selected = self.browser_selected + 1;
                }
            },
        }
        assert(self@ =~= after_next(old(self)@));
    }

    /// Moves the focused pane's selection up one row.
    pub fn prev_item(&mut self)
        ensures
            final(self)@ == after_prev(old(self)@),
    {
        match self.active_tab {
            ActiveTab::Playlist => {
                if self.playlist_selected > 0 {
                    self.playlist_selected = self.playlist_selected - 1;
                }
            },
            ActiveTab::Browser => {
                if self.browser_selected > 0 {
                    self.browser_selected = self.browser_selected - 1;
                }
            },
        }
        assert(self@ =~= after_prev(old(self)@));
    }

    /// Moves the focused pane's selection down ten rows.
    pub fn page_down(&mut self)
        requires
            page_down_defined(old(self)@),
        ensures
            final(self)@ == after_page_down(old(self)@),
    {
        match self.active_tab {
            ActiveTab::Playlist => {
                let count = self.playlist_len();
                if count > 0 {
                    let target = self.playlist_selected + 10;
                    self.playlist_selected = if target < count - 1 {
                        target
                    } else {
                        count - 1
                    };
                }
            },
            ActiveTab::Browser => {
                let count = self.browser_entries.len();
                if count > 0 {
                    let target = self.browser_selected + 10;
                    self.browser_selected = if target < count - 1 {
                        target
                    } else {
                        count - 1
                    };
                }
            },
        }
        assert(self@ =~= after_page_down(old(self)@));
    }

    /// Moves the focused pane's selection up ten rows.
    pub fn page_up(&mut self)
        ensures
            final(self)@ == after_page_up(old(self)@),
    {
        match self.active_tab {
            ActiveTab::Playlist => {
                self.playlist_selected = self.playlist_selected.saturating_sub(10);
            },
            ActiveTab::Browser => {
                self.browser_selected = self.browser_selected.saturating_sub(10);
            },
        }
        assert(self@ =~= after_page_up(old(self)@));
    }
}

} // verus!
