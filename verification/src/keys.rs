//! Key handling.  A key press changes the interface state and names the
//! work to be done with MPD (`Effect`); once that work is done, the caller
//! hands its outcome back through one of the `finish_*` methods, which make
//! the decisions that depend on it.
use vstd::prelude::*;
use std::time::Instant;
use crate::app::{
    after_next, after_page_down, after_page_up, after_prev, next_defined, page_down_defined,
    notice_stamp, recorded, refiltered, selected_index, with_notice, ActiveTab, AppState, AppView,
};
use crate::mpd_client::{
    CommandView, DirEntry, DirEntryView, MpdCommand, MpdStatus, PlaybackState, SongInfo,
    SongView, StatusView,
};
use crate::format::{clock, clock_string, signed_decimal, signed_decimal_string};
use crate::text::{join_str, push_char, pop_char};

verus! {

// ---------------------------------------------------------------------------
// Keys and effects
// ---------------------------------------------------------------------------

/// A key, as far as the player tells keys apart.
#[derive(Debug, Clone, Copy, PartialEq, Eq, Structural)]
pub enum Key {
    Char(char),
    Esc,
    Enter,
    Backspace,
    Tab,
    Left,
    Right,
    Up,
    Down,
    PageUp,
    PageDown,
    Delete,
    Other,
}

/// A key press, and whether Control was held.
#[derive(Debug, Clone, Copy, PartialEq, Eq, Structural)]
pub struct KeyPress {
    pub key: Key,
    pub ctrl: bool,
}

/// Which notification follows a status refresh.
#[derive(Debug, Clone, Copy, PartialEq, Eq, Structural)]
pub enum StatusNotice {
    PlayPause,
    Volume,
    Random,
    Repeat,
    Single,
}

/// An `add` of a library path waiting for MPD's answer.
#[derive(Debug)]
pub struct PendingAdd {
    /// The path to add.
    pub path: String,
    /// Start playback after adding: the queue was empty or playback stopped.
    pub start_playback: bool,
    /// The notification when the add succeeds.
    pub added_notice: String,
    /// The notification when it fails.
    pub failed_notice: String,
}

/// The value of a `PendingAdd`.
pub struct PendingAddView {
    pub path: Seq<char>,
    pub start_playback: bool,
    pub added_notice: Seq<char>,
    pub failed_notice: Seq<char>,
}

impl View for PendingAdd {
    type V = PendingAddView;

    open spec fn view(&self) -> PendingAddView {
        PendingAddView {
            path: self.path@,
            start_playback: self.start_playback,
            added_notice: self.added_notice@,
            failed_notice: self.failed_notice@,
        }
    }
}

/// The work with MPD, or with the disk, that a state change asks for.
#[derive(Debug)]
pub enum Effect {
    /// Nothing to do.
    Nothing,
    /// Send the command; nothing depends on the answer.
    Run(MpdCommand),
    /// Send the command, fetch the status, and hand it to
    /// `finish_status_refresh` with the notice.
    RunThenRefreshStatus(MpdCommand, StatusNotice),
    /// Send the command, fetch the queue, and hand it to
    /// `finish_queue_refresh` with the notification text.
    RunThenRefreshQueue(MpdCommand, String),
    /// Fetch the queue and hand it to `finish_queue_refresh` with the
    /// notification text.
    RefreshQueue(String),
    /// List `browser_path` (showing hidden names when `show_hidden`) and hand
    /// the entries to `finish_directory_load`.
    LoadDirectory,
    /// Write `persistent_state` out.
    SaveState,
    /// Send `add` for the path and hand whether it succeeded to `finish_add`.
    Add(PendingAdd),
}

/// The value of an `Effect`.
pub enum EffectView {
    Nothing,
    Run(CommandView),
    RunThenRefreshStatus(CommandView, StatusNotice),
    RunThenRefreshQueue(CommandView, Seq<char>),
    RefreshQueue(Seq<char>),
    LoadDirectory,
    SaveState,
    Add(PendingAddView),
}

impl View for Effect {
    type V = EffectView;

    open spec fn view(&self) -> EffectView {
        match self {
            Effect::Nothing => EffectView::Nothing,
            Effect::Run(c) => EffectView::Run(c@),
            Effect::RunThenRefreshStatus(c, n) => EffectView::RunThenRefreshStatus(c@, *n),
            Effect::RunThenRefreshQueue(c, m) => EffectView::RunThenRefreshQueue(c@, m@),
            Effect::RefreshQueue(m) => EffectView::RefreshQueue(m@),
            Effect::LoadDirectory => EffectView::LoadDirectory,
            Effect::SaveState => EffectView::SaveState,
            Effect::Add(p) => EffectView::Add(p@),
        }
    }
}

// ---------------------------------------------------------------------------
// Notification texts
// ---------------------------------------------------------------------------

pub const PLAYING_SELECTED: &'static str = "▶ Playing selected track";
pub const PLAYING_TRACK: &'static str = "▶ Playing track";
pub const PLAYING: &'static str = "▶ Playing";
pub const PAUSED: &'static str = "⏸ Paused";
pub const NEXT_TRACK: &'static str = "⏭ Next Track";
pub const PREVIOUS_TRACK: &'static str = "⏮ Previous Track";
pub const VOLUME_PREFIX: &'static str = "🔊 Volume: ";
pub const PERCENT: &'static str = "%";
pub const SEEK_FORWARD: &'static str = "⏩ +5s";
pub const SEEK_BACK: &'static str = "⏪ -5s";
pub const RESUME_ON: &'static str = "📍 Resume Mode Enabled (Remember exact position)";
pub const RESUME_OFF: &'static str = "➡️ Resume Mode Disabled (Start from beginning)";
pub const RANDOM_ON: &'static str = "🔀 Random Playback Enabled";
pub const RANDOM_OFF: &'static str = "➡️ Random Playback Disabled";
pub const REPEAT_ON: &'static str = "🔁 Repeat Mode Enabled";
pub const REPEAT_OFF: &'static str = "➡️ Repeat Mode Disabled";
pub const SINGLE_ON: &'static str = "🔁 Single Track Loop Enabled";
pub const SINGLE_OFF: &'static str = "➡️ Single Track Loop Disabled";
pub const IMMERSION_PREFIX: &'static str = "🎧 Shuffled Immersion: '";
pub const QUOTE: &'static str = "'";
pub const FULL_LIBRARY: &'static str = "Full Library";
pub const GLOBAL_IMMERSION: &'static str = "🎧 Global Full Library Immersion Mode!";
pub const SHOWING_HIDDEN: &'static str = "👁 Showing Hidden Files";
pub const HIDING_HIDDEN: &'static str = "🙈 Hiding Hidden Files";
pub const FILTER_CLEARED: &'static str = "🔍 Search Filter Cleared";
pub const ADDED_PREFIX: &'static str = "➕ Added '";
pub const ADDED_SUFFIX: &'static str = "' to Queue";
pub const QUEUED_PREFIX: &'static str = "➕ Queued '";
pub const FAILED_PREFIX: &'static str = "❌ Failed to queue '";
pub const REMOVED: &'static str = "🗑 Removed track from Queue";
pub const CLEARED: &'static str = "🗑 Cleared Queue";
pub const IMMERSION_START: &'static str = "🎧 Started in AJATT Immersion Mode!";
pub const RESUMED_AT: &'static str = "📍 Resumed playback position: ";
pub const RESUMED_TRACK: &'static str = "📍 Resumed last track!";

// ---------------------------------------------------------------------------
// Specification of the key handling
// ---------------------------------------------------------------------------

/// A key with no effect.
pub open spec fn unchanged(v: AppView) -> (AppView, EffectView) {
    (v, EffectView::Nothing)
}

/// In search mode keys edit the query: Esc leaves search mode, Enter leaves
/// it and plays the selected result, Backspace and characters edit the query
/// and the results follow it.
pub open spec fn search_step(v: AppView, k: KeyPress, now: Instant) -> (AppView, EffectView) {
    match k.key {
        Key::Esc => (AppView { search_mode: false, ..v }, EffectView::Nothing),
        Key::Enter => {
            let v1 = AppView { search_mode: false, ..v };
            match selected_index(v1) {
                Some(i) => (
                    with_notice(v1, PLAYING_SELECTED@, now),
                    EffectView::Run(CommandView::PlayIndex(i)),
                ),
                None => (v1, EffectView::Nothing),
            }
        },
        Key::Backspace => (
            refiltered(
                AppView {
                    search_query: if v.search_query.len() > 0 {
                        v.search_query.drop_last()
                    } else {
                        v.search_query
                    },
                    ..v
                },
            ),
            EffectView::Nothing,
        ),
        Key::Char(c) => (
            refiltered(AppView { search_query: v.search_query.push(c), ..v }),
            EffectView::Nothing,
        ),
        _ => unchanged(v),
    }
}

/// While the help overlay shows, Esc and `?` close it and other keys do nothing.
pub open spec fn help_step(v: AppView, k: KeyPress) -> (AppView, EffectView) {
    if k.key == Key::Esc || k.key == Key::Char('?') {
        (AppView { show_help: false, ..v }, EffectView::Nothing)
    } else {
        unchanged(v)
    }
}

/// The folder immersion mode shuffles: the browsed folder, else on the
/// browser pane the selected entry, else the whole library.
pub open spec fn immersion_folder(v: AppView) -> Option<Seq<char>> {
    if v.browser_path.len() > 0 {
        Some(v.browser_path)
    } else if v.active_tab == ActiveTab::Browser && v.browser_selected < v.browser_entries.len() {
        Some(v.browser_entries[v.browser_selected as int].path)
    } else {
        None
    }
}

/// Immersion on the current context: shuffle and loop its folder.
pub open spec fn immersion_step(v: AppView) -> (AppView, EffectView) {
    let target = immersion_folder(v);
    let name = match target {
        Some(p) => p,
        None => FULL_LIBRARY@,
    };
    (
        v,
        EffectView::RunThenRefreshQueue(
            CommandView::ImmersionMode(target),
            IMMERSION_PREFIX@ + name + QUOTE@,
        ),
    )
}

/// Adding a browser entry to the queue; playback starts afterwards when the
/// queue was empty or playback stopped.
pub open spec fn add_step(v: AppView, e: DirEntryView, added_prefix: Seq<char>, added_suffix: Seq<char>) -> (AppView, EffectView) {
    (
        v,
        EffectView::Add(
            PendingAddView {
                path: e.path,
                start_playback: v.queue.len() == 0 || v.status.state == PlaybackState::Stopped,
                added_notice: added_prefix + e.name + added_suffix,
                failed_notice: FAILED_PREFIX@ + e.name + QUOTE@,
            },
        ),
    )
}

/// Enter: on the playlist, play the selected song; on the browser, open the
/// selected directory, or queue the selected file.
pub open spec fn enter_step(v: AppView, now: Instant) -> (AppView, EffectView) {
    match v.active_tab {
        ActiveTab::Playlist => match selected_index(v) {
            Some(i) => (with_notice(v, PLAYING_TRACK@, now), EffectView::Run(CommandView::PlayIndex(i))),
            None => unchanged(v),
        },
        ActiveTab::Browser => if v.browser_selected < v.browser_entries.len() {
            let e = v.browser_entries[v.browser_selected as int];
            if e.is_dir {
                (
                    AppView {
                        browser_history: v.browser_history.push(v.browser_path),
                        browser_path: e.path,
                        browser_selected: 0,
                        ..v
                    },
                    EffectView::LoadDirectory,
                )
            } else {
                add_step(v, e, ADDED_PREFIX@, ADDED_SUFFIX@)
            }
        } else {
            unchanged(v)
        },
    }
}

/// Back on the browser: return to the folder opened before, or else to the
/// library root.
pub open spec fn back_step(v: AppView) -> (AppView, EffectView) {
    if v.browser_history.len() > 0 {
        (
            AppView {
                browser_path: v.browser_history.last(),
                browser_history: v.browser_history.drop_last(),
                browser_selected: 0,
                ..v
            },
            EffectView::LoadDirectory,
        )
    } else if v.browser_path.len() > 0 {
        (
            AppView { browser_path: Seq::empty(), browser_selected: 0, ..v },
            EffectView::LoadDirectory,
        )
    } else {
        unchanged(v)
    }
}

/// Removing the selected song from the queue.
pub open spec fn delete_step(v: AppView) -> (AppView, EffectView) {
    match selected_index(v) {
        Some(i) => if i < v.queue.len() {
            (
                v,
                EffectView::RunThenRefreshQueue(CommandView::DeleteIndex(v.queue[i as int].id), REMOVED@),
            )
        } else {
            unchanged(v)
        },
        None => unchanged(v),
    }
}

/// Resume mode flips, what is remembered is brought up to date and written.
pub open spec fn resume_toggle_step(v: AppView, now: Instant) -> (AppView, EffectView) {
    let v1 = recorded(AppView { resume_mode: !v.resume_mode, ..v });
    (with_notice(v1, if v1.resume_mode { RESUME_ON@ } else { RESUME_OFF@ }, now), EffectView::SaveState)
}

/// Hidden names flip between shown and hidden, and the folder is listed again.
pub open spec fn hidden_toggle_step(v: AppView, now: Instant) -> (AppView, EffectView) {
    let v1 = AppView { show_hidden: !v.show_hidden, browser_selected: 0, ..v };
    (
        with_notice(v1, if v1.show_hidden { SHOWING_HIDDEN@ } else { HIDING_HIDDEN@ }, now),
        EffectView::LoadDirectory,
    )
}

/// Esc outside search mode clears a search filter.
pub open spec fn esc_step(v: AppView, now: Instant) -> (AppView, EffectView) {
    if v.search_query.len() > 0 {
        (
            with_notice(refiltered(AppView { search_query: Seq::empty(), ..v }), FILTER_CLEARED@, now),
            EffectView::Nothing,
        )
    } else {
        unchanged(v)
    }
}

/// Clearing the queue: MPD's and the local copy.
pub open spec fn clear_step(v: AppView, now: Instant) -> (AppView, EffectView) {
    (
        with_notice(refiltered(AppView { queue: Seq::empty(), ..v }), CLEARED@, now),
        EffectView::Run(CommandView::ClearQueue),
    )
}

/// The key bindings of the README, outside search mode and help.
pub open spec fn main_step(v: AppView, k: KeyPress, now: Instant) -> (AppView, EffectView) {
    match k.key {
        Key::Char('q') => (AppView { running: false, ..v }, EffectView::Nothing),
        Key::Char('c') if k.ctrl => (AppView { running: false, ..v }, EffectView::Nothing),
        Key::Char('?') => (AppView { show_help: true, ..v }, EffectView::Nothing),
        Key::Tab => (
            AppView {
                active_tab: match v.active_tab {
                    ActiveTab::Playlist => ActiveTab::Browser,
                    ActiveTab::Browser => ActiveTab::Playlist,
                },
                ..v
            },
            EffectView::Nothing,
        ),
        Key::Char(' ') => (
            v,
            EffectView::RunThenRefreshStatus(CommandView::TogglePause, StatusNotice::PlayPause),
        ),
        Key::Char('n') => (with_notice(v, NEXT_TRACK@, now), EffectView::Run(CommandView::Next)),
        Key::Char('p') => (with_notice(v, PREVIOUS_TRACK@, now), EffectView::Run(CommandView::Prev)),
        Key::Char('+') | Key::Char('=') => (
            v,
            EffectView::RunThenRefreshStatus(CommandView::ChangeVolume(5), StatusNotice::Volume),
        ),
        Key::Char('-') => (
            v,
            EffectView::RunThenRefreshStatus(CommandView::ChangeVolume(-5i8), StatusNotice::Volume),
        ),
        Key::Right => (
            with_notice(v, SEEK_FORWARD@, now),
            EffectView::Run(CommandView::SeekRelative(5)),
        ),
        Key::Left => (with_notice(v, SEEK_BACK@, now), EffectView::Run(CommandView::SeekRelative(-5i64))),
        Key::Char('m') => resume_toggle_step(v, now),
        Key::Char('r') => (
            v,
            EffectView::RunThenRefreshStatus(CommandView::ToggleRandom, StatusNotice::Random),
        ),
        Key::Char('e') => (
            v,
            EffectView::RunThenRefreshStatus(CommandView::ToggleRepeat, StatusNotice::Repeat),
        ),
        Key::Char('i') => immersion_step(v),
        Key::Char('I') => (
            v,
            EffectView::RunThenRefreshQueue(CommandView::ImmersionMode(None), GLOBAL_IMMERSION@),
        ),
        Key::Char('l') => (
            v,
            EffectView::RunThenRefreshStatus(CommandView::ToggleSingle, StatusNotice::Single),
        ),
        Key::Char('.') => hidden_toggle_step(v, now),
        Key::Char('j') | Key::Down => (after_next(v), EffectView::Nothing),
        Key::Char('k') | Key::Up => (after_prev(v), EffectView::Nothing),
        Key::PageDown => (after_page_down(v), EffectView::Nothing),
        Key::PageUp => (after_page_up(v), EffectView::Nothing),
        Key::Char('/') => (
            AppView { search_mode: true, active_tab: ActiveTab::Playlist, ..v },
            EffectView::Nothing,
        ),
        Key::Esc => esc_step(v, now),
        Key::Enter => enter_step(v, now),
        Key::Char('a') if v.active_tab == ActiveTab::Browser => if v.browser_selected
            < v.browser_entries.len() {
            add_step(v, v.browser_entries[v.browser_selected as int], QUEUED_PREFIX@, QUOTE@)
        } else {
            unchanged(v)
        },
        Key::Backspace if v.active_tab == ActiveTab::Browser => back_step(v),
        Key::Char('h') if v.active_tab == ActiveTab::Browser => back_step(v),
        Key::Char('d') if v.active_tab == ActiveTab::Playlist => delete_step(v),
        Key::Delete if v.active_tab == ActiveTab::Playlist => delete_step(v),
        Key::Char('c') if v.active_tab == ActiveTab::Playlist => clear_step(v, now),
        _ => unchanged(v),
    }
}

/// What a key press does: search mode and the help overlay take the keys
/// first.  A notification the key raises is stamped with `now`, the instant
/// of the press; the executable methods pass the instant they read.
pub open spec fn key_step(v: AppView, k: KeyPress, now: Instant) -> (AppView, EffectView) {
    if v.search_mode {
        search_step(v, k, now)
    } else if v.show_help {
        help_step(v, k)
    } else {
        main_step(v, k, now)
    }
}

/// The key can be handled without overflow: moving the selection down
/// computes `selected + 1` or `selected + 10`.
pub open spec fn key_defined(v: AppView, k: KeyPress) -> bool {
    !v.search_mode && !v.show_help ==> match k.key {
        Key::Char('j') | Key::Down => next_defined(v),
        Key::PageDown => page_down_defined(v),
        _ => true,
    }
}

// ---------------------------------------------------------------------------
// Specification of the follow-ups
// ---------------------------------------------------------------------------

/// The notification after a status refresh, if any.
pub open spec fn status_notice(notice: StatusNotice, s: StatusView) -> Option<Seq<char>> {
    match notice {
        StatusNotice::PlayPause => match s.state {
            PlaybackState::Playing => Some(PLAYING@),
            PlaybackState::Paused => Some(PAUSED@),
            _ => None,
        },
        StatusNotice::Volume => Some(VOLUME_PREFIX@ + signed_decimal(s.volume as int) + PERCENT@),
        StatusNotice::Random => Some(if s.random { RANDOM_ON@ } else { RANDOM_OFF@ }),
        StatusNotice::Repeat => Some(if s.repeat { REPEAT_ON@ } else { REPEAT_OFF@ }),
        StatusNotice::Single => Some(if s.single { SINGLE_ON@ } else { SINGLE_OFF@ }),
    }
}

/// The state after a status refresh.
pub open spec fn after_status_refresh(v: AppView, s: StatusView, notice: StatusNotice, now: Instant) -> AppView {
    let v1 = AppView { status: s, ..v };
    match status_notice(notice, s) {
        Some(m) => with_notice(v1, m, now),
        None => v1,
    }
}

/// The state after a queue refresh.
pub open spec fn after_queue_refresh(v: AppView, q: Seq<SongView>, msg: Seq<char>, now: Instant) -> AppView {
    with_notice(refiltered(AppView { queue: q, ..v }), msg, now)
}

/// The state after the browsed folder was listed.
pub open spec fn after_directory_load(v: AppView, entries: Seq<DirEntryView>) -> AppView {
    AppView { browser_entries: entries, browser_selected: 0, ..v }
}

/// After an `add`: on success, start playback if asked and refresh the
/// queue; on failure, say so.
pub open spec fn add_outcome(v: AppView, added: bool, p: PendingAddView, now: Instant) -> (AppView, EffectView) {
    if added {
        if p.start_playback {
            (v, EffectView::RunThenRefreshQueue(CommandView::TogglePause, p.added_notice))
        } else {
            (v, EffectView::RefreshQueue(p.added_notice))
        }
    } else {
        (with_notice(v, p.failed_notice, now), EffectView::Nothing)
    }
}

/// A periodic refresh: the new status, the new queue (the search results are
/// recomputed when its length changed), and what is remembered updated.
pub open spec fn after_tick(v: AppView, s: StatusView, q: Seq<SongView>) -> AppView {
    let v1 = AppView { status: s, queue: q, ..v };
    recorded(if q.len() != v.queue.len() { refiltered(v1) } else { v1 })
}

/// At start-up, resume mode with an empty queue re-queues the remembered
/// track, if there is one; otherwise a start in immersion mode is announced.
pub open spec fn startup_step(v: AppView, immersion: bool, now: Instant) -> (AppView, Option<Seq<char>>) {
    if v.resume_mode && v.queue.len() == 0 {
        (v, v.persistent.last_file)
    } else if immersion {
        (with_notice(v, IMMERSION_START@, now), None)
    } else {
        (v, None)
    }
}

/// After the remembered track is queued again: the new queue, and the seek
/// to the remembered position when there is one.
pub open spec fn after_resume(v: AppView, q: Seq<SongView>, now: Instant) -> AppView {
    let secs = v.persistent.last_elapsed_secs;
    let v1 = refiltered(AppView { queue: q, ..v });
    with_notice(v1, if secs > 0 { RESUMED_AT@ + clock(secs as nat) } else { RESUMED_TRACK@ }, now)
}

// ---------------------------------------------------------------------------
// Executable
// ---------------------------------------------------------------------------

/// `prefix + middle + suffix` as a new string.
fn surround(prefix: &str, middle: &str, suffix: &str) -> (out: String)
    ensures
        out@ == prefix@ + middle@ + suffix@,
{
    let a = join_str(prefix, middle);
    join_str(a.as_str(), suffix)
}

impl AppState {
    /// Whether `handle_key` can take the key without overflow.
    pub fn key_is_defined(&self, k: KeyPress) -> (b: bool)
        ensures
            b == key_defined(self@, k),
    {
        if self.search_mode || self.show_help {
            return true;
        }
        let down_one = k.key == Key::Char('j') || k.key == Key::Down;
        if !down_one && k.key != Key::PageDown {
            return true;
        }
        match self.active_tab {
            ActiveTab::Playlist => {
                let count = if self.is_filtering() {
                    self.filtered_queue_indices.len()
                } else {
                    self.queue.len()
                };
                if count == 0 {
                    true
                } else if down_one {
                    self.playlist_selected < usize::MAX
                } else {
                    self.playlist_selected <= usize::MAX - 10
                }
            },
            ActiveTab::Browser => {
                if self.browser_entries.len() == 0 {
                    true
                } else if down_one {
                    self.browser_selected < usize::MAX
                } else {
                    self.browser_selected <= usize::MAX - 10
                }
            },
        }
    }

    /// Handles a key in search mode.
    fn search_key(&mut self, k: KeyPress) -> (eff: Effect)
        ensures
            (final(self)@, eff@) == search_step(old(self)@, k, notice_stamp(final(self)@)),
    {
        match k.key {
            Key::Esc => {
                self.search_mode = false;
                Effect::Nothing
            },
            Key::Enter => {
                self.search_mode = false;
                match self.selected_song_index() {
                    Some(i) => {
                        self.set_notification(String::from_str(PLAYING_SELECTED));
                        Effect::Run(MpdCommand::PlayIndex(i))
                    },
                    None => Effect::Nothing,
                }
            },
            Key::Backspace => {
                pop_char(&mut self.search_query);
                self.update_filtered_indices();
                Effect::Nothing
            },
            Key::Char(c) => {
                push_char(&mut self.search_query, c);
                self.update_filtered_indices();
                Effect::Nothing
            },
            _ => Effect::Nothing,
        }
    }

    /// Adds the selected browser entry to the queue.
    fn add_selected(&mut self, added_prefix: &str, added_suffix: &str) -> (eff: Effect)
        requires
            old(self).browser_selected < old(self).browser_entries.len(),
        ensures
            (final(self)@, eff@) == add_step(
                old(self)@,
                old(self)@.browser_entries[old(self)@.browser_selected as int],
                added_prefix@,
                added_suffix@,
            ),
    {
        let e = &self.browser_entries[self.browser_selected];
        let start = self.queue.len() == 0 || self.status.state == PlaybackState::Stopped;
        let pending = PendingAdd {
            path: e.path.clone(),
            start_playback: start,
            added_notice: surround(added_prefix, e.name.as_str(), added_suffix),
            failed_notice: surround(FAILED_PREFIX, e.name.as_str(), QUOTE),
        };
        Effect::Add(pending)
    }

    /// Enter outside search mode.
    fn enter_key(&mut self) -> (eff: Effect)
        ensures
            (final(self)@, eff@) == enter_step(old(self)@, notice_stamp(final(self)@)),
    {
        match self.active_tab {
            ActiveTab::Playlist => {
                match self.selected_song_index() {
                    Some(i) => {
                        self.set_notification(String::from_str(PLAYING_TRACK));
                        Effect::Run(MpdCommand::PlayIndex(i))
                    },
                    None => Effect::Nothing,
                }
            },
            ActiveTab::Browser => {
                if self.browser_selected < self.browser_entries.len() {
                    if self.browser_entries[self.browser_selected].is_dir {
                        let target = self.browser_entries[self.browser_selected].path.clone();
                        let previous = self.browser_path.clone();
                        self.browser_history.push(previous);
                        self.browser_path = target;
                        self.browser_selected = 0;
                        assert(self@ =~= enter_step(old(self)@, notice_stamp(self@)).0);
                        Effect::LoadDirectory
                    } else {
                        self.add_selected(ADDED_PREFIX, ADDED_SUFFIX)
                    }
                } else {
                    Effect::Nothing
                }
            },
        }
    }

    /// Back on the browser pane.
    fn back_key(&mut self) -> (eff: Effect)
        ensures
            (final(self)@, eff@) == back_step(old(self)@),
    {
        match self.browser_history.pop() {
            Some(parent) => {
                self.browser_path = parent;
                self.browser_selected = 0;
                assert(self@ =~= back_step(old(self)@).0);
                Effect::LoadDirectory
            },
            None => {
                if !self.browser_path.as_str().is_empty() {
                    self.browser_path = String::new();
                    self.browser_selected = 0;
                    assert(self@ =~= back_step(old(self)@).0);
                    Effect::LoadDirectory
                } else {
                    Effect::Nothing
                }
            },
        }
    }

    /// Immersion on the current context.
    fn immersion_key(&self) -> (eff: Effect)
        ensures
            (self@, eff@) == immersion_step(self@),
    {
        let target: Option<String> = if !self.browser_path.as_str().is_empty() {
            Some(self.browser_path.clone())
        } else if self.active_tab == ActiveTab::Browser && self.browser_selected
            < self.browser_entries.len() {
            Some(self.browser_entries[self.browser_selected].path.clone())
        } else {
            None
        };
        let msg = match &target {
            Some(p) => surround(IMMERSION_PREFIX, p.as_str(), QUOTE),
            None => surround(IMMERSION_PREFIX, FULL_LIBRARY, QUOTE),
        };
        Effect::RunThenRefreshQueue(MpdCommand::ImmersionMode(target), msg)
    }

    /// Removing the selected song from the queue.
    fn delete_key(&self) -> (eff: Effect)
        ensures
            (self@, eff@) == delete_step(self@),
    {
        match self.selected_song_index() {
            Some(i) => {
                if i < self.queue.len() {
                    Effect::RunThenRefreshQueue(
                        MpdCommand::DeleteIndex(self.queue[i].id),
                        String::from_str(REMOVED),
                    )
                } else {
                    Effect::Nothing
                }
            },
            None => Effect::Nothing,
        }
    }

    /// Handles a key outside search mode and help.
    fn main_key(&mut self, k: KeyPress) -> (eff: Effect)
        requires
            key_defined(old(self)@, k),
            !old(self)@.search_mode,
            !old(self)@.show_help,
        ensures
            (final(self)@, eff@) == main_step(old(self)@, k, notice_stamp(final(self)@)),
    {
        let browser = self.active_tab == ActiveTab::Browser;
        let playlist = self.active_tab == ActiveTab::Playlist;
        let eff = match k.key {
            Key::Char('q') => {
                self.running = false;
                Effect::Nothing
            },
            Key::Char('c') => {
                if k.ctrl {
                    self.running = false;
                    Effect::Nothing
                } else if playlist {
                    self.queue = Vec::new();
                    self.update_filtered_indices();
                    self.set_notification(String::from_str(CLEARED));
                    Effect::Run(MpdCommand::ClearQueue)
                } else {
                    Effect::Nothing
                }
            },
            Key::Char('?') => {
                self.show_help = true;
                Effect::Nothing
            },
            Key::Tab => {
                self.active_tab = match self.active_tab {
                    ActiveTab::Playlist => ActiveTab::Browser,
                    ActiveTab::Browser => ActiveTab::Playlist,
                };
                Effect::Nothing
            },
            Key::Char(' ') => Effect::RunThenRefreshStatus(
                MpdCommand::TogglePause,
                StatusNotice::PlayPause,
            ),
            Key::Char('n') => {
                self.set_notification(String::from_str(NEXT_TRACK));
                Effect::Run(MpdCommand::Next)
            },
            Key::Char('p') => {
                self.set_notification(String::from_str(PREVIOUS_TRACK));
                Effect::Run(MpdCommand::Prev)
            },
            Key::Char('+') | Key::Char('=') => Effect::RunThenRefreshStatus(
                MpdCommand::ChangeVolume(5),
                StatusNotice::Volume,
            ),
            Key::Char('-') => Effect::RunThenRefreshStatus(
                MpdCommand::ChangeVolume(-5),
                StatusNotice::Volume,
            ),
            Key::Right => {
                self.set_notification(String::from_str(SEEK_FORWARD));
                Effect::Run(MpdCommand::SeekRelative(5))
            },
            Key::Left => {
                self.set_notification(String::from_str(SEEK_BACK));
                Effect::Run(MpdCommand::SeekRelative(-5))
            },
            Key::Char('m') => {
                self.resume_mode = !self.resume_mode;
                self.save_current_state();
                if self.resume_mode {
                    self.set_notification(String::from_str(RESUME_ON));
                } else {
                    self.set_notification(String::from_str(RESUME_OFF));
                }
                Effect::SaveState
            },
            Key::Char('r') => Effect::RunThenRefreshStatus(
                MpdCommand::ToggleRandom,
                StatusNotice::Random,
            ),
            Key::Char('e') => Effect::RunThenRefreshStatus(
                MpdCommand::ToggleRepeat,
                StatusNotice::Repeat,
            ),
            Key::Char('i') => self.immersion_key(),
            Key::Char('I') => Effect::RunThenRefreshQueue(
                MpdCommand::ImmersionMode(None),
                String::from_str(GLOBAL_IMMERSION),
            ),
            Key::Char('l') => Effect::RunThenRefreshStatus(
                MpdCommand::ToggleSingle,
                StatusNotice::Single,
            ),
            Key::Char('.') => {
                self.show_hidden = !self.show_hidden;
                self.browser_selected = 0;
                if self.show_hidden {
                    self.set_notification(String::from_str(SHOWING_HIDDEN));
                } else {
                    self.set_notification(String::from_str(HIDING_HIDDEN));
                }
                Effect::LoadDirectory
            },
            Key::Char('j') | Key::Down => {
                self.next_item();
                Effect::Nothing
            },
            Key::Char('k') | Key::Up => {
                self.prev_item();
                Effect::Nothing
            },
            Key::PageDown => {
                self.page_down();
                Effect::Nothing
            },
            Key::PageUp => {
                self.page_up();
                Effect::Nothing
            },
            Key::Char('/') => {
                self.search_mode = true;
                self.active_tab = ActiveTab::Playlist;
                Effect::Nothing
            },
            Key::Esc => {
                if !self.search_query.as_str().is_empty() {
                    self.search_query = String::new();
                    self.update_filtered_indices();
                    self.set_notification(String::from_str(FILTER_CLEARED));
                }
                Effect::Nothing
            },
            Key::Enter => self.enter_key(),
            Key::Char('a') => {
                if browser && self.browser_selected < self.browser_entries.len() {
                    self.add_selected(QUEUED_PREFIX, QUOTE)
                } else {
                    Effect::Nothing
                }
            },
            Key::Backspace | Key::Char('h') => {
                if browser {
                    self.back_key()
                } else {
                    Effect::Nothing
                }
            },
            Key::Char('d') | Key::Delete => {
                if playlist {
                    self.delete_key()
                } else {
                    Effect::Nothing
                }
            },
            _ => Effect::Nothing,
        };
        assert(self@ =~= main_step(old(self)@, k, notice_stamp(self@)).0);
        eff
    }

    /// Handles a key press: changes the state and returns the work to do.
    pub fn handle_key(&mut self, k: KeyPress) -> (eff: Effect)
        requires
            key_defined(old(self)@, k),
        ensures
            (final(self)@, eff@) == key_step(old(self)@, k, notice_stamp(final(self)@)),
    {
        if self.search_mode {
            self.search_key(k)
        } else if self.show_help {
            if k.key == Key::Esc || k.key == Key::Char('?') {
                self.show_help = false;
            }
            Effect::Nothing
        } else {
            self.main_key(k)
        }
    }

    /// Takes the status fetched after a command, with its notification.
    pub fn finish_status_refresh(&mut self, status: MpdStatus, notice: StatusNotice)
        ensures
            final(self)@ == after_status_refresh(old(self)@, status@, notice, notice_stamp(final(self)@)),
    {
        self.status = status;
        match notice {
            StatusNotice::PlayPause => {
                if self.status.state == PlaybackState::Playing {
                    self.set_notification(String::from_str(PLAYING));
                } else if self.status.state == PlaybackState::Paused {
                    self.set_notification(String::from_str(PAUSED));
                }
            },
            StatusNotice::Volume => {
                let number = signed_decimal_string(self.status.volume as i64);
                self.set_notification(surround(VOLUME_PREFIX, number.as_str(), PERCENT));
            },
            StatusNotice::Random => {
                if self.status.random {
                    self.set_notification(String::from_str(RANDOM_ON));
                } else {
                    self.set_notification(String::from_str(RANDOM_OFF));
                }
            },
            StatusNotice::Repeat => {
                if self.status.repeat {
                    self.set_notification(String::from_str(REPEAT_ON));
                } else {
                    self.set_notification(String::from_str(REPEAT_OFF));
                }
            },
            StatusNotice::Single => {
                if self.status.single {
                    self.set_notification(String::from_str(SINGLE_ON));
                } else {
                    self.set_notification(String::from_str(SINGLE_OFF));
                }
            },
        }
    }

    /// Takes the queue fetched after a command, with the notification text.
    pub fn finish_queue_refresh(&mut self, queue: Vec<SongInfo>, msg: String)
        ensures
            final(self)@ == after_queue_refresh(old(self)@, queue.deep_view(), msg@, notice_stamp(final(self)@)),
    {
        self.queue = queue;
        self.update_filtered_indices();
        self.set_notification(msg);
    }

    /// Takes the entries of the browsed folder.
    pub fn finish_directory_load(&mut self, entries: Vec<DirEntry>)
        ensures
            final(self)@ == after_directory_load(old(self)@, entries.deep_view()),
    {
        self.browser_entries = entries;
        self.browser_selected = 0;
        assert(self@ =~= after_directory_load(old(self)@, entries.deep_view()));
    }

    /// Takes whether an `add` succeeded, and returns the work that follows.
    pub fn finish_add(&mut self, added: bool, pending: PendingAdd) -> (eff: Effect)
        ensures
            (final(self)@, eff@) == add_outcome(old(self)@, added, pending@, notice_stamp(final(self)@)),
    {
        if added {
            if pending.start_playback {
                Effect::RunThenRefreshQueue(MpdCommand::TogglePause, pending.added_notice)
            } else {
                Effect::RefreshQueue(pending.added_notice)
            }
        } else {
            self.set_notification(pending.failed_notice);
            Effect::Nothing
        }
    }

    /// Takes a periodic status and queue refresh; the caller then writes
    /// `persistent_state` out.
    pub fn apply_tick(&mut self, status: MpdStatus, queue: Vec<SongInfo>)
        ensures
            final(self)@ == after_tick(old(self)@, status@, queue.deep_view()),
    {
        let changed = queue.len() != self.queue.len();
        self.status = status;
        self.queue = queue;
        if changed {
            self.update_filtered_indices();
        }
        self.save_current_state();
    }

    /// The start-up decision: returns the remembered track to queue again
    /// when resume mode is on and the queue is empty; otherwise announces a
    /// start in immersion mode.
    pub fn startup(&mut self, immersion: bool) -> (resume: Option<String>)
        ensures
            (final(self)@, match resume {
                Some(f) => Some(f@),
                None => None,
            }) == startup_step(old(self)@, immersion, notice_stamp(final(self)@)),
    {
        if self.resume_mode && self.queue.len() == 0 {
            match &self.persistent_state.last_file {
                Some(f) => Some(f.clone()),
                None => None,
            }
        } else {
            if immersion {
                self.set_notification(String::from_str(IMMERSION_START));
            }
            None
        }
    }

    /// Takes the queue after the remembered track was queued again, and
    /// returns how far to seek into it, in seconds, if anywhere.
    pub fn finish_resume(&mut self, queue: Vec<SongInfo>) -> (seek: Option<i64>)
        ensures
            final(self)@ == after_resume(old(self)@, queue.deep_view(), notice_stamp(final(self)@)),
            seek == if old(self)@.persistent.last_elapsed_secs > 0 {
                Some(old(self)@.persistent.last_elapsed_secs as i64)
            } else {
                None
            },
    {
        self.queue = queue;
        self.update_filtered_indices();
        let secs = self.persistent_state.last_elapsed_secs;
        if secs > 0 {
            let position = clock_string(secs);
            self.set_notification(join_str(RESUMED_AT, position.as_str()));
            Some(secs as i64)
        } else {
            self.set_notification(String::from_str(RESUMED_TRACK));
            None
        }
    }
}

} // verus!
