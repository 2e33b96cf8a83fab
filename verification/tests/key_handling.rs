use ototune::app::{ActiveTab, AppState};
use ototune::keys::{Effect, Key, KeyPress, StatusNotice};
use ototune::mpd_client::{DirEntry, MpdCommand, MpdStatus, PlaybackState, SongInfo};
use ototune::state::PersistentState;

fn press(key: Key) -> KeyPress {
    KeyPress { key, ctrl: false }
}

fn ch(c: char) -> KeyPress {
    press(Key::Char(c))
}

fn song(pos: usize, title: &str, file: &str) -> SongInfo {
    SongInfo {
        id: 40 + pos as u32,
        pos,
        file: file.to_string(),
        title: title.to_string(),
        artist: "Artist".to_string(),
        album: "Album".to_string(),
        duration: None,
    }
}

fn queue() -> Vec<SongInfo> {
    vec![song(0, "Alpha", "a.mp3"), song(1, "Beta", "b.mp3"), song(2, "Alpine", "c.mp3")]
}

fn app() -> AppState {
    let mut a = AppState::new(PersistentState::default());
    a.queue = queue();
    a.update_filtered_indices();
    a
}

fn notice(a: &AppState) -> Option<String> {
    a.notification.as_ref().map(|n| n.0.clone())
}

fn status(state: PlaybackState, volume: i8, random: bool, repeat: bool, single: bool) -> MpdStatus {
    MpdStatus { state, volume, repeat, random, single, elapsed: None, total: None, current_song: None }
}

fn browser_app() -> AppState {
    let mut a = app();
    a.active_tab = ActiveTab::Browser;
    a.browser_entries = vec![
        DirEntry { name: "Podcasts".to_string(), path: "Podcasts".to_string(), is_dir: true },
        DirEntry { name: "song.mp3".to_string(), path: "song.mp3".to_string(), is_dir: false },
    ];
    a
}

#[test]
fn quit_keys() {
    let mut a = app();
    assert!(matches!(a.handle_key(ch('q')), Effect::Nothing));
    assert!(!a.running);
    let mut b = app();
    b.active_tab = ActiveTab::Browser;
    b.handle_key(KeyPress { key: Key::Char('c'), ctrl: true });
    assert!(!b.running);
}

#[test]
fn tab_twice_returns_focus() {
    let mut a = app();
    a.handle_key(press(Key::Tab));
    assert_eq!(a.active_tab, ActiveTab::Browser);
    a.handle_key(press(Key::Tab));
    assert_eq!(a.active_tab, ActiveTab::Playlist);
}

#[test]
fn help_overlay_swallows_keys() {
    let mut a = app();
    a.handle_key(ch('?'));
    assert!(a.show_help);
    a.handle_key(ch('q'));
    assert!(a.running);
    assert!(a.show_help);
    a.handle_key(press(Key::Esc));
    assert!(!a.show_help);
    a.handle_key(ch('?'));
    a.handle_key(ch('?'));
    assert!(!a.show_help);
}

#[test]
fn search_typing_filters_and_enter_plays() {
    let mut a = app();
    a.handle_key(ch('/'));
    assert!(a.search_mode);
    a.handle_key(ch('A'));
    a.handle_key(ch('l'));
    a.handle_key(ch('p'));
    assert_eq!(a.search_query, "Alp");
    assert_eq!(a.filtered_queue_indices, vec![0, 2]);
    a.handle_key(press(Key::Backspace));
    a.handle_key(press(Key::Backspace));
    a.handle_key(press(Key::Backspace));
    assert_eq!(a.search_query, "");
    assert_eq!(a.filtered_queue_indices, vec![0, 1, 2]);
    a.handle_key(ch('b'));
    a.handle_key(ch('e'));
    a.handle_key(ch('t'));
    match a.handle_key(press(Key::Enter)) {
        Effect::Run(MpdCommand::PlayIndex(i)) => assert_eq!(i, 1),
        other => panic!("unexpected {:?}", other),
    }
    assert!(!a.search_mode);
    assert_eq!(notice(&a), Some("▶ Playing selected track".to_string()));
}

#[test]
fn escape_clears_filter() {
    let mut a = app();
    a.handle_key(ch('/'));
    a.handle_key(ch('z'));
    a.handle_key(press(Key::Esc));
    assert!(!a.search_mode);
    assert_eq!(a.search_query, "z");
    assert!(a.filtered_queue_indices.is_empty());
    a.handle_key(press(Key::Esc));
    assert_eq!(a.search_query, "");
    assert_eq!(a.filtered_queue_indices, vec![0, 1, 2]);
    assert_eq!(notice(&a), Some("🔍 Search Filter Cleared".to_string()));
}

#[test]
fn play_pause_refreshes_status() {
    let mut a = app();
    match a.handle_key(ch(' ')) {
        Effect::RunThenRefreshStatus(MpdCommand::TogglePause, n) => {
            a.finish_status_refresh(status(PlaybackState::Paused, 50, false, false, false), n)
        }
        other => panic!("unexpected {:?}", other),
    }
    assert_eq!(a.status.state, PlaybackState::Paused);
    assert_eq!(notice(&a), Some("⏸ Paused".to_string()));
    let mut b = app();
    b.finish_status_refresh(status(PlaybackState::Stopped, 50, false, false, false), StatusNotice::PlayPause);
    assert_eq!(notice(&b), None);
}

#[test]
fn volume_keys_report_volume() {
    let mut a = app();
    match a.handle_key(ch('+')) {
        Effect::RunThenRefreshStatus(MpdCommand::ChangeVolume(5), n) => {
            a.finish_status_refresh(status(PlaybackState::Playing, 55, false, false, false), n)
        }
        other => panic!("unexpected {:?}", other),
    }
    assert_eq!(notice(&a), Some("🔊 Volume: 55%".to_string()));
    assert!(matches!(a.handle_key(ch('-')), Effect::RunThenRefreshStatus(MpdCommand::ChangeVolume(-5), StatusNotice::Volume)));
    a.finish_status_refresh(status(PlaybackState::Playing, -1, false, false, false), StatusNotice::Volume);
    assert_eq!(notice(&a), Some("🔊 Volume: -1%".to_string()));
}

#[test]
fn mode_toggles_report_new_mode() {
    let mut a = app();
    assert!(matches!(a.handle_key(ch('r')), Effect::RunThenRefreshStatus(MpdCommand::ToggleRandom, StatusNotice::Random)));
    a.finish_status_refresh(status(PlaybackState::Playing, 50, true, false, false), StatusNotice::Random);
    assert_eq!(notice(&a), Some("🔀 Random Playback Enabled".to_string()));
    assert!(matches!(a.handle_key(ch('e')), Effect::RunThenRefreshStatus(MpdCommand::ToggleRepeat, StatusNotice::Repeat)));
    a.finish_status_refresh(status(PlaybackState::Playing, 50, true, false, false), StatusNotice::Repeat);
    assert_eq!(notice(&a), Some("➡️ Repeat Mode Disabled".to_string()));
    assert!(matches!(a.handle_key(ch('l')), Effect::RunThenRefreshStatus(MpdCommand::ToggleSingle, StatusNotice::Single)));
    a.finish_status_refresh(status(PlaybackState::Playing, 50, true, false, true), StatusNotice::Single);
    assert_eq!(notice(&a), Some("🔁 Single Track Loop Enabled".to_string()));
}

#[test]
fn seek_and_skip_keys() {
    let mut a = app();
    assert!(matches!(a.handle_key(press(Key::Right)), Effect::Run(MpdCommand::SeekRelative(5))));
    assert_eq!(notice(&a), Some("⏩ +5s".to_string()));
    assert!(matches!(a.handle_key(press(Key::Left)), Effect::Run(MpdCommand::SeekRelative(-5))));
    assert!(matches!(a.handle_key(ch('n')), Effect::Run(MpdCommand::Next)));
    assert_eq!(notice(&a), Some("⏭ Next Track".to_string()));
    assert!(matches!(a.handle_key(ch('p')), Effect::Run(MpdCommand::Prev)));
}

#[test]
fn resume_toggle_saves() {
    let mut a = app();
    assert!(matches!(a.handle_key(ch('m')), Effect::SaveState));
    assert!(!a.resume_mode);
    assert!(!a.persistent_state.resume_mode);
    assert_eq!(notice(&a), Some("➡️ Resume Mode Disabled (Start from beginning)".to_string()));
    a.handle_key(ch('m'));
    assert!(a.resume_mode && a.persistent_state.resume_mode);
}

#[test]
fn hidden_toggle_reloads_directory() {
    let mut a = browser_app();
    a.browser_selected = 1;
    assert!(matches!(a.handle_key(ch('.')), Effect::LoadDirectory));
    assert!(a.show_hidden);
    assert_eq!(a.browser_selected, 0);
    assert_eq!(notice(&a), Some("👁 Showing Hidden Files".to_string()));
    a.finish_directory_load(Vec::new());
    assert!(a.browser_entries.is_empty());
}

#[test]
fn immersion_targets_context() {
    let mut a = browser_app();
    match a.handle_key(ch('i')) {
        Effect::RunThenRefreshQueue(MpdCommand::ImmersionMode(Some(p)), msg) => {
            assert_eq!(p, "Podcasts");
            assert_eq!(msg, "🎧 Shuffled Immersion: 'Podcasts'");
        }
        other => panic!("unexpected {:?}", other),
    }
    let mut b = app();
    match b.handle_key(ch('i')) {
        Effect::RunThenRefreshQueue(MpdCommand::ImmersionMode(None), msg) => {
            assert_eq!(msg, "🎧 Shuffled Immersion: 'Full Library'")
        }
        other => panic!("unexpected {:?}", other),
    }
    let mut c = app();
    c.browser_path = "current".to_string();
    match c.handle_key(ch('I')) {
        Effect::RunThenRefreshQueue(MpdCommand::ImmersionMode(None), msg) => {
            assert_eq!(msg, "🎧 Global Full Library Immersion Mode!")
        }
        other => panic!("unexpected {:?}", other),
    }
    match c.handle_key(ch('i')) {
        Effect::RunThenRefreshQueue(MpdCommand::ImmersionMode(Some(p)), _) => assert_eq!(p, "current"),
        other => panic!("unexpected {:?}", other),
    }
}

#[test]
fn entering_and_leaving_directories() {
    let mut a = browser_app();
    assert!(matches!(a.handle_key(press(Key::Enter)), Effect::LoadDirectory));
    assert_eq!(a.browser_path, "Podcasts");
    assert_eq!(a.browser_history, vec!["".to_string()]);
    a.browser_selected = 1;
    assert!(matches!(a.handle_key(ch('h')), Effect::LoadDirectory));
    assert_eq!(a.browser_path, "");
    assert!(a.browser_history.is_empty());
    assert_eq!(a.browser_selected, 0);
    assert!(matches!(a.handle_key(press(Key::Backspace)), Effect::Nothing));
    a.browser_path = "deep/folder".to_string();
    assert!(matches!(a.handle_key(press(Key::Backspace)), Effect::LoadDirectory));
    assert_eq!(a.browser_path, "");
}

#[test]
fn queuing_a_file_starts_playback_when_queue_was_empty() {
    let mut a = browser_app();
    a.queue.clear();
    a.browser_selected = 1;
    let pending = match a.handle_key(press(Key::Enter)) {
        Effect::Add(p) => p,
        other => panic!("unexpected {:?}", other),
    };
    assert_eq!(pending.path, "song.mp3");
    assert!(pending.start_playback);
    assert_eq!(pending.added_notice, "➕ Added 'song.mp3' to Queue");
    match a.finish_add(true, pending) {
        Effect::RunThenRefreshQueue(MpdCommand::TogglePause, msg) => a.finish_queue_refresh(queue(), msg),
        other => panic!("unexpected {:?}", other),
    }
    assert_eq!(a.queue.len(), 3);
    assert_eq!(a.filtered_queue_indices, vec![0, 1, 2]);
    assert_eq!(notice(&a), Some("➕ Added 'song.mp3' to Queue".to_string()));
}

#[test]
fn queuing_with_a_key_and_failure() {
    let mut a = browser_app();
    a.status.state = PlaybackState::Playing;
    let pending = match a.handle_key(ch('a')) {
        Effect::Add(p) => p,
        other => panic!("unexpected {:?}", other),
    };
    assert_eq!(pending.path, "Podcasts");
    assert!(!pending.start_playback);
    assert_eq!(pending.added_notice, "➕ Queued 'Podcasts'");
    assert_eq!(pending.failed_notice, "❌ Failed to queue 'Podcasts'");
    let (failed, _) = (pending.failed_notice.clone(), ());
    assert!(matches!(a.finish_add(false, pending), Effect::Nothing));
    assert_eq!(notice(&a), Some(failed));
    let mut b = browser_app();
    b.status.state = PlaybackState::Playing;
    if let Effect::Add(p) = b.handle_key(ch('a')) {
        assert!(matches!(b.finish_add(true, p), Effect::RefreshQueue(_)));
    } else {
        panic!("expected an add");
    }
}

#[test]
fn playlist_delete_and_clear() {
    let mut a = app();
    a.playlist_selected = 1;
    match a.handle_key(ch('d')) {
        Effect::RunThenRefreshQueue(MpdCommand::DeleteIndex(id), msg) => {
            assert_eq!(id, 41);
            assert_eq!(msg, "🗑 Removed track from Queue");
        }
        other => panic!("unexpected {:?}", other),
    }
    assert!(matches!(a.handle_key(ch('c')), Effect::Run(MpdCommand::ClearQueue)));
    assert!(a.queue.is_empty());
    assert!(a.filtered_queue_indices.is_empty());
    assert_eq!(a.playlist_selected, 0);
    assert_eq!(notice(&a), Some("🗑 Cleared Queue".to_string()));
    let mut b = browser_app();
    assert!(matches!(b.handle_key(ch('c')), Effect::Nothing));
    assert_eq!(b.queue.len(), 3);
    assert!(matches!(b.handle_key(ch('d')), Effect::Nothing));
}

#[test]
fn enter_on_playlist_plays_selected() {
    let mut a = app();
    a.handle_key(press(Key::Down));
    a.handle_key(ch('j'));
    assert_eq!(a.playlist_selected, 2);
    a.handle_key(ch('k'));
    match a.handle_key(press(Key::Enter)) {
        Effect::Run(MpdCommand::PlayIndex(i)) => assert_eq!(i, 1),
        other => panic!("unexpected {:?}", other),
    }
    assert_eq!(notice(&a), Some("▶ Playing track".to_string()));
    a.handle_key(press(Key::PageDown));
    assert_eq!(a.playlist_selected, 2);
    a.handle_key(press(Key::PageUp));
    assert_eq!(a.playlist_selected, 0);
}

#[test]
fn key_definedness() {
    let mut a = app();
    a.playlist_selected = usize::MAX;
    assert!(!a.key_is_defined(press(Key::Down)));
    assert!(!a.key_is_defined(press(Key::PageDown)));
    assert!(a.key_is_defined(press(Key::Up)));
    a.playlist_selected = 1;
    assert!(a.key_is_defined(press(Key::PageDown)));
}

#[test]
fn tick_refilters_only_when_queue_length_changes() {
    let mut a = app();
    a.handle_key(ch('/'));
    a.handle_key(ch('e'));
    a.handle_key(ch('t'));
    a.handle_key(ch('a'));
    assert_eq!(a.filtered_queue_indices, vec![1]);
    let mut q = queue();
    q[1].title = "Gamma".to_string();
    a.apply_tick(status(PlaybackState::Playing, 10, false, false, false), q);
    assert_eq!(a.filtered_queue_indices, vec![1]);
    assert_eq!(a.status.volume, 10);
    let mut q2 = queue();
    q2.push(song(3, "Zeta", "d.mp3"));
    a.apply_tick(status(PlaybackState::Playing, 10, false, false, false), q2);
    assert_eq!(a.filtered_queue_indices, vec![1, 3]);
}

#[test]
fn startup_resumes_remembered_track() {
    let mut a = AppState::new(PersistentState {
        last_folder: String::new(),
        last_file: Some("immersionpod/ep1.mp3".to_string()),
        last_elapsed_secs: 522,
        resume_mode: true,
        show_hidden: false,
    });
    assert_eq!(a.startup(false), Some("immersionpod/ep1.mp3".to_string()));
    assert_eq!(a.finish_resume(queue()), Some(522));
    assert_eq!(notice(&a), Some("📍 Resumed playback position: 08:42".to_string()));
    assert_eq!(a.filtered_queue_indices, vec![0, 1, 2]);
    let mut b = AppState::new(PersistentState {
        last_elapsed_secs: 0,
        ..PersistentState::default()
    });
    b.persistent_state.last_file = Some("x.mp3".to_string());
    assert_eq!(b.startup(true), Some("x.mp3".to_string()));
    assert_eq!(b.finish_resume(Vec::new()), None);
    assert_eq!(notice(&b), Some("📍 Resumed last track!".to_string()));
    let mut c = app();
    assert_eq!(c.startup(true), None);
    assert_eq!(notice(&c), Some("🎧 Started in AJATT Immersion Mode!".to_string()));
    let mut d = AppState::new(PersistentState::default());
    assert_eq!(d.startup(true), None);
    assert_eq!(notice(&d), None);
}

#[test]
fn hidden_toggle_twice_restores_setting() {
    let mut a = browser_app();
    a.handle_key(ch('.'));
    a.handle_key(ch('.'));
    assert!(!a.show_hidden);
    assert_eq!(notice(&a), Some("🙈 Hiding Hidden Files".to_string()));
}

fn selections_on_rows(a: &AppState) -> bool {
    let count = if a.search_mode || !a.search_query.is_empty() {
        a.filtered_queue_indices.len()
    } else {
        a.queue.len()
    };
    (a.playlist_selected < count || a.playlist_selected == 0)
        && (a.browser_selected < a.browser_entries.len() || a.browser_selected == 0)
        && a.filtered_queue_indices.iter().all(|&i| i < a.queue.len())
}

#[test]
fn selections_stay_on_rows_through_a_session() {
    let mut a = app();
    let keys = [
        press(Key::PageDown), ch('/'), ch('z'), press(Key::Esc), press(Key::Down), press(Key::Esc),
        press(Key::PageDown), ch('c'), press(Key::Down), press(Key::Tab), press(Key::PageDown),
        ch('/'), ch('a'), press(Key::Backspace), press(Key::Enter),
    ];
    for k in keys {
        if let Effect::Add(p) = a.handle_key(k) {
            a.finish_add(false, p);
        }
        assert!(selections_on_rows(&a));
    }
    a.finish_queue_refresh(queue(), "x".to_string());
    assert_eq!(a.active_tab, ActiveTab::Playlist);
    a.handle_key(press(Key::PageDown));
    assert_eq!(a.playlist_selected, 2);
    a.apply_tick(status(PlaybackState::Playing, 1, false, false, false), vec![song(0, "Only", "o.mp3")]);
    assert!(selections_on_rows(&a));
    assert_eq!(a.playlist_selected, 0);
}

#[test]
fn quiet_keys_keep_the_notification_and_its_instant() {
    let mut a = app();
    a.handle_key(ch('n'));
    let raised = a.notification.as_ref().map(|n| n.1);
    assert_eq!(notice(&a), Some("⏭ Next Track".to_string()));
    a.handle_key(press(Key::Tab));
    a.handle_key(press(Key::Down));
    a.handle_key(ch('?'));
    a.handle_key(press(Key::Esc));
    assert_eq!(notice(&a), Some("⏭ Next Track".to_string()));
    assert_eq!(a.notification.as_ref().map(|n| n.1), raised);
    a.handle_key(ch('p'));
    assert_eq!(notice(&a), Some("⏮ Previous Track".to_string()));
    assert!(a.notification.as_ref().map(|n| n.1) >= raised);
}
