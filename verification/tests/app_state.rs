use ototune::app::{lowered_song_matches, ActiveTab, AppState};
use ototune::mpd_client::{DirEntry, MpdStatus, PlaybackState, SongInfo};
use ototune::state::PersistentState;

fn song(pos: usize, title: &str, artist: &str, album: &str, file: &str) -> SongInfo {
    SongInfo {
        id: pos as u32 + 100,
        pos,
        file: file.to_string(),
        title: title.to_string(),
        artist: artist.to_string(),
        album: album.to_string(),
        duration: Some(60_000),
    }
}

fn sample_queue() -> Vec<SongInfo> {
    vec![
        song(0, "Morning News", "NHK", "Radio", "nhk/morning.mp3"),
        song(1, "Ocean", "Band", "Blue", "music/ocean.flac"),
        song(2, "Podcast 12", "Host", "Talks", "immersionpod/ep12.mp3"),
        song(3, "Evening", "Other", "Radio Days", "misc/evening.ogg"),
    ]
}

fn app_with_queue() -> AppState {
    let mut app = AppState::new(PersistentState::default());
    app.queue = sample_queue();
    app.update_filtered_indices();
    app
}

fn entries(n: usize) -> Vec<DirEntry> {
    (0..n)
        .map(|i| DirEntry { name: format!("e{i}"), path: format!("p/e{i}"), is_dir: false })
        .collect()
}

#[test]
fn persistent_default_resumes() {
    let p = PersistentState::default();
    assert!(p.resume_mode);
    assert!(!p.show_hidden);
    assert_eq!(p.last_folder, "");
    assert_eq!(p.last_file, None);
    assert_eq!(p.last_elapsed_secs, 0);
}

#[test]
fn new_state_starts_from_remembered_settings() {
    let p = PersistentState {
        last_folder: "immersionpod".to_string(),
        last_file: Some("immersionpod/ep1.mp3".to_string()),
        last_elapsed_secs: 522,
        resume_mode: false,
        show_hidden: true,
    };
    let app = AppState::new(p);
    assert_eq!(app.browser_path, "immersionpod");
    assert!(app.show_hidden);
    assert!(!app.resume_mode);
    assert_eq!(app.active_tab, ActiveTab::Playlist);
    assert!(app.running);
    assert_eq!(app.status.state, PlaybackState::Disconnected);
    assert!(app.queue.is_empty() && app.notification.is_none());
}

#[test]
fn blank_query_lists_whole_queue() {
    let mut app = app_with_queue();
    assert_eq!(app.filtered_queue_indices, vec![0, 1, 2, 3]);
    app.search_query = "   ".to_string();
    app.update_filtered_indices();
    assert_eq!(app.filtered_queue_indices, vec![0, 1, 2, 3]);
}

#[test]
fn query_matches_title_artist_album_or_file_ignoring_case() {
    let mut app = app_with_queue();
    app.search_query = "RADIO".to_string();
    app.update_filtered_indices();
    assert_eq!(app.filtered_queue_indices, vec![0, 3]);
    app.search_query = "Pod".to_string();
    app.update_filtered_indices();
    assert_eq!(app.filtered_queue_indices, vec![2]);
    app.search_query = "band".to_string();
    app.update_filtered_indices();
    assert_eq!(app.filtered_queue_indices, vec![1]);
    app.search_query = "zzz".to_string();
    app.update_filtered_indices();
    assert!(app.filtered_queue_indices.is_empty());
}

#[test]
fn refilter_pulls_selection_back() {
    let mut app = app_with_queue();
    app.playlist_selected = 3;
    app.search_query = "radio".to_string();
    app.update_filtered_indices();
    assert_eq!(app.playlist_selected, 1);
    app.search_query = "nothing matches".to_string();
    app.update_filtered_indices();
    assert_eq!(app.playlist_selected, 0);
}

#[test]
fn selected_index_follows_filter() {
    let mut app = app_with_queue();
    app.playlist_selected = 1;
    assert_eq!(app.selected_song_index(), Some(1));
    app.search_query = "radio".to_string();
    app.update_filtered_indices();
    app.playlist_selected = 1;
    assert_eq!(app.selected_song_index(), Some(3));
    app.playlist_selected = 2;
    assert_eq!(app.selected_song_index(), None);
    app.search_query.clear();
    app.playlist_selected = 4;
    assert_eq!(app.selected_song_index(), None);
}

#[test]
fn moving_down_stops_at_last_row() {
    let mut app = app_with_queue();
    for _ in 0..10 {
        app.next_item();
    }
    assert_eq!(app.playlist_selected, 3);
    app.prev_item();
    assert_eq!(app.playlist_selected, 2);
    for _ in 0..10 {
        app.prev_item();
    }
    assert_eq!(app.playlist_selected, 0);
}

#[test]
fn down_then_up_returns_to_row() {
    let mut app = app_with_queue();
    app.playlist_selected = 1;
    app.next_item();
    app.prev_item();
    assert_eq!(app.playlist_selected, 1);
}

#[test]
fn paging_in_tens() {
    let mut app = AppState::new(PersistentState::default());
    app.active_tab = ActiveTab::Browser;
    app.browser_entries = entries(25);
    app.page_down();
    assert_eq!(app.browser_selected, 10);
    app.page_down();
    assert_eq!(app.browser_selected, 20);
    app.page_down();
    assert_eq!(app.browser_selected, 24);
    app.page_up();
    assert_eq!(app.browser_selected, 14);
    app.page_up();
    app.page_up();
    assert_eq!(app.browser_selected, 0);
    app.browser_selected = 3;
    app.page_down();
    app.page_up();
    assert_eq!(app.browser_selected, 3);
}

#[test]
fn paging_on_empty_pane_keeps_selection() {
    let mut app = AppState::new(PersistentState::default());
    app.page_down();
    assert_eq!(app.playlist_selected, 0);
    app.next_item();
    assert_eq!(app.playlist_selected, 0);
}

#[test]
fn saving_records_position_and_settings() {
    let mut app = app_with_queue();
    app.browser_path = "immersionpod".to_string();
    app.show_hidden = true;
    app.resume_mode = false;
    app.status = MpdStatus {
        state: PlaybackState::Playing,
        volume: 40,
        repeat: false,
        random: true,
        single: false,
        elapsed: Some(522_750),
        total: Some(600_000),
        current_song: Some(song(2, "Podcast 12", "Host", "Talks", "immersionpod/ep12.mp3")),
    };
    app.save_current_state();
    let p = &app.persistent_state;
    assert_eq!(p.last_folder, "immersionpod");
    assert!(p.show_hidden);
    assert!(!p.resume_mode);
    assert_eq!(p.last_file, Some("immersionpod/ep12.mp3".to_string()));
    assert_eq!(p.last_elapsed_secs, 522);
    let restored = AppState::new(p.clone());
    assert_eq!(restored.browser_path, "immersionpod");
    assert!(restored.show_hidden);
    assert!(!restored.resume_mode);
}

#[test]
fn saving_without_song_keeps_last_file() {
    let mut app = AppState::new(PersistentState {
        last_folder: String::new(),
        last_file: Some("old.mp3".to_string()),
        last_elapsed_secs: 30,
        resume_mode: true,
        show_hidden: false,
    });
    app.save_current_state();
    assert_eq!(app.persistent_state.last_file, Some("old.mp3".to_string()));
    assert_eq!(app.persistent_state.last_elapsed_secs, 30);
}

#[test]
fn notifications_expire_after_three_seconds() {
    let mut app = AppState::new(PersistentState::default());
    assert_eq!(app.get_active_notification(), None);
    app.set_notification("hello".to_string());
    assert_eq!(app.get_active_notification(), Some("hello"));
    assert_eq!(app.notification_at(2999), Some("hello"));
    assert_eq!(app.notification_at(3000), None);
}

#[test]
fn lowered_matching_is_in_order_in_any_field() {
    let v = |s: &str| s.chars().collect::<Vec<char>>();
    assert!(lowered_song_matches(&v("ocean"), &v("band"), &v("blue"), &v("o.flac"), &v("lue")));
    assert!(lowered_song_matches(&v("ocean"), &v("band"), &v("blue"), &v("o.flac"), &v("bd")));
    assert!(!lowered_song_matches(&v("ocean"), &v("band"), &v("blue"), &v("o.flac"), &v("db")));
    assert!(!lowered_song_matches(&v("ocean"), &v("band"), &v("blue"), &v("o.flac"), &v("Ocean")));
    assert!(lowered_song_matches(&v("a"), &v("b"), &v("c"), &v("d"), &v("")));
}

#[test]
fn search_results_always_point_into_queue() {
    let mut app = app_with_queue();
    app.search_query = "o".to_string();
    app.update_filtered_indices();
    assert!(app.filtered_queue_indices.iter().all(|&i| i < app.queue.len()));
    assert!(app.filtered_queue_indices.windows(2).all(|w| w[0] < w[1]));
    app.queue.truncate(1);
    app.update_filtered_indices();
    assert!(app.filtered_queue_indices.iter().all(|&i| i < app.queue.len()));
}

#[test]
fn restart_resumes_saved_track() {
    let mut app = app_with_queue();
    app.status.current_song = Some(song(2, "Podcast 12", "Host", "Talks", "immersionpod/ep12.mp3"));
    app.status.elapsed = Some(522_000);
    app.save_current_state();
    let mut next_run = AppState::new(app.persistent_state.clone());
    assert_eq!(next_run.startup(false), Some("immersionpod/ep12.mp3".to_string()));
    assert_eq!(next_run.finish_resume(sample_queue()), Some(522));
}

#[test]
fn fuzzy_query_matches_scattered_letters() {
    let mut app = AppState::new(PersistentState::default());
    app.queue = vec![
        song(0, "Hello", "A", "B", "x.mp3"),
        song(1, "World", "C", "D", "y.mp3"),
        song(2, "help", "E", "F", "z.mp3"),
    ];
    app.update_filtered_indices();
    app.playlist_selected = 2;
    app.search_query = "hlo".to_string();
    app.update_filtered_indices();
    assert_eq!(app.filtered_queue_indices, vec![0]);
    assert_eq!(app.playlist_selected, 0);
    app.search_query = "HEL".to_string();
    app.update_filtered_indices();
    assert_eq!(app.filtered_queue_indices, vec![0, 2]);
    app.search_query = "wrd".to_string();
    app.update_filtered_indices();
    assert_eq!(app.filtered_queue_indices, vec![1]);
    app.search_query = "dlrow".to_string();
    app.update_filtered_indices();
    assert!(app.filtered_queue_indices.is_empty());
}

#[test]
fn longer_query_never_adds_results() {
    let mut app = app_with_queue();
    app.search_query = "o".to_string();
    app.update_filtered_indices();
    let wide = app.filtered_queue_indices.clone();
    app.search_query = "on".to_string();
    app.update_filtered_indices();
    let narrow = app.filtered_queue_indices.clone();
    assert!(narrow.iter().all(|i| wide.contains(i)));
    assert_eq!(wide, vec![0, 1, 2, 3]);
    assert_eq!(narrow, vec![0, 1, 2]);
    app.search_query = "ond".to_string();
    app.update_filtered_indices();
    assert_eq!(app.filtered_queue_indices, vec![2]);
}

#[test]
fn query_lowering_is_unicode_aware() {
    let mut app = app_with_queue();
    app.queue.push(song(4, "ÄRGER", "X", "Y", "z.mp3"));
    app.search_query = "Ärg".to_string();
    app.update_filtered_indices();
    assert_eq!(app.filtered_queue_indices, vec![4]);
}
