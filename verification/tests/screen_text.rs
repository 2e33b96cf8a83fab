use ototune::app::AppState;
use ototune::mpd_client::SongInfo;
use ototune::state::PersistentState;
use ototune::ui::{
    browser_title, duration_text, help_popup_area, progress_label, queue_number, row_marker,
    volume_text,
};

fn song(pos: usize) -> SongInfo {
    SongInfo {
        id: 1,
        pos,
        file: "f.mp3".to_string(),
        title: "T".to_string(),
        artist: "A".to_string(),
        album: "B".to_string(),
        duration: Some(83_400),
    }
}

#[test]
fn library_titles() {
    assert_eq!(browser_title("", false), " 📂 Library [Root] ");
    assert_eq!(browser_title("immersionpod", true), " 📂 Library [immersionpod] (All) ");
}

#[test]
fn playlist_titles() {
    let mut a = AppState::new(PersistentState::default());
    a.queue = vec![song(0), song(1)];
    assert_eq!(a.playlist_title(), " 🎵 Queue (2) ");
    a.search_query = "ab".to_string();
    assert_eq!(a.playlist_title(), " 🔍 Filtered: 'ab' ");
    a.search_mode = true;
    assert_eq!(a.playlist_title(), " 🔍 SEARCH: ab█ ");
}

#[test]
fn playlist_rows_follow_filter() {
    let mut a = AppState::new(PersistentState::default());
    a.queue = vec![song(0), song(1), song(2)];
    assert_eq!(a.playlist_rows(), vec![0, 1, 2]);
    a.search_query = "zz".to_string();
    a.filtered_queue_indices = vec![2];
    assert_eq!(a.playlist_rows(), vec![2]);
}

#[test]
fn time_and_volume_texts() {
    assert_eq!(progress_label(522, 3599), "08:42 / 59:59");
    assert_eq!(volume_text(75), "🔊 75%");
    assert_eq!(volume_text(-1), "🔊 N/A");
    assert_eq!(duration_text(Some(83_400)), "01:23");
    assert_eq!(duration_text(None), "--:--");
}

#[test]
fn row_markers_and_numbers() {
    assert_eq!(row_marker(true, true), "▶▸");
    assert_eq!(row_marker(true, false), "▶ ");
    assert_eq!(row_marker(false, true), "▸ ");
    assert_eq!(row_marker(false, false), "  ");
    assert_eq!(queue_number(0), "  1");
    assert_eq!(queue_number(41), " 42");
    assert_eq!(queue_number(1233), "1234");
}

#[test]
fn help_overlay_is_centred() {
    assert_eq!(help_popup_area(100, 40), (19, 8, 62, 24));
    assert_eq!(help_popup_area(50, 10), (0, 0, 50, 10));
}

#[test]
fn now_playing_placeholders() {
    let mut a = AppState::new(PersistentState::default());
    let (t, ar, al) = a.now_playing();
    assert_eq!((t.as_str(), ar.as_str(), al.as_str()), ("No track playing", "Unknown Artist", "Unknown Album"));
    a.status.current_song = Some(song(0));
    a.status.elapsed = Some(61_999);
    assert_eq!(a.now_playing().0, "T");
    assert_eq!(a.progress_secs(), (61, 0));
}
