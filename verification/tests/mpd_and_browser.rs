use ototune::browser::{directory_entries, entry_for_named_line, sort_entries, sort_keyed};
use ototune::mpd_client::{
    direct_add_worked, fallback_work, get_tag, server_address, immersion_target, seek_target, song_info, toggle_pause_step,
    volume_target, AddWork, DirEntry, MpdStatus, PauseStep, PlaybackState,
};

fn tags(pairs: &[(&str, &str)]) -> Vec<(String, String)> {
    pairs.iter().map(|(k, v)| (k.to_string(), v.to_string())).collect()
}

#[test]
fn tag_lookup_ignores_ascii_case_and_takes_first() {
    let t = tags(&[("Album", "First"), ("ALBUM", "Second"), ("Genre", "Pop")]);
    assert_eq!(get_tag(&t, "album"), Some("First".to_string()));
    assert_eq!(get_tag(&t, "genre"), Some("Pop".to_string()));
    assert_eq!(get_tag(&t, "Title"), None);
    assert_eq!(get_tag(&Vec::new(), "Title"), None);
}

#[test]
fn song_info_fallbacks() {
    let s = song_info("podcasts/ep7.mp3".to_string(), &Vec::new(), None, None);
    assert_eq!(s.title, "ep7.mp3");
    assert_eq!(s.artist, "Unknown Artist");
    assert_eq!(s.album, "Unknown Album");
    assert_eq!(s.id, 0);
    assert_eq!(s.pos, 0);
    assert_eq!(s.file, "podcasts/ep7.mp3");
    assert_eq!(s.duration, None);
}

#[test]
fn song_info_from_tags_and_place() {
    let t = tags(&[("title", "Song"), ("Artist", "Band"), ("Album", "Record")]);
    let s = song_info("x.flac".to_string(), &t, Some((17, 3)), Some(180_000));
    assert_eq!(s.title, "Song");
    assert_eq!(s.artist, "Band");
    assert_eq!(s.album, "Record");
    assert_eq!(s.id, 17);
    assert_eq!(s.pos, 3);
    assert_eq!(s.duration, Some(180_000));
}

#[test]
fn default_status_is_disconnected() {
    let s = MpdStatus::default();
    assert_eq!(s.state, PlaybackState::Disconnected);
    assert_eq!(s.volume, -1);
    assert!(!s.repeat && !s.random && !s.single);
    assert!(s.elapsed.is_none() && s.total.is_none() && s.current_song.is_none());
}

#[test]
fn pause_toggling() {
    assert_eq!(toggle_pause_step(PlaybackState::Playing), PauseStep::Pause);
    assert_eq!(toggle_pause_step(PlaybackState::Paused), PauseStep::Resume);
    assert_eq!(toggle_pause_step(PlaybackState::Stopped), PauseStep::Start);
}

#[test]
fn volume_steps_are_clamped() {
    assert_eq!(volume_target(50, 5), 55);
    assert_eq!(volume_target(98, 5), 100);
    assert_eq!(volume_target(3, -5), 0);
    assert_eq!(volume_target(-1, 5), 4);
    assert_eq!(volume_target(100, -5), 95);
}

#[test]
fn seek_never_before_start() {
    assert_eq!(seek_target(10, 5), 15);
    assert_eq!(seek_target(3, -5), 0);
    assert_eq!(seek_target(5, -5), 0);
    assert_eq!(seek_target(0, 522), 522);
}

#[test]
fn immersion_root_aliases() {
    assert_eq!(immersion_target(None), "");
    assert_eq!(immersion_target(Some("/".to_string())), "");
    assert_eq!(immersion_target(Some("immersionpod".to_string())), "immersionpod");
}

#[test]
fn queue_growth_means_direct_add_worked() {
    assert!(direct_add_worked(2, 3));
    assert!(!direct_add_worked(3, 3));
    assert!(!direct_add_worked(3, 2));
}

fn listing(lines: &[(&str, &str)]) -> Vec<(String, String)> {
    tags(lines)
}

fn names(entries: &[DirEntry]) -> Vec<(String, String, bool)> {
    entries.iter().map(|e| (e.name.clone(), e.path.clone(), e.is_dir)).collect()
}

#[test]
fn directory_listing_filters_and_sorts() {
    let l = listing(&[
        ("file", "current/b.mp3"),
        ("directory", "current/Zeta"),
        ("playlist", "current/list.m3u"),
        ("file", "current/.hidden.mp3"),
        ("directory", "current/.stfolder"),
        ("file", "current/A.mp3"),
        ("directory", "current/alpha"),
        ("Last-Modified", "2024"),
    ]);
    let e = directory_entries("current", &l, false);
    assert_eq!(
        names(&e),
        vec![
            ("alpha".to_string(), "current/alpha".to_string(), true),
            ("Zeta".to_string(), "current/Zeta".to_string(), true),
            ("A.mp3".to_string(), "current/A.mp3".to_string(), false),
            ("b.mp3".to_string(), "current/b.mp3".to_string(), false),
        ]
    );
    let all = directory_entries("current", &l, true);
    assert_eq!(all.len(), 6);
    assert_eq!(all[0].name, ".stfolder");
    assert_eq!(all[3].name, ".hidden.mp3");
}

#[test]
fn directory_listing_builds_full_paths() {
    let l = listing(&[("file", "song.mp3"), ("directory", "sub")]);
    let e = directory_entries("music//", &l, false);
    assert_eq!(names(&e), vec![
        ("sub".to_string(), "music/sub".to_string(), true),
        ("song.mp3".to_string(), "music/song.mp3".to_string(), false),
    ]);
    let root = directory_entries("", &l, false);
    assert_eq!(root[0].path, "sub");
    assert_eq!(root[1].path, "song.mp3");
}

#[test]
fn sort_is_stable_for_equal_keys() {
    let mk = |n: &str, p: &str, d: bool| DirEntry { name: n.to_string(), path: p.to_string(), is_dir: d };
    let sorted = sort_entries(vec![
        mk("Same", "one", false),
        mk("b", "x", true),
        mk("same", "two", false),
        mk("SAME", "three", false),
        mk("a", "y", false),
    ]);
    let paths: Vec<String> = sorted.iter().map(|e| e.path.clone()).collect();
    assert_eq!(paths, vec!["x", "y", "one", "two", "three"]);
}

#[test]
fn keyed_sort_orders_by_given_keys() {
    let mk = |n: &str| DirEntry { name: n.to_string(), path: n.to_string(), is_dir: false };
    let items = vec![
        (mk("x"), (1u8, vec!['b'])),
        (mk("y"), (0u8, vec!['z'])),
        (mk("z"), (1u8, vec!['a', 'b'])),
        (mk("w"), (1u8, vec!['b'])),
    ];
    let out = sort_keyed(items);
    let names: Vec<String> = out.iter().map(|p| p.0.name.clone()).collect();
    assert_eq!(names, vec!["y", "z", "x", "w"]);
}

#[test]
fn named_line_entries() {
    let e = entry_for_named_line("music/", "directory", "album", "album".to_string(), false).unwrap();
    assert_eq!((e.name.as_str(), e.path.as_str(), e.is_dir), ("album", "music/album", true));
    assert!(entry_for_named_line("", "file", ".x", ".x".to_string(), false).is_none());
    assert!(entry_for_named_line("", "file", ".x", ".x".to_string(), true).is_some());
    assert!(entry_for_named_line("", "playlist", "p", "p".to_string(), true).is_none());
    let f = entry_for_named_line("music", "file", "music/a.mp3", "a.mp3".to_string(), false).unwrap();
    assert_eq!(f.path, "music/a.mp3");
}

#[test]
fn server_address_from_environment() {
    assert_eq!(server_address("127.0.0.1:6600", None, None), "127.0.0.1:6600");
    assert_eq!(server_address("127.0.0.1:6600", Some("music.local".to_string()), None), "music.local:6600");
    assert_eq!(server_address("127.0.0.1:6600", Some("h".to_string()), Some("7000".to_string())), "h:7000");
    assert_eq!(server_address("10.0.0.2:6601", Some("h".to_string()), None), "10.0.0.2:6601");
}

#[test]
fn hiding_names_filters_the_shown_listing() {
    let l = listing(&[
        ("file", "m/.b.mp3"),
        ("directory", "m/z"),
        ("file", "m/a.mp3"),
        ("directory", "m/.cache"),
        ("playlist", "m/p.m3u"),
        ("directory", "m/B"),
    ]);
    let shown = directory_entries("m", &l, true);
    let unhidden = directory_entries("m", &l, false);
    let filtered: Vec<(String, String, bool)> = names(&shown)
        .into_iter()
        .filter(|(name, _, _)| !name.starts_with('.'))
        .collect();
    assert_eq!(names(&unhidden), filtered);
    assert_eq!(names(&shown).len(), 5);
    assert_eq!(unhidden.len(), 3);
}

#[test]
fn fallback_adds_directories_again_and_queues_files() {
    let entries = vec![
        DirEntry { name: "sub".to_string(), path: "f/sub".to_string(), is_dir: true },
        DirEntry { name: "a.mp3".to_string(), path: "f/a.mp3".to_string(), is_dir: false },
    ];
    let work = fallback_work(&entries);
    assert_eq!(work.len(), 2);
    assert!(matches!(&work[0], AddWork::Recurse(p) if p == "f/sub"));
    assert!(matches!(&work[1], AddWork::PushFile(p) if p == "f/a.mp3"));
    assert!(fallback_work(&Vec::new()).is_empty());
}
