use projectm_vj::playlist::{is_visible_name, Playlist, PlaylistError, ScannedEntry};

fn playlist_of(names: &[&str]) -> Playlist {
    let mut p = Playlist::new();
    for n in names {
        p.add_preset(n.to_string(), format!("source of {}", n));
    }
    p
}

#[test]
fn play_random_stays_in_range_and_varies() {
    let mut p = playlist_of(&["a", "b", "c", "d", "e", "f", "g", "h"]);
    let mut seen = [false; 8];
    for _ in 0..500 {
        let i = p.play_random().unwrap();
        assert!(i < 8);
        assert_eq!(p.current_index(), i);
        seen[i] = true;
    }
    assert!(seen.iter().filter(|s| **s).count() > 1);
}

#[test]
fn play_random_on_single_preset() {
    let mut p = playlist_of(&["only"]);
    assert_eq!(p.play_random(), Ok(0));
    assert_eq!(p.current_index(), 0);
}

#[test]
fn play_random_on_empty_playlist_fails() {
    let mut p = Playlist::new();
    assert_eq!(p.play_random(), Err(PlaylistError::EmptyPlaylist));
    assert_eq!(p.current_index(), 0);
}

#[test]
fn play_index_in_range_selects() {
    let mut p = playlist_of(&["a", "b", "c"]);
    for i in 0..3 {
        assert_eq!(p.play_index(i), Ok(()));
        assert_eq!(p.current_index(), i);
    }
}

#[test]
fn play_index_out_of_range_keeps_selection() {
    let mut p = playlist_of(&["a", "b", "c"]);
    p.play_index(1).unwrap();
    assert_eq!(p.play_index(3), Err(PlaylistError::IndexOutOfRange));
    assert_eq!(p.play_index(usize::MAX), Err(PlaylistError::IndexOutOfRange));
    assert_eq!(p.current_index(), 1);
}

#[test]
fn play_index_on_empty_playlist_fails() {
    let mut p = Playlist::default();
    assert_eq!(p.play_index(0), Err(PlaylistError::IndexOutOfRange));
    assert_eq!(p.current_index(), 0);
}

#[test]
fn add_dir_skips_hidden_and_non_text() {
    let mut p = Playlist::new();
    let entries = vec![
        ScannedEntry { name: "a.milk".to_string(), contents: Some("text".to_string()) },
        ScannedEntry { name: ".hidden.milk".to_string(), contents: Some("text".to_string()) },
        ScannedEntry { name: "b.bin".to_string(), contents: None },
    ];
    p.add_dir(&entries);
    assert_eq!(p.presets(), vec!["a.milk".to_string()]);
    assert_eq!(p.len(), 1);
    assert_eq!(p.preset_text(0), Some("text"));
}

#[test]
fn add_dir_keeps_scan_order_and_appends() {
    let mut p = playlist_of(&["first"]);
    let entries = vec![
        ScannedEntry { name: "z.milk".to_string(), contents: Some("z".to_string()) },
        ScannedEntry { name: "a.milk".to_string(), contents: Some("a".to_string()) },
    ];
    p.add_dir(&entries);
    assert_eq!(p.presets(), vec!["first".to_string(), "z.milk".to_string(), "a.milk".to_string()]);
    assert_eq!(p.preset_text(1), Some("z"));
    assert_eq!(p.preset_text(2), Some("a"));
    assert_eq!(p.preset_text(3), None);
}

#[test]
fn add_dir_with_no_entries_changes_nothing() {
    let mut p = playlist_of(&["x"]);
    p.add_dir(&Vec::new());
    assert_eq!(p.presets(), vec!["x".to_string()]);
}

#[test]
fn visible_names() {
    assert!(is_visible_name(Some("a.milk")));
    assert!(is_visible_name(Some("")));
    assert!(!is_visible_name(Some(".git")));
    assert!(!is_visible_name(Some(".")));
    assert!(!is_visible_name(None));
}

#[test]
fn fuzzy_filter_keeps_insertion_order() {
    let p = playlist_of(&["Fireworks", "Ocean Waves", "Fractal Storm"]);
    assert_eq!(p.filtered("fr"), vec![0, 2]);
}

#[test]
fn fuzzy_filter_with_empty_search_shows_all() {
    let p = playlist_of(&["Fireworks", "Ocean Waves", "Fractal Storm"]);
    assert_eq!(p.filtered(""), vec![0, 1, 2]);
}

#[test]
fn fuzzy_filter_without_match_is_empty() {
    let p = playlist_of(&["Fireworks", "Ocean Waves"]);
    assert_eq!(p.filtered("qqq"), Vec::<usize>::new());
}

#[test]
fn fuzzy_filter_does_not_move_selection() {
    let mut p = playlist_of(&["Fireworks", "Ocean Waves", "Fractal Storm"]);
    p.play_index(1).unwrap();
    let _ = p.filtered("fr");
    assert_eq!(p.current_index(), 1);
}

#[test]
fn filter_by_flags_lists_set_positions() {
    let p = playlist_of(&["a", "b", "c", "d"]);
    assert_eq!(p.filter_by_flags(&vec![true, false, false, true]), vec![0, 3]);
    assert_eq!(p.filter_by_flags(&vec![false, false, false, false]), Vec::<usize>::new());
}

#[test]
fn presets_lists_names_in_order() {
    let p = playlist_of(&["b", "a", "c"]);
    assert_eq!(p.presets(), vec!["b".to_string(), "a".to_string(), "c".to_string()]);
    assert_eq!(p.preset_text(0), Some("source of b"));
}
