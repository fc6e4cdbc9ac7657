use reaper_fts_extensions::mirror::{
    engine_channel, engine_velocity, forget, is_enabled, linked_message, midi_channel,
    mirror_insert_index, mirror_track_name, mirrors_cc, needs_regeneration, parse_profile, poll,
    record, regenerate_all, set_enabled, stale_entries, tagged_items, toggle_message,
    unlinked_message, Mirror, MirrorProfile,
};

#[test]
fn profiles_by_name() {
    assert_eq!(parse_profile("strings"), Some(MirrorProfile::Strings));
    assert_eq!(parse_profile("brass_trumpet"), Some(MirrorProfile::BrassTrumpet));
    assert_eq!(parse_profile("harp"), Some(MirrorProfile::Harp));
    assert_eq!(parse_profile("Strings"), None);
    assert_eq!(parse_profile(""), None);
}

#[test]
fn polls_every_third_tick() {
    let mut m = Mirror::new();
    let due: Vec<bool> = (0..7).map(|_| poll(&mut m)).collect();
    assert_eq!(due, vec![true, false, false, true, false, false, true]);
    set_enabled(&mut m, false);
    assert!(!poll(&mut m));
    assert!(!is_enabled(&m));
}

#[test]
fn unchanged_items_are_not_regenerated() {
    let mut m = Mirror::new();
    assert!(poll(&mut m));
    assert!(needs_regeneration(&m, "item-a", 42));
    record(&mut m, "item-a".to_string(), 42, "mirror-1".to_string());
    assert!(!needs_regeneration(&m, "item-a", 42));
    assert!(needs_regeneration(&m, "item-a", 43));
    record(&mut m, "item-a".to_string(), 43, "mirror-1".to_string());
    assert!(!needs_regeneration(&m, "item-a", 43));
    regenerate_all(&mut m);
    assert!(needs_regeneration(&m, "item-a", 43));
}

#[test]
fn disabling_drops_the_cache() {
    let mut m = Mirror::new();
    record(&mut m, "x".to_string(), 1, "t".to_string());
    set_enabled(&mut m, false);
    set_enabled(&mut m, true);
    assert!(needs_regeneration(&m, "x", 1));
}

#[test]
fn vanished_items_are_stale() {
    let mut m = Mirror::new();
    record(&mut m, "a".to_string(), 1, "ma".to_string());
    record(&mut m, "b".to_string(), 2, "mb".to_string());
    record(&mut m, "c".to_string(), 3, "mc".to_string());
    let stale = stale_entries(&m, &vec!["b".to_string()]);
    assert_eq!(stale, vec![("a".to_string(), "ma".to_string()), ("c".to_string(), "mc".to_string())]);
    forget(&mut m, "a");
    assert!(needs_regeneration(&m, "a", 1));
    assert!(!needs_regeneration(&m, "c", 3));
}

#[test]
fn stale_copies_deleted_from_the_end() {
    let tags = vec![Some("s".to_string()), None, Some("t".to_string()), Some("s".to_string())];
    assert_eq!(tagged_items(&tags, "s"), vec![3, 0]);
    assert_eq!(tagged_items(&tags, "u"), Vec::<usize>::new());
}

#[test]
fn conversions_and_messages() {
    assert_eq!(engine_channel(0), 1);
    assert_eq!(engine_channel(15), 16);
    assert_eq!(engine_channel(40), 16);
    assert_eq!(engine_channel(-3), 1);
    assert_eq!(midi_channel(1), 0);
    assert_eq!(midi_channel(0), 0);
    assert_eq!(midi_channel(20), 15);
    assert_eq!(engine_velocity(0), 1);
    assert_eq!(engine_velocity(200), 127);
    assert_eq!(engine_velocity(64), 64);
    assert!(mirrors_cc(true, false, 0xB0));
    assert!(!mirrors_cc(true, true, 0xB0));
    assert!(!mirrors_cc(true, false, 0x90));
    assert_eq!(mirror_track_name("Violins"), "Violins [mirror]");
    assert_eq!(mirror_insert_index(3), Some(3));
    assert_eq!(mirror_insert_index(0), None);
    assert_eq!(linked_message(2), "FTS Mirror: linked 2 track(s)\n");
    assert_eq!(unlinked_message(10), "FTS Mirror: unlinked 10 track(s)\n");
    assert_eq!(toggle_message(false), "FTS Mirror: disabled\n");
}
