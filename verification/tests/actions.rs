use std::collections::BTreeMap;

use reaper_fts_extensions::actions::{
    build_action_defs, command_id, menu_entries, toggle_test_toggle_handler, ActionFeatures,
    ActionRequest, TestToggle,
};
use reaper_fts_extensions::architect_actions::{
    all_architect_actions, FtsActions, FtsActionsImpl, FtsTempoGridActions,
};
use reaper_fts_extensions::continuous_action::ContinuousActions;
use reaper_fts_extensions::midi_mode::MidiMode;
use reaper_fts_extensions::tempo::move_grid::MoveGridVariant;

fn all_features() -> ActionFeatures {
    ActionFeatures { session: true, mirror: true }
}

/// Two declarations emitting the same command id would silently drop one
/// of the handlers.
#[test]
fn architect_action_ids_are_unique() {
    let mut by_id: BTreeMap<String, Vec<String>> = BTreeMap::new();
    for meta in all_architect_actions() {
        by_id
            .entry(meta.id.clone())
            .or_default()
            .push(format!("{}::{}", meta.trait_name, meta.method_name));
    }
    let dupes: Vec<_> = by_id.iter().filter(|(_, v)| v.len() > 1).collect();
    assert!(dupes.is_empty(), "duplicate architect action ids: {dupes:?}");
}

#[test]
fn architect_ids_are_namespace_and_method() {
    for meta in all_architect_actions() {
        let ns = if meta.trait_name == "FtsTempoGridActions" { "FTS_TEMPO" } else { "FTS" };
        assert_eq!(meta.id, format!("{ns}_{}", meta.method_name.to_uppercase()));
    }
}

#[test]
fn table_ids_are_unique() {
    for (session, mirror) in [(false, false), (true, false), (false, true), (true, true)] {
        let mut reg = ContinuousActions::new();
        let defs = build_action_defs(ActionFeatures { session, mirror }, &mut reg);
        let mut seen = std::collections::BTreeSet::new();
        for d in &defs {
            assert!(seen.insert(d.id.clone()), "duplicate id {}", d.id);
        }
    }
}

#[test]
fn table_sizes_follow_features() {
    let mut reg = ContinuousActions::new();
    assert_eq!(build_action_defs(ActionFeatures { session: false, mirror: false }, &mut reg).len(), 47);
    assert_eq!(build_action_defs(all_features(), &mut reg).len(), 58);
}

#[test]
fn table_entries() {
    let mut reg = ContinuousActions::new();
    let defs = build_action_defs(all_features(), &mut reg);
    assert_eq!(defs[0].id, "FTS_TEMPO_MOVE_MEASURE_GRID_TO_MOUSE");
    assert_eq!(
        defs[0].display_name,
        "FTS: Move closest measure grid line to mouse cursor (perform until shortcut released)"
    );
    assert!(!defs[0].show_in_menu);
    let test_toggle = defs.iter().find(|d| d.id == "FTS_TEST_TOGGLE").unwrap();
    assert!(test_toggle.show_in_menu && test_toggle.toggleable);
    let sig = defs.iter().find(|d| d.id == "FTS_TEMPO_INSERT_TIMESIG_12_8_SINGLE").unwrap();
    assert_eq!(sig.display_name, "FTS: Insert single measure of 12/8 (restores previous signature)");
    assert_eq!(sig.request, ActionRequest::InsertSingleMeasureTimeSignature { num: 12, denom: 8 });
    let plain = defs.iter().find(|d| d.id == "FTS_TEMPO_INSERT_TIMESIG_7_8").unwrap();
    assert_eq!(
        plain.display_name,
        "FTS: Insert 7/8 time signature at measure (hold Shift: single measure)"
    );
    // the move-grid actions were registered as continuous actions
    assert_eq!(reg.get("FTS_TEMPO_MOVE_GRID_TO_MOUSE"), Some(MoveGridVariant::ClosestGrid));
    assert!(reg.contains_key("FTS_TEMPO_MOVE_MARKER_TO_MOUSE"));
}

#[test]
fn menu_lists_menu_actions_only() {
    let mut reg = ContinuousActions::new();
    let defs = build_action_defs(ActionFeatures { session: false, mirror: false }, &mut reg);
    let entries = menu_entries(&defs);
    let ids: Vec<&str> = entries.iter().map(|(id, _)| id.as_str()).collect();
    assert_eq!(
        ids,
        vec![
            "FTS_TEST_TOGGLE",
            "FTS_CLOCK_SYNC_TOGGLE",
            "FTS_DRIFT_CORRECTION_TOGGLE",
            "FTS_MIDI_MODE_DRUMS",
            "FTS_MIDI_MODE_CYCLE",
            "FTS_INFO",
        ]
    );
    assert_eq!(entries[5].1, "FTS: FastTrackStudio Info");
}

#[test]
fn negative_signature_ids_keep_sign() {
    assert_eq!(
        command_id(ActionRequest::InsertTimeSignature { num: -3, denom: 4 }),
        "FTS_TEMPO_INSERT_TIMESIG_-3_4"
    );
}

#[test]
fn architect_methods_answer_table_requests() {
    let imp = FtsActionsImpl;
    assert_eq!(imp.move_grid_to_mouse(), ActionRequest::MoveGrid(MoveGridVariant::ClosestGrid));
    assert_eq!(imp.midi_mode_drums(), ActionRequest::SetMidiMode(MidiMode::Drums));
    assert_eq!(imp.volbal_toggle(), ActionRequest::ToggleVolumeBalancer);
    let metas = all_architect_actions();
    assert_eq!(metas.len(), 22);
    let dup = metas.iter().find(|m| m.method_name == "smart_duplicate").unwrap();
    assert_eq!(dup.id, "FTS_SMART_DUPLICATE");
    assert_eq!(dup.category, "Editing");
    let snap = metas.iter().find(|m| m.method_name == "snap_grid_to_transient_constrained").unwrap();
    assert_eq!(snap.group, "Snap");
    assert_eq!(
        snap.description,
        "Snap closest measure grid line to next transient \u{2014} constrained"
    );
}

#[test]
fn test_toggle_flips() {
    let mut t = TestToggle { on: false };
    assert_eq!(toggle_test_toggle_handler(&mut t), "FTS: Test Toggle on\n");
    assert_eq!(toggle_test_toggle_handler(&mut t), "FTS: Test Toggle off\n");
}

#[test]
fn every_command_id_is_in_the_fts_namespace() {
    let mut reg = ContinuousActions::new();
    for d in build_action_defs(all_features(), &mut reg) {
        assert!(d.id.starts_with("FTS_"), "{}", d.id);
    }
    for meta in all_architect_actions() {
        assert!(meta.id.starts_with("FTS_"), "{}", meta.id);
    }
}
