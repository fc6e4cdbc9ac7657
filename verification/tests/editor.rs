use reaper_fts_extensions::expression_mouse::parse_midi_mouse_bindings;
use reaper_fts_extensions::key_selector::{key_for_selection, key_menu, KeyMenuLine};
use reaper_fts_extensions::midi_flam::{grace_velocity, inserted_note, problem_message, FlamProblem};
use reaper_fts_extensions::midi_mode::{
    add_midi_mode_change_listener, current_midi_mode, cycle_midi_mode, set_midi_mode, MidiMode,
    MidiModeListeners, MidiModeState,
};
use reaper_fts_extensions::midi_mode_input::{setup_commands_for, workflow_id_for};
use reaper_fts_extensions::mode_selector::{mode_for_selection, mode_menu};

/// The parser on the shapes REAPER writes: only MIDI contexts count, and
/// Win-bit combinations are dropped.
#[test]
fn real_excerpt_midi_bindings() {
    let ini = "[hasimported]\nMM_CTX_MIDI_PIANOROLL=1\n\
               [MM_CTX_MIDI_PIANOROLL]\nmm_0=7 m\nmm_2=12 m\nmm_6=3 m\nmm_9=1 m\n\
               [MM_CTX_MIDI_NOTE]\nmm_0=1 m\nmm_2=9 m\n\
               [MM_CTX_ITEM]\nmm_0=2 m\n";
    let b = parse_midi_mouse_bindings(ini);
    let got: Vec<(String, u8, u32)> =
        b.iter().map(|x| (x.section.clone(), x.mods, x.behavior_id)).collect();
    assert_eq!(
        got,
        vec![
            ("MM_CTX_MIDI_PIANOROLL".to_string(), 0, 7),
            ("MM_CTX_MIDI_PIANOROLL".to_string(), 2, 12),
            ("MM_CTX_MIDI_PIANOROLL".to_string(), 6, 3),
            ("MM_CTX_MIDI_NOTE".to_string(), 0, 1),
            ("MM_CTX_MIDI_NOTE".to_string(), 2, 9),
        ]
    );
}

#[test]
fn mouse_ini_edge_lines() {
    let ini = "  [MM_CTX_MIDI_NOTEEDGE]]  \r\nmm_+1=4\nmm_+2 = 5\nmm_x=2\nnot_an_entry\nmm_3=\nmm_256=1\nmm_1=99999999999\n";
    let b = parse_midi_mouse_bindings(ini);
    assert_eq!(b.len(), 1);
    assert_eq!(b[0].section, "MM_CTX_MIDI_NOTEEDGE");
    assert_eq!((b[0].mods, b[0].behavior_id), (1, 4));
    assert!(parse_midi_mouse_bindings("mm_0=1\n").is_empty());
}

#[test]
fn midi_mode_switching() {
    let mut state = MidiModeState::new();
    assert_eq!(current_midi_mode(&state), None);
    assert!(set_midi_mode(&mut state, MidiMode::Drums));
    assert!(!set_midi_mode(&mut state, MidiMode::Drums));
    assert_eq!(cycle_midi_mode(&mut state), None);
    assert_eq!(current_midi_mode(&state), Some(MidiMode::Drums));
    let mut listeners = MidiModeListeners::new();
    add_midi_mode_change_listener(&mut listeners, 1u8);
    add_midi_mode_change_listener(&mut listeners, 2u8);
    assert_eq!(listeners.listeners(), &vec![1u8, 2u8]);
    assert_eq!(MidiMode::from_slug("  DRUMS "), Some(MidiMode::Drums));
    assert_eq!(MidiMode::from_slug("keys"), None);
    assert_eq!(MidiMode::Drums.slug(), "drums");
    assert_eq!(MidiMode::Drums.display_name(), "Drums");
}

#[test]
fn midi_mode_workflows() {
    assert_eq!(workflow_id_for(MidiMode::Drums), "midi-drums");
    assert_eq!(setup_commands_for(MidiMode::Drums), vec![40043, 40448, 40045]);
}

#[test]
fn flam_grace_note() {
    assert_eq!(grace_velocity(100), 50);
    assert_eq!(grace_velocity(101), 51);
    assert_eq!(grace_velocity(1), 1);
    assert_eq!(grace_velocity(0), 1);
    assert_eq!(grace_velocity(-5), 1);
    assert_eq!(grace_velocity(300), 127);
    assert_eq!(grace_velocity(i32::MAX), 127);
    assert_eq!(inserted_note(&vec![(true, false), (false, true), (true, true), (true, true)]), Some(2));
    assert_eq!(inserted_note(&vec![(true, false)]), None);
    assert_eq!(problem_message(FlamProblem::NoActiveTake), "FTS: Flam \u{2014} no active MIDI take\n");
}

#[test]
fn key_menu_marks_current_key() {
    let menu = key_menu(Some("F# minor"));
    assert_eq!(menu.len(), 31);
    match &menu[0] {
        KeyMenuLine::Item { id, label } => {
            assert_eq!(*id, 1);
            assert_eq!(label, "   C major");
        }
        KeyMenuLine::Separator => panic!("expected an item"),
    }
    assert!(matches!(menu[15], KeyMenuLine::Separator));
    match &menu[19] {
        KeyMenuLine::Item { id, label } => {
            assert_eq!(*id, 19);
            assert_eq!(label, "\u{2022} F# minor");
        }
        KeyMenuLine::Separator => panic!("expected an item"),
    }
    assert_eq!(key_for_selection(7), Some(("F#", true)));
    assert_eq!(key_for_selection(19), Some(("F#", false)));
    assert_eq!(key_for_selection(30), Some(("Ab", false)));
    assert_eq!(key_for_selection(0), None);
    assert_eq!(key_for_selection(31), None);
    assert_eq!(key_for_selection(-1), None);
}

#[test]
fn mode_menu_marks_current_mode() {
    let names = vec!["Organize".to_string(), "Write".to_string(), "Mix".to_string()];
    let menu = mode_menu(&names, 1);
    assert_eq!(menu[0], (1, "   Organize".to_string()));
    assert_eq!(menu[1], (2, "\u{2022} Write".to_string()));
    assert_eq!(mode_for_selection(3, 3), Some(2));
    assert_eq!(mode_for_selection(0, 3), None);
    assert_eq!(mode_for_selection(4, 3), None);
}
