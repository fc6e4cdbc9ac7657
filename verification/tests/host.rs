use reaper_fts_extensions::snapshot::sample_pixel;
use reaper_fts_extensions::extension::{clock_sync_setup, is_input_probe, log_dir, InputPrewarm, PrewarmStep};
use reaper_fts_extensions::item_actions::{count_item_groups, SplitGrouping};
use reaper_fts_extensions::menu::{listed_in_menu, set_menu_entries, FtsMenuHook, MenuEntries};
use reaper_fts_extensions::midi_tools_panel;
use reaper_fts_extensions::mode_toolbars::{
    desired_titles, ensure_label_first, floating_toolbar, main_toolbar_edit, section_edit, changes,
    FirstItem, LabelEdit, MainToolbarEdit, SectionEdit, SectionState, ToolbarSection,
};
use reaper_fts_extensions::panel::PanelRenderer;
use reaper_fts_extensions::smart_duplicate::{measure_span, smart_duplicate, MeasureSpan};
use reaper_fts_extensions::sync_settings::{
    clock_sync_enabled, drift_enabled, get_bool, toggle_clock_sync, toggle_drift_correction,
};
use reaper_fts_extensions::ui_test_panel;

#[test]
fn sync_switches_default_on() {
    assert!(clock_sync_enabled(None));
    assert!(drift_enabled(Some("garbage")));
    assert!(!clock_sync_enabled(Some("0")));
    assert!(get_bool(Some("1"), false));
    let t = toggle_clock_sync(None);
    assert!(!t.enabled);
    assert_eq!(t.stored, "0");
    assert_eq!(t.message, "FTS: Clock-sync disabled (takes effect on next REAPER restart)\n");
    // what was written reads back
    assert_eq!(clock_sync_enabled(Some(t.stored)), t.enabled);
    let d = toggle_drift_correction(Some("0"));
    assert!(d.enabled);
    assert_eq!(d.stored, "1");
    assert_eq!(d.message, "FTS: Drift correction enabled (takes effect on next REAPER restart)\n");
}

#[test]
fn split_groups() {
    assert_eq!(count_item_groups(&vec![0, 3, -1, 7, 2]), 7);
    assert_eq!(count_item_groups(&vec![]), 0);
    let mut g = SplitGrouping::new();
    assert_eq!(g.right_part_group(7, 2), Some(8));
    assert_eq!(g.right_part_group(7, 2), Some(8));
    assert_eq!(g.right_part_group(7, 0), None);
    assert_eq!(g.right_part_group(7, 5), Some(9));
    assert_eq!(g.right_part_group(7, 2), Some(10));
}

#[test]
fn extensions_submenu() {
    let mut store = MenuEntries::new();
    assert!(!FtsMenuHook::populates(&store, true, "Main extensions"));
    set_menu_entries(&mut store, vec![
        ("FTS_INFO".to_string(), "FTS: FastTrackStudio Info".to_string()),
        ("FTS_TEST_TOGGLE".to_string(), "FTS: Test Toggle".to_string()),
    ]);
    // only the first call counts
    set_menu_entries(&mut store, vec![]);
    assert!(FtsMenuHook::populates(&store, true, "Main extensions"));
    assert!(!FtsMenuHook::populates(&store, false, "Main extensions"));
    assert!(!FtsMenuHook::populates(&store, true, "Main file"));
    assert_eq!(FtsMenuHook::lookup_names(&store), vec!["_FTS_INFO".to_string(), "_FTS_TEST_TOGGLE".to_string()]);
    let items = FtsMenuHook::items(&store, &vec![None, Some(41000)]);
    assert_eq!(items, vec![(41000, "FTS: Test Toggle".to_string())]);
    assert!(FtsMenuHook::needs_separator(3));
    assert!(!FtsMenuHook::needs_separator(0));
    assert_eq!(FtsMenuHook::submenu_label(), "FastTrackStudio");
}

#[test]
fn smart_duplicate_shifts_by_measure_span() {
    let coords = vec![
        MeasureSpan { measure: 4, end_measure: 5 },
        MeasureSpan { measure: 6, end_measure: 7 },
    ];
    assert_eq!(measure_span(&coords), 3);
    let plan = smart_duplicate(&coords, false);
    assert_eq!(plan.shift, 3);
    assert_eq!(plan.target_measures, vec![7, 9]);
    let bumped = smart_duplicate(&coords, true);
    assert_eq!(bumped.target_measures, vec![8, 10]);
    // a selection within one measure still moves by one measure
    let one = vec![MeasureSpan { measure: 2, end_measure: 2 }];
    assert_eq!(measure_span(&one), 1);
    assert_eq!(measure_span(&vec![]), 1);
}

#[test]
fn panels_and_their_actions() {
    let p = midi_tools_panel::panel_defs();
    assert_eq!(p[0].id, "FTS_MIDI_VELOCITY");
    assert_eq!(p[0].default_size, (520, 760));
    assert_eq!(p[1].toggle_action, Some("FTS_MIDI_ARP"));
    let a = midi_tools_panel::action_defs();
    assert_eq!(a[1].display_name, "FTS: MIDI Arpeggiator");
    assert!(a[1].in_menu);
    assert_eq!(midi_tools_panel::midi_editor_section_actions()[0].0, "FTS_MIDI_VELOCITY");
    let u = ui_test_panel::panel_defs();
    assert_eq!(u[1].renderer, PanelRenderer::Desktop);
    assert_eq!(ui_test_panel::action_defs()[0].id, "fts-ui-native");
    assert_eq!(ui_test_panel::action_defs()[0].panel, "FTS_UI_NATIVE");
}

#[test]
fn mode_toolbar_plan() {
    let modes = vec![
        ("Organize".to_string(), true),
        ("Scoring".to_string(), false),
        ("Write".to_string(), true),
    ];
    let titles = desired_titles(&modes);
    assert_eq!(titles.len(), 6);
    assert_eq!(titles[0].1, "Organize 1");
    assert_eq!(titles[3].1, "Write 1");
    assert!(matches!(titles[5].0, ToolbarSection::Floating(6)));
    match floating_toolbar(17) {
        ToolbarSection::Named(h) => assert_eq!(h, "Floating toolbar 17"),
        ToolbarSection::Floating(_) => panic!("toolbars above 16 are named"),
    }
    assert_eq!(ensure_label_first(&FirstItem::Label("Write 1".to_string()), "Write 1"), LabelEdit::Keep);
    assert_eq!(ensure_label_first(&FirstItem::Label("old".to_string()), "Write 1"), LabelEdit::ReplaceFirst);
    assert_eq!(ensure_label_first(&FirstItem::Other, "Write 1"), LabelEdit::InsertFirst);
    let up_to_date = SectionState { title: Some("Write 1".to_string()), first: FirstItem::Label("Write 1".to_string()) };
    let e = section_edit(Some(&up_to_date), "Write 1");
    assert_eq!(e, SectionEdit::Update { retitle: false, label: LabelEdit::Keep });
    assert!(!changes(e));
    assert!(changes(section_edit(None, "Write 1")));
    assert_eq!(main_toolbar_edit(None), MainToolbarEdit::Keep);
    assert_eq!(main_toolbar_edit(Some(&vec![true])), MainToolbarEdit::RemoveSection);
    assert_eq!(main_toolbar_edit(Some(&vec![false, true])), MainToolbarEdit::Keep);
    assert_eq!(main_toolbar_edit(Some(&vec![false, false])), MainToolbarEdit::AppendSelector);
    assert_eq!(main_toolbar_edit(Some(&vec![])), MainToolbarEdit::Keep);
}

#[test]
fn host_startup_decisions() {
    assert_eq!(log_dir(Some("/state"), Some("/home/u")), "/state/fasttrackstudio");
    assert_eq!(log_dir(Some("/state/"), None), "/state/fasttrackstudio");
    assert_eq!(log_dir(None, Some("/home/u")), "/home/u/.local/state/fasttrackstudio");
    assert_eq!(log_dir(None, None), "/tmp/.local/state/fasttrackstudio");
    assert_eq!(clock_sync_setup(true, false), Some((7777, false)));
    assert_eq!(clock_sync_setup(false, true), None);
    assert!(is_input_probe("FTS_INPUT_TOGGLE_STATUS_PANEL"));
    assert!(!is_input_probe("FTS_INFO"));
}

#[test]
fn overlay_prewarm_waits_then_paces() {
    let mut p = InputPrewarm::new();
    for _ in 0..60 {
        assert_eq!(p.tick(), PrewarmStep::Wait);
    }
    assert_eq!(p.tick(), PrewarmStep::QueueAndBuild);
    assert_eq!(p.tick(), PrewarmStep::Build);
}

#[test]
fn samples_one_rgba_pixel() {
    let buffer: Vec<u8> = (0u8..32).collect();
    // 2 pixels wide: pixel (1, 1) starts at byte (1 * 2 + 1) * 4 = 12
    assert_eq!(sample_pixel(&buffer, 2, 1, 1), [12, 13, 14, 15]);
    assert_eq!(sample_pixel(&buffer, 2, 0, 0), [0, 1, 2, 3]);
}

/// Applying the main toolbar's edit once leaves nothing for the next run.
#[test]
fn main_toolbar_edit_settles() {
    let mut items = vec![false, false];
    assert_eq!(main_toolbar_edit(Some(&items)), MainToolbarEdit::AppendSelector);
    items.push(true);
    assert_eq!(main_toolbar_edit(Some(&items)), MainToolbarEdit::Keep);
    let empty: Vec<bool> = vec![];
    assert_eq!(main_toolbar_edit(Some(&empty)), MainToolbarEdit::Keep);
    let stale = SectionState { title: Some("old".to_string()), first: FirstItem::Other };
    let e = section_edit(Some(&stale), "Write 1");
    assert_eq!(e, SectionEdit::Update { retitle: true, label: LabelEdit::InsertFirst });
    let fixed = SectionState { title: Some("Write 1".to_string()), first: FirstItem::Label("Write 1".to_string()) };
    assert!(!changes(section_edit(Some(&fixed), "Write 1")));
}

/// A single item within one measure walks forward one measure per call.
#[test]
fn single_item_walks_one_measure_at_a_time() {
    let mut item = MeasureSpan { measure: 1, end_measure: 2 };
    for expected in 2..5 {
        let plan = smart_duplicate(&vec![item], false);
        assert_eq!(plan.shift, 1);
        assert_eq!(plan.target_measures, vec![expected]);
        item = MeasureSpan { measure: item.measure + 1, end_measure: item.end_measure + 1 };
    }
}

/// Only the actions shown in the menu are listed, in order.
#[test]
fn menu_lists_shown_actions() {
    let actions = vec![
        ("FTS_A".to_string(), "A".to_string(), true),
        ("FTS_B".to_string(), "B".to_string(), false),
        ("FTS_C".to_string(), "C".to_string(), true),
    ];
    assert_eq!(
        listed_in_menu(&actions),
        vec![("FTS_A".to_string(), "A".to_string()), ("FTS_C".to_string(), "C".to_string())]
    );
}
