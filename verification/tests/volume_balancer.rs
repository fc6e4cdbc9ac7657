use reaper_fts_extensions::volume_balancer::{
    group_index, linked_message, load_groups, parse_members, unlink_plan, make_selection_name, next_selection_name, normalize_guid, poll, set_enabled,
    toggle_message, unlinked_message, PollStep, VolumeBalancer,
};

/// The compensation math: one fader moves, the rest scale uniformly so
/// the group total is unchanged.
#[test]
fn compensation_keeps_total_constant() {
    let prev = [1.0, 1.0, 1.0, 1.0, 1.0];
    let mut vols = prev;
    vols[2] = 2.0; // user pushes one fader up 6 dB

    let prev_sum: f64 = prev.iter().sum();
    let others_prev: f64 = prev_sum - prev[2];
    let remaining = (prev_sum - vols[2]).max(0.0);
    let scale = remaining / others_prev;
    for (i, v) in vols.iter_mut().enumerate() {
        if i != 2 {
            *v = prev[i] * scale;
        }
    }
    let total: f64 = vols.iter().sum();
    assert!((total - prev_sum).abs() < 1e-9);
    assert!((vols[0] - 0.75).abs() < 1e-9);
    assert_eq!(vols[2], 2.0);
}

#[test]
fn guid_normalization_ignores_case_and_braces() {
    assert_eq!(normalize_guid(" {AbC-12} "), "abc-12");
    assert_eq!(normalize_guid("{abc-12}"), normalize_guid("ABC-12"));
}

#[test]
fn fresh_selection_name_skips_taken() {
    let names = vec!["sel.1".to_string(), "sel.2".to_string(), "drums".to_string()];
    assert_eq!(next_selection_name(&names), "sel.3");
    assert_eq!(make_selection_name(12), "sel.12");
}

#[test]
fn balancer_messages() {
    assert_eq!(toggle_message(true), "FTS Volume Balancer: enabled\n");
    assert_eq!(toggle_message(false), "FTS Volume Balancer: disabled\n");
    assert_eq!(linked_message(3, &make_selection_name(2)), "FTS Volume Balancer: linked 3 tracks (sel.2)\n");
    assert_eq!(unlinked_message(0), "FTS Volume Balancer: unlinked 0 group(s)\n");
}

#[test]
fn disabled_balancer_does_nothing() {
    let mut b = VolumeBalancer::new();
    set_enabled(&mut b, false);
    assert!(matches!(poll(&mut b), PollStep::Disabled));
}

#[test]
fn groups_load_with_two_members_or_more() {
    let names = group_index(Some("drums;;sel.1;solo"));
    assert_eq!(names, vec!["drums".to_string(), "sel.1".to_string(), "solo".to_string()]);
    assert_eq!(parse_members("{AA};bb;;"), vec!["aa".to_string(), "bb".to_string()]);
    let stored = vec![Some("{A};{B}".to_string()), None, Some("{C}".to_string())];
    let groups = load_groups(&names, &stored);
    assert_eq!(groups.len(), 1);
    assert_eq!(groups[0].key, "group.drums");
    assert_eq!(groups[0].guids, vec!["a".to_string(), "b".to_string()]);
}

#[test]
fn unlink_removes_groups_naming_selection() {
    let names = vec!["g1".to_string(), "g2".to_string(), "g3".to_string()];
    let stored = vec![Some("{A};{B}".to_string()), Some("{C};{D}".to_string()), None];
    let selected = vec!["b".to_string()];
    let plan = unlink_plan(&names, &stored, &selected);
    assert_eq!(plan.removed_keys, vec!["group.g1".to_string()]);
    assert_eq!(plan.kept, vec!["g2".to_string(), "g3".to_string()]);
}

#[test]
fn resync_after_reload_then_periodically() {
    let mut b = VolumeBalancer::new();
    assert!(matches!(poll(&mut b), PollStep::Run { resync: true }));
    let mut resyncs = 0;
    for _ in 0..30 {
        if let PollStep::Run { resync: true } = poll(&mut b) {
            resyncs += 1;
        }
    }
    assert_eq!(resyncs, 1);
}
