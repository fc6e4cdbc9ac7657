use reaper_fts_extensions::continuous_action::ContinuousActions;
use reaper_fts_extensions::tempo::move_grid::{
    begin_tick, closest_tempo_target, lock_target, move_anchoring, move_applied, move_grid_do_undo,
    move_grid_init, move_target, point_to_move, register_move_grid_actions, set_move_grid_variant,
    tempo_map_loaded, MoveGridSession, MoveGridVariant, MoveTarget,
};
use reaper_fts_extensions::tempo::snap_to_transient::{
    snap_anchoring, snap_grid_to_transient_constrained_handler,
    snap_grid_to_transient_fully_constrained_handler, snap_grid_to_transient_handler, snap_point,
    snap_undo, SnapOutcome, SnapToTransientVariant,
};
use reaper_fts_extensions::tempo::time_signature::{
    insert_single_measure_time_signature, insert_time_signature_at_cursor, marker_at_measure,
    marker_write, time_signatures, MarkerWrite, TimeSigInsert,
};
use reaper_fts_extensions::tempo::{resolve_target, Anchoring};

#[test]
fn move_session_locks_and_moves() {
    let mut s = MoveGridSession::new();
    set_move_grid_variant(&mut s, MoveGridVariant::ClosestMeasureConstrained);
    assert!(move_grid_init(&mut s, true, true));
    assert_eq!(s.state.variant, MoveGridVariant::ClosestMeasureConstrained);
    assert_eq!(begin_tick(&mut s.state), Some(true));
    assert!(tempo_map_loaded(&mut s.state, true, true, true));
    assert!(s.state.did_tempo_map_init);
    assert_eq!(begin_tick(&mut s.state), None);
    assert_eq!(move_anchoring(s.state.variant), Anchoring::Before);
    assert_eq!(move_target(s.state.variant), MoveTarget::MeasureLine);
    // found point 3 before an anchor was added before it: it is now point 4
    let target = resolve_target(Some(3), true, None);
    assert_eq!(target, Some(4));
    assert!(lock_target(&mut s.state, target, true));
    assert_eq!(point_to_move(&s.state, true), Some(4));
    assert_eq!(point_to_move(&s.state, false), None);
    assert!(move_applied(&mut s.state, true));
    let undo = move_grid_do_undo(&s.state);
    assert_eq!(undo.flags, 1);
    assert_eq!(undo.description, "Move measure grid line to mouse (constrained)");
    assert!(move_grid_init(&mut s, false, false));
    assert!(!s.state.moved_grid_once);
    assert_eq!(move_grid_do_undo(&s.state).flags, 0);
}

#[test]
fn move_refuses_first_point_and_bad_mouse() {
    let mut s = MoveGridSession::new();
    assert!(!move_grid_init(&mut s, true, false));
    assert!(!lock_target(&mut s.state, Some(0), false));
    assert_eq!(s.state.locked_id, None);
    assert_eq!(closest_tempo_target(Some(0)), Some(1));
    assert_eq!(closest_tempo_target(Some(5)), Some(5));
    assert!(!tempo_map_loaded(&mut s.state, false, true, false));
    assert!(!move_applied(&mut s.state, false));
    assert_eq!(resolve_target(None, true, Some(6)), Some(7));
    assert_eq!(resolve_target(None, false, None), None);
}

#[test]
fn marker_variant_skips_tempo_map_init() {
    let mut s = MoveGridSession::new();
    set_move_grid_variant(&mut s, MoveGridVariant::ClosestTempo);
    assert!(move_grid_init(&mut s, true, true));
    assert_eq!(begin_tick(&mut s.state), Some(false));
    assert_eq!(move_grid_do_undo(&s.state).description, "Move tempo marker to mouse");
}

#[test]
fn move_actions_register_with_their_variants() {
    let mut reg = ContinuousActions::new();
    register_move_grid_actions(&mut reg);
    assert_eq!(
        reg.get("FTS_TEMPO_MOVE_MEASURE_GRID_TO_MOUSE_FULLY_CONSTRAINED"),
        Some(MoveGridVariant::ClosestMeasureFullyConstrained)
    );
    assert_eq!(reg.get("FTS_TEMPO_MOVE_MARKER_TO_MOUSE"), Some(MoveGridVariant::ClosestTempo));
}

#[test]
fn snap_decisions() {
    assert_eq!(snap_grid_to_transient_handler(), SnapToTransientVariant::Unconstrained);
    assert_eq!(snap_grid_to_transient_constrained_handler(), SnapToTransientVariant::Constrained);
    assert_eq!(
        snap_grid_to_transient_fully_constrained_handler(),
        SnapToTransientVariant::FullyConstrained
    );
    assert_eq!(snap_anchoring(SnapToTransientVariant::FullyConstrained), Anchoring::BeforeAndAfter);
    assert_eq!(snap_point(Some(2), true, None), Some(3));
    assert_eq!(snap_point(None, false, Some(0)), Some(1));
    assert_eq!(snap_point(Some(0), false, None), None);
    let u = snap_undo(SnapToTransientVariant::Constrained, SnapOutcome::Finished { moved: true });
    assert_eq!((u.description, u.flags), ("Snap grid to transient (constrained)", 1));
    let n = snap_undo(SnapToTransientVariant::Constrained, SnapOutcome::NoTransient);
    assert_eq!((n.description, n.flags), ("Snap grid to transient (no transient found)", 0));
    let l = snap_undo(SnapToTransientVariant::Unconstrained, SnapOutcome::TempoLocked);
    assert_eq!(l.description, "Snap grid to transient (tempo locked)");
}

#[test]
fn signatures_offered() {
    let sigs = time_signatures();
    assert_eq!(sigs.len(), 13);
    assert_eq!(sigs[0], (2, 4));
    assert_eq!(sigs[12], (13, 8));
}

#[test]
fn single_measure_insert_restores_previous_signature() {
    let t = insert_time_signature_at_cursor(2, 4, true);
    assert_eq!(t, TimeSigInsert { num: 2, denom: 4, single_measure: true });
    assert_eq!(t.restore_measure(true, 4, 4, 4), Some(5));
    // same signature: nothing to restore
    assert_eq!(t.restore_measure(true, 4, 2, 4), None);
    // first write failed: nothing to restore
    assert_eq!(t.restore_measure(false, 4, 4, 4), None);
    // a signature change already on the next downbeat wins
    assert!(!TimeSigInsert::restores(Some(3)));
    assert!(TimeSigInsert::restores(Some(0)));
    assert!(TimeSigInsert::restores(None));
    let plain = insert_time_signature_at_cursor(7, 8, false);
    assert_eq!(plain.restore_measure(true, 1, 4, 4), None);
    assert_eq!(insert_single_measure_time_signature(5, 4).single_measure, true);
}

#[test]
fn signature_texts() {
    let single = insert_single_measure_time_signature(3, 4);
    assert_eq!(single.undo_description(), "Insert single measure of 3/4");
    assert_eq!(insert_time_signature_at_cursor(6, 8, false).undo_description(), "Insert 6/8 time signature");
    assert_eq!(single.failure_message(), "FTS: failed to insert 3/4 marker\n");
}

#[test]
fn downbeat_marker_is_edited_in_place() {
    assert_eq!(marker_at_measure(2, Some((7, true)), 7), Some(2));
    assert_eq!(marker_at_measure(2, Some((7, false)), 7), None);
    assert_eq!(marker_at_measure(2, Some((6, true)), 7), None);
    assert_eq!(marker_at_measure(-1, Some((7, true)), 7), None);
    assert_eq!(marker_write(Some(2)), MarkerWrite::Edit { index: 2 });
    assert_eq!(marker_write(None), MarkerWrite::Add);
}

/// With an anchor inserted before the line, the snapped point is the one
/// that was on the line before the anchor went in.
#[test]
fn constrained_snap_moves_the_line_marker() {
    let before: Vec<u32> = vec![0, 10, 20, 30, 40];
    let on_line: usize = 2;
    let mut after = before.clone();
    after.insert(1, 5);
    let id = snap_point(Some(on_line), true, None).unwrap();
    assert_eq!(after[id], before[on_line]);
    assert_eq!(snap_point(Some(4), true, None), Some(5));
}

/// Through a whole move the first tempo point is never locked or moved.
#[test]
fn first_tempo_point_is_never_moved() {
    let mut s = MoveGridSession::new();
    assert!(move_grid_init(&mut s, true, true));
    assert_eq!(begin_tick(&mut s.state), Some(true));
    assert!(tempo_map_loaded(&mut s.state, false, true, true));
    assert!(!lock_target(&mut s.state, Some(0), false));
    assert_eq!(point_to_move(&s.state, true), None);
    assert_eq!(closest_tempo_target(Some(0)), Some(1));
    assert!(lock_target(&mut s.state, closest_tempo_target(Some(0)), false));
    assert_eq!(point_to_move(&s.state, true), Some(1));
}
