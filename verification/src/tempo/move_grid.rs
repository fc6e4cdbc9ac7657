//! "Move closest grid line / tempo marker to mouse cursor", a continuous
//! action: while the shortcut is held, the chosen tempo point follows the
//! mouse.
//!
//! On the first tick the tempo map is loaded (a first tempo marker is
//! created when the project has none) and the point to move is locked:
//! the tempo point on the closest grid line or measure line (created there
//! when missing), or the closest tempo marker. The constrained variants
//! first pin the neighbouring measures with anchor points. Later ticks
//! move the locked point by the mouse's travel. The host holds the
//! positions and the envelope and reports each outcome back here.
use vstd::prelude::*;
use crate::continuous_action::{
    ContinuousAction, ContinuousActions, register_continuous_action,
};
use crate::tempo::{pins_after, pins_before, Anchoring, UndoEntry};

verus! {

/// Which line or marker the action moves.
#[derive(Debug, Clone, Copy, PartialEq, Eq, Structural)]
pub enum MoveGridVariant {
    /// The closest tempo marker.
    ClosestTempo,
    /// The closest grid line.
    ClosestGrid,
    /// The closest measure line.
    ClosestMeasure,
    /// The closest measure line, pinned one measure before.
    ClosestMeasureConstrained,
    /// The closest measure line, pinned one measure before and after.
    ClosestMeasureFullyConstrained,
}

/// What is searched for under the mouse on the first tick.
#[derive(Debug, Clone, Copy, PartialEq, Eq, Structural)]
pub enum MoveTarget {
    GridLine,
    MeasureLine,
    TempoMarker,
}

/// The state of a running move.
pub struct MoveGridState {
    /// Whether the host holds a loaded tempo envelope for this move.
    pub has_tempo_map: bool,
    /// The tempo point being moved, once locked.
    pub locked_id: Option<usize>,
    /// Whether the map was changed at least once.
    pub moved_grid_once: bool,
    /// Whether this move created the project's first tempo marker.
    pub did_tempo_map_init: bool,
    /// The variant running.
    pub variant: MoveGridVariant,
    /// Whether an anchor point was created.
    pub created_anchor: bool,
}

/// The variant chosen for the next start, and the running move.
pub struct MoveGridSession {
    pub current_variant: MoveGridVariant,
    pub state: MoveGridState,
}

/// A fresh state for `variant`: nothing loaded, locked or moved.
pub open spec fn fresh_state(variant: MoveGridVariant) -> MoveGridState {
    MoveGridState {
        has_tempo_map: false,
        locked_id: None,
        moved_grid_once: false,
        did_tempo_map_init: false,
        variant,
        created_anchor: false,
    }
}

/// The command id of a variant's continuous action.
pub open spec fn move_grid_command_id(v: MoveGridVariant) -> Seq<char> {
    match v {
        MoveGridVariant::ClosestMeasure => "FTS_TEMPO_MOVE_MEASURE_GRID_TO_MOUSE"@,
        MoveGridVariant::ClosestMeasureConstrained => "FTS_TEMPO_MOVE_MEASURE_GRID_TO_MOUSE_CONSTRAINED"@,
        MoveGridVariant::ClosestMeasureFullyConstrained => "FTS_TEMPO_MOVE_MEASURE_GRID_TO_MOUSE_FULLY_CONSTRAINED"@,
        MoveGridVariant::ClosestGrid => "FTS_TEMPO_MOVE_GRID_TO_MOUSE"@,
        MoveGridVariant::ClosestTempo => "FTS_TEMPO_MOVE_MARKER_TO_MOUSE"@,
    }
}

/// The undo description of a variant.
pub open spec fn move_undo_text(v: MoveGridVariant) -> Seq<char> {
    match v {
        MoveGridVariant::ClosestMeasure => "Move measure grid line to mouse"@,
        MoveGridVariant::ClosestMeasureConstrained => "Move measure grid line to mouse (constrained)"@,
        MoveGridVariant::ClosestMeasureFullyConstrained => "Move measure grid line to mouse (fully constrained)"@,
        MoveGridVariant::ClosestGrid => "Move grid line to mouse"@,
        MoveGridVariant::ClosestTempo => "Move tempo marker to mouse"@,
    }
}

pub open spec fn move_target_of(v: MoveGridVariant) -> MoveTarget {
    match v {
        MoveGridVariant::ClosestTempo => MoveTarget::TempoMarker,
        MoveGridVariant::ClosestGrid => MoveTarget::GridLine,
        _ => MoveTarget::MeasureLine,
    }
}

pub open spec fn move_anchoring_of(v: MoveGridVariant) -> Anchoring {
    match v {
        MoveGridVariant::ClosestMeasureConstrained => Anchoring::Before,
        MoveGridVariant::ClosestMeasureFullyConstrained => Anchoring::BeforeAndAfter,
        _ => Anchoring::Free,
    }
}

impl MoveGridSession {
    /// No move running; the next start moves the closest measure line.
    pub fn new() -> (r: MoveGridSession)
        ensures
            r.current_variant == MoveGridVariant::ClosestMeasure,
            r.state == fresh_state(MoveGridVariant::ClosestMeasure),
    {
        MoveGridSession {
            current_variant: MoveGridVariant::ClosestMeasure,
            state: MoveGridState {
                has_tempo_map: false,
                locked_id: None,
                moved_grid_once: false,
                did_tempo_map_init: false,
                variant: MoveGridVariant::ClosestMeasure,
                created_anchor: false,
            },
        }
    }
}

/// Set the variant for the next start.
pub fn set_move_grid_variant(session: &mut MoveGridSession, variant: MoveGridVariant)
    ensures
        final(session).current_variant == variant,
        final(session).state == old(session).state,
{
    session.current_variant = variant;
}

/// The init callback: with `init`, a move starts with the chosen variant
/// and a fresh state, and succeeds only when the mouse is over the
/// arrange view (the host then opens an undo block); without `init`, the
/// move ends and its state is cleared (the variant stays).
pub fn move_grid_init(session: &mut MoveGridSession, init: bool, mouse_over_arrange: bool) -> (r:
    bool)
    ensures
        final(session).current_variant == old(session).current_variant,
        init ==> final(session).state == fresh_state(old(session).current_variant) && r
            == mouse_over_arrange,
        !init ==> final(session).state == fresh_state(old(session).state.variant) && r,
{
    let variant = if init {
        session.current_variant
    } else {
        session.state.variant
    };
    session.state = MoveGridState {
        has_tempo_map: false,
        locked_id: None,
        moved_grid_once: false,
        did_tempo_map_init: false,
        variant,
        created_anchor: false,
    };
    if init {
        mouse_over_arrange
    } else {
        true
    }
}

/// The undo point closing a move: flagged only when the map was changed.
pub fn move_grid_do_undo(state: &MoveGridState) -> (r: UndoEntry)
    ensures
        r.flags == (if state.moved_grid_once {
            1u32
        } else {
            0u32
        }),
        r.description@ == move_undo_text(state.variant),
{
    let flags: u32 = if state.moved_grid_once {
        1
    } else {
        0
    };
    let description = match state.variant {
        MoveGridVariant::ClosestMeasure => "Move measure grid line to mouse",
        MoveGridVariant::ClosestMeasureConstrained => "Move measure grid line to mouse (constrained)",
        MoveGridVariant::ClosestMeasureFullyConstrained => "Move measure grid line to mouse (fully constrained)",
        MoveGridVariant::ClosestGrid => "Move grid line to mouse",
        MoveGridVariant::ClosestTempo => "Move tempo marker to mouse",
    };
    UndoEntry { description, flags }
}

/// What the first tick searches for under the mouse.
pub fn move_target(v: MoveGridVariant) -> (r: MoveTarget)
    ensures
        r == move_target_of(v),
{
    match v {
        MoveGridVariant::ClosestTempo => MoveTarget::TempoMarker,
        MoveGridVariant::ClosestGrid => MoveTarget::GridLine,
        _ => MoveTarget::MeasureLine,
    }
}

/// Which anchors pin the neighbouring measures.
pub fn move_anchoring(v: MoveGridVariant) -> (r: Anchoring)
    ensures
        r == move_anchoring_of(v),
{
    match v {
        MoveGridVariant::ClosestMeasureConstrained => Anchoring::Before,
        MoveGridVariant::ClosestMeasureFullyConstrained => Anchoring::BeforeAndAfter,
        _ => Anchoring::Free,
    }
}

/// The state after [`begin_tick`]: the lock is dropped when the tempo map
/// must be loaded.
pub open spec fn begin_tick_state(s: MoveGridState) -> MoveGridState {
    if s.has_tempo_map {
        s
    } else {
        MoveGridState { locked_id: None, ..s }
    }
}

/// The state after [`tempo_map_loaded`].
pub open spec fn loaded_state(s: MoveGridState, initialized: bool, found: bool) -> MoveGridState {
    MoveGridState { has_tempo_map: found, did_tempo_map_init: s.did_tempo_map_init || initialized, ..s }
}

/// The point [`closest_tempo_target`] picks.
pub open spec fn closest_tempo_of(found: Option<usize>) -> Option<usize> {
    match found {
        Some(id) => Some(
            if id == 0 {
                1usize
            } else {
                id
            },
        ),
        None => None,
    }
}

/// Whether [`lock_target`] locks `target`.
pub open spec fn locks(target: Option<usize>) -> bool {
    target matches Some(id) && id != 0
}

/// The state after [`lock_target`].
pub open spec fn lock_state(s: MoveGridState, target: Option<usize>, anchor_created: bool) -> MoveGridState {
    MoveGridState {
        locked_id: if locks(target) {
            target
        } else {
            s.locked_id
        },
        created_anchor: s.created_anchor || anchor_created,
        ..s
    }
}

/// The point [`point_to_move`] gives.
pub open spec fn point_to_move_of(s: MoveGridState, travelled: bool) -> Option<usize> {
    if travelled {
        s.locked_id
    } else {
        None
    }
}

/// The state after [`move_applied`].
pub open spec fn applied_state(s: MoveGridState, ok: bool) -> MoveGridState {
    MoveGridState { moved_grid_once: s.moved_grid_once || ok, ..s }
}

/// The first tempo point is not the locked one.
pub open spec fn first_point_free(s: MoveGridState) -> bool {
    s.locked_id != Some(0usize)
}

/// During a move the first tempo point (index 0) is never locked and never
/// handed out to be moved: a fresh state does not lock it, every step of a
/// move keeps it unlocked, and the point to move is never index 0. The
/// tempo-marker variant, when the closest marker is the first one, takes
/// index 1 instead.
pub proof fn law_first_point_never_moved(
    s: MoveGridState,
    v: MoveGridVariant,
    initialized: bool,
    found: bool,
    target: Option<usize>,
    anchor_created: bool,
    ok: bool,
    travelled: bool,
)
    requires
        first_point_free(s),
    ensures
        first_point_free(fresh_state(v)),
        first_point_free(begin_tick_state(s)),
        first_point_free(loaded_state(s, initialized, found)),
        first_point_free(lock_state(s, target, anchor_created)),
        first_point_free(applied_state(s, ok)),
        point_to_move_of(s, travelled) != Some(0usize),
        closest_tempo_of(Some(0usize)) == Some(1usize),
        closest_tempo_of(target) != Some(0usize),
{
}

/// The constrained measure moves pin the measure before the line, and only
/// the fully constrained one also pins the measure after it; the other
/// variants pin nothing. So the constrained and fully constrained moves
/// anchor differently.
pub proof fn law_move_constraints_pin_neighbours(v: MoveGridVariant)
    ensures
        pins_before(move_anchoring_of(v)) <==> (v == MoveGridVariant::ClosestMeasureConstrained || v
            == MoveGridVariant::ClosestMeasureFullyConstrained),
        pins_after(move_anchoring_of(v)) <==> v == MoveGridVariant::ClosestMeasureFullyConstrained,
        move_anchoring_of(MoveGridVariant::ClosestMeasureConstrained) != move_anchoring_of(
            MoveGridVariant::ClosestMeasureFullyConstrained,
        ),
{
}

/// Whether a tick must first load the tempo map; when it must, the lock is
/// dropped. The returned flag says whether the project's tempo markers
/// are counted first (a first marker is created when there is none):
/// every variant but the tempo-marker one does so.
pub fn begin_tick(state: &mut MoveGridState) -> (r: Option<bool>)
    ensures
        old(state).has_tempo_map ==> r is None && *final(state) == *old(state),
        !old(state).has_tempo_map ==> r == Some(old(state).variant != MoveGridVariant::ClosestTempo)
            && *final(state) == (MoveGridState { locked_id: None, ..*old(state) }),
        *final(state) == begin_tick_state(*old(state)),
{
    if state.has_tempo_map {
        None
    } else {
        state.locked_id = None;
        Some(state.variant != MoveGridVariant::ClosestTempo)
    }
}

/// Records the loading of the tempo map: whether a first marker had to be
/// created, whether the envelope was found, and whether it is usable
/// (has points and is not locked). The move goes on only when it was
/// found and is usable; otherwise the host stops the action.
pub fn tempo_map_loaded(state: &mut MoveGridState, initialized: bool, found: bool, usable: bool) -> (r:
    bool)
    ensures
        r == (found && usable),
        *final(state) == (MoveGridState {
            has_tempo_map: found,
            did_tempo_map_init: old(state).did_tempo_map_init || initialized,
            ..*old(state)
        }),
        *final(state) == loaded_state(*old(state), initialized, found),
{
    state.did_tempo_map_init = state.did_tempo_map_init || initialized;
    state.has_tempo_map = found;
    found && usable
}

/// For the tempo-marker variant: the closest marker, but never the first
/// one (index 0), which moves on to index 1.
pub fn closest_tempo_target(found: Option<usize>) -> (r: Option<usize>)
    ensures
        r == match found {
            Some(id) => Some(if id == 0 {
                1usize
            } else {
                id
            }),
            None => None,
        },
        r == closest_tempo_of(found),
{
    match found {
        Some(id) => if id == 0 {
            Some(1)
        } else {
            Some(id)
        },
        None => None,
    }
}

/// Locks the point found for the first move, unless there is none or it
/// is the first tempo point; records whether anchors were created. The
/// result says whether a point is locked.
pub fn lock_target(state: &mut MoveGridState, target: Option<usize>, anchor_created: bool) -> (r:
    bool)
    ensures
        r == (target matches Some(id) && id != 0),
        final(state).locked_id == (if r {
            target
        } else {
            old(state).locked_id
        }),
        final(state).created_anchor == (old(state).created_anchor || anchor_created),
        final(state).has_tempo_map == old(state).has_tempo_map,
        final(state).moved_grid_once == old(state).moved_grid_once,
        final(state).did_tempo_map_init == old(state).did_tempo_map_init,
        final(state).variant == old(state).variant,
        *final(state) == lock_state(*old(state), target, anchor_created),
{
    state.created_anchor = state.created_anchor || anchor_created;
    match target {
        Some(id) => if id != 0 {
            state.locked_id = Some(id);
            true
        } else {
            false
        },
        None => false,
    }
}

/// The point to move this tick: the locked one, when the mouse travelled.
pub fn point_to_move(state: &MoveGridState, travelled: bool) -> (r: Option<usize>)
    ensures
        r == (if travelled {
            state.locked_id
        } else {
            None
        }),
        r == point_to_move_of(*state, travelled),
{
    if travelled {
        state.locked_id
    } else {
        None
    }
}

/// Records a move: when it succeeded the map counts as changed; when it
/// failed (the tempo would leave the legal range) the host stops the
/// action. The result says whether the move goes on.
pub fn move_applied(state: &mut MoveGridState, ok: bool) -> (r: bool)
    ensures
        r == ok,
        *final(state) == (MoveGridState {
            moved_grid_once: old(state).moved_grid_once || ok,
            ..*old(state)
        }),
        *final(state) == applied_state(*old(state), ok),
{
    if ok {
        state.moved_grid_once = true;
    }
    ok
}

/// Registers the five move actions, each carrying its variant.
pub fn register_move_grid_actions(reg: &mut ContinuousActions<MoveGridVariant>)
    ensures
        final(reg)@.registered == old(reg)@.registered.insert(
            move_grid_command_id(MoveGridVariant::ClosestMeasure),
            MoveGridVariant::ClosestMeasure,
        ).insert(
            move_grid_command_id(MoveGridVariant::ClosestMeasureConstrained),
            MoveGridVariant::ClosestMeasureConstrained,
        ).insert(
            move_grid_command_id(MoveGridVariant::ClosestMeasureFullyConstrained),
            MoveGridVariant::ClosestMeasureFullyConstrained,
        ).insert(move_grid_command_id(MoveGridVariant::ClosestGrid), MoveGridVariant::ClosestGrid).insert(
            move_grid_command_id(MoveGridVariant::ClosestTempo),
            MoveGridVariant::ClosestTempo,
        ),
        final(reg)@.active == old(reg)@.active,
        final(reg)@.timer == old(reg)@.timer,
        final(reg)@.accel == old(reg)@.accel,
{
    register_continuous_action(
        reg,
        ContinuousAction {
            command_id: "FTS_TEMPO_MOVE_MEASURE_GRID_TO_MOUSE".to_string(),
            handler: MoveGridVariant::ClosestMeasure,
        },
    );
    register_continuous_action(
        reg,
        ContinuousAction {
            command_id: "FTS_TEMPO_MOVE_MEASURE_GRID_TO_MOUSE_CONSTRAINED".to_string(),
            handler: MoveGridVariant::ClosestMeasureConstrained,
        },
    );
    register_continuous_action(
        reg,
        ContinuousAction {
            command_id: "FTS_TEMPO_MOVE_MEASURE_GRID_TO_MOUSE_FULLY_CONSTRAINED".to_string(),
            handler: MoveGridVariant::ClosestMeasureFullyConstrained,
        },
    );
    register_continuous_action(
        reg,
        ContinuousAction {
            command_id: "FTS_TEMPO_MOVE_GRID_TO_MOUSE".to_string(),
            handler: MoveGridVariant::ClosestGrid,
        },
    );
    register_continuous_action(
        reg,
        ContinuousAction {
            command_id: "FTS_TEMPO_MOVE_MARKER_TO_MOUSE".to_string(),
            handler: MoveGridVariant::ClosestTempo,
        },
    );
}

/// The console message when a variant's action could not be started.
pub fn start_failure_message(v: MoveGridVariant) -> (r: &'static str)
    ensures
        r@ == match v {
            MoveGridVariant::ClosestMeasure => "Failed to start Move Measure Grid action\n"@,
            MoveGridVariant::ClosestMeasureConstrained => "Failed to start Move Measure Grid (Constrained) action\n"@,
            MoveGridVariant::ClosestMeasureFullyConstrained => "Failed to start Move Measure Grid (Fully Constrained) action\n"@,
            MoveGridVariant::ClosestGrid => "Failed to start Move Grid action\n"@,
            MoveGridVariant::ClosestTempo => "Failed to start Move Tempo action\n"@,
        },
{
    match v {
        MoveGridVariant::ClosestMeasure => "Failed to start Move Measure Grid action\n",
        MoveGridVariant::ClosestMeasureConstrained => "Failed to start Move Measure Grid (Constrained) action\n",
        MoveGridVariant::ClosestMeasureFullyConstrained => "Failed to start Move Measure Grid (Fully Constrained) action\n",
        MoveGridVariant::ClosestGrid => "Failed to start Move Grid action\n",
        MoveGridVariant::ClosestTempo => "Failed to start Move Tempo action\n",
    }
}

/// The command id of a variant's continuous action.
pub fn command_id(v: MoveGridVariant) -> (r: &'static str)
    ensures
        r@ == move_grid_command_id(v),
{
    match v {
        MoveGridVariant::ClosestMeasure => "FTS_TEMPO_MOVE_MEASURE_GRID_TO_MOUSE",
        MoveGridVariant::ClosestMeasureConstrained => "FTS_TEMPO_MOVE_MEASURE_GRID_TO_MOUSE_CONSTRAINED",
        MoveGridVariant::ClosestMeasureFullyConstrained => "FTS_TEMPO_MOVE_MEASURE_GRID_TO_MOUSE_FULLY_CONSTRAINED",
        MoveGridVariant::ClosestGrid => "FTS_TEMPO_MOVE_GRID_TO_MOUSE",
        MoveGridVariant::ClosestTempo => "FTS_TEMPO_MOVE_MARKER_TO_MOUSE",
    }
}

} // verus!
