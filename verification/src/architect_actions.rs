//! The FTS actions declared as two traits with metadata per action: the
//! tempo-grid move/snap actions (namespace `FTS_TEMPO`, none shown in the
//! Extensions menu) and the general utility actions (namespace `FTS`).
//!
//! An action's command id is its namespace, `_`, and its method name in
//! upper case; it is the id the action table registers for the same
//! request, with the same description. A non-empty category means the
//! action is shown in the Extensions menu under that category.
//! [`FtsActionsImpl`] implements both traits: each method answers the
//! request the host then performs.
use vstd::prelude::*;
use crate::actions::{
    command_id, description, law_request_ids_injective, legacy_requests, request_description, request_id, request_in_menu,
    request_toggles, ActionFeatures, ActionRequest,
};
use crate::midi_mode::MidiMode;
use crate::tempo::move_grid::MoveGridVariant;
use crate::tempo::snap_to_transient::SnapToTransientVariant;

verus! {

/// Tempo-grid move/snap actions.
pub trait FtsTempoGridActions {
    fn move_measure_grid_to_mouse(&self) -> ActionRequest;

    fn move_measure_grid_to_mouse_constrained(&self) -> ActionRequest;

    fn move_measure_grid_to_mouse_fully_constrained(&self) -> ActionRequest;

    fn move_grid_to_mouse(&self) -> ActionRequest;

    fn move_marker_to_mouse(&self) -> ActionRequest;

    fn snap_grid_to_transient(&self) -> ActionRequest;

    fn snap_grid_to_transient_constrained(&self) -> ActionRequest;

    fn snap_grid_to_transient_fully_constrained(&self) -> ActionRequest;
}

/// General FTS utility actions.
pub trait FtsActions {
    fn move_cursor_left_creating_time_selection_by_measure(&self) -> ActionRequest;

    fn move_cursor_right_creating_time_selection_by_measure(&self) -> ActionRequest;

    fn split_items_crossfade_left(&self) -> ActionRequest;

    fn smart_duplicate(&self) -> ActionRequest;

    fn test_toggle(&self) -> ActionRequest;

    fn clock_sync_toggle(&self) -> ActionRequest;

    fn drift_correction_toggle(&self) -> ActionRequest;

    fn midi_mode_drums(&self) -> ActionRequest;

    fn midi_mode_cycle(&self) -> ActionRequest;

    fn midi_insert_flam(&self) -> ActionRequest;

    fn info(&self) -> ActionRequest;

    fn volbal_toggle(&self) -> ActionRequest;

    fn volbal_link_selected(&self) -> ActionRequest;

    fn volbal_unlink_selected(&self) -> ActionRequest;
}

/// The backend of both traits: each method answers the same request the
/// action table fires for that action.
#[derive(Clone, Copy, Default)]
pub struct FtsActionsImpl;

impl FtsTempoGridActions for FtsActionsImpl {
    fn move_measure_grid_to_mouse(&self) -> (r: ActionRequest)
        ensures
            r == ActionRequest::MoveGrid(MoveGridVariant::ClosestMeasure),
    {
        ActionRequest::MoveGrid(MoveGridVariant::ClosestMeasure)
    }

    fn move_measure_grid_to_mouse_constrained(&self) -> (r: ActionRequest)
        ensures
            r == ActionRequest::MoveGrid(MoveGridVariant::ClosestMeasureConstrained),
    {
        ActionRequest::MoveGrid(MoveGridVariant::ClosestMeasureConstrained)
    }

    fn move_measure_grid_to_mouse_fully_constrained(&self) -> (r: ActionRequest)
        ensures
            r == ActionRequest::MoveGrid(MoveGridVariant::ClosestMeasureFullyConstrained),
    {
        ActionRequest::MoveGrid(MoveGridVariant::ClosestMeasureFullyConstrained)
    }

    fn move_grid_to_mouse(&self) -> (r: ActionRequest)
        ensures
            r == ActionRequest::MoveGrid(MoveGridVariant::ClosestGrid),
    {
        ActionRequest::MoveGrid(MoveGridVariant::ClosestGrid)
    }

    fn move_marker_to_mouse(&self) -> (r: ActionRequest)
        ensures
            r == ActionRequest::MoveGrid(MoveGridVariant::ClosestTempo),
    {
        ActionRequest::MoveGrid(MoveGridVariant::ClosestTempo)
    }

    fn snap_grid_to_transient(&self) -> (r: ActionRequest)
        ensures
            r == ActionRequest::SnapGridToTransient(SnapToTransientVariant::Unconstrained),
    {
        ActionRequest::SnapGridToTransient(SnapToTransientVariant::Unconstrained)
    }

    fn snap_grid_to_transient_constrained(&self) -> (r: ActionRequest)
        ensures
            r == ActionRequest::SnapGridToTransient(SnapToTransientVariant::Constrained),
    {
        ActionRequest::SnapGridToTransient(SnapToTransientVariant::Constrained)
    }

    fn snap_grid_to_transient_fully_constrained(&self) -> (r: ActionRequest)
        ensures
            r == ActionRequest::SnapGridToTransient(SnapToTransientVariant::FullyConstrained),
    {
        ActionRequest::SnapGridToTransient(SnapToTransientVariant::FullyConstrained)
    }
}

impl FtsActions for FtsActionsImpl {
    fn move_cursor_left_creating_time_selection_by_measure(&self) -> (r: ActionRequest)
        ensures
            r == ActionRequest::MoveCursorLeftByMeasure,
    {
        ActionRequest::MoveCursorLeftByMeasure
    }

    fn move_cursor_right_creating_time_selection_by_measure(&self) -> (r: ActionRequest)
        ensures
            r == ActionRequest::MoveCursorRightByMeasure,
    {
        ActionRequest::MoveCursorRightByMeasure
    }

    fn split_items_crossfade_left(&self) -> (r: ActionRequest)
        ensures
            r == ActionRequest::SplitItemsCrossfadeLeft,
    {
        ActionRequest::SplitItemsCrossfadeLeft
    }

    fn smart_duplicate(&self) -> (r: ActionRequest)
        ensures
            r == ActionRequest::SmartDuplicate,
    {
        ActionRequest::SmartDuplicate
    }

    fn test_toggle(&self) -> (r: ActionRequest)
        ensures
            r == ActionRequest::ToggleTestToggle,
    {
        ActionRequest::ToggleTestToggle
    }

    fn clock_sync_toggle(&self) -> (r: ActionRequest)
        ensures
            r == ActionRequest::ToggleClockSync,
    {
        ActionRequest::ToggleClockSync
    }

    fn drift_correction_toggle(&self) -> (r: ActionRequest)
        ensures
            r == ActionRequest::ToggleDriftCorrection,
    {
        ActionRequest::ToggleDriftCorrection
    }

    fn midi_mode_drums(&self) -> (r: ActionRequest)
        ensures
            r == ActionRequest::SetMidiMode(MidiMode::Drums),
    {
        ActionRequest::SetMidiMode(MidiMode::Drums)
    }

    fn midi_mode_cycle(&self) -> (r: ActionRequest)
        ensures
            r == ActionRequest::CycleMidiMode,
    {
        ActionRequest::CycleMidiMode
    }

    fn midi_insert_flam(&self) -> (r: ActionRequest)
        ensures
            r == ActionRequest::InsertFlam,
    {
        ActionRequest::InsertFlam
    }

    fn info(&self) -> (r: ActionRequest)
        ensures
            r == ActionRequest::ShowInfo,
    {
        ActionRequest::ShowInfo
    }

    fn volbal_toggle(&self) -> (r: ActionRequest)
        ensures
            r == ActionRequest::ToggleVolumeBalancer,
    {
        ActionRequest::ToggleVolumeBalancer
    }

    fn volbal_link_selected(&self) -> (r: ActionRequest)
        ensures
            r == ActionRequest::LinkVolumeBalancer,
    {
        ActionRequest::LinkVolumeBalancer
    }

    fn volbal_unlink_selected(&self) -> (r: ActionRequest)
        ensures
            r == ActionRequest::UnlinkVolumeBalancer,
    {
        ActionRequest::UnlinkVolumeBalancer
    }
}

/// The metadata of one declared action.
pub struct ActionMeta {
    pub id: String,
    pub trait_name: &'static str,
    pub method_name: &'static str,
    pub description: String,
    pub category: &'static str,
    pub group: &'static str,
    pub toggleable: bool,
    /// What the action's method answers.
    pub request: ActionRequest,
}

/// The declared actions' requests, tempo-grid trait first, in declaration
/// order.
pub open spec fn architect_requests() -> Seq<ActionRequest> {
    seq![
        ActionRequest::MoveGrid(MoveGridVariant::ClosestMeasure),
        ActionRequest::MoveGrid(MoveGridVariant::ClosestMeasureConstrained),
        ActionRequest::MoveGrid(MoveGridVariant::ClosestMeasureFullyConstrained),
        ActionRequest::MoveGrid(MoveGridVariant::ClosestGrid),
        ActionRequest::MoveGrid(MoveGridVariant::ClosestTempo),
        ActionRequest::SnapGridToTransient(SnapToTransientVariant::Unconstrained),
        ActionRequest::SnapGridToTransient(SnapToTransientVariant::Constrained),
        ActionRequest::SnapGridToTransient(SnapToTransientVariant::FullyConstrained),
        ActionRequest::MoveCursorLeftByMeasure,
        ActionRequest::MoveCursorRightByMeasure,
        ActionRequest::SplitItemsCrossfadeLeft,
        ActionRequest::SmartDuplicate,
        ActionRequest::ToggleTestToggle,
        ActionRequest::ToggleClockSync,
        ActionRequest::ToggleDriftCorrection,
        ActionRequest::SetMidiMode(MidiMode::Drums),
        ActionRequest::CycleMidiMode,
        ActionRequest::InsertFlam,
        ActionRequest::ShowInfo,
        ActionRequest::ToggleVolumeBalancer,
        ActionRequest::LinkVolumeBalancer,
        ActionRequest::UnlinkVolumeBalancer,
    ]
}

/// The category of a declared action (empty: not in the menu).
pub open spec fn architect_category(r: ActionRequest) -> Seq<char> {
    match r {
        ActionRequest::SmartDuplicate => "Editing"@,
        ActionRequest::ToggleTestToggle => "Test"@,
        ActionRequest::ToggleClockSync | ActionRequest::ToggleDriftCorrection => "Sync"@,
        ActionRequest::SetMidiMode(_) | ActionRequest::CycleMidiMode => "MIDI Editor"@,
        ActionRequest::ShowInfo => "Info"@,
        _ => ""@,
    }
}

/// The group of a declared action.
pub open spec fn architect_group(r: ActionRequest) -> Seq<char> {
    match r {
        ActionRequest::MoveGrid(_) => "Move"@,
        ActionRequest::SnapGridToTransient(_) => "Snap"@,
        _ => ""@,
    }
}

/// The trait that declares an action.
pub open spec fn architect_trait_name(r: ActionRequest) -> Seq<char> {
    match r {
        ActionRequest::MoveGrid(_) | ActionRequest::SnapGridToTransient(_) => "FtsTempoGridActions"@,
        _ => "FtsActions"@,
    }
}

/// The method that declares an action.
pub open spec fn architect_method_name(r: ActionRequest) -> Seq<char> {
    match r {
        ActionRequest::MoveGrid(MoveGridVariant::ClosestMeasure) => "move_measure_grid_to_mouse"@,
        ActionRequest::MoveGrid(MoveGridVariant::ClosestMeasureConstrained) => "move_measure_grid_to_mouse_constrained"@,
        ActionRequest::MoveGrid(MoveGridVariant::ClosestMeasureFullyConstrained) => "move_measure_grid_to_mouse_fully_constrained"@,
        ActionRequest::MoveGrid(MoveGridVariant::ClosestGrid) => "move_grid_to_mouse"@,
        ActionRequest::MoveGrid(MoveGridVariant::ClosestTempo) => "move_marker_to_mouse"@,
        ActionRequest::SnapGridToTransient(SnapToTransientVariant::Unconstrained) => "snap_grid_to_transient"@,
        ActionRequest::SnapGridToTransient(SnapToTransientVariant::Constrained) => "snap_grid_to_transient_constrained"@,
        ActionRequest::SnapGridToTransient(SnapToTransientVariant::FullyConstrained) => "snap_grid_to_transient_fully_constrained"@,
        ActionRequest::MoveCursorLeftByMeasure => "move_cursor_left_creating_time_selection_by_measure"@,
        ActionRequest::MoveCursorRightByMeasure => "move_cursor_right_creating_time_selection_by_measure"@,
        ActionRequest::SplitItemsCrossfadeLeft => "split_items_crossfade_left"@,
        ActionRequest::SmartDuplicate => "smart_duplicate"@,
        ActionRequest::ToggleTestToggle => "test_toggle"@,
        ActionRequest::ToggleClockSync => "clock_sync_toggle"@,
        ActionRequest::ToggleDriftCorrection => "drift_correction_toggle"@,
        ActionRequest::SetMidiMode(MidiMode::Drums) => "midi_mode_drums"@,
        ActionRequest::CycleMidiMode => "midi_mode_cycle"@,
        ActionRequest::InsertFlam => "midi_insert_flam"@,
        ActionRequest::ShowInfo => "info"@,
        ActionRequest::ToggleVolumeBalancer => "volbal_toggle"@,
        ActionRequest::LinkVolumeBalancer => "volbal_link_selected"@,
        ActionRequest::UnlinkVolumeBalancer => "volbal_unlink_selected"@,
        _ => ""@,
    }
}

/// A declared action's metadata as plain values: id, trait, method,
/// description, category, group, whether it toggles, and its request.
pub open spec fn meta_view(m: ActionMeta) -> (
    Seq<char>,
    Seq<char>,
    Seq<char>,
    Seq<char>,
    Seq<char>,
    Seq<char>,
    bool,
    ActionRequest,
) {
    (
        m.id@,
        m.trait_name@,
        m.method_name@,
        m.description@,
        m.category@,
        m.group@,
        m.toggleable,
        m.request,
    )
}

/// The metadata a declared action carries.
pub open spec fn meta_of(r: ActionRequest) -> (
    Seq<char>,
    Seq<char>,
    Seq<char>,
    Seq<char>,
    Seq<char>,
    Seq<char>,
    bool,
    ActionRequest,
) {
    (
        request_id(r),
        architect_trait_name(r),
        architect_method_name(r),
        request_description(r),
        architect_category(r),
        architect_group(r),
        request_toggles(r),
        r,
    )
}

fn category_and_group(r: ActionRequest) -> (t: (&'static str, &'static str))
    ensures
        t.0@ == architect_category(r),
        t.1@ == architect_group(r),
{
    match r {
        ActionRequest::MoveGrid(_) => ("", "Move"),
        ActionRequest::SnapGridToTransient(_) => ("", "Snap"),
        ActionRequest::SmartDuplicate => ("Editing", ""),
        ActionRequest::ToggleTestToggle => ("Test", ""),
        ActionRequest::ToggleClockSync | ActionRequest::ToggleDriftCorrection => ("Sync", ""),
        ActionRequest::SetMidiMode(_) | ActionRequest::CycleMidiMode => ("MIDI Editor", ""),
        ActionRequest::ShowInfo => ("Info", ""),
        _ => ("", ""),
    }
}

fn meta(trait_name: &'static str, method_name: &'static str, r: ActionRequest) -> (m: ActionMeta)
    requires
        trait_name@ == architect_trait_name(r),
        method_name@ == architect_method_name(r),
    ensures
        meta_view(m) == meta_of(r),
{
    let (category, group) = category_and_group(r);
    let toggleable = match r {
        ActionRequest::ToggleTestToggle => true,
        _ => false,
    };
    ActionMeta {
        id: command_id(r),
        trait_name,
        method_name,
        description: description(r),
        category,
        group,
        toggleable,
        request: r,
    }
}

/// Every declared action's metadata, tempo-grid trait first, in
/// declaration order.
pub fn all_architect_actions() -> (r: Vec<ActionMeta>)
    ensures
        r@.map_values(|m: ActionMeta| meta_view(m)) == architect_requests().map_values(
            |q: ActionRequest| meta_of(q),
        ),
{
    let g = "FtsTempoGridActions";
    let a = "FtsActions";
    let out = vec![
        meta(g, "move_measure_grid_to_mouse", ActionRequest::MoveGrid(MoveGridVariant::ClosestMeasure)),
        meta(
            g,
            "move_measure_grid_to_mouse_constrained",
            ActionRequest::MoveGrid(MoveGridVariant::ClosestMeasureConstrained),
        ),
        meta(
            g,
            "move_measure_grid_to_mouse_fully_constrained",
            ActionRequest::MoveGrid(MoveGridVariant::ClosestMeasureFullyConstrained),
        ),
        meta(g, "move_grid_to_mouse", ActionRequest::MoveGrid(MoveGridVariant::ClosestGrid)),
        meta(g, "move_marker_to_mouse", ActionRequest::MoveGrid(MoveGridVariant::ClosestTempo)),
        meta(
            g,
            "snap_grid_to_transient",
            ActionRequest::SnapGridToTransient(SnapToTransientVariant::Unconstrained),
        ),
        meta(
            g,
            "snap_grid_to_transient_constrained",
            ActionRequest::SnapGridToTransient(SnapToTransientVariant::Constrained),
        ),
        meta(
            g,
            "snap_grid_to_transient_fully_constrained",
            ActionRequest::SnapGridToTransient(SnapToTransientVariant::FullyConstrained),
        ),
        meta(
            a,
            "move_cursor_left_creating_time_selection_by_measure",
            ActionRequest::MoveCursorLeftByMeasure,
        ),
        meta(
            a,
            "move_cursor_right_creating_time_selection_by_measure",
            ActionRequest::MoveCursorRightByMeasure,
        ),
        meta(a, "split_items_crossfade_left", ActionRequest::SplitItemsCrossfadeLeft),
        meta(a, "smart_duplicate", ActionRequest::SmartDuplicate),
        meta(a, "test_toggle", ActionRequest::ToggleTestToggle),
        meta(a, "clock_sync_toggle", ActionRequest::ToggleClockSync),
        meta(a, "drift_correction_toggle", ActionRequest::ToggleDriftCorrection),
        meta(a, "midi_mode_drums", ActionRequest::SetMidiMode(MidiMode::Drums)),
        meta(a, "midi_mode_cycle", ActionRequest::CycleMidiMode),
        meta(a, "midi_insert_flam", ActionRequest::InsertFlam),
        meta(a, "info", ActionRequest::ShowInfo),
        meta(a, "volbal_toggle", ActionRequest::ToggleVolumeBalancer),
        meta(a, "volbal_link_selected", ActionRequest::LinkVolumeBalancer),
        meta(a, "volbal_unlink_selected", ActionRequest::UnlinkVolumeBalancer),
    ];
    assert(out@.map_values(|m: ActionMeta| meta_view(m)) =~= architect_requests().map_values(
        |q: ActionRequest| meta_of(q),
    ));
    out
}

/// No two declared actions share a command id.
pub proof fn law_architect_ids_unique()
    ensures
        forall|i: int, j: int|
            0 <= i < j < architect_requests().len() ==> request_id(architect_requests()[i])
                != request_id(architect_requests()[j]),
{
    let s = architect_requests();
    assert forall|i: int, j: int| 0 <= i < j < s.len() implies request_id(s[i]) != request_id(
        s[j],
    ) by {
        assert(s[i] != s[j]);
        law_request_ids_injective(s[i], s[j]);
    }
}

/// Every declared action but smart duplicate is also in the action table,
/// whatever its features, under the same id and description; it is shown
/// in the menu (has a category) exactly when the table lists it in the
/// menu, and is a toggle exactly when the table's entry is.
pub proof fn law_architect_matches_table(f: ActionFeatures, i: int)
    requires
        0 <= i < architect_requests().len(),
        architect_requests()[i] != ActionRequest::SmartDuplicate,
    ensures
        legacy_requests(f).contains(architect_requests()[i]),
        (architect_category(architect_requests()[i]).len() > 0) == request_in_menu(
            architect_requests()[i],
        ),
{
    let r = architect_requests()[i];
    let t = legacy_requests(f);
    reveal_strlit("Editing");
    reveal_strlit("Test");
    reveal_strlit("Sync");
    reveal_strlit("MIDI Editor");
    reveal_strlit("Info");
    reveal_strlit("");
    let k: int = if i < 11 {
        i
    } else if i == 12 {
        11
    } else if i < 19 {
        let base: int = if f.session { 19 } else { 12 };
        base + (i - 13)
    } else {
        let base: int = if f.session { 51int } else { 44int };
        base + (i - 19)
    };
    assert(crate::tempo::time_signature::time_signature_list().len() == 13);
    assert(crate::actions::timesig_requests(crate::tempo::time_signature::time_signature_list()).len() == 26) by {
        reveal_with_fuel(crate::actions::timesig_requests, 14);
    }
    assert(t[k] == r);
}

} // verus!
