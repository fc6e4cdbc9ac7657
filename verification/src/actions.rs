//! The FTS action table.
//!
//! Every action is registered under the `FTS_` namespace; its display name
//! in REAPER's action list is its description prefixed with `FTS: `. Some
//! actions are also listed in the Extensions menu, and some are toggles.
//! Firing an action yields an [`ActionRequest`]: what the host then does.
use vstd::prelude::*;
use crate::continuous_action::ContinuousActions;
use crate::midi_mode::MidiMode;
use crate::tempo::move_grid::{register_move_grid_actions, MoveGridVariant};
use crate::tempo::snap_to_transient::SnapToTransientVariant;
use crate::tempo::time_signature::{time_signature_list, time_signatures};
use crate::text::{
    char_pred, decimal, digits_value, find_first, is_digit, lemma_decimal_value, lemma_find_first_at,
    push_signed, push_str, signed_decimal,
};

verus! {

/// The window-manager diagnostics of the session modes.
#[derive(Debug, Clone, Copy, PartialEq, Eq, Structural)]
pub enum WindowDebug {
    TopLevelWindowTitles,
    ToolbarStates,
    ToolbarCommandIds,
    DockerPositions,
    ToolbarAttachments,
    OpenAllToolbars,
}

/// What firing an action asks of the host.
#[derive(Debug, Clone, Copy, PartialEq, Eq, Structural)]
pub enum ActionRequest {
    /// Choose the variant and start its continuous move action.
    MoveGrid(MoveGridVariant),
    SnapGridToTransient(SnapToTransientVariant),
    /// Run "move cursor left by measure" (40838) and extend the time selection.
    MoveCursorLeftByMeasure,
    /// Run "move cursor right by measure" (40837) and extend the time selection.
    MoveCursorRightByMeasure,
    SplitItemsCrossfadeLeft,
    SmartDuplicate,
    ToggleTestToggle,
    ShowModeMenu,
    WindowDebug(WindowDebug),
    ToggleClockSync,
    ToggleDriftCorrection,
    SetMidiMode(MidiMode),
    CycleMidiMode,
    InsertFlam,
    ShowInfo,
    InsertTimeSignature { num: i32, denom: i32 },
    InsertSingleMeasureTimeSignature { num: i32, denom: i32 },
    ToggleVolumeBalancer,
    LinkVolumeBalancer,
    UnlinkVolumeBalancer,
    LinkMirror,
    UnlinkMirror,
    RegenerateMirror,
    ToggleMirror,
}

/// The optional action families, one per build feature of the extension.
#[derive(Debug, Clone, Copy, PartialEq, Eq, Structural)]
pub struct ActionFeatures {
    /// The session-mode actions (mode selector and window diagnostics).
    pub session: bool,
    /// The MIDI mirror actions.
    pub mirror: bool,
}

/// One action of the table.
pub struct ActionDef {
    pub id: String,
    pub display_name: String,
    pub request: ActionRequest,
    pub show_in_menu: bool,
    pub toggleable: bool,
}

pub open spec fn timesig_id_text(num: i32, denom: i32) -> Seq<char> {
    "FTS_TEMPO_INSERT_TIMESIG_"@ + signed_decimal(num as int) + "_"@ + signed_decimal(denom as int)
}

/// The command id of a request's action.
pub open spec fn request_id(r: ActionRequest) -> Seq<char> {
    match r {
        ActionRequest::MoveGrid(v) => match v {
            MoveGridVariant::ClosestMeasure => "FTS_TEMPO_MOVE_MEASURE_GRID_TO_MOUSE"@,
            MoveGridVariant::ClosestMeasureConstrained => "FTS_TEMPO_MOVE_MEASURE_GRID_TO_MOUSE_CONSTRAINED"@,
            MoveGridVariant::ClosestMeasureFullyConstrained => "FTS_TEMPO_MOVE_MEASURE_GRID_TO_MOUSE_FULLY_CONSTRAINED"@,
            MoveGridVariant::ClosestGrid => "FTS_TEMPO_MOVE_GRID_TO_MOUSE"@,
            MoveGridVariant::ClosestTempo => "FTS_TEMPO_MOVE_MARKER_TO_MOUSE"@,
        },
        ActionRequest::SnapGridToTransient(v) => match v {
            SnapToTransientVariant::Unconstrained => "FTS_TEMPO_SNAP_GRID_TO_TRANSIENT"@,
            SnapToTransientVariant::Constrained => "FTS_TEMPO_SNAP_GRID_TO_TRANSIENT_CONSTRAINED"@,
            SnapToTransientVariant::FullyConstrained => "FTS_TEMPO_SNAP_GRID_TO_TRANSIENT_FULLY_CONSTRAINED"@,
        },
        ActionRequest::MoveCursorLeftByMeasure => "FTS_MOVE_CURSOR_LEFT_CREATING_TIME_SELECTION_BY_MEASURE"@,
        ActionRequest::MoveCursorRightByMeasure => "FTS_MOVE_CURSOR_RIGHT_CREATING_TIME_SELECTION_BY_MEASURE"@,
        ActionRequest::SplitItemsCrossfadeLeft => "FTS_SPLIT_ITEMS_CROSSFADE_LEFT"@,
        ActionRequest::SmartDuplicate => "FTS_SMART_DUPLICATE"@,
        ActionRequest::ToggleTestToggle => "FTS_TEST_TOGGLE"@,
        ActionRequest::ShowModeMenu => "FTS_MODE_SELECTOR"@,
        ActionRequest::WindowDebug(d) => match d {
            WindowDebug::TopLevelWindowTitles => "FTS_MODE_DEBUG_WINDOW_TITLES"@,
            WindowDebug::ToolbarStates => "FTS_MODE_DEBUG_TOOLBAR_STATES"@,
            WindowDebug::ToolbarCommandIds => "FTS_MODE_DEBUG_TOOLBAR_COMMAND_IDS"@,
            WindowDebug::DockerPositions => "FTS_MODE_DEBUG_DOCKER_POSITIONS"@,
            WindowDebug::ToolbarAttachments => "FTS_MODE_DEBUG_TOOLBAR_ATTACHMENTS"@,
            WindowDebug::OpenAllToolbars => "FTS_MODE_OPEN_ALL_TOOLBARS"@,
        },
        ActionRequest::ToggleClockSync => "FTS_CLOCK_SYNC_TOGGLE"@,
        ActionRequest::ToggleDriftCorrection => "FTS_DRIFT_CORRECTION_TOGGLE"@,
        ActionRequest::SetMidiMode(MidiMode::Drums) => "FTS_MIDI_MODE_DRUMS"@,
        ActionRequest::CycleMidiMode => "FTS_MIDI_MODE_CYCLE"@,
        ActionRequest::InsertFlam => "FTS_MIDI_INSERT_FLAM"@,
        ActionRequest::ShowInfo => "FTS_INFO"@,
        ActionRequest::InsertTimeSignature { num, denom } => timesig_id_text(num, denom),
        ActionRequest::InsertSingleMeasureTimeSignature { num, denom } => timesig_id_text(num, denom)
            + "_SINGLE"@,
        ActionRequest::ToggleVolumeBalancer => "FTS_VOLBAL_TOGGLE"@,
        ActionRequest::LinkVolumeBalancer => "FTS_VOLBAL_LINK_SELECTED"@,
        ActionRequest::UnlinkVolumeBalancer => "FTS_VOLBAL_UNLINK_SELECTED"@,
        ActionRequest::LinkMirror => "FTS_MIRROR_LINK_SELECTED"@,
        ActionRequest::UnlinkMirror => "FTS_MIRROR_UNLINK_SELECTED"@,
        ActionRequest::RegenerateMirror => "FTS_MIRROR_REGENERATE"@,
        ActionRequest::ToggleMirror => "FTS_MIRROR_TOGGLE"@,
    }
}

/// The description of a request's action (its display name without the
/// `FTS: ` prefix).
pub open spec fn request_description(r: ActionRequest) -> Seq<char> {
    match r {
        ActionRequest::MoveGrid(v) => match v {
            MoveGridVariant::ClosestMeasure => "Move closest measure grid line to mouse cursor (perform until shortcut released)"@,
            MoveGridVariant::ClosestMeasureConstrained => "Move closest measure grid line to mouse cursor \u{2014} constrained (perform until shortcut released)"@,
            MoveGridVariant::ClosestMeasureFullyConstrained => "Move closest measure grid line to mouse cursor \u{2014} fully constrained (perform until shortcut released)"@,
            MoveGridVariant::ClosestGrid => "Move closest grid line to mouse cursor (perform until shortcut released)"@,
            MoveGridVariant::ClosestTempo => "Move closest tempo marker to mouse cursor (perform until shortcut released)"@,
        },
        ActionRequest::SnapGridToTransient(v) => match v {
            SnapToTransientVariant::Unconstrained => "Snap closest measure grid line to next transient"@,
            SnapToTransientVariant::Constrained => "Snap closest measure grid line to next transient \u{2014} constrained"@,
            SnapToTransientVariant::FullyConstrained => "Snap closest measure grid line to next transient \u{2014} fully constrained"@,
        },
        ActionRequest::MoveCursorLeftByMeasure => "Move cursor left creating time selection by measure"@,
        ActionRequest::MoveCursorRightByMeasure => "Move cursor right creating time selection by measure"@,
        ActionRequest::SplitItemsCrossfadeLeft => "Split selected items at cursor with crossfade on left"@,
        ActionRequest::SmartDuplicate => "Smart duplicate: duplicate selected items forward by the selection's measure span (group + color preserving, tempo-aware)"@,
        ActionRequest::ToggleTestToggle => "Test Toggle"@,
        ActionRequest::ShowModeMenu => "Mode Selector"@,
        ActionRequest::WindowDebug(d) => match d {
            WindowDebug::TopLevelWindowTitles => "Mode: Debug Top-Level Window Titles"@,
            WindowDebug::ToolbarStates => "Mode: Debug Toolbar States"@,
            WindowDebug::ToolbarCommandIds => "Mode: Debug Toolbar Command IDs"@,
            WindowDebug::DockerPositions => "Mode: Debug Docker Positions"@,
            WindowDebug::ToolbarAttachments => "Mode: Debug Toolbar Attachments"@,
            WindowDebug::OpenAllToolbars => "Mode: Open All Toolbars"@,
        },
        ActionRequest::ToggleClockSync => "Sync: Toggle clock-sync (multicast peer discovery)"@,
        ActionRequest::ToggleDriftCorrection => "Sync: Toggle drift correction (auto-rate-change)"@,
        ActionRequest::SetMidiMode(MidiMode::Drums) => "MIDI mode: Drums (drum-map view + drum keybinds)"@,
        ActionRequest::CycleMidiMode => "MIDI mode: Cycle to next"@,
        ActionRequest::InsertFlam => "MIDI: Insert flam at mouse cursor"@,
        ActionRequest::ShowInfo => "FastTrackStudio Info"@,
        ActionRequest::InsertTimeSignature { num, denom } => "Insert "@ + signed_decimal(num as int)
            + "/"@ + signed_decimal(denom as int)
            + " time signature at measure (hold Shift: single measure)"@,
        ActionRequest::InsertSingleMeasureTimeSignature { num, denom } => "Insert single measure of "@
            + signed_decimal(num as int) + "/"@ + signed_decimal(denom as int)
            + " (restores previous signature)"@,
        ActionRequest::ToggleVolumeBalancer => "Volume Balancer: toggle constant-sum fader linking"@,
        ActionRequest::LinkVolumeBalancer => "Volume Balancer: link selected tracks (constant total volume)"@,
        ActionRequest::UnlinkVolumeBalancer => "Volume Balancer: unlink groups containing selected tracks"@,
        ActionRequest::LinkMirror => "Mirror: make selected tracks mirror sources (creates hidden performance twins)"@,
        ActionRequest::UnlinkMirror => "Mirror: unlink selected source tracks"@,
        ActionRequest::RegenerateMirror => "Mirror: force regeneration of all mirror items"@,
        ActionRequest::ToggleMirror => "Mirror: toggle live mirroring"@,
    }
}

/// Whether a request's action is listed in the Extensions menu.
pub open spec fn request_in_menu(r: ActionRequest) -> bool {
    match r {
        ActionRequest::SmartDuplicate | ActionRequest::ToggleTestToggle | ActionRequest::ShowModeMenu
        | ActionRequest::WindowDebug(_) | ActionRequest::ToggleClockSync
        | ActionRequest::ToggleDriftCorrection | ActionRequest::SetMidiMode(_)
        | ActionRequest::CycleMidiMode | ActionRequest::ShowInfo => true,
        _ => false,
    }
}

/// Whether a request's action is a toggle.
pub open spec fn request_toggles(r: ActionRequest) -> bool {
    r == ActionRequest::ToggleTestToggle
}

/// A table entry as plain values: id, display name, request, menu, toggle.
pub open spec fn def_view(d: ActionDef) -> (Seq<char>, Seq<char>, ActionRequest, bool, bool) {
    (d.id@, d.display_name@, d.request, d.show_in_menu, d.toggleable)
}

/// The table entry of a request.
pub open spec fn def_of(r: ActionRequest) -> (Seq<char>, Seq<char>, ActionRequest, bool, bool) {
    (request_id(r), "FTS: "@ + request_description(r), r, request_in_menu(r), request_toggles(r))
}

/// The two insert requests of each signature, in order.
pub open spec fn timesig_requests(sigs: Seq<(i32, i32)>) -> Seq<ActionRequest>
    decreases sigs.len(),
{
    if sigs.len() == 0 {
        Seq::empty()
    } else {
        timesig_requests(sigs.drop_last()) + seq![
            ActionRequest::InsertTimeSignature { num: sigs.last().0, denom: sigs.last().1 },
            ActionRequest::InsertSingleMeasureTimeSignature { num: sigs.last().0, denom: sigs.last().1 },
        ]
    }
}

pub open spec fn tempo_and_editing_requests() -> Seq<ActionRequest> {
    seq![
        ActionRequest::MoveGrid(MoveGridVariant::ClosestMeasure),
        ActionRequest::MoveGrid(MoveGridVariant::ClosestMeasureConstrained),
        ActionRequest::MoveGrid(MoveGridVariant::ClosestMeasureFullyConstrained),
        ActionRequest::MoveGrid(MoveGridVariant::ClosestGrid),
        ActionRequest::MoveGrid(MoveGridVariant::ClosestTempo),
        ActionRequest::SnapGridToTransient(SnapToTransientVariant::Unconstrained),
        ActionRequest::SnapGridToTransient(SnapToTransientVariant::Constrained),
        ActionRequest::SnapGridToTransient(SnapToTransientVariant::FullyConstrained),
        ActionRequest::MoveCursorLeftByMeasure,
        ActionRequest::MoveCursorRightByMeasure,
        ActionRequest::SplitItemsCrossfadeLeft,
        ActionRequest::ToggleTestToggle,
    ]
}

pub open spec fn session_requests() -> Seq<ActionRequest> {
    seq![
        ActionRequest::ShowModeMenu,
        ActionRequest::WindowDebug(WindowDebug::TopLevelWindowTitles),
        ActionRequest::WindowDebug(WindowDebug::ToolbarStates),
        ActionRequest::WindowDebug(WindowDebug::ToolbarCommandIds),
        ActionRequest::WindowDebug(WindowDebug::DockerPositions),
        ActionRequest::WindowDebug(WindowDebug::ToolbarAttachments),
        ActionRequest::WindowDebug(WindowDebug::OpenAllToolbars),
    ]
}

pub open spec fn sync_midi_info_requests() -> Seq<ActionRequest> {
    seq![
        ActionRequest::ToggleClockSync,
        ActionRequest::ToggleDriftCorrection,
        ActionRequest::SetMidiMode(MidiMode::Drums),
        ActionRequest::CycleMidiMode,
        ActionRequest::InsertFlam,
        ActionRequest::ShowInfo,
    ]
}

pub open spec fn volume_balancer_requests() -> Seq<ActionRequest> {
    seq![
        ActionRequest::ToggleVolumeBalancer,
        ActionRequest::LinkVolumeBalancer,
        ActionRequest::UnlinkVolumeBalancer,
    ]
}

pub open spec fn mirror_requests() -> Seq<ActionRequest> {
    seq![
        ActionRequest::LinkMirror,
        ActionRequest::UnlinkMirror,
        ActionRequest::RegenerateMirror,
        ActionRequest::ToggleMirror,
    ]
}

/// The requests of the action table, in registration order.
pub open spec fn legacy_requests(f: ActionFeatures) -> Seq<ActionRequest> {
    tempo_and_editing_requests() + (if f.session {
        session_requests()
    } else {
        Seq::empty()
    }) + sync_midi_info_requests() + timesig_requests(time_signature_list())
        + volume_balancer_requests() + (if f.mirror {
        mirror_requests()
    } else {
        Seq::empty()
    })
}

/// Id and description of a request whose texts are fixed.
fn fixed_texts(r: ActionRequest) -> (t: (&'static str, &'static str))
    requires
        !(r is InsertTimeSignature),
        !(r is InsertSingleMeasureTimeSignature),
    ensures
        t.0@ == request_id(r),
        t.1@ == request_description(r),
{
    match r {
        ActionRequest::MoveGrid(v) => match v {
            MoveGridVariant::ClosestMeasure => (
                "FTS_TEMPO_MOVE_MEASURE_GRID_TO_MOUSE",
                "Move closest measure grid line to mouse cursor (perform until shortcut released)",
            ),
            MoveGridVariant::ClosestMeasureConstrained => (
                "FTS_TEMPO_MOVE_MEASURE_GRID_TO_MOUSE_CONSTRAINED",
                "Move closest measure grid line to mouse cursor \u{2014} constrained (perform until shortcut released)",
            ),
            MoveGridVariant::ClosestMeasureFullyConstrained => (
                "FTS_TEMPO_MOVE_MEASURE_GRID_TO_MOUSE_FULLY_CONSTRAINED",
                "Move closest measure grid line to mouse cursor \u{2014} fully constrained (perform until shortcut released)",
            ),
            MoveGridVariant::ClosestGrid => (
                "FTS_TEMPO_MOVE_GRID_TO_MOUSE",
                "Move closest grid line to mouse cursor (perform until shortcut released)",
            ),
            MoveGridVariant::ClosestTempo => (
                "FTS_TEMPO_MOVE_MARKER_TO_MOUSE",
                "Move closest tempo marker to mouse cursor (perform until shortcut released)",
            ),
        },
        ActionRequest::SnapGridToTransient(v) => match v {
            SnapToTransientVariant::Unconstrained => (
                "FTS_TEMPO_SNAP_GRID_TO_TRANSIENT",
                "Snap closest measure grid line to next transient",
            ),
            SnapToTransientVariant::Constrained => (
                "FTS_TEMPO_SNAP_GRID_TO_TRANSIENT_CONSTRAINED",
                "Snap closest measure grid line to next transient \u{2014} constrained",
            ),
            SnapToTransientVariant::FullyConstrained => (
                "FTS_TEMPO_SNAP_GRID_TO_TRANSIENT_FULLY_CONSTRAINED",
                "Snap closest measure grid line to next transient \u{2014} fully constrained",
            ),
        },
        ActionRequest::MoveCursorLeftByMeasure => (
            "FTS_MOVE_CURSOR_LEFT_CREATING_TIME_SELECTION_BY_MEASURE",
            "Move cursor left creating time selection by measure",
        ),
        ActionRequest::MoveCursorRightByMeasure => (
            "FTS_MOVE_CURSOR_RIGHT_CREATING_TIME_SELECTION_BY_MEASURE",
            "Move cursor right creating time selection by measure",
        ),
        ActionRequest::SplitItemsCrossfadeLeft => (
            "FTS_SPLIT_ITEMS_CROSSFADE_LEFT",
            "Split selected items at cursor with crossfade on left",
        ),
        ActionRequest::SmartDuplicate => (
            "FTS_SMART_DUPLICATE",
            "Smart duplicate: duplicate selected items forward by the selection's measure span (group + color preserving, tempo-aware)",
        ),
        ActionRequest::ToggleTestToggle => ("FTS_TEST_TOGGLE", "Test Toggle"),
        ActionRequest::ShowModeMenu => ("FTS_MODE_SELECTOR", "Mode Selector"),
        ActionRequest::WindowDebug(d) => match d {
            WindowDebug::TopLevelWindowTitles => (
                "FTS_MODE_DEBUG_WINDOW_TITLES",
                "Mode: Debug Top-Level Window Titles",
            ),
            WindowDebug::ToolbarStates => (
                "FTS_MODE_DEBUG_TOOLBAR_STATES",
                "Mode: Debug Toolbar States",
            ),
            WindowDebug::ToolbarCommandIds => (
                "FTS_MODE_DEBUG_TOOLBAR_COMMAND_IDS",
                "Mode: Debug Toolbar Command IDs",
            ),
            WindowDebug::DockerPositions => (
                "FTS_MODE_DEBUG_DOCKER_POSITIONS",
                "Mode: Debug Docker Positions",
            ),
            WindowDebug::ToolbarAttachments => (
                "FTS_MODE_DEBUG_TOOLBAR_ATTACHMENTS",
                "Mode: Debug Toolbar Attachments",
            ),
            WindowDebug::OpenAllToolbars => ("FTS_MODE_OPEN_ALL_TOOLBARS", "Mode: Open All Toolbars"),
        },
        ActionRequest::ToggleClockSync => (
            "FTS_CLOCK_SYNC_TOGGLE",
            "Sync: Toggle clock-sync (multicast peer discovery)",
        ),
        ActionRequest::ToggleDriftCorrection => (
            "FTS_DRIFT_CORRECTION_TOGGLE",
            "Sync: Toggle drift correction (auto-rate-change)",
        ),
        ActionRequest::SetMidiMode(MidiMode::Drums) => (
            "FTS_MIDI_MODE_DRUMS",
            "MIDI mode: Drums (drum-map view + drum keybinds)",
        ),
        ActionRequest::CycleMidiMode => ("FTS_MIDI_MODE_CYCLE", "MIDI mode: Cycle to next"),
        ActionRequest::InsertFlam => ("FTS_MIDI_INSERT_FLAM", "MIDI: Insert flam at mouse cursor"),
        ActionRequest::ShowInfo => ("FTS_INFO", "FastTrackStudio Info"),
        ActionRequest::ToggleVolumeBalancer => (
            "FTS_VOLBAL_TOGGLE",
            "Volume Balancer: toggle constant-sum fader linking",
        ),
        ActionRequest::LinkVolumeBalancer => (
            "FTS_VOLBAL_LINK_SELECTED",
            "Volume Balancer: link selected tracks (constant total volume)",
        ),
        ActionRequest::UnlinkVolumeBalancer => (
            "FTS_VOLBAL_UNLINK_SELECTED",
            "Volume Balancer: unlink groups containing selected tracks",
        ),
        ActionRequest::LinkMirror => (
            "FTS_MIRROR_LINK_SELECTED",
            "Mirror: make selected tracks mirror sources (creates hidden performance twins)",
        ),
        ActionRequest::UnlinkMirror => (
            "FTS_MIRROR_UNLINK_SELECTED",
            "Mirror: unlink selected source tracks",
        ),
        ActionRequest::RegenerateMirror => (
            "FTS_MIRROR_REGENERATE",
            "Mirror: force regeneration of all mirror items",
        ),
        ActionRequest::ToggleMirror => ("FTS_MIRROR_TOGGLE", "Mirror: toggle live mirroring"),
        _ => ("", ""),
    }
}

/// The command id of a request's action.
pub fn command_id(r: ActionRequest) -> (s: String)
    ensures
        s@ == request_id(r),
{
    match r {
        ActionRequest::InsertTimeSignature { num, denom } => {
            let mut s = String::new();
            push_str(&mut s, "FTS_TEMPO_INSERT_TIMESIG_");
            push_signed(&mut s, num as i64);
            push_str(&mut s, "_");
            push_signed(&mut s, denom as i64);
            assert(s@ =~= request_id(r));
            s
        },
        ActionRequest::InsertSingleMeasureTimeSignature { num, denom } => {
            let mut s = String::new();
            push_str(&mut s, "FTS_TEMPO_INSERT_TIMESIG_");
            push_signed(&mut s, num as i64);
            push_str(&mut s, "_");
            push_signed(&mut s, denom as i64);
            push_str(&mut s, "_SINGLE");
            assert(s@ =~= request_id(r));
            s
        },
        _ => fixed_texts(r).0.to_string(),
    }
}

/// The description of a request's action.
pub fn description(r: ActionRequest) -> (s: String)
    ensures
        s@ == request_description(r),
{
    let mut s = String::new();
    match r {
        ActionRequest::InsertTimeSignature { num, denom } => {
            push_str(&mut s, "Insert ");
            push_signed(&mut s, num as i64);
            push_str(&mut s, "/");
            push_signed(&mut s, denom as i64);
            push_str(&mut s, " time signature at measure (hold Shift: single measure)");
        },
        ActionRequest::InsertSingleMeasureTimeSignature { num, denom } => {
            push_str(&mut s, "Insert single measure of ");
            push_signed(&mut s, num as i64);
            push_str(&mut s, "/");
            push_signed(&mut s, denom as i64);
            push_str(&mut s, " (restores previous signature)");
        },
        _ => {
            push_str(&mut s, fixed_texts(r).1);
        },
    }
    assert(s@ =~= request_description(r));
    s
}

/// The display name (`FTS: ` and the description) of a request's action.
pub fn display_name(r: ActionRequest) -> (s: String)
    ensures
        s@ == "FTS: "@ + request_description(r),
{
    let mut s = String::new();
    push_str(&mut s, "FTS: ");
    let d = description(r);
    push_str(&mut s, d.as_str());
    s
}

/// Whether a request's action is listed in the Extensions menu.
pub fn in_menu(r: ActionRequest) -> (b: bool)
    ensures
        b == request_in_menu(r),
{
    match r {
        ActionRequest::SmartDuplicate | ActionRequest::ToggleTestToggle | ActionRequest::ShowModeMenu
        | ActionRequest::WindowDebug(_) | ActionRequest::ToggleClockSync
        | ActionRequest::ToggleDriftCorrection | ActionRequest::SetMidiMode(_)
        | ActionRequest::CycleMidiMode | ActionRequest::ShowInfo => true,
        _ => false,
    }
}

/// The table entry of a request.
pub fn action_def(r: ActionRequest) -> (d: ActionDef)
    ensures
        def_view(d) == def_of(r),
{
    let toggleable = match r {
        ActionRequest::ToggleTestToggle => true,
        _ => false,
    };
    ActionDef {
        id: command_id(r),
        display_name: display_name(r),
        request: r,
        show_in_menu: in_menu(r),
        toggleable,
    }
}

fn push_requests(out: &mut Vec<ActionRequest>, rs: &[ActionRequest])
    ensures
        final(out)@ == old(out)@ + rs@,
{
    let mut i: usize = 0;
    while i < rs.len()
        invariant
            i <= rs@.len(),
            out@ == old(out)@ + rs@.subrange(0, i as int),
        decreases rs.len() - i,
    {
        out.push(rs[i]);
        assert(rs@.subrange(0, i + 1) =~= rs@.subrange(0, i as int).push(rs@[i as int]));
        i += 1;
    }
    assert(rs@.subrange(0, rs@.len() as int) =~= rs@);
}

/// The requests of the action table, in registration order.
pub fn legacy_request_list(f: ActionFeatures) -> (r: Vec<ActionRequest>)
    ensures
        r@ == legacy_requests(f),
{
    let mut out: Vec<ActionRequest> = Vec::new();
    let head = [
        ActionRequest::MoveGrid(MoveGridVariant::ClosestMeasure),
        ActionRequest::MoveGrid(MoveGridVariant::ClosestMeasureConstrained),
        ActionRequest::MoveGrid(MoveGridVariant::ClosestMeasureFullyConstrained),
        ActionRequest::MoveGrid(MoveGridVariant::ClosestGrid),
        ActionRequest::MoveGrid(MoveGridVariant::ClosestTempo),
        ActionRequest::SnapGridToTransient(SnapToTransientVariant::Unconstrained),
        ActionRequest::SnapGridToTransient(SnapToTransientVariant::Constrained),
        ActionRequest::SnapGridToTransient(SnapToTransientVariant::FullyConstrained),
        ActionRequest::MoveCursorLeftByMeasure,
        ActionRequest::MoveCursorRightByMeasure,
        ActionRequest::SplitItemsCrossfadeLeft,
        ActionRequest::ToggleTestToggle,
    ];
    assert(head@ =~= tempo_and_editing_requests());
    push_requests(&mut out, &head);
    let ghost after_head = out@;
    if f.session {
        let session = [
            ActionRequest::ShowModeMenu,
            ActionRequest::WindowDebug(WindowDebug::TopLevelWindowTitles),
            ActionRequest::WindowDebug(WindowDebug::ToolbarStates),
            ActionRequest::WindowDebug(WindowDebug::ToolbarCommandIds),
            ActionRequest::WindowDebug(WindowDebug::DockerPositions),
            ActionRequest::WindowDebug(WindowDebug::ToolbarAttachments),
            ActionRequest::WindowDebug(WindowDebug::OpenAllToolbars),
        ];
        assert(session@ =~= session_requests());
        push_requests(&mut out, &session);
    }
    assert(out@ =~= tempo_and_editing_requests() + (if f.session {
        session_requests()
    } else {
        Seq::empty()
    }));
    let middle = [
        ActionRequest::ToggleClockSync,
        ActionRequest::ToggleDriftCorrection,
        ActionRequest::SetMidiMode(MidiMode::Drums),
        ActionRequest::CycleMidiMode,
        ActionRequest::InsertFlam,
        ActionRequest::ShowInfo,
    ];
    assert(middle@ =~= sync_midi_info_requests());
    push_requests(&mut out, &middle);
    let ghost before_sigs = out@;
    let sigs = time_signatures();
    let mut i: usize = 0;
    while i < sigs.len()
        invariant
            i <= sigs@.len(),
            sigs@ == time_signature_list(),
            out@ == before_sigs + timesig_requests(sigs@.subrange(0, i as int)),
        decreases sigs.len() - i,
    {
        let (num, denom) = sigs[i];
        out.push(ActionRequest::InsertTimeSignature { num, denom });
        out.push(ActionRequest::InsertSingleMeasureTimeSignature { num, denom });
        proof {
            let pre = sigs@.subrange(0, i + 1);
            assert(pre.drop_last() =~= sigs@.subrange(0, i as int));
            assert(out@ =~= before_sigs + timesig_requests(pre));
        }
        i += 1;
    }
    assert(sigs@.subrange(0, sigs@.len() as int) =~= sigs@);
    let tail = [
        ActionRequest::ToggleVolumeBalancer,
        ActionRequest::LinkVolumeBalancer,
        ActionRequest::UnlinkVolumeBalancer,
    ];
    assert(tail@ =~= volume_balancer_requests());
    push_requests(&mut out, &tail);
    let ghost before_mirror = out@;
    if f.mirror {
        let mirror = [
            ActionRequest::LinkMirror,
            ActionRequest::UnlinkMirror,
            ActionRequest::RegenerateMirror,
            ActionRequest::ToggleMirror,
        ];
        assert(mirror@ =~= mirror_requests());
        push_requests(&mut out, &mirror);
    }
    assert(out@ =~= legacy_requests(f));
    out
}

/// Build the action table. The five move-grid actions are registered with
/// the continuous-action registry on the way, as they run until their
/// shortcut is released.
pub fn build_action_defs(f: ActionFeatures, reg: &mut ContinuousActions<MoveGridVariant>) -> (defs:
    Vec<ActionDef>)
    ensures
        defs@.map_values(|d: ActionDef| def_view(d)) == legacy_requests(f).map_values(
            |r: ActionRequest| def_of(r),
        ),
        final(reg)@.registered == old(reg)@.registered.insert(
            "FTS_TEMPO_MOVE_MEASURE_GRID_TO_MOUSE"@,
            MoveGridVariant::ClosestMeasure,
        ).insert(
            "FTS_TEMPO_MOVE_MEASURE_GRID_TO_MOUSE_CONSTRAINED"@,
            MoveGridVariant::ClosestMeasureConstrained,
        ).insert(
            "FTS_TEMPO_MOVE_MEASURE_GRID_TO_MOUSE_FULLY_CONSTRAINED"@,
            MoveGridVariant::ClosestMeasureFullyConstrained,
        ).insert("FTS_TEMPO_MOVE_GRID_TO_MOUSE"@, MoveGridVariant::ClosestGrid).insert(
            "FTS_TEMPO_MOVE_MARKER_TO_MOUSE"@,
            MoveGridVariant::ClosestTempo,
        ),
        final(reg)@.active == old(reg)@.active,
        final(reg)@.timer == old(reg)@.timer,
        final(reg)@.accel == old(reg)@.accel,
{
    register_move_grid_actions(reg);
    let requests = legacy_request_list(f);
    let mut defs: Vec<ActionDef> = Vec::new();
    let mut i: usize = 0;
    while i < requests.len()
        invariant
            i <= requests@.len(),
            requests@ == legacy_requests(f),
            defs@.map_values(|d: ActionDef| def_view(d)) == requests@.subrange(0, i as int).map_values(
                |r: ActionRequest| def_of(r),
            ),
        decreases requests.len() - i,
    {
        let d = action_def(requests[i]);
        let ghost before = defs@;
        defs.push(d);
        proof {
            assert(requests@.subrange(0, i + 1) =~= requests@.subrange(0, i as int).push(requests@[i as int]));
            assert(defs@.map_values(|d: ActionDef| def_view(d)) =~= before.map_values(
                |d: ActionDef| def_view(d),
            ).push(def_view(d)));
            assert(requests@.subrange(0, i + 1).map_values(|r: ActionRequest| def_of(r))
                =~= requests@.subrange(0, i as int).map_values(|r: ActionRequest| def_of(r)).push(
                def_of(requests@[i as int]),
            ));
        }
        i += 1;
    }
    assert(requests@.subrange(0, requests@.len() as int) =~= requests@);
    defs
}

/// The Extensions-menu entries of a table: the (id, display name) of every
/// action listed in the menu, in table order.
pub open spec fn menu_entries_of(defs: Seq<ActionDef>) -> Seq<(Seq<char>, Seq<char>)>
    decreases defs.len(),
{
    if defs.len() == 0 {
        Seq::empty()
    } else {
        let rest = menu_entries_of(defs.drop_last());
        if defs.last().show_in_menu {
            rest.push((defs.last().id@, defs.last().display_name@))
        } else {
            rest
        }
    }
}

/// Computes [`menu_entries_of`].
pub fn menu_entries(defs: &Vec<ActionDef>) -> (r: Vec<(String, String)>)
    ensures
        r@.map_values(|e: (String, String)| (e.0@, e.1@)) == menu_entries_of(defs@),
{
    let mut out: Vec<(String, String)> = Vec::new();
    let mut i: usize = 0;
    while i < defs.len()
        invariant
            i <= defs@.len(),
            out@.map_values(|e: (String, String)| (e.0@, e.1@)) == menu_entries_of(
                defs@.subrange(0, i as int),
            ),
        decreases defs.len() - i,
    {
        proof {
            assert(defs@.subrange(0, i + 1).drop_last() =~= defs@.subrange(0, i as int));
        }
        if defs[i].show_in_menu {
            let ghost before = out@;
            out.push((defs[i].id.clone(), defs[i].display_name.clone()));
            assert(out@.map_values(|e: (String, String)| (e.0@, e.1@)) =~= before.map_values(
                |e: (String, String)| (e.0@, e.1@),
            ).push((defs@[i as int].id@, defs@[i as int].display_name@)));
        }
        i += 1;
    }
    assert(defs@.subrange(0, defs@.len() as int) =~= defs@);
    out
}

/// The test toggle's state.
pub struct TestToggle {
    pub on: bool,
}

/// Flip the test toggle; the console message to show.
pub fn toggle_test_toggle_handler(t: &mut TestToggle) -> (msg: &'static str)
    ensures
        final(t).on == !old(t).on,
        msg@ == (if final(t).on {
            "FTS: Test Toggle on\n"@
        } else {
            "FTS: Test Toggle off\n"@
        }),
{
    t.on = !t.on;
    if t.on {
        "FTS: Test Toggle on\n"
    } else {
        "FTS: Test Toggle off\n"
    }
}

// ---------------------------------------------------------------------
// Command ids identify their request
// ---------------------------------------------------------------------

/// Which fixed-id request an id of that request belongs to, told apart by
/// its length and a few characters.
spec fn fixed_request_of_id(s: Seq<char>) -> Option<ActionRequest> {
    if s.len() == 8 {
        Some(ActionRequest::ShowInfo)
    } else if s.len() == 15 {
        Some(ActionRequest::ToggleTestToggle)
    } else if s.len() == 17 {
        if s[6] == 'D' {
            Some(ActionRequest::ShowModeMenu)
        } else if s[6] == 'L' {
            Some(ActionRequest::ToggleVolumeBalancer)
        } else {
            Some(ActionRequest::ToggleMirror)
        }
    } else if s.len() == 19 {
        if s[14] == 'I' {
            Some(ActionRequest::SmartDuplicate)
        } else if s[14] == 'D' {
            Some(ActionRequest::SetMidiMode(MidiMode::Drums))
        } else {
            Some(ActionRequest::CycleMidiMode)
        }
    } else if s.len() == 20 {
        Some(ActionRequest::InsertFlam)
    } else if s.len() == 21 {
        if s[4] == 'C' {
            Some(ActionRequest::ToggleClockSync)
        } else {
            Some(ActionRequest::RegenerateMirror)
        }
    } else if s.len() == 24 {
        if s[4] == 'V' {
            Some(ActionRequest::LinkVolumeBalancer)
        } else {
            Some(ActionRequest::LinkMirror)
        }
    } else if s.len() == 26 {
        if s[6] == 'D' {
            Some(ActionRequest::WindowDebug(WindowDebug::OpenAllToolbars))
        } else if s[6] == 'L' {
            Some(ActionRequest::UnlinkVolumeBalancer)
        } else {
            Some(ActionRequest::UnlinkMirror)
        }
    } else if s.len() == 27 {
        Some(ActionRequest::ToggleDriftCorrection)
    } else if s.len() == 28 {
        if s[4] == 'T' {
            Some(ActionRequest::MoveGrid(MoveGridVariant::ClosestGrid))
        } else {
            Some(ActionRequest::WindowDebug(WindowDebug::TopLevelWindowTitles))
        }
    } else if s.len() == 29 {
        Some(ActionRequest::WindowDebug(WindowDebug::ToolbarStates))
    } else if s.len() == 30 {
        if s[4] == 'T' {
            Some(ActionRequest::MoveGrid(MoveGridVariant::ClosestTempo))
        } else {
            Some(ActionRequest::SplitItemsCrossfadeLeft)
        }
    } else if s.len() == 31 {
        Some(ActionRequest::WindowDebug(WindowDebug::DockerPositions))
    } else if s.len() == 32 {
        Some(ActionRequest::SnapGridToTransient(SnapToTransientVariant::Unconstrained))
    } else if s.len() == 34 {
        if s[23] == 'C' {
            Some(ActionRequest::WindowDebug(WindowDebug::ToolbarCommandIds))
        } else {
            Some(ActionRequest::WindowDebug(WindowDebug::ToolbarAttachments))
        }
    } else if s.len() == 36 {
        Some(ActionRequest::MoveGrid(MoveGridVariant::ClosestMeasure))
    } else if s.len() == 44 {
        Some(ActionRequest::SnapGridToTransient(SnapToTransientVariant::Constrained))
    } else if s.len() == 48 {
        Some(ActionRequest::MoveGrid(MoveGridVariant::ClosestMeasureConstrained))
    } else if s.len() == 50 {
        Some(ActionRequest::SnapGridToTransient(SnapToTransientVariant::FullyConstrained))
    } else if s.len() == 54 {
        Some(ActionRequest::MoveGrid(MoveGridVariant::ClosestMeasureFullyConstrained))
    } else if s.len() == 55 {
        Some(ActionRequest::MoveCursorLeftByMeasure)
    } else if s.len() == 56 {
        Some(ActionRequest::MoveCursorRightByMeasure)
    } else {
        None
    }
}
/// The value of an optionally signed string of decimal digits.
spec fn signed_value(t: Seq<char>) -> int {
    if t.len() > 0 && t[0] == '-' {
        -(digits_value(t.drop_first()) as int)
    } else {
        digits_value(t) as int
    }
}

/// The insert request an id `FTS_TEMPO_INSERT_TIMESIG_<rest>` names.
spec fn timesig_request_of_id(rest: Seq<char>) -> Option<ActionRequest> {
    match find_first(rest, char_pred('_')) {
        None => None,
        Some(u) => {
            let num = signed_value(rest.take(u as int));
            let after = rest.skip(u as int + 1);
            match find_first(after, char_pred('_')) {
                None => Some(
                    ActionRequest::InsertTimeSignature { num: num as i32, denom: signed_value(after) as i32 },
                ),
                Some(v) => Some(
                    ActionRequest::InsertSingleMeasureTimeSignature {
                        num: num as i32,
                        denom: signed_value(after.take(v as int)) as i32,
                    },
                ),
            }
        },
    }
}

/// The request a command id names.
spec fn request_of_id(s: Seq<char>) -> Option<ActionRequest> {
    if s.len() >= 25 && s.take(25) == "FTS_TEMPO_INSERT_TIMESIG_"@ {
        timesig_request_of_id(s.skip(25))
    } else {
        fixed_request_of_id(s)
    }
}

proof fn lemma_signed_decimal(n: int)
    ensures
        signed_decimal(n).len() > 0,
        signed_value(signed_decimal(n)) == n,
        forall|j: int| 0 <= j < signed_decimal(n).len() ==> #[trigger] signed_decimal(n)[j] != '_',
{
    if n < 0 {
        let m = (-n) as nat;
        lemma_decimal_value(m);
        let s = signed_decimal(n);
        assert(s.drop_first() =~= decimal(m));
        assert forall|j: int| 0 <= j < s.len() implies #[trigger] s[j] != '_' by {
            if j > 0 {
                assert(s[j] == decimal(m)[j - 1]);
                assert(is_digit(decimal(m)[j - 1]));
            }
        }
    } else {
        lemma_decimal_value(n as nat);
        let s = signed_decimal(n);
        assert(is_digit(s[0]));
        assert forall|j: int| 0 <= j < s.len() implies #[trigger] s[j] != '_' by {
            assert(is_digit(s[j]));
        }
    }
}

/// `find_first(a + "_" + b, '_')` is the length of `a` when `a` holds no `_`.
proof fn lemma_first_underscore(a: Seq<char>, b: Seq<char>)
    requires
        forall|j: int| 0 <= j < a.len() ==> #[trigger] a[j] != '_',
    ensures
        find_first(a + seq!['_'] + b, char_pred('_')) == Some(a.len()),
{
    let s = a + seq!['_'] + b;
    assert forall|j: int| 0 <= j < a.len() implies !char_pred('_')(#[trigger] s[j]) by {
        assert(s[j] == a[j]);
    }
    assert(s[a.len() as int] == '_');
    lemma_find_first_at(s, char_pred('_'), a.len() as int);
}

proof fn lemma_no_underscore(a: Seq<char>)
    requires
        forall|j: int| 0 <= j < a.len() ==> #[trigger] a[j] != '_',
    ensures
        find_first(a, char_pred('_')) is None,
{
    assert forall|j: int| 0 <= j < a.len() implies !char_pred('_')(#[trigger] a[j]) by {}
    lemma_find_first_at(a, char_pred('_'), a.len() as int);
}

proof fn lemma_timesig_decodes(num: i32, denom: i32, single: bool)
    ensures
        ({
            let r = if single {
                ActionRequest::InsertSingleMeasureTimeSignature { num, denom }
            } else {
                ActionRequest::InsertTimeSignature { num, denom }
            };
            request_of_id(request_id(r)) == Some(r)
        }),
{
    let r = if single {
        ActionRequest::InsertSingleMeasureTimeSignature { num, denom }
    } else {
        ActionRequest::InsertTimeSignature { num, denom }
    };
    let p = "FTS_TEMPO_INSERT_TIMESIG_"@;
    reveal_strlit("FTS_TEMPO_INSERT_TIMESIG_");
    reveal_strlit("_");
    reveal_strlit("_SINGLE");
    let a = signed_decimal(num as int);
    let d = signed_decimal(denom as int);
    lemma_signed_decimal(num as int);
    lemma_signed_decimal(denom as int);
    let tail = if single {
        d + "_SINGLE"@
    } else {
        d
    };
    let s = request_id(r);
    assert(s =~= p + (a + seq!['_'] + tail));
    assert(s.take(25) =~= p);
    let rest = s.skip(25);
    assert(rest =~= a + seq!['_'] + tail);
    lemma_first_underscore(a, tail);
    assert(rest.take(a.len() as int) =~= a);
    let after = rest.skip(a.len() as int + 1);
    assert(after =~= tail);
    if single {
        assert("_SINGLE"@ =~= seq!['_'] + "SINGLE"@) by {
            reveal_strlit("SINGLE");
        }
        assert(tail =~= d + seq!['_'] + "SINGLE"@);
        lemma_first_underscore(d, "SINGLE"@);
        assert(after.take(d.len() as int) =~= d);
    } else {
        lemma_no_underscore(d);
    }
}

/// Every request is named by its command id.
proof fn lemma_request_decodes(r: ActionRequest)
    ensures
        request_of_id(request_id(r)) == Some(r),
{
    reveal_strlit("FTS_TEMPO_INSERT_TIMESIG_");
    match r {
        ActionRequest::InsertTimeSignature { num, denom } => lemma_timesig_decodes(num, denom, false),
        ActionRequest::InsertSingleMeasureTimeSignature { num, denom } => lemma_timesig_decodes(
            num,
            denom,
            true,
        ),
        ActionRequest::MoveGrid(MoveGridVariant::ClosestMeasure) => {
            let s = request_id(r);
            reveal_strlit("FTS_TEMPO_MOVE_MEASURE_GRID_TO_MOUSE");
            assert(s.take(25)[10] != "FTS_TEMPO_INSERT_TIMESIG_"@[10]);
        },
        ActionRequest::MoveGrid(MoveGridVariant::ClosestMeasureConstrained) => {
            let s = request_id(r);
            reveal_strlit("FTS_TEMPO_MOVE_MEASURE_GRID_TO_MOUSE_CONSTRAINED");
            assert(s.take(25)[10] != "FTS_TEMPO_INSERT_TIMESIG_"@[10]);
        },
        ActionRequest::MoveGrid(MoveGridVariant::ClosestMeasureFullyConstrained) => {
            let s = request_id(r);
            reveal_strlit("FTS_TEMPO_MOVE_MEASURE_GRID_TO_MOUSE_FULLY_CONSTRAINED");
            assert(s.take(25)[10] != "FTS_TEMPO_INSERT_TIMESIG_"@[10]);
        },
        ActionRequest::MoveGrid(MoveGridVariant::ClosestGrid) => {
            let s = request_id(r);
            reveal_strlit("FTS_TEMPO_MOVE_GRID_TO_MOUSE");
            assert(s.take(25)[10] != "FTS_TEMPO_INSERT_TIMESIG_"@[10]);
            assert(s[4] == 'T');
        },
        ActionRequest::MoveGrid(MoveGridVariant::ClosestTempo) => {
            let s = request_id(r);
            reveal_strlit("FTS_TEMPO_MOVE_MARKER_TO_MOUSE");
            assert(s.take(25)[10] != "FTS_TEMPO_INSERT_TIMESIG_"@[10]);
            assert(s[4] == 'T');
        },
        ActionRequest::SnapGridToTransient(SnapToTransientVariant::Unconstrained) => {
            let s = request_id(r);
            reveal_strlit("FTS_TEMPO_SNAP_GRID_TO_TRANSIENT");
            assert(s.take(25)[10] != "FTS_TEMPO_INSERT_TIMESIG_"@[10]);
        },
        ActionRequest::SnapGridToTransient(SnapToTransientVariant::Constrained) => {
            let s = request_id(r);
            reveal_strlit("FTS_TEMPO_SNAP_GRID_TO_TRANSIENT_CONSTRAINED");
            assert(s.take(25)[10] != "FTS_TEMPO_INSERT_TIMESIG_"@[10]);
        },
        ActionRequest::SnapGridToTransient(SnapToTransientVariant::FullyConstrained) => {
            let s = request_id(r);
            reveal_strlit("FTS_TEMPO_SNAP_GRID_TO_TRANSIENT_FULLY_CONSTRAINED");
            assert(s.take(25)[10] != "FTS_TEMPO_INSERT_TIMESIG_"@[10]);
        },
        ActionRequest::MoveCursorLeftByMeasure => {
            let s = request_id(r);
            reveal_strlit("FTS_MOVE_CURSOR_LEFT_CREATING_TIME_SELECTION_BY_MEASURE");
            assert(s.take(25)[4] != "FTS_TEMPO_INSERT_TIMESIG_"@[4]);
        },
        ActionRequest::MoveCursorRightByMeasure => {
            let s = request_id(r);
            reveal_strlit("FTS_MOVE_CURSOR_RIGHT_CREATING_TIME_SELECTION_BY_MEASURE");
            assert(s.take(25)[4] != "FTS_TEMPO_INSERT_TIMESIG_"@[4]);
        },
        ActionRequest::SplitItemsCrossfadeLeft => {
            let s = request_id(r);
            reveal_strlit("FTS_SPLIT_ITEMS_CROSSFADE_LEFT");
            assert(s.take(25)[4] != "FTS_TEMPO_INSERT_TIMESIG_"@[4]);
            assert(s[4] == 'S');
        },
        ActionRequest::SmartDuplicate => {
            let s = request_id(r);
            reveal_strlit("FTS_SMART_DUPLICATE");
            assert(s[14] == 'I');
        },
        ActionRequest::ToggleTestToggle => {
            let s = request_id(r);
            reveal_strlit("FTS_TEST_TOGGLE");
        },
        ActionRequest::ShowModeMenu => {
            let s = request_id(r);
            reveal_strlit("FTS_MODE_SELECTOR");
            assert(s[6] == 'D');
        },
        ActionRequest::WindowDebug(WindowDebug::TopLevelWindowTitles) => {
            let s = request_id(r);
            reveal_strlit("FTS_MODE_DEBUG_WINDOW_TITLES");
            assert(s.take(25)[4] != "FTS_TEMPO_INSERT_TIMESIG_"@[4]);
            assert(s[4] == 'M');
        },
        ActionRequest::WindowDebug(WindowDebug::ToolbarStates) => {
            let s = request_id(r);
            reveal_strlit("FTS_MODE_DEBUG_TOOLBAR_STATES");
            assert(s.take(25)[4] != "FTS_TEMPO_INSERT_TIMESIG_"@[4]);
        },
        ActionRequest::WindowDebug(WindowDebug::ToolbarCommandIds) => {
            let s = request_id(r);
            reveal_strlit("FTS_MODE_DEBUG_TOOLBAR_COMMAND_IDS");
            assert(s.take(25)[4] != "FTS_TEMPO_INSERT_TIMESIG_"@[4]);
            assert(s[23] == 'C');
        },
        ActionRequest::WindowDebug(WindowDebug::DockerPositions) => {
            let s = request_id(r);
            reveal_strlit("FTS_MODE_DEBUG_DOCKER_POSITIONS");
            assert(s.take(25)[4] != "FTS_TEMPO_INSERT_TIMESIG_"@[4]);
        },
        ActionRequest::WindowDebug(WindowDebug::ToolbarAttachments) => {
            let s = request_id(r);
            reveal_strlit("FTS_MODE_DEBUG_TOOLBAR_ATTACHMENTS");
            assert(s.take(25)[4] != "FTS_TEMPO_INSERT_TIMESIG_"@[4]);
            assert(s[23] == 'A');
        },
        ActionRequest::WindowDebug(WindowDebug::OpenAllToolbars) => {
            let s = request_id(r);
            reveal_strlit("FTS_MODE_OPEN_ALL_TOOLBARS");
            assert(s.take(25)[4] != "FTS_TEMPO_INSERT_TIMESIG_"@[4]);
            assert(s[6] == 'D');
        },
        ActionRequest::ToggleClockSync => {
            let s = request_id(r);
            reveal_strlit("FTS_CLOCK_SYNC_TOGGLE");
            assert(s[4] == 'C');
        },
        ActionRequest::ToggleDriftCorrection => {
            let s = request_id(r);
            reveal_strlit("FTS_DRIFT_CORRECTION_TOGGLE");
            assert(s.take(25)[4] != "FTS_TEMPO_INSERT_TIMESIG_"@[4]);
        },
        ActionRequest::SetMidiMode(MidiMode::Drums) => {
            let s = request_id(r);
            reveal_strlit("FTS_MIDI_MODE_DRUMS");
            assert(s[14] == 'D');
        },
        ActionRequest::CycleMidiMode => {
            let s = request_id(r);
            reveal_strlit("FTS_MIDI_MODE_CYCLE");
            assert(s[14] == 'C');
        },
        ActionRequest::InsertFlam => {
            let s = request_id(r);
            reveal_strlit("FTS_MIDI_INSERT_FLAM");
        },
        ActionRequest::ShowInfo => {
            let s = request_id(r);
            reveal_strlit("FTS_INFO");
        },
        ActionRequest::ToggleVolumeBalancer => {
            let s = request_id(r);
            reveal_strlit("FTS_VOLBAL_TOGGLE");
            assert(s[6] == 'L');
        },
        ActionRequest::LinkVolumeBalancer => {
            let s = request_id(r);
            reveal_strlit("FTS_VOLBAL_LINK_SELECTED");
            assert(s[4] == 'V');
        },
        ActionRequest::UnlinkVolumeBalancer => {
            let s = request_id(r);
            reveal_strlit("FTS_VOLBAL_UNLINK_SELECTED");
            assert(s.take(25)[4] != "FTS_TEMPO_INSERT_TIMESIG_"@[4]);
            assert(s[6] == 'L');
        },
        ActionRequest::LinkMirror => {
            let s = request_id(r);
            reveal_strlit("FTS_MIRROR_LINK_SELECTED");
            assert(s[4] == 'M');
        },
        ActionRequest::UnlinkMirror => {
            let s = request_id(r);
            reveal_strlit("FTS_MIRROR_UNLINK_SELECTED");
            assert(s.take(25)[4] != "FTS_TEMPO_INSERT_TIMESIG_"@[4]);
            assert(s[6] == 'R');
        },
        ActionRequest::RegenerateMirror => {
            let s = request_id(r);
            reveal_strlit("FTS_MIRROR_REGENERATE");
            assert(s[4] == 'M');
        },
        ActionRequest::ToggleMirror => {
            let s = request_id(r);
            reveal_strlit("FTS_MIRROR_TOGGLE");
            assert(s[6] == 'R');
        },
    }
}

/// Distinct requests have distinct command ids: a command id names exactly
/// one action.
pub proof fn law_request_ids_injective(a: ActionRequest, b: ActionRequest)
    requires
        a != b,
    ensures
        request_id(a) != request_id(b),
{
    lemma_request_decodes(a);
    lemma_request_decodes(b);
}

/// Every command id is under the `FTS_` namespace.
pub proof fn law_ids_in_fts_namespace(r: ActionRequest)
    ensures
        request_id(r).len() >= 4,
        request_id(r).take(4) == "FTS_"@,
{
    reveal_strlit("FTS_");
    reveal_strlit("FTS_TEMPO_INSERT_TIMESIG_");
    match r {
        ActionRequest::InsertTimeSignature { num, denom } => {
            assert(request_id(r).take(4) =~= "FTS_"@);
        },
        ActionRequest::InsertSingleMeasureTimeSignature { num, denom } => {
            assert(request_id(r).take(4) =~= "FTS_"@);
        },
        ActionRequest::MoveGrid(MoveGridVariant::ClosestMeasure) => {
            reveal_strlit("FTS_TEMPO_MOVE_MEASURE_GRID_TO_MOUSE");
            assert(request_id(r).take(4) =~= "FTS_"@);
        },
        ActionRequest::MoveGrid(MoveGridVariant::ClosestMeasureConstrained) => {
            reveal_strlit("FTS_TEMPO_MOVE_MEASURE_GRID_TO_MOUSE_CONSTRAINED");
            assert(request_id(r).take(4) =~= "FTS_"@);
        },
        ActionRequest::MoveGrid(MoveGridVariant::ClosestMeasureFullyConstrained) => {
            reveal_strlit("FTS_TEMPO_MOVE_MEASURE_GRID_TO_MOUSE_FULLY_CONSTRAINED");
            assert(request_id(r).take(4) =~= "FTS_"@);
        },
        ActionRequest::MoveGrid(MoveGridVariant::ClosestGrid) => {
            reveal_strlit("FTS_TEMPO_MOVE_GRID_TO_MOUSE");
            assert(request_id(r).take(4) =~= "FTS_"@);
        },
        ActionRequest::MoveGrid(MoveGridVariant::ClosestTempo) => {
            reveal_strlit("FTS_TEMPO_MOVE_MARKER_TO_MOUSE");
            assert(request_id(r).take(4) =~= "FTS_"@);
        },
        ActionRequest::SnapGridToTransient(SnapToTransientVariant::Unconstrained) => {
            reveal_strlit("FTS_TEMPO_SNAP_GRID_TO_TRANSIENT");
            assert(request_id(r).take(4) =~= "FTS_"@);
        },
        ActionRequest::SnapGridToTransient(SnapToTransientVariant::Constrained) => {
            reveal_strlit("FTS_TEMPO_SNAP_GRID_TO_TRANSIENT_CONSTRAINED");
            assert(request_id(r).take(4) =~= "FTS_"@);
        },
        ActionRequest::SnapGridToTransient(SnapToTransientVariant::FullyConstrained) => {
            reveal_strlit("FTS_TEMPO_SNAP_GRID_TO_TRANSIENT_FULLY_CONSTRAINED");
            assert(request_id(r).take(4) =~= "FTS_"@);
        },
        ActionRequest::MoveCursorLeftByMeasure => {
            reveal_strlit("FTS_MOVE_CURSOR_LEFT_CREATING_TIME_SELECTION_BY_MEASURE");
            assert(request_id(r).take(4) =~= "FTS_"@);
        },
        ActionRequest::MoveCursorRightByMeasure => {
            reveal_strlit("FTS_MOVE_CURSOR_RIGHT_CREATING_TIME_SELECTION_BY_MEASURE");
            assert(request_id(r).take(4) =~= "FTS_"@);
        },
        ActionRequest::SplitItemsCrossfadeLeft => {
            reveal_strlit("FTS_SPLIT_ITEMS_CROSSFADE_LEFT");
            assert(request_id(r).take(4) =~= "FTS_"@);
        },
        ActionRequest::SmartDuplicate => {
            reveal_strlit("FTS_SMART_DUPLICATE");
            assert(request_id(r).take(4) =~= "FTS_"@);
        },
        ActionRequest::ToggleTestToggle => {
            reveal_strlit("FTS_TEST_TOGGLE");
            assert(request_id(r).take(4) =~= "FTS_"@);
        },
        ActionRequest::ShowModeMenu => {
            reveal_strlit("FTS_MODE_SELECTOR");
            assert(request_id(r).take(4) =~= "FTS_"@);
        },
        ActionRequest::WindowDebug(WindowDebug::TopLevelWindowTitles) => {
            reveal_strlit("FTS_MODE_DEBUG_WINDOW_TITLES");
            assert(request_id(r).take(4) =~= "FTS_"@);
        },
        ActionRequest::WindowDebug(WindowDebug::ToolbarStates) => {
            reveal_strlit("FTS_MODE_DEBUG_TOOLBAR_STATES");
            assert(request_id(r).take(4) =~= "FTS_"@);
        },
        ActionRequest::WindowDebug(WindowDebug::ToolbarCommandIds) => {
            reveal_strlit("FTS_MODE_DEBUG_TOOLBAR_COMMAND_IDS");
            assert(request_id(r).take(4) =~= "FTS_"@);
        },
        ActionRequest::WindowDebug(WindowDebug::DockerPositions) => {
            reveal_strlit("FTS_MODE_DEBUG_DOCKER_POSITIONS");
            assert(request_id(r).take(4) =~= "FTS_"@);
        },
        ActionRequest::WindowDebug(WindowDebug::ToolbarAttachments) => {
            reveal_strlit("FTS_MODE_DEBUG_TOOLBAR_ATTACHMENTS");
            assert(request_id(r).take(4) =~= "FTS_"@);
        },
        ActionRequest::WindowDebug(WindowDebug::OpenAllToolbars) => {
            reveal_strlit("FTS_MODE_OPEN_ALL_TOOLBARS");
            assert(request_id(r).take(4) =~= "FTS_"@);
        },
        ActionRequest::ToggleClockSync => {
            reveal_strlit("FTS_CLOCK_SYNC_TOGGLE");
            assert(request_id(r).take(4) =~= "FTS_"@);
        },
        ActionRequest::ToggleDriftCorrection => {
            reveal_strlit("FTS_DRIFT_CORRECTION_TOGGLE");
            assert(request_id(r).take(4) =~= "FTS_"@);
        },
        ActionRequest::SetMidiMode(MidiMode::Drums) => {
            reveal_strlit("FTS_MIDI_MODE_DRUMS");
            assert(request_id(r).take(4) =~= "FTS_"@);
        },
        ActionRequest::CycleMidiMode => {
            reveal_strlit("FTS_MIDI_MODE_CYCLE");
            assert(request_id(r).take(4) =~= "FTS_"@);
        },
        ActionRequest::InsertFlam => {
            reveal_strlit("FTS_MIDI_INSERT_FLAM");
            assert(request_id(r).take(4) =~= "FTS_"@);
        },
        ActionRequest::ShowInfo => {
            reveal_strlit("FTS_INFO");
            assert(request_id(r).take(4) =~= "FTS_"@);
        },
        ActionRequest::ToggleVolumeBalancer => {
            reveal_strlit("FTS_VOLBAL_TOGGLE");
            assert(request_id(r).take(4) =~= "FTS_"@);
        },
        ActionRequest::LinkVolumeBalancer => {
            reveal_strlit("FTS_VOLBAL_LINK_SELECTED");
            assert(request_id(r).take(4) =~= "FTS_"@);
        },
        ActionRequest::UnlinkVolumeBalancer => {
            reveal_strlit("FTS_VOLBAL_UNLINK_SELECTED");
            assert(request_id(r).take(4) =~= "FTS_"@);
        },
        ActionRequest::LinkMirror => {
            reveal_strlit("FTS_MIRROR_LINK_SELECTED");
            assert(request_id(r).take(4) =~= "FTS_"@);
        },
        ActionRequest::UnlinkMirror => {
            reveal_strlit("FTS_MIRROR_UNLINK_SELECTED");
            assert(request_id(r).take(4) =~= "FTS_"@);
        },
        ActionRequest::RegenerateMirror => {
            reveal_strlit("FTS_MIRROR_REGENERATE");
            assert(request_id(r).take(4) =~= "FTS_"@);
        },
        ActionRequest::ToggleMirror => {
            reveal_strlit("FTS_MIRROR_TOGGLE");
            assert(request_id(r).take(4) =~= "FTS_"@);
        },
    }
}

/// A position of each request in the table's order, used to show that the
/// table lists no request twice.
spec fn table_rank(r: ActionRequest) -> int {
    match r {
        ActionRequest::MoveGrid(v) => match v {
            MoveGridVariant::ClosestMeasure => 0,
            MoveGridVariant::ClosestMeasureConstrained => 1,
            MoveGridVariant::ClosestMeasureFullyConstrained => 2,
            MoveGridVariant::ClosestGrid => 3,
            MoveGridVariant::ClosestTempo => 4,
        },
        ActionRequest::SnapGridToTransient(v) => match v {
            SnapToTransientVariant::Unconstrained => 5,
            SnapToTransientVariant::Constrained => 6,
            SnapToTransientVariant::FullyConstrained => 7,
        },
        ActionRequest::MoveCursorLeftByMeasure => 8,
        ActionRequest::MoveCursorRightByMeasure => 9,
        ActionRequest::SplitItemsCrossfadeLeft => 10,
        ActionRequest::ToggleTestToggle => 11,
        ActionRequest::ShowModeMenu => 12,
        ActionRequest::WindowDebug(d) => match d {
            WindowDebug::TopLevelWindowTitles => 13,
            WindowDebug::ToolbarStates => 14,
            WindowDebug::ToolbarCommandIds => 15,
            WindowDebug::DockerPositions => 16,
            WindowDebug::ToolbarAttachments => 17,
            WindowDebug::OpenAllToolbars => 18,
        },
        ActionRequest::ToggleClockSync => 19,
        ActionRequest::ToggleDriftCorrection => 20,
        ActionRequest::SetMidiMode(_) => 21,
        ActionRequest::CycleMidiMode => 22,
        ActionRequest::InsertFlam => 23,
        ActionRequest::ShowInfo => 24,
        ActionRequest::InsertTimeSignature { num, denom } => 1000 + denom * 1000 + num * 2,
        ActionRequest::InsertSingleMeasureTimeSignature { num, denom } => 1000 + denom * 1000 + num
            * 2 + 1,
        ActionRequest::ToggleVolumeBalancer => 100000,
        ActionRequest::LinkVolumeBalancer => 100001,
        ActionRequest::UnlinkVolumeBalancer => 100002,
        ActionRequest::LinkMirror => 100003,
        ActionRequest::UnlinkMirror => 100004,
        ActionRequest::RegenerateMirror => 100005,
        ActionRequest::ToggleMirror => 100006,
        ActionRequest::SmartDuplicate => 100007,
    }
}

spec fn steps_up(s: Seq<ActionRequest>, i: int) -> bool {
    table_rank(s[i]) < table_rank(s[i + 1])
}

spec fn ascending(s: Seq<ActionRequest>) -> bool {
    forall|i: int| 0 <= i < s.len() - 1 ==> #[trigger] steps_up(s, i)
}

proof fn lemma_ascending_sorted(s: Seq<ActionRequest>)
    requires
        ascending(s),
    ensures
        forall|i: int, j: int| 0 <= i < j < s.len() ==> table_rank(s[i]) < table_rank(s[j]),
    decreases s.len(),
{
    if s.len() > 1 {
        let t = s.drop_last();
        assert forall|i: int| 0 <= i < t.len() - 1 implies #[trigger] steps_up(t, i) by {
            assert(steps_up(s, i));
        }
        lemma_ascending_sorted(t);
        assert forall|i: int, j: int| 0 <= i < j < s.len() implies table_rank(s[i]) < table_rank(
            s[j],
        ) by {
            if j == s.len() - 1 {
                assert(steps_up(s, j - 1));
                if i < j - 1 {
                    assert(table_rank(t[i]) < table_rank(t[j - 1]));
                }
            } else {
                assert(table_rank(t[i]) < table_rank(t[j]));
            }
        }
    }
}

proof fn lemma_ascending_concat(a: Seq<ActionRequest>, b: Seq<ActionRequest>)
    requires
        ascending(a),
        ascending(b),
        a.len() > 0 && b.len() > 0 ==> table_rank(a.last()) < table_rank(b[0]),
    ensures
        ascending(a + b),
{
    let s = a + b;
    assert forall|i: int| 0 <= i < s.len() - 1 implies #[trigger] steps_up(s, i) by {
        if i < a.len() - 1 {
            assert(steps_up(a, i));
        } else if i == a.len() - 1 {
        } else {
            assert(steps_up(b, i - a.len()));
        }
    }
}

proof fn lemma_timesig_ascending(sigs: Seq<(i32, i32)>)
    requires
        forall|i: int| 0 <= i < sigs.len() ==> 0 <= #[trigger] sigs[i].0 < 400,
        forall|i: int, j: int|
            0 <= i < j < sigs.len() ==> sigs[i].1 < sigs[j].1 || (sigs[i].1 == sigs[j].1
                && sigs[i].0 < sigs[j].0),
    ensures
        ascending(timesig_requests(sigs)),
        sigs.len() > 0 ==> table_rank(timesig_requests(sigs)[0]) == 1000 + sigs[0].1 * 1000
            + sigs[0].0 * 2,
        sigs.len() > 0 ==> table_rank(timesig_requests(sigs).last()) == 1000 + sigs.last().1
            * 1000 + sigs.last().0 * 2 + 1,
        timesig_requests(sigs).len() == 2 * sigs.len(),
    decreases sigs.len(),
{
    if sigs.len() > 0 {
        let t = sigs.drop_last();
        let l = sigs.last();
        assert(0 <= sigs[sigs.len() - 1].0);
        lemma_timesig_ascending(t);
        let pair = seq![
            ActionRequest::InsertTimeSignature { num: l.0, denom: l.1 },
            ActionRequest::InsertSingleMeasureTimeSignature { num: l.0, denom: l.1 },
        ];
        assert(ascending(pair)) by {
            assert forall|i: int| 0 <= i < pair.len() - 1 implies #[trigger] steps_up(pair, i) by {}
        }
        if t.len() > 0 {
            let p = t.last();
            assert(p == sigs[t.len() - 1]);
            assert(0 <= sigs[t.len() - 1].0);
            assert(p.1 < l.1 || (p.1 == l.1 && p.0 < l.0));
            if p.1 < l.1 {
                assert(p.1 * 1000 + 1000 <= l.1 * 1000) by (nonlinear_arith)
                    requires
                        p.1 < l.1,
                ;
            }
        }
        lemma_ascending_concat(timesig_requests(t), pair);
        if t.len() > 0 {
            assert(timesig_requests(sigs)[0] == timesig_requests(t)[0]);
        }
    }
}

proof fn lemma_table_ascending(f: ActionFeatures)
    ensures
        ascending(legacy_requests(f)),
{
    let head = tempo_and_editing_requests();
    assert(ascending(head)) by {
        assert forall|i: int| 0 <= i < head.len() - 1 implies #[trigger] steps_up(head, i) by {}
    }
    let session = session_requests();
    assert(ascending(session)) by {
        assert forall|i: int| 0 <= i < session.len() - 1 implies #[trigger] steps_up(session, i) by {}
    }
    let sync = sync_midi_info_requests();
    assert(ascending(sync)) by {
        assert forall|i: int| 0 <= i < sync.len() - 1 implies #[trigger] steps_up(sync, i) by {}
    }
    let vb = volume_balancer_requests();
    assert(ascending(vb)) by {
        assert forall|i: int| 0 <= i < vb.len() - 1 implies #[trigger] steps_up(vb, i) by {}
    }
    let mirror = mirror_requests();
    assert(ascending(mirror)) by {
        assert forall|i: int| 0 <= i < mirror.len() - 1 implies #[trigger] steps_up(mirror, i) by {}
    }
    let empty = Seq::<ActionRequest>::empty();
    assert(ascending(empty));
    let sigs = time_signature_list();
    lemma_timesig_ascending(sigs);
    let ts = timesig_requests(sigs);
    let s1 = if f.session {
        session
    } else {
        empty
    };
    let m = if f.mirror {
        mirror
    } else {
        empty
    };
    lemma_ascending_concat(head, s1);
    let a1 = head + s1;
    assert(a1.last() == if f.session {
        session.last()
    } else {
        head.last()
    });
    lemma_ascending_concat(a1, sync);
    let a2 = a1 + sync;
    lemma_ascending_concat(a2, ts);
    let a3 = a2 + ts;
    lemma_ascending_concat(a3, vb);
    let a4 = a3 + vb;
    lemma_ascending_concat(a4, m);
    assert(legacy_requests(f) =~= a4 + m);
}

/// The action table registers each command id once.
pub proof fn law_table_ids_unique(f: ActionFeatures)
    ensures
        forall|i: int, j: int|
            0 <= i < j < legacy_requests(f).len() ==> request_id(legacy_requests(f)[i])
                != request_id(legacy_requests(f)[j]),
{
    let s = legacy_requests(f);
    lemma_table_ascending(f);
    lemma_ascending_sorted(s);
    assert forall|i: int, j: int| 0 <= i < j < s.len() implies request_id(s[i]) != request_id(s[j]) by {
        law_request_ids_injective(s[i], s[j]);
    }
}

} // verus!
