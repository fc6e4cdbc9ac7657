//! The MIDI tools panels (velocity and arpeggiator) and their actions.
//! Both float, render natively and are toggled by an action of the same
//! id, listed in the Extensions menu and also registered in the MIDI
//! editor's action section (so MIDI-editor toolbars and keys reach it).
use vstd::prelude::*;
use crate::panel::{
    panel_action_view, panel_view, DockPosition, PanelActionDef, PanelDef, PanelRenderer, PanelView,
};

verus! {

pub open spec fn midi_tools_panels() -> Seq<PanelView> {
    seq![
        (
            "FTS_MIDI_VELOCITY"@,
            "MIDI Velocity"@,
            DockPosition::Floating,
            PanelRenderer::Native,
            (520u32, 760u32),
            Some("FTS_MIDI_VELOCITY"@),
        ),
        (
            "FTS_MIDI_ARP"@,
            "MIDI Arpeggiator"@,
            DockPosition::Floating,
            PanelRenderer::Native,
            (520u32, 700u32),
            Some("FTS_MIDI_ARP"@),
        ),
    ]
}

pub open spec fn midi_tools_actions() -> Seq<(Seq<char>, Seq<char>, Seq<char>, bool)> {
    seq![
        ("FTS_MIDI_VELOCITY"@, "FTS: MIDI Velocity"@, "FTS_MIDI_VELOCITY"@, true),
        ("FTS_MIDI_ARP"@, "FTS: MIDI Arpeggiator"@, "FTS_MIDI_ARP"@, true),
    ]
}

/// The velocity panel (tall and narrow: it sits beside a MIDI editor) and
/// the arpeggiator panel.
pub fn panel_defs() -> (r: [PanelDef; 2])
    ensures
        r@.map_values(|p: PanelDef| panel_view(p)) == midi_tools_panels(),
{
    let r = [
        PanelDef {
            id: "FTS_MIDI_VELOCITY",
            title: "MIDI Velocity",
            default_dock: DockPosition::Floating,
            renderer: PanelRenderer::Native,
            default_size: (520, 760),
            toggle_action: Some("FTS_MIDI_VELOCITY"),
        },
        PanelDef {
            id: "FTS_MIDI_ARP",
            title: "MIDI Arpeggiator",
            default_dock: DockPosition::Floating,
            renderer: PanelRenderer::Native,
            default_size: (520, 700),
            toggle_action: Some("FTS_MIDI_ARP"),
        },
    ];
    assert(r@.map_values(|p: PanelDef| panel_view(p)) =~= midi_tools_panels());
    r
}

/// The actions toggling the two panels, listed in the Extensions menu.
pub fn action_defs() -> (r: [PanelActionDef; 2])
    ensures
        r@.map_values(|a: PanelActionDef| panel_action_view(a)) == midi_tools_actions(),
{
    let r = [
        PanelActionDef {
            id: "FTS_MIDI_VELOCITY",
            display_name: "FTS: MIDI Velocity",
            panel: "FTS_MIDI_VELOCITY",
            in_menu: true,
        },
        PanelActionDef {
            id: "FTS_MIDI_ARP",
            display_name: "FTS: MIDI Arpeggiator",
            panel: "FTS_MIDI_ARP",
            in_menu: true,
        },
    ];
    assert(r@.map_values(|a: PanelActionDef| panel_action_view(a)) =~= midi_tools_actions());
    r
}

/// The same two actions for the MIDI editor section: (command name,
/// label, panel toggled). The command names are those of the main
/// registration, whose command ids and handlers they reuse.
pub fn midi_editor_section_actions() -> (r: [(&'static str, &'static str, &'static str); 2])
    ensures
        r@.map_values(|a: (&'static str, &'static str, &'static str)| (a.0@, a.1@, a.2@, true))
            == midi_tools_actions(),
{
    let r = [
        ("FTS_MIDI_VELOCITY", "FTS: MIDI Velocity", "FTS_MIDI_VELOCITY"),
        ("FTS_MIDI_ARP", "FTS: MIDI Arpeggiator", "FTS_MIDI_ARP"),
    ];
    assert(r@.map_values(|a: (&'static str, &'static str, &'static str)| (a.0@, a.1@, a.2@, true))
        =~= midi_tools_actions());
    r
}

/// Each panel is toggled by the action of its own id, and that action
/// toggles it.
pub proof fn law_panels_toggle_themselves(i: int)
    requires
        0 <= i < 2,
    ensures
        midi_tools_panels()[i].5 == Some(midi_tools_actions()[i].0),
        midi_tools_actions()[i].2 == midi_tools_panels()[i].0,
{
}

} // verus!
