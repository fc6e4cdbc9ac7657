//! The UI component showcase panel, in the native and the desktop
//! renderer, each toggled by its own action listed in the Extensions menu.
use vstd::prelude::*;
use crate::panel::{
    panel_action_view, panel_view, DockPosition, PanelActionDef, PanelDef, PanelRenderer, PanelView,
};

verus! {

pub open spec fn ui_test_panels() -> Seq<PanelView> {
    seq![
        (
            "FTS_UI_NATIVE"@,
            "FTS UI Native"@,
            DockPosition::Floating,
            PanelRenderer::Native,
            (900u32, 700u32),
            Some("fts-ui-native"@),
        ),
        (
            "FTS_UI_DESKTOP"@,
            "FTS UI Desktop"@,
            DockPosition::Floating,
            PanelRenderer::Desktop,
            (900u32, 700u32),
            Some("fts-ui-desktop"@),
        ),
    ]
}

pub open spec fn ui_test_actions() -> Seq<(Seq<char>, Seq<char>, Seq<char>, bool)> {
    seq![
        ("fts-ui-native"@, "FTS: UI Native"@, "FTS_UI_NATIVE"@, true),
        ("fts-ui-desktop"@, "FTS: UI Desktop"@, "FTS_UI_DESKTOP"@, true),
    ]
}

/// The showcase panel in each renderer.
pub fn panel_defs() -> (r: [PanelDef; 2])
    ensures
        r@.map_values(|p: PanelDef| panel_view(p)) == ui_test_panels(),
{
    let r = [
        PanelDef {
            id: "FTS_UI_NATIVE",
            title: "FTS UI Native",
            default_dock: DockPosition::Floating,
            renderer: PanelRenderer::Native,
            default_size: (900, 700),
            toggle_action: Some("fts-ui-native"),
        },
        PanelDef {
            id: "FTS_UI_DESKTOP",
            title: "FTS UI Desktop",
            default_dock: DockPosition::Floating,
            renderer: PanelRenderer::Desktop,
            default_size: (900, 700),
            toggle_action: Some("fts-ui-desktop"),
        },
    ];
    assert(r@.map_values(|p: PanelDef| panel_view(p)) =~= ui_test_panels());
    r
}

/// The actions toggling the two panels.
pub fn action_defs() -> (r: [PanelActionDef; 2])
    ensures
        r@.map_values(|a: PanelActionDef| panel_action_view(a)) == ui_test_actions(),
{
    let r = [
        PanelActionDef {
            id: "fts-ui-native",
            display_name: "FTS: UI Native",
            panel: "FTS_UI_NATIVE",
            in_menu: true,
        },
        PanelActionDef {
            id: "fts-ui-desktop",
            display_name: "FTS: UI Desktop",
            panel: "FTS_UI_DESKTOP",
            in_menu: true,
        },
    ];
    assert(r@.map_values(|a: PanelActionDef| panel_action_view(a)) =~= ui_test_actions());
    r
}

/// Each panel's toggle action is the action that toggles it.
pub proof fn law_panels_toggled_by_their_action(i: int)
    requires
        0 <= i < 2,
    ensures
        ui_test_panels()[i].5 == Some(ui_test_actions()[i].0),
        ui_test_actions()[i].2 == ui_test_panels()[i].0,
{
}

} // verus!
