//! Dockable panels and the actions that toggle them.
use vstd::prelude::*;

verus! {

/// Where a panel docks by default.
#[derive(Debug, Clone, Copy, PartialEq, Eq, Structural)]
pub enum DockPosition {
    Floating,
}

/// How a panel is rendered.
#[derive(Debug, Clone, Copy, PartialEq, Eq, Structural)]
pub enum PanelRenderer {
    /// The native (Blitz) renderer.
    Native,
    /// The desktop (WebView) renderer.
    Desktop,
}

/// A panel: its id, title, default dock and renderer, default size in
/// pixels, and the action that toggles it.
pub struct PanelDef {
    pub id: &'static str,
    pub title: &'static str,
    pub default_dock: DockPosition,
    pub renderer: PanelRenderer,
    pub default_size: (u32, u32),
    pub toggle_action: Option<&'static str>,
}

/// An action toggling a panel.
pub struct PanelActionDef {
    pub id: &'static str,
    pub display_name: &'static str,
    /// The panel it toggles.
    pub panel: &'static str,
    pub in_menu: bool,
}

pub type PanelView = (Seq<char>, Seq<char>, DockPosition, PanelRenderer, (u32, u32), Option<Seq<char>>);

pub open spec fn panel_view(p: PanelDef) -> PanelView {
    (
        p.id@,
        p.title@,
        p.default_dock,
        p.renderer,
        p.default_size,
        match p.toggle_action {
            Some(a) => Some(a@),
            None => None,
        },
    )
}

pub open spec fn panel_action_view(a: PanelActionDef) -> (Seq<char>, Seq<char>, Seq<char>, bool) {
    (a.id@, a.display_name@, a.panel@, a.in_menu)
}

} // verus!
