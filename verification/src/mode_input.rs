//! Session mode ↔ input workflow bridge: each session mode maps to the
//! workflow `mode-<slug>`, activated on mode change on top of the base
//! keymap.
use vstd::prelude::*;

verus! {

/// A session mode.
#[derive(Debug, Clone, Copy, PartialEq, Eq, Structural)]
pub enum SessionMode {
    Organize,
    Write,
    Produce,
    Record,
    Edit,
    Mix,
    Master,
    Live,
    Video,
    Minimal,
}

/// The workflow id of a session mode.
pub open spec fn mode_workflow_id(m: SessionMode) -> Seq<char> {
    seq!['m', 'o', 'd', 'e', '-'] + match m {
        SessionMode::Organize => seq!['o', 'r', 'g', 'a', 'n', 'i', 'z', 'e'],
        SessionMode::Write => seq!['w', 'r', 'i', 't', 'e'],
        SessionMode::Produce => seq!['p', 'r', 'o', 'd', 'u', 'c', 'e'],
        SessionMode::Record => seq!['r', 'e', 'c', 'o', 'r', 'd'],
        SessionMode::Edit => seq!['e', 'd', 'i', 't'],
        SessionMode::Mix => seq!['m', 'i', 'x'],
        SessionMode::Master => seq!['m', 'a', 's', 't', 'e', 'r'],
        SessionMode::Live => seq!['l', 'i', 'v', 'e'],
        SessionMode::Video => seq!['v', 'i', 'd', 'e', 'o'],
        SessionMode::Minimal => seq!['m', 'i', 'n', 'i', 'm', 'a', 'l'],
    }
}

/// Workflow id for a given mode. Must match the basename of the per-mode
/// workflow file.
pub fn workflow_id_for(mode: SessionMode) -> (r: &'static str)
    ensures
        r@ == mode_workflow_id(mode),
{
    proof {
        reveal_strlit("mode-organize");
        reveal_strlit("mode-write");
        reveal_strlit("mode-produce");
        reveal_strlit("mode-record");
        reveal_strlit("mode-edit");
        reveal_strlit("mode-mix");
        reveal_strlit("mode-master");
        reveal_strlit("mode-live");
        reveal_strlit("mode-video");
        reveal_strlit("mode-minimal");
    }
    let r = match mode {
        SessionMode::Organize => "mode-organize",
        SessionMode::Write => "mode-write",
        SessionMode::Produce => "mode-produce",
        SessionMode::Record => "mode-record",
        SessionMode::Edit => "mode-edit",
        SessionMode::Mix => "mode-mix",
        SessionMode::Master => "mode-master",
        SessionMode::Live => "mode-live",
        SessionMode::Video => "mode-video",
        SessionMode::Minimal => "mode-minimal",
    };
    assert(r@ =~= mode_workflow_id(mode));
    r
}

/// Distinct modes activate distinct workflows.
pub proof fn law_workflow_ids_distinct(a: SessionMode, b: SessionMode)
    requires
        a != b,
    ensures
        mode_workflow_id(a) != mode_workflow_id(b),
{
    let x = mode_workflow_id(a);
    let y = mode_workflow_id(b);
    if x == y {
        assert(x.len() == y.len());
        assert(x[5] == y[5]);
        assert(x[6] == y[6]);
        assert(x[7] == y[7]);
    }
}

} // verus!
