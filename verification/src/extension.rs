//! Start-up and timer decisions of the extension host: where the log goes,
//! whether clock-sync starts, the paced pre-warming of the input overlays,
//! and which input actions are probed after registration.
use vstd::prelude::*;
use crate::text::{push_str, str_eq};

verus! {

/// The log directory's name under the state directory.
pub const LOG_DIR_NAME: &'static str = "fasttrackstudio";

/// The rolling log file's name.
pub const LOG_FILE_NAME: &'static str = "reaper-fts-extensions.log";

/// The clock-sync port.
pub const CLOCK_SYNC_PORT: u16 = 7777;

/// Timer ticks (about 2 s at 30 Hz) before the input overlays are
/// pre-warmed, so that REAPER's main window exists.
pub const INPUT_PREWARM_TICK_TARGET: u32 = 60;

/// Overlays built per tick once pre-warming runs.
pub const OVERLAYS_PER_TICK: u32 = 1;

/// A relative path appended to `base`: a `/` goes between them unless
/// `base` is empty or already ends with one.
pub open spec fn path_join(base: Seq<char>, rel: Seq<char>) -> Seq<char> {
    if base.len() == 0 {
        rel
    } else if base.last() == '/' {
        base + rel
    } else {
        base + "/"@ + rel
    }
}

fn join(base: &str, rel: &str) -> (r: String)
    ensures
        r@ == path_join(base@, rel@),
{
    let mut s = String::new();
    push_str(&mut s, base);
    let v = crate::text::chars_of(base);
    if v.len() > 0 && v[v.len() - 1] != '/' {
        push_str(&mut s, "/");
    }
    push_str(&mut s, rel);
    s
}

/// The state directory: `$XDG_STATE_HOME`, else `$HOME/.local/state`
/// (with `/tmp` for a missing `$HOME`).
pub open spec fn state_dir_of(xdg_state_home: Option<Seq<char>>, home: Option<Seq<char>>) -> Seq<char> {
    match xdg_state_home {
        Some(x) => x,
        None => path_join(
            match home {
                Some(h) => h,
                None => "/tmp"@,
            },
            ".local/state"@,
        ),
    }
}

/// The log directory: `fasttrackstudio` under the state directory, given
/// the environment's `XDG_STATE_HOME` and `HOME` (when set).
pub fn log_dir(xdg_state_home: Option<&str>, home: Option<&str>) -> (r: String)
    ensures
        r@ == path_join(
            state_dir_of(
                match xdg_state_home {
                    Some(x) => Some(x@),
                    None => None,
                },
                match home {
                    Some(h) => Some(h@),
                    None => None,
                },
            ),
            "fasttrackstudio"@,
        ),
{
    let state = match xdg_state_home {
        Some(x) => x.to_string(),
        None => match home {
            Some(h) => join(h, ".local/state"),
            None => join("/tmp", ".local/state"),
        },
    };
    join(state.as_str(), LOG_DIR_NAME)
}

/// Clock-sync start-up, given the two persisted switches: started on the
/// clock-sync port, with drift correction as switched, when clock-sync is
/// on; not started otherwise.
pub fn clock_sync_setup(clock_sync_enabled: bool, drift_enabled: bool) -> (r: Option<(u16, bool)>)
    ensures
        r == (if clock_sync_enabled {
            Some((7777u16, drift_enabled))
        } else {
            None
        }),
{
    if clock_sync_enabled {
        Some((CLOCK_SYNC_PORT, drift_enabled))
    } else {
        None
    }
}

/// The pre-warming of the input overlays, paced over timer ticks.
pub struct InputPrewarm {
    pub ticks: u32,
    pub queued: bool,
}

/// What a tick does for the pre-warming.
#[derive(Debug, Clone, Copy, PartialEq, Eq, Structural)]
pub enum PrewarmStep {
    /// Too early: REAPER's window may not exist yet.
    Wait,
    /// Queue the overlays to build, then build up to `OVERLAYS_PER_TICK`.
    QueueAndBuild,
    /// Build up to `OVERLAYS_PER_TICK` queued overlays.
    Build,
}

impl InputPrewarm {
    /// Nothing counted or queued.
    pub fn new() -> (r: InputPrewarm)
        ensures
            r.ticks == 0,
            !r.queued,
    {
        InputPrewarm { ticks: 0, queued: false }
    }

    /// A timer tick: the counter advances (wrapping); from tick
    /// `INPUT_PREWARM_TICK_TARGET` on, the overlays are queued once and
    /// then built a few per tick.
    pub fn tick(&mut self) -> (r: PrewarmStep)
        ensures
            final(self).ticks == (if old(self).ticks == u32::MAX {
                0
            } else {
                (old(self).ticks + 1) as u32
            }),
            old(self).ticks < 60 ==> r == PrewarmStep::Wait && final(self).queued == old(
                self,
            ).queued,
            old(self).ticks >= 60 ==> final(self).queued && r == (if old(self).queued {
                PrewarmStep::Build
            } else {
                PrewarmStep::QueueAndBuild
            }),
    {
        let tick = self.ticks;
        self.ticks = if tick == u32::MAX {
            0
        } else {
            tick + 1
        };
        if tick < INPUT_PREWARM_TICK_TARGET {
            PrewarmStep::Wait
        } else if !self.queued {
            self.queued = true;
            PrewarmStep::QueueAndBuild
        } else {
            PrewarmStep::Build
        }
    }
}

/// The input actions probed in the action list right after registration.
pub open spec fn input_probe_ids() -> Seq<Seq<char>> {
    seq![
        "FTS_INPUT_TOGGLE"@,
        "FTS_INPUT_TOGGLE_PASSTHROUGH"@,
        "FTS_INPUT_TOGGLE_DEBUG_LOGGING"@,
        "FTS_INPUT_PROFILE_SELECTOR"@,
        "FTS_INPUT_WORKFLOW_SELECTOR"@,
        "FTS_INPUT_TOGGLE_ACTIONS_PANEL"@,
        "FTS_INPUT_TOGGLE_KEYBOARD_PANEL"@,
        "FTS_INPUT_TOGGLE_STATUS_PANEL"@,
    ]
}

/// Whether an action is probed after registration.
pub fn is_input_probe(command_id: &str) -> (r: bool)
    ensures
        r == input_probe_ids().contains(command_id@),
{
    let ids = [
        "FTS_INPUT_TOGGLE",
        "FTS_INPUT_TOGGLE_PASSTHROUGH",
        "FTS_INPUT_TOGGLE_DEBUG_LOGGING",
        "FTS_INPUT_PROFILE_SELECTOR",
        "FTS_INPUT_WORKFLOW_SELECTOR",
        "FTS_INPUT_TOGGLE_ACTIONS_PANEL",
        "FTS_INPUT_TOGGLE_KEYBOARD_PANEL",
        "FTS_INPUT_TOGGLE_STATUS_PANEL",
    ];
    assert(ids@.map_values(|s: &'static str| s@) =~= input_probe_ids());
    let mut i: usize = 0;
    while i < 8
        invariant
            i <= 8,
            ids@.map_values(|s: &'static str| s@) == input_probe_ids(),
            forall|k: int| 0 <= k < i ==> input_probe_ids()[k] != command_id@,
        decreases 8 - i,
    {
        if str_eq(ids[i], command_id) {
            assert(input_probe_ids()[i as int] == command_id@);
            return true;
        }
        i += 1;
    }
    assert(!input_probe_ids().contains(command_id@)) by {
        if input_probe_ids().contains(command_id@) {
            let k = choose|k: int| 0 <= k < 8 && input_probe_ids()[k] == command_id@;
            assert(input_probe_ids()[k] != command_id@);
        }
    }
    false
}

} // verus!
