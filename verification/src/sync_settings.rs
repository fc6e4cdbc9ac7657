//! Persisted on/off switches of the clock-sync subsystem, kept in REAPER's
//! global ExtState (section `FTS_SESSION`) as `"1"` / `"0"` so the choice
//! survives restarts. Both default to on; any other stored value reads as
//! the default. Toggles take effect on the next plugin load.
//!
//! The host reads and writes the ExtState; the values and messages are
//! decided here.
use vstd::prelude::*;
use crate::text::str_eq;

verus! {

/// The ExtState section holding both switches.
pub const EXT_SECTION: &'static str = "FTS_SESSION";

/// The key of the clock-sync switch.
pub const KEY_CLOCK_SYNC: &'static str = "clock_sync_enabled";

/// The key of the drift-correction switch.
pub const KEY_DRIFT: &'static str = "drift_correction_enabled";

/// A stored switch as read: `"0"` is off, `"1"` is on, anything else (or
/// nothing) is the default.
pub open spec fn stored_switch(stored: Option<Seq<char>>, default: bool) -> bool {
    match stored {
        Some(s) => if s == "0"@ {
            false
        } else if s == "1"@ {
            true
        } else {
            default
        },
        None => default,
    }
}

pub open spec fn opt_view(stored: Option<&str>) -> Option<Seq<char>> {
    match stored {
        Some(s) => Some(s@),
        None => None,
    }
}

/// Reads a stored switch (see [`stored_switch`]).
pub fn get_bool(stored: Option<&str>, default: bool) -> (r: bool)
    ensures
        r == stored_switch(opt_view(stored), default),
{
    match stored {
        Some(s) => if str_eq(s, "0") {
            false
        } else if str_eq(s, "1") {
            true
        } else {
            default
        },
        None => default,
    }
}

/// The value stored for a switch.
pub fn stored_text(value: bool) -> (r: &'static str)
    ensures
        r@ == (if value {
            "1"@
        } else {
            "0"@
        }),
{
    if value {
        "1"
    } else {
        "0"
    }
}

/// Whether clock-sync (peer discovery and position broadcast) starts with
/// the plugin, given the stored value. Defaults to on.
pub fn clock_sync_enabled(stored: Option<&str>) -> (r: bool)
    ensures
        r == stored_switch(opt_view(stored), true),
{
    get_bool(stored, true)
}

/// Whether drift correction starts with the plugin, given the stored
/// value. Defaults to on.
pub fn drift_enabled(stored: Option<&str>) -> (r: bool)
    ensures
        r == stored_switch(opt_view(stored), true),
{
    get_bool(stored, true)
}

/// A toggle's outcome: the new state, the value to store, and the console
/// message.
pub struct SyncToggle {
    pub enabled: bool,
    pub stored: &'static str,
    pub message: &'static str,
}

/// Toggle clock-sync, given the stored value.
pub fn toggle_clock_sync(stored: Option<&str>) -> (r: SyncToggle)
    ensures
        r.enabled == !stored_switch(opt_view(stored), true),
        r.stored@ == (if r.enabled {
            "1"@
        } else {
            "0"@
        }),
        r.message@ == (if r.enabled {
            "FTS: Clock-sync enabled (takes effect on next REAPER restart)\n"@
        } else {
            "FTS: Clock-sync disabled (takes effect on next REAPER restart)\n"@
        }),
{
    let enabled = !clock_sync_enabled(stored);
    let message = if enabled {
        "FTS: Clock-sync enabled (takes effect on next REAPER restart)\n"
    } else {
        "FTS: Clock-sync disabled (takes effect on next REAPER restart)\n"
    };
    SyncToggle { enabled, stored: stored_text(enabled), message }
}

/// Toggle drift correction, given the stored value.
pub fn toggle_drift_correction(stored: Option<&str>) -> (r: SyncToggle)
    ensures
        r.enabled == !stored_switch(opt_view(stored), true),
        r.stored@ == (if r.enabled {
            "1"@
        } else {
            "0"@
        }),
        r.message@ == (if r.enabled {
            "FTS: Drift correction enabled (takes effect on next REAPER restart)\n"@
        } else {
            "FTS: Drift correction disabled (takes effect on next REAPER restart)\n"@
        }),
{
    let enabled = !drift_enabled(stored);
    let message = if enabled {
        "FTS: Drift correction enabled (takes effect on next REAPER restart)\n"
    } else {
        "FTS: Drift correction disabled (takes effect on next REAPER restart)\n"
    };
    SyncToggle { enabled, stored: stored_text(enabled), message }
}

/// A stored switch reads back as the value written, whatever the default.
pub proof fn law_stored_switch_round_trip(value: bool, default: bool)
    ensures
        stored_switch(Some(if value { "1"@ } else { "0"@ }), default) == value,
{
    reveal_strlit("0");
    reveal_strlit("1");
    assert("0"@ != "1"@) by {
        assert("0"@[0] != "1"@[0]);
    }
}

/// Toggling twice restores the switch as it reads.
pub proof fn law_toggle_twice_restores(stored: Option<Seq<char>>)
    ensures
        ({
            let once = !stored_switch(stored, true);
            let twice = !stored_switch(Some(if once { "1"@ } else { "0"@ }), true);
            twice == stored_switch(stored, true)
        }),
{
    let once = !stored_switch(stored, true);
    law_stored_switch_round_trip(once, true);
}

} // verus!
