//! Continuous action framework: "perform until shortcut released" actions.
//!
//! An action is registered once under its command id. When its shortcut is
//! pressed the action is started: any other running action is stopped, the
//! action's init callback runs, and a timer plus a key-release hook are
//! registered so the action callback repeats until the key comes up.
//! A key repeat of the running action is ignored.
//!
//! The host owns the callbacks (`H`, carried opaquely here) and the timer
//! and hook registrations; this module holds the registry and the active
//! action and decides, step by step, what the host must do.
use vstd::prelude::*;
use crate::text::str_eq;

verus! {

/// Special flag value passed to an action during timer execution.
pub const ACTION_FLAG: i32 = -666;

/// Key-up window messages.
pub const WM_KEYUP: u32 = 0x0101;
pub const WM_SYSKEYUP: u32 = 0x0105;

/// A continuous action: its unique command id and its callbacks.
pub struct ContinuousAction<H> {
    pub command_id: String,
    pub handler: H,
}

/// The registry of continuous actions and the one running now, if any.
pub struct ContinuousActions<H> {
    registry: Vec<ContinuousAction<H>>,
    active: Option<ContinuousAction<H>>,
    timer_registered: bool,
    accel_registered: bool,
}

/// The abstract state: registered handlers by command id, the running
/// action (its id and the callbacks it was started with), and whether the
/// timer and the key-release hook are registered with the host.
pub struct ContinuousState<H> {
    pub registered: Map<Seq<char>, H>,
    pub active: Option<(Seq<char>, H)>,
    pub timer: bool,
    pub accel: bool,
}

pub open spec fn ids<H>(v: Seq<ContinuousAction<H>>) -> Seq<Seq<char>> {
    v.map_values(|a: ContinuousAction<H>| a.command_id@)
}

/// The map a registry vector stands for (later entries win).
pub open spec fn registry_map<H>(v: Seq<ContinuousAction<H>>) -> Map<Seq<char>, H>
    decreases v.len(),
{
    if v.len() == 0 {
        Map::empty()
    } else {
        registry_map(v.drop_last()).insert(v.last().command_id@, v.last().handler)
    }
}

pub open spec fn action_view<H>(a: Option<ContinuousAction<H>>) -> Option<(Seq<char>, H)> {
    match a {
        Some(x) => Some((x.command_id@, x.handler)),
        None => None,
    }
}

impl<H> View for ContinuousActions<H> {
    type V = ContinuousState<H>;

    closed spec fn view(&self) -> ContinuousState<H> {
        ContinuousState {
            registered: registry_map(self.registry@),
            active: action_view(self.active),
            timer: self.timer_registered,
            accel: self.accel_registered,
        }
    }
}

/// What the host does to stop the running action: create its undo point,
/// run its cleanup, then drop the key hook and the timer.
pub struct StopPlan<H> {
    /// Callbacks whose undo callback runs (those the action started with).
    pub undo: Option<H>,
    /// Registered callbacks whose `init(false)` runs.
    pub cleanup: Option<H>,
    pub deregister_accelerator: bool,
    pub deregister_timer: bool,
}

/// The first step of starting an action.
pub enum StartStep<H> {
    /// The action is already running (a key repeat): nothing changes; the
    /// start counts as successful.
    AlreadyRunning,
    /// After stopping as `stop` says, no action is registered under the id:
    /// the start fails.
    NotRegistered { stop: StopPlan<H> },
    /// After stopping as `stop` says, run `handler.init(true)` and report
    /// the result with [`confirm_start`].
    Initialize { stop: StopPlan<H>, handler: H },
}

/// What the host registers after a successful init.
pub enum Confirm {
    /// Init failed: the start fails, nothing else to do.
    InitFailed,
    /// Register the key hook and/or the timer as flagged. With no timer to
    /// register the start has succeeded; otherwise report the timer
    /// registration with [`timer_registered`] or [`abort_start`].
    Register { accelerator: bool, timer: bool },
}

/// What the host undoes when the timer cannot be registered: drop the key
/// hook and run the cleanup callbacks; the start fails.
pub struct AbortPlan<H> {
    pub cleanup: Option<H>,
}

// ---------------------------------------------------------------------
// Specification of the transitions
// ---------------------------------------------------------------------

/// The state after stopping everything.
pub open spec fn stopped<H>(s: ContinuousState<H>) -> ContinuousState<H> {
    ContinuousState { registered: s.registered, active: None, timer: false, accel: false }
}

/// The callbacks registered under the running action's id, if both exist.
pub open spec fn registered_for_active<H>(s: ContinuousState<H>) -> Option<H> {
    match s.active {
        Some((id, _)) => if s.registered.dom().contains(id) {
            Some(s.registered[id])
        } else {
            None
        },
        None => None,
    }
}

/// The stop plan for a state.
pub open spec fn stop_plan<H>(s: ContinuousState<H>) -> StopPlan<H> {
    StopPlan {
        undo: match s.active {
            Some((_, h)) => Some(h),
            None => None,
        },
        cleanup: registered_for_active(s),
        deregister_accelerator: s.accel,
        deregister_timer: s.timer,
    }
}

pub open spec fn is_running<H>(s: ContinuousState<H>, id: Seq<char>) -> bool {
    s.active matches Some((a, _)) && a == id
}

// ---------------------------------------------------------------------
// Registry helpers
// ---------------------------------------------------------------------

proof fn lemma_registry_lookup<H>(v: Seq<ContinuousAction<H>>, j: int)
    requires
        ids(v).no_duplicates(),
        0 <= j < v.len(),
    ensures
        registry_map(v).dom().contains(v[j].command_id@),
        registry_map(v)[v[j].command_id@] == v[j].handler,
    decreases v.len(),
{
    if j < v.len() - 1 {
        assert(ids(v.drop_last()) =~= ids(v).drop_last());
        assert(ids(v)[j] != ids(v)[v.len() - 1]);
        lemma_registry_lookup(v.drop_last(), j);
    }
}

proof fn lemma_registry_absent<H>(v: Seq<ContinuousAction<H>>, x: Seq<char>)
    requires
        forall|j: int| 0 <= j < v.len() ==> v[j].command_id@ != x,
    ensures
        !registry_map(v).dom().contains(x),
    decreases v.len(),
{
    if v.len() > 0 {
        lemma_registry_absent(v.drop_last(), x);
    }
}

proof fn lemma_registry_update<H>(v: Seq<ContinuousAction<H>>, j: int, a: ContinuousAction<H>)
    requires
        ids(v).no_duplicates(),
        0 <= j < v.len(),
        v[j].command_id@ == a.command_id@,
    ensures
        registry_map(v.update(j, a)) == registry_map(v).insert(a.command_id@, a.handler),
        ids(v.update(j, a)) == ids(v),
    decreases v.len(),
{
    let w = v.update(j, a);
    assert(ids(w) =~= ids(v));
    if j == v.len() - 1 {
        assert(w.drop_last() =~= v.drop_last());
        assert(registry_map(w) =~= registry_map(v).insert(a.command_id@, a.handler));
    } else {
        assert(w.drop_last() =~= v.drop_last().update(j, a));
        assert(ids(v.drop_last()) =~= ids(v).drop_last());
        lemma_registry_update(v.drop_last(), j, a);
        assert(ids(v)[j] != ids(v)[v.len() - 1]);
        assert(registry_map(w) =~= registry_map(v).insert(a.command_id@, a.handler));
    }
}

impl<H> ContinuousActions<H> {
    #[verifier::type_invariant]
    spec fn unique_ids(self) -> bool {
        ids(self.registry@).no_duplicates()
    }

    /// An empty registry with nothing running.
    pub fn new() -> (r: ContinuousActions<H>)
        ensures
            r@.registered == Map::<Seq<char>, H>::empty(),
            r@.active is None,
            !r@.timer,
            !r@.accel,
    {
        let r = ContinuousActions {
            registry: Vec::new(),
            active: None,
            timer_registered: false,
            accel_registered: false,
        };
        assert(registry_map(r.registry@) =~= Map::<Seq<char>, H>::empty());
        r
    }

    /// Position of the action registered under `id`.
    fn position(&self, id: &str) -> (r: Option<usize>)
        ensures
            match r {
                Some(j) => j < self.registry@.len() && self.registry@[j as int].command_id@
                    == id@,
                None => forall|j: int|
                    0 <= j < self.registry@.len() ==> self.registry@[j].command_id@ != id@,
            },
    {
        let mut j: usize = 0;
        while j < self.registry.len()
            invariant
                j <= self.registry@.len(),
                forall|k: int| 0 <= k < j ==> self.registry@[k].command_id@ != id@,
            decreases self.registry.len() - j,
        {
            if str_eq(self.registry[j].command_id.as_str(), id) {
                return Some(j);
            }
            j += 1;
        }
        None
    }

    /// Whether an action is registered under `id`.
    pub fn contains_key(&self, id: &str) -> (r: bool)
        ensures
            r == self@.registered.dom().contains(id@),
    {
        proof {
            use_type_invariant(self);
        }
        match self.position(id) {
            Some(j) => {
                proof {
                    lemma_registry_lookup(self.registry@, j as int);
                }
                true
            },
            None => {
                proof {
                    lemma_registry_absent(self.registry@, id@);
                }
                false
            },
        }
    }

    /// The callbacks registered under `id`.
    pub fn get(&self, id: &str) -> (r: Option<H>) where H: Copy
        ensures
            r is Some == self@.registered.dom().contains(id@),
            r matches Some(h) ==> h == self@.registered[id@],
    {
        proof {
            use_type_invariant(self);
        }
        match self.position(id) {
            Some(j) => {
                proof {
                    lemma_registry_lookup(self.registry@, j as int);
                }
                Some(self.registry[j].handler)
            },
            None => {
                proof {
                    lemma_registry_absent(self.registry@, id@);
                }
                None
            },
        }
    }

    /// The callbacks of the running action (what each timer tick runs).
    pub fn active_handler(&self) -> (r: Option<H>) where H: Copy
        ensures
            r == (match self@.active {
                Some((_, h)) => Some(h),
                None => None,
            }),
    {
        match &self.active {
            Some(a) => Some(a.handler),
            None => None,
        }
    }
}

// ---------------------------------------------------------------------
// The public operations
// ---------------------------------------------------------------------

/// Register a continuous action; an action already registered under the
/// same command id is replaced.
pub fn register_continuous_action<H>(reg: &mut ContinuousActions<H>, action: ContinuousAction<H>)
    ensures
        final(reg)@.registered == old(reg)@.registered.insert(
            action.command_id@,
            action.handler,
        ),
        final(reg)@.active == old(reg)@.active,
        final(reg)@.timer == old(reg)@.timer,
        final(reg)@.accel == old(reg)@.accel,
{
    proof {
        use_type_invariant(&*reg);
    }
    let ghost a_id = action.command_id@;
    let ghost a_h = action.handler;
    match reg.position(action.command_id.as_str()) {
        Some(j) => {
            let ghost v = reg.registry@;
            proof {
                lemma_registry_update(v, j as int, action);
            }
            let mut items: Vec<ContinuousAction<H>> = Vec::new();
            std::mem::swap(&mut items, &mut reg.registry);
            items.set(j, action);
            std::mem::swap(&mut items, &mut reg.registry);
        },
        None => {
            let ghost v = reg.registry@;
            let ghost id = action.command_id@;
            let mut items: Vec<ContinuousAction<H>> = Vec::new();
            std::mem::swap(&mut items, &mut reg.registry);
            items.push(action);
            proof {
                assert(items@.drop_last() =~= v);
                assert(ids(items@) =~= ids(v).push(id));
                assert forall|x: int, y: int|
                    0 <= x < ids(items@).len() && 0 <= y < ids(items@).len() && x
                        != y implies ids(items@)[x] != ids(items@)[y] by {
                    if x < v.len() && y < v.len() {
                        assert(ids(v)[x] != ids(v)[y]);
                    } else if x == v.len() {
                        assert(v[y].command_id@ != id);
                    } else {
                        assert(v[x].command_id@ != id);
                    }
                }
            }
            std::mem::swap(&mut items, &mut reg.registry);
        },
    }
}

/// Stop the running action, if any: the plan says which callbacks the host
/// runs (undo, then cleanup) and which registrations it drops.
pub fn stop_all_continuous_actions<H: Copy>(reg: &mut ContinuousActions<H>) -> (r: StopPlan<H>)
    ensures
        final(reg)@ == stopped(old(reg)@),
        r == stop_plan(old(reg)@),
{
    proof {
        use_type_invariant(&*reg);
    }
    let undo = match &reg.active {
        Some(a) => Some(a.handler),
        None => None,
    };
    let cleanup = match &reg.active {
        Some(a) => reg.get(a.command_id.as_str()),
        None => None,
    };
    let plan = StopPlan {
        undo,
        cleanup,
        deregister_accelerator: reg.accel_registered,
        deregister_timer: reg.timer_registered,
    };
    reg.active = None;
    reg.accel_registered = false;
    reg.timer_registered = false;
    plan
}

/// Whether an action is running.
pub fn is_action_active<H>(reg: &ContinuousActions<H>) -> (r: bool)
    ensures
        r == reg@.active is Some,
{
    reg.active.is_some()
}

/// The command id of the running action, if any.
pub fn get_active_command_id<H>(reg: &ContinuousActions<H>) -> (r: Option<String>)
    ensures
        r is Some == reg@.active is Some,
        r matches Some(id) ==> reg@.active matches Some((a, _)) && a == id@,
{
    match &reg.active {
        Some(a) => Some(a.command_id.clone()),
        None => None,
    }
}

/// Start the action registered under `command_id` (its shortcut was
/// pressed): a key repeat of the running action changes nothing; otherwise
/// whatever runs is stopped and the action's init is requested.
pub fn start_continuous_action<H: Copy>(reg: &mut ContinuousActions<H>, command_id: &str) -> (r:
    StartStep<H>)
    ensures
        is_running(old(reg)@, command_id@) ==> r is AlreadyRunning && final(reg)@ == old(reg)@,
        !is_running(old(reg)@, command_id@) ==> {
            &&& final(reg)@ == stopped(old(reg)@)
            &&& old(reg)@.registered.dom().contains(command_id@) ==> r == (StartStep::Initialize {
                stop: stop_plan(old(reg)@),
                handler: old(reg)@.registered[command_id@],
            })
            &&& !old(reg)@.registered.dom().contains(command_id@) ==> r == (
            StartStep::NotRegistered { stop: stop_plan(old(reg)@) })
        },
{
    let repeat = match &reg.active {
        Some(a) => str_eq(a.command_id.as_str(), command_id),
        None => false,
    };
    if repeat {
        return StartStep::AlreadyRunning;
    }
    let stop = stop_all_continuous_actions(reg);
    match reg.get(command_id) {
        Some(handler) => StartStep::Initialize { stop, handler },
        None => StartStep::NotRegistered { stop },
    }
}

/// Second step of a start: the init callback of `handler` (registered
/// under `command_id`) returned `init_ok`. On success the action becomes
/// the running one and the host registers what is not yet registered.
pub fn confirm_start<H>(reg: &mut ContinuousActions<H>, command_id: &str, handler: H, init_ok: bool) -> (r:
    Confirm)
    ensures
        !init_ok ==> r is InitFailed && final(reg)@ == old(reg)@,
        init_ok ==> {
            &&& r == (Confirm::Register { accelerator: !old(reg)@.accel, timer: !old(reg)@.timer })
            &&& final(reg)@ == (ContinuousState {
                registered: old(reg)@.registered,
                active: Some((command_id@, handler)),
                timer: old(reg)@.timer,
                accel: true,
            })
        },
{
    proof {
        use_type_invariant(&*reg);
    }
    if !init_ok {
        return Confirm::InitFailed;
    }
    let accelerator = !reg.accel_registered;
    let timer = !reg.timer_registered;
    reg.active = Some(ContinuousAction { command_id: command_id.to_owned(), handler });
    reg.accel_registered = true;
    Confirm::Register { accelerator, timer }
}

/// Last step of a successful start: the timer is registered.
pub fn timer_registered<H>(reg: &mut ContinuousActions<H>)
    ensures
        final(reg)@ == (ContinuousState { timer: true, ..old(reg)@ }),
{
    proof {
        use_type_invariant(&*reg);
    }
    reg.timer_registered = true;
}

/// Last step of a failed start: the timer could not be registered. The key
/// hook is dropped, the action's cleanup runs and nothing is running.
pub fn abort_start<H: Copy>(reg: &mut ContinuousActions<H>) -> (r: AbortPlan<H>)
    ensures
        r.cleanup == registered_for_active(old(reg)@),
        final(reg)@ == (ContinuousState {
            active: None,
            accel: false,
            ..old(reg)@
        }),
{
    proof {
        use_type_invariant(&*reg);
    }
    let cleanup = match &reg.active {
        Some(a) => reg.get(a.command_id.as_str()),
        None => None,
    };
    reg.accel_registered = false;
    reg.active = None;
    AbortPlan { cleanup }
}

/// Whether a window message is a key release, which ends the running action.
pub fn is_key_release(message: u32) -> (r: bool)
    ensures
        r == (message == WM_KEYUP || message == WM_SYSKEYUP),
{
    message == WM_KEYUP || message == WM_SYSKEYUP
}

// ---------------------------------------------------------------------
// Laws
// ---------------------------------------------------------------------

/// Stopping is idempotent: a second stop changes nothing and asks the host
/// for nothing.
pub proof fn law_stop_idempotent<H>(s: ContinuousState<H>)
    ensures
        stopped(stopped(s)) == stopped(s),
        stop_plan(stopped(s)) == (StopPlan::<H> {
            undo: None,
            cleanup: None,
            deregister_accelerator: false,
            deregister_timer: false,
        }),
{
}

/// A start that ran init successfully and registered its timer leaves
/// exactly that action running, with the timer and key hook registered.
pub proof fn law_started_action_is_running<H>(s: ContinuousState<H>, id: Seq<char>, h: H)
    requires
        !is_running(s, id),
    ensures
        ({
            let after_confirm = ContinuousState {
                registered: stopped(s).registered,
                active: Some((id, h)),
                timer: stopped(s).timer,
                accel: true,
            };
            let after_timer = ContinuousState { timer: true, ..after_confirm };
            &&& is_running(after_timer, id)
            &&& after_timer.timer && after_timer.accel
            &&& after_timer.registered == s.registered
        }),
{
}

/// Whatever was running, stopping it leaves nothing running and no
/// registration behind, and never touches the registry.
pub proof fn law_stop_clears<H>(s: ContinuousState<H>, id: Seq<char>)
    ensures
        !is_running(stopped(s), id),
        !stopped(s).timer && !stopped(s).accel,
        stopped(s).registered == s.registered,
{
}

} // verus!
