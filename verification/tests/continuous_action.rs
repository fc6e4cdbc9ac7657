use reaper_fts_extensions::continuous_action::{
    abort_start, confirm_start, get_active_command_id, is_action_active, is_key_release,
    register_continuous_action, start_continuous_action, stop_all_continuous_actions,
    timer_registered, Confirm, ContinuousAction, ContinuousActions, StartStep,
};

#[test]
fn test_action_registration() {
    let action = ContinuousAction { command_id: "TEST_ACTION".to_string(), handler: 7u32 };
    let mut registry = ContinuousActions::new();
    register_continuous_action(&mut registry, action);
    assert!(registry.contains_key("TEST_ACTION"));
}

#[test]
fn register_replaces_same_id() {
    let mut reg = ContinuousActions::new();
    register_continuous_action(&mut reg, ContinuousAction { command_id: "A".to_string(), handler: 1u32 });
    register_continuous_action(&mut reg, ContinuousAction { command_id: "A".to_string(), handler: 2u32 });
    assert_eq!(reg.get("A"), Some(2));
    assert_eq!(reg.get("B"), None);
}

#[test]
fn start_runs_until_stopped() {
    let mut reg = ContinuousActions::new();
    register_continuous_action(&mut reg, ContinuousAction { command_id: "MOVE".to_string(), handler: 5u32 });
    let handler = match start_continuous_action(&mut reg, "MOVE") {
        StartStep::Initialize { stop, handler } => {
            assert!(stop.undo.is_none());
            handler
        }
        _ => panic!("expected an init request"),
    };
    assert_eq!(handler, 5);
    match confirm_start(&mut reg, "MOVE", handler, true) {
        Confirm::Register { accelerator, timer } => {
            assert!(accelerator);
            assert!(timer);
        }
        Confirm::InitFailed => panic!("init succeeded"),
    }
    timer_registered(&mut reg);
    assert!(is_action_active(&reg));
    assert_eq!(get_active_command_id(&reg), Some("MOVE".to_string()));
    assert_eq!(reg.active_handler(), Some(5));
    // a key repeat changes nothing
    assert!(matches!(start_continuous_action(&mut reg, "MOVE"), StartStep::AlreadyRunning));
    let plan = stop_all_continuous_actions(&mut reg);
    assert_eq!(plan.undo, Some(5));
    assert_eq!(plan.cleanup, Some(5));
    assert!(plan.deregister_accelerator);
    assert!(plan.deregister_timer);
    assert!(!is_action_active(&reg));
    // stopping again asks nothing of the host
    let again = stop_all_continuous_actions(&mut reg);
    assert_eq!(again.undo, None);
    assert!(!again.deregister_accelerator);
    assert!(!again.deregister_timer);
}

#[test]
fn start_of_unregistered_fails() {
    let mut reg: ContinuousActions<u32> = ContinuousActions::new();
    assert!(matches!(start_continuous_action(&mut reg, "NOPE"), StartStep::NotRegistered { .. }));
}

#[test]
fn init_failure_leaves_nothing_running() {
    let mut reg = ContinuousActions::new();
    register_continuous_action(&mut reg, ContinuousAction { command_id: "X".to_string(), handler: 1u32 });
    assert!(matches!(confirm_start(&mut reg, "X", 1, false), Confirm::InitFailed));
    assert!(!is_action_active(&reg));
}

#[test]
fn timer_failure_aborts_start() {
    let mut reg = ContinuousActions::new();
    register_continuous_action(&mut reg, ContinuousAction { command_id: "X".to_string(), handler: 3u32 });
    let _ = confirm_start(&mut reg, "X", 3, true);
    let abort = abort_start(&mut reg);
    assert_eq!(abort.cleanup, Some(3));
    assert!(!is_action_active(&reg));
}

#[test]
fn key_up_messages_are_releases() {
    assert!(is_key_release(0x0101));
    assert!(is_key_release(0x0105));
    assert!(!is_key_release(0x0100));
}
