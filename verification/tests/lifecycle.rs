use tor_sys::lifecycle::{replay, status_is_success, HandleEvent, HandleState};

const CREATE: HandleEvent = HandleEvent::Create { allocated: true };

fn every_event() -> Vec<HandleEvent> {
    vec![
        CREATE,
        HandleEvent::Create { allocated: false },
        HandleEvent::SetCommandLine,
        HandleEvent::Run,
        HandleEvent::Return,
        HandleEvent::Free,
    ]
}

fn every_state() -> Vec<HandleState> {
    vec![
        HandleState::Uninitialized,
        HandleState::Created,
        HandleState::Configured,
        HandleState::Running,
        HandleState::Terminated,
        HandleState::Freed,
    ]
}

#[test]
fn a_handle_can_be_freed_right_after_it_was_created() {
    assert_eq!(
        replay(HandleState::Uninitialized, &vec![CREATE, HandleEvent::Free]),
        Some(HandleState::Freed)
    );
    assert_eq!(HandleState::Created.after(HandleEvent::Free), Some(HandleState::Freed));
}

#[test]
fn a_whole_life_ends_freed() {
    let life = vec![
        CREATE,
        HandleEvent::SetCommandLine,
        HandleEvent::Run,
        HandleEvent::Return,
        HandleEvent::Free,
    ];
    assert_eq!(replay(HandleState::Uninitialized, &life), Some(HandleState::Freed));
    let start = HandleState::Uninitialized;
    assert_eq!(replay(start, &life[..4].to_vec()), Some(HandleState::Terminated));
    assert_eq!(replay(start, &life[..3].to_vec()), Some(HandleState::Running));
    assert_eq!(replay(start, &life[..2].to_vec()), Some(HandleState::Configured));
    assert_eq!(replay(start, &life[..1].to_vec()), Some(HandleState::Created));
    assert_eq!(replay(start, &Vec::new()), Some(HandleState::Uninitialized));
}

#[test]
fn a_configured_handle_can_be_freed_without_running() {
    let life = vec![CREATE, HandleEvent::SetCommandLine, HandleEvent::Free];
    assert_eq!(replay(HandleState::Uninitialized, &life), Some(HandleState::Freed));
}

#[test]
fn a_failed_allocation_leaves_nothing_to_free() {
    let none = HandleEvent::Create { allocated: false };
    assert_eq!(HandleState::Uninitialized.after(none), Some(HandleState::Uninitialized));
    assert_eq!(replay(HandleState::Uninitialized, &vec![none, HandleEvent::Free]), None);
    assert_eq!(replay(HandleState::Uninitialized, &vec![none, CREATE]), Some(HandleState::Created));
    assert!(!HandleState::Uninitialized.has_handle());
}

#[test]
fn a_second_free_is_out_of_order() {
    assert_eq!(HandleState::Freed.after(HandleEvent::Free), None);
    assert_eq!(
        replay(HandleState::Uninitialized, &vec![CREATE, HandleEvent::Free, HandleEvent::Free]),
        None
    );
}

#[test]
fn nothing_is_in_order_on_a_freed_handle() {
    for event in every_event() {
        assert_eq!(HandleState::Freed.after(event), None);
        assert!(!HandleState::Freed.permits(event));
    }
}

#[test]
fn a_running_handle_only_returns() {
    for event in every_event() {
        let expected =
            if event == HandleEvent::Return { Some(HandleState::Terminated) } else { None };
        assert_eq!(HandleState::Running.after(event), expected);
    }
}

#[test]
fn the_daemon_runs_only_once_and_only_when_configured() {
    for state in every_state() {
        assert_eq!(state.permits(HandleEvent::Run), state == HandleState::Configured);
    }
    assert_eq!(HandleState::Terminated.after(HandleEvent::Run), None);
}

#[test]
fn the_command_line_is_set_once() {
    for state in every_state() {
        assert_eq!(state.permits(HandleEvent::SetCommandLine), state == HandleState::Created);
    }
}

#[test]
fn a_handle_is_created_once() {
    for state in every_state() {
        assert_eq!(state.permits(CREATE), state == HandleState::Uninitialized);
    }
}

#[test]
fn permits_agrees_with_after() {
    for state in every_state() {
        for event in every_event() {
            assert_eq!(state.permits(event), state.after(event).is_some());
        }
    }
}

#[test]
fn a_handle_is_held_from_creation_to_free() {
    assert!(!HandleState::Uninitialized.has_handle());
    assert!(HandleState::Created.has_handle());
    assert!(HandleState::Configured.has_handle());
    assert!(HandleState::Running.has_handle());
    assert!(HandleState::Terminated.has_handle());
    assert!(!HandleState::Freed.has_handle());
}

#[test]
fn replay_stops_at_the_first_event_out_of_order() {
    assert_eq!(replay(HandleState::Created, &vec![HandleEvent::Run, HandleEvent::Free]), None);
    assert_eq!(
        replay(HandleState::Running, &vec![HandleEvent::Return, HandleEvent::Free]),
        Some(HandleState::Freed)
    );
    assert_eq!(replay(HandleState::Running, &vec![HandleEvent::Free]), None);
}

#[test]
fn only_zero_is_success() {
    assert!(status_is_success(0));
    assert!(!status_is_success(1));
    assert!(!status_is_success(-1));
    assert!(!status_is_success(i32::MAX));
    assert!(!status_is_success(i32::MIN));
}
