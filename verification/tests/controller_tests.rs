use audio_recorder::controller::Command;
use audio_recorder::controller::Controller;

#[test]
fn stop_with_no_session_is_a_noop() {
    let mut c = Controller::new();
    assert!(c.is_idle());
    assert_eq!(c.stop(), None);
    assert!(c.is_idle());
    assert_eq!(c.stop(), None);
}

#[test]
fn start_then_stop_releases_the_session() {
    let mut c = Controller::new();
    assert_eq!(c.stop(), None);
    let id = c.commit_start();
    assert!(!c.is_idle());
    assert_eq!(c.stop(), Some(id));
    assert!(c.is_idle());
}

#[test]
fn restart_releases_the_prior_session_first() {
    // Start "Mic A", then Start "Mic B": the controller must hand back Mic
    // A's session for release before Mic B's session exists, and the two
    // sessions are distinct.
    let mut c = Controller::new();
    c.stop();
    let mic_a = c.commit_start();
    let released = c.stop();
    assert_eq!(released, Some(mic_a));
    assert!(c.is_idle());
    let mic_b = c.commit_start();
    assert_ne!(mic_a, mic_b);
}

#[test]
fn at_most_one_session_over_any_command_sequence() {
    let mut c = Controller::new();
    let mut live: Vec<u64> = Vec::new();
    for step in 0..20u32 {
        match step % 3 {
            0 | 1 => {
                // a Start: stop, then commit
                c.stop();
                assert!(c.is_idle());
                let id = c.commit_start();
                assert!(!live.contains(&id), "session id reused");
                live.push(id);
            }
            _ => {
                c.stop();
                assert!(c.is_idle());
            }
        }
    }
}

#[test]
fn commands_carry_their_payload() {
    let start = Command::Start { device_name: Some("Mic A".to_string()) };
    assert_eq!(
        start,
        Command::Start { device_name: Some("Mic A".to_string()) }
    );
    assert_ne!(start, Command::Stop);
    assert_ne!(Command::Stop, Command::ListDevices);
}
