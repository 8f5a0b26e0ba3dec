use cv_session::launch::Launcher;
use cv_session::supervisor::{StartDecision, Supervisor};

#[test]
fn new_supervisor_is_idle() {
    let supervisor: Supervisor<u32> = Supervisor::new();
    assert!(!supervisor.is_running());
    assert_eq!(supervisor.auxiliary_count(), 0);
    assert_eq!(supervisor.begin_start(), StartDecision::Launch(Launcher::Preferred));
}

#[test]
fn start_is_idempotent() {
    let mut supervisor: Supervisor<&str> = Supervisor::new();
    assert_eq!(supervisor.begin_start(), StartDecision::Launch(Launcher::Preferred));
    assert_eq!(supervisor.primary_launched("vision", true), Ok(()));
    supervisor.auxiliary_launched(Some("cleaner"));

    // The second start finds the session running and launches nothing.
    assert_eq!(supervisor.begin_start(), StartDecision::AlreadyRunning);
    assert_eq!(supervisor.begin_start(), StartDecision::AlreadyRunning);
    assert!(supervisor.is_running());
    assert_eq!(supervisor.auxiliary_count(), 1);

    // One vision process is held, and no more.
    assert_eq!(supervisor.stop(), vec!["vision", "cleaner"]);
}

#[test]
fn stop_gives_up_every_handle() {
    for auxiliary in [0usize, 1, 2, 17] {
        let mut supervisor: Supervisor<usize> = Supervisor::new();
        assert_eq!(supervisor.primary_launched(1000, true), Ok(()));
        for handle in 0..auxiliary {
            supervisor.auxiliary_launched(Some(handle));
        }
        assert_eq!(supervisor.auxiliary_count(), auxiliary);

        let mut expected = vec![1000];
        expected.extend(0..auxiliary);
        assert_eq!(supervisor.stop(), expected);

        assert!(!supervisor.is_running());
        assert_eq!(supervisor.auxiliary_count(), 0);
        assert_eq!(supervisor.begin_start(), StartDecision::Launch(Launcher::Preferred));
    }
}

#[test]
fn stop_with_nothing_running_is_empty() {
    let mut supervisor: Supervisor<u8> = Supervisor::new();
    assert_eq!(supervisor.stop(), Vec::<u8>::new());
    assert_eq!(supervisor.stop(), Vec::<u8>::new());
    assert!(!supervisor.is_running());
}

#[test]
fn failed_auxiliary_launch_leaves_no_trace() {
    let mut supervisor: Supervisor<u8> = Supervisor::new();
    assert_eq!(supervisor.primary_launched(9, true), Ok(()));
    supervisor.auxiliary_launched(None);
    supervisor.auxiliary_launched(Some(1));
    supervisor.auxiliary_launched(None);
    supervisor.auxiliary_launched(Some(2));
    assert!(supervisor.is_running());
    assert_eq!(supervisor.auxiliary_count(), 2);
    assert_eq!(supervisor.stop(), vec![9, 1, 2]);
}

#[test]
fn vision_process_without_output_is_handed_back() {
    let mut supervisor: Supervisor<u8> = Supervisor::new();
    assert_eq!(
        supervisor.primary_launched(9, false),
        Err((9, "No stdout from cv process".to_string()))
    );
    assert!(!supervisor.is_running());
    assert_eq!(supervisor.begin_start(), StartDecision::Launch(Launcher::Preferred));
    assert_eq!(supervisor.stop(), Vec::<u8>::new());
}

#[test]
fn session_can_be_started_again_after_a_stop() {
    let mut supervisor: Supervisor<u8> = Supervisor::new();
    assert_eq!(supervisor.primary_launched(1, true), Ok(()));
    supervisor.auxiliary_launched(Some(2));
    assert_eq!(supervisor.stop(), vec![1, 2]);
    assert_eq!(supervisor.begin_start(), StartDecision::Launch(Launcher::Preferred));
    assert_eq!(supervisor.primary_launched(3, true), Ok(()));
    assert_eq!(supervisor.begin_start(), StartDecision::AlreadyRunning);
    assert_eq!(supervisor.stop(), vec![3]);
}
