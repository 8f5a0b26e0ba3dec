use cv_session::config::{auxiliary_request, auxiliary_requests, SessionConfig};
use cv_session::launch::{
    after_launch_failure, missing_stdout_error, primary_request, Launcher, Retry, SpawnRequest,
    Stream,
};

fn discarded(program: &str, args: &[&str], root: &str) -> SpawnRequest {
    SpawnRequest {
        program: program.to_string(),
        args: args.iter().map(|arg| arg.to_string()).collect(),
        current_dir: root.to_string(),
        stdout: Stream::Discarded,
        stderr: Stream::Discarded,
    }
}

fn config_of(commands: &[&str]) -> SessionConfig {
    SessionConfig { session_scripts: commands.iter().map(|command| command.to_string()).collect() }
}

#[test]
fn launchers_are_tried_in_order() {
    assert_eq!(Launcher::first(), Launcher::Preferred);
    assert_eq!(Launcher::Preferred.program(), "python3");
    assert_eq!(Launcher::Preferred.next(), Some(Launcher::Fallback));
    assert_eq!(Launcher::Fallback.program(), "python");
    assert_eq!(Launcher::Fallback.next(), None);
}

#[test]
fn first_failure_is_retried_and_second_is_reported() {
    assert_eq!(
        after_launch_failure(Launcher::Preferred, "No such file or directory (os error 2)"),
        Retry::With(Launcher::Fallback)
    );
    assert_eq!(
        after_launch_failure(Launcher::Fallback, "No such file or directory (os error 2)"),
        Retry::GiveUp(
            "Failed to run cv.py pipeline: No such file or directory (os error 2)".to_string()
        )
    );
    assert_eq!(
        after_launch_failure(Launcher::Fallback, ""),
        Retry::GiveUp("Failed to run cv.py pipeline: ".to_string())
    );
}

#[test]
fn missing_stdout_has_its_message() {
    assert_eq!(missing_stdout_error(), "No stdout from cv process");
}

#[test]
fn vision_process_is_launched_with_its_output_captured() {
    for (launcher, program) in [(Launcher::Preferred, "python3"), (Launcher::Fallback, "python")] {
        assert_eq!(
            primary_request(launcher, "/repo/cv/cv_stdout_frames.py", "/repo"),
            SpawnRequest {
                program: program.to_string(),
                args: vec!["/repo/cv/cv_stdout_frames.py".to_string()],
                current_dir: "/repo".to_string(),
                stdout: Stream::Piped,
                stderr: Stream::Inherited,
            }
        );
    }
}

#[test]
fn script_path_is_one_argument_even_with_spaces() {
    let script = "/my repo/cv/cv_stdout_frames.py";
    let request = primary_request(Launcher::Preferred, script, "/my repo");
    assert_eq!(request.args, vec![script.to_string()]);
}

#[test]
fn auxiliary_command_is_program_and_arguments() {
    assert_eq!(
        auxiliary_request("python ProcessedData/synthesizer.py", "/repo"),
        Some(discarded("python", &["ProcessedData/synthesizer.py"], "/repo"))
    );
    assert_eq!(auxiliary_request("cleaner", "/repo"), Some(discarded("cleaner", &[], "/repo")));
    assert_eq!(
        auxiliary_request("  sh\t-c   run  --now\n", "."),
        Some(discarded("sh", &["-c", "run", "--now"], "."))
    );
}

#[test]
fn command_without_a_word_is_no_request() {
    assert_eq!(auxiliary_request("", "/repo"), None);
    assert_eq!(auxiliary_request("   ", "/repo"), None);
    assert_eq!(auxiliary_request("\t\n\u{3000}", "/repo"), None);
}

#[test]
fn config_tolerance() {
    // A missing or malformed configuration file: no auxiliary process.
    assert_eq!(auxiliary_requests(None, "/repo"), Vec::<SpawnRequest>::new());
    // A configuration without commands: the same.
    assert_eq!(auxiliary_requests(Some(&config_of(&[])), "/repo"), Vec::<SpawnRequest>::new());
}

#[test]
fn auxiliary_requests_follow_the_configuration() {
    let config = config_of(&["python a.py --x", "", "   ", "b", "c  d"]);
    assert_eq!(
        auxiliary_requests(Some(&config), "/repo"),
        vec![
            discarded("python", &["a.py", "--x"], "/repo"),
            discarded("b", &[], "/repo"),
            discarded("c", &["d"], "/repo"),
        ]
    );
}
