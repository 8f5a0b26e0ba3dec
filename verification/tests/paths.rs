use cv_session::paths::{
    cv_stdout_frames_path, join, live_metrics_path, rep_log_path, repo_root, repo_root_error,
    script_not_found_error, session_config_path, workout_id_path,
};

#[test]
fn join_puts_one_separator_between() {
    assert_eq!(join("/repo", "cv"), "/repo/cv");
    assert_eq!(join("/repo/", "cv"), "/repo/cv");
    assert_eq!(join("/", "cv"), "/cv");
    assert_eq!(join("", "cv"), "cv");
    assert_eq!(join("a/b", "c/d.e"), "a/b/c/d.e");
    assert_eq!(join("/repo", ""), "/repo/");
}

#[test]
fn join_agrees_with_std_on_relative_paths() {
    for base in ["", "/", "/repo", "/repo/", "a", "a/b/", "/repo//", "./x"] {
        for relative in ["cv", "cv/reps_log.jsonl", "../..", "x.json"] {
            let expected = std::path::Path::new(base).join(relative);
            if std::path::MAIN_SEPARATOR == '/' {
                let expected = expected.to_str().unwrap();
                assert_eq!(join(base, relative), expected, "{:?} {:?}", base, relative);
            }
        }
    }
}

#[test]
fn repo_root_is_two_levels_up() {
    assert_eq!(repo_root("/home/me/app/front/src-tauri"), "/home/me/app/front/src-tauri/../..");
}

#[test]
fn session_files_lie_below_the_root() {
    assert_eq!(cv_stdout_frames_path("/repo"), "/repo/cv/cv_stdout_frames.py");
    assert_eq!(session_config_path("/repo"), "/repo/session_config.json");
    assert_eq!(workout_id_path("/repo"), "/repo/workout_id.json");
    assert_eq!(rep_log_path("/repo"), "/repo/cv/reps_log.jsonl");
    assert_eq!(live_metrics_path("/repo"), "/repo/cv/session_live.json");
}

#[test]
fn path_errors_name_the_cause() {
    assert_eq!(
        repo_root_error("No such file or directory (os error 2)"),
        "repo root: No such file or directory (os error 2)"
    );
    assert_eq!(
        script_not_found_error("/repo/cv/cv_stdout_frames.py", "No such file (os error 2)"),
        "cv_stdout_frames.py not found at /repo/cv/cv_stdout_frames.py: No such file (os error 2)"
    );
}
