use syscfg::gitutils::{
    command_result, commit, describe, has_changes, init, pull, pull_after_status, push, status,
    CommandOutput,
    GitRun, GitStep,
};

fn strs(v: &[&str]) -> Vec<String> {
    v.iter().map(|s| s.to_string()).collect()
}

fn ok(stdout: &str) -> CommandOutput {
    CommandOutput {
        success: true,
        status: "exit status: 0".to_string(),
        stdout: stdout.to_string(),
        stderr: String::new(),
    }
}

fn failed(stdout: &str, stderr: &str) -> CommandOutput {
    CommandOutput {
        success: false,
        status: "exit status: 1".to_string(),
        stdout: stdout.to_string(),
        stderr: stderr.to_string(),
    }
}

#[test]
fn plans_name_the_git_commands() {
    assert_eq!(init("/snap"), vec![strs(&["init", "/snap"])]);
    assert_eq!(
        commit("/snap", "Saved Snapshot"),
        vec![
            strs(&["-C", "/snap", "add", "-A"]),
            strs(&["-C", "/snap", "commit", "-m", "Saved Snapshot"]),
        ]
    );
    assert_eq!(push("/snap"), vec![strs(&["-C", "/snap", "push"])]);
    assert_eq!(status("/snap"), vec![strs(&["-C", "/snap", "status", "--porcelain"])]);
}

#[test]
fn pull_stashes_only_with_changes() {
    assert_eq!(pull("/snap", false), vec![strs(&["-C", "/snap", "pull"])]);
    assert_eq!(
        pull("/snap", true),
        vec![
            strs(&[
                "-C",
                "/snap",
                "stash",
                "push",
                "--include-untracked",
                "--message",
                "syscfg auto-stash before pull",
            ]),
            strs(&["-C", "/snap", "pull"]),
            strs(&["-C", "/snap", "stash", "pop"]),
        ]
    );
}

#[test]
fn has_changes_unless_blank() {
    assert!(!has_changes(""));
    assert!(!has_changes(" \n\t\n"));
    assert!(has_changes(" M SnapshotConfig.json\n"));
    assert!(has_changes("?? Fonts/\n"));
}

#[test]
fn describe_names_the_command() {
    assert_eq!(describe(&strs(&["-C", "/snap", "add", "-A"])), "git -C /snap add -A");
    assert_eq!(describe(&strs(&["init", "/snap"])), "git init /snap");
}

#[test]
fn command_result_success_keeps_stdout_untrimmed() {
    assert_eq!(command_result("git x", &ok("  out \n")), Ok("  out \n".to_string()));
}

#[test]
fn command_result_failure_prefers_stderr() {
    assert_eq!(
        command_result("git -C /snap push", &failed("some output", "  fatal: no remote \n")),
        Err("git -C /snap push failed with status exit status: 1: fatal: no remote".to_string())
    );
}

#[test]
fn command_result_failure_falls_back_to_stdout() {
    assert_eq!(
        command_result("git -C /snap commit -m m", &failed("\nnothing to commit\n", " \n")),
        Err("git -C /snap commit -m m failed with status exit status: 1: nothing to commit"
            .to_string())
    );
}

#[test]
fn command_result_failure_without_details() {
    assert_eq!(
        command_result("git pull", &failed(" ", "")),
        Err("git pull failed with status exit status: 1".to_string())
    );
}

#[test]
fn run_goes_through_every_command() {
    let (mut run, step) = GitRun::start(commit("/snap", "m"));
    assert_eq!(step, GitStep::Run(strs(&["-C", "/snap", "add", "-A"])));
    let step = run.feed(&ok("added"));
    assert_eq!(step, GitStep::Run(strs(&["-C", "/snap", "commit", "-m", "m"])));
    let step = run.feed(&ok("committed\n"));
    assert_eq!(step, GitStep::Done(Ok("committed\n".to_string())));
    // a finished run only repeats how it ended
    assert_eq!(run.feed(&failed("", "late")), GitStep::Done(Ok("committed\n".to_string())));
}

#[test]
fn run_stops_at_first_failure() {
    let (mut run, _) = GitRun::start(pull("/snap", true));
    let step = run.feed(&failed("", "error: cannot stash"));
    assert_eq!(
        step,
        GitStep::Done(Err(
            "git -C /snap stash push --include-untracked --message syscfg auto-stash before pull failed with status exit status: 1: error: cannot stash"
                .to_string()
        ))
    );
    assert!(matches!(run.feed(&ok("")), GitStep::Done(Err(_))));
}

#[test]
fn run_of_nothing_is_over_at_once() {
    let (mut run, step) = GitRun::start(Vec::new());
    assert_eq!(step, GitStep::Done(Ok(String::new())));
    assert_eq!(run.feed(&ok("x")), GitStep::Done(Ok(String::new())));
}

#[test]
fn pull_after_status_follows_the_output() {
    assert_eq!(pull_after_status("/snap", "\n"), pull("/snap", false));
    assert_eq!(pull_after_status("/snap", "?? new\n"), pull("/snap", true));
}
