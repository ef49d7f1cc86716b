use hook::config::RepoConfig;
use hook::executor::{
    clone_url, deploy_command, is_whitespace, split_whitespace, step, CommandOutcome,
    DeploymentJob, JobAction, JobEvent, JobFailure, JobState, PathState,
};

fn job(cmd: Option<&str>) -> DeploymentJob {
    DeploymentJob {
        repository: "acme/site".to_string(),
        rule: RepoConfig {
            path: "/srv/site".to_string(),
            branch: "refs/heads/main".to_string(),
            deploy_command: cmd.map(|c| c.to_string()),
        },
        token: None,
    }
}

fn done(success: bool, code: Option<i32>) -> JobEvent {
    JobEvent::CommandFinished(CommandOutcome { success, code })
}

#[test]
fn split_is_on_runs_of_white_space() {
    assert_eq!(split_whitespace("make  deploy\t--fast\n"), vec!["make", "deploy", "--fast"]);
    assert_eq!(split_whitespace("  ./run.sh"), vec!["./run.sh"]);
    assert!(split_whitespace("").is_empty());
    assert!(split_whitespace(" \t ").is_empty());
    assert_eq!(split_whitespace("a\u{3000}b\u{a0}c"), vec!["a", "b", "c"]);
}

#[test]
fn split_does_not_honour_quotes() {
    assert_eq!(split_whitespace("echo \"a b\""), vec!["echo", "\"a", "b\""]);
}

#[test]
fn whitespace_class_is_unicode() {
    assert!(is_whitespace(' '));
    assert!(is_whitespace('\u{2028}'));
    assert!(!is_whitespace('x'));
    assert!(!is_whitespace('\u{200b}'));
}

#[test]
fn remote_url_is_ssh_form() {
    assert_eq!(clone_url("acme/site"), "git@github.com:acme/site.git");
}

#[test]
fn deploy_command_splits_program_and_args() {
    let c = deploy_command(&job(Some("systemctl restart web")).rule).unwrap();
    assert_eq!(c.program, "systemctl");
    assert_eq!(c.args, vec!["restart", "web"]);
    assert_eq!(c.cwd.as_deref(), Some("/srv/site"));
    assert!(deploy_command(&job(Some("   ")).rule).is_none());
    assert!(deploy_command(&job(None).rule).is_none());
}

#[test]
fn occupied_path_fails_as_ambiguous() {
    let (s, a) = step(&job(None), JobState::Idle, JobEvent::PathObserved(PathState::Occupied));
    assert_eq!(s, JobState::Failed(JobFailure::AmbiguousPath));
    assert!(matches!(a, JobAction::Stop));
}

#[test]
fn empty_directory_is_cloned_into() {
    let (s, a) = step(&job(None), JobState::Idle, JobEvent::PathObserved(PathState::Empty));
    assert_eq!(s, JobState::Cloning);
    assert!(matches!(a, JobAction::Run { create_parent_dirs: true, .. }));
}

#[test]
fn failed_sync_fails_the_job() {
    let (s, a) = step(&job(Some("make")), JobState::Cloning, done(false, Some(128)));
    assert_eq!(s, JobState::Failed(JobFailure::SyncFailed(Some(128))));
    assert!(matches!(a, JobAction::Stop));
    let (s, _) = step(&job(None), JobState::Pulling, done(false, None));
    assert_eq!(s, JobState::Failed(JobFailure::SyncFailed(None)));
}

#[test]
fn failed_deploy_fails_the_job() {
    let (s, a) = step(&job(Some("make")), JobState::RunningDeploy, done(false, Some(2)));
    assert_eq!(s, JobState::Failed(JobFailure::DeployFailed(Some(2))));
    assert!(matches!(a, JobAction::Stop));
}

#[test]
fn sync_without_deploy_command_is_done() {
    let (s, a) = step(&job(None), JobState::Pulling, done(true, Some(0)));
    assert_eq!(s, JobState::Done);
    assert!(matches!(a, JobAction::Stop));
}

#[test]
fn resync_of_working_copy_repeats_the_same_pull() {
    let j = job(None);
    for _ in 0..2 {
        let (s, a) = step(&j, JobState::Idle, JobEvent::PathObserved(PathState::Repository));
        assert_eq!(s, JobState::Pulling);
        match a {
            JobAction::Run { command, .. } => assert_eq!(command.args, vec!["pull"]),
            JobAction::Stop => panic!("expected a pull"),
        }
        let (s, _) = step(&j, s, done(true, Some(0)));
        assert_eq!(s, JobState::Done);
    }
}

#[test]
fn finished_jobs_ignore_further_events() {
    let (s, a) = step(&job(None), JobState::Done, done(false, Some(1)));
    assert_eq!(s, JobState::Done);
    assert!(matches!(a, JobAction::Stop));
    let (s, _) = step(&job(None), JobState::Pulling, JobEvent::PathObserved(PathState::Missing));
    assert_eq!(s, JobState::Pulling);
}
