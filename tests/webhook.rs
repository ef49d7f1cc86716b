use hmac::Mac;
use hook::config::{AppConfig, RepoConfig};
use hook::executor::{step, CommandOutcome, JobAction, JobEvent, JobState, PathState};
use hook::webhook::{github_webhook, AppState};

const BODY: &[u8] = br#"{"repository":{"full_name":"acme/site"},"ref":"refs/heads/main"}"#;

fn state() -> AppState {
    AppState {
        config: AppConfig {
            host: "0.0.0.0".to_string(),
            port: 3000,
            secret: "topsecret".to_string(),
            tls: None,
            git_token: Some("tok".to_string()),
            repos: vec![(
                "acme/site".to_string(),
                RepoConfig {
                    path: "/srv/site".to_string(),
                    branch: "refs/heads/main".to_string(),
                    deploy_command: Some("make deploy".to_string()),
                },
            )],
        },
    }
}

fn sign(body: &[u8]) -> String {
    let mut mac = hmac::Hmac::<sha2::Sha256>::new_from_slice(b"topsecret").unwrap();
    mac.update(body);
    format!("sha256={}", hex::encode(mac.finalize().into_bytes()))
}

#[test]
fn end_to_end_push_dispatches_pull_then_deploy() {
    let st = state();
    let resp = github_webhook(&st, &sign(BODY), BODY);
    assert_eq!(resp.status, 200);
    let job = resp.job.expect("a job");
    assert_eq!(job.repository, "acme/site");
    assert_eq!(job.rule.path, "/srv/site");
    assert_eq!(job.token.as_deref(), Some("tok"));

    let (s, a) = step(&job, JobState::Idle, JobEvent::PathObserved(PathState::Repository));
    assert_eq!(s, JobState::Pulling);
    match a {
        JobAction::Run { command, create_parent_dirs } => {
            assert_eq!(command.program, "git");
            assert_eq!(command.args, vec!["pull".to_string()]);
            assert_eq!(command.cwd.as_deref(), Some("/srv/site"));
            assert!(!create_parent_dirs);
        }
        JobAction::Stop => panic!("expected a pull"),
    }
    let ok = CommandOutcome { success: true, code: Some(0) };
    let (s, a) = step(&job, s, JobEvent::CommandFinished(ok));
    assert_eq!(s, JobState::RunningDeploy);
    match a {
        JobAction::Run { command, .. } => {
            assert_eq!(command.program, "make");
            assert_eq!(command.args, vec!["deploy".to_string()]);
            assert_eq!(command.cwd.as_deref(), Some("/srv/site"));
        }
        JobAction::Stop => panic!("expected the deploy command"),
    }
    let (s, a) = step(&job, s, JobEvent::CommandFinished(ok));
    assert_eq!(s, JobState::Done);
    assert!(matches!(a, JobAction::Stop));
}

#[test]
fn end_to_end_push_on_fresh_host_clones() {
    let st = state();
    let job = github_webhook(&st, &sign(BODY), BODY).job.expect("a job");
    let (s, a) = step(&job, JobState::Idle, JobEvent::PathObserved(PathState::Missing));
    assert_eq!(s, JobState::Cloning);
    match a {
        JobAction::Run { command, create_parent_dirs } => {
            assert_eq!(command.program, "git");
            assert_eq!(
                command.args,
                vec!["clone".to_string(), "git@github.com:acme/site.git".to_string(), "/srv/site".to_string()]
            );
            assert_eq!(command.cwd, None);
            assert!(create_parent_dirs);
        }
        JobAction::Stop => panic!("expected a clone"),
    }
}

#[test]
fn tampered_body_is_unauthorized_without_job() {
    let st = state();
    let tampered = br#"{"repository":{"full_name":"acme/site"},"ref":"refs/heads/evil"}"#;
    let resp = github_webhook(&st, &sign(BODY), tampered);
    assert_eq!(resp.status, 401);
    assert!(resp.job.is_none());
}

#[test]
fn missing_signature_is_unauthorized() {
    let resp = github_webhook(&state(), "", BODY);
    assert_eq!(resp.status, 401);
    assert!(resp.job.is_none());
}

#[test]
fn unconfigured_repo_is_ok_without_job() {
    let body = br#"{"repository":{"full_name":"someone/else"},"ref":"refs/heads/main"}"#;
    let resp = github_webhook(&state(), &sign(body), body);
    assert_eq!(resp.status, 200);
    assert!(resp.job.is_none());
}

#[test]
fn other_branch_is_ok_without_job() {
    let body = br#"{"repository":{"full_name":"acme/site"},"ref":"refs/heads/dev"}"#;
    let resp = github_webhook(&state(), &sign(body), body);
    assert_eq!(resp.status, 200);
    assert!(resp.job.is_none());
}

#[test]
fn invalid_json_is_bad_request() {
    let body = b"{oops";
    let resp = github_webhook(&state(), &sign(body), body);
    assert_eq!(resp.status, 400);
    assert!(resp.job.is_none());
}

#[test]
fn payload_without_repository_and_ref_is_bad_request() {
    let body = br#"{"zen":"hi"}"#;
    let resp = github_webhook(&state(), &sign(body), body);
    assert_eq!(resp.status, 400);
    assert!(resp.job.is_none());
}

#[test]
fn payload_with_only_a_ref_is_ok_without_job() {
    let body = br#"{"ref":"refs/heads/main"}"#;
    let resp = github_webhook(&state(), &sign(body), body);
    assert_eq!(resp.status, 200);
    assert!(resp.job.is_none());
}

#[test]
fn missing_repository_never_dispatches_even_with_empty_named_entry() {
    let mut st = state();
    st.config.repos.push((
        "".to_string(),
        RepoConfig { path: "/srv/x".to_string(), branch: "refs/heads/main".to_string(), deploy_command: None },
    ));
    let body = br#"{"ref":"refs/heads/main"}"#;
    let resp = github_webhook(&st, &sign(body), body);
    assert_eq!(resp.status, 200);
    assert!(resp.job.is_none());
}

#[test]
fn missing_ref_never_dispatches_even_with_empty_branch_rule() {
    let mut st = state();
    st.config.repos[0].1.branch = String::new();
    let body = br#"{"repository":{"full_name":"acme/site"}}"#;
    let resp = github_webhook(&st, &sign(body), body);
    assert_eq!(resp.status, 200);
    assert!(resp.job.is_none());
}
