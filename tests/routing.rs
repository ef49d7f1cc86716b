use hook::config::RepoConfig;
use hook::payload::WebhookEvent;
use hook::routing::{route, Decision};

fn rule(path: &str, branch: &str, cmd: Option<&str>) -> RepoConfig {
    RepoConfig {
        path: path.to_string(),
        branch: branch.to_string(),
        deploy_command: cmd.map(|c| c.to_string()),
    }
}

fn event(repo: &str, git_ref: &str) -> WebhookEvent {
    WebhookEvent {
        repository_full_name: repo.to_string(),
        git_ref: git_ref.to_string(),
        sender: None,
        commit_count: None,
    }
}

fn table() -> Vec<(String, RepoConfig)> {
    vec![
        ("acme/site".to_string(), rule("/srv/site", "refs/heads/main", Some("make deploy"))),
        ("acme/api".to_string(), rule("/srv/api", "refs/heads/prod", None)),
    ]
}

#[test]
fn matching_repo_and_ref_triggers_with_a_copy_of_the_rule() {
    match route(&event("acme/api", "refs/heads/prod"), &table()) {
        Decision::Trigger(r) => {
            assert_eq!(r.path, "/srv/api");
            assert_eq!(r.branch, "refs/heads/prod");
            assert_eq!(r.deploy_command, None);
        }
        _ => panic!("expected a trigger"),
    }
}

#[test]
fn unknown_repo_is_no_such_repo() {
    assert!(matches!(route(&event("someone/else", "refs/heads/main"), &table()), Decision::NoSuchRepo));
    assert!(matches!(route(&event("", ""), &table()), Decision::NoSuchRepo));
    assert!(matches!(route(&event("acme/site", "refs/heads/main"), &Vec::new()), Decision::NoSuchRepo));
}

#[test]
fn lookup_is_case_sensitive() {
    assert!(matches!(route(&event("ACME/site", "refs/heads/main"), &table()), Decision::NoSuchRepo));
}

#[test]
fn other_ref_is_branch_mismatch() {
    assert!(matches!(route(&event("acme/site", "refs/heads/dev"), &table()), Decision::BranchMismatch));
    assert!(matches!(route(&event("acme/site", "main"), &table()), Decision::BranchMismatch));
    assert!(matches!(route(&event("acme/site", ""), &table()), Decision::BranchMismatch));
}

#[test]
fn routing_twice_gives_the_same_decision() {
    let e = event("acme/site", "refs/heads/main");
    let t = table();
    let first = route(&e, &t);
    let second = route(&e, &t);
    match (first, second) {
        (Decision::Trigger(a), Decision::Trigger(b)) => {
            assert_eq!(a.path, b.path);
            assert_eq!(a.branch, b.branch);
            assert_eq!(a.deploy_command, b.deploy_command);
        }
        _ => panic!("expected two triggers"),
    }
}

#[test]
fn empty_repository_name_never_matches() {
    let t = vec![("".to_string(), rule("/srv/x", "refs/heads/main", None))];
    assert!(matches!(route(&event("", "refs/heads/main"), &t), Decision::NoSuchRepo));
}

#[test]
fn empty_ref_never_triggers() {
    let t = vec![("acme/site".to_string(), rule("/srv/site", "", None))];
    assert!(matches!(route(&event("acme/site", ""), &t), Decision::BranchMismatch));
}
