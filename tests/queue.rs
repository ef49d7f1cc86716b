use hook::config::RepoConfig;
use hook::executor::DeploymentJob;
use hook::queue::JobQueue;

fn job(repo: &str, path: &str) -> DeploymentJob {
    DeploymentJob {
        repository: repo.to_string(),
        rule: RepoConfig {
            path: path.to_string(),
            branch: "refs/heads/main".to_string(),
            deploy_command: None,
        },
        token: None,
    }
}

#[test]
fn first_job_for_a_repository_starts_at_once() {
    let mut q = JobQueue::new();
    let started = q.submit(job("acme/site", "/srv/a")).expect("starts");
    assert_eq!(started.rule.path, "/srv/a");
}

#[test]
fn second_job_for_a_running_repository_waits() {
    let mut q = JobQueue::new();
    assert!(q.submit(job("acme/site", "/srv/1")).is_some());
    assert!(q.submit(job("acme/site", "/srv/2")).is_none());
    assert!(q.submit(job("acme/api", "/srv/api")).is_some());
    assert!(q.submit(job("acme/site", "/srv/3")).is_none());
    assert_eq!(q.finish("acme/site").expect("next").rule.path, "/srv/2");
    assert_eq!(q.finish("acme/site").expect("next").rule.path, "/srv/3");
    assert!(q.finish("acme/site").is_none());
    assert!(q.submit(job("acme/site", "/srv/4")).is_some());
}

#[test]
fn finishing_one_repository_leaves_others_running() {
    let mut q = JobQueue::new();
    assert!(q.submit(job("a/one", "/x")).is_some());
    assert!(q.submit(job("b/two", "/y")).is_some());
    assert!(q.finish("a/one").is_none());
    assert!(q.submit(job("b/two", "/z")).is_none());
    assert!(q.submit(job("a/one", "/w")).is_some());
    assert!(q.finish("unknown/repo").is_none());
}
