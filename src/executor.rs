//! The deployment job and its clone-or-pull, then deploy, state machine.
//! The machine decides; the caller performs each action and reports back.

use vstd::prelude::*;
use crate::config::{RepoConfig, RepoRule, opt_text};

verus! {

/// A deployment job as mathematical values.
pub ghost struct JobModel {
    pub repository: Seq<char>,
    pub rule: RepoRule,
    pub token: Option<Seq<char>>,
}

/// One deployment: the repository, a private copy of its rule, and an
/// optional token for fetching from the remote.
pub struct DeploymentJob {
    pub repository: String,
    pub rule: RepoConfig,
    pub token: Option<String>,
}

impl View for DeploymentJob {
    type V = JobModel;

    open spec fn view(&self) -> JobModel {
        JobModel { repository: self.repository@, rule: self.rule@, token: opt_text(self.token) }
    }
}

/// Unicode White_Space: the characters `char::is_whitespace` accepts.
pub open spec fn is_ws(c: char) -> bool {
    ('\u{9}' <= c && c <= '\u{d}') || c == ' ' || c == '\u{85}' || c == '\u{a0}' || c
        == '\u{1680}' || ('\u{2000}' <= c && c <= '\u{200a}') || c == '\u{2028}' || c
        == '\u{2029}' || c == '\u{202f}' || c == '\u{205f}' || c == '\u{3000}'
}

/// Whether `c` is Unicode white space.
pub fn is_whitespace(c: char) -> (r: bool)
    ensures
        r == is_ws(c),
{
    ('\u{9}' <= c && c <= '\u{d}') || c == ' ' || c == '\u{85}' || c == '\u{a0}' || c
        == '\u{1680}' || ('\u{2000}' <= c && c <= '\u{200a}') || c == '\u{2028}' || c
        == '\u{2029}' || c == '\u{202f}' || c == '\u{205f}' || c == '\u{3000}'
}

/// The maximal runs of non-white-space characters, in order.
pub open spec fn words(s: Seq<char>) -> Seq<Seq<char>>
    decreases s.len(),
{
    if s.len() == 0 {
        Seq::empty()
    } else {
        let w = words(s.drop_last());
        let c = s.last();
        if is_ws(c) {
            w
        } else if s.len() >= 2 && !is_ws(s[s.len() - 2]) {
            w.drop_last().push(w.last().push(c))
        } else {
            w.push(seq![c])
        }
    }
}

pub open spec fn texts(v: Seq<String>) -> Seq<Seq<char>> {
    v.map_values(|t: String| t@)
}

/// Splits a command line at white space into a flat list of words; no
/// quoting, escaping or other shell syntax is recognised.
pub fn split_whitespace(s: &str) -> (r: Vec<String>)
    ensures
        texts(r@) == words(s@),
{
    let n = s.unicode_len();
    let mut out: Vec<String> = Vec::new();
    let mut start: usize = 0;
    let mut in_word = false;
    let mut i: usize = 0;
    while i < n
        invariant
            n == s@.len(),
            0 <= i <= n,
            in_word ==> start < i && !is_ws(s@[i - 1]),
            !in_word ==> i == 0 || is_ws(s@[i - 1]),
            words(s@.subrange(0, i as int)) == texts(out@) + (if in_word {
                seq![s@.subrange(start as int, i as int)]
            } else {
                Seq::empty()
            }),
        decreases n - i,
    {
        let c = s.get_char(i);
        let ghost p = s@.subrange(0, i + 1);
        assert(p.drop_last() =~= s@.subrange(0, i as int));
        assert(p.last() == c);
        if is_whitespace(c) {
            if in_word {
                let w = s.substring_char(start, i).to_owned();
                proof {
                    assert(texts(out@.push(w)) =~= texts(out@).push(w@));
                }
                out.push(w);
                in_word = false;
            }
        } else {
            if in_word {
                proof {
                    let cur = s@.subrange(start as int, i as int);
                    assert(cur.push(c) =~= s@.subrange(start as int, i + 1));
                    assert(p[p.len() - 2] == s@[i - 1]);
                    let w = texts(out@) + seq![cur];
                    assert(w.drop_last() =~= texts(out@));
                    assert(w.drop_last().push(w.last().push(c)) =~= texts(out@) + seq![
                        s@.subrange(start as int, i + 1),
                    ]);
                }
            } else {
                proof {
                    if i > 0 {
                        assert(p[p.len() - 2] == s@[i - 1]);
                    }
                    assert(s@.subrange(i as int, i + 1) =~= seq![c]);
                    assert(texts(out@) + Seq::<Seq<char>>::empty() =~= texts(out@));
                }
                start = i;
                in_word = true;
            }
        }
        i = i + 1;
    }
    assert(s@.subrange(0, n as int) =~= s@);
    if in_word {
        let w = s.substring_char(start, n).to_owned();
        proof {
            assert(texts(out@.push(w)) =~= texts(out@).push(w@));
        }
        out.push(w);
    } else {
        assert(texts(out@) + Seq::<Seq<char>>::empty() =~= texts(out@));
    }
    out
}

/// The remote a repository is cloned from: `git@github.com:<owner>/<repo>.git`.
pub open spec fn remote_url(name: Seq<char>) -> Seq<char> {
    seq!['g', 'i', 't', '@', 'g', 'i', 't', 'h', 'u', 'b', '.', 'c', 'o', 'm', ':'] + name + seq![
        '.',
        'g',
        'i',
        't',
    ]
}

/// Builds the remote URL for a repository full name.
pub fn clone_url(name: &str) -> (r: String)
    ensures
        r@ == remote_url(name@),
{
    let mut url = "git@github.com:".to_owned();
    url.append(name);
    url.append(".git");
    proof {
        reveal_strlit("git@github.com:");
        reveal_strlit(".git");
    }
    assert(url@ =~= remote_url(name@));
    url
}

/// A subprocess invocation as mathematical values.
pub ghost struct CommandModel {
    pub program: Seq<char>,
    pub args: Seq<Seq<char>>,
    pub cwd: Option<Seq<char>>,
}

/// A program, its literal arguments, and the directory to run it in
/// (the caller's own when absent).
pub struct CommandSpec {
    pub program: String,
    pub args: Vec<String>,
    pub cwd: Option<String>,
}

impl View for CommandSpec {
    type V = CommandModel;

    open spec fn view(&self) -> CommandModel {
        CommandModel { program: self.program@, args: texts(self.args@), cwd: opt_text(self.cwd) }
    }
}

/// What the job's working-copy path holds, as observed before syncing.
#[derive(PartialEq, Eq, Structural, Clone, Copy, Debug)]
pub enum PathState {
    /// Nothing exists at the path.
    Missing,
    /// An empty directory exists at the path.
    Empty,
    /// The path is a git working copy (it holds a `.git` marker).
    Repository,
    /// Something else is at the path; updating it would be ambiguous.
    Occupied,
}

/// How a subprocess ended; `success` exactly when it exited with status 0.
/// A process that could not be started is reported as unsuccessful, without code.
#[derive(PartialEq, Eq, Structural, Clone, Copy, Debug)]
pub struct CommandOutcome {
    pub success: bool,
    pub code: Option<i32>,
}

/// Why a job failed.
#[derive(PartialEq, Eq, Structural, Clone, Copy, Debug)]
pub enum JobFailure {
    /// The path exists but is not a working copy.
    AmbiguousPath,
    /// The clone or pull did not succeed.
    SyncFailed(Option<i32>),
    /// The deploy command did not succeed.
    DeployFailed(Option<i32>),
}

/// Where a job stands.
#[derive(PartialEq, Eq, Structural, Clone, Copy, Debug)]
pub enum JobState {
    Idle,
    Pulling,
    Cloning,
    RunningDeploy,
    Done,
    Failed(JobFailure),
}

/// What the job has just learned.
#[derive(PartialEq, Eq, Structural, Clone, Copy, Debug)]
pub enum JobEvent {
    /// The state of the working-copy path, observed at the start.
    PathObserved(PathState),
    /// The command of the last action has ended.
    CommandFinished(CommandOutcome),
}

/// An action as mathematical values.
pub ghost enum ActionModel {
    Run { command: CommandModel, create_parent_dirs: bool },
    Stop,
}

/// What the caller must do next.
pub enum JobAction {
    /// Run a command, after creating the parent directories of the job's
    /// path when asked to; then report `CommandFinished`.
    Run { command: CommandSpec, create_parent_dirs: bool },
    /// Nothing more: the job is over, or the event did not fit its state.
    Stop,
}

impl View for JobAction {
    type V = ActionModel;

    open spec fn view(&self) -> ActionModel {
        match self {
            JobAction::Run { command, create_parent_dirs } => ActionModel::Run {
                command: command@,
                create_parent_dirs: *create_parent_dirs,
            },
            JobAction::Stop => ActionModel::Stop,
        }
    }
}

pub open spec fn git_program() -> Seq<char> {
    seq!['g', 'i', 't']
}

pub open spec fn pull_word() -> Seq<char> {
    seq!['p', 'u', 'l', 'l']
}

pub open spec fn clone_word() -> Seq<char> {
    seq!['c', 'l', 'o', 'n', 'e']
}

/// `git pull`, run inside the working copy.
pub open spec fn pull_command(path: Seq<char>) -> CommandModel {
    CommandModel { program: git_program(), args: seq![pull_word()], cwd: Some(path) }
}

/// `git clone <remote> <path>`, run from the caller's directory.
pub open spec fn clone_command(name: Seq<char>, path: Seq<char>) -> CommandModel {
    CommandModel {
        program: git_program(),
        args: seq![clone_word(), remote_url(name), path],
        cwd: None,
    }
}

/// The deploy command of a rule: its first word is the program, the rest
/// are arguments, run inside the working copy. None when no command is
/// configured or it holds no word.
pub open spec fn deploy_command_of(rule: RepoRule) -> Option<CommandModel> {
    match rule.deploy_command {
        Some(c) => if words(c).len() == 0 {
            None
        } else {
            Some(
                CommandModel {
                    program: words(c)[0],
                    args: words(c).drop_first(),
                    cwd: Some(rule.path),
                },
            )
        },
        None => None,
    }
}

/// After a successful sync: run the deploy command, or finish.
pub open spec fn after_sync(job: JobModel) -> (JobState, ActionModel) {
    match deploy_command_of(job.rule) {
        Some(c) => (JobState::RunningDeploy, ActionModel::Run { command: c, create_parent_dirs: false }),
        None => (JobState::Done, ActionModel::Stop),
    }
}

/// The job's transitions. A working copy is pulled; a missing or empty path
/// is cloned into; any other path fails the job. A failed command fails the
/// job at its step; success needs the sync and, if configured, the deploy
/// command to succeed. Finished jobs and unexpected events stay put.
pub open spec fn step_model(job: JobModel, state: JobState, event: JobEvent) -> (JobState, ActionModel) {
    match (state, event) {
        (JobState::Idle, JobEvent::PathObserved(PathState::Repository)) => (
            JobState::Pulling,
            ActionModel::Run { command: pull_command(job.rule.path), create_parent_dirs: false },
        ),
        (JobState::Idle, JobEvent::PathObserved(PathState::Occupied)) => (
            JobState::Failed(JobFailure::AmbiguousPath),
            ActionModel::Stop,
        ),
        (JobState::Idle, JobEvent::PathObserved(_)) => (
            JobState::Cloning,
            ActionModel::Run {
                command: clone_command(job.repository, job.rule.path),
                create_parent_dirs: true,
            },
        ),
        (JobState::Pulling, JobEvent::CommandFinished(o)) | (
            JobState::Cloning,
            JobEvent::CommandFinished(o),
        ) => if o.success {
            after_sync(job)
        } else {
            (JobState::Failed(JobFailure::SyncFailed(o.code)), ActionModel::Stop)
        },
        (JobState::RunningDeploy, JobEvent::CommandFinished(o)) => if o.success {
            (JobState::Done, ActionModel::Stop)
        } else {
            (JobState::Failed(JobFailure::DeployFailed(o.code)), ActionModel::Stop)
        },
        _ => (state, ActionModel::Stop),
    }
}

fn git_command(args: Vec<String>, cwd: Option<String>) -> (r: CommandSpec)
    ensures
        r@ == (CommandModel { program: git_program(), args: texts(args@), cwd: opt_text(cwd) }),
{
    let program = "git".to_owned();
    proof {
        reveal_strlit("git");
        assert(program@ =~= git_program());
    }
    CommandSpec { program, args, cwd }
}

fn pull(path: &String) -> (r: CommandSpec)
    ensures
        r@ == pull_command(path@),
{
    let mut args: Vec<String> = Vec::new();
    args.push("pull".to_owned());
    proof {
        reveal_strlit("pull");
        assert("pull"@ =~= pull_word());
        assert(texts(args@) =~= seq![pull_word()]);
    }
    git_command(args, Some(path.clone()))
}

fn clone_into(name: &String, path: &String) -> (r: CommandSpec)
    ensures
        r@ == clone_command(name@, path@),
{
    let mut args: Vec<String> = Vec::new();
    args.push("clone".to_owned());
    args.push(clone_url(name.as_str()));
    args.push(path.clone());
    proof {
        reveal_strlit("clone");
        assert("clone"@ =~= clone_word());
        assert(texts(args@) =~= seq![clone_word(), remote_url(name@), path@]);
    }
    git_command(args, None)
}

/// The deploy command of a rule, split into program and arguments.
pub fn deploy_command(rule: &RepoConfig) -> (r: Option<CommandSpec>)
    ensures
        match r {
            Some(c) => deploy_command_of(rule@) == Some(c@),
            None => deploy_command_of(rule@) is None,
        },
{
    match &rule.deploy_command {
        None => None,
        Some(line) => {
            let mut parts = split_whitespace(line.as_str());
            if parts.len() == 0 {
                return None;
            }
            let program = parts.remove(0);
            proof {
                assert(texts(parts@) =~= words(line@).drop_first());
            }
            Some(CommandSpec { program, args: parts, cwd: Some(rule.path.clone()) })
        },
    }
}

/// Advances a job by one event: its next state and what to do next.
pub fn step(job: &DeploymentJob, state: JobState, event: JobEvent) -> (r: (JobState, JobAction))
    ensures
        r.0 == step_model(job@, state, event).0,
        r.1@ == step_model(job@, state, event).1,
{
    match (state, event) {
        (JobState::Idle, JobEvent::PathObserved(PathState::Repository)) => (
            JobState::Pulling,
            JobAction::Run { command: pull(&job.rule.path), create_parent_dirs: false },
        ),
        (JobState::Idle, JobEvent::PathObserved(PathState::Occupied)) => (
            JobState::Failed(JobFailure::AmbiguousPath),
            JobAction::Stop,
        ),
        (JobState::Idle, JobEvent::PathObserved(_)) => (
            JobState::Cloning,
            JobAction::Run {
                command: clone_into(&job.repository, &job.rule.path),
                create_parent_dirs: true,
            },
        ),
        (JobState::Pulling, JobEvent::CommandFinished(o)) | (
            JobState::Cloning,
            JobEvent::CommandFinished(o),
        ) => if o.success {
            match deploy_command(&job.rule) {
                Some(c) => (
                    JobState::RunningDeploy,
                    JobAction::Run { command: c, create_parent_dirs: false },
                ),
                None => (JobState::Done, JobAction::Stop),
            }
        } else {
            (JobState::Failed(JobFailure::SyncFailed(o.code)), JobAction::Stop)
        },
        (JobState::RunningDeploy, JobEvent::CommandFinished(o)) => if o.success {
            (JobState::Done, JobAction::Stop)
        } else {
            (JobState::Failed(JobFailure::DeployFailed(o.code)), JobAction::Stop)
        },
        _ => (state, JobAction::Stop),
    }
}

/// A missing or empty path is cloned into from `git@github.com:<name>.git`,
/// after its parent directories are created; a working copy is pulled in
/// place and never cloned.
pub proof fn clone_or_pull(job: JobModel)
    ensures
        step_model(job, JobState::Idle, JobEvent::PathObserved(PathState::Missing)).1
            == (ActionModel::Run {
            command: clone_command(job.repository, job.rule.path),
            create_parent_dirs: true,
        }),
        step_model(job, JobState::Idle, JobEvent::PathObserved(PathState::Empty)).1
            == (ActionModel::Run {
            command: clone_command(job.repository, job.rule.path),
            create_parent_dirs: true,
        }),
        clone_command(job.repository, job.rule.path).args[1] == remote_url(job.repository),
        step_model(job, JobState::Idle, JobEvent::PathObserved(PathState::Repository)).1
            == (ActionModel::Run { command: pull_command(job.rule.path), create_parent_dirs: false }),
        !pull_command(job.rule.path).args.contains(clone_word()),
{
    assert(pull_command(job.rule.path).args[0] != clone_word()) by {
        assert(pull_word()[0] != clone_word()[0]);
    }
}

/// Whether an action runs `git clone`.
pub open spec fn runs_clone(a: ActionModel) -> bool {
    match a {
        ActionModel::Run { command, .. } => command.program == git_program() && command.args.len()
            > 0 && command.args[0] == clone_word(),
        ActionModel::Stop => false,
    }
}

/// A job on a working copy never clones: it pulls, then runs the deploy
/// command (when that is not itself a `git clone`), then stops.
pub proof fn working_copy_never_cloned(job: JobModel, pulled: CommandOutcome, deployed: CommandOutcome)
    requires
        deploy_command_of(job.rule) matches Some(c) ==> !(c.program == git_program() && c.args.len()
            > 0 && c.args[0] == clone_word()),
    ensures
        !runs_clone(step_model(job, JobState::Idle, JobEvent::PathObserved(PathState::Repository)).1),
        !runs_clone(step_model(job, JobState::Pulling, JobEvent::CommandFinished(pulled)).1),
        step_model(job, JobState::RunningDeploy, JobEvent::CommandFinished(deployed)).1
            == ActionModel::Stop,
{
    assert(pull_word()[0] != clone_word()[0]);
}

/// Syncing a working copy whose pull succeeds, any number of times: each
/// sync issues the same pull, no clone, and reaches the same next state,
/// which is never a failure.
pub proof fn resync_idempotent(job: JobModel, first: CommandOutcome, second: CommandOutcome)
    requires
        first.success,
        second.success,
    ensures
        step_model(job, JobState::Idle, JobEvent::PathObserved(PathState::Repository)) == (
            JobState::Pulling,
            ActionModel::Run { command: pull_command(job.rule.path), create_parent_dirs: false },
        ),
        step_model(job, JobState::Pulling, JobEvent::CommandFinished(first)) == step_model(
            job,
            JobState::Pulling,
            JobEvent::CommandFinished(second),
        ),
        !(step_model(job, JobState::Pulling, JobEvent::CommandFinished(first)).0 is Failed),
{
}

} // verus!
