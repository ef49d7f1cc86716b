//! Per-repository serialization of deployment jobs: at most one job per
//! repository runs at a time; later jobs for it wait, in arrival order,
//! while jobs for other repositories start at once.

use vstd::prelude::*;
use crate::executor::{DeploymentJob, JobModel, texts};
use crate::text::text_eq;

verus! {

/// The queue as mathematical values.
pub ghost struct QueueModel {
    pub running: Seq<Seq<char>>,
    pub waiting: Seq<JobModel>,
}

/// The repositories with a job in flight, and the jobs waiting for them.
pub struct JobQueue {
    running: Vec<String>,
    waiting: Vec<DeploymentJob>,
}

pub open spec fn jobs_view(v: Seq<DeploymentJob>) -> Seq<JobModel> {
    v.map_values(|j: DeploymentJob| j@)
}

/// No name occurs twice.
pub open spec fn distinct(names: Seq<Seq<char>>) -> bool {
    forall|i: int, j: int|
        0 <= i < names.len() && 0 <= j < names.len() && i != j ==> #[trigger] names[i]
            != #[trigger] names[j]
}

/// The index of the first waiting job for `repo`, if any.
pub open spec fn first_waiting(waiting: Seq<JobModel>, repo: Seq<char>) -> Option<int> {
    if exists|i: int|
        0 <= i < waiting.len() && #[trigger] waiting[i].repository == repo && forall|j: int|
            0 <= j < i ==> waiting[j].repository != repo {
        Some(
            choose|i: int|
                0 <= i < waiting.len() && #[trigger] waiting[i].repository == repo && forall|j: int|
                    0 <= j < i ==> waiting[j].repository != repo,
        )
    } else {
        None
    }
}

impl View for JobQueue {
    type V = QueueModel;

    closed spec fn view(&self) -> QueueModel {
        QueueModel { running: texts(self.running@), waiting: jobs_view(self.waiting@) }
    }
}

impl JobQueue {
    /// Each repository is running at most once, and every waiting job
    /// waits for a repository that is running.
    pub open spec fn well_formed(&self) -> bool {
        &&& distinct(self@.running)
        &&& forall|i: int|
            0 <= i < self@.waiting.len() ==> self@.running.contains(
                #[trigger] self@.waiting[i].repository,
            )
    }

    /// An empty queue.
    pub fn new() -> (r: JobQueue)
        ensures
            r.well_formed(),
            r@.running.len() == 0,
            r@.waiting.len() == 0,
    {
        let r = JobQueue { running: Vec::new(), waiting: Vec::new() };
        assert(r@.running =~= Seq::<Seq<char>>::empty());
        assert(r@.waiting =~= Seq::<JobModel>::empty());
        r
    }

    fn running_index(&self, repo: &str) -> (r: Option<usize>)
        ensures
            match r {
                Some(k) => k < self@.running.len() && self@.running[k as int] == repo@,
                None => !self@.running.contains(repo@),
            },
    {
        let mut k: usize = 0;
        while k < self.running.len()
            invariant
                0 <= k <= self.running@.len(),
                self@.running == texts(self.running@),
                forall|j: int| 0 <= j < k ==> self@.running[j] != repo@,
            decreases self.running@.len() - k,
        {
            if text_eq(self.running[k].as_str(), repo) {
                return Some(k);
            }
            k = k + 1;
        }
        None
    }

    fn waiting_index(&self, repo: &str) -> (r: Option<usize>)
        ensures
            match r {
                Some(i) => first_waiting(self@.waiting, repo@) == Some(i as int),
                None => first_waiting(self@.waiting, repo@) is None && forall|j: int|
                    0 <= j < self@.waiting.len() ==> #[trigger] self@.waiting[j].repository != repo@,
            },
    {
        let mut i: usize = 0;
        while i < self.waiting.len()
            invariant
                0 <= i <= self.waiting@.len(),
                self@.waiting == jobs_view(self.waiting@),
                forall|j: int| 0 <= j < i ==> self@.waiting[j].repository != repo@,
            decreases self.waiting@.len() - i,
        {
            if text_eq(self.waiting[i].repository.as_str(), repo) {
                let ghost w = self@.waiting;
                assert(w[i as int].repository == repo@ && forall|j: int|
                    0 <= j < i ==> w[j].repository != repo@);
                let ghost c = choose|c: int|
                    0 <= c < w.len() && #[trigger] w[c].repository == repo@ && forall|j: int|
                        0 <= j < c ==> w[j].repository != repo@;
                assert(c == i as int) by {
                    if c < i {
                        assert(w[c].repository != repo@);
                    } else if c > i {
                        assert(w[i as int].repository != repo@);
                    }
                }
                return Some(i);
            }
            i = i + 1;
        }
        None
    }

    /// Hands a job to the queue. It comes back, to be started now, when no
    /// job for its repository is running, and the repository is then marked
    /// running; otherwise it waits behind the jobs already waiting.
    pub fn submit(&mut self, job: DeploymentJob) -> (r: Option<DeploymentJob>)
        requires
            old(self).well_formed(),
        ensures
            final(self).well_formed(),
            old(self)@.running.contains(job@.repository) ==> r is None && final(self)@.running
                == old(self)@.running && final(self)@.waiting == old(self)@.waiting.push(job@),
            !old(self)@.running.contains(job@.repository) ==> r is Some && r->0@ == job@
                && final(self)@.running == old(self)@.running.push(job@.repository)
                && final(self)@.waiting == old(self)@.waiting,
    {
        match self.running_index(job.repository.as_str()) {
            Some(_) => {
                let ghost before = self@;
                self.waiting.push(job);
                assert(self@.waiting =~= before.waiting.push(job@));
                assert(self@.running == before.running);
                assert forall|i: int| 0 <= i < self@.waiting.len() implies self@.running.contains(
                    #[trigger] self@.waiting[i].repository,
                ) by {
                    if i < before.waiting.len() {
                        assert(self@.waiting[i] == before.waiting[i]);
                    }
                }
                None
            },
            None => {
                let ghost before = self@;
                self.running.push(job.repository.clone());
                assert(self@.running =~= before.running.push(job@.repository));
                assert(self@.waiting == before.waiting);
                assert forall|i: int| 0 <= i < self@.waiting.len() implies self@.running.contains(
                    #[trigger] self@.waiting[i].repository,
                ) by {
                    assert(before.running.contains(before.waiting[i].repository));
                    let k = choose|k: int| 0 <= k < before.running.len() && before.running[k] == before.waiting[i].repository;
                    assert(self@.running[k] == before.running[k]);
                }
                Some(job)
            },
        }
    }

    /// Reports that the running job for `repo` has ended. Returns the first
    /// job waiting for it, to be started now, the repository staying
    /// running; when none waits, the repository is no longer running.
    pub fn finish(&mut self, repo: &str) -> (r: Option<DeploymentJob>)
        requires
            old(self).well_formed(),
        ensures
            final(self).well_formed(),
            match first_waiting(old(self)@.waiting, repo@) {
                Some(i) => r is Some && r->0@ == old(self)@.waiting[i] && final(self)@.waiting
                    == old(self)@.waiting.remove(i) && final(self)@.running
                    == old(self)@.running,
                None => r is None && final(self)@.waiting == old(self)@.waiting
                    && !final(self)@.running.contains(repo@) && final(self)@.running.to_set()
                    == old(self)@.running.to_set().remove(repo@),
            },
    {
        let ghost before = self@;
        match self.waiting_index(repo) {
            Some(i) => {
                let job = self.waiting.remove(i);
                assert(self@.waiting =~= before.waiting.remove(i as int));
                assert(self@.running == before.running);
                assert forall|j: int| 0 <= j < self@.waiting.len() implies self@.running.contains(
                    #[trigger] self@.waiting[j].repository,
                ) by {
                    if j < i {
                        assert(self@.waiting[j] == before.waiting[j]);
                    } else {
                        assert(self@.waiting[j] == before.waiting[j + 1]);
                    }
                }
                Some(job)
            },
            None => {
                match self.running_index(repo) {
                    Some(k) => {
                        let _ = self.running.remove(k);
                        assert(self@.running =~= before.running.remove(k as int));
                        assert forall|j: int| 0 <= j < self@.waiting.len() implies self@.running.contains(
                            #[trigger] self@.waiting[j].repository,
                        ) by {
                            let n = before.waiting[j].repository;
                            assert(before.running.contains(n));
                            let m = choose|m: int| 0 <= m < before.running.len() && before.running[m] == n;
                            assert(m != k);
                            if m < k {
                                assert(self@.running[m] == n);
                            } else {
                                assert(self@.running[m - 1] == n);
                            }
                        }
                        assert(!self@.running.contains(repo@)) by {
                            if self@.running.contains(repo@) {
                                let m = choose|m: int| 0 <= m < self@.running.len() && self@.running[m] == repo@;
                                if m < k {
                                    assert(before.running[m] == repo@);
                                } else {
                                    assert(before.running[m + 1] == repo@);
                                }
                            }
                        }
                        assert(self@.running.to_set() =~= before.running.to_set().remove(repo@)) by {
                            assert forall|n: Seq<char>| #[trigger] self@.running.to_set().contains(n) implies before.running.to_set().contains(n) by {
                                let m = choose|m: int| 0 <= m < self@.running.len() && self@.running[m] == n;
                                if m < k {
                                    assert(before.running[m] == n);
                                } else {
                                    assert(before.running[m + 1] == n);
                                }
                            }
                            assert forall|n: Seq<char>| #[trigger] before.running.to_set().contains(n) && n != repo@ implies self@.running.to_set().contains(n) by {
                                let m = choose|m: int| 0 <= m < before.running.len() && before.running[m] == n;
                                if m < k {
                                    assert(self@.running[m] == n);
                                } else {
                                    assert(m != k);
                                    assert(self@.running[m - 1] == n);
                                }
                            }
                        }
                    },
                    None => {
                        assert(self@.running.to_set() =~= before.running.to_set().remove(repo@));
                    },
                }
                None
            },
        }
    }
}

/// However jobs are submitted and finished, no repository ever has two
/// jobs in flight: a well-formed queue names each running repository once.
pub proof fn one_job_per_repository(q: QueueModel, i: int, j: int)
    requires
        distinct(q.running),
        0 <= i < q.running.len(),
        0 <= j < q.running.len(),
        i != j,
    ensures
        q.running[i] != q.running[j],
{
}

} // verus!
