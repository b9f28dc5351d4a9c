//! The job registry: the single record of every job's progress, result and
//! error.

use vstd::prelude::*;
use vstd::hash_map::StringHashMap;
use crate::render::GourceSettings;

verus! {

/// Stage of a job that has not finished, in order.
#[derive(Clone, Copy, Debug, PartialEq, Eq, Structural)]
pub enum ProgressStep {
    InitializingProject,
    AnalyzingHistory,
    GeneratingVisualization,
}

impl ProgressStep {
    pub open spec fn rank(self) -> nat {
        match self {
            ProgressStep::InitializingProject => 1,
            ProgressStep::AnalyzingHistory => 2,
            ProgressStep::GeneratingVisualization => 3,
        }
    }

    /// Position of the stage: 1, 2 or 3.
    pub fn number(&self) -> (r: u8)
        ensures
            r == self.rank(),
    {
        match self {
            ProgressStep::InitializingProject => 1,
            ProgressStep::AnalyzingHistory => 2,
            ProgressStep::GeneratingVisualization => 3,
        }
    }
}

/// What the registry holds for one job.
pub struct JobStatus {
    pub step: ProgressStep,
    pub video_url: Option<String>,
    pub repo_url: String,
    pub error: Option<String>,
    pub settings: GourceSettings,
}

pub ghost struct JobView {
    pub step: ProgressStep,
    pub video_url: Option<Seq<char>>,
    pub repo_url: Seq<char>,
    pub error: Option<Seq<char>>,
    pub settings: GourceSettings,
}

impl JobView {
    /// Completed (a video) or failed (an error): nothing changes it any more.
    pub open spec fn is_terminal(self) -> bool {
        self.video_url is Some || self.error is Some
    }
}

impl View for JobStatus {
    type V = JobView;

    open spec fn view(&self) -> JobView {
        JobView {
            step: self.step,
            video_url: self.video_url.deep_view(),
            repo_url: self.repo_url@,
            error: self.error.deep_view(),
            settings: self.settings,
        }
    }
}

fn copy_text(s: &Option<String>) -> (r: Option<String>)
    ensures
        r.deep_view() == s.deep_view(),
{
    match s {
        Some(t) => Some(t.clone()),
        None => None,
    }
}

impl JobStatus {
    /// A copy of this status.
    pub fn snapshot(&self) -> (r: JobStatus)
        ensures
            r@ == self@,
    {
        JobStatus {
            step: self.step,
            video_url: copy_text(&self.video_url),
            repo_url: self.repo_url.clone(),
            error: copy_text(&self.error),
            settings: self.settings,
        }
    }
}

/// A job just submitted for `repo_url`.
pub open spec fn fresh_job(repo_url: Seq<char>, settings: GourceSettings) -> JobView {
    JobView {
        step: ProgressStep::InitializingProject,
        video_url: None,
        repo_url,
        error: None,
        settings,
    }
}

/// `jobs` after moving job `id` forward to `step`: only an unfinished job,
/// and never backwards.
pub open spec fn stepped(jobs: Map<Seq<char>, JobView>, id: Seq<char>, step: ProgressStep) -> Map<
    Seq<char>,
    JobView,
> {
    let j = jobs[id];
    if jobs.contains_key(id) && !j.is_terminal() && j.step.rank() <= step.rank() {
        jobs.insert(id, JobView { step, ..j })
    } else {
        jobs
    }
}

/// `jobs` after job `id`, if unfinished, completed with `video_url`.
pub open spec fn completed(jobs: Map<Seq<char>, JobView>, id: Seq<char>, video_url: Seq<char>) -> Map<
    Seq<char>,
    JobView,
> {
    let j = jobs[id];
    if jobs.contains_key(id) && !j.is_terminal() {
        jobs.insert(id, JobView { video_url: Some(video_url), ..j })
    } else {
        jobs
    }
}

/// `jobs` after job `id`, if unfinished, failed with `message` at the last
/// step.
pub open spec fn failed(jobs: Map<Seq<char>, JobView>, id: Seq<char>, message: Seq<char>) -> Map<
    Seq<char>,
    JobView,
> {
    let j = jobs[id];
    if jobs.contains_key(id) && !j.is_terminal() {
        jobs.insert(
            id,
            JobView { step: ProgressStep::GeneratingVisualization, error: Some(message), ..j },
        )
    } else {
        jobs
    }
}

/// Message of a job stopped on request.
pub open spec fn stopped_message() -> Seq<char> {
    "Job stopped by user"@
}

/// Result of a stop request.
#[derive(Clone, Copy, Debug, PartialEq, Eq, Structural)]
pub enum StopOutcome {
    Stopped,
    AlreadyFinished,
    NotFound,
}

/// Relies on uuid's `Uuid::new_v4` and its `ToString`: a random
/// identifier; nothing is promised of its value.
#[verifier::external_body]
fn new_job_id() -> (r: String) {
    uuid::Uuid::new_v4().to_string()
}

/// All jobs of this process, by identifier.
pub struct JobStore {
    jobs: StringHashMap<JobStatus>,
}

impl View for JobStore {
    type V = Map<Seq<char>, JobView>;

    closed spec fn view(&self) -> Map<Seq<char>, JobView> {
        self.jobs@.map_values(|j: JobStatus| j@)
    }
}

impl JobStore {
    /// Well-formed: no job has both a video and an error.
    pub closed spec fn wf(&self) -> bool {
        forall|k: Seq<char>| #[trigger]
            self.jobs@.contains_key(k) ==> !(self.jobs@[k].video_url is Some
                && self.jobs@[k].error is Some)
    }

    pub fn new() -> (r: JobStore)
        ensures
            r.wf(),
            r@ == Map::<Seq<char>, JobView>::empty(),
    {
        let r = JobStore { jobs: StringHashMap::new() };
        assert(r@ =~= Map::<Seq<char>, JobView>::empty());
        r
    }

    fn put(&mut self, job_id: &str, status: JobStatus)
        requires
            old(self).wf(),
            !(status@.video_url is Some && status@.error is Some),
        ensures
            final(self).wf(),
            final(self)@ == old(self)@.insert(job_id@, status@),
    {
        self.jobs.insert(String::from_str(job_id), status);
        assert(self@ =~= old(self)@.insert(job_id@, status@));
    }

    /// Records a new job under `job_id`, unless that identifier is taken.
    pub fn insert_job(&mut self, job_id: &str, repo_url: &str, settings: GourceSettings) -> (r:
        bool)
        requires
            old(self).wf(),
        ensures
            final(self).wf(),
            r == !old(self)@.contains_key(job_id@),
            r ==> final(self)@ == old(self)@.insert(job_id@, fresh_job(repo_url@, settings)),
            !r ==> final(self)@ == old(self)@,
    {
        if self.jobs.contains_key(job_id) {
            return false;
        }
        let status = JobStatus {
            step: ProgressStep::InitializingProject,
            video_url: None,
            repo_url: String::from_str(repo_url),
            error: None,
            settings,
        };
        self.put(job_id, status);
        true
    }

    /// Submits a job for `repo_url` under a fresh random identifier, with
    /// the default settings where none are given, and returns the
    /// identifier. Where the drawn identifier is already taken, nothing
    /// changes and that identifier comes back as the error; on an empty
    /// registry submission always succeeds.
    pub fn start_gource(&mut self, repo_url: &str, settings: Option<GourceSettings>) -> (r:
        Result<String, String>)
        requires
            old(self).wf(),
        ensures
            final(self).wf(),
            old(self)@ == Map::<Seq<char>, JobView>::empty() ==> r is Ok,
            match r {
                Ok(id) => {
                    &&& !old(self)@.contains_key(id@)
                    &&& exists|s: GourceSettings|
                        #![trigger fresh_job(repo_url@, s)]
                        (match settings {
                            Some(given) => s == given,
                            None => s.is_default(),
                        }) && final(self)@ == old(self)@.insert(id@, fresh_job(repo_url@, s))
                },
                Err(taken) => old(self)@.contains_key(taken@) && final(self)@ == old(self)@,
            },
    {
        let chosen = match settings {
            Some(s) => s,
            None => GourceSettings::default(),
        };
        let job_id = new_job_id();
        if self.insert_job(job_id.as_str(), repo_url, chosen) {
            Ok(job_id)
        } else {
            Err(job_id)
        }
    }

    /// A copy of the status of `job_id`, if there is such a job.
    pub fn get_job_status(&self, job_id: &str) -> (r: Option<JobStatus>)
        ensures
            match r {
                Some(j) => self@.contains_key(job_id@) && j@ == self@[job_id@],
                None => !self@.contains_key(job_id@),
            },
    {
        match self.jobs.get(job_id) {
            Some(j) => Some(j.snapshot()),
            None => None,
        }
    }

    /// Moves an unfinished job forward to `step`; a finished job, an
    /// earlier step or an unknown identifier change nothing.
    pub fn update_job_status(&mut self, job_id: &str, step: ProgressStep)
        requires
            old(self).wf(),
        ensures
            final(self).wf(),
            final(self)@ == stepped(old(self)@, job_id@, step),
    {
        match self.jobs.get(job_id) {
            Some(j) => {
                if j.video_url.is_none() && j.error.is_none() && j.step.number() <= step.number() {
                    let mut next = j.snapshot();
                    next.step = step;
                    self.put(job_id, next);
                }
            },
            None => {},
        }
    }

    /// Completes an unfinished job with the address of its video.
    pub fn set_video_url(&mut self, job_id: &str, video_url: &str)
        requires
            old(self).wf(),
        ensures
            final(self).wf(),
            final(self)@ == completed(old(self)@, job_id@, video_url@),
    {
        match self.jobs.get(job_id) {
            Some(j) => {
                if j.video_url.is_none() && j.error.is_none() {
                    let mut next = j.snapshot();
                    next.video_url = Some(String::from_str(video_url));
                    self.put(job_id, next);
                }
            },
            None => {},
        }
    }

    /// Fails an unfinished job with `message`, at the last step.
    pub fn fail_job(&mut self, job_id: &str, message: &str)
        requires
            old(self).wf(),
        ensures
            final(self).wf(),
            final(self)@ == failed(old(self)@, job_id@, message@),
    {
        match self.jobs.get(job_id) {
            Some(j) => {
                if j.video_url.is_none() && j.error.is_none() {
                    let mut next = j.snapshot();
                    next.step = ProgressStep::GeneratingVisualization;
                    next.error = Some(String::from_str(message));
                    self.put(job_id, next);
                }
            },
            None => {},
        }
    }

    /// Stops an unfinished job: it fails with the stop message. A finished
    /// job stays as it is.
    pub fn stop_job(&mut self, job_id: &str) -> (r: StopOutcome)
        requires
            old(self).wf(),
        ensures
            final(self).wf(),
            !old(self)@.contains_key(job_id@) ==> r == StopOutcome::NotFound && final(self)@
                == old(self)@,
            old(self)@.contains_key(job_id@) && old(self)@[job_id@].is_terminal() ==> r
                == StopOutcome::AlreadyFinished && final(self)@ == old(self)@,
            old(self)@.contains_key(job_id@) && !old(self)@[job_id@].is_terminal() ==> r
                == StopOutcome::Stopped && final(self)@ == old(self)@.insert(
                job_id@,
                JobView { error: Some(stopped_message()), ..old(self)@[job_id@] },
            ),
    {
        match self.jobs.get(job_id) {
            Some(j) => {
                if j.video_url.is_none() && j.error.is_none() {
                    let mut next = j.snapshot();
                    next.error = Some(String::from_str("Job stopped by user"));
                    self.put(job_id, next);
                    StopOutcome::Stopped
                } else {
                    StopOutcome::AlreadyFinished
                }
            },
            None => StopOutcome::NotFound,
        }
    }
}

/// A finished job is never changed again: moving it forward, completing it
/// or failing it leaves it as it was.
pub proof fn lemma_finished_job_is_frozen(
    jobs: Map<Seq<char>, JobView>,
    id: Seq<char>,
    step: ProgressStep,
    video_url: Seq<char>,
    message: Seq<char>,
)
    requires
        jobs.contains_key(id),
        jobs[id].is_terminal(),
    ensures
        stepped(jobs, id, step) == jobs,
        completed(jobs, id, video_url) == jobs,
        failed(jobs, id, message) == jobs,
{
}

/// No job in a registry ever reports both a video and an error.
pub proof fn lemma_never_completed_and_failed(store: &JobStore, job_id: Seq<char>)
    requires
        store.wf(),
    ensures
        store@.contains_key(job_id) ==> !(store@[job_id].video_url is Some
            && store@[job_id].error is Some),
{
    if store.jobs@.contains_key(job_id) {
        assert(store.jobs@[job_id].video_url is Some ==> store@[job_id].video_url is Some);
        assert(store.jobs@[job_id].error is Some ==> store@[job_id].error is Some);
    }
}

} // verus!
