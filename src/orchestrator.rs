//! One job's run, as a state machine. Each event (the outcome of the last
//! action) moves the run and the registry on and names the next action;
//! the caller performs the actions (work directory, processes) and reports
//! back.

use vstd::prelude::*;
use vstd::utf8::encode_utf8;
use crate::error::GourceError;
use crate::history::{commit_days, count_commit_days, i32_text, parse_commit_count, trimmed};
use crate::pacing::{calculate_seconds_per_day, fixed_point_text, seconds_per_day};
use crate::registry::{completed, failed, stepped, JobStore, JobView, ProgressStep};
use crate::render::{
    clone_command, clone_process, count_command, count_process, dates_command, dates_process,
    encoder_command, encoder_process, renderer_command, renderer_process, video_path,
    video_path_text, GourceSettings, ProcessSpec, ProcessView,
};
use crate::repo_url::{clone_url, fetch_address, generate_repo_title, repo_title, repo_url_check, validate_repo_url};
use crate::token::{decrypt_token, token_plaintext};

verus! {

/// Total commit count above which file names are hidden.
pub const HIDE_FILENAMES_ABOVE: i32 = 500;

/// Where a run stands: which outcome it waits for.
#[derive(Clone, Copy, Debug, PartialEq, Eq, Structural)]
pub enum RunStage {
    Created,
    CreatingWorkDir,
    Cloning,
    CountingCommits,
    ListingCommitDates,
    Rendering,
    Finished,
}

/// The outcome of the last action.
pub enum JobEvent {
    /// The run begins.
    Started,
    /// The working directory exists, at `path`.
    WorkDirCreated { path: String },
    /// The working directory could not be made.
    WorkDirFailed,
    /// A process (or the renderer and encoder together) ended, successfully
    /// or not (a process that could not be started did not succeed).
    Exited { success: bool, stdout: String },
}

pub ghost enum EventView {
    Started,
    WorkDirCreated(Seq<char>),
    WorkDirFailed,
    Exited(bool, Seq<char>),
}

impl View for JobEvent {
    type V = EventView;

    open spec fn view(&self) -> EventView {
        match self {
            JobEvent::Started => EventView::Started,
            JobEvent::WorkDirCreated { path } => EventView::WorkDirCreated(path@),
            JobEvent::WorkDirFailed => EventView::WorkDirFailed,
            JobEvent::Exited { success, stdout } => EventView::Exited(*success, stdout@),
        }
    }
}

/// The next thing to do for a run.
pub enum JobAction {
    /// Make a fresh working directory.
    CreateWorkDir,
    /// Fetch the repository into the working directory.
    Clone(ProcessSpec),
    /// Print the total commit count.
    CountCommits(ProcessSpec),
    /// Print the date of each commit.
    ListCommitDates(ProcessSpec),
    /// Run the renderer with its output piped into the encoder's input.
    Render { renderer: ProcessSpec, encoder: ProcessSpec },
    /// The run is over; remove the working directory if there is one.
    Finish { remove_work_dir: bool },
}

pub ghost enum ActionView {
    CreateWorkDir,
    Clone(ProcessView),
    CountCommits(ProcessView),
    ListCommitDates(ProcessView),
    Render(ProcessView, ProcessView),
    Finish(bool),
}

impl View for JobAction {
    type V = ActionView;

    open spec fn view(&self) -> ActionView {
        match self {
            JobAction::CreateWorkDir => ActionView::CreateWorkDir,
            JobAction::Clone(p) => ActionView::Clone(p@),
            JobAction::CountCommits(p) => ActionView::CountCommits(p@),
            JobAction::ListCommitDates(p) => ActionView::ListCommitDates(p@),
            JobAction::Render { renderer, encoder } => ActionView::Render(renderer@, encoder@),
            JobAction::Finish { remove_work_dir } => ActionView::Finish(*remove_work_dir),
        }
    }
}

pub open spec fn action_view(a: Option<JobAction>) -> Option<ActionView> {
    match a {
        Some(x) => Some(x@),
        None => None,
    }
}

pub ghost struct RunView {
    pub job_id: Seq<char>,
    pub repo_url: Seq<char>,
    pub access_token: Option<Seq<char>>,
    pub secret_key: Option<Seq<char>>,
    pub settings: GourceSettings,
    pub stage: RunStage,
    pub work_dir: Seq<char>,
    pub total_commits: i32,
}

/// One job's run.
pub struct JobRun {
    job_id: String,
    repo_url: String,
    access_token: Option<String>,
    secret_key: Option<String>,
    settings: GourceSettings,
    stage: RunStage,
    work_dir: String,
    total_commits: i32,
}

impl View for JobRun {
    type V = RunView;

    closed spec fn view(&self) -> RunView {
        RunView {
            job_id: self.job_id@,
            repo_url: self.repo_url@,
            access_token: self.access_token.deep_view(),
            secret_key: self.secret_key.deep_view(),
            settings: self.settings,
            stage: self.stage,
            work_dir: self.work_dir@,
            total_commits: self.total_commits,
        }
    }
}

/// The credential to fetch with: none without a token; the decrypted token
/// otherwise, which takes the server secret.
pub open spec fn credential(token: Option<Seq<char>>, secret: Option<Seq<char>>) -> Result<
    Option<Seq<char>>,
    GourceError,
> {
    match token {
        None => Ok(None),
        Some(t) => match secret {
            None => Err(GourceError::DecryptionFailed),
            Some(k) => match token_plaintext(encode_utf8(t), encode_utf8(k)) {
                Some(p) => Ok(Some(p)),
                None => Err(GourceError::DecryptionFailed),
            },
        },
    }
}

pub type Jobs = Map<Seq<char>, JobView>;

/// The run ends in failure `e`: the job records the error.
pub open spec fn fail_with(run: RunView, jobs: Jobs, e: GourceError, remove_work_dir: bool) -> (
    RunView,
    Jobs,
    Option<ActionView>,
) {
    (
        RunView { stage: RunStage::Finished, ..run },
        failed(jobs, run.job_id, e.message_text()),
        Some(ActionView::Finish(remove_work_dir)),
    )
}

/// The render commands for a run whose history has been read.
pub open spec fn render_action(run: RunView, log_output: Seq<char>) -> ActionView {
    let spd = seconds_per_day(commit_days(log_output).len());
    ActionView::Render(
        renderer_process(
            run.work_dir,
            fixed_point_text(spd.num, spd.den),
            repo_title(run.repo_url),
            run.settings,
            run.total_commits > HIDE_FILENAMES_ABOVE,
        ),
        encoder_process(video_path_text(run.job_id)),
    )
}

/// The lifecycle: validate the address, make the working directory,
/// resolve the credential, fetch, count commits, list commit dates, render,
/// complete. Any failure ends the run and fails the job; an event that does
/// not answer the pending action changes nothing.
pub open spec fn transition(run: RunView, jobs: Jobs, event: EventView) -> (
    RunView,
    Jobs,
    Option<ActionView>,
) {
    let id = run.job_id;
    match (run.stage, event) {
        (RunStage::Created, EventView::Started) => {
            let j = stepped(jobs, id, ProgressStep::InitializingProject);
            match repo_url_check(run.repo_url) {
                Err(e) => fail_with(run, j, e, false),
                Ok(_) => (
                    RunView { stage: RunStage::CreatingWorkDir, ..run },
                    j,
                    Some(ActionView::CreateWorkDir),
                ),
            }
        },
        (RunStage::CreatingWorkDir, EventView::WorkDirFailed) => fail_with(
            run,
            jobs,
            GourceError::TempDirCreationFailed,
            false,
        ),
        (RunStage::CreatingWorkDir, EventView::WorkDirCreated(path)) => {
            let r = RunView { work_dir: path, ..run };
            match credential(run.access_token, run.secret_key) {
                Err(e) => fail_with(r, jobs, e, true),
                Ok(cred) => match fetch_address(run.repo_url, cred) {
                    None => fail_with(r, jobs, GourceError::InvalidUrl, true),
                    Some(a) => (
                        RunView { stage: RunStage::Cloning, ..r },
                        jobs,
                        Some(ActionView::Clone(clone_process(a, path))),
                    ),
                },
            }
        },
        (RunStage::Cloning, EventView::Exited(success, _)) => if !success {
            fail_with(run, jobs, GourceError::CloneFailed, true)
        } else {
            (
                RunView { stage: RunStage::CountingCommits, ..run },
                stepped(jobs, id, ProgressStep::AnalyzingHistory),
                Some(ActionView::CountCommits(count_process(run.work_dir))),
            )
        },
        (RunStage::CountingCommits, EventView::Exited(success, out)) => if !success {
            fail_with(run, jobs, GourceError::CommitCountFailed, true)
        } else {
            match i32_text(trimmed(out)) {
                None => fail_with(run, jobs, GourceError::CommitCountFailed, true),
                Some(n) => (
                    RunView { stage: RunStage::ListingCommitDates, total_commits: n, ..run },
                    jobs,
                    Some(ActionView::ListCommitDates(dates_process(run.work_dir))),
                ),
            }
        },
        (RunStage::ListingCommitDates, EventView::Exited(success, out)) => if !success {
            fail_with(run, jobs, GourceError::CommitCountFailed, true)
        } else {
            (
                RunView { stage: RunStage::Rendering, ..run },
                stepped(jobs, id, ProgressStep::GeneratingVisualization),
                Some(render_action(run, out)),
            )
        },
        (RunStage::Rendering, EventView::Exited(success, _)) => if !success {
            fail_with(run, jobs, GourceError::GourceGenerationFailed, true)
        } else {
            (
                RunView { stage: RunStage::Finished, ..run },
                completed(
                    stepped(jobs, id, ProgressStep::GeneratingVisualization),
                    id,
                    video_path_text(id),
                ),
                Some(ActionView::Finish(true)),
            )
        },
        _ => (run, jobs, None),
    }
}

/// Once the working directory exists, every way the run ends asks for its
/// removal; before it exists, no way does.
pub proof fn lemma_work_dir_removed_at_end(run: RunView, jobs: Jobs, event: EventView)
    ensures
        ({
            let (next, _, action) = transition(run, jobs, event);
            action matches Some(ActionView::Finish(remove)) ==> remove == (
            run.stage != RunStage::Created && event != EventView::WorkDirFailed)
        }),
{
}

/// A run that fails validation ends before any work: its only action is
/// to finish, and the job records the error.
pub proof fn lemma_invalid_address_fails_fast(run: RunView, jobs: Jobs)
    requires
        run.stage == RunStage::Created,
        repo_url_check(run.repo_url) is Err,
    ensures
        ({
            let (next, after, action) = transition(run, jobs, EventView::Started);
            &&& next.stage == RunStage::Finished
            &&& action == Some(ActionView::Finish(false))
            &&& after == failed(
                stepped(jobs, run.job_id, ProgressStep::InitializingProject),
                run.job_id,
                repo_url_check(run.repo_url)->Err_0.message_text(),
            )
        }),
{
}

/// A failed fetch fails the job with the clone message and ends the run
/// with the working directory removed, whatever the fetch printed.
pub proof fn lemma_clone_failure(run: RunView, jobs: Jobs, stdout: Seq<char>)
    requires
        run.stage == RunStage::Cloning,
    ensures
        ({
            let (next, after, action) = transition(run, jobs, EventView::Exited(false, stdout));
            &&& next.stage == RunStage::Finished
            &&& action == Some(ActionView::Finish(true))
            &&& after == failed(jobs, run.job_id, GourceError::CloneFailed.message_text())
        }),
{
}

impl JobRun {
    /// A run, not yet started, for a job already in the registry.
    pub fn new(
        job_id: &str,
        repo_url: &str,
        access_token: Option<String>,
        secret_key: Option<String>,
        settings: GourceSettings,
    ) -> (r: JobRun)
        ensures
            r@ == (RunView {
                job_id: job_id@,
                repo_url: repo_url@,
                access_token: access_token.deep_view(),
                secret_key: secret_key.deep_view(),
                settings,
                stage: RunStage::Created,
                work_dir: Seq::empty(),
                total_commits: 0,
            }),
    {
        JobRun {
            job_id: String::from_str(job_id),
            repo_url: String::from_str(repo_url),
            access_token,
            secret_key,
            settings,
            stage: RunStage::Created,
            work_dir: String::new(),
            total_commits: 0,
        }
    }

    pub fn stage(&self) -> (r: RunStage)
        ensures
            r == self@.stage,
    {
        self.stage
    }

    fn fail(&mut self, store: &mut JobStore, e: GourceError, remove_work_dir: bool) -> (r: Option<
        JobAction,
    >)
        requires
            old(store).wf(),
        ensures
            final(store).wf(),
            (final(self)@, final(store)@, action_view(r)) == fail_with(
                old(self)@,
                old(store)@,
                e,
                remove_work_dir,
            ),
    {
        let message = e.message();
        store.fail_job(self.job_id.as_str(), message.as_str());
        self.stage = RunStage::Finished;
        Some(JobAction::Finish { remove_work_dir })
    }

    fn resolve_credential(&self) -> (r: Result<Option<String>, GourceError>)
        ensures
            match credential(self@.access_token, self@.secret_key) {
                Ok(c) => r is Ok && r->Ok_0.deep_view() == c,
                Err(e) => r == Err::<Option<String>, GourceError>(e),
            },
    {
        match &self.access_token {
            None => Ok(None),
            Some(t) => match &self.secret_key {
                None => Err(GourceError::DecryptionFailed),
                Some(k) => match decrypt_token(t.as_str(), k.as_str()) {
                    Ok(p) => Ok(Some(p)),
                    Err(_) => Err(GourceError::DecryptionFailed),
                },
            },
        }
    }

    fn on_work_dir(&mut self, store: &mut JobStore, path: String) -> (r: Option<JobAction>)
        requires
            old(store).wf(),
            old(self)@.stage == RunStage::CreatingWorkDir,
        ensures
            final(store).wf(),
            (final(self)@, final(store)@, action_view(r)) == transition(
                old(self)@,
                old(store)@,
                EventView::WorkDirCreated(path@),
            ),
    {
        self.work_dir = path;
        let cred = match self.resolve_credential() {
            Ok(c) => c,
            Err(e) => return self.fail(store, e, true),
        };
        let token: Option<&str> = match &cred {
            Some(c) => Some(c.as_str()),
            None => None,
        };
        match clone_url(self.repo_url.as_str(), token) {
            Err(_) => self.fail(store, GourceError::InvalidUrl, true),
            Ok(a) => {
                self.stage = RunStage::Cloning;
                Some(JobAction::Clone(clone_command(a.as_str(), self.work_dir.as_str())))
            },
        }
    }

    fn on_history(&mut self, store: &mut JobStore, log_output: &str) -> (r: Option<JobAction>)
        requires
            old(store).wf(),
            old(self)@.stage == RunStage::ListingCommitDates,
        ensures
            final(store).wf(),
            (final(self)@, final(store)@, action_view(r)) == transition(
                old(self)@,
                old(store)@,
                EventView::Exited(true, log_output@),
            ),
    {
        let days = count_commit_days(log_output);
        let spd = calculate_seconds_per_day(days);
        let spd_text = spd.to_decimal_string();
        let title = generate_repo_title(self.repo_url.as_str());
        let hide_filenames = self.total_commits > HIDE_FILENAMES_ABOVE;
        let renderer = renderer_command(
            self.work_dir.as_str(),
            spd_text.as_str(),
            title.as_str(),
            &self.settings,
            hide_filenames,
        );
        let output = video_path(self.job_id.as_str());
        let encoder = encoder_command(output.as_str());
        store.update_job_status(self.job_id.as_str(), ProgressStep::GeneratingVisualization);
        self.stage = RunStage::Rendering;
        Some(JobAction::Render { renderer, encoder })
    }

    /// Takes the outcome of the pending action, updates the registry, and
    /// returns the next action; `None` where `event` does not answer the
    /// pending action, and then nothing changes.
    pub fn advance(&mut self, store: &mut JobStore, event: JobEvent) -> (r: Option<JobAction>)
        requires
            old(store).wf(),
        ensures
            final(store).wf(),
            (final(self)@, final(store)@, action_view(r)) == transition(
                old(self)@,
                old(store)@,
                event@,
            ),
    {
        match (self.stage, event) {
            (RunStage::Created, JobEvent::Started) => {
                store.update_job_status(self.job_id.as_str(), ProgressStep::InitializingProject);
                match validate_repo_url(self.repo_url.as_str()) {
                    Err(e) => self.fail(store, e, false),
                    Ok(_) => {
                        self.stage = RunStage::CreatingWorkDir;
                        Some(JobAction::CreateWorkDir)
                    },
                }
            },
            (RunStage::CreatingWorkDir, JobEvent::WorkDirFailed) => self.fail(
                store,
                GourceError::TempDirCreationFailed,
                false,
            ),
            (RunStage::CreatingWorkDir, JobEvent::WorkDirCreated { path }) => self.on_work_dir(
                store,
                path,
            ),
            (RunStage::Cloning, JobEvent::Exited { success, stdout: _ }) => {
                if !success {
                    self.fail(store, GourceError::CloneFailed, true)
                } else {
                    store.update_job_status(self.job_id.as_str(), ProgressStep::AnalyzingHistory);
                    self.stage = RunStage::CountingCommits;
                    Some(JobAction::CountCommits(count_command(self.work_dir.as_str())))
                }
            },
            (RunStage::CountingCommits, JobEvent::Exited { success, stdout }) => {
                if !success {
                    self.fail(store, GourceError::CommitCountFailed, true)
                } else {
                    match parse_commit_count(stdout.as_str()) {
                        Err(_) => self.fail(store, GourceError::CommitCountFailed, true),
                        Ok(n) => {
                            self.total_commits = n;
                            self.stage = RunStage::ListingCommitDates;
                            Some(JobAction::ListCommitDates(dates_command(self.work_dir.as_str())))
                        },
                    }
                }
            },
            (RunStage::ListingCommitDates, JobEvent::Exited { success, stdout }) => {
                if !success {
                    self.fail(store, GourceError::CommitCountFailed, true)
                } else {
                    self.on_history(store, stdout.as_str())
                }
            },
            (RunStage::Rendering, JobEvent::Exited { success, stdout: _ }) => {
                if !success {
                    self.fail(store, GourceError::GourceGenerationFailed, true)
                } else {
                    store.update_job_status(
                        self.job_id.as_str(),
                        ProgressStep::GeneratingVisualization,
                    );
                    let url = video_path(self.job_id.as_str());
                    store.set_video_url(self.job_id.as_str(), url.as_str());
                    self.stage = RunStage::Finished;
                    Some(JobAction::Finish { remove_work_dir: true })
                }
            },
            _ => None,
        }
    }
}

} // verus!
