use gitmotion::orchestrator::{JobAction, JobEvent, JobRun, RunStage};
use gitmotion::registry::{JobStore, ProgressStep, StopOutcome};
use gitmotion::render::{video_path, GourceSettings, ProcessSpec};

const REPO: &str = "https://github.com/owner/repo";

fn settings() -> GourceSettings {
    GourceSettings {
        show_file_extension_key: false,
        show_usernames: true,
        show_dirnames: true,
        dir_font_size: 11,
        file_font_size: 10,
        user_font_size: 12,
    }
}

fn exited(success: bool, stdout: &str) -> JobEvent {
    JobEvent::Exited { success, stdout: stdout.to_string() }
}

fn args(p: &ProcessSpec) -> Vec<&str> {
    p.args.iter().map(|s| s.as_str()).collect()
}

fn submit(store: &mut JobStore) -> String {
    store.start_gource(REPO, Some(settings())).expect("fresh identifier")
}

#[test]
fn submitted_job_starts_initializing() {
    let mut store = JobStore::new();
    let id = store.start_gource(REPO, None).unwrap();
    let job = store.get_job_status(&id).unwrap();
    assert_eq!(job.step, ProgressStep::InitializingProject);
    assert_eq!(job.video_url, None);
    assert_eq!(job.error, None);
    assert_eq!(job.repo_url, REPO);
    assert_eq!(job.settings, GourceSettings::default());
}

#[test]
fn submitted_jobs_get_distinct_identifiers() {
    let mut store = JobStore::new();
    let a = submit(&mut store);
    let b = submit(&mut store);
    assert_ne!(a, b);
    assert!(!a.is_empty());
}

#[test]
fn unknown_job_has_no_status() {
    let store = JobStore::new();
    assert!(store.get_job_status("nope").is_none());
}

#[test]
fn stopping_an_unfinished_job_fails_it() {
    let mut store = JobStore::new();
    let id = submit(&mut store);
    assert_eq!(store.stop_job(&id), StopOutcome::Stopped);
    let job = store.get_job_status(&id).unwrap();
    assert_eq!(job.error.as_deref(), Some("Job stopped by user"));
    assert_eq!(job.video_url, None);
}

#[test]
fn stopping_a_finished_job_changes_nothing() {
    let mut store = JobStore::new();
    let id = submit(&mut store);
    store.set_video_url(&id, "/gource_videos/x.mp4");
    assert_eq!(store.stop_job(&id), StopOutcome::AlreadyFinished);
    let job = store.get_job_status(&id).unwrap();
    assert_eq!(job.video_url.as_deref(), Some("/gource_videos/x.mp4"));
    assert_eq!(job.error, None);
    assert_eq!(store.stop_job(&id), StopOutcome::AlreadyFinished);
}

#[test]
fn stopping_an_unknown_job() {
    let mut store = JobStore::new();
    assert_eq!(store.stop_job("nope"), StopOutcome::NotFound);
}

#[test]
fn finished_job_never_gets_both_results() {
    let mut store = JobStore::new();
    let id = submit(&mut store);
    store.stop_job(&id);
    store.set_video_url(&id, "/gource_videos/x.mp4");
    store.update_job_status(&id, ProgressStep::AnalyzingHistory);
    let job = store.get_job_status(&id).unwrap();
    assert_eq!(job.video_url, None);
    assert_eq!(job.step, ProgressStep::InitializingProject);
    assert_eq!(job.error.as_deref(), Some("Job stopped by user"));
}

#[test]
fn steps_do_not_go_back() {
    let mut store = JobStore::new();
    let id = submit(&mut store);
    store.update_job_status(&id, ProgressStep::GeneratingVisualization);
    store.update_job_status(&id, ProgressStep::AnalyzingHistory);
    assert_eq!(store.get_job_status(&id).unwrap().step, ProgressStep::GeneratingVisualization);
    assert_eq!(ProgressStep::AnalyzingHistory.number(), 2);
}

#[test]
fn duplicate_identifier_is_refused() {
    let mut store = JobStore::new();
    assert!(store.insert_job("a", REPO, settings()));
    store.fail_job("a", "boom");
    assert!(!store.insert_job("a", REPO, settings()));
    assert_eq!(store.get_job_status("a").unwrap().error.as_deref(), Some("boom"));
}

#[test]
fn end_to_end_success() {
    let mut store = JobStore::new();
    let id = submit(&mut store);
    let mut run = JobRun::new(&id, REPO, None, None, settings());

    assert!(matches!(run.advance(&mut store, JobEvent::Started), Some(JobAction::CreateWorkDir)));
    let action = run.advance(&mut store, JobEvent::WorkDirCreated { path: "/tmp/w".to_string() });
    match action {
        Some(JobAction::Clone(p)) => {
            assert_eq!(p.program, "git");
            assert_eq!(args(&p), vec!["clone", REPO, "/tmp/w"]);
            assert_eq!(p.current_dir, None);
        }
        _ => panic!("expected a clone"),
    }
    assert_eq!(store.get_job_status(&id).unwrap().step, ProgressStep::InitializingProject);

    match run.advance(&mut store, exited(true, "")) {
        Some(JobAction::CountCommits(p)) => {
            assert_eq!(args(&p), vec!["rev-list", "--count", "HEAD"]);
            assert_eq!(p.current_dir.as_deref(), Some("/tmp/w"));
        }
        _ => panic!("expected the commit count"),
    }
    assert_eq!(store.get_job_status(&id).unwrap().step, ProgressStep::AnalyzingHistory);

    match run.advance(&mut store, exited(true, "10\n")) {
        Some(JobAction::ListCommitDates(p)) => {
            assert_eq!(args(&p), vec!["log", "--format=%ad", "--date=short"]);
        }
        _ => panic!("expected the commit dates"),
    }

    let log = "2024-03-03\n2024-03-02\n2024-03-02\n2024-03-01\n";
    match run.advance(&mut store, exited(true, log)) {
        Some(JobAction::Render { renderer, encoder }) => {
            assert_eq!(renderer.program, "xvfb-run");
            let a = args(&renderer);
            assert_eq!(&a[..6], &["-a", "gource", "/tmp/w", "-1920x1200", "--seconds-per-day", "1.000000"]);
            let title = a.iter().position(|x| *x == "--title").unwrap();
            assert_eq!(a[title + 1], "owner/repo ⋅ gitmotion.app");
            let hide = a.iter().position(|x| *x == "--hide").unwrap();
            assert_eq!(a[hide + 1], "progress");
            assert!(!a.contains(&"--key"));
            assert_eq!(&a[a.len() - 2..], &["-o", "-"]);
            assert_eq!(encoder.program, "ffmpeg");
            let e = args(&encoder);
            assert_eq!(*e.last().unwrap(), format!("/gource_videos/gource_{}.mp4", id));
        }
        _ => panic!("expected the render"),
    }
    assert_eq!(store.get_job_status(&id).unwrap().step, ProgressStep::GeneratingVisualization);

    assert!(matches!(
        run.advance(&mut store, exited(true, "")),
        Some(JobAction::Finish { remove_work_dir: true })
    ));
    assert_eq!(run.stage(), RunStage::Finished);
    let job = store.get_job_status(&id).unwrap();
    assert_eq!(job.video_url, Some(format!("/gource_videos/gource_{}.mp4", id)));
    assert_eq!(job.error, None);
}

#[test]
fn clone_failure_fails_the_job_and_removes_the_work_dir() {
    let mut store = JobStore::new();
    let id = submit(&mut store);
    let mut run = JobRun::new(&id, REPO, None, None, settings());
    run.advance(&mut store, JobEvent::Started);
    run.advance(&mut store, JobEvent::WorkDirCreated { path: "/tmp/w".to_string() });
    assert!(matches!(
        run.advance(&mut store, exited(false, "")),
        Some(JobAction::Finish { remove_work_dir: true })
    ));
    let job = store.get_job_status(&id).unwrap();
    assert_eq!(job.error.as_deref(), Some("Failed to clone repository"));
    assert_eq!(job.video_url, None);
    assert_eq!(run.stage(), RunStage::Finished);
    assert!(run.advance(&mut store, exited(true, "")).is_none());
}

#[test]
fn invalid_address_fails_before_any_work() {
    let mut store = JobStore::new();
    assert!(store.insert_job("j", "nonsense", settings()));
    let mut run = JobRun::new("j", "nonsense", None, None, settings());
    assert!(matches!(
        run.advance(&mut store, JobEvent::Started),
        Some(JobAction::Finish { remove_work_dir: false })
    ));
    assert_eq!(store.get_job_status("j").unwrap().error.as_deref(), Some("Invalid URL"));
}

#[test]
fn other_hosts_are_unsupported() {
    let mut store = JobStore::new();
    let url = "https://gitlab.com/owner/repo";
    assert!(store.insert_job("j", url, settings()));
    let mut run = JobRun::new("j", url, None, None, settings());
    run.advance(&mut store, JobEvent::Started);
    assert_eq!(
        store.get_job_status("j").unwrap().error.as_deref(),
        Some("Only GitHub repositories are supported")
    );
}

#[test]
fn work_dir_failure() {
    let mut store = JobStore::new();
    let id = submit(&mut store);
    let mut run = JobRun::new(&id, REPO, None, None, settings());
    run.advance(&mut store, JobEvent::Started);
    assert!(matches!(
        run.advance(&mut store, JobEvent::WorkDirFailed),
        Some(JobAction::Finish { remove_work_dir: false })
    ));
    assert_eq!(
        store.get_job_status(&id).unwrap().error.as_deref(),
        Some("Failed to create temporary directory")
    );
}

#[test]
fn undecryptable_token_aborts_before_fetching() {
    let mut store = JobStore::new();
    let id = submit(&mut store);
    let mut run = JobRun::new(
        &id,
        REPO,
        Some("not-a-token".to_string()),
        Some("secret".to_string()),
        settings(),
    );
    run.advance(&mut store, JobEvent::Started);
    assert!(matches!(
        run.advance(&mut store, JobEvent::WorkDirCreated { path: "/tmp/w".to_string() }),
        Some(JobAction::Finish { remove_work_dir: true })
    ));
    assert_eq!(
        store.get_job_status(&id).unwrap().error.as_deref(),
        Some("Failed to decrypt access token")
    );
}

#[test]
fn bad_commit_count_fails() {
    let mut store = JobStore::new();
    let id = submit(&mut store);
    let mut run = JobRun::new(&id, REPO, None, None, settings());
    run.advance(&mut store, JobEvent::Started);
    run.advance(&mut store, JobEvent::WorkDirCreated { path: "/tmp/w".to_string() });
    run.advance(&mut store, exited(true, ""));
    run.advance(&mut store, exited(true, "many"));
    assert_eq!(
        store.get_job_status(&id).unwrap().error.as_deref(),
        Some("Failed to count commits")
    );
}

#[test]
fn render_failure_and_hidden_file_names() {
    let mut store = JobStore::new();
    let id = submit(&mut store);
    let s = GourceSettings { show_file_extension_key: true, show_usernames: false, ..settings() };
    let mut run = JobRun::new(&id, REPO, None, None, s);
    run.advance(&mut store, JobEvent::Started);
    run.advance(&mut store, JobEvent::WorkDirCreated { path: "/w".to_string() });
    run.advance(&mut store, exited(true, ""));
    run.advance(&mut store, exited(true, "501"));
    match run.advance(&mut store, exited(true, "2020-01-01\n")) {
        Some(JobAction::Render { renderer, .. }) => {
            let a = args(&renderer);
            assert!(a.contains(&"--key"));
            let hide = a.iter().position(|x| *x == "--hide").unwrap();
            assert_eq!(a[hide + 1], "progress,filenames,usernames");
            let dir = a.iter().position(|x| *x == "--dir-font-size").unwrap();
            assert_eq!(&a[dir..dir + 6], &["--dir-font-size", "11", "--file-font-size", "10", "--user-font-size", "12"]);
        }
        _ => panic!("expected the render"),
    }
    assert!(matches!(
        run.advance(&mut store, exited(false, "")),
        Some(JobAction::Finish { remove_work_dir: true })
    ));
    assert_eq!(
        store.get_job_status(&id).unwrap().error.as_deref(),
        Some("Failed to generate Gource visualization")
    );
}

#[test]
fn stopped_job_stays_failed_when_its_run_completes() {
    let mut store = JobStore::new();
    let id = submit(&mut store);
    let mut run = JobRun::new(&id, REPO, None, None, settings());
    run.advance(&mut store, JobEvent::Started);
    run.advance(&mut store, JobEvent::WorkDirCreated { path: "/w".to_string() });
    store.stop_job(&id);
    run.advance(&mut store, exited(true, ""));
    run.advance(&mut store, exited(true, "3"));
    run.advance(&mut store, exited(true, "2020-01-01\n"));
    run.advance(&mut store, exited(true, ""));
    let job = store.get_job_status(&id).unwrap();
    assert_eq!(job.video_url, None);
    assert_eq!(job.error.as_deref(), Some("Job stopped by user"));
}

#[test]
fn video_path_pattern() {
    assert_eq!(video_path("abc"), "/gource_videos/gource_abc.mp4");
}
