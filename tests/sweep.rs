use gitmotion::logging::{log_message, LogLevel};
use gitmotion::retention::{clear_gource_videos, is_expired_artifact, ArtifactEntry};

fn entry(path: &str, ext: Option<&str>, is_file: bool, modified: Option<u64>) -> ArtifactEntry {
    ArtifactEntry {
        path: path.to_string(),
        extension: ext.map(|e| e.to_string()),
        is_file,
        modified_secs: modified,
    }
}

#[test]
fn old_video_is_removed_and_recent_one_kept() {
    let now = 1_700_000_000u64;
    let entries = vec![
        entry("/gource_videos/old.mp4", Some("mp4"), true, Some(now - 7200)),
        entry("/gource_videos/new.mp4", Some("mp4"), true, Some(now - 60)),
    ];
    assert_eq!(clear_gource_videos(&entries, now), vec!["/gource_videos/old.mp4".to_string()]);
}

#[test]
fn only_video_files_are_swept() {
    let now = 1_700_000_000u64;
    let entries = vec![
        entry("/gource_videos/a.txt", Some("txt"), true, Some(0)),
        entry("/gource_videos/dir.mp4", Some("mp4"), false, Some(0)),
        entry("/gource_videos/b", None, true, Some(0)),
        entry("/gource_videos/c.mp4", Some("mp4"), true, None),
        entry("/gource_videos/d.mp4", Some("mp4"), true, Some(0)),
        entry("/gource_videos/e.mp4", Some("mp4"), true, Some(1)),
    ];
    assert_eq!(
        clear_gource_videos(&entries, now),
        vec!["/gource_videos/d.mp4".to_string(), "/gource_videos/e.mp4".to_string()]
    );
}

#[test]
fn retention_boundary() {
    let now = 10_000u64;
    assert!(!is_expired_artifact(&entry("x.mp4", Some("mp4"), true, Some(now - 3600)), now));
    assert!(is_expired_artifact(&entry("x.mp4", Some("mp4"), true, Some(now - 3601)), now));
    assert!(!is_expired_artifact(&entry("x.mp4", Some("mp4"), true, Some(now + 5)), now));
}

#[test]
fn log_targets() {
    let r = log_message(LogLevel::Info, "hello", Some("42"));
    assert_eq!(r.target, "job-42");
    assert_eq!(r.message, "hello");
    assert_eq!(r.level, LogLevel::Info);
    assert_eq!(log_message(LogLevel::Error, "x", None).target, "gitmotion_api");
}
