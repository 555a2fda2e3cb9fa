use vidspeed::cleanup::{is_expired, select_expired};
use vidspeed::clock::Timestamp;
use vidspeed::config::{Config, EnvValues};
use vidspeed::jobs::{JobState, JobStatus, JobStore};
use vidspeed::upload::{field_role, prepare_upload, FieldRole, UploadError, UploadForm, DEFAULT_SPEED_BITS};

fn config() -> Config {
    Config::from_env(&EnvValues {
        max_file_size_mb: Some("1".to_string()),
        max_concurrent_jobs: None,
        temp_file_ttl_hours: None,
        rate_limit_requests: None,
        rate_limit_duration_secs: None,
        redis_url: None,
        jwt_secret: None,
        allowed_origins: None,
        upload_dir: Some("up".to_string()),
        processed_dir: Some("done".to_string()),
    })
    .ok()
    .unwrap()
}

fn at(secs: i64) -> Timestamp {
    Timestamp { secs, nanos: 0 }
}

fn queued(id: &str) -> JobStatus {
    JobStatus::queued(
        id.to_string(),
        format!("up/{}.mp4", id),
        "clip.mov".to_string(),
        at(1_700_000_000),
        1.5f64.to_bits(),
    )
}

#[test]
fn job_lifecycle_to_completion() {
    let mut store = JobStore::new();
    store.insert(queued("j1"));
    let r = store.status_report("j1").unwrap();
    assert_eq!(r.status, JobState::Queued);
    assert_eq!(r.status.as_str(), "queued");
    assert_eq!(r.progress, 0);
    assert!(!r.completed);
    assert!(store.download_target("j1").is_none());

    store.start_processing("j1");
    let r = store.status_report("j1").unwrap();
    assert_eq!(r.status.as_str(), "processing");
    assert_eq!(r.progress, 5);
    assert!(store.download_target("j1").is_none());

    store.complete("j1", "done/j1_out.mp4".to_string());
    let r = store.status_report("j1").unwrap();
    assert_eq!(r.status.as_str(), "completed");
    assert_eq!(r.progress, 100);
    assert!(r.completed);
    assert_eq!(f64::from_bits(r.speed_bits), 1.5);
    assert_eq!(r.original_filename.as_deref(), Some("clip.mov"));
    let t = store.download_target("j1").unwrap();
    assert_eq!(t.output_file, "done/j1_out.mp4");
    assert_eq!(t.original_filename.as_deref(), Some("clip.mov"));
}

#[test]
fn failed_job_reports_its_error() {
    let mut store = JobStore::new();
    store.insert(queued("j2"));
    store.start_processing("j2");
    store.fail("j2", "Video processing failed".to_string());
    let r = store.status_report("j2").unwrap();
    assert_eq!(r.status.as_str(), "failed");
    assert_eq!(r.progress, 5);
    assert_eq!(r.error.as_deref(), Some("Video processing failed"));
    assert!(!r.completed);
    assert!(store.download_target("j2").is_none());
}

#[test]
fn unknown_job_is_not_found() {
    let mut store = JobStore::new();
    store.insert(queued("a"));
    assert!(store.status_report("b").is_none());
    assert!(store.download_target("b").is_none());
    assert!(store.get("b").is_none());
    store.complete("b", "x".to_string());
    assert!(store.get("b").is_none());
    assert_eq!(store.status_report("a").unwrap().status, JobState::Queued);
}

#[test]
fn insert_replaces_and_keeps_others() {
    let mut store = JobStore::new();
    store.insert(queued("a"));
    store.insert(queued("b"));
    store.complete("a", "done/a".to_string());
    store.insert(queued("a"));
    assert_eq!(store.get("a").unwrap().status(), JobState::Queued);
    assert_eq!(store.get("b").unwrap().id(), "b");
    assert_eq!(store.get("b").unwrap().input_file().as_deref(), Some("up/b.mp4"));
    assert_eq!(store.get("b").unwrap().created_at(), at(1_700_000_000));
}

#[test]
fn field_roles() {
    assert_eq!(field_role("video"), FieldRole::Video);
    assert_eq!(field_role("speed"), FieldRole::Speed);
    assert_eq!(field_role("Video"), FieldRole::Ignored);
    assert_eq!(field_role(""), FieldRole::Ignored);
}

#[test]
fn form_defaults_and_video_name() {
    let mut form = UploadForm::new();
    assert!(form.video.is_none());
    assert_eq!(f64::from_bits(form.speed_bits), 2.0);
    assert_eq!(DEFAULT_SPEED_BITS, 2.0f64.to_bits());
    form.set_video(None, vec![1, 2, 3]);
    assert_eq!(form.original_filename, "video.mp4");
    form.set_video(Some("a.mov"), vec![4]);
    assert_eq!(form.original_filename, "a.mov");
    assert_eq!(form.video, Some(vec![4]));
}

#[test]
fn upload_without_video_is_refused() {
    let e = prepare_upload(UploadForm::new(), &config()).err().unwrap();
    assert_eq!(e, UploadError::NoVideo);
    assert_eq!(e.message(), "No video file received");
}

#[test]
fn upload_over_the_limit_is_refused() {
    let mut form = UploadForm::new();
    form.set_video(Some("big.mp4"), vec![0u8; 1024 * 1024 + 1]);
    let e = prepare_upload(form, &config()).err().unwrap();
    assert_eq!(e, UploadError::TooLarge { max_mb: 1 });
    assert_eq!(e.message(), "File too large (max 1MB)");
}

#[test]
fn accepted_upload_gets_fresh_id_and_paths() {
    let mut form = UploadForm::new();
    form.set_video(Some("ok.mp4"), vec![0u8; 1024 * 1024]);
    form.speed_bits = 3.0f64.to_bits();
    let p = prepare_upload(form, &config()).ok().unwrap();
    assert_eq!(p.job_id.len(), 36);
    assert_eq!(p.job_id.chars().nth(14), Some('4'));
    assert!(p.job_id.chars().all(|c| c == '-' || c.is_ascii_digit() || ('a'..='f').contains(&c)));
    assert_eq!(p.input_path, format!("up/{}.mp4", p.job_id));
    assert_eq!(p.output_path, format!("done/{}_out.mp4", p.job_id));
    assert_eq!(p.data.len(), 1024 * 1024);
    assert_eq!(p.original_filename, "ok.mp4");
    assert_eq!(f64::from_bits(p.speed_bits), 3.0);

    let mut again = UploadForm::new();
    again.set_video(None, vec![1]);
    let q = prepare_upload(again, &config()).ok().unwrap();
    assert_ne!(p.job_id, q.job_id);
}

#[test]
fn expiry_compares_the_exact_age() {
    let now = at(100 * 3600);
    assert!(!is_expired(now, at(76 * 3600), 24));
    assert!(is_expired(now, Timestamp { secs: 76 * 3600 - 1, nanos: 999_999_999 }, 24));
    assert!(is_expired(now, at(now.secs - 24 * 3600 - 1800), 24));
    assert!(!is_expired(now, at(now.secs + 10), 0));
    assert!(!is_expired(now, at(now.secs - 3600), u64::MAX));
    assert!(!is_expired(now, at(0), u64::MAX));
}

#[test]
fn old_entries_are_selected() {
    let now = at(100 * 3600);
    let entries = vec![
        Some(at(100 * 3600 - 24 * 3600)),
        Some(at(100 * 3600 - 25 * 3600)),
        None,
        Some(Timestamp { secs: 100 * 3600 - 24 * 3600 - 1800, nanos: 0 }),
        Some(at(200 * 3600)),
        Some(at(0)),
        Some(Timestamp { secs: 100 * 3600 - 24 * 3600, nanos: 1 }),
    ];
    assert_eq!(select_expired(now, &entries, 24), vec![1, 3, 5]);
    assert_eq!(select_expired(now, &entries, 0), vec![0, 1, 3, 5, 6]);
    assert_eq!(select_expired(now, &entries, u64::MAX), Vec::<usize>::new());
}

#[test]
fn second_cleanup_at_the_same_instant_removes_nothing() {
    let now = at(100 * 3600);
    let entries = vec![Some(at(0)), None, Some(at(99 * 3600)), Some(at(10 * 3600))];
    let first = select_expired(now, &entries, 24);
    assert_eq!(first, vec![0, 3]);
    let kept: Vec<Option<Timestamp>> = entries
        .iter()
        .enumerate()
        .filter(|(i, _)| !first.contains(i))
        .map(|(_, e)| *e)
        .collect();
    assert!(select_expired(now, &kept, 24).is_empty());
}

#[test]
fn finish_processing_records_the_outcome() {
    let mut store = JobStore::new();
    store.insert(queued("ok"));
    store.insert(queued("bad"));
    store.start_processing("ok");
    store.start_processing("bad");
    store.finish_processing("ok", "done/ok_out.mp4".to_string(), Ok(()));
    store.finish_processing("bad", "done/bad_out.mp4".to_string(), Err("boom".to_string()));
    let ok = store.status_report("ok").unwrap();
    assert_eq!((ok.status, ok.progress, ok.completed), (JobState::Completed, 100, true));
    assert_eq!(store.download_target("ok").unwrap().output_file, "done/ok_out.mp4");
    let bad = store.status_report("bad").unwrap();
    assert_eq!((bad.status, bad.progress, bad.completed), (JobState::Failed, 5, false));
    assert_eq!(bad.error.as_deref(), Some("boom"));
    assert!(store.download_target("bad").is_none());
}
