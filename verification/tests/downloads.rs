use swt2::downloads::{already_complete, range_header, resume_plan, status_is_success, total_size, DownloadState};

#[test]
fn one_download_at_a_time() {
    let mut s = DownloadState::new();
    assert!(s.active_model().is_none());
    let m = s.begin("Silero/Silero-VAD").unwrap();
    assert_eq!(m.local_dir_name, "Silero-VAD");
    assert_eq!(s.active_model().unwrap(), "Silero/Silero-VAD");
    let e = s.begin("HTDemucs/HTDemucs").err().unwrap();
    assert_eq!(e, "已有下载任务在进行中");
    assert_eq!(s.active_model().unwrap(), "Silero/Silero-VAD");
    s.finish();
    assert!(s.active_model().is_none());
    assert!(s.begin("HTDemucs/HTDemucs").is_ok());
}

#[test]
fn unknown_model_is_refused() {
    let mut s = DownloadState::new();
    assert_eq!(s.begin("nobody/nothing").err().unwrap(), "Unknown model: nobody/nothing");
    assert!(s.active_model().is_none());
}

#[test]
fn cancelling() {
    let mut s = DownloadState::new();
    s.cancel();
    assert!(!s.is_cancelled());
    assert!(s.active.is_none());
    s.begin("Vevo2/Vevo2-GGUF").unwrap();
    assert!(!s.is_cancelled());
    s.cancel();
    assert!(s.is_cancelled());
    assert_eq!(s.active_model().unwrap(), "Vevo2/Vevo2-GGUF");
    s.finish();
    assert!(!s.is_cancelled());
}

#[test]
fn resume_decisions() {
    assert!(already_complete(100, 100));
    assert!(already_complete(150, 100));
    assert!(!already_complete(99, 100));
    assert!(!already_complete(0, 0));
    assert!(!already_complete(10, 0));
    assert!(range_header(0).is_none());
    assert_eq!(range_header(12345).unwrap(), "bytes=12345-");
    assert_eq!(range_header(u64::MAX).unwrap(), "bytes=18446744073709551615-");
    assert_eq!(resume_plan(206, 500), (true, 500));
    assert_eq!(resume_plan(200, 500), (false, 0));
    assert_eq!(resume_plan(206, 0), (false, 0));
    assert!(status_is_success(200) && status_is_success(206) && status_is_success(299));
    assert!(!status_is_success(199) && !status_is_success(300) && !status_is_success(404));
}

#[test]
fn announced_sizes() {
    assert_eq!(total_size(Some("1048576")), 1048576);
    assert_eq!(total_size(Some("+42")), 42);
    assert_eq!(total_size(Some("18446744073709551615")), u64::MAX);
    assert_eq!(total_size(Some("18446744073709551616")), 0);
    assert_eq!(total_size(Some("-1")), 0);
    assert_eq!(total_size(Some(" 5")), 0);
    assert_eq!(total_size(Some("")), 0);
    assert_eq!(total_size(Some("+")), 0);
    assert_eq!(total_size(None), 0);
}
