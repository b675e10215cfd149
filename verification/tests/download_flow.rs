use tomato_novel::download::{flow_step, FlowAction, FlowInput, FlowState};
use tomato_novel::download::{pending_plan, PendingPlan};
use tomato_novel::download::{
    accepts_retry, book_summary_lines, count_download_state, ensure_local_download_exists,
    find_cover_image, flow_mode, has_local_download_record, initial_mode_step, mode_plan,
    prompt_range, retry_once, retry_policy, select_download_mode, short_description, BookMeta,
    ChapterRange, ChapterRecord, DownloadMode, DownloadOptions, FlowMode, FolderEntry, ModePlan,
    ModeStep, RangeAnswer, RetryPolicy, StatusFolder,
};

fn folder(name: &str, has_status_file: bool) -> StatusFolder {
    StatusFolder { name: name.to_string(), has_status_file }
}

fn entry(name: &str, is_file: bool) -> FolderEntry {
    FolderEntry { name: name.to_string(), is_file }
}

fn record(id: &str, saved: bool) -> ChapterRecord {
    ChapterRecord { chapter_id: id.to_string(), saved }
}

#[test]
fn local_download_record_requires_matching_status_files() {
    let folders = vec![folder("123_test-book", true), folder("123_preview-only", false)];
    assert!(has_local_download_record(&folders, "123"));
    assert!(!has_local_download_record(&folders, "456"));
}

#[test]
fn record_folder_must_hold_a_status_file() {
    assert!(!has_local_download_record(&[folder("123_preview-only", false)], "123"));
    assert!(!has_local_download_record(&[folder("1234_other", true)], "123"));
    assert!(!has_local_download_record(&[folder("123", true)], "123"));
    assert!(has_local_download_record(&[folder("x", true), folder("123_", true)], "123"));
}

#[test]
fn update_refused_without_record() {
    let folders = vec![folder("123_test-book", true)];
    assert_eq!(ensure_local_download_exists(&folders, "/books", "123"), Ok(()));
    assert_eq!(
        ensure_local_download_exists(&folders, "/books", "456"),
        Err("Chế độ CLI chỉ hỗ trợ cập nhật truyện đã có sẵn cục bộ: không tìm thấy bản ghi tải xuống của book_id=/books trong 456. Hãy dùng Web UI hoặc TUI để tải lần đầu.".to_string())
    );
}

#[test]
fn options() {
    let i = DownloadOptions::interactive();
    assert!(i.interactive && !i.retry_failed_once);
    let n = DownloadOptions::non_interactive(true);
    assert!(!n.interactive && n.retry_failed_once);
    assert_eq!(retry_policy(i), RetryPolicy::AskUser);
    assert_eq!(retry_policy(n), RetryPolicy::Once);
    assert_eq!(retry_policy(DownloadOptions::non_interactive(false)), RetryPolicy::Never);
}

#[test]
fn mode_menu_answers() {
    assert_eq!(select_download_mode("", true), DownloadMode::Resume);
    assert_eq!(select_download_mode(" 1\n", true), DownloadMode::Resume);
    assert_eq!(select_download_mode("2", false), DownloadMode::Full);
    assert_eq!(select_download_mode("3", false), DownloadMode::Resume);
    assert_eq!(select_download_mode("3", true), DownloadMode::FailedOnly);
    assert_eq!(select_download_mode("4", false), DownloadMode::RangeIgnoreHistory);
    assert_eq!(select_download_mode("Q", false), DownloadMode::Cancel);
    assert_eq!(select_download_mode("zzz", false), DownloadMode::Resume);
}

#[test]
fn first_mode_step() {
    let i = DownloadOptions::interactive();
    assert_eq!(initial_mode_step(i, 0, 0), ModeStep::Use(DownloadMode::RangeOrAll));
    assert_eq!(initial_mode_step(i, 3, 0), ModeStep::Ask { has_failed: false });
    assert_eq!(initial_mode_step(i, 0, 2), ModeStep::Ask { has_failed: true });
    assert_eq!(initial_mode_step(DownloadOptions::non_interactive(false), 3, 2), ModeStep::Use(DownloadMode::Resume));
}

#[test]
fn plans_of_the_modes() {
    assert_eq!(
        mode_plan(DownloadMode::Cancel, true),
        ModePlan { cancel: true, clear_history: false, ask_range: false, failed_only: false }
    );
    assert_eq!(
        mode_plan(DownloadMode::Full, true),
        ModePlan { cancel: false, clear_history: true, ask_range: false, failed_only: false }
    );
    assert_eq!(
        mode_plan(DownloadMode::RangeIgnoreHistory, true),
        ModePlan { cancel: false, clear_history: true, ask_range: true, failed_only: false }
    );
    assert_eq!(
        mode_plan(DownloadMode::RangeOrAll, false),
        ModePlan { cancel: false, clear_history: false, ask_range: false, failed_only: false }
    );
    assert_eq!(
        mode_plan(DownloadMode::FailedOnly, true),
        ModePlan { cancel: false, clear_history: false, ask_range: false, failed_only: true }
    );
    assert_eq!(flow_mode(DownloadMode::RangeOrAll), FlowMode::Resume);
    assert_eq!(flow_mode(DownloadMode::Cancel), FlowMode::Resume);
    assert_eq!(flow_mode(DownloadMode::Full), FlowMode::Full);
    assert_eq!(flow_mode(DownloadMode::FailedOnly), FlowMode::FailedOnly);
    assert_eq!(flow_mode(DownloadMode::RangeIgnoreHistory), FlowMode::RangeIgnoreHistory);
}

#[test]
fn retry_decisions() {
    let mut retried = false;
    assert!(retry_once(&mut retried));
    assert!(!retry_once(&mut retried));
    assert!(!retry_once(&mut retried));
    assert!(accepts_retry(""));
    assert!(accepts_retry("y"));
    assert!(!accepts_retry(" N "));
    assert!(accepts_retry("no"));
}

#[test]
fn range_answers() {
    assert_eq!(prompt_range("  ", 100), RangeAnswer::All);
    assert_eq!(prompt_range("10-20", 100), RangeAnswer::NotARange);
    assert_eq!(prompt_range("a~5", 100), RangeAnswer::NotANumber);
    assert_eq!(prompt_range("5~", 100), RangeAnswer::NotANumber);
    assert_eq!(prompt_range("10~200", 100), RangeAnswer::Chosen(ChapterRange { start: 10, end: 100 }));
    assert_eq!(prompt_range(" 10 ~ 20 ", 100), RangeAnswer::Chosen(ChapterRange { start: 10, end: 20 }));
    assert_eq!(prompt_range("0~0", 100), RangeAnswer::Chosen(ChapterRange { start: 1, end: 1 }));
    assert_eq!(prompt_range("50~10", 100), RangeAnswer::Chosen(ChapterRange { start: 10, end: 50 }));
    assert_eq!(prompt_range("3~5", 0), RangeAnswer::Chosen(ChapterRange { start: 1, end: 1 }));
    assert_eq!(prompt_range("1~2~3", 10), RangeAnswer::NotANumber);
}

#[test]
fn chosen_ranges_stay_in_the_book() {
    for text in ["0~999", "999~0", "7~7", "+3~+9", "100~1"] {
        for total in [0usize, 1, 5, 50] {
            if let RangeAnswer::Chosen(r) = prompt_range(text, total) {
                assert!(1 <= r.start && r.start <= r.end && r.end <= total.max(1));
            }
        }
    }
}

#[test]
fn saved_and_failed_chapters() {
    let records = vec![record("c1", true), record("c2", false), record("c4", true)];
    let chapters: Vec<String> = ["c1", "c2", "c3", "c4", "c5"].iter().map(|s| s.to_string()).collect();
    assert_eq!(count_download_state(&records, &chapters), (2, 1));
    assert_eq!(count_download_state(&records, &[]), (0, 0));
    assert_eq!(count_download_state(&[], &chapters), (0, 0));
    let (ok, failed) = count_download_state(&records, &chapters);
    assert!(ok + failed <= chapters.len());
}

#[test]
fn cover_files() {
    let entries = vec![
        entry(".png", true),
        entry("cover.txt", true),
        entry("dir.jpg", false),
        entry("noext", true),
        entry("Cover.JPG", true),
        entry("b.png", true),
    ];
    assert_eq!(find_cover_image(&entries), Some(4));
    assert_eq!(find_cover_image(&[entry("a.jpeg", true)]), Some(0));
    assert_eq!(find_cover_image(&[entry("a.png.bak", true), entry("..", true)]), None);
    assert_eq!(find_cover_image(&[]), None);
}

#[test]
fn descriptions_are_shortened() {
    let long: String = "x".repeat(60);
    assert_eq!(short_description(&long), format!("{}...", "x".repeat(50)));
    let fifty: String = "é".repeat(50);
    assert_eq!(short_description(&fifty), fifty);
    assert_eq!(short_description("ngắn"), "ngắn");
}

#[test]
fn book_summary() {
    let meta = BookMeta {
        book_name: Some("Sách".to_string()),
        author: Some("Tác giả A".to_string()),
        finished: Some(true),
        chapter_count: Some(120),
        tags: vec!["a".to_string(), "b".to_string()],
        description: Some("mô tả".to_string()),
    };
    assert_eq!(
        book_summary_lines(&meta, "42"),
        vec![
            "Ten sach: Sách".to_string(),
            "Tac gia: Tác giả A".to_string(),
            "Trang thai hoan thanh: Da hoan".to_string(),
            "So chuong: 120".to_string(),
            "The: a|b".to_string(),
            "Tom tat: mô tả".to_string(),
        ]
    );
    let bare = BookMeta {
        book_name: None,
        author: None,
        finished: Some(false),
        chapter_count: None,
        tags: Vec::new(),
        description: None,
    };
    assert_eq!(
        book_summary_lines(&bare, "42"),
        vec!["Ten sach: 42".to_string(), "Trang thai hoan thanh: Dang ra".to_string()]
    );
}

#[test]
fn unattended_downloads_ask_nothing() {
    for retry in [false, true] {
        let o = DownloadOptions::non_interactive(retry);
        assert_eq!(initial_mode_step(o, 5, 5), ModeStep::Use(DownloadMode::Resume));
        let plan = mode_plan(DownloadMode::Resume, o.interactive);
        assert!(!plan.ask_range && !plan.cancel && !plan.clear_history);
        assert_ne!(retry_policy(o), RetryPolicy::AskUser);
    }
}

#[test]
fn after_the_chapters_are_chosen() {
    assert_eq!(
        pending_plan(DownloadMode::Resume, 0, 0),
        PendingPlan { stop: true, resume_done: Some(0), nothing_pending: true }
    );
    assert_eq!(
        pending_plan(DownloadMode::Resume, 10, 4),
        PendingPlan { stop: false, resume_done: Some(6), nothing_pending: false }
    );
    assert_eq!(
        pending_plan(DownloadMode::Full, 10, 0),
        PendingPlan { stop: false, resume_done: None, nothing_pending: true }
    );
}

#[test]
fn download_flow_steps() {
    let i = DownloadOptions::interactive();
    let (s, a) = flow_step(FlowState::Start, i, 100, FlowInput::Counts { ok: 3, failed: 1 }, "");
    assert_eq!(a, FlowAction::ShowModeMenu { has_failed: true });
    let (s2, a2) = flow_step(s, i, 100, FlowInput::Answer, "q");
    assert_eq!((s2, a2), (FlowState::Finished, FlowAction::StopAndCleanup));
    let (s3, a3) = flow_step(s, i, 100, FlowInput::Answer, "4");
    assert_eq!(a3, FlowAction::AskRange);
    let (s4, a4) = flow_step(s3, i, 100, FlowInput::Answer, "5~2");
    let r = Some(ChapterRange { start: 2, end: 5 });
    assert_eq!(
        a4,
        FlowAction::CountPending {
            clear_history: true,
            announce_full: false,
            failed_only: false,
            range: r,
            range_answer: Some(RangeAnswer::Chosen(ChapterRange { start: 2, end: 5 })),
        }
    );
    assert_eq!(flow_step(s4, i, 100, FlowInput::Pending { chosen: 0, pending: 0 }, "").1, FlowAction::StopAndCleanup);
    assert_eq!(
        flow_step(s4, i, 100, FlowInput::Pending { chosen: 4, pending: 4 }, ""),
        (FlowState::Finished, FlowAction::Run { mode: FlowMode::RangeIgnoreHistory, range: r, resume_done: None, nothing_pending: false })
    );
    let u = DownloadOptions::non_interactive(true);
    let (s5, a5) = flow_step(FlowState::Start, u, 10, FlowInput::Counts { ok: 3, failed: 2 }, "");
    assert_eq!(
        a5,
        FlowAction::CountPending { clear_history: false, announce_full: false, failed_only: false, range: None, range_answer: None }
    );
    assert_eq!(
        flow_step(s5, u, 10, FlowInput::Pending { chosen: 10, pending: 5 }, "").1,
        FlowAction::Run { mode: FlowMode::Resume, range: None, resume_done: Some(5), nothing_pending: false }
    );
    assert_eq!(flow_step(FlowState::Finished, u, 10, FlowInput::Answer, "x").1, FlowAction::Unexpected);
}

#[test]
fn first_record_of_a_chapter_counts() {
    let records = vec![record("c1", false), record("c2", true)];
    let ids: Vec<String> = vec!["c2".to_string(), "c1".to_string(), "c9".to_string()];
    assert_eq!(count_download_state(&records, &ids), (1, 1));
}
