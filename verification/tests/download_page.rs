use tomato_novel::tui_download::{
    apply_download_done, apply_download_progress, comment_total, format_choices,
    request_cancel_download, should_ask_book_name, start_download_state, DownloadPage,
    ProgressReport, SavePhase,
};

fn report(done: usize) -> ProgressReport {
    ProgressReport {
        group_done: done,
        group_total: 9,
        saved_chapters: 3,
        chapter_total: 30,
        save_phase: SavePhase::Later,
        comment_fetch: 1,
        comment_total: 30,
        comment_saved: 1,
    }
}

fn page(cancel_flag: Option<bool>) -> DownloadPage<&'static str> {
    DownloadPage {
        status: String::new(),
        messages: vec!["older".to_string()],
        results: vec!["r".to_string()],
        selected_result: Some(0),
        cover_lines: vec!["###".to_string()],
        cover_title: "Bia".to_string(),
        pending_download: Some("book"),
        preview_range: "1~5".to_string(),
        preview_button: Some(2),
        preview_modal_open: true,
        preview_desc_scroll: 3,
        preview_desc_scroll_max: 9,
        preview_modal_scroll: 1,
        preview_modal_scroll_max: 4,
        preview_desc_area_known: true,
        download_progress: Some(report(7)),
        at_home: false,
        input_focused: false,
        cancel_flag,
        stop_button_shown: true,
    }
}

#[test]
fn stopping_a_running_download() {
    let mut p = page(Some(false));
    assert!(request_cancel_download(&mut p));
    assert_eq!(p.cancel_flag, Some(true));
    assert_eq!(p.status, "Đã yêu cầu dừng tải xuống…");
    assert_eq!(p.messages, vec!["older".to_string(), "Đã gửi tín hiệu dừng, tác vụ hiện tại sẽ kết thúc sau".to_string()]);
    assert!(!p.stop_button_shown);
}

#[test]
fn stopping_when_nothing_runs() {
    let mut p = page(None);
    assert!(!request_cancel_download(&mut p));
    assert_eq!(p.cancel_flag, None);
    assert_eq!(p.status, "Hiện không có tải xuống nào đang chạy");
    assert_eq!(p.messages, vec!["older".to_string()]);
    assert!(!p.stop_button_shown);
}

#[test]
fn progress_is_recorded() {
    let mut p = page(Some(false));
    apply_download_progress(&mut p, report(8));
    assert_eq!(p.download_progress, Some(report(8)));
}

#[test]
fn finished_download_goes_home() {
    let mut p = page(Some(false));
    apply_download_done(&mut p, "123", Ok(()));
    assert_eq!(p.status, "Tải xuống hoàn tất: 123");
    assert_eq!(p.messages.last().unwrap(), "Tải xuống hoàn tất");
    assert_eq!(p.pending_download, None);
    assert_eq!(p.preview_range, "");
    assert_eq!(p.preview_button, Some(0));
    assert!(!p.preview_modal_open);
    assert_eq!(p.download_progress, None);
    assert!(p.at_home && p.input_focused);
    assert_eq!(p.cancel_flag, None);
    assert!(!p.stop_button_shown);
}

#[test]
fn failed_download_goes_home_with_the_error() {
    let mut p = page(Some(true));
    apply_download_done(&mut p, "123", Err("mất mạng".to_string()));
    assert_eq!(p.status, "Tải xuống thất bại: mất mạng");
    assert_eq!(p.messages.len(), 2);
    assert_eq!(p.messages[1], "Tải xuống thất bại: mất mạng");
    assert!(p.at_home && p.input_focused);
    assert_eq!(p.download_progress, None);
}

#[test]
fn starting_a_download() {
    let mut p = page(None);
    p.at_home = true;
    start_download_state(&mut p, "next", 30, 12, 4, true, Some("Truyện"), "88");
    assert_eq!(p.pending_download, Some("next"));
    assert_eq!(p.status, "Bat dau tai: 《Truyện》 (88)");
    assert!(p.messages.is_empty() && p.results.is_empty() && p.cover_lines.is_empty());
    assert_eq!(p.selected_result, None);
    assert_eq!(p.cover_title, "");
    assert_eq!(
        p.download_progress,
        Some(ProgressReport {
            group_done: 0,
            group_total: 4,
            saved_chapters: 12,
            chapter_total: 30,
            save_phase: SavePhase::TextSave,
            comment_fetch: 0,
            comment_total: 30,
            comment_saved: 0,
        })
    );
    assert_eq!(p.cancel_flag, Some(false));
    assert!(!p.preview_modal_open && !p.preview_desc_area_known);
    assert_eq!((p.preview_desc_scroll, p.preview_modal_scroll_max), (0, 0));
    assert!(p.at_home);
    start_download_state(&mut p, "x", 7, 0, 1, false, None, "99");
    assert_eq!(p.status, "Bat dau tai: 《99》 (99)");
    assert_eq!(p.download_progress.unwrap().comment_total, 0);
    assert_eq!(p.download_progress.unwrap().chapter_total, 7);
}

#[test]
fn start_helpers() {
    assert_eq!(comment_total(true, 30), 30);
    assert_eq!(comment_total(false, 30), 0);
    assert!(!should_ask_book_name(0));
    assert!(!should_ask_book_name(1));
    assert!(should_ask_book_name(2));
    let f = format_choices();
    assert_eq!(f, vec![
        ("Định dạng TXT".to_string(), "txt".to_string()),
        ("Định dạng EPUB".to_string(), "epub".to_string()),
    ]);
}
