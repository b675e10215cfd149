use tomato_novel::app_update::{accepts_dismiss, preview_notes};
use tomato_novel::cover::{ascii_art_lines, cover_banner, preview_cover_ascii, preview_fits, shade_char};

#[test]
fn notes_keep_the_non_empty_lines() {
    assert_eq!(preview_notes("a\n\n  b  \r\nc\n", 8, 800), "a\n  b\nc");
    assert_eq!(preview_notes("", 8, 800), "");
    assert_eq!(preview_notes("\n\n \n", 8, 800), "");
}

#[test]
fn notes_stop_after_the_line_limit() {
    assert_eq!(preview_notes("1\n2\n3", 2, 800), "1\n2…");
    assert_eq!(preview_notes("1\n\n3", 2, 800), "1…");
    assert_eq!(preview_notes("1\n2", 2, 800), "1\n2");
    assert_eq!(preview_notes("1\n2", 0, 800), "…");
}

#[test]
fn notes_are_cut_at_a_character_boundary() {
    assert_eq!(preview_notes("abcdef", 8, 3), "abc…");
    assert_eq!(preview_notes("abc", 8, 3), "abc…");
    assert_eq!(preview_notes("ab", 8, 3), "ab");
    assert_eq!(preview_notes("中文字", 8, 4), "中…");
    assert_eq!(preview_notes("ab\ncd", 8, 4), "ab\nc…");
    assert_eq!(preview_notes("x", 8, 0), "…");
    assert_eq!(preview_notes("", 8, 0), "");
}

#[test]
fn notes_never_run_far_past_the_byte_limit() {
    let body = "Phiên bản mới\n- sửa lỗi tải chương\n- thêm định dạng 中文\n\n- cải thiện giao diện\nline\nline\nline\nline\nline";
    for max_lines in [0usize, 1, 3, 8, 20] {
        for max_chars in [0usize, 1, 5, 17, 40, 800] {
            let p = preview_notes(body, max_lines, max_chars);
            assert!(p.len() <= max_chars + 3, "{:?}", p);
        }
    }
}

#[test]
fn dismiss_answers() {
    assert!(accepts_dismiss(" Y "));
    assert!(accepts_dismiss("yes"));
    assert!(!accepts_dismiss("n"));
    assert!(!accepts_dismiss(""));
    assert!(!accepts_dismiss("yep"));
}

#[test]
fn shades_from_light_to_dark() {
    assert_eq!(shade_char(0), ' ');
    assert_eq!(shade_char(28), ' ');
    assert_eq!(shade_char(29), '.');
    assert_eq!(shade_char(128), '=');
    assert_eq!(shade_char(254), '%');
    assert_eq!(shade_char(255), '@');
}

#[test]
fn title_line() {
    assert_eq!(cover_banner(80), format!("{}Xem truoc bia{}", "=".repeat(32), "=".repeat(32)));
    assert_eq!(cover_banner(10), format!("{}Xem truoc bia{}", "=".repeat(12), "=".repeat(12)));
    assert_eq!(cover_banner(41), format!("{}Xem truoc bia{}", "=".repeat(12), "=".repeat(12)));
}

#[test]
fn drawing_rows() {
    assert_eq!(ascii_art_lines(&[0, 255, 128, 29], 2, 2), vec![" @".to_string(), "=.".to_string()]);
    assert!(ascii_art_lines(&[], 0, 3).iter().all(|l| l.is_empty()));
}

#[test]
fn cover_is_scaled_to_the_terminal() {
    let lines = preview_cover_ascii(80, 24, 2, 2, vec![0, 0, 0, 0]);
    assert_eq!(lines.len(), 1 + 18);
    assert_eq!(lines[0], cover_banner(80));
    for l in &lines[1..] {
        assert_eq!(l.chars().count(), 80);
        assert!(l.chars().all(|c| c == ' '));
    }
    let small = preview_cover_ascii(5, 3, 3, 1, vec![255, 0, 255]);
    assert_eq!(small.len(), 1 + 8);
    for l in &small[1..] {
        assert_eq!(l.chars().count(), 40);
    }
    let empty = preview_cover_ascii(40, 14, 0, 0, Vec::new());
    assert_eq!(empty.len(), 1 + 8);
}

#[test]
fn preview_sizes_that_fit() {
    assert!(preview_fits(80, 24, 600, 800));
    assert!(preview_fits(0, 0, 0, 0));
    assert!(preview_fits(40, 14, 40, 8));
    assert!(preview_fits(u16::MAX, u16::MAX, u32::MAX, u32::MAX) == (usize::MAX as u64 >= 4 * (u32::MAX as u64) * 65529));
}

#[test]
fn notes_never_have_more_lines_than_allowed() {
    let body = "a\nb\n\nc\nd\ne\nf\ng\nh\ni\nj";
    for max_lines in 0usize..12 {
        for max_chars in [0usize, 3, 10, 800] {
            let p = preview_notes(body, max_lines, max_chars);
            let feeds = p.matches('\n').count();
            assert!(feeds + 1 <= max_lines || feeds == 0, "{:?}", p);
        }
    }
}

#[test]
fn preview_refuses_a_wide_image_squeezed_to_nothing() {
    assert!(!preview_fits(0, 0, 1 << 30, 1) || usize::MAX as u64 >= 4u64 << 30);
}
