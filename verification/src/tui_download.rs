//! The download page of the full-screen interface: what starting,
//! following, stopping and finishing a download do to the page.

use vstd::prelude::*;

verus! {

/// The phase of saving a book.
#[derive(Clone, Copy, Debug, PartialEq, Eq, Structural)]
pub enum SavePhase {
    /// The chapters' text is being saved.
    TextSave,
    /// A phase after the text (the book file, the audio).
    Later,
}

/// A progress report of a running download.
#[derive(Clone, Copy, Debug, PartialEq, Eq, Structural)]
pub struct ProgressReport {
    pub group_done: usize,
    pub group_total: usize,
    pub saved_chapters: usize,
    pub chapter_total: usize,
    pub save_phase: SavePhase,
    pub comment_fetch: usize,
    pub comment_total: usize,
    pub comment_saved: usize,
}

/// The state of the download page. `D` is the download waiting to run or
/// running.
pub struct DownloadPage<D> {
    pub status: String,
    pub messages: Vec<String>,
    pub results: Vec<String>,
    pub selected_result: Option<usize>,
    pub cover_lines: Vec<String>,
    pub cover_title: String,
    pub pending_download: Option<D>,
    pub preview_range: String,
    pub preview_button: Option<usize>,
    pub preview_modal_open: bool,
    pub preview_desc_scroll: usize,
    pub preview_desc_scroll_max: usize,
    pub preview_modal_scroll: usize,
    pub preview_modal_scroll_max: usize,
    pub preview_desc_area_known: bool,
    pub download_progress: Option<ProgressReport>,
    pub at_home: bool,
    pub input_focused: bool,
    /// The stop signal shared with the running download: `None` where no
    /// download runs, else whether a stop was asked for.
    pub cancel_flag: Option<bool>,
    pub stop_button_shown: bool,
}

/// The results, the cover and the preview's scrolling are as they were.
pub open spec fn same_views<D>(a: DownloadPage<D>, b: DownloadPage<D>) -> bool {
    &&& a.results == b.results
    &&& a.selected_result == b.selected_result
    &&& a.cover_lines == b.cover_lines
    &&& a.cover_title == b.cover_title
    &&& a.preview_desc_scroll == b.preview_desc_scroll
    &&& a.preview_desc_scroll_max == b.preview_desc_scroll_max
    &&& a.preview_modal_scroll == b.preview_modal_scroll
    &&& a.preview_modal_scroll_max == b.preview_modal_scroll_max
    &&& a.preview_desc_area_known == b.preview_desc_area_known
}

/// The status line after a stop was asked for.
pub open spec fn stop_requested_text() -> Seq<char> {
    "Đã yêu cầu dừng tải xuống…"@
}

/// The status line where no download runs.
pub open spec fn nothing_running_text() -> Seq<char> {
    "Hiện không có tải xuống nào đang chạy"@
}

/// The message added when the stop signal is sent.
pub open spec fn stop_sent_text() -> Seq<char> {
    "Đã gửi tín hiệu dừng, tác vụ hiện tại sẽ kết thúc sau"@
}

/// Asks the running download to stop: the stop signal is raised (the
/// result says so, for the caller to pass it to the worker), the status
/// and messages say so, and the stop button goes away. Where no download
/// runs, only the status line changes (and the button goes away).
pub fn request_cancel_download<D>(page: &mut DownloadPage<D>) -> (r: bool)
    ensures
        r == (old(page).cancel_flag is Some),
        !final(page).stop_button_shown,
        r ==> final(page).cancel_flag == Some(true) && final(page).status@ == stop_requested_text()
            && final(page).messages@.len() == old(page).messages@.len() + 1
            && final(page).messages@.drop_last() == old(page).messages@
            && final(page).messages@.last()@ == stop_sent_text(),
        !r ==> final(page).cancel_flag == old(page).cancel_flag && final(page).status@
            == nothing_running_text() && final(page).messages@ == old(page).messages@,
        final(page).download_progress == old(page).download_progress,
        final(page).pending_download == old(page).pending_download,
        final(page).preview_range == old(page).preview_range,
        final(page).preview_button == old(page).preview_button,
        final(page).preview_modal_open == old(page).preview_modal_open,
        final(page).at_home == old(page).at_home,
        final(page).input_focused == old(page).input_focused,
        same_views(*final(page), *old(page)),
{
    let r = if page.cancel_flag.is_some() {
        page.cancel_flag = Some(true);
        page.status = String::from_str("Đã yêu cầu dừng tải xuống…");
        page.messages.push(String::from_str("Đã gửi tín hiệu dừng, tác vụ hiện tại sẽ kết thúc sau"));
        proof {
            reveal_strlit("Đã yêu cầu dừng tải xuống…");
        }
        true
    } else {
        page.status = String::from_str("Hiện không có tải xuống nào đang chạy");
        false
    };
    page.stop_button_shown = false;
    r
}

/// Records the latest progress report.
pub fn apply_download_progress<D>(page: &mut DownloadPage<D>, snap: ProgressReport)
    ensures
        final(page).download_progress == Some(snap),
        final(page).status == old(page).status,
        final(page).messages == old(page).messages,
        final(page).cancel_flag == old(page).cancel_flag,
        final(page).pending_download == old(page).pending_download,
        final(page).at_home == old(page).at_home,
        final(page).input_focused == old(page).input_focused,
        final(page).stop_button_shown == old(page).stop_button_shown,
        same_views(*final(page), *old(page)),
{
    page.download_progress = Some(snap);
}

/// The status line and message once a download ended.
pub open spec fn done_text(book_id: Seq<char>, result: Result<(), Seq<char>>) -> Seq<char> {
    match result {
        Ok(()) => "Tải xuống hoàn tất: "@ + book_id,
        Err(e) => "Tải xuống thất bại: "@ + e,
    }
}

/// The message added once a download ended.
pub open spec fn done_message(result: Result<(), Seq<char>>) -> Seq<char> {
    match result {
        Ok(()) => "Tải xuống hoàn tất"@,
        Err(e) => "Tải xuống thất bại: "@ + e,
    }
}

/// The view of a download's outcome.
pub open spec fn outcome_view(result: Result<(), String>) -> Result<(), Seq<char>> {
    match result {
        Ok(()) => Ok(()),
        Err(e) => Err(e@),
    }
}

/// Whether the page is back home with no download: nothing pending, no
/// range typed, the first preview button selected, no preview open, no
/// progress, the input focused, no stop signal and no stop button.
pub open spec fn back_home<D>(f: DownloadPage<D>) -> bool {
    &&& f.pending_download is None
    &&& f.preview_range@.len() == 0
    &&& f.preview_button == Some(0usize)
    &&& !f.preview_modal_open
    &&& f.download_progress is None
    &&& f.at_home
    &&& f.input_focused
    &&& f.cancel_flag is None
    &&& !f.stop_button_shown
}

/// Ends a download: the status line and a message tell how it went (the
/// error's text where it failed), and the page goes back home.
pub fn apply_download_done<D>(page: &mut DownloadPage<D>, book_id: &str, result: Result<
    (),
    String,
>)
    ensures
        final(page).status@ == done_text(book_id@, outcome_view(result)),
        final(page).messages@.len() == old(page).messages@.len() + 1,
        final(page).messages@.drop_last() == old(page).messages@,
        final(page).messages@.last()@ == done_message(outcome_view(result)),
        back_home(*final(page)),
        same_views(*final(page), *old(page)),
{
    match result {
        Ok(()) => {
            let mut s = String::from_str("Tải xuống hoàn tất: ");
            s.append(book_id);
            page.status = s;
            page.messages.push(String::from_str("Tải xuống hoàn tất"));
        },
        Err(e) => {
            let mut s = String::from_str("Tải xuống thất bại: ");
            s.append(e.as_str());
            let mut m = String::from_str("Tải xuống thất bại: ");
            m.append(e.as_str());
            page.status = s;
            page.messages.push(m);
        },
    }
    page.pending_download = None;
    page.preview_range = String::new();
    page.preview_button = Some(0);
    page.preview_modal_open = false;
    page.download_progress = None;
    page.at_home = true;
    page.input_focused = true;
    page.cancel_flag = None;
    page.stop_button_shown = false;
}

/// The number of chapters whose comments are fetched: all of them where
/// paragraph comments are on, none otherwise.
pub fn comment_total(segment_comments: bool, chapter_total: usize) -> (r: usize)
    ensures
        r == (if segment_comments {
            chapter_total
        } else {
            0
        }),
{
    if segment_comments {
        chapter_total
    } else {
        0
    }
}

/// The status line when a download starts: the book's title (its id
/// where it has none) and its id.
pub open spec fn start_text(title: Option<Seq<char>>, book_id: Seq<char>) -> Seq<char> {
    "Bat dau tai: 《"@ + (match title {
        Some(t) => t,
        None => book_id,
    }) + "》 ("@ + book_id + ")"@
}

/// The first progress report of a download of `chapter_total` chapters,
/// `saved_chapters` of them already saved, in `group_total` groups:
/// nothing done yet, the text being saved, and the comments of every
/// chapter to fetch where paragraph comments are on.
pub open spec fn first_report(
    chapter_total: usize,
    saved_chapters: usize,
    group_total: usize,
    segment_comments: bool,
) -> ProgressReport {
    ProgressReport {
        group_done: 0,
        group_total,
        saved_chapters,
        chapter_total,
        save_phase: SavePhase::TextSave,
        comment_fetch: 0,
        comment_total: if segment_comments {
            chapter_total
        } else {
            0
        },
        comment_saved: 0,
    }
}

/// Starts showing a download of `chapter_total` chapters (`saved_chapters`
/// already saved, `group_total` download groups): the download is kept for
/// the preview, the preview closes and scrolls back, the first progress
/// report is shown, messages, results, selection and cover are cleared,
/// the status line names the book, and a fresh stop signal is made.
pub fn start_download_state<D>(
    page: &mut DownloadPage<D>,
    pending: D,
    chapter_total: usize,
    saved_chapters: usize,
    group_total: usize,
    segment_comments: bool,
    title: Option<&str>,
    book_id: &str,
)
    ensures
        final(page).pending_download == Some(pending),
        !final(page).preview_modal_open,
        final(page).preview_desc_scroll == 0,
        final(page).preview_desc_scroll_max == 0,
        final(page).preview_modal_scroll == 0,
        final(page).preview_modal_scroll_max == 0,
        !final(page).preview_desc_area_known,
        final(page).download_progress == Some(
            first_report(chapter_total, saved_chapters, group_total, segment_comments),
        ),
        final(page).messages@.len() == 0,
        final(page).results@.len() == 0,
        final(page).selected_result is None,
        final(page).cover_lines@.len() == 0,
        final(page).cover_title@.len() == 0,
        final(page).status@ == start_text(
            match title {
                Some(t) => Some(t@),
                None => None,
            },
            book_id@,
        ),
        final(page).cancel_flag == Some(false),
        !final(page).stop_button_shown,
        final(page).at_home == old(page).at_home,
        final(page).input_focused == old(page).input_focused,
{
    page.pending_download = Some(pending);
    page.preview_modal_open = false;
    page.preview_desc_scroll = 0;
    page.preview_desc_scroll_max = 0;
    page.preview_modal_scroll = 0;
    page.preview_modal_scroll_max = 0;
    page.preview_desc_area_known = false;
    page.download_progress = Some(
        ProgressReport {
            group_done: 0,
            group_total,
            saved_chapters,
            chapter_total,
            save_phase: SavePhase::TextSave,
            comment_fetch: 0,
            comment_total: comment_total(segment_comments, chapter_total),
            comment_saved: 0,
        },
    );
    page.messages = Vec::new();
    page.results = Vec::new();
    page.selected_result = None;
    page.cover_lines = Vec::new();
    page.cover_title = String::new();
    let mut s = String::from_str("Bat dau tai: 《");
    match title {
        Some(t) => s.append(t),
        None => s.append(book_id),
    }
    s.append("》 (");
    s.append(book_id);
    s.append(")");
    page.status = s;
    page.cancel_flag = Some(false);
    page.stop_button_shown = false;
}

/// Whether the user is asked which name to give the book: only where more
/// than one is offered.
pub fn should_ask_book_name(options: usize) -> (r: bool)
    ensures
        r == (options > 1),
{
    options > 1
}

/// The formats offered after a download, as (label, value).
pub fn format_choices() -> (r: Vec<(String, String)>)
    ensures
        r@.len() == 2,
        r@[0].0@ == "Định dạng TXT"@ && r@[0].1@ == "txt"@,
        r@[1].0@ == "Định dạng EPUB"@ && r@[1].1@ == "epub"@,
{
    let mut v: Vec<(String, String)> = Vec::new();
    v.push((String::from_str("Định dạng TXT"), String::from_str("txt")));
    v.push((String::from_str("Định dạng EPUB"), String::from_str("epub")));
    v
}

} // verus!
