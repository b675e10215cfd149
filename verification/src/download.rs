//! Decisions of the line-based download flow: the options, the mode the
//! user picks, the chapter range typed in, how much of a book is already
//! saved, whether a book has a local record, and what is printed about it.

use vstd::prelude::*;
use crate::text::{
    ascii_lower, chars_is, decimal, from_chars, parse_unsigned, parse_unsigned_max, str_is,
    to_chars, trim, trim_chars, trim_lower, views,
};

verus! {

// ----------------------------------------------------------------------
// Options and modes
// ----------------------------------------------------------------------

/// How a download runs: asking the user, or not; and, when not asking,
/// whether failed chapters are retried once.
#[derive(Clone, Copy, Debug, PartialEq, Eq, Structural)]
pub struct DownloadOptions {
    pub interactive: bool,
    pub retry_failed_once: bool,
}

impl DownloadOptions {
    /// The options of a download driven by the user.
    pub fn interactive() -> (r: Self)
        ensures
            r == (DownloadOptions { interactive: true, retry_failed_once: false }),
    {
        DownloadOptions { interactive: true, retry_failed_once: false }
    }

    /// The options of an unattended download.
    pub fn non_interactive(retry_failed_once: bool) -> (r: Self)
        ensures
            r == (DownloadOptions { interactive: false, retry_failed_once }),
    {
        DownloadOptions { interactive: false, retry_failed_once }
    }
}

/// What the user chose to do with a book that has a download record.
#[derive(Clone, Copy, Debug, PartialEq, Eq, Structural)]
pub enum DownloadMode {
    /// Download the chapters that are not saved yet.
    Resume,
    /// Forget the record and download everything.
    Full,
    /// Download only the chapters that failed.
    FailedOnly,
    /// Forget the record and download a range of chapters.
    RangeIgnoreHistory,
    /// A book without record: a range, or everything.
    RangeOrAll,
    /// Give up.
    Cancel,
}

/// The mode picked by an answer to the mode menu (`3` only where some
/// chapters failed); anything else resumes.
pub open spec fn mode_of_answer(answer: Seq<char>, has_failed: bool) -> DownloadMode {
    let a = ascii_lower(trim(answer));
    if a == ""@ || a == "1"@ {
        DownloadMode::Resume
    } else if a == "2"@ {
        DownloadMode::Full
    } else if a == "3"@ && has_failed {
        DownloadMode::FailedOnly
    } else if a == "4"@ {
        DownloadMode::RangeIgnoreHistory
    } else if a == "q"@ {
        DownloadMode::Cancel
    } else {
        DownloadMode::Resume
    }
}

/// The mode chosen by the answer to the mode menu.
pub fn select_download_mode(answer: &str, has_failed: bool) -> (r: DownloadMode)
    ensures
        r == mode_of_answer(answer@, has_failed),
{
    let a = trim_lower(answer);
    let s = a.as_slice();
    proof {
        reveal_strlit("");
        reveal_strlit("1");
        reveal_strlit("2");
        reveal_strlit("3");
        reveal_strlit("4");
        reveal_strlit("q");
    }
    if s.len() == 0 || chars_is(s, "1") {
        DownloadMode::Resume
    } else if chars_is(s, "2") {
        DownloadMode::Full
    } else if chars_is(s, "3") && has_failed {
        DownloadMode::FailedOnly
    } else if chars_is(s, "4") {
        DownloadMode::RangeIgnoreHistory
    } else if chars_is(s, "q") {
        DownloadMode::Cancel
    } else {
        DownloadMode::Resume
    }
}

/// What each answer of the mode menu selects, whatever its surrounding
/// whitespace and ASCII case: nothing or `1` resumes, `2` downloads
/// everything again, `3` retries the failed chapters where some failed
/// (and resumes otherwise), `4` takes a range ignoring the record, `q`
/// cancels. Only the answer `3` depends on whether chapters failed.
pub proof fn lemma_mode_menu_answers(answer: Seq<char>, has_failed: bool)
    ensures
        ({
            let a = ascii_lower(trim(answer));
            &&& (a.len() == 0 || a == seq!['1']) ==> mode_of_answer(answer, has_failed)
                == DownloadMode::Resume
            &&& a == seq!['2'] ==> mode_of_answer(answer, has_failed) == DownloadMode::Full
            &&& (a == seq!['3'] && has_failed) ==> mode_of_answer(answer, has_failed)
                == DownloadMode::FailedOnly
            &&& (a == seq!['3'] && !has_failed) ==> mode_of_answer(answer, has_failed)
                == DownloadMode::Resume
            &&& a == seq!['4'] ==> mode_of_answer(answer, has_failed)
                == DownloadMode::RangeIgnoreHistory
            &&& a == seq!['q'] ==> mode_of_answer(answer, has_failed) == DownloadMode::Cancel
            &&& a != seq!['3'] ==> mode_of_answer(answer, true) == mode_of_answer(answer, false)
            &&& (a.len() > 0 && a != seq!['1'] && a != seq!['2'] && a != seq!['3'] && a != seq!['4']
                && a != seq!['q']) ==> mode_of_answer(answer, has_failed) == DownloadMode::Resume
        }),
{
    reveal_strlit("");
    reveal_strlit("1");
    reveal_strlit("2");
    reveal_strlit("3");
    reveal_strlit("4");
    reveal_strlit("q");
    assert(""@ =~= Seq::<char>::empty());
    assert("1"@ =~= seq!['1']);
    assert("2"@ =~= seq!['2']);
    assert("3"@ =~= seq!['3']);
    assert("4"@ =~= seq!['4']);
    assert("q"@ =~= seq!['q']);
    let a = ascii_lower(trim(answer));
    let ones = seq!['1'];
    let twos = seq!['2'];
    let threes = seq!['3'];
    let fours = seq!['4'];
    let qs = seq!['q'];
    assert(ones[0] == '1' && twos[0] == '2' && threes[0] == '3' && fours[0] == '4' && qs[0]
        == 'q');
    assert(ones.len() == 1 && twos.len() == 1 && threes.len() == 1 && fours.len() == 1
        && qs.len() == 1);
    if a == twos {
        assert(a != ones && a.len() != 0);
    }
    if a == threes {
        assert(a != ones && a != twos && a.len() != 0);
    }
    if a == fours {
        assert(a != ones && a != twos && a != threes && a.len() != 0);
    }
    if a == qs {
        assert(a != ones && a != twos && a != threes && a != fours && a.len() != 0);
    }
}

/// What happens before the mode is known: the user is asked where
/// chapters are saved or failed and the download is interactive;
/// otherwise the mode is fixed.
#[derive(Clone, Copy, Debug, PartialEq, Eq, Structural)]
pub enum ModeStep {
    /// Show the mode menu (with its `3` entry when `has_failed`).
    Ask { has_failed: bool },
    /// Go on with this mode.
    Use(DownloadMode),
}

/// The first step of choosing a mode: a user is asked where chapters are
/// already saved or failed, and a book without record is downloaded by
/// range or whole; an unattended download resumes.
pub open spec fn mode_step_of(options: DownloadOptions, downloaded_ok: nat, failed_count: nat) -> ModeStep {
    if options.interactive {
        if downloaded_ok > 0 || failed_count > 0 {
            ModeStep::Ask { has_failed: failed_count > 0 }
        } else {
            ModeStep::Use(DownloadMode::RangeOrAll)
        }
    } else {
        ModeStep::Use(DownloadMode::Resume)
    }
}

/// The first step of choosing a mode.
pub fn initial_mode_step(options: DownloadOptions, downloaded_ok: usize, failed_count: usize) -> (r:
    ModeStep)
    ensures
        r == mode_step_of(options, downloaded_ok as nat, failed_count as nat),
{
    if options.interactive {
        if downloaded_ok > 0 || failed_count > 0 {
            ModeStep::Ask { has_failed: failed_count > 0 }
        } else {
            ModeStep::Use(DownloadMode::RangeOrAll)
        }
    } else {
        ModeStep::Use(DownloadMode::Resume)
    }
}

/// What a chosen mode asks for before the download starts.
#[derive(Clone, Copy, Debug, PartialEq, Eq, Structural)]
pub struct ModePlan {
    /// Give up and remove the status folder.
    pub cancel: bool,
    /// Forget which chapters were saved.
    pub clear_history: bool,
    /// Ask the user for a chapter range.
    pub ask_range: bool,
    /// Only the failed chapters are pending.
    pub failed_only: bool,
}

/// The plan of a mode: a range is asked only of a user, and only for the
/// range modes; the record is forgotten for a full download and for a
/// range that ignores it.
pub open spec fn plan_of(mode: DownloadMode, interactive: bool) -> ModePlan {
    ModePlan {
        cancel: mode == DownloadMode::Cancel,
        clear_history: mode == DownloadMode::Full || mode == DownloadMode::RangeIgnoreHistory,
        ask_range: interactive && (mode == DownloadMode::RangeIgnoreHistory || mode
            == DownloadMode::RangeOrAll),
        failed_only: mode == DownloadMode::FailedOnly,
    }
}

/// The plan of the chosen mode.
pub fn mode_plan(mode: DownloadMode, interactive: bool) -> (r: ModePlan)
    ensures
        r == plan_of(mode, interactive),
{
    ModePlan {
        cancel: match mode {
            DownloadMode::Cancel => true,
            _ => false,
        },
        clear_history: match mode {
            DownloadMode::Full | DownloadMode::RangeIgnoreHistory => true,
            _ => false,
        },
        ask_range: interactive && match mode {
            DownloadMode::RangeIgnoreHistory | DownloadMode::RangeOrAll => true,
            _ => false,
        },
        failed_only: match mode {
            DownloadMode::FailedOnly => true,
            _ => false,
        },
    }
}

/// The mode handed to the downloader.
#[derive(Clone, Copy, Debug, PartialEq, Eq, Structural)]
pub enum FlowMode {
    Resume,
    Full,
    FailedOnly,
    RangeIgnoreHistory,
}

/// An unattended download asks nothing: it resumes without a mode menu
/// and without a range, and never asks whether to retry.
pub proof fn lemma_unattended_asks_nothing(
    options: DownloadOptions,
    downloaded_ok: nat,
    failed_count: nat,
)
    requires
        !options.interactive,
    ensures
        mode_step_of(options, downloaded_ok, failed_count) == ModeStep::Use(DownloadMode::Resume),
        !plan_of(DownloadMode::Resume, options.interactive).ask_range,
        !plan_of(DownloadMode::Resume, options.interactive).cancel,
        !plan_of(DownloadMode::Resume, options.interactive).clear_history,
        policy_of(options) != RetryPolicy::AskUser,
{
}

/// The downloader's mode for a chosen mode: the modes that resume, ask a
/// range of a new book, or cancel all run as `Resume`.
pub open spec fn flow_mode_of(mode: DownloadMode) -> FlowMode {
    match mode {
        DownloadMode::Full => FlowMode::Full,
        DownloadMode::FailedOnly => FlowMode::FailedOnly,
        DownloadMode::RangeIgnoreHistory => FlowMode::RangeIgnoreHistory,
        _ => FlowMode::Resume,
    }
}

/// The downloader's mode for a chosen mode.
pub fn flow_mode(mode: DownloadMode) -> (r: FlowMode)
    ensures
        r == flow_mode_of(mode),
{
    match mode {
        DownloadMode::Full => FlowMode::Full,
        DownloadMode::FailedOnly => FlowMode::FailedOnly,
        DownloadMode::RangeIgnoreHistory => FlowMode::RangeIgnoreHistory,
        _ => FlowMode::Resume,
    }
}

/// Whether failed chapters are downloaded again.
#[derive(Clone, Copy, Debug, PartialEq, Eq, Structural)]
pub enum RetryPolicy {
    /// Ask the user each time.
    AskUser,
    /// Retry once, then give up.
    Once,
    /// Never.
    Never,
}

/// The retry policy of a download: a user is asked; an unattended
/// download retries once where asked to, and never otherwise.
pub open spec fn policy_of(options: DownloadOptions) -> RetryPolicy {
    if options.interactive {
        RetryPolicy::AskUser
    } else if options.retry_failed_once {
        RetryPolicy::Once
    } else {
        RetryPolicy::Never
    }
}

/// The retry policy of a download.
pub fn retry_policy(options: DownloadOptions) -> (r: RetryPolicy)
    ensures
        r == policy_of(options),
{
    if options.interactive {
        RetryPolicy::AskUser
    } else if options.retry_failed_once {
        RetryPolicy::Once
    } else {
        RetryPolicy::Never
    }
}

/// The decision of a retry-once policy: yes the first time, no after.
pub fn retry_once(retried: &mut bool) -> (r: bool)
    ensures
        r == !*old(retried),
        *final(retried),
{
    if *retried {
        return false;
    }
    *retried = true;
    true
}

/// Whether the user's answer to "retry the failed chapters? [Y/n]" is to
/// retry: anything but `n`.
pub fn accepts_retry(answer: &str) -> (r: bool)
    ensures
        r == (ascii_lower(trim(answer@)) != "n"@),
{
    let a = trim_lower(answer);
    proof {
        reveal_strlit("n");
    }
    !chars_is(a.as_slice(), "n")
}

/// What happens once the chapters to download are known.
#[derive(Clone, Copy, Debug, PartialEq, Eq, Structural)]
pub struct PendingPlan {
    /// No chapter was chosen: remove the status folder and stop.
    pub stop: bool,
    /// When resuming, how many of the chosen chapters are already done
    /// (told together with the number pending).
    pub resume_done: Option<usize>,
    /// Nothing is pending: only the comment cache and the last steps run.
    pub nothing_pending: bool,
}

/// The plan once `chosen` chapters are chosen and `pending` of them are
/// still to download.
pub open spec fn pending_plan_of(mode: DownloadMode, chosen: usize, pending: usize) -> PendingPlan {
    PendingPlan {
        stop: chosen == 0,
        resume_done: if mode == DownloadMode::Resume {
            Some(
                if chosen >= pending {
                    (chosen - pending) as usize
                } else {
                    0usize
                },
            )
        } else {
            None
        },
        nothing_pending: pending == 0,
    }
}

/// What happens once the chapters to download are known.
pub fn pending_plan(mode: DownloadMode, chosen: usize, pending: usize) -> (r: PendingPlan)
    ensures
        r == pending_plan_of(mode, chosen, pending),
{
    PendingPlan {
        stop: chosen == 0,
        resume_done: match mode {
            DownloadMode::Resume => Some(chosen.saturating_sub(pending)),
            _ => None,
        },
        nothing_pending: pending == 0,
    }
}

// ----------------------------------------------------------------------
// Chapter ranges
// ----------------------------------------------------------------------

/// Chapters `start` to `end`, counted from 1, both included.
#[derive(Clone, Copy, Debug, PartialEq, Eq, Structural)]
pub struct ChapterRange {
    pub start: usize,
    pub end: usize,
}

/// How an answer to the range prompt was read.
#[derive(Clone, Copy, Debug, PartialEq, Eq, Structural)]
pub enum RangeAnswer {
    /// Nothing typed: all chapters.
    All,
    /// No `~` in the answer: all chapters.
    NotARange,
    /// A side of `~` is not a number: all chapters.
    NotANumber,
    /// The range to download.
    Chosen(ChapterRange),
}

/// The position of the first `c` in `s`.
pub open spec fn first_index_of(s: Seq<char>, c: char) -> Option<nat>
    decreases s.len(),
{
    if s.len() == 0 {
        None
    } else if s[0] == c {
        Some(0)
    } else {
        match first_index_of(s.drop_first(), c) {
            Some(i) => Some(i + 1),
            None => None,
        }
    }
}

/// A typed chapter number brought into `1..=total` (0 counts as 1; with no
/// chapters at all, 1).
pub open spec fn clamp_chapter(v: nat, total: nat) -> nat {
    let v1: nat = if v == 0 {
        1
    } else {
        v
    };
    let v2: nat = if v1 <= total {
        v1
    } else {
        total
    };
    if v2 < 1 {
        1
    } else {
        v2
    }
}

/// How `a~b` is read for a book of `total` chapters: both sides trimmed
/// and read as numbers, each brought into range, and swapped where the
/// start comes after the end.
pub open spec fn range_answer(answer: Seq<char>, total: nat) -> RangeAnswer {
    let t = trim(answer);
    if t.len() == 0 {
        RangeAnswer::All
    } else {
        match first_index_of(t, '~') {
            None => RangeAnswer::NotARange,
            Some(k) => match (
                parse_unsigned(trim(t.take(k as int)), usize::MAX as nat),
                parse_unsigned(trim(t.skip((k + 1) as int)), usize::MAX as nat),
            ) {
                (Some(a), Some(b)) => {
                    let s = clamp_chapter(a, total);
                    let e = clamp_chapter(b, total);
                    if s > e {
                        RangeAnswer::Chosen(ChapterRange { start: e as usize, end: s as usize })
                    } else {
                        RangeAnswer::Chosen(ChapterRange { start: s as usize, end: e as usize })
                    }
                },
                _ => RangeAnswer::NotANumber,
            },
        }
    }
}

proof fn lemma_first_index_of_step(s: Seq<char>, c: char, i: int)
    requires
        0 <= i < s.len(),
        forall|k: int| 0 <= k < i ==> s[k] != c,
    ensures
        s[i] == c ==> first_index_of(s, c) == Some(i as nat),
    decreases i,
{
    if i > 0 {
        let t = s.drop_first();
        assert forall|k: int| 0 <= k < i - 1 implies t[k] != c by {
            assert(t[k] == s[k + 1]);
        }
        assert(s[0] != c);
        lemma_first_index_of_step(t, c, i - 1);
    }
}

proof fn lemma_first_index_of_none(s: Seq<char>, c: char)
    requires
        forall|k: int| 0 <= k < s.len() ==> s[k] != c,
    ensures
        first_index_of(s, c) is None,
    decreases s.len(),
{
    if s.len() > 0 {
        let t = s.drop_first();
        assert forall|k: int| 0 <= k < t.len() implies t[k] != c by {
            assert(t[k] == s[k + 1]);
        }
        lemma_first_index_of_none(t, c);
    }
}

fn find_char(s: &[char], c: char) -> (r: Option<usize>)
    ensures
        match r {
            Some(i) => first_index_of(s@, c) == Some(i as nat) && i < s@.len(),
            None => first_index_of(s@, c) is None,
        },
{
    let n = s.len();
    for i in 0..n
        invariant
            n == s@.len(),
            forall|k: int| 0 <= k < i ==> s@[k] != c,
    {
        if s[i] == c {
            proof {
                lemma_first_index_of_step(s@, c, i as int);
            }
            return Some(i);
        }
    }
    proof {
        lemma_first_index_of_none(s@, c);
    }
    None
}

fn slice_part(s: &[char], from: usize, to: usize) -> (r: Vec<char>)
    requires
        from <= to <= s@.len(),
    ensures
        r@ == s@.subrange(from as int, to as int),
{
    let mut r: Vec<char> = Vec::new();
    let mut k = from;
    while k < to
        invariant
            from <= k <= to <= s@.len(),
            r@ == s@.subrange(from as int, k as int),
        decreases to - k,
    {
        r.push(s[k]);
        assert(s@.subrange(from as int, k + 1) =~= s@.subrange(from as int, k as int).push(
            s@[k as int],
        ));
        k = k + 1;
    }
    r
}

fn clamp_chapter_exec(v: usize, total: usize) -> (r: usize)
    ensures
        r == clamp_chapter(v as nat, total as nat),
{
    let v1 = if v == 0 {
        1
    } else {
        v
    };
    let v2 = if v1 <= total {
        v1
    } else {
        total
    };
    if v2 < 1 {
        1
    } else {
        v2
    }
}

/// Reads the answer to the range prompt (`a~b`, or nothing for all
/// chapters) for a book of `total` chapters.
pub fn prompt_range(answer: &str, total: usize) -> (r: RangeAnswer)
    ensures
        r == range_answer(answer@, total as nat),
{
    let v = to_chars(answer);
    let t = trim_chars(v.as_slice());
    if t.len() == 0 {
        return RangeAnswer::All;
    }
    let k = match find_char(t.as_slice(), '~') {
        None => return RangeAnswer::NotARange,
        Some(k) => k,
    };
    let left = slice_part(t.as_slice(), 0, k);
    let right = slice_part(t.as_slice(), k + 1, t.len());
    proof {
        assert(left@ =~= t@.take(k as int));
        assert(right@ =~= t@.skip((k + 1) as int));
    }
    let a_text = trim_chars(left.as_slice());
    let b_text = trim_chars(right.as_slice());
    let max = usize::MAX as u64;
    let a = match parse_unsigned_max(a_text.as_slice(), max) {
        Some(a) => a as usize,
        None => return RangeAnswer::NotANumber,
    };
    let b = match parse_unsigned_max(b_text.as_slice(), max) {
        Some(b) => b as usize,
        None => return RangeAnswer::NotANumber,
    };
    let s = clamp_chapter_exec(a, total);
    let e = clamp_chapter_exec(b, total);
    if s > e {
        RangeAnswer::Chosen(ChapterRange { start: e, end: s })
    } else {
        RangeAnswer::Chosen(ChapterRange { start: s, end: e })
    }
}

/// A chosen range always lies within the book, counted from 1 (a book with
/// no chapters counts as one), with its start no later than its end.
pub proof fn lemma_range_answer_within(answer: Seq<char>, total: nat)
    ensures
        match range_answer(answer, total) {
            RangeAnswer::Chosen(r) => 1 <= r.start <= r.end && r.end <= (if total < 1 {
                1
            } else {
                total
            }),
            _ => true,
        },
{
}

// ----------------------------------------------------------------------
// The download flow, step by step
// ----------------------------------------------------------------------

/// Where the preparation of a download is.
#[derive(Clone, Copy, Debug, PartialEq, Eq, Structural)]
pub enum FlowState {
    /// The saved and failed chapters are being counted.
    Start,
    /// The mode menu was shown; its answer is awaited.
    AwaitMode { has_failed: bool },
    /// The range was asked for; the answer is awaited.
    AwaitRange { mode: DownloadMode },
    /// The chapters still to download are being counted.
    AwaitPending { mode: DownloadMode, range: Option<ChapterRange> },
    /// The download ran or was given up.
    Finished,
}

/// What the caller learnt since the last step.
#[derive(Clone, Copy, Debug, PartialEq, Eq, Structural)]
pub enum FlowInput {
    /// How many chapters are saved and how many failed.
    Counts { ok: usize, failed: usize },
    /// The user answered the last question (the text is passed beside).
    Answer,
    /// How many chapters were chosen and how many of them are pending.
    Pending { chosen: usize, pending: usize },
}

/// What the caller does next.
#[derive(Clone, Copy, Debug, PartialEq, Eq, Structural)]
pub enum FlowAction {
    /// Show the mode menu and read the answer.
    ShowModeMenu { has_failed: bool },
    /// Ask for a chapter range and read the answer.
    AskRange,
    /// Forget the record if asked (telling that everything is downloaded
    /// again for a full download), tell how the range answer was read,
    /// then count the chosen and pending chapters.
    CountPending {
        clear_history: bool,
        announce_full: bool,
        failed_only: bool,
        range: Option<ChapterRange>,
        range_answer: Option<RangeAnswer>,
    },
    /// Remove the status folder and stop.
    StopAndCleanup,
    /// Download: tell how many chapters are already done when resuming,
    /// tell when nothing is pending, and run the downloader.
    Run { mode: FlowMode, range: Option<ChapterRange>, resume_done: Option<usize>, nothing_pending: bool },
    /// The input does not belong to this step: nothing happens.
    Unexpected,
}

/// What follows once the mode is known.
pub open spec fn after_mode(mode: DownloadMode, interactive: bool) -> (FlowState, FlowAction) {
    let p = plan_of(mode, interactive);
    if p.cancel {
        (FlowState::Finished, FlowAction::StopAndCleanup)
    } else if p.ask_range {
        (FlowState::AwaitRange { mode }, FlowAction::AskRange)
    } else {
        (
            FlowState::AwaitPending { mode, range: None },
            FlowAction::CountPending {
                clear_history: p.clear_history,
                announce_full: mode == DownloadMode::Full,
                failed_only: p.failed_only,
                range: None,
                range_answer: None,
            },
        )
    }
}

/// The range an answer chose, if any.
pub open spec fn range_of(a: RangeAnswer) -> Option<ChapterRange> {
    match a {
        RangeAnswer::Chosen(r) => Some(r),
        _ => None,
    }
}

/// One step of preparing a download of a book of `total` chapters;
/// `line` is the user's answer where the input is `Answer`.
pub open spec fn flow_step_of(
    state: FlowState,
    options: DownloadOptions,
    total: usize,
    input: FlowInput,
    line: Seq<char>,
) -> (FlowState, FlowAction) {
    match (state, input) {
        (FlowState::Start, FlowInput::Counts { ok, failed }) => match mode_step_of(
            options,
            ok as nat,
            failed as nat,
        ) {
            ModeStep::Ask { has_failed } => (
                FlowState::AwaitMode { has_failed },
                FlowAction::ShowModeMenu { has_failed },
            ),
            ModeStep::Use(m) => after_mode(m, options.interactive),
        },
        (FlowState::AwaitMode { has_failed }, FlowInput::Answer) => after_mode(
            mode_of_answer(line, has_failed),
            options.interactive,
        ),
        (FlowState::AwaitRange { mode }, FlowInput::Answer) => {
            let a = range_answer(line, total as nat);
            let p = plan_of(mode, options.interactive);
            (
                FlowState::AwaitPending { mode, range: range_of(a) },
                FlowAction::CountPending {
                    clear_history: p.clear_history,
                    announce_full: mode == DownloadMode::Full,
                    failed_only: p.failed_only,
                    range: range_of(a),
                    range_answer: Some(a),
                },
            )
        },
        (FlowState::AwaitPending { mode, range }, FlowInput::Pending { chosen, pending }) => {
            let p = pending_plan_of(mode, chosen, pending);
            if p.stop {
                (FlowState::Finished, FlowAction::StopAndCleanup)
            } else {
                (
                    FlowState::Finished,
                    FlowAction::Run {
                        mode: flow_mode_of(mode),
                        range,
                        resume_done: p.resume_done,
                        nothing_pending: p.nothing_pending,
                    },
                )
            }
        },
        _ => (state, FlowAction::Unexpected),
    }
}

fn after_mode_exec(mode: DownloadMode, interactive: bool) -> (r: (FlowState, FlowAction))
    ensures
        r == after_mode(mode, interactive),
{
    let p = mode_plan(mode, interactive);
    if p.cancel {
        (FlowState::Finished, FlowAction::StopAndCleanup)
    } else if p.ask_range {
        (FlowState::AwaitRange { mode }, FlowAction::AskRange)
    } else {
        let full = match mode {
            DownloadMode::Full => true,
            _ => false,
        };
        (
            FlowState::AwaitPending { mode, range: None },
            FlowAction::CountPending {
                clear_history: p.clear_history,
                announce_full: full,
                failed_only: p.failed_only,
                range: None,
                range_answer: None,
            },
        )
    }
}

/// One step of preparing a download.
pub fn flow_step(state: FlowState, options: DownloadOptions, total: usize, input: FlowInput, line: &str) -> (r: (
    FlowState,
    FlowAction,
))
    ensures
        r == flow_step_of(state, options, total, input, line@),
{
    match (state, input) {
        (FlowState::Start, FlowInput::Counts { ok, failed }) => match initial_mode_step(
            options,
            ok,
            failed,
        ) {
            ModeStep::Ask { has_failed } => (
                FlowState::AwaitMode { has_failed },
                FlowAction::ShowModeMenu { has_failed },
            ),
            ModeStep::Use(m) => after_mode_exec(m, options.interactive),
        },
        (FlowState::AwaitMode { has_failed }, FlowInput::Answer) => after_mode_exec(
            select_download_mode(line, has_failed),
            options.interactive,
        ),
        (FlowState::AwaitRange { mode }, FlowInput::Answer) => {
            let a = prompt_range(line, total);
            let p = mode_plan(mode, options.interactive);
            let range = match a {
                RangeAnswer::Chosen(r) => Some(r),
                _ => None,
            };
            let full = match mode {
                DownloadMode::Full => true,
                _ => false,
            };
            (
                FlowState::AwaitPending { mode, range },
                FlowAction::CountPending {
                    clear_history: p.clear_history,
                    announce_full: full,
                    failed_only: p.failed_only,
                    range,
                    range_answer: Some(a),
                },
            )
        },
        (FlowState::AwaitPending { mode, range }, FlowInput::Pending { chosen, pending }) => {
            let p = pending_plan(mode, chosen, pending);
            if p.stop {
                (FlowState::Finished, FlowAction::StopAndCleanup)
            } else {
                (
                    FlowState::Finished,
                    FlowAction::Run {
                        mode: flow_mode(mode),
                        range,
                        resume_done: p.resume_done,
                        nothing_pending: p.nothing_pending,
                    },
                )
            }
        },
        _ => (state, FlowAction::Unexpected),
    }
}

/// The order of a download: the downloader runs only once the chosen and
/// pending chapters are counted and some chapter was chosen; it is given up
/// only when the user cancels or no chapter was chosen; and an unattended
/// download shows no menu and asks no range.
pub proof fn lemma_flow_order(
    state: FlowState,
    options: DownloadOptions,
    total: usize,
    input: FlowInput,
    line: Seq<char>,
)
    ensures
        ({
            let (next, action) = flow_step_of(state, options, total, input, line);
            &&& action is Run ==> (state is AwaitPending && input is Pending && input->chosen > 0
                && next == FlowState::Finished)
            &&& action is StopAndCleanup ==> ((state is AwaitPending && input is Pending
                && input->chosen == 0) || (state is AwaitMode && input == FlowInput::Answer
                && mode_of_answer(line, state->has_failed) == DownloadMode::Cancel))
            &&& !options.interactive ==> !(action is ShowModeMenu) && !(action is AskRange)
        }),
{
}

// ----------------------------------------------------------------------
// Saved chapters
// ----------------------------------------------------------------------

/// A chapter in the download record: its id, and whether its text was
/// saved (a chapter recorded without text failed).
#[derive(Clone, Debug)]
pub struct ChapterRecord {
    pub chapter_id: String,
    pub saved: bool,
}

/// The record of each entry, by id and outcome.
pub open spec fn records_view(r: Seq<ChapterRecord>) -> Seq<(Seq<char>, bool)> {
    r.map_values(|x: ChapterRecord| (x.chapter_id@, x.saved))
}

/// The outcome recorded for a chapter id, if any.
pub open spec fn record_of(records: Seq<(Seq<char>, bool)>, id: Seq<char>) -> Option<bool>
    decreases records.len(),
{
    if records.len() == 0 {
        None
    } else if records[0].0 == id {
        Some(records[0].1)
    } else {
        record_of(records.drop_first(), id)
    }
}

/// How many of the chapters are recorded with the given outcome.
pub open spec fn count_recorded(chapters: Seq<Seq<char>>, records: Seq<(Seq<char>, bool)>, saved: bool) -> nat
    decreases chapters.len(),
{
    if chapters.len() == 0 {
        0
    } else {
        count_recorded(chapters.drop_last(), records, saved) + if record_of(
            records,
            chapters.last(),
        ) == Some(saved) {
            1nat
        } else {
            0nat
        }
    }
}

proof fn lemma_count_recorded_bounded(chapters: Seq<Seq<char>>, records: Seq<(Seq<char>, bool)>)
    ensures
        count_recorded(chapters, records, true) + count_recorded(chapters, records, false)
            <= chapters.len(),
    decreases chapters.len(),
{
    if chapters.len() > 0 {
        lemma_count_recorded_bounded(chapters.drop_last(), records);
    }
}

/// No chapter is counted both as saved and as failed: the two counts
/// together never exceed the number of chapters.
pub proof fn lemma_download_state_bounded(chapters: Seq<Seq<char>>, records: Seq<(Seq<char>, bool)>)
    ensures
        count_recorded(chapters, records, true) + count_recorded(chapters, records, false)
            <= chapters.len(),
{
    lemma_count_recorded_bounded(chapters, records);
}

/// Whether no chapter id is recorded twice, as in a map from chapter ids.
pub open spec fn ids_unique(records: Seq<(Seq<char>, bool)>) -> bool {
    forall|i: int, j: int|
        0 <= i < records.len() && 0 <= j < records.len() && i != j ==> #[trigger] records[i].0
            != #[trigger] records[j].0
}

/// With each chapter recorded at most once, the record is a map: a
/// chapter's outcome is the one recorded for it, wherever it stands in the
/// list, and a chapter not in the list has none.
pub proof fn lemma_record_of_map(records: Seq<(Seq<char>, bool)>, i: int)
    requires
        ids_unique(records),
        0 <= i < records.len(),
    ensures
        record_of(records, records[i].0) == Some(records[i].1),
    decreases i,
{
    if i > 0 {
        let t = records.drop_first();
        assert(records[0].0 != records[i].0);
        assert forall|a: int, b: int|
            0 <= a < t.len() && 0 <= b < t.len() && a != b implies #[trigger] t[a].0 != #[trigger] t[b].0 by {
            assert(t[a] == records[a + 1]);
            assert(t[b] == records[b + 1]);
        }
        assert(t[i - 1] == records[i]);
        lemma_record_of_map(t, i - 1);
    }
}

/// A chapter id that is in no record has no outcome.
pub proof fn lemma_record_of_absent(records: Seq<(Seq<char>, bool)>, id: Seq<char>)
    requires
        forall|k: int| 0 <= k < records.len() ==> records[k].0 != id,
    ensures
        record_of(records, id) is None,
{
    lemma_record_of_none(records, id);
}

proof fn lemma_record_of_step(records: Seq<(Seq<char>, bool)>, id: Seq<char>, i: int)
    requires
        0 <= i < records.len(),
        forall|k: int| 0 <= k < i ==> records[k].0 != id,
    ensures
        records[i].0 == id ==> record_of(records, id) == Some(records[i].1),
    decreases i,
{
    if i > 0 {
        let t = records.drop_first();
        assert forall|k: int| 0 <= k < i - 1 implies t[k].0 != id by {
            assert(t[k] == records[k + 1]);
        }
        assert(records[0].0 != id);
        lemma_record_of_step(t, id, i - 1);
    }
}

proof fn lemma_record_of_none(records: Seq<(Seq<char>, bool)>, id: Seq<char>)
    requires
        forall|k: int| 0 <= k < records.len() ==> records[k].0 != id,
    ensures
        record_of(records, id) is None,
    decreases records.len(),
{
    if records.len() > 0 {
        let t = records.drop_first();
        assert forall|k: int| 0 <= k < t.len() implies t[k].0 != id by {
            assert(t[k] == records[k + 1]);
        }
        lemma_record_of_none(t, id);
    }
}

fn lookup_record(records: &[ChapterRecord], id: &str) -> (r: Option<bool>)
    ensures
        r == record_of(records_view(records@), id@),
{
    let ghost rv = records_view(records@);
    let n = records.len();
    for i in 0..n
        invariant
            n == records@.len(),
            rv == records_view(records@),
            rv.len() == n,
            forall|k: int| 0 <= k < i ==> rv[k].0 != id@,
    {
        let same = str_is(records[i].chapter_id.as_str(), id);
        proof {
            assert(rv[i as int] == (records@[i as int].chapter_id@, records@[i as int].saved));
            lemma_record_of_step(rv, id@, i as int);
        }
        if same {
            return Some(records[i].saved);
        }
    }
    proof {
        lemma_record_of_none(rv, id@);
    }
    None
}

/// How many of the chapters are saved and how many failed, by the download
/// record.
pub fn count_download_state(records: &[ChapterRecord], chapter_ids: &[String]) -> (r: (
    usize,
    usize,
))
    ensures
        r.0 == count_recorded(views(chapter_ids@), records_view(records@), true),
        r.1 == count_recorded(views(chapter_ids@), records_view(records@), false),
{
    let ghost rv = records_view(records@);
    let mut ok: usize = 0;
    let mut failed: usize = 0;
    let n = chapter_ids.len();
    for i in 0..n
        invariant
            n == chapter_ids@.len(),
            rv == records_view(records@),
            ok == count_recorded(views(chapter_ids@.take(i as int)), rv, true),
            failed == count_recorded(views(chapter_ids@.take(i as int)), rv, false),
            ok + failed <= i,
    {
        let ghost before = views(chapter_ids@.take(i as int));
        let ghost after = views(chapter_ids@.take(i + 1));
        proof {
            assert(after.drop_last() =~= before);
            assert(after.last() == chapter_ids@[i as int]@);
        }
        match lookup_record(records, chapter_ids[i].as_str()) {
            Some(true) => ok = ok + 1,
            Some(false) => failed = failed + 1,
            None => {},
        }
    }
    proof {
        assert(chapter_ids@.take(n as int) =~= chapter_ids@);
    }
    (ok, failed)
}

// ----------------------------------------------------------------------
// Local download records
// ----------------------------------------------------------------------

/// A folder under the save directory, and whether it holds a status file.
#[derive(Clone, Debug)]
pub struct StatusFolder {
    pub name: String,
    pub has_status_file: bool,
}

/// Whether a folder holds the download record of a book: its name is the
/// book id followed by `_`, and it has a status file.
pub open spec fn is_record_of(name: Seq<char>, has_status_file: bool, book_id: Seq<char>) -> bool {
    &&& has_status_file
    &&& name.len() > book_id.len()
    &&& name.take(book_id.len() as int) == book_id
    &&& name[book_id.len() as int] == '_'
}

/// Whether some folder holds the download record of the book.
pub open spec fn has_record(folders: Seq<StatusFolder>, book_id: Seq<char>) -> bool {
    exists|i: int|
        0 <= i < folders.len() && is_record_of(
            #[trigger] folders[i].name@,
            folders[i].has_status_file,
            book_id,
        )
}

fn folder_is_record(name: &str, has_status_file: bool, book_id: &str) -> (r: bool)
    ensures
        r == is_record_of(name@, has_status_file, book_id@),
{
    if !has_status_file {
        return false;
    }
    let n = to_chars(name);
    let b = to_chars(book_id);
    if n.len() <= b.len() {
        return false;
    }
    let head = slice_part(n.as_slice(), 0, b.len());
    proof {
        assert(head@ =~= n@.take(b@.len() as int));
    }
    crate::text::slice_eq(head.as_slice(), b.as_slice()) && n[b.len()] == '_'
}

/// Whether the save directory holds a download record of the book: a
/// folder named after the book id and `_` with a status file in it.
pub fn has_local_download_record(folders: &[StatusFolder], book_id: &str) -> (r: bool)
    ensures
        r == has_record(folders@, book_id@),
{
    let n = folders.len();
    for i in 0..n
        invariant
            n == folders@.len(),
            forall|k: int|
                0 <= k < i ==> !is_record_of(
                    #[trigger] folders@[k].name@,
                    folders@[k].has_status_file,
                    book_id@,
                ),
    {
        if folder_is_record(folders[i].name.as_str(), folders[i].has_status_file, book_id) {
            return true;
        }
    }
    false
}

/// The message given where a book has no local record.
pub open spec fn missing_record_text(save_dir: Seq<char>, book_id: Seq<char>) -> Seq<char> {
    "Chế độ CLI chỉ hỗ trợ cập nhật truyện đã có sẵn cục bộ: không tìm thấy bản ghi tải xuống của book_id="@
        + save_dir + " trong "@ + book_id + ". Hãy dùng Web UI hoặc TUI để tải lần đầu."@
}

/// Refuses to update a book that has no local download record.
pub fn ensure_local_download_exists(folders: &[StatusFolder], save_dir: &str, book_id: &str) -> (r:
    Result<(), String>)
    ensures
        match r {
            Ok(()) => has_record(folders@, book_id@),
            Err(m) => !has_record(folders@, book_id@) && m@ == missing_record_text(
                save_dir@,
                book_id@,
            ),
        },
{
    if has_local_download_record(folders, book_id) {
        return Ok(());
    }
    let mut m = String::from_str(
        "Chế độ CLI chỉ hỗ trợ cập nhật truyện đã có sẵn cục bộ: không tìm thấy bản ghi tải xuống của book_id=",
    );
    m.append(save_dir);
    m.append(" trong ");
    m.append(book_id);
    m.append(". Hãy dùng Web UI hoặc TUI để tải lần đầu.");
    Err(m)
}

// ----------------------------------------------------------------------
// The cover file
// ----------------------------------------------------------------------

/// An entry of a book's folder: its file name, and whether it is a file.
#[derive(Clone, Debug)]
pub struct FolderEntry {
    pub name: String,
    pub is_file: bool,
}

/// The position of the last `c` in `s`.
pub open spec fn last_index_of(s: Seq<char>, c: char) -> Option<nat>
    decreases s.len(),
{
    if s.len() == 0 {
        None
    } else if s.last() == c {
        Some((s.len() - 1) as nat)
    } else {
        last_index_of(s.drop_last(), c)
    }
}

/// The extension of a file name, as `Path::extension` gives it: what
/// follows the last `.`, where something precedes that dot; none for `..`.
pub open spec fn file_extension(name: Seq<char>) -> Option<Seq<char>> {
    if name == seq!['.', '.'] {
        None
    } else {
        match last_index_of(name, '.') {
            None => None,
            Some(k) => if k == 0 {
                None
            } else {
                Some(name.skip((k + 1) as int))
            },
        }
    }
}

/// Whether a folder entry is a cover image: a file whose extension is
/// `jpg`, `jpeg` or `png` in any ASCII case.
pub open spec fn is_cover_entry(name: Seq<char>, is_file: bool) -> bool {
    &&& is_file
    &&& match file_extension(name) {
        Some(e) => {
            let l = ascii_lower(e);
            l == seq!['j', 'p', 'g'] || l == seq!['j', 'p', 'e', 'g'] || l == seq!['p', 'n', 'g']
        },
        None => false,
    }
}

/// The position of the first cover image among the entries.
pub open spec fn first_cover(entries: Seq<FolderEntry>) -> Option<nat>
    decreases entries.len(),
{
    if entries.len() == 0 {
        None
    } else if is_cover_entry(entries[0].name@, entries[0].is_file) {
        Some(0)
    } else {
        match first_cover(entries.drop_first()) {
            Some(i) => Some(i + 1),
            None => None,
        }
    }
}

proof fn lemma_last_dot(stem: Seq<char>, ext: Seq<char>)
    requires
        forall|i: int| 0 <= i < ext.len() ==> ext[i] != '.',
    ensures
        last_index_of(stem + seq!['.'] + ext, '.') == Some(stem.len()),
    decreases ext.len(),
{
    let name = stem + seq!['.'] + ext;
    if ext.len() == 0 {
        assert(name.last() == '.');
        assert(name.len() == stem.len() + 1);
    } else {
        assert(name.last() == ext.last());
        assert(name.drop_last() =~= stem + seq!['.'] + ext.drop_last());
        lemma_last_dot(stem, ext.drop_last());
    }
}

/// A file name made of a non-empty stem, a dot and an extension without a
/// dot names a cover image exactly when it is a file and the extension is
/// `jpg`, `jpeg` or `png`, in any ASCII case; so `cover.png` is one.
pub proof fn lemma_cover_names(stem: Seq<char>, ext: Seq<char>, is_file: bool)
    requires
        stem.len() > 0,
        forall|i: int| 0 <= i < ext.len() ==> ext[i] != '.',
    ensures
        is_cover_entry(stem + seq!['.'] + ext, is_file) == (is_file && {
            let l = ascii_lower(ext);
            l == seq!['j', 'p', 'g'] || l == seq!['j', 'p', 'e', 'g'] || l == seq!['p', 'n', 'g']
        }),
{
    let name = stem + seq!['.'] + ext;
    lemma_last_dot(stem, ext);
    if name == seq!['.', '.'] {
        assert(name.len() == stem.len() + 1 + ext.len());
        assert(ext.len() == 0);
        assert(ascii_lower(ext).len() == 0);
    } else {
        assert(name.skip(stem.len() + 1int) =~= ext);
    }
}

/// The first cover image of a folder is found: where every entry before
/// position `i` is no cover image and the entry at `i` is one, the cover
/// is the entry at `i`.
pub proof fn lemma_first_cover_step(entries: Seq<FolderEntry>, i: int)
    requires
        0 <= i < entries.len(),
        forall|k: int|
            0 <= k < i ==> !is_cover_entry(#[trigger] entries[k].name@, entries[k].is_file),
    ensures
        is_cover_entry(entries[i].name@, entries[i].is_file) ==> first_cover(entries) == Some(
            i as nat,
        ),
    decreases i,
{
    if i > 0 {
        let t = entries.drop_first();
        assert forall|k: int| 0 <= k < i - 1 implies !is_cover_entry(
            #[trigger] t[k].name@,
            t[k].is_file,
        ) by {
            assert(t[k] == entries[k + 1]);
        }
        assert(!is_cover_entry(entries[0].name@, entries[0].is_file));
        lemma_first_cover_step(t, i - 1);
    }
}

proof fn lemma_first_cover_none(entries: Seq<FolderEntry>)
    requires
        forall|k: int|
            0 <= k < entries.len() ==> !is_cover_entry(#[trigger] entries[k].name@, entries[k].is_file),
    ensures
        first_cover(entries) is None,
    decreases entries.len(),
{
    if entries.len() > 0 {
        let t = entries.drop_first();
        assert forall|k: int| 0 <= k < t.len() implies !is_cover_entry(
            #[trigger] t[k].name@,
            t[k].is_file,
        ) by {
            assert(t[k] == entries[k + 1]);
        }
        assert(!is_cover_entry(entries[0].name@, entries[0].is_file));
        lemma_first_cover_none(t);
    }
}

fn find_last_char(s: &[char], c: char) -> (r: Option<usize>)
    ensures
        match r {
            Some(i) => last_index_of(s@, c) == Some(i as nat) && i < s@.len(),
            None => last_index_of(s@, c) is None,
        },
{
    let n = s.len();
    let mut j = n;
    assert(s@.take(n as int) =~= s@);
    while j > 0
        invariant
            j <= n == s@.len(),
            last_index_of(s@, c) == last_index_of(s@.take(j as int), c),
        decreases j,
    {
        let ghost t = s@.take(j as int);
        assert(t.last() == s@[j - 1]);
        if s[j - 1] == c {
            return Some(j - 1);
        }
        assert(t.drop_last() =~= s@.take(j - 1));
        j = j - 1;
    }
    None
}

/// Whether a file name has a cover image's extension.
fn has_cover_extension(name: &str) -> (r: bool)
    ensures
        r == is_cover_entry(name@, true),
{
    let v = to_chars(name);
    if v.len() == 2 && v[0] == '.' && v[1] == '.' {
        assert(v@ =~= seq!['.', '.']);
        return false;
    }
    assert(v@ != seq!['.', '.']);
    let k = match find_last_char(v.as_slice(), '.') {
        None => return false,
        Some(k) => k,
    };
    if k == 0 {
        return false;
    }
    let ext = slice_part(v.as_slice(), k + 1, v.len());
    assert(ext@ =~= v@.skip((k + 1) as int));
    let l = crate::text::ascii_lower_chars(ext.as_slice());
    let jpg = to_chars("jpg");
    let jpeg = to_chars("jpeg");
    let png = to_chars("png");
    proof {
        reveal_strlit("jpg");
        reveal_strlit("jpeg");
        reveal_strlit("png");
        assert("jpg"@ =~= seq!['j', 'p', 'g']);
        assert("jpeg"@ =~= seq!['j', 'p', 'e', 'g']);
        assert("png"@ =~= seq!['p', 'n', 'g']);
    }
    crate::text::slice_eq(l.as_slice(), jpg.as_slice()) || crate::text::slice_eq(
        l.as_slice(),
        jpeg.as_slice(),
    ) || crate::text::slice_eq(l.as_slice(), png.as_slice())
}

/// The first entry of a book's folder that is a cover image (a `jpg`,
/// `jpeg` or `png` file), by its position.
pub fn find_cover_image(entries: &[FolderEntry]) -> (r: Option<usize>)
    ensures
        match r {
            Some(i) => first_cover(entries@) == Some(i as nat),
            None => first_cover(entries@) is None,
        },
{
    let n = entries.len();
    for i in 0..n
        invariant
            n == entries@.len(),
            forall|k: int|
                0 <= k < i ==> !is_cover_entry(
                    #[trigger] entries@[k].name@,
                    entries@[k].is_file,
                ),
    {
        let hit = entries[i].is_file && has_cover_extension(entries[i].name.as_str());
        proof {
            lemma_first_cover_step(entries@, i as int);
        }
        if hit {
            return Some(i);
        }
    }
    proof {
        lemma_first_cover_none(entries@);
    }
    None
}

// ----------------------------------------------------------------------
// What is printed about a book
// ----------------------------------------------------------------------

/// What is known of a book before its chapters are downloaded.
#[derive(Clone, Debug)]
pub struct BookMeta {
    pub book_name: Option<String>,
    pub author: Option<String>,
    pub finished: Option<bool>,
    pub chapter_count: Option<usize>,
    pub tags: Vec<String>,
    pub description: Option<String>,
}

/// A description cut to its first 50 characters, followed by `...`, where
/// it is longer.
pub open spec fn short_text(d: Seq<char>) -> Seq<char> {
    if d.len() > 50 {
        d.take(50) + "..."@
    } else {
        d
    }
}

/// Items joined by `|`.
pub open spec fn join_bar(items: Seq<Seq<char>>) -> Seq<char>
    decreases items.len(),
{
    if items.len() == 0 {
        Seq::<char>::empty()
    } else if items.len() == 1 {
        items[0]
    } else {
        join_bar(items.drop_last()) + seq!['|'] + items.last()
    }
}

/// A line with a label, where the value is there.
pub open spec fn line_if(label: Seq<char>, value: Option<Seq<char>>) -> Seq<Seq<char>> {
    match value {
        Some(v) => seq![label + v],
        None => Seq::<Seq<char>>::empty(),
    }
}

/// The view of an optional text.
pub open spec fn opt_view(o: Option<String>) -> Option<Seq<char>> {
    match o {
        Some(s) => Some(s@),
        None => None,
    }
}

/// The lines printed about a book: its name (the book id where none is
/// known), then, where known, its author, whether it is finished, its
/// number of chapters, its tags joined by `|`, and its description
/// shortened.
pub open spec fn summary_lines(meta: BookMeta, book_id: Seq<char>) -> Seq<Seq<char>> {
    seq!["Ten sach: "@ + name_or_id(meta, book_id)] + line_if("Tac gia: "@, opt_view(meta.author)) + line_if(
        "Trang thai hoan thanh: "@,
        match meta.finished {
            Some(true) => Some("Da hoan"@),
            Some(false) => Some("Dang ra"@),
            None => None,
        },
    ) + line_if(
        "So chuong: "@,
        match meta.chapter_count {
            Some(c) => Some(decimal(c as nat)),
            None => None,
        },
    ) + line_if(
        "The: "@,
        if meta.tags@.len() > 0 {
            Some(join_bar(views(meta.tags@)))
        } else {
            None
        },
    ) + line_if("Tom tat: "@, short_description_of(meta))
}

/// The book's name, or its id where no name is known.
pub open spec fn name_or_id(meta: BookMeta, book_id: Seq<char>) -> Seq<char> {
    match meta.book_name {
        Some(n) => n@,
        None => book_id,
    }
}

/// The shortened description, where there is one.
pub open spec fn short_description_of(meta: BookMeta) -> Option<Seq<char>> {
    match meta.description {
        Some(d) => Some(short_text(d@)),
        None => None,
    }
}

/// A description shortened for the summary.
pub fn short_description(desc: &str) -> (r: String)
    ensures
        r@ == short_text(desc@),
{
    let v = to_chars(desc);
    if v.len() > 50 {
        let head = slice_part(v.as_slice(), 0, 50);
        let mut s = from_chars(head.as_slice());
        s.append("...");
        proof {
            assert(head@ =~= v@.take(50));
        }
        s
    } else {
        from_chars(v.as_slice())
    }
}

fn join_tags(items: &Vec<String>) -> (r: String)
    ensures
        r@ == join_bar(views(items@)),
{
    let mut r = String::new();
    let n = items.len();
    for i in 0..n
        invariant
            n == items@.len(),
            r@ == join_bar(views(items@.take(i as int))),
    {
        let ghost before = views(items@.take(i as int));
        assert(views(items@.take(i + 1)).drop_last() =~= before);
        if i > 0 {
            r.append("|");
            proof {
                reveal_strlit("|");
            }
        }
        r.append(items[i].as_str());
        proof {
            let after = views(items@.take(i + 1));
            assert(after.last() == items@[i as int]@);
            if i == 0 {
                assert(after.len() == 1);
                assert(r@ =~= after[0]);
            } else {
                assert(r@ =~= join_bar(before) + seq!['|'] + after.last());
            }
        }
    }
    assert(items@.take(n as int) =~= items@);
    r
}

fn labelled(label: &str, value: &str) -> (r: String)
    ensures
        r@ == label@ + value@,
{
    let mut s = String::from_str(label);
    s.append(value);
    s
}

/// The lines printed about a book before it is downloaded.
pub fn book_summary_lines(meta: &BookMeta, book_id: &str) -> (r: Vec<String>)
    ensures
        views(r@) == summary_lines(*meta, book_id@),
{
    let mut out: Vec<String> = Vec::new();
    let name = match &meta.book_name {
        Some(n) => labelled("Ten sach: ", n.as_str()),
        None => labelled("Ten sach: ", book_id),
    };
    out.push(name);
    let ghost mut expect: Seq<Seq<char>> = seq!["Ten sach: "@ + name_or_id(*meta, book_id@)];
    assert(views(out@) =~= expect);
    match &meta.author {
        Some(a) => {
            out.push(labelled("Tac gia: ", a.as_str()));
        },
        None => {},
    }
    proof {
        expect = expect + line_if("Tac gia: "@, opt_view(meta.author));
        assert(views(out@) =~= expect);
    }
    match meta.finished {
        Some(f) => {
            let v = if f {
                "Da hoan"
            } else {
                "Dang ra"
            };
            out.push(labelled("Trang thai hoan thanh: ", v));
        },
        None => {},
    }
    proof {
        expect = expect + line_if(
            "Trang thai hoan thanh: "@,
            match meta.finished {
                Some(true) => Some("Da hoan"@),
                Some(false) => Some("Dang ra"@),
                None => None,
            },
        );
        assert(views(out@) =~= expect);
    }
    match meta.chapter_count {
        Some(c) => {
            let digits = crate::text::decimal_string(c as u64);
            out.push(labelled("So chuong: ", digits.as_str()));
        },
        None => {},
    }
    proof {
        expect = expect + line_if(
            "So chuong: "@,
            match meta.chapter_count {
                Some(c) => Some(decimal(c as nat)),
                None => None,
            },
        );
        assert(views(out@) =~= expect);
    }
    if meta.tags.len() > 0 {
        let joined = join_tags(&meta.tags);
        out.push(labelled("The: ", joined.as_str()));
    }
    proof {
        expect = expect + line_if(
            "The: "@,
            if meta.tags@.len() > 0 {
                Some(join_bar(views(meta.tags@)))
            } else {
                None
            },
        );
        assert(views(out@) =~= expect);
    }
    match &meta.description {
        Some(d) => {
            let short = short_description(d.as_str());
            out.push(labelled("Tom tat: ", short.as_str()));
        },
        None => {},
    }
    proof {
        expect = expect + line_if("Tom tat: "@, short_description_of(*meta));
        assert(views(out@) =~= expect);
    }
    out
}

} // verus!
