//! The line-based menus: the main command prompt, the download history,
//! and the list of books with new chapters.

use vstd::prelude::*;
use crate::text::{
    ascii_lower, chars_eq_ignore_case, decimal, eq_ignore_case, from_chars, lemma_decimal_lower,
    lemma_decimal_round_trip, parse_unsigned, parse_unsigned_max, to_chars, trim, trim_chars,
    trim_lower, views,
};

verus! {

// ----------------------------------------------------------------------
// The main prompt
// ----------------------------------------------------------------------

/// A command typed at the main prompt.
#[derive(Clone, Copy, Debug, PartialEq, Eq, Structural)]
pub enum MainCommand {
    /// Nothing typed: ask again.
    Empty,
    /// `q`: leave.
    Quit,
    /// `s`: the settings menu.
    Settings,
    /// `h`: the download history.
    History,
    /// `u`: update a book that is already downloaded.
    UpdateBooks,
    /// `c`: check for a new version of the program.
    CheckUpdate,
    /// Anything else: new downloads are not offered here.
    Unknown,
}

/// The command typed, trimmed, its letter in either case. An upper-case
/// `U` is taken as `u`, since the letters are compared ignoring case.
pub open spec fn main_command(input: Seq<char>) -> MainCommand {
    let t = trim(input);
    if t.len() == 0 {
        MainCommand::Empty
    } else if eq_ignore_case(t, seq!['q']) {
        MainCommand::Quit
    } else if eq_ignore_case(t, seq!['s']) {
        MainCommand::Settings
    } else if eq_ignore_case(t, seq!['h']) {
        MainCommand::History
    } else if eq_ignore_case(t, seq!['u']) {
        MainCommand::UpdateBooks
    } else if eq_ignore_case(t, seq!['c']) {
        MainCommand::CheckUpdate
    } else {
        MainCommand::Unknown
    }
}

fn is_letter(t: &[char], lit: &str, c: char) -> (r: bool)
    requires
        lit@ == seq![c],
    ensures
        r == eq_ignore_case(t@, seq![c]),
{
    chars_eq_ignore_case(t, lit)
}

/// Reads a command typed at the main prompt.
pub fn parse_main_command(input: &str) -> (r: MainCommand)
    ensures
        r == main_command(input@),
{
    let v = to_chars(input);
    let t = trim_chars(v.as_slice());
    proof {
        reveal_strlit("q");
        assert("q"@ =~= seq!['q']);
        reveal_strlit("s");
        assert("s"@ =~= seq!['s']);
        reveal_strlit("h");
        assert("h"@ =~= seq!['h']);
        reveal_strlit("u");
        assert("u"@ =~= seq!['u']);
        reveal_strlit("c");
        assert("c"@ =~= seq!['c']);
    }
    if t.len() == 0 {
        MainCommand::Empty
    } else if is_letter(t.as_slice(), "q", 'q') {
        MainCommand::Quit
    } else if is_letter(t.as_slice(), "s", 's') {
        MainCommand::Settings
    } else if is_letter(t.as_slice(), "h", 'h') {
        MainCommand::History
    } else if is_letter(t.as_slice(), "u", 'u') {
        MainCommand::UpdateBooks
    } else if is_letter(t.as_slice(), "c", 'c') {
        MainCommand::CheckUpdate
    } else {
        MainCommand::Unknown
    }
}

/// The main prompt, naming the save directory.
pub open spec fn main_prompt_text(save_dir: Seq<char>) -> Seq<char> {
    "CLI cu da tat tinh nang tai moi; hay nhap lenh (s cau hinh / h lich su tai / u cap nhat sach / c kiem tra cap nhat / U tu cap nhat chuong trinh / q thoat, mac dinh luu tai "@
        + save_dir + "):"@
}

/// The main prompt.
pub fn main_prompt(save_dir: &str) -> (r: String)
    ensures
        r@ == main_prompt_text(save_dir@),
{
    let mut s = String::from_str(
        "CLI cu da tat tinh nang tai moi; hay nhap lenh (s cau hinh / h lich su tai / u cap nhat sach / c kiem tra cap nhat / U tu cap nhat chuong trinh / q thoat, mac dinh luu tai ",
    );
    s.append(save_dir);
    s.append("):");
    s
}

// ----------------------------------------------------------------------
// Download history
// ----------------------------------------------------------------------

/// A command typed in the history view.
#[derive(Clone, Copy, Debug, PartialEq, Eq, Structural)]
pub enum HistoryCommand {
    /// Show the list again (nothing typed, or an unknown command).
    Refresh,
    /// `q`: back to the main prompt.
    Quit,
    /// `f`: ask for a filter keyword.
    Filter,
    /// `c`: drop the filter.
    ClearFilter,
}

/// The history command typed, its letter in either case.
pub open spec fn history_command(input: Seq<char>) -> HistoryCommand {
    let t = trim(input);
    if t.len() == 0 {
        HistoryCommand::Refresh
    } else if eq_ignore_case(t, seq!['q']) {
        HistoryCommand::Quit
    } else if eq_ignore_case(t, seq!['f']) {
        HistoryCommand::Filter
    } else if eq_ignore_case(t, seq!['c']) {
        HistoryCommand::ClearFilter
    } else {
        HistoryCommand::Refresh
    }
}

/// Reads a command typed in the history view.
pub fn parse_history_command(input: &str) -> (r: HistoryCommand)
    ensures
        r == history_command(input@),
{
    let v = to_chars(input);
    let t = trim_chars(v.as_slice());
    proof {
        reveal_strlit("q");
        assert("q"@ =~= seq!['q']);
        reveal_strlit("f");
        assert("f"@ =~= seq!['f']);
        reveal_strlit("c");
        assert("c"@ =~= seq!['c']);
    }
    if t.len() == 0 {
        HistoryCommand::Refresh
    } else if is_letter(t.as_slice(), "q", 'q') {
        HistoryCommand::Quit
    } else if is_letter(t.as_slice(), "f", 'f') {
        HistoryCommand::Filter
    } else if is_letter(t.as_slice(), "c", 'c') {
        HistoryCommand::ClearFilter
    } else {
        HistoryCommand::Refresh
    }
}

/// The filter after a keyword is typed: the keyword trimmed, or the
/// current filter where nothing was typed.
pub fn filter_after_input(current: Option<String>, typed: &str) -> (r: Option<String>)
    ensures
        trim(typed@).len() == 0 ==> r == current,
        trim(typed@).len() > 0 ==> r is Some && r.unwrap()@ == trim(typed@),
{
    let v = to_chars(typed);
    let t = trim_chars(v.as_slice());
    if t.len() == 0 {
        current
    } else {
        Some(from_chars(t.as_slice()))
    }
}

/// A download recorded in the history.
#[derive(Clone, Debug)]
pub struct HistoryItem {
    pub timestamp: String,
    pub book_name: String,
    pub book_id: String,
    pub author: String,
    pub progress: String,
    pub status: String,
}

/// The author shown: trimmed, or "unknown" where there is none.
pub open spec fn author_text(author: Seq<char>) -> Seq<char> {
    if trim(author).len() == 0 {
        "Không rõ"@
    } else {
        trim(author)
    }
}

/// A number right-aligned in two columns (`{:>2}`).
pub open spec fn pad2(n: nat) -> Seq<char> {
    if n < 10 {
        seq![' '] + decimal(n)
    } else {
        decimal(n)
    }
}

/// The line shown for the history entry at `index` (numbered from 1).
pub open spec fn history_line_text(index: nat, item: HistoryItem) -> Seq<char> {
    pad2(index + 1) + ". ["@ + item.timestamp@ + "] 《"@ + item.book_name@ + "》("@
        + item.book_id@ + ") | Tác giả: "@ + author_text(item.author@) + " | "@ + item.progress@
        + " | Trạng thái: "@ + item.status@
}

fn author_display(author: &str) -> (r: String)
    ensures
        r@ == author_text(author@),
{
    let v = to_chars(author);
    let t = trim_chars(v.as_slice());
    if t.len() == 0 {
        String::from_str("Không rõ")
    } else {
        from_chars(t.as_slice())
    }
}

/// The line shown for a history entry.
pub fn history_line(index: usize, item: &HistoryItem) -> (r: String)
    requires
        index < usize::MAX,
    ensures
        r@ == history_line_text(index as nat, *item),
{
    let number = crate::text::decimal_string((index + 1) as u64);
    let mut s = if index + 1 < 10 {
        String::from_str(" ")
    } else {
        String::new()
    };
    proof {
        reveal_strlit(" ");
    }
    s.append(number.as_str());
    s.append(". [");
    s.append(item.timestamp.as_str());
    s.append("] 《");
    s.append(item.book_name.as_str());
    s.append("》(");
    s.append(item.book_id.as_str());
    s.append(") | Tác giả: ");
    let author = author_display(item.author.as_str());
    s.append(author.as_str());
    s.append(" | ");
    s.append(item.progress.as_str());
    s.append(" | Trạng thái: ");
    s.append(item.status.as_str());
    s
}

/// The lines of the history view, one per entry, numbered from 1.
pub fn history_lines(items: &[HistoryItem]) -> (r: Vec<String>)
    ensures
        views(r@) == Seq::new(items@.len(), |i: int| history_line_text(i as nat, items@[i])),
{
    let ghost want = Seq::new(items@.len(), |i: int| history_line_text(i as nat, items@[i]));
    let mut out: Vec<String> = Vec::new();
    let n = items.len();
    for i in 0..n
        invariant
            n == items@.len(),
            want == Seq::new(items@.len(), |i: int| history_line_text(i as nat, items@[i])),
            views(out@) == want.take(i as int),
    {
        let line = history_line(i, &items[i]);
        let ghost before = out@;
        out.push(line);
        proof {
            assert(views(out@) =~= views(before).push(line@));
            assert(views(out@) =~= want.take(i + 1));
        }
    }
    assert(want.take(n as int) =~= want);
    out
}

// ----------------------------------------------------------------------
// Books with new chapters
// ----------------------------------------------------------------------

/// A downloaded book, as the scan for new chapters reports it.
#[derive(Clone, Debug)]
pub struct UpdateRow {
    pub book_id: String,
    pub book_name: String,
    pub new_count: usize,
    pub is_ignored: bool,
}

/// A book in the update menu: its id and the line shown for it.
#[derive(Clone, Debug)]
pub struct UpdateEntry {
    pub book_id: String,
    pub label: String,
}

/// The line shown for a book: marked where its updates are ignored, then
/// its name, id and number of new chapters.
pub open spec fn update_label(row: UpdateRow) -> Seq<char> {
    (if row.is_ignored {
        "[Đã bỏ qua] "@
    } else {
        ""@
    }) + "《"@ + row.book_name@ + "》("@ + row.book_id@ + ") — Chương mới: "@ + decimal(
        row.new_count as nat,
    )
}

/// Whether a menu entry shows a scanned book.
pub open spec fn entry_of(e: UpdateEntry, row: UpdateRow) -> bool {
    e.book_id@ == row.book_id@ && e.label@ == update_label(row)
}

/// The menu entry of a scanned book.
pub fn update_entry(row: &UpdateRow) -> (r: UpdateEntry)
    ensures
        entry_of(r, *row),
{
    let mut label = if row.is_ignored {
        String::from_str("[Đã bỏ qua] ")
    } else {
        String::new()
    };
    proof {
        reveal_strlit("");
        assert(label@ =~= (if row.is_ignored {
            "[Đã bỏ qua] "@
        } else {
            ""@
        }));
    }
    label.append("《");
    label.append(row.book_name.as_str());
    label.append("》(");
    label.append(row.book_id.as_str());
    label.append(") — Chương mới: ");
    let n = crate::text::decimal_string(row.new_count as u64);
    label.append(n.as_str());
    UpdateEntry { book_id: row.book_id.clone(), label }
}

fn entries_of(rows: &[UpdateRow]) -> (r: Vec<UpdateEntry>)
    ensures
        r@.len() == rows@.len(),
        forall|i: int| 0 <= i < rows@.len() ==> entry_of(#[trigger] r@[i], rows@[i]),
{
    let mut out: Vec<UpdateEntry> = Vec::new();
    let n = rows.len();
    for i in 0..n
        invariant
            n == rows@.len(),
            out@.len() == i,
            forall|k: int| 0 <= k < i ==> entry_of(#[trigger] out@[k], rows@[k]),
    {
        out.push(update_entry(&rows[i]));
    }
    out
}

/// The menu entries of the books with new chapters and of those without.
pub fn scan_updates(updates: &[UpdateRow], no_updates: &[UpdateRow]) -> (r: (
    Vec<UpdateEntry>,
    Vec<UpdateEntry>,
))
    ensures
        r.0@.len() == updates@.len(),
        forall|i: int| 0 <= i < updates@.len() ==> entry_of(#[trigger] r.0@[i], updates@[i]),
        r.1@.len() == no_updates@.len(),
        forall|i: int| 0 <= i < no_updates@.len() ==> entry_of(#[trigger] r.1@[i], no_updates@[i]),
{
    (entries_of(updates), entries_of(no_updates))
}

/// What a number typed in the update menu selects.
#[derive(Clone, Copy, Debug, PartialEq, Eq, Structural)]
pub enum UpdateChoice {
    /// `q`: leave the menu.
    Cancel,
    /// Not a number: ask again.
    NotANumber,
    /// The book at this position of the list with new chapters.
    Book(usize),
    /// The entry that opens the list of books without new chapters.
    NoUpdateList,
    /// Out of range: ask again, naming the largest number offered.
    OutOfRange(usize),
}

/// How an answer to the update menu is read: the entries with new
/// chapters are numbered from 1, and where there are books without new
/// chapters, the number after them opens their list.
pub open spec fn update_choice(answer: Seq<char>, n_updates: nat, n_no_updates: nat) -> UpdateChoice {
    let a = ascii_lower(trim(answer));
    if a == seq!['q'] {
        UpdateChoice::Cancel
    } else {
        match parse_unsigned(a, usize::MAX as nat) {
            None => UpdateChoice::NotANumber,
            Some(n) => if 1 <= n && n <= n_updates {
                UpdateChoice::Book((n - 1) as usize)
            } else if n_no_updates > 0 && n == n_updates + 1 {
                UpdateChoice::NoUpdateList
            } else {
                UpdateChoice::OutOfRange(
                    (if n_no_updates > 0 && n_updates < usize::MAX {
                        n_updates + 1
                    } else {
                        n_updates
                    }) as usize,
                )
            },
        }
    }
}

/// Reads an answer to the update menu. (The largest number offered is
/// at most `usize::MAX`.)
pub fn update_menu_choice(answer: &str, n_updates: usize, n_no_updates: usize) -> (r: UpdateChoice)
    ensures
        r == update_choice(answer@, n_updates as nat, n_no_updates as nat),
{
    let a = trim_lower(answer);
    if a.len() == 1 && a[0] == 'q' {
        assert(a@ =~= seq!['q']);
        return UpdateChoice::Cancel;
    }
    assert(a@ != seq!['q']);
    match parse_unsigned_max(a.as_slice(), usize::MAX as u64) {
        None => UpdateChoice::NotANumber,
        Some(n) => {
            let n = n as usize;
            if 1 <= n && n <= n_updates {
                UpdateChoice::Book(n - 1)
            } else if n_no_updates > 0 && n_updates < usize::MAX && n == n_updates + 1 {
                UpdateChoice::NoUpdateList
            } else if n_no_updates > 0 && n_updates < usize::MAX {
                UpdateChoice::OutOfRange(n_updates + 1)
            } else {
                UpdateChoice::OutOfRange(n_updates)
            }
        },
    }
}

/// Typing the number of a listed book, with any surrounding whitespace,
/// picks that book: the `n`-th of the books with new chapters, for every
/// `n` from 1 to their count, the last one included. The number after them
/// opens the list of books without new chapters where there is one.
pub proof fn lemma_update_menu_numbers(answer: Seq<char>, n_updates: nat, n_no_updates: nat, n: nat)
    requires
        trim(answer) == decimal(n),
        n <= usize::MAX,
    ensures
        1 <= n <= n_updates ==> update_choice(answer, n_updates, n_no_updates)
            == UpdateChoice::Book((n - 1) as usize),
        (n == n_updates + 1 && n_no_updates > 0) ==> update_choice(answer, n_updates, n_no_updates)
            == UpdateChoice::NoUpdateList,
{
    lemma_decimal_lower(n);
    lemma_decimal_round_trip(n, usize::MAX as nat);
    assert(decimal(n) != seq!['q']);
}

/// What a number typed in a plain list of books selects.
#[derive(Clone, Copy, Debug, PartialEq, Eq, Structural)]
pub enum ListChoice {
    /// `q`: back to the previous menu.
    Back,
    /// Not a number: ask again.
    NotANumber,
    /// The book at this position.
    Pick(usize),
    /// Out of range: ask again.
    OutOfRange,
}

/// How an answer to a list of `len` books, numbered from 1, is read.
pub open spec fn list_choice(answer: Seq<char>, len: nat) -> ListChoice {
    let a = ascii_lower(trim(answer));
    if a == seq!['q'] {
        ListChoice::Back
    } else {
        match parse_unsigned(a, usize::MAX as nat) {
            None => ListChoice::NotANumber,
            Some(n) => if 1 <= n && n <= len {
                ListChoice::Pick((n - 1) as usize)
            } else {
                ListChoice::OutOfRange
            },
        }
    }
}

/// Reads an answer to a list of books.
pub fn select_from_list(answer: &str, len: usize) -> (r: ListChoice)
    ensures
        r == list_choice(answer@, len as nat),
{
    let a = trim_lower(answer);
    if a.len() == 1 && a[0] == 'q' {
        assert(a@ =~= seq!['q']);
        return ListChoice::Back;
    }
    assert(a@ != seq!['q']);
    match parse_unsigned_max(a.as_slice(), usize::MAX as u64) {
        None => ListChoice::NotANumber,
        Some(n) => {
            let n = n as usize;
            if 1 <= n && n <= len {
                ListChoice::Pick(n - 1)
            } else {
                ListChoice::OutOfRange
            }
        },
    }
}

/// A book picked in a menu is one of the books listed.
pub proof fn lemma_picked_within(answer: Seq<char>, n_updates: nat, n_no_updates: nat, len: nat)
    ensures
        update_choice(answer, n_updates, n_no_updates) matches UpdateChoice::Book(i) ==> i
            < n_updates,
        list_choice(answer, len) matches ListChoice::Pick(i) ==> i < len,
{
}

/// Typing the number `n` of a plain list of books, with any surrounding
/// whitespace, picks the `n`-th book, for every `n` from 1 to the length
/// of the list.
pub proof fn lemma_list_numbers(answer: Seq<char>, len: nat, n: nat)
    requires
        trim(answer) == decimal(n),
        1 <= n <= len,
        n <= usize::MAX,
    ensures
        list_choice(answer, len) == ListChoice::Pick((n - 1) as usize),
{
    lemma_decimal_lower(n);
    lemma_decimal_round_trip(n, usize::MAX as nat);
    assert(decimal(n) != seq!['q']);
}

// ----------------------------------------------------------------------
// The main prompt and the update lists, as one state machine
// ----------------------------------------------------------------------

/// Where the main prompt is: at the prompt itself, in the list of books
/// with new chapters, or in the list of books without.
#[derive(Clone, Copy, Debug, PartialEq, Eq, Structural)]
pub enum MenuState {
    Prompt,
    Updates,
    NoUpdates,
}

/// What the caller does after a line was typed.
#[derive(Clone, Copy, Debug, PartialEq, Eq, Structural)]
pub enum MenuAction {
    /// Nothing: ask again.
    AskAgain,
    /// Leave the program.
    Quit,
    /// Run the settings menu.
    OpenSettings,
    /// Run the history view.
    OpenHistory,
    /// Check for a new version of the program.
    CheckUpdate,
    /// Tell that new downloads are not offered here.
    DownloadsDisabled,
    /// Scan the save directory and open the update lists
    /// (`open_update_lists`).
    ScanUpdates,
    /// The update menu was left.
    UpdateCancelled,
    /// Not a number: say so and ask again.
    NotANumber,
    /// Out of range: say so, naming the largest number offered.
    OutOfRange(usize),
    /// Show the list of books without new chapters.
    ShowNoUpdates,
    /// Show the list of books with new chapters again.
    ShowUpdates,
    /// Download the book at `index` of the list with new chapters, or of
    /// the list without where `from_no_updates`.
    Download { from_no_updates: bool, index: usize },
}

/// One step of the main prompt: the next state and what to do, for a
/// line typed in `state`, with `n_updates` books with new chapters and
/// `n_no_updates` without.
pub open spec fn menu_step_of(state: MenuState, line: Seq<char>, n_updates: nat, n_no_updates: nat) -> (
    MenuState,
    MenuAction,
) {
    match state {
        MenuState::Prompt => match main_command(line) {
            MainCommand::Empty => (MenuState::Prompt, MenuAction::AskAgain),
            MainCommand::Quit => (MenuState::Prompt, MenuAction::Quit),
            MainCommand::Settings => (MenuState::Prompt, MenuAction::OpenSettings),
            MainCommand::History => (MenuState::Prompt, MenuAction::OpenHistory),
            MainCommand::UpdateBooks => (MenuState::Prompt, MenuAction::ScanUpdates),
            MainCommand::CheckUpdate => (MenuState::Prompt, MenuAction::CheckUpdate),
            MainCommand::Unknown => (MenuState::Prompt, MenuAction::DownloadsDisabled),
        },
        MenuState::Updates => match update_choice(line, n_updates, n_no_updates) {
            UpdateChoice::Cancel => (MenuState::Prompt, MenuAction::UpdateCancelled),
            UpdateChoice::NotANumber => (MenuState::Updates, MenuAction::NotANumber),
            UpdateChoice::Book(i) => (
                MenuState::Prompt,
                MenuAction::Download { from_no_updates: false, index: i },
            ),
            UpdateChoice::NoUpdateList => (MenuState::NoUpdates, MenuAction::ShowNoUpdates),
            UpdateChoice::OutOfRange(m) => (MenuState::Updates, MenuAction::OutOfRange(m)),
        },
        MenuState::NoUpdates => match list_choice(line, n_no_updates) {
            ListChoice::Back => (MenuState::Updates, MenuAction::ShowUpdates),
            ListChoice::NotANumber => (MenuState::NoUpdates, MenuAction::NotANumber),
            ListChoice::Pick(i) => (
                MenuState::Prompt,
                MenuAction::Download { from_no_updates: true, index: i },
            ),
            ListChoice::OutOfRange => (
                MenuState::NoUpdates,
                MenuAction::OutOfRange(n_no_updates as usize),
            ),
        },
    }
}

/// One step of the main prompt.
pub fn menu_step(state: MenuState, line: &str, n_updates: usize, n_no_updates: usize) -> (r: (
    MenuState,
    MenuAction,
))
    ensures
        r == menu_step_of(state, line@, n_updates as nat, n_no_updates as nat),
{
    match state {
        MenuState::Prompt => match parse_main_command(line) {
            MainCommand::Empty => (MenuState::Prompt, MenuAction::AskAgain),
            MainCommand::Quit => (MenuState::Prompt, MenuAction::Quit),
            MainCommand::Settings => (MenuState::Prompt, MenuAction::OpenSettings),
            MainCommand::History => (MenuState::Prompt, MenuAction::OpenHistory),
            MainCommand::UpdateBooks => (MenuState::Prompt, MenuAction::ScanUpdates),
            MainCommand::CheckUpdate => (MenuState::Prompt, MenuAction::CheckUpdate),
            MainCommand::Unknown => (MenuState::Prompt, MenuAction::DownloadsDisabled),
        },
        MenuState::Updates => match update_menu_choice(line, n_updates, n_no_updates) {
            UpdateChoice::Cancel => (MenuState::Prompt, MenuAction::UpdateCancelled),
            UpdateChoice::NotANumber => (MenuState::Updates, MenuAction::NotANumber),
            UpdateChoice::Book(i) => (
                MenuState::Prompt,
                MenuAction::Download { from_no_updates: false, index: i },
            ),
            UpdateChoice::NoUpdateList => (MenuState::NoUpdates, MenuAction::ShowNoUpdates),
            UpdateChoice::OutOfRange(m) => (MenuState::Updates, MenuAction::OutOfRange(m)),
        },
        MenuState::NoUpdates => match select_from_list(line, n_no_updates) {
            ListChoice::Back => (MenuState::Updates, MenuAction::ShowUpdates),
            ListChoice::NotANumber => (MenuState::NoUpdates, MenuAction::NotANumber),
            ListChoice::Pick(i) => (
                MenuState::Prompt,
                MenuAction::Download { from_no_updates: true, index: i },
            ),
            ListChoice::OutOfRange => (MenuState::NoUpdates, MenuAction::OutOfRange(n_no_updates)),
        },
    }
}

/// Where the scan leaves the prompt: in the update lists, unless both are
/// empty.
pub fn open_update_lists(n_updates: usize, n_no_updates: usize) -> (r: MenuState)
    ensures
        r == (if n_updates == 0 && n_no_updates == 0 {
            MenuState::Prompt
        } else {
            MenuState::Updates
        }),
{
    if n_updates == 0 && n_no_updates == 0 {
        MenuState::Prompt
    } else {
        MenuState::Updates
    }
}

/// Only a book picked in an update list is ever downloaded, and it is one
/// of the books listed; at the prompt, a line that is none of the commands
/// `q`, `s`, `h`, `u`, `c` (in either case) only brings the notice that new
/// downloads are not offered, and leaves the prompt where it is.
pub proof fn lemma_only_listed_books_downloaded(
    state: MenuState,
    line: Seq<char>,
    n_updates: nat,
    n_no_updates: nat,
)
    ensures
        ({
            let (next, action) = menu_step_of(state, line, n_updates, n_no_updates);
            &&& action matches MenuAction::Download { from_no_updates, index } ==> (
            (state == MenuState::Updates && !from_no_updates && index < n_updates) || (state
                == MenuState::NoUpdates && from_no_updates && index < n_no_updates))
            &&& (state == MenuState::Prompt && trim(line).len() > 0 && !eq_ignore_case(
                trim(line),
                seq!['q'],
            ) && !eq_ignore_case(trim(line), seq!['s']) && !eq_ignore_case(trim(line), seq!['h'])
                && !eq_ignore_case(trim(line), seq!['u']) && !eq_ignore_case(trim(line), seq!['c']))
                ==> next == MenuState::Prompt && action == MenuAction::DownloadsDisabled
        }),
{
}

// ----------------------------------------------------------------------
// The history view, round by round
// ----------------------------------------------------------------------

/// The outcome of a round of the history view.
#[derive(Clone, Debug)]
pub enum HistoryRound {
    /// Back to the main prompt.
    Return,
    /// Show the history again, filtered by this keyword.
    Show(Option<String>),
}

/// The keyword after a command (`typed` is the text asked for after `f`):
/// `None` where the view is left.
pub open spec fn history_next(keyword: Option<Seq<char>>, line: Seq<char>, typed: Seq<char>) -> Option<
    Option<Seq<char>>,
> {
    match history_command(line) {
        HistoryCommand::Quit => None,
        HistoryCommand::ClearFilter => Some(None),
        HistoryCommand::Refresh => Some(keyword),
        HistoryCommand::Filter => Some(
            if trim(typed).len() == 0 {
                keyword
            } else {
                Some(trim(typed))
            },
        ),
    }
}

/// The view of an optional keyword.
pub open spec fn keyword_view(k: Option<String>) -> Option<Seq<char>> {
    match k {
        Some(s) => Some(s@),
        None => None,
    }
}

/// The view of a round's outcome.
pub open spec fn round_view(r: HistoryRound) -> Option<Option<Seq<char>>> {
    match r {
        HistoryRound::Return => None,
        HistoryRound::Show(k) => Some(keyword_view(k)),
    }
}

/// A round of the history view: the command line, and for `f` the
/// keyword typed after it.
pub fn history_round(keyword: Option<String>, line: &str, typed: &str) -> (r: HistoryRound)
    ensures
        round_view(r) == history_next(keyword_view(keyword), line@, typed@),
{
    match parse_history_command(line) {
        HistoryCommand::Quit => HistoryRound::Return,
        HistoryCommand::ClearFilter => HistoryRound::Show(None),
        HistoryCommand::Refresh => HistoryRound::Show(keyword),
        HistoryCommand::Filter => {
            let k = filter_after_input(keyword, typed);
            HistoryRound::Show(k)
        },
    }
}

/// In the history view, `q` or `Q` returns; `f` followed by a non-empty
/// line sets the keyword to that line trimmed, and followed by an empty
/// line keeps it; `c` drops it; any other line shows the history again
/// with the keyword unchanged.
pub proof fn lemma_history_rounds(keyword: Option<Seq<char>>, line: Seq<char>, typed: Seq<char>)
    ensures
        ({
            let t = trim(line);
            let next = history_next(keyword, line, typed);
            &&& (next is None <==> t.len() > 0 && eq_ignore_case(t, seq!['q']))
            &&& (t.len() > 0 && eq_ignore_case(t, seq!['f']) && trim(typed).len() > 0) ==> next
                == Some(Some(trim(typed)))
            &&& (t.len() > 0 && eq_ignore_case(t, seq!['f']) && trim(typed).len() == 0) ==> next
                == Some(keyword)
            &&& (t.len() > 0 && eq_ignore_case(t, seq!['c'])) ==> next == Some(
                None::<Seq<char>>,
            )
            &&& (!(t.len() > 0 && (eq_ignore_case(t, seq!['q']) || eq_ignore_case(t, seq!['f'])
                || eq_ignore_case(t, seq!['c'])))) ==> next == Some(keyword)
        }),
{
    let t = trim(line);
    if t.len() > 0 && eq_ignore_case(t, seq!['f']) {
        assert(ascii_lower(seq!['f'])[0] != ascii_lower(seq!['q'])[0]);
    }
    if t.len() > 0 && eq_ignore_case(t, seq!['c']) {
        assert(ascii_lower(seq!['c'])[0] != ascii_lower(seq!['q'])[0]);
        assert(ascii_lower(seq!['c'])[0] != ascii_lower(seq!['f'])[0]);
    }
}

} // verus!
