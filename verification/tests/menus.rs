use tomato_novel::cli_menus::{
    filter_after_input, history_line, history_lines, main_prompt, parse_history_command,
    parse_main_command, scan_updates, select_from_list, update_entry, update_menu_choice,
    HistoryCommand, HistoryItem, ListChoice, MainCommand, UpdateChoice, UpdateRow,
};

fn item(author: &str) -> HistoryItem {
    HistoryItem {
        timestamp: "2024-01-02 03:04".to_string(),
        book_name: "Sách".to_string(),
        book_id: "77".to_string(),
        author: author.to_string(),
        progress: "12/30".to_string(),
        status: "ok".to_string(),
    }
}

fn row(id: &str, name: &str, n: usize, ignored: bool) -> UpdateRow {
    UpdateRow { book_id: id.to_string(), book_name: name.to_string(), new_count: n, is_ignored: ignored }
}

#[test]
fn main_commands() {
    assert_eq!(parse_main_command("  "), MainCommand::Empty);
    assert_eq!(parse_main_command(" Q \n"), MainCommand::Quit);
    assert_eq!(parse_main_command("s"), MainCommand::Settings);
    assert_eq!(parse_main_command("H"), MainCommand::History);
    assert_eq!(parse_main_command("u"), MainCommand::UpdateBooks);
    assert_eq!(parse_main_command("U"), MainCommand::UpdateBooks);
    assert_eq!(parse_main_command("c"), MainCommand::CheckUpdate);
    assert_eq!(parse_main_command("download"), MainCommand::Unknown);
}

#[test]
fn main_prompt_names_the_directory() {
    assert_eq!(
        main_prompt("/books"),
        "CLI cu da tat tinh nang tai moi; hay nhap lenh (s cau hinh / h lich su tai / u cap nhat sach / c kiem tra cap nhat / U tu cap nhat chuong trinh / q thoat, mac dinh luu tai /books):"
    );
}

#[test]
fn history_commands() {
    assert_eq!(parse_history_command(""), HistoryCommand::Refresh);
    assert_eq!(parse_history_command("q"), HistoryCommand::Quit);
    assert_eq!(parse_history_command(" F "), HistoryCommand::Filter);
    assert_eq!(parse_history_command("C"), HistoryCommand::ClearFilter);
    assert_eq!(parse_history_command("zzz"), HistoryCommand::Refresh);
}

#[test]
fn filter_keyword() {
    assert_eq!(filter_after_input(Some("a".to_string()), "   "), Some("a".to_string()));
    assert_eq!(filter_after_input(None, ""), None);
    assert_eq!(filter_after_input(None, "  tác giả "), Some("tác giả".to_string()));
}

#[test]
fn history_entries() {
    assert_eq!(
        history_line(0, &item("  ")),
        " 1. [2024-01-02 03:04] 《Sách》(77) | Tác giả: Không rõ | 12/30 | Trạng thái: ok"
    );
    assert_eq!(
        history_line(9, &item(" Lan ")),
        "10. [2024-01-02 03:04] 《Sách》(77) | Tác giả: Lan | 12/30 | Trạng thái: ok"
    );
    let lines = history_lines(&[item("a"), item("b")]);
    assert_eq!(lines.len(), 2);
    assert!(lines[1].starts_with(" 2. ["));
}

#[test]
fn update_labels() {
    let e = update_entry(&row("9", "Truyện", 3, false));
    assert_eq!(e.book_id, "9");
    assert_eq!(e.label, "《Truyện》(9) — Chương mới: 3");
    let e = update_entry(&row("9", "Truyện", 0, true));
    assert_eq!(e.label, "[Đã bỏ qua] 《Truyện》(9) — Chương mới: 0");
    let (ups, none) = scan_updates(&[row("1", "A", 2, false)], &[row("2", "B", 0, false), row("3", "C", 0, true)]);
    assert_eq!(ups.len(), 1);
    assert_eq!(none.len(), 2);
    assert_eq!(none[1].book_id, "3");
}

#[test]
fn update_menu_answers() {
    assert_eq!(update_menu_choice("Q", 3, 1), UpdateChoice::Cancel);
    assert_eq!(update_menu_choice("x", 3, 1), UpdateChoice::NotANumber);
    assert_eq!(update_menu_choice("2", 3, 1), UpdateChoice::Book(1));
    assert_eq!(update_menu_choice("4", 3, 1), UpdateChoice::NoUpdateList);
    assert_eq!(update_menu_choice("5", 3, 1), UpdateChoice::OutOfRange(4));
    assert_eq!(update_menu_choice("4", 3, 0), UpdateChoice::OutOfRange(3));
    assert_eq!(update_menu_choice("0", 3, 0), UpdateChoice::OutOfRange(3));
    assert_eq!(update_menu_choice("1", 0, 2), UpdateChoice::NoUpdateList);
}

#[test]
fn list_answers() {
    assert_eq!(select_from_list("q", 2), ListChoice::Back);
    assert_eq!(select_from_list("two", 2), ListChoice::NotANumber);
    assert_eq!(select_from_list(" 2 ", 2), ListChoice::Pick(1));
    assert_eq!(select_from_list("3", 2), ListChoice::OutOfRange);
}

use tomato_novel::cli_menus::{history_round, menu_step, open_update_lists, HistoryRound, MenuAction, MenuState};

#[test]
fn prompt_steps() {
    assert_eq!(menu_step(MenuState::Prompt, "download 123", 0, 0), (MenuState::Prompt, MenuAction::DownloadsDisabled));
    assert_eq!(menu_step(MenuState::Prompt, "", 0, 0), (MenuState::Prompt, MenuAction::AskAgain));
    assert_eq!(menu_step(MenuState::Prompt, "U", 0, 0), (MenuState::Prompt, MenuAction::ScanUpdates));
    assert_eq!(menu_step(MenuState::Prompt, "q", 0, 0), (MenuState::Prompt, MenuAction::Quit));
    assert_eq!(menu_step(MenuState::Prompt, "1", 3, 3), (MenuState::Prompt, MenuAction::DownloadsDisabled));
    assert_eq!(open_update_lists(0, 0), MenuState::Prompt);
    assert_eq!(open_update_lists(0, 2), MenuState::Updates);
}

#[test]
fn update_list_steps() {
    assert_eq!(
        menu_step(MenuState::Updates, "2", 3, 1),
        (MenuState::Prompt, MenuAction::Download { from_no_updates: false, index: 1 })
    );
    assert_eq!(menu_step(MenuState::Updates, "4", 3, 1), (MenuState::NoUpdates, MenuAction::ShowNoUpdates));
    assert_eq!(menu_step(MenuState::Updates, "9", 3, 1), (MenuState::Updates, MenuAction::OutOfRange(4)));
    assert_eq!(menu_step(MenuState::Updates, "q", 3, 1), (MenuState::Prompt, MenuAction::UpdateCancelled));
    assert_eq!(
        menu_step(MenuState::NoUpdates, "1", 3, 1),
        (MenuState::Prompt, MenuAction::Download { from_no_updates: true, index: 0 })
    );
    assert_eq!(menu_step(MenuState::NoUpdates, "q", 3, 1), (MenuState::Updates, MenuAction::ShowUpdates));
    assert_eq!(menu_step(MenuState::NoUpdates, "2", 3, 1), (MenuState::NoUpdates, MenuAction::OutOfRange(1)));
    assert_eq!(menu_step(MenuState::NoUpdates, "x", 3, 1), (MenuState::NoUpdates, MenuAction::NotANumber));
}

fn shown(r: HistoryRound) -> Option<Option<String>> {
    match r {
        HistoryRound::Return => None,
        HistoryRound::Show(k) => Some(k),
    }
}

#[test]
fn history_view_rounds() {
    let k = Some("old".to_string());
    assert_eq!(shown(history_round(k.clone(), "Q", "")), None);
    assert_eq!(shown(history_round(k.clone(), "f", "  new ")), Some(Some("new".to_string())));
    assert_eq!(shown(history_round(k.clone(), "F", "   ")), Some(k.clone()));
    assert_eq!(shown(history_round(k.clone(), "c", "")), Some(None));
    assert_eq!(shown(history_round(k.clone(), "zz", "ignored")), Some(k.clone()));
    assert_eq!(shown(history_round(k.clone(), "", "")), Some(k));
}
