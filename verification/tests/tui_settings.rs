use tomato_novel::config::{Config, ConfigError, Counts, Durations, Switch, Switches, TextSetting, Texts};
use tomato_novel::tui_config::{
    apply_cfg_edit, build_config_categories, cfg_combo_presets, cfg_field_current_bool,
    cfg_field_is_bool, cfg_field_is_combo, current_cfg_value, parse_bool, parse_string_list,
    saved_status, start_cfg_edit, CfgApply, CfgEditor, ConfigField, StartEdit, CATEGORY_COUNT,
};

fn chars(s: &str) -> Vec<char> {
    s.chars().collect()
}

fn sample_config() -> Config {
    Config {
        texts: Texts {
            save_path: "/books".to_string(),
            novel_format: "epub".to_string(),
            preferred_book_name_field: "book_name".to_string(),
            audiobook_voice: "zh-CN-YunxiNeural".to_string(),
            audiobook_rate: "+0%".to_string(),
            audiobook_volume: "+0%".to_string(),
            audiobook_pitch: "+0Hz".to_string(),
            audiobook_format: "mp3".to_string(),
            audiobook_tts_provider: "edge".to_string(),
            audiobook_tts_api_url: String::new(),
            audiobook_tts_api_token: String::new(),
            audiobook_tts_model: String::new(),
        },
        switches: Switches {
            ask_format_after_download: false,
            bulk_files: false,
            auto_clear_dump: true,
            auto_open_downloaded_files: false,
            allow_overwrite_files: false,
            old_cli: false,
            enable_segment_comments: true,
            use_official_api: false,
            enable_audiobook: false,
            download_comment_images: true,
            download_comment_avatars: true,
            force_convert_images_to_jpeg: false,
            jpeg_retry_convert: true,
            convert_heic_to_jpeg: true,
            keep_heic_original: false,
        },
        counts: Counts {
            max_workers: 4,
            audiobook_concurrency: 2,
            segment_comments_top_n: 10,
            segment_comments_workers: 4,
            media_download_workers: 4,
            media_limit_per_chapter: 0,
        },
        durations: Durations { request_timeout: 15, min_wait_time: 1000, max_wait_time: 3000 },
        max_retries: 3,
        jpeg_quality: 90,
        media_max_dimension_px: 1280,
        api_endpoints: Vec::new(),
        blocked_media_domains: Vec::new(),
    }
}

fn editor() -> CfgEditor {
    CfgEditor {
        config: sample_config(),
        categories: build_config_categories(),
        selected_category: None,
        selected_entry: None,
        editing: None,
        edit_buffer: String::new(),
        bool_choice: None,
        combo_focus_list: false,
        combo_choice: None,
        status: String::new(),
    }
}

fn edit(e: &mut CfgEditor, cat: usize, entry: usize, text: &str) -> Result<CfgApply, ConfigError> {
    e.edit_buffer = text.to_string();
    apply_cfg_edit(e, cat, entry)
}

#[test]
fn categories_of_the_editor() {
    let cats = build_config_categories();
    assert_eq!(cats.len(), CATEGORY_COUNT);
    let titles: Vec<&str> = cats.iter().map(|c| c.title).collect();
    assert_eq!(
        titles,
        vec!["Co ban va dinh dang", "Mang va dieu phoi", "API", "Binh luan doan", "Tai media", "Sach noi"]
    );
    assert_eq!(cats[0].entries[1].field, ConfigField::NovelFormat);
    assert_eq!(cats[1].entries[4].field, ConfigField::MinWait);
    assert_eq!(cats[4].entries[6].field, ConfigField::JpegQuality);
}

#[test]
fn on_off_words() {
    assert_eq!(parse_bool(&chars("ON")), Some(true));
    assert_eq!(parse_bool(&chars("y")), Some(true));
    assert_eq!(parse_bool(&chars("1")), Some(true));
    assert_eq!(parse_bool(&chars("Off")), Some(false));
    assert_eq!(parse_bool(&chars("no")), Some(false));
    assert_eq!(parse_bool(&chars("maybe")), None);
    assert_eq!(parse_bool(&chars(" true")), None);
}

#[test]
fn lists_split_on_commas_semicolons_and_lines() {
    assert_eq!(
        parse_string_list(&chars("a; b,\n c,, ;")),
        vec!["a".to_string(), "b".to_string(), "c".to_string()]
    );
    assert!(parse_string_list(&chars("  ")).is_empty());
}

#[test]
fn field_kinds() {
    assert!(cfg_field_is_combo(ConfigField::NovelFormat));
    assert!(cfg_field_is_combo(ConfigField::AudiobookVoice));
    assert!(!cfg_field_is_combo(ConfigField::SavePath));
    assert!(cfg_field_is_bool(ConfigField::OldCli));
    assert!(!cfg_field_is_bool(ConfigField::MaxWait));
    assert_eq!(cfg_combo_presets(ConfigField::NovelFormat).unwrap().len(), 3);
    assert_eq!(cfg_combo_presets(ConfigField::PreferredBookNameField).unwrap()[1].name, "original_book_name");
    assert!(cfg_combo_presets(ConfigField::MaxWait).is_none());
    let c = sample_config();
    assert_eq!(cfg_field_current_bool(&c, ConfigField::AutoClearDump), Some(true));
    assert_eq!(cfg_field_current_bool(&c, ConfigField::MaxWorkers), None);
}

#[test]
fn editor_values_as_shown() {
    let mut c = sample_config();
    assert_eq!(current_cfg_value(&c, ConfigField::NovelFormat), Some("Dinh dang epub".to_string()));
    assert_eq!(current_cfg_value(&c, ConfigField::MinWait), Some("1000".to_string()));
    assert_eq!(current_cfg_value(&c, ConfigField::FirstLineIndentEm), None);
    c.set_switch(Switch::AskFormatAfterDownload, true);
    assert_eq!(current_cfg_value(&c, ConfigField::NovelFormat), Some("Chon sau khi tai xong".to_string()));
}

#[test]
fn edit_without_entry_is_skipped() {
    let mut e = editor();
    assert_eq!(edit(&mut e, 9, 0, "x"), Ok(CfgApply::Skipped));
    assert_eq!(edit(&mut e, 0, 99, "x"), Ok(CfgApply::Skipped));
}

#[test]
fn wait_times_stay_ordered() {
    let mut e = editor();
    assert_eq!(edit(&mut e, 1, 4, "5000"), Ok(CfgApply::Rejected));
    assert_eq!(e.status, "Thoi gian cho toi thieu khong duoc lon hon thoi gian cho toi da");
    assert_eq!(e.config.durations.min_wait_time, 1000);
    assert_eq!(edit(&mut e, 1, 5, "999"), Ok(CfgApply::Rejected));
    assert_eq!(e.config.durations.max_wait_time, 3000);
    assert_eq!(edit(&mut e, 1, 5, " 4000 "), Ok(CfgApply::Saved(false)));
    assert_eq!(edit(&mut e, 1, 4, "4000"), Ok(CfgApply::Saved(false)));
    assert_eq!(e.config.durations.min_wait_time, 4000);
    assert_eq!(edit(&mut e, 1, 4, "soon"), Err(ConfigError::MillisecondsExpected));
    assert!(e.config.durations.min_wait_time <= e.config.durations.max_wait_time);
}

#[test]
fn counts_and_numbers() {
    let mut e = editor();
    assert_eq!(edit(&mut e, 1, 0, "0"), Ok(CfgApply::Rejected));
    assert_eq!(e.status, "So thread toi da phai lon hon 0");
    assert_eq!(edit(&mut e, 1, 0, "-3"), Err(ConfigError::PositiveIntegerExpected));
    assert_eq!(edit(&mut e, 1, 0, "8"), Ok(CfgApply::Saved(false)));
    assert_eq!(e.config.counts.max_workers, 8);
    assert_eq!(edit(&mut e, 1, 1, "0"), Ok(CfgApply::Rejected));
    assert_eq!(edit(&mut e, 1, 1, "x"), Err(ConfigError::SecondsExpected));
    assert_eq!(edit(&mut e, 4, 6, "101"), Ok(CfgApply::Rejected));
    assert_eq!(e.config.jpeg_quality, 90);
    assert_eq!(edit(&mut e, 4, 6, "300"), Err(ConfigError::PercentExpected));
    assert_eq!(edit(&mut e, 4, 6, "75"), Ok(CfgApply::Saved(false)));
    assert_eq!(e.config.jpeg_quality, 75);
    assert_eq!(edit(&mut e, 4, 9, "12"), Ok(CfgApply::Saved(false)));
    assert_eq!(e.config.counts.media_limit_per_chapter, 12);
}

#[test]
fn fractional_fields_go_to_the_caller() {
    let mut e = editor();
    assert_eq!(edit(&mut e, 0, 2, "1.5"), Ok(CfgApply::Fractional));
    assert_eq!(edit(&mut e, 1, 3, "0.5"), Ok(CfgApply::Fractional));
}

#[test]
fn comments_need_epub() {
    let mut e = editor();
    assert_eq!(edit(&mut e, 0, 1, "Dinh dang txt"), Ok(CfgApply::Saved(true)));
    assert_eq!(e.config.text(TextSetting::NovelFormat), "txt");
    assert!(!e.config.switch(Switch::EnableSegmentComments));
    assert_eq!(edit(&mut e, 3, 0, "true"), Ok(CfgApply::Rejected));
    assert_eq!(e.status, "Binh luan doan chi ho tro epub, hay doi dinh dang sang epub truoc");
    assert!(!e.config.switch(Switch::EnableSegmentComments));
    assert_eq!(edit(&mut e, 0, 1, "EPUB"), Ok(CfgApply::Saved(false)));
    assert_eq!(edit(&mut e, 3, 0, "on"), Ok(CfgApply::Saved(false)));
    assert!(e.config.switch(Switch::EnableSegmentComments));
    assert_eq!(edit(&mut e, 3, 0, "perhaps"), Err(ConfigError::TrueFalseExpected));
}

#[test]
fn format_choices() {
    let mut e = editor();
    assert_eq!(edit(&mut e, 0, 1, "Chon sau khi tai xong"), Ok(CfgApply::Saved(false)));
    assert!(e.config.switch(Switch::AskFormatAfterDownload));
    assert_eq!(e.config.text(TextSetting::NovelFormat), "epub");
    assert_eq!(edit(&mut e, 0, 1, "mobi"), Ok(CfgApply::Rejected));
    assert_eq!(e.status, "Hay chon: Dinh dang txt, Dinh dang epub hoac Chon sau khi tai xong");
    assert_eq!(edit(&mut e, 0, 1, "epub"), Ok(CfgApply::Saved(false)));
    assert!(!e.config.switch(Switch::AskFormatAfterDownload));
}

#[test]
fn book_name_field_choices() {
    let mut e = editor();
    assert_eq!(edit(&mut e, 0, 7, "Ten sach goc"), Ok(CfgApply::Saved(false)));
    assert_eq!(e.config.text(TextSetting::PreferredBookNameField), "original_book_name");
    assert_eq!(edit(&mut e, 0, 7, "Book_Short_Name"), Ok(CfgApply::Saved(false)));
    assert_eq!(e.config.text(TextSetting::PreferredBookNameField), "book_short_name");
    assert_eq!(edit(&mut e, 0, 7, "x"), Ok(CfgApply::Rejected));
}

#[test]
fn texts_and_lists() {
    let mut e = editor();
    assert_eq!(edit(&mut e, 0, 0, "  /srv/books  "), Ok(CfgApply::Saved(false)));
    assert_eq!(e.config.text(TextSetting::SavePath), "/srv/books");
    assert_eq!(edit(&mut e, 2, 1, "https://a; https://b"), Ok(CfgApply::Saved(false)));
    assert_eq!(e.config.api_endpoints, vec!["https://a".to_string(), "https://b".to_string()]);
    assert_eq!(edit(&mut e, 5, 9, "OGG"), Ok(CfgApply::Rejected));
    assert_eq!(edit(&mut e, 5, 9, "WAV"), Ok(CfgApply::Saved(false)));
    assert_eq!(e.config.text(TextSetting::AudiobookFormat), "wav");
}

#[test]
fn editor_on_off_value_entered_again_changes_nothing() {
    let mut e = editor();
    for (cat, entry) in [(0usize, 4usize), (3, 0), (4, 0), (0, 8)] {
        let before = format!("{:?}", e.config.switches);
        let field = e.categories[cat].entries[entry].field;
        let shown = current_cfg_value(&e.config, field).unwrap();
        assert_eq!(edit(&mut e, cat, entry, &shown), Ok(CfgApply::Saved(false)));
        assert_eq!(format!("{:?}", e.config.switches), before);
    }
}

#[test]
fn starting_an_edit() {
    let mut e = editor();
    assert_eq!(start_cfg_edit(&mut e), StartEdit::Ignored);
    e.selected_category = Some(0);
    e.selected_entry = Some(1);
    assert_eq!(start_cfg_edit(&mut e), StartEdit::Started);
    assert_eq!(e.editing, Some((0, 1)));
    assert_eq!(e.edit_buffer, "Dinh dang epub");
    assert!(e.combo_focus_list);
    assert_eq!(e.combo_choice, Some(0));
    assert_eq!(e.status, "Dang chinh sua [Co ban va dinh dang]: Dinh dang sach");

    let mut e = editor();
    e.selected_category = Some(0);
    e.selected_entry = Some(4);
    assert_eq!(start_cfg_edit(&mut e), StartEdit::Started);
    assert_eq!(e.bool_choice, Some(0));
    assert_eq!(e.edit_buffer, "true");

    let mut e = editor();
    e.selected_category = Some(5);
    e.selected_entry = Some(1);
    assert_eq!(start_cfg_edit(&mut e), StartEdit::Started);
    assert_eq!(e.combo_choice, Some(3));

    let mut e = editor();
    e.selected_category = Some(0);
    e.selected_entry = Some(2);
    assert_eq!(start_cfg_edit(&mut e), StartEdit::StartedFractional);
    assert_eq!(e.edit_buffer, "");

    let mut e = editor();
    e.selected_category = Some(7);
    e.selected_entry = Some(0);
    assert_eq!(start_cfg_edit(&mut e), StartEdit::Ignored);
    assert_eq!(e.editing, None);
}

#[test]
fn saved_status_line() {
    assert_eq!(saved_status("Dinh dang sach", false), "Da luu: Dinh dang sach");
    assert_eq!(
        saved_status("Dinh dang sach", true),
        "Da luu: Dinh dang sach (Da tat binh luan doan de tuong thich txt)"
    );
}

#[test]
fn editor_number_entered_again_changes_nothing() {
    let mut e = editor();
    let before = (
        format!("{:?}", e.config.counts),
        format!("{:?}", e.config.durations),
        e.config.max_retries,
        e.config.jpeg_quality,
        e.config.media_max_dimension_px,
    );
    for (cat, entry) in [(1usize, 0usize), (1, 1), (1, 2), (1, 4), (1, 5), (3, 1), (3, 2), (4, 2), (4, 6), (4, 9), (4, 10), (5, 10)] {
        let field = e.categories[cat].entries[entry].field;
        let shown = current_cfg_value(&e.config, field).unwrap();
        assert_eq!(edit(&mut e, cat, entry, &shown), Ok(CfgApply::Saved(false)), "{:?}", field);
    }
    let after = (
        format!("{:?}", e.config.counts),
        format!("{:?}", e.config.durations),
        e.config.max_retries,
        e.config.jpeg_quality,
        e.config.media_max_dimension_px,
    );
    assert_eq!(before, after);
}

#[test]
fn editor_list_entries_read_back() {
    let items = parse_string_list(&chars(" a; b,,c\n"));
    assert_eq!(items, vec!["a".to_string(), "b".to_string(), "c".to_string()]);
    assert_eq!(parse_string_list(&chars(&items.join(","))), items);
}

#[test]
fn editor_format_and_name_field_entered_again_change_nothing() {
    let mut e = editor();
    for (cat, entry) in [(0usize, 1usize), (0, 7)] {
        let before = (e.config.text(TextSetting::NovelFormat), e.config.text(TextSetting::PreferredBookNameField), format!("{:?}", e.config.switches));
        let field = e.categories[cat].entries[entry].field;
        let shown = current_cfg_value(&e.config, field).unwrap();
        assert_eq!(edit(&mut e, cat, entry, &shown), Ok(CfgApply::Saved(false)));
        let after = (e.config.text(TextSetting::NovelFormat), e.config.text(TextSetting::PreferredBookNameField), format!("{:?}", e.config.switches));
        assert_eq!(before, after);
    }
}
