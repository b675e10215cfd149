use tomato_novel::cli_config::{settings_step, SettingsAction, SettingsState};
use tomato_novel::cli_config::{
    apply_config_edit, config_options, config_value_display, edit_input, menu_label, parse_menu_choice,
    selection_choice, set_bool, set_int, set_list, set_string, ConfigField, ConfigOption,
    ConfigValueType, EditEffect, MenuChoice, SelectionChoice, OPTION_COUNT,
};
use tomato_novel::config::{
    Config, ConfigError, Counts, Durations, Switch, Switches, TextSetting, Texts,
};

fn sample_config() -> Config {
    Config {
        texts: Texts {
            save_path: "/books".to_string(),
            novel_format: "epub".to_string(),
            preferred_book_name_field: "book_name".to_string(),
            audiobook_voice: "zh-CN-XiaoxiaoNeural".to_string(),
            audiobook_rate: "+0%".to_string(),
            audiobook_volume: "+0%".to_string(),
            audiobook_pitch: "+0Hz".to_string(),
            audiobook_format: "mp3".to_string(),
            audiobook_tts_provider: "edge".to_string(),
            audiobook_tts_api_url: String::new(),
            audiobook_tts_api_token: String::new(),
            audiobook_tts_model: String::new(),
        },
        switches: Switches {
            ask_format_after_download: false,
            bulk_files: false,
            auto_clear_dump: true,
            auto_open_downloaded_files: false,
            allow_overwrite_files: false,
            old_cli: false,
            enable_segment_comments: false,
            use_official_api: false,
            enable_audiobook: false,
            download_comment_images: true,
            download_comment_avatars: true,
            force_convert_images_to_jpeg: false,
            jpeg_retry_convert: true,
            convert_heic_to_jpeg: true,
            keep_heic_original: false,
        },
        counts: Counts {
            max_workers: 4,
            audiobook_concurrency: 2,
            segment_comments_top_n: 10,
            segment_comments_workers: 4,
            media_download_workers: 4,
            media_limit_per_chapter: 0,
        },
        durations: Durations { request_timeout: 15, min_wait_time: 1000, max_wait_time: 3000 },
        max_retries: 3,
        jpeg_quality: 90,
        media_max_dimension_px: 1280,
        api_endpoints: vec!["https://a.example".to_string()],
        blocked_media_domains: Vec::new(),
    }
}

fn option(field: ConfigField) -> ConfigOption {
    config_options().into_iter().find(|o| o.field == field).unwrap()
}

fn same_settings(a: &Config, b: &Config) -> bool {
    format!("{:?}{:?}{:?}{:?}", a.switches, a.counts, a.durations, a.api_endpoints)
        == format!("{:?}{:?}{:?}{:?}", b.switches, b.counts, b.durations, b.api_endpoints)
        && a.text(TextSetting::NovelFormat) == b.text(TextSetting::NovelFormat)
        && a.text(TextSetting::SavePath) == b.text(TextSetting::SavePath)
        && a.max_retries == b.max_retries
        && a.jpeg_quality == b.jpeg_quality
}

#[test]
fn menu_lists_every_option() {
    let opts = config_options();
    assert_eq!(opts.len(), OPTION_COUNT);
    assert_eq!(opts[0].field, ConfigField::SavePath);
    assert_eq!(opts[1].field, ConfigField::NovelFormat);
    assert_eq!(option(ConfigField::FirstLineIndentEm).ty, ConfigValueType::Float);
    assert_eq!(option(ConfigField::ApiEndpoints).ty, ConfigValueType::List);
    assert_eq!(option(ConfigField::PreferredBookNameField).ty, ConfigValueType::Selection);
}

#[test]
fn menu_choice_reading() {
    assert_eq!(parse_menu_choice("0", 37), MenuChoice::Back);
    assert_eq!(parse_menu_choice(" 3 ", 37), MenuChoice::Edit(2));
    assert_eq!(parse_menu_choice("37", 37), MenuChoice::Edit(36));
    assert_eq!(parse_menu_choice("38", 37), MenuChoice::OutOfRange);
    assert_eq!(parse_menu_choice("00", 37), MenuChoice::OutOfRange);
    assert_eq!(parse_menu_choice("x", 37), MenuChoice::NotNumber);
    assert_eq!(parse_menu_choice("", 37), MenuChoice::NotNumber);
}

#[test]
fn edited_text_is_trimmed() {
    assert_eq!(edit_input("  abc \n"), Some("abc".to_string()));
    assert_eq!(edit_input(" \t "), None);
}

#[test]
fn selection_prompt_answers() {
    assert!(matches!(selection_choice("0"), SelectionChoice::Cancel));
    assert!(matches!(selection_choice(""), SelectionChoice::Cancel));
    assert!(matches!(selection_choice("x"), SelectionChoice::NotNumber));
    assert!(matches!(selection_choice("5"), SelectionChoice::OutOfRange));
    match selection_choice(" 2 ") {
        SelectionChoice::Pick(l) => assert_eq!(l, "Ten sach goc"),
        other => panic!("unexpected {:?}", other),
    }
}

#[test]
fn values_as_shown() {
    let c = sample_config();
    assert_eq!(config_value_display(&c, ConfigField::MaxWorkers), Some("4".to_string()));
    assert_eq!(config_value_display(&c, ConfigField::AutoClearDump), Some("true".to_string()));
    assert_eq!(config_value_display(&c, ConfigField::ApiEndpoints), Some("https://a.example".to_string()));
    assert_eq!(
        config_value_display(&c, ConfigField::PreferredBookNameField),
        Some("Ten sach mac dinh".to_string())
    );
    assert_eq!(config_value_display(&c, ConfigField::FirstLineIndentEm), None);
    assert_eq!(config_value_display(&c, ConfigField::MinConnectTimeout), None);
}

#[test]
fn comments_label_notes_txt() {
    let mut c = sample_config();
    let opt = option(ConfigField::EnableSegmentComments);
    let plain = menu_label(&opt, &c);
    c.set_text(TextSetting::NovelFormat, "TXT".to_string());
    assert_eq!(menu_label(&opt, &c), format!("{} (TXT khong ho tro)", plain));
}

#[test]
fn integer_fields_keep_their_bounds() {
    let mut c = sample_config();
    assert_eq!(set_int(&mut c, ConfigField::MaxWorkers, 0), Err(ConfigError::MaxWorkersNotPositive));
    assert_eq!(set_int(&mut c, ConfigField::RequestTimeout, -1), Err(ConfigError::RequestTimeoutNotPositive));
    assert_eq!(set_int(&mut c, ConfigField::MaxRetries, -1), Err(ConfigError::MaxRetriesNegative));
    assert_eq!(set_int(&mut c, ConfigField::MinWaitTime, -5), Err(ConfigError::MinWaitNegative));
    assert_eq!(set_int(&mut c, ConfigField::MinWaitTime, 3001), Err(ConfigError::MinWaitAboveMax));
    assert_eq!(set_int(&mut c, ConfigField::MaxWaitTime, -5), Err(ConfigError::MaxWaitNegative));
    assert_eq!(set_int(&mut c, ConfigField::MaxWaitTime, 999), Err(ConfigError::MaxWaitBelowMin));
    assert_eq!(
        set_int(&mut c, ConfigField::AudiobookConcurrency, 0),
        Err(ConfigError::AudiobookConcurrencyNotPositive)
    );
    assert_eq!(set_int(&mut c, ConfigField::SegmentCommentsTopN, 0), Err(ConfigError::SegmentTopNNotPositive));
    assert_eq!(
        set_int(&mut c, ConfigField::SegmentCommentsWorkers, 0),
        Err(ConfigError::SegmentWorkersNotPositive)
    );
    assert_eq!(set_int(&mut c, ConfigField::MediaDownloadWorkers, 0), Err(ConfigError::MediaWorkersNotPositive));
    assert_eq!(set_int(&mut c, ConfigField::JpegQuality, 101), Err(ConfigError::JpegQualityOutOfRange));
    assert_eq!(set_int(&mut c, ConfigField::JpegQuality, -1), Err(ConfigError::JpegQualityOutOfRange));
    assert_eq!(set_int(&mut c, ConfigField::MediaLimitPerChapter, -1), Err(ConfigError::MediaLimitNegative));
    assert_eq!(set_int(&mut c, ConfigField::MediaMaxDimensionPx, -1), Err(ConfigError::MediaDimensionNegative));
    assert_eq!(set_int(&mut c, ConfigField::SavePath, 1), Err(ConfigError::NotIntField));
    assert!(same_settings(&c, &sample_config()));

    assert_eq!(set_int(&mut c, ConfigField::MinWaitTime, 3000), Ok(EditEffect::Nothing));
    assert_eq!(c.durations.min_wait_time, 3000);
    assert_eq!(set_int(&mut c, ConfigField::JpegQuality, 100), Ok(EditEffect::Nothing));
    assert_eq!(c.jpeg_quality, 100);
    assert_eq!(set_int(&mut c, ConfigField::MaxWorkers, 12), Ok(EditEffect::Nothing));
    assert_eq!(c.counts.max_workers, 12);
}

#[test]
fn wait_order_survives_any_edit_sequence() {
    let mut c = sample_config();
    let edits: [(ConfigField, i64); 6] = [
        (ConfigField::MinWaitTime, 5000),
        (ConfigField::MaxWaitTime, 500),
        (ConfigField::MaxWaitTime, 8000),
        (ConfigField::MinWaitTime, 8000),
        (ConfigField::MaxWaitTime, 7999),
        (ConfigField::MinWaitTime, 0),
    ];
    for (f, v) in edits {
        let _ = set_int(&mut c, f, v);
        assert!(c.durations.min_wait_time <= c.durations.max_wait_time);
    }
    assert_eq!(c.durations.min_wait_time, 0);
    assert_eq!(c.durations.max_wait_time, 8000);
}

#[test]
fn comments_switch_moves_txt_to_epub() {
    let mut c = sample_config();
    c.set_text(TextSetting::NovelFormat, "TxT".to_string());
    assert_eq!(set_bool(&mut c, ConfigField::EnableSegmentComments, true), Ok(EditEffect::SwitchedToEpub));
    assert_eq!(c.text(TextSetting::NovelFormat), "epub");
    assert!(c.switch(Switch::EnableSegmentComments));
    assert_eq!(set_bool(&mut c, ConfigField::MaxWorkers, true), Err(ConfigError::NotBoolField));
}

#[test]
fn choosing_txt_turns_comments_off() {
    let mut c = sample_config();
    assert_eq!(set_bool(&mut c, ConfigField::EnableSegmentComments, true), Ok(EditEffect::Nothing));
    assert_eq!(set_string(&mut c, ConfigField::NovelFormat, " Txt "), Ok(EditEffect::DisabledSegmentComments));
    assert_eq!(c.text(TextSetting::NovelFormat), "txt");
    assert!(!c.switch(Switch::EnableSegmentComments));
    assert_eq!(set_string(&mut c, ConfigField::NovelFormat, "mobi"), Err(ConfigError::NovelFormatUnsupported));
    assert_eq!(c.text(TextSetting::NovelFormat), "txt");
}

#[test]
fn text_fields() {
    let mut c = sample_config();
    assert_eq!(set_string(&mut c, ConfigField::SavePath, "   "), Err(ConfigError::EmptySavePath));
    assert_eq!(set_string(&mut c, ConfigField::SavePath, " /tmp/novels "), Ok(EditEffect::CreateDirectory));
    assert_eq!(c.text(TextSetting::SavePath), "/tmp/novels");
    assert_eq!(set_string(&mut c, ConfigField::AudiobookFormat, "WAV"), Ok(EditEffect::Nothing));
    assert_eq!(c.text(TextSetting::AudiobookFormat), "wav");
    assert_eq!(set_string(&mut c, ConfigField::AudiobookFormat, "ogg"), Err(ConfigError::AudiobookFormatUnsupported));
    assert_eq!(set_string(&mut c, ConfigField::PreferredBookNameField, "Ten sach goc"), Ok(EditEffect::Nothing));
    assert_eq!(c.text(TextSetting::PreferredBookNameField), "original_book_name");
    assert_eq!(set_string(&mut c, ConfigField::PreferredBookNameField, "BOOK_SHORT_NAME"), Ok(EditEffect::Nothing));
    assert_eq!(c.text(TextSetting::PreferredBookNameField), "book_short_name");
    assert_eq!(
        set_string(&mut c, ConfigField::PreferredBookNameField, "title"),
        Err(ConfigError::BookNameFieldUnsupported)
    );
    assert_eq!(set_string(&mut c, ConfigField::AudiobookVoice, "vi-VN-HoaiMyNeural"), Ok(EditEffect::Nothing));
    assert_eq!(c.text(TextSetting::AudiobookVoice), "vi-VN-HoaiMyNeural");
    assert_eq!(set_string(&mut c, ConfigField::MaxWorkers, "3"), Err(ConfigError::NotStringField));
}

#[test]
fn list_fields() {
    let mut c = sample_config();
    assert_eq!(
        set_list(&mut c, ConfigField::BlockedMediaDomains, vec!["a.com".to_string(), "b.org".to_string()]),
        Ok(EditEffect::Nothing)
    );
    assert_eq!(c.blocked_media_domains, vec!["a.com".to_string(), "b.org".to_string()]);
    assert_eq!(set_list(&mut c, ConfigField::SavePath, Vec::new()), Err(ConfigError::NotListField));
}

#[test]
fn typed_values_through_the_menu() {
    let mut c = sample_config();
    assert_eq!(apply_config_edit(&mut c, option(ConfigField::BulkFiles), "YES"), Ok(EditEffect::Nothing));
    assert!(c.switch(Switch::BulkFiles));
    assert_eq!(apply_config_edit(&mut c, option(ConfigField::BulkFiles), "no"), Ok(EditEffect::Nothing));
    assert!(!c.switch(Switch::BulkFiles));
    assert_eq!(apply_config_edit(&mut c, option(ConfigField::MaxRetries), "abc"), Err(ConfigError::IntegerExpected));
    assert_eq!(apply_config_edit(&mut c, option(ConfigField::MaxRetries), "-2"), Err(ConfigError::MaxRetriesNegative));
    assert_eq!(apply_config_edit(&mut c, option(ConfigField::MaxRetries), "+7"), Ok(EditEffect::Nothing));
    assert_eq!(c.max_retries, 7);
    assert_eq!(
        apply_config_edit(&mut c, option(ConfigField::FirstLineIndentEm), "2.5"),
        Ok(EditEffect::FractionalInput)
    );
    assert_eq!(apply_config_edit(&mut c, option(ConfigField::ApiEndpoints), "a, b,,\nc ,"), Ok(EditEffect::Nothing));
    assert_eq!(c.api_endpoints, vec!["a".to_string(), "b".to_string(), "c".to_string()]);
    assert_eq!(
        apply_config_edit(&mut c, option(ConfigField::PreferredBookNameField), "Chon sau khi tai xong"),
        Ok(EditEffect::Nothing)
    );
    assert_eq!(c.text(TextSetting::PreferredBookNameField), "ask_after_download");
}

#[test]
fn shown_on_off_value_entered_again_changes_nothing() {
    let c0 = sample_config();
    for f in [ConfigField::AutoClearDump, ConfigField::BulkFiles, ConfigField::EnableSegmentComments] {
        let mut c = sample_config();
        let shown = config_value_display(&c, f).unwrap();
        assert_eq!(apply_config_edit(&mut c, option(f), &shown), Ok(EditEffect::Nothing));
        assert!(same_settings(&c, &c0));
    }
}

#[test]
fn shown_number_read_back() {
    for n in [0u64, 7, 10, 1234567890, u64::MAX] {
        let s = tomato_novel::text::decimal_string(n);
        assert_eq!(s, n.to_string());
        let v: Vec<char> = s.chars().collect();
        assert_eq!(tomato_novel::text::parse_unsigned_max(&v, u64::MAX), Some(n));
    }
}

#[test]
fn error_messages() {
    assert_eq!(ConfigError::IntegerExpected.message(), "Chuyen kieu that bai: can so nguyen");
    assert_eq!(ConfigError::NovelFormatUnsupported.message(), "Dinh dang luu chi ho tro txt/epub");
    assert_eq!(ConfigError::PercentExpected.message(), "Vui long nhap so nguyen trong khoang 0-100");
}

#[test]
fn shown_list_read_back() {
    let items = vec!["https://a.example".to_string(), "b.org".to_string(), "c d".to_string()];
    let shown = tomato_novel::text::join_with_comma(&items);
    assert_eq!(shown, "https://a.example,b.org,c d");
    let v: Vec<char> = shown.chars().collect();
    assert_eq!(tomato_novel::text::split_trimmed(&v, false), items);
    assert_eq!(tomato_novel::text::split_trimmed(&v, true), items);
    let empty: Vec<String> = Vec::new();
    let shown = tomato_novel::text::join_with_comma(&empty);
    let v: Vec<char> = shown.chars().collect();
    assert!(tomato_novel::text::split_trimmed(&v, false).is_empty());
}

#[test]
fn shown_number_entered_again_changes_nothing() {
    let c0 = sample_config();
    for f in [
        ConfigField::MaxWorkers,
        ConfigField::RequestTimeout,
        ConfigField::MaxRetries,
        ConfigField::MinWaitTime,
        ConfigField::MaxWaitTime,
        ConfigField::AudiobookConcurrency,
        ConfigField::SegmentCommentsTopN,
        ConfigField::SegmentCommentsWorkers,
        ConfigField::MediaDownloadWorkers,
        ConfigField::JpegQuality,
        ConfigField::MediaLimitPerChapter,
        ConfigField::MediaMaxDimensionPx,
    ] {
        let mut c = sample_config();
        let shown = config_value_display(&c, f).unwrap();
        assert_eq!(apply_config_edit(&mut c, option(f), &shown), Ok(EditEffect::Nothing));
        assert!(same_settings(&c, &c0));
        assert_eq!(c.media_max_dimension_px, c0.media_max_dimension_px);
    }
}

#[test]
fn settings_menu_steps() {
    let mut c = sample_config();
    assert_eq!(settings_step(SettingsState::Choosing, &mut c, "0"), (SettingsState::Choosing, SettingsAction::Leave));
    assert_eq!(settings_step(SettingsState::Choosing, &mut c, "x"), (SettingsState::Choosing, SettingsAction::NotNumber));
    assert_eq!(settings_step(SettingsState::Choosing, &mut c, "99"), (SettingsState::Choosing, SettingsAction::OutOfRange));
    assert_eq!(settings_step(SettingsState::Choosing, &mut c, "14"), (SettingsState::Editing(13), SettingsAction::AskValue));
    assert_eq!(settings_step(SettingsState::Choosing, &mut c, "6"), (SettingsState::Selecting(5), SettingsAction::AskSelection));
    assert_eq!(settings_step(SettingsState::Editing(13), &mut c, "  "), (SettingsState::Choosing, SettingsAction::Cancelled));
    assert_eq!(
        settings_step(SettingsState::Editing(13), &mut c, "0"),
        (SettingsState::Choosing, SettingsAction::Failed(ConfigError::MaxWorkersNotPositive))
    );
    assert_eq!(c.counts.max_workers, 4);
    assert_eq!(
        settings_step(SettingsState::Editing(13), &mut c, " 9 "),
        (SettingsState::Choosing, SettingsAction::Applied(EditEffect::Nothing))
    );
    assert_eq!(c.counts.max_workers, 9);
    assert_eq!(
        settings_step(SettingsState::Selecting(5), &mut c, "2"),
        (SettingsState::Choosing, SettingsAction::Applied(EditEffect::Nothing))
    );
    assert_eq!(c.text(TextSetting::PreferredBookNameField), "original_book_name");
    assert_eq!(settings_step(SettingsState::Selecting(5), &mut c, "7"), (SettingsState::Choosing, SettingsAction::SelectionOutOfRange));
    assert_eq!(settings_step(SettingsState::Selecting(5), &mut c, "z"), (SettingsState::Choosing, SettingsAction::SelectionNotNumber));
    assert_eq!(settings_step(SettingsState::Selecting(5), &mut c, ""), (SettingsState::Choosing, SettingsAction::Cancelled));
}
