use tomato_novel::i18n::{default_edge_tts_voice, normalize_lang_tag, tr, LANG_EN, LANG_VI, LANG_ZH_CN};
use tomato_novel::labels::{
    book_name_field_to_chinese, chinese_to_book_name_field, chinese_to_novel_format,
    is_book_name_field, novel_format_to_chinese,
};
use tomato_novel::templates::{free_notice_html, free_notice_mobile_html};

fn chars(s: &str) -> Vec<char> {
    s.chars().collect()
}

#[test]
fn lang_tags_are_normalized() {
    assert_eq!(normalize_lang_tag(" VI "), LANG_VI);
    assert_eq!(normalize_lang_tag("vi-VN"), LANG_VI);
    assert_eq!(normalize_lang_tag("en"), LANG_EN);
    assert_eq!(normalize_lang_tag("En-Gb"), LANG_EN);
    assert_eq!(normalize_lang_tag("en-us"), LANG_EN);
    assert_eq!(normalize_lang_tag("zh-Hans"), LANG_ZH_CN);
    assert_eq!(normalize_lang_tag("zh"), LANG_ZH_CN);
    assert_eq!(normalize_lang_tag("fr"), LANG_ZH_CN);
    assert_eq!(normalize_lang_tag(""), LANG_ZH_CN);
}

#[test]
fn normalizing_twice_changes_nothing() {
    for s in ["vi", " EN-GB ", "zh", "fr", "", "vi-vn"] {
        let once = normalize_lang_tag(s);
        assert_eq!(normalize_lang_tag(once), once);
    }
}

#[test]
fn voices_follow_the_language() {
    assert_eq!(default_edge_tts_voice("vi-VN"), "vi-VN-HoaiMyNeural");
    assert_eq!(default_edge_tts_voice("EN"), "en-US-AriaNeural");
    assert_eq!(default_edge_tts_voice(""), "zh-CN-XiaoxiaoNeural");
    assert_eq!(default_edge_tts_voice("de"), "zh-CN-XiaoxiaoNeural");
}

#[test]
fn translations_by_language() {
    assert_eq!(tr("vi", "noui.project"), "Dự án");
    assert_eq!(tr("VI-vn", "about.free_title"), "===== THÔNG BÁO MIỄN PHÍ =====");
    assert_eq!(tr("en", "web.free_warn"), "If you see paid channels, do not be scammed!");
    assert_eq!(tr("en-us", "noui.early"), "Early-stage code");
    assert_eq!(tr("zh", "about.free_text"), "本程序完全免费");
    assert_eq!(tr("fr", "noui.free_title"), "【免费声明】");
}

#[test]
fn unknown_keys_come_back_as_they_are() {
    assert_eq!(tr("en", "unknown.key"), "unknown.key");
    assert_eq!(tr("vi", ""), "");
}

#[test]
fn translation_depends_on_the_tag_only() {
    for (a, b) in [("vi", "VI-VN"), ("en", " en-gb "), ("zh", "xx")] {
        for key in ["noui.fork", "web.free_text", "about.author"] {
            assert_eq!(tr(a, key), tr(b, key));
        }
    }
}

#[test]
fn notice_in_official_builds() {
    assert_eq!(
        free_notice_html("en", true),
        "<div class=\"free-notice\">This program is completely free &middot; <a href=\"https://github.com/kychitoge/tomato-tool\" target=\"_blank\" rel=\"noopener\">开源仓库</a><br />If you see paid channels, do not be scammed!</div>"
    );
    assert_eq!(
        free_notice_mobile_html("vi", true),
        "<div class=\"free-notice free-notice-mobile\">Chương trình này hoàn toàn miễn phí. &middot; <a href=\"https://github.com/kychitoge/tomato-tool\" target=\"_blank\" rel=\"noopener\">开源仓库</a><br />Nếu bạn thấy kênh thu phí, vui lòng cảnh giác để tránh bị lừa đảo.</div>"
    );
}

#[test]
fn no_notice_in_other_builds() {
    assert_eq!(free_notice_html("en", false), "");
    assert_eq!(free_notice_mobile_html("zh", false), "");
}

#[test]
fn book_field_labels() {
    assert_eq!(book_name_field_to_chinese(&chars("book_name")), "Ten sach mac dinh");
    assert_eq!(book_name_field_to_chinese(&chars("original_book_name")), "Ten sach goc");
    assert_eq!(book_name_field_to_chinese(&chars("book_short_name")), "Ten sach ngan");
    assert_eq!(book_name_field_to_chinese(&chars("ask_after_download")), "Chon sau khi tai xong");
    assert_eq!(book_name_field_to_chinese(&chars("other")), "Ten sach mac dinh");
    assert_eq!(chinese_to_book_name_field(&chars("Ten sach ngan")), Some("book_short_name".to_string()));
    assert_eq!(chinese_to_book_name_field(&chars("ten sach ngan")), None);
    assert!(is_book_name_field(&chars("original_book_name")));
    assert!(!is_book_name_field(&chars("Book_Name")));
}

#[test]
fn book_field_label_round_trip() {
    for f in ["book_name", "original_book_name", "book_short_name", "ask_after_download"] {
        let label = book_name_field_to_chinese(&chars(f));
        assert_eq!(chinese_to_book_name_field(&chars(label)), Some(f.to_string()));
    }
}

#[test]
fn format_labels_and_round_trip() {
    assert_eq!(novel_format_to_chinese(&chars("epub")), "Dinh dang epub");
    assert_eq!(novel_format_to_chinese(&chars("mobi")), "Dinh dang txt");
    assert_eq!(chinese_to_novel_format(&chars("Dinh dang epub")), Some("epub".to_string()));
    assert_eq!(chinese_to_novel_format(&chars("epub")), None);
    for f in ["txt", "epub", "ask_after_download"] {
        let label = novel_format_to_chinese(&chars(f));
        assert_eq!(chinese_to_novel_format(&chars(label)), Some(f.to_string()));
    }
}

#[test]
fn translated_keys_never_come_back_unchanged() {
    let keys = [
        "noui.project", "noui.fork", "noui.author", "noui.early", "noui.free_title", "noui.free_text",
        "about.project", "about.fork", "about.author", "about.free_title", "about.free_text",
        "web.free_text", "web.free_warn",
    ];
    for k in keys {
        let (v, e, z) = (tr("vi", k), tr("en", k), tr("zh-cn", k));
        assert!(v != k && e != k && z != k);
        assert!(!v.is_empty() && !e.is_empty() && !z.is_empty());
        assert!(v != e && v != z && e != z);
    }
    assert_eq!(tr("vi", "noui.other"), "noui.other");
}
