//! Interface language tags, translated interface texts and the default
//! text-to-speech voice of each language.

use vstd::prelude::*;
use crate::text::{ascii_lower, chars_is, str_is, to_chars, trim, trim_end, trim_lower, trim_start};

verus! {

pub const LANG_ZH_CN: &'static str = "zh-cn";

pub const LANG_VI: &'static str = "vi";

pub const LANG_EN: &'static str = "en";

/// The canonical tag of a language name: the input is trimmed and folded to
/// lower case; Vietnamese and English spellings map to `vi` and `en`, and
/// everything else, the Chinese spellings included, maps to `zh-cn`.
pub open spec fn lang_tag(input: Seq<char>) -> Seq<char> {
    let s = ascii_lower(trim(input));
    if s == "vi"@ || s == "vi-vn"@ {
        "vi"@
    } else if s == "en"@ || s == "en-us"@ || s == "en-gb"@ {
        "en"@
    } else {
        "zh-cn"@
    }
}

/// The Edge TTS voice for a language.
pub open spec fn voice_for(input: Seq<char>) -> Seq<char> {
    let t = lang_tag(input);
    if t == "vi"@ {
        "vi-VN-HoaiMyNeural"@
    } else if t == "en"@ {
        "en-US-AriaNeural"@
    } else {
        "zh-CN-XiaoxiaoNeural"@
    }
}

/// Vietnamese interface texts.
pub open spec fn vi_entry(key: Seq<char>) -> Option<Seq<char>> {
    if key == "noui.project"@ {
        Some("Dự án"@)
    } else if key == "noui.fork"@ {
        Some("Fork từ"@)
    } else if key == "noui.author"@ {
        Some("Tác giả"@)
    } else if key == "noui.early"@ {
        Some("Mã nguồn giai đoạn đầu"@)
    } else if key == "noui.free_title"@ {
        Some("[Tuyên bố miễn phí]"@)
    } else if key == "noui.free_text"@ {
        Some("Chương trình này hoàn toàn miễn phí. Nếu bạn thấy kênh phân phối thu phí, vui lòng cảnh giác để tránh bị lừa đảo."@)
    } else if key == "about.project"@ {
        Some("Dự án"@)
    } else if key == "about.fork"@ {
        Some("Fork từ"@)
    } else if key == "about.author"@ {
        Some("Tác giả"@)
    } else if key == "about.free_title"@ {
        Some("===== THÔNG BÁO MIỄN PHÍ ====="@)
    } else if key == "about.free_text"@ {
        Some("Chương trình này hoàn toàn miễn phí."@)
    } else if key == "web.free_text"@ {
        Some("Chương trình này hoàn toàn miễn phí."@)
    } else if key == "web.free_warn"@ {
        Some("Nếu bạn thấy kênh thu phí, vui lòng cảnh giác để tránh bị lừa đảo."@)
    } else {
        None
    }
}

/// English interface texts.
pub open spec fn en_entry(key: Seq<char>) -> Option<Seq<char>> {
    if key == "noui.project"@ {
        Some("Project"@)
    } else if key == "noui.fork"@ {
        Some("Fork from"@)
    } else if key == "noui.author"@ {
        Some("Author"@)
    } else if key == "noui.early"@ {
        Some("Early-stage code"@)
    } else if key == "noui.free_title"@ {
        Some("[Free Notice]"@)
    } else if key == "noui.free_text"@ {
        Some("This program is completely free. Beware of paid distribution channels!"@)
    } else if key == "about.project"@ {
        Some("Project"@)
    } else if key == "about.fork"@ {
        Some("Fork from"@)
    } else if key == "about.author"@ {
        Some("Author"@)
    } else if key == "about.free_title"@ {
        Some("===== Free Notice ====="@)
    } else if key == "about.free_text"@ {
        Some("This program is completely free"@)
    } else if key == "web.free_text"@ {
        Some("This program is completely free"@)
    } else if key == "web.free_warn"@ {
        Some("If you see paid channels, do not be scammed!"@)
    } else {
        None
    }
}

/// Simplified Chinese interface texts, used for every other language.
pub open spec fn zh_entry(key: Seq<char>) -> Option<Seq<char>> {
    if key == "noui.project"@ {
        Some("项目地址"@)
    } else if key == "noui.fork"@ {
        Some("Fork From"@)
    } else if key == "noui.author"@ {
        Some("作者"@)
    } else if key == "noui.early"@ {
        Some("项目早期代码"@)
    } else if key == "noui.free_title"@ {
        Some("【免费声明】"@)
    } else if key == "noui.free_text"@ {
        Some("本程序完全免费，若发现收费渠道，请勿上当受骗！"@)
    } else if key == "about.project"@ {
        Some("项目地址"@)
    } else if key == "about.fork"@ {
        Some("Fork From"@)
    } else if key == "about.author"@ {
        Some("作者"@)
    } else if key == "about.free_title"@ {
        Some("===== 免费声明 ====="@)
    } else if key == "about.free_text"@ {
        Some("本程序完全免费"@)
    } else if key == "web.free_text"@ {
        Some("本程序完全免费"@)
    } else if key == "web.free_warn"@ {
        Some("若发现收费渠道，请勿上当受骗！"@)
    } else {
        None
    }
}

/// The text of `key` in the language with canonical tag `tag`; an unknown
/// key stands for itself.
pub open spec fn tr_text(tag: Seq<char>, key: Seq<char>) -> Seq<char> {
    let entry = if tag == "vi"@ {
        vi_entry(key)
    } else if tag == "en"@ {
        en_entry(key)
    } else {
        zh_entry(key)
    };
    match entry {
        Some(t) => t,
        None => key,
    }
}

/// Canonical language tag of a user- or config-supplied language name.
pub fn normalize_lang_tag(input: &str) -> (r: &'static str)
    ensures
        r@ == lang_tag(input@),
{
    let s = trim_lower(input);
    let s = s.as_slice();
    if chars_is(s, "vi") || chars_is(s, "vi-vn") {
        LANG_VI
    } else if chars_is(s, "en") || chars_is(s, "en-us") || chars_is(s, "en-gb") {
        LANG_EN
    } else if chars_is(s, "zh") || chars_is(s, "zh-cn") || chars_is(s, "zh-hans") {
        LANG_ZH_CN
    } else {
        LANG_ZH_CN
    }
}

/// The default Edge TTS voice of a language.
pub fn default_edge_tts_voice(lang: &str) -> (r: &'static str)
    ensures
        r@ == voice_for(lang@),
{
    let tag = normalize_lang_tag(lang);
    if str_is(tag, LANG_VI) {
        "vi-VN-HoaiMyNeural"
    } else if str_is(tag, LANG_EN) {
        "en-US-AriaNeural"
    } else {
        "zh-CN-XiaoxiaoNeural"
    }
}

fn vi_lookup(key: &[char]) -> (r: Option<&'static str>)
    ensures
        match r {
            Some(t) => vi_entry(key@) == Some(t@),
            None => vi_entry(key@) is None,
        },
{
    if chars_is(key, "noui.project") {
        Some("Dự án")
    } else if chars_is(key, "noui.fork") {
        Some("Fork từ")
    } else if chars_is(key, "noui.author") {
        Some("Tác giả")
    } else if chars_is(key, "noui.early") {
        Some("Mã nguồn giai đoạn đầu")
    } else if chars_is(key, "noui.free_title") {
        Some("[Tuyên bố miễn phí]")
    } else if chars_is(key, "noui.free_text") {
        Some("Chương trình này hoàn toàn miễn phí. Nếu bạn thấy kênh phân phối thu phí, vui lòng cảnh giác để tránh bị lừa đảo.")
    } else if chars_is(key, "about.project") {
        Some("Dự án")
    } else if chars_is(key, "about.fork") {
        Some("Fork từ")
    } else if chars_is(key, "about.author") {
        Some("Tác giả")
    } else if chars_is(key, "about.free_title") {
        Some("===== THÔNG BÁO MIỄN PHÍ =====")
    } else if chars_is(key, "about.free_text") {
        Some("Chương trình này hoàn toàn miễn phí.")
    } else if chars_is(key, "web.free_text") {
        Some("Chương trình này hoàn toàn miễn phí.")
    } else if chars_is(key, "web.free_warn") {
        Some("Nếu bạn thấy kênh thu phí, vui lòng cảnh giác để tránh bị lừa đảo.")
    } else {
        None
    }
}

fn en_lookup(key: &[char]) -> (r: Option<&'static str>)
    ensures
        match r {
            Some(t) => en_entry(key@) == Some(t@),
            None => en_entry(key@) is None,
        },
{
    if chars_is(key, "noui.project") {
        Some("Project")
    } else if chars_is(key, "noui.fork") {
        Some("Fork from")
    } else if chars_is(key, "noui.author") {
        Some("Author")
    } else if chars_is(key, "noui.early") {
        Some("Early-stage code")
    } else if chars_is(key, "noui.free_title") {
        Some("[Free Notice]")
    } else if chars_is(key, "noui.free_text") {
        Some("This program is completely free. Beware of paid distribution channels!")
    } else if chars_is(key, "about.project") {
        Some("Project")
    } else if chars_is(key, "about.fork") {
        Some("Fork from")
    } else if chars_is(key, "about.author") {
        Some("Author")
    } else if chars_is(key, "about.free_title") {
        Some("===== Free Notice =====")
    } else if chars_is(key, "about.free_text") {
        Some("This program is completely free")
    } else if chars_is(key, "web.free_text") {
        Some("This program is completely free")
    } else if chars_is(key, "web.free_warn") {
        Some("If you see paid channels, do not be scammed!")
    } else {
        None
    }
}

fn zh_lookup(key: &[char]) -> (r: Option<&'static str>)
    ensures
        match r {
            Some(t) => zh_entry(key@) == Some(t@),
            None => zh_entry(key@) is None,
        },
{
    if chars_is(key, "noui.project") {
        Some("项目地址")
    } else if chars_is(key, "noui.fork") {
        Some("Fork From")
    } else if chars_is(key, "noui.author") {
        Some("作者")
    } else if chars_is(key, "noui.early") {
        Some("项目早期代码")
    } else if chars_is(key, "noui.free_title") {
        Some("【免费声明】")
    } else if chars_is(key, "noui.free_text") {
        Some("本程序完全免费，若发现收费渠道，请勿上当受骗！")
    } else if chars_is(key, "about.project") {
        Some("项目地址")
    } else if chars_is(key, "about.fork") {
        Some("Fork From")
    } else if chars_is(key, "about.author") {
        Some("作者")
    } else if chars_is(key, "about.free_title") {
        Some("===== 免费声明 =====")
    } else if chars_is(key, "about.free_text") {
        Some("本程序完全免费")
    } else if chars_is(key, "web.free_text") {
        Some("本程序完全免费")
    } else if chars_is(key, "web.free_warn") {
        Some("若发现收费渠道，请勿上当受骗！")
    } else {
        None
    }
}

/// The interface text for `key` in the language `lang`; a key without a
/// translation is returned as it is.
pub fn tr(lang: &str, key: &str) -> (r: String)
    ensures
        r@ == tr_text(lang_tag(lang@), key@),
{
    let tag = normalize_lang_tag(lang);
    let k = to_chars(key);
    let found = if str_is(tag, LANG_VI) {
        vi_lookup(k.as_slice())
    } else if str_is(tag, LANG_EN) {
        en_lookup(k.as_slice())
    } else {
        zh_lookup(k.as_slice())
    };
    match found {
        Some(t) => String::from_str(t),
        None => String::from_str(key),
    }
}

/// The canonical tags are fixed points: normalizing a tag that
/// `normalize_lang_tag` returned gives the same tag again.
pub proof fn lemma_lang_tag_idempotent(input: Seq<char>)
    ensures
        lang_tag(lang_tag(input)) == lang_tag(input),
{
    reveal_strlit("vi");
    reveal_strlit("vi-vn");
    reveal_strlit("en");
    reveal_strlit("en-us");
    reveal_strlit("en-gb");
    reveal_strlit("zh-cn");
    let t = lang_tag(input);
    assert(trim_start(t) == t);
    assert(trim_end(t) == t);
    assert(ascii_lower(t) =~= t);
}

/// A translation depends on the language only through its canonical tag:
/// translating with the tag gives the same text as with the name given.
pub proof fn lemma_tr_through_tag(lang: Seq<char>, key: Seq<char>)
    ensures
        tr_text(lang_tag(lang_tag(lang)), key) == tr_text(lang_tag(lang), key),
{
    lemma_lang_tag_idempotent(lang);
}

/// The default voice depends on the language only through its canonical tag.
pub proof fn lemma_voice_through_tag(lang: Seq<char>)
    ensures
        voice_for(lang_tag(lang)) == voice_for(lang),
{
    lemma_lang_tag_idempotent(lang);
}

/// The keys that have translations.
pub open spec fn is_known_key(key: Seq<char>) -> bool {
    key == "noui.project"@ || key == "noui.fork"@ || key == "noui.author"@ || key == "noui.early"@ || key == "noui.free_title"@ || key == "noui.free_text"@ || key == "about.project"@ || key == "about.fork"@ || key == "about.author"@ || key == "about.free_title"@ || key == "about.free_text"@ || key == "web.free_text"@ || key == "web.free_warn"@
}

/// A key comes back unchanged exactly when it has no translation: no
/// translated text equals its key.
pub proof fn lemma_tr_known_keys(tag: Seq<char>, key: Seq<char>)
    ensures
        (tr_text(tag, key) == key) <==> !is_known_key(key),
{
    if key == "noui.project"@ {
        reveal_strlit("noui.project");
        reveal_strlit("Dự án");
        reveal_strlit("Project");
        reveal_strlit("项目地址");
        assert("noui.project"@[0] != "Dự án"@[0]);
        assert("noui.project"@[0] != "Project"@[0]);
        assert("noui.project"@[0] != "项目地址"@[0]);
    } else if key == "noui.fork"@ {
        reveal_strlit("noui.fork");
        reveal_strlit("Fork từ");
        reveal_strlit("Fork from");
        reveal_strlit("Fork From");
        assert("noui.fork"@[0] != "Fork từ"@[0]);
        assert("noui.fork"@[0] != "Fork from"@[0]);
        assert("noui.fork"@[0] != "Fork From"@[0]);
    } else if key == "noui.author"@ {
        reveal_strlit("noui.author");
        reveal_strlit("Tác giả");
        reveal_strlit("Author");
        reveal_strlit("作者");
        assert("noui.author"@[0] != "Tác giả"@[0]);
        assert("noui.author"@[0] != "Author"@[0]);
        assert("noui.author"@[0] != "作者"@[0]);
    } else if key == "noui.early"@ {
        reveal_strlit("noui.early");
        reveal_strlit("Mã nguồn giai đoạn đầu");
        reveal_strlit("Early-stage code");
        reveal_strlit("项目早期代码");
        assert("noui.early"@[0] != "Mã nguồn giai đoạn đầu"@[0]);
        assert("noui.early"@[0] != "Early-stage code"@[0]);
        assert("noui.early"@[0] != "项目早期代码"@[0]);
    } else if key == "noui.free_title"@ {
        reveal_strlit("noui.free_title");
        reveal_strlit("[Tuyên bố miễn phí]");
        reveal_strlit("[Free Notice]");
        reveal_strlit("【免费声明】");
        assert("noui.free_title"@[0] != "[Tuyên bố miễn phí]"@[0]);
        assert("noui.free_title"@[0] != "[Free Notice]"@[0]);
        assert("noui.free_title"@[0] != "【免费声明】"@[0]);
    } else if key == "noui.free_text"@ {
        reveal_strlit("noui.free_text");
        reveal_strlit("Chương trình này hoàn toàn miễn phí. Nếu bạn thấy kênh phân phối thu phí, vui lòng cảnh giác để tránh bị lừa đảo.");
        reveal_strlit("This program is completely free. Beware of paid distribution channels!");
        reveal_strlit("本程序完全免费，若发现收费渠道，请勿上当受骗！");
        assert("noui.free_text"@[0] != "Chương trình này hoàn toàn miễn phí. Nếu bạn thấy kênh phân phối thu phí, vui lòng cảnh giác để tránh bị lừa đảo."@[0]);
        assert("noui.free_text"@[0] != "This program is completely free. Beware of paid distribution channels!"@[0]);
        assert("noui.free_text"@[0] != "本程序完全免费，若发现收费渠道，请勿上当受骗！"@[0]);
    } else if key == "about.project"@ {
        reveal_strlit("about.project");
        reveal_strlit("Dự án");
        reveal_strlit("Project");
        reveal_strlit("项目地址");
        assert("about.project"@[0] != "Dự án"@[0]);
        assert("about.project"@[0] != "Project"@[0]);
        assert("about.project"@[0] != "项目地址"@[0]);
    } else if key == "about.fork"@ {
        reveal_strlit("about.fork");
        reveal_strlit("Fork từ");
        reveal_strlit("Fork from");
        reveal_strlit("Fork From");
        assert("about.fork"@[0] != "Fork từ"@[0]);
        assert("about.fork"@[0] != "Fork from"@[0]);
        assert("about.fork"@[0] != "Fork From"@[0]);
    } else if key == "about.author"@ {
        reveal_strlit("about.author");
        reveal_strlit("Tác giả");
        reveal_strlit("Author");
        reveal_strlit("作者");
        assert("about.author"@[0] != "Tác giả"@[0]);
        assert("about.author"@[0] != "Author"@[0]);
        assert("about.author"@[0] != "作者"@[0]);
    } else if key == "about.free_title"@ {
        reveal_strlit("about.free_title");
        reveal_strlit("===== THÔNG BÁO MIỄN PHÍ =====");
        reveal_strlit("===== Free Notice =====");
        reveal_strlit("===== 免费声明 =====");
        assert("about.free_title"@[0] != "===== THÔNG BÁO MIỄN PHÍ ====="@[0]);
        assert("about.free_title"@[0] != "===== Free Notice ====="@[0]);
        assert("about.free_title"@[0] != "===== 免费声明 ====="@[0]);
    } else if key == "about.free_text"@ {
        reveal_strlit("about.free_text");
        reveal_strlit("Chương trình này hoàn toàn miễn phí.");
        reveal_strlit("This program is completely free");
        reveal_strlit("本程序完全免费");
        assert("about.free_text"@[0] != "Chương trình này hoàn toàn miễn phí."@[0]);
        assert("about.free_text"@[0] != "This program is completely free"@[0]);
        assert("about.free_text"@[0] != "本程序完全免费"@[0]);
    } else if key == "web.free_text"@ {
        reveal_strlit("web.free_text");
        reveal_strlit("Chương trình này hoàn toàn miễn phí.");
        reveal_strlit("This program is completely free");
        reveal_strlit("本程序完全免费");
        assert("web.free_text"@[0] != "Chương trình này hoàn toàn miễn phí."@[0]);
        assert("web.free_text"@[0] != "This program is completely free"@[0]);
        assert("web.free_text"@[0] != "本程序完全免费"@[0]);
    } else if key == "web.free_warn"@ {
        reveal_strlit("web.free_warn");
        reveal_strlit("Nếu bạn thấy kênh thu phí, vui lòng cảnh giác để tránh bị lừa đảo.");
        reveal_strlit("If you see paid channels, do not be scammed!");
        reveal_strlit("若发现收费渠道，请勿上当受骗！");
        assert("web.free_warn"@[0] != "Nếu bạn thấy kênh thu phí, vui lòng cảnh giác để tránh bị lừa đảo."@[0]);
        assert("web.free_warn"@[0] != "If you see paid channels, do not be scammed!"@[0]);
        assert("web.free_warn"@[0] != "若发现收费渠道，请勿上当受骗！"@[0]);
    }
}

/// Every key with a translation has a Vietnamese, an English and a Chinese
/// text, none empty and no two the same.
pub proof fn lemma_translations_distinct(key: Seq<char>)
    requires
        is_known_key(key),
    ensures
        tr_text("vi"@, key).len() > 0,
        tr_text("en"@, key).len() > 0,
        tr_text("zh-cn"@, key).len() > 0,
        tr_text("vi"@, key) != tr_text("en"@, key),
        tr_text("vi"@, key) != tr_text("zh-cn"@, key),
        tr_text("en"@, key) != tr_text("zh-cn"@, key),
{
    reveal_strlit("vi");
    reveal_strlit("en");
    reveal_strlit("zh-cn");
    assert("en"@[0] != "vi"@[0]);
    assert("zh-cn"@.len() != "vi"@.len());
    assert("zh-cn"@.len() != "en"@.len());
    if key == "noui.project"@ {
        reveal_strlit("noui.project");
        reveal_strlit("Dự án");
        reveal_strlit("Project");
        reveal_strlit("项目地址");
        assert("Dự án"@[0] != "Project"@[0]);
        assert("Dự án"@[0] != "项目地址"@[0]);
        assert("Project"@[0] != "项目地址"@[0]);
    } else if key == "noui.fork"@ {
        reveal_strlit("noui.fork");
        reveal_strlit("Fork từ");
        reveal_strlit("Fork from");
        reveal_strlit("Fork From");
        assert("Fork từ"@[5] != "Fork from"@[5]);
        assert("Fork từ"@[5] != "Fork From"@[5]);
        assert("Fork from"@[5] != "Fork From"@[5]);
    } else if key == "noui.author"@ {
        reveal_strlit("noui.author");
        reveal_strlit("Tác giả");
        reveal_strlit("Author");
        reveal_strlit("作者");
        assert("Tác giả"@[0] != "Author"@[0]);
        assert("Tác giả"@[0] != "作者"@[0]);
        assert("Author"@[0] != "作者"@[0]);
    } else if key == "noui.early"@ {
        reveal_strlit("noui.early");
        reveal_strlit("Mã nguồn giai đoạn đầu");
        reveal_strlit("Early-stage code");
        reveal_strlit("项目早期代码");
        assert("Mã nguồn giai đoạn đầu"@[0] != "Early-stage code"@[0]);
        assert("Mã nguồn giai đoạn đầu"@[0] != "项目早期代码"@[0]);
        assert("Early-stage code"@[0] != "项目早期代码"@[0]);
    } else if key == "noui.free_title"@ {
        reveal_strlit("noui.free_title");
        reveal_strlit("[Tuyên bố miễn phí]");
        reveal_strlit("[Free Notice]");
        reveal_strlit("【免费声明】");
        assert("[Tuyên bố miễn phí]"@[1] != "[Free Notice]"@[1]);
        assert("[Tuyên bố miễn phí]"@[0] != "【免费声明】"@[0]);
        assert("[Free Notice]"@[0] != "【免费声明】"@[0]);
    } else if key == "noui.free_text"@ {
        reveal_strlit("noui.free_text");
        reveal_strlit("Chương trình này hoàn toàn miễn phí. Nếu bạn thấy kênh phân phối thu phí, vui lòng cảnh giác để tránh bị lừa đảo.");
        reveal_strlit("This program is completely free. Beware of paid distribution channels!");
        reveal_strlit("本程序完全免费，若发现收费渠道，请勿上当受骗！");
        assert("Chương trình này hoàn toàn miễn phí. Nếu bạn thấy kênh phân phối thu phí, vui lòng cảnh giác để tránh bị lừa đảo."@[0] != "This program is completely free. Beware of paid distribution channels!"@[0]);
        assert("Chương trình này hoàn toàn miễn phí. Nếu bạn thấy kênh phân phối thu phí, vui lòng cảnh giác để tránh bị lừa đảo."@[0] != "本程序完全免费，若发现收费渠道，请勿上当受骗！"@[0]);
        assert("This program is completely free. Beware of paid distribution channels!"@[0] != "本程序完全免费，若发现收费渠道，请勿上当受骗！"@[0]);
    } else if key == "about.project"@ {
        reveal_strlit("about.project");
        reveal_strlit("Dự án");
        reveal_strlit("Project");
        reveal_strlit("项目地址");
        assert("Dự án"@[0] != "Project"@[0]);
        assert("Dự án"@[0] != "项目地址"@[0]);
        assert("Project"@[0] != "项目地址"@[0]);
    } else if key == "about.fork"@ {
        reveal_strlit("about.fork");
        reveal_strlit("Fork từ");
        reveal_strlit("Fork from");
        reveal_strlit("Fork From");
        assert("Fork từ"@[5] != "Fork from"@[5]);
        assert("Fork từ"@[5] != "Fork From"@[5]);
        assert("Fork from"@[5] != "Fork From"@[5]);
    } else if key == "about.author"@ {
        reveal_strlit("about.author");
        reveal_strlit("Tác giả");
        reveal_strlit("Author");
        reveal_strlit("作者");
        assert("Tác giả"@[0] != "Author"@[0]);
        assert("Tác giả"@[0] != "作者"@[0]);
        assert("Author"@[0] != "作者"@[0]);
    } else if key == "about.free_title"@ {
        reveal_strlit("about.free_title");
        reveal_strlit("===== THÔNG BÁO MIỄN PHÍ =====");
        reveal_strlit("===== Free Notice =====");
        reveal_strlit("===== 免费声明 =====");
        assert("===== THÔNG BÁO MIỄN PHÍ ====="@[6] != "===== Free Notice ====="@[6]);
        assert("===== THÔNG BÁO MIỄN PHÍ ====="@[6] != "===== 免费声明 ====="@[6]);
        assert("===== Free Notice ====="@[6] != "===== 免费声明 ====="@[6]);
    } else if key == "about.free_text"@ {
        reveal_strlit("about.free_text");
        reveal_strlit("Chương trình này hoàn toàn miễn phí.");
        reveal_strlit("This program is completely free");
        reveal_strlit("本程序完全免费");
        assert("Chương trình này hoàn toàn miễn phí."@[0] != "This program is completely free"@[0]);
        assert("Chương trình này hoàn toàn miễn phí."@[0] != "本程序完全免费"@[0]);
        assert("This program is completely free"@[0] != "本程序完全免费"@[0]);
    } else if key == "web.free_text"@ {
        reveal_strlit("web.free_text");
        reveal_strlit("Chương trình này hoàn toàn miễn phí.");
        reveal_strlit("This program is completely free");
        reveal_strlit("本程序完全免费");
        assert("Chương trình này hoàn toàn miễn phí."@[0] != "This program is completely free"@[0]);
        assert("Chương trình này hoàn toàn miễn phí."@[0] != "本程序完全免费"@[0]);
        assert("This program is completely free"@[0] != "本程序完全免费"@[0]);
    } else if key == "web.free_warn"@ {
        reveal_strlit("web.free_warn");
        reveal_strlit("Nếu bạn thấy kênh thu phí, vui lòng cảnh giác để tránh bị lừa đảo.");
        reveal_strlit("If you see paid channels, do not be scammed!");
        reveal_strlit("若发现收费渠道，请勿上当受骗！");
        assert("Nếu bạn thấy kênh thu phí, vui lòng cảnh giác để tránh bị lừa đảo."@[0] != "If you see paid channels, do not be scammed!"@[0]);
        assert("Nếu bạn thấy kênh thu phí, vui lòng cảnh giác để tránh bị lừa đảo."@[0] != "若发现收费渠道，请勿上当受骗！"@[0]);
        assert("If you see paid channels, do not be scammed!"@[0] != "若发现收费渠道，请勿上当受骗！"@[0]);
    }
}

} // verus!
