//! The full-screen configuration editor: its categories, presets, the
//! value shown for each field, and how an edited value is applied.

use vstd::prelude::*;
use crate::config::{
    count_value, duration_value, jpeg_quality_valid, lemma_with_same_count, lemma_with_same_duration,
    lemma_with_same_switch, lemma_with_same_text, switch_value, wait_ordered, with_count, with_duration, with_list,
    with_switch, with_text, Config, ConfigError, ConfigView, Count, Duration, ListSetting, Switch,
    TextSetting,
};
use crate::labels::{
    book_field_label, book_field_of_label, book_name_field_to_chinese, chinese_to_book_name_field,
    chinese_to_novel_format, format_label, format_of_label, is_book_field_name, is_book_name_field,
    novel_format_to_chinese,
};
use crate::labels::{lemma_book_field_label_round_trip, lemma_format_label_round_trip};
use crate::text::{
    ascii_lower, ascii_lower_chars, bool_string, bool_text, chars_eq_ignore_case, chars_is, clean_items,
    decimal, decimal_string, eq_ignore_case, from_chars, join_comma, join_with_comma,
    lemma_decimal_round_trip, lemma_decimal_trimmed, lemma_list_items_clean,
    lemma_list_items_read_back, lemma_trim_plain, list_items, parse_unsigned, parse_unsigned_max,
    split_trimmed, to_chars, trim, trim_chars, views,
};

verus! {

/// The fields that the editor lists.
#[derive(Clone, Copy, Debug, PartialEq, Eq, Structural)]
pub enum ConfigField {
    SavePath,
    NovelFormat,
    BulkFiles,
    AutoClearDump,
    AutoOpenDownloadedFiles,
    AllowOverwriteFiles,
    PreferredBookNameField,
    OldCli,
    FirstLineIndentEm,
    EnableSegmentComments,
    UseOfficialApi,
    ApiEndpoints,
    MaxWorkers,
    RequestTimeout,
    MaxRetries,
    MinConnectTimeout,
    MinWait,
    MaxWait,
    EnableAudiobook,
    AudiobookVoice,
    AudiobookRate,
    AudiobookVolume,
    AudiobookPitch,
    AudiobookFormat,
    AudiobookConcurrency,
    AudiobookTtsProvider,
    AudiobookTtsApiUrl,
    AudiobookTtsApiToken,
    AudiobookTtsModel,
    SegmentCommentsTopN,
    SegmentCommentsWorkers,
    DownloadCommentImages,
    DownloadCommentAvatars,
    MediaDownloadWorkers,
    BlockedMediaDomains,
    ForceConvertImagesToJpeg,
    JpegRetryConvert,
    JpegQuality,
    ConvertHeicToJpeg,
    KeepHeicOriginal,
    MediaLimitPerChapter,
    MediaMaxDimensionPx,
}

/// One field of a category, with its title.
#[derive(Clone, Copy, Debug)]
pub struct ConfigEntry {
    pub title: &'static str,
    pub field: ConfigField,
}

/// A titled group of fields.
#[derive(Clone, Debug)]
pub struct ConfigCategory {
    pub title: &'static str,
    pub entries: Vec<ConfigEntry>,
}

/// A value offered in a drop-down list, with its label.
#[derive(Clone, Copy, Debug)]
pub struct VoicePreset {
    pub name: &'static str,
    pub label: &'static str,
}

/// The names and labels of a list of presets.
pub open spec fn presets_view(p: Seq<VoicePreset>) -> Seq<(Seq<char>, Seq<char>)> {
    p.map_values(|x: VoicePreset| (x.name@, x.label@))
}

/// The titles and fields of a list of entries.
pub open spec fn entries_view(e: Seq<ConfigEntry>) -> Seq<(Seq<char>, ConfigField)> {
    e.map_values(|x: ConfigEntry| (x.title@, x.field))
}

/// The text-to-speech voices offered.
pub open spec fn voice_presets_spec() -> Seq<(Seq<char>, Seq<char>)> {
    seq![
        ("zh-CN-XiaoxiaoNeural"@, "zh-CN-XiaoxiaoNeural (nu)"@),
        ("zh-CN-XiaoyiNeural"@, "zh-CN-XiaoyiNeural (nu)"@),
        ("zh-CN-YunjianNeural"@, "zh-CN-YunjianNeural (nam)"@),
        ("zh-CN-YunxiNeural"@, "zh-CN-YunxiNeural (nam)"@),
        ("zh-CN-YunxiaNeural"@, "zh-CN-YunxiaNeural (nam)"@),
        ("zh-CN-YunyangNeural"@, "zh-CN-YunyangNeural (nam)"@),
        ("zh-CN-liaoning-XiaobeiNeural"@, "zh-CN-liaoning-XiaobeiNeural (nu)"@),
        ("zh-CN-shaanxi-XiaoniNeural"@, "zh-CN-shaanxi-XiaoniNeural (nu)"@),
        ("zh-HK-HiuGaaiNeural"@, "zh-HK-HiuGaaiNeural (nu)"@),
        ("zh-HK-HiuMaanNeural"@, "zh-HK-HiuMaanNeural (nu)"@),
        ("zh-HK-WanLungNeural"@, "zh-HK-WanLungNeural (nam)"@),
        ("zh-TW-HsiaoChenNeural"@, "zh-TW-HsiaoChenNeural (nu)"@),
    ]
}

/// The text-to-speech voices offered.
pub fn voice_presets() -> (r: Vec<VoicePreset>)
    ensures
        presets_view(r@) == voice_presets_spec(),
{
    let mut v: Vec<VoicePreset> = Vec::new();
    v.push(VoicePreset { name: "zh-CN-XiaoxiaoNeural", label: "zh-CN-XiaoxiaoNeural (nu)" });
    v.push(VoicePreset { name: "zh-CN-XiaoyiNeural", label: "zh-CN-XiaoyiNeural (nu)" });
    v.push(VoicePreset { name: "zh-CN-YunjianNeural", label: "zh-CN-YunjianNeural (nam)" });
    v.push(VoicePreset { name: "zh-CN-YunxiNeural", label: "zh-CN-YunxiNeural (nam)" });
    v.push(VoicePreset { name: "zh-CN-YunxiaNeural", label: "zh-CN-YunxiaNeural (nam)" });
    v.push(VoicePreset { name: "zh-CN-YunyangNeural", label: "zh-CN-YunyangNeural (nam)" });
    v.push(VoicePreset { name: "zh-CN-liaoning-XiaobeiNeural", label: "zh-CN-liaoning-XiaobeiNeural (nu)" });
    v.push(VoicePreset { name: "zh-CN-shaanxi-XiaoniNeural", label: "zh-CN-shaanxi-XiaoniNeural (nu)" });
    v.push(VoicePreset { name: "zh-HK-HiuGaaiNeural", label: "zh-HK-HiuGaaiNeural (nu)" });
    v.push(VoicePreset { name: "zh-HK-HiuMaanNeural", label: "zh-HK-HiuMaanNeural (nu)" });
    v.push(VoicePreset { name: "zh-HK-WanLungNeural", label: "zh-HK-WanLungNeural (nam)" });
    v.push(VoicePreset { name: "zh-TW-HsiaoChenNeural", label: "zh-TW-HsiaoChenNeural (nu)" });
    assert(presets_view(v@) =~= voice_presets_spec());
    v
}

/// The book-name fields offered.
pub open spec fn book_name_field_presets_spec() -> Seq<(Seq<char>, Seq<char>)> {
    seq![
        ("book_name"@, "Ten sach mac dinh"@),
        ("original_book_name"@, "Ten sach goc"@),
        ("book_short_name"@, "Ten sach ngan"@),
        ("ask_after_download"@, "Chon sau khi tai xong"@),
    ]
}

/// The book-name fields offered.
pub fn book_name_field_presets() -> (r: Vec<VoicePreset>)
    ensures
        presets_view(r@) == book_name_field_presets_spec(),
{
    let mut v: Vec<VoicePreset> = Vec::new();
    v.push(VoicePreset { name: "book_name", label: "Ten sach mac dinh" });
    v.push(VoicePreset { name: "original_book_name", label: "Ten sach goc" });
    v.push(VoicePreset { name: "book_short_name", label: "Ten sach ngan" });
    v.push(VoicePreset { name: "ask_after_download", label: "Chon sau khi tai xong" });
    assert(presets_view(v@) =~= book_name_field_presets_spec());
    v
}

/// The novel formats offered.
pub open spec fn novel_format_presets_spec() -> Seq<(Seq<char>, Seq<char>)> {
    seq![
        ("txt"@, "Dinh dang txt"@),
        ("epub"@, "Dinh dang epub"@),
        ("ask_after_download"@, "Chon sau khi tai xong"@),
    ]
}

/// The novel formats offered.
pub fn novel_format_presets() -> (r: Vec<VoicePreset>)
    ensures
        presets_view(r@) == novel_format_presets_spec(),
{
    let mut v: Vec<VoicePreset> = Vec::new();
    v.push(VoicePreset { name: "txt", label: "Dinh dang txt" });
    v.push(VoicePreset { name: "epub", label: "Dinh dang epub" });
    v.push(VoicePreset { name: "ask_after_download", label: "Chon sau khi tai xong" });
    assert(presets_view(v@) =~= novel_format_presets_spec());
    v
}

/// Whether a field is chosen from a drop-down list.
pub open spec fn is_combo_field(f: ConfigField) -> bool {
    f == ConfigField::AudiobookVoice || f == ConfigField::PreferredBookNameField || f
        == ConfigField::NovelFormat
}

/// Whether a field is chosen from a drop-down list.
pub fn cfg_field_is_combo(field: ConfigField) -> (r: bool)
    ensures
        r == is_combo_field(field),
{
    match field {
        ConfigField::AudiobookVoice | ConfigField::PreferredBookNameField | ConfigField::NovelFormat => true,
        _ => false,
    }
}

/// The drop-down list of a field.
pub open spec fn combo_presets_spec(f: ConfigField) -> Option<Seq<(Seq<char>, Seq<char>)>> {
    match f {
        ConfigField::AudiobookVoice => Some(voice_presets_spec()),
        ConfigField::PreferredBookNameField => Some(book_name_field_presets_spec()),
        ConfigField::NovelFormat => Some(novel_format_presets_spec()),
        _ => None,
    }
}

/// The drop-down list of a field, if it has one.
pub fn cfg_combo_presets(field: ConfigField) -> (r: Option<Vec<VoicePreset>>)
    ensures
        match r {
            Some(p) => combo_presets_spec(field) == Some(presets_view(p@)),
            None => combo_presets_spec(field) is None,
        },
{
    match field {
        ConfigField::AudiobookVoice => Some(voice_presets()),
        ConfigField::PreferredBookNameField => Some(book_name_field_presets()),
        ConfigField::NovelFormat => Some(novel_format_presets()),
        _ => None,
    }
}

/// The number of categories.
pub const CATEGORY_COUNT: usize = 6;

/// The title of category `i`.
pub open spec fn category_title(i: int) -> Seq<char> {
    if i == 0 {
        "Co ban va dinh dang"@
    } else if i == 1 {
        "Mang va dieu phoi"@
    } else if i == 2 {
        "API"@
    } else if i == 3 {
        "Binh luan doan"@
    } else if i == 4 {
        "Tai media"@
    } else {
        "Sach noi"@
    }
}

/// The entries of category `i`.
pub open spec fn category_entries(i: int) -> Seq<(Seq<char>, ConfigField)> {
    if i == 0 {
        seq![
            ("Duong dan luu"@, ConfigField::SavePath),
            ("Dinh dang sach"@, ConfigField::NovelFormat),
            ("Thut le dong dau (em)"@, ConfigField::FirstLineIndentEm),
            ("Luu file roi"@, ConfigField::BulkFiles),
            ("Tu dong don cache"@, ConfigField::AutoClearDump),
            ("Tu dong mo sau khi tai xong"@, ConfigField::AutoOpenDownloadedFiles),
            ("Cho phep ghi de file da ton tai"@, ConfigField::AllowOverwriteFiles),
            ("Truong uu tien ten sach"@, ConfigField::PreferredBookNameField),
            ("CLI UI phien ban cu"@, ConfigField::OldCli),
        ]
    } else if i == 1 {
        seq![
            ("So luong thread toi da"@, ConfigField::MaxWorkers),
            ("Timeout request (s)"@, ConfigField::RequestTimeout),
            ("So lan thu lai toi da"@, ConfigField::MaxRetries),
            ("Timeout ket noi toi thieu (s)"@, ConfigField::MinConnectTimeout),
            ("Thoi gian cho toi thieu (ms)"@, ConfigField::MinWait),
            ("Thoi gian cho toi da (ms)"@, ConfigField::MaxWait),
        ]
    } else if i == 2 {
        seq![
            ("Su dung API chinh thuc"@, ConfigField::UseOfficialApi),
            ("Danh sach API (tach boi dau phay)"@, ConfigField::ApiEndpoints),
        ]
    } else if i == 3 {
        seq![
            ("Bat binh luan doan"@, ConfigField::EnableSegmentComments),
            ("Gioi han so binh luan moi doan"@, ConfigField::SegmentCommentsTopN),
            ("So thread song song cho binh luan doan"@, ConfigField::SegmentCommentsWorkers),
        ]
    } else if i == 4 {
        seq![
            ("Tai anh binh luan"@, ConfigField::DownloadCommentImages),
            ("Tai avatar binh luan"@, ConfigField::DownloadCommentAvatars),
            ("So thread tai media"@, ConfigField::MediaDownloadWorkers),
            ("Domain anh bi chan"@, ConfigField::BlockedMediaDomains),
            ("Bat buoc chuyen sang JPEG"@, ConfigField::ForceConvertImagesToJpeg),
            ("Neu that bai thi thu lai roi chuyen JPEG"@, ConfigField::JpegRetryConvert),
            ("Chat luong JPEG (0-100)"@, ConfigField::JpegQuality),
            ("Chuyen HEIC sang JPEG"@, ConfigField::ConvertHeicToJpeg),
            ("Giu lai HEIC goc"@, ConfigField::KeepHeicOriginal),
            ("Gioi han media moi chuong"@, ConfigField::MediaLimitPerChapter),
            ("Kich thuoc media toi da (px)"@, ConfigField::MediaMaxDimensionPx),
        ]
    } else {
        seq![
            ("Bat sach noi"@, ConfigField::EnableAudiobook),
            ("Giong doc"@, ConfigField::AudiobookVoice),
            ("Loai dich vu TTS (edge/third_party)"@, ConfigField::AudiobookTtsProvider),
            ("Dia chi API TTS ben thu ba"@, ConfigField::AudiobookTtsApiUrl),
            ("Token TTS ben thu ba"@, ConfigField::AudiobookTtsApiToken),
            ("Model TTS ben thu ba"@, ConfigField::AudiobookTtsModel),
            ("Dieu chinh toc do noi"@, ConfigField::AudiobookRate),
            ("Dieu chinh am luong"@, ConfigField::AudiobookVolume),
            ("Dieu chinh cao do"@, ConfigField::AudiobookPitch),
            ("Dinh dang xuat (mp3/wav)"@, ConfigField::AudiobookFormat),
            ("So chuong tao song song"@, ConfigField::AudiobookConcurrency),
        ]
    }
}

fn category_0() -> (r: ConfigCategory)
    ensures
        r.title@ == category_title(0),
        entries_view(r.entries@) == category_entries(0),
{
    let mut v: Vec<ConfigEntry> = Vec::new();
    v.push(ConfigEntry { title: "Duong dan luu", field: ConfigField::SavePath });
    v.push(ConfigEntry { title: "Dinh dang sach", field: ConfigField::NovelFormat });
    v.push(ConfigEntry { title: "Thut le dong dau (em)", field: ConfigField::FirstLineIndentEm });
    v.push(ConfigEntry { title: "Luu file roi", field: ConfigField::BulkFiles });
    v.push(ConfigEntry { title: "Tu dong don cache", field: ConfigField::AutoClearDump });
    v.push(ConfigEntry { title: "Tu dong mo sau khi tai xong", field: ConfigField::AutoOpenDownloadedFiles });
    v.push(ConfigEntry { title: "Cho phep ghi de file da ton tai", field: ConfigField::AllowOverwriteFiles });
    v.push(ConfigEntry { title: "Truong uu tien ten sach", field: ConfigField::PreferredBookNameField });
    v.push(ConfigEntry { title: "CLI UI phien ban cu", field: ConfigField::OldCli });
    assert(entries_view(v@) =~= category_entries(0));
    ConfigCategory { title: "Co ban va dinh dang", entries: v }
}

fn category_1() -> (r: ConfigCategory)
    ensures
        r.title@ == category_title(1),
        entries_view(r.entries@) == category_entries(1),
{
    let mut v: Vec<ConfigEntry> = Vec::new();
    v.push(ConfigEntry { title: "So luong thread toi da", field: ConfigField::MaxWorkers });
    v.push(ConfigEntry { title: "Timeout request (s)", field: ConfigField::RequestTimeout });
    v.push(ConfigEntry { title: "So lan thu lai toi da", field: ConfigField::MaxRetries });
    v.push(ConfigEntry { title: "Timeout ket noi toi thieu (s)", field: ConfigField::MinConnectTimeout });
    v.push(ConfigEntry { title: "Thoi gian cho toi thieu (ms)", field: ConfigField::MinWait });
    v.push(ConfigEntry { title: "Thoi gian cho toi da (ms)", field: ConfigField::MaxWait });
    assert(entries_view(v@) =~= category_entries(1));
    ConfigCategory { title: "Mang va dieu phoi", entries: v }
}

fn category_2() -> (r: ConfigCategory)
    ensures
        r.title@ == category_title(2),
        entries_view(r.entries@) == category_entries(2),
{
    let mut v: Vec<ConfigEntry> = Vec::new();
    v.push(ConfigEntry { title: "Su dung API chinh thuc", field: ConfigField::UseOfficialApi });
    v.push(ConfigEntry { title: "Danh sach API (tach boi dau phay)", field: ConfigField::ApiEndpoints });
    assert(entries_view(v@) =~= category_entries(2));
    ConfigCategory { title: "API", entries: v }
}

fn category_3() -> (r: ConfigCategory)
    ensures
        r.title@ == category_title(3),
        entries_view(r.entries@) == category_entries(3),
{
    let mut v: Vec<ConfigEntry> = Vec::new();
    v.push(ConfigEntry { title: "Bat binh luan doan", field: ConfigField::EnableSegmentComments });
    v.push(ConfigEntry { title: "Gioi han so binh luan moi doan", field: ConfigField::SegmentCommentsTopN });
    v.push(ConfigEntry { title: "So thread song song cho binh luan doan", field: ConfigField::SegmentCommentsWorkers });
    assert(entries_view(v@) =~= category_entries(3));
    ConfigCategory { title: "Binh luan doan", entries: v }
}

fn category_4() -> (r: ConfigCategory)
    ensures
        r.title@ == category_title(4),
        entries_view(r.entries@) == category_entries(4),
{
    let mut v: Vec<ConfigEntry> = Vec::new();
    v.push(ConfigEntry { title: "Tai anh binh luan", field: ConfigField::DownloadCommentImages });
    v.push(ConfigEntry { title: "Tai avatar binh luan", field: ConfigField::DownloadCommentAvatars });
    v.push(ConfigEntry { title: "So thread tai media", field: ConfigField::MediaDownloadWorkers });
    v.push(ConfigEntry { title: "Domain anh bi chan", field: ConfigField::BlockedMediaDomains });
    v.push(ConfigEntry { title: "Bat buoc chuyen sang JPEG", field: ConfigField::ForceConvertImagesToJpeg });
    v.push(ConfigEntry { title: "Neu that bai thi thu lai roi chuyen JPEG", field: ConfigField::JpegRetryConvert });
    v.push(ConfigEntry { title: "Chat luong JPEG (0-100)", field: ConfigField::JpegQuality });
    v.push(ConfigEntry { title: "Chuyen HEIC sang JPEG", field: ConfigField::ConvertHeicToJpeg });
    v.push(ConfigEntry { title: "Giu lai HEIC goc", field: ConfigField::KeepHeicOriginal });
    v.push(ConfigEntry { title: "Gioi han media moi chuong", field: ConfigField::MediaLimitPerChapter });
    v.push(ConfigEntry { title: "Kich thuoc media toi da (px)", field: ConfigField::MediaMaxDimensionPx });
    assert(entries_view(v@) =~= category_entries(4));
    ConfigCategory { title: "Tai media", entries: v }
}

fn category_5() -> (r: ConfigCategory)
    ensures
        r.title@ == category_title(5),
        entries_view(r.entries@) == category_entries(5),
{
    let mut v: Vec<ConfigEntry> = Vec::new();
    v.push(ConfigEntry { title: "Bat sach noi", field: ConfigField::EnableAudiobook });
    v.push(ConfigEntry { title: "Giong doc", field: ConfigField::AudiobookVoice });
    v.push(ConfigEntry { title: "Loai dich vu TTS (edge/third_party)", field: ConfigField::AudiobookTtsProvider });
    v.push(ConfigEntry { title: "Dia chi API TTS ben thu ba", field: ConfigField::AudiobookTtsApiUrl });
    v.push(ConfigEntry { title: "Token TTS ben thu ba", field: ConfigField::AudiobookTtsApiToken });
    v.push(ConfigEntry { title: "Model TTS ben thu ba", field: ConfigField::AudiobookTtsModel });
    v.push(ConfigEntry { title: "Dieu chinh toc do noi", field: ConfigField::AudiobookRate });
    v.push(ConfigEntry { title: "Dieu chinh am luong", field: ConfigField::AudiobookVolume });
    v.push(ConfigEntry { title: "Dieu chinh cao do", field: ConfigField::AudiobookPitch });
    v.push(ConfigEntry { title: "Dinh dang xuat (mp3/wav)", field: ConfigField::AudiobookFormat });
    v.push(ConfigEntry { title: "So chuong tao song song", field: ConfigField::AudiobookConcurrency });
    assert(entries_view(v@) =~= category_entries(5));
    ConfigCategory { title: "Sach noi", entries: v }
}

/// The categories of the editor, in display order.
pub fn build_config_categories() -> (r: Vec<ConfigCategory>)
    ensures
        r@.len() == CATEGORY_COUNT,
        forall|i: int|
            0 <= i < CATEGORY_COUNT ==> (#[trigger] r@[i]).title@ == category_title(i)
                && entries_view(r@[i].entries@) == category_entries(i),
{
    let mut v: Vec<ConfigCategory> = Vec::new();
    v.push(category_0());
    v.push(category_1());
    v.push(category_2());
    v.push(category_3());
    v.push(category_4());
    v.push(category_5());
    v
}

/// The on/off setting behind an editor field.
pub open spec fn tui_switch(f: ConfigField) -> Option<Switch> {
    match f {
        ConfigField::BulkFiles => Some(Switch::BulkFiles),
        ConfigField::AutoClearDump => Some(Switch::AutoClearDump),
        ConfigField::AutoOpenDownloadedFiles => Some(Switch::AutoOpenDownloadedFiles),
        ConfigField::AllowOverwriteFiles => Some(Switch::AllowOverwriteFiles),
        ConfigField::OldCli => Some(Switch::OldCli),
        ConfigField::EnableSegmentComments => Some(Switch::EnableSegmentComments),
        ConfigField::UseOfficialApi => Some(Switch::UseOfficialApi),
        ConfigField::EnableAudiobook => Some(Switch::EnableAudiobook),
        ConfigField::DownloadCommentImages => Some(Switch::DownloadCommentImages),
        ConfigField::DownloadCommentAvatars => Some(Switch::DownloadCommentAvatars),
        ConfigField::ForceConvertImagesToJpeg => Some(Switch::ForceConvertImagesToJpeg),
        ConfigField::JpegRetryConvert => Some(Switch::JpegRetryConvert),
        ConfigField::ConvertHeicToJpeg => Some(Switch::ConvertHeicToJpeg),
        ConfigField::KeepHeicOriginal => Some(Switch::KeepHeicOriginal),
        _ => None,
    }
}

/// The text setting that an editor field stores as typed.
pub open spec fn tui_text(f: ConfigField) -> Option<TextSetting> {
    match f {
        ConfigField::SavePath => Some(TextSetting::SavePath),
        ConfigField::AudiobookVoice => Some(TextSetting::AudiobookVoice),
        ConfigField::AudiobookRate => Some(TextSetting::AudiobookRate),
        ConfigField::AudiobookVolume => Some(TextSetting::AudiobookVolume),
        ConfigField::AudiobookPitch => Some(TextSetting::AudiobookPitch),
        ConfigField::AudiobookTtsProvider => Some(TextSetting::AudiobookTtsProvider),
        ConfigField::AudiobookTtsApiUrl => Some(TextSetting::AudiobookTtsApiUrl),
        ConfigField::AudiobookTtsApiToken => Some(TextSetting::AudiobookTtsApiToken),
        ConfigField::AudiobookTtsModel => Some(TextSetting::AudiobookTtsModel),
        _ => None,
    }
}

fn switch_of(f: ConfigField) -> (r: Option<Switch>)
    ensures
        r == tui_switch(f),
{
    match f {
        ConfigField::BulkFiles => Some(Switch::BulkFiles),
        ConfigField::AutoClearDump => Some(Switch::AutoClearDump),
        ConfigField::AutoOpenDownloadedFiles => Some(Switch::AutoOpenDownloadedFiles),
        ConfigField::AllowOverwriteFiles => Some(Switch::AllowOverwriteFiles),
        ConfigField::OldCli => Some(Switch::OldCli),
        ConfigField::EnableSegmentComments => Some(Switch::EnableSegmentComments),
        ConfigField::UseOfficialApi => Some(Switch::UseOfficialApi),
        ConfigField::EnableAudiobook => Some(Switch::EnableAudiobook),
        ConfigField::DownloadCommentImages => Some(Switch::DownloadCommentImages),
        ConfigField::DownloadCommentAvatars => Some(Switch::DownloadCommentAvatars),
        ConfigField::ForceConvertImagesToJpeg => Some(Switch::ForceConvertImagesToJpeg),
        ConfigField::JpegRetryConvert => Some(Switch::JpegRetryConvert),
        ConfigField::ConvertHeicToJpeg => Some(Switch::ConvertHeicToJpeg),
        ConfigField::KeepHeicOriginal => Some(Switch::KeepHeicOriginal),
        _ => None,
    }
}

fn text_of(f: ConfigField) -> (r: Option<TextSetting>)
    ensures
        r == tui_text(f),
{
    match f {
        ConfigField::SavePath => Some(TextSetting::SavePath),
        ConfigField::AudiobookVoice => Some(TextSetting::AudiobookVoice),
        ConfigField::AudiobookRate => Some(TextSetting::AudiobookRate),
        ConfigField::AudiobookVolume => Some(TextSetting::AudiobookVolume),
        ConfigField::AudiobookPitch => Some(TextSetting::AudiobookPitch),
        ConfigField::AudiobookTtsProvider => Some(TextSetting::AudiobookTtsProvider),
        ConfigField::AudiobookTtsApiUrl => Some(TextSetting::AudiobookTtsApiUrl),
        ConfigField::AudiobookTtsApiToken => Some(TextSetting::AudiobookTtsApiToken),
        ConfigField::AudiobookTtsModel => Some(TextSetting::AudiobookTtsModel),
        _ => None,
    }
}

/// Whether a field is an on/off setting.
pub fn cfg_field_is_bool(field: ConfigField) -> (r: bool)
    ensures
        r == (tui_switch(field) is Some),
{
    switch_of(field).is_some()
}

/// The current value of an on/off field.
pub fn cfg_field_current_bool(config: &Config, field: ConfigField) -> (r: Option<bool>)
    ensures
        r == (match tui_switch(field) {
            Some(s) => Some(switch_value(config@, s)),
            None => None::<bool>,
        }),
{
    match switch_of(field) {
        Some(s) => Some(config.switch(s)),
        None => None,
    }
}

/// The text the editor shows for a field; the fractional fields are shown
/// by the caller.
pub open spec fn tui_display(c: ConfigView, f: ConfigField) -> Option<Seq<char>> {
    match f {
        ConfigField::NovelFormat => Some(
            if c.switches.ask_format_after_download {
                format_label("ask_after_download"@)
            } else {
                format_label(c.texts.novel_format)
            },
        ),
        ConfigField::FirstLineIndentEm => None,
        ConfigField::MinConnectTimeout => None,
        ConfigField::PreferredBookNameField => Some(book_field_label(c.texts.preferred_book_name_field)),
        ConfigField::ApiEndpoints => Some(join_comma(c.api_endpoints)),
        ConfigField::BlockedMediaDomains => Some(join_comma(c.blocked_media_domains)),
        ConfigField::AudiobookFormat => Some(c.texts.audiobook_format),
        ConfigField::MaxWorkers => Some(decimal(c.counts.max_workers as nat)),
        ConfigField::RequestTimeout => Some(decimal(c.durations.request_timeout as nat)),
        ConfigField::MaxRetries => Some(decimal(c.max_retries as nat)),
        ConfigField::MinWait => Some(decimal(c.durations.min_wait_time as nat)),
        ConfigField::MaxWait => Some(decimal(c.durations.max_wait_time as nat)),
        ConfigField::AudiobookConcurrency => Some(decimal(c.counts.audiobook_concurrency as nat)),
        ConfigField::SegmentCommentsTopN => Some(decimal(c.counts.segment_comments_top_n as nat)),
        ConfigField::SegmentCommentsWorkers => Some(decimal(c.counts.segment_comments_workers as nat)),
        ConfigField::MediaDownloadWorkers => Some(decimal(c.counts.media_download_workers as nat)),
        ConfigField::JpegQuality => Some(decimal(c.jpeg_quality as nat)),
        ConfigField::MediaLimitPerChapter => Some(decimal(c.counts.media_limit_per_chapter as nat)),
        ConfigField::MediaMaxDimensionPx => Some(decimal(c.media_max_dimension_px as nat)),
        _ => match tui_switch(f) {
            Some(s) => Some(bool_text(switch_value(c, s))),
            None => match tui_text(f) {
                Some(t) => Some(crate::config::text_value(c, t)),
                None => None,
            },
        },
    }
}

/// The text the editor shows for a field; `None` for the fractional fields.
pub fn current_cfg_value(config: &Config, field: ConfigField) -> (r: Option<String>)
    ensures
        match r {
            Some(s) => tui_display(config@, field) == Some(s@),
            None => tui_display(config@, field) is None,
        },
{
    let n = &config.counts;
    let d = &config.durations;
    match field {
        ConfigField::NovelFormat => {
            if config.switches.ask_format_after_download {
                let a = to_chars("ask_after_download");
                Some(String::from_str(novel_format_to_chinese(a.as_slice())))
            } else {
                let f = to_chars(config.texts.novel_format.as_str());
                Some(String::from_str(novel_format_to_chinese(f.as_slice())))
            }
        },
        ConfigField::FirstLineIndentEm => None,
        ConfigField::MinConnectTimeout => None,
        ConfigField::PreferredBookNameField => {
            let f = to_chars(config.texts.preferred_book_name_field.as_str());
            Some(String::from_str(book_name_field_to_chinese(f.as_slice())))
        },
        ConfigField::ApiEndpoints => Some(join_with_comma(&config.api_endpoints)),
        ConfigField::BlockedMediaDomains => Some(join_with_comma(&config.blocked_media_domains)),
        ConfigField::AudiobookFormat => Some(config.texts.audiobook_format.clone()),
        ConfigField::MaxWorkers => Some(decimal_string(n.max_workers as u64)),
        ConfigField::RequestTimeout => Some(decimal_string(d.request_timeout)),
        ConfigField::MaxRetries => Some(decimal_string(config.max_retries as u64)),
        ConfigField::MinWait => Some(decimal_string(d.min_wait_time)),
        ConfigField::MaxWait => Some(decimal_string(d.max_wait_time)),
        ConfigField::AudiobookConcurrency => Some(decimal_string(n.audiobook_concurrency as u64)),
        ConfigField::SegmentCommentsTopN => Some(decimal_string(n.segment_comments_top_n as u64)),
        ConfigField::SegmentCommentsWorkers => Some(decimal_string(n.segment_comments_workers as u64)),
        ConfigField::MediaDownloadWorkers => Some(decimal_string(n.media_download_workers as u64)),
        ConfigField::JpegQuality => Some(decimal_string(config.jpeg_quality as u64)),
        ConfigField::MediaLimitPerChapter => Some(decimal_string(n.media_limit_per_chapter as u64)),
        ConfigField::MediaMaxDimensionPx => Some(decimal_string(config.media_max_dimension_px as u64)),
        _ => match switch_of(field) {
            Some(s) => Some(bool_string(config.switch(s))),
            None => match text_of(field) {
                Some(t) => Some(config.text(t)),
                None => None,
            },
        },
    }
}

/// The on/off value a word stands for.
pub open spec fn bool_word(input: Seq<char>) -> Option<bool> {
    let l = ascii_lower(input);
    if l == "true"@ || l == "1"@ || l == "yes"@ || l == "y"@ || l == "on"@ {
        Some(true)
    } else if l == "false"@ || l == "0"@ || l == "no"@ || l == "n"@ || l == "off"@ {
        Some(false)
    } else {
        None
    }
}

/// Reads an on/off word.
pub fn parse_bool(input: &[char]) -> (r: Option<bool>)
    ensures
        r == bool_word(input@),
{
    let l = ascii_lower_chars(input);
    let l = l.as_slice();
    if chars_is(l, "true") || chars_is(l, "1") || chars_is(l, "yes") || chars_is(l, "y") || chars_is(
        l,
        "on",
    ) {
        Some(true)
    } else if chars_is(l, "false") || chars_is(l, "0") || chars_is(l, "no") || chars_is(l, "n")
        || chars_is(l, "off") {
        Some(false)
    } else {
        None
    }
}

/// Splits a typed list at `,`, `;` and line breaks, trims the entries and
/// leaves out the empty ones. The entries are non-empty, trimmed and free
/// of separators, and read back unchanged once joined by commas.
pub fn parse_string_list(input: &[char]) -> (r: Vec<String>)
    ensures
        views(r@) == list_items(input@, true),
        clean_items(views(r@), true),
        list_items(join_comma(views(r@)), true) == views(r@),
{
    proof {
        lemma_list_items_clean(input@, true);
        lemma_list_items_read_back(input@, true);
    }
    split_trimmed(input, true)
}

/// What applying an edited value came to.
#[derive(Clone, Copy, Debug, PartialEq, Eq, Structural)]
pub enum CfgApply {
    /// No field was at the given position; nothing changed.
    Skipped,
    /// The value was refused; the status line says why.
    Rejected,
    /// The settings changed and are to be saved; `true` when paragraph
    /// comments were turned off on the way.
    Saved(bool),
    /// The field is fractional: the caller parses and stores the value.
    Fractional,
}

/// What an edited value does to the settings.
pub enum TuiStep {
    /// The new settings, and whether paragraph comments were turned off.
    Saved(ConfigView, bool),
    /// The value is refused with this status message.
    Rejected(Seq<char>),
    /// The value is refused with an error.
    Invalid(ConfigError),
    /// The field is fractional.
    Fractional,
}

/// The result, settings and status line after a step.
pub open spec fn step_holds(
    r: Result<CfgApply, ConfigError>,
    c0: ConfigView,
    c1: ConfigView,
    s0: Seq<char>,
    s1: Seq<char>,
    step: TuiStep,
) -> bool {
    match step {
        TuiStep::Saved(c2, note) => r == Ok::<CfgApply, ConfigError>(CfgApply::Saved(note)) && c1
            == c2 && s1 == s0,
        TuiStep::Rejected(msg) => r == Ok::<CfgApply, ConfigError>(CfgApply::Rejected) && c1 == c0
            && s1 == msg,
        TuiStep::Invalid(e) => r == Err::<CfgApply, ConfigError>(e) && c1 == c0 && s1 == s0,
        TuiStep::Fractional => r == Ok::<CfgApply, ConfigError>(CfgApply::Fractional) && c1 == c0
            && s1 == s0,
    }
}

/// Storing an on/off value typed as a word.
pub open spec fn switch_step(c: ConfigView, s: Switch, raw: Seq<char>) -> TuiStep {
    match bool_word(raw) {
        None => TuiStep::Invalid(ConfigError::TrueFalseExpected),
        Some(v) => TuiStep::Saved(with_switch(c, s, v), false),
    }
}

/// Storing a count; a positive one refuses 0 with `msg`.
pub open spec fn count_step(
    c: ConfigView,
    s: Count,
    raw: Seq<char>,
    err: ConfigError,
    positive: bool,
    msg: Seq<char>,
) -> TuiStep {
    match parse_unsigned(raw, usize::MAX as nat) {
        None => TuiStep::Invalid(err),
        Some(n) => if positive && n == 0 {
            TuiStep::Rejected(msg)
        } else {
            TuiStep::Saved(with_count(c, s, n as usize), false)
        },
    }
}

/// Choosing the novel format, by label or by name.
pub open spec fn novel_format_step(c: ConfigView, raw: Seq<char>) -> TuiStep {
    let lower = ascii_lower(raw);
    let name = match format_of_label(raw) {
        Some(n) => Some(n),
        None => if lower == "txt"@ || lower == "epub"@ || lower == "ask_after_download"@ {
            Some(lower)
        } else {
            None
        },
    };
    match name {
        None => TuiStep::Rejected(
            "Hay chon: Dinh dang txt, Dinh dang epub hoac Chon sau khi tai xong"@,
        ),
        Some(n) => if n == "ask_after_download"@ {
            TuiStep::Saved(with_switch(c, Switch::AskFormatAfterDownload, true), false)
        } else {
            let c1 = with_text(with_switch(c, Switch::AskFormatAfterDownload, false), TextSetting::NovelFormat, n);
            if n == "txt"@ && c.switches.enable_segment_comments {
                TuiStep::Saved(with_switch(c1, Switch::EnableSegmentComments, false), true)
            } else {
                TuiStep::Saved(c1, false)
            }
        },
    }
}

/// Choosing the preferred book-name field, by label or by name.
pub open spec fn book_field_step(c: ConfigView, raw: Seq<char>) -> TuiStep {
    let lower = ascii_lower(raw);
    match book_field_of_label(raw) {
        Some(n) => TuiStep::Saved(with_text(c, TextSetting::PreferredBookNameField, n), false),
        None => if is_book_field_name(lower) {
            TuiStep::Saved(with_text(c, TextSetting::PreferredBookNameField, lower), false)
        } else {
            TuiStep::Rejected(
                "Hay chon: Ten sach mac dinh, Ten sach goc, Ten sach ngan hoac Chon sau khi tai xong"@,
            )
        },
    }
}

/// Turning paragraph comments on or off; on is refused unless the format
/// is epub.
pub open spec fn segment_comments_step(c: ConfigView, raw: Seq<char>) -> TuiStep {
    match bool_word(raw) {
        None => TuiStep::Invalid(ConfigError::TrueFalseExpected),
        Some(v) => if v && !eq_ignore_case(c.texts.novel_format, "epub"@) {
            TuiStep::Rejected("Binh luan doan chi ho tro epub, hay doi dinh dang sang epub truoc"@)
        } else {
            TuiStep::Saved(with_switch(c, Switch::EnableSegmentComments, v), false)
        },
    }
}

/// What an edited value does to the settings, for each field.
pub open spec fn tui_edit(c: ConfigView, f: ConfigField, raw: Seq<char>) -> TuiStep {
    match f {
        ConfigField::NovelFormat => novel_format_step(c, raw),
        ConfigField::FirstLineIndentEm => TuiStep::Fractional,
        ConfigField::MinConnectTimeout => TuiStep::Fractional,
        ConfigField::PreferredBookNameField => book_field_step(c, raw),
        ConfigField::EnableSegmentComments => segment_comments_step(c, raw),
        ConfigField::ApiEndpoints => TuiStep::Saved(with_list(c, ListSetting::ApiEndpoints, list_items(raw, true)), false),
        ConfigField::BlockedMediaDomains => TuiStep::Saved(
            with_list(c, ListSetting::BlockedMediaDomains, list_items(raw, true)),
            false,
        ),
        ConfigField::MaxWorkers => count_step(
            c,
            Count::MaxWorkers,
            raw,
            ConfigError::PositiveIntegerExpected,
            true,
            "So thread toi da phai lon hon 0"@,
        ),
        ConfigField::AudiobookConcurrency => count_step(
            c,
            Count::AudiobookConcurrency,
            raw,
            ConfigError::PositiveIntegerExpected,
            true,
            "So chuong xu ly song song phai lon hon 0"@,
        ),
        ConfigField::SegmentCommentsTopN => count_step(
            c,
            Count::SegmentCommentsTopN,
            raw,
            ConfigError::WholeNumberExpected,
            true,
            "Gioi han so binh luan phai lon hon 0"@,
        ),
        ConfigField::SegmentCommentsWorkers => count_step(
            c,
            Count::SegmentCommentsWorkers,
            raw,
            ConfigError::PositiveIntegerExpected,
            true,
            "So thread binh luan doan phai lon hon 0"@,
        ),
        ConfigField::MediaDownloadWorkers => count_step(
            c,
            Count::MediaDownloadWorkers,
            raw,
            ConfigError::PositiveIntegerExpected,
            true,
            "So thread media phai lon hon 0"@,
        ),
        ConfigField::MediaLimitPerChapter => count_step(
            c,
            Count::MediaLimitPerChapter,
            raw,
            ConfigError::WholeNumberExpected,
            false,
            Seq::<char>::empty(),
        ),
        ConfigField::RequestTimeout => match parse_unsigned(raw, u64::MAX as nat) {
            None => TuiStep::Invalid(ConfigError::SecondsExpected),
            Some(n) => if n == 0 {
                TuiStep::Rejected("Thoi gian timeout phai lon hon 0"@)
            } else {
                TuiStep::Saved(with_duration(c, Duration::RequestTimeout, n as u64), false)
            },
        },
        ConfigField::MinWait => match parse_unsigned(raw, u64::MAX as nat) {
            None => TuiStep::Invalid(ConfigError::MillisecondsExpected),
            Some(n) => if n > c.durations.max_wait_time {
                TuiStep::Rejected(
                    "Thoi gian cho toi thieu khong duoc lon hon thoi gian cho toi da"@,
                )
            } else {
                TuiStep::Saved(with_duration(c, Duration::MinWaitTime, n as u64), false)
            },
        },
        ConfigField::MaxWait => match parse_unsigned(raw, u64::MAX as nat) {
            None => TuiStep::Invalid(ConfigError::MillisecondsExpected),
            Some(n) => if n < c.durations.min_wait_time {
                TuiStep::Rejected(
                    "Thoi gian cho toi da phai khong nho hon thoi gian cho toi thieu"@,
                )
            } else {
                TuiStep::Saved(with_duration(c, Duration::MaxWaitTime, n as u64), false)
            },
        },
        ConfigField::MaxRetries => match parse_unsigned(raw, u32::MAX as nat) {
            None => TuiStep::Invalid(ConfigError::WholeNumberExpected),
            Some(n) => TuiStep::Saved(ConfigView { max_retries: n as u32, ..c }, false),
        },
        ConfigField::MediaMaxDimensionPx => match parse_unsigned(raw, u32::MAX as nat) {
            None => TuiStep::Invalid(ConfigError::WholeNumberExpected),
            Some(n) => TuiStep::Saved(ConfigView { media_max_dimension_px: n as u32, ..c }, false),
        },
        ConfigField::JpegQuality => match parse_unsigned(raw, u8::MAX as nat) {
            None => TuiStep::Invalid(ConfigError::PercentExpected),
            Some(n) => if n > 100 {
                TuiStep::Rejected("Chat luong JPEG phai trong khoang 0-100"@)
            } else {
                TuiStep::Saved(ConfigView { jpeg_quality: n as u8, ..c }, false)
            },
        },
        ConfigField::AudiobookFormat => {
            let lower = ascii_lower(raw);
            if lower != "mp3"@ && lower != "wav"@ {
                TuiStep::Rejected("Dinh dang chi ho tro mp3 hoac wav"@)
            } else {
                TuiStep::Saved(with_text(c, TextSetting::AudiobookFormat, lower), false)
            }
        },
        _ => match tui_switch(f) {
            Some(s) => switch_step(c, s, raw),
            None => match tui_text(f) {
                Some(t) => TuiStep::Saved(with_text(c, t, raw), false),
                None => TuiStep::Fractional,
            },
        },
    }
}

fn switch_edit(config: &mut Config, s: Switch, raw: &[char]) -> (r: Result<CfgApply, ConfigError>)
    ensures
        step_holds(r, old(config)@, final(config)@, Seq::empty(), Seq::empty(), switch_step(old(config)@, s, raw@)),
{
    match parse_bool(raw) {
        None => Err(ConfigError::TrueFalseExpected),
        Some(v) => {
            config.set_switch(s, v);
            Ok(CfgApply::Saved(false))
        },
    }
}

fn count_edit(
    config: &mut Config,
    status: &mut String,
    s: Count,
    raw: &[char],
    err: ConfigError,
    positive: bool,
    msg: &str,
) -> (r: Result<CfgApply, ConfigError>)
    ensures
        step_holds(r, old(config)@, final(config)@, old(status)@, final(status)@, count_step(old(config)@, s, raw@, err, positive, msg@)),
{
    match parse_unsigned_max(raw, usize::MAX as u64) {
        None => Err(err),
        Some(n) => {
            if positive && n == 0 {
                *status = String::from_str(msg);
                return Ok(CfgApply::Rejected);
            }
            config.set_count(s, n as usize);
            Ok(CfgApply::Saved(false))
        },
    }
}

fn novel_format_edit(config: &mut Config, status: &mut String, raw: &[char]) -> (r: Result<
    CfgApply,
    ConfigError,
>)
    ensures
        step_holds(r, old(config)@, final(config)@, old(status)@, final(status)@, novel_format_step(old(config)@, raw@)),
{
    let lower = ascii_lower_chars(raw);
    let name = match chinese_to_novel_format(raw) {
        Some(n) => n,
        None => {
            if chars_is(lower.as_slice(), "txt") || chars_is(lower.as_slice(), "epub") || chars_is(
                lower.as_slice(),
                "ask_after_download",
            ) {
                from_chars(lower.as_slice())
            } else {
                *status = String::from_str(
                    "Hay chon: Dinh dang txt, Dinh dang epub hoac Chon sau khi tai xong",
                );
                return Ok(CfgApply::Rejected);
            }
        },
    };
    let name_chars = to_chars(name.as_str());
    if chars_is(name_chars.as_slice(), "ask_after_download") {
        config.set_switch(Switch::AskFormatAfterDownload, true);
        return Ok(CfgApply::Saved(false));
    }
    let is_txt = chars_is(name_chars.as_slice(), "txt");
    let comments = config.switches.enable_segment_comments;
    config.set_switch(Switch::AskFormatAfterDownload, false);
    config.set_text(TextSetting::NovelFormat, name);
    if is_txt && comments {
        config.set_switch(Switch::EnableSegmentComments, false);
        return Ok(CfgApply::Saved(true));
    }
    Ok(CfgApply::Saved(false))
}

fn book_field_edit(config: &mut Config, status: &mut String, raw: &[char]) -> (r: Result<
    CfgApply,
    ConfigError,
>)
    ensures
        step_holds(r, old(config)@, final(config)@, old(status)@, final(status)@, book_field_step(old(config)@, raw@)),
{
    let lower = ascii_lower_chars(raw);
    match chinese_to_book_name_field(raw) {
        Some(n) => {
            config.set_text(TextSetting::PreferredBookNameField, n);
            Ok(CfgApply::Saved(false))
        },
        None => {
            if is_book_name_field(lower.as_slice()) {
                config.set_text(TextSetting::PreferredBookNameField, from_chars(lower.as_slice()));
                Ok(CfgApply::Saved(false))
            } else {
                *status = String::from_str(
                    "Hay chon: Ten sach mac dinh, Ten sach goc, Ten sach ngan hoac Chon sau khi tai xong",
                );
                Ok(CfgApply::Rejected)
            }
        },
    }
}

fn segment_comments_edit(config: &mut Config, status: &mut String, raw: &[char]) -> (r: Result<
    CfgApply,
    ConfigError,
>)
    ensures
        step_holds(r, old(config)@, final(config)@, old(status)@, final(status)@, segment_comments_step(old(config)@, raw@)),
{
    match parse_bool(raw) {
        None => Err(ConfigError::TrueFalseExpected),
        Some(v) => {
            let fmt = to_chars(config.texts.novel_format.as_str());
            if v && !chars_eq_ignore_case(fmt.as_slice(), "epub") {
                *status = String::from_str(
                    "Binh luan doan chi ho tro epub, hay doi dinh dang sang epub truoc",
                );
                return Ok(CfgApply::Rejected);
            }
            config.set_switch(Switch::EnableSegmentComments, v);
            Ok(CfgApply::Saved(false))
        },
    }
}

fn duration_edit(config: &mut Config, status: &mut String, f: ConfigField, raw: &[char]) -> (r: Result<
    CfgApply,
    ConfigError,
>)
    requires
        f == ConfigField::RequestTimeout || f == ConfigField::MinWait || f == ConfigField::MaxWait,
    ensures
        step_holds(r, old(config)@, final(config)@, old(status)@, final(status)@, tui_edit(old(config)@, f, raw@)),
{
    let parsed = parse_unsigned_max(raw, u64::MAX);
    match f {
        ConfigField::RequestTimeout => match parsed {
            None => Err(ConfigError::SecondsExpected),
            Some(n) => {
                if n == 0 {
                    *status = String::from_str("Thoi gian timeout phai lon hon 0");
                    return Ok(CfgApply::Rejected);
                }
                config.set_duration(Duration::RequestTimeout, n);
                Ok(CfgApply::Saved(false))
            },
        },
        ConfigField::MinWait => match parsed {
            None => Err(ConfigError::MillisecondsExpected),
            Some(n) => {
                if n > config.durations.max_wait_time {
                    *status = String::from_str(
                        "Thoi gian cho toi thieu khong duoc lon hon thoi gian cho toi da",
                    );
                    return Ok(CfgApply::Rejected);
                }
                config.set_duration(Duration::MinWaitTime, n);
                Ok(CfgApply::Saved(false))
            },
        },
        _ => match parsed {
            None => Err(ConfigError::MillisecondsExpected),
            Some(n) => {
                if n < config.durations.min_wait_time {
                    *status = String::from_str(
                        "Thoi gian cho toi da phai khong nho hon thoi gian cho toi thieu",
                    );
                    return Ok(CfgApply::Rejected);
                }
                config.set_duration(Duration::MaxWaitTime, n);
                Ok(CfgApply::Saved(false))
            },
        },
    }
}

fn small_number_edit(config: &mut Config, status: &mut String, f: ConfigField, raw: &[char]) -> (r: Result<
    CfgApply,
    ConfigError,
>)
    requires
        f == ConfigField::MaxRetries || f == ConfigField::MediaMaxDimensionPx || f
            == ConfigField::JpegQuality,
    ensures
        step_holds(r, old(config)@, final(config)@, old(status)@, final(status)@, tui_edit(old(config)@, f, raw@)),
{
    match f {
        ConfigField::MaxRetries => match parse_unsigned_max(raw, u32::MAX as u64) {
            None => Err(ConfigError::WholeNumberExpected),
            Some(n) => {
                config.set_max_retries(n as u32);
                Ok(CfgApply::Saved(false))
            },
        },
        ConfigField::MediaMaxDimensionPx => match parse_unsigned_max(raw, u32::MAX as u64) {
            None => Err(ConfigError::WholeNumberExpected),
            Some(n) => {
                config.set_media_max_dimension(n as u32);
                Ok(CfgApply::Saved(false))
            },
        },
        _ => match parse_unsigned_max(raw, u8::MAX as u64) {
            None => Err(ConfigError::PercentExpected),
            Some(n) => {
                if n > 100 {
                    *status = String::from_str("Chat luong JPEG phai trong khoang 0-100");
                    return Ok(CfgApply::Rejected);
                }
                config.set_jpeg_quality(n as u8);
                Ok(CfgApply::Saved(false))
            },
        },
    }
}

fn audio_format_edit(config: &mut Config, status: &mut String, raw: &[char]) -> (r: Result<
    CfgApply,
    ConfigError,
>)
    ensures
        step_holds(r, old(config)@, final(config)@, old(status)@, final(status)@, tui_edit(old(config)@, ConfigField::AudiobookFormat, raw@)),
{
    let lower = ascii_lower_chars(raw);
    if !chars_is(lower.as_slice(), "mp3") && !chars_is(lower.as_slice(), "wav") {
        *status = String::from_str("Dinh dang chi ho tro mp3 hoac wav");
        return Ok(CfgApply::Rejected);
    }
    config.set_text(TextSetting::AudiobookFormat, from_chars(lower.as_slice()));
    Ok(CfgApply::Saved(false))
}

/// Applies a trimmed edited value to the field `field`: the settings change,
/// or the status line says why they did not, or an error comes back.
pub fn apply_field_edit(config: &mut Config, status: &mut String, field: ConfigField, raw: &[char]) -> (r: Result<
    CfgApply,
    ConfigError,
>)
    ensures
        step_holds(r, old(config)@, final(config)@, old(status)@, final(status)@, tui_edit(old(config)@, field, raw@)),
{
    match field {
        ConfigField::NovelFormat => novel_format_edit(config, status, raw),
        ConfigField::FirstLineIndentEm => Ok(CfgApply::Fractional),
        ConfigField::MinConnectTimeout => Ok(CfgApply::Fractional),
        ConfigField::PreferredBookNameField => book_field_edit(config, status, raw),
        ConfigField::EnableSegmentComments => segment_comments_edit(config, status, raw),
        ConfigField::ApiEndpoints => {
            config.set_list_setting(ListSetting::ApiEndpoints, parse_string_list(raw));
            Ok(CfgApply::Saved(false))
        },
        ConfigField::BlockedMediaDomains => {
            config.set_list_setting(ListSetting::BlockedMediaDomains, parse_string_list(raw));
            Ok(CfgApply::Saved(false))
        },
        ConfigField::MaxWorkers => count_edit(
            config,
            status,
            Count::MaxWorkers,
            raw,
            ConfigError::PositiveIntegerExpected,
            true,
            "So thread toi da phai lon hon 0",
        ),
        ConfigField::AudiobookConcurrency => count_edit(
            config,
            status,
            Count::AudiobookConcurrency,
            raw,
            ConfigError::PositiveIntegerExpected,
            true,
            "So chuong xu ly song song phai lon hon 0",
        ),
        ConfigField::SegmentCommentsTopN => count_edit(
            config,
            status,
            Count::SegmentCommentsTopN,
            raw,
            ConfigError::WholeNumberExpected,
            true,
            "Gioi han so binh luan phai lon hon 0",
        ),
        ConfigField::SegmentCommentsWorkers => count_edit(
            config,
            status,
            Count::SegmentCommentsWorkers,
            raw,
            ConfigError::PositiveIntegerExpected,
            true,
            "So thread binh luan doan phai lon hon 0",
        ),
        ConfigField::MediaDownloadWorkers => count_edit(
            config,
            status,
            Count::MediaDownloadWorkers,
            raw,
            ConfigError::PositiveIntegerExpected,
            true,
            "So thread media phai lon hon 0",
        ),
        ConfigField::MediaLimitPerChapter => count_edit(
            config,
            status,
            Count::MediaLimitPerChapter,
            raw,
            ConfigError::WholeNumberExpected,
            false,
            "",
        ),
        ConfigField::RequestTimeout => duration_edit(config, status, field, raw),
        ConfigField::MinWait => duration_edit(config, status, field, raw),
        ConfigField::MaxWait => duration_edit(config, status, field, raw),
        ConfigField::MaxRetries => small_number_edit(config, status, field, raw),
        ConfigField::MediaMaxDimensionPx => small_number_edit(config, status, field, raw),
        ConfigField::JpegQuality => small_number_edit(config, status, field, raw),
        ConfigField::AudiobookFormat => audio_format_edit(config, status, raw),
        _ => match switch_of(field) {
            Some(s) => switch_edit(config, s, raw),
            None => match text_of(field) {
                Some(t) => {
                    config.set_text(t, from_chars(raw));
                    Ok(CfgApply::Saved(false))
                },
                None => Ok(CfgApply::Fractional),
            },
        },
    }
}

/// The editor's state: the settings, the categories and the selection, the
/// field being edited and its text, and the status line.
pub struct CfgEditor {
    pub config: Config,
    pub categories: Vec<ConfigCategory>,
    pub selected_category: Option<usize>,
    pub selected_entry: Option<usize>,
    pub editing: Option<(usize, usize)>,
    pub edit_buffer: String,
    pub bool_choice: Option<usize>,
    pub combo_focus_list: bool,
    pub combo_choice: Option<usize>,
    pub status: String,
}

/// The entry at a category and position, if there is one.
pub open spec fn entry_at(cats: Seq<ConfigCategory>, ci: int, ei: int) -> Option<ConfigEntry> {
    if 0 <= ci < cats.len() && 0 <= ei < cats[ci].entries@.len() {
        Some(cats[ci].entries@[ei])
    } else {
        None
    }
}

fn find_entry(cats: &Vec<ConfigCategory>, ci: usize, ei: usize) -> (r: Option<ConfigEntry>)
    ensures
        r == entry_at(cats@, ci as int, ei as int),
{
    if ci < cats.len() && ei < cats[ci].entries.len() {
        Some(cats[ci].entries[ei])
    } else {
        None
    }
}

/// Everything but the settings and the status line is unchanged.
pub open spec fn same_but_config_status(a: CfgEditor, b: CfgEditor) -> bool {
    &&& a.categories == b.categories
    &&& a.selected_category == b.selected_category
    &&& a.selected_entry == b.selected_entry
    &&& a.editing == b.editing
    &&& a.edit_buffer == b.edit_buffer
    &&& a.bool_choice == b.bool_choice
    &&& a.combo_focus_list == b.combo_focus_list
    &&& a.combo_choice == b.combo_choice
}

/// Applies the edited text, trimmed, to the entry at `cat_idx`,
/// `entry_idx`. Where no entry is there nothing changes; a changed setting
/// comes back as `Saved`, to be written to `config.yml`.
pub fn apply_cfg_edit(editor: &mut CfgEditor, cat_idx: usize, entry_idx: usize) -> (r: Result<
    CfgApply,
    ConfigError,
>)
    ensures
        match entry_at(old(editor).categories@, cat_idx as int, entry_idx as int) {
            None => r == Ok::<CfgApply, ConfigError>(CfgApply::Skipped) && final(editor).config@
                == old(editor).config@ && final(editor).status@ == old(editor).status@
                && same_but_config_status(*final(editor), *old(editor)),
            Some(e) => step_holds(
                r,
                old(editor).config@,
                final(editor).config@,
                old(editor).status@,
                final(editor).status@,
                tui_edit(old(editor).config@, e.field, trim(old(editor).edit_buffer@)),
            ) && same_but_config_status(*final(editor), *old(editor)),
        },
{
    match find_entry(&editor.categories, cat_idx, entry_idx) {
        None => Ok(CfgApply::Skipped),
        Some(e) => {
            let buf = to_chars(editor.edit_buffer.as_str());
            let raw = trim_chars(buf.as_slice());
            apply_field_edit(&mut editor.config, &mut editor.status, e.field, raw.as_slice())
        },
    }
}

/// The note added when paragraph comments were turned off.
pub open spec fn saved_text(title: Seq<char>, note: bool) -> Seq<char> {
    if note {
        "Da luu: "@ + title + " (Da tat binh luan doan de tuong thich txt)"@
    } else {
        "Da luu: "@ + title
    }
}

/// The status line once an edited field has been saved.
pub fn saved_status(title: &str, note: bool) -> (r: String)
    ensures
        r@ == saved_text(title@, note),
{
    let mut s = String::from_str("Da luu: ");
    s.append(title);
    if note {
        s.append(" (Da tat binh luan doan de tuong thich txt)");
    }
    s
}

/// The first preset whose name equals the text, ignoring ASCII case.
pub open spec fn preset_index(p: Seq<(Seq<char>, Seq<char>)>, text: Seq<char>) -> Option<nat>
    decreases p.len(),
{
    if p.len() == 0 {
        None
    } else if eq_ignore_case(p[0].0, text) {
        Some(0)
    } else {
        match preset_index(p.drop_first(), text) {
            Some(i) => Some(i + 1),
            None => None,
        }
    }
}

proof fn lemma_preset_index_hit(p: Seq<(Seq<char>, Seq<char>)>, text: Seq<char>, i: int)
    requires
        0 <= i < p.len(),
        forall|k: int| 0 <= k < i ==> !eq_ignore_case(#[trigger] p[k].0, text),
        eq_ignore_case(p[i].0, text),
    ensures
        preset_index(p, text) == Some(i as nat),
    decreases i,
{
    if i > 0 {
        let q = p.drop_first();
        assert forall|k: int| 0 <= k < i - 1 implies !eq_ignore_case(#[trigger] q[k].0, text) by {
            assert(q[k] == p[k + 1]);
        }
        assert(q[i - 1] == p[i]);
        assert(!eq_ignore_case(p[0].0, text));
        lemma_preset_index_hit(q, text, i - 1);
    }
}

proof fn lemma_preset_index_miss(p: Seq<(Seq<char>, Seq<char>)>, text: Seq<char>)
    requires
        forall|k: int| 0 <= k < p.len() ==> !eq_ignore_case(#[trigger] p[k].0, text),
    ensures
        preset_index(p, text) is None,
    decreases p.len(),
{
    if p.len() > 0 {
        let q = p.drop_first();
        assert forall|k: int| 0 <= k < q.len() implies !eq_ignore_case(#[trigger] q[k].0, text) by {
            assert(q[k] == p[k + 1]);
        }
        assert(!eq_ignore_case(p[0].0, text));
        lemma_preset_index_miss(q, text);
    }
}

fn find_preset(p: &Vec<VoicePreset>, text: &[char]) -> (r: Option<usize>)
    ensures
        match r {
            Some(i) => preset_index(presets_view(p@), text@) == Some(i as nat),
            None => preset_index(presets_view(p@), text@) is None,
        },
{
    let ghost pv = presets_view(p@);
    let n = p.len();
    for i in 0..n
        invariant
            n == p@.len(),
            pv == presets_view(p@),
            pv.len() == n,
            forall|k: int| 0 <= k < i ==> !eq_ignore_case(#[trigger] pv[k].0, text@),
    {
        let hit = chars_eq_ignore_case(text, p[i].name);
        proof {
            assert(pv[i as int].0 == p@[i as int].name@);
        }
        if hit {
            proof {
                assert(eq_ignore_case(pv[i as int].0, text@));
                lemma_preset_index_hit(pv, text@, i as int);
            }
            return Some(i);
        }
        proof {
            assert(!eq_ignore_case(pv[i as int].0, text@));
        }
    }
    proof {
        lemma_preset_index_miss(pv, text@);
    }
    None
}

/// How starting an edit went.
#[derive(Clone, Copy, Debug, PartialEq, Eq, Structural)]
pub enum StartEdit {
    /// Nothing is selected: nothing changed.
    Ignored,
    /// Editing started with the current value in the buffer.
    Started,
    /// Editing started on a fractional field: the caller puts its value in
    /// the buffer.
    StartedFractional,
}

/// The status line while a field is edited.
pub open spec fn editing_text(category: Seq<char>, entry: Seq<char>) -> Seq<char> {
    "Dang chinh sua ["@ + category + "]: "@ + entry
}

/// The buffer an edit starts from: the value shown for the field, or
/// nothing for a fractional field.
pub open spec fn start_buffer(c: ConfigView, field: ConfigField) -> Seq<char> {
    match tui_display(c, field) {
        Some(t) => t,
        None => Seq::<char>::empty(),
    }
}

/// The on/off choice preselected for a field: 0 for on, 1 for off.
pub open spec fn start_bool_choice(c: ConfigView, field: ConfigField, prev: Option<usize>) -> Option<
    usize,
> {
    match tui_switch(field) {
        Some(s) => Some(if switch_value(c, s) { 0usize } else { 1usize }),
        None => prev,
    }
}

/// The preset preselected for a drop-down field: the one named like the
/// buffer, else the first.
pub open spec fn start_combo_choice(field: ConfigField, buffer: Seq<char>, prev: Option<usize>) -> Option<
    usize,
> {
    if is_combo_field(field) {
        Some(
            match preset_index(combo_presets_spec(field).unwrap(), buffer) {
                Some(i) => i as usize,
                None => 0usize,
            },
        )
    } else {
        prev
    }
}

/// The editor once editing of entry `e` at `ci`, `ei` has started.
pub open spec fn edit_started(o: CfgEditor, f: CfgEditor, ci: usize, ei: usize, e: ConfigEntry) -> bool {
    &&& f.editing == Some((ci, ei))
    &&& f.edit_buffer@ == start_buffer(o.config@, e.field)
    &&& f.bool_choice == start_bool_choice(o.config@, e.field, o.bool_choice)
    &&& f.combo_focus_list == (is_combo_field(e.field) || o.combo_focus_list)
    &&& f.combo_choice == start_combo_choice(e.field, f.edit_buffer@, o.combo_choice)
    &&& f.status@ == editing_text(o.categories@[ci as int].title@, e.title@)
    &&& f.config@ == o.config@
    &&& f.categories == o.categories
    &&& f.selected_category == o.selected_category
    &&& f.selected_entry == o.selected_entry
}

/// The entry selected in the editor, with its position.
pub open spec fn selected_entry_of(o: CfgEditor) -> Option<(usize, usize, ConfigEntry)> {
    match (o.selected_category, o.selected_entry) {
        (Some(ci), Some(ei)) => match entry_at(o.categories@, ci as int, ei as int) {
            Some(e) => Some((ci, ei, e)),
            None => None,
        },
        _ => None,
    }
}

fn buffer_for(config: &Config, field: ConfigField) -> (r: (String, StartEdit))
    ensures
        r.0@ == start_buffer(config@, field),
        r.1 == (if tui_display(config@, field) is Some {
            StartEdit::Started
        } else {
            StartEdit::StartedFractional
        }),
{
    match current_cfg_value(config, field) {
        Some(v) => (v, StartEdit::Started),
        None => (String::new(), StartEdit::StartedFractional),
    }
}

fn bool_choice_for(config: &Config, field: ConfigField, prev: Option<usize>) -> (r: Option<usize>)
    ensures
        r == start_bool_choice(config@, field, prev),
{
    match cfg_field_current_bool(config, field) {
        Some(true) => Some(0),
        Some(false) => Some(1),
        None => prev,
    }
}

fn combo_choice_for(field: ConfigField, buffer: &String, prev: Option<usize>) -> (r: Option<usize>)
    ensures
        r == start_combo_choice(field, buffer@, prev),
{
    if cfg_field_is_combo(field) {
        match cfg_combo_presets(field) {
            Some(presets) => {
                let buf = to_chars(buffer.as_str());
                match find_preset(&presets, buf.as_slice()) {
                    Some(i) => Some(i),
                    None => Some(0),
                }
            },
            None => prev,
        }
    } else {
        prev
    }
}

fn editing_status(category: &str, entry: &str) -> (r: String)
    ensures
        r@ == editing_text(category@, entry@),
{
    let mut status = String::from_str("Dang chinh sua [");
    status.append(category);
    status.append("]: ");
    status.append(entry);
    status
}

/// Starts editing the selected entry: its current value goes to the
/// buffer, an on/off field preselects its value (0 on, 1 off), a drop-down
/// field preselects the preset named like the value (or the first), and
/// the status line names the entry. With no entry selected nothing
/// changes.
pub fn start_cfg_edit(editor: &mut CfgEditor) -> (r: StartEdit)
    ensures
        match selected_entry_of(*old(editor)) {
            Some((ci, ei, e)) => {
                &&& r == (if tui_display(old(editor).config@, e.field) is Some {
                    StartEdit::Started
                } else {
                    StartEdit::StartedFractional
                })
                &&& edit_started(*old(editor), *final(editor), ci, ei, e)
            },
            None => r == StartEdit::Ignored && *final(editor) == *old(editor),
        },
{
    let ci = match editor.selected_category {
        Some(c) => c,
        None => return StartEdit::Ignored,
    };
    let ei = match editor.selected_entry {
        Some(e) => e,
        None => return StartEdit::Ignored,
    };
    let entry = match find_entry(&editor.categories, ci, ei) {
        Some(e) => e,
        None => return StartEdit::Ignored,
    };
    let cat_title = editor.categories[ci].title;
    let (buffer, started) = buffer_for(&editor.config, entry.field);
    let bool_choice = bool_choice_for(&editor.config, entry.field, editor.bool_choice);
    let combo_choice = combo_choice_for(entry.field, &buffer, editor.combo_choice);
    let status = editing_status(cat_title, entry.title);
    editor.editing = Some((ci, ei));
    editor.edit_buffer = buffer;
    editor.bool_choice = bool_choice;
    if cfg_field_is_combo(entry.field) {
        editor.combo_focus_list = true;
    }
    editor.combo_choice = combo_choice;
    editor.status = status;
    started
}

// ----------------------------------------------------------------------
// What every edit keeps
// ----------------------------------------------------------------------

/// Paragraph comments are only on with the epub format.
pub open spec fn comments_on_epub(c: ConfigView) -> bool {
    c.switches.enable_segment_comments ==> eq_ignore_case(c.texts.novel_format, "epub"@)
}

/// An edit in the editor never leaves the shortest wait above the
/// longest.
pub proof fn lemma_tui_edit_keeps_wait_order(c: ConfigView, f: ConfigField, raw: Seq<char>)
    requires
        wait_ordered(c),
    ensures
        tui_edit(c, f, raw) matches TuiStep::Saved(c2, _) ==> wait_ordered(c2),
{
    match f {
        ConfigField::SavePath => {},
        ConfigField::NovelFormat => {},
        ConfigField::BulkFiles => {},
        ConfigField::AutoClearDump => {},
        ConfigField::AutoOpenDownloadedFiles => {},
        ConfigField::AllowOverwriteFiles => {},
        ConfigField::PreferredBookNameField => {},
        ConfigField::OldCli => {},
        ConfigField::FirstLineIndentEm => {},
        ConfigField::EnableSegmentComments => {},
        ConfigField::UseOfficialApi => {},
        ConfigField::ApiEndpoints => {},
        ConfigField::MaxWorkers => {},
        ConfigField::RequestTimeout => {},
        ConfigField::MaxRetries => {},
        ConfigField::MinConnectTimeout => {},
        ConfigField::MinWait => {},
        ConfigField::MaxWait => {},
        ConfigField::EnableAudiobook => {},
        ConfigField::AudiobookVoice => {},
        ConfigField::AudiobookRate => {},
        ConfigField::AudiobookVolume => {},
        ConfigField::AudiobookPitch => {},
        ConfigField::AudiobookFormat => {},
        ConfigField::AudiobookConcurrency => {},
        ConfigField::AudiobookTtsProvider => {},
        ConfigField::AudiobookTtsApiUrl => {},
        ConfigField::AudiobookTtsApiToken => {},
        ConfigField::AudiobookTtsModel => {},
        ConfigField::SegmentCommentsTopN => {},
        ConfigField::SegmentCommentsWorkers => {},
        ConfigField::DownloadCommentImages => {},
        ConfigField::DownloadCommentAvatars => {},
        ConfigField::MediaDownloadWorkers => {},
        ConfigField::BlockedMediaDomains => {},
        ConfigField::ForceConvertImagesToJpeg => {},
        ConfigField::JpegRetryConvert => {},
        ConfigField::JpegQuality => {},
        ConfigField::ConvertHeicToJpeg => {},
        ConfigField::KeepHeicOriginal => {},
        ConfigField::MediaLimitPerChapter => {},
        ConfigField::MediaMaxDimensionPx => {},
    }
}

/// An edit in the editor never leaves the JPEG quality above 100.
pub proof fn lemma_tui_edit_keeps_jpeg_quality(c: ConfigView, f: ConfigField, raw: Seq<char>)
    requires
        jpeg_quality_valid(c),
    ensures
        tui_edit(c, f, raw) matches TuiStep::Saved(c2, _) ==> jpeg_quality_valid(c2),
{
}

proof fn lemma_novel_format_step_keeps_comments(c: ConfigView, raw: Seq<char>)
    requires
        comments_on_epub(c),
    ensures
        novel_format_step(c, raw) matches TuiStep::Saved(c2, _) ==> comments_on_epub(c2),
{
    reveal_strlit("txt");
    reveal_strlit("epub");
    reveal_strlit("ask_after_download");
    assert("txt"@ != "epub"@) by {
        assert("txt"@.len() != "epub"@.len());
    }
    assert("ask_after_download"@ != "epub"@) by {
        assert("ask_after_download"@.len() != "epub"@.len());
    }
    assert("txt"@ != "ask_after_download"@) by {
        assert("txt"@.len() != "ask_after_download"@.len());
    }
}

/// An edit in the editor never leaves paragraph comments on with another
/// format than epub: turning them on is refused elsewhere, and choosing
/// txt turns them off.
pub proof fn lemma_tui_edit_keeps_comments_on_epub(c: ConfigView, f: ConfigField, raw: Seq<char>)
    requires
        comments_on_epub(c),
    ensures
        tui_edit(c, f, raw) matches TuiStep::Saved(c2, _) ==> comments_on_epub(c2),
{
    match f {
        ConfigField::SavePath => {},
        ConfigField::NovelFormat => lemma_novel_format_step_keeps_comments(c, raw),
        ConfigField::BulkFiles => {},
        ConfigField::AutoClearDump => {},
        ConfigField::AutoOpenDownloadedFiles => {},
        ConfigField::AllowOverwriteFiles => {},
        ConfigField::PreferredBookNameField => {},
        ConfigField::OldCli => {},
        ConfigField::FirstLineIndentEm => {},
        ConfigField::EnableSegmentComments => {},
        ConfigField::UseOfficialApi => {},
        ConfigField::ApiEndpoints => {},
        ConfigField::MaxWorkers => {},
        ConfigField::RequestTimeout => {},
        ConfigField::MaxRetries => {},
        ConfigField::MinConnectTimeout => {},
        ConfigField::MinWait => {},
        ConfigField::MaxWait => {},
        ConfigField::EnableAudiobook => {},
        ConfigField::AudiobookVoice => {},
        ConfigField::AudiobookRate => {},
        ConfigField::AudiobookVolume => {},
        ConfigField::AudiobookPitch => {},
        ConfigField::AudiobookFormat => {},
        ConfigField::AudiobookConcurrency => {},
        ConfigField::AudiobookTtsProvider => {},
        ConfigField::AudiobookTtsApiUrl => {},
        ConfigField::AudiobookTtsApiToken => {},
        ConfigField::AudiobookTtsModel => {},
        ConfigField::SegmentCommentsTopN => {},
        ConfigField::SegmentCommentsWorkers => {},
        ConfigField::DownloadCommentImages => {},
        ConfigField::DownloadCommentAvatars => {},
        ConfigField::MediaDownloadWorkers => {},
        ConfigField::BlockedMediaDomains => {},
        ConfigField::ForceConvertImagesToJpeg => {},
        ConfigField::JpegRetryConvert => {},
        ConfigField::JpegQuality => {},
        ConfigField::ConvertHeicToJpeg => {},
        ConfigField::KeepHeicOriginal => {},
        ConfigField::MediaLimitPerChapter => {},
        ConfigField::MediaMaxDimensionPx => {},
    }
}

proof fn lemma_bool_word_of_text(b: bool)
    ensures
        bool_word(bool_text(b)) == Some(b),
{
    reveal_strlit("true");
    reveal_strlit("false");
    reveal_strlit("1");
    reveal_strlit("yes");
    reveal_strlit("y");
    reveal_strlit("on");
    assert(ascii_lower("true"@) =~= "true"@);
    assert(ascii_lower("false"@) =~= "false"@);
}

/// The on/off words, in any ASCII case: `true`, `1`, `yes`, `y` and `on`
/// read as on, `false`, `0`, `no`, `n` and `off` as off, and no other word
/// is read at all.
pub proof fn lemma_bool_words(input: Seq<char>)
    ensures
        ({
            let l = ascii_lower(input);
            (l == seq!['t', 'r', 'u', 'e'] || l == seq!['1'] || l == seq!['y', 'e', 's'] || l
                == seq!['y'] || l == seq!['o', 'n']) ==> bool_word(input) == Some(true)
        }),
        ({
            let l = ascii_lower(input);
            (l == seq!['f', 'a', 'l', 's', 'e'] || l == seq!['0'] || l == seq!['n', 'o'] || l
                == seq!['n'] || l == seq!['o', 'f', 'f']) ==> bool_word(input) == Some(false)
        }),
        ({
            let l = ascii_lower(input);
            bool_word(input) is Some ==> (l == seq!['t', 'r', 'u', 'e'] || l == seq!['1'] || l
                == seq!['y', 'e', 's'] || l == seq!['y'] || l == seq!['o', 'n'] || l == seq![
                'f',
                'a',
                'l',
                's',
                'e',
            ] || l == seq!['0'] || l == seq!['n', 'o'] || l == seq!['n'] || l == seq![
                'o',
                'f',
                'f',
            ])
        }),
{
    reveal_strlit("true");
    reveal_strlit("1");
    reveal_strlit("yes");
    reveal_strlit("y");
    reveal_strlit("on");
    reveal_strlit("false");
    reveal_strlit("0");
    reveal_strlit("no");
    reveal_strlit("n");
    reveal_strlit("off");
    assert("true"@ =~= seq!['t', 'r', 'u', 'e']);
    assert("1"@ =~= seq!['1']);
    assert("yes"@ =~= seq!['y', 'e', 's']);
    assert("y"@ =~= seq!['y']);
    assert("on"@ =~= seq!['o', 'n']);
    assert("false"@ =~= seq!['f', 'a', 'l', 's', 'e']);
    assert("0"@ =~= seq!['0']);
    assert("no"@ =~= seq!['n', 'o']);
    assert("n"@ =~= seq!['n']);
    assert("off"@ =~= seq!['o', 'f', 'f']);
    let l = ascii_lower(input);
    if l == "false"@ || l == "0"@ || l == "no"@ || l == "n"@ || l == "off"@ {
        assert(l[0] == 'f' || l[0] == '0' || l[0] == 'n' || l[0] == 'o');
        if l == "off"@ {
            assert(l.len() == 3 && l[0] == 'o');
        }
        assert(!(l == "true"@ || l == "1"@ || l == "yes"@ || l == "y"@ || l == "on"@));
    }
}

proof fn lemma_tui_display_switch(c: ConfigView, f: ConfigField)
    requires
        tui_switch(f) is Some,
    ensures
        tui_display(c, f) == Some(bool_text(switch_value(c, tui_switch(f).unwrap()))),
{
    match f {
        ConfigField::SavePath => {},
        ConfigField::NovelFormat => {},
        ConfigField::BulkFiles => {},
        ConfigField::AutoClearDump => {},
        ConfigField::AutoOpenDownloadedFiles => {},
        ConfigField::AllowOverwriteFiles => {},
        ConfigField::PreferredBookNameField => {},
        ConfigField::OldCli => {},
        ConfigField::FirstLineIndentEm => {},
        ConfigField::EnableSegmentComments => {},
        ConfigField::UseOfficialApi => {},
        ConfigField::ApiEndpoints => {},
        ConfigField::MaxWorkers => {},
        ConfigField::RequestTimeout => {},
        ConfigField::MaxRetries => {},
        ConfigField::MinConnectTimeout => {},
        ConfigField::MinWait => {},
        ConfigField::MaxWait => {},
        ConfigField::EnableAudiobook => {},
        ConfigField::AudiobookVoice => {},
        ConfigField::AudiobookRate => {},
        ConfigField::AudiobookVolume => {},
        ConfigField::AudiobookPitch => {},
        ConfigField::AudiobookFormat => {},
        ConfigField::AudiobookConcurrency => {},
        ConfigField::AudiobookTtsProvider => {},
        ConfigField::AudiobookTtsApiUrl => {},
        ConfigField::AudiobookTtsApiToken => {},
        ConfigField::AudiobookTtsModel => {},
        ConfigField::SegmentCommentsTopN => {},
        ConfigField::SegmentCommentsWorkers => {},
        ConfigField::DownloadCommentImages => {},
        ConfigField::DownloadCommentAvatars => {},
        ConfigField::MediaDownloadWorkers => {},
        ConfigField::BlockedMediaDomains => {},
        ConfigField::ForceConvertImagesToJpeg => {},
        ConfigField::JpegRetryConvert => {},
        ConfigField::JpegQuality => {},
        ConfigField::ConvertHeicToJpeg => {},
        ConfigField::KeepHeicOriginal => {},
        ConfigField::MediaLimitPerChapter => {},
        ConfigField::MediaMaxDimensionPx => {},
    }
}

proof fn lemma_tui_edit_switch(c: ConfigView, f: ConfigField, raw: Seq<char>)
    requires
        tui_switch(f) is Some,
        f != ConfigField::EnableSegmentComments,
    ensures
        tui_edit(c, f, raw) == switch_step(c, tui_switch(f).unwrap(), raw),
{
    match f {
        ConfigField::SavePath => {},
        ConfigField::NovelFormat => {},
        ConfigField::BulkFiles => {},
        ConfigField::AutoClearDump => {},
        ConfigField::AutoOpenDownloadedFiles => {},
        ConfigField::AllowOverwriteFiles => {},
        ConfigField::PreferredBookNameField => {},
        ConfigField::OldCli => {},
        ConfigField::FirstLineIndentEm => {},
        ConfigField::EnableSegmentComments => {},
        ConfigField::UseOfficialApi => {},
        ConfigField::ApiEndpoints => {},
        ConfigField::MaxWorkers => {},
        ConfigField::RequestTimeout => {},
        ConfigField::MaxRetries => {},
        ConfigField::MinConnectTimeout => {},
        ConfigField::MinWait => {},
        ConfigField::MaxWait => {},
        ConfigField::EnableAudiobook => {},
        ConfigField::AudiobookVoice => {},
        ConfigField::AudiobookRate => {},
        ConfigField::AudiobookVolume => {},
        ConfigField::AudiobookPitch => {},
        ConfigField::AudiobookFormat => {},
        ConfigField::AudiobookConcurrency => {},
        ConfigField::AudiobookTtsProvider => {},
        ConfigField::AudiobookTtsApiUrl => {},
        ConfigField::AudiobookTtsApiToken => {},
        ConfigField::AudiobookTtsModel => {},
        ConfigField::SegmentCommentsTopN => {},
        ConfigField::SegmentCommentsWorkers => {},
        ConfigField::DownloadCommentImages => {},
        ConfigField::DownloadCommentAvatars => {},
        ConfigField::MediaDownloadWorkers => {},
        ConfigField::BlockedMediaDomains => {},
        ConfigField::ForceConvertImagesToJpeg => {},
        ConfigField::JpegRetryConvert => {},
        ConfigField::JpegQuality => {},
        ConfigField::ConvertHeicToJpeg => {},
        ConfigField::KeepHeicOriginal => {},
        ConfigField::MediaLimitPerChapter => {},
        ConfigField::MediaMaxDimensionPx => {},
    }
}

proof fn lemma_tui_edit_comments(c: ConfigView, f: ConfigField, raw: Seq<char>)
    requires
        f == ConfigField::EnableSegmentComments,
    ensures
        tui_edit(c, f, raw) == segment_comments_step(c, raw),
{
}

proof fn lemma_tui_switch_reentered(c: ConfigView, f: ConfigField)
    requires
        comments_on_epub(c),
        tui_switch(f) is Some,
    ensures
        tui_edit(c, f, bool_text(switch_value(c, tui_switch(f).unwrap()))) == TuiStep::Saved(c, false),
{
    let s = tui_switch(f).unwrap();
    let v = switch_value(c, s);
    lemma_bool_word_of_text(v);
    lemma_with_same_switch(c, s);
    if f == ConfigField::EnableSegmentComments {
        lemma_tui_edit_comments(c, f, bool_text(v));
    } else {
        lemma_tui_edit_switch(c, f, bool_text(v));
    }
}

/// Entering the value shown for an on/off setting leaves the settings as
/// they were.
pub proof fn lemma_tui_bool_round_trip(c: ConfigView, f: ConfigField)
    requires
        comments_on_epub(c),
        tui_switch(f) is Some,
    ensures
        tui_display(c, f) is Some,
        tui_edit(c, f, trim(tui_display(c, f).unwrap())) == TuiStep::Saved(c, false),
{
    lemma_tui_display_switch(c, f);
    lemma_tui_switch_reentered(c, f);
    lemma_bool_text_trimmed(switch_value(c, tui_switch(f).unwrap()));
}

proof fn lemma_bool_text_trimmed(b: bool)
    ensures
        trim(bool_text(b)) == bool_text(b),
{
    reveal_strlit("true");
    reveal_strlit("false");
    lemma_trim_plain(bool_text(b));
}

/// The number held by a numeric field of the editor.
pub open spec fn tui_number(c: ConfigView, f: ConfigField) -> Option<nat> {
    match f {
        ConfigField::MaxWorkers => Some(c.counts.max_workers as nat),
        ConfigField::AudiobookConcurrency => Some(c.counts.audiobook_concurrency as nat),
        ConfigField::SegmentCommentsTopN => Some(c.counts.segment_comments_top_n as nat),
        ConfigField::SegmentCommentsWorkers => Some(c.counts.segment_comments_workers as nat),
        ConfigField::MediaDownloadWorkers => Some(c.counts.media_download_workers as nat),
        ConfigField::MediaLimitPerChapter => Some(c.counts.media_limit_per_chapter as nat),
        ConfigField::RequestTimeout => Some(c.durations.request_timeout as nat),
        ConfigField::MinWait => Some(c.durations.min_wait_time as nat),
        ConfigField::MaxWait => Some(c.durations.max_wait_time as nat),
        ConfigField::MaxRetries => Some(c.max_retries as nat),
        ConfigField::MediaMaxDimensionPx => Some(c.media_max_dimension_px as nat),
        ConfigField::JpegQuality => Some(c.jpeg_quality as nat),
        _ => None,
    }
}

/// The value of a numeric field is one that the editor accepts for it:
/// the counts and the timeout that must be positive are, a wait keeps the
/// waits ordered, and the JPEG quality is a percentage.
pub open spec fn number_accepted(c: ConfigView, f: ConfigField) -> bool {
    match f {
        ConfigField::MaxWorkers => c.counts.max_workers > 0,
        ConfigField::AudiobookConcurrency => c.counts.audiobook_concurrency > 0,
        ConfigField::SegmentCommentsTopN => c.counts.segment_comments_top_n > 0,
        ConfigField::SegmentCommentsWorkers => c.counts.segment_comments_workers > 0,
        ConfigField::MediaDownloadWorkers => c.counts.media_download_workers > 0,
        ConfigField::RequestTimeout => c.durations.request_timeout > 0,
        ConfigField::MinWait => wait_ordered(c),
        ConfigField::MaxWait => wait_ordered(c),
        ConfigField::JpegQuality => jpeg_quality_valid(c),
        _ => true,
    }
}

/// Entering the number shown for a numeric field leaves the settings as
/// they were, where that number is one the editor accepts for the field.
pub proof fn lemma_tui_number_round_trip(c: ConfigView, f: ConfigField)
    requires
        tui_number(c, f) is Some,
        number_accepted(c, f),
    ensures
        tui_display(c, f) == Some(decimal(tui_number(c, f).unwrap())),
        tui_edit(c, f, trim(tui_display(c, f).unwrap())) == TuiStep::Saved(c, false),
{
    lemma_decimal_trimmed(tui_number(c, f).unwrap());
    match f {
        ConfigField::SavePath => {},
        ConfigField::NovelFormat => {},
        ConfigField::BulkFiles => {},
        ConfigField::AutoClearDump => {},
        ConfigField::AutoOpenDownloadedFiles => {},
        ConfigField::AllowOverwriteFiles => {},
        ConfigField::PreferredBookNameField => {},
        ConfigField::OldCli => {},
        ConfigField::FirstLineIndentEm => {},
        ConfigField::EnableSegmentComments => {},
        ConfigField::UseOfficialApi => {},
        ConfigField::ApiEndpoints => {},
        ConfigField::MaxWorkers => {
            lemma_decimal_round_trip(c.counts.max_workers as nat, usize::MAX as nat);
            lemma_with_same_count(c, Count::MaxWorkers);
        },
        ConfigField::RequestTimeout => {
            lemma_decimal_round_trip(c.durations.request_timeout as nat, u64::MAX as nat);
            lemma_with_same_duration(c, Duration::RequestTimeout);
        },
        ConfigField::MaxRetries => {
            lemma_decimal_round_trip(c.max_retries as nat, u32::MAX as nat);
        },
        ConfigField::MinConnectTimeout => {},
        ConfigField::MinWait => {
            lemma_decimal_round_trip(c.durations.min_wait_time as nat, u64::MAX as nat);
            lemma_with_same_duration(c, Duration::MinWaitTime);
        },
        ConfigField::MaxWait => {
            lemma_decimal_round_trip(c.durations.max_wait_time as nat, u64::MAX as nat);
            lemma_with_same_duration(c, Duration::MaxWaitTime);
        },
        ConfigField::EnableAudiobook => {},
        ConfigField::AudiobookVoice => {},
        ConfigField::AudiobookRate => {},
        ConfigField::AudiobookVolume => {},
        ConfigField::AudiobookPitch => {},
        ConfigField::AudiobookFormat => {},
        ConfigField::AudiobookConcurrency => {
            lemma_decimal_round_trip(c.counts.audiobook_concurrency as nat, usize::MAX as nat);
            lemma_with_same_count(c, Count::AudiobookConcurrency);
        },
        ConfigField::AudiobookTtsProvider => {},
        ConfigField::AudiobookTtsApiUrl => {},
        ConfigField::AudiobookTtsApiToken => {},
        ConfigField::AudiobookTtsModel => {},
        ConfigField::SegmentCommentsTopN => {
            lemma_decimal_round_trip(c.counts.segment_comments_top_n as nat, usize::MAX as nat);
            lemma_with_same_count(c, Count::SegmentCommentsTopN);
        },
        ConfigField::SegmentCommentsWorkers => {
            lemma_decimal_round_trip(c.counts.segment_comments_workers as nat, usize::MAX as nat);
            lemma_with_same_count(c, Count::SegmentCommentsWorkers);
        },
        ConfigField::DownloadCommentImages => {},
        ConfigField::DownloadCommentAvatars => {},
        ConfigField::MediaDownloadWorkers => {
            lemma_decimal_round_trip(c.counts.media_download_workers as nat, usize::MAX as nat);
            lemma_with_same_count(c, Count::MediaDownloadWorkers);
        },
        ConfigField::BlockedMediaDomains => {},
        ConfigField::ForceConvertImagesToJpeg => {},
        ConfigField::JpegRetryConvert => {},
        ConfigField::JpegQuality => {
            lemma_decimal_round_trip(c.jpeg_quality as nat, u8::MAX as nat);
        },
        ConfigField::ConvertHeicToJpeg => {},
        ConfigField::KeepHeicOriginal => {},
        ConfigField::MediaLimitPerChapter => {
            lemma_decimal_round_trip(c.counts.media_limit_per_chapter as nat, usize::MAX as nat);
            lemma_with_same_count(c, Count::MediaLimitPerChapter);
        },
        ConfigField::MediaMaxDimensionPx => {
            lemma_decimal_round_trip(c.media_max_dimension_px as nat, u32::MAX as nat);
        },
    }
}

/// The value shown for the novel format, entered again, leaves the
/// settings as they were, where the format is txt or epub (or is chosen
/// after each download) and paragraph comments are only on with epub.
pub proof fn lemma_tui_format_round_trip(c: ConfigView)
    requires
        comments_on_epub(c),
        c.switches.ask_format_after_download || c.texts.novel_format == "txt"@
            || c.texts.novel_format == "epub"@,
    ensures
        tui_display(c, ConfigField::NovelFormat) is Some,
        tui_edit(c, ConfigField::NovelFormat, trim(tui_display(c, ConfigField::NovelFormat).unwrap()))
            == TuiStep::Saved(c, false),
{
    reveal_strlit("txt");
    reveal_strlit("epub");
    reveal_strlit("ask_after_download");
    reveal_strlit("Dinh dang txt");
    reveal_strlit("Dinh dang epub");
    reveal_strlit("Chon sau khi tai xong");
    let shown = tui_display(c, ConfigField::NovelFormat).unwrap();
    lemma_trim_plain(shown);
    if c.switches.ask_format_after_download {
        lemma_format_label_round_trip("ask_after_download"@);
        lemma_with_same_switch(c, Switch::AskFormatAfterDownload);
        assert(novel_format_step(c, shown) == TuiStep::Saved(
            with_switch(c, Switch::AskFormatAfterDownload, true),
            false,
        ));
    } else {
        let f = c.texts.novel_format;
        lemma_format_label_round_trip(f);
        assert(format_of_label(shown) == Some(f));
        assert("ask_after_download"@.len() != "txt"@.len());
        assert("ask_after_download"@.len() != "epub"@.len());
        assert(f != "ask_after_download"@);
        lemma_with_same_switch(c, Switch::AskFormatAfterDownload);
        lemma_with_same_text(c, TextSetting::NovelFormat);
        let c1 = with_text(with_switch(c, Switch::AskFormatAfterDownload, false), TextSetting::NovelFormat, f);
        assert(c1 == c);
        if f == "txt"@ && c.switches.enable_segment_comments {
            assert(eq_ignore_case(f, "epub"@));
            assert(ascii_lower(f).len() != ascii_lower("epub"@).len());
        }
        assert(novel_format_step(c, shown) == TuiStep::Saved(c1, false));
    }
}

/// The value shown for the preferred book-name field, entered again,
/// leaves the settings as they were, where the field holds a known name.
pub proof fn lemma_tui_book_field_round_trip(c: ConfigView)
    requires
        is_book_field_name(c.texts.preferred_book_name_field),
    ensures
        tui_display(c, ConfigField::PreferredBookNameField) is Some,
        tui_edit(
            c,
            ConfigField::PreferredBookNameField,
            trim(tui_display(c, ConfigField::PreferredBookNameField).unwrap()),
        ) == TuiStep::Saved(c, false),
{
    reveal_strlit("Ten sach mac dinh");
    reveal_strlit("Ten sach goc");
    reveal_strlit("Ten sach ngan");
    reveal_strlit("Chon sau khi tai xong");
    let f = c.texts.preferred_book_name_field;
    let shown = book_field_label(f);
    lemma_trim_plain(shown);
    lemma_book_field_label_round_trip(f);
    lemma_with_same_text(c, TextSetting::PreferredBookNameField);
    assert(book_field_step(c, shown) == TuiStep::Saved(
        with_text(c, TextSetting::PreferredBookNameField, f),
        false,
    ));
}

/// The fields whose shown value, entered again, changes no setting: the
/// on/off fields, the numeric fields holding a value the editor accepts,
/// the novel format where it is txt or epub or chosen after each
/// download, and the preferred book-name field where it holds a known
/// name (with paragraph comments only on with epub).
pub open spec fn shown_value_kept(c: ConfigView, f: ConfigField) -> bool {
    &&& comments_on_epub(c)
    &&& {
        ||| tui_switch(f) is Some
        ||| (tui_number(c, f) is Some && number_accepted(c, f))
        ||| (f == ConfigField::NovelFormat && (c.switches.ask_format_after_download
            || c.texts.novel_format == "txt"@ || c.texts.novel_format == "epub"@))
        ||| (f == ConfigField::PreferredBookNameField && is_book_field_name(
            c.texts.preferred_book_name_field,
        ))
    }
}

/// Saving, unedited, the value that the editor shows for such a field
/// leaves every setting as it was.
pub proof fn lemma_tui_shown_value_saved(c: ConfigView, f: ConfigField)
    requires
        shown_value_kept(c, f),
    ensures
        tui_display(c, f) is Some,
        tui_edit(c, f, trim(tui_display(c, f).unwrap())) == TuiStep::Saved(c, false),
{
    if tui_switch(f) is Some {
        lemma_tui_bool_round_trip(c, f);
    } else if tui_number(c, f) is Some && number_accepted(c, f) {
        lemma_tui_number_round_trip(c, f);
    } else if f == ConfigField::NovelFormat {
        lemma_tui_format_round_trip(c);
    } else {
        lemma_tui_book_field_round_trip(c);
    }
}

} // verus!
