//! The line-oriented configuration menu: its option table, how each setting
//! is shown, and how a typed value changes the settings.

use vstd::prelude::*;
use crate::config::{
    jpeg_quality_valid, lemma_with_same_count, lemma_with_same_duration, lemma_with_same_switch,
    switch_value, wait_ordered, with_count, with_duration, with_list, with_switch, with_text, Config,
    ConfigError, ConfigView, Count, Duration, ListSetting, Switch, TextSetting,
};
use crate::labels::{
    book_field_label, book_field_of_label, book_name_field_to_chinese, chinese_to_book_name_field,
    is_book_field_name, is_book_name_field,
};
use crate::text::{
    ascii_lower, ascii_lower_chars, bool_string, bool_text, chars_eq_ignore_case, chars_is, decimal,
    decimal_string, eq_ignore_case, from_chars, join_comma, join_with_comma,
    lemma_decimal_reads_as_i64, list_items, parse_i64, parse_i64_spec, parse_unsigned,
    parse_unsigned_max, split_trimmed, to_chars, trim, trim_chars, views,
};

verus! {

/// How the menu reads a new value.
#[derive(Clone, Copy, Debug, PartialEq, Eq, Structural)]
pub enum ConfigValueType {
    Bool,
    Int,
    Float,
    String,
    List,
    Selection,
}

/// The settings that the menu offers, in menu order.
#[derive(Clone, Copy, Debug, PartialEq, Eq, Structural)]
pub enum ConfigField {
    SavePath,
    NovelFormat,
    BulkFiles,
    AutoClearDump,
    AllowOverwriteFiles,
    PreferredBookNameField,
    EnableAudiobook,
    AudiobookVoice,
    AudiobookRate,
    AudiobookVolume,
    AudiobookPitch,
    AudiobookConcurrency,
    AudiobookFormat,
    MaxWorkers,
    RequestTimeout,
    MaxRetries,
    MinWaitTime,
    MaxWaitTime,
    MinConnectTimeout,
    UseOfficialApi,
    ApiEndpoints,
    EnableSegmentComments,
    SegmentCommentsTopN,
    SegmentCommentsWorkers,
    DownloadCommentImages,
    DownloadCommentAvatars,
    MediaDownloadWorkers,
    BlockedMediaDomains,
    ForceConvertImagesToJpeg,
    JpegRetryConvert,
    JpegQuality,
    ConvertHeicToJpeg,
    KeepHeicOriginal,
    MediaLimitPerChapter,
    MediaMaxDimensionPx,
    FirstLineIndentEm,
    OldCli,
}

/// One line of the menu.
#[derive(Clone, Copy, Debug)]
pub struct ConfigOption {
    pub name: &'static str,
    pub field: ConfigField,
    pub ty: ConfigValueType,
}

/// What an accepted edit asks of the caller besides the new settings.
#[derive(Clone, Copy, Debug, PartialEq, Eq, Structural)]
pub enum EditEffect {
    /// Nothing more.
    Nothing,
    /// Turning on paragraph comments switched the format from txt to epub.
    SwitchedToEpub,
    /// Choosing txt turned paragraph comments off.
    DisabledSegmentComments,
    /// The directory `save_path` names must be created before the change
    /// is kept.
    CreateDirectory,
    /// The value is fractional: the caller parses and stores it.
    FractionalInput,
}

/// The number of options in the menu.
pub const OPTION_COUNT: usize = 37;

/// The field on menu line `i` (counting from 0).
pub open spec fn cli_field_at(i: int) -> ConfigField {
    if i == 0 {
        ConfigField::SavePath
    } else if i == 1 {
        ConfigField::NovelFormat
    } else if i == 2 {
        ConfigField::BulkFiles
    } else if i == 3 {
        ConfigField::AutoClearDump
    } else if i == 4 {
        ConfigField::AllowOverwriteFiles
    } else if i == 5 {
        ConfigField::PreferredBookNameField
    } else if i == 6 {
        ConfigField::EnableAudiobook
    } else if i == 7 {
        ConfigField::AudiobookVoice
    } else if i == 8 {
        ConfigField::AudiobookRate
    } else if i == 9 {
        ConfigField::AudiobookVolume
    } else if i == 10 {
        ConfigField::AudiobookPitch
    } else if i == 11 {
        ConfigField::AudiobookConcurrency
    } else if i == 12 {
        ConfigField::AudiobookFormat
    } else if i == 13 {
        ConfigField::MaxWorkers
    } else if i == 14 {
        ConfigField::RequestTimeout
    } else if i == 15 {
        ConfigField::MaxRetries
    } else if i == 16 {
        ConfigField::MinWaitTime
    } else if i == 17 {
        ConfigField::MaxWaitTime
    } else if i == 18 {
        ConfigField::MinConnectTimeout
    } else if i == 19 {
        ConfigField::UseOfficialApi
    } else if i == 20 {
        ConfigField::ApiEndpoints
    } else if i == 21 {
        ConfigField::EnableSegmentComments
    } else if i == 22 {
        ConfigField::SegmentCommentsTopN
    } else if i == 23 {
        ConfigField::SegmentCommentsWorkers
    } else if i == 24 {
        ConfigField::DownloadCommentImages
    } else if i == 25 {
        ConfigField::DownloadCommentAvatars
    } else if i == 26 {
        ConfigField::MediaDownloadWorkers
    } else if i == 27 {
        ConfigField::BlockedMediaDomains
    } else if i == 28 {
        ConfigField::ForceConvertImagesToJpeg
    } else if i == 29 {
        ConfigField::JpegRetryConvert
    } else if i == 30 {
        ConfigField::JpegQuality
    } else if i == 31 {
        ConfigField::ConvertHeicToJpeg
    } else if i == 32 {
        ConfigField::KeepHeicOriginal
    } else if i == 33 {
        ConfigField::MediaLimitPerChapter
    } else if i == 34 {
        ConfigField::MediaMaxDimensionPx
    } else if i == 35 {
        ConfigField::FirstLineIndentEm
    } else {
        ConfigField::OldCli
    }
}

/// The menu text of a field.
pub open spec fn cli_option_name(f: ConfigField) -> Seq<char> {
    match f {
        ConfigField::SavePath => "Duong dan luu"@,
        ConfigField::NovelFormat => "Dinh dang luu sach (txt/epub)"@,
        ConfigField::BulkFiles => "Co luu sach theo dang file roi hay khong"@,
        ConfigField::AutoClearDump => "Co tu dong don file cache hay khong"@,
        ConfigField::AllowOverwriteFiles => "Co cho phep ghi de file da ton tai hay khong"@,
        ConfigField::PreferredBookNameField => "Truong uu tien ten sach"@,
        ConfigField::EnableAudiobook => "Co tao sach noi hay khong"@,
        ConfigField::AudiobookVoice => "Giong doc sach noi"@,
        ConfigField::AudiobookRate => "Toc do doc sach noi (vd +0%)"@,
        ConfigField::AudiobookVolume => "Am luong sach noi (vd +0%)"@,
        ConfigField::AudiobookPitch => "Cao do sach noi (vd +2Hz/-1st, co the de trong)"@,
        ConfigField::AudiobookConcurrency => "So luong song song cho sach noi"@,
        ConfigField::AudiobookFormat => "Dinh dang sach noi (mp3/wav)"@,
        ConfigField::MaxWorkers => "So thread toi da"@,
        ConfigField::RequestTimeout => "Timeout request (giay)"@,
        ConfigField::MaxRetries => "So lan thu lai toi da"@,
        ConfigField::MinWaitTime => "Thoi gian cho toi thieu (ms)"@,
        ConfigField::MaxWaitTime => "Thoi gian cho toi da (ms)"@,
        ConfigField::MinConnectTimeout => "Timeout ket noi toi thieu"@,
        ConfigField::UseOfficialApi => "Co su dung API chinh thuc hay khong"@,
        ConfigField::ApiEndpoints => "Danh sach API tuy chinh (tach boi dau phay)"@,
        ConfigField::EnableSegmentComments => "Co tai binh luan doan hay khong"@,
        ConfigField::SegmentCommentsTopN => "So binh luan toi da moi doan"@,
        ConfigField::SegmentCommentsWorkers => "So thread song song cho binh luan doan"@,
        ConfigField::DownloadCommentImages => "Co tai anh trong phan binh luan hay khong"@,
        ConfigField::DownloadCommentAvatars => "Co tai avatar trong phan binh luan hay khong"@,
        ConfigField::MediaDownloadWorkers => "So thread tai anh binh luan"@,
        ConfigField::BlockedMediaDomains => "Blacklist domain anh (tach boi dau phay)"@,
        ConfigField::ForceConvertImagesToJpeg => "Bat buoc chuyen tat ca anh sang JPEG"@,
        ConfigField::JpegRetryConvert => "Thu chuyen sang JPEG voi anh khong phai JPEG"@,
        ConfigField::JpegQuality => "Chat luong JPEG (0-100)"@,
        ConfigField::ConvertHeicToJpeg => "Chuyen HEIC sang JPEG"@,
        ConfigField::KeepHeicOriginal => "Giu lai file HEIC goc"@,
        ConfigField::MediaLimitPerChapter => "Gioi han so media moi chuong (0 = khong gioi han)"@,
        ConfigField::MediaMaxDimensionPx => "Gioi han canh dai nhat cua anh theo pixel (>0 moi co hieu luc)"@,
        ConfigField::FirstLineIndentEm => "Thut le dong dau EPUB (em)"@,
        ConfigField::OldCli => "Co dung giao dien CLI cu hay khong (can khoi dong lai)"@,
    }
}

/// How the menu reads a field.
pub open spec fn cli_option_type(f: ConfigField) -> ConfigValueType {
    match f {
        ConfigField::SavePath => ConfigValueType::String,
        ConfigField::NovelFormat => ConfigValueType::String,
        ConfigField::BulkFiles => ConfigValueType::Bool,
        ConfigField::AutoClearDump => ConfigValueType::Bool,
        ConfigField::AllowOverwriteFiles => ConfigValueType::Bool,
        ConfigField::PreferredBookNameField => ConfigValueType::Selection,
        ConfigField::EnableAudiobook => ConfigValueType::Bool,
        ConfigField::AudiobookVoice => ConfigValueType::String,
        ConfigField::AudiobookRate => ConfigValueType::String,
        ConfigField::AudiobookVolume => ConfigValueType::String,
        ConfigField::AudiobookPitch => ConfigValueType::String,
        ConfigField::AudiobookConcurrency => ConfigValueType::Int,
        ConfigField::AudiobookFormat => ConfigValueType::String,
        ConfigField::MaxWorkers => ConfigValueType::Int,
        ConfigField::RequestTimeout => ConfigValueType::Int,
        ConfigField::MaxRetries => ConfigValueType::Int,
        ConfigField::MinWaitTime => ConfigValueType::Int,
        ConfigField::MaxWaitTime => ConfigValueType::Int,
        ConfigField::MinConnectTimeout => ConfigValueType::Float,
        ConfigField::UseOfficialApi => ConfigValueType::Bool,
        ConfigField::ApiEndpoints => ConfigValueType::List,
        ConfigField::EnableSegmentComments => ConfigValueType::Bool,
        ConfigField::SegmentCommentsTopN => ConfigValueType::Int,
        ConfigField::SegmentCommentsWorkers => ConfigValueType::Int,
        ConfigField::DownloadCommentImages => ConfigValueType::Bool,
        ConfigField::DownloadCommentAvatars => ConfigValueType::Bool,
        ConfigField::MediaDownloadWorkers => ConfigValueType::Int,
        ConfigField::BlockedMediaDomains => ConfigValueType::List,
        ConfigField::ForceConvertImagesToJpeg => ConfigValueType::Bool,
        ConfigField::JpegRetryConvert => ConfigValueType::Bool,
        ConfigField::JpegQuality => ConfigValueType::Int,
        ConfigField::ConvertHeicToJpeg => ConfigValueType::Bool,
        ConfigField::KeepHeicOriginal => ConfigValueType::Bool,
        ConfigField::MediaLimitPerChapter => ConfigValueType::Int,
        ConfigField::MediaMaxDimensionPx => ConfigValueType::Int,
        ConfigField::FirstLineIndentEm => ConfigValueType::Float,
        ConfigField::OldCli => ConfigValueType::Bool,
    }
}

fn field_at(i: usize) -> (r: ConfigField)
    requires
        i < OPTION_COUNT,
    ensures
        r == cli_field_at(i as int),
{
    match i {
        0 => ConfigField::SavePath,
        1 => ConfigField::NovelFormat,
        2 => ConfigField::BulkFiles,
        3 => ConfigField::AutoClearDump,
        4 => ConfigField::AllowOverwriteFiles,
        5 => ConfigField::PreferredBookNameField,
        6 => ConfigField::EnableAudiobook,
        7 => ConfigField::AudiobookVoice,
        8 => ConfigField::AudiobookRate,
        9 => ConfigField::AudiobookVolume,
        10 => ConfigField::AudiobookPitch,
        11 => ConfigField::AudiobookConcurrency,
        12 => ConfigField::AudiobookFormat,
        13 => ConfigField::MaxWorkers,
        14 => ConfigField::RequestTimeout,
        15 => ConfigField::MaxRetries,
        16 => ConfigField::MinWaitTime,
        17 => ConfigField::MaxWaitTime,
        18 => ConfigField::MinConnectTimeout,
        19 => ConfigField::UseOfficialApi,
        20 => ConfigField::ApiEndpoints,
        21 => ConfigField::EnableSegmentComments,
        22 => ConfigField::SegmentCommentsTopN,
        23 => ConfigField::SegmentCommentsWorkers,
        24 => ConfigField::DownloadCommentImages,
        25 => ConfigField::DownloadCommentAvatars,
        26 => ConfigField::MediaDownloadWorkers,
        27 => ConfigField::BlockedMediaDomains,
        28 => ConfigField::ForceConvertImagesToJpeg,
        29 => ConfigField::JpegRetryConvert,
        30 => ConfigField::JpegQuality,
        31 => ConfigField::ConvertHeicToJpeg,
        32 => ConfigField::KeepHeicOriginal,
        33 => ConfigField::MediaLimitPerChapter,
        34 => ConfigField::MediaMaxDimensionPx,
        35 => ConfigField::FirstLineIndentEm,
        _ => ConfigField::OldCli,
    }
}

fn option_for(f: ConfigField) -> (r: ConfigOption)
    ensures
        r.field == f,
        r.ty == cli_option_type(f),
        r.name@ == cli_option_name(f),
{
    match f {
        ConfigField::SavePath => ConfigOption {
            name: "Duong dan luu",
            field: ConfigField::SavePath,
            ty: ConfigValueType::String,
        },
        ConfigField::NovelFormat => ConfigOption {
            name: "Dinh dang luu sach (txt/epub)",
            field: ConfigField::NovelFormat,
            ty: ConfigValueType::String,
        },
        ConfigField::BulkFiles => ConfigOption {
            name: "Co luu sach theo dang file roi hay khong",
            field: ConfigField::BulkFiles,
            ty: ConfigValueType::Bool,
        },
        ConfigField::AutoClearDump => ConfigOption {
            name: "Co tu dong don file cache hay khong",
            field: ConfigField::AutoClearDump,
            ty: ConfigValueType::Bool,
        },
        ConfigField::AllowOverwriteFiles => ConfigOption {
            name: "Co cho phep ghi de file da ton tai hay khong",
            field: ConfigField::AllowOverwriteFiles,
            ty: ConfigValueType::Bool,
        },
        ConfigField::PreferredBookNameField => ConfigOption {
            name: "Truong uu tien ten sach",
            field: ConfigField::PreferredBookNameField,
            ty: ConfigValueType::Selection,
        },
        ConfigField::EnableAudiobook => ConfigOption {
            name: "Co tao sach noi hay khong",
            field: ConfigField::EnableAudiobook,
            ty: ConfigValueType::Bool,
        },
        ConfigField::AudiobookVoice => ConfigOption {
            name: "Giong doc sach noi",
            field: ConfigField::AudiobookVoice,
            ty: ConfigValueType::String,
        },
        ConfigField::AudiobookRate => ConfigOption {
            name: "Toc do doc sach noi (vd +0%)",
            field: ConfigField::AudiobookRate,
            ty: ConfigValueType::String,
        },
        ConfigField::AudiobookVolume => ConfigOption {
            name: "Am luong sach noi (vd +0%)",
            field: ConfigField::AudiobookVolume,
            ty: ConfigValueType::String,
        },
        ConfigField::AudiobookPitch => ConfigOption {
            name: "Cao do sach noi (vd +2Hz/-1st, co the de trong)",
            field: ConfigField::AudiobookPitch,
            ty: ConfigValueType::String,
        },
        ConfigField::AudiobookConcurrency => ConfigOption {
            name: "So luong song song cho sach noi",
            field: ConfigField::AudiobookConcurrency,
            ty: ConfigValueType::Int,
        },
        ConfigField::AudiobookFormat => ConfigOption {
            name: "Dinh dang sach noi (mp3/wav)",
            field: ConfigField::AudiobookFormat,
            ty: ConfigValueType::String,
        },
        ConfigField::MaxWorkers => ConfigOption {
            name: "So thread toi da",
            field: ConfigField::MaxWorkers,
            ty: ConfigValueType::Int,
        },
        ConfigField::RequestTimeout => ConfigOption {
            name: "Timeout request (giay)",
            field: ConfigField::RequestTimeout,
            ty: ConfigValueType::Int,
        },
        ConfigField::MaxRetries => ConfigOption {
            name: "So lan thu lai toi da",
            field: ConfigField::MaxRetries,
            ty: ConfigValueType::Int,
        },
        ConfigField::MinWaitTime => ConfigOption {
            name: "Thoi gian cho toi thieu (ms)",
            field: ConfigField::MinWaitTime,
            ty: ConfigValueType::Int,
        },
        ConfigField::MaxWaitTime => ConfigOption {
            name: "Thoi gian cho toi da (ms)",
            field: ConfigField::MaxWaitTime,
            ty: ConfigValueType::Int,
        },
        ConfigField::MinConnectTimeout => ConfigOption {
            name: "Timeout ket noi toi thieu",
            field: ConfigField::MinConnectTimeout,
            ty: ConfigValueType::Float,
        },
        ConfigField::UseOfficialApi => ConfigOption {
            name: "Co su dung API chinh thuc hay khong",
            field: ConfigField::UseOfficialApi,
            ty: ConfigValueType::Bool,
        },
        ConfigField::ApiEndpoints => ConfigOption {
            name: "Danh sach API tuy chinh (tach boi dau phay)",
            field: ConfigField::ApiEndpoints,
            ty: ConfigValueType::List,
        },
        ConfigField::EnableSegmentComments => ConfigOption {
            name: "Co tai binh luan doan hay khong",
            field: ConfigField::EnableSegmentComments,
            ty: ConfigValueType::Bool,
        },
        ConfigField::SegmentCommentsTopN => ConfigOption {
            name: "So binh luan toi da moi doan",
            field: ConfigField::SegmentCommentsTopN,
            ty: ConfigValueType::Int,
        },
        ConfigField::SegmentCommentsWorkers => ConfigOption {
            name: "So thread song song cho binh luan doan",
            field: ConfigField::SegmentCommentsWorkers,
            ty: ConfigValueType::Int,
        },
        ConfigField::DownloadCommentImages => ConfigOption {
            name: "Co tai anh trong phan binh luan hay khong",
            field: ConfigField::DownloadCommentImages,
            ty: ConfigValueType::Bool,
        },
        ConfigField::DownloadCommentAvatars => ConfigOption {
            name: "Co tai avatar trong phan binh luan hay khong",
            field: ConfigField::DownloadCommentAvatars,
            ty: ConfigValueType::Bool,
        },
        ConfigField::MediaDownloadWorkers => ConfigOption {
            name: "So thread tai anh binh luan",
            field: ConfigField::MediaDownloadWorkers,
            ty: ConfigValueType::Int,
        },
        ConfigField::BlockedMediaDomains => ConfigOption {
            name: "Blacklist domain anh (tach boi dau phay)",
            field: ConfigField::BlockedMediaDomains,
            ty: ConfigValueType::List,
        },
        ConfigField::ForceConvertImagesToJpeg => ConfigOption {
            name: "Bat buoc chuyen tat ca anh sang JPEG",
            field: ConfigField::ForceConvertImagesToJpeg,
            ty: ConfigValueType::Bool,
        },
        ConfigField::JpegRetryConvert => ConfigOption {
            name: "Thu chuyen sang JPEG voi anh khong phai JPEG",
            field: ConfigField::JpegRetryConvert,
            ty: ConfigValueType::Bool,
        },
        ConfigField::JpegQuality => ConfigOption {
            name: "Chat luong JPEG (0-100)",
            field: ConfigField::JpegQuality,
            ty: ConfigValueType::Int,
        },
        ConfigField::ConvertHeicToJpeg => ConfigOption {
            name: "Chuyen HEIC sang JPEG",
            field: ConfigField::ConvertHeicToJpeg,
            ty: ConfigValueType::Bool,
        },
        ConfigField::KeepHeicOriginal => ConfigOption {
            name: "Giu lai file HEIC goc",
            field: ConfigField::KeepHeicOriginal,
            ty: ConfigValueType::Bool,
        },
        ConfigField::MediaLimitPerChapter => ConfigOption {
            name: "Gioi han so media moi chuong (0 = khong gioi han)",
            field: ConfigField::MediaLimitPerChapter,
            ty: ConfigValueType::Int,
        },
        ConfigField::MediaMaxDimensionPx => ConfigOption {
            name: "Gioi han canh dai nhat cua anh theo pixel (>0 moi co hieu luc)",
            field: ConfigField::MediaMaxDimensionPx,
            ty: ConfigValueType::Int,
        },
        ConfigField::FirstLineIndentEm => ConfigOption {
            name: "Thut le dong dau EPUB (em)",
            field: ConfigField::FirstLineIndentEm,
            ty: ConfigValueType::Float,
        },
        ConfigField::OldCli => ConfigOption {
            name: "Co dung giao dien CLI cu hay khong (can khoi dong lai)",
            field: ConfigField::OldCli,
            ty: ConfigValueType::Bool,
        },
    }
}

/// The menu options in menu order.
pub fn config_options() -> (r: Vec<ConfigOption>)
    ensures
        r@.len() == OPTION_COUNT,
        forall|i: int|
            0 <= i < OPTION_COUNT ==> {
                &&& (#[trigger] r@[i]).field == cli_field_at(i)
                &&& r@[i].ty == cli_option_type(cli_field_at(i))
                &&& r@[i].name@ == cli_option_name(cli_field_at(i))
            },
{
    let mut r: Vec<ConfigOption> = Vec::new();
    for i in 0..OPTION_COUNT
        invariant
            r@.len() == i,
            forall|k: int|
                0 <= k < i ==> {
                    &&& (#[trigger] r@[k]).field == cli_field_at(k)
                    &&& r@[k].ty == cli_option_type(cli_field_at(k))
                    &&& r@[k].name@ == cli_option_name(cli_field_at(k))
                },
    {
        r.push(option_for(field_at(i)));
    }
    r
}

/// The note added to the paragraph-comments line while the format is txt.
pub open spec fn menu_label_text(name: Seq<char>, f: ConfigField, c: ConfigView) -> Seq<char> {
    if f == ConfigField::EnableSegmentComments && eq_ignore_case(c.texts.novel_format, "txt"@) {
        name + " (TXT khong ho tro)"@
    } else {
        name
    }
}

/// The text of a menu line before its value.
pub fn menu_label(opt: &ConfigOption, config: &Config) -> (r: String)
    ensures
        r@ == menu_label_text(opt.name@, opt.field, config@),
{
    let mut name = String::from_str(opt.name);
    if opt.field == ConfigField::EnableSegmentComments {
        let fmt = to_chars(config.texts.novel_format.as_str());
        if chars_eq_ignore_case(fmt.as_slice(), "txt") {
            name.append(" (TXT khong ho tro)");
        }
    }
    name
}

/// What a typed menu choice asks for.
#[derive(Clone, Copy, Debug, PartialEq, Eq, Structural)]
pub enum MenuChoice {
    /// Back to the main menu.
    Back,
    /// The text is no number.
    NotNumber,
    /// The number names no line.
    OutOfRange,
    /// Edit the option at this index (counting from 0).
    Edit(usize),
}

/// The choice that a typed line makes in a menu of `count` lines, where
/// `0` goes back.
pub open spec fn menu_choice_of(input: Seq<char>, count: nat) -> MenuChoice {
    let t = trim(input);
    if t == "0"@ {
        MenuChoice::Back
    } else {
        match parse_unsigned(t, usize::MAX as nat) {
            None => MenuChoice::NotNumber,
            Some(n) => if n == 0 || n > count {
                MenuChoice::OutOfRange
            } else {
                MenuChoice::Edit((n - 1) as usize)
            },
        }
    }
}

/// Reads the line typed in the configuration menu.
pub fn parse_menu_choice(input: &str, count: usize) -> (r: MenuChoice)
    ensures
        r == menu_choice_of(input@, count as nat),
{
    let v = to_chars(input);
    let t = trim_chars(v.as_slice());
    if chars_is(t.as_slice(), "0") {
        return MenuChoice::Back;
    }
    match parse_unsigned_max(t.as_slice(), usize::MAX as u64) {
        None => MenuChoice::NotNumber,
        Some(n) => {
            if n == 0 || n > count as u64 {
                MenuChoice::OutOfRange
            } else {
                MenuChoice::Edit((n - 1) as usize)
            }
        },
    }
}

/// The new value typed for an option: the trimmed line, or `None` when it
/// is empty and the edit is cancelled.
pub fn edit_input(input: &str) -> (r: Option<String>)
    ensures
        match r {
            Some(s) => s@ == trim(input@) && s@.len() > 0,
            None => trim(input@).len() == 0,
        },
{
    let v = to_chars(input);
    let t = trim_chars(v.as_slice());
    if t.len() == 0 {
        None
    } else {
        Some(from_chars(t.as_slice()))
    }
}

/// The labels offered for the preferred book-name field, in order.
pub open spec fn selection_labels() -> Seq<Seq<char>> {
    seq!["Ten sach mac dinh"@, "Ten sach goc"@, "Ten sach ngan"@, "Chon sau khi tai xong"@]
}

/// What a typed selection asks for.
#[derive(Clone, Debug)]
pub enum SelectionChoice {
    /// Cancel the edit.
    Cancel,
    /// The text is no number; the edit is cancelled.
    NotNumber,
    /// The number names no option; the edit is cancelled.
    OutOfRange,
    /// The chosen label.
    Pick(String),
}

/// Reads the line typed in the selection list of the preferred book-name
/// field: `0` or nothing cancels, `1` to `4` pick a label.
pub fn selection_choice(input: &str) -> (r: SelectionChoice)
    ensures
        ({
            let t = trim(input@);
            match r {
                SelectionChoice::Cancel => t == "0"@ || t.len() == 0,
                SelectionChoice::NotNumber => t != "0"@ && t.len() > 0 && parse_unsigned(
                    t,
                    usize::MAX as nat,
                ) is None,
                SelectionChoice::OutOfRange => t != "0"@ && t.len() > 0 && (parse_unsigned(
                    t,
                    usize::MAX as nat,
                ) matches Some(n) && (n == 0 || n > 4)),
                SelectionChoice::Pick(l) => t != "0"@ && t.len() > 0 && (parse_unsigned(
                    t,
                    usize::MAX as nat,
                ) matches Some(n) && 1 <= n <= 4 && l@ == selection_labels()[n - 1]),
            }
        }),
{
    let v = to_chars(input);
    let t = trim_chars(v.as_slice());
    if chars_is(t.as_slice(), "0") || t.len() == 0 {
        return SelectionChoice::Cancel;
    }
    match parse_unsigned_max(t.as_slice(), usize::MAX as u64) {
        None => SelectionChoice::NotNumber,
        Some(n) => {
            if n == 1 {
                SelectionChoice::Pick(String::from_str("Ten sach mac dinh"))
            } else if n == 2 {
                SelectionChoice::Pick(String::from_str("Ten sach goc"))
            } else if n == 3 {
                SelectionChoice::Pick(String::from_str("Ten sach ngan"))
            } else if n == 4 {
                SelectionChoice::Pick(String::from_str("Chon sau khi tai xong"))
            } else {
                SelectionChoice::OutOfRange
            }
        },
    }
}

/// The on/off setting behind a menu field.
pub open spec fn cli_switch(f: ConfigField) -> Option<Switch> {
    match f {
        ConfigField::BulkFiles => Some(Switch::BulkFiles),
        ConfigField::AutoClearDump => Some(Switch::AutoClearDump),
        ConfigField::AllowOverwriteFiles => Some(Switch::AllowOverwriteFiles),
        ConfigField::EnableAudiobook => Some(Switch::EnableAudiobook),
        ConfigField::UseOfficialApi => Some(Switch::UseOfficialApi),
        ConfigField::EnableSegmentComments => Some(Switch::EnableSegmentComments),
        ConfigField::DownloadCommentImages => Some(Switch::DownloadCommentImages),
        ConfigField::DownloadCommentAvatars => Some(Switch::DownloadCommentAvatars),
        ConfigField::ForceConvertImagesToJpeg => Some(Switch::ForceConvertImagesToJpeg),
        ConfigField::JpegRetryConvert => Some(Switch::JpegRetryConvert),
        ConfigField::ConvertHeicToJpeg => Some(Switch::ConvertHeicToJpeg),
        ConfigField::KeepHeicOriginal => Some(Switch::KeepHeicOriginal),
        ConfigField::OldCli => Some(Switch::OldCli),
        _ => None,
    }
}

/// The text shown for a setting; the fractional settings are shown by the
/// caller.
pub open spec fn cli_display(c: ConfigView, f: ConfigField) -> Option<Seq<char>> {
    match f {
        ConfigField::SavePath => Some(c.texts.save_path),
        ConfigField::NovelFormat => Some(c.texts.novel_format),
        ConfigField::PreferredBookNameField => Some(book_field_label(c.texts.preferred_book_name_field)),
        ConfigField::AudiobookVoice => Some(c.texts.audiobook_voice),
        ConfigField::AudiobookRate => Some(c.texts.audiobook_rate),
        ConfigField::AudiobookVolume => Some(c.texts.audiobook_volume),
        ConfigField::AudiobookPitch => Some(c.texts.audiobook_pitch),
        ConfigField::AudiobookConcurrency => Some(decimal(c.counts.audiobook_concurrency as nat)),
        ConfigField::AudiobookFormat => Some(c.texts.audiobook_format),
        ConfigField::MaxWorkers => Some(decimal(c.counts.max_workers as nat)),
        ConfigField::RequestTimeout => Some(decimal(c.durations.request_timeout as nat)),
        ConfigField::MaxRetries => Some(decimal(c.max_retries as nat)),
        ConfigField::MinWaitTime => Some(decimal(c.durations.min_wait_time as nat)),
        ConfigField::MaxWaitTime => Some(decimal(c.durations.max_wait_time as nat)),
        ConfigField::MinConnectTimeout => None,
        ConfigField::ApiEndpoints => Some(join_comma(c.api_endpoints)),
        ConfigField::SegmentCommentsTopN => Some(decimal(c.counts.segment_comments_top_n as nat)),
        ConfigField::SegmentCommentsWorkers => Some(decimal(c.counts.segment_comments_workers as nat)),
        ConfigField::MediaDownloadWorkers => Some(decimal(c.counts.media_download_workers as nat)),
        ConfigField::BlockedMediaDomains => Some(join_comma(c.blocked_media_domains)),
        ConfigField::JpegQuality => Some(decimal(c.jpeg_quality as nat)),
        ConfigField::MediaLimitPerChapter => Some(decimal(c.counts.media_limit_per_chapter as nat)),
        ConfigField::MediaMaxDimensionPx => Some(decimal(c.media_max_dimension_px as nat)),
        ConfigField::FirstLineIndentEm => None,
        _ => match cli_switch(f) {
            Some(s) => Some(bool_text(switch_value(c, s))),
            None => None,
        },
    }
}

/// The outcome of an edit: the new settings and the effect, or an error
/// with the settings unchanged.
pub open spec fn edit_holds(
    r: Result<EditEffect, ConfigError>,
    before: ConfigView,
    after: ConfigView,
    expected: Result<(ConfigView, EditEffect), ConfigError>,
) -> bool {
    match expected {
        Ok((c2, e)) => r == Ok::<EditEffect, ConfigError>(e) && after == c2,
        Err(err) => r == Err::<EditEffect, ConfigError>(err) && after == before,
    }
}

/// Setting an on/off field. Turning paragraph comments on while the format
/// is txt switches the format to epub.
pub open spec fn bool_edit(c: ConfigView, f: ConfigField, v: bool) -> Result<
    (ConfigView, EditEffect),
    ConfigError,
> {
    match cli_switch(f) {
        None => Err(ConfigError::NotBoolField),
        Some(s) => if s == Switch::EnableSegmentComments && v && eq_ignore_case(
            c.texts.novel_format,
            "txt"@,
        ) {
            Ok((with_switch(with_text(c, TextSetting::NovelFormat, "epub"@), s, v), EditEffect::SwitchedToEpub))
        } else {
            Ok((with_switch(c, s, v), EditEffect::Nothing))
        },
    }
}

/// Setting an integer field to `v`, with the bounds each field keeps.
pub open spec fn int_edit(c: ConfigView, f: ConfigField, v: i64) -> Result<
    (ConfigView, EditEffect),
    ConfigError,
> {
    match f {
        ConfigField::MaxWorkers => if v <= 0 {
            Err(ConfigError::MaxWorkersNotPositive)
        } else {
            Ok((with_count(c, Count::MaxWorkers, v as usize), EditEffect::Nothing))
        },
        ConfigField::RequestTimeout => if v <= 0 {
            Err(ConfigError::RequestTimeoutNotPositive)
        } else {
            Ok((with_duration(c, Duration::RequestTimeout, v as u64), EditEffect::Nothing))
        },
        ConfigField::MaxRetries => if v < 0 {
            Err(ConfigError::MaxRetriesNegative)
        } else {
            Ok((ConfigView { max_retries: v as u32, ..c }, EditEffect::Nothing))
        },
        ConfigField::MinWaitTime => if v < 0 {
            Err(ConfigError::MinWaitNegative)
        } else if v > c.durations.max_wait_time {
            Err(ConfigError::MinWaitAboveMax)
        } else {
            Ok((with_duration(c, Duration::MinWaitTime, v as u64), EditEffect::Nothing))
        },
        ConfigField::MaxWaitTime => if v < 0 {
            Err(ConfigError::MaxWaitNegative)
        } else if v < c.durations.min_wait_time {
            Err(ConfigError::MaxWaitBelowMin)
        } else {
            Ok((with_duration(c, Duration::MaxWaitTime, v as u64), EditEffect::Nothing))
        },
        ConfigField::AudiobookConcurrency => if v <= 0 {
            Err(ConfigError::AudiobookConcurrencyNotPositive)
        } else {
            Ok((with_count(c, Count::AudiobookConcurrency, v as usize), EditEffect::Nothing))
        },
        ConfigField::SegmentCommentsTopN => if v <= 0 {
            Err(ConfigError::SegmentTopNNotPositive)
        } else {
            Ok((with_count(c, Count::SegmentCommentsTopN, v as usize), EditEffect::Nothing))
        },
        ConfigField::SegmentCommentsWorkers => if v <= 0 {
            Err(ConfigError::SegmentWorkersNotPositive)
        } else {
            Ok((with_count(c, Count::SegmentCommentsWorkers, v as usize), EditEffect::Nothing))
        },
        ConfigField::MediaDownloadWorkers => if v <= 0 {
            Err(ConfigError::MediaWorkersNotPositive)
        } else {
            Ok((with_count(c, Count::MediaDownloadWorkers, v as usize), EditEffect::Nothing))
        },
        ConfigField::JpegQuality => if !(0 <= v <= 100) {
            Err(ConfigError::JpegQualityOutOfRange)
        } else {
            Ok((ConfigView { jpeg_quality: v as u8, ..c }, EditEffect::Nothing))
        },
        ConfigField::MediaLimitPerChapter => if v < 0 {
            Err(ConfigError::MediaLimitNegative)
        } else {
            Ok((with_count(c, Count::MediaLimitPerChapter, v as usize), EditEffect::Nothing))
        },
        ConfigField::MediaMaxDimensionPx => if v < 0 {
            Err(ConfigError::MediaDimensionNegative)
        } else {
            Ok((ConfigView { media_max_dimension_px: v as u32, ..c }, EditEffect::Nothing))
        },
        _ => Err(ConfigError::NotIntField),
    }
}

/// Setting a text field to the typed `v`.
pub open spec fn string_edit(c: ConfigView, f: ConfigField, v: Seq<char>) -> Result<
    (ConfigView, EditEffect),
    ConfigError,
> {
    let lower = ascii_lower(trim(v));
    match f {
        ConfigField::SavePath => if trim(v).len() == 0 {
            Err(ConfigError::EmptySavePath)
        } else {
            Ok((with_text(c, TextSetting::SavePath, trim(v)), EditEffect::CreateDirectory))
        },
        ConfigField::NovelFormat => if lower != "txt"@ && lower != "epub"@ {
            Err(ConfigError::NovelFormatUnsupported)
        } else if lower == "txt"@ && c.switches.enable_segment_comments {
            Ok((
                with_text(with_switch(c, Switch::EnableSegmentComments, false), TextSetting::NovelFormat, lower),
                EditEffect::DisabledSegmentComments,
            ))
        } else {
            Ok((with_text(c, TextSetting::NovelFormat, lower), EditEffect::Nothing))
        },
        ConfigField::AudiobookVoice => Ok((with_text(c, TextSetting::AudiobookVoice, v), EditEffect::Nothing)),
        ConfigField::AudiobookRate => Ok((with_text(c, TextSetting::AudiobookRate, v), EditEffect::Nothing)),
        ConfigField::AudiobookVolume => Ok((with_text(c, TextSetting::AudiobookVolume, v), EditEffect::Nothing)),
        ConfigField::AudiobookPitch => Ok((with_text(c, TextSetting::AudiobookPitch, v), EditEffect::Nothing)),
        ConfigField::AudiobookFormat => if lower != "mp3"@ && lower != "wav"@ {
            Err(ConfigError::AudiobookFormatUnsupported)
        } else {
            Ok((with_text(c, TextSetting::AudiobookFormat, lower), EditEffect::Nothing))
        },
        ConfigField::PreferredBookNameField => match book_field_of_label(trim(v)) {
            Some(name) => Ok((with_text(c, TextSetting::PreferredBookNameField, name), EditEffect::Nothing)),
            None => if is_book_field_name(lower) {
                Ok((with_text(c, TextSetting::PreferredBookNameField, lower), EditEffect::Nothing))
            } else {
                Err(ConfigError::BookNameFieldUnsupported)
            },
        },
        _ => Err(ConfigError::NotStringField),
    }
}

/// Replacing a list field.
pub open spec fn list_edit(c: ConfigView, f: ConfigField, v: Seq<Seq<char>>) -> Result<
    (ConfigView, EditEffect),
    ConfigError,
> {
    match f {
        ConfigField::ApiEndpoints => Ok((with_list(c, ListSetting::ApiEndpoints, v), EditEffect::Nothing)),
        ConfigField::BlockedMediaDomains => Ok((with_list(c, ListSetting::BlockedMediaDomains, v), EditEffect::Nothing)),
        _ => Err(ConfigError::NotListField),
    }
}

/// The words that turn an on/off setting on; anything else turns it off.
pub open spec fn is_yes(text: Seq<char>) -> bool {
    let l = ascii_lower(text);
    l == "true"@ || l == "1"@ || l == "yes"@ || l == "y"@
}

/// Applying the text typed for a menu option.
pub open spec fn menu_edit(c: ConfigView, f: ConfigField, ty: ConfigValueType, text: Seq<char>) -> Result<
    (ConfigView, EditEffect),
    ConfigError,
> {
    match ty {
        ConfigValueType::Bool => bool_edit(c, f, is_yes(text)),
        ConfigValueType::Int => match parse_i64_spec(text) {
            Some(v) => int_edit(c, f, v as i64),
            None => Err(ConfigError::IntegerExpected),
        },
        ConfigValueType::Float => Ok((c, EditEffect::FractionalInput)),
        ConfigValueType::String => string_edit(c, f, text),
        ConfigValueType::Selection => string_edit(c, f, text),
        ConfigValueType::List => list_edit(c, f, list_items(text, false)),
    }
}

fn switch_of(f: ConfigField) -> (r: Option<Switch>)
    ensures
        r == cli_switch(f),
{
    match f {
        ConfigField::BulkFiles => Some(Switch::BulkFiles),
        ConfigField::AutoClearDump => Some(Switch::AutoClearDump),
        ConfigField::AllowOverwriteFiles => Some(Switch::AllowOverwriteFiles),
        ConfigField::EnableAudiobook => Some(Switch::EnableAudiobook),
        ConfigField::UseOfficialApi => Some(Switch::UseOfficialApi),
        ConfigField::EnableSegmentComments => Some(Switch::EnableSegmentComments),
        ConfigField::DownloadCommentImages => Some(Switch::DownloadCommentImages),
        ConfigField::DownloadCommentAvatars => Some(Switch::DownloadCommentAvatars),
        ConfigField::ForceConvertImagesToJpeg => Some(Switch::ForceConvertImagesToJpeg),
        ConfigField::JpegRetryConvert => Some(Switch::JpegRetryConvert),
        ConfigField::ConvertHeicToJpeg => Some(Switch::ConvertHeicToJpeg),
        ConfigField::KeepHeicOriginal => Some(Switch::KeepHeicOriginal),
        ConfigField::OldCli => Some(Switch::OldCli),
        _ => None,
    }
}

/// The current value of a setting as the menu shows it; `None` for the
/// fractional settings, which the caller formats.
pub fn config_value_display(config: &Config, field: ConfigField) -> (r: Option<String>)
    ensures
        match r {
            Some(s) => cli_display(config@, field) == Some(s@),
            None => cli_display(config@, field) is None,
        },
{
    let t = &config.texts;
    let n = &config.counts;
    let d = &config.durations;
    match field {
        ConfigField::SavePath => Some(t.save_path.clone()),
        ConfigField::NovelFormat => Some(t.novel_format.clone()),
        ConfigField::PreferredBookNameField => {
            let f = to_chars(t.preferred_book_name_field.as_str());
            Some(String::from_str(book_name_field_to_chinese(f.as_slice())))
        },
        ConfigField::AudiobookVoice => Some(t.audiobook_voice.clone()),
        ConfigField::AudiobookRate => Some(t.audiobook_rate.clone()),
        ConfigField::AudiobookVolume => Some(t.audiobook_volume.clone()),
        ConfigField::AudiobookPitch => Some(t.audiobook_pitch.clone()),
        ConfigField::AudiobookConcurrency => Some(decimal_string(n.audiobook_concurrency as u64)),
        ConfigField::AudiobookFormat => Some(t.audiobook_format.clone()),
        ConfigField::MaxWorkers => Some(decimal_string(n.max_workers as u64)),
        ConfigField::RequestTimeout => Some(decimal_string(d.request_timeout)),
        ConfigField::MaxRetries => Some(decimal_string(config.max_retries as u64)),
        ConfigField::MinWaitTime => Some(decimal_string(d.min_wait_time)),
        ConfigField::MaxWaitTime => Some(decimal_string(d.max_wait_time)),
        ConfigField::MinConnectTimeout => None,
        ConfigField::ApiEndpoints => Some(join_with_comma(&config.api_endpoints)),
        ConfigField::SegmentCommentsTopN => Some(decimal_string(n.segment_comments_top_n as u64)),
        ConfigField::SegmentCommentsWorkers => Some(decimal_string(n.segment_comments_workers as u64)),
        ConfigField::MediaDownloadWorkers => Some(decimal_string(n.media_download_workers as u64)),
        ConfigField::BlockedMediaDomains => Some(join_with_comma(&config.blocked_media_domains)),
        ConfigField::JpegQuality => Some(decimal_string(config.jpeg_quality as u64)),
        ConfigField::MediaLimitPerChapter => Some(decimal_string(n.media_limit_per_chapter as u64)),
        ConfigField::MediaMaxDimensionPx => Some(decimal_string(config.media_max_dimension_px as u64)),
        ConfigField::FirstLineIndentEm => None,
        _ => match switch_of(field) {
            Some(s) => Some(bool_string(config.switch(s))),
            None => None,
        },
    }
}

/// Sets an on/off field.
pub fn set_bool(config: &mut Config, field: ConfigField, v: bool) -> (r: Result<EditEffect, ConfigError>)
    ensures
        edit_holds(r, old(config)@, final(config)@, bool_edit(old(config)@, field, v)),
{
    match switch_of(field) {
        None => Err(ConfigError::NotBoolField),
        Some(s) => {
            if v && s == Switch::EnableSegmentComments {
                let fmt = to_chars(config.texts.novel_format.as_str());
                if chars_eq_ignore_case(fmt.as_slice(), "txt") {
                    config.set_text(TextSetting::NovelFormat, String::from_str("epub"));
                    config.set_switch(s, v);
                    return Ok(EditEffect::SwitchedToEpub);
                }
            }
            config.set_switch(s, v);
            Ok(EditEffect::Nothing)
        },
    }
}

/// Checks a value for a positive count setting and stores it.
fn store_positive_count(config: &mut Config, s: Count, v: i64, err: ConfigError) -> (r: Result<
    EditEffect,
    ConfigError,
>)
    ensures
        v <= 0 ==> r == Err::<EditEffect, ConfigError>(err) && final(config)@ == old(config)@,
        v > 0 ==> r == Ok::<EditEffect, ConfigError>(EditEffect::Nothing) && final(config)@
            == with_count(old(config)@, s, v as usize),
{
    if v <= 0 {
        return Err(err);
    }
    config.set_count(s, v as usize);
    Ok(EditEffect::Nothing)
}

/// Sets an integer field.
pub fn set_int(config: &mut Config, field: ConfigField, v: i64) -> (r: Result<EditEffect, ConfigError>)
    ensures
        edit_holds(r, old(config)@, final(config)@, int_edit(old(config)@, field, v)),
{
    match field {
        ConfigField::MaxWorkers => store_positive_count(
            config,
            Count::MaxWorkers,
            v,
            ConfigError::MaxWorkersNotPositive,
        ),
        ConfigField::RequestTimeout => {
            if v <= 0 {
                return Err(ConfigError::RequestTimeoutNotPositive);
            }
            config.set_duration(Duration::RequestTimeout, v as u64);
            Ok(EditEffect::Nothing)
        },
        ConfigField::MaxRetries => {
            if v < 0 {
                return Err(ConfigError::MaxRetriesNegative);
            }
            config.set_max_retries(v as u32);
            Ok(EditEffect::Nothing)
        },
        ConfigField::MinWaitTime => {
            if v < 0 {
                return Err(ConfigError::MinWaitNegative);
            }
            let w = v as u64;
            if w > config.durations.max_wait_time {
                return Err(ConfigError::MinWaitAboveMax);
            }
            config.set_duration(Duration::MinWaitTime, w);
            Ok(EditEffect::Nothing)
        },
        ConfigField::MaxWaitTime => {
            if v < 0 {
                return Err(ConfigError::MaxWaitNegative);
            }
            let w = v as u64;
            if w < config.durations.min_wait_time {
                return Err(ConfigError::MaxWaitBelowMin);
            }
            config.set_duration(Duration::MaxWaitTime, w);
            Ok(EditEffect::Nothing)
        },
        ConfigField::AudiobookConcurrency => store_positive_count(
            config,
            Count::AudiobookConcurrency,
            v,
            ConfigError::AudiobookConcurrencyNotPositive,
        ),
        ConfigField::SegmentCommentsTopN => store_positive_count(
            config,
            Count::SegmentCommentsTopN,
            v,
            ConfigError::SegmentTopNNotPositive,
        ),
        ConfigField::SegmentCommentsWorkers => store_positive_count(
            config,
            Count::SegmentCommentsWorkers,
            v,
            ConfigError::SegmentWorkersNotPositive,
        ),
        ConfigField::MediaDownloadWorkers => store_positive_count(
            config,
            Count::MediaDownloadWorkers,
            v,
            ConfigError::MediaWorkersNotPositive,
        ),
        ConfigField::JpegQuality => {
            if !(0 <= v && v <= 100) {
                return Err(ConfigError::JpegQualityOutOfRange);
            }
            config.set_jpeg_quality(v as u8);
            Ok(EditEffect::Nothing)
        },
        ConfigField::MediaLimitPerChapter => {
            if v < 0 {
                return Err(ConfigError::MediaLimitNegative);
            }
            config.set_count(Count::MediaLimitPerChapter, v as usize);
            Ok(EditEffect::Nothing)
        },
        ConfigField::MediaMaxDimensionPx => {
            if v < 0 {
                return Err(ConfigError::MediaDimensionNegative);
            }
            config.set_media_max_dimension(v as u32);
            Ok(EditEffect::Nothing)
        },
        _ => Err(ConfigError::NotIntField),
    }
}

/// Sets a text field from the typed value.
pub fn set_string(config: &mut Config, field: ConfigField, v: &str) -> (r: Result<EditEffect, ConfigError>)
    ensures
        edit_holds(r, old(config)@, final(config)@, string_edit(old(config)@, field, v@)),
{
    let chars = to_chars(v);
    let trimmed = trim_chars(chars.as_slice());
    let lower = ascii_lower_chars(trimmed.as_slice());
    match field {
        ConfigField::SavePath => {
            if trimmed.len() == 0 {
                return Err(ConfigError::EmptySavePath);
            }
            config.set_text(TextSetting::SavePath, from_chars(trimmed.as_slice()));
            Ok(EditEffect::CreateDirectory)
        },
        ConfigField::NovelFormat => {
            let is_txt = chars_is(lower.as_slice(), "txt");
            if !is_txt && !chars_is(lower.as_slice(), "epub") {
                return Err(ConfigError::NovelFormatUnsupported);
            }
            if is_txt && config.switches.enable_segment_comments {
                config.set_switch(Switch::EnableSegmentComments, false);
                config.set_text(TextSetting::NovelFormat, from_chars(lower.as_slice()));
                return Ok(EditEffect::DisabledSegmentComments);
            }
            config.set_text(TextSetting::NovelFormat, from_chars(lower.as_slice()));
            Ok(EditEffect::Nothing)
        },
        ConfigField::AudiobookVoice => {
            config.set_text(TextSetting::AudiobookVoice, String::from_str(v));
            Ok(EditEffect::Nothing)
        },
        ConfigField::AudiobookRate => {
            config.set_text(TextSetting::AudiobookRate, String::from_str(v));
            Ok(EditEffect::Nothing)
        },
        ConfigField::AudiobookVolume => {
            config.set_text(TextSetting::AudiobookVolume, String::from_str(v));
            Ok(EditEffect::Nothing)
        },
        ConfigField::AudiobookPitch => {
            config.set_text(TextSetting::AudiobookPitch, String::from_str(v));
            Ok(EditEffect::Nothing)
        },
        ConfigField::AudiobookFormat => {
            if !chars_is(lower.as_slice(), "mp3") && !chars_is(lower.as_slice(), "wav") {
                return Err(ConfigError::AudiobookFormatUnsupported);
            }
            config.set_text(TextSetting::AudiobookFormat, from_chars(lower.as_slice()));
            Ok(EditEffect::Nothing)
        },
        ConfigField::PreferredBookNameField => {
            match chinese_to_book_name_field(trimmed.as_slice()) {
                Some(name) => {
                    config.set_text(TextSetting::PreferredBookNameField, name);
                },
                None => {
                    if !is_book_name_field(lower.as_slice()) {
                        return Err(ConfigError::BookNameFieldUnsupported);
                    }
                    config.set_text(TextSetting::PreferredBookNameField, from_chars(lower.as_slice()));
                },
            }
            Ok(EditEffect::Nothing)
        },
        _ => Err(ConfigError::NotStringField),
    }
}

/// Replaces a list field.
pub fn set_list(config: &mut Config, field: ConfigField, v: Vec<String>) -> (r: Result<EditEffect, ConfigError>)
    ensures
        edit_holds(r, old(config)@, final(config)@, list_edit(old(config)@, field, views(v@))),
{
    match field {
        ConfigField::ApiEndpoints => {
            config.set_list_setting(ListSetting::ApiEndpoints, v);
            Ok(EditEffect::Nothing)
        },
        ConfigField::BlockedMediaDomains => {
            config.set_list_setting(ListSetting::BlockedMediaDomains, v);
            Ok(EditEffect::Nothing)
        },
        _ => Err(ConfigError::NotListField),
    }
}

/// Applies the text typed for a menu option. For a fractional option the
/// settings stay as they are and `FractionalInput` asks the caller to parse
/// and store the value.
pub fn apply_config_edit(config: &mut Config, opt: ConfigOption, text: &str) -> (r: Result<
    EditEffect,
    ConfigError,
>)
    ensures
        edit_holds(r, old(config)@, final(config)@, menu_edit(old(config)@, opt.field, opt.ty, text@)),
{
    let chars = to_chars(text);
    match opt.ty {
        ConfigValueType::Bool => {
            let l = ascii_lower_chars(chars.as_slice());
            let l = l.as_slice();
            let v = chars_is(l, "true") || chars_is(l, "1") || chars_is(l, "yes") || chars_is(l, "y");
            set_bool(config, opt.field, v)
        },
        ConfigValueType::Int => match parse_i64(chars.as_slice()) {
            Some(v) => set_int(config, opt.field, v),
            None => Err(ConfigError::IntegerExpected),
        },
        ConfigValueType::Float => Ok(EditEffect::FractionalInput),
        ConfigValueType::String => set_string(config, opt.field, text),
        ConfigValueType::Selection => set_string(config, opt.field, text),
        ConfigValueType::List => {
            let parts = split_trimmed(chars.as_slice(), false);
            set_list(config, opt.field, parts)
        },
    }
}

// ----------------------------------------------------------------------
// What every edit keeps
// ----------------------------------------------------------------------

/// Paragraph comments are never on while the format is txt.
pub open spec fn comments_format_ok(c: ConfigView) -> bool {
    c.switches.enable_segment_comments ==> !eq_ignore_case(c.texts.novel_format, "txt"@)
}

/// An edit from the menu never leaves the shortest wait above the longest.
pub proof fn lemma_menu_edit_keeps_wait_order(
    c: ConfigView,
    f: ConfigField,
    ty: ConfigValueType,
    text: Seq<char>,
)
    requires
        wait_ordered(c),
    ensures
        match menu_edit(c, f, ty, text) {
            Ok((c2, _)) => wait_ordered(c2),
            Err(_) => true,
        },
{
}

/// An edit from the menu never leaves the JPEG quality above 100.
pub proof fn lemma_menu_edit_keeps_jpeg_quality(
    c: ConfigView,
    f: ConfigField,
    ty: ConfigValueType,
    text: Seq<char>,
)
    requires
        jpeg_quality_valid(c),
    ensures
        match menu_edit(c, f, ty, text) {
            Ok((c2, _)) => jpeg_quality_valid(c2),
            Err(_) => true,
        },
{
}

proof fn lemma_epub_is_not_txt()
    ensures
        !eq_ignore_case("epub"@, "txt"@),
        ascii_lower("epub"@) == "epub"@,
{
    reveal_strlit("txt");
    reveal_strlit("epub");
    assert(ascii_lower("epub"@)[0] == 'e');
    assert(ascii_lower("txt"@)[0] == 't');
    assert(ascii_lower("epub"@) =~= "epub"@);
}

proof fn lemma_bool_edit_keeps_comments_format(c: ConfigView, f: ConfigField, v: bool)
    requires
        comments_format_ok(c),
    ensures
        match bool_edit(c, f, v) {
            Ok((c2, _)) => comments_format_ok(c2),
            Err(_) => true,
        },
{
    lemma_epub_is_not_txt();
}

proof fn lemma_string_edit_keeps_comments_format(c: ConfigView, f: ConfigField, v: Seq<char>)
    requires
        comments_format_ok(c),
    ensures
        match string_edit(c, f, v) {
            Ok((c2, _)) => comments_format_ok(c2),
            Err(_) => true,
        },
{
    lemma_epub_is_not_txt();
    let lower = ascii_lower(trim(v));
    if f == ConfigField::NovelFormat && lower == "epub"@ {
        assert(!eq_ignore_case(lower, "txt"@));
    }
}

/// An edit from the menu never leaves paragraph comments on with the txt
/// format: turning them on moves txt to epub, and choosing txt turns them
/// off.
pub proof fn lemma_menu_edit_keeps_comments_format(
    c: ConfigView,
    f: ConfigField,
    ty: ConfigValueType,
    text: Seq<char>,
)
    requires
        comments_format_ok(c),
    ensures
        match menu_edit(c, f, ty, text) {
            Ok((c2, _)) => comments_format_ok(c2),
            Err(_) => true,
        },
{
    match ty {
        ConfigValueType::Bool => lemma_bool_edit_keeps_comments_format(c, f, is_yes(text)),
        ConfigValueType::String => lemma_string_edit_keeps_comments_format(c, f, text),
        ConfigValueType::Selection => lemma_string_edit_keeps_comments_format(c, f, text),
        _ => {},
    }
}

proof fn lemma_bool_text_is_lower(b: bool)
    ensures
        ascii_lower(bool_text(b)) == bool_text(b),
        is_yes(bool_text(b)) == b,
{
    reveal_strlit("true");
    reveal_strlit("false");
    reveal_strlit("1");
    reveal_strlit("yes");
    reveal_strlit("y");
    assert(ascii_lower("true"@) =~= "true"@);
    assert(ascii_lower("false"@) =~= "false"@);
}

/// Entering the value shown for an on/off setting leaves the settings as
/// they were.
pub proof fn lemma_menu_bool_round_trip(c: ConfigView, f: ConfigField)
    requires
        comments_format_ok(c),
        cli_switch(f) is Some,
    ensures
        cli_display(c, f) is Some,
        menu_edit(c, f, ConfigValueType::Bool, cli_display(c, f).unwrap()) == Ok::<
            (ConfigView, EditEffect),
            ConfigError,
        >((c, EditEffect::Nothing)),
{
    let s = cli_switch(f).unwrap();
    lemma_bool_text_is_lower(switch_value(c, s));
    lemma_with_same_switch(c, s);
    match f {
        ConfigField::BulkFiles => {},
        ConfigField::AutoClearDump => {},
        ConfigField::AllowOverwriteFiles => {},
        ConfigField::EnableAudiobook => {},
        ConfigField::UseOfficialApi => {},
        ConfigField::EnableSegmentComments => {},
        ConfigField::DownloadCommentImages => {},
        ConfigField::DownloadCommentAvatars => {},
        ConfigField::ForceConvertImagesToJpeg => {},
        ConfigField::JpegRetryConvert => {},
        ConfigField::ConvertHeicToJpeg => {},
        ConfigField::KeepHeicOriginal => {},
        ConfigField::OldCli => {},
        _ => {},
    }
}

proof fn lemma_switch_set(c: ConfigView, s: Switch, v: bool)
    ensures
        switch_value(with_switch(c, s, v), s) == v,
{
    match s {
        Switch::AskFormatAfterDownload => {},
        Switch::BulkFiles => {},
        Switch::AutoClearDump => {},
        Switch::AutoOpenDownloadedFiles => {},
        Switch::AllowOverwriteFiles => {},
        Switch::OldCli => {},
        Switch::EnableSegmentComments => {},
        Switch::UseOfficialApi => {},
        Switch::EnableAudiobook => {},
        Switch::DownloadCommentImages => {},
        Switch::DownloadCommentAvatars => {},
        Switch::ForceConvertImagesToJpeg => {},
        Switch::JpegRetryConvert => {},
        Switch::ConvertHeicToJpeg => {},
        Switch::KeepHeicOriginal => {},
    }
}

/// Any text typed for an on/off option is accepted: the words `true`, `1`,
/// `yes` and `y`, in any ASCII case, turn the setting on, and every other
/// text turns it off.
pub proof fn lemma_menu_bool_words(c: ConfigView, f: ConfigField, text: Seq<char>)
    requires
        cli_switch(f) is Some,
    ensures
        menu_edit(c, f, ConfigValueType::Bool, text) is Ok,
        switch_value(menu_edit(c, f, ConfigValueType::Bool, text)->Ok_0.0, cli_switch(f).unwrap())
            == ({
            let l = ascii_lower(text);
            l == seq!['t', 'r', 'u', 'e'] || l == seq!['1'] || l == seq!['y', 'e', 's'] || l
                == seq!['y']
        }),
{
    reveal_strlit("true");
    reveal_strlit("1");
    reveal_strlit("yes");
    reveal_strlit("y");
    assert("true"@ =~= seq!['t', 'r', 'u', 'e']);
    assert("1"@ =~= seq!['1']);
    assert("yes"@ =~= seq!['y', 'e', 's']);
    assert("y"@ =~= seq!['y']);
    let s = cli_switch(f).unwrap();
    let v = is_yes(text);
    lemma_switch_set(c, s, v);
    if s == Switch::EnableSegmentComments && v && eq_ignore_case(c.texts.novel_format, "txt"@) {
        lemma_switch_set(with_text(c, TextSetting::NovelFormat, "epub"@), s, v);
    }
}

/// The number held by an integer setting of the menu.
pub open spec fn int_setting(c: ConfigView, f: ConfigField) -> Option<nat> {
    match f {
        ConfigField::AudiobookConcurrency => Some(c.counts.audiobook_concurrency as nat),
        ConfigField::MaxWorkers => Some(c.counts.max_workers as nat),
        ConfigField::SegmentCommentsTopN => Some(c.counts.segment_comments_top_n as nat),
        ConfigField::SegmentCommentsWorkers => Some(c.counts.segment_comments_workers as nat),
        ConfigField::MediaDownloadWorkers => Some(c.counts.media_download_workers as nat),
        ConfigField::MediaLimitPerChapter => Some(c.counts.media_limit_per_chapter as nat),
        ConfigField::RequestTimeout => Some(c.durations.request_timeout as nat),
        ConfigField::MinWaitTime => Some(c.durations.min_wait_time as nat),
        ConfigField::MaxWaitTime => Some(c.durations.max_wait_time as nat),
        ConfigField::MaxRetries => Some(c.max_retries as nat),
        ConfigField::JpegQuality => Some(c.jpeg_quality as nat),
        ConfigField::MediaMaxDimensionPx => Some(c.media_max_dimension_px as nat),
        _ => None,
    }
}

/// The number of an integer setting is one the menu accepts for it: it
/// fits a signed 64-bit integer, the counts and the timeout that must be
/// positive are, a wait keeps the waits ordered, and the JPEG quality is a
/// percentage.
pub open spec fn int_accepted(c: ConfigView, f: ConfigField) -> bool {
    &&& (int_setting(c, f) matches Some(n) ==> n <= i64::MAX)
    &&& match f {
        ConfigField::MaxWorkers => c.counts.max_workers > 0,
        ConfigField::AudiobookConcurrency => c.counts.audiobook_concurrency > 0,
        ConfigField::SegmentCommentsTopN => c.counts.segment_comments_top_n > 0,
        ConfigField::SegmentCommentsWorkers => c.counts.segment_comments_workers > 0,
        ConfigField::MediaDownloadWorkers => c.counts.media_download_workers > 0,
        ConfigField::RequestTimeout => c.durations.request_timeout > 0,
        ConfigField::MinWaitTime => wait_ordered(c),
        ConfigField::MaxWaitTime => wait_ordered(c),
        ConfigField::JpegQuality => jpeg_quality_valid(c),
        _ => true,
    }
}

/// Entering the number shown for an integer setting leaves the settings as
/// they were, where that number is one the menu accepts for the setting.
pub proof fn lemma_menu_int_round_trip(c: ConfigView, f: ConfigField)
    requires
        int_setting(c, f) is Some,
        int_accepted(c, f),
    ensures
        cli_display(c, f) == Some(decimal(int_setting(c, f).unwrap())),
        menu_edit(c, f, ConfigValueType::Int, cli_display(c, f).unwrap()) == Ok::<
            (ConfigView, EditEffect),
            ConfigError,
        >((c, EditEffect::Nothing)),
{
    let n = int_setting(c, f).unwrap();
    lemma_decimal_reads_as_i64(n);
    match f {
        ConfigField::AudiobookConcurrency => lemma_with_same_count(c, Count::AudiobookConcurrency),
        ConfigField::MaxWorkers => lemma_with_same_count(c, Count::MaxWorkers),
        ConfigField::SegmentCommentsTopN => lemma_with_same_count(c, Count::SegmentCommentsTopN),
        ConfigField::SegmentCommentsWorkers => lemma_with_same_count(c, Count::SegmentCommentsWorkers),
        ConfigField::MediaDownloadWorkers => lemma_with_same_count(c, Count::MediaDownloadWorkers),
        ConfigField::MediaLimitPerChapter => lemma_with_same_count(c, Count::MediaLimitPerChapter),
        ConfigField::RequestTimeout => lemma_with_same_duration(c, Duration::RequestTimeout),
        ConfigField::MinWaitTime => lemma_with_same_duration(c, Duration::MinWaitTime),
        ConfigField::MaxWaitTime => lemma_with_same_duration(c, Duration::MaxWaitTime),
        ConfigField::MaxRetries => {},
        ConfigField::JpegQuality => {},
        ConfigField::MediaMaxDimensionPx => {},
        _ => {},
    }
}

// ----------------------------------------------------------------------
// The settings menu, step by step
// ----------------------------------------------------------------------

/// Where the settings menu is: choosing a line, typing the new value of
/// option `i`, or picking it from the list of choices.
#[derive(Clone, Copy, Debug, PartialEq, Eq, Structural)]
pub enum SettingsState {
    Choosing,
    Editing(usize),
    Selecting(usize),
}

/// What the caller does after a line was typed in the settings menu.
#[derive(Clone, Copy, Debug, PartialEq, Eq, Structural)]
pub enum SettingsAction {
    /// `0`: back to the main prompt.
    Leave,
    /// Not a number: say so and show the menu again.
    NotNumber,
    /// No such line: say so and show the menu again.
    OutOfRange,
    /// Ask for the new value of the option.
    AskValue,
    /// Show the choices of the option.
    AskSelection,
    /// Nothing typed or nothing picked: the edit is given up.
    Cancelled,
    /// The pick was no number: say so; the edit is given up.
    SelectionNotNumber,
    /// No such choice: say so; the edit is given up.
    SelectionOutOfRange,
    /// The settings changed: the caller carries out the effect, writes
    /// `config.yml` and shows the new value.
    Applied(EditEffect),
    /// The value was refused: the menu ends with this error.
    Failed(ConfigError),
}

/// The outcome of applying `text` to option `i`.
pub open spec fn edit_outcome(c: ConfigView, i: int, text: Seq<char>) -> (
    SettingsState,
    SettingsAction,
    ConfigView,
) {
    match menu_edit(c, cli_field_at(i), cli_option_type(cli_field_at(i)), text) {
        Ok((c2, e)) => (SettingsState::Choosing, SettingsAction::Applied(e), c2),
        Err(e) => (SettingsState::Choosing, SettingsAction::Failed(e), c),
    }
}

/// One step of the settings menu: the next state, what to do, and the
/// settings afterwards, for a line typed in `state`.
pub open spec fn settings_step_of(state: SettingsState, c: ConfigView, line: Seq<char>) -> (
    SettingsState,
    SettingsAction,
    ConfigView,
) {
    match state {
        SettingsState::Choosing => match menu_choice_of(line, OPTION_COUNT as nat) {
            MenuChoice::Back => (SettingsState::Choosing, SettingsAction::Leave, c),
            MenuChoice::NotNumber => (SettingsState::Choosing, SettingsAction::NotNumber, c),
            MenuChoice::OutOfRange => (SettingsState::Choosing, SettingsAction::OutOfRange, c),
            MenuChoice::Edit(i) => if cli_option_type(cli_field_at(i as int))
                == ConfigValueType::Selection {
                (SettingsState::Selecting(i), SettingsAction::AskSelection, c)
            } else {
                (SettingsState::Editing(i), SettingsAction::AskValue, c)
            },
        },
        SettingsState::Editing(i) => if i >= OPTION_COUNT {
            (SettingsState::Choosing, SettingsAction::OutOfRange, c)
        } else if trim(line).len() == 0 {
            (SettingsState::Choosing, SettingsAction::Cancelled, c)
        } else {
            edit_outcome(c, i as int, trim(line))
        },
        SettingsState::Selecting(i) => {
            let t = trim(line);
            if i >= OPTION_COUNT {
                (SettingsState::Choosing, SettingsAction::OutOfRange, c)
            } else if t == "0"@ || t.len() == 0 {
                (SettingsState::Choosing, SettingsAction::Cancelled, c)
            } else {
                match parse_unsigned(t, usize::MAX as nat) {
                    None => (SettingsState::Choosing, SettingsAction::SelectionNotNumber, c),
                    Some(n) => if n == 0 || n > 4 {
                        (SettingsState::Choosing, SettingsAction::SelectionOutOfRange, c)
                    } else {
                        edit_outcome(c, i as int, selection_labels()[n - 1])
                    },
                }
            }
        },
    }
}

fn apply_option(config: &mut Config, i: usize, text: &str) -> (r: (SettingsState, SettingsAction))
    requires
        i < OPTION_COUNT,
    ensures
        ({
            let o = edit_outcome(old(config)@, i as int, text@);
            r == (o.0, o.1) && final(config)@ == o.2
        }),
{
    let opt = option_for(field_at(i));
    match apply_config_edit(config, opt, text) {
        Ok(e) => (SettingsState::Choosing, SettingsAction::Applied(e)),
        Err(e) => (SettingsState::Choosing, SettingsAction::Failed(e)),
    }
}

/// One step of the settings menu.
pub fn settings_step(state: SettingsState, config: &mut Config, line: &str) -> (r: (
    SettingsState,
    SettingsAction,
))
    ensures
        ({
            let o = settings_step_of(state, old(config)@, line@);
            r == (o.0, o.1) && final(config)@ == o.2
        }),
{
    match state {
        SettingsState::Choosing => match parse_menu_choice(line, OPTION_COUNT) {
            MenuChoice::Back => (SettingsState::Choosing, SettingsAction::Leave),
            MenuChoice::NotNumber => (SettingsState::Choosing, SettingsAction::NotNumber),
            MenuChoice::OutOfRange => (SettingsState::Choosing, SettingsAction::OutOfRange),
            MenuChoice::Edit(i) => {
                let opt = option_for(field_at(i));
                if opt.ty == ConfigValueType::Selection {
                    (SettingsState::Selecting(i), SettingsAction::AskSelection)
                } else {
                    (SettingsState::Editing(i), SettingsAction::AskValue)
                }
            },
        },
        SettingsState::Editing(i) => {
            if i >= OPTION_COUNT {
                return (SettingsState::Choosing, SettingsAction::OutOfRange);
            }
            match edit_input(line) {
                None => (SettingsState::Choosing, SettingsAction::Cancelled),
                Some(t) => apply_option(config, i, t.as_str()),
            }
        },
        SettingsState::Selecting(i) => {
            if i >= OPTION_COUNT {
                return (SettingsState::Choosing, SettingsAction::OutOfRange);
            }
            match selection_choice(line) {
                SelectionChoice::Cancel => (SettingsState::Choosing, SettingsAction::Cancelled),
                SelectionChoice::NotNumber => (
                    SettingsState::Choosing,
                    SettingsAction::SelectionNotNumber,
                ),
                SelectionChoice::OutOfRange => (
                    SettingsState::Choosing,
                    SettingsAction::SelectionOutOfRange,
                ),
                SelectionChoice::Pick(l) => apply_option(config, i, l.as_str()),
            }
        },
    }
}

/// The settings menu changes the settings only in a step that applies a
/// value; a refused value leaves them as they were and ends the menu.
pub proof fn lemma_settings_change_only_when_applied(
    state: SettingsState,
    c: ConfigView,
    line: Seq<char>,
)
    ensures
        ({
            let o = settings_step_of(state, c, line);
            &&& (o.2 != c ==> o.1 is Applied)
            &&& (o.1 is Failed ==> o.2 == c && o.0 == SettingsState::Choosing)
        }),
{
}

} // verus!
