//! The downloader settings that the configuration editors change, their
//! abstract view, and the errors that an edit can end in.
//!
//! The settings are kept in groups of one kind each. The two fractional
//! settings (first-line indent and minimum connect timeout) are held by the
//! application beside this record.

use vstd::prelude::*;
use crate::text::views;

verus! {

/// Names of the text settings.
#[derive(Clone, Copy, Debug, PartialEq, Eq, Structural)]
pub enum TextSetting {
    SavePath,
    NovelFormat,
    PreferredBookNameField,
    AudiobookVoice,
    AudiobookRate,
    AudiobookVolume,
    AudiobookPitch,
    AudiobookFormat,
    AudiobookTtsProvider,
    AudiobookTtsApiUrl,
    AudiobookTtsApiToken,
    AudiobookTtsModel,
}

/// The text settings.
pub struct Texts {
    pub save_path: String,
    pub novel_format: String,
    pub preferred_book_name_field: String,
    pub audiobook_voice: String,
    pub audiobook_rate: String,
    pub audiobook_volume: String,
    pub audiobook_pitch: String,
    pub audiobook_format: String,
    pub audiobook_tts_provider: String,
    pub audiobook_tts_api_url: String,
    pub audiobook_tts_api_token: String,
    pub audiobook_tts_model: String,
}

/// The text settings as character sequences.
pub struct TextsView {
    pub save_path: Seq<char>,
    pub novel_format: Seq<char>,
    pub preferred_book_name_field: Seq<char>,
    pub audiobook_voice: Seq<char>,
    pub audiobook_rate: Seq<char>,
    pub audiobook_volume: Seq<char>,
    pub audiobook_pitch: Seq<char>,
    pub audiobook_format: Seq<char>,
    pub audiobook_tts_provider: Seq<char>,
    pub audiobook_tts_api_url: Seq<char>,
    pub audiobook_tts_api_token: Seq<char>,
    pub audiobook_tts_model: Seq<char>,
}

impl View for Texts {
    type V = TextsView;

    open spec fn view(&self) -> TextsView {
        TextsView {
            save_path: self.save_path@,
            novel_format: self.novel_format@,
            preferred_book_name_field: self.preferred_book_name_field@,
            audiobook_voice: self.audiobook_voice@,
            audiobook_rate: self.audiobook_rate@,
            audiobook_volume: self.audiobook_volume@,
            audiobook_pitch: self.audiobook_pitch@,
            audiobook_format: self.audiobook_format@,
            audiobook_tts_provider: self.audiobook_tts_provider@,
            audiobook_tts_api_url: self.audiobook_tts_api_url@,
            audiobook_tts_api_token: self.audiobook_tts_api_token@,
            audiobook_tts_model: self.audiobook_tts_model@,
        }
    }
}

/// The value of a text setting.
pub open spec fn texts_get(t: TextsView, s: TextSetting) -> Seq<char> {
    match s {
        TextSetting::SavePath => t.save_path,
        TextSetting::NovelFormat => t.novel_format,
        TextSetting::PreferredBookNameField => t.preferred_book_name_field,
        TextSetting::AudiobookVoice => t.audiobook_voice,
        TextSetting::AudiobookRate => t.audiobook_rate,
        TextSetting::AudiobookVolume => t.audiobook_volume,
        TextSetting::AudiobookPitch => t.audiobook_pitch,
        TextSetting::AudiobookFormat => t.audiobook_format,
        TextSetting::AudiobookTtsProvider => t.audiobook_tts_provider,
        TextSetting::AudiobookTtsApiUrl => t.audiobook_tts_api_url,
        TextSetting::AudiobookTtsApiToken => t.audiobook_tts_api_token,
        TextSetting::AudiobookTtsModel => t.audiobook_tts_model,
    }
}

/// The text settings with one replaced by `v`.
pub open spec fn texts_with(t: TextsView, s: TextSetting, v: Seq<char>) -> TextsView {
    match s {
        TextSetting::SavePath => TextsView { save_path: v, ..t },
        TextSetting::NovelFormat => TextsView { novel_format: v, ..t },
        TextSetting::PreferredBookNameField => TextsView { preferred_book_name_field: v, ..t },
        TextSetting::AudiobookVoice => TextsView { audiobook_voice: v, ..t },
        TextSetting::AudiobookRate => TextsView { audiobook_rate: v, ..t },
        TextSetting::AudiobookVolume => TextsView { audiobook_volume: v, ..t },
        TextSetting::AudiobookPitch => TextsView { audiobook_pitch: v, ..t },
        TextSetting::AudiobookFormat => TextsView { audiobook_format: v, ..t },
        TextSetting::AudiobookTtsProvider => TextsView { audiobook_tts_provider: v, ..t },
        TextSetting::AudiobookTtsApiUrl => TextsView { audiobook_tts_api_url: v, ..t },
        TextSetting::AudiobookTtsApiToken => TextsView { audiobook_tts_api_token: v, ..t },
        TextSetting::AudiobookTtsModel => TextsView { audiobook_tts_model: v, ..t },
    }
}

impl Texts {
    /// Reads a text setting.
    pub fn get(&self, s: TextSetting) -> (r: String)
        ensures
            r@ == texts_get(self@, s),
    {
        match s {
            TextSetting::SavePath => self.save_path.clone(),
            TextSetting::NovelFormat => self.novel_format.clone(),
            TextSetting::PreferredBookNameField => self.preferred_book_name_field.clone(),
            TextSetting::AudiobookVoice => self.audiobook_voice.clone(),
            TextSetting::AudiobookRate => self.audiobook_rate.clone(),
            TextSetting::AudiobookVolume => self.audiobook_volume.clone(),
            TextSetting::AudiobookPitch => self.audiobook_pitch.clone(),
            TextSetting::AudiobookFormat => self.audiobook_format.clone(),
            TextSetting::AudiobookTtsProvider => self.audiobook_tts_provider.clone(),
            TextSetting::AudiobookTtsApiUrl => self.audiobook_tts_api_url.clone(),
            TextSetting::AudiobookTtsApiToken => self.audiobook_tts_api_token.clone(),
            TextSetting::AudiobookTtsModel => self.audiobook_tts_model.clone(),
        }
    }

    /// Replaces a text setting.
    pub fn set(&mut self, s: TextSetting, v: String)
        ensures
            final(self)@ == texts_with(old(self)@, s, v@),
    {
        match s {
            TextSetting::SavePath => self.save_path = v,
            TextSetting::NovelFormat => self.novel_format = v,
            TextSetting::PreferredBookNameField => self.preferred_book_name_field = v,
            TextSetting::AudiobookVoice => self.audiobook_voice = v,
            TextSetting::AudiobookRate => self.audiobook_rate = v,
            TextSetting::AudiobookVolume => self.audiobook_volume = v,
            TextSetting::AudiobookPitch => self.audiobook_pitch = v,
            TextSetting::AudiobookFormat => self.audiobook_format = v,
            TextSetting::AudiobookTtsProvider => self.audiobook_tts_provider = v,
            TextSetting::AudiobookTtsApiUrl => self.audiobook_tts_api_url = v,
            TextSetting::AudiobookTtsApiToken => self.audiobook_tts_api_token = v,
            TextSetting::AudiobookTtsModel => self.audiobook_tts_model = v,
        }
    }
}

/// Names of the on/off settings.
#[derive(Clone, Copy, Debug, PartialEq, Eq, Structural)]
pub enum Switch {
    AskFormatAfterDownload,
    BulkFiles,
    AutoClearDump,
    AutoOpenDownloadedFiles,
    AllowOverwriteFiles,
    OldCli,
    EnableSegmentComments,
    UseOfficialApi,
    EnableAudiobook,
    DownloadCommentImages,
    DownloadCommentAvatars,
    ForceConvertImagesToJpeg,
    JpegRetryConvert,
    ConvertHeicToJpeg,
    KeepHeicOriginal,
}

/// The on/off settings.
#[derive(Clone, Copy, Debug)]
pub struct Switches {
    pub ask_format_after_download: bool,
    pub bulk_files: bool,
    pub auto_clear_dump: bool,
    pub auto_open_downloaded_files: bool,
    pub allow_overwrite_files: bool,
    pub old_cli: bool,
    pub enable_segment_comments: bool,
    pub use_official_api: bool,
    pub enable_audiobook: bool,
    pub download_comment_images: bool,
    pub download_comment_avatars: bool,
    pub force_convert_images_to_jpeg: bool,
    pub jpeg_retry_convert: bool,
    pub convert_heic_to_jpeg: bool,
    pub keep_heic_original: bool,
}

/// The value of a switch setting.
pub open spec fn switches_get(t: Switches, s: Switch) -> bool {
    match s {
        Switch::AskFormatAfterDownload => t.ask_format_after_download,
        Switch::BulkFiles => t.bulk_files,
        Switch::AutoClearDump => t.auto_clear_dump,
        Switch::AutoOpenDownloadedFiles => t.auto_open_downloaded_files,
        Switch::AllowOverwriteFiles => t.allow_overwrite_files,
        Switch::OldCli => t.old_cli,
        Switch::EnableSegmentComments => t.enable_segment_comments,
        Switch::UseOfficialApi => t.use_official_api,
        Switch::EnableAudiobook => t.enable_audiobook,
        Switch::DownloadCommentImages => t.download_comment_images,
        Switch::DownloadCommentAvatars => t.download_comment_avatars,
        Switch::ForceConvertImagesToJpeg => t.force_convert_images_to_jpeg,
        Switch::JpegRetryConvert => t.jpeg_retry_convert,
        Switch::ConvertHeicToJpeg => t.convert_heic_to_jpeg,
        Switch::KeepHeicOriginal => t.keep_heic_original,
    }
}

/// The group with one switch setting replaced by `v`.
pub open spec fn switches_with(t: Switches, s: Switch, v: bool) -> Switches {
    match s {
        Switch::AskFormatAfterDownload => Switches { ask_format_after_download: v, ..t },
        Switch::BulkFiles => Switches { bulk_files: v, ..t },
        Switch::AutoClearDump => Switches { auto_clear_dump: v, ..t },
        Switch::AutoOpenDownloadedFiles => Switches { auto_open_downloaded_files: v, ..t },
        Switch::AllowOverwriteFiles => Switches { allow_overwrite_files: v, ..t },
        Switch::OldCli => Switches { old_cli: v, ..t },
        Switch::EnableSegmentComments => Switches { enable_segment_comments: v, ..t },
        Switch::UseOfficialApi => Switches { use_official_api: v, ..t },
        Switch::EnableAudiobook => Switches { enable_audiobook: v, ..t },
        Switch::DownloadCommentImages => Switches { download_comment_images: v, ..t },
        Switch::DownloadCommentAvatars => Switches { download_comment_avatars: v, ..t },
        Switch::ForceConvertImagesToJpeg => Switches { force_convert_images_to_jpeg: v, ..t },
        Switch::JpegRetryConvert => Switches { jpeg_retry_convert: v, ..t },
        Switch::ConvertHeicToJpeg => Switches { convert_heic_to_jpeg: v, ..t },
        Switch::KeepHeicOriginal => Switches { keep_heic_original: v, ..t },
    }
}

impl Switches {
    /// Reads one setting.
    pub fn get(&self, s: Switch) -> (r: bool)
        ensures
            r == switches_get(*self, s),
    {
        match s {
            Switch::AskFormatAfterDownload => self.ask_format_after_download,
            Switch::BulkFiles => self.bulk_files,
            Switch::AutoClearDump => self.auto_clear_dump,
            Switch::AutoOpenDownloadedFiles => self.auto_open_downloaded_files,
            Switch::AllowOverwriteFiles => self.allow_overwrite_files,
            Switch::OldCli => self.old_cli,
            Switch::EnableSegmentComments => self.enable_segment_comments,
            Switch::UseOfficialApi => self.use_official_api,
            Switch::EnableAudiobook => self.enable_audiobook,
            Switch::DownloadCommentImages => self.download_comment_images,
            Switch::DownloadCommentAvatars => self.download_comment_avatars,
            Switch::ForceConvertImagesToJpeg => self.force_convert_images_to_jpeg,
            Switch::JpegRetryConvert => self.jpeg_retry_convert,
            Switch::ConvertHeicToJpeg => self.convert_heic_to_jpeg,
            Switch::KeepHeicOriginal => self.keep_heic_original,
        }
    }

    /// The group with one setting replaced.
    pub fn with(&self, s: Switch, v: bool) -> (r: Switches)
        ensures
            r == switches_with(*self, s, v),
    {
        match s {
            Switch::AskFormatAfterDownload => Switches { ask_format_after_download: v, ..*self },
            Switch::BulkFiles => Switches { bulk_files: v, ..*self },
            Switch::AutoClearDump => Switches { auto_clear_dump: v, ..*self },
            Switch::AutoOpenDownloadedFiles => Switches { auto_open_downloaded_files: v, ..*self },
            Switch::AllowOverwriteFiles => Switches { allow_overwrite_files: v, ..*self },
            Switch::OldCli => Switches { old_cli: v, ..*self },
            Switch::EnableSegmentComments => Switches { enable_segment_comments: v, ..*self },
            Switch::UseOfficialApi => Switches { use_official_api: v, ..*self },
            Switch::EnableAudiobook => Switches { enable_audiobook: v, ..*self },
            Switch::DownloadCommentImages => Switches { download_comment_images: v, ..*self },
            Switch::DownloadCommentAvatars => Switches { download_comment_avatars: v, ..*self },
            Switch::ForceConvertImagesToJpeg => Switches { force_convert_images_to_jpeg: v, ..*self },
            Switch::JpegRetryConvert => Switches { jpeg_retry_convert: v, ..*self },
            Switch::ConvertHeicToJpeg => Switches { convert_heic_to_jpeg: v, ..*self },
            Switch::KeepHeicOriginal => Switches { keep_heic_original: v, ..*self },
        }
    }
}

/// Names of the count settings.
#[derive(Clone, Copy, Debug, PartialEq, Eq, Structural)]
pub enum Count {
    MaxWorkers,
    AudiobookConcurrency,
    SegmentCommentsTopN,
    SegmentCommentsWorkers,
    MediaDownloadWorkers,
    MediaLimitPerChapter,
}

/// The count settings.
#[derive(Clone, Copy, Debug)]
pub struct Counts {
    pub max_workers: usize,
    pub audiobook_concurrency: usize,
    pub segment_comments_top_n: usize,
    pub segment_comments_workers: usize,
    pub media_download_workers: usize,
    pub media_limit_per_chapter: usize,
}

/// The value of a count setting.
pub open spec fn counts_get(t: Counts, s: Count) -> usize {
    match s {
        Count::MaxWorkers => t.max_workers,
        Count::AudiobookConcurrency => t.audiobook_concurrency,
        Count::SegmentCommentsTopN => t.segment_comments_top_n,
        Count::SegmentCommentsWorkers => t.segment_comments_workers,
        Count::MediaDownloadWorkers => t.media_download_workers,
        Count::MediaLimitPerChapter => t.media_limit_per_chapter,
    }
}

/// The group with one count setting replaced by `v`.
pub open spec fn counts_with(t: Counts, s: Count, v: usize) -> Counts {
    match s {
        Count::MaxWorkers => Counts { max_workers: v, ..t },
        Count::AudiobookConcurrency => Counts { audiobook_concurrency: v, ..t },
        Count::SegmentCommentsTopN => Counts { segment_comments_top_n: v, ..t },
        Count::SegmentCommentsWorkers => Counts { segment_comments_workers: v, ..t },
        Count::MediaDownloadWorkers => Counts { media_download_workers: v, ..t },
        Count::MediaLimitPerChapter => Counts { media_limit_per_chapter: v, ..t },
    }
}

impl Counts {
    /// Reads one setting.
    pub fn get(&self, s: Count) -> (r: usize)
        ensures
            r == counts_get(*self, s),
    {
        match s {
            Count::MaxWorkers => self.max_workers,
            Count::AudiobookConcurrency => self.audiobook_concurrency,
            Count::SegmentCommentsTopN => self.segment_comments_top_n,
            Count::SegmentCommentsWorkers => self.segment_comments_workers,
            Count::MediaDownloadWorkers => self.media_download_workers,
            Count::MediaLimitPerChapter => self.media_limit_per_chapter,
        }
    }

    /// The group with one setting replaced.
    pub fn with(&self, s: Count, v: usize) -> (r: Counts)
        ensures
            r == counts_with(*self, s, v),
    {
        match s {
            Count::MaxWorkers => Counts { max_workers: v, ..*self },
            Count::AudiobookConcurrency => Counts { audiobook_concurrency: v, ..*self },
            Count::SegmentCommentsTopN => Counts { segment_comments_top_n: v, ..*self },
            Count::SegmentCommentsWorkers => Counts { segment_comments_workers: v, ..*self },
            Count::MediaDownloadWorkers => Counts { media_download_workers: v, ..*self },
            Count::MediaLimitPerChapter => Counts { media_limit_per_chapter: v, ..*self },
        }
    }
}

/// Names of the settings held as 64-bit numbers: seconds and milliseconds.
#[derive(Clone, Copy, Debug, PartialEq, Eq, Structural)]
pub enum Duration {
    RequestTimeout,
    MinWaitTime,
    MaxWaitTime,
}

/// The settings held as 64-bit numbers: seconds and milliseconds.
#[derive(Clone, Copy, Debug)]
pub struct Durations {
    pub request_timeout: u64,
    pub min_wait_time: u64,
    pub max_wait_time: u64,
}

/// The value of a duration setting.
pub open spec fn durations_get(t: Durations, s: Duration) -> u64 {
    match s {
        Duration::RequestTimeout => t.request_timeout,
        Duration::MinWaitTime => t.min_wait_time,
        Duration::MaxWaitTime => t.max_wait_time,
    }
}

/// The group with one duration setting replaced by `v`.
pub open spec fn durations_with(t: Durations, s: Duration, v: u64) -> Durations {
    match s {
        Duration::RequestTimeout => Durations { request_timeout: v, ..t },
        Duration::MinWaitTime => Durations { min_wait_time: v, ..t },
        Duration::MaxWaitTime => Durations { max_wait_time: v, ..t },
    }
}

impl Durations {
    /// Reads one setting.
    pub fn get(&self, s: Duration) -> (r: u64)
        ensures
            r == durations_get(*self, s),
    {
        match s {
            Duration::RequestTimeout => self.request_timeout,
            Duration::MinWaitTime => self.min_wait_time,
            Duration::MaxWaitTime => self.max_wait_time,
        }
    }

    /// The group with one setting replaced.
    pub fn with(&self, s: Duration, v: u64) -> (r: Durations)
        ensures
            r == durations_with(*self, s, v),
    {
        match s {
            Duration::RequestTimeout => Durations { request_timeout: v, ..*self },
            Duration::MinWaitTime => Durations { min_wait_time: v, ..*self },
            Duration::MaxWaitTime => Durations { max_wait_time: v, ..*self },
        }
    }
}

/// The list settings.
#[derive(Clone, Copy, Debug, PartialEq, Eq, Structural)]
pub enum ListSetting {
    ApiEndpoints,
    BlockedMediaDomains,
}

/// The settings of `config.yml` that the editors read and write.
pub struct Config {
    pub texts: Texts,
    pub switches: Switches,
    pub counts: Counts,
    pub durations: Durations,
    pub max_retries: u32,
    pub jpeg_quality: u8,
    pub media_max_dimension_px: u32,
    pub api_endpoints: Vec<String>,
    pub blocked_media_domains: Vec<String>,
}

/// The settings as mathematical values.
pub struct ConfigView {
    pub texts: TextsView,
    pub switches: Switches,
    pub counts: Counts,
    pub durations: Durations,
    pub max_retries: u32,
    pub jpeg_quality: u8,
    pub media_max_dimension_px: u32,
    pub api_endpoints: Seq<Seq<char>>,
    pub blocked_media_domains: Seq<Seq<char>>,
}

impl View for Config {
    type V = ConfigView;

    open spec fn view(&self) -> ConfigView {
        ConfigView {
            texts: self.texts@,
            switches: self.switches,
            counts: self.counts,
            durations: self.durations,
            max_retries: self.max_retries,
            jpeg_quality: self.jpeg_quality,
            media_max_dimension_px: self.media_max_dimension_px,
            api_endpoints: views(self.api_endpoints@),
            blocked_media_domains: views(self.blocked_media_domains@),
        }
    }
}

/// The value of a text setting.
pub open spec fn text_value(c: ConfigView, s: TextSetting) -> Seq<char> {
    texts_get(c.texts, s)
}

/// The settings with one text setting replaced by `v`.
pub open spec fn with_text(c: ConfigView, s: TextSetting, v: Seq<char>) -> ConfigView {
    ConfigView { texts: texts_with(c.texts, s, v), ..c }
}

/// The value of a switch.
pub open spec fn switch_value(c: ConfigView, s: Switch) -> bool {
    switches_get(c.switches, s)
}

/// The settings with one switch set to `v`.
pub open spec fn with_switch(c: ConfigView, s: Switch, v: bool) -> ConfigView {
    ConfigView { switches: switches_with(c.switches, s, v), ..c }
}

/// The value of a count setting.
pub open spec fn count_value(c: ConfigView, s: Count) -> usize {
    counts_get(c.counts, s)
}

/// The settings with one count setting set to `v`.
pub open spec fn with_count(c: ConfigView, s: Count, v: usize) -> ConfigView {
    ConfigView { counts: counts_with(c.counts, s, v), ..c }
}

/// The value of a duration setting.
pub open spec fn duration_value(c: ConfigView, s: Duration) -> u64 {
    durations_get(c.durations, s)
}

/// The settings with one duration setting set to `v`.
pub open spec fn with_duration(c: ConfigView, s: Duration, v: u64) -> ConfigView {
    ConfigView { durations: durations_with(c.durations, s, v), ..c }
}

/// The value of a list setting.
pub open spec fn list_value(c: ConfigView, s: ListSetting) -> Seq<Seq<char>> {
    match s {
        ListSetting::ApiEndpoints => c.api_endpoints,
        ListSetting::BlockedMediaDomains => c.blocked_media_domains,
    }
}

/// The settings with one list setting replaced by `v`.
pub open spec fn with_list(c: ConfigView, s: ListSetting, v: Seq<Seq<char>>) -> ConfigView {
    match s {
        ListSetting::ApiEndpoints => ConfigView { api_endpoints: v, ..c },
        ListSetting::BlockedMediaDomains => ConfigView { blocked_media_domains: v, ..c },
    }
}

impl Config {
    /// Reads a switch.
    pub fn switch(&self, s: Switch) -> (r: bool)
        ensures
            r == switch_value(self@, s),
    {
        self.switches.get(s)
    }

    /// Sets a switch.
    pub fn set_switch(&mut self, s: Switch, v: bool)
        ensures
            final(self)@ == with_switch(old(self)@, s, v),
    {
        self.switches = self.switches.with(s, v);
    }

    /// Reads a text setting.
    pub fn text(&self, s: TextSetting) -> (r: String)
        ensures
            r@ == text_value(self@, s),
    {
        self.texts.get(s)
    }

    /// Replaces a text setting.
    pub fn set_text(&mut self, s: TextSetting, v: String)
        ensures
            final(self)@ == with_text(old(self)@, s, v@),
    {
        self.texts.set(s, v);
    }

    /// Reads a count setting.
    pub fn count(&self, s: Count) -> (r: usize)
        ensures
            r == count_value(self@, s),
    {
        self.counts.get(s)
    }

    /// Sets a count setting.
    pub fn set_count(&mut self, s: Count, v: usize)
        ensures
            final(self)@ == with_count(old(self)@, s, v),
    {
        self.counts = self.counts.with(s, v);
    }

    /// Reads a duration setting.
    pub fn duration(&self, s: Duration) -> (r: u64)
        ensures
            r == duration_value(self@, s),
    {
        self.durations.get(s)
    }

    /// Sets a duration setting.
    pub fn set_duration(&mut self, s: Duration, v: u64)
        ensures
            final(self)@ == with_duration(old(self)@, s, v),
    {
        self.durations = self.durations.with(s, v);
    }

    /// Sets the number of retries.
    pub fn set_max_retries(&mut self, v: u32)
        ensures
            final(self)@ == (ConfigView { max_retries: v, ..old(self)@ }),
    {
        self.max_retries = v;
    }

    /// Sets the JPEG quality.
    pub fn set_jpeg_quality(&mut self, v: u8)
        ensures
            final(self)@ == (ConfigView { jpeg_quality: v, ..old(self)@ }),
    {
        self.jpeg_quality = v;
    }

    /// Sets the largest media dimension in pixels.
    pub fn set_media_max_dimension(&mut self, v: u32)
        ensures
            final(self)@ == (ConfigView { media_max_dimension_px: v, ..old(self)@ }),
    {
        self.media_max_dimension_px = v;
    }

    /// Replaces a list setting.
    pub fn set_list_setting(&mut self, s: ListSetting, v: Vec<String>)
        ensures
            final(self)@ == with_list(old(self)@, s, views(v@)),
    {
        match s {
            ListSetting::ApiEndpoints => self.api_endpoints = v,
            ListSetting::BlockedMediaDomains => self.blocked_media_domains = v,
        }
    }
}

/// Why an edit was refused.
#[derive(Clone, Copy, Debug, PartialEq, Eq, Structural)]
pub enum ConfigError {
    /// The text is no integer.
    IntegerExpected,
    /// The field is no on/off setting.
    NotBoolField,
    /// The field is no integer setting.
    NotIntField,
    /// The field is no text setting.
    NotStringField,
    /// The field is no list setting.
    NotListField,
    MaxWorkersNotPositive,
    RequestTimeoutNotPositive,
    MaxRetriesNegative,
    MinWaitNegative,
    MinWaitAboveMax,
    MaxWaitNegative,
    MaxWaitBelowMin,
    AudiobookConcurrencyNotPositive,
    SegmentTopNNotPositive,
    SegmentWorkersNotPositive,
    MediaWorkersNotPositive,
    JpegQualityOutOfRange,
    MediaLimitNegative,
    MediaDimensionNegative,
    EmptySavePath,
    NovelFormatUnsupported,
    AudiobookFormatUnsupported,
    BookNameFieldUnsupported,
    /// Expected `true` or `false`.
    TrueFalseExpected,
    /// Expected a positive integer.
    PositiveIntegerExpected,
    /// Expected a number of seconds.
    SecondsExpected,
    /// Expected an integer.
    WholeNumberExpected,
    /// Expected a number of milliseconds.
    MillisecondsExpected,
    /// Expected an integer from 0 to 100.
    PercentExpected,
}

impl ConfigError {
    /// The message shown to the user.
    pub fn message(&self) -> (r: &'static str)
        ensures
            r@ == error_text(*self),
    {
        match self {
            ConfigError::IntegerExpected => "Chuyen kieu that bai: can so nguyen",
            ConfigError::NotBoolField => "Truong nay khong phai bool",
            ConfigError::NotIntField => "Truong nay khong phai int",
            ConfigError::NotStringField => "Truong nay khong phai string",
            ConfigError::NotListField => "Truong nay khong phai list",
            ConfigError::MaxWorkersNotPositive => "So thread toi da phai lon hon 0",
            ConfigError::RequestTimeoutNotPositive => "Timeout request phai lon hon 0",
            ConfigError::MaxRetriesNegative => "So lan thu lai toi da khong duoc am",
            ConfigError::MinWaitNegative => "Thoi gian cho toi thieu khong duoc am",
            ConfigError::MinWaitAboveMax =>
                "Thoi gian cho toi thieu khong duoc vuot qua thoi gian cho toi da",
            ConfigError::MaxWaitNegative => "Thoi gian cho toi da khong duoc am",
            ConfigError::MaxWaitBelowMin =>
                "Thoi gian cho toi da khong duoc nho hon thoi gian cho toi thieu",
            ConfigError::AudiobookConcurrencyNotPositive =>
                "Do song song cua sach noi phai lon hon 0",
            ConfigError::SegmentTopNNotPositive => "Gioi han so binh luan doan phai lon hon 0",
            ConfigError::SegmentWorkersNotPositive => "So thread binh luan doan phai lon hon 0",
            ConfigError::MediaWorkersNotPositive => "So thread media phai lon hon 0",
            ConfigError::JpegQualityOutOfRange => "Chat luong JPEG phai nam trong khoang 0-100",
            ConfigError::MediaLimitNegative => "Gioi han media moi chuong khong duoc am",
            ConfigError::MediaDimensionNegative =>
                "Gioi han canh dai nhat cua anh theo pixel khong duoc am",
            ConfigError::EmptySavePath => "Duong dan luu khong duoc de trong",
            ConfigError::NovelFormatUnsupported => "Dinh dang luu chi ho tro txt/epub",
            ConfigError::AudiobookFormatUnsupported => "Dinh dang sach noi chi ho tro mp3/wav",
            ConfigError::BookNameFieldUnsupported =>
                "Truong uu tien ten sach chi ho tro: Ten sach mac dinh, Ten sach goc, Ten sach ngan, Chon sau khi tai xong",
            ConfigError::TrueFalseExpected => "Vui long nhap true/false",
            ConfigError::PositiveIntegerExpected => "Vui long nhap so nguyen duong",
            ConfigError::SecondsExpected => "Vui long nhap so giay",
            ConfigError::WholeNumberExpected => "Vui long nhap so nguyen",
            ConfigError::MillisecondsExpected => "Vui long nhap so nguyen mili-giay",
            ConfigError::PercentExpected => "Vui long nhap so nguyen trong khoang 0-100",
        }
    }
}

/// The message of each error.
pub open spec fn error_text(e: ConfigError) -> Seq<char> {
    match e {
        ConfigError::IntegerExpected => "Chuyen kieu that bai: can so nguyen"@,
        ConfigError::NotBoolField => "Truong nay khong phai bool"@,
        ConfigError::NotIntField => "Truong nay khong phai int"@,
        ConfigError::NotStringField => "Truong nay khong phai string"@,
        ConfigError::NotListField => "Truong nay khong phai list"@,
        ConfigError::MaxWorkersNotPositive => "So thread toi da phai lon hon 0"@,
        ConfigError::RequestTimeoutNotPositive => "Timeout request phai lon hon 0"@,
        ConfigError::MaxRetriesNegative => "So lan thu lai toi da khong duoc am"@,
        ConfigError::MinWaitNegative => "Thoi gian cho toi thieu khong duoc am"@,
        ConfigError::MinWaitAboveMax =>
            "Thoi gian cho toi thieu khong duoc vuot qua thoi gian cho toi da"@,
        ConfigError::MaxWaitNegative => "Thoi gian cho toi da khong duoc am"@,
        ConfigError::MaxWaitBelowMin =>
            "Thoi gian cho toi da khong duoc nho hon thoi gian cho toi thieu"@,
        ConfigError::AudiobookConcurrencyNotPositive =>
            "Do song song cua sach noi phai lon hon 0"@,
        ConfigError::SegmentTopNNotPositive => "Gioi han so binh luan doan phai lon hon 0"@,
        ConfigError::SegmentWorkersNotPositive => "So thread binh luan doan phai lon hon 0"@,
        ConfigError::MediaWorkersNotPositive => "So thread media phai lon hon 0"@,
        ConfigError::JpegQualityOutOfRange => "Chat luong JPEG phai nam trong khoang 0-100"@,
        ConfigError::MediaLimitNegative => "Gioi han media moi chuong khong duoc am"@,
        ConfigError::MediaDimensionNegative =>
            "Gioi han canh dai nhat cua anh theo pixel khong duoc am"@,
        ConfigError::EmptySavePath => "Duong dan luu khong duoc de trong"@,
        ConfigError::NovelFormatUnsupported => "Dinh dang luu chi ho tro txt/epub"@,
        ConfigError::AudiobookFormatUnsupported => "Dinh dang sach noi chi ho tro mp3/wav"@,
        ConfigError::BookNameFieldUnsupported =>
            "Truong uu tien ten sach chi ho tro: Ten sach mac dinh, Ten sach goc, Ten sach ngan, Chon sau khi tai xong"@,
        ConfigError::TrueFalseExpected => "Vui long nhap true/false"@,
        ConfigError::PositiveIntegerExpected => "Vui long nhap so nguyen duong"@,
        ConfigError::SecondsExpected => "Vui long nhap so giay"@,
        ConfigError::WholeNumberExpected => "Vui long nhap so nguyen"@,
        ConfigError::MillisecondsExpected => "Vui long nhap so nguyen mili-giay"@,
        ConfigError::PercentExpected => "Vui long nhap so nguyen trong khoang 0-100"@,
    }
}

/// The shortest wait between requests is no longer than the longest.
pub open spec fn wait_ordered(c: ConfigView) -> bool {
    c.durations.min_wait_time <= c.durations.max_wait_time
}

/// The JPEG quality is a percentage.
pub open spec fn jpeg_quality_valid(c: ConfigView) -> bool {
    c.jpeg_quality <= 100
}

proof fn lemma_switches_with_same(t: Switches, s: Switch)
    ensures
        switches_with(t, s, switches_get(t, s)) == t,
{
    match s {
        Switch::AskFormatAfterDownload => {},
        Switch::BulkFiles => {},
        Switch::AutoClearDump => {},
        Switch::AutoOpenDownloadedFiles => {},
        Switch::AllowOverwriteFiles => {},
        Switch::OldCli => {},
        Switch::EnableSegmentComments => {},
        Switch::UseOfficialApi => {},
        Switch::EnableAudiobook => {},
        Switch::DownloadCommentImages => {},
        Switch::DownloadCommentAvatars => {},
        Switch::ForceConvertImagesToJpeg => {},
        Switch::JpegRetryConvert => {},
        Switch::ConvertHeicToJpeg => {},
        Switch::KeepHeicOriginal => {},
    }
}

/// Setting an on/off setting to the value it has changes nothing.
pub proof fn lemma_with_same_switch(c: ConfigView, s: Switch)
    ensures
        with_switch(c, s, switch_value(c, s)) == c,
{
    lemma_switches_with_same(c.switches, s);
}

proof fn lemma_counts_with_same(t: Counts, s: Count)
    ensures
        counts_with(t, s, counts_get(t, s)) == t,
{
    match s {
        Count::MaxWorkers => {},
        Count::AudiobookConcurrency => {},
        Count::SegmentCommentsTopN => {},
        Count::SegmentCommentsWorkers => {},
        Count::MediaDownloadWorkers => {},
        Count::MediaLimitPerChapter => {},
    }
}

/// Setting a count to the value it has changes nothing.
pub proof fn lemma_with_same_count(c: ConfigView, s: Count)
    ensures
        with_count(c, s, count_value(c, s)) == c,
{
    lemma_counts_with_same(c.counts, s);
}

/// Setting a duration to the value it has changes nothing.
pub proof fn lemma_with_same_duration(c: ConfigView, s: Duration)
    ensures
        with_duration(c, s, duration_value(c, s)) == c,
{
    match s {
        Duration::RequestTimeout => {},
        Duration::MinWaitTime => {},
        Duration::MaxWaitTime => {},
    }
}

/// Setting a text to the value it has changes nothing.
pub proof fn lemma_with_same_text(c: ConfigView, s: TextSetting)
    ensures
        with_text(c, s, text_value(c, s)) == c,
{
    match s {
        TextSetting::SavePath => {},
        TextSetting::NovelFormat => {},
        TextSetting::PreferredBookNameField => {},
        TextSetting::AudiobookVoice => {},
        TextSetting::AudiobookRate => {},
        TextSetting::AudiobookVolume => {},
        TextSetting::AudiobookPitch => {},
        TextSetting::AudiobookFormat => {},
        TextSetting::AudiobookTtsProvider => {},
        TextSetting::AudiobookTtsApiUrl => {},
        TextSetting::AudiobookTtsApiToken => {},
        TextSetting::AudiobookTtsModel => {},
    }
}

} // verus!
