//! Configuration and console-state types the surrounding operator console
//! feeds the capture core: target quality, resolution, banner and comment
//! display choices, and the broadcast status it tracks.
//!
//! These are plain data. The capture pipeline reads its target frame rate
//! and output resolution from `QualitySettings`; the rest parameterizes the
//! collaborating interface layer.

use vstd::prelude::*;

verus! {

/// Output resolution. `0 x 0` stands for the source's own size.
pub struct Resolution {
    pub width: u32,
    pub height: u32,
}

impl Default for Resolution {
    /// The source's own size.
    fn default() -> (r: Resolution)
        ensures
            r.width == 0,
            r.height == 0,
    {
        Resolution { width: 0, height: 0 }
    }
}

/// Broadcast quality: bitrates, output resolution and target frame rate.
pub struct QualitySettings {
    pub video_bitrate: u32,
    pub audio_bitrate: u32,
    pub resolution: Resolution,
    pub fps: u32,
}

impl Default for QualitySettings {
    fn default() -> (r: QualitySettings)
        ensures
            r.video_bitrate == 0,
            r.audio_bitrate == 0,
            r.resolution.width == 0,
            r.resolution.height == 0,
            r.fps == 0,
    {
        QualitySettings {
            video_bitrate: 0,
            audio_bitrate: 0,
            resolution: Resolution { width: 0, height: 0 },
            fps: 0,
        }
    }
}

/// The broadcast's configuration: its key and its quality settings.
pub struct StreamConfig {
    pub stream_key: String,
    pub quality_settings: QualitySettings,
}

impl Default for StreamConfig {
    fn default() -> (r: StreamConfig)
        ensures
            r.stream_key@.len() == 0,
            r.quality_settings.fps == 0,
    {
        StreamConfig { stream_key: String::new(), quality_settings: QualitySettings::default() }
    }
}

/// Where the broadcast stands, as the console shows it.
#[derive(PartialEq)]
pub enum StreamStatus {
    Offline,
    Starting,
    Live,
    Ending,
    Error(String),
}

impl Default for StreamStatus {
    fn default() -> (r: StreamStatus)
        ensures
            r is Offline,
    {
        StreamStatus::Offline
    }
}

/// The console's tabs.
#[derive(PartialEq, Eq, Structural)]
pub enum Tab {
    Status,
    Settings,
    Audio,
    Video,
    Banner,
}

impl Default for Tab {
    fn default() -> (r: Tab)
        ensures
            r is Status,
    {
        Tab::Status
    }
}

/// Where a banner is shown.
#[derive(PartialEq, Eq, Structural)]
pub enum BannerPosition {
    Top,
    Bottom,
}

impl Default for BannerPosition {
    fn default() -> (r: BannerPosition)
        ensures
            r is Top,
    {
        BannerPosition::Top
    }
}

/// Which comments are let through.
pub struct FilterSettings {
    pub block_words: Vec<String>,
    pub min_account_age_days: u32,
    pub block_non_members: bool,
    pub block_first_time: bool,
}

/// The comment filter as the console's comment tab holds it.
pub struct CommentFilter {
    pub block_words: Vec<String>,
    pub min_account_age_days: u32,
    pub block_non_members: bool,
    pub block_first_time: bool,
}

impl Default for CommentFilter {
    fn default() -> (r: CommentFilter)
        ensures
            r.block_words@.len() == 0,
            r.min_account_age_days == 0,
            !r.block_non_members,
            !r.block_first_time,
    {
        CommentFilter {
            block_words: Vec::new(),
            min_account_age_days: 0,
            block_non_members: false,
            block_first_time: false,
        }
    }
}

/// How comments are rendered.
pub struct DisplaySettings {
    pub font_size: u32,
    pub display_time: u32,
    pub show_username: bool,
    pub show_member_icon: bool,
    pub color_member_names: bool,
}

/// Comment rendering as the console's comment tab holds it.
pub struct CommentDisplaySettings {
    pub font_size: u32,
    pub display_time: u32,
    pub show_username: bool,
    pub show_member_icon: bool,
    pub color_member_names: bool,
}

impl Default for CommentDisplaySettings {
    fn default() -> (r: CommentDisplaySettings)
        ensures
            r.font_size == 0,
            r.display_time == 0,
            !r.show_username,
            !r.show_member_icon,
            !r.color_member_names,
    {
        CommentDisplaySettings {
            font_size: 0,
            display_time: 0,
            show_username: false,
            show_member_icon: false,
            color_member_names: false,
        }
    }
}

/// The stream-settings tab's state: whether the broadcast runs, its key and
/// quality, and the status shown.
pub struct StreamTab {
    pub is_streaming: bool,
    pub stream_key: String,
    pub quality_settings: QualitySettings,
    pub status: StreamStatus,
}

impl Default for StreamTab {
    fn default() -> (r: StreamTab)
        ensures
            !r.is_streaming,
            r.status is Offline,
    {
        StreamTab {
            is_streaming: false,
            stream_key: String::new(),
            quality_settings: QualitySettings::default(),
            status: StreamStatus::Offline,
        }
    }
}

} // verus!
