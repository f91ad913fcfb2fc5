//! The settings that the daemon follows.

use vstd::prelude::*;

verus! {

/// Who does the encoding.
#[derive(Clone, Copy, Debug, PartialEq, Eq, Structural)]
pub enum CodecType {
    /// The NVIDIA driver.
    NVIDIA,
    /// The video acceleration interface.
    VAAPI,
    /// The processor.
    Software,
}

/// How video is coded.
#[derive(Clone, Copy, Debug, PartialEq, Eq, Structural)]
pub enum VideoStandard {
    /// H.264.
    H264,
    /// H.265.
    H265,
    /// AV1.
    AV1,
}

/// The video codec, with the elements that the settings give it.
#[derive(Debug)]
pub struct VideoCodec {
    /// How the video is coded.
    pub standard: VideoStandard,
    /// Who does the encoding.
    pub backend: CodecType,
    /// The element that encodes with the codec.
    pub encoder: String,
    /// The element that parses the codec's stream.
    pub parser: String,
}

/// The audio codec, by the elements that the settings give it.
#[derive(Debug)]
pub struct AudioCodec {
    /// The element that encodes with the codec.
    pub encoder: String,
    /// The element that parses the codec's stream.
    pub parser: String,
}

/// The kind of a container.
#[derive(Clone, Copy, Debug, PartialEq, Eq, Structural)]
pub enum ContainerType {
    /// MPEG-4.
    MP4,
    /// Matroska.
    MKV,
    /// MPEG transport stream.
    MPEGTS,
}

/// The container in which clips are saved, with the element and the extension that the
/// settings give it.
#[derive(Debug)]
pub struct VideoFormat {
    /// The kind of the container.
    pub container: ContainerType,
    /// The element that writes the container.
    pub mux: String,
    /// The file name extension of the container.
    pub extension: String,
}

/// The elements that parse the streams of the codecs.
#[derive(Debug)]
pub struct StreamParsers {
    /// For H.264.
    pub h264: String,
    /// For H.265.
    pub h265: String,
    /// For AV1.
    pub av1: String,
    /// For Opus.
    pub opus: String,
    /// For AAC.
    pub aac: String,
    /// For MP3.
    pub mp3: String,
}

/// An audio device that is recorded.
#[derive(Debug)]
pub struct AudioNode {
    /// The name of its node, empty where none was chosen yet.
    pub node_name: String,
    /// Whether it is recorded.
    pub enabled: bool,
}

/// What is recorded of the sound.
#[derive(Debug)]
pub struct AudioSettings {
    /// Samples per second.
    pub sample_rate_hz: u64,
    /// The codec.
    pub codec: AudioCodec,
    /// The microphone.
    pub microphone: AudioNode,
    /// What the desktop plays.
    pub background: AudioNode,
}

/// Which events play a sound.
#[derive(Clone, Copy, Debug, PartialEq, Eq, Structural)]
pub struct SoundsNotification {
    /// A clip was saved.
    pub on_save_success: bool,
    /// A clip could not be saved.
    pub on_save_error: bool,
}

/// Which events send a message.
#[derive(Clone, Copy, Debug, PartialEq, Eq, Structural)]
pub struct MessageNotification {
    /// The daemon starts.
    pub on_daemon_start: bool,
    /// The daemon stops.
    pub on_daemon_stop: bool,
    /// A clip was saved.
    pub on_save_success: bool,
    /// A clip could not be saved.
    pub on_save_error: bool,
}

/// Which events the user hears of.
#[derive(Clone, Copy, Debug, PartialEq, Eq, Structural)]
pub struct NotificationSettings {
    /// By message.
    pub message: MessageNotification,
    /// By sound.
    pub sounds: SoundsNotification,
}

/// How much may be stored. Zero means without bound.
#[derive(Clone, Copy, Debug, PartialEq, Eq, Structural)]
pub struct LimitSettings {
    /// The size of all clips together, in megabytes.
    pub max_size_mb: u64,
    /// The number of clips.
    pub max_clips: u64,
}

/// Where and how clips are written.
#[derive(Debug)]
pub struct OutputSettings {
    /// The pattern of the names, with time fields and the field `{game}`.
    pub name_format: String,
    /// Where clips and their descriptions go.
    pub clip_directory: String,
    /// Where previews go.
    pub preview_directory: String,
    /// How much may be stored.
    pub limit: LimitSettings,
    /// The container.
    pub video_format: VideoFormat,
}

/// What the tray shows.
#[derive(Clone, Copy, Debug, PartialEq, Eq, Structural)]
pub struct TraySettings {
    /// The tray itself.
    pub enabled: bool,
    /// The logo.
    pub show_logo: bool,
    /// The entry that saves a clip.
    pub show_save_clip: bool,
    /// The entry that restarts the daemon.
    pub show_restart: bool,
    /// The entry that stops the daemon.
    pub show_exit: bool,
    /// The state of the daemon.
    pub show_status: bool,
    /// The load that the daemon causes.
    pub show_stats: bool,
}

/// What is recorded, and how.
#[derive(Debug)]
pub struct RecordingConfig {
    /// The video codec.
    pub codec: VideoCodec,
    /// Kilobits per second.
    pub bitrate_kbps: u64,
    /// Width and height in pixels.
    pub resolution: (u64, u64),
    /// Frames per second.
    pub fps: u64,
    /// The sound.
    pub audio: AudioSettings,
}

} // verus!
