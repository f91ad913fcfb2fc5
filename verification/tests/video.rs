use wayclip_daemon::daemon::DaemonCore;
use wayclip_daemon::error::WayclipError;
use wayclip_daemon::pipeline::{Chain, Element, FieldValue, PropValue};
use wayclip_daemon::settings::{
    AudioCodec, AudioNode, AudioSettings, CodecType, ContainerType, LimitSettings,
    MessageNotification, NotificationSettings, OutputSettings, RecordingConfig, SoundsNotification,
    VideoCodec, VideoFormat, VideoStandard,
};

fn video(standard: VideoStandard, backend: CodecType) -> VideoCodec {
    let (encoder, parser) = match (standard, backend) {
        (VideoStandard::H264, CodecType::NVIDIA) => ("nvh264enc", "h264parse"),
        (VideoStandard::H264, CodecType::VAAPI) => ("vah264enc", "h264parse"),
        (VideoStandard::H264, CodecType::Software) => ("x264enc", "h264parse"),
        (VideoStandard::H265, _) => ("x265enc", "h265parse"),
        (VideoStandard::AV1, CodecType::NVIDIA) => ("nvav1enc", "av1parse"),
        (VideoStandard::AV1, CodecType::VAAPI) => ("vaav1enc", "av1parse"),
        (VideoStandard::AV1, CodecType::Software) => ("av1enc", "av1parse"),
    };
    VideoCodec {
        standard,
        backend,
        encoder: encoder.to_string(),
        parser: parser.to_string(),
    }
}

fn opus() -> AudioCodec {
    AudioCodec { encoder: "opusenc".to_string(), parser: "opusparse".to_string() }
}

fn container(container: ContainerType) -> VideoFormat {
    let (mux, extension) = match container {
        ContainerType::MP4 => ("mp4mux", "mp4"),
        ContainerType::MKV => ("matroskamux", "mkv"),
        ContainerType::MPEGTS => ("mpegtsmux", "ts"),
    };
    VideoFormat { container, mux: mux.to_string(), extension: extension.to_string() }
}

fn daemon() -> DaemonCore {
    let node = || AudioNode { node_name: String::new(), enabled: false };
    DaemonCore::new(
        30,
        NotificationSettings {
            message: MessageNotification {
                on_daemon_start: false,
                on_daemon_stop: false,
                on_save_success: false,
                on_save_error: false,
            },
            sounds: SoundsNotification { on_save_success: false, on_save_error: false },
        },
        RecordingConfig {
            codec: video(VideoStandard::H264, CodecType::Software),
            bitrate_kbps: 8000,
            resolution: (1920, 1080),
            fps: 60,
            audio: AudioSettings {
                sample_rate_hz: 48000,
                codec: opus(),
                microphone: node(),
                background: node(),
            },
        },
        OutputSettings {
            name_format: "%F".to_string(),
            clip_directory: "/clips".to_string(),
            preview_directory: "/previews".to_string(),
            limit: LimitSettings { max_size_mb: 0, max_clips: 0 },
            video_format: container(ContainerType::MP4),
        },
        false,
        None,
        None,
    )
}

fn plan(codec: VideoCodec, parallelism: Option<usize>) -> Chain {
    let mut core = daemon();
    core.pipewire_file_descriptor = Some(11);
    core.pipewire_node_id = Some("42".to_string());
    core.build_video_pipeline(&codec, (1920, 1080), 60, 8000, parallelism).unwrap()
}

fn factories(chain: &Chain) -> Vec<&str> {
    chain.elements.iter().map(|e| e.factory.as_str()).collect()
}

fn property<'a>(e: &'a Element, key: &str) -> &'a PropValue {
    &e.properties.iter().find(|p| p.0 == key).unwrap().1
}

#[test]
fn video_needs_a_shared_screen() {
    let mut core = daemon();
    core.pipewire_node_id = Some("42".to_string());
    let got = core.build_video_pipeline(&video(VideoStandard::H264, CodecType::VAAPI), (1, 1), 1, 1, None);
    match got {
        Err(WayclipError::Video(m)) => {
            assert_eq!(m, "No node ID or FD was aquired by the daemon")
        }
        _ => panic!("an error was expected"),
    }
}

#[test]
fn nvidia_chain() {
    let chain = plan(video(VideoStandard::H264, CodecType::NVIDIA), None);
    assert_eq!(
        factories(&chain),
        vec![
            "pipewiresrc",
            "capsfilter",
            "watchdog",
            "queue",
            "glupload",
            "capsfilter",
            "glcolorscale",
            "capsfilter",
            "glcolorconvert",
            "videorate",
            "capsfilter",
            "queue",
            "nvh264enc",
            "h264parse",
            "capsfilter",
            "queue",
            "appsink",
        ]
    );
    let source = &chain.elements[0];
    assert!(matches!(property(source, "fd"), PropValue::Int(11)));
    assert!(matches!(property(source, "path"), PropValue::Text(id) if id == "42"));
    assert!(matches!(property(source, "do-timestamp"), PropValue::Bool(true)));
    match property(&chain.elements[1], "caps") {
        PropValue::Caps(c) => {
            assert_eq!(c.media, "video/x-raw");
            assert_eq!(c.feature.as_deref(), Some("memory:DMABuf"));
            assert_eq!(c.fields.len(), 0);
        }
        _ => panic!("a format was expected"),
    }
    match property(&chain.elements[7], "caps") {
        PropValue::Caps(c) => {
            assert!(matches!(&c.fields[0].1, FieldValue::Text(t) if t == "RGBA"));
            assert!(matches!(c.fields[1].1, FieldValue::Int(1920)));
            assert!(matches!(c.fields[2].1, FieldValue::Int(1080)));
        }
        _ => panic!("a format was expected"),
    }
    match property(&chain.elements[10], "caps") {
        PropValue::Caps(c) => {
            assert_eq!(c.fields[1].0, "framerate");
            assert!(matches!(c.fields[1].1, FieldValue::Fraction(60, 1)));
        }
        _ => panic!("a format was expected"),
    }
    let encoder = &chain.elements[12];
    assert_eq!(encoder.name.as_deref(), Some("video_encoder"));
    assert!(matches!(property(encoder, "bitrate"), PropValue::UInt(8000)));
    assert!(matches!(property(encoder, "gop-size"), PropValue::Int(30)));
    assert!(matches!(property(encoder, "rc-mode"), PropValue::Parsed(m) if m == "cbr"));
}

#[test]
fn vaapi_chain() {
    let chain = plan(video(VideoStandard::AV1, CodecType::VAAPI), None);
    assert_eq!(
        factories(&chain),
        vec![
            "pipewiresrc",
            "capsfilter",
            "watchdog",
            "queue",
            "vapostproc",
            "capsfilter",
            "queue",
            "vaav1enc",
            "av1parse",
            "queue",
            "appsink",
        ]
    );
    assert!(matches!(property(&chain.elements[7], "key-int-max"), PropValue::UInt(30)));
    assert_eq!(chain.elements[8].properties.len(), 0);
    let sink = &chain.elements[10];
    assert_eq!(sink.name.as_deref(), Some("video_appsink"));
    assert!(matches!(property(sink, "max-buffers"), PropValue::UInt(100)));
    assert!(matches!(property(sink, "drop"), PropValue::Bool(false)));
    assert!(matches!(property(sink, "sync"), PropValue::Bool(false)));
}

#[test]
fn software_chain() {
    let chain = plan(video(VideoStandard::H264, CodecType::Software), Some(12));
    assert_eq!(
        factories(&chain),
        vec![
            "pipewiresrc",
            "capsfilter",
            "watchdog",
            "queue",
            "videoconvert",
            "videoscale",
            "capsfilter",
            "videorate",
            "capsfilter",
            "queue",
            "x264enc",
            "h264parse",
            "capsfilter",
            "queue",
            "appsink",
        ]
    );
    let queue = &chain.elements[3];
    assert!(matches!(property(queue, "max-size-time"), PropValue::ULong(500_000_000)));
    assert!(matches!(property(queue, "leaky"), PropValue::Parsed(l) if l == "2"));
    let encoder = &chain.elements[10];
    assert_eq!(encoder.name.as_deref(), Some("video_h264_software_encoder"));
    assert!(matches!(property(encoder, "threads"), PropValue::UInt(12)));
    assert!(matches!(property(encoder, "tune"), PropValue::Parsed(t) if t == "zerolatency"));
    assert!(matches!(property(&chain.elements[11], "config-interval"), PropValue::Int(1)));
}

#[test]
fn software_encoders_differ() {
    let chain = plan(video(VideoStandard::H264, CodecType::Software), None);
    assert!(matches!(property(&chain.elements[10], "threads"), PropValue::UInt(4)));
    let chain = plan(video(VideoStandard::H265, CodecType::Software), None);
    assert_eq!(chain.elements[10].factory, "x265enc");
    assert_eq!(chain.elements[10].properties.len(), 3);
    let chain = plan(video(VideoStandard::AV1, CodecType::Software), None);
    let encoder = &chain.elements[10];
    assert_eq!(encoder.factory, "av1enc");
    assert!(matches!(property(encoder, "target-bitrate"), PropValue::UInt(8000)));
    assert_eq!(encoder.properties.len(), 1);
}

#[test]
fn elements_are_those_of_the_settings() {
    let codec = VideoCodec {
        standard: VideoStandard::H265,
        backend: CodecType::NVIDIA,
        encoder: "someenc".to_string(),
        parser: "someparse".to_string(),
    };
    let chain = plan(codec, None);
    let made = factories(&chain);
    let at = made.iter().position(|f| *f == "someenc").unwrap();
    assert_eq!(made[at + 1], "someparse");
    assert!(matches!(property(&chain.elements[at], "gop-size"), PropValue::Int(30)));
}
