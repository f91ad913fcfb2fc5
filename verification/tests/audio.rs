use wayclip_daemon::audio::{devices_settled, init_default_audio_device};
use wayclip_daemon::daemon::{DaemonCore, DaemonStatus, DefaultDeviceType, ScreencastNegotiation};
use wayclip_daemon::error::WayclipError;
use wayclip_daemon::pipeline::{FieldValue, PropValue};
use wayclip_daemon::pipewire::PipewireManager;
use wayclip_daemon::settings::{
    AudioCodec, AudioNode, AudioSettings, CodecType, ContainerType, LimitSettings,
    MessageNotification, NotificationSettings, OutputSettings, RecordingConfig, SoundsNotification,
    VideoCodec, VideoFormat, VideoStandard,
};

fn video(standard: VideoStandard, backend: CodecType) -> VideoCodec {
    let (encoder, parser) = match (standard, backend) {
        (VideoStandard::H264, CodecType::NVIDIA) => ("nvh264enc", "h264parse"),
        (VideoStandard::H264, CodecType::VAAPI) => ("vah264enc", "h264parse"),
        (VideoStandard::H264, CodecType::Software) => ("x264enc", "h264parse"),
        (VideoStandard::H265, _) => ("x265enc", "h265parse"),
        (VideoStandard::AV1, CodecType::NVIDIA) => ("nvav1enc", "av1parse"),
        (VideoStandard::AV1, CodecType::VAAPI) => ("vaav1enc", "av1parse"),
        (VideoStandard::AV1, CodecType::Software) => ("av1enc", "av1parse"),
    };
    VideoCodec {
        standard,
        backend,
        encoder: encoder.to_string(),
        parser: parser.to_string(),
    }
}

fn opus() -> AudioCodec {
    AudioCodec { encoder: "opusenc".to_string(), parser: "opusparse".to_string() }
}

fn container(container: ContainerType) -> VideoFormat {
    let (mux, extension) = match container {
        ContainerType::MP4 => ("mp4mux", "mp4"),
        ContainerType::MKV => ("matroskamux", "mkv"),
        ContainerType::MPEGTS => ("mpegtsmux", "ts"),
    };
    VideoFormat { container, mux: mux.to_string(), extension: extension.to_string() }
}

fn node(name: &str, enabled: bool) -> AudioNode {
    AudioNode { node_name: name.to_string(), enabled }
}

fn audio(mic: AudioNode, background: AudioNode) -> AudioSettings {
    AudioSettings { sample_rate_hz: 48000, codec: opus(), microphone: mic, background }
}

fn config() -> RecordingConfig {
    RecordingConfig {
        codec: video(VideoStandard::H264, CodecType::Software),
        bitrate_kbps: 8000,
        resolution: (1920, 1080),
        fps: 60,
        audio: audio(node("mic", true), node("speakers", true)),
    }
}

fn daemon() -> DaemonCore {
    let mut d = DaemonCore::new(
        30,
        NotificationSettings {
            message: MessageNotification {
                on_daemon_start: true,
                on_daemon_stop: true,
                on_save_success: true,
                on_save_error: true,
            },
            sounds: SoundsNotification { on_save_success: false, on_save_error: false },
        },
        config(),
        OutputSettings {
            name_format: "%F".to_string(),
            clip_directory: "/clips".to_string(),
            preview_directory: "/previews".to_string(),
            limit: LimitSettings { max_size_mb: 0, max_clips: 0 },
            video_format: container(ContainerType::MP4),
        },
        false,
        None,
        None,
    );
    d.pipewire_manager = manager();
    d
}

fn manager() -> PipewireManager {
    let mut m = PipewireManager::new();
    assert!(m.on_node(30, Some("Audio/Source"), Some("mic"), None));
    assert!(m.on_node(31, Some("Audio/Sink"), Some("speakers"), None));
    m
}

#[test]
fn default_devices_are_chosen_by_type() {
    let mut m = manager();
    assert!(init_default_audio_device(DefaultDeviceType::Microphone, m.current_state()).is_none());
    assert!(m.set_default(Some("default.audio.sink"), Some("speakers".to_string())));
    assert!(m.set_default(Some("default.audio.source"), Some("mic".to_string())));
    let mic = init_default_audio_device(DefaultDeviceType::Microphone, m.current_state()).unwrap();
    assert_eq!(mic.setting, "recording.audio.microphone.node_name");
    assert_eq!(mic.node_name, "mic");
    let bg = init_default_audio_device(DefaultDeviceType::Background, m.current_state()).unwrap();
    assert_eq!(bg.setting, "recording.audio.background.node_name");
    assert_eq!(bg.node_name, "speakers");
}

#[test]
fn devices_that_are_waited_for() {
    let m = manager();
    assert!(devices_settled("mic", "speakers", m.current_state()));
    assert!(devices_settled("", "", m.current_state()));
    assert!(!devices_settled("mic", "headset", m.current_state()));
    assert!(!devices_settled("headset", "", m.current_state()));
}

#[test]
fn present_devices_pass() {
    let m = manager();
    let check = DaemonCore::check_audio_devices(&m, m.current_state(), &config().audio);
    assert!(check.verdict.is_ok());
    assert!(check.microphone.is_none() && check.background.is_none());
}

#[test]
fn missing_devices_are_refused_if_recorded() {
    let m = manager();
    let settings = audio(node("gone", true), node("away", true));
    match DaemonCore::check_audio_devices(&m, m.current_state(), &settings).verdict {
        Err(WayclipError::Audio(e)) => assert_eq!(e, "Audio device gone doesnt exist"),
        _ => panic!("an error was expected"),
    }
    let settings = audio(node("gone", false), node("away", true));
    match DaemonCore::check_audio_devices(&m, m.current_state(), &settings).verdict {
        Err(WayclipError::Audio(e)) => assert_eq!(e, "Audio device away doesnt exist"),
        _ => panic!("an error was expected"),
    }
    let settings = audio(node("gone", false), node("away", false));
    assert!(DaemonCore::check_audio_devices(&m, m.current_state(), &settings).verdict.is_ok());
}

#[test]
fn device_that_was_never_chosen_gets_the_default() {
    let mut m = manager();
    assert!(m.set_default(Some("default.audio.source"), Some("mic".to_string())));
    let settings = audio(node("", true), node("speakers", true));
    let check = DaemonCore::check_audio_devices(&m, m.current_state(), &settings);
    assert_eq!(check.microphone.unwrap().node_name, "mic");
    match check.verdict {
        Err(WayclipError::Audio(e)) => assert_eq!(e, "Audio device  doesnt exist"),
        _ => panic!("an error was expected"),
    }
}

#[test]
fn source_of_a_device() {
    let d = daemon();
    let chain = d
        .build_audio_source_pipeline(&node("mic", true), DefaultDeviceType::Microphone, 44100)
        .unwrap();
    let names: Vec<&str> =
        chain.elements.iter().map(|e| e.name.as_deref().unwrap()).collect();
    assert_eq!(
        names,
        vec![
            "audio_src_mic",
            "audio_queue_mic",
            "audio_caps_mic",
            "audio_convert_mic",
            "audio_resample_mic"
        ]
    );
    let source = &chain.elements[0];
    assert_eq!(source.properties.len(), 2);
    assert_eq!(source.properties[1].0, "target-object");
    assert!(matches!(&source.properties[1].1, PropValue::Text(t) if t == "30"));
    match &chain.elements[2].properties[0].1 {
        PropValue::Caps(c) => {
            assert_eq!(c.media, "audio/x-raw");
            assert!(matches!(c.fields[0].1, FieldValue::Int(44100)));
            assert!(matches!(c.fields[1].1, FieldValue::Int(2)));
        }
        _ => panic!("a format was expected"),
    }
}

#[test]
fn background_is_received_where_it_is_played() {
    let d = daemon();
    let chain = d
        .build_audio_source_pipeline(&node("speakers", true), DefaultDeviceType::Background, 48000)
        .unwrap();
    assert!(matches!(
        &chain.elements[0].properties[2].1,
        PropValue::Flagged(s, k, true) if s == "properties" && k == "stream.capture.sink"
    ));
}

#[test]
fn no_source_for_what_is_not_recorded() {
    let d = daemon();
    let mic = DefaultDeviceType::Microphone;
    assert!(d.build_audio_source_pipeline(&node("mic", false), mic, 48000).is_none());
    assert!(d.build_audio_source_pipeline(&node("gone", true), mic, 48000).is_none());
}

#[test]
fn mix_of_the_devices() {
    let d = daemon();
    let chain = d.build_mix_pipeline(&config().audio);
    let kinds: Vec<&str> = chain.elements.iter().map(|e| e.factory.as_str()).collect();
    assert_eq!(
        kinds,
        vec!["audiomixer", "audioconvert", "capsfilter", "opusenc", "opusparse", "queue", "appsink"]
    );
    assert_eq!(chain.elements[6].name.as_deref(), Some("audio_appsink"));
}

#[test]
fn whole_pipeline_takes_the_screen_over() {
    let mut d = daemon();
    let shared = ScreencastNegotiation {
        pipewire_file_descriptor: 9,
        pipewire_node_id: "77".to_string(),
        restore_token: Some("token".to_string()),
    };
    let plan = d.build_full_pipeline(Ok(shared), &config(), Some(8)).unwrap();
    assert_eq!(plan.video.elements.len(), 15);
    assert_eq!(plan.mix.elements.len(), 7);
    assert!(plan.microphone.is_some() && plan.background.is_some());
    assert_eq!(d.pipewire_file_descriptor, Some(9));
    assert_eq!(d.pipewire_node_id.as_deref(), Some("77"));
    assert_eq!(d.restore_token.as_deref(), Some("token"));
    assert!(d.has_session && d.has_proxy && !d.has_pipeline);
    assert_eq!(d.get_status(), DaemonStatus::Inactive);
}

#[test]
fn refused_screen_fails_the_daemon() {
    let mut d = daemon();
    let refused = WayclipError::Screencast("denied".to_string());
    match d.build_full_pipeline(Err(refused), &config(), None) {
        Err(WayclipError::Screencast(m)) => assert_eq!(m, "denied"),
        _ => panic!("an error was expected"),
    }
    assert_eq!(d.get_status(), DaemonStatus::Failed);
    assert!(!d.has_session);
}
