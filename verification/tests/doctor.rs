use wayclip_daemon::doctor::{
    CommandProbe, DirectoryProbe, Doctor, NodesProbe, PortalProbe, Probes,
};
use wayclip_daemon::pipewire::PipewireManager;
use wayclip_daemon::settings::{
    AudioCodec, CodecType, ContainerType, VideoCodec, VideoFormat, VideoStandard,
};

fn video(standard: VideoStandard, backend: CodecType) -> VideoCodec {
    let (encoder, parser) = match (standard, backend) {
        (VideoStandard::H264, CodecType::NVIDIA) => ("nvh264enc", "h264parse"),
        (VideoStandard::H264, CodecType::VAAPI) => ("vah264enc", "h264parse"),
        (VideoStandard::H264, CodecType::Software) => ("x264enc", "h264parse"),
        (VideoStandard::H265, _) => ("x265enc", "h265parse"),
        (VideoStandard::AV1, CodecType::NVIDIA) => ("nvav1enc", "av1parse"),
        (VideoStandard::AV1, CodecType::VAAPI) => ("vaav1enc", "av1parse"),
        (VideoStandard::AV1, CodecType::Software) => ("av1enc", "av1parse"),
    };
    VideoCodec {
        standard,
        backend,
        encoder: encoder.to_string(),
        parser: parser.to_string(),
    }
}

fn aac() -> AudioCodec {
    AudioCodec { encoder: "avenc_aac".to_string(), parser: "aacparse".to_string() }
}

fn container(container: ContainerType) -> VideoFormat {
    let (mux, extension) = match container {
        ContainerType::MP4 => ("mp4mux", "mp4"),
        ContainerType::MKV => ("matroskamux", "mkv"),
        ContainerType::MPEGTS => ("mpegtsmux", "ts"),
    };
    VideoFormat { container, mux: mux.to_string(), extension: extension.to_string() }
}

fn doctor(codec: VideoCodec) -> Doctor {
    Doctor {
        audio_codec: aac(),
        video_codec: codec,
        video_format: container(ContainerType::MKV),
        clip_directory: "/clips".to_string(),
        preview_directory: "/previews".to_string(),
        metadata_directory: "/meta".to_string(),
        microphone: ("mic".to_string(), true),
        background: (String::new(), false),
    }
}

fn probes(good: bool) -> Probes {
    let mut m = PipewireManager::new();
    if good {
        assert!(m.on_node(1, Some("Audio/Source"), Some("mic"), None));
    }
    let dir = || {
        if good { DirectoryProbe::Writable } else { DirectoryProbe::Missing }
    };
    Probes {
        runtime_dir: "/run/user/1000".to_string(),
        pipewire_socket: good,
        portal: if good { PortalProbe::Answered } else { PortalProbe::TimedOut },
        ffmpeg: if good { CommandProbe::Success } else { CommandProbe::Missing },
        dbus_address: good,
        notification_error: if good { None } else { Some("no bus".to_string()) },
        backend_device: good,
        clip_directory: dir(),
        metadata_directory: dir(),
        preview_directory: dir(),
        elements: vec![good; 16],
        nodes: NodesProbe::Seen(m.state),
    }
}

#[test]
fn healthy_machine() {
    let results = doctor(video(VideoStandard::H264, CodecType::Software)).run_all_checks(&probes(true));
    assert_eq!(results.len(), 26);
    let failed: Vec<&str> = results.iter().filter(|r| !r.ok).map(|r| r.name.as_str()).collect();
    assert_eq!(failed, vec!["Background Node - "]);
    assert!(results.iter().all(|r| r.ok == r.details.is_none()));
}

#[test]
fn ailing_machine() {
    let results = doctor(video(VideoStandard::H264, CodecType::VAAPI)).run_all_checks(&probes(false));
    assert_eq!(results.len(), 27);
    assert!(results.iter().all(|r| !r.ok && r.details.is_some()));
    let details: Vec<&str> =
        results.iter().take(9).map(|r| r.details.as_deref().unwrap()).collect();
    assert_eq!(
        details,
        vec![
            "no socket in /run/user/1000 - is pipewire service running?",
            "tokio time out - is xdg portal running?",
            "not found in $PATH",
            "DBUS_SESSION_BUS_ADDRESS env var missing",
            "no bus",
            "VAAPI backend '/dev/dri/renderD128' not found",
            "/clips missing or not a dir",
            "/meta missing or not a dir",
            "/previews missing or not a dir",
        ]
    );
    assert_eq!(results[26].details.as_deref(), Some("Invalid pipewire node: "));
    assert!(results[25].required && !results[26].required);
}

#[test]
fn order_of_the_checks() {
    let results = doctor(video(VideoStandard::AV1, CodecType::NVIDIA)).run_all_checks(&probes(true));
    let names: Vec<&str> = results.iter().map(|r| r.name.as_str()).collect();
    assert_eq!(
        names,
        vec![
            "PipeWire Socket",
            "XDG Screencast Portal",
            "FFmpeg",
            "D-Bus Session Bus",
            "Notification Manager",
            "NVIDIA Device ",
            "Video Directory",
            "Metadata Directory",
            "Preview Directory",
            "GStreamer Element pipewiresrc",
            "GStreamer Element watchdog",
            "GStreamer Element queue",
            "GStreamer Element capsfilter",
            "GStreamer Element appsink",
            "GStreamer Element videoconvert",
            "GStreamer Element videoscale",
            "GStreamer Element videorate",
            "GStreamer Element av1parse",
            "GStreamer Element nvav1enc",
            "GStreamer Element matroskamux",
            "GStreamer Element aacparse",
            "GStreamer Element avenc_aac",
            "GStreamer Element nvh264enc",
            "GStreamer Element vah264enc",
            "GStreamer Element x264enc",
            "Microphone Node - mic",
            "Background Node - ",
        ]
    );
}

#[test]
fn failures_in_their_own_words() {
    let d = doctor(video(VideoStandard::H264, CodecType::NVIDIA));
    let r = d.check_portal(&PortalProbe::Refused("denied".to_string()));
    assert_eq!(r.details.as_deref(), Some("denied"));
    let r = d.check_ffmpeg(&CommandProbe::Failure("exit status: 1".to_string()));
    assert_eq!(r.details.as_deref(), Some("exit status: 1"));
    let r = d.check_directory("Video Directory", "/x", &DirectoryProbe::Refused("ro".to_string()));
    assert_eq!(r.details.as_deref(), Some("ro"));
    let r = d.check_backend(false).unwrap();
    assert_eq!(r.details.as_deref(), Some("NVIDIA driver '/dev/nvidia0' not found"));
    let r = d.check_pipewire_nodes(&NodesProbe::Failed("down".to_string()));
    assert_eq!(r.len(), 1);
    assert_eq!(r[0].name, "Pipewire Manager");
    let r = d.check_element("x264enc", false, false);
    assert_eq!(r.details.as_deref(), Some("relevant gstreamer package missing"));
    assert!(!r.required);
}

#[test]
fn devices_that_encode() {
    let path = |t| doctor(video(VideoStandard::H264, t)).backend_path();
    assert_eq!(path(CodecType::VAAPI), Some("/dev/dri/renderD128"));
    assert_eq!(path(CodecType::NVIDIA), Some("/dev/nvidia0"));
    assert_eq!(path(CodecType::Software), None);
    assert!(doctor(video(VideoStandard::H264, CodecType::Software)).check_backend(true).is_none());
}

#[test]
fn socket_of_the_audio_server() {
    assert_eq!(Doctor::pipewire_socket("/run/user/1000"), "/run/user/1000/pipewire-0");
    assert_eq!(Doctor::pipewire_socket(""), "/pipewire-0");
}
