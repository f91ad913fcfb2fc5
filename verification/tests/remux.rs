use wayclip_daemon::clock::{ClockTime, Moment};
use wayclip_daemon::error::WayclipError;
use wayclip_daemon::pipeline::PropValue;
use wayclip_daemon::remux::{
    first_failure, BusMessage, PreviewProbe, ProbeAction, RemuxHandler, RemuxStream,
};
use wayclip_daemon::ring::{Caps, CapsStructure, EncodedFrame, Payload, RingBuffer, SaveData};
use wayclip_daemon::settings::{ContainerType, StreamParsers, VideoFormat};

fn parsers() -> StreamParsers {
    StreamParsers {
        h264: "h264parse".to_string(),
        h265: "h265parse".to_string(),
        av1: "av1parse".to_string(),
        opus: "opusparse".to_string(),
        aac: "aacparse".to_string(),
        mp3: "mpegaudioparse".to_string(),
    }
}

fn container(container: ContainerType) -> VideoFormat {
    let (mux, extension) = match container {
        ContainerType::MP4 => ("mp4mux", "mp4"),
        ContainerType::MKV => ("matroskamux", "mkv"),
        ContainerType::MPEGTS => ("mpegtsmux", "ts"),
    };
    VideoFormat { container, mux: mux.to_string(), extension: extension.to_string() }
}

fn ms(n: u64) -> ClockTime {
    ClockTime::from_mseconds(n)
}

fn structure(name: &str, mpegversion: Option<i32>) -> CapsStructure {
    CapsStructure { name: name.to_string(), mpegversion }
}

fn caps(name: &str) -> Caps {
    Caps { text: format!("{name}, x=1"), structure: Some(structure(name, None)) }
}

fn frame(key: u64, pts: u64, dts: Option<u64>, is_keyframe: bool) -> EncodedFrame {
    EncodedFrame::new(Payload { key, size: 1 }, ms(pts), dts.map(ms), Some(ms(33)), is_keyframe)
}

fn data() -> SaveData {
    SaveData {
        video_frames: vec![frame(1, 1000, Some(990), true), frame(2, 1033, None, false)],
        audio_frames: vec![frame(3, 500, None, true), frame(4, 520, None, true)],
        video_caps: caps("video/x-h264"),
        audio_caps: Some(caps("audio/x-opus")),
        sync_offset_ms: 40,
        duration: ms(33),
    }
}

fn refusal(data: &SaveData) -> String {
    match RemuxHandler.run_remux_pipeline(data, &container(ContainerType::MP4), &parsers(), "/clips/a.mp4") {
        Err(WayclipError::Remux(m)) => m,
        _ => panic!("an error was expected"),
    }
}

#[test]
fn streams_are_told_by_their_formats() {
    let parser = |name: &str, v: Option<i32>| {
        RemuxStream::from_caps(&structure(name, v), &parsers()).parser_name().to_string()
    };
    assert_eq!(parser("video/x-h264", None), "h264parse");
    assert_eq!(parser("video/x-h265", None), "h265parse");
    assert_eq!(parser("video/x-av1", None), "av1parse");
    assert_eq!(parser("audio/x-opus", None), "opusparse");
    assert_eq!(parser("audio/mpeg", Some(2)), "aacparse");
    assert_eq!(parser("audio/mpeg", Some(4)), "aacparse");
    assert_eq!(parser("audio/mpeg", Some(1)), "mpegaudioparse");
    assert_eq!(parser("audio/mpeg", None), "mpegaudioparse");
    assert!(matches!(
        RemuxStream::from_caps(&structure("text/plain", None), &parsers()),
        RemuxStream::Skip
    ));
}

#[test]
fn pads_depend_on_the_container() {
    let video = RemuxStream::from_caps(&structure("video/x-h264", None), &parsers());
    let audio = RemuxStream::from_caps(&structure("audio/x-opus", None), &parsers());
    assert_eq!(video.pad_template(&container(ContainerType::MP4)), "video_%u");
    assert_eq!(audio.pad_template(&container(ContainerType::MKV)), "audio_%u");
    assert_eq!(video.pad_template(&container(ContainerType::MPEGTS)), "sink_%d");
    assert_eq!(audio.pad_template(&container(ContainerType::MPEGTS)), "sink_%d");
    assert_eq!(RemuxStream::Skip.pad_template(&container(ContainerType::MPEGTS)), "sink_%d");
}

#[test]
fn clip_with_sound() {
    let format = container(ContainerType::MKV);
    let plan =
        RemuxHandler.run_remux_pipeline(&data(), &format, &parsers(), "/clips/a.mkv").unwrap();
    assert_eq!(plan.mux.factory, "matroskamux");
    assert_eq!(plan.mux.name.as_deref(), Some("save_mux"));
    assert!(matches!(&plan.file_sink.properties[0].1, PropValue::Text(p) if p == "/clips/a.mkv"));
    assert_eq!(plan.video.source.name.as_deref(), Some("video_appsrc"));
    assert_eq!(plan.video.parser.factory, "h264parse");
    assert!(plan.video.any_memory);
    assert_eq!(plan.video.caps_text, "video/x-h264, x=1");
    assert_eq!(plan.video.frames[0].pts, ms(0));
    assert_eq!(plan.video.frames[0].dts, Some(ms(0)));
    assert!(!plan.video.frames[0].delta_unit);
    assert_eq!(plan.video.frames[1].pts, ms(33));
    assert!(plan.video.frames[1].delta_unit);
    let audio = plan.audio.unwrap();
    assert_eq!(audio.pad_template, "audio_%u");
    assert_eq!(audio.parser.factory, "opusparse");
    assert!(!audio.any_memory);
    assert_eq!(audio.frames[0].pts, ms(40));
    assert_eq!(audio.frames[1].pts, ms(60));
    assert_eq!(audio.frames[1].duration, Some(ms(33)));
    assert_eq!(audio.frames[1].data.key, 4);
}

#[test]
fn clip_without_sound() {
    let mut d = data();
    d.audio_caps = Some(caps("audio/x-raw"));
    let plan = RemuxHandler.run_remux_pipeline(&d, &container(ContainerType::MP4), &parsers(), "/a").unwrap();
    assert!(plan.audio.is_none());
    let mut d = data();
    d.audio_frames.clear();
    let plan = RemuxHandler.run_remux_pipeline(&d, &container(ContainerType::MP4), &parsers(), "/a").unwrap();
    assert!(plan.audio.is_none());
    let mut d = data();
    d.audio_caps = None;
    let plan = RemuxHandler.run_remux_pipeline(&d, &container(ContainerType::MP4), &parsers(), "/a").unwrap();
    assert!(plan.audio.is_none());
}

#[test]
fn clips_that_cannot_be_written() {
    let mut d = data();
    d.video_frames.clear();
    assert_eq!(refusal(&d), "No video frames were captured!");
    let mut d = data();
    d.video_caps.structure = None;
    assert_eq!(refusal(&d), "Video caps have no structure");
    let mut d = data();
    d.video_caps = caps("video/x-vp8");
    assert_eq!(refusal(&d), "Unrecognised video caps: video/x-vp8, x=1");
    let mut d = data();
    d.audio_caps = Some(Caps { text: "EMPTY".to_string(), structure: None });
    assert_eq!(refusal(&d), "No structure");
}

#[test]
fn sound_that_came_first_is_moved_back() {
    let frames = vec![frame(1, 100, Some(90), true), frame(2, 200, Some(190), true)];
    let timed = RemuxHandler.push_frames_to_appsrc(&frames, ms(100), -30);
    assert_eq!(timed[0].pts, ms(0));
    assert_eq!(timed[1].pts, ms(70));
    assert_eq!(timed[1].dts, Some(ms(60)));
}

#[test]
fn offset_of_two_streams_can_be_applied() {
    let mut r = RingBuffer::new(ClockTime::from_seconds(10));
    r.video_caps = Some(caps("video/x-h264"));
    r.audio_caps = Some(caps("audio/x-opus"));
    r.video_start_instant = Some(Moment { ns: u64::MAX });
    r.audio_start_instant = Some(Moment { ns: 0 });
    assert!(r.push_video_frame(frame(1, 0, None, true)).is_ok());
    assert!(r.push_audio_frame(frame(2, 0, None, true)).is_ok());
    let d = r.get_snapshot().unwrap();
    assert_eq!(d.sync_offset_ms, -18_446_744_073_709);
    assert!(RemuxHandler.run_remux_pipeline(&d, &container(ContainerType::MP4), &parsers(), "/a").is_ok());
}

#[test]
fn saving_ends_by_what_the_pipeline_reports() {
    assert!(matches!(RemuxHandler::save_progress(&BusMessage::Eos), Some(Ok(()))));
    assert!(RemuxHandler::save_progress(&BusMessage::Warning).is_none());
    assert!(RemuxHandler::save_progress(&BusMessage::Other).is_none());
    match RemuxHandler::save_progress(&BusMessage::Error("broken".to_string())) {
        Some(Err(WayclipError::Remux(m))) => assert_eq!(m, "Save pipeline error: broken"),
        _ => panic!("an error was expected"),
    }
    match RemuxHandler::save_progress(&BusMessage::Silence) {
        Some(Err(WayclipError::Remux(m))) => assert_eq!(m, "Save pipeline timed out after 120s"),
        _ => panic!("an error was expected"),
    }
}

#[test]
fn previews_end_by_what_the_pipeline_reports() {
    assert!(matches!(RemuxHandler::preview_progress(&BusMessage::Eos), Some(Ok(()))));
    assert!(RemuxHandler::preview_progress(&BusMessage::Warning).is_none());
    match RemuxHandler::preview_progress(&BusMessage::Error("broken".to_string())) {
        Some(Err(WayclipError::Remux(m))) => assert_eq!(m, "Preview error: broken"),
        _ => panic!("an error was expected"),
    }
    match RemuxHandler::preview_progress(&BusMessage::Silence) {
        Some(Err(WayclipError::Remux(m))) => assert_eq!(m, "Preview pipeline timed out"),
        _ => panic!("an error was expected"),
    }
}

#[test]
fn preview_plan() {
    let plan =
        RemuxHandler.generate_preview(true, "/c/a.mp4", "/p/a.preview.mkv", Some(ms(0))).unwrap();
    let kinds: Vec<&str> = plan.chain.elements.iter().map(|e| e.factory.as_str()).collect();
    assert_eq!(
        kinds,
        vec!["videoconvert", "videoscale", "videoconvert", "capsfilter", "x264enc", "h264parse"]
    );
    assert_eq!(plan.chain.elements[3].name, None);
    assert!(matches!(plan.chain.elements[4].properties[2].1, PropValue::UInt(800)));
    assert_eq!(plan.mux.factory, "matroskamux");
    assert_eq!(plan.pad_template, "video_%u");
    assert!(matches!(&plan.file_src.properties[0].1, PropValue::Text(p) if p == "/c/a.mp4"));
}

#[test]
fn previews_that_cannot_be_written() {
    match RemuxHandler.generate_preview(false, "/a", "/b", None) {
        Err(WayclipError::Remux(m)) => assert_eq!(m, "Preview file does not exist"),
        _ => panic!("an error was expected"),
    }
    match RemuxHandler.generate_preview(true, "/a", "/b", None) {
        Err(WayclipError::Remux(m)) => assert_eq!(m, "Failed to get first video pts"),
        _ => panic!("an error was expected"),
    }
}

#[test]
fn preview_stops_after_five_seconds() {
    let mut probe = PreviewProbe { first: ms(1000), eos_sent: false };
    assert_eq!(probe.on_buffer(Some(Some(ms(0)))), ProbeAction::Pass);
    assert_eq!(probe.on_buffer(None), ProbeAction::Pass);
    assert_eq!(probe.on_buffer(Some(None)), ProbeAction::Pass);
    assert_eq!(probe.on_buffer(Some(Some(ms(5999)))), ProbeAction::Pass);
    assert_eq!(probe.on_buffer(Some(Some(ms(6000)))), ProbeAction::End);
    assert_eq!(probe.on_buffer(Some(Some(ms(6000)))), ProbeAction::Drop);
    assert_eq!(probe.on_buffer(Some(Some(ms(1000)))), ProbeAction::Drop);
}

#[test]
fn preview_takes_the_first_pictures() {
    assert_eq!(RemuxHandler::takes_pad(Some(&caps("video/x-raw")), false).ok(), Some(true));
    assert_eq!(RemuxHandler::takes_pad(Some(&caps("video/x-raw")), true).ok(), Some(false));
    assert_eq!(RemuxHandler::takes_pad(Some(&caps("audio/x-raw")), false).ok(), Some(false));
    match RemuxHandler::takes_pad(None, false) {
        Err(WayclipError::Remux(m)) => assert_eq!(m, "Pad has no current caps"),
        _ => panic!("an error was expected"),
    }
    let empty = Caps { text: "EMPTY".to_string(), structure: None };
    match RemuxHandler::takes_pad(Some(&empty), false) {
        Err(WayclipError::Remux(m)) => assert_eq!(m, "Caps structure is empty"),
        _ => panic!("an error was expected"),
    }
}

#[test]
fn first_failure_among_reports() {
    assert_eq!(first_failure(&vec![]), "unknown");
    assert_eq!(first_failure(&vec![BusMessage::Warning, BusMessage::Eos]), "unknown");
    assert_eq!(
        first_failure(&vec![
            BusMessage::Other,
            BusMessage::Error("first".to_string()),
            BusMessage::Error("second".to_string()),
        ]),
        "first"
    );
}

#[test]
fn preview_that_does_not_start() {
    let reports = vec![BusMessage::Other, BusMessage::Error("no decoder".to_string())];
    assert!(matches!(
        RemuxHandler::preview_refused(&reports),
        WayclipError::Remux(m)
            if m == "Pipeline failed to reach PLAYING state for preview: no decoder"
    ));
}
