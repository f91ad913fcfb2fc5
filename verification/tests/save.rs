use wayclip_daemon::capture::{FlowError, Sample};
use wayclip_daemon::clock::{ClockTime, Moment};
use wayclip_daemon::daemon::{DaemonCore, DaemonStatus};
use wayclip_daemon::error::WayclipError;
use wayclip_daemon::notifications::{NotificationEvent, NotificationSound};
use wayclip_daemon::remux::BusMessage;
use wayclip_daemon::ring::{Caps, CapsStructure, ContentType, EncodedFrame, Payload};
use wayclip_daemon::save::{
    clip_bytes, clip_paths, name_clip, name_clip_at, LocalTime, SaveStart,
};
use wayclip_daemon::settings::{
    AudioCodec, AudioNode, AudioSettings, CodecType, ContainerType, LimitSettings,
    MessageNotification, NotificationSettings, OutputSettings, RecordingConfig, SoundsNotification,
    VideoCodec, VideoFormat, VideoStandard,
};

fn video(standard: VideoStandard, backend: CodecType) -> VideoCodec {
    let (encoder, parser) = match (standard, backend) {
        (VideoStandard::H264, CodecType::NVIDIA) => ("nvh264enc", "h264parse"),
        (VideoStandard::H264, CodecType::VAAPI) => ("vah264enc", "h264parse"),
        (VideoStandard::H264, CodecType::Software) => ("x264enc", "h264parse"),
        (VideoStandard::H265, _) => ("x265enc", "h265parse"),
        (VideoStandard::AV1, CodecType::NVIDIA) => ("nvav1enc", "av1parse"),
        (VideoStandard::AV1, CodecType::VAAPI) => ("vaav1enc", "av1parse"),
        (VideoStandard::AV1, CodecType::Software) => ("av1enc", "av1parse"),
    };
    VideoCodec {
        standard,
        backend,
        encoder: encoder.to_string(),
        parser: parser.to_string(),
    }
}

fn opus() -> AudioCodec {
    AudioCodec { encoder: "opusenc".to_string(), parser: "opusparse".to_string() }
}

fn container(container: ContainerType) -> VideoFormat {
    let (mux, extension) = match container {
        ContainerType::MP4 => ("mp4mux", "mp4"),
        ContainerType::MKV => ("matroskamux", "mkv"),
        ContainerType::MPEGTS => ("mpegtsmux", "ts"),
    };
    VideoFormat { container, mux: mux.to_string(), extension: extension.to_string() }
}

fn output(name_format: &str, max_size_mb: u64, max_clips: u64) -> OutputSettings {
    OutputSettings {
        name_format: name_format.to_string(),
        clip_directory: "/clips".to_string(),
        preview_directory: "/previews".to_string(),
        limit: LimitSettings { max_size_mb, max_clips },
        video_format: container(ContainerType::MKV),
    }
}

fn daemon(max_size_mb: u64, max_clips: u64, discord: bool) -> DaemonCore {
    let node = || AudioNode { node_name: String::new(), enabled: false };
    DaemonCore::new(
        30,
        NotificationSettings {
            message: MessageNotification {
                on_daemon_start: true,
                on_daemon_stop: false,
                on_save_success: true,
                on_save_error: false,
            },
            sounds: SoundsNotification { on_save_success: false, on_save_error: true },
        },
        RecordingConfig {
            codec: video(VideoStandard::H264, CodecType::Software),
            bitrate_kbps: 8000,
            resolution: (1920, 1080),
            fps: 60,
            audio: AudioSettings {
                sample_rate_hz: 48000,
                codec: opus(),
                microphone: node(),
                background: node(),
            },
        },
        output("%Y-{game}", max_size_mb, max_clips),
        discord,
        Some("x11"),
        Some("kde"),
    )
}

fn fill(d: &mut DaemonCore, frames: u64) {
    d.ring_buffer.video_caps = Some(Caps {
        text: "video/x-h264".to_string(),
        structure: Some(CapsStructure { name: "video/x-h264".to_string(), mpegversion: None }),
    });
    for i in 0..frames {
        let f = EncodedFrame::new(
            Payload { key: i, size: 1000 },
            ClockTime::from_mseconds(i * 10),
            None,
            None,
            true,
        );
        assert!(d.ring_buffer.push_video_frame(f).is_ok());
    }
}

#[test]
fn new_daemon() {
    let d = daemon(0, 0, true);
    assert_eq!(d.get_status(), DaemonStatus::Inactive);
    assert_eq!(d.generation, 1);
    assert_eq!(d.id.chars().count(), 21);
    assert!(d.id.chars().all(|c| c.is_ascii_alphanumeric() || c == '_' || c == '-'));
    assert_ne!(d.id, daemon(0, 0, true).id);
    assert!(d.discord.is_some());
    assert!(daemon(0, 0, false).discord.is_none());
    assert_eq!(d.ring_buffer.max_duration.mseconds(), 30_000);
    assert_eq!(d.ring_buffer.video_first_pts, None);
    assert_eq!(d.ring_buffer.video_pts_offset_ns, 0);
    assert!(!d.ring_buffer.awaiting_audio_resync);
    assert_eq!(d.pipewire_manager.get_default_sink_name(), None);
    assert_eq!(d.discovery.last_steam_scan, None);
    assert_eq!(d.discovery.active_window_title, None);
}

#[test]
fn saving_needs_frames() {
    let d = daemon(0, 0, false);
    match d.save_clip() {
        Err(WayclipError::Ring(m)) => {
            assert_eq!(m, "No video caps — pipeline may not have started yet")
        }
        _ => panic!("an error was expected"),
    }
    let mut d = daemon(0, 0, false);
    fill(&mut d, 0);
    match d.save_clip() {
        Err(WayclipError::Ring(m)) => assert_eq!(m, "Ring buffer is empty — nothing to save"),
        _ => panic!("an error was expected"),
    }
    fill(&mut d, 99);
    match d.save_clip() {
        Ok(SaveStart::Refused(n)) => {
            assert_eq!(
                n.content,
                "Cannot save clip: Not enough frames in buffer yet (99/100 frames). Stream might \
                 be lagging."
            );
            assert_eq!(n.event, NotificationEvent::SaveError);
            assert_eq!(n.reaction.sound, Some(NotificationSound::Error));
            assert!(!n.reaction.message);
        }
        _ => panic!("a refusal was expected"),
    }
}

#[test]
fn full_buffer_can_be_saved() {
    let mut d = daemon(0, 0, false);
    fill(&mut d, 100);
    d.ring_buffer.video_first_pts = Some(ClockTime::from_mseconds(0));
    match d.save_clip() {
        Ok(SaveStart::Ready(data, first)) => {
            assert_eq!(data.video_frames.len(), 100);
            assert_eq!(data.duration.mseconds(), 990);
            assert_eq!(first, Some(ClockTime::from_mseconds(0)));
            assert_eq!(clip_bytes(&data), 100_000);
        }
        _ => panic!("a clip was expected"),
    }
    assert_eq!(d.get_status(), DaemonStatus::Inactive);
}

#[test]
fn one_save_at_a_time() {
    let mut d = daemon(0, 0, false);
    fill(&mut d, 100);
    assert!(d.claim_save());
    assert_eq!(d.get_status(), DaemonStatus::Saving);
    assert!(!d.claim_save());
    assert!(matches!(d.save_clip(), Ok(SaveStart::Busy)));
}

#[test]
fn limits_on_clips() {
    let d = daemon(100, 3, false);
    assert!(d.check_limits(10_999_999, &vec![50, 40]).is_none());
    let n = d.check_limits(11_000_000, &vec![50, 40]).unwrap();
    assert_eq!(
        n.content,
        "Cannot save clip: Predicted size (11 MB) exceeds user limit (100 MB)."
    );
    let n = d.check_limits(0, &vec![1, 1, 1]).unwrap();
    assert_eq!(n.content, "Cannot save clip: Total clip number exceeds user limit (3 clips).");
    assert_eq!(n.event, NotificationEvent::SaveError);
}

#[test]
fn zero_means_unbounded() {
    let d = daemon(0, 0, false);
    assert!(d.check_limits(u64::MAX, &vec![1_000_000; 50]).is_none());
}

#[test]
fn names_of_a_clip() {
    let out = output("", 0, 0);
    let p = clip_paths("2024_{game}_{game}", Some("doom"), None, &out);
    assert_eq!(p.parsed_name, "2024_doom_doom");
    assert_eq!(p.clip_name, "2024_doom_doom.mkv");
    assert_eq!(p.clip, "/clips/2024_doom_doom.mkv");
    assert_eq!(p.preview, "/previews/2024_doom_doom.preview.mkv");
    assert_eq!(p.metadata, "/clips/2024_doom_doom.json");
    let p = clip_paths("2024_{game}", None, Some("mine.mp4".to_string()), &out);
    assert_eq!(p.parsed_name, "2024_desktop");
    assert_eq!(p.clip, "/clips/mine.mp4");
    assert_eq!(p.preview, "/previews/2024_desktop.preview.mkv");
}

#[test]
fn names_carry_the_time() {
    let time = LocalTime { seconds: 1_431_648_000, nanos: 0, offset: 7_200 };
    let out = output("%Y-%m-%d_%H-%M-%S_%Z_{game}", 0, 0);
    let p = name_clip_at(time, None, None, &out).unwrap();
    assert_eq!(p.parsed_name, "2015-05-15_02-00-00_+02:00_desktop");
    assert!(name_clip_at(time, None, None, &output("%Q", 0, 0)).is_none());
    let far = LocalTime { seconds: i64::MAX, nanos: 0, offset: 0 };
    assert!(name_clip_at(far, None, None, &out).is_none());
}

#[test]
fn names_carry_the_present_time() {
    let p = name_clip(Some("doom"), None, &output("%Y_{game}", 0, 0)).unwrap();
    assert!(p.parsed_name.ends_with("_doom"));
    let year: i32 = p.parsed_name[..4].parse().unwrap();
    assert!(year >= 2024);
}

#[test]
fn end_of_a_save() {
    let mut d = daemon(0, 0, false);
    assert!(d.claim_save());
    let n = d.finish_save(Ok(()), "a.mkv".to_string());
    assert_eq!(n.event, NotificationEvent::SaveSuccess);
    assert_eq!(n.content, "a.mkv");
    assert!(n.reaction.message);
    assert_eq!(n.reaction.sound, None);
    assert_eq!(d.get_status(), DaemonStatus::Active);
    assert!(d.claim_save());
    let n = d.finish_save(Err("Remux error: x".to_string()), "a.mkv".to_string());
    assert_eq!(n.event, NotificationEvent::SaveError);
    assert_eq!(n.content, "Remux error: x");
    assert_eq!(d.get_status(), DaemonStatus::Failed);
}

#[test]
fn start_and_stop() {
    let mut d = daemon(0, 0, false);
    let r = d.init();
    assert!(r.message);
    assert_eq!(d.get_status(), DaemonStatus::Activating);
    d.pipeline_started();
    assert_eq!(d.get_status(), DaemonStatus::Active);
    assert!(d.has_pipeline);
    d.pipewire_node_id = Some("1".to_string());
    let r = d.shutdown();
    assert!(!r.message);
    assert_eq!(d.get_status(), DaemonStatus::Deactivating);
    assert!(!d.has_pipeline && d.pipewire_node_id.is_none());
    d.stopped();
    assert_eq!(d.get_status(), DaemonStatus::Inactive);
}

#[test]
fn pipeline_that_does_not_start() {
    let mut d = daemon(0, 0, false);
    let messages = vec![BusMessage::Warning, BusMessage::Error("no format".to_string())];
    match d.start_refused("StateChangeError", &messages) {
        WayclipError::Validation(m) => assert_eq!(
            m,
            "set_state(Playing) failed synchronously (StateChangeError): no format"
        ),
        _ => panic!("another error was expected"),
    }
    assert_eq!(d.get_status(), DaemonStatus::Failed);
    let mut d = daemon(0, 0, false);
    assert!(d.start_judged(true, true, "Ok(Success)", &vec![]).is_ok());
    assert_eq!(d.get_status(), DaemonStatus::Inactive);
    match d.start_judged(true, false, "Ok(Async)", &vec![]) {
        Err(WayclipError::Validation(m)) => assert_eq!(
            m,
            "Capture pipeline failed to reach PLAYING state (Ok(Async)): unknown"
        ),
        _ => panic!("an error was expected"),
    }
    assert_eq!(d.get_status(), DaemonStatus::Failed);
}

#[test]
fn samples_mark_the_time() {
    let mut d = daemon(0, 0, false);
    let sample = |pts| Sample {
        data: Payload { key: 1, size: 1 },
        pts,
        dts: None,
        duration: None,
        delta_unit: false,
        caps: None,
    };
    let now = Moment { ns: 1 };
    let got = d.set_appsink_callbacks(ContentType::Video, None, now, 5);
    assert_eq!(got, Err(FlowError::Eos));
    let got = d.set_appsink_callbacks(ContentType::Video, Some(sample(None)), now, 5);
    assert_eq!(got, Err(FlowError::Error));
    assert_eq!(d.last_video_frame_time, 0);
    let at = Some(ClockTime::from_mseconds(3));
    let got = d.set_appsink_callbacks(ContentType::Video, Some(sample(at)), now, 6);
    assert_eq!(got, Ok(()));
    let got = d.set_appsink_callbacks(ContentType::Audio, Some(sample(at)), now, 7);
    assert_eq!(got, Ok(()));
    assert_eq!((d.last_video_frame_time, d.last_audio_frame_time), (6, 7));
    assert_eq!((d.ring_buffer.video_frames.len(), d.ring_buffer.audio_frames.len()), (1, 1));
}

#[test]
fn recovery_keeps_the_recorded_past() {
    let mut d = daemon(0, 0, false);
    fill(&mut d, 10);
    d.last_video_frame_time = 99;
    let id = d.id.clone();
    assert_eq!(d.recover_pipeline(), 2);
    assert_eq!(d.generation, 2);
    assert_eq!(d.last_video_frame_time, 0);
    assert!(d.ring_buffer.awaiting_video_resync);
    assert_eq!(d.ring_buffer.video_frames.len(), 10);
    d.has_session = true;
    d.drop_screen();
    assert!(!d.has_session);
    assert_ne!(d.id, id);
    assert!(DaemonCore::asks_again(4, false));
    assert!(!DaemonCore::asks_again(5, false));
    assert!(!DaemonCore::asks_again(1, true));
}

#[test]
fn games_are_announced_to_discord() {
    let mut d = daemon(0, 0, true);
    d.announce_game(Some("Doom".to_string()));
    assert_eq!(d.discord.as_ref().unwrap().waiting.len(), 1);
    let mut d = daemon(0, 0, false);
    d.announce_game(Some("Doom".to_string()));
    assert!(d.discord.is_none());
    assert_eq!(d.rescan_games(), (None, 0));
}
