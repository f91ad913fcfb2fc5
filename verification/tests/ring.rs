use wayclip_daemon::clock::{ClockTime, Moment};
use wayclip_daemon::error::WayclipError;
use wayclip_daemon::ring::{
    Caps, CapsStructure, ContentType, EncodedFrame, LogRateLimiter, Payload, RingBuffer,
};

fn ms(n: u64) -> ClockTime {
    ClockTime::from_mseconds(n)
}

fn frame(key: u64, at_ms: u64, is_keyframe: bool) -> EncodedFrame {
    EncodedFrame::new(Payload { key, size: 10 }, ms(at_ms), None, None, is_keyframe)
}

fn caps(name: &str) -> Caps {
    Caps {
        text: name.to_string(),
        structure: Some(CapsStructure { name: name.to_string(), mpegversion: None }),
    }
}

fn times(frames: &std::collections::VecDeque<EncodedFrame>) -> Vec<u64> {
    frames.iter().map(|f| f.pts.mseconds()).collect()
}

fn ring(seconds: u64) -> RingBuffer {
    RingBuffer::new(ClockTime::from_seconds(seconds))
}

#[test]
fn content_types_have_names() {
    assert_eq!(ContentType::Video.name(), "video");
    assert_eq!(ContentType::Audio.name(), "audio");
}

#[test]
fn limiter_lets_one_through_per_interval() {
    let mut limiter = LogRateLimiter { interval: 1_000_000_000, last: None };
    assert!(limiter.allow(Moment { ns: 5 }));
    assert!(!limiter.allow(Moment { ns: 1_000_000_004 }));
    assert!(limiter.allow(Moment { ns: 1_000_000_005 }));
    assert_eq!(limiter.last, Some(Moment { ns: 1_000_000_005 }));
}

#[test]
fn new_ring_is_empty() {
    let r = ring(2);
    assert_eq!(r.video_frames.len(), 0);
    assert_eq!(r.audio_frames.len(), 0);
    assert_eq!(r.max_duration.nseconds(), 2_000_000_000);
    assert_eq!(r.video_pts_offset_ns, 0);
    assert!(!r.awaiting_video_resync);
}

#[test]
fn old_video_leaves_at_the_kept_duration() {
    let mut r = ring(1);
    for (key, at) in [(1, 0), (2, 400), (3, 800)] {
        assert!(r.push_video_frame(frame(key, at, true)).is_ok());
    }
    assert_eq!(times(&r.video_frames), vec![0, 400, 800]);
    assert!(r.push_video_frame(frame(4, 1000, true)).is_ok());
    assert_eq!(times(&r.video_frames), vec![400, 800, 1000]);
    assert!(r.push_video_frame(frame(5, 1399, true)).is_ok());
    assert_eq!(times(&r.video_frames), vec![400, 800, 1000, 1399]);
}

#[test]
fn newest_video_stays_however_far_ahead() {
    let mut r = ring(1);
    assert!(r.push_video_frame(frame(1, 0, true)).is_ok());
    assert!(r.push_video_frame(frame(2, 60_000, true)).is_ok());
    assert_eq!(times(&r.video_frames), vec![60_000]);
}

#[test]
fn audio_leaves_with_the_video_it_belongs_to() {
    let mut r = ring(1);
    r.audio_first_pts = Some(ms(0));
    for at in [0, 100, 200, 300, 400] {
        assert!(r.push_audio_frame(frame(at, at, true)).is_ok());
    }
    assert!(r.push_video_frame(frame(1, 0, true)).is_ok());
    assert!(r.push_video_frame(frame(2, 400, true)).is_ok());
    assert!(r.push_video_frame(frame(3, 1000, true)).is_ok());
    assert_eq!(times(&r.video_frames), vec![400, 1000]);
    assert_eq!(times(&r.audio_frames), vec![300, 400]);
}

#[test]
fn audio_alone_is_bounded_too() {
    let mut r = ring(1);
    for at in [0, 500, 999, 1000] {
        assert!(r.push_audio_frame(frame(at, at, true)).is_ok());
    }
    assert_eq!(times(&r.audio_frames), vec![500, 999, 1000]);
}

#[test]
fn late_video_frame_is_dropped() {
    let mut r = ring(5);
    assert!(r.push_video_frame(frame(1, 2000, true)).is_ok());
    assert!(r.push_video_frame(frame(2, 2040, true)).is_ok());
    assert!(r.push_video_frame(frame(3, 1000, true)).is_ok());
    assert_eq!(times(&r.video_frames), vec![2000, 2040]);
}

#[test]
fn clock_reset_starts_over() {
    let mut r = ring(5);
    assert!(r.push_audio_frame(frame(9, 2000, true)).is_ok());
    assert!(r.push_video_frame(frame(1, 2000, true)).is_ok());
    assert!(r.push_video_frame(frame(2, 2040, true)).is_ok());
    assert!(r.push_video_frame(frame(3, 999, true)).is_ok());
    assert_eq!(times(&r.video_frames), vec![999]);
    assert_eq!(r.audio_frames.len(), 0);
}

#[test]
fn evicting_twice_changes_nothing_more() {
    let mut r = ring(1);
    for at in [0, 300, 600, 900, 1200, 1500] {
        assert!(r.push_video_frame(frame(at, at, true)).is_ok());
        assert!(r.push_audio_frame(frame(at, at, true)).is_ok());
    }
    let video = times(&r.video_frames);
    let audio = times(&r.audio_frames);
    assert!(r.evict_old_frames().is_ok());
    assert_eq!(times(&r.video_frames), video);
    assert_eq!(times(&r.audio_frames), audio);
}

#[test]
fn resync_remembers_the_ends() {
    let mut r = ring(5);
    assert!(r.push_video_frame(frame(1, 70, true)).is_ok());
    r.begin_resync();
    assert_eq!(r.video_resync_reference, Some(ms(70)));
    assert_eq!(r.audio_resync_reference, None);
    assert!(r.awaiting_video_resync && r.awaiting_audio_resync);
    assert_eq!(r.video_frames.len(), 1);
}

#[test]
fn snapshot_needs_caps() {
    let r = ring(5);
    match r.get_snapshot() {
        Err(WayclipError::Ring(m)) => {
            assert_eq!(m, "No video caps — pipeline may not have started yet")
        }
        _ => panic!("an error was expected"),
    }
}

#[test]
fn snapshot_needs_frames() {
    let mut r = ring(5);
    r.video_caps = Some(caps("video/x-h264"));
    match r.get_snapshot() {
        Err(WayclipError::Ring(m)) => assert_eq!(m, "Ring buffer is empty — nothing to save"),
        _ => panic!("an error was expected"),
    }
}

#[test]
fn snapshot_starts_at_the_first_keyframe() {
    let mut r = ring(60);
    r.video_caps = Some(caps("video/x-h264"));
    r.audio_caps = Some(caps("audio/x-opus"));
    r.video_first_pts = Some(ms(1000));
    r.audio_first_pts = Some(ms(500));
    r.video_start_instant = Some(Moment { ns: 10_000_000 });
    r.audio_start_instant = Some(Moment { ns: 52_900_000 });
    for (key, at, k) in [(1, 1000, false), (2, 1100, true), (3, 1200, false), (4, 1300, true)] {
        assert!(r.push_video_frame(frame(key, at, k)).is_ok());
    }
    for (key, at) in [(10, 499), (11, 500), (12, 600), (13, 900), (14, 901)] {
        assert!(r.push_audio_frame(frame(key, at, true)).is_ok());
    }
    let data = r.get_snapshot().unwrap();
    let video: Vec<u64> = data.video_frames.iter().map(|f| f.data.key).collect();
    assert_eq!(video, vec![2, 3, 4]);
    let audio: Vec<u64> = data.audio_frames.iter().map(|f| f.data.key).collect();
    assert_eq!(audio, vec![10, 11, 12, 13]);
    assert_eq!(data.duration.mseconds(), 200);
    assert_eq!(data.sync_offset_ms, 42);
    assert_eq!(data.video_caps.text, "video/x-h264");
    assert_eq!(r.video_frames.len(), 4);
}

#[test]
fn snapshot_without_keyframes_takes_everything() {
    let mut r = ring(60);
    r.video_caps = Some(caps("video/x-h264"));
    r.video_start_instant = Some(Moment { ns: 52_900_000 });
    r.audio_start_instant = Some(Moment { ns: 10_000_000 });
    assert!(r.push_video_frame(frame(1, 10, false)).is_ok());
    assert!(r.push_video_frame(frame(2, 20, false)).is_ok());
    let data = r.get_snapshot().unwrap();
    assert_eq!(data.video_frames.len(), 2);
    assert_eq!(data.sync_offset_ms, -42);
    assert!(data.audio_caps.is_none());
}

#[test]
fn video_stays_in_bounds_whatever_arrives() {
    let mut r = ring(1);
    let arriving = [100, 300, 250, 900, 1099, 1100, 1250, 1200, 5000, 4500, 5600, 2000, 2900];
    for (key, at) in arriving.into_iter().enumerate() {
        assert!(r.push_video_frame(frame(key as u64, at, true)).is_ok());
        let oldest = r.video_frames[0].pts.mseconds();
        for f in &r.video_frames {
            assert!(f.pts.mseconds().saturating_sub(oldest) < 1000);
        }
    }
    assert_eq!(times(&r.video_frames), vec![2000, 2900]);
}

#[test]
fn clip_takes_the_audio_within_the_slack() {
    let mut r = ring(60);
    r.video_caps = Some(caps("video/x-h264"));
    r.video_first_pts = Some(ms(0));
    r.audio_first_pts = Some(ms(0));
    for (key, at, whole) in [(1, 1000, false), (2, 1500, true), (3, 2000, false)] {
        assert!(r.push_video_frame(frame(key, at, whole)).is_ok());
    }
    for (key, at) in [(10, 1399), (11, 1400), (12, 1800), (13, 2100), (14, 2101)] {
        assert!(r.push_audio_frame(frame(key, at, true)).is_ok());
    }
    let clip = r.get_snapshot().unwrap();
    let video: Vec<u64> = clip.video_frames.iter().map(|f| f.pts.mseconds()).collect();
    let audio: Vec<u64> = clip.audio_frames.iter().map(|f| f.pts.mseconds()).collect();
    assert_eq!(video, vec![1500, 2000]);
    assert_eq!(audio, vec![1400, 1800, 2100]);
    assert_eq!(clip.duration.mseconds(), 500);
}
