use wayclip_daemon::capture::{FlowError, Sample};
use wayclip_daemon::clock::{ClockTime, Moment};
use wayclip_daemon::ring::{Caps, CapsStructure, ContentType, Payload, RingBuffer};

fn sample(at_ms: Option<u64>, delta_unit: bool) -> Sample {
    Sample {
        data: Payload { key: 7, size: 100 },
        pts: at_ms.map(ClockTime::from_mseconds),
        dts: None,
        duration: None,
        delta_unit,
        caps: Some(Caps {
            text: "video/x-h264, width=1".to_string(),
            structure: Some(CapsStructure {
                name: "video/x-h264".to_string(),
                mpegversion: None,
            }),
        }),
    }
}

#[test]
fn sample_without_a_time_is_refused() {
    let mut r = RingBuffer::new(ClockTime::from_seconds(10));
    let got = r.take_sample(ContentType::Video, sample(None, false), Moment { ns: 1 });
    assert_eq!(got, Err(FlowError::Error));
    assert_eq!(r.video_frames.len(), 0);
}

#[test]
fn first_sample_is_remembered() {
    let mut r = RingBuffer::new(ClockTime::from_seconds(10));
    let first = r.take_sample(ContentType::Video, sample(Some(500), false), Moment { ns: 3 });
    assert_eq!(first, Ok(()));
    let second = r.take_sample(ContentType::Video, sample(Some(533), true), Moment { ns: 4 });
    assert_eq!(second, Ok(()));
    assert_eq!(r.video_first_pts, Some(ClockTime::from_mseconds(500)));
    assert_eq!(r.video_start_instant, Some(Moment { ns: 3 }));
    assert_eq!(r.audio_first_pts, None);
    assert!(r.video_frames[0].is_keyframe);
    assert!(!r.video_frames[1].is_keyframe);
    assert_eq!(r.video_caps.as_ref().unwrap().text, "video/x-h264, width=1");
    assert!(r.audio_caps.is_none());
}

#[test]
fn audio_counts_as_keyframes() {
    let mut r = RingBuffer::new(ClockTime::from_seconds(10));
    let got = r.take_sample(ContentType::Audio, sample(Some(20), true), Moment { ns: 1 });
    assert_eq!(got, Ok(()));
    assert!(r.audio_frames[0].is_keyframe);
    assert_eq!(r.audio_start_instant, Some(Moment { ns: 1 }));
}

#[test]
fn restarted_capture_goes_on_where_the_old_one_ended() {
    let mut r = RingBuffer::new(ClockTime::from_seconds(60));
    for at in [1000, 1033] {
        let got = r.take_sample(ContentType::Video, sample(Some(at), false), Moment { ns: at });
        assert_eq!(got, Ok(()));
        let got = r.take_sample(ContentType::Audio, sample(Some(at), false), Moment { ns: at });
        assert_eq!(got, Ok(()));
    }
    r.begin_resync();
    for at in [5, 45] {
        let got = r.take_sample(ContentType::Video, sample(Some(at), false), Moment { ns: 9 });
        assert_eq!(got, Ok(()));
        let got = r.take_sample(ContentType::Audio, sample(Some(at), false), Moment { ns: 9 });
        assert_eq!(got, Ok(()));
    }
    let video: Vec<u64> = r.video_frames.iter().map(|f| f.pts.mseconds()).collect();
    assert_eq!(video, vec![1000, 1033, 1066, 1106]);
    let audio: Vec<u64> = r.audio_frames.iter().map(|f| f.pts.mseconds()).collect();
    assert_eq!(audio, vec![1000, 1033, 1053, 1093]);
    assert_eq!(r.video_pts_offset_ns, 1_061_000_000);
    assert!(!r.awaiting_video_resync && !r.awaiting_audio_resync);
}

#[test]
fn times_never_go_below_the_start() {
    let mut r = RingBuffer::new(ClockTime::from_seconds(60));
    r.video_pts_offset_ns = -2_000_000;
    let got = r.take_sample(ContentType::Video, sample(Some(1), false), Moment { ns: 1 });
    assert_eq!(got, Ok(()));
    assert_eq!(r.video_frames[0].pts.nseconds(), 0);
}

#[test]
fn times_beyond_the_machine_are_told() {
    let mut r = RingBuffer::new(ClockTime::from_seconds(60));
    assert!(r.can_place(ContentType::Video, ClockTime::from_mseconds(1)));
    r.video_pts_offset_ns = i64::MAX;
    assert!(!r.can_place(ContentType::Video, ClockTime::from_mseconds(1)));
    assert!(r.can_place(ContentType::Audio, ClockTime::from_mseconds(1)));
}

#[test]
fn spacing_is_kept_across_a_restart() {
    let mut r = RingBuffer::new(ClockTime::from_seconds(60));
    let old = r.take_sample(ContentType::Audio, sample(Some(7000), false), Moment { ns: 1 });
    assert_eq!(old, Ok(()));
    r.begin_resync();
    for at in [3, 24, 50] {
        let got = r.take_sample(ContentType::Audio, sample(Some(at), false), Moment { ns: 2 });
        assert_eq!(got, Ok(()));
    }
    let times: Vec<u64> = r.audio_frames.iter().map(|f| f.pts.mseconds()).collect();
    assert_eq!(times, vec![7000, 7020, 7041, 7067]);
}
