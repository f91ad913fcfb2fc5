//! The ring buffer: the encoded video and audio of the last moments, what leaves
//! it when new frames arrive, and the snapshot that becomes a clip.

use crate::clock::{larger, minus_floor, smaller, ClockTime, Moment, MAX_TIME_NS};
use crate::error::WayclipError;
use std::collections::VecDeque;
use vstd::prelude::*;

verus! {

/// A frame that lies further than this behind the oldest one means that the
/// stream clock was reset, in nanoseconds.
pub const BACKWARDS_THRESHOLD_NS: u64 = 1_000_000_000;

/// How far audio may reach beyond the video on either side, in nanoseconds.
pub const AUDIO_SLACK_NS: u64 = 100_000_000;

/// The two streams that are recorded.
#[derive(Clone, Copy, Debug, PartialEq, Eq, Structural)]
pub enum ContentType {
    /// Pictures.
    Video,
    /// Sound.
    Audio,
}

impl ContentType {
    /// The name of the stream.
    pub fn name(self) -> (r: &'static str)
        ensures
            r@ == (match self {
                ContentType::Video => "video"@,
                ContentType::Audio => "audio"@,
            }),
    {
        match self {
            ContentType::Video => "video",
            ContentType::Audio => "audio",
        }
    }
}

/// The encoded data of a frame: the key under which the media framework's buffer
/// is stored, and how many bytes it holds.
#[derive(Clone, Copy, Debug, PartialEq, Eq, Structural)]
pub struct Payload {
    /// The key of the buffer.
    pub key: u64,
    /// The bytes that it holds.
    pub size: u64,
}

/// One encoded frame.
#[derive(Clone, Copy, Debug)]
pub struct EncodedFrame {
    /// The encoded data.
    pub data: Payload,
    /// When the frame is shown.
    pub pts: ClockTime,
    /// When the frame is decoded.
    pub dts: Option<ClockTime>,
    /// For how long it is shown.
    pub duration: Option<ClockTime>,
    /// Whether it can be decoded without the frames before it.
    pub is_keyframe: bool,
}

impl EncodedFrame {
    /// A frame of these parts.
    pub fn new(
        data: Payload,
        pts: ClockTime,
        dts: Option<ClockTime>,
        duration: Option<ClockTime>,
        is_keyframe: bool,
    ) -> (r: EncodedFrame)
        ensures
            r == (EncodedFrame { data, pts, dts, duration, is_keyframe }),
    {
        EncodedFrame { data, pts, dts, duration, is_keyframe }
    }
}

/// The first structure of a media format description.
#[derive(Debug)]
pub struct CapsStructure {
    /// The media type, such as `video/x-h264`.
    pub name: String,
    /// The field `mpegversion`, where it is there and holds a number.
    pub mpegversion: Option<i32>,
}

/// A media format description.
#[derive(Debug)]
pub struct Caps {
    /// The whole description, as the media framework writes and reads it.
    pub text: String,
    /// Its first structure, if it has one.
    pub structure: Option<CapsStructure>,
}

impl Caps {
    /// The same description once more.
    pub fn copy(&self) -> (r: Caps)
        ensures
            r == *self,
    {
        let structure: Option<CapsStructure> = match &self.structure {
            Some(s) => Some(CapsStructure { name: s.name.clone(), mpegversion: s.mpegversion }),
            None => None,
        };
        Caps { text: self.text.clone(), structure }
    }
}

/// What is written out as one clip.
#[derive(Debug)]
pub struct SaveData {
    /// The video, from a frame that can be decoded on its own where there is one.
    pub video_frames: Vec<EncodedFrame>,
    /// The audio that goes with it.
    pub audio_frames: Vec<EncodedFrame>,
    /// The format of the video.
    pub video_caps: Caps,
    /// The format of the audio.
    pub audio_caps: Option<Caps>,
    /// How many milliseconds after the first video frame the first audio frame came.
    pub sync_offset_ms: i64,
    /// From the earliest to the latest video frame.
    pub duration: ClockTime,
}

/// Lets a message through at most once per interval.
#[derive(Clone, Copy, Debug)]
pub struct LogRateLimiter {
    /// The interval in nanoseconds.
    pub interval: u64,
    /// When a message was last let through.
    pub last: Option<Moment>,
}

impl LogRateLimiter {
    /// Whether a message may pass at the moment `now`.
    pub open spec fn allows(self, now: Moment) -> bool {
        match self.last {
            Some(last) => minus_floor(now.ns as int, last.ns as int) >= self.interval,
            None => true,
        }
    }

    /// Asks for a message to pass at the moment `now`. The moment is kept if it may.
    pub fn allow(&mut self, now: Moment) -> (r: bool)
        ensures
            r == old(self).allows(now),
            final(self).interval == old(self).interval,
            final(self).last == (if r {
                Some(now)
            } else {
                old(self).last
            }),
    {
        let pass: bool = match self.last {
            Some(last) => now.duration_since(last) >= self.interval,
            None => true,
        };
        if pass {
            self.last = Some(now);
        }
        pass
    }
}

/// The recorded past, with what is needed to line up its two streams.
#[derive(Debug)]
pub struct RingBuffer {
    /// The video, oldest first.
    pub video_frames: VecDeque<EncodedFrame>,
    /// The audio, oldest first.
    pub audio_frames: VecDeque<EncodedFrame>,
    /// The format of the video, once known.
    pub video_caps: Option<Caps>,
    /// The format of the audio, once known.
    pub audio_caps: Option<Caps>,
    /// The time of the first video frame ever seen.
    pub video_first_pts: Option<ClockTime>,
    /// The time of the first audio frame ever seen.
    pub audio_first_pts: Option<ClockTime>,
    /// When the first video frame came.
    pub video_start_instant: Option<Moment>,
    /// When the first audio frame came.
    pub audio_start_instant: Option<Moment>,
    /// What is added to the times of arriving video, in nanoseconds.
    pub video_pts_offset_ns: i64,
    /// What is added to the times of arriving audio, in nanoseconds.
    pub audio_pts_offset_ns: i64,
    /// Whether the next video frame sets the offset anew.
    pub awaiting_video_resync: bool,
    /// Whether the next audio frame sets the offset anew.
    pub awaiting_audio_resync: bool,
    /// The last video time before a restart of the capture.
    pub video_resync_reference: Option<ClockTime>,
    /// The last audio time before a restart of the capture.
    pub audio_resync_reference: Option<ClockTime>,
    /// Limits messages on arriving video.
    pub arriving_video_limiter: LogRateLimiter,
    /// Limits messages on arriving audio.
    pub arriving_audio_limiter: LogRateLimiter,
    /// Limits messages on frames that leave.
    pub evicted_frames_limiter: LogRateLimiter,
    /// How much of the past is kept.
    pub max_duration: ClockTime,
}

/// A time counted from the first one of its stream.
pub open spec fn relative(pts: ClockTime, first: Option<ClockTime>) -> int {
    match first {
        Some(f) => minus_floor(pts.ns as int, f.ns as int),
        None => pts.ns as int,
    }
}

/// Whether the video frame at `i` is the last one, lies ahead of the last one or
/// lies less than `max` behind it.
pub open spec fn stays(v: Seq<EncodedFrame>, first: Option<ClockTime>, max: int, i: int) -> bool {
    ||| i >= v.len() - 1
    ||| relative(v[i].pts, first) > relative(v.last().pts, first)
    ||| relative(v.last().pts, first) - relative(v[i].pts, first) < max
}

/// The first position at or after `i` whose video frame stays.
pub open spec fn kept_from(
    v: Seq<EncodedFrame>,
    first: Option<ClockTime>,
    max: int,
    i: int,
) -> int
    decreases v.len() - i,
{
    if i >= v.len() - 1 || stays(v, first, max, i) {
        i
    } else {
        kept_from(v, first, max, i + 1)
    }
}

/// The earliest audio time that is still wanted once the first `k` video frames are
/// gone: the slack before the latest of the frames that became the oldest in turn.
pub open spec fn audio_floor(v: Seq<EncodedFrame>, first: Option<ClockTime>, k: int) -> int
    decreases k,
{
    if k <= 0 {
        0
    } else {
        larger(
            audio_floor(v, first, k - 1),
            minus_floor(relative(v[k].pts, first), AUDIO_SLACK_NS as int),
        )
    }
}

/// `a` without its leading frames that lie before `floor`.
pub open spec fn drop_before(a: Seq<EncodedFrame>, first: ClockTime, floor: int) -> Seq<
    EncodedFrame,
>
    decreases a.len(),
{
    if a.len() > 0 && relative(a[0].pts, Some(first)) < floor {
        drop_before(a.subrange(1, a.len() as int), first, floor)
    } else {
        a
    }
}

/// `a` without its leading frames that lie `max` or more behind its last one, which stays.
pub open spec fn drop_stale(a: Seq<EncodedFrame>, max: int) -> Seq<EncodedFrame>
    decreases a.len(),
{
    if a.len() > 1 && minus_floor(a.last().pts.ns as int, a[0].pts.ns as int) >= max {
        drop_stale(a.subrange(1, a.len() as int), max)
    } else {
        a
    }
}

/// What an eviction leaves of the two streams.
pub struct Retained {
    /// The video that stays.
    pub video: Seq<EncodedFrame>,
    /// The audio that stays.
    pub audio: Seq<EncodedFrame>,
}

/// Whether the newest video frame lies behind the oldest one that could stay.
pub open spec fn steps_back(v: Seq<EncodedFrame>, first: Option<ClockTime>, max: int) -> bool {
    let k = kept_from(v, first, max, 0);
    k < v.len() - 1 && relative(v[k].pts, first) > relative(v.last().pts, first)
}

/// Whether the newest video frame lies so far back that the stream clock must have been reset.
pub open spec fn clock_reset(v: Seq<EncodedFrame>, first: Option<ClockTime>, max: int) -> bool {
    let k = kept_from(v, first, max, 0);
    steps_back(v, first, max) && relative(v[k].pts, first) - relative(v.last().pts, first)
        > BACKWARDS_THRESHOLD_NS
}

/// What an eviction leaves: the video from the first frame that stays, and the audio
/// that goes with it. After a reset of the stream clock only the newest video frame
/// is left; one that lies a little behind the oldest is itself dropped.
pub open spec fn retained(
    v: Seq<EncodedFrame>,
    a: Seq<EncodedFrame>,
    video_first: Option<ClockTime>,
    audio_first: Option<ClockTime>,
    max: int,
) -> Retained {
    let k = kept_from(v, video_first, max, 0);
    let wanted = match audio_first {
        Some(f) => drop_before(a, f, audio_floor(v, video_first, k)),
        None => a,
    };
    if clock_reset(v, video_first, max) {
        Retained { video: seq![v.last()], audio: Seq::empty() }
    } else if steps_back(v, video_first, max) {
        Retained { video: v.subrange(k, v.len() - 1), audio: drop_stale(wanted, max) }
    } else {
        Retained { video: v.subrange(k, v.len() as int), audio: drop_stale(wanted, max) }
    }
}

proof fn lemma_kept_from_range(v: Seq<EncodedFrame>, first: Option<ClockTime>, max: int, i: int)
    requires
        0 <= i,
        i < v.len() || i == 0,
    ensures
        i <= kept_from(v, first, max, i),
        kept_from(v, first, max, i) < v.len() || kept_from(v, first, max, i) == 0,
        stays(v, first, max, kept_from(v, first, max, i)),
    decreases v.len() - i,
{
    if !(i >= v.len() - 1 || stays(v, first, max, i)) {
        lemma_kept_from_range(v, first, max, i + 1);
    }
}

/// Dropping up to one floor and then up to another drops up to the higher one.
proof fn lemma_drop_before_twice(a: Seq<EncodedFrame>, first: ClockTime, f: int, g: int)
    ensures
        drop_before(drop_before(a, first, f), first, g) == drop_before(a, first, larger(f, g)),
    decreases a.len(),
{
    if a.len() > 0 {
        let rest = a.subrange(1, a.len() as int);
        if relative(a[0].pts, Some(first)) < f {
            lemma_drop_before_twice(rest, first, f, g);
        } else if relative(a[0].pts, Some(first)) < g {
            lemma_drop_before_twice(rest, first, f, g);
            lemma_drop_before_higher(rest, first, f, g);
        }
    }
}

/// Where the higher floor comes second, the lower one before it makes no difference.
proof fn lemma_drop_before_higher(a: Seq<EncodedFrame>, first: ClockTime, f: int, g: int)
    requires
        f <= g,
    ensures
        drop_before(drop_before(a, first, f), first, g) == drop_before(a, first, g),
    decreases a.len(),
{
    if a.len() > 0 && relative(a[0].pts, Some(first)) < f {
        lemma_drop_before_higher(a.subrange(1, a.len() as int), first, f, g);
    }
}

/// The time of a frame counted from the first one of its stream.
fn relative_time(pts: ClockTime, first: Option<ClockTime>) -> (r: ClockTime)
    ensures
        r.ns == relative(pts, first),
{
    match first {
        Some(f) => pts.saturating_sub(f),
        None => pts.saturating_sub(ClockTime::zero()),
    }
}

impl RingBuffer {
    /// Whether the two buffers agree on everything but the frames that they hold.
    pub open spec fn agrees_beside_frames(&self, other: &RingBuffer) -> bool {
        &&& self.video_caps == other.video_caps
        &&& self.audio_caps == other.audio_caps
        &&& self.agrees_on_timing(other)
        &&& self.video_first_pts == other.video_first_pts
        &&& self.audio_first_pts == other.audio_first_pts
        &&& self.video_start_instant == other.video_start_instant
        &&& self.audio_start_instant == other.audio_start_instant
    }

    /// Whether the two buffers agree on offsets, resynchronisation, limits and limiters.
    pub open spec fn agrees_on_timing(&self, other: &RingBuffer) -> bool {
        &&& self.video_pts_offset_ns == other.video_pts_offset_ns
        &&& self.audio_pts_offset_ns == other.audio_pts_offset_ns
        &&& self.awaiting_video_resync == other.awaiting_video_resync
        &&& self.awaiting_audio_resync == other.awaiting_audio_resync
        &&& self.video_resync_reference == other.video_resync_reference
        &&& self.audio_resync_reference == other.audio_resync_reference
        &&& self.agrees_on_limits(other)
    }

    /// Whether the two buffers agree on limits and limiters.
    pub open spec fn agrees_on_limits(&self, other: &RingBuffer) -> bool {
        &&& self.arriving_video_limiter == other.arriving_video_limiter
        &&& self.arriving_audio_limiter == other.arriving_audio_limiter
        &&& self.evicted_frames_limiter == other.evicted_frames_limiter
        &&& self.max_duration == other.max_duration
    }

    /// What an eviction would leave of these two streams in this buffer.
    pub open spec fn would_retain(
        &self,
        video: Seq<EncodedFrame>,
        audio: Seq<EncodedFrame>,
    ) -> Retained {
        retained(
            video,
            audio,
            self.video_first_pts,
            self.audio_first_pts,
            self.max_duration.ns as int,
        )
    }

    /// Nothing was recorded yet, and nothing is awaited.
    pub open spec fn is_fresh(&self) -> bool {
        &&& self.video_frames@ == Seq::<EncodedFrame>::empty()
        &&& self.audio_frames@ == Seq::<EncodedFrame>::empty()
        &&& self.video_caps is None
        &&& self.audio_caps is None
        &&& self.video_first_pts is None
        &&& self.audio_first_pts is None
        &&& self.video_start_instant is None
        &&& self.audio_start_instant is None
        &&& self.video_pts_offset_ns == 0
        &&& self.audio_pts_offset_ns == 0
        &&& !self.awaiting_video_resync
        &&& !self.awaiting_audio_resync
        &&& self.video_resync_reference is None
        &&& self.audio_resync_reference is None
        &&& self.arriving_video_limiter == (LogRateLimiter { interval: 1_000_000_000, last: None })
        &&& self.arriving_audio_limiter == (LogRateLimiter { interval: 1_000_000_000, last: None })
        &&& self.evicted_frames_limiter == (LogRateLimiter { interval: 1_000_000_000, last: None })
    }

    /// An empty buffer for that much of the past.
    pub fn new(max_duration: ClockTime) -> (r: RingBuffer)
        ensures
            r.is_fresh(),
            r.max_duration == max_duration,
    {
        let limiter: LogRateLimiter = LogRateLimiter { interval: 1_000_000_000, last: None };
        RingBuffer {
            video_frames: VecDeque::new(),
            audio_frames: VecDeque::new(),
            video_caps: None,
            audio_caps: None,
            video_first_pts: None,
            audio_first_pts: None,
            video_start_instant: None,
            audio_start_instant: None,
            video_pts_offset_ns: 0,
            audio_pts_offset_ns: 0,
            awaiting_video_resync: false,
            awaiting_audio_resync: false,
            video_resync_reference: None,
            audio_resync_reference: None,
            arriving_video_limiter: limiter,
            arriving_audio_limiter: limiter,
            evicted_frames_limiter: limiter,
            max_duration,
        }
    }

    /// Takes a video frame in and lets go of what is then too old.
    pub fn push_video_frame(&mut self, frame: EncodedFrame) -> (r: Result<(), WayclipError>)
        ensures
            r is Ok,
            final(self).agrees_beside_frames(old(self)),
            ({
                let kept = old(self).would_retain(
                    old(self).video_frames@.push(frame),
                    old(self).audio_frames@,
                );
                final(self).video_frames@ == kept.video && final(self).audio_frames@ == kept.audio
            }),
    {
        self.video_frames.push_back(frame);
        self.evict_old_frames()
    }

    /// Takes an audio frame in and lets go of what is then too old.
    pub fn push_audio_frame(&mut self, frame: EncodedFrame) -> (r: Result<(), WayclipError>)
        ensures
            r is Ok,
            final(self).agrees_beside_frames(old(self)),
            ({
                let kept = old(self).would_retain(
                    old(self).video_frames@,
                    old(self).audio_frames@.push(frame),
                );
                final(self).video_frames@ == kept.video && final(self).audio_frames@ == kept.audio
            }),
    {
        self.audio_frames.push_back(frame);
        self.evict_old_frames()
    }

    /// Whether `self` is `before` with the ends of its streams remembered and the
    /// next frame of each stream awaited.
    pub open spec fn resync_begun(&self, before: &RingBuffer) -> bool {
        &&& self.video_resync_reference == (if before.video_frames@.len() > 0 {
            Some(before.video_frames@.last().pts)
        } else {
            None
        })
        &&& self.audio_resync_reference == (if before.audio_frames@.len() > 0 {
            Some(before.audio_frames@.last().pts)
        } else {
            None
        })
        &&& self.awaiting_video_resync
        &&& self.awaiting_audio_resync
        &&& self.video_frames@ == before.video_frames@
        &&& self.audio_frames@ == before.audio_frames@
        &&& self.video_caps == before.video_caps
        &&& self.audio_caps == before.audio_caps
        &&& self.video_first_pts == before.video_first_pts
        &&& self.audio_first_pts == before.audio_first_pts
        &&& self.video_start_instant == before.video_start_instant
        &&& self.audio_start_instant == before.audio_start_instant
        &&& self.video_pts_offset_ns == before.video_pts_offset_ns
        &&& self.audio_pts_offset_ns == before.audio_pts_offset_ns
        &&& self.agrees_on_limits(before)
    }

    /// Remembers where the streams end, before the capture starts anew.
    pub fn begin_resync(&mut self)
        ensures
            final(self).resync_begun(old(self)),
    {
        let videos: usize = self.video_frames.len();
        let audios: usize = self.audio_frames.len();
        self.video_resync_reference = if videos > 0 {
            Some(self.video_frames[videos - 1].pts)
        } else {
            None
        };
        self.audio_resync_reference = if audios > 0 {
            Some(self.audio_frames[audios - 1].pts)
        } else {
            None
        };
        self.awaiting_video_resync = true;
        self.awaiting_audio_resync = true;
    }

    /// Lets go of the audio before the floor that the oldest video frame sets.
    fn drop_audio_before(&mut self, first: ClockTime, floor: ClockTime)
        ensures
            final(self).agrees_beside_frames(old(self)),
            final(self).video_frames@ == old(self).video_frames@,
            final(self).audio_frames@ == drop_before(
                old(self).audio_frames@,
                first,
                floor.ns as int,
            ),
    {
        let ghost before = self.audio_frames@;
        while self.audio_frames.len() > 0 && self.audio_frames[0].pts.saturating_sub(first).ns
            < floor.ns
            invariant
                self.agrees_beside_frames(old(self)),
                self.video_frames@ == old(self).video_frames@,
                drop_before(before, first, floor.ns as int) == drop_before(
                    self.audio_frames@,
                    first,
                    floor.ns as int,
                ),
            decreases self.audio_frames@.len(),
        {
            let _ = self.audio_frames.pop_front();
        }
    }

    /// Lets go of the audio that lies too far behind the newest.
    fn drop_stale_audio(&mut self)
        ensures
            final(self).agrees_beside_frames(old(self)),
            final(self).video_frames@ == old(self).video_frames@,
            final(self).audio_frames@ == drop_stale(
                old(self).audio_frames@,
                old(self).max_duration.ns as int,
            ),
    {
        let audios: usize = self.audio_frames.len();
        if audios > 0 {
            let newest: ClockTime = self.audio_frames[audios - 1].pts;
            while self.audio_frames.len() > 1 && newest.saturating_sub(self.audio_frames[0].pts).ns
                >= self.max_duration.ns
                invariant
                    self.agrees_beside_frames(old(self)),
                    self.video_frames@ == old(self).video_frames@,
                    self.audio_frames@.len() > 0,
                    self.audio_frames@.last().pts == newest,
                    drop_stale(old(self).audio_frames@, self.max_duration.ns as int) == drop_stale(
                        self.audio_frames@,
                        self.max_duration.ns as int,
                    ),
                decreases self.audio_frames@.len(),
            {
                let _ = self.audio_frames.pop_front();
            }
        }
    }

    /// Lets go of the frames that are too old, or that a step of the stream clock
    /// made useless.
    pub fn evict_old_frames(&mut self) -> (r: Result<(), WayclipError>)
        ensures
            r is Ok,
            final(self).agrees_beside_frames(old(self)),
            ({
                let kept = old(self).would_retain(
                    old(self).video_frames@,
                    old(self).audio_frames@,
                );
                final(self).video_frames@ == kept.video && final(self).audio_frames@ == kept.audio
            }),
    {
        let ghost v = self.video_frames@;
        let ghost a = self.audio_frames@;
        let ghost first = self.video_first_pts;
        let ghost max = self.max_duration.ns as int;
        let ghost mut j: int = 0;
        let mut settled: bool = false;
        assert(v.subrange(0, v.len() as int) =~= v);
        while !settled && self.video_frames.len() > 1
            invariant
                self.agrees_beside_frames(old(self)),
                v == old(self).video_frames@,
                a == old(self).audio_frames@,
                first == self.video_first_pts,
                max == self.max_duration.ns,
                0 <= j,
                j < v.len() || j == 0,
                self.video_frames@ == v.subrange(j, v.len() as int),
                kept_from(v, first, max, 0) == kept_from(v, first, max, j),
                settled ==> stays(v, first, max, j),
                self.audio_frames@ == (match self.audio_first_pts {
                    Some(f) => drop_before(a, f, audio_floor(v, first, j)),
                    None => a,
                }),
            decreases (if settled { 0int } else { 1int }), self.video_frames@.len(),
        {
            let videos: usize = self.video_frames.len();
            let front: ClockTime = relative_time(self.video_frames[0].pts, self.video_first_pts);
            let back: ClockTime = relative_time(
                self.video_frames[videos - 1].pts,
                self.video_first_pts,
            );
            assert(self.video_frames@[0] == v[j]);
            assert(self.video_frames@[videos - 1] == v.last());
            if back.ns >= front.ns && back.ns - front.ns >= self.max_duration.ns {
                let _ = self.video_frames.pop_front();
                assert(self.video_frames@ =~= v.subrange(j + 1, v.len() as int));
                assert(self.video_frames@[0] == v[j + 1]);
                let oldest: ClockTime = relative_time(
                    self.video_frames[0].pts,
                    self.video_first_pts,
                );
                let floor: ClockTime = oldest.saturating_sub(ClockTime { ns: AUDIO_SLACK_NS });
                match self.audio_first_pts {
                    Some(f) => {
                        self.drop_audio_before(f, floor);
                        proof {
                            lemma_drop_before_twice(
                                a,
                                f,
                                audio_floor(v, first, j),
                                floor.ns as int,
                            );
                        }
                    },
                    None => {},
                }
                proof {
                    j = j + 1;
                }
            } else {
                settled = true;
            }
        }
        proof {
            lemma_kept_from_range(v, first, max, 0);
        }
        let videos: usize = self.video_frames.len();
        if videos > 1 {
            let front: ClockTime = relative_time(self.video_frames[0].pts, self.video_first_pts);
            let back: ClockTime = relative_time(
                self.video_frames[videos - 1].pts,
                self.video_first_pts,
            );
            assert(self.video_frames@[0] == v[j]);
            assert(self.video_frames@[videos - 1] == v.last());
            if front.ns > back.ns {
                let latest: EncodedFrame = self.video_frames[videos - 1];
                if front.ns - back.ns > BACKWARDS_THRESHOLD_NS {
                    self.video_frames.clear();
                    self.video_frames.push_back(latest);
                    self.audio_frames.clear();
                    assert(self.video_frames@ =~= seq![v.last()]);
                    return Ok(());
                }
                let _ = self.video_frames.pop_back();
                assert(self.video_frames@ =~= v.subrange(j, v.len() - 1));
            }
        }
        self.drop_stale_audio();
        Ok(())
    }

    /// Everything that a clip of this moment consists of. The buffer stays as it is.
    pub fn get_snapshot(&self) -> (r: Result<SaveData, WayclipError>)
        ensures
            match r {
                Ok(data) => {
                    &&& self.video_caps == Some(data.video_caps)
                    &&& self.video_frames@.len() > 0
                    &&& data.video_frames@ == clip_video(self.video_frames@)
                    &&& data.audio_frames@ == self.clip_audio()
                    &&& data.audio_caps == self.audio_caps
                    &&& data.sync_offset_ms == sync_offset(
                        self.video_start_instant,
                        self.audio_start_instant,
                    )
                    &&& data.duration.ns == self.clip_end() - self.clip_start()
                },
                Err(e) => {
                    &&& self.video_caps is None ==> (e matches WayclipError::Ring(m) && m@
                        == "No video caps — pipeline may not have started yet"@)
                    &&& self.video_caps is Some ==> (e matches WayclipError::Ring(m) && m@
                        == "Ring buffer is empty — nothing to save"@)
                },
            },
            r is Ok <==> self.video_caps is Some && self.video_frames@.len() > 0,
    {
        let video_caps: Caps = match &self.video_caps {
            Some(caps) => caps.copy(),
            None => {
                return Err(
                    WayclipError::Ring(
                        "No video caps — pipeline may not have started yet".to_owned(),
                    ),
                );
            },
        };
        let videos: usize = self.video_frames.len();
        if videos == 0 {
            return Err(WayclipError::Ring("Ring buffer is empty — nothing to save".to_owned()));
        }
        let from: usize = self.first_keyframe_pos();
        let mut video_frames: Vec<EncodedFrame> = Vec::new();
        let mut first: ClockTime = self.video_frames[from].pts;
        let mut last: ClockTime = self.video_frames[from].pts;
        let mut i: usize = from;
        let ghost clip = clip_video(self.video_frames@);
        while i < videos
            invariant
                from < videos == self.video_frames@.len(),
                from <= i <= videos,
                clip == self.video_frames@.subrange(from as int, videos as int),
                video_frames@ == clip.take(i - from),
                i == from ==> first == clip[0].pts && last == clip[0].pts,
                i > from ==> first == earliest(clip.take(i - from)),
                i > from ==> last == latest(clip.take(i - from)),
            decreases videos - i,
        {
            let frame: EncodedFrame = self.video_frames[i];
            proof {
                let k = i - from;
                assert(clip.take(k + 1).drop_last() =~= clip.take(k));
                assert(clip.take(k + 1).last() == clip[k]);
                assert(clip[k] == frame);
            }
            if frame.pts.ns < first.ns {
                first = frame.pts;
            }
            if frame.pts.ns > last.ns {
                last = frame.pts;
            }
            video_frames.push(frame);
            i = i + 1;
        }
        assert(clip.take(i - from) =~= clip);
        proof {
            lemma_earliest_before_latest(clip);
        }
        let start: ClockTime = relative_time(first, self.video_first_pts);
        let end: ClockTime = relative_time(last, self.video_first_pts);
        let lowest: ClockTime = start.saturating_sub(ClockTime { ns: AUDIO_SLACK_NS });
        let highest: ClockTime = end.saturating_add(ClockTime { ns: AUDIO_SLACK_NS });
        let audio_frames: Vec<EncodedFrame> = self.audio_between(lowest, highest);
        assert(self.clip_audio() == self.audio_frames@.filter(
            |f: EncodedFrame| in_window(f, self.audio_first_pts, lowest.ns as int, highest.ns as int),
        ));
        let sync_offset_ms: i64 = match (self.video_start_instant, self.audio_start_instant) {
            (Some(v), Some(a)) => if a.ns >= v.ns {
                (a.duration_since(v) / 1_000_000) as i64
            } else {
                -((v.duration_since(a) / 1_000_000) as i64)
            },
            _ => 0,
        };
        let audio_caps: Option<Caps> = match &self.audio_caps {
            Some(caps) => Some(caps.copy()),
            None => None,
        };
        Ok(
            SaveData {
                video_frames,
                audio_frames,
                video_caps,
                audio_caps,
                sync_offset_ms,
                duration: end.saturating_sub(start),
            },
        )
    }

    /// The position of the first frame that can be decoded on its own, or zero.
    fn first_keyframe_pos(&self) -> (r: usize)
        requires
            self.video_frames@.len() > 0,
        ensures
            r < self.video_frames@.len(),
            r == clip_from(self.video_frames@),
    {
        let mut i: usize = 0;
        while i < self.video_frames.len()
            invariant
                i <= self.video_frames@.len(),
                keyframe_position(self.video_frames@, 0) == keyframe_position(
                    self.video_frames@,
                    i as int,
                ),
            decreases self.video_frames@.len() - i,
        {
            if self.video_frames[i].is_keyframe {
                return i;
            }
            i = i + 1;
        }
        0
    }

    /// The audio frames whose time, counted from the first one, lies between the two.
    fn audio_between(&self, lowest: ClockTime, highest: ClockTime) -> (r: Vec<EncodedFrame>)
        ensures
            r@ == self.audio_frames@.filter(
                |f: EncodedFrame|
                    in_window(f, self.audio_first_pts, lowest.ns as int, highest.ns as int),
            ),
    {
        let mut kept: Vec<EncodedFrame> = Vec::new();
        let audios: usize = self.audio_frames.len();
        let mut i: usize = 0;
        let ghost a = self.audio_frames@;
        let ghost test = |f: EncodedFrame|
            in_window(f, self.audio_first_pts, lowest.ns as int, highest.ns as int);
        assert(a.take(0).filter(test) =~= Seq::<EncodedFrame>::empty()) by {
            reveal(Seq::filter);
        }
        while i < audios
            invariant
                i <= audios == a.len(),
                a == self.audio_frames@,
                test == (|f: EncodedFrame|
                    in_window(f, self.audio_first_pts, lowest.ns as int, highest.ns as int)),
                kept@ == a.take(i as int).filter(test),
            decreases audios - i,
        {
            let frame: EncodedFrame = self.audio_frames[i];
            proof {
                reveal(Seq::filter);
                assert(a.take(i + 1).drop_last() =~= a.take(i as int));
                assert(a.take(i + 1).last() == frame);
            }
            let pts: ClockTime = relative_time(frame.pts, self.audio_first_pts);
            if lowest.ns <= pts.ns && pts.ns <= highest.ns {
                kept.push(frame);
            }
            i = i + 1;
        }
        assert(a.take(i as int) =~= a);
        kept
    }

    /// The start of a clip of this moment, counted from the first video frame ever seen.
    pub open spec fn clip_start(&self) -> int {
        relative(earliest(clip_video(self.video_frames@)), self.video_first_pts)
    }

    /// The end of a clip of this moment, counted from the first video frame ever seen.
    pub open spec fn clip_end(&self) -> int {
        relative(latest(clip_video(self.video_frames@)), self.video_first_pts)
    }

    /// The audio of a clip of this moment: what lies within the slack around its video.
    pub open spec fn clip_audio(&self) -> Seq<EncodedFrame> {
        self.audio_frames@.filter(
            |f: EncodedFrame|
                in_window(
                    f,
                    self.audio_first_pts,
                    minus_floor(self.clip_start(), AUDIO_SLACK_NS as int),
                    smaller(self.clip_end() + AUDIO_SLACK_NS, MAX_TIME_NS as int),
                ),
        )
    }
}

/// The position of the first keyframe at or after `i`.
pub open spec fn keyframe_position(v: Seq<EncodedFrame>, i: int) -> Option<int>
    decreases v.len() - i,
{
    if i >= v.len() {
        None
    } else if v[i].is_keyframe {
        Some(i)
    } else {
        keyframe_position(v, i + 1)
    }
}

/// Where a clip starts: at the first keyframe, or at the oldest frame if there is none.
pub open spec fn clip_from(v: Seq<EncodedFrame>) -> int {
    match keyframe_position(v, 0) {
        Some(i) => i,
        None => 0,
    }
}

/// The video of a clip.
pub open spec fn clip_video(v: Seq<EncodedFrame>) -> Seq<EncodedFrame> {
    v.subrange(clip_from(v), v.len() as int)
}

/// The smallest time of some frames, of which there is at least one.
pub open spec fn earliest(v: Seq<EncodedFrame>) -> ClockTime
    decreases v.len(),
{
    if v.len() <= 1 {
        v[0].pts
    } else if v.last().pts.ns < earliest(v.drop_last()).ns {
        v.last().pts
    } else {
        earliest(v.drop_last())
    }
}

/// The largest time of some frames, of which there is at least one.
pub open spec fn latest(v: Seq<EncodedFrame>) -> ClockTime
    decreases v.len(),
{
    if v.len() <= 1 {
        v[0].pts
    } else if v.last().pts.ns > latest(v.drop_last()).ns {
        v.last().pts
    } else {
        latest(v.drop_last())
    }
}

/// Whether a frame's time, counted from the first one of its stream, lies between the two.
pub open spec fn in_window(
    f: EncodedFrame,
    first: Option<ClockTime>,
    lowest: int,
    highest: int,
) -> bool {
    lowest <= relative(f.pts, first) <= highest
}

/// The full milliseconds from the start of the video to the start of the audio,
/// negative where the audio came first, and zero where one of them never came.
pub open spec fn sync_offset(video: Option<Moment>, audio: Option<Moment>) -> int {
    match (video, audio) {
        (Some(v), Some(a)) => if a.ns >= v.ns {
            (a.ns - v.ns) / 1_000_000
        } else {
            -((v.ns - a.ns) / 1_000_000)
        },
        _ => 0,
    }
}

proof fn lemma_earliest_before_latest(v: Seq<EncodedFrame>)
    requires
        v.len() > 0,
    ensures
        earliest(v).ns <= latest(v).ns,
    decreases v.len(),
{
    if v.len() > 1 {
        lemma_earliest_before_latest(v.drop_last());
    }
}

proof fn lemma_drop_before_suffix(a: Seq<EncodedFrame>, first: ClockTime, floor: int) -> (i: int)
    ensures
        0 <= i <= a.len(),
        drop_before(a, first, floor) == a.subrange(i, a.len() as int),
        i < a.len() ==> relative(a[i].pts, Some(first)) >= floor,
    decreases a.len(),
{
    if a.len() > 0 && relative(a[0].pts, Some(first)) < floor {
        let rest = a.subrange(1, a.len() as int);
        let i = lemma_drop_before_suffix(rest, first, floor);
        assert(rest.subrange(i, rest.len() as int) =~= a.subrange(i + 1, a.len() as int));
        i + 1
    } else {
        assert(a.subrange(0, a.len() as int) =~= a);
        0
    }
}

proof fn lemma_drop_stale_suffix(a: Seq<EncodedFrame>, max: int) -> (i: int)
    ensures
        0 <= i <= a.len(),
        drop_stale(a, max) == a.subrange(i, a.len() as int),
        a.len() > 0 ==> i < a.len(),
        a.len() > 0 && i < a.len() - 1 ==> minus_floor(
            a.last().pts.ns as int,
            a[i].pts.ns as int,
        ) < max,
    decreases a.len(),
{
    if a.len() > 1 && minus_floor(a.last().pts.ns as int, a[0].pts.ns as int) >= max {
        let rest = a.subrange(1, a.len() as int);
        let i = lemma_drop_stale_suffix(rest, max);
        assert(rest.subrange(i, rest.len() as int) =~= a.subrange(i + 1, a.len() as int));
        i + 1
    } else {
        assert(a.subrange(0, a.len() as int) =~= a);
        0
    }
}

/// An eviction never reorders or invents frames: the video that stays is a run of the
/// video that was there, and the audio that stays is its end.
pub proof fn law_eviction_keeps_order(
    v: Seq<EncodedFrame>,
    a: Seq<EncodedFrame>,
    video_first: Option<ClockTime>,
    audio_first: Option<ClockTime>,
    max: int,
)
    ensures
        exists|i: int, j: int|
            0 <= i <= j <= v.len() && #[trigger] v.subrange(i, j) == retained(
                v,
                a,
                video_first,
                audio_first,
                max,
            ).video,
        exists|i: int|
            0 <= i <= a.len() && #[trigger] a.subrange(i, a.len() as int) == retained(
                v,
                a,
                video_first,
                audio_first,
                max,
            ).audio,
{
    lemma_kept_from_range(v, video_first, max, 0);
    let k = kept_from(v, video_first, max, 0);
    let kept = retained(v, a, video_first, audio_first, max);
    if clock_reset(v, video_first, max) {
        assert(v.subrange(v.len() - 1, v.len() as int) =~= kept.video);
        assert(a.subrange(a.len() as int, a.len() as int) =~= kept.audio);
    } else {
        if steps_back(v, video_first, max) {
            assert(v.subrange(k, v.len() - 1) == kept.video);
        } else {
            assert(v.subrange(k, v.len() as int) == kept.video);
        }
        let i = match audio_first {
            Some(f) => lemma_drop_before_suffix(a, f, audio_floor(v, video_first, k)),
            None => {
                assert(a.subrange(0, a.len() as int) =~= a);
                0
            },
        };
        let wanted = a.subrange(i, a.len() as int);
        let n = lemma_drop_stale_suffix(wanted, max);
        assert(wanted.subrange(n, wanted.len() as int) =~= a.subrange(i + n, a.len() as int));
        assert(a.subrange(i + n, a.len() as int) == kept.audio);
    }
}

/// After an eviction the video spans less than the kept duration, or is a single
/// frame, unless the newest frame was dropped because it lay behind the oldest.
pub proof fn law_eviction_bounds_video(
    v: Seq<EncodedFrame>,
    a: Seq<EncodedFrame>,
    video_first: Option<ClockTime>,
    audio_first: Option<ClockTime>,
    max: int,
)
    requires
        !steps_back(v, video_first, max) || clock_reset(v, video_first, max),
    ensures
        ({
            let video = retained(v, a, video_first, audio_first, max).video;
            ||| video.len() <= 1
            ||| 0 <= relative(video.last().pts, video_first) - relative(
                video[0].pts,
                video_first,
            ) < max
        }),
{
    lemma_kept_from_range(v, video_first, max, 0);
}

/// After an eviction the audio spans less than the kept duration, or is at most a single frame.
pub proof fn law_eviction_bounds_audio(
    v: Seq<EncodedFrame>,
    a: Seq<EncodedFrame>,
    video_first: Option<ClockTime>,
    audio_first: Option<ClockTime>,
    max: int,
)
    ensures
        ({
            let audio = retained(v, a, video_first, audio_first, max).audio;
            ||| audio.len() <= 1
            ||| minus_floor(audio.last().pts.ns as int, audio[0].pts.ns as int) < max
        }),
{
    if !clock_reset(v, video_first, max) {
        let k = kept_from(v, video_first, max, 0);
        let wanted = match audio_first {
            Some(f) => drop_before(a, f, audio_floor(v, video_first, k)),
            None => a,
        };
        let _ = lemma_drop_stale_suffix(wanted, max);
    }
}

/// Whether no video frame lies the kept duration or more ahead of the oldest one, and the
/// newest one not behind it.
pub open spec fn in_bounds(v: Seq<EncodedFrame>, first: Option<ClockTime>, max: int) -> bool {
    v.len() <= 1 || {
        &&& relative(v[0].pts, first) <= relative(v.last().pts, first)
        &&& forall|i: int|
            0 <= i < v.len() ==> relative((#[trigger] v[i]).pts, first) - relative(
                v[0].pts,
                first,
            ) < max
    }
}

/// Every arriving video frame leaves the video in bounds, whatever its time is: an empty
/// buffer is, so the video never gets out of bounds.
pub proof fn law_video_stays_in_bounds(
    v: Seq<EncodedFrame>,
    a: Seq<EncodedFrame>,
    frame: EncodedFrame,
    video_first: Option<ClockTime>,
    audio_first: Option<ClockTime>,
    max: int,
)
    requires
        in_bounds(v, video_first, max),
    ensures
        in_bounds(
            retained(v.push(frame), a, video_first, audio_first, max).video,
            video_first,
            max,
        ),
{
    let pushed = v.push(frame);
    let k = kept_from(pushed, video_first, max, 0);
    let video = retained(pushed, a, video_first, audio_first, max).video;
    lemma_kept_from_range(pushed, video_first, max, 0);
    if v.len() > 0 && !clock_reset(pushed, video_first, max) {
        if k > 0 {
            lemma_leaves_before_kept(pushed, video_first, max, 0, 0);
        }
        if steps_back(pushed, video_first, max) {
            assert(k == 0) by {
                if k > 0 {
                    assert(v.len() > 1);
                    assert(relative(v[k].pts, video_first) - relative(v[0].pts, video_first) < max);
                }
            }
            assert(video =~= v);
        } else {
            assert forall|i: int| 0 <= i < video.len() && video.len() > 1 implies relative(
                (#[trigger] video[i]).pts,
                video_first,
            ) - relative(video[0].pts, video_first) < max by {
                assert(video[i] == pushed[k + i]);
                assert(video[0] == pushed[k]);
                if k + i < v.len() {
                    assert(v[k + i] == pushed[k + i]);
                    assert(v[k] == pushed[k]);
                }
            }
        }
    }
}

/// An arriving audio frame leaves the video as it is.
pub proof fn law_audio_leaves_video_alone(
    v: Seq<EncodedFrame>,
    a: Seq<EncodedFrame>,
    video_first: Option<ClockTime>,
    audio_first: Option<ClockTime>,
    max: int,
)
    requires
        in_bounds(v, video_first, max),
    ensures
        retained(v, a, video_first, audio_first, max).video == v,
{
    assert(v.len() > 1 ==> stays(v, video_first, max, 0)) by {
        if v.len() > 1 {
            assert(relative(v[v.len() - 1].pts, video_first) - relative(v[0].pts, video_first)
                < max);
        }
    }
    assert(retained(v, a, video_first, audio_first, max).video =~= v);
}

/// A video frame is let go for its age only when it lies the kept duration or more
/// behind the newest one.
pub proof fn law_only_old_video_leaves(
    v: Seq<EncodedFrame>,
    first: Option<ClockTime>,
    max: int,
    i: int,
)
    requires
        0 <= i < kept_from(v, first, max, 0),
    ensures
        relative(v.last().pts, first) - relative(v[i].pts, first) >= max,
{
    lemma_leaves_before_kept(v, first, max, 0, i);
}

proof fn lemma_leaves_before_kept(
    v: Seq<EncodedFrame>,
    first: Option<ClockTime>,
    max: int,
    from: int,
    i: int,
)
    requires
        0 <= from <= i < kept_from(v, first, max, from),
    ensures
        !stays(v, first, max, i),
    decreases i - from,
{
    if from < i {
        lemma_leaves_before_kept(v, first, max, from + 1, i);
    }
}

/// The newest video frame stays, unless it lies a little behind the oldest one that
/// could stay.
pub proof fn law_newest_video_stays(
    v: Seq<EncodedFrame>,
    a: Seq<EncodedFrame>,
    video_first: Option<ClockTime>,
    audio_first: Option<ClockTime>,
    max: int,
)
    requires
        v.len() > 0,
        !steps_back(v, video_first, max) || clock_reset(v, video_first, max),
    ensures
        ({
            let video = retained(v, a, video_first, audio_first, max).video;
            video.len() > 0 && video.last() == v.last()
        }),
{
    lemma_kept_from_range(v, video_first, max, 0);
}

/// A video frame that arrives up to a second behind the oldest one is dropped and
/// changes nothing of the video, whatever else is there.
pub proof fn law_late_video_frame_is_dropped(
    v: Seq<EncodedFrame>,
    a: Seq<EncodedFrame>,
    frame: EncodedFrame,
    video_first: Option<ClockTime>,
    audio_first: Option<ClockTime>,
    max: int,
)
    requires
        v.len() > 0,
        0 < relative(v[0].pts, video_first) - relative(frame.pts, video_first)
            <= BACKWARDS_THRESHOLD_NS,
    ensures
        retained(v.push(frame), a, video_first, audio_first, max).video == v,
{
    let pushed = v.push(frame);
    assert(pushed.last() == frame);
    assert(pushed[0] == v[0]);
    assert(pushed.subrange(0, pushed.len() - 1) =~= v);
}

/// A video frame that arrives more than a second behind the oldest one clears the
/// buffer of everything else.
pub proof fn law_clock_reset_starts_over(
    v: Seq<EncodedFrame>,
    a: Seq<EncodedFrame>,
    frame: EncodedFrame,
    video_first: Option<ClockTime>,
    audio_first: Option<ClockTime>,
    max: int,
)
    requires
        v.len() > 0,
        relative(v[0].pts, video_first) - relative(frame.pts, video_first)
            > BACKWARDS_THRESHOLD_NS,
    ensures
        ({
            let kept = retained(v.push(frame), a, video_first, audio_first, max);
            kept.video == seq![frame] && kept.audio == Seq::<EncodedFrame>::empty()
        }),
{
    let pushed = v.push(frame);
    assert(pushed.last() == frame);
    assert(pushed[0] == v[0]);
}

/// What one eviction leaves, another one leaves as it is, unless the first dropped
/// the newest frame for lying behind the oldest.
pub proof fn law_eviction_settles(
    v: Seq<EncodedFrame>,
    a: Seq<EncodedFrame>,
    video_first: Option<ClockTime>,
    audio_first: Option<ClockTime>,
    max: int,
)
    requires
        !steps_back(v, video_first, max) || clock_reset(v, video_first, max),
    ensures
        ({
            let kept = retained(v, a, video_first, audio_first, max);
            retained(kept.video, kept.audio, video_first, audio_first, max) == kept
        }),
{
    lemma_kept_from_range(v, video_first, max, 0);
    let kept = retained(v, a, video_first, audio_first, max);
    let again = retained(kept.video, kept.audio, video_first, audio_first, max);
    law_eviction_bounds_video(v, a, video_first, audio_first, max);
    law_eviction_bounds_audio(v, a, video_first, audio_first, max);
    assert(kept_from(kept.video, video_first, max, 0) == 0);
    assert(audio_floor(kept.video, video_first, 0) == 0);
    if let Some(f) = audio_first {
        assert(drop_before(kept.audio, f, 0) == kept.audio);
    }
    assert(drop_stale(kept.audio, max) == kept.audio);
    assert(again.video =~= kept.video);
    assert(again.audio =~= kept.audio);
}

/// A clip starts with a frame that can be decoded on its own, if the buffer holds one,
/// and no such frame of the buffer is left out.
pub proof fn law_clip_starts_at_keyframe(v: Seq<EncodedFrame>, i: int)
    requires
        0 <= i < v.len(),
        v[i].is_keyframe,
    ensures
        clip_video(v).len() > 0,
        clip_video(v)[0].is_keyframe,
        clip_from(v) <= i,
{
    lemma_keyframe_found(v, 0, i);
}

proof fn lemma_keyframe_found(v: Seq<EncodedFrame>, from: int, i: int)
    requires
        0 <= from <= i < v.len(),
        v[i].is_keyframe,
    ensures
        keyframe_position(v, from) matches Some(k) && from <= k <= i && v[k].is_keyframe,
    decreases i - from,
{
    if !v[from].is_keyframe {
        lemma_keyframe_found(v, from + 1, i);
    }
}

/// A clip of a buffer with video holds video, up to the newest frame.
pub proof fn law_clip_is_not_empty(v: Seq<EncodedFrame>)
    requires
        v.len() > 0,
    ensures
        clip_video(v).len() > 0,
        clip_video(v).last() == v.last(),
{
    lemma_keyframe_in_range(v, 0);
}

proof fn lemma_keyframe_in_range(v: Seq<EncodedFrame>, from: int)
    requires
        0 <= from,
    ensures
        keyframe_position(v, from) matches Some(k) ==> from <= k < v.len(),
    decreases v.len() - from,
{
    if from < v.len() && !v[from].is_keyframe {
        lemma_keyframe_in_range(v, from + 1);
    }
}

/// Every audio frame of a clip was in the buffer and lies within the slack around the
/// clip's video.
pub proof fn law_clip_audio_within_slack(ring: RingBuffer, f: EncodedFrame)
    requires
        ring.clip_audio().contains(f),
    ensures
        ring.audio_frames@.contains(f),
        minus_floor(ring.clip_start(), AUDIO_SLACK_NS as int) <= relative(
            f.pts,
            ring.audio_first_pts,
        ) <= ring.clip_end() + AUDIO_SLACK_NS,
{
    let test = |f: EncodedFrame|
        in_window(
            f,
            ring.audio_first_pts,
            minus_floor(ring.clip_start(), AUDIO_SLACK_NS as int),
            smaller(ring.clip_end() + AUDIO_SLACK_NS, MAX_TIME_NS as int),
        );
    broadcast use vstd::seq_lib::group_filter_ensures;
    let i = choose|i: int| 0 <= i < ring.clip_audio().len() && ring.clip_audio()[i] == f;
    assert(test(ring.audio_frames@.filter(test)[i]));
    lemma_filter_from(ring.audio_frames@, test, i);
}

proof fn lemma_filter_from(a: Seq<EncodedFrame>, test: spec_fn(EncodedFrame) -> bool, i: int)
    requires
        0 <= i < a.filter(test).len(),
    ensures
        a.contains(a.filter(test)[i]),
    decreases a.len(),
{
    reveal(Seq::filter);
    if a.len() > 0 {
        let rest = a.drop_last();
        if i < rest.filter(test).len() {
            lemma_filter_from(rest, test, i);
            let k = choose|k: int| 0 <= k < rest.len() && rest[k] == rest.filter(test)[i];
            assert(a[k] == a.filter(test)[i]);
        } else {
            assert(a[a.len() - 1] == a.filter(test)[i]);
        }
    }
}

/// Every video frame of a clip lies between the clip's start and its end.
pub proof fn law_clip_video_within_bounds(ring: RingBuffer, i: int)
    requires
        0 <= i < clip_video(ring.video_frames@).len(),
    ensures
        ring.clip_start() <= relative(
            clip_video(ring.video_frames@)[i].pts,
            ring.video_first_pts,
        ) <= ring.clip_end(),
{
    lemma_between_extremes(clip_video(ring.video_frames@), i);
}

proof fn lemma_between_extremes(v: Seq<EncodedFrame>, i: int)
    requires
        0 <= i < v.len(),
    ensures
        earliest(v).ns <= v[i].pts.ns <= latest(v).ns,
    decreases v.len(),
{
    if v.len() > 1 {
        if i < v.len() - 1 {
            lemma_between_extremes(v.drop_last(), i);
        } else {
            lemma_earliest_before_latest(v.drop_last());
        }
    }
}

/// Whether the times of some frames never fall.
pub open spec fn rising(frames: Seq<EncodedFrame>) -> bool {
    forall|i: int, j: int|
        0 <= i <= j < frames.len() ==> (#[trigger] frames[i]).pts.ns <= (
        #[trigger] frames[j]).pts.ns
}

/// The nanoseconds of the first time of a stream, or zero where it has none yet.
pub open spec fn first_ns(first: Option<ClockTime>) -> int {
    match first {
        Some(f) => f.ns as int,
        None => 0,
    }
}

/// Of video whose times rise exactly the frames leave that lie the kept duration or more
/// behind the newest one, which itself stays.
pub proof fn law_rising_video_leaves_by_age(
    ring: RingBuffer,
    v: Seq<EncodedFrame>,
    a: Seq<EncodedFrame>,
)
    requires
        v.len() > 0,
        rising(v),
        first_ns(ring.video_first_pts) <= v[0].pts.ns,
    ensures
        ({
            let kept = ring.would_retain(v, a).video;
            let gone = v.len() - kept.len();
            &&& 0 <= gone < v.len()
            &&& kept == v.subrange(gone, v.len() as int)
            &&& forall|i: int|
                0 <= i < v.len() - 1 ==> (i < gone <==> v.last().pts.ns - (
                #[trigger] v[i]).pts.ns >= ring.max_duration.ns)
        }),
{
    let max = ring.max_duration.ns as int;
    let first = ring.video_first_pts;
    let k = kept_from(v, first, max, 0);
    lemma_kept_from_range(v, first, max, 0);
    assert(v[k].pts.ns <= v[v.len() - 1].pts.ns);
    assert(ring.would_retain(v, a).video == v.subrange(k, v.len() as int));
    assert forall|i: int| 0 <= i < v.len() - 1 implies (i < k <==> v.last().pts.ns - (
    #[trigger] v[i]).pts.ns >= max) by {
        assert(v[0].pts.ns <= v[i].pts.ns);
        assert(v[i].pts.ns <= v[v.len() - 1].pts.ns);
        if i < k {
            lemma_leaves_before_kept(v, first, max, 0, i);
        } else {
            assert(v[k].pts.ns <= v[i].pts.ns);
            assert(v[0].pts.ns <= v[k].pts.ns);
        }
    }
}

proof fn lemma_rising_floor(v: Seq<EncodedFrame>, first: Option<ClockTime>, k: int)
    requires
        rising(v),
        0 < k < v.len(),
    ensures
        audio_floor(v, first, k) == minus_floor(relative(v[k].pts, first), AUDIO_SLACK_NS as int),
    decreases k,
{
    if k > 1 {
        lemma_rising_floor(v, first, k - 1);
        assert(v[k - 1].pts.ns <= v[k].pts.ns);
    } else {
        assert(audio_floor(v, first, 0) == 0);
    }
}

proof fn lemma_before_floor(a: Seq<EncodedFrame>, first: ClockTime, floor: int, i: int)
    requires
        0 <= i < a.len() - drop_before(a, first, floor).len(),
    ensures
        relative(a[i].pts, Some(first)) < floor,
    decreases a.len(),
{
    if a.len() > 0 && relative(a[0].pts, Some(first)) < floor && i > 0 {
        let rest = a.subrange(1, a.len() as int);
        assert(rest[i - 1] == a[i]);
        lemma_before_floor(rest, first, floor, i - 1);
    }
}

proof fn lemma_stale_before(a: Seq<EncodedFrame>, max: int, i: int)
    requires
        0 <= i < a.len() - drop_stale(a, max).len(),
    ensures
        minus_floor(a.last().pts.ns as int, a[i].pts.ns as int) >= max,
    decreases a.len(),
{
    if a.len() > 1 && minus_floor(a.last().pts.ns as int, a[0].pts.ns as int) >= max && i > 0 {
        let rest = a.subrange(1, a.len() as int);
        assert(rest[i - 1] == a[i]);
        assert(rest.last() == a.last());
        lemma_stale_before(rest, max, i - 1);
    }
}

/// On streams whose times rise, the audio that leaves is the oldest, and a frame leaves for
/// one of two reasons: it lies the kept duration or more behind the newest audio, or video
/// left and the frame, counted from the first audio, lies more than a tenth of a second
/// before the oldest video that stays, counted from the first video. So audio that belongs
/// to kept video stays, and audio of video that left does not. While no video leaves, the newest
/// audio stays.
pub proof fn law_audio_goes_with_its_video(
    ring: RingBuffer,
    v: Seq<EncodedFrame>,
    a: Seq<EncodedFrame>,
)
    requires
        rising(v),
        rising(a),
    ensures
        ({
            let kept = ring.would_retain(v, a);
            let gone = a.len() - kept.audio.len();
            let video_gone = v.len() - kept.video.len();
            &&& 0 <= gone <= a.len()
            &&& a.len() > 0 && video_gone == 0 ==> gone < a.len()
            &&& kept.audio == a.subrange(gone, a.len() as int)
            &&& forall|i: int|
                0 <= i < gone ==> {
                    ||| a.last().pts.ns - (#[trigger] a[i]).pts.ns >= ring.max_duration.ns
                    ||| video_gone > 0 && ring.audio_first_pts is Some && a[i].pts.ns - first_ns(
                        ring.audio_first_pts,
                    ) < kept.video[0].pts.ns - first_ns(ring.video_first_pts) - 100_000_000
                }
            &&& forall|i: int|
                gone <= i < a.len() - 1 ==> a.last().pts.ns - (#[trigger] a[i]).pts.ns
                    < ring.max_duration.ns
            &&& forall|i: int|
                gone <= i < a.len() && video_gone > 0 && ring.audio_first_pts is Some && first_ns(
                    ring.audio_first_pts,
                ) <= (#[trigger] a[i]).pts.ns ==> a[i].pts.ns - first_ns(ring.audio_first_pts)
                    >= kept.video[0].pts.ns - first_ns(ring.video_first_pts) - 100_000_000
        }),
{
    let max = ring.max_duration.ns as int;
    let vf = ring.video_first_pts;
    let k = kept_from(v, vf, max, 0);
    let kept = ring.would_retain(v, a);
    lemma_kept_from_range(v, vf, max, 0);
    if v.len() > 0 {
        assert(v[k].pts.ns <= v[v.len() - 1].pts.ns);
    }
    assert(!steps_back(v, vf, max));
    assert(kept.video == v.subrange(k, v.len() as int));
    let floor = audio_floor(v, vf, k);
    if k > 0 {
        lemma_rising_floor(v, vf, k);
        assert(kept.video[0] == v[k]);
    }
    let wanted = match ring.audio_first_pts {
        Some(f) => drop_before(a, f, floor),
        None => a,
    };
    let n = match ring.audio_first_pts {
        Some(f) => lemma_drop_before_suffix(a, f, floor),
        None => {
            assert(a.subrange(0, a.len() as int) =~= a);
            0
        },
    };
    assert(wanted == a.subrange(n, a.len() as int));
    let m = lemma_drop_stale_suffix(wanted, max);
    assert(wanted.subrange(m, wanted.len() as int) =~= a.subrange(n + m, a.len() as int));
    let gone = a.len() - kept.audio.len();
    assert(gone == n + m);
    if k == 0 && n > 0 {
        lemma_before_floor(a, ring.audio_first_pts.unwrap(), floor, 0);
    }
    assert forall|i: int| 0 <= i < gone implies {
        ||| a.last().pts.ns - (#[trigger] a[i]).pts.ns >= ring.max_duration.ns
        ||| v.len() - kept.video.len() > 0 && ring.audio_first_pts is Some && a[i].pts.ns
            - first_ns(ring.audio_first_pts) < kept.video[0].pts.ns - first_ns(
            ring.video_first_pts,
        ) - 100_000_000
    } by {
        if i < n {
            lemma_before_floor(a, ring.audio_first_pts.unwrap(), floor, i);
        } else {
            lemma_stale_before(wanted, max, i - n);
            assert(wanted[i - n] == a[i]);
            assert(a[i].pts.ns <= a[a.len() - 1].pts.ns);
        }
    }
    assert forall|i: int| gone <= i < a.len() - 1 implies a.last().pts.ns - (
    #[trigger] a[i]).pts.ns < ring.max_duration.ns by {
        assert(wanted[m] == a[gone]);
        assert(a[gone].pts.ns <= a[i].pts.ns);
    }
    assert forall|i: int|
        gone <= i < a.len() && v.len() - kept.video.len() > 0 && ring.audio_first_pts is Some
            && first_ns(ring.audio_first_pts) <= (
        #[trigger] a[i]).pts.ns implies a[i].pts.ns - first_ns(ring.audio_first_pts)
        >= kept.video[0].pts.ns - first_ns(ring.video_first_pts) - 100_000_000 by {
        assert(a[n].pts.ns <= a[i].pts.ns);
    }
}

/// A video frame that steps back by up to a second behind the oldest one is dropped, and the
/// audio then goes by its own age alone; one that steps back further takes the place of
/// everything; one that comes within the kept duration behind the oldest joins the others, and
/// one that does not step back stays the newest.
pub proof fn law_steps_back_in_time(
    ring: RingBuffer,
    v: Seq<EncodedFrame>,
    a: Seq<EncodedFrame>,
    frame: EncodedFrame,
)
    requires
        v.len() > 0,
        rising(v),
        first_ns(ring.video_first_pts) <= frame.pts.ns,
        first_ns(ring.video_first_pts) <= v[0].pts.ns,
    ensures
        ({
            let kept = ring.would_retain(v.push(frame), a);
            let back = v[0].pts.ns - frame.pts.ns;
            &&& 0 < back <= 1_000_000_000 ==> kept.video == v && kept.audio == ring.would_retain(
                Seq::empty(),
                a,
            ).audio
            &&& 0 <= -back < ring.max_duration.ns ==> kept.video == v.push(frame) && kept.audio
                == ring.would_retain(Seq::empty(), a).audio
            &&& back > 1_000_000_000 ==> kept.video == seq![frame] && kept.audio.len() == 0
            &&& frame.pts.ns >= v.last().pts.ns ==> kept.video.len() > 0 && kept.video.last()
                == frame
        }),
{
    let pushed = v.push(frame);
    let max = ring.max_duration.ns as int;
    let vf = ring.video_first_pts;
    lemma_kept_from_range(pushed, vf, max, 0);
    let k = kept_from(pushed, vf, max, 0);
    assert(pushed[0] == v[0]);
    assert(pushed.last() == frame);
    assert(pushed.subrange(0, pushed.len() - 1) =~= v);
    assert(pushed.subrange(0, pushed.len() as int) =~= pushed);
    let none = Seq::<EncodedFrame>::empty();
    assert(kept_from(none, vf, max, 0) == 0);
    assert(none.subrange(0, 0) =~= none);
    if frame.pts.ns >= v.last().pts.ns {
        assert(rising(pushed)) by {
            assert forall|i: int, j: int| 0 <= i <= j < pushed.len() implies (
            #[trigger] pushed[i]).pts.ns <= (#[trigger] pushed[j]).pts.ns by {
                if i < v.len() {
                    assert(pushed[i] == v[i]);
                    assert(v[i].pts.ns <= v[v.len() - 1].pts.ns);
                    if j < v.len() {
                        assert(pushed[j] == v[j]);
                    }
                }
            }
        }
        law_rising_video_leaves_by_age(ring, pushed, a);
    }
}

/// The offset of a clip is the distance from the start of the video to the start of the audio,
/// whichever came first, to less than a millisecond, and never larger than it; without both
/// starts it is none.
pub proof fn law_sync_offset_is_the_distance(video: Option<Moment>, audio: Option<Moment>)
    ensures
        video is Some && audio is Some ==> ({
            let distance = audio.unwrap().ns - video.unwrap().ns;
            let offset = sync_offset(video, audio) * 1_000_000;
            &&& -1_000_000 < offset - distance < 1_000_000
            &&& distance >= 0 ==> 0 <= offset <= distance
            &&& distance <= 0 ==> distance <= offset <= 0
        }),
        video is None || audio is None ==> sync_offset(video, audio) == 0,
{
    if let (Some(v), Some(a)) = (video, audio) {
        if a.ns >= v.ns {
            let d: int = a.ns - v.ns;
            assert(d - 1_000_000 < (d / 1_000_000) * 1_000_000 <= d);
        } else {
            let d: int = v.ns - a.ns;
            assert(d - 1_000_000 < (d / 1_000_000) * 1_000_000 <= d);
        }
    }
}

/// A clip leaves out exactly the video before the first keyframe: what it leaves out holds no
/// keyframe, it begins with one if there is any, and it is everything if there is none.
pub proof fn law_clip_video_is_from_the_first_keyframe(v: Seq<EncodedFrame>)
    ensures
        ({
            let clip = clip_video(v);
            let skipped = v.len() - clip.len();
            &&& 0 <= skipped <= v.len()
            &&& clip == v.subrange(skipped, v.len() as int)
            &&& forall|i: int| 0 <= i < skipped ==> !(#[trigger] v[i]).is_keyframe
            &&& skipped > 0 ==> clip.len() > 0 && clip[0].is_keyframe
            &&& (exists|i: int| 0 <= i < v.len() && (#[trigger] v[i]).is_keyframe) ==> clip.len()
                > 0 && clip[0].is_keyframe
        }),
{
    lemma_keyframe_in_range(v, 0);
    let clip = clip_video(v);
    assert forall|i: int| 0 <= i < v.len() - clip.len() implies !(#[trigger] v[i]).is_keyframe by {
        if v[i].is_keyframe {
            lemma_keyframe_found(v, 0, i);
        }
    }
    if exists|i: int| 0 <= i < v.len() && (#[trigger] v[i]).is_keyframe {
        let i = choose|i: int| 0 <= i < v.len() && (#[trigger] v[i]).is_keyframe;
        lemma_keyframe_found(v, 0, i);
    } else {
        if let Some(k) = keyframe_position(v, 0) {
            lemma_position_is_keyframe(v, 0);
        }
    }
}

proof fn lemma_position_is_keyframe(v: Seq<EncodedFrame>, from: int)
    requires
        0 <= from,
    ensures
        keyframe_position(v, from) matches Some(k) ==> from <= k < v.len() && v[k].is_keyframe,
    decreases v.len() - from,
{
    if from < v.len() && !v[from].is_keyframe {
        lemma_position_is_keyframe(v, from + 1);
    }
}

proof fn lemma_extremes_occur(v: Seq<EncodedFrame>) -> (r: (int, int))
    requires
        v.len() > 0,
    ensures
        0 <= r.0 < v.len(),
        0 <= r.1 < v.len(),
        v[r.0].pts == earliest(v),
        v[r.1].pts == latest(v),
    decreases v.len(),
{
    if v.len() == 1 {
        (0, 0)
    } else {
        let before = lemma_extremes_occur(v.drop_last());
        (
            if v.last().pts.ns < earliest(v.drop_last()).ns {
                v.len() - 1
            } else {
                before.0
            },
            if v.last().pts.ns > latest(v.drop_last()).ns {
                v.len() - 1
            } else {
                before.1
            },
        )
    }
}

/// The length of a clip is the distance between the earliest and the latest of its frames: no
/// two lie further apart, and two lie that far apart.
pub proof fn law_clip_length_spans_its_video(ring: RingBuffer)
    requires
        ring.video_frames@.len() > 0,
        forall|i: int|
            0 <= i < ring.video_frames@.len() ==> first_ns(ring.video_first_pts) <= (
            #[trigger] ring.video_frames@[i]).pts.ns,
    ensures
        ({
            let clip = clip_video(ring.video_frames@);
            let length = ring.clip_end() - ring.clip_start();
            &&& forall|i: int, j: int|
                0 <= i < clip.len() && 0 <= j < clip.len() ==> (#[trigger] clip[j]).pts.ns - (
                #[trigger] clip[i]).pts.ns <= length
            &&& exists|i: int, j: int|
                0 <= i < clip.len() && 0 <= j < clip.len() && (#[trigger] clip[j]).pts.ns - (
                #[trigger] clip[i]).pts.ns == length
        }),
{
    let v = ring.video_frames@;
    let clip = clip_video(v);
    law_clip_is_not_empty(v);
    law_clip_video_is_from_the_first_keyframe(v);
    let (first, last) = lemma_extremes_occur(clip);
    assert(clip[first] == v[v.len() - clip.len() + first]);
    assert(clip[last] == v[v.len() - clip.len() + last]);
    assert forall|i: int, j: int| 0 <= i < clip.len() && 0 <= j < clip.len() implies (
    #[trigger] clip[j]).pts.ns - (#[trigger] clip[i]).pts.ns <= ring.clip_end()
        - ring.clip_start() by {
        lemma_between_extremes(clip, i);
        lemma_between_extremes(clip, j);
    }
    assert(clip[last].pts.ns - clip[first].pts.ns == ring.clip_end() - ring.clip_start());
}

proof fn lemma_filter_keeps(a: Seq<EncodedFrame>, test: spec_fn(EncodedFrame) -> bool, i: int)
    requires
        0 <= i < a.len(),
        test(a[i]),
    ensures
        a.filter(test).contains(a[i]),
    decreases a.len(),
{
    reveal(Seq::filter);
    let rest = a.drop_last();
    let kept = rest.filter(test);
    if i < a.len() - 1 {
        lemma_filter_keeps(rest, test, i);
        let k = choose|k: int| 0 <= k < kept.len() && kept[k] == a[i];
        assert(a.filter(test)[k] == a[i]);
    } else {
        assert(a.filter(test)[kept.len() as int] == a[i]);
    }
}

/// The audio of a clip is exactly the audio of the buffer that lies, counted from the first
/// audio, no more than a tenth of a second before some frame of the clip and no more than a
/// tenth of a second behind some frame of it, these counted from the first video.
pub proof fn law_clip_audio_surrounds_its_video(ring: RingBuffer, f: EncodedFrame)
    requires
        ring.video_frames@.len() > 0,
        ring.audio_frames@.contains(f),
        first_ns(ring.audio_first_pts) <= f.pts.ns < u64::MAX,
        forall|i: int|
            0 <= i < ring.video_frames@.len() ==> first_ns(ring.video_first_pts) <= (
            #[trigger] ring.video_frames@[i]).pts.ns,
    ensures
        ({
            let clip = clip_video(ring.video_frames@);
            let at = f.pts.ns - first_ns(ring.audio_first_pts);
            ring.clip_audio().contains(f) <==> {
                &&& exists|i: int|
                    0 <= i < clip.len() && at >= (#[trigger] clip[i]).pts.ns - first_ns(
                        ring.video_first_pts,
                    ) - 100_000_000
                &&& exists|i: int|
                    0 <= i < clip.len() && at <= (#[trigger] clip[i]).pts.ns - first_ns(
                        ring.video_first_pts,
                    ) + 100_000_000
            }
        }),
{
    let v = ring.video_frames@;
    let clip = clip_video(v);
    let at = f.pts.ns - first_ns(ring.audio_first_pts);
    law_clip_is_not_empty(v);
    law_clip_video_is_from_the_first_keyframe(v);
    let (first, last) = lemma_extremes_occur(clip);
    let skipped = v.len() - clip.len();
    assert(clip[first] == v[skipped + first]);
    assert(clip[last] == v[skipped + last]);
    let test = |f: EncodedFrame|
        in_window(
            f,
            ring.audio_first_pts,
            minus_floor(ring.clip_start(), AUDIO_SLACK_NS as int),
            smaller(ring.clip_end() + AUDIO_SLACK_NS, MAX_TIME_NS as int),
        );
    if ring.clip_audio().contains(f) {
        law_clip_audio_within_slack(ring, f);
    }
    if exists|i: int|
        0 <= i < clip.len() && at >= (#[trigger] clip[i]).pts.ns - first_ns(ring.video_first_pts)
            - 100_000_000 {
        let i = choose|i: int|
            0 <= i < clip.len() && at >= (#[trigger] clip[i]).pts.ns - first_ns(
                ring.video_first_pts,
            ) - 100_000_000;
        lemma_between_extremes(clip, i);
        if exists|j: int|
            0 <= j < clip.len() && at <= (#[trigger] clip[j]).pts.ns - first_ns(
                ring.video_first_pts,
            ) + 100_000_000 {
            let j = choose|j: int|
                0 <= j < clip.len() && at <= (#[trigger] clip[j]).pts.ns - first_ns(
                    ring.video_first_pts,
                ) + 100_000_000;
            lemma_between_extremes(clip, j);
            let n = choose|n: int| 0 <= n < ring.audio_frames@.len() && ring.audio_frames@[n] == f;
            assert(test(f));
            lemma_filter_keeps(ring.audio_frames@, test, n);
        }
    }
}

proof fn lemma_filter_rises(a: Seq<EncodedFrame>, test: spec_fn(EncodedFrame) -> bool)
    requires
        rising(a),
    ensures
        rising(a.filter(test)),
    decreases a.len(),
{
    reveal(Seq::filter);
    if a.len() > 0 {
        let rest = a.drop_last();
        assert forall|i: int, j: int| 0 <= i <= j < rest.len() implies (
        #[trigger] rest[i]).pts.ns <= (#[trigger] rest[j]).pts.ns by {
            assert(a[i].pts.ns <= a[j].pts.ns);
        }
        lemma_filter_rises(rest, test);
        let kept = rest.filter(test);
        let all = a.filter(test);
        assert forall|i: int, j: int| 0 <= i <= j < all.len() implies (#[trigger] all[i]).pts.ns
            <= (#[trigger] all[j]).pts.ns by {
            if j < kept.len() {
                assert(kept[i].pts.ns <= kept[j].pts.ns);
            } else if i < kept.len() {
                lemma_filter_from(rest, test, i);
                let k = choose|k: int| 0 <= k < rest.len() && rest[k] == kept[i];
                assert(a[k].pts.ns <= a[a.len() - 1].pts.ns);
            }
        }
    }
}

/// The audio of a clip keeps its order: times that rise in the buffer rise in the clip.
pub proof fn law_clip_audio_keeps_order(ring: RingBuffer)
    requires
        rising(ring.audio_frames@),
    ensures
        rising(ring.clip_audio()),
{
    lemma_filter_rises(
        ring.audio_frames@,
        |f: EncodedFrame|
            in_window(
                f,
                ring.audio_first_pts,
                minus_floor(ring.clip_start(), AUDIO_SLACK_NS as int),
                smaller(ring.clip_end() + AUDIO_SLACK_NS, MAX_TIME_NS as int),
            ),
    );
}

/// The first message passes.
pub proof fn law_first_message_passes(limiter: LogRateLimiter, now: Moment)
    requires
        limiter.last is None,
    ensures
        limiter.allows(now),
{
}

/// Once a message passed, the next one passes when the interval is over, and not before.
pub proof fn law_messages_are_spaced(limiter: LogRateLimiter, passed: Moment, now: Moment)
    requires
        limiter.last == Some(passed),
        passed.ns <= now.ns,
    ensures
        limiter.allows(now) <==> now.ns >= passed.ns + limiter.interval,
{
}

/// Taking a frame in or letting one go touches nothing but the frames: the formats, the starts of
/// the streams, their offsets and what is awaited stay.
pub proof fn law_frames_come_and_go_alone(before: RingBuffer, after: RingBuffer)
    requires
        after.agrees_beside_frames(&before),
    ensures
        after.video_caps == before.video_caps,
        after.audio_caps == before.audio_caps,
        after.video_first_pts == before.video_first_pts,
        after.audio_first_pts == before.audio_first_pts,
        after.video_start_instant == before.video_start_instant,
        after.audio_start_instant == before.audio_start_instant,
        after.video_pts_offset_ns == before.video_pts_offset_ns,
        after.audio_pts_offset_ns == before.audio_pts_offset_ns,
        after.awaiting_video_resync == before.awaiting_video_resync,
        after.awaiting_audio_resync == before.awaiting_audio_resync,
        after.video_resync_reference == before.video_resync_reference,
        after.audio_resync_reference == before.audio_resync_reference,
        after.max_duration == before.max_duration,
{
}

/// A restart of the capture is awaited in both streams, each from its newest frame on; all that
/// was recorded stays.
pub proof fn law_restart_keeps_the_past(before: RingBuffer, after: RingBuffer)
    requires
        after.resync_begun(&before),
    ensures
        after.video_frames@ == before.video_frames@,
        after.audio_frames@ == before.audio_frames@,
        after.awaiting_video_resync && after.awaiting_audio_resync,
        before.video_frames@.len() > 0 ==> after.video_resync_reference == Some(
            before.video_frames@.last().pts,
        ),
        before.audio_frames@.len() > 0 ==> after.audio_resync_reference == Some(
            before.audio_frames@.last().pts,
        ),
        before.video_frames@.len() == 0 ==> after.video_resync_reference is None,
        before.audio_frames@.len() == 0 ==> after.audio_resync_reference is None,
        after.video_caps == before.video_caps && after.audio_caps == before.audio_caps,
        after.video_first_pts == before.video_first_pts,
        after.audio_first_pts == before.audio_first_pts,
        after.video_start_instant == before.video_start_instant,
        after.audio_start_instant == before.audio_start_instant,
        after.max_duration == before.max_duration,
{
}

} // verus!
