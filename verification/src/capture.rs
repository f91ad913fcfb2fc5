//! How an arriving sample enters the ring buffer: its time is moved so that a
//! restarted capture goes on where the old one ended, and the first frame of each
//! stream is remembered.

use crate::clock::{larger, ClockTime, Moment};
use crate::ring::{Caps, ContentType, EncodedFrame, Payload, RingBuffer};
use vstd::prelude::*;

verus! {

/// The gap that is left after the last old video frame, in nanoseconds.
pub const VIDEO_RESYNC_GAP_NS: u64 = 33_000_000;

/// The gap that is left after the last old audio frame, in nanoseconds.
pub const AUDIO_RESYNC_GAP_NS: u64 = 20_000_000;

/// A sample as the capture pipeline hands it over.
#[derive(Debug)]
pub struct Sample {
    /// The encoded data.
    pub data: Payload,
    /// The time that the pipeline gave it.
    pub pts: Option<ClockTime>,
    /// When it is decoded.
    pub dts: Option<ClockTime>,
    /// For how long it is shown.
    pub duration: Option<ClockTime>,
    /// Whether it builds on the frames before it.
    pub delta_unit: bool,
    /// Its format, where the pipeline tells it.
    pub caps: Option<Caps>,
}

/// What the capture pipeline is told when a sample cannot be taken.
#[derive(Clone, Copy, Debug, PartialEq, Eq, Structural)]
pub enum FlowError {
    /// No more samples come.
    Eos,
    /// The sample is unusable.
    Error,
}

/// An unsigned number read as a signed one of the same 64 bits.
pub open spec fn as_signed(x: u64) -> int {
    if x < 0x8000_0000_0000_0000 {
        x as int
    } else {
        x - 0x1_0000_0000_0000_0000
    }
}

/// Whether a number lies in the range of `i64`.
pub open spec fn fits_i64(x: int) -> bool {
    i64::MIN <= x <= i64::MAX
}

fn to_signed(x: u64) -> (r: i64)
    ensures
        r == as_signed(x),
{
    let r: i64 = #[verifier::truncate]
    (x as i64);
    assert(x < 0x8000_0000_0000_0000u64 ==> (x as i64) == x) by (bit_vector);
    assert(x >= 0x8000_0000_0000_0000u64 ==> (x as i64) == x - 0x1_0000_0000_0000_0000) by (
    bit_vector);
    r
}

impl RingBuffer {
    /// The gap that a resynchronised stream leaves.
    pub open spec fn gap(content: ContentType) -> int {
        match content {
            ContentType::Video => VIDEO_RESYNC_GAP_NS as int,
            ContentType::Audio => AUDIO_RESYNC_GAP_NS as int,
        }
    }

    /// The time after which the next frame of a stream is to follow, where the
    /// stream awaits resynchronisation and had frames before.
    pub open spec fn reference(&self, content: ContentType) -> Option<ClockTime> {
        match content {
            ContentType::Video => if self.awaiting_video_resync {
                self.video_resync_reference
            } else {
                None
            },
            ContentType::Audio => if self.awaiting_audio_resync {
                self.audio_resync_reference
            } else {
                None
            },
        }
    }

    /// What is added to the times of a stream.
    pub open spec fn offset(&self, content: ContentType) -> int {
        match content {
            ContentType::Video => self.video_pts_offset_ns as int,
            ContentType::Audio => self.audio_pts_offset_ns as int,
        }
    }

    /// What is added to the time `pts` of an arriving sample and to those after it.
    pub open spec fn next_offset(&self, content: ContentType, pts: ClockTime) -> int {
        match self.reference(content) {
            Some(r) => as_signed((r.ns + Self::gap(content)) as u64) - as_signed(pts.ns),
            None => self.offset(content),
        }
    }

    /// The time under which a sample with the time `pts` is kept.
    pub open spec fn placed(&self, content: ContentType, pts: ClockTime) -> ClockTime {
        ClockTime { ns: larger(0, as_signed(pts.ns) + self.next_offset(content, pts)) as u64 }
    }

    /// Whether the time of an arriving sample can be moved within 64 bits.
    pub open spec fn placeable(&self, content: ContentType, pts: ClockTime) -> bool {
        &&& self.reference(content) matches Some(r) ==> r.ns + Self::gap(content) <= u64::MAX
        &&& fits_i64(self.next_offset(content, pts))
        &&& fits_i64(as_signed(pts.ns) + self.next_offset(content, pts))
    }

    /// The frame that an arriving sample with the time `pts` becomes.
    pub open spec fn frame_of(
        &self,
        content: ContentType,
        sample: Sample,
        pts: ClockTime,
    ) -> EncodedFrame {
        EncodedFrame {
            data: sample.data,
            pts: self.placed(content, pts),
            dts: sample.dts,
            duration: sample.duration,
            is_keyframe: content == ContentType::Audio || !sample.delta_unit,
        }
    }

    /// Whether `self` is `before` after it took in a sample with the time `pts`.
    pub open spec fn has_taken(
        &self,
        before: &RingBuffer,
        content: ContentType,
        sample: Sample,
        pts: ClockTime,
        now: Moment,
    ) -> bool {
        let frame = before.frame_of(content, sample, pts);
        let video = content == ContentType::Video;
        let kept = self.would_retain(
            if video {
                before.video_frames@.push(frame)
            } else {
                before.video_frames@
            },
            if video {
                before.audio_frames@
            } else {
                before.audio_frames@.push(frame)
            },
        );
        &&& self.video_frames@ == kept.video
        &&& self.audio_frames@ == kept.audio
        &&& self.offset(content) == before.next_offset(content, pts)
        &&& self.agrees_on_limits(before)
        &&& self.video_resync_reference == before.video_resync_reference
        &&& self.audio_resync_reference == before.audio_resync_reference
        &&& if video {
            &&& !self.awaiting_video_resync
            &&& self.awaiting_audio_resync == before.awaiting_audio_resync
            &&& self.audio_pts_offset_ns == before.audio_pts_offset_ns
            &&& self.video_first_pts == Some(
                first_of(before.video_first_pts, before.placed(content, pts)),
            )
            &&& self.audio_first_pts == before.audio_first_pts
            &&& self.video_start_instant == (if before.video_first_pts is None {
                Some(now)
            } else {
                before.video_start_instant
            })
            &&& self.audio_start_instant == before.audio_start_instant
            &&& self.video_caps == first_caps(before.video_caps, sample.caps)
            &&& self.audio_caps == before.audio_caps
        } else {
            &&& !self.awaiting_audio_resync
            &&& self.awaiting_video_resync == before.awaiting_video_resync
            &&& self.video_pts_offset_ns == before.video_pts_offset_ns
            &&& self.audio_first_pts == Some(
                first_of(before.audio_first_pts, before.placed(content, pts)),
            )
            &&& self.video_first_pts == before.video_first_pts
            &&& self.audio_start_instant == (if before.audio_first_pts is None {
                Some(now)
            } else {
                before.audio_start_instant
            })
            &&& self.video_start_instant == before.video_start_instant
            &&& self.audio_caps == first_caps(before.audio_caps, sample.caps)
            &&& self.video_caps == before.video_caps
        }
    }

    /// Whether the time of an arriving sample can be moved within 64 bits.
    pub fn can_place(&self, content: ContentType, pts: ClockTime) -> (r: bool)
        ensures
            r == self.placeable(content, pts),
    {
        let (awaiting, known, offset, gap) = match content {
            ContentType::Video => (
                self.awaiting_video_resync,
                self.video_resync_reference,
                self.video_pts_offset_ns,
                VIDEO_RESYNC_GAP_NS,
            ),
            ContentType::Audio => (
                self.awaiting_audio_resync,
                self.audio_resync_reference,
                self.audio_pts_offset_ns,
                AUDIO_RESYNC_GAP_NS,
            ),
        };
        let reference: Option<ClockTime> = if awaiting {
            known
        } else {
            None
        };
        let at: i128 = to_signed(pts.ns) as i128;
        let next: i128 = match reference {
            Some(r) => {
                if r.ns > u64::MAX - gap {
                    return false;
                }
                to_signed(r.ns + gap) as i128 - at
            },
            None => offset as i128,
        };
        let low: i128 = i64::MIN as i128;
        let high: i128 = i64::MAX as i128;
        low <= next && next <= high && low <= at + next && at + next <= high
    }

    /// Takes in a sample that arrives at the moment `now`. One without a time is refused.
    pub fn take_sample(&mut self, content: ContentType, sample: Sample, now: Moment) -> (r: Result<
        (),
        FlowError,
    >)
        requires
            sample.pts matches Some(pts) ==> old(self).placeable(content, pts),
        ensures
            r == (if sample.pts is Some {
                Ok::<(), FlowError>(())
            } else {
                Err(FlowError::Error)
            }),
            match sample.pts {
                Some(pts) => final(self).has_taken(old(self), content, sample, pts, now),
                None => *final(self) == *old(self),
            },
    {
        let raw: ClockTime = match sample.pts {
            Some(pts) => pts,
            None => {
                return Err(FlowError::Error);
            },
        };
        let pts: ClockTime = self.place(content, raw);
        match content {
            ContentType::Video => {
                if self.video_first_pts.is_none() {
                    self.video_first_pts = Some(pts);
                    self.video_start_instant = Some(now);
                }
                if self.video_caps.is_none() {
                    self.video_caps = sample.caps;
                }
                let frame: EncodedFrame = EncodedFrame::new(
                    sample.data,
                    pts,
                    sample.dts,
                    sample.duration,
                    !sample.delta_unit,
                );
                let _ = self.push_video_frame(frame);
            },
            ContentType::Audio => {
                if self.audio_first_pts.is_none() {
                    self.audio_first_pts = Some(pts);
                    self.audio_start_instant = Some(now);
                }
                if self.audio_caps.is_none() {
                    self.audio_caps = sample.caps;
                }
                let frame: EncodedFrame = EncodedFrame::new(
                    sample.data,
                    pts,
                    sample.dts,
                    sample.duration,
                    true,
                );
                let _ = self.push_audio_frame(frame);
            },
        }
        Ok(())
    }

    /// Settles the offset of a stream on the arrival of a sample with the time `pts`,
    /// and tells the time under which it is kept.
    fn place(&mut self, content: ContentType, pts: ClockTime) -> (r: ClockTime)
        requires
            old(self).placeable(content, pts),
        ensures
            r == old(self).placed(content, pts),
            final(self).video_frames@ == old(self).video_frames@,
            final(self).audio_frames@ == old(self).audio_frames@,
            final(self).video_caps == old(self).video_caps,
            final(self).audio_caps == old(self).audio_caps,
            final(self).video_first_pts == old(self).video_first_pts,
            final(self).audio_first_pts == old(self).audio_first_pts,
            final(self).video_start_instant == old(self).video_start_instant,
            final(self).audio_start_instant == old(self).audio_start_instant,
            final(self).video_resync_reference == old(self).video_resync_reference,
            final(self).audio_resync_reference == old(self).audio_resync_reference,
            final(self).agrees_on_limits(old(self)),
            final(self).offset(content) == old(self).next_offset(content, pts),
            content == ContentType::Video ==> {
                &&& !final(self).awaiting_video_resync
                &&& final(self).awaiting_audio_resync == old(self).awaiting_audio_resync
                &&& final(self).audio_pts_offset_ns == old(self).audio_pts_offset_ns
            },
            content == ContentType::Audio ==> {
                &&& !final(self).awaiting_audio_resync
                &&& final(self).awaiting_video_resync == old(self).awaiting_video_resync
                &&& final(self).video_pts_offset_ns == old(self).video_pts_offset_ns
            },
    {
        let shifted: i64 = match content {
            ContentType::Video => {
                if self.awaiting_video_resync {
                    if let Some(reference) = self.video_resync_reference {
                        self.video_pts_offset_ns =
                        to_signed(reference.ns + VIDEO_RESYNC_GAP_NS) - to_signed(pts.ns);
                    }
                    self.awaiting_video_resync = false;
                }
                to_signed(pts.ns) + self.video_pts_offset_ns
            },
            ContentType::Audio => {
                if self.awaiting_audio_resync {
                    if let Some(reference) = self.audio_resync_reference {
                        self.audio_pts_offset_ns =
                        to_signed(reference.ns + AUDIO_RESYNC_GAP_NS) - to_signed(pts.ns);
                    }
                    self.awaiting_audio_resync = false;
                }
                to_signed(pts.ns) + self.audio_pts_offset_ns
            },
        };
        if shifted > 0 {
            ClockTime::from_nseconds(shifted as u64)
        } else {
            ClockTime::zero()
        }
    }
}

/// The time that was first, or `pts` where there was none yet.
pub open spec fn first_of(first: Option<ClockTime>, pts: ClockTime) -> ClockTime {
    match first {
        Some(f) => f,
        None => pts,
    }
}

/// The format that was known first.
pub open spec fn first_caps(known: Option<Caps>, seen: Option<Caps>) -> Option<Caps> {
    if known is Some {
        known
    } else {
        seen
    }
}

/// After a restart of the capture the first new frame of a stream follows its last old one,
/// after 33 milliseconds of video or 20 of audio, whatever time the new capture gives it.
pub proof fn law_resync_continues(
    before: RingBuffer,
    after: RingBuffer,
    content: ContentType,
    pts: ClockTime,
)
    requires
        after.resync_begun(&before),
        (match content {
            ContentType::Video => before.video_frames@,
            ContentType::Audio => before.audio_frames@,
        }).len() > 0,
        (match content {
            ContentType::Video => before.video_frames@.last().pts.ns + 33_000_000,
            ContentType::Audio => before.audio_frames@.last().pts.ns + 20_000_000,
        }) < 0x8000_0000_0000_0000,
    ensures
        after.placed(content, pts).ns == match content {
            ContentType::Video => before.video_frames@.last().pts.ns + 33_000_000,
            ContentType::Audio => before.audio_frames@.last().pts.ns + 20_000_000,
        },
{
}

/// Two samples of a stream that are both kept under a time of their own lie as far
/// apart in the buffer as the capture put them, the first of them settling the offset
/// for the second.
pub proof fn law_spacing_is_kept(
    before: RingBuffer,
    between: RingBuffer,
    content: ContentType,
    sample: Sample,
    now: Moment,
    first: ClockTime,
    second: ClockTime,
)
    requires
        before.placeable(content, first),
        between.has_taken(&before, content, sample, first, now),
        between.placeable(content, second),
        before.placed(content, first).ns > 0,
        between.placed(content, second).ns > 0,
    ensures
        between.placed(content, second).ns - before.placed(content, first).ns == as_signed(
            second.ns,
        ) - as_signed(first.ns),
{
}

/// While no restart is pending, or one that found no frame of the stream, a sample is kept under
/// its own time moved by the offset of its stream, and never before the start of the stream. A
/// time of 64 bits counts as a negative one where its highest bit is set.
pub proof fn law_offset_is_added(ring: RingBuffer, content: ContentType, pts: ClockTime)
    requires
        ring.placeable(content, pts),
        content is Video ==> !ring.awaiting_video_resync || ring.video_resync_reference is None,
        content is Audio ==> !ring.awaiting_audio_resync || ring.audio_resync_reference is None,
    ensures
        ({
            let own: int = if pts.ns < 0x8000_0000_0000_0000 {
                pts.ns as int
            } else {
                pts.ns - 0x1_0000_0000_0000_0000
            };
            let moved = own + match content {
                ContentType::Video => ring.video_pts_offset_ns,
                ContentType::Audio => ring.audio_pts_offset_ns,
            };
            &&& moved >= 0 ==> ring.placed(content, pts).ns == moved
            &&& moved < 0 ==> ring.placed(content, pts).ns == 0
        }),
{
}

/// A video sample that does not step back becomes the newest frame: its data and its times are
/// kept, it counts as a keyframe unless it builds on others, and only old frames before it go.
pub proof fn law_video_sample_becomes_the_newest_frame(
    before: RingBuffer,
    after: RingBuffer,
    sample: Sample,
    pts: ClockTime,
    now: Moment,
)
    requires
        after.has_taken(&before, ContentType::Video, sample, pts, now),
        crate::ring::rising(before.video_frames@),
        before.video_first_pts is None ==> before.video_frames@.len() == 0,
        before.video_frames@.len() > 0 ==> {
            &&& before.video_frames@.last().pts.ns <= before.placed(ContentType::Video, pts).ns
            &&& crate::ring::first_ns(before.video_first_pts) <= before.video_frames@[0].pts.ns
        },
        crate::ring::first_ns(before.video_first_pts) <= before.placed(
            ContentType::Video,
            pts,
        ).ns,
    ensures
        after.video_frames@.len() > 0,
        after.video_frames@.last().data == sample.data,
        after.video_frames@.last().pts == before.placed(ContentType::Video, pts),
        after.video_frames@.last().dts == sample.dts,
        after.video_frames@.last().duration == sample.duration,
        after.video_frames@.last().is_keyframe == !sample.delta_unit,
        after.video_frames@.len() <= before.video_frames@.len() + 1,
        forall|i: int|
            0 <= i < after.video_frames@.len() - 1 ==> before.video_frames@.contains(
                #[trigger] after.video_frames@[i],
            ),
{
    let old_frames = before.video_frames@;
    let frame = before.frame_of(ContentType::Video, sample, pts);
    let pushed = old_frames.push(frame);
    assert forall|i: int, j: int| 0 <= i <= j < pushed.len() implies (#[trigger] pushed[i]).pts.ns
        <= (#[trigger] pushed[j]).pts.ns by {
        if i < old_frames.len() {
            assert(old_frames[i].pts.ns <= old_frames[old_frames.len() - 1].pts.ns);
            if j < old_frames.len() {
                assert(old_frames[i].pts.ns <= old_frames[j].pts.ns);
            }
        }
    }
    crate::ring::law_rising_video_leaves_by_age(after, pushed, before.audio_frames@);
    let kept = after.video_frames@;
    assert forall|i: int| 0 <= i < kept.len() - 1 implies old_frames.contains(
        #[trigger] kept[i],
    ) by {
        let k = pushed.len() - kept.len() + i;
        assert(kept[i] == pushed[k]);
        assert(old_frames[k] == kept[i]);
    }
}

/// An audio sample becomes the newest audio frame wherever audio is left: its data and its
/// times are kept, and it can be decoded on its own.
pub proof fn law_audio_sample_becomes_the_newest_frame(
    before: RingBuffer,
    after: RingBuffer,
    sample: Sample,
    pts: ClockTime,
    now: Moment,
)
    requires
        after.has_taken(&before, ContentType::Audio, sample, pts, now),
        after.audio_frames@.len() > 0,
    ensures
        after.audio_frames@.last().data == sample.data,
        after.audio_frames@.last().pts == before.placed(ContentType::Audio, pts),
        after.audio_frames@.last().dts == sample.dts,
        after.audio_frames@.last().duration == sample.duration,
        after.audio_frames@.last().is_keyframe,
{
    let frame = before.frame_of(ContentType::Audio, sample, pts);
    let pushed = before.audio_frames@.push(frame);
    crate::ring::law_eviction_keeps_order(
        before.video_frames@,
        pushed,
        after.video_first_pts,
        after.audio_first_pts,
        after.max_duration.ns as int,
    );
    let i = choose|i: int|
        0 <= i <= pushed.len() && #[trigger] pushed.subrange(i, pushed.len() as int)
            == after.audio_frames@;
    assert(after.audio_frames@.last() == pushed.last());
}

/// The first sample of a stream fixes when the stream began, in its own times and on the
/// clock, and its format once that is known; later samples leave these as they are, and the
/// other stream keeps all that is its own.
pub proof fn law_start_of_a_stream_is_fixed(
    before: RingBuffer,
    after: RingBuffer,
    content: ContentType,
    sample: Sample,
    pts: ClockTime,
    now: Moment,
)
    requires
        after.has_taken(&before, content, sample, pts, now),
    ensures
        content is Video ==> {
            &&& before.video_first_pts is Some ==> after.video_first_pts == before.video_first_pts
                && after.video_start_instant == before.video_start_instant
            &&& before.video_first_pts is None ==> after.video_first_pts == Some(
                before.placed(content, pts),
            ) && after.video_start_instant == Some(now)
            &&& before.video_caps is Some ==> after.video_caps == before.video_caps
            &&& before.video_caps is None ==> after.video_caps == sample.caps
            &&& after.audio_first_pts == before.audio_first_pts
            &&& after.audio_start_instant == before.audio_start_instant
            &&& after.audio_caps == before.audio_caps
            &&& after.audio_pts_offset_ns == before.audio_pts_offset_ns
            &&& after.awaiting_audio_resync == before.awaiting_audio_resync
            &&& !after.awaiting_video_resync
        },
        content is Audio ==> {
            &&& before.audio_first_pts is Some ==> after.audio_first_pts == before.audio_first_pts
                && after.audio_start_instant == before.audio_start_instant
            &&& before.audio_first_pts is None ==> after.audio_first_pts == Some(
                before.placed(content, pts),
            ) && after.audio_start_instant == Some(now)
            &&& before.audio_caps is Some ==> after.audio_caps == before.audio_caps
            &&& before.audio_caps is None ==> after.audio_caps == sample.caps
            &&& after.video_first_pts == before.video_first_pts
            &&& after.video_start_instant == before.video_start_instant
            &&& after.video_caps == before.video_caps
            &&& after.video_pts_offset_ns == before.video_pts_offset_ns
            &&& after.awaiting_video_resync == before.awaiting_video_resync
            &&& !after.awaiting_audio_resync
        },
        after.max_duration == before.max_duration,
{
}

/// Times of up to a hundred years can be moved by offsets of up to a hundred years.
pub proof fn law_ordinary_times_are_placeable(ring: RingBuffer, content: ContentType, pts: ClockTime)
    requires
        pts.ns <= 3_153_600_000_000_000_000,
        -3_153_600_000_000_000_000 <= ring.video_pts_offset_ns <= 3_153_600_000_000_000_000,
        -3_153_600_000_000_000_000 <= ring.audio_pts_offset_ns <= 3_153_600_000_000_000_000,
        ring.video_resync_reference matches Some(r) ==> r.ns <= 3_153_600_000_000_000_000,
        ring.audio_resync_reference matches Some(r) ==> r.ns <= 3_153_600_000_000_000_000,
    ensures
        ring.placeable(content, pts),
{
}

/// An audio sample leaves video that spans less than the kept duration as it is, and of the
/// audio lets go exactly what lies the kept duration or more behind it.
pub proof fn law_audio_sample_leaves_video_alone(
    before: RingBuffer,
    after: RingBuffer,
    sample: Sample,
    pts: ClockTime,
    now: Moment,
)
    requires
        after.has_taken(&before, ContentType::Audio, sample, pts, now),
        crate::ring::rising(before.video_frames@),
        crate::ring::rising(
            before.audio_frames@.push(before.frame_of(ContentType::Audio, sample, pts)),
        ),
        before.video_frames@.len() > 0 ==> {
            &&& crate::ring::first_ns(before.video_first_pts) <= before.video_frames@[0].pts.ns
            &&& before.video_frames@.last().pts.ns - before.video_frames@[0].pts.ns
                < before.max_duration.ns
        },
    ensures
        after.video_frames@ == before.video_frames@,
        ({
            let pushed = before.audio_frames@.push(
                before.frame_of(ContentType::Audio, sample, pts),
            );
            let gone = pushed.len() - after.audio_frames@.len();
            &&& 0 <= gone < pushed.len()
            &&& after.audio_frames@ == pushed.subrange(gone, pushed.len() as int)
            &&& forall|i: int|
                0 <= i < pushed.len() - 1 ==> (i < gone <==> pushed.last().pts.ns - (
                #[trigger] pushed[i]).pts.ns >= before.max_duration.ns)
        }),
{
    let v = before.video_frames@;
    let pushed = before.audio_frames@.push(before.frame_of(ContentType::Audio, sample, pts));
    crate::ring::law_audio_goes_with_its_video(after, v, pushed);
    if v.len() > 0 {
        crate::ring::law_rising_video_leaves_by_age(after, v, pushed);
        let kept = after.would_retain(v, pushed).video;
        let gone = v.len() - kept.len();
        if gone > 0 && v.len() > 1 {
            assert(v[0].pts.ns <= v[v.len() - 1].pts.ns);
        }
        assert(gone == 0);
        assert(kept =~= v);
    } else {
        assert(v.subrange(0, 0) =~= v);
    }
    let audio_gone = pushed.len() - after.audio_frames@.len();
    if audio_gone == pushed.len() {
        assert(pushed[pushed.len() - 1].pts.ns == pushed.last().pts.ns);
    }
}

} // verus!
