//! Saving a clip: whether it may be saved, what it is called and where it goes, and what
//! follows.

use crate::clock::ClockTime;
use crate::daemon::{DaemonCore, DaemonStatus};
use crate::error::WayclipError;
use crate::notifications::{NotificationEvent, NotificationManager, Reaction};
use crate::paths::join;
use crate::ring::{EncodedFrame, SaveData};
use crate::settings::{LimitSettings, OutputSettings};
use crate::text::{cat, decimal_text, replace};
use vstd::prelude::*;

verus! {

/// How many video frames there must be before a clip is saved.
pub const DEFAULT_MIN_FRAMES_FOR_SAVE: usize = 100;

/// Bytes in a megabyte.
pub const BYTES_PER_MB: u64 = 1000000;

/// A message on an event, with what the settings make of it.
#[derive(Debug)]
pub struct Notice {
    /// The event.
    pub event: NotificationEvent,
    /// What the message says.
    pub content: String,
    /// What the event leads to.
    pub reaction: Reaction,
}

impl Notice {
    /// Whether this is the message of this content on an event, under the daemon's settings.
    pub open spec fn tells(
        &self,
        event: NotificationEvent,
        content: Seq<char>,
        core: &DaemonCore,
    ) -> bool {
        &&& self.event == event
        &&& self.content@ == content
        &&& self.reaction == NotificationManager::reaction(event, core.notification_settings)
    }
}

/// How a wish to save a clip begins.
#[derive(Debug)]
pub enum SaveStart {
    /// Another clip is being saved: nothing happens.
    Busy,
    /// The clip is refused, and the user hears of it.
    Refused(Notice),
    /// This can be saved; the time of the first video frame ever seen goes with it.
    Ready(SaveData, Option<ClockTime>),
}

/// The words with which a clip is refused that has too few frames.
pub open spec fn too_few_words(frames: nat) -> Seq<char> {
    "Cannot save clip: Not enough frames in buffer yet ("@ + crate::text::decimal(frames) + "/"@
        + crate::text::decimal(DEFAULT_MIN_FRAMES_FOR_SAVE as nat)
        + " frames). Stream might be lagging."@
}

/// The words with which a clip is refused that is too large.
pub open spec fn too_large_words(predicted_mb: nat, limit: LimitSettings) -> Seq<char> {
    "Cannot save clip: Predicted size ("@ + crate::text::decimal(predicted_mb)
        + " MB) exceeds user limit ("@ + crate::text::decimal(limit.max_size_mb as nat) + " MB)."@
}

/// The words with which a clip is refused that is one too many.
pub open spec fn too_many_words(limit: LimitSettings) -> Seq<char> {
    "Cannot save clip: Total clip number exceeds user limit ("@ + crate::text::decimal(
        limit.max_clips as nat,
    ) + " clips)."@
}

/// The bytes of these frames.
pub open spec fn frame_bytes(frames: Seq<EncodedFrame>) -> nat
    decreases frames.len(),
{
    if frames.len() == 0 {
        0
    } else {
        frame_bytes(frames.drop_last()) + frames.last().data.size as nat
    }
}

/// The sum of these numbers.
pub open spec fn total(numbers: Seq<u64>) -> nat
    decreases numbers.len(),
{
    if numbers.len() == 0 {
        0
    } else {
        total(numbers.drop_last()) + numbers.last() as nat
    }
}

proof fn lemma_frame_bytes_grow(frames: Seq<EncodedFrame>, n: int)
    requires
        0 <= n <= frames.len(),
    ensures
        frame_bytes(frames.take(n)) <= frame_bytes(frames),
    decreases frames.len() - n,
{
    if n < frames.len() {
        lemma_frame_bytes_grow(frames, n + 1);
        assert(frames.take(n + 1).drop_last() =~= frames.take(n));
    } else {
        assert(frames.take(n) =~= frames);
    }
}

proof fn lemma_total_grows(numbers: Seq<u64>, n: int)
    requires
        0 <= n <= numbers.len(),
    ensures
        total(numbers.take(n)) <= total(numbers),
    decreases numbers.len() - n,
{
    if n < numbers.len() {
        lemma_total_grows(numbers, n + 1);
        assert(numbers.take(n + 1).drop_last() =~= numbers.take(n));
    } else {
        assert(numbers.take(n) =~= numbers);
    }
}

fn sum_frame_bytes(frames: &Vec<EncodedFrame>) -> (r: u64)
    requires
        frame_bytes(frames@) <= u64::MAX,
    ensures
        r == frame_bytes(frames@),
{
    let mut sum: u64 = 0;
    let mut i: usize = 0;
    while i < frames.len()
        invariant
            i <= frames@.len(),
            frame_bytes(frames@) <= u64::MAX,
            sum == frame_bytes(frames@.take(i as int)),
        decreases frames@.len() - i,
    {
        proof {
            lemma_frame_bytes_grow(frames@, i + 1);
            assert(frames@.take(i + 1).drop_last() =~= frames@.take(i as int));
        }
        sum = sum + frames[i].data.size;
        i = i + 1;
    }
    assert(frames@.take(i as int) =~= frames@);
    sum
}

fn sum_of(numbers: &Vec<u64>) -> (r: u64)
    requires
        total(numbers@) <= u64::MAX,
    ensures
        r == total(numbers@),
{
    let mut sum: u64 = 0;
    let mut i: usize = 0;
    while i < numbers.len()
        invariant
            i <= numbers@.len(),
            total(numbers@) <= u64::MAX,
            sum == total(numbers@.take(i as int)),
        decreases numbers@.len() - i,
    {
        proof {
            lemma_total_grows(numbers@, i + 1);
            assert(numbers@.take(i + 1).drop_last() =~= numbers@.take(i as int));
        }
        sum = sum + numbers[i];
        i = i + 1;
    }
    assert(numbers@.take(i as int) =~= numbers@);
    sum
}

/// The bytes of a clip without its container.
pub fn clip_bytes(data: &SaveData) -> (r: u64)
    requires
        frame_bytes(data.video_frames@) + frame_bytes(data.audio_frames@) <= u64::MAX,
    ensures
        r == frame_bytes(data.video_frames@) + frame_bytes(data.audio_frames@),
{
    sum_frame_bytes(&data.video_frames) + sum_frame_bytes(&data.audio_frames)
}

/// Why a clip of this size may not join clips of these sizes, if it may not. A limit of zero
/// is none; the size counts before the number.
pub open spec fn limit_refusal(
    limit: LimitSettings,
    predicted_bytes: u64,
    clip_sizes_mb: Seq<u64>,
) -> Option<Seq<char>> {
    let predicted_mb = predicted_bytes as nat / BYTES_PER_MB as nat;
    if limit.max_size_mb != 0 && total(clip_sizes_mb) + predicted_mb > limit.max_size_mb {
        Some(too_large_words(predicted_mb, limit))
    } else if limit.max_clips != 0 && clip_sizes_mb.len() + 1 > limit.max_clips {
        Some(too_many_words(limit))
    } else {
        None
    }
}

/// What a clip is called and where it goes.
#[derive(Debug)]
pub struct ClipPaths {
    /// The name without an extension.
    pub parsed_name: String,
    /// The name of the clip's file.
    pub clip_name: String,
    /// The clip.
    pub clip: String,
    /// Its preview.
    pub preview: String,
    /// Its description.
    pub metadata: String,
}

/// The name of a clip: the formatted pattern with the game, or the desktop, in its place.
pub open spec fn clip_stem(formatted: Seq<char>, game_slug: Option<&str>) -> Seq<char> {
    crate::text::replaced(
        formatted,
        "{game}"@,
        match game_slug {
            Some(slug) => slug@,
            None => "desktop"@,
        },
    )
}

/// Names a clip, given its pattern with the time filled in. A name that was asked for takes
/// the place of the clip's own, but not of those of its preview and description.
pub fn clip_paths(
    formatted: &str,
    game_slug: Option<&str>,
    forced_name: Option<String>,
    output: &OutputSettings,
) -> (r: ClipPaths)
    ensures
        r.parsed_name@ == clip_stem(formatted@, game_slug),
        r.clip_name@ == (match forced_name {
            Some(n) => n@,
            None => clip_stem(formatted@, game_slug) + "."@ + output.video_format.extension@,
        }),
        r.clip@ == crate::paths::joined(output.clip_directory@, r.clip_name@),
        r.preview@ == crate::paths::joined(
            output.preview_directory@,
            clip_stem(formatted@, game_slug) + ".preview.mkv"@,
        ),
        r.metadata@ == crate::paths::joined(
            output.clip_directory@,
            clip_stem(formatted@, game_slug) + ".json"@,
        ),
{
    let slug: &str = match game_slug {
        Some(s) => s,
        None => "desktop",
    };
    proof {
        reveal_strlit("{game}");
    }
    let parsed_name: String = replace(formatted, "{game}", slug);
    let clip_name: String = match forced_name {
        Some(n) => n,
        None => cat(
            cat(parsed_name.as_str(), ".").as_str(),
            output.video_format.extension.as_str(),
        ),
    };
    let clip: String = join(output.clip_directory.as_str(), clip_name.as_str());
    let preview: String = join(
        output.preview_directory.as_str(),
        cat(parsed_name.as_str(), ".preview.mkv").as_str(),
    );
    let metadata: String = join(
        output.clip_directory.as_str(),
        cat(parsed_name.as_str(), ".json").as_str(),
    );
    ClipPaths { parsed_name, clip_name, clip, preview, metadata }
}

impl DaemonCore {
    /// Whether a wish to save a clip begins so.
    pub open spec fn save_begins(&self, r: Result<SaveStart, WayclipError>) -> bool {
        &&& self.status is Saving ==> r == Ok::<SaveStart, WayclipError>(SaveStart::Busy)
        &&& !(self.status is Saving) && self.ring_buffer.video_caps is None ==> (
        r matches Err(WayclipError::Ring(m)) && m@
            == "No video caps — pipeline may not have started yet"@)
        &&& !(self.status is Saving) && self.ring_buffer.video_caps is Some
            && self.ring_buffer.video_frames@.len() == 0 ==> (
        r matches Err(WayclipError::Ring(m)) && m@ == "Ring buffer is empty — nothing to save"@)
        &&& !(self.status is Saving) && self.ring_buffer.video_caps is Some && 0
            < self.ring_buffer.video_frames@.len() < DEFAULT_MIN_FRAMES_FOR_SAVE ==> (
        r matches Ok(SaveStart::Refused(notice)) && notice.tells(
            NotificationEvent::SaveError,
            too_few_words(self.ring_buffer.video_frames@.len()),
            self,
        ))
        &&& !(self.status is Saving) && self.ring_buffer.video_caps is Some
            && self.ring_buffer.video_frames@.len() >= DEFAULT_MIN_FRAMES_FOR_SAVE ==> (
        r matches Ok(SaveStart::Ready(data, first)) && first == self.ring_buffer.video_first_pts
            && self.is_snapshot(data))
    }

    /// Begins to save a clip. Nothing of the daemon changes yet.
    pub fn save_clip(&self) -> (r: Result<SaveStart, WayclipError>)
        ensures
            self.save_begins(r),
    {
        if self.status == DaemonStatus::Saving {
            return Ok(SaveStart::Busy);
        }
        let data: SaveData = match self.ring_buffer.get_snapshot() {
            Ok(d) => d,
            Err(e) => {
                return Err(e);
            },
        };
        let frame_count: usize = self.ring_buffer.video_frames.len();
        if frame_count < DEFAULT_MIN_FRAMES_FOR_SAVE {
            let head: String = cat(
                "Cannot save clip: Not enough frames in buffer yet (",
                decimal_text(frame_count as u64).as_str(),
            );
            let middle: String = cat(
                cat(head.as_str(), "/").as_str(),
                decimal_text(DEFAULT_MIN_FRAMES_FOR_SAVE as u64).as_str(),
            );
            let message: String = cat(middle.as_str(), " frames). Stream might be lagging.");
            return Ok(SaveStart::Refused(self.refuse(message)));
        }
        Ok(SaveStart::Ready(data, self.ring_buffer.video_first_pts))
    }

    /// Whether this is what the ring buffer gives for a clip.
    pub open spec fn is_snapshot(&self, data: SaveData) -> bool {
        &&& self.ring_buffer.video_caps == Some(data.video_caps)
        &&& data.video_frames@ == crate::ring::clip_video(self.ring_buffer.video_frames@)
        &&& data.audio_frames@ == self.ring_buffer.clip_audio()
        &&& data.audio_caps == self.ring_buffer.audio_caps
        &&& data.sync_offset_ms == crate::ring::sync_offset(
            self.ring_buffer.video_start_instant,
            self.ring_buffer.audio_start_instant,
        )
        &&& data.duration.ns == self.ring_buffer.clip_end() - self.ring_buffer.clip_start()
    }

    fn refuse(&self, message: String) -> (r: Notice)
        ensures
            r.tells(NotificationEvent::SaveError, message@, self),
    {
        Notice {
            event: NotificationEvent::SaveError,
            content: message,
            reaction: NotificationManager::process_event(
                NotificationEvent::SaveError,
                self.notification_settings,
            ),
        }
    }

    /// Judges whether a clip of this predicted size may join the clips that are there. If
    /// not, the user hears of it.
    pub fn check_limits(&self, predicted_bytes: u64, clip_sizes_mb: &Vec<u64>) -> (r: Option<
        Notice,
    >)
        requires
            total(clip_sizes_mb@) + predicted_bytes as int / BYTES_PER_MB as int <= u64::MAX,
            clip_sizes_mb@.len() < usize::MAX,
        ensures
            match (limit_refusal(self.output_config.limit, predicted_bytes, clip_sizes_mb@), r) {
                (Some(why), Some(notice)) => notice.tells(NotificationEvent::SaveError, why, self),
                (None, None) => true,
                _ => false,
            },
    {
        let limit: LimitSettings = self.output_config.limit;
        let predicted_mb: u64 = predicted_bytes / BYTES_PER_MB;
        let total_mb: u64 = sum_of(clip_sizes_mb);
        if limit.max_size_mb != 0 && total_mb + predicted_mb > limit.max_size_mb {
            let head: String = cat(
                "Cannot save clip: Predicted size (",
                decimal_text(predicted_mb).as_str(),
            );
            let middle: String = cat(
                cat(head.as_str(), " MB) exceeds user limit (").as_str(),
                decimal_text(limit.max_size_mb).as_str(),
            );
            return Some(self.refuse(cat(middle.as_str(), " MB).")));
        }
        if limit.max_clips != 0 && (clip_sizes_mb.len() + 1) as u64 > limit.max_clips {
            let head: String = cat(
                "Cannot save clip: Total clip number exceeds user limit (",
                decimal_text(limit.max_clips).as_str(),
            );
            return Some(self.refuse(cat(head.as_str(), " clips).")));
        }
        None
    }

    /// Makes the daemon save, unless it does already. Tells whether it did not.
    pub fn claim_save(&mut self) -> (r: bool)
        ensures
            r == !(old(self).status is Saving),
            final(self).status is Saving,
            final(self).same_but_status(old(self)),
    {
        if self.status == DaemonStatus::Saving {
            return false;
        }
        self.status = DaemonStatus::Saving;
        true
    }

    /// Whether `self` is `before` after the saving of a clip ended with this result.
    pub open spec fn save_ended(
        &self,
        before: &DaemonCore,
        result: Result<(), String>,
        clip_name: Seq<char>,
        notice: Notice,
    ) -> bool {
        &&& self.same_but_status(before)
        &&& match result {
            Ok(_) => self.status is Active && notice.tells(
                NotificationEvent::SaveSuccess,
                clip_name,
                before,
            ),
            Err(e) => self.status is Failed && notice.tells(
                NotificationEvent::SaveError,
                e@,
                before,
            ),
        }
    }

    /// Ends the saving of a clip, and tells what the user hears of it: the name of the clip,
    /// or the error.
    pub fn finish_save(&mut self, result: Result<(), String>, clip_name: String) -> (r: Notice)
        ensures
            final(self).save_ended(old(self), result, clip_name@, r),
    {
        match result {
            Ok(_) => {
                let reaction: Reaction = NotificationManager::process_event(
                    NotificationEvent::SaveSuccess,
                    self.notification_settings,
                );
                self.status = DaemonStatus::Active;
                Notice { event: NotificationEvent::SaveSuccess, content: clip_name, reaction }
            },
            Err(e) => {
                let r: Notice = self.refuse(e);
                self.status = DaemonStatus::Failed;
                r
            },
        }
    }
}

/// A moment of the day, as the wall shows it: seconds since 1970 in universal time, the
/// nanoseconds of the second, and the seconds by which local time is ahead.
#[derive(Clone, Copy, Debug, PartialEq, Eq, Structural)]
pub struct LocalTime {
    /// The seconds.
    pub seconds: i64,
    /// The nanoseconds; more than a second's worth in a leap second.
    pub nanos: u32,
    /// The seconds ahead.
    pub offset: i32,
}

/// Calls `chrono::Local::now`. Local time is less than a day ahead or behind, and a second
/// has less than two seconds' worth of nanoseconds even when it leaps; which time it is, the
/// machine decides. A clock that is set before 1970 stops the program.
#[verifier::external_body]
pub(crate) fn local_now() -> (r: LocalTime)
    ensures
        r.nanos < 2_000_000_000,
        -86_400 < r.offset < 86_400,
{
    let now = chrono::Local::now();
    LocalTime {
        seconds: now.timestamp(),
        nanos: now.timestamp_subsec_nanos(),
        offset: now.offset().local_minus_utc(),
    }
}

/// The text that `chrono::DateTime::format` makes of a time by a pattern; none where the
/// pattern is wrong or the time out of range.
pub uninterp spec fn formatted_time(
    seconds: i64,
    nanos: u32,
    offset: i32,
    pattern: Seq<char>,
) -> Option<Seq<char>>;

/// Calls `chrono::DateTime::format` on a time with a fixed offset, and writes the result
/// out. Which text comes of a time and a pattern is named, not described.
#[verifier::external_body]
pub(crate) fn format_time(time: LocalTime, pattern: &str) -> (r: Option<String>)
    ensures
        crate::text::text_option(r) == formatted_time(
            time.seconds,
            time.nanos,
            time.offset,
            pattern@,
        ),
{
    let offset = chrono::FixedOffset::east_opt(time.offset)?;
    let utc = chrono::DateTime::from_timestamp(time.seconds, time.nanos)?;
    let mut text = String::new();
    utc.with_timezone(&offset).format(pattern).write_to(&mut text).ok()?;
    Some(text)
}

/// Names a clip that is saved at this time. None where the pattern of names is wrong.
pub fn name_clip_at(
    time: LocalTime,
    game_slug: Option<&str>,
    forced_name: Option<String>,
    output: &OutputSettings,
) -> (r: Option<ClipPaths>)
    ensures
        match (
            r,
            formatted_time(time.seconds, time.nanos, time.offset, output.name_format@),
        ) {
            (Some(paths), Some(formatted)) => names(
                paths,
                formatted,
                game_slug,
                forced_name,
                *output,
            ),
            (None, None) => true,
            _ => false,
        },
{
    match format_time(time, output.name_format.as_str()) {
        Some(formatted) => Some(clip_paths(formatted.as_str(), game_slug, forced_name, output)),
        None => None,
    }
}

/// Whether a clip is called so by this pattern with the time filled in.
pub open spec fn names(
    paths: ClipPaths,
    formatted: Seq<char>,
    game_slug: Option<&str>,
    forced_name: Option<String>,
    output: OutputSettings,
) -> bool {
    let stem = clip_stem(formatted, game_slug);
    &&& paths.parsed_name@ == stem
    &&& paths.clip_name@ == match forced_name {
        Some(n) => n@,
        None => stem + "."@ + output.video_format.extension@,
    }
    &&& paths.clip@ == crate::paths::joined(output.clip_directory@, paths.clip_name@)
    &&& paths.preview@ == crate::paths::joined(
        output.preview_directory@,
        stem + ".preview.mkv"@,
    )
    &&& paths.metadata@ == crate::paths::joined(output.clip_directory@, stem + ".json"@)
}

/// Names a clip that is saved now. None where the pattern of names is wrong.
pub fn name_clip(
    game_slug: Option<&str>,
    forced_name: Option<String>,
    output: &OutputSettings,
) -> (r: Option<ClipPaths>)
    ensures
        match r {
            Some(paths) => exists|time: LocalTime| -86_400 < time.offset < 86_400 && (
            #[trigger] formatted_time(
                time.seconds,
                time.nanos,
                time.offset,
                output.name_format@,
            ) matches Some(formatted) && names(
                paths,
                formatted,
                game_slug,
                forced_name,
                *output,
            )),
            None => exists|time: LocalTime| -86_400 < time.offset < 86_400 && (
            #[trigger] formatted_time(
                time.seconds,
                time.nanos,
                time.offset,
                output.name_format@,
            )) is None,
        },
{
    let time: LocalTime = local_now();
    name_clip_at(time, game_slug, forced_name, output)
}

/// A limit of zero bounds nothing.
pub proof fn law_zero_means_unbounded(
    limit: LimitSettings,
    predicted_bytes: u64,
    clip_sizes_mb: Seq<u64>,
)
    ensures
        limit.max_size_mb == 0 && limit.max_clips == 0 ==> limit_refusal(
            limit,
            predicted_bytes,
            clip_sizes_mb,
        ) is None,
{
}

/// A clip that is let through keeps all clips together within both limits.
pub proof fn law_limits_hold_after_a_save(
    limit: LimitSettings,
    predicted_bytes: u64,
    clip_sizes_mb: Seq<u64>,
)
    requires
        limit_refusal(limit, predicted_bytes, clip_sizes_mb) is None,
    ensures
        limit.max_size_mb != 0 ==> total(
            clip_sizes_mb.push((predicted_bytes / BYTES_PER_MB) as u64),
        ) <= limit.max_size_mb,
        limit.max_clips != 0 ==> clip_sizes_mb.push(
            (predicted_bytes / BYTES_PER_MB) as u64,
        ).len() <= limit.max_clips,
{
    let more = clip_sizes_mb.push((predicted_bytes / BYTES_PER_MB) as u64);
    assert(more.drop_last() =~= clip_sizes_mb);
}

/// A clip is refused exactly when a limit that is set would be broken: each limit of zero
/// bounds nothing on its own, whatever the other one is, and the size is told before the
/// number.
pub proof fn law_refused_only_for_a_broken_limit(
    limit: LimitSettings,
    predicted_bytes: u64,
    clip_sizes_mb: Seq<u64>,
)
    ensures
        ({
            let size_holds = limit.max_size_mb == 0 || total(clip_sizes_mb) + predicted_bytes as nat
                / 1_000_000 <= limit.max_size_mb;
            let number_holds = limit.max_clips == 0 || clip_sizes_mb.len() + 1 <= limit.max_clips;
            let refusal = limit_refusal(limit, predicted_bytes, clip_sizes_mb);
            &&& refusal is None <==> size_holds && number_holds
            &&& !size_holds ==> refusal == Some(
                too_large_words(predicted_bytes as nat / 1_000_000, limit),
            )
            &&& size_holds && !number_holds ==> refusal == Some(too_many_words(limit))
        }),
{
}

/// A larger clip or one more clip never turns a refusal into a permission.
pub proof fn law_refusals_are_monotone(
    limit: LimitSettings,
    predicted_bytes: u64,
    more_bytes: u64,
    clip_sizes_mb: Seq<u64>,
    one_more: u64,
)
    requires
        predicted_bytes <= more_bytes,
        limit_refusal(limit, predicted_bytes, clip_sizes_mb) is Some,
    ensures
        limit_refusal(limit, more_bytes, clip_sizes_mb) is Some,
        limit_refusal(limit, predicted_bytes, clip_sizes_mb.push(one_more)) is Some,
{
    law_total_is_the_sum(clip_sizes_mb, seq![one_more]);
    assert(clip_sizes_mb + seq![one_more] =~= clip_sizes_mb.push(one_more));
    assert(predicted_bytes as nat / 1_000_000 <= more_bytes as nat / 1_000_000) by {
        vstd::arithmetic::div_mod::lemma_div_is_ordered(
            predicted_bytes as int,
            more_bytes as int,
            1_000_000,
        );
    }
}

/// The size of all clips is the sum of their sizes: that of none is zero, that of one is its
/// own, and those of two groups add up.
pub proof fn law_total_is_the_sum(a: Seq<u64>, b: Seq<u64>)
    ensures
        total(Seq::<u64>::empty()) == 0,
        a.len() == 1 ==> total(a) == a[0],
        total(a + b) == total(a) + total(b),
    decreases b.len(),
{
    if a.len() == 1 {
        assert(a.drop_last() =~= Seq::<u64>::empty());
        assert(total(a.drop_last()) == 0);
        assert(a.last() == a[0]);
    }
    if b.len() > 0 {
        law_total_is_the_sum(a, b.drop_last());
        assert((a + b).drop_last() =~= a + b.drop_last());
    } else {
        assert(a + b =~= a);
    }
}

/// The bytes of frames are the sum of the bytes of each.
pub proof fn law_frame_bytes_are_the_sum(a: Seq<EncodedFrame>, b: Seq<EncodedFrame>)
    ensures
        frame_bytes(Seq::<EncodedFrame>::empty()) == 0,
        a.len() == 1 ==> frame_bytes(a) == a[0].data.size,
        frame_bytes(a + b) == frame_bytes(a) + frame_bytes(b),
    decreases b.len(),
{
    if a.len() == 1 {
        assert(a.drop_last() =~= Seq::<EncodedFrame>::empty());
        assert(frame_bytes(a.drop_last()) == 0);
        assert(a.last() == a[0]);
    }
    if b.len() > 0 {
        law_frame_bytes_are_the_sum(a, b.drop_last());
        assert((a + b).drop_last() =~= a + b.drop_last());
    } else {
        assert(a + b =~= a);
    }
}

/// In the name of a clip the game stands where the pattern has `{game}`, or the desktop where
/// no game counts; the rest of the pattern is kept.
pub proof fn law_game_stands_in_the_name(a: Seq<char>, b: Seq<char>, game_slug: Option<&str>)
    requires
        !a.contains('{'),
        !b.contains('{'),
    ensures
        clip_stem(a + "{game}"@ + b, game_slug) == a + (match game_slug {
            Some(slug) => slug@,
            None => "desktop"@,
        }) + b,
        clip_stem(a, game_slug) == a,
{
    reveal_strlit("{game}");
    let to = match game_slug {
        Some(slug) => slug@,
        None => "desktop"@,
    };
    crate::text::law_replaces_where_it_stands(a, "{game}"@, b, to);
    crate::text::law_nothing_to_replace(b, "{game}"@, to);
    crate::text::law_nothing_to_replace(a, "{game}"@, to);
}

/// The files of a clip belong together: the clip is called by its own name with the extension
/// of its container unless a name was asked for, its preview and its description by the own
/// name in any case, the preview in the directory of previews and the others in that of clips.
pub proof fn law_files_of_a_clip_belong_together(
    paths: ClipPaths,
    formatted: Seq<char>,
    game_slug: Option<&str>,
    forced_name: Option<String>,
    output: OutputSettings,
)
    requires
        names(paths, formatted, game_slug, forced_name, output),
    ensures
        forced_name is None ==> paths.clip_name@ == paths.parsed_name@ + "."@
            + output.video_format.extension@,
        forced_name matches Some(n) ==> paths.clip_name@ == n@,
        paths.clip@ == crate::paths::joined(output.clip_directory@, paths.clip_name@),
        paths.metadata@ == crate::paths::joined(
            output.clip_directory@,
            paths.parsed_name@ + ".json"@,
        ),
        paths.preview@ == crate::paths::joined(
            output.preview_directory@,
            paths.parsed_name@ + ".preview.mkv"@,
        ),
        !formatted.contains('{') ==> paths.parsed_name@ == formatted,
{
    if !formatted.contains('{') {
        law_game_stands_in_the_name(formatted, Seq::empty(), game_slug);
    }
}

/// A refusal tells the numbers that it rests on, whole.
pub proof fn law_refusals_tell_their_numbers(frames: nat, predicted_mb: nat, limit: LimitSettings)
    ensures
        crate::text::has_text(
            too_few_words(frames),
            crate::text::decimal(frames) + "/"@ + crate::text::decimal(100),
        ),
        crate::text::has_text(
            too_large_words(predicted_mb, limit),
            crate::text::decimal(predicted_mb),
        ),
        crate::text::has_text(
            too_large_words(predicted_mb, limit),
            crate::text::decimal(limit.max_size_mb as nat),
        ),
        crate::text::has_text(
            too_many_words(limit),
            crate::text::decimal(limit.max_clips as nat),
        ),
{
    let count = crate::text::decimal(frames) + "/"@ + crate::text::decimal(100);
    let few = "Cannot save clip: Not enough frames in buffer yet ("@;
    let lagging = " frames). Stream might be lagging."@;
    crate::text::law_text_is_found_where_it_stands(few, count, lagging);
    assert(too_few_words(frames) =~= few + count + lagging);
    let size = crate::text::decimal(predicted_mb);
    let most = crate::text::decimal(limit.max_size_mb as nat);
    let large = "Cannot save clip: Predicted size ("@;
    let exceeds = " MB) exceeds user limit ("@;
    crate::text::law_text_is_found_where_it_stands(large, size, exceeds + most + " MB)."@);
    assert(too_large_words(predicted_mb, limit) =~= large + size + (exceeds + most + " MB)."@));
    crate::text::law_text_is_found_where_it_stands(large + size + exceeds, most, " MB)."@);
    crate::text::law_text_is_found_where_it_stands(
        "Cannot save clip: Total clip number exceeds user limit ("@,
        crate::text::decimal(limit.max_clips as nat),
        " clips)."@,
    );
}

/// What is saved is what the ring buffer holds of the last seconds: its formats, its pictures
/// from a keyframe on, the sound round them, how far the sound lags, and how long it is.
pub proof fn law_saved_data_is_the_recorded_past(core: DaemonCore, data: SaveData)
    requires
        core.is_snapshot(data),
    ensures
        core.ring_buffer.video_caps == Some(data.video_caps),
        core.ring_buffer.audio_caps == data.audio_caps,
        data.video_frames@ == crate::ring::clip_video(core.ring_buffer.video_frames@),
        data.audio_frames@ == core.ring_buffer.clip_audio(),
        core.ring_buffer.video_start_instant is None || core.ring_buffer.audio_start_instant is None
            ==> data.sync_offset_ms == 0,
        core.ring_buffer.video_start_instant is Some && core.ring_buffer.audio_start_instant is Some
            ==> -1_000_000 < data.sync_offset_ms * 1_000_000 - (
        core.ring_buffer.audio_start_instant.unwrap().ns
            - core.ring_buffer.video_start_instant.unwrap().ns) < 1_000_000,
        core.ring_buffer.clip_start() + data.duration.ns == core.ring_buffer.clip_end(),
{
    crate::ring::law_sync_offset_is_the_distance(
        core.ring_buffer.video_start_instant,
        core.ring_buffer.audio_start_instant,
    );
}

/// A notice tells its content and what the settings make of its event, and nothing else: two
/// notices of one event and one content look the same.
pub proof fn law_notice_follows_the_settings(
    notice: Notice,
    other: Notice,
    event: NotificationEvent,
    content: Seq<char>,
    core: DaemonCore,
)
    requires
        notice.tells(event, content, &core),
        other.tells(event, content, &core),
    ensures
        notice.event == event,
        notice.content@ == content,
        notice.reaction == NotificationManager::reaction(event, core.notification_settings),
        notice.content@ == other.content@ && notice.reaction == other.reaction,
{
}

/// A clip is made ready exactly where none is being saved, the format of the video is known and a
/// hundred video frames are there; a few frames are refused with a message, none is an error.
pub proof fn law_save_needs_a_hundred_frames(core: DaemonCore, r: Result<SaveStart, WayclipError>)
    requires
        core.save_begins(r),
    ensures
        ({
            let free = !(core.status is Saving);
            let known = core.ring_buffer.video_caps is Some;
            let frames = core.ring_buffer.video_frames@.len();
            &&& (r matches Ok(SaveStart::Busy)) <==> !free
            &&& (r matches Ok(SaveStart::Ready(_, _))) <==> free && known && frames >= 100
            &&& (r matches Ok(SaveStart::Refused(_))) <==> free && known && 0 < frames < 100
            &&& r is Err <==> free && (!known || frames == 0)
            &&& r matches Ok(SaveStart::Ready(data, first)) ==> core.is_snapshot(data) && first
                == core.ring_buffer.video_first_pts
            &&& r matches Ok(SaveStart::Refused(notice)) ==> notice.event is SaveError
                && crate::text::has_text(notice.content@, crate::text::decimal(frames))
        }),
{
    let frames = core.ring_buffer.video_frames@.len();
    let few = "Cannot save clip: Not enough frames in buffer yet ("@;
    let count = crate::text::decimal(frames);
    let rest = "/"@ + crate::text::decimal(100) + " frames). Stream might be lagging."@;
    crate::text::law_text_is_found_where_it_stands(few, count, rest);
    assert(too_few_words(frames) =~= few + count + rest);
}

/// A clip that was saved is announced by its name and leaves the daemon recording; one that was
/// not is announced by the error and leaves it failed. Nothing else of the daemon changes.
pub proof fn law_end_of_a_save_is_told(
    before: DaemonCore,
    after: DaemonCore,
    result: Result<(), String>,
    clip_name: Seq<char>,
    notice: Notice,
)
    requires
        after.save_ended(&before, result, clip_name, notice),
    ensures
        result is Ok ==> after.status is Active && notice.event is SaveSuccess && notice.content@
            == clip_name,
        result matches Err(e) ==> after.status is Failed && notice.event is SaveError
            && notice.content@ == e@,
        after.generation == before.generation,
        after.ring_buffer == before.ring_buffer,
        after.has_pipeline == before.has_pipeline,
        after.discovery == before.discovery,
        after.output_config == before.output_config,
        after.notification_settings == before.notification_settings,
{
}

} // verus!
