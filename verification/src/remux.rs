//! Writing a clip and its preview: which elements do it, at which times the frames are
//! played, and when the work is done.

use crate::clock::{ClockTime, MAX_TIME_NS, MSECOND_NS, SECOND_NS};
use crate::error::WayclipError;
use crate::pipeline::{CapsPlan, Chain, Element};
use crate::ring::{Caps, CapsStructure, EncodedFrame, Payload, SaveData};
use crate::settings::{ContainerType, StreamParsers, VideoFormat};
use crate::text::{cat, starts_with};
use vstd::prelude::*;

verus! {

/// The width of a preview in pixels.
pub const DEFAULT_PREVIEW_WIDTH: i32 = 480;

/// The bit rate of a preview in kilobits per second.
pub const DEFAULT_PREVIEW_BITRATE: u32 = 800;

/// The length of a preview in seconds.
pub const DEFAULT_PREVIEW_CLIP_LENGTH: u64 = 5;

/// The seconds of silence after which saving is given up.
pub const DEFAULT_VIDEO_SAVE_TIMEOUT: u64 = 120;

/// The seconds of silence after which a preview is given up.
pub const DEFAULT_PREVIEW_TIMEOUT: u64 = 30;

/// The milliseconds between a clip and the work on its preview.
pub const DEFAULT_PREVIEW_DELAY_MS: u64 = 200;

/// A stream of a clip, with the element that parses it.
#[derive(Debug)]
pub enum RemuxStream {
    /// Pictures.
    Video {
        /// The parser.
        parser: String,
    },
    /// Sound.
    Audio {
        /// The parser.
        parser: String,
    },
    /// Nothing that a clip can hold.
    Skip,
}

/// What a [`RemuxStream`] says.
pub enum StreamView {
    /// Pictures.
    Video(Seq<char>),
    /// Sound.
    Audio(Seq<char>),
    /// Nothing that a clip can hold.
    Skip,
}

impl View for RemuxStream {
    type V = StreamView;

    open spec fn view(&self) -> StreamView {
        match self {
            RemuxStream::Video { parser } => StreamView::Video(parser@),
            RemuxStream::Audio { parser } => StreamView::Audio(parser@),
            RemuxStream::Skip => StreamView::Skip,
        }
    }
}

/// The stream of a format: told by how the media type begins, and for `audio/mpeg` by
/// the version, which is taken as the first where it is missing.
pub open spec fn stream_of(
    name: Seq<char>,
    mpegversion: Option<i32>,
    parsers: StreamParsers,
) -> StreamView {
    if crate::text::begins_with(name, "video/x-h264"@) {
        StreamView::Video(parsers.h264@)
    } else if crate::text::begins_with(name, "video/x-h265"@) {
        StreamView::Video(parsers.h265@)
    } else if crate::text::begins_with(name, "video/x-av1"@) {
        StreamView::Video(parsers.av1@)
    } else if crate::text::begins_with(name, "audio/x-opus"@) {
        StreamView::Audio(parsers.opus@)
    } else if crate::text::begins_with(name, "audio/mpeg"@) {
        if mpegversion == Some(2i32) || mpegversion == Some(4i32) {
            StreamView::Audio(parsers.aac@)
        } else {
            StreamView::Audio(parsers.mp3@)
        }
    } else {
        StreamView::Skip
    }
}

impl RemuxStream {
    /// The stream of a format.
    pub fn from_caps(structure: &CapsStructure, parsers: &StreamParsers) -> (r: RemuxStream)
        ensures
            r@ == stream_of(structure.name@, structure.mpegversion, *parsers),
    {
        let name: &str = structure.name.as_str();
        if starts_with(name, "video/x-h264") {
            RemuxStream::Video { parser: parsers.h264.clone() }
        } else if starts_with(name, "video/x-h265") {
            RemuxStream::Video { parser: parsers.h265.clone() }
        } else if starts_with(name, "video/x-av1") {
            RemuxStream::Video { parser: parsers.av1.clone() }
        } else if starts_with(name, "audio/x-opus") {
            RemuxStream::Audio { parser: parsers.opus.clone() }
        } else if starts_with(name, "audio/mpeg") {
            let version: i32 = match structure.mpegversion {
                Some(v) => v,
                None => 1,
            };
            if version == 2 || version == 4 {
                RemuxStream::Audio { parser: parsers.aac.clone() }
            } else {
                RemuxStream::Audio { parser: parsers.mp3.clone() }
            }
        } else {
            RemuxStream::Skip
        }
    }

    /// The kind of input that is asked of the container for this stream.
    pub open spec fn template(&self, format: VideoFormat) -> Seq<char> {
        if format.container is MPEGTS {
            "sink_%d"@
        } else if self is Video {
            "video_%u"@
        } else {
            "audio_%u"@
        }
    }

    /// The kind of input that is asked of the container for this stream.
    pub fn pad_template(&self, format: &VideoFormat) -> (r: &str)
        requires
            !(self is Skip) || format.container is MPEGTS,
        ensures
            r@ == self.template(*format),
    {
        match format.container {
            ContainerType::MPEGTS => "sink_%d",
            _ => match self {
                RemuxStream::Video { .. } => "video_%u",
                _ => "audio_%u",
            },
        }
    }

    /// The element that parses this stream.
    pub fn parser_name(&self) -> (r: &str)
        requires
            !(self is Skip),
        ensures
            self@ == StreamView::Video(r@) || self@ == StreamView::Audio(r@),
    {
        match self {
            RemuxStream::Video { parser } => parser.as_str(),
            RemuxStream::Audio { parser } => parser.as_str(),
            RemuxStream::Skip => "",
        }
    }
}

/// A frame with the times at which it is played in the clip.
#[derive(Clone, Copy, Debug)]
pub struct TimedFrame {
    /// The encoded data.
    pub data: Payload,
    /// When the frame is shown.
    pub pts: ClockTime,
    /// When the frame is decoded.
    pub dts: Option<ClockTime>,
    /// For how long it is shown.
    pub duration: Option<ClockTime>,
    /// Whether it needs the frames before it.
    pub delta_unit: bool,
}

/// Whether a stream can be moved by this many milliseconds.
pub open spec fn movable(offset_ms: int) -> bool {
    -(u64::MAX as int) <= offset_ms * MSECOND_NS <= u64::MAX
}

/// A time of the recording as a time of the clip: counted from `base`, then moved by the
/// offset, and never before the start.
pub open spec fn clip_time(t: ClockTime, base: ClockTime, offset_ms: int) -> int {
    let from_base = crate::clock::minus_floor(t.ns as int, base.ns as int);
    if offset_ms >= 0 {
        crate::clock::smaller(from_base + offset_ms * MSECOND_NS, MAX_TIME_NS as int)
    } else {
        crate::clock::minus_floor(from_base, -offset_ms * MSECOND_NS)
    }
}

/// A frame of the recording as a frame of the clip.
pub open spec fn clip_frame(f: EncodedFrame, base: ClockTime, offset_ms: int) -> TimedFrame {
    TimedFrame {
        data: f.data,
        pts: ClockTime { ns: clip_time(f.pts, base, offset_ms) as u64 },
        dts: match f.dts {
            Some(dts) => Some(ClockTime { ns: clip_time(dts, base, offset_ms) as u64 }),
            None => None,
        },
        duration: f.duration,
        delta_unit: !f.is_keyframe,
    }
}

/// The frames of the recording as frames of the clip.
pub open spec fn clip_frames(frames: Seq<EncodedFrame>, base: ClockTime, offset_ms: int) -> Seq<
    TimedFrame,
> {
    frames.map_values(|f: EncodedFrame| clip_frame(f, base, offset_ms))
}

/// The time of the first frame, or the start where there is none.
pub open spec fn base_time(frames: Seq<EncodedFrame>) -> ClockTime {
    if frames.len() == 0 {
        ClockTime { ns: 0 }
    } else {
        frames[0].pts
    }
}

fn move_time(t: ClockTime, base: ClockTime, offset_ms: i64) -> (r: ClockTime)
    requires
        movable(offset_ms as int),
    ensures
        r.ns == clip_time(t, base, offset_ms as int),
{
    let from_base: ClockTime = match t.checked_sub(base) {
        Some(d) => d,
        None => ClockTime::zero(),
    };
    if offset_ms >= 0 {
        from_base.saturating_add(ClockTime::from_mseconds(offset_ms as u64))
    } else {
        from_base.saturating_sub(ClockTime::from_mseconds((-offset_ms) as u64))
    }
}

/// One stream of a clip on its way into the container.
#[derive(Debug)]
pub struct RemuxBranch {
    /// The element into which the frames are put.
    pub source: Element,
    /// The format of the frames.
    pub caps_text: String,
    /// Whether the kinds of memory are taken out of the format.
    pub any_memory: bool,
    /// The element that parses the stream.
    pub parser: Element,
    /// The kind of input that is asked of the container.
    pub pad_template: String,
    /// The frames.
    pub frames: Vec<TimedFrame>,
}

impl RemuxBranch {
    /// Whether this is the branch of a stream with these properties.
    pub open spec fn carries(
        &self,
        source: Seq<char>,
        parser: Seq<char>,
        caps: Caps,
        any_memory: bool,
        stream: StreamView,
        format: VideoFormat,
        frames: Seq<EncodedFrame>,
        offset_ms: int,
    ) -> bool {
        &&& self.source@ == app_source(source)
        &&& self.caps_text@ == caps.text@
        &&& self.any_memory == any_memory
        &&& stream matches StreamView::Video(p) ==> {
            &&& self.parser@ == crate::pipeline::element(p, parser)
            &&& self.pad_template@ == if format.container is MPEGTS {
                "sink_%d"@
            } else {
                "video_%u"@
            }
        }
        &&& stream matches StreamView::Audio(p) ==> {
            &&& self.parser@ == crate::pipeline::element(p, parser)
            &&& self.pad_template@ == if format.container is MPEGTS {
                "sink_%d"@
            } else {
                "audio_%u"@
            }
        }
        &&& self.frames@ == clip_frames(frames, base_time(frames), offset_ms)
    }
}

/// An element into which frames with times are put.
pub open spec fn app_source(name: Seq<char>) -> crate::pipeline::ElementView {
    crate::pipeline::element("appsrc"@, name).with(
        "format"@,
        crate::pipeline::PropView::Parsed("time"@),
    ).with("is-live"@, crate::pipeline::PropView::Bool(false)).with(
        "do-timestamp"@,
        crate::pipeline::PropView::Bool(false),
    )
}

fn make_app_source(name: &str) -> (r: Element)
    ensures
        r@ == app_source(name@),
{
    Element::new("appsrc", name).with_parsed("format", "time").with_bool(
        "is-live",
        false,
    ).with_bool("do-timestamp", false)
}

/// An element that reads or writes the file of this path.
pub open spec fn file_element(
    factory: Seq<char>,
    name: Seq<char>,
    path: Seq<char>,
) -> crate::pipeline::ElementView {
    crate::pipeline::element(factory, name).with(
        "location"@,
        crate::pipeline::PropView::Text(path),
    )
}

/// The elements that write a clip.
#[derive(Debug)]
pub struct RemuxPlan {
    /// The container.
    pub mux: Element,
    /// The file, linked behind the container.
    pub file_sink: Element,
    /// The pictures.
    pub video: RemuxBranch,
    /// The sound, if there is any.
    pub audio: Option<RemuxBranch>,
}

impl RemuxPlan {
    /// Whether these elements write the clip of this data to the file of this path.
    pub open spec fn writes(
        &self,
        data: SaveData,
        format: VideoFormat,
        parsers: StreamParsers,
        path: Seq<char>,
    ) -> bool {
        &&& self.mux@ == crate::pipeline::element(format.mux@, "save_mux"@)
        &&& self.file_sink@ == file_element(
            "filesink"@,
            "save_filesink"@,
            path,
        )
        &&& self.video.carries(
            "video_appsrc"@,
            "save_video_parser"@,
            data.video_caps,
            true,
            caps_stream(data.video_caps, parsers).unwrap(),
            format,
            data.video_frames@,
            0,
        )
        &&& self.audio is Some <==> has_sound(data, parsers)
        &&& self.audio matches Some(branch) ==> branch.carries(
            "audio_appsrc"@,
            "save_audio_parser"@,
            data.audio_caps.unwrap(),
            false,
            caps_stream(data.audio_caps.unwrap(), parsers).unwrap(),
            format,
            data.audio_frames@,
            data.sync_offset_ms as int,
        )
    }
}

/// What a running pipeline reports.
#[derive(Debug)]
pub enum BusMessage {
    /// All is played.
    Eos,
    /// It failed, for this reason.
    Error(String),
    /// Something is odd, but it goes on.
    Warning,
    /// Something else.
    Other,
    /// Nothing for as long as was waited.
    Silence,
}

/// The stream of a format, which has one unless it is empty.
pub open spec fn caps_stream(caps: Caps, parsers: StreamParsers) -> Option<StreamView> {
    match caps.structure {
        Some(s) => Some(stream_of(s.name@, s.mpegversion, parsers)),
        None => None,
    }
}

/// Whether the clip gets a sound track.
pub open spec fn has_sound(data: SaveData, parsers: StreamParsers) -> bool {
    data.audio_frames@.len() > 0 && (data.audio_caps matches Some(caps) && !(caps_stream(
        caps,
        parsers,
    ) matches Some(StreamView::Skip)))
}

/// Why the clip cannot be written, if it cannot.
pub open spec fn remux_refusal(data: SaveData, parsers: StreamParsers) -> Option<Seq<char>> {
    if data.video_frames@.len() == 0 {
        Some("No video frames were captured!"@)
    } else {
        match caps_stream(data.video_caps, parsers) {
            None => Some("Video caps have no structure"@),
            Some(StreamView::Skip) => Some("Unrecognised video caps: "@ + data.video_caps.text@),
            Some(_) => match data.audio_caps {
                Some(caps) => if data.audio_frames@.len() > 0 && caps_stream(caps, parsers) is None {
                    Some("No structure"@)
                } else {
                    None
                },
                None => None,
            },
        }
    }
}

/// Writes clips and previews.
#[derive(Clone, Copy, Debug)]
pub struct RemuxHandler;

impl RemuxHandler {
    /// The frames of a stream with the times at which they are played in the clip.
    pub fn push_frames_to_appsrc(
        &self,
        frames: &Vec<EncodedFrame>,
        base_pts: ClockTime,
        sync_offset_ms: i64,
    ) -> (r: Vec<TimedFrame>)
        requires
            movable(sync_offset_ms as int),
        ensures
            r@ == clip_frames(frames@, base_pts, sync_offset_ms as int),
    {
        let mut r: Vec<TimedFrame> = Vec::new();
        let mut i: usize = 0;
        while i < frames.len()
            invariant
                movable(sync_offset_ms as int),
                i <= frames@.len(),
                r@ == clip_frames(frames@.take(i as int), base_pts, sync_offset_ms as int),
            decreases frames@.len() - i,
        {
            let f: EncodedFrame = frames[i];
            let dts: Option<ClockTime> = match f.dts {
                Some(t) => Some(move_time(t, base_pts, sync_offset_ms)),
                None => None,
            };
            r.push(
                TimedFrame {
                    data: f.data,
                    pts: move_time(f.pts, base_pts, sync_offset_ms),
                    dts,
                    duration: f.duration,
                    delta_unit: !f.is_keyframe,
                },
            );
            i = i + 1;
            assert(r@ =~= clip_frames(frames@.take(i as int), base_pts, sync_offset_ms as int));
        }
        assert(frames@.take(i as int) =~= frames@);
        r
    }

    fn first_pts(frames: &Vec<EncodedFrame>) -> (r: ClockTime)
        ensures
            r == base_time(frames@),
    {
        if frames.len() == 0 {
            ClockTime::zero()
        } else {
            frames[0].pts
        }
    }

    /// Plans the pipeline that writes a clip to the file of this path.
    pub fn run_remux_pipeline(
        &self,
        save_data: &SaveData,
        video_format: &VideoFormat,
        parsers: &StreamParsers,
        output_path: &str,
    ) -> (r: Result<RemuxPlan, WayclipError>)
        requires
            movable(save_data.sync_offset_ms as int),
        ensures
            match (remux_refusal(*save_data, *parsers), r) {
                (Some(why), Err(WayclipError::Remux(m))) => m@ == why,
                (None, Ok(plan)) => plan.writes(
                    *save_data,
                    *video_format,
                    *parsers,
                    output_path@,
                ),
                _ => false,
            },
    {
        if save_data.video_frames.len() == 0 {
            return Err(WayclipError::Remux("No video frames were captured!".to_owned()));
        }
        let video_base_pts: ClockTime = RemuxHandler::first_pts(&save_data.video_frames);
        let audio_base_pts: ClockTime = RemuxHandler::first_pts(&save_data.audio_frames);
        let video_stream: RemuxStream = match &save_data.video_caps.structure {
            Some(structure) => RemuxStream::from_caps(structure, parsers),
            None => {
                return Err(WayclipError::Remux("Video caps have no structure".to_owned()));
            },
        };
        if matches!(video_stream, RemuxStream::Skip) {
            return Err(
                WayclipError::Remux(
                    cat("Unrecognised video caps: ", save_data.video_caps.text.as_str()),
                ),
            );
        }
        let mux: Element = Element::new(video_format.mux.as_str(), "save_mux");
        let file_sink: Element = Element::new("filesink", "save_filesink").with_text(
            "location",
            output_path,
        );
        let video: RemuxBranch = RemuxBranch {
            source: make_app_source("video_appsrc"),
            caps_text: save_data.video_caps.text.clone(),
            any_memory: true,
            parser: Element::new(video_stream.parser_name(), "save_video_parser"),
            pad_template: video_stream.pad_template(video_format).to_owned(),
            frames: self.push_frames_to_appsrc(&save_data.video_frames, video_base_pts, 0),
        };
        let audio: Option<RemuxBranch> = if save_data.audio_frames.len() == 0 {
            None
        } else {
            match &save_data.audio_caps {
                Some(caps) => {
                    let stream: RemuxStream = match &caps.structure {
                        Some(structure) => RemuxStream::from_caps(structure, parsers),
                        None => {
                            return Err(WayclipError::Remux("No structure".to_owned()));
                        },
                    };
                    if matches!(stream, RemuxStream::Skip) {
                        None
                    } else {
                        Some(
                            RemuxBranch {
                                source: make_app_source("audio_appsrc"),
                                caps_text: caps.text.clone(),
                                any_memory: false,
                                parser: Element::new(stream.parser_name(), "save_audio_parser"),
                                pad_template: stream.pad_template(video_format).to_owned(),
                                frames: self.push_frames_to_appsrc(
                                    &save_data.audio_frames,
                                    audio_base_pts,
                                    save_data.sync_offset_ms,
                                ),
                            },
                        )
                    }
                },
                None => None,
            }
        };
        Ok(RemuxPlan { mux, file_sink, video, audio })
    }

    /// What a report of the pipeline that writes a clip means: the end of the work, or
    /// that it goes on.
    pub fn save_progress(message: &BusMessage) -> (r: Option<Result<(), WayclipError>>)
        ensures
            match (message, r) {
                (BusMessage::Eos, Some(Ok(_))) => true,
                (BusMessage::Error(e), Some(Err(WayclipError::Remux(m)))) => m@
                    == "Save pipeline error: "@ + e@,
                (BusMessage::Silence, Some(Err(WayclipError::Remux(m)))) => m@
                    == "Save pipeline timed out after 120s"@,
                (BusMessage::Warning, None) => true,
                (BusMessage::Other, None) => true,
                _ => false,
            },
    {
        match message {
            BusMessage::Eos => Some(Ok(())),
            BusMessage::Error(e) => Some(
                Err(WayclipError::Remux(cat("Save pipeline error: ", e.as_str()))),
            ),
            BusMessage::Silence => Some(
                Err(WayclipError::Remux("Save pipeline timed out after 120s".to_owned())),
            ),
            _ => None,
        }
    }

    /// What a report of the pipeline that writes a preview means: the end of the work, or
    /// that it goes on.
    pub fn preview_progress(message: &BusMessage) -> (r: Option<Result<(), WayclipError>>)
        ensures
            match (message, r) {
                (BusMessage::Eos, Some(Ok(_))) => true,
                (BusMessage::Error(e), Some(Err(WayclipError::Remux(m)))) => m@
                    == "Preview error: "@ + e@,
                (BusMessage::Silence, Some(Err(WayclipError::Remux(m)))) => m@
                    == "Preview pipeline timed out"@,
                (BusMessage::Warning, None) => true,
                (BusMessage::Other, None) => true,
                _ => false,
            },
    {
        match message {
            BusMessage::Eos => Some(Ok(())),
            BusMessage::Error(e) => Some(
                Err(WayclipError::Remux(cat("Preview error: ", e.as_str()))),
            ),
            BusMessage::Silence => Some(
                Err(WayclipError::Remux("Preview pipeline timed out".to_owned())),
            ),
            _ => None,
        }
    }

    /// Why no preview is written when its pipeline does not start, given what the pipeline
    /// reported.
    pub fn preview_refused(messages: &Vec<BusMessage>) -> (r: WayclipError)
        ensures
            r matches WayclipError::Remux(m) && m@
                == "Pipeline failed to reach PLAYING state for preview: "@ + failure_reason(
                messages@,
            ),
    {
        WayclipError::Remux(
            cat(
                "Pipeline failed to reach PLAYING state for preview: ",
                first_failure(messages).as_str(),
            ),
        )
    }

    /// Plans the pipeline that writes a preview of the clip at `input_path`. The clip's
    /// own times count from `first_video_pts`.
    pub fn generate_preview(
        &self,
        input_exists: bool,
        input_path: &str,
        output_path: &str,
        first_video_pts: Option<ClockTime>,
    ) -> (r: Result<PreviewPlan, WayclipError>)
        ensures
            match (input_exists, first_video_pts, r) {
                (false, _, Err(WayclipError::Remux(m))) => m@ == "Preview file does not exist"@,
                (true, None, Err(WayclipError::Remux(m))) => m@
                    == "Failed to get first video pts"@,
                (true, Some(first), Ok(plan)) => plan.previews(input_path@, output_path@, first),
                _ => false,
            },
    {
        if !input_exists {
            return Err(WayclipError::Remux("Preview file does not exist".to_owned()));
        }
        let first: ClockTime = match first_video_pts {
            Some(t) => t,
            None => {
                return Err(WayclipError::Remux("Failed to get first video pts".to_owned()));
            },
        };
        let mut chain: Chain = Chain::new();
        chain.push(Element::new("videoconvert", "video_convert_1"));
        chain.push(Element::new("videoscale", "video_scale"));
        chain.push(Element::new("videoconvert", "video_convert_2"));
        chain.push(
            Element::unnamed("capsfilter").with_caps(
                CapsPlan::new("video/x-raw").number("width", DEFAULT_PREVIEW_WIDTH),
            ),
        );
        chain.push(
            Element::new("x264enc", "x264encoder").with_parsed("tune", "zerolatency").with_parsed(
                "speed-preset",
                "veryfast",
            ).with_uint("bitrate", DEFAULT_PREVIEW_BITRATE),
        );
        chain.push(Element::new("h264parse", "h264_parser"));
        assert(chain@ =~= preview_chain());
        Ok(
            PreviewPlan {
                file_src: Element::new("filesrc", "file_src").with_text("location", input_path),
                decode_bin: Element::new("decodebin", "decode_bin"),
                chain,
                mux: Element::new("matroskamux", "mux").with_bool("streamable", true),
                pad_template: "video_%u".to_owned(),
                file_sink: Element::new("filesink", "file_sink").with_text(
                    "location",
                    output_path,
                ),
                probe: PreviewProbe { first, eos_sent: false },
            },
        )
    }

    /// Whether a stream that the decoder found is taken into the preview: the first one
    /// with pictures. The format is that of the stream, once it is known.
    pub fn takes_pad(caps: Option<&Caps>, sink_linked: bool) -> (r: Result<bool, WayclipError>)
        ensures
            is_taken(caps, sink_linked, r),
    {
        match caps {
            None => Err(WayclipError::Remux("Pad has no current caps".to_owned())),
            Some(c) => match &c.structure {
                None => Err(WayclipError::Remux("Caps structure is empty".to_owned())),
                Some(s) => Ok(starts_with(s.name.as_str(), "video/") && !sink_linked),
            },
        }
    }
}

/// What brings the pictures of a clip to the form of a preview.
pub open spec fn preview_chain() -> Seq<crate::pipeline::ElementView> {
    seq![
        crate::pipeline::element("videoconvert"@, "video_convert_1"@),
        crate::pipeline::element("videoscale"@, "video_scale"@),
        crate::pipeline::element("videoconvert"@, "video_convert_2"@),
        crate::pipeline::unnamed("capsfilter"@).with(
            "caps"@,
            crate::pipeline::PropView::Caps(
                crate::pipeline::caps("video/x-raw"@).number("width"@, DEFAULT_PREVIEW_WIDTH),
            ),
        ),
        crate::pipeline::element("x264enc"@, "x264encoder"@).with(
            "tune"@,
            crate::pipeline::PropView::Parsed("zerolatency"@),
        ).with("speed-preset"@, crate::pipeline::PropView::Parsed("veryfast"@)).with(
            "bitrate"@,
            crate::pipeline::PropView::UInt(DEFAULT_PREVIEW_BITRATE),
        ),
        crate::pipeline::element("h264parse"@, "h264_parser"@),
    ]
}

/// The container of a preview.
pub open spec fn preview_mux() -> crate::pipeline::ElementView {
    crate::pipeline::element("matroskamux"@, "mux"@).with(
        "streamable"@,
        crate::pipeline::PropView::Bool(true),
    )
}

/// The elements that write a preview.
#[derive(Debug)]
pub struct PreviewPlan {
    /// The clip.
    pub file_src: Element,
    /// What decodes it, linked behind the clip.
    pub decode_bin: Element,
    /// What brings its pictures to the form of a preview.
    pub chain: Chain,
    /// The container.
    pub mux: Element,
    /// The kind of input that is asked of the container.
    pub pad_template: String,
    /// The file, linked behind the container.
    pub file_sink: Element,
    /// What ends the preview in time.
    pub probe: PreviewProbe,
}

impl PreviewPlan {
    /// Whether these elements write a preview of one file to another, counted from this time.
    pub open spec fn previews(
        &self,
        input_path: Seq<char>,
        output_path: Seq<char>,
        first: ClockTime,
    ) -> bool {
        &&& self.file_src@ == file_element("filesrc"@, "file_src"@, input_path)
        &&& self.decode_bin@ == crate::pipeline::element("decodebin"@, "decode_bin"@)
        &&& self.chain@ == preview_chain()
        &&& self.mux@ == preview_mux()
        &&& self.pad_template@ == "video_%u"@
        &&& self.file_sink@ == file_element("filesink"@, "file_sink"@, output_path)
        &&& self.probe == (PreviewProbe { first, eos_sent: false })
    }
}

/// Whether this is told of a stream that the decoder found: whether it is taken into the
/// preview, or why that cannot be told.
pub open spec fn is_taken(
    caps: Option<&Caps>,
    sink_linked: bool,
    r: Result<bool, WayclipError>,
) -> bool {
    match (caps, r) {
        (None, Err(WayclipError::Remux(m))) => m@ == "Pad has no current caps"@,
        (Some(c), Err(WayclipError::Remux(m))) => c.structure is None && m@
            == "Caps structure is empty"@,
        (Some(c), Ok(takes)) => c.structure matches Some(s) && takes == (crate::text::begins_with(
            s.name@,
            "video/"@,
        ) && !sink_linked),
        _ => false,
    }
}

/// What happens to a frame on its way into the preview.
#[derive(Clone, Copy, Debug, PartialEq, Eq, Structural)]
pub enum ProbeAction {
    /// It goes on.
    Pass,
    /// It is dropped.
    Drop,
    /// It is dropped, and the end of the stream is sent in its place.
    End,
}

/// What ends a preview in time.
#[derive(Clone, Copy, Debug, PartialEq, Eq, Structural)]
pub struct PreviewProbe {
    /// Where the times of the clip count from.
    pub first: ClockTime,
    /// Whether the end of the stream was sent.
    pub eos_sent: bool,
}

impl PreviewProbe {
    /// Whether a frame of this time lies beyond the preview.
    pub open spec fn beyond(self, pts: Option<ClockTime>) -> bool {
        let at = match pts {
            Some(t) => t.ns as int,
            None => 0,
        };
        crate::clock::minus_floor(at, self.first.ns as int) >= DEFAULT_PREVIEW_CLIP_LENGTH
            * SECOND_NS
    }

    /// What happens to what comes by: a frame with its time, if it has one, or something
    /// that is no frame.
    pub open spec fn verdict(self, frame: Option<Option<ClockTime>>) -> ProbeAction {
        if self.eos_sent {
            ProbeAction::Drop
        } else {
            match frame {
                Some(pts) => if self.beyond(pts) {
                    ProbeAction::End
                } else {
                    ProbeAction::Pass
                },
                None => ProbeAction::Pass,
            }
        }
    }

    /// The state after what came by.
    pub open spec fn after(self, frame: Option<Option<ClockTime>>) -> PreviewProbe {
        PreviewProbe { first: self.first, eos_sent: self.eos_sent || self.verdict(frame) is End }
    }

    /// Takes note of what comes by and tells what happens to it.
    pub fn on_buffer(&mut self, frame: Option<Option<ClockTime>>) -> (r: ProbeAction)
        ensures
            r == old(self).verdict(frame),
            *final(self) == old(self).after(frame),
    {
        if self.eos_sent {
            return ProbeAction::Drop;
        }
        match frame {
            Some(pts) => {
                let at: ClockTime = match pts {
                    Some(t) => t,
                    None => ClockTime::zero(),
                };
                let elapsed: ClockTime = match at.checked_sub(self.first) {
                    Some(d) => d,
                    None => ClockTime::zero(),
                };
                if elapsed.ns >= DEFAULT_PREVIEW_CLIP_LENGTH * SECOND_NS {
                    self.eos_sent = true;
                    return ProbeAction::End;
                }
                ProbeAction::Pass
            },
            None => ProbeAction::Pass,
        }
    }
}

/// The reason of the first failure among the reports of a pipeline.
pub open spec fn failure_reason(messages: Seq<BusMessage>) -> Seq<char>
    decreases messages.len(),
{
    if messages.len() == 0 {
        "unknown"@
    } else {
        match messages[0] {
            BusMessage::Error(e) => e@,
            _ => failure_reason(messages.drop_first()),
        }
    }
}

/// The reason of the first failure among the reports of a pipeline.
pub fn first_failure(messages: &Vec<BusMessage>) -> (r: String)
    ensures
        r@ == failure_reason(messages@),
{
    let mut i: usize = 0;
    assert(messages@.skip(0) =~= messages@);
    while i < messages.len()
        invariant
            i <= messages@.len(),
            failure_reason(messages@) == failure_reason(messages@.skip(i as int)),
        decreases messages@.len() - i,
    {
        if let BusMessage::Error(e) = &messages[i] {
            return e.clone();
        }
        assert(messages@.skip(i as int).drop_first() =~= messages@.skip(i + 1));
        i = i + 1;
    }
    "unknown".to_owned()
}

/// Every offset between two streams that the ring buffer reports can be applied.
pub proof fn law_sync_offset_is_movable(
    video: Option<crate::clock::Moment>,
    audio: Option<crate::clock::Moment>,
)
    ensures
        movable(crate::ring::sync_offset(video, audio)),
{
    if let (Some(v), Some(a)) = (video, audio) {
        let d: int = if a.ns >= v.ns {
            a.ns - v.ns
        } else {
            v.ns - a.ns
        };
        assert(0 <= (d / 1_000_000) * 1_000_000 <= d);
    }
}

/// A format that the recorder itself produces is never left out of a clip.
pub proof fn law_known_formats_are_kept(
    name: Seq<char>,
    mpegversion: Option<i32>,
    parsers: StreamParsers,
)
    ensures
        crate::text::begins_with(name, "video/x-h264"@) || crate::text::begins_with(
            name,
            "video/x-h265"@,
        ) || crate::text::begins_with(name, "video/x-av1"@) ==> stream_of(
            name,
            mpegversion,
            parsers,
        ) is Video,
        !(stream_of(name, mpegversion, parsers) is Video) && (crate::text::begins_with(
            name,
            "audio/x-opus"@,
        ) || crate::text::begins_with(name, "audio/mpeg"@)) ==> stream_of(
            name,
            mpegversion,
            parsers,
        ) is Audio,
{
}

/// The first frame of a stream is played at the start of the clip, moved by the offset
/// where that does not lie before the start.
pub proof fn law_first_frame_starts_the_clip(frames: Seq<EncodedFrame>, offset_ms: int)
    requires
        frames.len() > 0,
        movable(offset_ms),
    ensures
        clip_frames(frames, base_time(frames), offset_ms)[0].pts.ns == crate::clock::smaller(
            crate::clock::larger(offset_ms * MSECOND_NS, 0),
            MAX_TIME_NS as int,
        ),
{
}

/// Frames are played in the order of their times.
pub proof fn law_clip_keeps_order(a: ClockTime, b: ClockTime, base: ClockTime, offset_ms: int)
    requires
        a.ns <= b.ns,
    ensures
        clip_time(a, base, offset_ms) <= clip_time(b, base, offset_ms),
{
}

/// Frames that lie behind the first one keep their distance, where neither end of the
/// time scale cuts one off.
pub proof fn law_clip_keeps_distance(a: ClockTime, b: ClockTime, base: ClockTime, offset_ms: int)
    requires
        base.ns <= a.ns <= b.ns,
        a.ns - base.ns + offset_ms * MSECOND_NS >= 0,
        b.ns - base.ns + offset_ms * MSECOND_NS <= MAX_TIME_NS,
    ensures
        clip_time(b, base, offset_ms) - clip_time(a, base, offset_ms) == b.ns - a.ns,
{
}

/// Once the end of a preview was sent, nothing more goes into it, and no second end.
pub proof fn law_preview_ends_once(probe: PreviewProbe, frame: Option<Option<ClockTime>>)
    requires
        probe.eos_sent,
    ensures
        probe.verdict(frame) is Drop,
        probe.after(frame) == probe,
{
}

/// No frame that lies the length of a preview or more behind the first one goes into it.
pub proof fn law_preview_is_short(probe: PreviewProbe, pts: Option<ClockTime>)
    requires
        probe.verdict(Some(pts)) is Pass,
    ensures
        pts matches Some(t) ==> t.ns < probe.first.ns + DEFAULT_PREVIEW_CLIP_LENGTH * SECOND_NS,
{
}

/// In a clip every time counts from the start of the recording's stream and is moved by the
/// offset, decoding times as presentation times, where neither end of the time scale cuts it
/// off; data, duration and dependence stay what they were.
pub proof fn law_clip_moves_all_times_alike(
    frames: Seq<EncodedFrame>,
    base: ClockTime,
    offset_ms: int,
    i: int,
)
    requires
        0 <= i < frames.len(),
        base.ns <= frames[i].pts.ns,
        0 <= frames[i].pts.ns - base.ns + offset_ms * 1_000_000 < u64::MAX,
        frames[i].dts matches Some(dts) ==> base.ns <= dts.ns && 0 <= dts.ns - base.ns + offset_ms
            * 1_000_000 < u64::MAX,
    ensures
        ({
            let played = clip_frames(frames, base, offset_ms);
            &&& played.len() == frames.len()
            &&& played[i].pts.ns == frames[i].pts.ns - base.ns + offset_ms * 1_000_000
            &&& played[i].dts is Some <==> frames[i].dts is Some
            &&& frames[i].dts matches Some(dts) ==> {
                &&& played[i].dts.unwrap().ns == dts.ns - base.ns + offset_ms * 1_000_000
                &&& played[i].pts.ns - played[i].dts.unwrap().ns == frames[i].pts.ns - dts.ns
            }
            &&& played[i].data == frames[i].data
            &&& played[i].duration == frames[i].duration
            &&& played[i].delta_unit == !frames[i].is_keyframe
        }),
{
}

/// A time that would fall before the start of the clip is played at its start, and one that
/// would fall behind the end of the time scale at that end.
pub proof fn law_clip_times_are_cut_at_the_start(
    frames: Seq<EncodedFrame>,
    base: ClockTime,
    offset_ms: int,
    i: int,
)
    requires
        0 <= i < frames.len(),
        movable(offset_ms),
    ensures
        ({
            let played = clip_frames(frames, base, offset_ms)[i];
            let start = if offset_ms > 0 {
                crate::clock::smaller(offset_ms * 1_000_000, 18_446_744_073_709_551_614)
            } else {
                0
            };
            &&& frames[i].pts.ns <= base.ns ==> played.pts.ns == start
            &&& frames[i].dts matches Some(dts) ==> (dts.ns <= base.ns ==> played.dts == Some(
                ClockTime { ns: start as u64 },
            ))
            &&& offset_ms < 0 && frames[i].pts.ns - base.ns <= -offset_ms * 1_000_000
                ==> played.pts.ns == 0
            &&& frames[i].dts matches Some(dts) ==> (offset_ms < 0 && dts.ns - base.ns
                <= -offset_ms * 1_000_000 ==> played.dts == Some(ClockTime { ns: 0 }))
            &&& base.ns <= frames[i].pts.ns && frames[i].pts.ns - base.ns + offset_ms * 1_000_000
                >= 18_446_744_073_709_551_614 && offset_ms >= 0 ==> played.pts.ns
                == 18_446_744_073_709_551_614
        }),
{
}

/// The pictures of a clip are played from its start, and its sound follows them by the offset
/// between the two streams: each frame lies behind the first one of its stream as far as it
/// did in the recording.
pub proof fn law_clip_plays_in_sync(
    plan: RemuxPlan,
    data: SaveData,
    format: VideoFormat,
    parsers: StreamParsers,
    path: Seq<char>,
    i: int,
)
    requires
        plan.writes(data, format, parsers, path),
    ensures
        plan.video.frames@.len() == data.video_frames@.len(),
        0 <= i < data.video_frames@.len() && data.video_frames@[0].pts.ns
            <= data.video_frames@[i].pts.ns < u64::MAX ==> plan.video.frames@[i].pts.ns
            == data.video_frames@[i].pts.ns - data.video_frames@[0].pts.ns,
        0 <= i < data.video_frames@.len() ==> plan.video.frames@[i].data
            == data.video_frames@[i].data,
        plan.audio matches Some(audio) ==> {
            &&& audio.frames@.len() == data.audio_frames@.len()
            &&& 0 <= i < data.audio_frames@.len() && data.audio_frames@[0].pts.ns
                <= data.audio_frames@[i].pts.ns && 0 <= data.audio_frames@[i].pts.ns
                - data.audio_frames@[0].pts.ns + data.sync_offset_ms * 1_000_000 < u64::MAX
                ==> audio.frames@[i].pts.ns == data.audio_frames@[i].pts.ns
                - data.audio_frames@[0].pts.ns + data.sync_offset_ms * 1_000_000
            &&& 0 <= i < data.audio_frames@.len() ==> audio.frames@[i].data
                == data.audio_frames@[i].data
        },
{
}

/// The elements that write a clip are those of its formats: the container and the parsers that
/// the settings name, each stream at an input of its own kind, and the file at the given path.
pub proof fn law_clip_is_written_by_its_formats(
    plan: RemuxPlan,
    data: SaveData,
    format: VideoFormat,
    parsers: StreamParsers,
    path: Seq<char>,
)
    requires
        plan.writes(data, format, parsers, path),
        remux_refusal(data, parsers) is None,
    ensures
        plan.mux@.factory == format.mux@,
        plan.file_sink@.factory == "filesink"@,
        plan.file_sink@.properties.contains(
            ("location"@, crate::pipeline::PropView::Text(path)),
        ),
        plan.video.caps_text@ == data.video_caps.text@,
        caps_stream(data.video_caps, parsers) matches Some(StreamView::Video(p))
            ==> plan.video.parser@.factory == p && (!(format.container is MPEGTS)
            ==> plan.video.pad_template@ == "video_%u"@),
        plan.audio matches Some(audio) ==> {
            &&& data.audio_caps is Some && audio.caps_text@ == data.audio_caps.unwrap().text@
            &&& caps_stream(data.audio_caps.unwrap(), parsers) matches Some(StreamView::Audio(p))
                ==> (audio.parser@.factory == p && (!(format.container is MPEGTS)
                ==> audio.pad_template@ == "audio_%u"@))
        },
        format.container is MPEGTS ==> plan.video.pad_template@ == "sink_%d"@ && (
        plan.audio matches Some(audio) ==> audio.pad_template@ == "sink_%d"@),
        data.audio_frames@.len() == 0 || data.audio_caps is None ==> plan.audio is None,
        data.audio_frames@.len() > 0 && data.audio_caps is Some ==> (plan.audio is None <==> (
        caps_stream(data.audio_caps.unwrap(), parsers) == Some(StreamView::Skip))),
        plan.video.any_memory,
        plan.audio matches Some(audio) ==> !audio.any_memory,
        plan.video.source@.factory == "appsrc"@,
        plan.video.source@.properties.contains(
            ("do-timestamp"@, crate::pipeline::PropView::Bool(false)),
        ),
        plan.video.source@.properties.contains(
            ("format"@, crate::pipeline::PropView::Parsed("time"@)),
        ),
        plan.audio matches Some(audio) ==> audio.source@.factory == "appsrc"@
            && audio.source@.properties == plan.video.source@.properties && audio.source@.name
            != plan.video.source@.name,
{
    assert(plan.video.source@.properties[2] == (
        "do-timestamp"@,
        crate::pipeline::PropView::Bool(false),
    ));
    assert(plan.video.source@.properties[0] == (
        "format"@,
        crate::pipeline::PropView::Parsed("time"@),
    ));
    reveal_strlit("video_appsrc");
    reveal_strlit("audio_appsrc");
    assert("video_appsrc"@[0] != "audio_appsrc"@[0]);
    assert(plan.file_sink@.properties[0] == (
        "location"@,
        crate::pipeline::PropView::Text(path),
    ));
}

/// A preview holds exactly the frames that come before the first one that lies five seconds or
/// more behind the start of the clip: the end is sent there, and nothing follows it.
pub proof fn law_preview_is_five_seconds(probe: PreviewProbe, t: ClockTime)
    requires
        !probe.eos_sent,
    ensures
        probe.verdict(Some(Some(t))) is Pass <==> t.ns - probe.first.ns < 5_000_000_000,
        probe.verdict(Some(Some(t))) is End <==> t.ns - probe.first.ns >= 5_000_000_000,
        probe.after(Some(Some(t))).eos_sent <==> t.ns - probe.first.ns >= 5_000_000_000,
        probe.after(Some(Some(t))).first == probe.first,
        probe.verdict(None) is Pass,
{
}

/// The reason that is told is that of the first failure; reports before it and behind it
/// change nothing.
pub proof fn law_first_failure_is_told(
    before: Seq<BusMessage>,
    why: String,
    behind: Seq<BusMessage>,
)
    requires
        forall|i: int| 0 <= i < before.len() ==> !((#[trigger] before[i]) is Error),
    ensures
        failure_reason(before + seq![BusMessage::Error(why)] + behind) == why@,
        failure_reason(before) == "unknown"@,
    decreases before.len(),
{
    let all = before + seq![BusMessage::Error(why)] + behind;
    if before.len() > 0 {
        assert(!(before[0] is Error));
        assert(all[0] == before[0]);
        let rest = before.drop_first();
        assert forall|i: int| 0 <= i < rest.len() implies !((#[trigger] rest[i]) is Error) by {
            assert(rest[i] == before[i + 1]);
        }
        law_first_failure_is_told(rest, why, behind);
        assert(all.drop_first() =~= rest + seq![BusMessage::Error(why)] + behind);
    } else {
        assert(all[0] == BusMessage::Error(why));
    }
}

proof fn lemma_another_beginning(s: Seq<char>, p: Seq<char>, i: int)
    requires
        0 <= i < p.len(),
        i < s.len(),
        s[i] != p[i],
    ensures
        !crate::text::begins_with(s, p),
{
    if crate::text::begins_with(s, p) {
        assert(s.subrange(0, p.len() as int)[i] == p[i]);
    }
}

/// Each format has the parser of its own standard, whatever follows the media type; of
/// `audio/mpeg` the second and the fourth version are AAC, and all else is MP3.
pub proof fn law_each_format_has_its_parser(
    rest: Seq<char>,
    mpegversion: Option<i32>,
    parsers: StreamParsers,
)
    ensures
        stream_of("video/x-h264"@ + rest, mpegversion, parsers) == StreamView::Video(parsers.h264@),
        stream_of("video/x-h265"@ + rest, mpegversion, parsers) == StreamView::Video(parsers.h265@),
        stream_of("video/x-av1"@ + rest, mpegversion, parsers) == StreamView::Video(parsers.av1@),
        stream_of("audio/x-opus"@ + rest, mpegversion, parsers) == StreamView::Audio(parsers.opus@),
        mpegversion == Some(2i32) || mpegversion == Some(4i32) ==> stream_of(
            "audio/mpeg"@ + rest,
            mpegversion,
            parsers,
        ) == StreamView::Audio(parsers.aac@),
        mpegversion != Some(2i32) && mpegversion != Some(4i32) ==> stream_of(
            "audio/mpeg"@ + rest,
            mpegversion,
            parsers,
        ) == StreamView::Audio(parsers.mp3@),
{
    reveal_strlit("video/x-h264");
    reveal_strlit("video/x-h265");
    reveal_strlit("video/x-av1");
    reveal_strlit("audio/x-opus");
    reveal_strlit("audio/mpeg");
    crate::text::law_text_is_found_where_it_stands(rest, "video/x-h264"@, rest);
    crate::text::law_text_is_found_where_it_stands(rest, "video/x-h265"@, rest);
    crate::text::law_text_is_found_where_it_stands(rest, "video/x-av1"@, rest);
    crate::text::law_text_is_found_where_it_stands(rest, "audio/x-opus"@, rest);
    crate::text::law_text_is_found_where_it_stands(rest, "audio/mpeg"@, rest);
    lemma_another_beginning("video/x-h265"@ + rest, "video/x-h264"@, 11);
    lemma_another_beginning("video/x-av1"@ + rest, "video/x-h264"@, 8);
    lemma_another_beginning("video/x-av1"@ + rest, "video/x-h265"@, 8);
    lemma_another_beginning("audio/x-opus"@ + rest, "video/x-h264"@, 0);
    lemma_another_beginning("audio/x-opus"@ + rest, "video/x-h265"@, 0);
    lemma_another_beginning("audio/x-opus"@ + rest, "video/x-av1"@, 0);
    lemma_another_beginning("audio/mpeg"@ + rest, "video/x-h264"@, 0);
    lemma_another_beginning("audio/mpeg"@ + rest, "video/x-h265"@, 0);
    lemma_another_beginning("audio/mpeg"@ + rest, "video/x-av1"@, 0);
    lemma_another_beginning("audio/mpeg"@ + rest, "audio/x-opus"@, 6);
}

/// A stream of any other media type is left out of the clip.
pub proof fn law_other_formats_are_left_out(
    name: Seq<char>,
    mpegversion: Option<i32>,
    parsers: StreamParsers,
)
    ensures
        stream_of(name, mpegversion, parsers) is Skip <==> {
            &&& !crate::text::begins_with(name, "video/x-h264"@)
            &&& !crate::text::begins_with(name, "video/x-h265"@)
            &&& !crate::text::begins_with(name, "video/x-av1"@)
            &&& !crate::text::begins_with(name, "audio/x-opus"@)
            &&& !crate::text::begins_with(name, "audio/mpeg"@)
        },
{
}

/// A clip is refused exactly where there are no pictures, where their format cannot be told or
/// is not known, or where there is sound whose format cannot be told. Sound of a format that is
/// not known is no reason.
pub proof fn law_clips_are_refused_for_a_reason(data: SaveData, parsers: StreamParsers)
    ensures
        remux_refusal(data, parsers) is Some <==> {
            ||| data.video_frames@.len() == 0
            ||| data.video_caps.structure is None
            ||| caps_stream(data.video_caps, parsers) == Some(StreamView::Skip)
            ||| data.audio_frames@.len() > 0 && data.audio_caps is Some
                && data.audio_caps.unwrap().structure is None
        },
        data.video_frames@.len() > 0 && caps_stream(data.video_caps, parsers) == Some(
            StreamView::Skip,
        ) ==> crate::text::finishes_with(
            remux_refusal(data, parsers).unwrap(),
            data.video_caps.text@,
        ),
{
    crate::text::law_text_is_found_where_it_stands(
        "Unrecognised video caps: "@,
        data.video_caps.text@,
        data.video_caps.text@,
    );
}

/// The pictures of a preview are scaled to a width of 480 before they are encoded, at 800
/// kilobits a second, and nothing else asks for a width.
pub proof fn law_preview_is_small(i: int, value: crate::pipeline::FieldView)
    ensures
        ({
            let chain = preview_chain();
            &&& chain.len() == 6
            &&& crate::pipeline::asks(chain[3], "width"@, crate::pipeline::FieldView::Int(480))
            &&& 0 <= i < chain.len() && crate::pipeline::asks(chain[i], "width"@, value) ==> value
                == crate::pipeline::FieldView::Int(480)
            &&& chain[1].factory == "videoscale"@
            &&& chain[4].factory == "x264enc"@
            &&& chain[4].properties.contains(("bitrate"@, crate::pipeline::PropView::UInt(800)))
            &&& chain[5].factory == "h264parse"@
        }),
{
    let chain = preview_chain();
    let e = chain[3];
    assert(e.properties[0].0 == "caps"@);
    assert(crate::pipeline::fields_of(e, 0)[0] == (
        "width"@,
        crate::pipeline::FieldView::Int(480),
    ));
    assert(chain[4].properties[2] == ("bitrate"@, crate::pipeline::PropView::UInt(800)));
    if 0 <= i < chain.len() && crate::pipeline::asks(chain[i], "width"@, value) {
        let (p, g) = choose|p: int, g: int|
            #![trigger chain[i].properties[p], crate::pipeline::fields_of(chain[i], p)[g]]
            0 <= p < chain[i].properties.len() && 0 <= g < crate::pipeline::fields_of(
                chain[i],
                p,
            ).len() && crate::pipeline::fields_of(chain[i], p)[g] == ("width"@, value);
        assert(crate::pipeline::fields_of(chain[i], p).len() > 0);
        assert(i == 3);
    }
}

/// A preview is read from the clip and written to the other file, and begins at the start of the
/// clip with nothing sent yet.
pub proof fn law_preview_reads_one_file_and_writes_the_other(
    plan: PreviewPlan,
    input_path: Seq<char>,
    output_path: Seq<char>,
    first: ClockTime,
)
    requires
        plan.previews(input_path, output_path, first),
    ensures
        plan.file_src@.factory == "filesrc"@,
        plan.file_src@.properties.contains(
            ("location"@, crate::pipeline::PropView::Text(input_path)),
        ),
        plan.file_sink@.factory == "filesink"@,
        plan.file_sink@.properties.contains(
            ("location"@, crate::pipeline::PropView::Text(output_path)),
        ),
        plan.mux@.factory == "matroskamux"@,
        plan.chain@ == preview_chain(),
        plan.probe.first == first && !plan.probe.eos_sent,
{
    assert(plan.file_src@.properties[0] == (
        "location"@,
        crate::pipeline::PropView::Text(input_path),
    ));
    assert(plan.file_sink@.properties[0] == (
        "location"@,
        crate::pipeline::PropView::Text(output_path),
    ));
}

/// Of the streams of a clip the first one with pictures goes into the preview, and no other: no
/// sound, and nothing once a stream was taken.
pub proof fn law_preview_takes_pictures_once(
    caps: Caps,
    rest: Seq<char>,
    sink_linked: bool,
    r: Result<bool, WayclipError>,
)
    requires
        is_taken(Some(&caps), sink_linked, r),
    ensures
        caps.structure is None <==> r is Err,
        caps.structure is Some && caps.structure.unwrap().name@ == "video/"@ + rest ==> r == Ok::<
            bool,
            WayclipError,
        >(!sink_linked),
        caps.structure is Some && caps.structure.unwrap().name@ == "audio/"@ + rest ==> r == Ok::<
            bool,
            WayclipError,
        >(false),
        sink_linked ==> r != Ok::<bool, WayclipError>(true),
{
    reveal_strlit("video/");
    reveal_strlit("audio/");
    crate::text::law_text_is_found_where_it_stands(rest, "video/"@, rest);
    lemma_another_beginning("audio/"@ + rest, "video/"@, 0);
}

} // verus!
