//! The part of the capture pipeline that receives the screen and encodes it.

use crate::daemon::DaemonCore;
use crate::error::WayclipError;
use crate::pipeline::{CapsPlan, Chain, Element, FieldValue};
use crate::settings::{CodecType, VideoCodec, VideoStandard};
use vstd::prelude::*;

verus! {

use crate::pipeline::{asks, caps, element, fields_of, CapsView, ElementView, FieldView, PropView};

/// Buffers that a sink holds before it blocks the pipeline.
pub const DEFAULT_APPSINK_MAX_BUFFERS: u32 = 100;

/// Nanoseconds of video that a queue holds before it drops frames.
pub const DEFAULT_MAX_SIZE_TIME_NS: u64 = 500000000;

/// Frames from one keyframe to the next.
pub const DEFAULT_KEYFRAME_PERIOD: u32 = 30;

/// Milliseconds without a frame after which the pipeline reports an error.
pub const DEFAULT_WATCHDOG_TIMEOUT_MS: i32 = 5000;

/// An element that lets only this format through.
pub open spec fn caps_filter(name: Seq<char>, c: CapsView) -> ElementView {
    element("capsfilter"@, name).with("caps"@, PropView::Caps(c))
}

/// An element that lets only this format through.
pub fn make_caps_filter(name: &str, c: CapsPlan) -> (r: Element)
    ensures
        r@ == caps_filter(name@, c@),
{
    Element::new("capsfilter", name).with_caps(c)
}

/// A sink that hands its samples to the daemon and never drops one.
pub open spec fn app_sink(name: Seq<char>) -> ElementView {
    element("appsink"@, name).with("drop"@, PropView::Bool(false)).with(
        "max-buffers"@,
        PropView::UInt(DEFAULT_APPSINK_MAX_BUFFERS),
    ).with("sync"@, PropView::Bool(false))
}

/// A sink that hands its samples to the daemon and never drops one.
pub fn make_app_sink(name: &str) -> (r: Element)
    ensures
        r@ == app_sink(name@),
{
    Element::new("appsink", name).with_bool("drop", false).with_uint(
        "max-buffers",
        DEFAULT_APPSINK_MAX_BUFFERS,
    ).with_bool("sync", false)
}

/// A queue that is bounded by time alone and drops the oldest frames.
pub open spec fn leaky_queue(name: Seq<char>) -> ElementView {
    element("queue"@, name).with("max-size-buffers"@, PropView::UInt(0)).with(
        "max-size-bytes"@,
        PropView::UInt(0),
    ).with("max-size-time"@, PropView::ULong(DEFAULT_MAX_SIZE_TIME_NS)).with(
        "leaky"@,
        PropView::Parsed("2"@),
    )
}

fn make_leaky_queue(name: &str) -> (r: Element)
    ensures
        r@ == leaky_queue(name@),
{
    Element::new("queue", name).with_uint("max-size-buffers", 0).with_uint(
        "max-size-bytes",
        0,
    ).with_ulong("max-size-time", DEFAULT_MAX_SIZE_TIME_NS).with_parsed("leaky", "2")
}

/// The format in which the screen is asked for: shared memory of the graphics
/// processor, unless the processor does the encoding.
pub open spec fn source_caps(backend: CodecType) -> CapsView {
    match backend {
        CodecType::Software => caps("video/x-raw"@),
        _ => caps("video/x-raw"@).in_memory("memory:DMABuf"@),
    }
}

/// What receives the screen, whoever does the encoding.
pub open spec fn source_part(backend: CodecType, fd: i32, id: Seq<char>) -> Seq<ElementView> {
    seq![
        element("pipewiresrc"@, "video_pipewiresrc"@).with(
            "do-timestamp"@,
            PropView::Bool(true),
        ).with("fd"@, PropView::Int(fd)).with("path"@, PropView::Text(id)),
        caps_filter("video_pipewiresrc_caps"@, source_caps(backend)),
        element("watchdog"@, "video_watchdog"@).with(
            "timeout"@,
            PropView::Int(DEFAULT_WATCHDOG_TIMEOUT_MS),
        ),
        leaky_queue("video_queue_1"@),
    ]
}

fn make_source_part(backend: CodecType, fd: i32, id: &str) -> (r: Chain)
    ensures
        r@ == source_part(backend, fd, id@),
{
    let mut r: Chain = Chain::new();
    r.push(
        Element::new("pipewiresrc", "video_pipewiresrc").with_bool("do-timestamp", true).with_int(
            "fd",
            fd,
        ).with_text("path", id),
    );
    let format: CapsPlan = match backend {
        CodecType::Software => CapsPlan::new("video/x-raw"),
        CodecType::NVIDIA => CapsPlan::new("video/x-raw").in_memory("memory:DMABuf"),
        CodecType::VAAPI => CapsPlan::new("video/x-raw").in_memory("memory:DMABuf"),
    };
    r.push(make_caps_filter("video_pipewiresrc_caps", format));
    r.push(
        Element::new("watchdog", "video_watchdog").with_int("timeout", DEFAULT_WATCHDOG_TIMEOUT_MS),
    );
    r.push(make_leaky_queue("video_queue_1"));
    r
}

/// A format of this size.
pub open spec fn sized(c: CapsView, width: u64, height: u64) -> CapsView {
    c.number("width"@, width as i32).number("height"@, height as i32)
}

/// A format of this frame rate.
pub open spec fn paced(c: CapsView, fps: u64) -> CapsView {
    c.field("framerate"@, FieldView::Fraction(fps as i32, 1))
}

/// What brings the frames to the size, the rate and the colours that are encoded.
///
/// The rate is left as it comes where the video acceleration interface does the
/// encoding.
pub open spec fn scaling_part(backend: CodecType, width: u64, height: u64, fps: u64) -> Seq<
    ElementView,
> {
    let raw = caps("video/x-raw"@);
    match backend {
        CodecType::NVIDIA => {
            let gl = raw.in_memory("memory:GLMemory"@);
            seq![
                element("glupload"@, "video_glupload"@),
                caps_filter("video_glupload_caps"@, gl),
                element("glcolorscale"@, "video_glcolorscale"@),
                caps_filter(
                    "video_glscale_caps"@,
                    sized(gl.text("format"@, "RGBA"@), width, height),
                ),
                element("glcolorconvert"@, "video_glcolorconvert"@),
                element("videorate"@, "video_rate"@),
                caps_filter("video_glformat_caps"@, paced(gl.text("format"@, "NV12"@), fps)),
            ]
        },
        CodecType::VAAPI => seq![
            element("vapostproc"@, "video_vapostproc"@),
            caps_filter(
                "video_vaapi_caps"@,
                sized(
                    raw.in_memory("memory:VAMemory"@).text("format"@, "NV12"@),
                    width,
                    height,
                ),
            ),
        ],
        CodecType::Software => seq![
            element("videoconvert"@, "video_convert"@),
            element("videoscale"@, "video_scale"@),
            caps_filter(
                "caps_filter_videoscale"@,
                sized(raw, width, height).text("format"@, "I420"@),
            ),
            element("videorate"@, "video_rate"@),
            caps_filter("caps_filter_videorate"@, paced(raw, fps)),
        ],
    }
}

fn make_sized(c: CapsPlan, width: u64, height: u64) -> (r: CapsPlan)
    ensures
        r@ == sized(c@, width, height),
{
    c.number("width", width as i32).number("height", height as i32)
}

fn make_paced(c: CapsPlan, fps: u64) -> (r: CapsPlan)
    ensures
        r@ == paced(c@, fps),
{
    c.field("framerate", FieldValue::Fraction(fps as i32, 1))
}

fn make_gl() -> (r: CapsPlan)
    ensures
        r@ == caps("video/x-raw"@).in_memory("memory:GLMemory"@),
{
    CapsPlan::new("video/x-raw").in_memory("memory:GLMemory")
}

fn make_scaling_part(backend: CodecType, width: u64, height: u64, fps: u64) -> (r: Chain)
    ensures
        r@ == scaling_part(backend, width, height, fps),
{
    let mut r: Chain = Chain::new();
    match backend {
        CodecType::NVIDIA => {
            r.push(Element::new("glupload", "video_glupload"));
            r.push(make_caps_filter("video_glupload_caps", make_gl()));
            r.push(Element::new("glcolorscale", "video_glcolorscale"));
            r.push(
                make_caps_filter(
                    "video_glscale_caps",
                    make_sized(make_gl().text("format", "RGBA"), width, height),
                ),
            );
            r.push(Element::new("glcolorconvert", "video_glcolorconvert"));
            r.push(Element::new("videorate", "video_rate"));
            r.push(
                make_caps_filter(
                    "video_glformat_caps",
                    make_paced(make_gl().text("format", "NV12"), fps),
                ),
            );
        },
        CodecType::VAAPI => {
            r.push(Element::new("vapostproc", "video_vapostproc"));
            let format: CapsPlan = CapsPlan::new("video/x-raw").in_memory("memory:VAMemory").text(
                "format",
                "NV12",
            );
            r.push(make_caps_filter("video_vaapi_caps", make_sized(format, width, height)));
        },
        CodecType::Software => {
            r.push(Element::new("videoconvert", "video_convert"));
            r.push(Element::new("videoscale", "video_scale"));
            r.push(
                make_caps_filter(
                    "caps_filter_videoscale",
                    make_sized(CapsPlan::new("video/x-raw"), width, height).text("format", "I420"),
                ),
            );
            r.push(Element::new("videorate", "video_rate"));
            r.push(
                make_caps_filter(
                    "caps_filter_videorate",
                    make_paced(CapsPlan::new("video/x-raw"), fps),
                ),
            );
        },
    }
    r
}

/// The threads that encode in software: one for each that the machine runs at once,
/// four where that is not known.
pub open spec fn encoder_threads(parallelism: Option<usize>) -> u32 {
    match parallelism {
        Some(n) => n as u32,
        None => 4,
    }
}

/// The element that encodes. How a bit rate and a keyframe distance are set differs from
/// one encoder to the next.
pub open spec fn video_encoder(
    codec: VideoCodec,
    bitrate_kbps: u64,
    parallelism: Option<usize>,
) -> ElementView {
    let rate = PropView::UInt(bitrate_kbps as u32);
    let period = PropView::UInt(DEFAULT_KEYFRAME_PERIOD);
    match codec.backend {
        CodecType::NVIDIA => element(codec.encoder@, "video_encoder"@).with("bitrate"@, rate).with(
            "gop-size"@,
            PropView::Int(DEFAULT_KEYFRAME_PERIOD as i32),
        ).with("rc-mode"@, PropView::Parsed("cbr"@)),
        CodecType::VAAPI => element(codec.encoder@, "video_encoder"@).with("bitrate"@, rate).with(
            "key-int-max"@,
            period,
        ),
        CodecType::Software => match codec.standard {
            VideoStandard::H264 => element(codec.encoder@, "video_h264_software_encoder"@).with(
                "bitrate"@,
                rate,
            ).with("key-int-max"@, period).with(
                "speed-preset"@,
                PropView::Parsed("ultrafast"@),
            ).with("tune"@, PropView::Parsed("zerolatency"@)).with(
                "threads"@,
                PropView::UInt(encoder_threads(parallelism)),
            ).with("sliced-threads"@, PropView::Bool(true)),
            VideoStandard::H265 => element(codec.encoder@, "video_h265_software_encoder"@).with(
                "bitrate"@,
                rate,
            ).with("key-int-max"@, period).with("speed-preset"@, PropView::Parsed("ultrafast"@)),
            VideoStandard::AV1 => element(codec.encoder@, "video_av1_software_encoder"@).with(
                "target-bitrate"@,
                rate,
            ),
        },
    }
}

fn make_video_encoder(codec: &VideoCodec, bitrate_kbps: u64, parallelism: Option<usize>) -> (r:
    Element)
    ensures
        r@ == video_encoder(*codec, bitrate_kbps, parallelism),
{
    let rate: u32 = bitrate_kbps as u32;
    match codec.backend {
        CodecType::NVIDIA => Element::new(codec.encoder.as_str(), "video_encoder").with_uint(
            "bitrate",
            rate,
        ).with_int("gop-size", DEFAULT_KEYFRAME_PERIOD as i32).with_parsed("rc-mode", "cbr"),
        CodecType::VAAPI => Element::new(codec.encoder.as_str(), "video_encoder").with_uint(
            "bitrate",
            rate,
        ).with_uint("key-int-max", DEFAULT_KEYFRAME_PERIOD),
        CodecType::Software => {
            let threads: u32 = match parallelism {
                Some(n) => n as u32,
                None => 4,
            };
            match codec.standard {
                VideoStandard::H264 => Element::new(
                    codec.encoder.as_str(),
                    "video_h264_software_encoder",
                ).with_uint("bitrate", rate).with_uint(
                    "key-int-max",
                    DEFAULT_KEYFRAME_PERIOD,
                ).with_parsed("speed-preset", "ultrafast").with_parsed(
                    "tune",
                    "zerolatency",
                ).with_uint("threads", threads).with_bool("sliced-threads", true),
                VideoStandard::H265 => Element::new(
                    codec.encoder.as_str(),
                    "video_h265_software_encoder",
                ).with_uint("bitrate", rate).with_uint(
                    "key-int-max",
                    DEFAULT_KEYFRAME_PERIOD,
                ).with_parsed("speed-preset", "ultrafast"),
                VideoStandard::AV1 => Element::new(
                    codec.encoder.as_str(),
                    "video_av1_software_encoder",
                ).with_uint("target-bitrate", rate),
            }
        },
    }
}

/// The encoded format in which every frame stands for itself.
pub open spec fn annexb_caps(media: Seq<char>) -> CapsView {
    caps(media).text("stream-format"@, "byte-stream"@).text("alignment"@, "au"@)
}

/// What parses the encoded stream. For H.264 and H.265 the parser repeats the stream's
/// parameters with every keyframe, so that a clip can begin at any of them.
pub open spec fn parser_part(codec: VideoCodec) -> Seq<ElementView> {
    match codec.standard {
        VideoStandard::H264 => seq![
            element(codec.parser@, "video_h264_parser"@).with(
                "config-interval"@,
                PropView::Int(1),
            ),
            caps_filter("video_h264_annexb_caps"@, annexb_caps("video/x-h264"@)),
        ],
        VideoStandard::H265 => seq![
            element(codec.parser@, "video_h265_parser"@).with(
                "config-interval"@,
                PropView::Int(1),
            ),
            caps_filter("video_h265_annexb_caps"@, annexb_caps("video/x-h265"@)),
        ],
        VideoStandard::AV1 => seq![element(codec.parser@, "video_av1_parser"@)],
    }
}

/// All elements from the screen to the sink that fills the ring buffer.
pub open spec fn video_chain(
    fd: i32,
    id: Seq<char>,
    codec: VideoCodec,
    resolution: (u64, u64),
    fps: u64,
    bitrate_kbps: u64,
    parallelism: Option<usize>,
) -> Seq<ElementView> {
    source_part(codec.backend, fd, id) + scaling_part(
        codec.backend,
        resolution.0,
        resolution.1,
        fps,
    ) + seq![
        leaky_queue("video_queue_2"@),
        video_encoder(codec, bitrate_kbps, parallelism),
    ] + parser_part(codec) + seq![
        element("queue"@, "queue_after_video_encoder"@),
        app_sink("video_appsink"@),
    ]
}

impl DaemonCore {
    /// What parses the encoded stream.
    pub fn get_parser_and_filter(&self, codec: &VideoCodec) -> (r: Chain)
        ensures
            r@ == parser_part(*codec),
    {
        let mut r: Chain = Chain::new();
        match codec.standard {
            VideoStandard::H264 => {
                r.push(
                    Element::new(codec.parser.as_str(), "video_h264_parser").with_int(
                        "config-interval",
                        1,
                    ),
                );
                r.push(
                    make_caps_filter(
                        "video_h264_annexb_caps",
                        CapsPlan::new("video/x-h264").text("stream-format", "byte-stream").text(
                            "alignment",
                            "au",
                        ),
                    ),
                );
            },
            VideoStandard::H265 => {
                r.push(
                    Element::new(codec.parser.as_str(), "video_h265_parser").with_int(
                        "config-interval",
                        1,
                    ),
                );
                r.push(
                    make_caps_filter(
                        "video_h265_annexb_caps",
                        CapsPlan::new("video/x-h265").text("stream-format", "byte-stream").text(
                            "alignment",
                            "au",
                        ),
                    ),
                );
            },
            VideoStandard::AV1 => {
                r.push(Element::new(codec.parser.as_str(), "video_av1_parser"));
            },
        }
        r
    }

    /// Plans the elements from the screen to the sink that fills the ring buffer.
    ///
    /// Fails while the screen is not shared yet.
    pub fn build_video_pipeline(
        &self,
        codec: &VideoCodec,
        resolution: (u64, u64),
        fps: u64,
        video_bitrate_kbps: u64,
        parallelism: Option<usize>,
    ) -> (r: Result<Chain, WayclipError>)
        ensures
            match (self.pipewire_file_descriptor, self.pipewire_node_id) {
                (Some(fd), Some(id)) => r matches Ok(c) && c@ == video_chain(
                    fd,
                    id@,
                    *codec,
                    resolution,
                    fps,
                    video_bitrate_kbps,
                    parallelism,
                ),
                _ => r matches Err(WayclipError::Video(m)) && m@
                    == "No node ID or FD was aquired by the daemon"@,
            },
    {
        match (&self.pipewire_file_descriptor, &self.pipewire_node_id) {
            (Some(fd), Some(id)) => {
                let backend: CodecType = codec.backend;
                let mut chain: Chain = make_source_part(backend, *fd, id.as_str());
                chain.append(make_scaling_part(backend, resolution.0, resolution.1, fps));
                chain.push(make_leaky_queue("video_queue_2"));
                chain.push(make_video_encoder(codec, video_bitrate_kbps, parallelism));
                chain.append(self.get_parser_and_filter(codec));
                chain.push(Element::new("queue", "queue_after_video_encoder"));
                chain.push(make_app_sink("video_appsink"));
                assert(chain@ =~= video_chain(
                    *fd,
                    id@,
                    *codec,
                    resolution,
                    fps,
                    video_bitrate_kbps,
                    parallelism,
                ));
                Ok(chain)
            },
            _ => Err(
                WayclipError::Video("No node ID or FD was aquired by the daemon".to_owned()),
            ),
        }
    }
}

/// Whatever the codec, the plan leads from the shared screen to the sink, and encodes
/// and parses on the way with the elements of that codec.
pub proof fn law_video_chain_shape(
    fd: i32,
    id: Seq<char>,
    codec: VideoCodec,
    resolution: (u64, u64),
    fps: u64,
    bitrate_kbps: u64,
    parallelism: Option<usize>,
)
    ensures
        ({
            let chain = video_chain(fd, id, codec, resolution, fps, bitrate_kbps, parallelism);
            &&& chain.first().factory == "pipewiresrc"@
            &&& chain.first().properties.contains(("path"@, PropView::Text(id)))
            &&& chain.last() == app_sink("video_appsink"@)
            &&& exists|e: int|
                #![trigger chain[e]]
                0 <= e < chain.len() - 1 && chain[e].factory == codec.encoder@ && chain[e
                    + 1].factory == codec.parser@
        }),
{
    let chain = video_chain(fd, id, codec, resolution, fps, bitrate_kbps, parallelism);
    let scaling = scaling_part(codec.backend, resolution.0, resolution.1, fps);
    let e = scaling.len() as int + 5;
    assert(chain.first().properties[2] == ("path"@, PropView::Text(id)));
    assert(chain[e] == video_encoder(codec, bitrate_kbps, parallelism));
    assert(chain[e + 1] == parser_part(codec)[0]);
}

/// Where the encoder stands in the plan: behind what receives, what scales and a queue.
spec fn encoder_at(backend: CodecType) -> int {
    match backend {
        CodecType::NVIDIA => 12,
        CodecType::VAAPI => 7,
        CodecType::Software => 10,
    }
}

proof fn lemma_asks_for_nothing(e: ElementView, key: Seq<char>, value: FieldView)
    requires
        forall|p: int| 0 <= p < e.properties.len() ==> fields_of(e, p).len() == 0,
    ensures
        !asks(e, key, value),
{
}

proof fn lemma_filter_asks(e: ElementView, c: CapsView, key: Seq<char>, value: FieldView)
    requires
        e.properties == seq![("caps"@, PropView::Caps(c))],
    ensures
        asks(e, key, value) <==> c.fields.contains((key, value)),
{
    assert(fields_of(e, 0) == c.fields);
    if c.fields.contains((key, value)) {
        let f = choose|f: int| 0 <= f < c.fields.len() && c.fields[f] == (key, value);
        assert(e.properties[0].1 == PropView::Caps(c));
        assert(fields_of(e, 0)[f] == (key, value));
    }
}

proof fn lemma_parts_of_the_chain(
    fd: i32,
    id: Seq<char>,
    codec: VideoCodec,
    resolution: (u64, u64),
    fps: u64,
    bitrate_kbps: u64,
    parallelism: Option<usize>,
    i: int,
)
    requires
        0 <= i < video_chain(fd, id, codec, resolution, fps, bitrate_kbps, parallelism).len(),
    ensures
        ({
            let chain = video_chain(fd, id, codec, resolution, fps, bitrate_kbps, parallelism);
            let scaling = scaling_part(codec.backend, resolution.0, resolution.1, fps);
            let at = encoder_at(codec.backend);
            &&& scaling.len() == at - 5
            &&& 0 <= i < 4 ==> chain[i] == source_part(codec.backend, fd, id)[i]
            &&& 4 <= i < at - 1 ==> chain[i] == scaling[i - 4]
            &&& i == at - 1 ==> chain[i] == leaky_queue("video_queue_2"@)
            &&& i == at ==> chain[i] == video_encoder(codec, bitrate_kbps, parallelism)
            &&& at < i < at + 1 + parser_part(codec).len() ==> chain[i] == parser_part(codec)[i
                - at - 1]
            &&& i == chain.len() - 2 ==> chain[i] == element(
                "queue"@,
                "queue_after_video_encoder"@,
            )
            &&& i == chain.len() - 1 ==> chain[i] == app_sink("video_appsink"@)
            &&& chain.len() == at + 3 + parser_part(codec).len()
        }),
{
}

proof fn lemma_field_names_differ()
    ensures
        "width"@ != "height"@,
        "width"@ != "framerate"@,
        "height"@ != "framerate"@,
        "format"@ != "width"@,
        "format"@ != "height"@,
        "format"@ != "framerate"@,
        "stream-format"@ != "width"@,
        "stream-format"@ != "height"@,
        "stream-format"@ != "framerate"@,
        "alignment"@ != "width"@,
        "alignment"@ != "height"@,
        "alignment"@ != "framerate"@,
{
    reveal_strlit("width");
    reveal_strlit("height");
    reveal_strlit("framerate");
    reveal_strlit("format");
    reveal_strlit("stream-format");
    reveal_strlit("alignment");
    assert("width"@.len() == 5);
    assert("height"@.len() == 6);
    assert("format"@.len() == 6);
    assert("framerate"@.len() == 9);
    assert("alignment"@.len() == 9);
    assert("stream-format"@.len() == 13);
    assert("height"@[0] != "format"@[0]);
    assert("alignment"@[0] != "framerate"@[0]);
}

/// What a filter of the scaling part asks for: the size in one, the rate in another.
proof fn lemma_scaling_asks(
    backend: CodecType,
    width: u64,
    height: u64,
    fps: u64,
    i: int,
    key: Seq<char>,
    value: FieldView,
)
    requires
        0 <= i < scaling_part(backend, width, height, fps).len(),
        key == "width"@ || key == "height"@ || key == "framerate"@,
    ensures
        asks(scaling_part(backend, width, height, fps)[i], key, value) <==> {
            ||| key == "width"@ && value == FieldView::Int(width as i32) && i == match backend {
                CodecType::NVIDIA => 3,
                CodecType::VAAPI => 1,
                CodecType::Software => 2int,
            }
            ||| key == "height"@ && value == FieldView::Int(height as i32) && i == match backend {
                CodecType::NVIDIA => 3,
                CodecType::VAAPI => 1,
                CodecType::Software => 2int,
            }
            ||| key == "framerate"@ && value == FieldView::Fraction(fps as i32, 1) && i
                == match backend {
                CodecType::NVIDIA => 6,
                CodecType::VAAPI => -1,
                CodecType::Software => 4int,
            }
        },
{
    lemma_field_names_differ();
    let e = scaling_part(backend, width, height, fps)[i];
    let size_at: int = match backend {
        CodecType::NVIDIA => 3,
        CodecType::VAAPI => 1,
        CodecType::Software => 2,
    };
    let rate_at: int = match backend {
        CodecType::NVIDIA => 6,
        CodecType::VAAPI => -1,
        CodecType::Software => 4,
    };
    if e.properties.len() == 0 {
        lemma_asks_for_nothing(e, key, value);
    } else {
        let c = e.properties[0].1->Caps_0;
        assert(e.properties =~= seq![("caps"@, PropView::Caps(c))]);
        lemma_filter_asks(e, c, key, value);
        if i == size_at {
            if backend is Software {
                assert(c.fields =~= seq![
                    ("width"@, FieldView::Int(width as i32)),
                    ("height"@, FieldView::Int(height as i32)),
                    ("format"@, FieldView::Text("I420"@)),
                ]);
                assert(c.fields[0] == ("width"@, FieldView::Int(width as i32)));
                assert(c.fields[1] == ("height"@, FieldView::Int(height as i32)));
            } else {
                assert(c.fields[0].0 == "format"@);
                assert(c.fields[1] == ("width"@, FieldView::Int(width as i32)));
                assert(c.fields[2] == ("height"@, FieldView::Int(height as i32)));
                assert(c.fields.len() == 3);
            }
        } else if i == rate_at {
            if backend is Software {
                assert(c.fields[0] == ("framerate"@, FieldView::Fraction(fps as i32, 1)));
                assert(c.fields.len() == 1);
            } else {
                assert(c.fields[0].0 == "format"@);
                assert(c.fields[1] == ("framerate"@, FieldView::Fraction(fps as i32, 1)));
                assert(c.fields.len() == 2);
            }
        } else {
            assert(c.fields.len() == 0);
        }
    }
}

/// Nothing outside the scaling part asks for a size or a rate.
proof fn lemma_others_ask_for_no_size(
    fd: i32,
    id: Seq<char>,
    codec: VideoCodec,
    resolution: (u64, u64),
    fps: u64,
    bitrate_kbps: u64,
    parallelism: Option<usize>,
    i: int,
    key: Seq<char>,
    value: FieldView,
)
    requires
        0 <= i < video_chain(fd, id, codec, resolution, fps, bitrate_kbps, parallelism).len(),
        i < 4 || i >= encoder_at(codec.backend) - 1,
        key == "width"@ || key == "height"@ || key == "framerate"@,
    ensures
        !asks(
            video_chain(fd, id, codec, resolution, fps, bitrate_kbps, parallelism)[i],
            key,
            value,
        ),
{
    lemma_field_names_differ();
    lemma_parts_of_the_chain(fd, id, codec, resolution, fps, bitrate_kbps, parallelism, i);
    let chain = video_chain(fd, id, codec, resolution, fps, bitrate_kbps, parallelism);
    let e = chain[i];
    let at = encoder_at(codec.backend);
    if i == at + 2 && parser_part(codec).len() == 2 {
        let c = e.properties[0].1->Caps_0;
        assert(e.properties =~= seq![("caps"@, PropView::Caps(c))]);
        assert(c.fields[0].0 == "stream-format"@);
        assert(c.fields[1].0 == "alignment"@);
        assert(c.fields.len() == 2);
        lemma_filter_asks(e, c, key, value);
    } else {
        assert forall|p: int| 0 <= p < e.properties.len() implies fields_of(e, p).len() == 0 by {
        }
        lemma_asks_for_nothing(e, key, value);
    }
}

/// The recorded pictures have the configured width and height: one format filter before the
/// encoder asks for them, and nothing in the plan asks for another size.
pub proof fn law_video_has_the_configured_size(
    fd: i32,
    id: Seq<char>,
    codec: VideoCodec,
    resolution: (u64, u64),
    fps: u64,
    bitrate_kbps: u64,
    parallelism: Option<usize>,
)
    ensures
        ({
            let chain = video_chain(fd, id, codec, resolution, fps, bitrate_kbps, parallelism);
            &&& exists|f: int, e: int|
                #![trigger chain[f], chain[e]]
                0 <= f < e < chain.len() && chain[e] == video_encoder(
                    codec,
                    bitrate_kbps,
                    parallelism,
                ) && asks(chain[f], "width"@, FieldView::Int(resolution.0 as i32)) && asks(
                    chain[f],
                    "height"@,
                    FieldView::Int(resolution.1 as i32),
                )
            &&& forall|f: int, value: FieldView|
                0 <= f < chain.len() && #[trigger] asks(chain[f], "width"@, value) ==> value
                    == FieldView::Int(resolution.0 as i32)
            &&& forall|f: int, value: FieldView|
                0 <= f < chain.len() && #[trigger] asks(chain[f], "height"@, value) ==> value
                    == FieldView::Int(resolution.1 as i32)
            &&& forall|f: int, g: int, a: FieldView, b: FieldView|
                0 <= f < chain.len() && 0 <= g < chain.len() && #[trigger] asks(
                    chain[f],
                    "width"@,
                    a,
                ) && #[trigger] asks(chain[g], "height"@, b) ==> f == g
        }),
{
    lemma_field_names_differ();
    let (w, h) = resolution;
    let chain = video_chain(fd, id, codec, resolution, fps, bitrate_kbps, parallelism);
    let at = encoder_at(codec.backend);
    let size_at: int = match codec.backend {
        CodecType::NVIDIA => 7,
        CodecType::VAAPI => 5,
        CodecType::Software => 6,
    };
    assert forall|f: int, key: Seq<char>, value: FieldView|
        0 <= f < chain.len() && (key == "width"@ || key == "height"@) && #[trigger] asks(
            chain[f],
            key,
            value,
        ) implies f == size_at && value == FieldView::Int(
        if key == "width"@ {
            w as i32
        } else {
            h as i32
        },
    ) by {
        lemma_parts_of_the_chain(fd, id, codec, resolution, fps, bitrate_kbps, parallelism, f);
        if f < 4 || f >= at - 1 {
            lemma_others_ask_for_no_size(
                fd,
                id,
                codec,
                resolution,
                fps,
                bitrate_kbps,
                parallelism,
                f,
                key,
                value,
            );
        } else {
            lemma_scaling_asks(codec.backend, w, h, fps, f - 4, key, value);
        }
    }
    lemma_parts_of_the_chain(fd, id, codec, resolution, fps, bitrate_kbps, parallelism, size_at);
    lemma_parts_of_the_chain(fd, id, codec, resolution, fps, bitrate_kbps, parallelism, at);
    lemma_scaling_asks(
        codec.backend,
        w,
        h,
        fps,
        size_at - 4,
        "width"@,
        FieldView::Int(w as i32),
    );
    lemma_scaling_asks(
        codec.backend,
        w,
        h,
        fps,
        size_at - 4,
        "height"@,
        FieldView::Int(h as i32),
    );
    assert(chain[at] == video_encoder(codec, bitrate_kbps, parallelism));
    assert(asks(chain[size_at], "width"@, FieldView::Int(w as i32)));
}

/// The recorded pictures come at the configured rate: where the driver of NVIDIA or the
/// processor encodes, a format filter before the encoder asks for it, and nothing in the plan
/// asks for another rate.
pub proof fn law_video_has_the_configured_rate(
    fd: i32,
    id: Seq<char>,
    codec: VideoCodec,
    resolution: (u64, u64),
    fps: u64,
    bitrate_kbps: u64,
    parallelism: Option<usize>,
)
    ensures
        ({
            let chain = video_chain(fd, id, codec, resolution, fps, bitrate_kbps, parallelism);
            &&& !(codec.backend is VAAPI) ==> exists|f: int, e: int|
                #![trigger chain[f], chain[e]]
                0 <= f < e < chain.len() && chain[e] == video_encoder(
                    codec,
                    bitrate_kbps,
                    parallelism,
                ) && asks(chain[f], "framerate"@, FieldView::Fraction(fps as i32, 1))
            &&& forall|f: int, value: FieldView|
                0 <= f < chain.len() && #[trigger] asks(chain[f], "framerate"@, value) ==> value
                    == FieldView::Fraction(fps as i32, 1) && !(codec.backend is VAAPI)
        }),
{
    lemma_field_names_differ();
    let (w, h) = resolution;
    let chain = video_chain(fd, id, codec, resolution, fps, bitrate_kbps, parallelism);
    let at = encoder_at(codec.backend);
    let rate_at: int = match codec.backend {
        CodecType::NVIDIA => 10,
        CodecType::VAAPI => 5,
        CodecType::Software => 8,
    };
    assert forall|f: int, value: FieldView|
        0 <= f < chain.len() && #[trigger] asks(chain[f], "framerate"@, value) implies value
        == FieldView::Fraction(fps as i32, 1) && !(codec.backend is VAAPI) by {
        lemma_parts_of_the_chain(fd, id, codec, resolution, fps, bitrate_kbps, parallelism, f);
        if f < 4 || f >= at - 1 {
            lemma_others_ask_for_no_size(
                fd,
                id,
                codec,
                resolution,
                fps,
                bitrate_kbps,
                parallelism,
                f,
                "framerate"@,
                value,
            );
        } else {
            lemma_scaling_asks(codec.backend, w, h, fps, f - 4, "framerate"@, value);
        }
    }
    lemma_parts_of_the_chain(fd, id, codec, resolution, fps, bitrate_kbps, parallelism, rate_at);
    lemma_parts_of_the_chain(fd, id, codec, resolution, fps, bitrate_kbps, parallelism, at);
    lemma_scaling_asks(
        codec.backend,
        w,
        h,
        fps,
        rate_at - 4,
        "framerate"@,
        FieldView::Fraction(fps as i32, 1),
    );
    if !(codec.backend is VAAPI) {
        assert(chain[at] == video_encoder(codec, bitrate_kbps, parallelism));
        assert(asks(chain[rate_at], "framerate"@, FieldView::Fraction(fps as i32, 1)));
    }
}

/// The encoder is the one of the settings and gets the configured bit rate, under the one name
/// that it knows it by; all but AV1 in software put a keyframe at least every thirty frames.
pub proof fn law_encoder_has_the_configured_bit_rate(
    codec: VideoCodec,
    bitrate_kbps: u64,
    parallelism: Option<usize>,
)
    ensures
        ({
            let e = video_encoder(codec, bitrate_kbps, parallelism);
            let by_target = codec.backend is Software && codec.standard is AV1;
            let rate = PropView::UInt(bitrate_kbps as u32);
            &&& e.factory == codec.encoder@
            &&& !by_target ==> e.properties.contains(("bitrate"@, rate))
            &&& by_target ==> e.properties.contains(("target-bitrate"@, rate))
            &&& codec.backend is NVIDIA ==> e.properties.contains(("gop-size"@, PropView::Int(30)))
            &&& codec.backend is VAAPI || (codec.backend is Software && !by_target)
                ==> e.properties.contains(("key-int-max"@, PropView::UInt(30)))
            &&& codec.backend is NVIDIA ==> e.properties.contains(
                ("rc-mode"@, PropView::Parsed("cbr"@)),
            )
            &&& codec.backend is Software && codec.standard is H264 ==> {
                &&& e.properties.contains(("tune"@, PropView::Parsed("zerolatency"@)))
                &&& e.properties.contains(("sliced-threads"@, PropView::Bool(true)))
                &&& parallelism matches Some(n) ==> e.properties.contains(
                    ("threads"@, PropView::UInt(n as u32)),
                )
                &&& parallelism is None ==> e.properties.contains(("threads"@, PropView::UInt(4)))
            }
            &&& codec.backend is Software && !by_target ==> e.properties.contains(
                ("speed-preset"@, PropView::Parsed("ultrafast"@)),
            )
        }),
{
    let e = video_encoder(codec, bitrate_kbps, parallelism);
    let p = e.properties;
    assert(p[0].1 == PropView::UInt(bitrate_kbps as u32));
    if codec.backend is NVIDIA {
        assert(p[1] == ("gop-size"@, PropView::Int(30)));
        assert(p[2] == ("rc-mode"@, PropView::Parsed("cbr"@)));
    } else if !(codec.backend is Software && codec.standard is AV1) {
        assert(p[1] == ("key-int-max"@, PropView::UInt(30)));
        if codec.backend is Software {
            assert(p[2] == ("speed-preset"@, PropView::Parsed("ultrafast"@)));
            if codec.standard is H264 {
                assert(p[3] == ("tune"@, PropView::Parsed("zerolatency"@)));
                assert(p[4].0 == "threads"@);
                assert(p[5] == ("sliced-threads"@, PropView::Bool(true)));
            }
        }
    }
}

/// The plan receives the shared screen through its descriptor and its node, stamps the frames,
/// reports an error when none comes for five seconds, and hands over every frame.
pub proof fn law_screen_is_received_and_watched(
    fd: i32,
    id: Seq<char>,
    codec: VideoCodec,
    resolution: (u64, u64),
    fps: u64,
    bitrate_kbps: u64,
    parallelism: Option<usize>,
)
    ensures
        ({
            let chain = video_chain(fd, id, codec, resolution, fps, bitrate_kbps, parallelism);
            &&& chain[0].factory == "pipewiresrc"@
            &&& chain[0].properties.contains(("fd"@, PropView::Int(fd)))
            &&& chain[0].properties.contains(("path"@, PropView::Text(id)))
            &&& chain[0].properties.contains(("do-timestamp"@, PropView::Bool(true)))
            &&& exists|w: int|
                #![trigger chain[w]]
                0 < w < chain.len() && chain[w].factory == "watchdog"@
                    && chain[w].properties.contains(("timeout"@, PropView::Int(5000)))
            &&& chain.last().factory == "appsink"@
            &&& chain.last().properties.contains(("drop"@, PropView::Bool(false)))
            &&& chain.last().properties.contains(("sync"@, PropView::Bool(false)))
            &&& chain.last().properties.contains(("max-buffers"@, PropView::UInt(100)))
        }),
{
    let chain = video_chain(fd, id, codec, resolution, fps, bitrate_kbps, parallelism);
    assert(chain[0].properties[0] == ("do-timestamp"@, PropView::Bool(true)));
    assert(chain[0].properties[1] == ("fd"@, PropView::Int(fd)));
    assert(chain[0].properties[2] == ("path"@, PropView::Text(id)));
    assert(chain[2].properties[0] == ("timeout"@, PropView::Int(5000)));
    assert(chain.last() == app_sink("video_appsink"@));
    assert(chain.last().properties[0] == ("drop"@, PropView::Bool(false)));
    assert(chain.last().properties[1] == ("max-buffers"@, PropView::UInt(100)));
    assert(chain.last().properties[2] == ("sync"@, PropView::Bool(false)));
}

/// Encoded H.264 and H.265 come as a byte stream of whole frames, with the stream's parameters
/// repeated every second, so that a clip can begin at any keyframe.
pub proof fn law_encoded_frames_stand_alone(codec: VideoCodec)
    ensures
        parser_part(codec)[0].factory == codec.parser@,
        codec.standard is H264 || codec.standard is H265 ==> {
            &&& parser_part(codec)[0].properties.contains(("config-interval"@, PropView::Int(1)))
            &&& parser_part(codec).len() == 2
            &&& parser_part(codec)[1].factory == "capsfilter"@
            &&& asks(
                parser_part(codec)[1],
                "stream-format"@,
                FieldView::Text("byte-stream"@),
            )
            &&& asks(parser_part(codec)[1], "alignment"@, FieldView::Text("au"@))
            &&& parser_part(codec)[1].properties[0].1 matches PropView::Caps(c) && c.media
                == if codec.standard is H264 {
                "video/x-h264"@
            } else {
                "video/x-h265"@
            }
        },
        codec.standard is AV1 ==> parser_part(codec).len() == 1,
{
    if !(codec.standard is AV1) {
        let e = parser_part(codec)[1];
        let c = e.properties[0].1->Caps_0;
        assert(parser_part(codec)[0].properties[0] == ("config-interval"@, PropView::Int(1)));
        assert(e.properties =~= seq![("caps"@, PropView::Caps(c))]);
        assert(c.fields[0] == ("stream-format"@, FieldView::Text("byte-stream"@)));
        assert(c.fields[1] == ("alignment"@, FieldView::Text("au"@)));
        lemma_filter_asks(e, c, "stream-format"@, FieldView::Text("byte-stream"@));
        lemma_filter_asks(e, c, "alignment"@, FieldView::Text("au"@));
    }
}

/// The screen is asked for in the memory of the graphics processor where that does the
/// encoding, and else in ordinary memory; the encoder gets the frames in the memory and the
/// colours that it works in.
pub proof fn law_frames_stay_where_they_are_encoded(
    backend: CodecType,
    width: u64,
    height: u64,
    fps: u64,
)
    ensures
        source_caps(backend).media == "video/x-raw"@,
        source_caps(backend).fields.len() == 0,
        backend is Software ==> source_caps(backend).feature is None,
        !(backend is Software) ==> source_caps(backend).feature == Some("memory:DMABuf"@),
        ({
            let scaling = scaling_part(backend, width, height, fps);
            let last = scaling.last();
            &&& last.factory == "capsfilter"@
            &&& last.properties[0].1 matches PropView::Caps(c) && c.media == "video/x-raw"@ && (
            match backend {
                CodecType::NVIDIA => c.feature == Some("memory:GLMemory"@),
                CodecType::VAAPI => c.feature == Some("memory:VAMemory"@),
                CodecType::Software => c.feature is None,
            })
            &&& !(backend is Software) ==> asks(last, "format"@, FieldView::Text("NV12"@))
            &&& backend is Software ==> exists|f: int|
                #![trigger scaling[f]]
                0 <= f < scaling.len() && asks(scaling[f], "format"@, FieldView::Text("I420"@))
        }),
{
    let scaling = scaling_part(backend, width, height, fps);
    let at: int = match backend {
        CodecType::NVIDIA => 6,
        CodecType::VAAPI => 1,
        CodecType::Software => 2,
    };
    let e = scaling[at];
    let c = e.properties[0].1->Caps_0;
    assert(e.properties =~= seq![("caps"@, PropView::Caps(c))]);
    match backend {
        CodecType::Software => {
            assert(c.fields[2] == ("format"@, FieldView::Text("I420"@)));
            lemma_filter_asks(e, c, "format"@, FieldView::Text("I420"@));
        },
        _ => {
            assert(c.fields[0] == ("format"@, FieldView::Text("NV12"@)));
            lemma_filter_asks(e, c, "format"@, FieldView::Text("NV12"@));
        },
    }
}

} // verus!
