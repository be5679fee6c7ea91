//! The topology planner: from a source, a sink, an acceleration method and an
//! optional overlay text to the chain of stages that carries the one to the
//! other. The chain is laid out from the sink back to the source.

use crate::checker::{FlowChecker, FlowCheckerView};
use crate::error::Error;
use crate::monitor::{FlowMonitor, FlowMonitorView};
use crate::flow::{
    Acceleration, Encoding, Feedback, Sink, SinkView, Source, SourceView, Transport, SEC_NS, SEC_US,
};
use crate::stage::{
    caps_views, push_stage, push_stages, stage_views, CapsField, CapsFieldView, CapsValue,
    CapsValueView, Stage, StageView, Value, ValueView,
};
use crate::text::{decimal_digits, push_decimal};
use vstd::prelude::*;
use vstd::string::StringExecFns;

verus! {

/// RTSP stream number for video
pub const STREAM_NUM_VIDEO: u32 = 0;

/// Time-To-Live for multicast packets
pub const TTL_MULTICAST: i32 = 15;

/// Clock rate for RTP video packets
pub const RTP_VIDEO_CLOCK_RATE: i32 = 90_000;

/// Text overlay color (ARGB; yellowish white)
pub const OVERLAY_COLOR: u32 = 0xFF_FF_FF_E0;

/// User agent including version
pub const AGENT: &'static str = "streambed/0.5.0";

/// Builder for video flows
#[derive(Clone, Debug)]
pub struct FlowBuilder {
    /// Index of flow
    idx: usize,
    /// Video source config
    source: Source,
    /// Video sink config
    sink: Sink,
    /// Hardware acceleration
    acceleration: Acceleration,
    /// Overlay text
    overlay_text: Option<String>,
    /// Video overlay handle
    handle: Option<usize>,
}

/// What a flow builder says, as plain values.
pub struct FlowBuilderView {
    pub idx: usize,
    pub source: SourceView,
    pub sink: SinkView,
    pub acceleration: Acceleration,
    pub overlay_text: Option<Seq<char>>,
    pub handle: Option<usize>,
}

impl View for FlowBuilder {
    type V = FlowBuilderView;

    closed spec fn view(&self) -> FlowBuilderView {
        FlowBuilderView {
            idx: self.idx,
            source: self.source@,
            sink: self.sink@,
            acceleration: self.acceleration,
            overlay_text: match self.overlay_text {
                Some(t) => Some(t@),
                None => None,
            },
            handle: self.handle,
        }
    }
}

/// A chain, or the error that stopped its planning: first the one, then the
/// other, and the first error of the two.
pub open spec fn join(
    a: Result<Seq<StageView>, Error>,
    b: Result<Seq<StageView>, Error>,
) -> Result<Seq<StageView>, Error> {
    match a {
        Err(e) => Err(e),
        Ok(x) => match b {
            Err(e) => Err(e),
            Ok(y) => Ok(x + y),
        },
    }
}

/// The part of a chain that is there only under a condition.
pub open spec fn when(c: bool, part: Result<Seq<StageView>, Error>) -> Result<
    Seq<StageView>,
    Error,
> {
    if c {
        part
    } else {
        Ok(Seq::empty())
    }
}

/// A single stage as a part of a chain.
pub open spec fn one(stage: Result<StageView, Error>) -> Result<Seq<StageView>, Error> {
    match stage {
        Ok(s) => Ok(seq![s]),
        Err(e) => Err(e),
    }
}

/// A buffering stage that holds at most one second. A leaky one drops what
/// it cannot hold instead of holding up the stage before it.
pub open spec fn queue_stage(leaky: bool) -> StageView {
    let q = StageView::plain("queue").with("max-size-time", ValueView::ULong(SEC_NS));
    if leaky {
        q.with("leaky", ValueView::Nick("downstream"))
    } else {
        q
    }
}

/// The stage that crops by a matrix; it is set once the frame size is known.
pub open spec fn crop_stage() -> StageView {
    StageView::plain("videobox").named("vbox")
}

/// The stages that encode raw video, for an encoding and a method of
/// acceleration: the accelerated stage where there is one, the software
/// stage otherwise.
pub open spec fn encoder(encoding: Encoding, acceleration: Acceleration) -> Result<
    Seq<StageView>,
    Error,
> {
    match encoding {
        Encoding::RAW => Ok(Seq::empty()),
        Encoding::MJPEG => Ok(seq![StageView::plain("jpegenc")]),
        Encoding::MPEG2 => Ok(seq![StageView::plain("mpegtsmux"), StageView::plain("mpeg2enc")]),
        Encoding::MPEG4 => Ok(seq![StageView::plain("avenc_mpeg4")]),
        Encoding::H264 => Ok(
            seq![
                match acceleration {
                    Acceleration::VAAPI => StageView::plain("vaapih264enc").with(
                        "quality-level",
                        ValueView::UInt(6),
                    ).with("tune", ValueView::Nick("low-power")),
                    Acceleration::OMX => StageView::plain("omxh264enc"),
                    Acceleration::NONE => StageView::plain("x264enc").with(
                        "tune",
                        ValueView::Nick("zerolatency"),
                    ).with("speed-preset", ValueView::Nick("superfast")),
                },
            ],
        ),
        Encoding::H265 => Ok(
            seq![
                match acceleration {
                    Acceleration::VAAPI => StageView::plain("vaapih265enc").with(
                        "quality-level",
                        ValueView::UInt(6),
                    ).with("tune", ValueView::Nick("low-power")),
                    _ => StageView::plain("x265enc").with(
                        "tune",
                        ValueView::Nick("zerolatency"),
                    ).with("speed-preset", ValueView::Nick("superfast")),
                },
            ],
        ),
        Encoding::VP8 => Ok(
            seq![
                match acceleration {
                    Acceleration::VAAPI => StageView::plain("vaapivp8enc"),
                    _ => StageView::plain("vp8enc"),
                },
            ],
        ),
        Encoding::VP9 => Ok(
            seq![
                match acceleration {
                    Acceleration::VAAPI => StageView::plain("vaapivp9enc"),
                    _ => StageView::plain("vp9enc"),
                },
            ],
        ),
        Encoding::AV1 => Ok(seq![StageView::plain("av1enc")]),
        Encoding::PNG => Err(Error::Other("invalid encoding")),
    }
}

/// The stages that decode to raw video, for an encoding and a method of
/// acceleration, the one nearest the sink first.
pub open spec fn decoder(encoding: Encoding, acceleration: Acceleration) -> Result<
    Seq<StageView>,
    Error,
> {
    match encoding {
        Encoding::PNG => Ok(
            seq![
                StageView::plain("imagefreeze"),
                StageView::plain("videoconvert"),
                StageView::plain("pngdec"),
            ],
        ),
        Encoding::MJPEG => Ok(seq![StageView::plain("jpegdec")]),
        Encoding::MPEG2 => Ok(seq![StageView::plain("mpeg2dec"), StageView::plain("tsdemux")]),
        Encoding::MPEG4 => Ok(
            seq![StageView::plain("avdec_mpeg4").with("output-corrupt", ValueView::Bool(false))],
        ),
        Encoding::H264 => Ok(
            seq![
                match acceleration {
                    Acceleration::VAAPI => StageView::plain("vaapih264dec"),
                    Acceleration::OMX => StageView::plain("omxh264dec"),
                    Acceleration::NONE => StageView::plain("avdec_h264").with(
                        "output-corrupt",
                        ValueView::Bool(false),
                    ),
                },
            ],
        ),
        Encoding::H265 => Ok(
            seq![
                match acceleration {
                    Acceleration::VAAPI => StageView::plain("vaapih265dec"),
                    _ => StageView::plain("libde265dec"),
                },
            ],
        ),
        Encoding::VP8 => Ok(
            seq![
                match acceleration {
                    Acceleration::VAAPI => StageView::plain("vaapivp8dec"),
                    Acceleration::OMX => StageView::plain("omxvp8dec"),
                    Acceleration::NONE => StageView::plain("vp8dec"),
                },
            ],
        ),
        Encoding::VP9 => Ok(
            seq![
                match acceleration {
                    Acceleration::VAAPI => StageView::plain("vaapivp9dec"),
                    _ => StageView::plain("vp9dec"),
                },
            ],
        ),
        Encoding::AV1 => Ok(seq![StageView::plain("av1dec")]),
        Encoding::RAW => Err(Error::Other("invalid encoding")),
    }
}

impl FlowBuilderView {
    /// The flow lays a text over the picture.
    pub open spec fn has_text(self) -> bool {
        self.overlay_text is Some
    }

    /// The picture has to be taken apart and put together again: the two
    /// sides differ in encoding, or a text is laid over it.
    pub open spec fn needs_transcode(self) -> bool {
        self.source.encoding != self.sink.encoding() || self.has_text()
    }

    /// The sink takes an encoding that has to be made.
    pub open spec fn needs_encode(self) -> bool {
        self.sink.encoding() != Encoding::RAW && self.needs_transcode()
    }

    /// The source gives an encoding that has to be taken apart.
    pub open spec fn needs_decode(self) -> bool {
        self.source.encoding != Encoding::RAW && self.needs_transcode()
    }

    /// RTP packets can pass from the source to the sink as they are.
    pub open spec fn is_rtp_passthru(self) -> bool {
        &&& self.source.is_rtp_or_rtsp()
        &&& self.sink is RTP
        &&& !self.sink.insert_config()
        &&& !self.needs_transcode()
    }

    /// The sink sends RTP that has to be packed.
    pub open spec fn needs_rtp_pay(self) -> bool {
        self.sink is RTP && !self.is_rtp_passthru()
    }

    /// The source receives RTP that has to be unpacked.
    pub open spec fn needs_rtp_depay(self) -> bool {
        self.source.is_rtp_or_rtsp() && !self.is_rtp_passthru()
    }

    /// The stage at the end of the chain.
    pub open spec fn sink_stage(self) -> StageView {
        let s = StageView::plain(self.sink.factory_name(self.acceleration)).named("sink");
        match self.sink {
            SinkView::FAKE => s,
            SinkView::RTP(addr, port, _, _) => s.with("host", ValueView::Text(addr)).with(
                "port",
                ValueView::Int(port),
            ).with("ttl-mc", ValueView::Int(TTL_MULTICAST)),
            SinkView::WINDOW(crop) => {
                let w = s.with(
                    "force-aspect-ratio",
                    ValueView::Bool(crop.aspect == crate::flow::AspectRatio::PRESERVE),
                );
                match self.handle {
                    Some(h) => w.with("window-handle", ValueView::Handle(h)),
                    None => w,
                }
            },
        }
    }

    /// The stage that puts the sink's encoding into RTP packets. Where the
    /// sink is to send its configuration in band, MPEG-4 repeats its headers
    /// every second, and H.264 and H.265 send their parameter sets with
    /// every key frame.
    pub open spec fn pay_stage(self) -> Result<StageView, Error> {
        let encoding = self.sink.encoding();
        match encoding.pay_name() {
            None => Err(Error::Other("invalid encoding for RTP")),
            Some(name) => {
                let s = StageView::plain(name);
                if self.sink.insert_config() && encoding == Encoding::MPEG4 {
                    Ok(s.with("config-interval", ValueView::UInt(1)))
                } else if self.sink.insert_config() && (encoding == Encoding::H264 || encoding
                    == Encoding::H265) {
                    Ok(s.with("config-interval", ValueView::Int(-1i32)))
                } else {
                    Ok(s)
                }
            },
        }
    }

    /// The stage that takes the source's encoding out of RTP packets.
    pub open spec fn depay_stage(self) -> Result<StageView, Error> {
        match self.source.encoding.depay_name() {
            None => Err(Error::Other("invalid encoding for RTP")),
            Some(name) => Ok(StageView::plain(name)),
        }
    }

    /// The stage that lays the text over the picture, in the top right
    /// corner; its font is set once the frame height is known.
    pub open spec fn text_stage(self) -> StageView {
        StageView::plain("textoverlay").named("txt").with(
            "auto-resize",
            ValueView::Bool(false),
        ).with(
            "text",
            ValueView::Text(
                match self.overlay_text {
                    Some(t) => t,
                    None => Seq::empty(),
                },
            ),
        ).with("shaded-background", ValueView::Bool(false)).with(
            "color",
            ValueView::UInt(OVERLAY_COLOR),
        ).with("wrap-mode", ValueView::Nick("none")).with(
            "halignment",
            ValueView::Nick("right"),
        ).with("valignment", ValueView::Nick("top"))
    }

    /// What may pass the filter behind an RTP source.
    pub open spec fn rtp_caps(self) -> Seq<CapsFieldView> {
        let rate = seq![
            CapsFieldView { key: "clock-rate", value: CapsValueView::Int(RTP_VIDEO_CLOCK_RATE) },
        ];
        let named = if self.source.encoding == Encoding::MPEG2 {
            rate.push(
                CapsFieldView { key: "encoding-name", value: CapsValueView::Text("MP2T"@) },
            )
        } else {
            rate
        };
        match self.source.sprops {
            Some(sprops) => named.push(
                CapsFieldView { key: "sprop-parameter-sets", value: CapsValueView::Text(sprops) },
            ),
            None => named,
        }
    }

    /// The stages of an RTP source: jitter buffer, filter, receiver.
    pub open spec fn rtp_source(self) -> Seq<StageView> {
        seq![
            StageView::plain("rtpjitterbuffer").named("jitter").with(
                "latency",
                ValueView::UInt(self.source.latency),
            ).with("max-dropout-time", ValueView::UInt((self.source.timeout * 1000) as u32)),
            StageView::plain("capsfilter").with(
                "caps",
                ValueView::Caps("application/x-rtp", self.rtp_caps()),
            ),
            StageView::plain("udpsrc").with("uri", ValueView::Text(self.source.location)).with(
                "timeout",
                ValueView::ULong((self.source.timeout * SEC_NS) as u64),
            ),
        ]
    }

    /// The stage of an RTSP source.
    pub open spec fn rtsp_source(self) -> StageView {
        let s = StageView::plain("rtspsrc").with(
            "location",
            ValueView::Text(self.source.location),
        );
        let t = match self.source.rtsp_transport {
            Transport::ANY => s,
            Transport::UDP => s.with("protocols", ValueView::Nick("udp")),
            Transport::MCAST => s.with("protocols", ValueView::Nick("udp-mcast")),
            Transport::TCP => s.with("protocols", ValueView::Nick("tcp")),
        };
        t.with("tcp-timeout", ValueView::ULong((self.source.timeout * SEC_US) as u64)).with(
            "timeout",
            ValueView::ULong((self.source.timeout * SEC_US) as u64),
        ).with("latency", ValueView::UInt(self.source.latency)).with(
            "do-retransmission",
            ValueView::Bool(false),
        ).with("user-agent", ValueView::Text(AGENT@)).with(
            "select-stream",
            ValueView::Stream(STREAM_NUM_VIDEO),
        )
    }

    /// The stage of an HTTP source, which serves pictures only.
    pub open spec fn http_source(self) -> Result<StageView, Error> {
        if self.source.encoding == Encoding::PNG || self.source.encoding == Encoding::MJPEG {
            Ok(
                StageView::plain("souphttpsrc").with(
                    "location",
                    ValueView::Text(self.source.location),
                ).with("timeout", ValueView::UInt(self.source.timeout as u32)).with(
                    "retries",
                    ValueView::Int(0),
                ),
            )
        } else {
            Err(Error::Other("invalid encoding for HTTP"))
        }
    }

    /// The stage of a test pattern.
    pub open spec fn test_source() -> StageView {
        StageView::plain("videotestsrc").with("pattern", ValueView::Nick("smpte75")).with(
            "is-live",
            ValueView::Bool(true),
        )
    }

    /// The stages at the head of the chain, by the scheme of the location.
    pub open spec fn source_stages(self) -> Result<Seq<StageView>, Error> {
        if self.source.is_rtp() {
            Ok(self.rtp_source())
        } else if self.source.is_rtsp() {
            Ok(seq![self.rtsp_source()])
        } else if self.source.is_http() {
            one(self.http_source())
        } else {
            Ok(seq![Self::test_source()])
        }
    }

    /// The stages nearest the sink: the sink itself, then what packs and
    /// encodes for it, then the crop.
    pub open spec fn sink_side(self) -> Result<Seq<StageView>, Error> {
        let sink = Ok(seq![self.sink_stage()]);
        let pay = join(sink, when(self.needs_rtp_pay(), one(self.pay_stage())));
        let encode = join(
            pay,
            when(
                self.needs_encode(),
                join(encoder(self.sink.encoding(), self.acceleration), Ok(seq![queue_stage(true)])),
            ),
        );
        join(encode, when(self.sink.crop().is_cropped(), Ok(seq![crop_stage()])))
    }

    /// The chain of the flow, from the sink back to the source, or the first
    /// error that its planning meets in that order. Each stage that encodes,
    /// overlays or decodes is followed by a buffer, and only the buffer that
    /// follows the encoder is leaky; RTP that passes through is buffered
    /// once.
    pub open spec fn chain(self) -> Result<Seq<StageView>, Error> {
        let text = join(
            self.sink_side(),
            when(self.has_text(), Ok(seq![self.text_stage(), queue_stage(false)])),
        );
        let decode = join(
            text,
            when(
                self.needs_decode(),
                join(
                    decoder(self.source.encoding, self.acceleration),
                    Ok(seq![queue_stage(false)]),
                ),
            ),
        );
        let depay = join(decode, when(self.needs_rtp_depay(), one(self.depay_stage())));
        let passthru = join(depay, when(self.is_rtp_passthru(), Ok(seq![queue_stage(false)])));
        join(passthru, self.source_stages())
    }
}

/// An executable stage, or error, is the one that a plan names.
pub open spec fn is_stage(r: Result<Stage, Error>, plan: Result<StageView, Error>) -> bool {
    match plan {
        Ok(v) => r matches Ok(s) && s@ == v,
        Err(e) => r matches Err(x) && x == e,
    }
}

/// Executable stages, or an error, are those that a plan names.
pub open spec fn is_chain(r: Result<Vec<Stage>, Error>, plan: Result<Seq<StageView>, Error>) -> bool {
    match plan {
        Ok(v) => r matches Ok(s) && stage_views(s@) == v,
        Err(e) => r matches Err(x) && x == e,
    }
}

/// Without a text to lay over, RTP passes through as it is exactly where
/// both sides carry RTP in the same encoding. The one exception, left out
/// here: a sink that is to send its configuration in band never lets
/// matching RTP pass through.
pub proof fn lemma_passthru_iff_rtp_and_same_encoding(b: FlowBuilderView)
    requires
        b.overlay_text is None,
        !(b.sink.insert_config() && b.source.is_rtp_or_rtsp() && b.source.encoding
            == b.sink.encoding()),
    ensures
        b.is_rtp_passthru() <==> (b.source.is_rtp_or_rtsp() && b.sink is RTP && b.source.encoding
            == b.sink.encoding()),
{
}

/// Acceleration never makes planning fail: for every encoding, an
/// accelerated flow has as many stages that encode or decode as one in
/// software, or none of them can be planned.
pub proof fn lemma_acceleration_falls_back(encoding: Encoding, acceleration: Acceleration)
    ensures
        encoder(encoding, acceleration) is Ok <==> encoding != Encoding::PNG,
        decoder(encoding, acceleration) is Ok <==> encoding != Encoding::RAW,
        encoder(encoding, acceleration) matches Ok(stages) ==> stages.len() == encoder(
            encoding,
            Acceleration::NONE,
        )->Ok_0.len(),
        decoder(encoding, acceleration) matches Ok(stages) ==> stages.len() == decoder(
            encoding,
            Acceleration::NONE,
        )->Ok_0.len(),
{
}

impl FlowBuilderView {
    /// What keeps a flow from being planned: RTP that is to be packed or
    /// unpacked in an encoding that RTP does not carry, or an HTTP source of
    /// anything but pictures.
    pub open spec fn unplannable(self) -> bool {
        ||| self.needs_rtp_pay() && self.sink.encoding().pay_name() is None
        ||| self.needs_rtp_depay() && self.source.encoding.depay_name() is None
        ||| self.source_stages() is Err
    }
}

/// A flow can be planned unless something keeps it from being planned, and
/// then the error is the first of: the sink's encoding, the source's
/// encoding, the source's location.
pub proof fn lemma_chain_fails(b: FlowBuilderView)
    ensures
        b.chain() is Err <==> b.unplannable(),
        b.chain() matches Err(e) ==> e == (if b.needs_rtp_pay() && b.sink.encoding().pay_name()
            is None {
            Error::Other("invalid encoding for RTP")
        } else if b.needs_rtp_depay() && b.source.encoding.depay_name() is None {
            Error::Other("invalid encoding for RTP")
        } else {
            Error::Other("invalid encoding for HTTP")
        }),
{
    lemma_acceleration_falls_back(b.sink.encoding(), b.acceleration);
    lemma_acceleration_falls_back(b.source.encoding, b.acceleration);
}

/// Raw video, PNG pictures and AV1 have no place in RTP packets: a flow that
/// has to pack or unpack one of them cannot be planned.
pub proof fn lemma_unmapped_encodings_fail(b: FlowBuilderView)
    ensures
        b.sink.encoding().pay_name() is None <==> (b.sink.encoding() == Encoding::RAW
            || b.sink.encoding() == Encoding::PNG || b.sink.encoding() == Encoding::AV1),
        b.source.encoding.depay_name() is None <==> (b.source.encoding == Encoding::RAW
            || b.source.encoding == Encoding::PNG || b.source.encoding == Encoding::AV1),
        (b.needs_rtp_pay() && b.sink.encoding().pay_name() is None) || (b.needs_rtp_depay()
            && b.source.encoding.depay_name() is None) ==> b.chain() == Err::<
            Seq<StageView>,
            Error,
        >(Error::Other("invalid encoding for RTP")),
{
    lemma_chain_fails(b);
}

/// Where RTP passes through, the chain is the sink, one buffer and the
/// source, and nothing else.
pub proof fn lemma_passthru_chain(b: FlowBuilderView)
    requires
        b.is_rtp_passthru(),
    ensures
        b.chain() == join(Ok(seq![b.sink_stage(), queue_stage(false)]), b.source_stages()),
{
    let empty = Seq::<StageView>::empty();
    let sink = seq![b.sink_stage()];
    assert(sink + empty =~= sink);
    assert(b.sink_side() == Ok::<Seq<StageView>, Error>(sink));
    assert(sink + seq![queue_stage(false)] =~= seq![b.sink_stage(), queue_stage(false)]);
}

/// Two parts make a chain where both can be planned, and the chain is the
/// one part followed by the other.
pub proof fn lemma_join(a: Result<Seq<StageView>, Error>, b: Result<Seq<StageView>, Error>)
    ensures
        join(a, b) is Ok <==> a is Ok && b is Ok,
        join(a, b) matches Ok(c) ==> c == a->Ok_0 + b->Ok_0,
        a matches Err(e) ==> join(a, b) == Err::<Seq<StageView>, Error>(e),
{
}

/// The stages nearest the sink begin with the sink stage.
pub proof fn lemma_sink_side_begins(b: FlowBuilderView)
    ensures
        b.sink_side() matches Ok(side) ==> side.len() >= 1 && side[0] == b.sink_stage(),
{
    let sink = Ok::<Seq<StageView>, Error>(seq![b.sink_stage()]);
    let pay = join(sink, when(b.needs_rtp_pay(), one(b.pay_stage())));
    let encode = join(
        pay,
        when(
            b.needs_encode(),
            join(encoder(b.sink.encoding(), b.acceleration), Ok(seq![queue_stage(true)])),
        ),
    );
    let crop = when(b.sink.crop().is_cropped(), Ok(seq![crop_stage()]));
    assert(b.sink_side() == join(encode, crop));
    lemma_join(sink, when(b.needs_rtp_pay(), one(b.pay_stage())));
    lemma_join(
        pay,
        when(
            b.needs_encode(),
            join(encoder(b.sink.encoding(), b.acceleration), Ok(seq![queue_stage(true)])),
        ),
    );
    lemma_join(encode, crop);
}

/// Every chain begins with the sink stage and ends with the source stages.
pub proof fn lemma_chain_ends(b: FlowBuilderView)
    ensures
        b.chain() matches Ok(chain) ==> {
            &&& b.source_stages() matches Ok(source)
            &&& source.len() >= 1
            &&& chain.len() >= 1 + source.len()
            &&& chain[0] == b.sink_stage()
            &&& chain.skip(chain.len() - source.len()) == source
        },
{
    let side = b.sink_side();
    let text_part = when(b.has_text(), Ok(seq![b.text_stage(), queue_stage(false)]));
    let text = join(side, text_part);
    let decode_part = when(
        b.needs_decode(),
        join(decoder(b.source.encoding, b.acceleration), Ok(seq![queue_stage(false)])),
    );
    let decode = join(text, decode_part);
    let depay_part = when(b.needs_rtp_depay(), one(b.depay_stage()));
    let depay = join(decode, depay_part);
    let passthru_part = when(b.is_rtp_passthru(), Ok(seq![queue_stage(false)]));
    let passthru = join(depay, passthru_part);
    let source = b.source_stages();
    assert(b.chain() == join(passthru, source));
    lemma_sink_side_begins(b);
    lemma_join(side, text_part);
    lemma_join(text, decode_part);
    lemma_join(decode, depay_part);
    lemma_join(depay, passthru_part);
    lemma_join(passthru, source);
    if let Ok(chain) = b.chain() {
        let before = passthru->Ok_0;
        let tail = source->Ok_0;
        assert(tail.len() >= 1) by {
            assert(b.source_stages() is Ok);
        }
        assert(before.len() >= 1 && before[0] == b.sink_stage());
        assert(chain == before + tail);
        assert(chain.skip(chain.len() - tail.len()) =~= tail);
    }
}

/// A flow whose RTP passes through has no stage that encodes, decodes, or
/// packs or unpacks RTP, and one whose RTP does not pass through has no
/// buffer for passing through.
pub proof fn lemma_passthru_excludes_transcoding(b: FlowBuilderView)
    ensures
        b.is_rtp_passthru() ==> !b.needs_encode() && !b.needs_decode() && !b.needs_rtp_pay()
            && !b.needs_rtp_depay(),
        b.needs_encode() || b.needs_decode() ==> b.needs_transcode() && !b.is_rtp_passthru(),
{
}

/// A video flow, planned and ready to be set up.
#[derive(Clone, Debug)]
pub struct Flow {
    /// Name of the pipeline
    pub name: String,
    /// The stages of the pipeline, from the sink back to the source
    pub stages: Vec<Stage>,
    /// Period of the flow's checks (ms)
    pub timeout_ms: u32,
    /// The event to report once the flow is set up
    pub feedback: Feedback,
    /// The state of the flow, which takes its bus messages
    pub monitor: FlowMonitor,
    /// The periodic check of the flow
    pub checker: FlowChecker,
}

/// What a planned flow holds, as plain values.
pub struct FlowView {
    pub name: Seq<char>,
    pub stages: Seq<StageView>,
    pub timeout_ms: u32,
    pub feedback: Feedback,
    pub monitor: FlowMonitorView,
    pub checker: FlowCheckerView,
}

impl View for Flow {
    type V = FlowView;

    open spec fn view(&self) -> FlowView {
        FlowView {
            name: self.name@,
            stages: stage_views(self.stages@),
            timeout_ms: self.timeout_ms,
            feedback: self.feedback,
            monitor: self.monitor@,
            checker: self.checker@,
        }
    }
}

impl FlowBuilderView {
    /// The flow that is built: its pipeline is named after its index and
    /// made of the chain; it is at rest and says so; it is checked once in
    /// every timeout of its source.
    pub open spec fn flow(self) -> Result<FlowView, Error> {
        match self.chain() {
            Ok(stages) => Ok(
                FlowView {
                    name: "m"@ + decimal_digits(self.idx as nat),
                    stages,
                    timeout_ms: (self.source.timeout * 1_000) as u32,
                    feedback: Feedback::Stopped(self.idx),
                    monitor: FlowMonitorView::stopped(self),
                    checker: FlowCheckerView::start(self.idx),
                },
            ),
            Err(e) => Err(e),
        }
    }
}

/// An executable flow, or error, is the one that a plan names.
pub open spec fn is_flow(r: Result<Flow, Error>, plan: Result<FlowView, Error>) -> bool {
    match plan {
        Ok(v) => r matches Ok(f) && f@ == v,
        Err(e) => r matches Err(x) && x == e,
    }
}

impl FlowBuilder {
    /// Create a new flow builder
    pub fn new(idx: usize) -> (r: Self)
        ensures
            r@ == (FlowBuilderView {
                idx,
                source: SourceView::initial(),
                sink: SinkView::FAKE,
                acceleration: Acceleration::NONE,
                overlay_text: None,
                handle: None,
            }),
    {
        FlowBuilder {
            idx,
            source: Source::default(),
            sink: Sink::FAKE,
            acceleration: Acceleration::NONE,
            overlay_text: None,
            handle: None,
        }
    }

    /// Use the specified source
    pub fn with_source(self, source: Source) -> (r: Self)
        ensures
            r@ == (FlowBuilderView { source: source@, ..self@ }),
    {
        let mut b = self;
        b.source = source;
        b
    }

    /// Use the specified sink
    pub fn with_sink(self, sink: Sink) -> (r: Self)
        ensures
            r@ == (FlowBuilderView { sink: sink@, ..self@ }),
    {
        let mut b = self;
        b.sink = sink;
        b
    }

    /// Use the specified video acceleration
    pub fn with_acceleration(self, acceleration: Acceleration) -> (r: Self)
        ensures
            r@ == (FlowBuilderView { acceleration, ..self@ }),
    {
        let mut b = self;
        b.acceleration = acceleration;
        b
    }

    /// Use the specified overlay text
    pub fn with_overlay_text(self, overlay_text: Option<&str>) -> (r: Self)
        ensures
            r@ == (FlowBuilderView {
                overlay_text: match overlay_text {
                    Some(t) => Some(t@),
                    None => None,
                },
                ..self@
            }),
    {
        let mut b = self;
        b.overlay_text = match overlay_text {
            Some(t) => Some(String::from_str(t)),
            None => None,
        };
        b
    }

    /// Use the specified video overlay window handle
    pub fn with_handle(self, handle: Option<usize>) -> (r: Self)
        ensures
            r@ == (FlowBuilderView { handle, ..self@ }),
    {
        let mut b = self;
        b.handle = handle;
        b
    }

    /// Build the flow
    pub fn build(self) -> (r: Result<Flow, Error>)
        ensures
            is_flow(r, self@.flow()),
    {
        let mut name = String::from_str("m");
        push_decimal(&mut name, self.idx as u64);
        let stages = match self.add_elements() {
            Ok(stages) => stages,
            Err(e) => {
                return Err(e);
            },
        };
        let timeout_ms = self.source.timeout_ms();
        let idx = self.idx;
        Ok(
            Flow {
                name,
                stages,
                timeout_ms,
                feedback: Feedback::Stopped(idx),
                monitor: FlowMonitor::new(self),
                checker: FlowChecker::new(idx),
            },
        )
    }

    /// Get the index of the flow
    pub fn idx(&self) -> (r: usize)
        ensures
            r == self@.idx,
    {
        self.idx
    }

    /// Get the sink
    pub fn sink(&self) -> (r: &Sink)
        ensures
            r@ == self@.sink,
    {
        &self.sink
    }

    /// Get the source
    pub fn source(&self) -> (r: &Source)
        ensures
            r@ == self@.source,
    {
        &self.source
    }

    /// Check if pipeline should have a text overlay
    pub fn has_text(&self) -> (r: bool)
        ensures
            r == self@.has_text(),
    {
        self.overlay_text.is_some()
    }

    /// Add the elements nearest the sink
    fn add_sink_side(&self) -> (r: Result<Vec<Stage>, Error>)
        ensures
            is_chain(r, self@.sink_side()),
    {
        let mut chain: Vec<Stage> = Vec::new();
        assert(stage_views(chain@) =~= Seq::empty());
        push_stage(&mut chain, self.create_sink());
        assert(stage_views(chain@) =~= seq![self@.sink_stage()]);
        let ghost sink = Ok::<Seq<StageView>, Error>(stage_views(chain@));
        if self.needs_rtp_pay() {
            match self.add_rtp_pay() {
                Ok(pay) => {
                    push_stage(&mut chain, pay);
                    assert(stage_views(chain@) =~= sink->Ok_0 + seq![pay@]);
                },
                Err(e) => {
                    return Err(e);
                },
            }
        } else {
            assert(stage_views(chain@) =~= sink->Ok_0 + Seq::<StageView>::empty());
        }
        let ghost pay = Ok::<Seq<StageView>, Error>(stage_views(chain@));
        assert(pay == join(sink, when(self@.needs_rtp_pay(), one(self@.pay_stage()))));
        if self.needs_encode() {
            match self.add_encode() {
                Ok(enc) => {
                    push_stages(&mut chain, enc);
                    push_stage(&mut chain, self.add_queue(true));
                    assert(stage_views(chain@) =~= pay->Ok_0 + (stage_views(enc@)
                        + seq![queue_stage(true)]));
                },
                Err(e) => {
                    return Err(e);
                },
            }
        } else {
            assert(stage_views(chain@) =~= pay->Ok_0 + Seq::<StageView>::empty());
        }
        let ghost encode = Ok::<Seq<StageView>, Error>(stage_views(chain@));
        assert(encode == join(
            pay,
            when(
                self@.needs_encode(),
                join(
                    encoder(self@.sink.encoding(), self@.acceleration),
                    Ok(seq![queue_stage(true)]),
                ),
            ),
        ));
        if self.sink.crop().is_cropped() {
            push_stage(&mut chain, Stage::new("videobox").named("vbox"));
            assert(stage_views(chain@) =~= encode->Ok_0 + seq![crop_stage()]);
        } else {
            assert(stage_views(chain@) =~= encode->Ok_0 + Seq::<StageView>::empty());
        }
        Ok(chain)
    }

    /// Add all required elements to the pipeline
    ///
    /// Pipeline is built from sink to source.
    pub fn add_elements(&self) -> (r: Result<Vec<Stage>, Error>)
        ensures
            is_chain(r, self@.chain()),
    {
        let mut chain = match self.add_sink_side() {
            Ok(chain) => chain,
            Err(e) => {
                return Err(e);
            },
        };
        let ghost side = Ok::<Seq<StageView>, Error>(stage_views(chain@));
        assert(side == self@.sink_side());
        if self.has_text() {
            push_stage(&mut chain, self.create_text());
            push_stage(&mut chain, self.add_queue(false));
            assert(stage_views(chain@) =~= side->Ok_0 + seq![
                self@.text_stage(),
                queue_stage(false),
            ]);
        } else {
            assert(stage_views(chain@) =~= side->Ok_0 + Seq::<StageView>::empty());
        }
        let ghost text = Ok::<Seq<StageView>, Error>(stage_views(chain@));
        assert(text == join(
            side,
            when(self@.has_text(), Ok(seq![self@.text_stage(), queue_stage(false)])),
        ));
        if self.needs_decode() {
            match self.add_decode() {
                Ok(dec) => {
                    push_stages(&mut chain, dec);
                    push_stage(&mut chain, self.add_queue(false));
                    assert(stage_views(chain@) =~= text->Ok_0 + (stage_views(dec@)
                        + seq![queue_stage(false)]));
                },
                Err(e) => {
                    return Err(e);
                },
            }
        } else {
            assert(stage_views(chain@) =~= text->Ok_0 + Seq::<StageView>::empty());
        }
        let ghost decode = Ok::<Seq<StageView>, Error>(stage_views(chain@));
        assert(decode == join(
            text,
            when(
                self@.needs_decode(),
                join(
                    decoder(self@.source.encoding, self@.acceleration),
                    Ok(seq![queue_stage(false)]),
                ),
            ),
        ));
        if self.needs_rtp_depay() {
            match self.source.encoding().rtp_depay() {
                Ok(name) => {
                    push_stage(&mut chain, Stage::new(name));
                    assert(stage_views(chain@) =~= decode->Ok_0 + seq![StageView::plain(name)]);
                },
                Err(e) => {
                    return Err(e);
                },
            }
        } else {
            assert(stage_views(chain@) =~= decode->Ok_0 + Seq::<StageView>::empty());
        }
        let ghost depay = Ok::<Seq<StageView>, Error>(stage_views(chain@));
        assert(depay == join(decode, when(self@.needs_rtp_depay(), one(self@.depay_stage()))));
        if self.is_rtp_passthru() {
            push_stage(&mut chain, self.add_queue(false));
            assert(stage_views(chain@) =~= depay->Ok_0 + seq![queue_stage(false)]);
        } else {
            assert(stage_views(chain@) =~= depay->Ok_0 + Seq::<StageView>::empty());
        }
        let ghost passthru = Ok::<Seq<StageView>, Error>(stage_views(chain@));
        assert(passthru == join(
            depay,
            when(self@.is_rtp_passthru(), Ok(seq![queue_stage(false)])),
        ));
        match self.add_source() {
            Ok(src) => {
                push_stages(&mut chain, src);
                Ok(chain)
            },
            Err(e) => Err(e),
        }
    }

    /// Check if pipeline needs RTP payloader
    pub fn needs_rtp_pay(&self) -> (r: bool)
        ensures
            r == self@.needs_rtp_pay(),
    {
        self.sink.is_rtp() && !self.is_rtp_passthru()
    }

    /// Check if pipeline needs RTP depayloader
    pub fn needs_rtp_depay(&self) -> (r: bool)
        ensures
            r == self@.needs_rtp_depay(),
    {
        self.source.is_rtp_or_rtsp() && !self.is_rtp_passthru()
    }

    /// Check if RTP can pass unchanged from source to sink
    pub fn is_rtp_passthru(&self) -> (r: bool)
        ensures
            r == self@.is_rtp_passthru(),
    {
        self.source.is_rtp_or_rtsp() && self.sink.is_rtp() && !self.sink.insert_config()
            && !self.needs_transcode()
    }

    /// Check if pipeline needs transcoding
    pub fn needs_transcode(&self) -> (r: bool)
        ensures
            r == self@.needs_transcode(),
    {
        self.source.encoding() != self.sink.encoding() || self.has_text()
    }

    /// Check if pipeline needs encoding
    pub fn needs_encode(&self) -> (r: bool)
        ensures
            r == self@.needs_encode(),
    {
        self.sink.encoding() != Encoding::RAW && self.needs_transcode()
    }

    /// Check if pipeline needs decoding
    pub fn needs_decode(&self) -> (r: bool)
        ensures
            r == self@.needs_decode(),
    {
        self.source.encoding() != Encoding::RAW && self.needs_transcode()
    }

    /// Add RTP payload element
    pub fn add_rtp_pay(&self) -> (r: Result<Stage, Error>)
        ensures
            is_stage(r, self@.pay_stage()),
    {
        let pay = match self.sink.encoding().rtp_pay() {
            Ok(name) => Stage::new(name),
            Err(e) => {
                return Err(e);
            },
        };
        if self.sink.insert_config() {
            match self.sink.encoding() {
                Encoding::MPEG4 => {
                    // send configuration headers once per second
                    Ok(pay.with("config-interval", Value::UInt(1)))
                },
                Encoding::H264 | Encoding::H265 => {
                    // send sprop parameter sets every IDR frame (-1)
                    Ok(pay.with("config-interval", Value::Int(-1)))
                },
                _ => Ok(pay),
            }
        } else {
            Ok(pay)
        }
    }

    /// Add encode elements
    pub fn add_encode(&self) -> (r: Result<Vec<Stage>, Error>)
        ensures
            is_chain(r, encoder(self@.sink.encoding(), self@.acceleration)),
    {
        let mut v: Vec<Stage> = Vec::new();
        assert(stage_views(v@) =~= Seq::empty());
        match self.sink.encoding() {
            Encoding::RAW => {},
            Encoding::MJPEG => push_stage(&mut v, Stage::new("jpegenc")),
            Encoding::MPEG2 => {
                push_stage(&mut v, Stage::new("mpegtsmux"));
                push_stage(&mut v, Stage::new("mpeg2enc"));
            },
            Encoding::MPEG4 => push_stage(&mut v, self.create_mpeg4enc()),
            Encoding::H264 => push_stage(&mut v, self.create_h264enc()),
            Encoding::H265 => push_stage(&mut v, self.create_h265enc()),
            Encoding::VP8 => push_stage(&mut v, self.create_vp8enc()),
            Encoding::VP9 => push_stage(&mut v, self.create_vp9enc()),
            Encoding::AV1 => push_stage(&mut v, Stage::new("av1enc")),
            Encoding::PNG => {
                return Err(Error::Other("invalid encoding"));
            },
        }
        assert(stage_views(v@) =~= encoder(self@.sink.encoding(), self@.acceleration)->Ok_0);
        Ok(v)
    }

    /// Create MPEG-4 encode element
    pub fn create_mpeg4enc(&self) -> (r: Stage)
        ensures
            seq![r@] == encoder(Encoding::MPEG4, self@.acceleration)->Ok_0,
    {
        Stage::new("avenc_mpeg4")
    }

    /// Create h.264 encode element
    pub fn create_h264enc(&self) -> (r: Stage)
        ensures
            seq![r@] == encoder(Encoding::H264, self@.acceleration)->Ok_0,
    {
        match self.acceleration {
            Acceleration::VAAPI => {
                // Quality-level ranges to 1 (best) to 7 (worst)
                Stage::new("vaapih264enc").with("quality-level", Value::UInt(6)).with(
                    "tune",
                    Value::Nick("low-power"),
                )
            },
            Acceleration::OMX => Stage::new("omxh264enc"),
            Acceleration::NONE => {
                // With the default "medium" speed-preset, the pipeline can't
                // run live.  With "superfast", the quality is still very good.
                Stage::new("x264enc").with("tune", Value::Nick("zerolatency")).with(
                    "speed-preset",
                    Value::Nick("superfast"),
                )
            },
        }
    }

    /// Create h.265 encode element
    pub fn create_h265enc(&self) -> (r: Stage)
        ensures
            seq![r@] == encoder(Encoding::H265, self@.acceleration)->Ok_0,
    {
        match self.acceleration {
            Acceleration::VAAPI => {
                // Quality-level ranges to 1 (best) to 7 (worst)
                Stage::new("vaapih265enc").with("quality-level", Value::UInt(6)).with(
                    "tune",
                    Value::Nick("low-power"),
                )
            },
            _ => Stage::new("x265enc").with("tune", Value::Nick("zerolatency")).with(
                "speed-preset",
                Value::Nick("superfast"),
            ),
        }
    }

    /// Create VP8 encode element
    pub fn create_vp8enc(&self) -> (r: Stage)
        ensures
            seq![r@] == encoder(Encoding::VP8, self@.acceleration)->Ok_0,
    {
        match self.acceleration {
            Acceleration::VAAPI => Stage::new("vaapivp8enc"),
            _ => Stage::new("vp8enc"),
        }
    }

    /// Create VP9 encode element
    pub fn create_vp9enc(&self) -> (r: Stage)
        ensures
            seq![r@] == encoder(Encoding::VP9, self@.acceleration)->Ok_0,
    {
        match self.acceleration {
            Acceleration::VAAPI => Stage::new("vaapivp9enc"),
            _ => Stage::new("vp9enc"),
        }
    }

    /// Add source elements
    pub fn add_source(&self) -> (r: Result<Vec<Stage>, Error>)
        ensures
            is_chain(r, self@.source_stages()),
    {
        if self.source.is_rtp() {
            Ok(self.add_source_rtp())
        } else if self.source.is_rtsp() {
            let mut v: Vec<Stage> = Vec::new();
            assert(stage_views(v@) =~= Seq::empty());
            push_stage(&mut v, self.add_source_rtsp());
            assert(stage_views(v@) =~= seq![self@.rtsp_source()]);
            Ok(v)
        } else if self.source.is_http() {
            match self.add_source_http() {
                Ok(src) => {
                    let mut v: Vec<Stage> = Vec::new();
                    assert(stage_views(v@) =~= Seq::empty());
                    push_stage(&mut v, src);
                    assert(stage_views(v@) =~= seq![src@]);
                    Ok(v)
                },
                Err(e) => Err(e),
            }
        } else {
            let mut v: Vec<Stage> = Vec::new();
            assert(stage_views(v@) =~= Seq::empty());
            push_stage(&mut v, self.add_source_test());
            assert(stage_views(v@) =~= seq![FlowBuilderView::test_source()]);
            Ok(v)
        }
    }

    /// Add source elements for an RTP flow
    pub fn add_source_rtp(&self) -> (r: Vec<Stage>)
        ensures
            stage_views(r@) == self@.rtp_source(),
    {
        let mut v: Vec<Stage> = Vec::new();
        assert(stage_views(v@) =~= Seq::empty());
        let jtr = Stage::new("rtpjitterbuffer").named("jitter").with(
            "latency",
            Value::UInt(self.source.latency()),
        ).with("max-dropout-time", Value::UInt(self.source.timeout_ms()));
        push_stage(&mut v, jtr);
        let fltr = Stage::new("capsfilter").with(
            "caps",
            Value::Caps("application/x-rtp", self.create_rtp_caps()),
        );
        push_stage(&mut v, fltr);
        // Post timeout messages after timeout (0 for disabled)
        let src = Stage::new("udpsrc").with_text("uri", self.source.location()).with(
            "timeout",
            Value::ULong(self.source.timeout_ns()),
        );
        push_stage(&mut v, src);
        assert(stage_views(v@) =~= self@.rtp_source());
        v
    }

    /// Create RTP caps for filter element
    pub fn create_rtp_caps(&self) -> (r: Vec<CapsField>)
        ensures
            caps_views(r@) == self@.rtp_caps(),
    {
        let mut values: Vec<CapsField> = Vec::new();
        values.push(CapsField { key: "clock-rate", value: CapsValue::Int(RTP_VIDEO_CLOCK_RATE) });
        if let Encoding::MPEG2 = self.source.encoding() {
            values.push(
                CapsField { key: "encoding-name", value: CapsValue::Text(String::from_str("MP2T")) },
            );
        }
        if let Some(sprops) = self.source.sprops() {
            values.push(
                CapsField {
                    key: "sprop-parameter-sets",
                    value: CapsValue::Text(String::from_str(sprops)),
                },
            );
        }
        assert(caps_views(values@) =~= self@.rtp_caps());
        values
    }

    /// Add source elements for an RTSP flow
    pub fn add_source_rtsp(&self) -> (r: Stage)
        ensures
            r@ == self@.rtsp_source(),
    {
        let src = Stage::new("rtspsrc").with_text("location", self.source.location());
        let src = match self.source.rtsp_transport() {
            Transport::ANY => src,
            Transport::UDP => src.with("protocols", Value::Nick("udp")),
            Transport::MCAST => src.with("protocols", Value::Nick("udp-mcast")),
            Transport::TCP => src.with("protocols", Value::Nick("tcp")),
        };
        // Retry TCP after UDP timeout (0 for disabled)
        src.with("tcp-timeout", Value::ULong(self.source.timeout_us())).with(
            "timeout",
            Value::ULong(self.source.timeout_us()),
        ).with("latency", Value::UInt(self.source.latency())).with(
            "do-retransmission",
            Value::Bool(false),
        ).with_text("user-agent", AGENT).with("select-stream", Value::Stream(STREAM_NUM_VIDEO))
    }

    /// Add source elements for an HTTP flow
    pub fn add_source_http(&self) -> (r: Result<Stage, Error>)
        ensures
            is_stage(r, self@.http_source()),
    {
        let location = match self.location_http() {
            Ok(location) => location,
            Err(e) => {
                return Err(e);
            },
        };
        // Blocking request timeout (0 for no timeout)
        Ok(
            Stage::new("souphttpsrc").with_text("location", location).with(
                "timeout",
                Value::UInt(self.source.timeout_s()),
            ).with("retries", Value::Int(0)),
        )
    }

    /// Get HTTP location
    pub fn location_http(&self) -> (r: Result<&str, Error>)
        ensures
            match self@.http_source() {
                Ok(_) => r matches Ok(location) && location@ == self@.source.location,
                Err(e) => r matches Err(x) && x == e,
            },
    {
        match self.source.encoding() {
            Encoding::PNG | Encoding::MJPEG => Ok(self.source.location()),
            _ => Err(Error::Other("invalid encoding for HTTP")),
        }
    }

    /// Add source element for a test flow
    pub fn add_source_test(&self) -> (r: Stage)
        ensures
            r@ == FlowBuilderView::test_source(),
    {
        Stage::new("videotestsrc").with("pattern", Value::Nick("smpte75")).with(
            "is-live",
            Value::Bool(true),
        )
    }

    /// Add decode elements
    pub fn add_decode(&self) -> (r: Result<Vec<Stage>, Error>)
        ensures
            is_chain(r, decoder(self@.source.encoding, self@.acceleration)),
    {
        let mut v: Vec<Stage> = Vec::new();
        assert(stage_views(v@) =~= Seq::empty());
        match self.source.encoding() {
            Encoding::PNG => {
                push_stage(&mut v, Stage::new("imagefreeze"));
                push_stage(&mut v, Stage::new("videoconvert"));
                push_stage(&mut v, Stage::new("pngdec"));
            },
            Encoding::MJPEG => push_stage(&mut v, Stage::new("jpegdec")),
            Encoding::MPEG2 => {
                push_stage(&mut v, Stage::new("mpeg2dec"));
                push_stage(&mut v, Stage::new("tsdemux"));
            },
            Encoding::MPEG4 => push_stage(&mut v, self.create_mpeg4dec()),
            Encoding::H264 => push_stage(&mut v, self.create_h264dec()),
            Encoding::H265 => push_stage(&mut v, self.create_h265dec()),
            Encoding::VP8 => push_stage(&mut v, self.create_vp8dec()),
            Encoding::VP9 => push_stage(&mut v, self.create_vp9dec()),
            Encoding::AV1 => push_stage(&mut v, Stage::new("av1dec")),
            Encoding::RAW => {
                return Err(Error::Other("invalid encoding"));
            },
        }
        assert(stage_views(v@) =~= decoder(self@.source.encoding, self@.acceleration)->Ok_0);
        Ok(v)
    }

    /// Add queue element
    pub fn add_queue(&self, leaky: bool) -> (r: Stage)
        ensures
            r@ == queue_stage(leaky),
    {
        let que = Stage::new("queue").with("max-size-time", Value::ULong(SEC_NS));
        if leaky {
            // leak (drop) packets -- when encoding cannot keep up
            que.with("leaky", Value::Nick("downstream"))
        } else {
            que
        }
    }

    /// Create MPEG-4 decode element
    pub fn create_mpeg4dec(&self) -> (r: Stage)
        ensures
            seq![r@] == decoder(Encoding::MPEG4, self@.acceleration)->Ok_0,
    {
        Stage::new("avdec_mpeg4").with("output-corrupt", Value::Bool(false))
    }

    /// Create h.264 decode element
    pub fn create_h264dec(&self) -> (r: Stage)
        ensures
            seq![r@] == decoder(Encoding::H264, self@.acceleration)->Ok_0,
    {
        match self.acceleration {
            Acceleration::VAAPI => Stage::new("vaapih264dec"),
            Acceleration::OMX => Stage::new("omxh264dec"),
            Acceleration::NONE => Stage::new("avdec_h264").with(
                "output-corrupt",
                Value::Bool(false),
            ),
        }
    }

    /// Create h.265 decode element
    pub fn create_h265dec(&self) -> (r: Stage)
        ensures
            seq![r@] == decoder(Encoding::H265, self@.acceleration)->Ok_0,
    {
        match self.acceleration {
            Acceleration::VAAPI => Stage::new("vaapih265dec"),
            _ => Stage::new("libde265dec"),
        }
    }

    /// Create VP8 decode element
    pub fn create_vp8dec(&self) -> (r: Stage)
        ensures
            seq![r@] == decoder(Encoding::VP8, self@.acceleration)->Ok_0,
    {
        match self.acceleration {
            Acceleration::VAAPI => Stage::new("vaapivp8dec"),
            Acceleration::OMX => Stage::new("omxvp8dec"),
            Acceleration::NONE => Stage::new("vp8dec"),
        }
    }

    /// Create VP9 decode element
    pub fn create_vp9dec(&self) -> (r: Stage)
        ensures
            seq![r@] == decoder(Encoding::VP9, self@.acceleration)->Ok_0,
    {
        match self.acceleration {
            Acceleration::VAAPI => Stage::new("vaapivp9dec"),
            _ => Stage::new("vp9dec"),
        }
    }

    /// Create a sink element
    pub fn create_sink(&self) -> (r: Stage)
        ensures
            r@ == self@.sink_stage(),
    {
        let sink = Stage::new(self.sink.factory_name(self.acceleration)).named("sink");
        match &self.sink {
            Sink::RTP(addr, port, _, _) => sink.with_text("host", addr.as_str()).with(
                "port",
                Value::Int(*port),
            ).with("ttl-mc", Value::Int(TTL_MULTICAST)),
            Sink::WINDOW(crop) => {
                let sink = sink.with("force-aspect-ratio", Value::Bool(crop.aspect().as_bool()));
                match self.handle {
                    Some(handle) => sink.with("window-handle", Value::Handle(handle)),
                    None => sink,
                }
            },
            Sink::FAKE => sink,
        }
    }

    /// Create a text overlay element
    pub fn create_text(&self) -> (r: Stage)
        ensures
            r@ == self@.text_stage(),
    {
        let txt = Stage::new("textoverlay").named("txt").with("auto-resize", Value::Bool(false));
        let txt = match &self.overlay_text {
            Some(t) => txt.with_text("text", t.as_str()),
            None => txt.with_text("text", ""),
        };
        proof {
            reveal_strlit("");
            assert(""@ =~= Seq::<char>::empty());
        }
        txt.with("shaded-background", Value::Bool(false)).with(
            "color",
            Value::UInt(OVERLAY_COLOR),
        ).with("wrap-mode", Value::Nick("none")).with("halignment", Value::Nick("right")).with(
            "valignment",
            Value::Nick("top"),
        )
    }
}

} // verus!
