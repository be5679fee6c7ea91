//! What a flow is made of: its source, its sink, the encodings on both
//! sides, and the events it reports.

use crate::crop::{MatrixCrop, MatrixCropView};
use crate::error::Error;
use crate::text::{decimal_digits, push_decimal, starts_with, str_eq};
use vstd::prelude::*;
use vstd::string::StringExecFns;

verus! {

/// One second (microsecond units)
pub const SEC_US: u64 = 1_000_000;

/// One second (nanosecond units)
pub const SEC_NS: u64 = 1_000_000_000;

/// Default source timeout (sec)
pub const DEFAULT_TIMEOUT_SEC: u16 = 2;

/// Default buffering latency (ms)
pub const DEFAULT_LATENCY_MS: u32 = 100;

/// Network transport
#[derive(Clone, Copy, Debug, PartialEq, Eq, Structural)]
pub enum Transport {
    /// Any transport
    ANY,
    /// UDP transport
    UDP,
    /// UDP multicast transport
    MCAST,
    /// TCP transport
    TCP,
}

/// Video encoding
#[derive(Clone, Copy, Debug, PartialEq, Eq, Structural)]
pub enum Encoding {
    /// Raw video
    RAW,
    /// Portable Network Graphics
    PNG,
    /// Motion JPEG
    MJPEG,
    /// MPEG-2 TS
    MPEG2,
    /// MPEG-4
    MPEG4,
    /// H.264
    H264,
    /// H.265
    H265,
    /// VP8 video
    VP8,
    /// VP9 video
    VP9,
    /// AV1 video
    AV1,
}

/// Pixel aspect ratio handling
#[derive(Clone, Copy, Debug, PartialEq, Eq, Structural)]
pub enum AspectRatio {
    /// Adjust pixel aspect ratio to fill sink window
    FILL,
    /// Preserve pixel aspect ratio
    PRESERVE,
}

/// Hardware video acceleration
#[derive(Clone, Copy, Debug, PartialEq, Eq, Structural)]
pub enum Acceleration {
    /// No video acceleration
    NONE,
    /// Video Acceleration API
    VAAPI,
    /// OpenMAX
    OMX,
}

impl Default for AspectRatio {
    fn default() -> (r: Self)
        ensures
            r == AspectRatio::PRESERVE,
    {
        AspectRatio::PRESERVE
    }
}

impl Default for Acceleration {
    fn default() -> (r: Self)
        ensures
            r == Acceleration::NONE,
    {
        Acceleration::NONE
    }
}

impl Default for Transport {
    fn default() -> (r: Self)
        ensures
            r == Transport::ANY,
    {
        Transport::ANY
    }
}

impl Default for Encoding {
    fn default() -> (r: Self)
        ensures
            r == Encoding::RAW,
    {
        Encoding::RAW
    }
}

impl Acceleration {
    /// The acceleration that a name stands for; the empty name stands for
    /// none.
    pub open spec fn named(s: Seq<char>) -> Option<Acceleration> {
        if s == ""@ || s == "NONE"@ {
            Some(Acceleration::NONE)
        } else if s == "VAAPI"@ {
            Some(Acceleration::VAAPI)
        } else if s == "OMX"@ {
            Some(Acceleration::OMX)
        } else {
            None
        }
    }

    /// Parses the name of an acceleration method.
    pub fn from_str(s: &str) -> (r: Result<Acceleration, Error>)
        ensures
            match Self::named(s@) {
                Some(a) => r == Ok::<Acceleration, Error>(a),
                None => r == Err::<Acceleration, Error>(Error::Other("invalid acceleration")),
            },
    {
        if str_eq(s, "") || str_eq(s, "NONE") {
            Ok(Acceleration::NONE)
        } else if str_eq(s, "VAAPI") {
            Ok(Acceleration::VAAPI)
        } else if str_eq(s, "OMX") {
            Ok(Acceleration::OMX)
        } else {
            Err(Error::Other("invalid acceleration"))
        }
    }
}

impl Transport {
    /// The transport that a name stands for.
    pub open spec fn named(s: Seq<char>) -> Option<Transport> {
        if s == "ANY"@ {
            Some(Transport::ANY)
        } else if s == "UDP"@ {
            Some(Transport::UDP)
        } else if s == "MCAST"@ {
            Some(Transport::MCAST)
        } else if s == "TCP"@ {
            Some(Transport::TCP)
        } else {
            None
        }
    }

    /// Parses the name of a transport.
    pub fn from_str(s: &str) -> (r: Result<Transport, Error>)
        ensures
            match Self::named(s@) {
                Some(t) => r == Ok::<Transport, Error>(t),
                None => r == Err::<Transport, Error>(Error::Other("invalid transport")),
            },
    {
        if str_eq(s, "ANY") {
            Ok(Transport::ANY)
        } else if str_eq(s, "UDP") {
            Ok(Transport::UDP)
        } else if str_eq(s, "MCAST") {
            Ok(Transport::MCAST)
        } else if str_eq(s, "TCP") {
            Ok(Transport::TCP)
        } else {
            Err(Error::Other("invalid transport"))
        }
    }
}

impl Encoding {
    /// The encoding that a name stands for; the empty name stands for H.264.
    pub open spec fn named(s: Seq<char>) -> Option<Encoding> {
        if s == "RAW"@ {
            Some(Encoding::RAW)
        } else if s == "PNG"@ {
            Some(Encoding::PNG)
        } else if s == "MJPEG"@ {
            Some(Encoding::MJPEG)
        } else if s == "MPEG2"@ {
            Some(Encoding::MPEG2)
        } else if s == "MPEG4"@ {
            Some(Encoding::MPEG4)
        } else if s == "H264"@ || s == ""@ {
            Some(Encoding::H264)
        } else if s == "H265"@ {
            Some(Encoding::H265)
        } else if s == "VP8"@ {
            Some(Encoding::VP8)
        } else if s == "VP9"@ {
            Some(Encoding::VP9)
        } else {
            None
        }
    }

    /// Parses the name of an encoding.
    pub fn from_str(s: &str) -> (r: Result<Encoding, Error>)
        ensures
            match Self::named(s@) {
                Some(e) => r == Ok::<Encoding, Error>(e),
                None => r == Err::<Encoding, Error>(Error::Other("invalid encoding")),
            },
    {
        if str_eq(s, "RAW") {
            Ok(Encoding::RAW)
        } else if str_eq(s, "PNG") {
            Ok(Encoding::PNG)
        } else if str_eq(s, "MJPEG") {
            Ok(Encoding::MJPEG)
        } else if str_eq(s, "MPEG2") {
            Ok(Encoding::MPEG2)
        } else if str_eq(s, "MPEG4") {
            Ok(Encoding::MPEG4)
        } else if str_eq(s, "H264") || str_eq(s, "") {
            Ok(Encoding::H264)
        } else if str_eq(s, "H265") {
            Ok(Encoding::H265)
        } else if str_eq(s, "VP8") {
            Ok(Encoding::VP8)
        } else if str_eq(s, "VP9") {
            Ok(Encoding::VP9)
        } else {
            Err(Error::Other("invalid encoding"))
        }
    }

    /// Name of the stage type that takes the encoding out of RTP packets,
    /// for the encodings that RTP carries. Raw video and PNG pictures are
    /// not among them, nor is AV1.
    pub open spec fn depay_name(self) -> Option<&'static str> {
        match self {
            Encoding::MJPEG => Some("rtpjpegdepay"),
            Encoding::MPEG2 => Some("rtpmp2tdepay"),
            Encoding::MPEG4 => Some("rtpmp4vdepay"),
            Encoding::H264 => Some("rtph264depay"),
            Encoding::H265 => Some("rtph265depay"),
            Encoding::VP8 => Some("rtpvp8depay"),
            Encoding::VP9 => Some("rtpvp9depay"),
            Encoding::RAW | Encoding::PNG | Encoding::AV1 => None,
        }
    }

    /// Name of the stage type that puts the encoding into RTP packets, for
    /// the encodings that RTP carries. Raw video and PNG pictures are not
    /// among them, nor is AV1.
    pub open spec fn pay_name(self) -> Option<&'static str> {
        match self {
            Encoding::MJPEG => Some("rtpjpegpay"),
            Encoding::MPEG2 => Some("rtpmp2tpay"),
            Encoding::MPEG4 => Some("rtpmp4vpay"),
            Encoding::H264 => Some("rtph264pay"),
            Encoding::H265 => Some("rtph265pay"),
            Encoding::VP8 => Some("rtpvp8pay"),
            Encoding::VP9 => Some("rtpvp9pay"),
            Encoding::RAW | Encoding::PNG | Encoding::AV1 => None,
        }
    }

    /// Get RTP depayload factory name
    pub fn rtp_depay(&self) -> (r: Result<&'static str, Error>)
        ensures
            match self.depay_name() {
                Some(name) => r == Ok::<&'static str, Error>(name),
                None => r == Err::<&'static str, Error>(Error::Other("invalid encoding for RTP")),
            },
    {
        match self {
            Encoding::MJPEG => Ok("rtpjpegdepay"),
            Encoding::MPEG2 => Ok("rtpmp2tdepay"),
            Encoding::MPEG4 => Ok("rtpmp4vdepay"),
            Encoding::H264 => Ok("rtph264depay"),
            Encoding::H265 => Ok("rtph265depay"),
            Encoding::VP8 => Ok("rtpvp8depay"),
            Encoding::VP9 => Ok("rtpvp9depay"),
            Encoding::RAW | Encoding::PNG | Encoding::AV1 => Err(
                Error::Other("invalid encoding for RTP"),
            ),
        }
    }

    /// Get RTP payload factory name
    pub fn rtp_pay(&self) -> (r: Result<&'static str, Error>)
        ensures
            match self.pay_name() {
                Some(name) => r == Ok::<&'static str, Error>(name),
                None => r == Err::<&'static str, Error>(Error::Other("invalid encoding for RTP")),
            },
    {
        match self {
            Encoding::MJPEG => Ok("rtpjpegpay"),
            Encoding::MPEG2 => Ok("rtpmp2tpay"),
            Encoding::MPEG4 => Ok("rtpmp4vpay"),
            Encoding::H264 => Ok("rtph264pay"),
            Encoding::H265 => Ok("rtph265pay"),
            Encoding::VP8 => Ok("rtpvp8pay"),
            Encoding::VP9 => Ok("rtpvp9pay"),
            Encoding::RAW | Encoding::PNG | Encoding::AV1 => Err(
                Error::Other("invalid encoding for RTP"),
            ),
        }
    }
}

impl std::str::FromStr for Acceleration {
    type Err = Error;

    fn from_str(s: &str) -> (r: Result<Self, Error>)
        ensures
            match Self::named(s@) {
                Some(a) => r == Ok::<Acceleration, Error>(a),
                None => r == Err::<Acceleration, Error>(Error::Other("invalid acceleration")),
            },
    {
        Acceleration::from_str(s)
    }
}

impl std::str::FromStr for Transport {
    type Err = Error;

    fn from_str(s: &str) -> (r: Result<Self, Error>)
        ensures
            match Self::named(s@) {
                Some(t) => r == Ok::<Transport, Error>(t),
                None => r == Err::<Transport, Error>(Error::Other("invalid transport")),
            },
    {
        Transport::from_str(s)
    }
}

impl std::str::FromStr for Encoding {
    type Err = Error;

    fn from_str(s: &str) -> (r: Result<Self, Error>)
        ensures
            match Self::named(s@) {
                Some(e) => r == Ok::<Encoding, Error>(e),
                None => r == Err::<Encoding, Error>(Error::Other("invalid encoding")),
            },
    {
        Encoding::from_str(s)
    }
}

impl AspectRatio {
    /// Get as boolean value
    pub fn as_bool(&self) -> (r: bool)
        ensures
            r == (*self == AspectRatio::PRESERVE),
    {
        match self {
            AspectRatio::FILL => false,
            AspectRatio::PRESERVE => true,
        }
    }
}

/// Video source
#[derive(Clone, Debug)]
pub struct Source {
    /// Source location URI
    location: String,
    /// RTSP transport
    rtsp_transport: Transport,
    /// Source encoding
    encoding: Encoding,
    /// RTP source properties (from SDP)
    sprops: Option<String>,
    /// Source timeout (sec)
    timeout: u16,
    /// Buffering latency (ms)
    latency: u32,
}

/// What a source says, as plain values.
pub struct SourceView {
    pub location: Seq<char>,
    pub rtsp_transport: Transport,
    pub encoding: Encoding,
    pub sprops: Option<Seq<char>>,
    pub timeout: u16,
    pub latency: u32,
}

impl View for Source {
    type V = SourceView;

    closed spec fn view(&self) -> SourceView {
        SourceView {
            location: self.location@,
            rtsp_transport: self.rtsp_transport,
            encoding: self.encoding,
            sprops: match self.sprops {
                Some(s) => Some(s@),
                None => None,
            },
            timeout: self.timeout,
            latency: self.latency,
        }
    }
}

impl SourceView {
    /// The source that nothing has been said of: a test pattern of raw
    /// video.
    pub open spec fn initial() -> SourceView {
        SourceView {
            location: Seq::<char>::empty(),
            rtsp_transport: Transport::ANY,
            encoding: Encoding::RAW,
            sprops: None,
            timeout: DEFAULT_TIMEOUT_SEC,
            latency: DEFAULT_LATENCY_MS,
        }
    }

    /// The location names a UDP address, on which RTP is received.
    pub open spec fn is_rtp(self) -> bool {
        "udp://"@.is_prefix_of(self.location)
    }

    /// The location names an RTSP server.
    pub open spec fn is_rtsp(self) -> bool {
        "rtsp://"@.is_prefix_of(self.location)
    }

    /// The source hands over RTP packets, by either way.
    pub open spec fn is_rtp_or_rtsp(self) -> bool {
        self.is_rtp() || self.is_rtsp()
    }

    /// The location names an HTTP server.
    pub open spec fn is_http(self) -> bool {
        "http://"@.is_prefix_of(self.location)
    }
}

impl Default for Source {
    fn default() -> (r: Self)
        ensures
            r@ == SourceView::initial(),
    {
        Source {
            location: String::new(),
            rtsp_transport: Transport::ANY,
            encoding: Encoding::RAW,
            sprops: None,
            timeout: DEFAULT_TIMEOUT_SEC,
            latency: DEFAULT_LATENCY_MS,
        }
    }
}

impl Source {
    /// Use the specified location
    pub fn with_location(self, location: &str) -> (r: Self)
        ensures
            r@ == (SourceView { location: location@, ..self@ }),
    {
        let mut s = self;
        s.location = String::from_str(location);
        s
    }

    /// Use the specified transport
    pub fn with_rtsp_transport(self, rtsp_transport: Transport) -> (r: Self)
        ensures
            r@ == (SourceView { rtsp_transport, ..self@ }),
    {
        let mut s = self;
        s.rtsp_transport = rtsp_transport;
        s
    }

    /// Use the specified encoding
    pub fn with_encoding(self, encoding: Encoding) -> (r: Self)
        ensures
            r@ == (SourceView { encoding, ..self@ }),
    {
        let mut s = self;
        s.encoding = encoding;
        s
    }

    /// Use the specified SDP properties
    pub fn with_sprops(self, sprops: Option<&str>) -> (r: Self)
        ensures
            r@ == (SourceView {
                sprops: match sprops {
                    Some(p) => Some(p@),
                    None => None,
                },
                ..self@
            }),
    {
        let mut s = self;
        s.sprops = match sprops {
            Some(p) => Some(String::from_str(p)),
            None => None,
        };
        s
    }

    /// Use the specified timeout (sec)
    pub fn with_timeout(self, timeout: u16) -> (r: Self)
        ensures
            r@ == (SourceView { timeout, ..self@ }),
    {
        let mut s = self;
        s.timeout = timeout;
        s
    }

    /// Use the specified buffering latency (ms)
    pub fn with_latency(self, latency: u32) -> (r: Self)
        ensures
            r@ == (SourceView { latency, ..self@ }),
    {
        let mut s = self;
        s.latency = latency;
        s
    }

    /// Get the location URI
    pub fn location(&self) -> (r: &str)
        ensures
            r@ == self@.location,
    {
        self.location.as_str()
    }

    /// Get the RTSP transport
    pub fn rtsp_transport(&self) -> (r: Transport)
        ensures
            r == self@.rtsp_transport,
    {
        self.rtsp_transport
    }

    /// Get the encoding
    pub fn encoding(&self) -> (r: Encoding)
        ensures
            r == self@.encoding,
    {
        self.encoding
    }

    /// Get the SDP properties
    pub fn sprops(&self) -> (r: Option<&str>)
        ensures
            match r {
                Some(p) => self@.sprops == Some(p@),
                None => self@.sprops is None,
            },
    {
        match &self.sprops {
            Some(p) => Some(p.as_str()),
            None => None,
        }
    }

    /// Get the buffering latency (ms)
    pub fn latency(&self) -> (r: u32)
        ensures
            r == self@.latency,
    {
        self.latency
    }

    /// Get timeout as seconds
    pub fn timeout_s(&self) -> (r: u32)
        ensures
            r == self@.timeout,
    {
        self.timeout as u32
    }

    /// Get timeout as milliseconds
    pub fn timeout_ms(&self) -> (r: u32)
        ensures
            r == self@.timeout * 1_000,
    {
        (self.timeout as u32) * 1_000
    }

    /// Get timeout as microseconds
    pub fn timeout_us(&self) -> (r: u64)
        ensures
            r == self@.timeout * SEC_US,
    {
        (self.timeout as u64) * SEC_US
    }

    /// Get timeout as nanoseconds
    pub fn timeout_ns(&self) -> (r: u64)
        ensures
            r == self@.timeout * SEC_NS,
    {
        (self.timeout as u64) * SEC_NS
    }

    /// Check if source is RTP
    pub fn is_rtp(&self) -> (r: bool)
        ensures
            r == self@.is_rtp(),
    {
        starts_with(self.location.as_str(), "udp://")
    }

    /// Check if source is RTSP
    pub fn is_rtsp(&self) -> (r: bool)
        ensures
            r == self@.is_rtsp(),
    {
        starts_with(self.location.as_str(), "rtsp://")
    }

    /// Check if source is RTP or RTSP
    pub fn is_rtp_or_rtsp(&self) -> (r: bool)
        ensures
            r == self@.is_rtp_or_rtsp(),
    {
        self.is_rtp() || self.is_rtsp()
    }

    /// Check if source is HTTP
    pub fn is_http(&self) -> (r: bool)
        ensures
            r == self@.is_http(),
    {
        starts_with(self.location.as_str(), "http://")
    }
}

/// Video sink
#[derive(Clone, Debug)]
pub enum Sink {
    /// Fake sink (for testing)
    FAKE,
    /// RTP over UDP (addr, port, encoding, insert_config)
    RTP(String, i32, Encoding, bool),
    /// Window sink
    WINDOW(MatrixCrop),
}

/// What a sink says, as plain values.
pub enum SinkView {
    FAKE,
    RTP(Seq<char>, i32, Encoding, bool),
    WINDOW(MatrixCropView),
}

impl View for Sink {
    type V = SinkView;

    open spec fn view(&self) -> SinkView {
        match self {
            Sink::FAKE => SinkView::FAKE,
            Sink::RTP(addr, port, encoding, insert_config) => SinkView::RTP(
                addr@,
                *port,
                *encoding,
                *insert_config,
            ),
            Sink::WINDOW(crop) => SinkView::WINDOW(crop@),
        }
    }
}

impl SinkView {
    /// What the sink takes: the encoding of an RTP sink, raw video otherwise.
    pub open spec fn encoding(self) -> Encoding {
        match self {
            SinkView::RTP(_, _, encoding, _) => encoding,
            _ => Encoding::RAW,
        }
    }

    /// An RTP sink that is to send its stream configuration in band.
    pub open spec fn insert_config(self) -> bool {
        self matches SinkView::RTP(_, _, _, flag) && flag
    }

    /// The crop of a window sink; the whole picture otherwise.
    pub open spec fn crop(self) -> MatrixCropView {
        match self {
            SinkView::WINDOW(c) => c,
            _ => MatrixCropView::whole(),
        }
    }

    /// Name of the stage type that renders the sink.
    pub open spec fn factory_name(self, acceleration: Acceleration) -> &'static str {
        match self {
            SinkView::FAKE => "fakesink",
            SinkView::RTP(_, _, _, _) => "udpsink",
            SinkView::WINDOW(_) => if acceleration == Acceleration::VAAPI {
                "vaapisink"
            } else {
                "gtksink"
            },
        }
    }
}

impl Default for Sink {
    fn default() -> (r: Self)
        ensures
            r@ == SinkView::FAKE,
    {
        Sink::FAKE
    }
}

impl Sink {
    /// Is the sink RTP?
    pub fn is_rtp(&self) -> (r: bool)
        ensures
            r == (self@ is RTP),
    {
        match self {
            Sink::RTP(_, _, _, _) => true,
            _ => false,
        }
    }

    /// Get the gstreamer factory name
    pub fn factory_name(&self, acceleration: Acceleration) -> (r: &'static str)
        ensures
            r == self@.factory_name(acceleration),
    {
        match (self, acceleration) {
            (Sink::FAKE, _) => "fakesink",
            (Sink::RTP(_, _, _, _), _) => "udpsink",
            (Sink::WINDOW(_), Acceleration::VAAPI) => "vaapisink",
            (Sink::WINDOW(_), _) => "gtksink",
        }
    }

    /// Get the aspect ratio setting
    pub fn aspect_ratio(&self) -> (r: Option<AspectRatio>)
        ensures
            r == (match self@ {
                SinkView::WINDOW(crop) => Some(crop.aspect),
                _ => None,
            }),
    {
        match self {
            Sink::WINDOW(crop) => Some(crop.aspect()),
            _ => None,
        }
    }

    /// Get the matrix crop setting
    pub fn crop(&self) -> (r: MatrixCrop)
        ensures
            r@ == self@.crop(),
    {
        match self {
            Sink::WINDOW(c) => *c,
            _ => MatrixCrop::default(),
        }
    }

    /// Get the sink encoding
    pub fn encoding(&self) -> (r: Encoding)
        ensures
            r == self@.encoding(),
    {
        match self {
            Sink::RTP(_, _, encoding, _) => *encoding,
            _ => Encoding::RAW,
        }
    }

    /// Should config be inserted in-band?
    pub fn insert_config(&self) -> (r: bool)
        ensures
            r == self@.insert_config(),
    {
        match self {
            Sink::RTP(_, _, _, true) => true,
            _ => false,
        }
    }
}

/// Flow feedback
#[derive(Clone, Copy, Debug, PartialEq, Eq, Structural)]
pub enum Feedback {
    /// Flow playing
    Playing(usize),
    /// Flow stopped
    Stopped(usize),
    /// Update statistics
    Stats(usize, u64, u64, u64),
}

impl Feedback {
    /// The text that `to_string` gives for an event.
    pub open spec fn text(self) -> Seq<char> {
        match self {
            Feedback::Playing(idx) => "Flow"@ + decimal_digits(idx as nat) + " playing"@,
            Feedback::Stopped(idx) => "Flow"@ + decimal_digits(idx as nat) + " stopped"@,
            Feedback::Stats(idx, pushed, lost, late) => "Flow"@ + decimal_digits(idx as nat)
                + " stats: "@ + decimal_digits(pushed as nat) + " pushed, "@ + decimal_digits(
                lost as nat,
            ) + " lost, "@ + decimal_digits(late as nat) + " late"@,
        }
    }

    /// Index of the flow that the event is about.
    pub open spec fn flow(self) -> usize {
        match self {
            Feedback::Playing(idx) => idx,
            Feedback::Stopped(idx) => idx,
            Feedback::Stats(idx, _, _, _) => idx,
        }
    }

    /// Describes the event in words.
    pub fn to_string(&self) -> (r: String)
        ensures
            r@ == self.text(),
    {
        let mut r = String::from_str("Flow");
        match self {
            Feedback::Playing(idx) => {
                push_decimal(&mut r, *idx as u64);
                r.append(" playing");
            },
            Feedback::Stopped(idx) => {
                push_decimal(&mut r, *idx as u64);
                r.append(" stopped");
            },
            Feedback::Stats(idx, pushed, lost, late) => {
                push_decimal(&mut r, *idx as u64);
                r.append(" stats: ");
                push_decimal(&mut r, *pushed);
                r.append(" pushed, ");
                push_decimal(&mut r, *lost);
                r.append(" lost, ");
                push_decimal(&mut r, *late);
                r.append(" late");
            },
        }
        r
    }
}

} // verus!
