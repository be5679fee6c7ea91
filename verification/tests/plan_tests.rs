use streambed::stage::{CapsField, CapsValue, Setting, Stage, Value};
use streambed::Acceleration::{NONE, OMX, VAAPI};
use streambed::{
    Acceleration, Encoding, Error, Feedback, FlowBuilder, MatrixCrop, Sink, Source, Transport,
};

const ENCODINGS: [Encoding; 10] = [
    Encoding::RAW,
    Encoding::PNG,
    Encoding::MJPEG,
    Encoding::MPEG2,
    Encoding::MPEG4,
    Encoding::H264,
    Encoding::H265,
    Encoding::VP8,
    Encoding::VP9,
    Encoding::AV1,
];

fn rtsp_h264() -> Source {
    Source::default().with_location("rtsp://cam/1").with_encoding(Encoding::H264)
}

fn rtp_sink(encoding: Encoding, insert_config: bool) -> Sink {
    Sink::RTP("239.0.0.1".to_string(), 5000, encoding, insert_config)
}

fn factories(stages: &[Stage]) -> Vec<&'static str> {
    stages.iter().map(|s| s.factory).collect()
}

fn setting(key: &'static str, value: Value) -> Setting {
    Setting { key, value }
}

fn text(s: &str) -> Value {
    Value::Text(s.to_string())
}

fn queue(leaky: bool) -> Stage {
    let mut settings = vec![setting("max-size-time", Value::ULong(1_000_000_000))];
    if leaky {
        settings.push(setting("leaky", Value::Nick("downstream")));
    }
    Stage { factory: "queue", name: None, settings }
}

fn plain(factory: &'static str) -> Stage {
    Stage { factory, name: None, settings: vec![] }
}

#[test]
fn passthru_holds_iff_rtp_on_both_sides_and_same_encoding() {
    for source_encoding in ENCODINGS {
        for sink_encoding in ENCODINGS {
            for source_rtp in [false, true] {
                for sink_rtp in [false, true] {
                    let location = if source_rtp { "udp://226.0.0.1:5000" } else { "test" };
                    let sink = if sink_rtp { rtp_sink(sink_encoding, false) } else { Sink::FAKE };
                    let actual = sink.encoding();
                    let b = FlowBuilder::new(0)
                        .with_source(
                            Source::default().with_location(location).with_encoding(source_encoding),
                        )
                        .with_sink(sink);
                    assert_eq!(
                        b.is_rtp_passthru(),
                        source_rtp && sink_rtp && source_encoding == actual
                    );
                }
            }
        }
    }
}

#[test]
fn passthru_counts_rtsp_as_rtp() {
    let b = FlowBuilder::new(0).with_source(rtsp_h264()).with_sink(rtp_sink(Encoding::H264, false));
    assert!(b.is_rtp_passthru());
}

#[test]
fn no_passthru_with_config_in_band_or_with_text() {
    let b = FlowBuilder::new(0).with_source(rtsp_h264()).with_sink(rtp_sink(Encoding::H264, true));
    assert!(!b.is_rtp_passthru());
    let b = FlowBuilder::new(0)
        .with_source(rtsp_h264())
        .with_sink(rtp_sink(Encoding::H264, false))
        .with_overlay_text(Some("Camera 1"));
    assert!(!b.is_rtp_passthru());
    assert!(b.needs_transcode() && b.needs_encode() && b.needs_decode());
    assert!(b.needs_rtp_pay() && b.needs_rtp_depay());
}

#[test]
fn decisions_for_raw_on_both_sides() {
    let b = FlowBuilder::new(0);
    assert!(!b.has_text());
    assert!(!b.needs_transcode() && !b.needs_encode() && !b.needs_decode());
    assert!(!b.is_rtp_passthru() && !b.needs_rtp_pay() && !b.needs_rtp_depay());
    let b = b.with_overlay_text(Some("x"));
    assert!(b.has_text() && b.needs_transcode());
    // raw needs neither decoder nor encoder, text or not
    assert!(!b.needs_encode() && !b.needs_decode());
}

#[test]
fn same_encoding_with_config_in_band_repacks_without_transcoding() {
    let flow = FlowBuilder::new(0)
        .with_source(rtsp_h264())
        .with_sink(rtp_sink(Encoding::H264, true))
        .build()
        .unwrap();
    assert_eq!(factories(&flow.stages), vec!["udpsink", "rtph264pay", "rtph264depay", "rtspsrc"]);
    for stage in &flow.stages {
        assert!(!stage.factory.contains("avdec") && !stage.factory.contains("x264"));
    }
}

#[test]
fn same_encoding_passes_through_one_buffer() {
    let flow = FlowBuilder::new(0)
        .with_source(rtsp_h264())
        .with_sink(rtp_sink(Encoding::H264, false))
        .build()
        .unwrap();
    assert_eq!(factories(&flow.stages), vec!["udpsink", "queue", "rtspsrc"]);
    assert_eq!(flow.stages[1], queue(false));
}

#[test]
fn different_encodings_are_transcoded() {
    let flow = FlowBuilder::new(0)
        .with_source(rtsp_h264())
        .with_sink(rtp_sink(Encoding::VP9, true))
        .build()
        .unwrap();
    assert_eq!(
        factories(&flow.stages),
        vec![
            "udpsink",
            "rtpvp9pay",
            "vp9enc",
            "queue",
            "avdec_h264",
            "queue",
            "rtph264depay",
            "rtspsrc"
        ]
    );
    // only the buffer behind the encoder drops what it cannot hold
    assert_eq!(flow.stages[3], queue(true));
    assert_eq!(flow.stages[5], queue(false));
    assert_eq!(
        flow.stages[4],
        Stage {
            factory: "avdec_h264",
            name: None,
            settings: vec![setting("output-corrupt", Value::Bool(false))]
        }
    );
}

#[test]
fn rtp_sink_stage_settings() {
    let flow = FlowBuilder::new(0)
        .with_source(rtsp_h264())
        .with_sink(rtp_sink(Encoding::H264, true))
        .build()
        .unwrap();
    assert_eq!(
        flow.stages[0],
        Stage {
            factory: "udpsink",
            name: Some("sink"),
            settings: vec![
                setting("host", text("239.0.0.1")),
                setting("port", Value::Int(5000)),
                setting("ttl-mc", Value::Int(15)),
            ]
        }
    );
}

#[test]
fn config_interval_by_encoding() {
    let pay = |encoding, insert_config| {
        FlowBuilder::new(0).with_sink(rtp_sink(encoding, insert_config)).add_rtp_pay().unwrap()
    };
    assert_eq!(pay(Encoding::MPEG4, true).settings, vec![setting("config-interval", Value::UInt(1))]);
    assert_eq!(pay(Encoding::H264, true).settings, vec![setting("config-interval", Value::Int(-1))]);
    assert_eq!(pay(Encoding::H265, true).settings, vec![setting("config-interval", Value::Int(-1))]);
    assert_eq!(pay(Encoding::VP8, true).settings, vec![]);
    assert_eq!(pay(Encoding::MJPEG, true).settings, vec![]);
    assert_eq!(pay(Encoding::MPEG4, false).settings, vec![]);
    assert_eq!(pay(Encoding::H264, false).settings, vec![]);
    assert_eq!(pay(Encoding::H264, false).factory, "rtph264pay");
}

#[test]
fn encodings_without_rtp_payload_cannot_be_sent() {
    for encoding in [Encoding::RAW, Encoding::PNG, Encoding::AV1] {
        let r = FlowBuilder::new(0).with_sink(rtp_sink(encoding, true)).build();
        assert_eq!(r.err(), Some(Error::Other("invalid encoding for RTP")));
        let r = FlowBuilder::new(0).with_sink(rtp_sink(encoding, true)).add_rtp_pay();
        assert_eq!(r.err(), Some(Error::Other("invalid encoding for RTP")));
    }
}

#[test]
fn raw_video_from_rtp_cannot_be_sent_on_with_config_in_band() {
    let udp_raw = Source::default().with_location("udp://226.0.0.1:5000");
    let r = FlowBuilder::new(0).with_source(udp_raw).with_sink(rtp_sink(Encoding::RAW, true));
    assert!(!r.is_rtp_passthru() && r.needs_rtp_pay() && r.needs_rtp_depay());
    assert_eq!(r.build().err(), Some(Error::Other("invalid encoding for RTP")));
}

#[test]
fn rtp_that_passes_through_needs_no_payload_format() {
    for encoding in [Encoding::RAW, Encoding::PNG, Encoding::AV1] {
        let flow = FlowBuilder::new(0)
            .with_source(
                Source::default().with_location("udp://226.0.0.1:5000").with_encoding(encoding),
            )
            .with_sink(rtp_sink(encoding, false))
            .build()
            .unwrap();
        assert_eq!(
            factories(&flow.stages),
            vec!["udpsink", "queue", "rtpjitterbuffer", "capsfilter", "udpsrc"]
        );
    }
}

#[test]
fn encodings_without_rtp_payload_cannot_be_received() {
    for encoding in [Encoding::RAW, Encoding::PNG, Encoding::AV1] {
        let r = FlowBuilder::new(0)
            .with_source(
                Source::default().with_location("udp://226.0.0.1:5000").with_encoding(encoding),
            )
            .build();
        assert_eq!(r.err(), Some(Error::Other("invalid encoding for RTP")));
    }
}

#[test]
fn http_serves_pictures_only() {
    let http = |encoding| {
        FlowBuilder::new(0)
            .with_source(
                Source::default().with_location("http://cam/pic").with_encoding(encoding).with_timeout(4),
            )
            .build()
    };
    assert_eq!(http(Encoding::H264).err(), Some(Error::Other("invalid encoding for HTTP")));
    assert_eq!(http(Encoding::RAW).err(), Some(Error::Other("invalid encoding for HTTP")));
    let flow = http(Encoding::MJPEG).unwrap();
    assert_eq!(factories(&flow.stages), vec!["fakesink", "jpegdec", "queue", "souphttpsrc"]);
    assert_eq!(
        flow.stages[3].settings,
        vec![
            setting("location", text("http://cam/pic")),
            setting("timeout", Value::UInt(4)),
            setting("retries", Value::Int(0)),
        ]
    );
    let flow = http(Encoding::PNG).unwrap();
    assert_eq!(
        factories(&flow.stages),
        vec!["fakesink", "imagefreeze", "videoconvert", "pngdec", "queue", "souphttpsrc"]
    );
}

#[test]
fn location_http_by_encoding() {
    let b = FlowBuilder::new(0)
        .with_source(Source::default().with_location("http://cam/pic").with_encoding(Encoding::PNG));
    assert_eq!(b.location_http(), Ok("http://cam/pic"));
    let b = FlowBuilder::new(0)
        .with_source(Source::default().with_location("http://cam/pic").with_encoding(Encoding::VP8));
    assert_eq!(b.location_http(), Err(Error::Other("invalid encoding for HTTP")));
}

#[test]
fn test_pattern_to_nowhere() {
    let flow = FlowBuilder::new(7).build().unwrap();
    assert_eq!(
        flow.stages,
        vec![
            Stage { factory: "fakesink", name: Some("sink"), settings: vec![] },
            Stage {
                factory: "videotestsrc",
                name: None,
                settings: vec![
                    setting("pattern", Value::Nick("smpte75")),
                    setting("is-live", Value::Bool(true)),
                ]
            },
        ]
    );
    assert_eq!(flow.name, "m7");
    assert_eq!(flow.timeout_ms, 2000);
    assert_eq!(flow.feedback, Feedback::Stopped(7));
    assert!(!flow.monitor.is_playing());
    assert_eq!(flow.monitor.counters(), (0, 0, 0));
    assert_eq!(flow.checker.idx(), 7);
    assert_eq!(flow.checker.count(), 0);
}

#[test]
fn rtp_source_stages() {
    let flow = FlowBuilder::new(0)
        .with_source(
            Source::default()
                .with_location("udp://226.0.0.1:5000")
                .with_encoding(Encoding::MPEG2)
                .with_sprops(Some("abc"))
                .with_timeout(3)
                .with_latency(50),
        )
        .build()
        .unwrap();
    assert_eq!(
        factories(&flow.stages),
        vec![
            "fakesink",
            "mpeg2dec",
            "tsdemux",
            "queue",
            "rtpmp2tdepay",
            "rtpjitterbuffer",
            "capsfilter",
            "udpsrc"
        ]
    );
    assert_eq!(
        flow.stages[5],
        Stage {
            factory: "rtpjitterbuffer",
            name: Some("jitter"),
            settings: vec![
                setting("latency", Value::UInt(50)),
                setting("max-dropout-time", Value::UInt(3000)),
            ]
        }
    );
    assert_eq!(
        flow.stages[6].settings,
        vec![setting(
            "caps",
            Value::Caps(
                "application/x-rtp",
                vec![
                    CapsField { key: "clock-rate", value: CapsValue::Int(90_000) },
                    CapsField { key: "encoding-name", value: CapsValue::Text("MP2T".to_string()) },
                    CapsField {
                        key: "sprop-parameter-sets",
                        value: CapsValue::Text("abc".to_string())
                    },
                ]
            )
        )]
    );
    assert_eq!(
        flow.stages[7].settings,
        vec![
            setting("uri", text("udp://226.0.0.1:5000")),
            setting("timeout", Value::ULong(3_000_000_000)),
        ]
    );
}

#[test]
fn rtp_caps_without_extras() {
    let b = FlowBuilder::new(0).with_source(
        Source::default().with_location("udp://226.0.0.1:5000").with_encoding(Encoding::H264),
    );
    assert_eq!(
        b.create_rtp_caps(),
        vec![CapsField { key: "clock-rate", value: CapsValue::Int(90_000) }]
    );
}

#[test]
fn rtsp_source_stage() {
    let stage = |transport| {
        FlowBuilder::new(0)
            .with_source(rtsp_h264().with_rtsp_transport(transport).with_timeout(2).with_latency(100))
            .add_source_rtsp()
    };
    let any = stage(Transport::ANY);
    assert_eq!(any.factory, "rtspsrc");
    assert_eq!(
        any.settings,
        vec![
            setting("location", text("rtsp://cam/1")),
            setting("tcp-timeout", Value::ULong(2_000_000)),
            setting("timeout", Value::ULong(2_000_000)),
            setting("latency", Value::UInt(100)),
            setting("do-retransmission", Value::Bool(false)),
            setting("user-agent", text("streambed/0.5.0")),
            setting("select-stream", Value::Stream(0)),
        ]
    );
    assert_eq!(stage(Transport::UDP).settings[1], setting("protocols", Value::Nick("udp")));
    assert_eq!(stage(Transport::MCAST).settings[1], setting("protocols", Value::Nick("udp-mcast")));
    assert_eq!(stage(Transport::TCP).settings[1], setting("protocols", Value::Nick("tcp")));
    assert_eq!(stage(Transport::TCP).settings.len(), 8);
}

#[test]
fn window_sink_with_crop_and_text() {
    let crop = MatrixCrop::try_from("ABBC,500,500").unwrap();
    let flow = FlowBuilder::new(1)
        .with_acceleration(Acceleration::VAAPI)
        .with_source(rtsp_h264())
        .with_sink(Sink::WINDOW(crop))
        .with_overlay_text(Some("Camera 1"))
        .with_handle(Some(4242))
        .build()
        .unwrap();
    assert_eq!(
        factories(&flow.stages),
        vec![
            "vaapisink",
            "videobox",
            "textoverlay",
            "queue",
            "vaapih264dec",
            "queue",
            "rtph264depay",
            "rtspsrc"
        ]
    );
    assert_eq!(
        flow.stages[0],
        Stage {
            factory: "vaapisink",
            name: Some("sink"),
            settings: vec![
                setting("force-aspect-ratio", Value::Bool(true)),
                setting("window-handle", Value::Handle(4242)),
            ]
        }
    );
    assert_eq!(flow.stages[1], Stage { factory: "videobox", name: Some("vbox"), settings: vec![] });
    assert_eq!(
        flow.stages[2],
        Stage {
            factory: "textoverlay",
            name: Some("txt"),
            settings: vec![
                setting("auto-resize", Value::Bool(false)),
                setting("text", text("Camera 1")),
                setting("shaded-background", Value::Bool(false)),
                setting("color", Value::UInt(0xFFFF_FFE0)),
                setting("wrap-mode", Value::Nick("none")),
                setting("halignment", Value::Nick("right")),
                setting("valignment", Value::Nick("top")),
            ]
        }
    );
    assert_eq!(flow.stages[3], queue(false));
}

#[test]
fn window_sink_without_handle_or_crop() {
    let flow = FlowBuilder::new(0).with_sink(Sink::WINDOW(MatrixCrop::default())).build().unwrap();
    assert_eq!(factories(&flow.stages), vec!["gtksink", "videotestsrc"]);
    assert_eq!(flow.stages[0].settings, vec![setting("force-aspect-ratio", Value::Bool(true))]);
}

#[test]
fn encoders_by_acceleration() {
    let enc = |encoding, acceleration| {
        FlowBuilder::new(0)
            .with_acceleration(acceleration)
            .with_sink(rtp_sink(encoding, true))
            .add_encode()
            .unwrap()
    };
    let low_power = vec![
        setting("quality-level", Value::UInt(6)),
        setting("tune", Value::Nick("low-power")),
    ];
    let fast = vec![
        setting("tune", Value::Nick("zerolatency")),
        setting("speed-preset", Value::Nick("superfast")),
    ];
    assert_eq!(enc(Encoding::RAW, NONE), vec![]);
    assert_eq!(enc(Encoding::MJPEG, VAAPI), vec![plain("jpegenc")]);
    assert_eq!(enc(Encoding::MPEG2, NONE), vec![plain("mpegtsmux"), plain("mpeg2enc")]);
    assert_eq!(enc(Encoding::MPEG4, OMX), vec![plain("avenc_mpeg4")]);
    assert_eq!(
        enc(Encoding::H264, VAAPI),
        vec![Stage { factory: "vaapih264enc", name: None, settings: low_power.clone() }]
    );
    assert_eq!(enc(Encoding::H264, OMX), vec![plain("omxh264enc")]);
    assert_eq!(
        enc(Encoding::H264, NONE),
        vec![Stage { factory: "x264enc", name: None, settings: fast.clone() }]
    );
    assert_eq!(
        enc(Encoding::H265, VAAPI),
        vec![Stage { factory: "vaapih265enc", name: None, settings: low_power }]
    );
    // no OpenMAX stage for H.265: software instead
    assert_eq!(
        enc(Encoding::H265, OMX),
        vec![Stage { factory: "x265enc", name: None, settings: fast.clone() }]
    );
    assert_eq!(
        enc(Encoding::H265, NONE),
        vec![Stage { factory: "x265enc", name: None, settings: fast }]
    );
    assert_eq!(enc(Encoding::VP8, VAAPI), vec![plain("vaapivp8enc")]);
    assert_eq!(enc(Encoding::VP8, OMX), vec![plain("vp8enc")]);
    assert_eq!(enc(Encoding::VP9, VAAPI), vec![plain("vaapivp9enc")]);
    assert_eq!(enc(Encoding::VP9, NONE), vec![plain("vp9enc")]);
    assert_eq!(enc(Encoding::AV1, NONE), vec![plain("av1enc")]);
    let png = FlowBuilder::new(0).with_sink(rtp_sink(Encoding::PNG, true)).add_encode();
    assert_eq!(png, Err(Error::Other("invalid encoding")));
}

#[test]
fn decoders_by_acceleration() {
    let dec = |encoding, acceleration| {
        FlowBuilder::new(0)
            .with_acceleration(acceleration)
            .with_source(Source::default().with_encoding(encoding))
            .add_decode()
            .unwrap()
    };
    let sound = |factory| Stage {
        factory,
        name: None,
        settings: vec![setting("output-corrupt", Value::Bool(false))],
    };
    assert_eq!(dec(Encoding::MJPEG, NONE), vec![plain("jpegdec")]);
    assert_eq!(dec(Encoding::MPEG2, NONE), vec![plain("mpeg2dec"), plain("tsdemux")]);
    assert_eq!(dec(Encoding::MPEG4, VAAPI), vec![sound("avdec_mpeg4")]);
    assert_eq!(dec(Encoding::H264, VAAPI), vec![plain("vaapih264dec")]);
    assert_eq!(dec(Encoding::H264, OMX), vec![plain("omxh264dec")]);
    assert_eq!(dec(Encoding::H264, NONE), vec![sound("avdec_h264")]);
    assert_eq!(dec(Encoding::H265, VAAPI), vec![plain("vaapih265dec")]);
    assert_eq!(dec(Encoding::H265, OMX), vec![plain("libde265dec")]);
    assert_eq!(dec(Encoding::H265, NONE), vec![plain("libde265dec")]);
    assert_eq!(dec(Encoding::VP8, VAAPI), vec![plain("vaapivp8dec")]);
    assert_eq!(dec(Encoding::VP8, OMX), vec![plain("omxvp8dec")]);
    assert_eq!(dec(Encoding::VP8, NONE), vec![plain("vp8dec")]);
    assert_eq!(dec(Encoding::VP9, VAAPI), vec![plain("vaapivp9dec")]);
    assert_eq!(dec(Encoding::VP9, OMX), vec![plain("vp9dec")]);
    assert_eq!(dec(Encoding::AV1, NONE), vec![plain("av1dec")]);
    let raw = FlowBuilder::new(0).add_decode();
    assert_eq!(raw, Err(Error::Other("invalid encoding")));
}

#[test]
fn first_error_in_chain_order_wins() {
    // the sink side fails before the source side is looked at
    let r = FlowBuilder::new(0)
        .with_source(Source::default().with_location("http://cam/pic").with_encoding(Encoding::H264))
        .with_sink(rtp_sink(Encoding::PNG, true))
        .build();
    assert_eq!(r.err(), Some(Error::Other("invalid encoding for RTP")));
}

#[test]
fn builder_getters() {
    let b = FlowBuilder::new(3).with_source(rtsp_h264()).with_sink(rtp_sink(Encoding::VP8, false));
    assert_eq!(b.idx(), 3);
    assert_eq!(b.source().location(), "rtsp://cam/1");
    assert_eq!(b.sink().encoding(), Encoding::VP8);
}

#[test]
fn stage_builders() {
    let s = Stage::new("queue").named("q").with("leaky", Value::Nick("downstream")).with_text("a", "b");
    assert_eq!(
        s,
        Stage {
            factory: "queue",
            name: Some("q"),
            settings: vec![setting("leaky", Value::Nick("downstream")), setting("a", text("b"))]
        }
    );
}
