//! The stored configuration: global settings and one record for each flow,
//! the commands that change them, and the flows that they describe.

use crate::builder::{is_flow, Flow, FlowBuilder, FlowBuilderView, FlowView};
use crate::control::{lookup, Parameters};
use crate::error::Error;
use crate::flow::{
    Acceleration, Encoding, Sink, SinkView, Source, SourceView, Transport,
};
use crate::text::{parse_number, parse_unsigned};
use vstd::prelude::*;
use vstd::string::StringExecFns;

verus! {

/// Source timeout where none is configured (sec)
pub const CONFIG_TIMEOUT_SEC: u16 = 2;

/// Buffering latency where none is configured (ms)
pub const CONFIG_LATENCY_MS: u32 = 200;

/// Source location (cannot be empty string)
#[derive(Clone, Debug, PartialEq, Eq)]
pub struct Location(pub String);

impl Default for Location {
    fn default() -> (r: Self)
        ensures
            r.0@ == "test"@,
    {
        Location(String::from_str("test"))
    }
}

/// Configuration for one flow
#[derive(Clone, Debug, PartialEq, Eq)]
pub struct FlowConfig {
    /// Source location URI
    pub location: Location,
    /// RTSP transport
    pub rtsp_transport: Option<String>,
    /// Source encoding
    pub source_encoding: Option<String>,
    /// Source timeout in seconds
    pub timeout: Option<u16>,
    /// Buffering latency in milliseconds
    pub latency: Option<u32>,
    /// SDP parameter sets
    pub sprops: Option<String>,
    /// Overlay text
    pub overlay_text: Option<String>,
    /// Sink address
    pub address: Option<String>,
    /// Sink port
    pub port: Option<u16>,
    /// Sink encoding
    pub sink_encoding: Option<String>,
}

/// Streambed configuration
#[derive(Clone, Debug, PartialEq, Eq)]
pub struct Config {
    /// Control port (TCP)
    pub control_port: Option<u16>,
    /// Video acceleration method
    pub acceleration: Option<String>,
    /// All flows
    pub flow: Vec<FlowConfig>,
}

/// What the configuration of one flow says, as plain values.
pub struct FlowConfigView {
    pub location: Seq<char>,
    pub rtsp_transport: Option<Seq<char>>,
    pub source_encoding: Option<Seq<char>>,
    pub timeout: Option<u16>,
    pub latency: Option<u32>,
    pub sprops: Option<Seq<char>>,
    pub overlay_text: Option<Seq<char>>,
    pub address: Option<Seq<char>>,
    pub port: Option<u16>,
    pub sink_encoding: Option<Seq<char>>,
}

/// What a configuration says, as plain values.
pub struct ConfigView {
    pub control_port: Option<u16>,
    pub acceleration: Option<Seq<char>>,
    pub flow: Seq<FlowConfigView>,
}

/// An optional string as plain values.
pub open spec fn text_view(text: Option<String>) -> Option<Seq<char>> {
    match text {
        Some(t) => Some(t@),
        None => None,
    }
}

impl View for FlowConfig {
    type V = FlowConfigView;

    open spec fn view(&self) -> FlowConfigView {
        FlowConfigView {
            location: self.location.0@,
            rtsp_transport: text_view(self.rtsp_transport),
            source_encoding: text_view(self.source_encoding),
            timeout: self.timeout,
            latency: self.latency,
            sprops: text_view(self.sprops),
            overlay_text: text_view(self.overlay_text),
            address: text_view(self.address),
            port: self.port,
            sink_encoding: text_view(self.sink_encoding),
        }
    }
}

/// Flow records as plain values.
pub open spec fn flow_views(flows: Seq<FlowConfig>) -> Seq<FlowConfigView> {
    Seq::new(flows.len(), |i: int| flows[i]@)
}

impl View for Config {
    type V = ConfigView;

    open spec fn view(&self) -> ConfigView {
        ConfigView {
            control_port: self.control_port,
            acceleration: text_view(self.acceleration),
            flow: flow_views(self.flow@),
        }
    }
}

/// The setting that a text value makes: an empty value clears the setting.
pub open spec fn text_setting(value: Seq<char>) -> Option<Seq<char>> {
    if value.len() == 0 {
        None
    } else {
        Some(value)
    }
}

/// The setting that a numeric value makes: an empty value clears the
/// setting, and any other has to be an unsigned number of at most `max`.
pub open spec fn number_setting(value: Seq<char>, max: nat) -> Result<Option<nat>, Error> {
    if value.len() == 0 {
        Ok(None)
    } else {
        match parse_unsigned(value, max) {
            Some(n) => Ok(Some(n)),
            None => Err(Error::ParseInt()),
        }
    }
}

/// Whether some parameters hold a numeric value that is none.
pub open spec fn bad_number(
    params: Seq<(Seq<char>, Seq<char>)>,
    key: Seq<char>,
    max: nat,
) -> bool {
    lookup(params, key) matches Some(v) && number_setting(v, max) is Err
}

/// A text setting after some parameters: as it was where they do not name
/// it.
pub open spec fn set_text(
    old: Option<Seq<char>>,
    params: Seq<(Seq<char>, Seq<char>)>,
    key: Seq<char>,
) -> Option<Seq<char>> {
    match lookup(params, key) {
        Some(v) => text_setting(v),
        None => old,
    }
}

/// A numeric setting after some parameters: as it was where they do not
/// name it.
pub open spec fn set_number(
    old: Option<nat>,
    params: Seq<(Seq<char>, Seq<char>)>,
    key: Seq<char>,
    max: nat,
) -> Option<nat> {
    match lookup(params, key) {
        Some(v) => match number_setting(v, max) {
            Ok(n) => n,
            Err(_) => old,
        },
        None => old,
    }
}

impl FlowConfigView {
    /// The record of a flow that nothing has been said of.
    pub open spec fn initial() -> FlowConfigView {
        FlowConfigView {
            location: "test"@,
            rtsp_transport: None,
            source_encoding: None,
            timeout: None,
            latency: None,
            sprops: None,
            overlay_text: None,
            address: None,
            port: None,
            sink_encoding: None,
        }
    }

    /// The transport: any, where none is named or the name is unknown.
    pub open spec fn rtsp_transport(self) -> Transport {
        match self.rtsp_transport {
            Some(t) => match Transport::named(t) {
                Some(t) => t,
                None => Transport::ANY,
            },
            None => Transport::ANY,
        }
    }

    /// The encoding of the source: raw, where none is named or the name is
    /// unknown.
    pub open spec fn source_encoding(self) -> Encoding {
        match self.source_encoding {
            Some(e) => match Encoding::named(e) {
                Some(e) => e,
                None => Encoding::RAW,
            },
            None => Encoding::RAW,
        }
    }

    /// The timeout of the source (sec): two seconds, where none is set.
    pub open spec fn timeout(self) -> u16 {
        match self.timeout {
            Some(t) => t,
            None => CONFIG_TIMEOUT_SEC,
        }
    }

    /// The buffering latency (ms): 200 ms, where none is set.
    pub open spec fn latency(self) -> u32 {
        match self.latency {
            Some(l) => l,
            None => CONFIG_LATENCY_MS,
        }
    }

    /// The source that the record describes.
    pub open spec fn source(self) -> SourceView {
        SourceView {
            location: self.location,
            rtsp_transport: self.rtsp_transport(),
            encoding: self.source_encoding(),
            sprops: None,
            timeout: self.timeout(),
            latency: self.latency(),
        }
    }

    /// The encoding of the sink: that of the source, where none is named or
    /// the name is unknown.
    pub open spec fn sink_encoding(self) -> Encoding {
        match self.sink_encoding {
            Some(e) => match Encoding::named(e) {
                Some(e) => e,
                None => self.source_encoding(),
            },
            None => self.source_encoding(),
        }
    }

    /// The sink that the record describes: an RTP sink that sends its
    /// configuration in band where an address and a port are set, and none
    /// otherwise.
    pub open spec fn sink(self) -> SinkView {
        match (self.address, self.port) {
            (Some(address), Some(port)) => SinkView::RTP(
                address,
                port as i32,
                self.sink_encoding(),
                true,
            ),
            _ => SinkView::FAKE,
        }
    }

    /// The first fault of some parameters for a flow: a location that is
    /// empty, or a timeout, a latency or a port that is no number of its
    /// size.
    pub open spec fn fault(params: Seq<(Seq<char>, Seq<char>)>) -> Option<Error> {
        if lookup(params, "location"@) matches Some(l) && l.len() == 0 {
            Some(Error::Other("Invalid location"))
        } else if bad_number(params, "timeout"@, u16::MAX as nat) || bad_number(
            params,
            "latency"@,
            u32::MAX as nat,
        ) || bad_number(params, "port"@, u16::MAX as nat) {
            Some(Error::ParseInt())
        } else {
            None
        }
    }

    /// The record after some parameters: each setting that they name takes
    /// its value, or is cleared where the value is empty, and every other
    /// setting stays as it is.
    pub open spec fn updated(self, params: Seq<(Seq<char>, Seq<char>)>) -> FlowConfigView {
        FlowConfigView {
            location: match lookup(params, "location"@) {
                Some(l) => l,
                None => self.location,
            },
            rtsp_transport: set_text(self.rtsp_transport, params, "rtsp-transport"@),
            source_encoding: set_text(self.source_encoding, params, "source-encoding"@),
            timeout: match set_number(
                match self.timeout {
                    Some(t) => Some(t as nat),
                    None => None,
                },
                params,
                "timeout"@,
                u16::MAX as nat,
            ) {
                Some(t) => Some(t as u16),
                None => None,
            },
            latency: match set_number(
                match self.latency {
                    Some(l) => Some(l as nat),
                    None => None,
                },
                params,
                "latency"@,
                u32::MAX as nat,
            ) {
                Some(l) => Some(l as u32),
                None => None,
            },
            sprops: self.sprops,
            overlay_text: set_text(self.overlay_text, params, "overlay-text"@),
            address: set_text(self.address, params, "address"@),
            port: match set_number(
                match self.port {
                    Some(p) => Some(p as nat),
                    None => None,
                },
                params,
                "port"@,
                u16::MAX as nat,
            ) {
                Some(p) => Some(p as u16),
                None => None,
            },
            sink_encoding: set_text(self.sink_encoding, params, "sink-encoding"@),
        }
    }
}

/// Whether some parameters name a setting of a flow.
pub open spec fn names_flow_setting(params: Seq<(Seq<char>, Seq<char>)>) -> bool {
    ||| lookup(params, "location"@) is Some
    ||| lookup(params, "rtsp-transport"@) is Some
    ||| lookup(params, "source-encoding"@) is Some
    ||| lookup(params, "timeout"@) is Some
    ||| lookup(params, "latency"@) is Some
    ||| lookup(params, "address"@) is Some
    ||| lookup(params, "port"@) is Some
    ||| lookup(params, "sink-encoding"@) is Some
    ||| lookup(params, "overlay-text"@) is Some
}

/// A list of flow records made `n` long: cut at the end, or filled up with
/// records of which nothing is said.
pub open spec fn resized(flow: Seq<FlowConfigView>, n: nat) -> Seq<FlowConfigView> {
    Seq::new(
        n,
        |i: int|
            if i < flow.len() {
                flow[i]
            } else {
                FlowConfigView::initial()
            },
    )
}

impl ConfigView {
    /// The flow that some parameters are about.
    pub open spec fn flow_number(self, params: Seq<(Seq<char>, Seq<char>)>) -> Result<
        usize,
        Error,
    > {
        match lookup(params, "number"@) {
            None => Err(Error::Other("Missing flow number")),
            Some(n) => match parse_unsigned(n, usize::MAX as nat) {
                None => Err(Error::ParseInt()),
                Some(k) => if k >= self.flow.len() {
                    Err(Error::Other("Invalid flow number"))
                } else {
                    Ok(k as usize)
                },
            },
        }
    }

    /// The configuration after a flow command, and the flow that the
    /// command was about; or the first fault of the command, in which case
    /// nothing changes.
    pub open spec fn flow_subcommand(self, params: Seq<(Seq<char>, Seq<char>)>) -> Result<
        (ConfigView, usize),
        Error,
    > {
        match self.flow_number(params) {
            Err(e) => Err(e),
            Ok(number) => match FlowConfigView::fault(params) {
                Some(e) => Err(e),
                None => Ok(
                    (
                        ConfigView {
                            flow: self.flow.update(
                                number as int,
                                self.flow[number as int].updated(params),
                            ),
                            ..self
                        },
                        number,
                    ),
                ),
            },
        }
    }

    /// The configuration after a config command, and whether the command
    /// made a setting; or the first fault of the command, in which case
    /// nothing changes.
    pub open spec fn config_subcommand(self, params: Seq<(Seq<char>, Seq<char>)>) -> Result<
        (ConfigView, bool),
        Error,
    > {
        let acceleration = lookup(params, "acceleration"@);
        let port = lookup(params, "control-port"@);
        let flows = lookup(params, "flows"@);
        if bad_number(params, "control-port"@, u16::MAX as nat) {
            Err(Error::ParseInt())
        } else if flows matches Some(f) && parse_unsigned(f, usize::MAX as nat) is None {
            Err(Error::ParseInt())
        } else {
            let resize = flows matches Some(f) && parse_unsigned(f, usize::MAX as nat)
                != Some(self.flow.len());
            Ok(
                (
                    ConfigView {
                        control_port: match set_number(
                            match self.control_port {
                                Some(p) => Some(p as nat),
                                None => None,
                            },
                            params,
                            "control-port"@,
                            u16::MAX as nat,
                        ) {
                            Some(p) => Some(p as u16),
                            None => None,
                        },
                        acceleration: match acceleration {
                            Some(a) => Some(a),
                            None => self.acceleration,
                        },
                        flow: match flows {
                            Some(f) => resized(
                                self.flow,
                                parse_unsigned(f, usize::MAX as nat)->Some_0,
                            ),
                            None => self.flow,
                        },
                    },
                    acceleration is Some || port is Some || resize,
                ),
            )
        }
    }

    /// The method of acceleration: none, where none is named.
    pub open spec fn acceleration(self) -> Result<Acceleration, Error> {
        match self.acceleration {
            Some(a) => match Acceleration::named(a) {
                Some(a) => Ok(a),
                None => Err(Error::Other("invalid acceleration")),
            },
            None => Ok(Acceleration::NONE),
        }
    }

    /// What the flow of a number is built from.
    pub open spec fn builder(self, number: usize) -> Result<FlowBuilderView, Error> {
        match self.acceleration() {
            Err(e) => Err(e),
            Ok(acceleration) => if number < self.flow.len() {
                Ok(
                    FlowBuilderView {
                        idx: number,
                        source: self.flow[number as int].source(),
                        sink: self.flow[number as int].sink(),
                        acceleration,
                        overlay_text: self.flow[number as int].overlay_text,
                        handle: None,
                    },
                )
            } else {
                Err(Error::Other("Invalid flow number"))
            },
        }
    }

    /// The flow of a number.
    pub open spec fn create_flow(self, number: usize) -> Result<FlowView, Error> {
        match self.builder(number) {
            Ok(b) => b.flow(),
            Err(e) => Err(e),
        }
    }

    /// The first `n` flows, or the first error among them.
    pub open spec fn flows(self, n: nat) -> Result<Seq<FlowView>, Error>
        decreases n,
    {
        if n == 0 {
            Ok(Seq::empty())
        } else {
            match self.flows((n - 1) as nat) {
                Err(e) => Err(e),
                Ok(flows) => match self.create_flow((n - 1) as usize) {
                    Ok(f) => Ok(flows.push(f)),
                    Err(e) => Err(e),
                },
            }
        }
    }
}

/// Planned flows as plain values.
pub open spec fn plan_views(flows: Seq<Flow>) -> Seq<FlowView> {
    Seq::new(flows.len(), |i: int| flows[i]@)
}

/// A copy of an optional string.
fn copy_text(text: &Option<String>) -> (r: Option<String>)
    ensures
        text_view(r) == text_view(*text),
{
    match text {
        Some(t) => Some(t.clone()),
        None => None,
    }
}

/// The text setting that a parameter makes, or the setting as it was.
fn update_text(old: &Option<String>, params: &Parameters, key: &str) -> (r: Option<String>)
    ensures
        text_view(r) == set_text(text_view(*old), params@, key@),
{
    match params.value(key) {
        Some(v) => {
            if v.is_empty() {
                None
            } else {
                Some(String::from_str(v))
            }
        },
        None => copy_text(old),
    }
}

/// The numeric setting that a parameter makes, or the setting as it was.
fn update_number(old: Option<u64>, params: &Parameters, key: &str, max: u64) -> (r: Result<
    Option<u64>,
    Error,
>)
    requires
        old matches Some(n) ==> n <= max,
    ensures
        bad_number(params@, key@, max as nat) ==> r == Err::<Option<u64>, Error>(
            Error::ParseInt(),
        ),
        !bad_number(params@, key@, max as nat) ==> (r matches Ok(n) && (match n {
            Some(n) => Some(n as nat),
            None => None,
        }) == set_number(
            match old {
                Some(n) => Some(n as nat),
                None => None,
            },
            params@,
            key@,
            max as nat,
        ) && (n matches Some(n) ==> n <= max)),
{
    match params.value(key) {
        Some(v) => {
            if v.is_empty() {
                Ok(None)
            } else {
                match parse_number(v, max) {
                    Some(n) => Ok(Some(n)),
                    None => Err(Error::ParseInt()),
                }
            }
        },
        None => Ok(old),
    }
}

/// A 16-bit setting, as the numeric setting that the parameters are read to.
fn widen16(n: Option<u16>) -> (r: Option<u64>)
    ensures
        r == (match n {
            Some(n) => Some(n as u64),
            None => None,
        }),
{
    match n {
        Some(n) => Some(n as u64),
        None => None,
    }
}

/// A numeric setting within 16 bits, as a 16-bit setting.
fn narrow16(n: Option<u64>) -> (r: Option<u16>)
    requires
        n matches Some(n) ==> n <= u16::MAX,
    ensures
        r == (match n {
            Some(n) => Some(n as u16),
            None => None,
        }),
{
    match n {
        Some(n) => Some(n as u16),
        None => None,
    }
}

/// A 32-bit setting, as the numeric setting that the parameters are read to.
fn widen32(n: Option<u32>) -> (r: Option<u64>)
    ensures
        r == (match n {
            Some(n) => Some(n as u64),
            None => None,
        }),
{
    match n {
        Some(n) => Some(n as u64),
        None => None,
    }
}

/// A numeric setting within 32 bits, as a 32-bit setting.
fn narrow32(n: Option<u64>) -> (r: Option<u32>)
    requires
        n matches Some(n) ==> n <= u32::MAX,
    ensures
        r == (match n {
            Some(n) => Some(n as u32),
            None => None,
        }),
{
    match n {
        Some(n) => Some(n as u32),
        None => None,
    }
}

impl Default for FlowConfig {
    fn default() -> (r: Self)
        ensures
            r@ == FlowConfigView::initial(),
    {
        FlowConfig {
            location: Location::default(),
            rtsp_transport: None,
            source_encoding: None,
            timeout: None,
            latency: None,
            sprops: None,
            overlay_text: None,
            address: None,
            port: None,
            sink_encoding: None,
        }
    }
}

impl Default for Config {
    fn default() -> (r: Self)
        ensures
            r@ == (ConfigView {
                control_port: None,
                acceleration: None,
                flow: Seq::<FlowConfigView>::empty(),
            }),
    {
        let r = Config { control_port: None, acceleration: None, flow: Vec::new() };
        assert(r@.flow =~= Seq::<FlowConfigView>::empty());
        r
    }
}

impl FlowConfig {
    /// Get RTSP transport
    pub fn rtsp_transport(&self) -> (r: Transport)
        ensures
            r == self@.rtsp_transport(),
    {
        match &self.rtsp_transport {
            Some(t) => match Transport::from_str(t.as_str()) {
                Ok(t) => t,
                Err(_) => Transport::ANY,
            },
            None => Transport::ANY,
        }
    }

    /// Get source encoding
    pub fn source_encoding(&self) -> (r: Encoding)
        ensures
            r == self@.source_encoding(),
    {
        match &self.source_encoding {
            Some(e) => match Encoding::from_str(e.as_str()) {
                Ok(e) => e,
                Err(_) => Encoding::RAW,
            },
            None => Encoding::RAW,
        }
    }

    /// Get source timeout
    pub fn timeout(&self) -> (r: u16)
        ensures
            r == self@.timeout(),
    {
        match self.timeout {
            Some(t) => t,
            None => CONFIG_TIMEOUT_SEC,
        }
    }

    /// Get buffering latency
    pub fn latency(&self) -> (r: u32)
        ensures
            r == self@.latency(),
    {
        match self.latency {
            Some(l) => l,
            None => CONFIG_LATENCY_MS,
        }
    }

    /// Get source
    pub fn source(&self) -> (r: Source)
        ensures
            r@ == self@.source(),
    {
        Source::default().with_location(self.location.0.as_str()).with_rtsp_transport(
            self.rtsp_transport(),
        ).with_encoding(self.source_encoding()).with_timeout(self.timeout()).with_latency(
            self.latency(),
        )
    }

    /// Get overlay text
    pub fn overlay_text(&self) -> (r: Option<&str>)
        ensures
            match r {
                Some(t) => self@.overlay_text == Some(t@),
                None => self@.overlay_text is None,
            },
    {
        match &self.overlay_text {
            Some(t) => Some(t.as_str()),
            None => None,
        }
    }

    /// Get sink encoding
    pub fn sink_encoding(&self) -> (r: Encoding)
        ensures
            r == self@.sink_encoding(),
    {
        match &self.sink_encoding {
            Some(e) => match Encoding::from_str(e.as_str()) {
                Ok(e) => e,
                Err(_) => self.source_encoding(),
            },
            None => self.source_encoding(),
        }
    }

    /// Get sink
    pub fn sink(&self) -> (r: Sink)
        ensures
            r@ == self@.sink(),
    {
        match (&self.address, &self.port) {
            (Some(address), Some(port)) => Sink::RTP(
                address.clone(),
                *port as i32,
                self.sink_encoding(),
                true,
            ),
            _ => Sink::FAKE,
        }
    }

    /// The record with the settings that some parameters name, or the first
    /// fault of the parameters.
    pub fn updated(&self, params: &Parameters) -> (r: Result<FlowConfig, Error>)
        ensures
            match FlowConfigView::fault(params@) {
                Some(e) => r matches Err(x) && x == e,
                None => r matches Ok(f) && f@ == self@.updated(params@),
            },
    {
        let location = match params.value("location") {
            Some(location) => {
                if location.is_empty() {
                    return Err(Error::Other("Invalid location"));
                }
                Location(String::from_str(location))
            },
            None => Location(self.location.0.clone()),
        };
        let rtsp_transport = update_text(&self.rtsp_transport, params, "rtsp-transport");
        let source_encoding = update_text(&self.source_encoding, params, "source-encoding");
        let timeout = match update_number(widen16(self.timeout), params, "timeout", 0xffff) {
            Ok(timeout) => narrow16(timeout),
            Err(e) => {
                return Err(e);
            },
        };
        let latency = match update_number(widen32(self.latency), params, "latency", 0xffff_ffff) {
            Ok(latency) => narrow32(latency),
            Err(e) => {
                return Err(e);
            },
        };
        let address = update_text(&self.address, params, "address");
        let port = match update_number(widen16(self.port), params, "port", 0xffff) {
            Ok(port) => narrow16(port),
            Err(e) => {
                return Err(e);
            },
        };
        let sink_encoding = update_text(&self.sink_encoding, params, "sink-encoding");
        let overlay_text = update_text(&self.overlay_text, params, "overlay-text");
        Ok(
            FlowConfig {
                location,
                rtsp_transport,
                source_encoding,
                timeout,
                latency,
                sprops: copy_text(&self.sprops),
                overlay_text,
                address,
                port,
                sink_encoding,
            },
        )
    }
}

/// Whether some parameters name a setting of a flow. A flow command that
/// names none asks for the flow's record to be shown.
pub fn flow_settings_named(params: &Parameters) -> (r: bool)
    ensures
        r == names_flow_setting(params@),
{
    params.value("location").is_some() || params.value("rtsp-transport").is_some()
        || params.value("source-encoding").is_some() || params.value("timeout").is_some()
        || params.value("latency").is_some() || params.value("address").is_some() || params.value(
        "port",
    ).is_some() || params.value("sink-encoding").is_some() || params.value(
        "overlay-text",
    ).is_some()
}

impl Config {
    /// Config sub-command
    ///
    /// Makes the global settings that the parameters name, all of them or,
    /// where one is at fault, none. Says whether a setting was made: a
    /// command that makes none asks for the configuration to be shown.
    pub fn config_subcommand(&mut self, params: &Parameters) -> (r: Result<bool, Error>)
        ensures
            match old(self)@.config_subcommand(params@) {
                Ok((config, made)) => final(self)@ == config && r == Ok::<bool, Error>(made),
                Err(e) => final(self)@ == old(self)@ && r == Err::<bool, Error>(e),
            },
    {
        let control_port = match update_number(
            widen16(self.control_port),
            params,
            "control-port",
            0xffff,
        ) {
            Ok(port) => narrow16(port),
            Err(e) => {
                return Err(e);
            },
        };
        let flows = match params.value("flows") {
            Some(flows) => match parse_number(flows, usize::MAX as u64) {
                Some(flows) => Some(flows as usize),
                None => {
                    return Err(Error::ParseInt());
                },
            },
            None => None,
        };
        let mut param = false;
        if let Some(acceleration) = params.value("acceleration") {
            self.acceleration = Some(String::from_str(acceleration));
            param = true;
        }
        if params.value("control-port").is_some() {
            self.control_port = control_port;
            param = true;
        }
        if let Some(flows) = flows {
            if flows != self.flow.len() {
                self.resize(flows);
                param = true;
            } else {
                assert(resized(old(self)@.flow, flows as nat) =~= old(self)@.flow);
            }
        }
        Ok(param)
    }

    /// Makes the list of flows `flows` long: cuts it at the end, or fills it
    /// up with records of which nothing is said.
    fn resize(&mut self, flows: usize)
        ensures
            final(self)@ == (ConfigView {
                flow: resized(old(self)@.flow, flows as nat),
                ..old(self)@
            }),
    {
        if flows < self.flow.len() {
            self.flow.truncate(flows);
        }
        while self.flow.len() < flows
            invariant
                self.control_port == old(self).control_port,
                self.acceleration == old(self).acceleration,
                self.flow@.len() <= flows,
                self.flow@.len() >= old(self).flow@.len() || self.flow@.len() == flows,
                flow_views(self.flow@) =~= resized(old(self)@.flow, self.flow@.len() as nat),
            decreases flows - self.flow.len(),
        {
            let ghost before = self.flow@;
            self.flow.push(FlowConfig::default());
            proof {
                let now = flow_views(self.flow@);
                let goal = resized(old(self)@.flow, self.flow@.len() as nat);
                assert forall|i: int| 0 <= i < now.len() implies now[i] == goal[i] by {
                    if i < before.len() {
                        assert(flow_views(before)[i] == resized(
                            old(self)@.flow,
                            before.len() as nat,
                        )[i]);
                    }
                }
            }
        }
    }

    /// Flow sub-command
    ///
    /// Makes the settings that the parameters name for the flow that they
    /// number, all of them or, where one is at fault, none.
    pub fn flow_subcommand(&mut self, params: &Parameters) -> (r: Result<usize, Error>)
        ensures
            match old(self)@.flow_subcommand(params@) {
                Ok((config, number)) => final(self)@ == config && r == Ok::<usize, Error>(number),
                Err(e) => final(self)@ == old(self)@ && r == Err::<usize, Error>(e),
            },
    {
        let number = match params.value("number") {
            Some(number) => number,
            None => {
                return Err(Error::Other("Missing flow number"));
            },
        };
        let number: usize = match parse_number(number, usize::MAX as u64) {
            Some(number) => number as usize,
            None => {
                return Err(Error::ParseInt());
            },
        };
        if number >= self.flow.len() {
            return Err(Error::Other("Invalid flow number"));
        }
        let flow = match self.flow[number].updated(params) {
            Ok(flow) => flow,
            Err(e) => {
                return Err(e);
            },
        };
        self.flow.set(number, flow);
        assert(flow_views(self.flow@) =~= old(self)@.flow.update(number as int, flow@));
        Ok(number)
    }

    /// Convert config into a Vec of Flows
    pub fn into_flows(&self) -> (r: Result<Vec<Flow>, Error>)
        ensures
            match self@.flows(self@.flow.len()) {
                Ok(flows) => r matches Ok(v) && plan_views(v@) == flows,
                Err(e) => r matches Err(x) && x == e,
            },
    {
        let mut flows: Vec<Flow> = Vec::new();
        let mut number: usize = 0;
        assert(plan_views(flows@) =~= Seq::empty());
        while number < self.flow.len()
            invariant
                number <= self.flow@.len(),
                self@.flows(number as nat) == Ok::<Seq<FlowView>, Error>(plan_views(flows@)),
            decreases self.flow.len() - number,
        {
            let ghost before = plan_views(flows@);
            match self.create_flow(number) {
                Ok(flow) => {
                    flows.push(flow);
                    assert(plan_views(flows@) =~= before.push(flow@));
                },
                Err(e) => {
                    proof {
                        Self::lemma_flows_error(self@, number as nat, self@.flow.len());
                    }
                    return Err(e);
                },
            }
            number += 1;
        }
        Ok(flows)
    }

    /// Where one flow cannot be planned, no longer list of flows can.
    proof fn lemma_flows_error(config: ConfigView, number: nat, n: nat)
        requires
            number < n <= usize::MAX,
            config.flows(number) is Ok,
            config.create_flow(number as usize) is Err,
        ensures
            config.flows(n) == Err::<Seq<FlowView>, Error>(
                config.create_flow(number as usize)->Err_0,
            ),
        decreases n,
    {
        if n > number + 1 {
            Self::lemma_flows_error(config, number, (n - 1) as nat);
        }
    }

    /// Create a flow
    pub fn create_flow(&self, number: usize) -> (r: Result<Flow, Error>)
        ensures
            is_flow(r, self@.create_flow(number)),
    {
        let acceleration = match &self.acceleration {
            Some(a) => match Acceleration::from_str(a.as_str()) {
                Ok(a) => a,
                Err(e) => {
                    return Err(e);
                },
            },
            None => Acceleration::NONE,
        };
        if number < self.flow.len() {
            let flow_cfg = &self.flow[number];
            FlowBuilder::new(number).with_acceleration(acceleration).with_source(
                flow_cfg.source(),
            ).with_overlay_text(flow_cfg.overlay_text()).with_sink(flow_cfg.sink()).build()
        } else {
            Err(Error::Other("Invalid flow number"))
        }
    }
}

} // verus!
