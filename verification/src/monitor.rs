//! The state of a running flow: which events it reports for the messages of
//! its pipeline, and how it accounts for packets.

use crate::builder::{FlowBuilder, FlowBuilderView};
use crate::checker::State;
use crate::crop::lemma_horizontal_margins_fit;
use crate::crop::lemma_vertical_margins_fit;
use crate::error::Error;
use crate::flow::Feedback;
use crate::stage::{setting_views, Setting, SettingView, Value, ValueView};
use crate::text::{decimal_digits, push_decimal, str_eq};
use vstd::prelude::*;
use vstd::string::StringExecFns;

verus! {

/// Font size (pt), using default height
pub const FONT_SZ: u32 = 14;

/// Default height (px)
pub const DEFAULT_HEIGHT: u32 = 240;

/// Name of the message by which a UDP source says that nothing arrived in
/// time
pub const UDP_TIMEOUT: &'static str = "GstUDPSrcTimeout";

/// A message on the bus of a pipeline.
#[derive(Clone, Debug, PartialEq, Eq)]
pub enum Message {
    /// The pipeline has settled in its new state
    AsyncDone,
    /// End of stream
    Eos,
    /// Something reached a state; the flag says that it was the pipeline
    StateChanged(State, bool),
    /// An error
    Error,
    /// A warning
    Warning,
    /// A message of a stage, with the name of what sent it
    Element(Option<String>),
    /// A message posted by the flow's own check
    Application,
    /// Any other message
    Other,
}

/// What is to be done for a message.
#[derive(Clone, Copy, Debug, PartialEq, Eq, Structural)]
pub enum Action {
    /// Report the event
    Emit(Feedback),
    /// Bring the pipeline to rest
    Halt,
    /// Set the text stage by the height of its frames
    ConfigureText,
    /// Set the crop stage by the size of its frames
    ConfigureCrop,
    /// Read the counters of the jitter buffer, and account for them
    SampleStats,
}

/// The packet counters of a jitter buffer, as far as it has them.
#[derive(Clone, Copy, Debug, PartialEq, Eq, Structural)]
pub struct JitterStats {
    pub pushed: Option<u64>,
    pub lost: Option<u64>,
    pub late: Option<u64>,
}

/// A flow under way
#[derive(Clone, Debug)]
pub struct FlowMonitor {
    /// What the flow was built from
    builder: FlowBuilder,
    /// Flag indicating playing
    is_playing: bool,
    /// Number of pushed packets
    pushed: u64,
    /// Number of lost packets
    lost: u64,
    /// Number of late packets
    late: u64,
}

/// What a flow under way holds, as plain values.
pub struct FlowMonitorView {
    pub builder: FlowBuilderView,
    pub is_playing: bool,
    pub pushed: u64,
    pub lost: u64,
    pub late: u64,
}

impl View for FlowMonitor {
    type V = FlowMonitorView;

    closed spec fn view(&self) -> FlowMonitorView {
        FlowMonitorView {
            builder: self.builder@,
            is_playing: self.is_playing,
            pushed: self.pushed,
            lost: self.lost,
            late: self.late,
        }
    }
}

/// A message that says the flow has come to a stop: end of stream, an error,
/// a warning, or a UDP source that timed out.
pub open spec fn is_stop(msg: Message) -> bool {
    ||| msg is Eos
    ||| msg is Error
    ||| msg is Warning
    ||| (msg matches Message::Element(Some(name)) && name@ == UDP_TIMEOUT@)
}

/// A message after which the flow is at rest: one that says it has come to
/// a stop, or that something has reached the state of rest.
pub open spec fn is_rest(msg: Message) -> bool {
    is_stop(msg) || (msg matches Message::StateChanged(state, _) && state == State::Null)
}

/// The number of `Stopped` events among some actions.
pub open spec fn stopped_count(actions: Seq<Action>) -> nat
    decreases actions.len(),
{
    if actions.len() == 0 {
        0
    } else {
        stopped_count(actions.drop_last()) + if actions.last() matches Action::Emit(
            Feedback::Stopped(_),
        ) {
            1nat
        } else {
            0nat
        }
    }
}

/// The font size (pt) for frames of a height: 14 pt at 240 px, and in
/// proportion otherwise.
pub open spec fn font_size(height: int) -> int {
    FONT_SZ * height / (DEFAULT_HEIGHT as int)
}

/// The settings of the text stage for frames of a height: the font, and
/// margins of half the font size from the top and the right edge.
pub open spec fn text_settings(height: int) -> Seq<SettingView> {
    seq![
        SettingView {
            key: "font-desc",
            value: ValueView::Text(
                "Overpass, Bold "@ + decimal_digits(font_size(height) as nat),
            ),
        },
        SettingView { key: "ypad", value: ValueView::Int((font_size(height) / 2) as i32) },
        SettingView { key: "xpad", value: ValueView::Int((font_size(height) / 2) as i32) },
    ]
}

impl FlowMonitorView {
    /// The state of a flow that was built and has not played yet.
    pub open spec fn stopped(builder: FlowBuilderView) -> FlowMonitorView {
        FlowMonitorView { builder, is_playing: false, pushed: 0, lost: 0, late: 0 }
    }

    /// Coming to rest: a flow that plays reports that it stopped; one at
    /// rest reports nothing.
    pub open spec fn rest(self) -> (FlowMonitorView, Seq<Action>) {
        if self.is_playing {
            (
                FlowMonitorView { is_playing: false, ..self },
                seq![Action::Emit(Feedback::Stopped(self.builder.idx))],
            )
        } else {
            (self, Seq::empty())
        }
    }

    /// What the stages that depend on the frame size need once the pipeline
    /// plays.
    pub open spec fn configure(self) -> Seq<Action> {
        (if self.builder.has_text() {
            seq![Action::ConfigureText]
        } else {
            Seq::empty()
        }) + (if self.builder.sink.crop().is_cropped() {
            seq![Action::ConfigureCrop]
        } else {
            Seq::empty()
        })
    }

    /// The state after a message, and what is to be done for it.
    pub open spec fn step(self, msg: Message) -> (FlowMonitorView, Seq<Action>) {
        if is_stop(msg) {
            (self.rest().0, seq![Action::Halt] + self.rest().1)
        } else {
            match msg {
                Message::AsyncDone => (
                    FlowMonitorView { is_playing: true, ..self },
                    seq![Action::Emit(Feedback::Playing(self.builder.idx))],
                ),
                Message::StateChanged(State::Playing, true) => (self, self.configure()),
                Message::StateChanged(State::Null, _) => self.rest(),
                Message::Application => (self, seq![Action::SampleStats]),
                _ => (self, Seq::empty()),
            }
        }
    }

    /// The state after some messages in a row, and all that is to be done
    /// for them.
    pub open spec fn run(self, msgs: Seq<Message>) -> (FlowMonitorView, Seq<Action>)
        decreases msgs.len(),
    {
        if msgs.len() == 0 {
            (self, Seq::empty())
        } else {
            let before = self.run(msgs.drop_last());
            let last = before.0.step(msgs.last());
            (last.0, before.1 + last.1)
        }
    }

    /// The counters after a reading of the jitter buffer: a reading that
    /// lacks a counter changes nothing.
    pub open spec fn read(self, stats: JitterStats) -> FlowMonitorView {
        match (stats.pushed, stats.lost, stats.late) {
            (Some(pushed), Some(lost), Some(late)) => FlowMonitorView {
                pushed,
                lost,
                late,
                ..self
            },
            _ => self,
        }
    }

    /// What a reading of the jitter buffer lacks, if anything.
    pub open spec fn lacking(stats: JitterStats) -> Option<Error> {
        if stats.pushed is None {
            Some(Error::Other("missing num-pushed"))
        } else if stats.lost is None {
            Some(Error::Other("missing num-lost"))
        } else if stats.late is None {
            Some(Error::Other("missing num-late"))
        } else {
            None
        }
    }

    /// The state after a statistics snapshot, where a jitter buffer could be
    /// read.
    pub open spec fn sampled(self, stats: Option<JitterStats>) -> FlowMonitorView {
        match stats {
            Some(stats) => self.read(stats),
            None => self,
        }
    }

    /// No counter is lower in `self` than it was in `before`.
    pub open spec fn no_less_than(self, before: FlowMonitorView) -> bool {
        self.pushed >= before.pushed && self.lost >= before.lost && self.late >= before.late
    }

    /// What the counters gain by a statistics snapshot: pushed, lost, late.
    /// There is no gain to speak of where a counter drops.
    pub open spec fn gain(self, stats: Option<JitterStats>) -> Option<(u64, u64, u64)> {
        let after = self.sampled(stats);
        if after.no_less_than(self) {
            Some(
                (
                    (after.pushed - self.pushed) as u64,
                    (after.lost - self.lost) as u64,
                    (after.late - self.late) as u64,
                ),
            )
        } else {
            None
        }
    }
}

/// A statistics snapshot gives a gain exactly where no counter has dropped,
/// and what it gives is what was added to each counter: never less than
/// nothing.
pub proof fn lemma_gain_never_negative(m: FlowMonitorView, stats: Option<JitterStats>)
    ensures
        m.gain(stats) is Some <==> m.sampled(stats).no_less_than(m),
        m.gain(stats) matches Some((pushed, lost, late)) ==> {
            &&& m.pushed + pushed == m.sampled(stats).pushed
            &&& m.lost + lost == m.sampled(stats).lost
            &&& m.late + late == m.sampled(stats).late
        },
{
}

/// A `Stopped` event among the actions for one message is the only one.
pub proof fn lemma_step_stops_once(m: FlowMonitorView, msg: Message)
    ensures
        stopped_count(m.step(msg).1) <= 1,
        stopped_count(m.step(msg).1) == 1 ==> m.is_playing && !m.step(msg).0.is_playing,
        is_rest(msg) ==> !m.step(msg).0.is_playing,
{
    let a = m.step(msg).1;
    lemma_stopped_count_short(a);
}

/// The `Stopped` events among at most two actions, of which only the last
/// can be one.
proof fn lemma_stopped_count_short(a: Seq<Action>)
    requires
        a.len() <= 2,
    ensures
        a.len() == 0 ==> stopped_count(a) == 0,
        a.len() == 1 ==> stopped_count(a) == (if a[0] matches Action::Emit(Feedback::Stopped(_)) {
            1nat
        } else {
            0nat
        }),
        a.len() == 2 ==> stopped_count(a) == (if a[0] matches Action::Emit(Feedback::Stopped(_)) {
            1nat
        } else {
            0nat
        }) + (if a[1] matches Action::Emit(Feedback::Stopped(_)) {
            1nat
        } else {
            0nat
        }),
{
    reveal_with_fuel(stopped_count, 3);
    if a.len() >= 1 {
        let b = a.drop_last();
        if b.len() >= 1 {
            assert(b.drop_last().len() == 0);
            assert(b.last() == a[0]);
        }
    }
}

/// The `Stopped` events of two runs of actions add up.
pub proof fn lemma_stopped_count_add(a: Seq<Action>, b: Seq<Action>)
    ensures
        stopped_count(a + b) == stopped_count(a) + stopped_count(b),
    decreases b.len(),
{
    if b.len() == 0 {
        assert(a + b =~= a);
    } else {
        lemma_stopped_count_add(a, b.drop_last());
        assert((a + b).drop_last() =~= a + b.drop_last());
        assert((a + b).last() == b.last());
    }
}

/// However many messages say that the flow has come to rest, it reports
/// that it stopped at most once, and not at all if it was at rest before.
pub proof fn lemma_stopped_at_most_once(m: FlowMonitorView, msgs: Seq<Message>)
    requires
        forall|i: int| 0 <= i < msgs.len() ==> is_rest(#[trigger] msgs[i]),
    ensures
        stopped_count(m.run(msgs).1) <= 1,
        !m.is_playing ==> stopped_count(m.run(msgs).1) == 0,
        !m.is_playing ==> !m.run(msgs).0.is_playing,
        msgs.len() > 0 ==> !m.run(msgs).0.is_playing,
        stopped_count(m.run(msgs).1) == 1 ==> m.is_playing,
    decreases msgs.len(),
{
    if msgs.len() > 0 {
        let head = msgs.drop_last();
        lemma_stopped_at_most_once(m, head);
        let before = m.run(head);
        let last = before.0.step(msgs.last());
        assert(is_rest(msgs.last()));
        lemma_step_stops_once(before.0, msgs.last());
        lemma_stopped_count_add(before.1, last.1);
        if head.len() > 0 {
            assert(!before.0.is_playing);
        }
    }
}

/// Whether a flow plays after some actions, given whether it played before
/// them: the last event among them that says so or says otherwise decides.
pub open spec fn plays_after(actions: Seq<Action>, playing: bool) -> bool
    decreases actions.len(),
{
    if actions.len() == 0 {
        playing
    } else {
        match actions.last() {
            Action::Emit(Feedback::Playing(_)) => true,
            Action::Emit(Feedback::Stopped(_)) => false,
            _ => plays_after(actions.drop_last(), playing),
        }
    }
}

/// Every `Stopped` event among some actions comes while the flow plays,
/// given whether it played before them: no two follow each other without a
/// `Playing` event between them.
pub open spec fn stops_once_each(actions: Seq<Action>, playing: bool) -> bool
    decreases actions.len(),
{
    if actions.len() == 0 {
        true
    } else {
        &&& stops_once_each(actions.drop_last(), playing)
        &&& actions.last() matches Action::Emit(Feedback::Stopped(_)) ==> plays_after(
            actions.drop_last(),
            playing,
        )
    }
}

/// Actions that come one after the other: the later ones begin where the
/// earlier ones leave the flow.
pub proof fn lemma_stops_once_each_add(a: Seq<Action>, b: Seq<Action>, playing: bool)
    ensures
        plays_after(a + b, playing) == plays_after(b, plays_after(a, playing)),
        stops_once_each(a + b, playing) == (stops_once_each(a, playing) && stops_once_each(
            b,
            plays_after(a, playing),
        )),
    decreases b.len(),
{
    if b.len() == 0 {
        assert(a + b =~= a);
    } else {
        lemma_stops_once_each_add(a, b.drop_last(), playing);
        assert((a + b).drop_last() =~= a + b.drop_last());
        assert((a + b).last() == b.last());
    }
}

/// Whatever messages come in whatever order, the flow reports that it
/// stopped only while it plays: once for each time that it stops. What it
/// reports keeps track of whether it plays.
pub proof fn lemma_stopped_once_per_stop(m: FlowMonitorView, msgs: Seq<Message>)
    ensures
        stops_once_each(m.run(msgs).1, m.is_playing),
        plays_after(m.run(msgs).1, m.is_playing) == m.run(msgs).0.is_playing,
    decreases msgs.len(),
{
    if msgs.len() > 0 {
        lemma_stopped_once_per_stop(m, msgs.drop_last());
        let before = m.run(msgs.drop_last());
        let last = before.0.step(msgs.last());
        lemma_stops_once_each_add(before.1, last.1, m.is_playing);
        reveal_with_fuel(plays_after, 3);
        reveal_with_fuel(stops_once_each, 3);
    }
}

impl FlowMonitor {
    /// The state of a flow that has just been built: it is at rest, and
    /// nothing has been counted.
    pub fn new(builder: FlowBuilder) -> (r: Self)
        ensures
            r@ == FlowMonitorView::stopped(builder@),
    {
        FlowMonitor { builder, is_playing: false, pushed: 0, lost: 0, late: 0 }
    }

    /// Get what the flow was built from
    pub fn builder(&self) -> (r: &FlowBuilder)
        ensures
            r@ == self@.builder,
    {
        &self.builder
    }

    /// Check if the flow plays
    pub fn is_playing(&self) -> (r: bool)
        ensures
            r == self@.is_playing,
    {
        self.is_playing
    }

    /// Get the packet counters: pushed, lost, late
    pub fn counters(&self) -> (r: (u64, u64, u64))
        ensures
            r == (self@.pushed, self@.lost, self@.late),
    {
        (self.pushed, self.lost, self.late)
    }

    /// Handle a bus message
    pub fn handle_message(&mut self, msg: &Message) -> (r: Vec<Action>)
        ensures
            (final(self)@, r@) == old(self)@.step(*msg),
    {
        let mut actions: Vec<Action> = Vec::new();
        match msg {
            Message::AsyncDone => {
                self.is_playing = true;
                actions.push(Action::Emit(Feedback::Playing(self.builder.idx())));
            },
            Message::Eos => {
                actions = self.stop();
            },
            Message::StateChanged(state, from_pipeline) => {
                match (state, from_pipeline) {
                    (State::Playing, true) => {
                        actions = self.configure_playing();
                    },
                    (State::Null, _) => {
                        if let Some(event) = self.stopped() {
                            actions.push(Action::Emit(event));
                        }
                    },
                    _ => {},
                }
            },
            Message::Error => {
                actions = self.stop();
            },
            Message::Warning => {
                actions = self.stop();
            },
            Message::Element(source) => {
                if let Some(name) = source {
                    if str_eq(name.as_str(), UDP_TIMEOUT) {
                        actions = self.stop();
                    }
                }
            },
            Message::Application => {
                actions.push(Action::SampleStats);
            },
            Message::Other => {},
        }
        assert(actions@ =~= old(self)@.step(*msg).1);
        actions
    }

    /// Stop the flow
    pub fn stop(&mut self) -> (r: Vec<Action>)
        ensures
            final(self)@ == old(self)@.rest().0,
            r@ == seq![Action::Halt] + old(self)@.rest().1,
    {
        let mut actions: Vec<Action> = Vec::new();
        actions.push(Action::Halt);
        if let Some(event) = self.stopped() {
            actions.push(Action::Emit(event));
        }
        assert(actions@ =~= seq![Action::Halt] + old(self)@.rest().1);
        actions
    }

    /// Provide feedback for stopped state
    pub fn stopped(&mut self) -> (r: Option<Feedback>)
        ensures
            final(self)@ == old(self)@.rest().0,
            !final(self)@.is_playing,
            r == (if old(self)@.is_playing {
                Some(Feedback::Stopped(old(self)@.builder.idx))
            } else {
                None
            }),
    {
        if self.is_playing {
            self.is_playing = false;
            Some(Feedback::Stopped(self.builder.idx()))
        } else {
            None
        }
    }

    /// Configure elements when state is playing
    pub fn configure_playing(&self) -> (r: Vec<Action>)
        ensures
            r@ == self@.configure(),
    {
        let mut actions: Vec<Action> = Vec::new();
        if self.builder.has_text() {
            actions.push(Action::ConfigureText);
        }
        if self.builder.sink().crop().is_cropped() {
            actions.push(Action::ConfigureCrop);
        }
        assert(actions@ =~= self@.configure());
        actions
    }

    /// Configure text overlay properties
    pub fn config_txt_props(&self, height: i32) -> (r: Result<Vec<Setting>, Error>)
        ensures
            height >= 0 ==> (r matches Ok(s) && setting_views(s@) == text_settings(height as int)),
            height < 0 ==> r == Err::<Vec<Setting>, Error>(Error::TryFromInt()),
    {
        if height < 0 {
            return Err(Error::TryFromInt());
        }
        assert(FONT_SZ * height <= 14 * 0x7fff_ffff) by (nonlinear_arith)
            requires
                FONT_SZ == 14,
                0 <= height <= 0x7fff_ffff,
        ;
        let sz: u64 = (FONT_SZ as u64) * (height as u64) / (DEFAULT_HEIGHT as u64);
        assert(sz == font_size(height as int));
        let margin: i32 = (sz / 2) as i32;
        let mut font = String::from_str("Overpass, Bold ");
        push_decimal(&mut font, sz);
        let mut settings: Vec<Setting> = Vec::new();
        settings.push(Setting { key: "font-desc", value: Value::Text(font) });
        // from top edge
        settings.push(Setting { key: "ypad", value: Value::Int(margin) });
        // from right edge
        settings.push(Setting { key: "xpad", value: Value::Int(margin) });
        assert(setting_views(settings@) =~= text_settings(height as int));
        Ok(settings)
    }

    /// Configure videobox properties
    pub fn config_vbox_props(&self, width: u32, height: u32) -> (r: Vec<Setting>)
        ensures
            setting_views(r@) == seq![
                SettingView {
                    key: "top",
                    value: ValueView::UInt(self@.builder.sink.crop().top(height) as u32),
                },
                SettingView {
                    key: "bottom",
                    value: ValueView::UInt(self@.builder.sink.crop().bottom(height) as u32),
                },
                SettingView {
                    key: "left",
                    value: ValueView::UInt(self@.builder.sink.crop().left(width) as u32),
                },
                SettingView {
                    key: "right",
                    value: ValueView::UInt(self@.builder.sink.crop().right(width) as u32),
                },
            ],
            self@.builder.sink.crop().top(height) + self@.builder.sink.crop().bottom(height)
                <= height,
            self@.builder.sink.crop().left(width) + self@.builder.sink.crop().right(width)
                <= width,
    {
        let crop = self.builder.sink().crop();
        let mut settings: Vec<Setting> = Vec::new();
        settings.push(Setting { key: "top", value: Value::UInt(crop.top(height)) });
        settings.push(Setting { key: "bottom", value: Value::UInt(crop.bottom(height)) });
        settings.push(Setting { key: "left", value: Value::UInt(crop.left(width)) });
        settings.push(Setting { key: "right", value: Value::UInt(crop.right(width)) });
        proof {
            lemma_vertical_margins_fit(crop@, height);
            lemma_horizontal_margins_fit(crop@, width);
        }
        settings
    }

    /// Get packet statistics
    ///
    /// The counters are taken from the reading, where there is one and it is
    /// whole. The result holds what each counter has gained since the last
    /// snapshot: pushed, lost, late. Where a counter has dropped, the
    /// pipeline was set up anew: the counters start from the reading, and
    /// there is no result.
    pub fn packet_stats(&mut self, stats: Option<JitterStats>) -> (r: Option<(u64, u64, u64)>)
        ensures
            final(self)@ == old(self)@.sampled(stats),
            r == old(self)@.gain(stats),
    {
        let pushed = self.pushed;
        let lost = self.lost;
        let late = self.late;
        if let Some(jitter) = stats {
            let _ = self.update_jitter_stats(jitter);
        }
        if self.pushed >= pushed && self.lost >= lost && self.late >= late {
            Some((self.pushed - pushed, self.lost - lost, self.late - late))
        } else {
            None
        }
    }

    /// Update packet statistics
    ///
    /// Takes a statistics snapshot and gives the event that reports it,
    /// unless a counter has dropped since the last one.
    pub fn update_packet_stats(&mut self, stats: Option<JitterStats>) -> (r: Option<Feedback>)
        ensures
            final(self)@ == old(self)@.sampled(stats),
            r == (match old(self)@.gain(stats) {
                Some((pushed, lost, late)) => Some(
                    Feedback::Stats(old(self)@.builder.idx, pushed, lost, late),
                ),
                None => None,
            }),
    {
        match self.packet_stats(stats) {
            Some((pushed, lost, late)) => Some(
                Feedback::Stats(self.builder.idx(), pushed, lost, late),
            ),
            None => None,
        }
    }

    /// Get statistics from jitter buffer element
    pub fn update_jitter_stats(&mut self, stats: JitterStats) -> (r: Result<(), Error>)
        ensures
            final(self)@ == old(self)@.read(stats),
            match FlowMonitorView::lacking(stats) {
                Some(e) => r == Err::<(), Error>(e),
                None => r is Ok,
            },
    {
        let pushed = match stats.pushed {
            Some(pushed) => pushed,
            None => {
                return Err(Error::Other("missing num-pushed"));
            },
        };
        let lost = match stats.lost {
            Some(lost) => lost,
            None => {
                return Err(Error::Other("missing num-lost"));
            },
        };
        let late = match stats.late {
            Some(late) => late,
            None => {
                return Err(Error::Other("missing num-late"));
            },
        };
        self.pushed = pushed;
        self.lost = lost;
        self.late = late;
        Ok(())
    }
}

} // verus!
