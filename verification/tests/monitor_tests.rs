use streambed::checker::{CheckAction, FlowChecker, Sample, SinkAction, State};
use streambed::monitor::{Action, FlowMonitor, JitterStats, Message};
use streambed::stage::{Setting, Value};
use streambed::{Encoding, Error, Feedback, FlowBuilder, MatrixCrop, Sink, Source};

fn monitor(idx: usize) -> FlowMonitor {
    FlowMonitor::new(FlowBuilder::new(idx))
}

fn playing(idx: usize) -> FlowMonitor {
    let mut m = monitor(idx);
    m.handle_message(&Message::AsyncDone);
    m
}

fn stats(pushed: u64, lost: u64, late: u64) -> Option<JitterStats> {
    Some(JitterStats { pushed: Some(pushed), lost: Some(lost), late: Some(late) })
}

fn timeout() -> Message {
    Message::Element(Some("GstUDPSrcTimeout".to_string()))
}

#[test]
fn new_flow_is_at_rest() {
    let m = monitor(4);
    assert!(!m.is_playing());
    assert_eq!(m.counters(), (0, 0, 0));
    assert_eq!(m.builder().idx(), 4);
}

#[test]
fn async_done_reports_playing() {
    let mut m = monitor(4);
    assert_eq!(m.handle_message(&Message::AsyncDone), vec![Action::Emit(Feedback::Playing(4))]);
    assert!(m.is_playing());
    // said again, reported again
    assert_eq!(m.handle_message(&Message::AsyncDone), vec![Action::Emit(Feedback::Playing(4))]);
}

#[test]
fn stop_messages_halt_and_report_once() {
    for msg in [Message::Eos, Message::Error, Message::Warning, timeout()] {
        let mut m = playing(2);
        assert_eq!(
            m.handle_message(&msg),
            vec![Action::Halt, Action::Emit(Feedback::Stopped(2))],
            "{:?}",
            msg
        );
        assert!(!m.is_playing());
        assert_eq!(m.handle_message(&msg), vec![Action::Halt]);
        assert!(!m.is_playing());
    }
}

#[test]
fn repeated_stops_report_stopped_at_most_once() {
    let mut m = playing(1);
    let msgs = [
        Message::Eos,
        Message::StateChanged(State::Null, true),
        Message::StateChanged(State::Null, false),
        Message::Error,
        timeout(),
        Message::Warning,
        Message::Eos,
    ];
    let mut stopped = 0;
    for msg in &msgs {
        for action in m.handle_message(msg) {
            if action == Action::Emit(Feedback::Stopped(1)) {
                stopped += 1;
            }
        }
    }
    assert_eq!(stopped, 1);
    let mut m = monitor(1);
    for msg in &msgs {
        for action in m.handle_message(msg) {
            assert!(!matches!(action, Action::Emit(_)));
        }
    }
}

#[test]
fn stopped_again_after_playing_again() {
    let mut m = playing(0);
    assert_eq!(m.stopped(), Some(Feedback::Stopped(0)));
    assert_eq!(m.stopped(), None);
    m.handle_message(&Message::AsyncDone);
    assert_eq!(m.stopped(), Some(Feedback::Stopped(0)));
}

#[test]
fn stop_always_halts() {
    let mut m = monitor(0);
    assert_eq!(m.stop(), vec![Action::Halt]);
    let mut m = playing(0);
    assert_eq!(m.stop(), vec![Action::Halt, Action::Emit(Feedback::Stopped(0))]);
}

#[test]
fn state_null_reports_stopped_without_halting() {
    let mut m = playing(5);
    assert_eq!(
        m.handle_message(&Message::StateChanged(State::Null, false)),
        vec![Action::Emit(Feedback::Stopped(5))]
    );
    assert_eq!(m.handle_message(&Message::StateChanged(State::Null, true)), vec![]);
}

#[test]
fn other_element_messages_are_passed_over() {
    let mut m = playing(0);
    assert_eq!(m.handle_message(&Message::Element(None)), vec![]);
    assert_eq!(m.handle_message(&Message::Element(Some("GstNavigationMessage".to_string()))), vec![]);
    assert_eq!(m.handle_message(&Message::Other), vec![]);
    assert_eq!(m.handle_message(&Message::StateChanged(State::Paused, true)), vec![]);
    assert_eq!(m.handle_message(&Message::StateChanged(State::Ready, true)), vec![]);
    assert!(m.is_playing());
}

#[test]
fn application_message_asks_for_statistics() {
    let mut m = monitor(0);
    assert_eq!(m.handle_message(&Message::Application), vec![Action::SampleStats]);
}

#[test]
fn playing_pipeline_configures_text_and_crop() {
    let crop = MatrixCrop::try_from("ABBC,0,0").unwrap();
    let both = FlowBuilder::new(0).with_sink(Sink::WINDOW(crop)).with_overlay_text(Some("x"));
    let mut m = FlowMonitor::new(both);
    let playing = Message::StateChanged(State::Playing, true);
    assert_eq!(m.handle_message(&playing), vec![Action::ConfigureText, Action::ConfigureCrop]);
    assert_eq!(m.configure_playing(), vec![Action::ConfigureText, Action::ConfigureCrop]);
    // a stage that plays is not the pipeline
    assert_eq!(m.handle_message(&Message::StateChanged(State::Playing, false)), vec![]);
    let mut m = FlowMonitor::new(FlowBuilder::new(0).with_overlay_text(Some("x")));
    assert_eq!(m.handle_message(&playing), vec![Action::ConfigureText]);
    let mut m = FlowMonitor::new(FlowBuilder::new(0).with_sink(Sink::WINDOW(crop)));
    assert_eq!(m.handle_message(&playing), vec![Action::ConfigureCrop]);
    let mut m = monitor(0);
    assert_eq!(m.handle_message(&playing), vec![]);
}

#[test]
fn font_scales_with_frame_height() {
    let m = monitor(0);
    let props = |height| m.config_txt_props(height).unwrap();
    let expect = |font: &str, pad: i32| {
        vec![
            Setting { key: "font-desc", value: Value::Text(font.to_string()) },
            Setting { key: "ypad", value: Value::Int(pad) },
            Setting { key: "xpad", value: Value::Int(pad) },
        ]
    };
    assert_eq!(props(240), expect("Overpass, Bold 14", 7));
    assert_eq!(props(480), expect("Overpass, Bold 28", 14));
    assert_eq!(props(1080), expect("Overpass, Bold 63", 31));
    assert_eq!(props(100), expect("Overpass, Bold 5", 2));
    assert_eq!(props(0), expect("Overpass, Bold 0", 0));
    assert_eq!(props(i32::MAX), expect("Overpass, Bold 125269879", 62634939));
}

#[test]
fn negative_frame_height_is_an_error() {
    assert_eq!(monitor(0).config_txt_props(-1), Err(Error::TryFromInt()));
    assert_eq!(monitor(0).config_txt_props(i32::MIN), Err(Error::TryFromInt()));
}

#[test]
fn crop_stage_gets_the_four_margins() {
    let crop = MatrixCrop::try_from("ABBC,500,500").unwrap();
    let m = FlowMonitor::new(FlowBuilder::new(0).with_sink(Sink::WINDOW(crop)));
    assert_eq!(
        m.config_vbox_props(1920, 1080),
        vec![
            Setting { key: "top", value: Value::UInt(369) },
            Setting { key: "bottom", value: Value::UInt(369) },
            Setting { key: "left", value: Value::UInt(24) },
            Setting { key: "right", value: Value::UInt(984) },
        ]
    );
}

#[test]
fn statistics_report_the_gain() {
    let mut m = monitor(3);
    assert_eq!(m.update_packet_stats(stats(100, 2, 1)), Some(Feedback::Stats(3, 100, 2, 1)));
    assert_eq!(m.update_packet_stats(stats(250, 2, 4)), Some(Feedback::Stats(3, 150, 0, 3)));
    assert_eq!(m.counters(), (250, 2, 4));
}

#[test]
fn statistics_after_a_reset_are_held_back() {
    let mut m = monitor(3);
    m.update_packet_stats(stats(1000, 20, 10));
    // the pipeline was set up anew: counters start over
    assert_eq!(m.update_packet_stats(stats(5, 0, 0)), None);
    assert_eq!(m.counters(), (5, 0, 0));
    assert_eq!(m.update_packet_stats(stats(9, 1, 0)), Some(Feedback::Stats(3, 4, 1, 0)));
}

#[test]
fn one_lower_counter_holds_the_report_back() {
    for reading in [stats(99, 20, 10), stats(100, 19, 10), stats(100, 20, 9)] {
        let mut m = monitor(0);
        m.update_packet_stats(stats(100, 20, 10));
        assert_eq!(m.update_packet_stats(reading), None);
    }
}

#[test]
fn statistics_without_jitter_buffer_report_no_gain() {
    let mut m = monitor(6);
    m.update_packet_stats(stats(10, 1, 1));
    assert_eq!(m.update_packet_stats(None), Some(Feedback::Stats(6, 0, 0, 0)));
    assert_eq!(m.counters(), (10, 1, 1));
}

#[test]
fn reading_that_lacks_a_counter_changes_nothing() {
    let mut m = monitor(0);
    m.update_packet_stats(stats(10, 1, 1));
    let lacking = JitterStats { pushed: Some(50), lost: None, late: Some(2) };
    assert_eq!(m.update_packet_stats(Some(lacking)), Some(Feedback::Stats(0, 0, 0, 0)));
    assert_eq!(m.counters(), (10, 1, 1));
}

#[test]
fn jitter_stats_name_what_is_missing() {
    let mut m = monitor(0);
    let all = JitterStats { pushed: Some(5), lost: Some(6), late: Some(7) };
    assert_eq!(
        m.update_jitter_stats(JitterStats { pushed: None, ..all }),
        Err(Error::Other("missing num-pushed"))
    );
    assert_eq!(
        m.update_jitter_stats(JitterStats { lost: None, ..all }),
        Err(Error::Other("missing num-lost"))
    );
    assert_eq!(
        m.update_jitter_stats(JitterStats { late: None, ..all }),
        Err(Error::Other("missing num-late"))
    );
    assert_eq!(
        m.update_jitter_stats(JitterStats { pushed: None, lost: None, late: None }),
        Err(Error::Other("missing num-pushed"))
    );
    assert_eq!(m.counters(), (0, 0, 0));
    assert_eq!(m.update_jitter_stats(all), Ok(()));
    assert_eq!(m.counters(), (5, 6, 7));
}

#[test]
fn check_counts_and_restarts() {
    let mut c = FlowChecker::new(2);
    assert_eq!(c.do_check(Some(State::Playing)), CheckAction::Probe);
    assert_eq!(c.do_check(Some(State::Paused)), CheckAction::Probe);
    assert_eq!(c.count(), 2);
    assert_eq!(c.do_check(Some(State::Null)), CheckAction::Restart);
    assert_eq!(c.count(), 0);
    assert_eq!(c.do_check(None), CheckAction::Halt);
    assert!(FlowChecker::check_stopped(State::Null));
    assert!(!FlowChecker::check_stopped(State::Ready));
    assert!(!FlowChecker::check_stopped(State::VoidPending));
}

#[test]
fn five_checks_with_unchanged_time_stamp_post_eos_and_stop_the_flow() {
    let mut c = FlowChecker::new(0);
    let mut m = playing(0);
    let tick = |c: &mut FlowChecker, pts| {
        assert_eq!(c.do_check(Some(State::Playing)), CheckAction::Probe);
        c.check_sink(Some(Sample::Pts(Some(pts))))
    };
    // progress
    assert_eq!(tick(&mut c, 1000), SinkAction::Continue);
    assert_eq!(tick(&mut c, 2000), SinkAction::Continue);
    // the same time stamp, four times: not yet
    for _ in 0..4 {
        assert_eq!(tick(&mut c, 2000), SinkAction::Continue);
    }
    // and a fifth time
    assert_eq!(tick(&mut c, 2000), SinkAction::PostEos);
    assert_eq!(
        m.handle_message(&Message::Eos),
        vec![Action::Halt, Action::Emit(Feedback::Stopped(0))]
    );
    // the pipeline is at rest now: the next check restarts it
    assert_eq!(c.do_check(Some(State::Null)), CheckAction::Restart);
    assert_eq!(c.count(), 0);
}

#[test]
fn progress_starts_the_count_anew() {
    let mut c = FlowChecker::new(0);
    let mut pts = 0;
    for round in 0..3 {
        for _ in 0..4 {
            c.do_check(Some(State::Playing));
            assert_eq!(c.check_sink(Some(Sample::Pts(Some(pts)))), SinkAction::Continue, "{}", round);
        }
        pts += 40;
    }
}

#[test]
fn missing_samples_are_borne_for_five_checks() {
    for sample in [Sample::Missing, Sample::NoBuffer, Sample::Failed] {
        let mut c = FlowChecker::new(0);
        for _ in 0..5 {
            c.do_check(Some(State::Playing));
            assert_eq!(c.check_sink(Some(sample)), SinkAction::Continue);
        }
        c.do_check(Some(State::Playing));
        assert_eq!(c.check_sink(Some(sample)), SinkAction::PostEos);
    }
}

#[test]
fn sample_without_time_stamp_is_no_progress_at_first() {
    let mut c = FlowChecker::new(0);
    for _ in 0..4 {
        c.do_check(Some(State::Playing));
        assert!(!c.is_stuck(Sample::Pts(None)));
    }
    c.do_check(Some(State::Playing));
    assert!(c.is_stuck(Sample::Pts(None)));
}

#[test]
fn sink_gone_ends_the_checks() {
    let mut c = FlowChecker::new(0);
    c.do_check(Some(State::Playing));
    assert_eq!(c.check_sink(None), SinkAction::Halt);
}

#[test]
fn source_encoding_does_not_matter_to_the_monitor() {
    let b = FlowBuilder::new(9).with_source(Source::default().with_encoding(Encoding::VP8));
    let mut m = FlowMonitor::new(b);
    assert_eq!(m.handle_message(&Message::AsyncDone), vec![Action::Emit(Feedback::Playing(9))]);
}

#[test]
fn packet_stats_give_the_gain() {
    let mut m = monitor(0);
    assert_eq!(m.packet_stats(stats(7, 1, 0)), Some((7, 1, 0)));
    assert_eq!(m.packet_stats(stats(7, 1, 0)), Some((0, 0, 0)));
    assert_eq!(m.packet_stats(stats(6, 1, 0)), None);
    assert_eq!(m.packet_stats(None), Some((0, 0, 0)));
    assert_eq!(m.packet_stats(stats(u64::MAX, 1, 0)), Some((u64::MAX - 6, 0, 0)));
}

#[test]
fn stopped_is_reported_once_for_each_stop() {
    let msgs = [
        Message::Eos,
        Message::AsyncDone,
        Message::Application,
        Message::StateChanged(State::Playing, true),
        Message::Warning,
        Message::StateChanged(State::Null, true),
        Message::Error,
        Message::AsyncDone,
        Message::AsyncDone,
        timeout(),
        Message::Eos,
        Message::Other,
        Message::AsyncDone,
        Message::StateChanged(State::Null, false),
    ];
    let mut m = monitor(8);
    let mut plays = false;
    let mut events = vec![];
    for msg in &msgs {
        for action in m.handle_message(msg) {
            match action {
                Action::Emit(Feedback::Stopped(idx)) => {
                    assert!(plays);
                    assert_eq!(idx, 8);
                    plays = false;
                    events.push("stopped");
                }
                Action::Emit(Feedback::Playing(_)) => {
                    plays = true;
                    events.push("playing");
                }
                _ => (),
            }
        }
        assert_eq!(plays, m.is_playing());
    }
    assert_eq!(
        events,
        vec!["playing", "stopped", "playing", "playing", "stopped", "playing", "stopped"]
    );
}

#[test]
fn progress_leaves_the_count_of_checks_alone() {
    let mut c = FlowChecker::new(0);
    for pts in 0..10 {
        c.do_check(Some(State::Playing));
        assert_eq!(c.check_sink(Some(Sample::Pts(Some(pts * 40)))), SinkAction::Continue);
    }
    assert_eq!(c.count(), 10);
    assert_eq!(c.unchanged(), 0);
    // checked more than five times since the last restart: no more patience
    c.do_check(Some(State::Playing));
    assert_eq!(c.check_sink(Some(Sample::Missing)), SinkAction::PostEos);
}

#[test]
fn unreadable_samples_leave_the_count_of_unchanged_time_stamps_alone() {
    let mut c = FlowChecker::new(0);
    c.do_check(Some(State::Playing));
    assert!(!c.is_stuck(Sample::Pts(Some(500))));
    for _ in 0..2 {
        c.do_check(Some(State::Playing));
        assert!(!c.is_stuck(Sample::Pts(Some(500))));
    }
    assert_eq!(c.unchanged(), 2);
    c.do_check(Some(State::Playing));
    assert!(!c.is_stuck(Sample::Failed));
    assert_eq!(c.unchanged(), 2);
    assert_eq!(c.count(), 4);
    c.do_check(Some(State::Playing));
    assert!(!c.is_stuck(Sample::Pts(Some(500))));
    c.do_check(Some(State::Playing));
    assert!(!c.is_stuck(Sample::Pts(Some(500))));
    c.do_check(Some(State::Playing));
    assert!(c.is_stuck(Sample::Pts(Some(500))));
    assert_eq!(c.unchanged(), 5);
}

#[test]
fn restart_starts_both_counts_anew() {
    let mut c = FlowChecker::new(0);
    for _ in 0..3 {
        c.do_check(Some(State::Playing));
        c.is_stuck(Sample::Pts(Some(500)));
    }
    assert_eq!((c.count(), c.unchanged()), (3, 2));
    assert_eq!(c.do_check(Some(State::Null)), CheckAction::Restart);
    assert_eq!((c.count(), c.unchanged()), (0, 0));
    // the last time stamp is kept: the same again is unchanged
    c.do_check(Some(State::Playing));
    assert!(!c.is_stuck(Sample::Pts(Some(500))));
    assert_eq!(c.unchanged(), 1);
}
