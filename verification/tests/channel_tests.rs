use dc::channel::{sent_line, ChannelEvent, ChannelStep, ChannelWatch};
use dc::report::{HandlerRole, Line, Piece, Tone};

fn line(text: &str, tone: Tone) -> Line {
    Line { pieces: vec![Piece { text: text.to_string(), tone }] }
}

fn step(lines: Vec<Line>, notify_done: bool, send_message: bool, restart_timer: bool, stop: bool) -> ChannelStep {
    ChannelStep { lines, notify_done, send_message, restart_timer, stop }
}

#[test]
fn answer_watcher_opens_shows_messages_and_reports_close() {
    let mut w = ChannelWatch::new(HandlerRole::Answer);
    assert_eq!(w.step(ChannelEvent::Open), step(vec![line("datachannel open", Tone::BoldGreen)], false, false, false, false));
    assert!(w.opened);
    let s = w.step(ChannelEvent::Message(b"hi there".to_vec()));
    assert_eq!(s, step(vec![line("==> 'hi there'", Tone::Plain)], false, false, false, false));
    assert_eq!(w.step(ChannelEvent::Tick), step(vec![], false, false, false, false));
    let s = w.step(ChannelEvent::Close);
    assert_eq!(s, step(vec![line("exit datachannel loop", Tone::Plain)], true, false, false, true));
}

#[test]
fn answer_watcher_before_open() {
    let mut w = ChannelWatch::new(HandlerRole::Answer);
    let s = w.step(ChannelEvent::Message(vec![1, 2]));
    assert_eq!(s, step(vec![line("datachannel other event", Tone::Bold)], false, false, false, false));
    assert!(!w.opened);
    let s = w.step(ChannelEvent::Closing);
    assert_eq!(
        s,
        step(vec![line("datachannel closing", Tone::BoldYellow), line("exit datachannel loop", Tone::Plain)], true, false, false, true)
    );
    let mut w = ChannelWatch::new(HandlerRole::Answer);
    let s = w.step(ChannelEvent::Ended);
    assert_eq!(s.lines[0], line("datachannel none event", Tone::BoldMagenta));
    assert!(s.notify_done && s.stop);
    let mut w = ChannelWatch::new(HandlerRole::Answer);
    let s = w.step(ChannelEvent::Error);
    assert_eq!(s.lines[0], line("datachannel error", Tone::BoldRed));
}

#[test]
fn camera_watcher_leaves_without_exit_line() {
    let mut w = ChannelWatch::new(HandlerRole::Camera);
    let s = w.step(ChannelEvent::Close);
    assert_eq!(s, step(vec![line("datachannel closed", Tone::BoldRed)], true, false, false, true));
    let mut w = ChannelWatch::new(HandlerRole::Camera);
    w.step(ChannelEvent::Open);
    assert_eq!(w.step(ChannelEvent::Ended), step(vec![], true, false, false, true));
}

#[test]
fn offer_watcher_sends_on_ticks_once_open() {
    let mut w = ChannelWatch::new(HandlerRole::Offer);
    assert_eq!(w.step(ChannelEvent::Tick), step(vec![], false, false, false, false));
    assert_eq!(w.step(ChannelEvent::Error), step(vec![], false, false, false, false));
    assert_eq!(w.step(ChannelEvent::Open), step(vec![line("datachannel open", Tone::BoldGreen)], false, false, true, false));
    assert_eq!(w.step(ChannelEvent::Tick), step(vec![], false, true, true, false));
    assert_eq!(w.step(ChannelEvent::Closing), step(vec![], false, false, false, false));
    let s = w.step(ChannelEvent::Close);
    assert_eq!(s, step(vec![line("exit datachannel loop", Tone::BoldYellow)], false, false, false, true));
}

#[test]
fn invalid_utf8_message_shows_empty_text() {
    let mut w = ChannelWatch::new(HandlerRole::Offer);
    w.step(ChannelEvent::Open);
    let s = w.step(ChannelEvent::Message(vec![0xff, 0xfe]));
    assert_eq!(s.lines, vec![line("==> ''", Tone::Plain)]);
}

#[test]
fn sent_messages_are_quoted() {
    assert_eq!(sent_line("abc"), line("<== 'abc'", Tone::Plain));
}

fn all_events() -> Vec<ChannelEvent> {
    vec![
        ChannelEvent::Open,
        ChannelEvent::Message(b"m".to_vec()),
        ChannelEvent::Closing,
        ChannelEvent::Close,
        ChannelEvent::Error,
        ChannelEvent::BufferedAmountLow,
        ChannelEvent::BufferedAmountHigh,
        ChannelEvent::Ended,
        ChannelEvent::Tick,
    ]
}

#[test]
fn answering_watchers_report_exactly_when_they_stop() {
    for role in [HandlerRole::Answer, HandlerRole::Camera] {
        for opened in [false, true] {
            for e in all_events() {
                let mut w = ChannelWatch { role, opened };
                let s = w.step(e);
                assert_eq!(s.notify_done, s.stop);
            }
        }
    }
}

#[test]
fn channel_opens_once_and_stays_open() {
    for role in [HandlerRole::Answer, HandlerRole::Camera, HandlerRole::Offer] {
        for opened in [false, true] {
            for e in all_events() {
                let is_open = e == ChannelEvent::Open;
                let mut w = ChannelWatch { role, opened };
                let s = w.step(e);
                assert_eq!(w.opened, opened || is_open);
                if role == HandlerRole::Offer {
                    assert!(!s.notify_done);
                }
                if s.send_message {
                    assert!(role == HandlerRole::Offer && opened);
                }
            }
        }
    }
}

fn run_watch(role: HandlerRole, events: Vec<ChannelEvent>) -> Vec<ChannelStep> {
    let mut w = ChannelWatch::new(role);
    let mut steps = Vec::new();
    for e in events {
        let s = w.step(e);
        let stop = s.stop;
        steps.push(s);
        if stop {
            break;
        }
    }
    steps
}

#[test]
fn watchers_end_at_first_terminating_event_and_report_once() {
    let events = vec![
        ChannelEvent::BufferedAmountLow,
        ChannelEvent::Open,
        ChannelEvent::Closing,
        ChannelEvent::Message(b"x".to_vec()),
        ChannelEvent::Ended,
        ChannelEvent::Close,
    ];
    let a = run_watch(HandlerRole::Answer, events.clone());
    let c = run_watch(HandlerRole::Camera, events);
    assert_eq!(a.len(), 5);
    assert_eq!(c.len(), 5);
    assert_eq!(a.iter().filter(|s| s.notify_done).count(), 1);
    assert!(a[4].notify_done && a[4].stop);
    for k in 0..a.len() {
        assert_eq!(a[k].stop, c[k].stop);
        assert_eq!(a[k].notify_done, c[k].notify_done);
        let mut expected = c[k].lines.clone();
        if a[k].stop {
            expected.push(line("exit datachannel loop", Tone::Plain));
        }
        assert_eq!(a[k].lines, expected);
    }
}
