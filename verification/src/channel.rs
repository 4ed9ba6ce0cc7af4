//! The data-channel watchers: the loop that the offering side runs on the
//! channel it opened, and the one that the answering sides run on the
//! channel their peer opened. Each received event is turned into the lines
//! to show and what the loop does next.
use vstd::prelude::*;
use vstd::utf8::*;
use crate::report::{HandlerRole, Line, LineView, Tone, lines_view, one};
use crate::util::message_text;

verus! {

broadcast use vstd::string::group_string_axioms;

/// What the channel, or the watcher's send timer, delivered.
#[derive(Clone, Debug, PartialEq, Eq)]
pub enum ChannelEvent {
    /// The channel opened.
    Open,
    /// A message with these bytes arrived.
    Message(Vec<u8>),
    /// The channel started closing.
    Closing,
    /// The channel closed.
    Close,
    /// An error was reported on the channel.
    Error,
    /// The buffered amount fell below its low mark.
    BufferedAmountLow,
    /// The buffered amount rose above its high mark.
    BufferedAmountHigh,
    /// The channel's event stream ended.
    Ended,
    /// The watcher's send timer fired.
    Tick,
}

/// The event without its payload, as the specification speaks of it.
pub enum EventKind {
    Open,
    Message(Seq<u8>),
    Closing,
    Close,
    Error,
    BufferedAmountLow,
    BufferedAmountHigh,
    Ended,
    Tick,
}

impl View for ChannelEvent {
    type V = EventKind;

    open spec fn view(&self) -> EventKind {
        match self {
            ChannelEvent::Open => EventKind::Open,
            ChannelEvent::Message(d) => EventKind::Message(d@),
            ChannelEvent::Closing => EventKind::Closing,
            ChannelEvent::Close => EventKind::Close,
            ChannelEvent::Error => EventKind::Error,
            ChannelEvent::BufferedAmountLow => EventKind::BufferedAmountLow,
            ChannelEvent::BufferedAmountHigh => EventKind::BufferedAmountHigh,
            ChannelEvent::Ended => EventKind::Ended,
            ChannelEvent::Tick => EventKind::Tick,
        }
    }
}

/// The state of a watcher loop: whose loop it is, and whether the channel
/// has opened.
#[derive(Clone, Copy, Debug, PartialEq, Eq)]
pub struct ChannelWatch {
    pub role: HandlerRole,
    pub opened: bool,
}

/// What the loop does after one event.
#[derive(Clone, Debug, PartialEq, Eq)]
pub struct ChannelStep {
    /// Lines to show, in order.
    pub lines: Vec<Line>,
    /// Tell the session that the channel is done.
    pub notify_done: bool,
    /// Send a fresh message on the channel (and show it).
    pub send_message: bool,
    /// Re-arm the send timer.
    pub restart_timer: bool,
    /// Leave the loop.
    pub stop: bool,
}

/// The specification of one step, over plain values.
pub struct StepSpec {
    pub lines: Seq<LineView>,
    pub notify_done: bool,
    pub send_message: bool,
    pub restart_timer: bool,
    pub stop: bool,
    pub opened: bool,
}

/// The text of a received message, as `message_text` reads it.
pub open spec fn received_text(data: Seq<u8>) -> Seq<char> {
    if valid_utf8(data) {
        decode_utf8(data)
    } else {
        Seq::<char>::empty()
    }
}

/// The line shown for a received message.
pub open spec fn received_line(data: Seq<u8>) -> LineView {
    one("==> '"@ + received_text(data) + "'"@, Tone::Plain)
}

/// The line shown for a message the watcher sends.
pub open spec fn sent_line_spec(msg: Seq<char>) -> LineView {
    one("<== '"@ + msg + "'"@, Tone::Plain)
}

/// The line shown when the loop is left, for the roles that show one.
pub open spec fn exit_lines(role: HandlerRole) -> Seq<LineView> {
    match role {
        HandlerRole::Offer => seq![one("exit datachannel loop"@, Tone::BoldYellow)],
        HandlerRole::Answer => seq![one("exit datachannel loop"@, Tone::Plain)],
        HandlerRole::Camera => Seq::empty(),
    }
}

/// A step that changes nothing and shows nothing.
pub open spec fn idle(opened: bool) -> StepSpec {
    StepSpec {
        lines: Seq::empty(),
        notify_done: false,
        send_message: false,
        restart_timer: false,
        stop: false,
        opened,
    }
}

/// The loop of the offering side on the channel it opened. Before the
/// channel opens, only its opening (shown, and the timer armed) and its end
/// matter; afterwards messages are shown and each timer tick sends a new
/// message. The session is never told: it learns of the end from the peer
/// connection.
pub open spec fn offer_step(opened: bool, e: EventKind) -> StepSpec {
    let leave = StepSpec { lines: exit_lines(HandlerRole::Offer), stop: true, ..idle(opened) };
    if !opened {
        match e {
            EventKind::Open => StepSpec {
                lines: seq![one("datachannel open"@, Tone::BoldGreen)],
                restart_timer: true,
                ..idle(true)
            },
            EventKind::Close => leave,
            EventKind::Ended => leave,
            _ => idle(false),
        }
    } else {
        match e {
            EventKind::Message(d) => StepSpec { lines: seq![received_line(d)], ..idle(true) },
            EventKind::Close => leave,
            EventKind::Ended => leave,
            EventKind::Tick => StepSpec { send_message: true, restart_timer: true, ..idle(true) },
            _ => idle(true),
        }
    }
}

/// The loop of an answering side on the channel its peer opened. Before the
/// channel opens every event is shown; its closing, close, error or end
/// leave the loop and tell the session. Once open, messages are shown, and
/// the close or end of the channel leave the loop and tell the session.
/// Timer ticks do nothing.
pub open spec fn answer_step(role: HandlerRole, opened: bool, e: EventKind) -> StepSpec {
    let leave_with = |l: Seq<LineView>|
        StepSpec { lines: l + exit_lines(role), notify_done: true, stop: true, ..idle(opened) };
    if !opened {
        match e {
            EventKind::Open => StepSpec {
                lines: seq![one("datachannel open"@, Tone::BoldGreen)],
                ..idle(true)
            },
            EventKind::Close => leave_with(seq![one("datachannel closed"@, Tone::BoldRed)]),
            EventKind::Closing => leave_with(seq![one("datachannel closing"@, Tone::BoldYellow)]),
            EventKind::Error => leave_with(seq![one("datachannel error"@, Tone::BoldRed)]),
            EventKind::Ended => leave_with(seq![one("datachannel none event"@, Tone::BoldMagenta)]),
            EventKind::Tick => idle(false),
            _ => StepSpec { lines: seq![one("datachannel other event"@, Tone::Bold)], ..idle(false) },
        }
    } else {
        match e {
            EventKind::Message(d) => StepSpec { lines: seq![received_line(d)], ..idle(true) },
            EventKind::Close => leave_with(Seq::empty()),
            EventKind::Ended => leave_with(Seq::empty()),
            _ => idle(true),
        }
    }
}

/// One step of the watcher loop of `role`.
pub open spec fn watch_step(role: HandlerRole, opened: bool, e: EventKind) -> StepSpec {
    match role {
        HandlerRole::Offer => offer_step(opened, e),
        _ => answer_step(role, opened, e),
    }
}

impl ChannelStep {
    /// The step as plain values, with the watcher's state after it.
    pub open spec fn spec_with(&self, opened: bool) -> StepSpec {
        StepSpec {
            lines: lines_view(self.lines@),
            notify_done: self.notify_done,
            send_message: self.send_message,
            restart_timer: self.restart_timer,
            stop: self.stop,
            opened,
        }
    }
}

/// The line shown for a message the offering side sends.
pub fn sent_line(msg: &str) -> (r: Line)
    ensures
        r@ == sent_line_spec(msg@),
{
    Line::new("<== '".to_string().concat(msg).concat("'"), Tone::Plain)
}

fn exit_line(role: HandlerRole, lines: &mut Vec<Line>)
    ensures
        lines_view(final(lines)@) == lines_view(old(lines)@) + exit_lines(role),
{
    let ghost before = lines@;
    match role {
        HandlerRole::Offer => {
            lines.push(Line::new("exit datachannel loop".to_string(), Tone::BoldYellow));
        },
        HandlerRole::Answer => {
            lines.push(Line::new("exit datachannel loop".to_string(), Tone::Plain));
        },
        HandlerRole::Camera => {},
    }
    assert(lines_view(lines@) =~= lines_view(before) + exit_lines(role));
}

impl ChannelWatch {
    /// A watcher whose channel has not opened yet.
    pub fn new(role: HandlerRole) -> (r: ChannelWatch)
        ensures
            r.role == role,
            !r.opened,
    {
        ChannelWatch { role, opened: false }
    }

    /// Reacts to one event: updates whether the channel is open and says
    /// what to show and do, as `watch_step` states.
    pub fn step(&mut self, e: ChannelEvent) -> (r: ChannelStep)
        ensures
            final(self).role == old(self).role,
            r.spec_with(final(self).opened) == watch_step(old(self).role, old(self).opened, e@),
    {
        let mut lines: Vec<Line> = Vec::new();
        let mut notify_done = false;
        let mut send_message = false;
        let mut restart_timer = false;
        let mut stop = false;
        let ghost ev = e@;
        let offer = match self.role {
            HandlerRole::Offer => true,
            _ => false,
        };
        if !self.opened {
            match e {
                ChannelEvent::Open => {
                    lines.push(Line::new("datachannel open".to_string(), Tone::BoldGreen));
                    self.opened = true;
                    restart_timer = offer;
                },
                ChannelEvent::Close => {
                    if !offer {
                        lines.push(
                            Line::new("datachannel closed".to_string(), Tone::BoldRed),
                        );
                    }
                    stop = true;
                },
                ChannelEvent::Closing => {
                    if !offer {
                        lines.push(
                            Line::new("datachannel closing".to_string(), Tone::BoldYellow),
                        );
                        stop = true;
                    }
                },
                ChannelEvent::Error => {
                    if !offer {
                        lines.push(
                            Line::new("datachannel error".to_string(), Tone::BoldRed),
                        );
                        stop = true;
                    }
                },
                ChannelEvent::Ended => {
                    if !offer {
                        lines.push(
                            Line::new("datachannel none event".to_string(), Tone::BoldMagenta),
                        );
                    }
                    stop = true;
                },
                ChannelEvent::Tick => {},
                _ => {
                    if !offer {
                        lines.push(
                            Line::new("datachannel other event".to_string(), Tone::Bold),
                        );
                    }
                },
            }
        } else {
            match e {
                ChannelEvent::Message(data) => {
                    let text = message_text(data.as_slice());
                    lines.push(
                        Line::new("==> '".to_string().concat(text.as_str()).concat("'"), Tone::Plain),
                    );
                },
                ChannelEvent::Close => {
                    stop = true;
                },
                ChannelEvent::Ended => {
                    stop = true;
                },
                ChannelEvent::Tick => {
                    send_message = offer;
                    restart_timer = offer;
                },
                _ => {},
            }
        }
        if stop {
            exit_line(self.role, &mut lines);
            notify_done = !offer;
        }
        let r = ChannelStep { lines, notify_done, send_message, restart_timer, stop };
        assert(lines_view(r.lines@) =~= watch_step(self.role, old(self).opened, ev).lines);
        r
    }
}


/// Whatever the role, and whether the channel had opened or not, its close
/// or the end of its events makes the watcher leave its loop; the offering
/// side then shows its bold yellow exit line.
pub proof fn law_close_leaves_loop(role: HandlerRole, opened: bool)
    ensures
        watch_step(role, opened, EventKind::Close).stop,
        watch_step(role, opened, EventKind::Ended).stop,
        watch_step(HandlerRole::Offer, opened, EventKind::Close).lines == seq![
            one("exit datachannel loop"@, Tone::BoldYellow),
        ],
{
}

/// Which events leave the loop: for the offering side, and for an open
/// channel on the answering sides, only the close and the end of events;
/// before the channel opens, an answering side also leaves on closing and
/// on error. The open event, messages, buffer marks and ticks never do.
pub proof fn law_what_leaves_loop(role: HandlerRole, opened: bool, e: EventKind)
    ensures
        watch_step(role, opened, e).stop <==> (e == EventKind::Close || e == EventKind::Ended || (
        role != HandlerRole::Offer && !opened && (e == EventKind::Closing || e
            == EventKind::Error))),
{
}

/// An answering side's watcher tells the session that the channel is done
/// exactly when it leaves its loop.
pub proof fn law_answering_watchers_report_their_end(role: HandlerRole, opened: bool, e: EventKind)
    requires
        role != HandlerRole::Offer,
    ensures
        watch_step(role, opened, e).notify_done == watch_step(role, opened, e).stop,
{
}

/// The offering side's watcher never tells the session anything.
pub proof fn law_offer_watcher_is_silent_towards_session(opened: bool, e: EventKind)
    ensures
        !watch_step(HandlerRole::Offer, opened, e).notify_done,
{
}

/// A channel that has opened stays open for its watcher, and only the open
/// event opens it.
pub proof fn law_channel_stays_open(role: HandlerRole, opened: bool, e: EventKind)
    ensures
        watch_step(role, opened, e).opened == (opened || e == EventKind::Open),
{
}

/// Messages are sent only by the offering side, on an open channel, when
/// its timer fires; and the timer is re-armed each time.
pub proof fn law_messages_sent_only_on_open_channel(role: HandlerRole, opened: bool, e: EventKind)
    ensures
        watch_step(role, opened, e).send_message ==> role == HandlerRole::Offer && opened && e
            == EventKind::Tick && watch_step(role, opened, e).restart_timer,
{
}

/// A received message's text is shown only once the channel is open; before
/// that, an answering side only notes that some other event came.
pub proof fn law_messages_shown_only_on_open_channel(role: HandlerRole, d: Seq<u8>)
    ensures
        watch_step(role, true, EventKind::Message(d)).lines == seq![received_line(d)],
        role == HandlerRole::Offer ==> watch_step(role, false, EventKind::Message(d)).lines
            == Seq::<LineView>::empty(),
        role != HandlerRole::Offer ==> watch_step(role, false, EventKind::Message(d)).lines
            == seq![one("datachannel other event"@, Tone::Bold)],
{
}


/// The steps a watcher loop takes on the events `es`, in order, from a
/// channel that is open or not: the loop goes on until a step leaves it,
/// and reads no event after that.
pub open spec fn watch_run(role: HandlerRole, opened: bool, es: Seq<EventKind>) -> Seq<StepSpec>
    decreases es.len(),
{
    if es.len() == 0 {
        Seq::empty()
    } else {
        let s = watch_step(role, opened, es[0]);
        if s.stop {
            seq![s]
        } else {
            seq![s] + watch_run(role, s.opened, es.drop_first())
        }
    }
}

/// Over a whole run, an answering side's watcher ends at the first event
/// that leaves the loop (reading no event after it), and tells the session
/// that the channel is done exactly once, at that event and never before;
/// a run that never meets such an event never tells it.
pub proof fn law_answering_watch_ends_once(role: HandlerRole, opened: bool, es: Seq<EventKind>)
    requires
        role != HandlerRole::Offer,
    ensures
        ({
            let r = watch_run(role, opened, es);
            &&& r.len() <= es.len()
            &&& r.len() < es.len() ==> r.len() > 0 && r.last().stop
            &&& forall|k: int| 0 <= k < r.len() - 1 ==> !(#[trigger] r[k]).stop
            &&& forall|k: int|
                0 <= k < r.len() ==> ((#[trigger] r[k]).notify_done <==> (k == r.len() - 1
                    && r[k].stop))
        }),
    decreases es.len(),
{
    if es.len() > 0 {
        let s = watch_step(role, opened, es[0]);
        if !s.stop {
            law_answering_watch_ends_once(role, s.opened, es.drop_first());
            let rest = watch_run(role, s.opened, es.drop_first());
            let r = watch_run(role, opened, es);
            assert(r == seq![s] + rest);
            assert forall|k: int| 0 <= k < r.len() - 1 implies !(#[trigger] r[k]).stop by {
                if k > 0 {
                    assert(r[k] == rest[k - 1]);
                }
            }
            assert forall|k: int| 0 <= k < r.len() implies ((#[trigger] r[k]).notify_done <==> (k
                == r.len() - 1 && r[k].stop)) by {
                if k > 0 {
                    assert(r[k] == rest[k - 1]);
                }
            }
        }
    }
}

/// The camera's and the answering client's watchers behave alike over any
/// run: they end at the same event, tell the session at the same events,
/// open at the same events and never send; the answering client only adds
/// its exit line when it leaves the loop.
pub proof fn law_camera_and_answer_watch_alike(opened: bool, es: Seq<EventKind>)
    ensures
        ({
            let a = watch_run(HandlerRole::Answer, opened, es);
            let c = watch_run(HandlerRole::Camera, opened, es);
            &&& a.len() == c.len()
            &&& forall|k: int|
                0 <= k < a.len() ==> {
                    &&& (#[trigger] a[k]).stop == c[k].stop
                    &&& a[k].notify_done == c[k].notify_done
                    &&& a[k].opened == c[k].opened
                    &&& !a[k].send_message && !c[k].send_message
                    &&& a[k].lines == c[k].lines + (if a[k].stop {
                        exit_lines(HandlerRole::Answer)
                    } else {
                        Seq::empty()
                    })
                }
        }),
    decreases es.len(),
{
    if es.len() > 0 {
        let sa = watch_step(HandlerRole::Answer, opened, es[0]);
        let sc = watch_step(HandlerRole::Camera, opened, es[0]);
        assert(sc.lines + Seq::<LineView>::empty() =~= sc.lines);
        assert(sa.stop == sc.stop && sa.opened == sc.opened);
        if !sa.stop {
            law_camera_and_answer_watch_alike(sa.opened, es.drop_first());
            let ra = watch_run(HandlerRole::Answer, sa.opened, es.drop_first());
            let rc = watch_run(HandlerRole::Camera, sc.opened, es.drop_first());
            let a = watch_run(HandlerRole::Answer, opened, es);
            let c = watch_run(HandlerRole::Camera, opened, es);
            assert(a == seq![sa] + ra);
            assert(c == seq![sc] + rc);
            assert forall|k: int| 0 <= k < a.len() implies {
                &&& (#[trigger] a[k]).stop == c[k].stop
                &&& a[k].notify_done == c[k].notify_done
                &&& a[k].opened == c[k].opened
                &&& !a[k].send_message && !c[k].send_message
                &&& a[k].lines == c[k].lines + (if a[k].stop {
                    exit_lines(HandlerRole::Answer)
                } else {
                    Seq::empty()
                })
            } by {
                if k > 0 {
                    assert(a[k] == ra[k - 1]);
                    assert(c[k] == rc[k - 1]);
                }
            }
        }
    }
}

} // verus!
