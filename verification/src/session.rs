//! The signaling sessions: the order in which each program sets up its peer
//! connection, exchanges session descriptions through the signaling server,
//! waits for the end of the call and closes. The session is a state machine:
//! each command it issues is carried out by the caller, who hands back what
//! came of it.
use vstd::prelude::*;
use crate::report::{Line, LineView, Tone, lines_view, one};

verus! {

broadcast use vstd::string::group_string_axioms;

/// Which program runs the session.
#[derive(Clone, Copy, Debug, PartialEq, Eq, Structural)]
pub enum Flow {
    /// The client answering an offer; `restart` is set when the session is
    /// run again, in which case the interrupt handler is already installed.
    Answerer { restart: bool },
    /// The client sending an offer to a named peer.
    Offerer,
    /// The slave program, which answers offers over and over.
    Slave,
    /// The waiter program, which answers offers over and over using only a
    /// public STUN server.
    Waiter,
    /// The camera program, which answers offers and streams video.
    Camera,
}

/// A step of a session; each is carried out by the caller.
#[derive(Clone, Copy, Debug, PartialEq, Eq, Structural)]
pub enum Step {
    /// Register the codecs of the media engine (the camera registers its
    /// one video codec, the others the default codecs).
    RegisterCodecs,
    /// Install the Ctrl-C handler.
    InstallInterruptHandler,
    /// Look up the async runtime.
    FindRuntime,
    /// Register the default interceptors.
    RegisterInterceptors,
    /// Build the peer connection with the flow's ICE servers.
    BuildPeerConnection,
    /// Add the local video track.
    AddVideoTrack,
    /// Open the data channel and start its watcher.
    OpenDataChannel,
    /// Connect to the signaling server.
    ConnectSignaling,
    /// Create an offer and make it the local description.
    CreateOffer,
    /// Wait for a session description from the signaling server.
    AwaitRemoteDescription,
    /// Parse the received description and make it the remote description.
    ApplyRemoteDescription,
    /// Create an answer and make it the local description.
    CreateAnswer,
    /// Wait for ICE candidate gathering to complete.
    AwaitGathering,
    /// Read and serialize the local description.
    ReadLocalDescription,
    /// Send the local description through the signaling server.
    SendLocalDescription,
    /// Bind the video listener, wait for the connection and start
    /// forwarding RTP.
    StartForwarding,
    /// Wait for the end of the call.
    AwaitEnd,
    /// Close the peer connection.
    ClosePeerConnection,
}

/// Why the call ended.
#[derive(Clone, Copy, Debug, PartialEq, Eq, Structural)]
pub enum EndCause {
    /// The connection failed or the data channel closed.
    ChannelDone,
    /// The user pressed Ctrl-C.
    Interrupted,
    /// RTP forwarding stopped.
    ForwardingEnded,
}

/// Why a session stopped early.
#[derive(Clone, Copy, Debug, PartialEq, Eq, Structural)]
pub enum SessionError {
    /// The outside call of this step failed; the caller holds its error.
    StepFailed(Step),
    /// No async runtime was found.
    NoRuntime,
    /// The peer connection had no local description.
    NoLocalDescription,
    /// The caller reported something that this step cannot produce.
    UnexpectedEvent(Step),
}

/// How a session ended.
#[derive(Clone, Copy, Debug, PartialEq, Eq, Structural)]
pub enum Outcome {
    /// The call ended for this reason and the peer connection was closed.
    Closed(EndCause),
    /// The session stopped early.
    Failed(SessionError),
}

/// The kind of a session description that is sent.
#[derive(Clone, Copy, Debug, PartialEq, Eq, Structural)]
pub enum DescriptionKind {
    Offer,
    Answer,
}

/// What the caller reports after carrying out a command.
#[derive(Clone, Debug, PartialEq, Eq)]
pub enum SessionEvent {
    /// The step succeeded.
    Completed,
    /// The step's outside call failed.
    Failed,
    /// The step found nothing where it looked (no runtime, no local
    /// description).
    Missing,
    /// A session description arrived from `sender`.
    Received { sender: String, description: String },
    /// The local description, serialized.
    LocalReady(String),
    /// The call ended.
    Ended(EndCause),
}

/// What the session asks the caller to do next.
#[derive(Clone, Debug, PartialEq, Eq)]
pub enum Command {
    /// Carry out this step.
    Run(Step),
    /// Parse this description and make it the remote description.
    ApplyRemote { description: String },
    /// Send this serialized description, of this kind, to this peer.
    SendLocal { to: String, kind: DescriptionKind, sdp: String },
    /// The session is over.
    Finish(Outcome),
}

/// A session event over plain values.
pub enum EventView {
    Completed,
    Failed,
    Missing,
    Received { sender: Seq<char>, description: Seq<char> },
    LocalReady(Seq<char>),
    Ended(EndCause),
}

/// A command over plain values.
pub enum CommandView {
    Run(Step),
    ApplyRemote { description: Seq<char> },
    SendLocal { to: Seq<char>, kind: DescriptionKind, sdp: Seq<char> },
    Finish(Outcome),
}

impl View for SessionEvent {
    type V = EventView;

    open spec fn view(&self) -> EventView {
        match self {
            SessionEvent::Completed => EventView::Completed,
            SessionEvent::Failed => EventView::Failed,
            SessionEvent::Missing => EventView::Missing,
            SessionEvent::Received { sender, description } => EventView::Received {
                sender: sender@,
                description: description@,
            },
            SessionEvent::LocalReady(s) => EventView::LocalReady(s@),
            SessionEvent::Ended(c) => EventView::Ended(*c),
        }
    }
}

impl View for Command {
    type V = CommandView;

    open spec fn view(&self) -> CommandView {
        match self {
            Command::Run(s) => CommandView::Run(*s),
            Command::ApplyRemote { description } => CommandView::ApplyRemote {
                description: description@,
            },
            Command::SendLocal { to, kind, sdp } => CommandView::SendLocal {
                to: to@,
                kind: *kind,
                sdp: sdp@,
            },
            Command::Finish(o) => CommandView::Finish(*o),
        }
    }
}

/// The first step of each flow.
pub open spec fn first_step(flow: Flow) -> Step {
    Step::RegisterCodecs
}

/// The step that follows `s` in the flow's plan; `None` after the last one
/// (closing the peer connection).
///
/// Answering client: codecs, interrupt handler (not on a restart), runtime,
/// interceptors, peer connection, signaling, await offer, apply it, create
/// answer, gathering, read and send the answer, await the end, close.
/// Offering client: codecs, interrupt handler, runtime, interceptors, peer
/// connection, data channel, signaling, create offer, gathering, read and
/// send the offer, await the answer, apply it, await the end, close.
/// Slave and waiter: as the answering client without the interrupt handler.
/// Camera: codecs, interceptors, runtime, peer connection, video track,
/// signaling, then as the slave, with RTP forwarding started after the
/// answer is sent.
pub open spec fn next_step(flow: Flow, s: Step) -> Option<Step> {
    match flow {
        Flow::Offerer => match s {
            Step::RegisterCodecs => Some(Step::InstallInterruptHandler),
            Step::InstallInterruptHandler => Some(Step::FindRuntime),
            Step::FindRuntime => Some(Step::RegisterInterceptors),
            Step::RegisterInterceptors => Some(Step::BuildPeerConnection),
            Step::BuildPeerConnection => Some(Step::OpenDataChannel),
            Step::OpenDataChannel => Some(Step::ConnectSignaling),
            Step::ConnectSignaling => Some(Step::CreateOffer),
            Step::CreateOffer => Some(Step::AwaitGathering),
            Step::AwaitGathering => Some(Step::ReadLocalDescription),
            Step::ReadLocalDescription => Some(Step::SendLocalDescription),
            Step::SendLocalDescription => Some(Step::AwaitRemoteDescription),
            Step::AwaitRemoteDescription => Some(Step::ApplyRemoteDescription),
            Step::ApplyRemoteDescription => Some(Step::AwaitEnd),
            Step::AwaitEnd => Some(Step::ClosePeerConnection),
            _ => None,
        },
        Flow::Camera => match s {
            Step::RegisterCodecs => Some(Step::RegisterInterceptors),
            Step::RegisterInterceptors => Some(Step::FindRuntime),
            Step::FindRuntime => Some(Step::BuildPeerConnection),
            Step::BuildPeerConnection => Some(Step::AddVideoTrack),
            Step::AddVideoTrack => Some(Step::ConnectSignaling),
            Step::ConnectSignaling => Some(Step::AwaitRemoteDescription),
            Step::AwaitRemoteDescription => Some(Step::ApplyRemoteDescription),
            Step::ApplyRemoteDescription => Some(Step::CreateAnswer),
            Step::CreateAnswer => Some(Step::AwaitGathering),
            Step::AwaitGathering => Some(Step::ReadLocalDescription),
            Step::ReadLocalDescription => Some(Step::SendLocalDescription),
            Step::SendLocalDescription => Some(Step::StartForwarding),
            Step::StartForwarding => Some(Step::AwaitEnd),
            Step::AwaitEnd => Some(Step::ClosePeerConnection),
            _ => None,
        },
        _ => match s {
            Step::RegisterCodecs => if flow == (Flow::Answerer { restart: false }) {
                Some(Step::InstallInterruptHandler)
            } else {
                Some(Step::FindRuntime)
            },
            Step::InstallInterruptHandler => Some(Step::FindRuntime),
            Step::FindRuntime => Some(Step::RegisterInterceptors),
            Step::RegisterInterceptors => Some(Step::BuildPeerConnection),
            Step::BuildPeerConnection => Some(Step::ConnectSignaling),
            Step::ConnectSignaling => Some(Step::AwaitRemoteDescription),
            Step::AwaitRemoteDescription => Some(Step::ApplyRemoteDescription),
            Step::ApplyRemoteDescription => Some(Step::CreateAnswer),
            Step::CreateAnswer => Some(Step::AwaitGathering),
            Step::AwaitGathering => Some(Step::ReadLocalDescription),
            Step::ReadLocalDescription => Some(Step::SendLocalDescription),
            Step::SendLocalDescription => Some(Step::AwaitEnd),
            Step::AwaitEnd => Some(Step::ClosePeerConnection),
            _ => None,
        },
    }
}

/// The kind of description a flow sends.
pub open spec fn sent_kind(flow: Flow) -> DescriptionKind {
    if flow == Flow::Offerer {
        DescriptionKind::Offer
    } else {
        DescriptionKind::Answer
    }
}

/// The end causes a flow waits for: the end of the data channel always;
/// Ctrl-C except in a restarted answering client, which has no handler
/// installed; and, for the camera only, the end of RTP forwarding.
pub open spec fn awaited_cause(flow: Flow, c: EndCause) -> bool {
    match c {
        EndCause::ChannelDone => true,
        EndCause::Interrupted => flow != (Flow::Answerer { restart: true }),
        EndCause::ForwardingEnded => flow == Flow::Camera,
    }
}

/// The session's state over plain values.
pub struct SessionView {
    pub flow: Flow,
    pub target: Seq<char>,
    pub step: Step,
    pub peer: Seq<char>,
    pub remote: Seq<char>,
    pub local: Seq<char>,
    pub cause: EndCause,
    pub outcome: Option<Outcome>,
}

/// The command that starts step `s`.
pub open spec fn command_for(v: SessionView, s: Step) -> CommandView {
    match s {
        Step::ApplyRemoteDescription => CommandView::ApplyRemote { description: v.remote },
        Step::SendLocalDescription => CommandView::SendLocal {
            to: if v.flow == Flow::Offerer {
                v.target
            } else {
                v.peer
            },
            kind: sent_kind(v.flow),
            sdp: v.local,
        },
        _ => CommandView::Run(s),
    }
}

/// The session stops with `o`.
pub open spec fn finish_with(v: SessionView, o: Outcome) -> (SessionView, CommandView) {
    (SessionView { outcome: Some(o), ..v }, CommandView::Finish(o))
}

/// The current step is done: go on with the next one, or, after the last,
/// finish with the cause for which the call ended.
pub open spec fn advance(v: SessionView) -> (SessionView, CommandView) {
    match next_step(v.flow, v.step) {
        Some(s) => (SessionView { step: s, ..v }, command_for(v, s)),
        None => finish_with(v, Outcome::Closed(v.cause)),
    }
}

/// One transition of the session. A finished session stays finished. A
/// failure of the current step ends the session with that step's error; a
/// missing runtime or local description ends it with its own error; an
/// event that the current step cannot produce ends it as unexpected. A
/// received description, a serialized local description and an end cause
/// are kept when the current step is the one that waits for them.
pub open spec fn session_next(v: SessionView, e: EventView) -> (SessionView, CommandView) {
    if v.outcome is Some {
        (v, CommandView::Finish(v.outcome->0))
    } else {
        let unexpected = finish_with(v, Outcome::Failed(SessionError::UnexpectedEvent(v.step)));
        match e {
            EventView::Failed => finish_with(
                v,
                Outcome::Failed(SessionError::StepFailed(v.step)),
            ),
            EventView::Missing => if v.step == Step::FindRuntime {
                finish_with(v, Outcome::Failed(SessionError::NoRuntime))
            } else if v.step == Step::ReadLocalDescription {
                finish_with(v, Outcome::Failed(SessionError::NoLocalDescription))
            } else {
                unexpected
            },
            EventView::Received { sender, description } => if v.step
                == Step::AwaitRemoteDescription {
                advance(SessionView { peer: sender, remote: description, ..v })
            } else {
                unexpected
            },
            EventView::LocalReady(sdp) => if v.step == Step::ReadLocalDescription {
                advance(SessionView { local: sdp, ..v })
            } else {
                unexpected
            },
            EventView::Ended(c) => if v.step == Step::AwaitEnd && awaited_cause(v.flow, c) {
                advance(SessionView { cause: c, ..v })
            } else {
                unexpected
            },
            EventView::Completed => if v.step == Step::AwaitRemoteDescription || v.step
                == Step::ReadLocalDescription || v.step == Step::AwaitEnd {
                unexpected
            } else {
                advance(v)
            },
        }
    }
}

/// A running signaling session.
#[derive(Clone, Debug)]
pub struct Session {
    flow: Flow,
    target: String,
    step: Step,
    peer: String,
    remote: String,
    local: String,
    cause: EndCause,
    outcome: Option<Outcome>,
}

impl View for Session {
    type V = SessionView;

    closed spec fn view(&self) -> SessionView {
        SessionView {
            flow: self.flow,
            target: self.target@,
            step: self.step,
            peer: self.peer@,
            remote: self.remote@,
            local: self.local@,
            cause: self.cause,
            outcome: self.outcome,
        }
    }
}

/// The step after `s` in the flow's plan.
fn next_step_of(flow: Flow, s: Step) -> (r: Option<Step>)
    ensures
        r == next_step(flow, s),
{
    match flow {
        Flow::Offerer => match s {
            Step::RegisterCodecs => Some(Step::InstallInterruptHandler),
            Step::InstallInterruptHandler => Some(Step::FindRuntime),
            Step::FindRuntime => Some(Step::RegisterInterceptors),
            Step::RegisterInterceptors => Some(Step::BuildPeerConnection),
            Step::BuildPeerConnection => Some(Step::OpenDataChannel),
            Step::OpenDataChannel => Some(Step::ConnectSignaling),
            Step::ConnectSignaling => Some(Step::CreateOffer),
            Step::CreateOffer => Some(Step::AwaitGathering),
            Step::AwaitGathering => Some(Step::ReadLocalDescription),
            Step::ReadLocalDescription => Some(Step::SendLocalDescription),
            Step::SendLocalDescription => Some(Step::AwaitRemoteDescription),
            Step::AwaitRemoteDescription => Some(Step::ApplyRemoteDescription),
            Step::ApplyRemoteDescription => Some(Step::AwaitEnd),
            Step::AwaitEnd => Some(Step::ClosePeerConnection),
            _ => None,
        },
        Flow::Camera => match s {
            Step::RegisterCodecs => Some(Step::RegisterInterceptors),
            Step::RegisterInterceptors => Some(Step::FindRuntime),
            Step::FindRuntime => Some(Step::BuildPeerConnection),
            Step::BuildPeerConnection => Some(Step::AddVideoTrack),
            Step::AddVideoTrack => Some(Step::ConnectSignaling),
            Step::ConnectSignaling => Some(Step::AwaitRemoteDescription),
            Step::AwaitRemoteDescription => Some(Step::ApplyRemoteDescription),
            Step::ApplyRemoteDescription => Some(Step::CreateAnswer),
            Step::CreateAnswer => Some(Step::AwaitGathering),
            Step::AwaitGathering => Some(Step::ReadLocalDescription),
            Step::ReadLocalDescription => Some(Step::SendLocalDescription),
            Step::SendLocalDescription => Some(Step::StartForwarding),
            Step::StartForwarding => Some(Step::AwaitEnd),
            Step::AwaitEnd => Some(Step::ClosePeerConnection),
            _ => None,
        },
        _ => {
            let installs = match flow {
                Flow::Answerer { restart } => !restart,
                _ => false,
            };
            match s {
                Step::RegisterCodecs => if installs {
                    Some(Step::InstallInterruptHandler)
                } else {
                    Some(Step::FindRuntime)
                },
                Step::InstallInterruptHandler => Some(Step::FindRuntime),
                Step::FindRuntime => Some(Step::RegisterInterceptors),
                Step::RegisterInterceptors => Some(Step::BuildPeerConnection),
                Step::BuildPeerConnection => Some(Step::ConnectSignaling),
                Step::ConnectSignaling => Some(Step::AwaitRemoteDescription),
                Step::AwaitRemoteDescription => Some(Step::ApplyRemoteDescription),
                Step::ApplyRemoteDescription => Some(Step::CreateAnswer),
                Step::CreateAnswer => Some(Step::AwaitGathering),
                Step::AwaitGathering => Some(Step::ReadLocalDescription),
                Step::ReadLocalDescription => Some(Step::SendLocalDescription),
                Step::SendLocalDescription => Some(Step::AwaitEnd),
                Step::AwaitEnd => Some(Step::ClosePeerConnection),
                _ => None,
            }
        },
    }
}

impl Session {
    /// Starts a session of `flow`; `target` is the peer an offer is sent to
    /// (the offering flow only). The first command registers the codecs.
    pub fn start(flow: Flow, target: &str) -> (r: (Session, Command))
        ensures
            r.0@ == (SessionView {
                flow,
                target: target@,
                step: first_step(flow),
                peer: Seq::empty(),
                remote: Seq::empty(),
                local: Seq::empty(),
                cause: EndCause::ChannelDone,
                outcome: None,
            }),
            r.1@ == CommandView::Run(first_step(flow)),
    {
        let s = Session {
            flow,
            target: target.to_string(),
            step: Step::RegisterCodecs,
            peer: String::new(),
            remote: String::new(),
            local: String::new(),
            cause: EndCause::ChannelDone,
            outcome: None,
        };
        (s, Command::Run(Step::RegisterCodecs))
    }

    /// The program that runs the session.
    pub fn flow(&self) -> (r: Flow)
        ensures
            r == self@.flow,
    {
        self.flow
    }

    /// How the session ended, once it has.
    pub fn outcome(&self) -> (r: Option<Outcome>)
        ensures
            r == self@.outcome,
    {
        self.outcome
    }

    fn finish(&mut self, o: Outcome) -> (r: Command)
        ensures
            (final(self)@, r@) == finish_with(old(self)@, o),
    {
        self.outcome = Some(o);
        Command::Finish(o)
    }

    fn advance(&mut self) -> (r: Command)
        ensures
            (final(self)@, r@) == advance(old(self)@),
    {
        match next_step_of(self.flow, self.step) {
            Some(s) => {
                self.step = s;
                match s {
                    Step::ApplyRemoteDescription => Command::ApplyRemote {
                        description: self.remote.clone(),
                    },
                    Step::SendLocalDescription => {
                        let to = match self.flow {
                            Flow::Offerer => self.target.clone(),
                            _ => self.peer.clone(),
                        };
                        let kind = match self.flow {
                            Flow::Offerer => DescriptionKind::Offer,
                            _ => DescriptionKind::Answer,
                        };
                        Command::SendLocal { to, kind, sdp: self.local.clone() }
                    },
                    _ => Command::Run(s),
                }
            },
            None => {
                let c = self.cause;
                self.finish(Outcome::Closed(c))
            },
        }
    }

    /// Takes in what came of the last command and says what to do next, as
    /// `session_next` states.
    pub fn on_event(&mut self, e: SessionEvent) -> (r: Command)
        ensures
            (final(self)@, r@) == session_next(old(self)@, e@),
    {
        if let Some(o) = self.outcome {
            return Command::Finish(o);
        }
        let step = self.step;
        let waits_for_data = match step {
            Step::AwaitRemoteDescription => true,
            Step::ReadLocalDescription => true,
            Step::AwaitEnd => true,
            _ => false,
        };
        match e {
            SessionEvent::Failed => self.finish(Outcome::Failed(SessionError::StepFailed(step))),
            SessionEvent::Missing => match step {
                Step::FindRuntime => self.finish(Outcome::Failed(SessionError::NoRuntime)),
                Step::ReadLocalDescription => self.finish(
                    Outcome::Failed(SessionError::NoLocalDescription),
                ),
                _ => self.finish(Outcome::Failed(SessionError::UnexpectedEvent(step))),
            },
            SessionEvent::Received { sender, description } => match step {
                Step::AwaitRemoteDescription => {
                    self.peer = sender;
                    self.remote = description;
                    self.advance()
                },
                _ => self.finish(Outcome::Failed(SessionError::UnexpectedEvent(step))),
            },
            SessionEvent::LocalReady(sdp) => match step {
                Step::ReadLocalDescription => {
                    self.local = sdp;
                    self.advance()
                },
                _ => self.finish(Outcome::Failed(SessionError::UnexpectedEvent(step))),
            },
            SessionEvent::Ended(c) => {
                let awaited = match c {
                    EndCause::ChannelDone => true,
                    EndCause::Interrupted => match self.flow {
                        Flow::Answerer { restart } => !restart,
                        _ => true,
                    },
                    EndCause::ForwardingEnded => match self.flow {
                        Flow::Camera => true,
                        _ => false,
                    },
                };
                match step {
                    Step::AwaitEnd => if awaited {
                        self.cause = c;
                        self.advance()
                    } else {
                        self.finish(Outcome::Failed(SessionError::UnexpectedEvent(step)))
                    },
                    _ => self.finish(Outcome::Failed(SessionError::UnexpectedEvent(step))),
                }
            },
            SessionEvent::Completed => if waits_for_data {
                self.finish(Outcome::Failed(SessionError::UnexpectedEvent(step)))
            } else {
                self.advance()
            },
        }
    }
}


/// The line shown when the call ends, for each flow and cause; `None` where
/// the flow does not wait for that cause.
pub open spec fn end_line(flow: Flow, c: EndCause) -> Option<LineView> {
    match c {
        EndCause::ChannelDone => match flow {
            Flow::Answerer { .. } => Some(
                one("peer connection failed or data channel closed."@, Tone::Plain),
            ),
            _ => Some(one("data channel closed"@, Tone::BoldRed)),
        },
        EndCause::Interrupted => match flow {
            Flow::Camera => Some(one("CTRL+C from user"@, Tone::BoldYellow)),
            _ => Some(one(Seq::empty(), Tone::Plain)),
        },
        EndCause::ForwardingEnded => match flow {
            Flow::Camera => Some(one("RTP forwarding ended"@, Tone::Bold)),
            _ => None,
        },
    }
}

/// The line shown when the call ends for cause `c`.
pub fn end_report(flow: Flow, c: EndCause) -> (r: Option<Line>)
    ensures
        match r {
            Some(l) => end_line(flow, c) == Some(l@),
            None => end_line(flow, c) is None,
        },
{
    match c {
        EndCause::ChannelDone => match flow {
            Flow::Answerer { .. } => Some(
                Line::new("peer connection failed or data channel closed.".to_string(), Tone::Plain),
            ),
            _ => Some(Line::new("data channel closed".to_string(), Tone::BoldRed)),
        },
        EndCause::Interrupted => match flow {
            Flow::Camera => Some(Line::new("CTRL+C from user".to_string(), Tone::BoldYellow)),
            _ => Some(Line::new(String::new(), Tone::Plain)),
        },
        EndCause::ForwardingEnded => match flow {
            Flow::Camera => Some(Line::new("RTP forwarding ended".to_string(), Tone::Bold)),
            _ => None,
        },
    }
}

/// Whether a program that runs sessions over and over starts a new one after
/// a call that ended for cause `c`: every cause but Ctrl-C restarts.
pub open spec fn restarts_after(c: EndCause) -> bool {
    c != EndCause::Interrupted
}

/// The result a repeating program draws from a finished session:
/// `Ok(true)` to run again, `Ok(false)` to stop, `Err` with the error.
pub open spec fn result_of(o: Outcome) -> Result<bool, SessionError> {
    match o {
        Outcome::Closed(c) => Ok(restarts_after(c)),
        Outcome::Failed(e) => Err(e),
    }
}

/// The result a repeating program draws from a finished session, as
/// `result_of` states.
pub fn session_result(o: Outcome) -> (r: Result<bool, SessionError>)
    ensures
        r == result_of(o),
{
    match o {
        Outcome::Closed(EndCause::Interrupted) => Ok(false),
        Outcome::Closed(_) => Ok(true),
        Outcome::Failed(e) => Err(e),
    }
}

/// A program that repeats its sessions.
#[derive(Clone, Copy, Debug, PartialEq, Eq, Structural)]
pub enum Repeater {
    Slave,
    Waiter,
    Camera,
}

/// What a repeating program does after a session: the lines it shows, how
/// long it pauses, and whether it runs another session.
#[derive(Clone, Debug, PartialEq, Eq)]
pub struct Relaunch {
    pub lines: Vec<Line>,
    pub pause_ms: u64,
    pub again: bool,
}

/// The lines shown after a session, given its result; `err` is the text of
/// the error, where there was one.
pub open spec fn relaunch_lines(p: Repeater, r: Result<bool, ()>, err: Seq<char>) -> Seq<
    LineView,
> {
    match r {
        Ok(false) => seq![one("closing..."@, Tone::BoldRed)],
        Ok(true) => if p == Repeater::Camera {
            seq![one("restarting..."@, Tone::Yellow)]
        } else {
            seq![one("restarting..."@, Tone::BoldYellow)]
        },
        Err(_) => if p == Repeater::Camera {
            seq![one(err, Tone::BoldYellow), one("restarting..."@, Tone::Yellow)]
        } else {
            seq![one("error: "@ + err, Tone::Plain), one("restarting..."@, Tone::BoldBrightRed)]
        },
    }
}

/// The decision of a repeating program after a session: it stops, after a
/// pause of three seconds, only when the user interrupted the call; after a
/// call that ended otherwise, or an error, it pauses half a second and runs
/// again.
pub fn relaunch(p: Repeater, r: Result<bool, ()>, err: &str) -> (d: Relaunch)
    ensures
        d.again == (r != Ok::<bool, ()>(false)),
        d.pause_ms == (if d.again {
            500u64
        } else {
            3000u64
        }),
        lines_view(d.lines@) == relaunch_lines(p, r, err@),
{
    let camera = match p {
        Repeater::Camera => true,
        _ => false,
    };
    let mut lines: Vec<Line> = Vec::new();
    let d = match r {
        Ok(false) => {
            lines.push(Line::new("closing...".to_string(), Tone::BoldRed));
            Relaunch { lines, pause_ms: 3000, again: false }
        },
        Ok(true) => {
            let tone = if camera {
                Tone::Yellow
            } else {
                Tone::BoldYellow
            };
            lines.push(Line::new("restarting...".to_string(), tone));
            Relaunch { lines, pause_ms: 500, again: true }
        },
        Err(_) => {
            if camera {
                lines.push(Line::new(err.to_string(), Tone::BoldYellow));
                lines.push(Line::new("restarting...".to_string(), Tone::Yellow));
            } else {
                lines.push(Line::new("error: ".to_string().concat(err), Tone::Plain));
                lines.push(
                    Line::new("restarting...".to_string(), Tone::BoldBrightRed),
                );
            }
            Relaunch { lines, pause_ms: 500, again: true }
        },
    };
    assert(lines_view(d.lines@) =~= relaunch_lines(p, r, err@));
    d
}


/// The position of step `s` in the flow's plan (0 for a step that is not in
/// it).
pub open spec fn rank(flow: Flow, s: Step) -> nat {
    match flow {
        Flow::Offerer => match s {
            Step::RegisterCodecs => 0,
            Step::InstallInterruptHandler => 1,
            Step::FindRuntime => 2,
            Step::RegisterInterceptors => 3,
            Step::BuildPeerConnection => 4,
            Step::OpenDataChannel => 5,
            Step::ConnectSignaling => 6,
            Step::CreateOffer => 7,
            Step::AwaitGathering => 8,
            Step::ReadLocalDescription => 9,
            Step::SendLocalDescription => 10,
            Step::AwaitRemoteDescription => 11,
            Step::ApplyRemoteDescription => 12,
            Step::AwaitEnd => 13,
            Step::ClosePeerConnection => 14,
            _ => 0,
        },
        Flow::Camera => match s {
            Step::RegisterCodecs => 0,
            Step::RegisterInterceptors => 1,
            Step::FindRuntime => 2,
            Step::BuildPeerConnection => 3,
            Step::AddVideoTrack => 4,
            Step::ConnectSignaling => 5,
            Step::AwaitRemoteDescription => 6,
            Step::ApplyRemoteDescription => 7,
            Step::CreateAnswer => 8,
            Step::AwaitGathering => 9,
            Step::ReadLocalDescription => 10,
            Step::SendLocalDescription => 11,
            Step::StartForwarding => 12,
            Step::AwaitEnd => 13,
            Step::ClosePeerConnection => 14,
            _ => 0,
        },
        _ => match s {
            Step::RegisterCodecs => 0,
            Step::InstallInterruptHandler => 1,
            Step::FindRuntime => 2,
            Step::RegisterInterceptors => 3,
            Step::BuildPeerConnection => 4,
            Step::ConnectSignaling => 5,
            Step::AwaitRemoteDescription => 6,
            Step::ApplyRemoteDescription => 7,
            Step::CreateAnswer => 8,
            Step::AwaitGathering => 9,
            Step::ReadLocalDescription => 10,
            Step::SendLocalDescription => 11,
            Step::AwaitEnd => 12,
            Step::ClosePeerConnection => 13,
            _ => 0,
        },
    }
}

/// A fresh session of `flow` calling `target`, as `Session::start` makes it.
pub open spec fn fresh(flow: Flow, target: Seq<char>) -> SessionView {
    SessionView {
        flow,
        target,
        step: first_step(flow),
        peer: Seq::empty(),
        remote: Seq::empty(),
        local: Seq::empty(),
        cause: EndCause::ChannelDone,
        outcome: None,
    }
}

/// The session after the events `es`, in order.
pub open spec fn run(v: SessionView, es: Seq<EventView>) -> SessionView
    decreases es.len(),
{
    if es.len() == 0 {
        v
    } else {
        session_next(run(v, es.drop_last()), es.last()).0
    }
}

/// The sender of the last description received among `es`.
pub open spec fn last_sender(es: Seq<EventView>) -> Option<Seq<char>>
    decreases es.len(),
{
    if es.len() == 0 {
        None
    } else {
        match es.last() {
            EventView::Received { sender, .. } => Some(sender),
            _ => last_sender(es.drop_last()),
        }
    }
}

/// Whether a flow answers offers.
pub open spec fn answers(flow: Flow) -> bool {
    flow != Flow::Offerer
}

/// Whether step `s` belongs to the flow's plan.
pub open spec fn in_plan(flow: Flow, s: Step) -> bool {
    ||| s == Step::RegisterCodecs
    ||| rank(flow, s) > 0 && !(flow == (Flow::Answerer { restart: true })
        && s == Step::InstallInterruptHandler)
}

/// Plans only go forward: the step after `s` comes later in the plan, and
/// no plan is longer than fifteen steps; the only planned step without a
/// successor is closing the peer connection.
pub proof fn lemma_plan_moves_forward(flow: Flow, s: Step)
    ensures
        rank(flow, s) <= 14,
        next_step(flow, s) matches Some(t) ==> rank(flow, t) > rank(flow, s),
        in_plan(flow, s) && next_step(flow, s) is Some ==> in_plan(flow, next_step(flow, s)->0),
        in_plan(flow, s) && next_step(flow, s) is None ==> s == Step::ClosePeerConnection,
{
}

/// A finished session stays finished, whatever is reported to it.
pub proof fn law_finished_session_stays_finished(v: SessionView, e: EventView)
    requires
        v.outcome is Some,
    ensures
        session_next(v, e).0 == v,
        session_next(v, e).1 == CommandView::Finish(v.outcome->0),
{
}

/// A session ends with a closed call only when closing the peer connection
/// has succeeded, and then with the cause for which the call ended.
pub proof fn law_closed_only_after_closing(v: SessionView, e: EventView, c: EndCause)
    requires
        v.outcome is None,
        in_plan(v.flow, v.step),
        session_next(v, e).0.outcome == Some(Outcome::Closed(c)),
    ensures
        v.step == Step::ClosePeerConnection,
        e == EventView::Completed,
        c == v.cause,
{
    lemma_plan_moves_forward(v.flow, v.step);
}

/// A failed step ends the session at once with that step's error.
pub proof fn law_failure_ends_session(v: SessionView)
    requires
        v.outcome is None,
    ensures
        session_next(v, EventView::Failed).1 == CommandView::Finish(
            Outcome::Failed(SessionError::StepFailed(v.step)),
        ),
        session_next(v, EventView::Failed).0.outcome is Some,
{
}

/// Every session is over after at most fifteen reports: the plans cannot
/// loop.
pub proof fn law_session_finishes(flow: Flow, target: Seq<char>, es: Seq<EventView>)
    requires
        es.len() >= 15,
    ensures
        run(fresh(flow, target), es).outcome is Some,
{
    let v = fresh(flow, target);
    lemma_run_moves_forward(v, es);
    lemma_plan_moves_forward(flow, run(v, es).step);
}

/// Every step a session reaches belongs to its flow's plan.
pub proof fn law_sessions_follow_their_plan(flow: Flow, target: Seq<char>, es: Seq<EventView>)
    ensures
        in_plan(flow, run(fresh(flow, target), es).step),
{
    lemma_run_moves_forward(fresh(flow, target), es);
}

/// Facts about the answering plans: the offer is awaited before anything
/// later in the plan, and sending the local description comes after it.
proof fn lemma_answering_plan(flow: Flow, s: Step)
    requires
        answers(flow),
        in_plan(flow, s),
    ensures
        rank(flow, s) == rank(flow, Step::AwaitRemoteDescription) ==> s
            == Step::AwaitRemoteDescription,
        next_step(flow, s) matches Some(t) ==> (rank(flow, t) > rank(
            flow,
            Step::AwaitRemoteDescription,
        ) ==> rank(flow, s) >= rank(flow, Step::AwaitRemoteDescription)),
        rank(flow, Step::SendLocalDescription) > rank(flow, Step::AwaitRemoteDescription),
{
}

proof fn lemma_peer_is_last_sender(flow: Flow, target: Seq<char>, es: Seq<EventView>)
    requires
        answers(flow),
    ensures
        ({
            let w = run(fresh(flow, target), es);
            w.outcome is None && rank(flow, w.step) > rank(flow, Step::AwaitRemoteDescription)
                ==> last_sender(es) == Some(w.peer)
        }),
    decreases es.len(),
{
    if es.len() > 0 {
        let v = fresh(flow, target);
        let prev = es.drop_last();
        let e = es.last();
        lemma_peer_is_last_sender(flow, target, prev);
        lemma_run_moves_forward(v, prev);
        let w = run(v, prev);
        lemma_plan_moves_forward(flow, w.step);
        lemma_answering_plan(flow, w.step);
    }
}

/// In a flow that answers offers, the answer goes to whoever sent the
/// offer: whenever the session sends its local description, it is an
/// answer addressed to the sender of the last description it received.
pub proof fn law_answer_goes_to_offer_sender(
    flow: Flow,
    target: Seq<char>,
    es: Seq<EventView>,
    e: EventView,
)
    requires
        answers(flow),
    ensures
        session_next(run(fresh(flow, target), es), e).1 matches CommandView::SendLocal {
            to,
            kind,
            ..
        } ==> kind == DescriptionKind::Answer && last_sender(es.push(e)) == Some(to),
{
    let v = fresh(flow, target);
    let w = run(v, es);
    lemma_run_moves_forward(v, es);
    lemma_plan_moves_forward(flow, w.step);
    lemma_answering_plan(flow, w.step);
    assert(es.push(e).drop_last() == es);
    lemma_peer_is_last_sender(flow, target, es.push(e));
}

/// The offering flow sends its offer to the peer it was started with.
pub proof fn law_offer_goes_to_target(target: Seq<char>, es: Seq<EventView>, e: EventView)
    ensures
        session_next(run(fresh(Flow::Offerer, target), es), e).1 matches CommandView::SendLocal {
            to,
            kind,
            ..
        } ==> kind == DescriptionKind::Offer && to == target,
{
    lemma_target_kept(fresh(Flow::Offerer, target), es);
}

proof fn lemma_target_kept(v: SessionView, es: Seq<EventView>)
    ensures
        run(v, es).target == v.target,
        run(v, es).flow == v.flow,
    decreases es.len(),
{
    if es.len() > 0 {
        lemma_target_kept(v, es.drop_last());
    }
}

proof fn lemma_run_moves_forward(v: SessionView, es: Seq<EventView>)
    ensures
        run(v, es).flow == v.flow,
        in_plan(v.flow, v.step) ==> in_plan(v.flow, run(v, es).step),
        run(v, es).outcome is None ==> v.outcome is None && rank(v.flow, run(v, es).step) >= rank(
            v.flow,
            v.step,
        ) + es.len(),
    decreases es.len(),
{
    if es.len() > 0 {
        lemma_run_moves_forward(v, es.drop_last());
        let w = run(v, es.drop_last());
        lemma_plan_moves_forward(w.flow, w.step);
    }
}


/// The lines a flow shows once step `s` has succeeded; `who` is the peer the
/// step dealt with (the sender of a received description, or the peer a
/// description was sent to).
pub open spec fn progress_lines(flow: Flow, s: Step, who: Seq<char>) -> Seq<LineView> {
    match s {
        Step::ConnectSignaling => match flow {
            Flow::Offerer => Seq::empty(),
            Flow::Slave => seq![one("connection ready!"@, Tone::BoldBlue)],
            Flow::Camera => seq![one("connection ready!"@, Tone::BoldBlue)],
            _ => seq![one("ready!"@, Tone::BoldBlue)],
        },
        Step::AwaitRemoteDescription => if flow == Flow::Offerer {
            seq![one("answer received from "@ + who, Tone::Plain)]
        } else {
            seq![one("offer received from "@ + who, Tone::Plain)]
        },
        Step::ApplyRemoteDescription => match flow {
            Flow::Offerer => seq![one("set remote description"@, Tone::Plain)],
            Flow::Camera => seq![one("creating answer..."@, Tone::Plain)],
            _ => seq![one("set remote sdp, creating answer..."@, Tone::Plain)],
        },
        Step::SendLocalDescription => match flow {
            Flow::Offerer => seq![one("sent offer to "@ + who + ", waiting for answer..."@, Tone::Plain)],
            Flow::Camera => seq![one("answer sent to "@ + who, Tone::Plain)],
            Flow::Waiter => seq![
                one("sent answer to "@ + who, Tone::Plain),
                one("press ctrl-c to stop"@, Tone::Plain),
            ],
            _ => seq![one("sent answer to "@ + who, Tone::Plain)],
        },
        _ => Seq::empty(),
    }
}

/// The lines a flow shows once step `s` has succeeded.
pub fn progress_report(flow: Flow, s: Step, who: &str) -> (r: Vec<Line>)
    ensures
        lines_view(r@) == progress_lines(flow, s, who@),
{
    let mut r: Vec<Line> = Vec::new();
    match s {
        Step::ConnectSignaling => match flow {
            Flow::Offerer => {},
            Flow::Slave | Flow::Camera => {
                r.push(Line::new("connection ready!".to_string(), Tone::BoldBlue));
            },
            _ => {
                r.push(Line::new("ready!".to_string(), Tone::BoldBlue));
            },
        },
        Step::AwaitRemoteDescription => {
            let text = match flow {
                Flow::Offerer => "answer received from ".to_string().concat(who),
                _ => "offer received from ".to_string().concat(who),
            };
            r.push(Line::new(text, Tone::Plain));
        },
        Step::ApplyRemoteDescription => {
            let text = match flow {
                Flow::Offerer => "set remote description",
                Flow::Camera => "creating answer...",
                _ => "set remote sdp, creating answer...",
            };
            r.push(Line::new(text.to_string(), Tone::Plain));
        },
        Step::SendLocalDescription => match flow {
            Flow::Offerer => {
                r.push(
                    Line::new("sent offer to ".to_string().concat(who).concat(
                            ", waiting for answer...",
                        ), Tone::Plain),
                );
            },
            Flow::Camera => {
                r.push(Line::new("answer sent to ".to_string().concat(who), Tone::Plain));
            },
            Flow::Waiter => {
                r.push(Line::new("sent answer to ".to_string().concat(who), Tone::Plain));
                r.push(Line::new("press ctrl-c to stop".to_string(), Tone::Plain));
            },
            _ => {
                r.push(Line::new("sent answer to ".to_string().concat(who), Tone::Plain));
            },
        },
        _ => {},
    }
    assert(lines_view(r@) =~= progress_lines(flow, s, who@));
    r
}

/// The line the answering flows other than the camera show when a received
/// offer has been parsed, before it is applied.
pub fn offer_parsed_report(flow: Flow) -> (r: Option<Line>)
    ensures
        match r {
            Some(l) => l@ == one("offer sdp parsed, setting remote description..."@, Tone::Plain)
                && flow != Flow::Offerer && flow != Flow::Camera,
            None => flow == Flow::Offerer || flow == Flow::Camera,
        },
{
    match flow {
        Flow::Offerer | Flow::Camera => None,
        _ => Some(
            Line::new("offer sdp parsed, setting remote description...".to_string(), Tone::Plain),
        ),
    }
}

proof fn lemma_restarted_answerer_never_interrupted(v: SessionView, es: Seq<EventView>)
    requires
        v.flow == (Flow::Answerer { restart: true }),
        v.cause != EndCause::Interrupted,
        v.outcome != Some(Outcome::Closed(EndCause::Interrupted)),
    ensures
        run(v, es).flow == v.flow,
        run(v, es).cause != EndCause::Interrupted,
        run(v, es).outcome != Some(Outcome::Closed(EndCause::Interrupted)),
    decreases es.len(),
{
    if es.len() > 0 {
        lemma_restarted_answerer_never_interrupted(v, es.drop_last());
    }
}

/// A restarted answering client has no Ctrl-C handler: its call never ends
/// for that reason; only the end of the connection or data channel ends it.
pub proof fn law_restarted_answerer_ignores_interrupt(target: Seq<char>, es: Seq<EventView>)
    ensures
        run(fresh(Flow::Answerer { restart: true }, target), es).outcome != Some(
            Outcome::Closed(EndCause::Interrupted),
        ),
{
    lemma_restarted_answerer_never_interrupted(fresh(Flow::Answerer { restart: true }, target), es);
}

/// A received description is applied next: whatever the flow, a session
/// waiting for a description that receives one keeps its sender as the peer
/// and asks to apply exactly that description.
pub proof fn law_received_description_is_applied(
    v: SessionView,
    sender: Seq<char>,
    description: Seq<char>,
)
    requires
        v.outcome is None,
        v.step == Step::AwaitRemoteDescription,
    ensures
        ({
            let (w, c) = session_next(v, (EventView::Received { sender, description }));
            &&& c == (CommandView::ApplyRemote { description })
            &&& w.peer == sender
            &&& w.step == Step::ApplyRemoteDescription
            &&& w.outcome == None::<Outcome>
        }),
{
}

/// The answering flows follow the offer/answer protocol: once signaling is
/// connected they await the offer, apply it, create the answer, wait for
/// gathering, read and send the answer, and (the camera after starting to
/// forward) await the end of the call and close.
pub proof fn law_answering_protocol_order(flow: Flow)
    requires
        answers(flow),
    ensures
        next_step(flow, Step::ConnectSignaling) == Some(Step::AwaitRemoteDescription),
        next_step(flow, Step::AwaitRemoteDescription) == Some(Step::ApplyRemoteDescription),
        next_step(flow, Step::ApplyRemoteDescription) == Some(Step::CreateAnswer),
        next_step(flow, Step::CreateAnswer) == Some(Step::AwaitGathering),
        next_step(flow, Step::AwaitGathering) == Some(Step::ReadLocalDescription),
        next_step(flow, Step::ReadLocalDescription) == Some(Step::SendLocalDescription),
        flow == Flow::Camera ==> next_step(flow, Step::SendLocalDescription) == Some(
            Step::StartForwarding,
        ) && next_step(flow, Step::StartForwarding) == Some(Step::AwaitEnd),
        flow != Flow::Camera ==> next_step(flow, Step::SendLocalDescription) == Some(
            Step::AwaitEnd,
        ),
        next_step(flow, Step::AwaitEnd) == Some(Step::ClosePeerConnection),
        next_step(flow, Step::ClosePeerConnection) is None,
        next_step(flow, Step::CreateOffer) is None,
        next_step(flow, Step::OpenDataChannel) is None,
{
}

/// The offering flow sends its offer before it awaits the answer: it opens
/// the data channel, connects, creates the offer, waits for gathering, reads
/// and sends the offer, awaits and applies the answer, then awaits the end
/// and closes; it never creates an answer.
pub proof fn law_offering_protocol_order()
    ensures
        next_step(Flow::Offerer, Step::BuildPeerConnection) == Some(Step::OpenDataChannel),
        next_step(Flow::Offerer, Step::OpenDataChannel) == Some(Step::ConnectSignaling),
        next_step(Flow::Offerer, Step::ConnectSignaling) == Some(Step::CreateOffer),
        next_step(Flow::Offerer, Step::CreateOffer) == Some(Step::AwaitGathering),
        next_step(Flow::Offerer, Step::AwaitGathering) == Some(Step::ReadLocalDescription),
        next_step(Flow::Offerer, Step::ReadLocalDescription) == Some(Step::SendLocalDescription),
        next_step(Flow::Offerer, Step::SendLocalDescription) == Some(Step::AwaitRemoteDescription),
        next_step(Flow::Offerer, Step::AwaitRemoteDescription) == Some(
            Step::ApplyRemoteDescription,
        ),
        next_step(Flow::Offerer, Step::ApplyRemoteDescription) == Some(Step::AwaitEnd),
        next_step(Flow::Offerer, Step::AwaitEnd) == Some(Step::ClosePeerConnection),
        next_step(Flow::Offerer, Step::ClosePeerConnection) is None,
        next_step(Flow::Offerer, Step::CreateAnswer) is None,
{
}

/// The set-up steps: every flow registers its codecs first; exactly the
/// first-run answering client and the offering client install the Ctrl-C
/// handler, right after; every flow finds the runtime and registers the
/// interceptors before building the peer connection; only the camera adds a
/// video track, after building it.
pub proof fn law_setup_order(flow: Flow)
    ensures
        first_step(flow) == Step::RegisterCodecs,
        (next_step(flow, Step::RegisterCodecs) == Some(Step::InstallInterruptHandler)) <==> (flow
            == (Flow::Answerer { restart: false }) || flow == Flow::Offerer),
        flow != Flow::Camera ==> next_step(flow, Step::FindRuntime) == Some(
            Step::RegisterInterceptors,
        ) && next_step(flow, Step::RegisterInterceptors) == Some(Step::BuildPeerConnection),
        flow == Flow::Camera ==> next_step(flow, Step::RegisterCodecs) == Some(
            Step::RegisterInterceptors,
        ) && next_step(flow, Step::RegisterInterceptors) == Some(Step::FindRuntime)
            && next_step(flow, Step::FindRuntime) == Some(Step::BuildPeerConnection)
            && next_step(flow, Step::BuildPeerConnection) == Some(Step::AddVideoTrack)
            && next_step(flow, Step::AddVideoTrack) == Some(Step::ConnectSignaling),
        (flow == (Flow::Answerer { restart: false }) || flow == Flow::Offerer) ==> next_step(
            flow,
            Step::InstallInterruptHandler,
        ) == Some(Step::FindRuntime),
        flow != Flow::Camera ==> next_step(flow, Step::AddVideoTrack) is None
            && next_step(flow, Step::StartForwarding) is None,
{
}

/// Ctrl-C ends the call in every flow that installs a handler for it (all
/// but the restarted answering client): the session closes the peer
/// connection and then finishes as interrupted, which stops a repeating
/// program. The end of the data channel ends the call in every flow; the
/// end of forwarding only the camera's.
pub proof fn law_interrupt_ends_call(v: SessionView)
    requires
        v.outcome is None,
        v.step == Step::AwaitEnd,
        in_plan(v.flow, v.step),
    ensures
        awaited_cause(v.flow, EndCause::Interrupted) <==> v.flow != (Flow::Answerer {
            restart: true,
        }),
        awaited_cause(v.flow, EndCause::ChannelDone),
        awaited_cause(v.flow, EndCause::ForwardingEnded) <==> v.flow == Flow::Camera,
        v.flow != (Flow::Answerer { restart: true }) ==> {
            let (w, c) = session_next(v, EventView::Ended(EndCause::Interrupted));
            &&& c == CommandView::Run(Step::ClosePeerConnection)
            &&& session_next(w, EventView::Completed).1 == CommandView::Finish(
                Outcome::Closed(EndCause::Interrupted),
            )
            &&& result_of(Outcome::Closed(EndCause::Interrupted)) == Ok::<bool, SessionError>(
                false,
            )
        },
        ({
            let (w, c) = session_next(v, EventView::Ended(EndCause::ChannelDone));
            &&& c == CommandView::Run(Step::ClosePeerConnection)
            &&& session_next(w, EventView::Completed).1 == CommandView::Finish(
                Outcome::Closed(EndCause::ChannelDone),
            )
            &&& result_of(Outcome::Closed(EndCause::ChannelDone)) == Ok::<bool, SessionError>(
                true,
            )
        }),
{
}

/// A repeating program stops only after a call that the user interrupted:
/// a call that ended otherwise, or a session that failed, is followed by
/// another session.
pub proof fn law_only_interrupt_stops(o: Outcome)
    ensures
        (result_of(o) == Ok::<bool, SessionError>(false)) <==> o == Outcome::Closed(
            EndCause::Interrupted,
        ),
{
}

} // verus!
