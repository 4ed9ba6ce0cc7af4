//! What the peer-connection event handlers report: the console line for each
//! state change, with its style, and the signal it raises for the session.
use vstd::prelude::*;

verus! {

broadcast use vstd::string::group_string_axioms;

/// The console style of a line.
#[derive(Clone, Copy, Debug, PartialEq, Eq, Structural)]
pub enum Tone {
    Plain,
    Bold,
    Italic,
    Green,
    Yellow,
    BoldGreen,
    BoldRed,
    BoldYellow,
    BoldBlue,
    BoldMagenta,
    BoldBrightBlue,
    BoldBrightGreen,
    BoldBrightYellow,
    BoldBrightRed,
    ItalicCyan,
    UnderlineBoldGreen,
}

/// A run of text in one console style.
#[derive(Clone, Debug, PartialEq, Eq)]
pub struct Piece {
    pub text: String,
    pub tone: Tone,
}

impl View for Piece {
    type V = (Seq<char>, Tone);

    open spec fn view(&self) -> (Seq<char>, Tone) {
        (self.text@, self.tone)
    }
}

/// A console line: its pieces, each in its own style, shown one after the
/// other.
#[derive(Clone, Debug, PartialEq, Eq)]
pub struct Line {
    pub pieces: Vec<Piece>,
}

/// A line over plain values: its pieces' texts and styles.
pub type LineView = Seq<(Seq<char>, Tone)>;

impl View for Line {
    type V = LineView;

    open spec fn view(&self) -> LineView {
        self.pieces@.map_values(|p: Piece| p@)
    }
}

/// A line of one piece.
pub open spec fn one(text: Seq<char>, tone: Tone) -> LineView {
    seq![(text, tone)]
}

/// A line of two pieces in the same style.
pub open spec fn two(first: Seq<char>, second: Seq<char>, tone: Tone) -> LineView {
    seq![(first, tone), (second, tone)]
}

/// The views of a list of lines.
pub open spec fn lines_view(lines: Seq<Line>) -> Seq<LineView> {
    lines.map_values(|l: Line| l@)
}

impl Line {
    /// A line of one piece.
    pub fn new(text: String, tone: Tone) -> (r: Line)
        ensures
            r@ == one(text@, tone),
    {
        let mut pieces: Vec<Piece> = Vec::new();
        pieces.push(Piece { text, tone });
        let r = Line { pieces };
        assert(r@ =~= one(text@, tone));
        r
    }

    /// A line of two pieces in the same style.
    pub fn pair(first: String, second: String, tone: Tone) -> (r: Line)
        ensures
            r@ == two(first@, second@, tone),
    {
        let mut pieces: Vec<Piece> = Vec::new();
        pieces.push(Piece { text: first, tone });
        pieces.push(Piece { text: second, tone });
        let r = Line { pieces };
        assert(r@ =~= two(first@, second@, tone));
        r
    }

    /// Appends a piece.
    pub fn push(&mut self, text: String, tone: Tone)
        ensures
            final(self)@ == old(self)@.push((text@, tone)),
    {
        self.pieces.push(Piece { text, tone });
        assert(final(self)@ =~= old(self)@.push((text@, tone)));
    }
}

/// The signaling state of a peer connection.
#[derive(Clone, Copy, Debug, PartialEq, Eq, Structural)]
pub enum SignalingState {
    Unspecified,
    Stable,
    HaveLocalOffer,
    HaveRemoteOffer,
    HaveLocalPranswer,
    HaveRemotePranswer,
    Closed,
}

/// The ICE gathering state of a peer connection.
#[derive(Clone, Copy, Debug, PartialEq, Eq, Structural)]
pub enum IceGatheringState {
    Unspecified,
    New,
    Gathering,
    Complete,
}

/// The aggregate state of a peer connection.
#[derive(Clone, Copy, Debug, PartialEq, Eq, Structural)]
pub enum PeerConnectionState {
    Unspecified,
    New,
    Connecting,
    Connected,
    Disconnected,
    Failed,
    Closed,
}

/// The name under which a signaling state is shown.
pub open spec fn signaling_state_name_spec(s: SignalingState) -> Seq<char> {
    match s {
        SignalingState::Unspecified => "Unspecified"@,
        SignalingState::Stable => "stable"@,
        SignalingState::HaveLocalOffer => "have-local-offer"@,
        SignalingState::HaveRemoteOffer => "have-remote-offer"@,
        SignalingState::HaveLocalPranswer => "have-local-pranswer"@,
        SignalingState::HaveRemotePranswer => "have-remote-pranswer"@,
        SignalingState::Closed => "closed"@,
    }
}

/// The name under which a signaling state is shown.
pub fn signaling_state_name(s: SignalingState) -> (r: &'static str)
    ensures
        r@ == signaling_state_name_spec(s),
{
    match s {
        SignalingState::Unspecified => "Unspecified",
        SignalingState::Stable => "stable",
        SignalingState::HaveLocalOffer => "have-local-offer",
        SignalingState::HaveRemoteOffer => "have-remote-offer",
        SignalingState::HaveLocalPranswer => "have-local-pranswer",
        SignalingState::HaveRemotePranswer => "have-remote-pranswer",
        SignalingState::Closed => "closed",
    }
}

/// The name under which an ICE gathering state is shown.
pub open spec fn gathering_state_name_spec(s: IceGatheringState) -> Seq<char> {
    match s {
        IceGatheringState::Unspecified => "Unspecified"@,
        IceGatheringState::New => "new"@,
        IceGatheringState::Gathering => "gathering"@,
        IceGatheringState::Complete => "complete"@,
    }
}

/// The name under which an ICE gathering state is shown.
pub fn gathering_state_name(s: IceGatheringState) -> (r: &'static str)
    ensures
        r@ == gathering_state_name_spec(s),
{
    match s {
        IceGatheringState::Unspecified => "Unspecified",
        IceGatheringState::New => "new",
        IceGatheringState::Gathering => "gathering",
        IceGatheringState::Complete => "complete",
    }
}

/// The name under which a peer-connection state is shown.
pub open spec fn connection_state_name_spec(s: PeerConnectionState) -> Seq<char> {
    match s {
        PeerConnectionState::Unspecified => "Unspecified"@,
        PeerConnectionState::New => "new"@,
        PeerConnectionState::Connecting => "connecting"@,
        PeerConnectionState::Connected => "connected"@,
        PeerConnectionState::Disconnected => "disconnected"@,
        PeerConnectionState::Failed => "failed"@,
        PeerConnectionState::Closed => "closed"@,
    }
}

/// The name under which a peer-connection state is shown.
pub fn connection_state_name(s: PeerConnectionState) -> (r: &'static str)
    ensures
        r@ == connection_state_name_spec(s),
{
    match s {
        PeerConnectionState::Unspecified => "Unspecified",
        PeerConnectionState::New => "new",
        PeerConnectionState::Connecting => "connecting",
        PeerConnectionState::Connected => "connected",
        PeerConnectionState::Disconnected => "disconnected",
        PeerConnectionState::Failed => "failed",
        PeerConnectionState::Closed => "closed",
    }
}

/// Which of the program's event handlers reacts to an event.
#[derive(Clone, Copy, Debug, PartialEq, Eq, Structural)]
pub enum HandlerRole {
    /// The camera, which answers and then streams video.
    Camera,
    /// The side that sends the offer and opens the data channel.
    Offer,
    /// The side that answers an offer and watches the peer's data channel.
    Answer,
}

/// The signal an event handler raises towards the running session.
#[derive(Clone, Copy, Debug, PartialEq, Eq, Structural)]
pub enum Signal {
    /// Nothing is raised.
    Quiet,
    /// ICE candidate gathering has finished.
    GatheringComplete,
    /// The connection is up (or, for the camera, freshly created).
    Connected,
    /// The connection or its data channel is gone: the session should end.
    Done,
}

/// A handler's reaction to a state change: an optional console line and the
/// signal it raises.
#[derive(Clone, Debug, PartialEq, Eq)]
pub struct StateReport {
    pub line: Option<Line>,
    pub signal: Signal,
}

/// The line shown when the peer asks for renegotiation.
pub fn negotiation_report() -> (r: Line)
    ensures
        r@ == one("[NEGOTIATION]: needed"@, Tone::Plain),
{
    Line::new("[NEGOTIATION]: needed".to_string(), Tone::Plain)
}

/// The style of the line for a signaling state, where one is shown.
pub open spec fn signaling_tone(s: SignalingState) -> Option<Tone> {
    match s {
        SignalingState::Closed => Some(Tone::Plain),
        SignalingState::HaveLocalOffer => Some(Tone::Plain),
        SignalingState::HaveRemoteOffer => Some(Tone::Plain),
        SignalingState::Stable => Some(Tone::Green),
        _ => None,
    }
}

/// Reaction to a signaling state change: the states closed, have-local-offer,
/// have-remote-offer and stable (in green) are shown, as a prefix and the
/// state's name in the same style; the others are not; no signal is raised.
pub fn signaling_report(s: SignalingState) -> (r: StateReport)
    ensures
        r.signal == Signal::Quiet,
        r.line is Some <==> signaling_tone(s) is Some,
        r.line matches Some(l) ==> l@ == two(
            "[SIGNALING STATE]: "@,
            signaling_state_name_spec(s),
            signaling_tone(s)->0,
        ),
{
    let tone = match s {
        SignalingState::Closed => Tone::Plain,
        SignalingState::HaveLocalOffer => Tone::Plain,
        SignalingState::HaveRemoteOffer => Tone::Plain,
        SignalingState::Stable => Tone::Green,
        _ => {
            return StateReport { line: None, signal: Signal::Quiet };
        },
    };
    let l = Line::pair(
        "[SIGNALING STATE]: ".to_string(),
        signaling_state_name(s).to_string(),
        tone,
    );
    StateReport { line: Some(l), signal: Signal::Quiet }
}

/// Reaction to an ICE gathering state change: every state is shown; the
/// complete state in bold green, and only it raises `GatheringComplete`.
pub fn gathering_report(s: IceGatheringState) -> (r: StateReport)
    ensures
        r.line matches Some(l) && l@ == two(
            "[ICE GATHERING STATE]: "@,
            gathering_state_name_spec(s),
            if s == IceGatheringState::Complete {
                Tone::BoldGreen
            } else {
                Tone::Plain
            },
        ),
        r.signal == (if s == IceGatheringState::Complete {
            Signal::GatheringComplete
        } else {
            Signal::Quiet
        }),
{
    let prefix = "[ICE GATHERING STATE]: ".to_string();
    let name = gathering_state_name(s).to_string();
    match s {
        IceGatheringState::Complete => StateReport {
            line: Some(Line::pair(prefix, name, Tone::BoldGreen)),
            signal: Signal::GatheringComplete,
        },
        _ => StateReport { line: Some(Line::pair(prefix, name, Tone::Plain)), signal: Signal::Quiet },
    }
}

/// The style of the line for a peer-connection state.
pub open spec fn connection_tone(s: PeerConnectionState) -> Tone {
    match s {
        PeerConnectionState::Failed => Tone::BoldRed,
        PeerConnectionState::Disconnected => Tone::BoldYellow,
        PeerConnectionState::Connected => Tone::BoldGreen,
        PeerConnectionState::Closed => Tone::BoldYellow,
        PeerConnectionState::New => Tone::BoldBrightBlue,
        PeerConnectionState::Connecting => Tone::BoldBrightGreen,
        PeerConnectionState::Unspecified => Tone::BoldBrightYellow,
    }
}

/// The signal a handler raises for a peer-connection state: failed,
/// disconnected and closed end the session; the camera also reports new and
/// connected, which let it start streaming.
pub open spec fn connection_signal(role: HandlerRole, s: PeerConnectionState) -> Signal {
    match s {
        PeerConnectionState::Failed => Signal::Done,
        PeerConnectionState::Disconnected => Signal::Done,
        PeerConnectionState::Closed => Signal::Done,
        PeerConnectionState::Connected => if role == HandlerRole::Camera {
            Signal::Connected
        } else {
            Signal::Quiet
        },
        PeerConnectionState::New => if role == HandlerRole::Camera {
            Signal::Connected
        } else {
            Signal::Quiet
        },
        _ => Signal::Quiet,
    }
}

/// Reaction of a handler to a peer-connection state change: the state is
/// always shown, in the style of `connection_tone`, and the signal is that
/// of `connection_signal`.
pub fn connection_report(role: HandlerRole, s: PeerConnectionState) -> (r: StateReport)
    ensures
        r.line matches Some(l) && l@ == two(
            "[PEER CONNECTION]: "@,
            connection_state_name_spec(s),
            connection_tone(s),
        ),
        r.signal == connection_signal(role, s),
{
    let camera = match role {
        HandlerRole::Camera => true,
        _ => false,
    };
    let (tone, signal) = match s {
        PeerConnectionState::Failed => (Tone::BoldRed, Signal::Done),
        PeerConnectionState::Disconnected => (Tone::BoldYellow, Signal::Done),
        PeerConnectionState::Connected => (
            Tone::BoldGreen,
            if camera {
                Signal::Connected
            } else {
                Signal::Quiet
            },
        ),
        PeerConnectionState::Closed => (Tone::BoldYellow, Signal::Done),
        PeerConnectionState::New => (
            Tone::BoldBrightBlue,
            if camera {
                Signal::Connected
            } else {
                Signal::Quiet
            },
        ),
        PeerConnectionState::Connecting => (Tone::BoldBrightGreen, Signal::Quiet),
        PeerConnectionState::Unspecified => (Tone::BoldBrightYellow, Signal::Quiet),
    };
    let l = Line::pair(
        "[PEER CONNECTION]: ".to_string(),
        connection_state_name(s).to_string(),
        tone,
    );
    StateReport { line: Some(l), signal }
}


/// Each peer-connection state is shown under its own name: no two states
/// share one, and each is the lower-case WebRTC name of the state.
pub proof fn law_connection_state_names(s: PeerConnectionState, t: PeerConnectionState)
    ensures
        connection_state_name_spec(s) == connection_state_name_spec(t) ==> s == t,
        s == PeerConnectionState::Closed ==> connection_state_name_spec(s) == "closed"@,
        s == PeerConnectionState::Connected ==> connection_state_name_spec(s) == "connected"@,
        s == PeerConnectionState::Failed ==> connection_state_name_spec(s) == "failed"@,
        s == PeerConnectionState::Disconnected ==> connection_state_name_spec(s)
            == "disconnected"@,
        s == PeerConnectionState::New ==> connection_state_name_spec(s) == "new"@,
        s == PeerConnectionState::Connecting ==> connection_state_name_spec(s) == "connecting"@,
        s == PeerConnectionState::Unspecified ==> connection_state_name_spec(s) == "Unspecified"@,
{
    reveal_strlit("Unspecified");
    reveal_strlit("new");
    reveal_strlit("connecting");
    reveal_strlit("connected");
    reveal_strlit("disconnected");
    reveal_strlit("failed");
    reveal_strlit("closed");
    if connection_state_name_spec(s) == connection_state_name_spec(t) {
        assert(connection_state_name_spec(s).len() == connection_state_name_spec(t).len());
        assert(connection_state_name_spec(s)[0] == connection_state_name_spec(t)[0]);
    }
}

/// Each signaling state is shown under its own name, the WebRTC one.
pub proof fn law_signaling_state_names(s: SignalingState, t: SignalingState)
    ensures
        signaling_state_name_spec(s) == signaling_state_name_spec(t) ==> s == t,
        s == SignalingState::Stable ==> signaling_state_name_spec(s) == "stable"@,
        s == SignalingState::HaveLocalOffer ==> signaling_state_name_spec(s)
            == "have-local-offer"@,
        s == SignalingState::HaveRemoteOffer ==> signaling_state_name_spec(s)
            == "have-remote-offer"@,
        s == SignalingState::Closed ==> signaling_state_name_spec(s) == "closed"@,
{
    reveal_strlit("Unspecified");
    reveal_strlit("stable");
    reveal_strlit("have-local-offer");
    reveal_strlit("have-remote-offer");
    reveal_strlit("have-local-pranswer");
    reveal_strlit("have-remote-pranswer");
    reveal_strlit("closed");
    if signaling_state_name_spec(s) == signaling_state_name_spec(t) {
        assert(signaling_state_name_spec(s).len() == signaling_state_name_spec(t).len());
        assert(signaling_state_name_spec(s)[0] == signaling_state_name_spec(t)[0]);
    }
}

/// Each ICE gathering state is shown under its own name, the WebRTC one.
pub proof fn law_gathering_state_names(s: IceGatheringState, t: IceGatheringState)
    ensures
        gathering_state_name_spec(s) == gathering_state_name_spec(t) ==> s == t,
        s == IceGatheringState::Complete ==> gathering_state_name_spec(s) == "complete"@,
        s == IceGatheringState::Gathering ==> gathering_state_name_spec(s) == "gathering"@,
        s == IceGatheringState::New ==> gathering_state_name_spec(s) == "new"@,
{
    reveal_strlit("Unspecified");
    reveal_strlit("new");
    reveal_strlit("gathering");
    reveal_strlit("complete");
    if gathering_state_name_spec(s) == gathering_state_name_spec(t) {
        assert(gathering_state_name_spec(s).len() == gathering_state_name_spec(t).len());
        assert(gathering_state_name_spec(s)[0] == gathering_state_name_spec(t)[0]);
    }
}

/// The styles of the connection lines: failure in red; disconnection and
/// closing in yellow; a usable connection in green; every style bold.
pub proof fn law_connection_tones(s: PeerConnectionState)
    ensures
        s == PeerConnectionState::Failed <==> connection_tone(s) == Tone::BoldRed,
        (s == PeerConnectionState::Disconnected || s == PeerConnectionState::Closed) <==> connection_tone(s)
            == Tone::BoldYellow,
        s == PeerConnectionState::Connected <==> connection_tone(s) == Tone::BoldGreen,
{
}

/// Whatever the handler, losing the peer connection (failed, disconnected or
/// closed) and only that ends the session.
pub proof fn law_connection_loss_ends_session(role: HandlerRole, s: PeerConnectionState)
    ensures
        (connection_signal(role, s) == Signal::Done) <==> (s == PeerConnectionState::Failed || s
            == PeerConnectionState::Disconnected || s == PeerConnectionState::Closed),
{
}

/// Only the camera's handler reports a usable connection, which it does for
/// a new and for a connected peer connection.
pub proof fn law_only_camera_reports_connection(role: HandlerRole, s: PeerConnectionState)
    ensures
        (connection_signal(role, s) == Signal::Connected) <==> (role == HandlerRole::Camera && (s
            == PeerConnectionState::New || s == PeerConnectionState::Connected)),
{
}

} // verus!
