//! The programs' fixed settings and console texts: ICE servers, the
//! signaling server, prompts and their defaults, banners, and the UDP
//! address the peer connection binds to.
use vstd::prelude::*;
use crate::report::{Line, LineView, Tone, lines_view, one};
use crate::session::Flow;

verus! {

broadcast use vstd::string::group_string_axioms;

/// The signaling server all programs connect to.
pub const SIGNALING_URL: &'static str = "ws://yamanote.proxy.rlwy.net:25134";

/// The local UDP address the camera receives its video stream on.
pub const VIDEO_LISTENER: &'static str = "127.0.0.1:5008";

/// The lines the camera shows once its video listener is bound, while it
/// waits for the peer connection before forwarding.
pub open spec fn listening_lines() -> Seq<LineView> {
    seq![
        one("listening for video "@ + VIDEO_LISTENER@, Tone::Plain),
        one("waiting for connection..."@, Tone::Plain),
    ]
}

/// The lines the camera shows once its video listener is bound.
pub fn listening_report() -> (r: Vec<Line>)
    ensures
        lines_view(r@) == listening_lines(),
{
    let mut r: Vec<Line> = Vec::new();
    r.push(Line::new("listening for video ".to_string().concat(VIDEO_LISTENER), Tone::Plain));
    r.push(Line::new("waiting for connection...".to_string(), Tone::Plain));
    assert(lines_view(r@) =~= listening_lines());
    r
}

/// An ICE server: its URLs and, for TURN, the credentials.
#[derive(Clone, Debug, PartialEq, Eq)]
pub struct IceServer {
    pub urls: Vec<String>,
    pub username: String,
    pub credential: String,
}

/// An ICE server over plain values.
pub struct IceServerView {
    pub urls: Seq<Seq<char>>,
    pub username: Seq<char>,
    pub credential: Seq<char>,
}

impl View for IceServer {
    type V = IceServerView;

    open spec fn view(&self) -> IceServerView {
        IceServerView {
            urls: self.urls@.map_values(|u: String| u@),
            username: self.username@,
            credential: self.credential@,
        }
    }
}

/// The views of a list of ICE servers.
pub open spec fn servers_view(s: Seq<IceServer>) -> Seq<IceServerView> {
    s.map_values(|x: IceServer| x@)
}

/// Google's public STUN server.
pub open spec fn google_stun() -> IceServerView {
    IceServerView {
        urls: seq!["stun:stun.l.google.com:19302"@],
        username: Seq::empty(),
        credential: Seq::empty(),
    }
}

/// The relay provider's STUN server.
pub open spec fn relay_stun() -> IceServerView {
    IceServerView {
        urls: seq!["stun:fr-turn8.xirsys.com"@],
        username: Seq::empty(),
        credential: Seq::empty(),
    }
}

/// The relay provider's TURN servers, over UDP, TCP and TLS.
pub open spec fn relay_turn() -> IceServerView {
    IceServerView {
        urls: seq![
            "turn:fr-turn8.xirsys.com:3478?transport=udp"@,
            "turn:fr-turn8.xirsys.com:80?transport=tcp"@,
            "turn:fr-turn8.xirsys.com:3478?transport=tcp"@,
            "turns:fr-turn8.xirsys.com:443?transport=tcp"@,
            "turns:fr-turn8.xirsys.com:5349?transport=tcp"@,
            "turn:fr-turn8.xirsys.com:80?transport=udp"@,
        ],
        username: "xrlEivlkdTCQvwPYbCRHDur872L9CNM7DlbAya3tEhbBcn7zMgFFN8q43pP_2v-4AAAAAGmxwT1nd296ZHlr"@,
        credential: "d05d03e4-1d7f-11f1-b1bb-be96737d4d7e"@,
    }
}

/// The ICE servers of a flow: the waiter uses Google's STUN server alone;
/// every other flow the relay provider's STUN and TURN servers, then
/// Google's.
pub open spec fn ice_servers_spec(flow: Flow) -> Seq<IceServerView> {
    if flow == Flow::Waiter {
        seq![google_stun()]
    } else {
        seq![relay_stun(), relay_turn(), google_stun()]
    }
}

/// Only the waiter uses Google's STUN server alone. Every other flow,
/// whether or not the answering client was restarted, uses three servers: a
/// STUN server without credentials, then six TURN URLs with a username and
/// a credential, then Google's STUN server; Google's STUN server is last in
/// every flow.
pub proof fn law_ice_servers(flow: Flow)
    ensures
        ice_servers_spec(flow).len() == 1 <==> flow == Flow::Waiter,
        ice_servers_spec(flow).last().urls == seq!["stun:stun.l.google.com:19302"@],
        ice_servers_spec(flow).last().username.len() == 0,
        flow != Flow::Waiter ==> {
            let s = ice_servers_spec(flow);
            &&& s.len() == 3
            &&& s[0].urls == seq!["stun:fr-turn8.xirsys.com"@]
            &&& s[0].username.len() == 0 && s[0].credential.len() == 0
            &&& s[1].urls.len() == 6
            &&& s[1].username.len() > 0 && s[1].credential.len() > 0
        },
{
    reveal_strlit("");
    reveal_strlit("xrlEivlkdTCQvwPYbCRHDur872L9CNM7DlbAya3tEhbBcn7zMgFFN8q43pP_2v-4AAAAAGmxwT1nd296ZHlr");
    reveal_strlit("d05d03e4-1d7f-11f1-b1bb-be96737d4d7e");
}

fn strings(items: &[&str]) -> (r: Vec<String>)
    ensures
        r@.map_values(|u: String| u@) == items@.map_values(|s: &str| s@),
{
    let mut r: Vec<String> = Vec::new();
    for i in 0..items.len()
        invariant
            r@.len() == i,
            forall|k: int| 0 <= k < i ==> #[trigger] r@[k]@ == items@[k]@,
    {
        let item: &str = items[i];
        r.push(item.to_owned());
    }
    assert(r@.map_values(|u: String| u@) =~= items@.map_values(|s: &str| s@));
    r
}

fn google_stun_server() -> (r: IceServer)
    ensures
        r@ == google_stun(),
{
    let urls = strings(&["stun:stun.l.google.com:19302"]);
    let r = IceServer { urls, username: String::new(), credential: String::new() };
    assert(r@.urls =~= google_stun().urls);
    r
}

/// The ICE servers the peer connection of `flow` is built with.
pub fn ice_servers(flow: Flow) -> (r: Vec<IceServer>)
    ensures
        servers_view(r@) == ice_servers_spec(flow),
{
    let mut r: Vec<IceServer> = Vec::new();
    match flow {
        Flow::Waiter => {},
        _ => {
            let stun = IceServer {
                urls: strings(&["stun:fr-turn8.xirsys.com"]),
                username: String::new(),
                credential: String::new(),
            };
            assert(stun@.urls =~= relay_stun().urls);
            r.push(stun);
            let turn = IceServer {
                urls: strings(
                    &[
                        "turn:fr-turn8.xirsys.com:3478?transport=udp",
                        "turn:fr-turn8.xirsys.com:80?transport=tcp",
                        "turn:fr-turn8.xirsys.com:3478?transport=tcp",
                        "turns:fr-turn8.xirsys.com:443?transport=tcp",
                        "turns:fr-turn8.xirsys.com:5349?transport=tcp",
                        "turn:fr-turn8.xirsys.com:80?transport=udp",
                    ],
                ),
                username: "xrlEivlkdTCQvwPYbCRHDur872L9CNM7DlbAya3tEhbBcn7zMgFFN8q43pP_2v-4AAAAAGmxwT1nd296ZHlr".to_string(),
                credential: "d05d03e4-1d7f-11f1-b1bb-be96737d4d7e".to_string(),
            };
            assert(turn@.urls =~= relay_turn().urls);
            r.push(turn);
        },
    }
    r.push(google_stun_server());
    assert(servers_view(r@) =~= ice_servers_spec(flow));
    r
}


/// The programs of the project.
#[derive(Clone, Copy, Debug, PartialEq, Eq, Structural)]
pub enum Program {
    /// The interactive client, which offers or answers.
    Client,
    /// The signaling server's log reader.
    Logger,
    Waiter,
    Slave,
    Camera,
}

/// The title a program shows on start.
pub open spec fn title_spec(p: Program) -> Seq<char> {
    match p {
        Program::Client => "-=WebRTC Client=-"@,
        Program::Logger => "--== Signaling Server Logger ==--"@,
        Program::Waiter => "-=WebRTC Waiter=-"@,
        Program::Slave => "-=WebRTC Slave=-"@,
        Program::Camera => "-= WebRTC Camera =-"@,
    }
}

/// The title a program shows on start.
pub fn title(p: Program) -> (r: &'static str)
    ensures
        r@ == title_spec(p),
{
    match p {
        Program::Client => "-=WebRTC Client=-",
        Program::Logger => "--== Signaling Server Logger ==--",
        Program::Waiter => "-=WebRTC Waiter=-",
        Program::Slave => "-=WebRTC Slave=-",
        Program::Camera => "-= WebRTC Camera =-",
    }
}

/// The banner a program shows on start: its title, its version and its
/// authors with the year.
pub open spec fn banner_spec(p: Program, version: Seq<char>, authors: Seq<char>) -> Seq<
    LineView,
> {
    seq![
        one(Seq::empty(), Tone::Plain),
        one(title_spec(p), Tone::UnderlineBoldGreen),
        one(Seq::empty(), Tone::Plain),
        seq![("version"@, Tone::Yellow), (" "@, Tone::Plain), (version, Tone::Yellow)],
        seq![(authors, Tone::ItalicCyan), (" "@, Tone::Plain), ("2026y"@, Tone::ItalicCyan)],
        one(Seq::empty(), Tone::Plain),
        one(Seq::empty(), Tone::Plain),
    ]
}

/// The banner a program shows on start.
pub fn banner(p: Program, version: &str, authors: &str) -> (r: Vec<Line>)
    ensures
        lines_view(r@) == banner_spec(p, version@, authors@),
{
    let mut r: Vec<Line> = Vec::new();
    r.push(Line::new(String::new(), Tone::Plain));
    r.push(Line::new(title(p).to_string(), Tone::UnderlineBoldGreen));
    r.push(Line::new(String::new(), Tone::Plain));
    let mut v = Line::new("version".to_string(), Tone::Yellow);
    v.push(" ".to_string(), Tone::Plain);
    v.push(version.to_string(), Tone::Yellow);
    assert(v@ =~= seq![("version"@, Tone::Yellow), (" "@, Tone::Plain), (version@, Tone::Yellow)]);
    r.push(v);
    let mut a = Line::new(authors.to_string(), Tone::ItalicCyan);
    a.push(" ".to_string(), Tone::Plain);
    a.push("2026y".to_string(), Tone::ItalicCyan);
    assert(a@ =~= seq![(authors@, Tone::ItalicCyan), (" "@, Tone::Plain), ("2026y"@, Tone::ItalicCyan)]);
    r.push(a);
    r.push(Line::new(String::new(), Tone::Plain));
    r.push(Line::new(String::new(), Tone::Plain));
    assert(lines_view(r@) =~= banner_spec(p, version@, authors@));
    r
}

/// The two session-description modes the client offers to choose from.
#[derive(Clone, Copy, Debug, PartialEq, Eq, Structural)]
pub enum SdpMode {
    Answer,
    Offer,
}

/// The labels of the client's mode menu, in menu order; the first is the
/// default.
pub fn sdp_mode_labels() -> (r: Vec<&'static str>)
    ensures
        r@.map_values(|s: &str| s@) == seq!["ANSWER"@, "OFFER"@],
{
    let r: Vec<&'static str> = vec!["ANSWER", "OFFER"];
    assert(r@.map_values(|s: &str| s@) =~= seq!["ANSWER"@, "OFFER"@]);
    r
}

/// The mode picked at a menu position.
pub fn sdp_mode(index: usize) -> (r: SdpMode)
    requires
        index < 2,
    ensures
        r == (if index == 0 {
            SdpMode::Answer
        } else {
            SdpMode::Offer
        }),
{
    if index == 0 {
        SdpMode::Answer
    } else {
        SdpMode::Offer
    }
}

/// The name a program proposes for itself; the client's depends on its mode.
pub open spec fn default_name_spec(p: Program, mode: SdpMode) -> Seq<char> {
    match p {
        Program::Client => if mode == SdpMode::Offer {
            "USER"@
        } else {
            "ROBOT"@
        },
        Program::Logger => "LOGGER"@,
        Program::Camera => "CAMERA"@,
        _ => "ROBOT"@,
    }
}

/// The name a program proposes for itself.
pub fn default_name(p: Program, mode: SdpMode) -> (r: &'static str)
    ensures
        r@ == default_name_spec(p, mode),
{
    match p {
        Program::Client => match mode {
            SdpMode::Offer => "USER",
            SdpMode::Answer => "ROBOT",
        },
        Program::Logger => "LOGGER",
        Program::Camera => "CAMERA",
        _ => "ROBOT",
    }
}

/// The peer the offering client proposes to call.
pub fn default_target() -> (r: &'static str)
    ensures
        r@ == "ROBOT"@,
{
    "ROBOT"
}

/// The address used when the machine's own address cannot be found.
pub open spec fn loopback() -> [u8; 4] {
    [127u8, 0u8, 0u8, 1u8]
}

/// The local IPv4 address to use: the one found by probing the network, or
/// the loopback address where none was found.
pub fn local_ip_or_loopback(found: Option<[u8; 4]>) -> (r: [u8; 4])
    ensures
        r == (match found {
            Some(a) => a,
            None => loopback(),
        }),
{
    match found {
        Some(a) => a,
        None => [127u8, 0u8, 0u8, 1u8],
    }
}

/// The decimal digit for `d` (below ten).
pub open spec fn digit_char(d: nat) -> char {
    if d == 0 {
        '0'
    } else if d == 1 {
        '1'
    } else if d == 2 {
        '2'
    } else if d == 3 {
        '3'
    } else if d == 4 {
        '4'
    } else if d == 5 {
        '5'
    } else if d == 6 {
        '6'
    } else if d == 7 {
        '7'
    } else if d == 8 {
        '8'
    } else {
        '9'
    }
}

/// The decimal text of `n`, without leading zeros.
pub open spec fn decimal(n: nat) -> Seq<char>
    decreases n,
{
    if n < 10 {
        seq![digit_char(n)]
    } else {
        decimal(n / 10).push(digit_char(n % 10))
    }
}

fn digit_text(d: u8) -> (r: &'static str)
    requires
        d < 10,
    ensures
        r@ == seq![digit_char(d as nat)],
{
    let r = match d {
        0 => "0",
        1 => "1",
        2 => "2",
        3 => "3",
        4 => "4",
        5 => "5",
        6 => "6",
        7 => "7",
        8 => "8",
        _ => "9",
    };
    proof {
        reveal_strlit("0");
        reveal_strlit("1");
        reveal_strlit("2");
        reveal_strlit("3");
        reveal_strlit("4");
        reveal_strlit("5");
        reveal_strlit("6");
        reveal_strlit("7");
        reveal_strlit("8");
        reveal_strlit("9");
    }
    assert(r@ =~= seq![digit_char(d as nat)]);
    r
}

/// Appends the decimal text of `n` to `s`.
fn push_decimal(s: &mut String, n: u8)
    ensures
        final(s)@ == old(s)@ + decimal(n as nat),
{
    if n >= 100 {
        s.append(digit_text(n / 100));
    }
    if n >= 10 {
        s.append(digit_text((n / 10) % 10));
    }
    s.append(digit_text(n % 10));
    proof {
        let n = n as nat;
        if n >= 100 {
            assert(decimal(n / 100) == seq![digit_char(n / 100)]);
            assert((n / 10) / 10 == n / 100);
            assert(decimal(n / 10) == decimal(n / 100).push(digit_char((n / 10) % 10)));
        } else if n >= 10 {
            assert(decimal(n / 10) == seq![digit_char(n / 10)]);
            assert((n / 10) % 10 == n / 10);
        }
    }
    assert(final(s)@ =~= old(s)@ + decimal(n as nat));
}

/// The dotted-decimal text of an IPv4 address.
pub open spec fn ipv4_text(a: [u8; 4]) -> Seq<char> {
    decimal(a[0] as nat) + "."@ + decimal(a[1] as nat) + "."@ + decimal(a[2] as nat) + "."@
        + decimal(a[3] as nat)
}

/// The UDP address the peer connection binds to: the local address with a
/// port that the system picks.
pub fn udp_bind_address(a: [u8; 4]) -> (r: String)
    ensures
        r@ == ipv4_text(a) + ":0"@,
{
    let mut s = String::new();
    push_decimal(&mut s, a[0]);
    s.append(".");
    push_decimal(&mut s, a[1]);
    s.append(".");
    push_decimal(&mut s, a[2]);
    s.append(".");
    push_decimal(&mut s, a[3]);
    s.append(":0");
    assert(s@ =~= ipv4_text(a) + ":0"@);
    s
}


/// The logger's line once it is registered with the signaling server.
pub fn logger_connected_line() -> (r: Line)
    ensures
        r@ == one("connected as a logger"@, Tone::BoldBlue),
{
    Line::new("connected as a logger".to_string(), Tone::BoldBlue)
}

/// The logger's line for one log entry from the signaling server.
pub fn log_entry_line(entry: &str) -> (r: Line)
    ensures
        r@ == one(entry@, Tone::Italic),
{
    Line::new(entry.to_string(), Tone::Italic)
}

/// The logger's line when it closes, because it was told to or because the
/// user pressed Ctrl-C.
pub fn logger_closing_line(interrupted: bool) -> (r: Line)
    ensures
        r@ == one(
            if interrupted {
                "ctrl+c user closing"@
            } else {
                "closing"@
            },
            Tone::BoldYellow,
        ),
{
    if interrupted {
        Line::new("ctrl+c user closing".to_string(), Tone::BoldYellow)
    } else {
        Line::new("closing".to_string(), Tone::BoldYellow)
    }
}

} // verus!
