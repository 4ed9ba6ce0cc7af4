use dc::config::{
    banner, default_name, listening_report, default_target, ice_servers, local_ip_or_loopback, log_entry_line,
    logger_closing_line, logger_connected_line, sdp_mode, sdp_mode_labels, title,
    udp_bind_address, Program, SdpMode, SIGNALING_URL, VIDEO_LISTENER,
};
use dc::report::{Line, Piece, Tone};
use dc::session::Flow;

fn line(text: &str, tone: Tone) -> Line {
    Line { pieces: vec![Piece { text: text.to_string(), tone }] }
}

#[test]
fn waiter_uses_only_google_stun() {
    let s = ice_servers(Flow::Waiter);
    assert_eq!(s.len(), 1);
    assert_eq!(s[0].urls, vec!["stun:stun.l.google.com:19302".to_string()]);
    assert_eq!(s[0].username, "");
    assert_eq!(s[0].credential, "");
}

#[test]
fn other_flows_use_relay_servers_first() {
    for flow in [Flow::Answerer { restart: true }, Flow::Offerer, Flow::Slave, Flow::Camera] {
        let s = ice_servers(flow);
        assert_eq!(s.len(), 3);
        assert_eq!(s[0].urls, vec!["stun:fr-turn8.xirsys.com".to_string()]);
        assert_eq!(s[1].urls.len(), 6);
        assert_eq!(s[1].urls[0], "turn:fr-turn8.xirsys.com:3478?transport=udp");
        assert_eq!(s[1].urls[5], "turn:fr-turn8.xirsys.com:80?transport=udp");
        assert_eq!(s[1].credential, "d05d03e4-1d7f-11f1-b1bb-be96737d4d7e");
        assert!(s[1].username.starts_with("xrlEivlk"));
        assert_eq!(s[2].urls, vec!["stun:stun.l.google.com:19302".to_string()]);
    }
}

#[test]
fn signaling_server_address() {
    assert_eq!(SIGNALING_URL, "ws://yamanote.proxy.rlwy.net:25134");
    assert_eq!(VIDEO_LISTENER, "127.0.0.1:5008");
}

#[test]
fn banners_and_titles() {
    assert_eq!(title(Program::Camera), "-= WebRTC Camera =-");
    assert_eq!(title(Program::Logger), "--== Signaling Server Logger ==--");
    let b = banner(Program::Slave, "0.1.0", "someone");
    assert_eq!(
        b,
        vec![
            line("", Tone::Plain),
            line("-=WebRTC Slave=-", Tone::UnderlineBoldGreen),
            line("", Tone::Plain),
            Line {
                pieces: vec![
                    Piece { text: "version".to_string(), tone: Tone::Yellow },
                    Piece { text: " ".to_string(), tone: Tone::Plain },
                    Piece { text: "0.1.0".to_string(), tone: Tone::Yellow },
                ],
            },
            Line {
                pieces: vec![
                    Piece { text: "someone".to_string(), tone: Tone::ItalicCyan },
                    Piece { text: " ".to_string(), tone: Tone::Plain },
                    Piece { text: "2026y".to_string(), tone: Tone::ItalicCyan },
                ],
            },
            line("", Tone::Plain),
            line("", Tone::Plain),
        ]
    );
}

#[test]
fn mode_menu_and_defaults() {
    assert_eq!(sdp_mode_labels(), vec!["ANSWER", "OFFER"]);
    assert_eq!(sdp_mode(0), SdpMode::Answer);
    assert_eq!(sdp_mode(1), SdpMode::Offer);
    assert_eq!(default_name(Program::Client, SdpMode::Offer), "USER");
    assert_eq!(default_name(Program::Client, SdpMode::Answer), "ROBOT");
    assert_eq!(default_name(Program::Logger, SdpMode::Answer), "LOGGER");
    assert_eq!(default_name(Program::Camera, SdpMode::Answer), "CAMERA");
    assert_eq!(default_name(Program::Waiter, SdpMode::Answer), "ROBOT");
    assert_eq!(default_target(), "ROBOT");
}

#[test]
fn bind_address_of_local_ip() {
    assert_eq!(udp_bind_address([192, 168, 1, 20]), "192.168.1.20:0");
    assert_eq!(udp_bind_address([0, 9, 10, 255]), "0.9.10.255:0");
    assert_eq!(udp_bind_address(local_ip_or_loopback(None)), "127.0.0.1:0");
    assert_eq!(local_ip_or_loopback(Some([10, 0, 0, 7])), [10, 0, 0, 7]);
}

#[test]
fn logger_lines() {
    assert_eq!(logger_connected_line(), line("connected as a logger", Tone::BoldBlue));
    assert_eq!(logger_closing_line(true), line("ctrl+c user closing", Tone::BoldYellow));
    assert_eq!(logger_closing_line(false), line("closing", Tone::BoldYellow));
    assert_eq!(log_entry_line("x joined"), line("x joined", Tone::Italic));
}

#[test]
fn camera_announces_its_video_listener() {
    assert_eq!(
        listening_report(),
        vec![line("listening for video 127.0.0.1:5008", Tone::Plain), line("waiting for connection...", Tone::Plain)]
    );
}
