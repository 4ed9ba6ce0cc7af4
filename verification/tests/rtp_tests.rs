use dc::rtp::{forward_step, restamp, ForwardAction, ForwardEvent, RtpPacket};

fn datagram() -> Vec<u8> {
    // V=2, no padding, no extension, one CSRC; marker set, PT 96;
    // seq 0x1234, timestamp 0x01020304, SSRC 0xAABBCCDD, CSRC 0x00000007.
    let mut d = vec![0x81, 0xE0, 0x12, 0x34, 0x01, 0x02, 0x03, 0x04, 0xAA, 0xBB, 0xCC, 0xDD, 0, 0, 0, 7];
    d.extend_from_slice(b"payload");
    d
}

#[test]
fn rtp_packets_are_restamped_with_the_track_ssrc() {
    match forward_step(ForwardEvent::Datagram(datagram()), 0x0102_0304) {
        ForwardAction::Write(p) => {
            assert_eq!(p.ssrc, 0x0102_0304);
            assert_eq!(p.version, 2);
            assert!(p.marker);
            assert!(!p.padding);
            assert_eq!(p.payload_type, 96);
            assert_eq!(p.sequence_number, 0x1234);
            assert_eq!(p.timestamp, 0x0102_0304);
            assert_eq!(p.csrc, vec![7]);
            assert_eq!(p.payload, b"payload".to_vec());
        }
        other => panic!("unexpected {:?}", other),
    }
}

#[test]
fn short_datagrams_are_skipped() {
    assert!(matches!(forward_step(ForwardEvent::Datagram(vec![0x80, 0x60, 0, 1]), 5), ForwardAction::Skip(_)));
    assert!(matches!(forward_step(ForwardEvent::Datagram(vec![]), 5), ForwardAction::Skip(_)));
}

#[test]
fn forwarding_stops_on_read_or_write_failure() {
    assert!(matches!(forward_step(ForwardEvent::Written, 1), ForwardAction::Continue));
    assert!(matches!(forward_step(ForwardEvent::ReceiveFailed, 1), ForwardAction::Stop));
    assert!(matches!(forward_step(ForwardEvent::WriteFailed, 1), ForwardAction::Stop));
}

#[test]
fn restamp_changes_only_the_ssrc() {
    let p = RtpPacket {
        version: 2,
        padding: false,
        extension: true,
        marker: false,
        payload_type: 111,
        sequence_number: 9,
        timestamp: 77,
        ssrc: 1,
        csrc: vec![3, 4],
        extension_profile: 0xBEDE,
        extensions: vec![(1, vec![0xaa])],
        extensions_padding: 2,
        payload: vec![1, 2, 3],
    };
    let q = restamp(p.clone(), 42);
    assert_eq!(q, RtpPacket { ssrc: 42, ..p });
}
