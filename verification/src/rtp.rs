//! RTP forwarding for the camera: each UDP datagram from the local video
//! source is parsed as an RTP packet, given the track's SSRC and written to
//! the outgoing track.
use vstd::prelude::*;
use rtc::shared::marshal::Unmarshal;

verus! {

/// An RTP packet: the header fields and the payload (without padding).
#[derive(Clone, Debug, PartialEq, Eq)]
pub struct RtpPacket {
    pub version: u8,
    pub padding: bool,
    pub extension: bool,
    pub marker: bool,
    pub payload_type: u8,
    pub sequence_number: u16,
    pub timestamp: u32,
    pub ssrc: u32,
    pub csrc: Vec<u32>,
    pub extension_profile: u16,
    pub extensions: Vec<(u8, Vec<u8>)>,
    pub extensions_padding: usize,
    pub payload: Vec<u8>,
}

/// An RTP packet over plain values.
pub struct RtpPacketView {
    pub version: u8,
    pub padding: bool,
    pub extension: bool,
    pub marker: bool,
    pub payload_type: u8,
    pub sequence_number: u16,
    pub timestamp: u32,
    pub ssrc: u32,
    pub csrc: Seq<u32>,
    pub extension_profile: u16,
    pub extensions: Seq<(u8, Seq<u8>)>,
    pub extensions_padding: usize,
    pub payload: Seq<u8>,
}

impl View for RtpPacket {
    type V = RtpPacketView;

    open spec fn view(&self) -> RtpPacketView {
        RtpPacketView {
            version: self.version,
            padding: self.padding,
            extension: self.extension,
            marker: self.marker,
            payload_type: self.payload_type,
            sequence_number: self.sequence_number,
            timestamp: self.timestamp,
            ssrc: self.ssrc,
            csrc: self.csrc@,
            extension_profile: self.extension_profile,
            extensions: self.extensions@.map_values(|e: (u8, Vec<u8>)| (e.0, e.1@)),
            extensions_padding: self.extensions_padding,
            payload: self.payload@,
        }
    }
}

/// The outside error of RTP parsing.
#[verifier::external_type_specification]
#[verifier::external_body]
pub struct ExRtcError(rtc::shared::error::Error);

/// What the RTP parser of `rtc` makes of a datagram: the packet, or `None`
/// where the datagram is not a well-formed RTP packet.
pub uninterp spec fn rtp_unmarshal(datagram: Seq<u8>) -> Option<RtpPacketView>;

/// The big-endian value of `d[i..i + 2]`.
pub open spec fn be16(d: Seq<u8>, i: int) -> int {
    d[i] * 256 + d[i + 1]
}

/// The big-endian value of `d[i..i + 4]`.
pub open spec fn be32(d: Seq<u8>, i: int) -> int {
    ((d[i] * 256 + d[i + 1]) * 256 + d[i + 2]) * 256 + d[i + 3]
}

/// The fixed RTP header (RFC 3550, 5.1) as `p` holds it: version, padding,
/// extension and CSRC count in the first octet, marker and payload type in
/// the second, then sequence number, timestamp, SSRC and the CSRC list.
pub open spec fn fixed_header_of(d: Seq<u8>, p: RtpPacketView) -> bool {
    &&& d.len() >= 12 + 4 * (d[0] % 16)
    &&& p.version == d[0] / 64
    &&& p.padding == ((d[0] / 32) % 2 == 1)
    &&& p.extension == ((d[0] / 16) % 2 == 1)
    &&& p.csrc.len() == d[0] % 16
    &&& p.marker == (d[1] >= 128)
    &&& p.payload_type == d[1] % 128
    &&& p.sequence_number == be16(d, 2)
    &&& p.timestamp == be32(d, 4)
    &&& p.ssrc == be32(d, 8)
    &&& forall|k: int| 0 <= k < p.csrc.len() ==> #[trigger] p.csrc[k] == be32(d, 12 + 4 * k)
}

/// `rtp::packet::Packet::unmarshal` (through `rtc`, trait `Unmarshal`) on
/// the datagram's bytes. Trusted: it succeeds exactly where the named parse
/// is defined and then gives it; a datagram shorter than its fixed header
/// and CSRC list is refused; a parsed packet holds the fixed header fields
/// as they stand in the datagram.
#[verifier::external_body]
fn unmarshal_rtp(datagram: &[u8]) -> (r: Result<RtpPacket, rtc::shared::error::Error>)
    ensures
        r is Ok <==> rtp_unmarshal(datagram@) is Some,
        r matches Ok(p) ==> rtp_unmarshal(datagram@) == Some(p@),
        r matches Ok(p) ==> fixed_header_of(datagram@, p@),
        datagram@.len() < 12 ==> r is Err,
{
    let p = rtc::rtp::packet::Packet::unmarshal(&mut bytes::BytesMut::from(datagram))?;
    let h = p.header;
    Ok(RtpPacket {
        version: h.version, padding: h.padding, extension: h.extension, marker: h.marker,
        payload_type: h.payload_type, sequence_number: h.sequence_number,
        timestamp: h.timestamp, ssrc: h.ssrc, csrc: h.csrc,
        extension_profile: h.extension_profile,
        extensions: h.extensions.into_iter().map(|e| (e.id, e.payload.to_vec())).collect(),
        extensions_padding: h.extensions_padding, payload: p.payload.to_vec(),
    })
}

/// `p` with its SSRC replaced.
pub open spec fn with_ssrc(p: RtpPacketView, ssrc: u32) -> RtpPacketView {
    RtpPacketView { ssrc, ..p }
}

/// Gives a parsed packet the track's SSRC, keeping everything else.
pub fn restamp(p: RtpPacket, ssrc: u32) -> (r: RtpPacket)
    ensures
        r@ == with_ssrc(p@, ssrc),
{
    let mut p = p;
    p.ssrc = ssrc;
    p
}

/// What came of one turn of the forwarding loop.
#[derive(Clone, Debug, PartialEq, Eq)]
pub enum ForwardEvent {
    /// A datagram arrived from the video source.
    Datagram(Vec<u8>),
    /// Reading from the video source failed.
    ReceiveFailed,
    /// The last packet was written to the track.
    Written,
    /// Writing the last packet to the track failed.
    WriteFailed,
}

/// What the forwarding loop does next.
#[derive(Debug)]
pub enum ForwardAction {
    /// Write this packet to the track.
    Write(RtpPacket),
    /// The datagram was not RTP; report the error and go on.
    Skip(rtc::shared::error::Error),
    /// Wait for the next datagram.
    Continue,
    /// Leave the loop (and tell the session that forwarding ended).
    Stop,
}

/// Reacts to one turn of the forwarding loop: a datagram is parsed and, if
/// it is RTP, written with the track's SSRC and otherwise skipped; a
/// successful write waits for the next datagram; a failed read or write ends
/// forwarding.
pub fn forward_step(e: ForwardEvent, ssrc: u32) -> (r: ForwardAction)
    ensures
        match e {
            ForwardEvent::Datagram(d) => match r {
                ForwardAction::Write(p) => rtp_unmarshal(d@) matches Some(q) && p@ == with_ssrc(
                    q,
                    ssrc,
                ) && fixed_header_of(d@, q),
                ForwardAction::Skip(_) => rtp_unmarshal(d@) is None,
                _ => false,
            },
            ForwardEvent::Written => r is Continue,
            _ => r is Stop,
        },
{
    match e {
        ForwardEvent::Datagram(d) => match unmarshal_rtp(d.as_slice()) {
            Ok(p) => ForwardAction::Write(restamp(p, ssrc)),
            Err(err) => ForwardAction::Skip(err),
        },
        ForwardEvent::Written => ForwardAction::Continue,
        _ => ForwardAction::Stop,
    }
}


/// A forwarded packet keeps the timing of the datagram it came from (its
/// sequence number and timestamp) and carries the track's SSRC in place of
/// the source's.
pub proof fn law_forwarding_keeps_timing(d: Seq<u8>, q: RtpPacketView, ssrc: u32)
    requires
        fixed_header_of(d, q),
    ensures
        with_ssrc(q, ssrc).ssrc == ssrc,
        with_ssrc(q, ssrc).sequence_number == be16(d, 2),
        with_ssrc(q, ssrc).timestamp == be32(d, 4),
        with_ssrc(q, ssrc).payload == q.payload,
{
}

} // verus!
