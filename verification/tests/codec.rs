use ptpscan::messages::{PtpHeaderProtocol, MGS_ANNOUNCE, MGS_DELAY_REQ, MGS_DELAY_RESP, MGS_FOLLOW_UP, MGS_SYNC};
use ptpscan::ptpv2::{AnnounceData, DecodeError, PtpData, PtpMsg};

/// A synthetic datagram: the 44-byte header with the given type nibble,
/// domain and clock identity, followed by `extra` zero body bytes.
fn datagram(msgtype: u8, clockidentity: u64, domain: u8, extra: usize) -> Vec<u8> {
    let mut d = vec![0u8; 44 + extra];
    d[0] = msgtype & 0x0f;
    d[1] = 0x02;
    d[4] = domain;
    d[20..28].copy_from_slice(&clockidentity.to_be_bytes());
    d
}

#[test]
fn header_build() {
    let msg = PtpHeaderProtocol::build(MGS_DELAY_REQ, 44, 123, 0x123, 1, MGS_DELAY_REQ);
    assert_eq!(msg.messagetype, MGS_DELAY_REQ);
    assert_eq!(msg.domainnumber, 123);
    assert_eq!(msg.clockidentity, 0x123);
}

#[test]
fn create() {
    let data = PtpMsg::build(PtpMsg::DelayReq(PtpData { clockidentity: 0x123, domain: 123 }));
    let msg = PtpMsg::parse(&data).unwrap();
    assert!(matches!(msg, PtpMsg::DelayReq(..)));
    if let PtpMsg::DelayReq(x) = msg {
        assert_eq!(x.clockidentity, 0x123);
        assert_eq!(x.domain, 123);
    }
}

#[test]
fn parse_sync() {
    let data = datagram(MGS_SYNC, 0x485b39fffe11a8ab, 0, 0);
    let msg = PtpMsg::parse(&data).unwrap();
    assert!(matches!(msg, PtpMsg::Sync(..)));
    if let PtpMsg::Sync(x) = msg {
        assert_eq!(x.clockidentity, 0x485b39fffe11a8ab);
        assert_eq!(x.domain, 0);
    }
}

#[test]
fn parse_delay_req() {
    let data = datagram(MGS_DELAY_REQ, 0x485b39fffe520449, 3, 0);
    let msg = PtpMsg::parse(&data).unwrap();
    assert!(matches!(msg, PtpMsg::DelayReq(..)));
    if let PtpMsg::DelayReq(x) = msg {
        assert_eq!(x.clockidentity, 0x485b39fffe520449);
        assert_eq!(x.domain, 3);
    }
}

#[test]
fn parse_follow_up() {
    let data = datagram(MGS_FOLLOW_UP, 0x485b39fffe11a8ab, 1, 0);
    let msg = PtpMsg::parse(&data).unwrap();
    assert!(matches!(msg, PtpMsg::FollowUp(..)));
    if let PtpMsg::FollowUp(x) = msg {
        assert_eq!(x.clockidentity, 0x485b39fffe11a8ab);
        assert_eq!(x.domain, 1);
    }
}

#[test]
fn parse_delay_resp() {
    let data = datagram(MGS_DELAY_RESP, 0x485b39fffe11a8ab, 2, 10);
    let msg = PtpMsg::parse(&data).unwrap();
    assert!(matches!(msg, PtpMsg::DelayResp(..)));
    if let PtpMsg::DelayResp(x) = msg {
        assert_eq!(x.clockidentity, 0x485b39fffe11a8ab);
        assert_eq!(x.domain, 2);
    }
}

#[test]
fn parse_announce_takes_grandmaster_identity() {
    // the header names one clock, the body advertises another: the Announce
    // must carry the grandmaster identity from the body
    let mut data = datagram(MGS_ANNOUNCE, 0x1111111111111111, 5, 20);
    data[53..61].copy_from_slice(&0x485b39fffe11a8abu64.to_be_bytes());
    let msg = PtpMsg::parse(&data).unwrap();
    assert!(matches!(msg, PtpMsg::Announce(..)));
    if let PtpMsg::Announce(x) = msg {
        assert_eq!(x.clockidentity, 0x485b39fffe11a8ab);
        assert_eq!(x.domain, 5);
    }
}

#[test]
fn short_buffers_are_truncated() {
    assert_eq!(PtpMsg::parse(&[]), Err(DecodeError::Truncated));
    assert_eq!(PtpMsg::parse(&[0x0b; 1]), Err(DecodeError::Truncated));
    assert_eq!(PtpMsg::parse(&vec![0u8; 33]), Err(DecodeError::Truncated));
    assert_eq!(PtpMsg::parse(&vec![0u8; 43]), Err(DecodeError::Truncated));
}

#[test]
fn short_bodies_are_truncated() {
    // a Delay_Resp needs 10 body bytes, an Announce 20
    let data = datagram(MGS_DELAY_RESP, 0x1, 0, 9);
    assert_eq!(PtpMsg::parse(&data), Err(DecodeError::Truncated));
    let data = datagram(MGS_ANNOUNCE, 0x1, 0, 19);
    assert_eq!(PtpMsg::parse(&data), Err(DecodeError::Truncated));
}

#[test]
fn unknown_types_are_rejected() {
    for t in [0x02u8, 0x03, 0x05, 0x0a, 0x0c, 0x0f] {
        let data = datagram(t, 0x1, 0, 20);
        assert_eq!(PtpMsg::parse(&data), Err(DecodeError::UnknownType));
    }
}

#[test]
fn delay_req_probe_round_trip() {
    let data = PtpMsg::build(PtpMsg::DelayReq(PtpData { clockidentity: 0x123, domain: 7 }));
    let msg = PtpMsg::parse(&data).unwrap();
    assert!(matches!(msg, PtpMsg::DelayReq(..)));
    if let PtpMsg::DelayReq(x) = msg {
        assert_eq!(x.clockidentity, 0x123);
        assert_eq!(x.domain, 7);
    }
}

#[test]
fn probe_wire_form_is_fixed() {
    let data = PtpMsg::build(PtpMsg::DelayReq(PtpData {
        clockidentity: 0x123456789abcdef0,
        domain: 7,
    }));
    assert_eq!(data.len(), 44);
    assert_eq!(data[0], 0x01); // majorSdoId 0, messageType Delay_Req
    assert_eq!(data[1], 0x02); // minorVersion 0, version 2
    assert_eq!(&data[2..4], &[0x00, 44]); // declared messageLength
    assert_eq!(data[4], 7); // domainNumber
    assert_eq!(&data[5..20], &[0u8; 15]); // minorSdoId, flags, correction, typeSpecific
    assert_eq!(&data[20..28], &0x123456789abcdef0u64.to_be_bytes());
    assert_eq!(&data[28..30], &[0x00, 0x01]); // sourcePortId
    assert_eq!(&data[30..32], &[0x00, 0x01]); // sequenceId, fixed at 1
    assert_eq!(data[32], 0x01); // controlField
    assert_eq!(data[33], 127); // logMessagePeriod "not applicable"
    assert_eq!(&data[34..44], &[0u8; 10]); // origin timestamp
}

#[test]
fn display() {
    let data = datagram(MGS_SYNC, 0x485b39fffe11a8ab, 0, 0);
    let msg = PtpMsg::parse(&data).unwrap();
    let s = msg.to_string();
    assert_eq!(s, "Sync 485B39FFFE11A8AB");
}

#[test]
fn display_trims_leading_zeroes() {
    let zero = PtpMsg::DelayReq(PtpData { clockidentity: 0, domain: 0 });
    assert_eq!(zero.to_string(), "Delay_Req 0");
    let announce = PtpMsg::Announce(AnnounceData { clockidentity: 0x0123, domain: 0 });
    assert_eq!(announce.to_string(), "Announce 123");
}

#[test]
fn header_fields_parse_bit_exact() {
    let mut data = vec![0u8; 44];
    data[0] = 0xab; // majorSdoId 0xa, messageType 0xb
    data[1] = 0x12; // minorVersion 1, version 2
    data[2..4].copy_from_slice(&64u16.to_be_bytes());
    data[4] = 9;
    data[5] = 0x44;
    data[6..8].copy_from_slice(&0x0208u16.to_be_bytes());
    data[8..14].copy_from_slice(&[0, 0, 0, 0, 0x12, 0x34]);
    data[14..16].copy_from_slice(&0x5678u16.to_be_bytes());
    data[16..20].copy_from_slice(&0xdeadbeefu32.to_be_bytes());
    data[20..28].copy_from_slice(&0x485b39fffe11a8abu64.to_be_bytes());
    data[28..30].copy_from_slice(&2u16.to_be_bytes());
    data[30..32].copy_from_slice(&515u16.to_be_bytes());
    data[32] = 0x05;
    data[33] = 0x83; // -125 as a signed log message period
    data[34..40].copy_from_slice(&[0, 0, 0x1f, 0x2e, 0x3d, 0x4c]);
    data[40..44].copy_from_slice(&521233408u32.to_be_bytes());
    let h = PtpHeaderProtocol::parse(&data);
    assert_eq!(h.majorsdoid, 0xa);
    assert_eq!(h.messagetype, 0xb);
    assert_eq!(h.minorversionptp, 1);
    assert_eq!(h.versionptp, 2);
    assert_eq!(h.messagelength, 64);
    assert_eq!(h.domainnumber, 9);
    assert_eq!(h.minorsdoid, 0x44);
    assert_eq!(h.flags, 0x0208);
    assert_eq!(h.correction_ns, 0x1234);
    assert_eq!(h.correction_subns, 0x5678);
    assert_eq!(h.messagetypespecific, 0xdeadbeef);
    assert_eq!(h.clockidentity, 0x485b39fffe11a8ab);
    assert_eq!(h.sourceportid, 2);
    assert_eq!(h.sequenceid, 515);
    assert_eq!(h.controlfield, 0x05);
    assert_eq!(h.logmessageperiod, -125);
    assert_eq!(h.origintimestamp_seconds, 0x1f2e3d4c);
    assert_eq!(h.origintimestamp_nanoseconds, 521233408);
}
