//! The PTPv2 message codec: `decode` a raw datagram into one of the five
//! recognised message kinds, or `build` the wire form of a Delay_Req probe.
//!
//! `spec_decode` is the mathematical meaning of decoding; both the executable
//! decoder and the round-trip law are stated against it.

use vstd::prelude::*;

use crate::messages::{
    be8,
    spec_announce_body,
    spec_built_header,
    spec_header,
    spec_header_bytes,
    PtpAnnouceProtocol,
    PtpHeaderProtocol,
    ANNOUNCE_BODY_LEN,
    DELAY_RESP_BODY_LEN,
    HEADER_LEN,
    MGS_ANNOUNCE,
    MGS_DELAY_REQ,
    MGS_DELAY_RESP,
    MGS_FOLLOW_UP,
    MGS_SYNC,
};
use vstd::slice::slice_index_get;
use vstd::string::StringExecFns;

verus! {

/// Why a datagram was rejected: shorter than its message kind requires, or a
/// messageType nibble that names no recognised kind.
#[derive(Debug, PartialEq, Eq, Structural)]
pub enum DecodeError {
    Truncated,
    UnknownType,
}

/// The identifying fields every non-Announce message carries: the sender's
/// clock identity and the domain, both from the common header.
#[derive(Debug, PartialEq, Eq, Structural, Clone, Copy)]
pub struct PtpData {
    pub clockidentity: u64,
    pub domain: u8,
}

/// The identifying fields of an Announce message: the advertised
/// grandmaster's clock identity from the body, and the domain from the
/// header.
#[derive(Debug, PartialEq, Eq, Structural, Clone, Copy)]
pub struct AnnounceData {
    pub clockidentity: u64,
    pub domain: u8,
}

/// A decoded PTPv2 message, one variant per recognised messageType.
#[derive(Debug, PartialEq, Eq, Structural, Clone, Copy)]
pub enum PtpMsg {
    Sync(PtpData),
    DelayReq(PtpData),
    FollowUp(PtpData),
    DelayResp(PtpData),
    Announce(AnnounceData),
}

/// The messageType nibble: the low four bits of a datagram's first byte.
pub open spec fn spec_msg_type(d: Seq<u8>) -> u8 {
    d[0] % 16
}

/// The five messageType values this codec recognises.
pub open spec fn spec_known_type(t: u8) -> bool {
    t == MGS_SYNC || t == MGS_DELAY_REQ || t == MGS_FOLLOW_UP || t == MGS_DELAY_RESP || t
        == MGS_ANNOUNCE
}

/// How many bytes a datagram of messageType `t` must hold: the 44-byte
/// header, plus the body of the kinds that carry one.
pub open spec fn spec_required_len(t: u8) -> int {
    if t == MGS_ANNOUNCE {
        64
    } else if t == MGS_DELAY_RESP {
        54
    } else {
        44
    }
}

/// What decoding the datagram `d` yields. A header shortfall and a body
/// shortfall are `Truncated`; an unrecognised messageType nibble (judged
/// once the header is present) is `UnknownType`; otherwise the identifying
/// fields are read from the header, and for Announce the grandmaster's
/// identity from the body.
pub open spec fn spec_decode(d: Seq<u8>) -> Result<PtpMsg, DecodeError> {
    if d.len() < 44 {
        Err(DecodeError::Truncated)
    } else if !spec_known_type(spec_msg_type(d)) {
        Err(DecodeError::UnknownType)
    } else if d.len() < spec_required_len(spec_msg_type(d)) {
        Err(DecodeError::Truncated)
    } else {
        let h = spec_header(d);
        let t = spec_msg_type(d);
        if t == MGS_SYNC {
            Ok(PtpMsg::Sync(PtpData { clockidentity: h.clockidentity, domain: h.domainnumber }))
        } else if t == MGS_DELAY_REQ {
            Ok(PtpMsg::DelayReq(PtpData { clockidentity: h.clockidentity, domain: h.domainnumber }))
        } else if t == MGS_FOLLOW_UP {
            Ok(PtpMsg::FollowUp(PtpData { clockidentity: h.clockidentity, domain: h.domainnumber }))
        } else if t == MGS_DELAY_RESP {
            Ok(
                PtpMsg::DelayResp(
                    PtpData { clockidentity: h.clockidentity, domain: h.domainnumber },
                ),
            )
        } else {
            Ok(
                PtpMsg::Announce(
                    AnnounceData {
                        clockidentity: spec_announce_body(d, 44).grandmasterclockidentity,
                        domain: h.domainnumber,
                    },
                ),
            )
        }
    }
}

/// The 44-byte wire form of the Delay_Req probe for (`clockidentity`,
/// `domain`): the fixed header of [`spec_built_header`] with messageType
/// and controlField 0x01, declared messageLength 44 and sequenceId 1.
pub open spec fn spec_delay_req_bytes(clockidentity: u64, domain: u8) -> Seq<u8> {
    spec_header_bytes(
        spec_built_header(MGS_DELAY_REQ, 44, domain, clockidentity, 1, MGS_DELAY_REQ),
    )
}

impl PtpMsg {
    /// Decodes one datagram; pure, and total over all byte strings.
    pub fn parse(data: &[u8]) -> (r: Result<PtpMsg, DecodeError>)
        ensures
            r == spec_decode(data@),
    {
        if data.len() < HEADER_LEN {
            return Err(DecodeError::Truncated);
        }
        let t = *slice_index_get(data, 0) % 16;
        if !(t == MGS_SYNC || t == MGS_DELAY_REQ || t == MGS_FOLLOW_UP || t == MGS_DELAY_RESP || t
            == MGS_ANNOUNCE) {
            return Err(DecodeError::UnknownType);
        }
        if t == MGS_DELAY_RESP && data.len() < HEADER_LEN + DELAY_RESP_BODY_LEN {
            return Err(DecodeError::Truncated);
        }
        if t == MGS_ANNOUNCE && data.len() < HEADER_LEN + ANNOUNCE_BODY_LEN {
            return Err(DecodeError::Truncated);
        }
        let header = PtpHeaderProtocol::parse(data);
        let ptp_data = PtpData { clockidentity: header.clockidentity, domain: header.domainnumber };
        if t == MGS_SYNC {
            Ok(PtpMsg::Sync(ptp_data))
        } else if t == MGS_DELAY_REQ {
            Ok(PtpMsg::DelayReq(ptp_data))
        } else if t == MGS_FOLLOW_UP {
            Ok(PtpMsg::FollowUp(ptp_data))
        } else if t == MGS_DELAY_RESP {
            Ok(PtpMsg::DelayResp(ptp_data))
        } else {
            let body = PtpAnnouceProtocol::parse(data, HEADER_LEN);
            Ok(
                PtpMsg::Announce(
                    AnnounceData {
                        clockidentity: body.grandmasterclockidentity,
                        domain: header.domainnumber,
                    },
                ),
            )
        }
    }

    /// Encodes a probe. Only Delay_Req is ever originated, so only that
    /// variant may be handed in; the result is its fixed 44-byte wire form.
    pub fn build(msg: PtpMsg) -> (r: Vec<u8>)
        requires
            msg is DelayReq,
        ensures
            r@ == spec_delay_req_bytes(msg->DelayReq_0.clockidentity, msg->DelayReq_0.domain),
    {
        match msg {
            PtpMsg::DelayReq(x) => {
                let header = PtpHeaderProtocol::build(
                    MGS_DELAY_REQ,
                    44,
                    x.domain,
                    x.clockidentity,
                    1,
                    MGS_DELAY_REQ,
                );
                header.to_bytes()
            },
            _ => {
                proof {
                    assert(false);
                }
                Vec::new()
            },
        }
    }
}

/// The uppercase hexadecimal digit for the value `n`.
pub open spec fn spec_hex_char(n: int) -> char {
    if n == 0 {
        '0'
    } else if n == 1 {
        '1'
    } else if n == 2 {
        '2'
    } else if n == 3 {
        '3'
    } else if n == 4 {
        '4'
    } else if n == 5 {
        '5'
    } else if n == 6 {
        '6'
    } else if n == 7 {
        '7'
    } else if n == 8 {
        '8'
    } else if n == 9 {
        '9'
    } else if n == 10 {
        'A'
    } else if n == 11 {
        'B'
    } else if n == 12 {
        'C'
    } else if n == 13 {
        'D'
    } else if n == 14 {
        'E'
    } else {
        'F'
    }
}

/// The uppercase hexadecimal digits of a positive value, most significant
/// first, with no leading zeroes; empty for zero.
pub open spec fn spec_hex_digits(x: int) -> Seq<char>
    decreases x,
{
    if x <= 0 {
        Seq::empty()
    } else {
        spec_hex_digits(x / 16).push(spec_hex_char(x % 16))
    }
}

/// A 64-bit value rendered in uppercase hexadecimal, zero as "0".
pub open spec fn spec_hex_u64(x: u64) -> Seq<char> {
    if x == 0 {
        seq!['0']
    } else {
        spec_hex_digits(x as int)
    }
}

/// The one-shot label of a message: its kind's name and the identifying
/// clock identity in uppercase hexadecimal.
pub open spec fn spec_msg_label(m: PtpMsg) -> Seq<char> {
    match m {
        PtpMsg::Sync(x) => "Sync "@ + spec_hex_u64(x.clockidentity),
        PtpMsg::DelayReq(x) => "Delay_Req "@ + spec_hex_u64(x.clockidentity),
        PtpMsg::FollowUp(x) => "Follow_Up "@ + spec_hex_u64(x.clockidentity),
        PtpMsg::DelayResp(x) => "Delay_Resp "@ + spec_hex_u64(x.clockidentity),
        PtpMsg::Announce(x) => "Announce "@ + spec_hex_u64(x.clockidentity),
    }
}

/// The one-character string for the hexadecimal digit `n`.
fn hex_digit_str(n: u8) -> (r: &'static str)
    requires
        n < 16,
    ensures
        r@ =~= seq![spec_hex_char(n as int)],
{
    proof {
        reveal_strlit("0");
        reveal_strlit("1");
        reveal_strlit("2");
        reveal_strlit("3");
        reveal_strlit("4");
        reveal_strlit("5");
        reveal_strlit("6");
        reveal_strlit("7");
        reveal_strlit("8");
        reveal_strlit("9");
        reveal_strlit("A");
        reveal_strlit("B");
        reveal_strlit("C");
        reveal_strlit("D");
        reveal_strlit("E");
        reveal_strlit("F");
    }
    match n {
        0 => "0",
        1 => "1",
        2 => "2",
        3 => "3",
        4 => "4",
        5 => "5",
        6 => "6",
        7 => "7",
        8 => "8",
        9 => "9",
        10 => "A",
        11 => "B",
        12 => "C",
        13 => "D",
        14 => "E",
        _ => "F",
    }
}

/// Renders a positive value in uppercase hexadecimal, most significant
/// digit first.
fn hex_digits(x: u64) -> (r: String)
    requires
        x > 0,
    ensures
        r@ == spec_hex_digits(x as int),
    decreases x,
{
    let mut r = if x / 16 > 0 {
        hex_digits(x / 16)
    } else {
        String::new()
    };
    r.append(hex_digit_str((x % 16) as u8));
    proof {
        assert(((x / 16) as int) == (x as int) / 16);
        assert(((x % 16) as int) == (x as int) % 16);
        assert(spec_hex_digits(x as int) == spec_hex_digits((x as int) / 16).push(
            spec_hex_char((x as int) % 16),
        ));
        assert(r@ =~= spec_hex_digits(x as int));
    }
    r
}

/// Renders a 64-bit value in uppercase hexadecimal, zero as "0".
fn hex_u64(x: u64) -> (r: String)
    ensures
        r@ == spec_hex_u64(x),
{
    if x == 0 {
        proof {
            reveal_strlit("0");
        }
        let r = "0".to_owned();
        proof {
            assert(r@ =~= seq!['0']);
        }
        r
    } else {
        hex_digits(x)
    }
}

impl PtpMsg {
    /// The message's one-line label, the kind's name followed by the clock
    /// identity in uppercase hexadecimal.
    pub fn to_string(&self) -> (r: String)
        ensures
            r@ == spec_msg_label(*self),
    {
        match self {
            PtpMsg::Sync(x) => {
                let mut r = "Sync ".to_owned();
                r.append(hex_u64(x.clockidentity).as_str());
                r
            },
            PtpMsg::DelayReq(x) => {
                let mut r = "Delay_Req ".to_owned();
                r.append(hex_u64(x.clockidentity).as_str());
                r
            },
            PtpMsg::FollowUp(x) => {
                let mut r = "Follow_Up ".to_owned();
                r.append(hex_u64(x.clockidentity).as_str());
                r
            },
            PtpMsg::DelayResp(x) => {
                let mut r = "Delay_Resp ".to_owned();
                r.append(hex_u64(x.clockidentity).as_str());
                r
            },
            PtpMsg::Announce(x) => {
                let mut r = "Announce ".to_owned();
                r.append(hex_u64(x.clockidentity).as_str());
                r
            },
        }
    }
}

/// Splitting a 64-bit value into its eight big-endian bytes and reading them
/// back yields the value again.
proof fn lemma_u64_bytes_roundtrip(x: u64)
    ensures
        ((x / 0x100000000000000) % 0x100) * 0x100000000000000 + ((x / 0x1000000000000) % 0x100)
            * 0x1000000000000 + ((x / 0x10000000000) % 0x100) * 0x10000000000 + ((x / 0x100000000)
            % 0x100) * 0x100000000 + ((x / 0x1000000) % 0x100) * 0x1000000 + ((x / 0x10000) % 0x100)
            * 0x10000 + ((x / 0x100) % 0x100) * 0x100 + (x % 0x100) == x,
{
    assert(((x / 0x100000000000000) % 0x100) * 0x100000000000000 + ((x / 0x1000000000000) % 0x100)
        * 0x1000000000000 + ((x / 0x10000000000) % 0x100) * 0x10000000000 + ((x / 0x100000000)
        % 0x100) * 0x100000000 + ((x / 0x1000000) % 0x100) * 0x1000000 + ((x / 0x10000) % 0x100)
        * 0x10000 + ((x / 0x100) % 0x100) * 0x100 + (x % 0x100) == x) by (bit_vector);
}

/// Round-trip law: decoding an encoded Delay_Req probe reproduces its
/// identifying fields — the clock identity and the domain it was built from.
pub proof fn lemma_delay_req_round_trip(clockidentity: u64, domain: u8)
    ensures
        spec_decode(spec_delay_req_bytes(clockidentity, domain)) == Ok::<PtpMsg, DecodeError>(
            PtpMsg::DelayReq(PtpData { clockidentity, domain }),
        ),
{
    let d = spec_delay_req_bytes(clockidentity, domain);
    assert(d.len() == 44);
    assert(d[0] == 1);
    assert(spec_msg_type(d) == MGS_DELAY_REQ);
    assert(d[4] == domain);
    lemma_u64_bytes_roundtrip(clockidentity);
    assert(be8(d, 20) == clockidentity);
    assert(spec_header(d).clockidentity == clockidentity);
    assert(spec_header(d).domainnumber == domain);
}

/// Truncation law: no datagram shorter than the 34-byte common PTPv2 header
/// prefix can decode; such a buffer always fails with `Truncated`.
pub proof fn lemma_short_datagram_truncated(d: Seq<u8>)
    requires
        d.len() < 34,
    ensures
        spec_decode(d) == Err::<PtpMsg, DecodeError>(DecodeError::Truncated),
{
}

/// Unknown-type law: a datagram long enough to carry the header whose
/// messageType nibble is none of the five recognised values always fails
/// with `UnknownType`.
pub proof fn lemma_unknown_type_rejected(d: Seq<u8>)
    requires
        d.len() >= 44,
        !spec_known_type(spec_msg_type(d)),
    ensures
        spec_decode(d) == Err::<PtpMsg, DecodeError>(DecodeError::UnknownType),
{
}

} // verus!
