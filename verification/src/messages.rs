//! Bit-exact big-endian layouts of the PTPv2 common header and of the
//! Announce message body, with verified readers and a verified writer.
//!
//! The header occupies bytes `0..44` of a datagram: two nibble pairs, then
//! fixed-width big-endian fields up to and including the origin timestamp.
//! The Announce body occupies the 20 bytes that follow the header.

use vstd::prelude::*;

use vstd::slice::slice_index_get;

verus! {

pub const MGS_SYNC: u8 = 0x00;

pub const MGS_DELAY_REQ: u8 = 0x01;

pub const MGS_FOLLOW_UP: u8 = 0x08;

pub const MGS_DELAY_RESP: u8 = 0x09;

pub const MGS_ANNOUNCE: u8 = 0x0b;

/// Number of bytes of the common header, origin timestamp included.
pub const HEADER_LEN: usize = 44;

/// Number of bytes of the Announce message body.
pub const ANNOUNCE_BODY_LEN: usize = 20;

/// Number of bytes of the Delay_Resp message body.
pub const DELAY_RESP_BODY_LEN: usize = 10;

/// The big-endian value of the two bytes of `s` starting at `i`.
pub open spec fn be2(s: Seq<u8>, i: int) -> int {
    s[i] * 0x100 + s[i + 1]
}

/// The big-endian value of the four bytes of `s` starting at `i`.
pub open spec fn be4(s: Seq<u8>, i: int) -> int {
    s[i] * 0x1000000 + s[i + 1] * 0x10000 + s[i + 2] * 0x100 + s[i + 3]
}

/// The big-endian value of the six bytes of `s` starting at `i`.
pub open spec fn be6(s: Seq<u8>, i: int) -> int {
    s[i] * 0x10000000000 + s[i + 1] * 0x100000000 + s[i + 2] * 0x1000000 + s[i + 3] * 0x10000 + s[
        i + 4
    ] * 0x100 + s[i + 5]
}

/// The big-endian value of the eight bytes of `s` starting at `i`.
pub open spec fn be8(s: Seq<u8>, i: int) -> int {
    s[i] * 0x100000000000000 + s[i + 1] * 0x1000000000000 + s[i + 2] * 0x10000000000 + s[i + 3]
        * 0x100000000 + s[i + 4] * 0x1000000 + s[i + 5] * 0x10000 + s[i + 6] * 0x100 + s[i + 7]
}

/// The PTPv2 common header, one field per wire field, origin timestamp
/// included. `correction_ns`, `origintimestamp_seconds` hold 48-bit values.
#[derive(Debug, PartialEq, Eq, Structural)]
pub struct PtpHeaderProtocol {
    pub majorsdoid: u8,
    pub messagetype: u8,
    pub minorversionptp: u8,
    pub versionptp: u8,
    pub messagelength: u16,
    pub domainnumber: u8,
    pub minorsdoid: u8,
    pub flags: u16,
    pub correction_ns: u64,
    pub correction_subns: u16,
    pub messagetypespecific: u32,
    pub clockidentity: u64,
    pub sourceportid: u16,
    pub sequenceid: u16,
    pub controlfield: u8,
    pub logmessageperiod: i8,
    pub origintimestamp_seconds: u64,
    pub origintimestamp_nanoseconds: u32,
}

/// The Announce message body that follows the common header.
#[derive(Debug, PartialEq, Eq, Structural)]
pub struct PtpAnnouceProtocol {
    pub origincurrentutcoffset: u16,
    pub priority1: u8,
    pub grandmasterclockclass: u8,
    pub grandmasterclockaccuracy: u8,
    pub grandmasterclockvariance: u16,
    pub priority2: u8,
    pub grandmasterclockidentity: u64,
    pub localstepsremoved: u16,
    pub timesource: u8,
}

/// The header encoded in bytes `0..44` of `d`.
pub open spec fn spec_header(d: Seq<u8>) -> PtpHeaderProtocol {
    PtpHeaderProtocol {
        majorsdoid: d[0] / 16,
        messagetype: d[0] % 16,
        minorversionptp: d[1] / 16,
        versionptp: d[1] % 16,
        messagelength: be2(d, 2) as u16,
        domainnumber: d[4],
        minorsdoid: d[5],
        flags: be2(d, 6) as u16,
        correction_ns: be6(d, 8) as u64,
        correction_subns: be2(d, 14) as u16,
        messagetypespecific: be4(d, 16) as u32,
        clockidentity: be8(d, 20) as u64,
        sourceportid: be2(d, 28) as u16,
        sequenceid: be2(d, 30) as u16,
        controlfield: d[32],
        logmessageperiod: (if d[33] < 128 {
            d[33] as i8
        } else {
            ((d[33] as int) - 256) as i8
        }),
        origintimestamp_seconds: be6(d, 34) as u64,
        origintimestamp_nanoseconds: be4(d, 40) as u32,
    }
}

/// The Announce body encoded in the 20 bytes of `d` starting at `base`
/// (one reserved byte sits between the UTC offset and priority1).
pub open spec fn spec_announce_body(d: Seq<u8>, base: int) -> PtpAnnouceProtocol {
    PtpAnnouceProtocol {
        origincurrentutcoffset: be2(d, base) as u16,
        priority1: d[base + 3],
        grandmasterclockclass: d[base + 4],
        grandmasterclockaccuracy: d[base + 5],
        grandmasterclockvariance: be2(d, base + 6) as u16,
        priority2: d[base + 8],
        grandmasterclockidentity: be8(d, base + 9) as u64,
        localstepsremoved: be2(d, base + 17) as u16,
        timesource: d[base + 19],
    }
}

/// Reads two bytes of `d` at `i` as a big-endian value.
fn read_be_u16(d: &[u8], i: usize) -> (r: u16)
    requires
        i + 2 <= d.len(),
    ensures
        r as int == be2(d@, i as int),
{
    let b0 = *slice_index_get(d, i);
    let b1 = *slice_index_get(d, i + 1);
    (b0 as u16) * 0x100 + (b1 as u16)
}

/// Reads four bytes of `d` at `i` as a big-endian value.
fn read_be_u32(d: &[u8], i: usize) -> (r: u32)
    requires
        i + 4 <= d.len(),
    ensures
        r as int == be4(d@, i as int),
{
    let b0 = *slice_index_get(d, i);
    let b1 = *slice_index_get(d, i + 1);
    let b2 = *slice_index_get(d, i + 2);
    let b3 = *slice_index_get(d, i + 3);
    (b0 as u32) * 0x1000000 + (b1 as u32) * 0x10000 + (b2 as u32) * 0x100 + (b3 as u32)
}

/// Reads six bytes of `d` at `i` as a big-endian value.
fn read_be_u48(d: &[u8], i: usize) -> (r: u64)
    requires
        i + 6 <= d.len(),
    ensures
        r as int == be6(d@, i as int),
{
    let b0 = *slice_index_get(d, i);
    let b1 = *slice_index_get(d, i + 1);
    let b2 = *slice_index_get(d, i + 2);
    let b3 = *slice_index_get(d, i + 3);
    let b4 = *slice_index_get(d, i + 4);
    let b5 = *slice_index_get(d, i + 5);
    (b0 as u64) * 0x10000000000 + (b1 as u64) * 0x100000000 + (b2 as u64) * 0x1000000 + (b3 as u64)
        * 0x10000 + (b4 as u64) * 0x100 + (b5 as u64)
}

/// Reads eight bytes of `d` at `i` as a big-endian value.
fn read_be_u64(d: &[u8], i: usize) -> (r: u64)
    requires
        i + 8 <= d.len(),
    ensures
        r as int == be8(d@, i as int),
{
    let b0 = *slice_index_get(d, i);
    let b1 = *slice_index_get(d, i + 1);
    let b2 = *slice_index_get(d, i + 2);
    let b3 = *slice_index_get(d, i + 3);
    let b4 = *slice_index_get(d, i + 4);
    let b5 = *slice_index_get(d, i + 5);
    let b6 = *slice_index_get(d, i + 6);
    let b7 = *slice_index_get(d, i + 7);
    (b0 as u64) * 0x100000000000000 + (b1 as u64) * 0x1000000000000 + (b2 as u64) * 0x10000000000
        + (b3 as u64) * 0x100000000 + (b4 as u64) * 0x1000000 + (b5 as u64) * 0x10000 + (b6 as u64)
        * 0x100 + (b7 as u64)
}

/// What [`PtpHeaderProtocol::build`] yields: the fields that the probe
/// fixes are filled in, the caller chooses the rest.
pub open spec fn spec_built_header(
    messagetype: u8,
    messagelength: u16,
    domainnumber: u8,
    clockidentity: u64,
    sequenceid: u16,
    controlfield: u8,
) -> PtpHeaderProtocol {
    PtpHeaderProtocol {
        majorsdoid: 0,
        messagetype,
        minorversionptp: 0,
        versionptp: 2,
        messagelength,
        domainnumber,
        minorsdoid: 0,
        flags: 0,
        correction_ns: 0,
        correction_subns: 0,
        messagetypespecific: 0,
        clockidentity,
        sourceportid: 1,
        sequenceid,
        controlfield,
        logmessageperiod: 127,
        origintimestamp_seconds: 0,
        origintimestamp_nanoseconds: 0,
    }
}

/// Byte `i` of the 44-byte wire form of header `h`. Each multi-byte field is
/// written big-endian; 4-bit fields share a byte, high nibble first.
pub open spec fn spec_header_byte(h: PtpHeaderProtocol, i: int) -> u8 {
    if i == 0 {
        (((h.majorsdoid % 16) as int) * 16 + ((h.messagetype % 16) as int)) as u8
    } else if i == 1 {
        (((h.minorversionptp % 16) as int) * 16 + ((h.versionptp % 16) as int)) as u8
    } else if i == 2 {
        (h.messagelength / 0x100) as u8
    } else if i == 3 {
        (h.messagelength % 0x100) as u8
    } else if i == 4 {
        h.domainnumber
    } else if i == 5 {
        h.minorsdoid
    } else if i == 6 {
        (h.flags / 0x100) as u8
    } else if i == 7 {
        (h.flags % 0x100) as u8
    } else if i == 8 {
        ((h.correction_ns / 0x10000000000) % 0x100) as u8
    } else if i == 9 {
        ((h.correction_ns / 0x100000000) % 0x100) as u8
    } else if i == 10 {
        ((h.correction_ns / 0x1000000) % 0x100) as u8
    } else if i == 11 {
        ((h.correction_ns / 0x10000) % 0x100) as u8
    } else if i == 12 {
        ((h.correction_ns / 0x100) % 0x100) as u8
    } else if i == 13 {
        (h.correction_ns % 0x100) as u8
    } else if i == 14 {
        (h.correction_subns / 0x100) as u8
    } else if i == 15 {
        (h.correction_subns % 0x100) as u8
    } else if i == 16 {
        ((h.messagetypespecific / 0x1000000) % 0x100) as u8
    } else if i == 17 {
        ((h.messagetypespecific / 0x10000) % 0x100) as u8
    } else if i == 18 {
        ((h.messagetypespecific / 0x100) % 0x100) as u8
    } else if i == 19 {
        (h.messagetypespecific % 0x100) as u8
    } else if i == 20 {
        ((h.clockidentity / 0x100000000000000) % 0x100) as u8
    } else if i == 21 {
        ((h.clockidentity / 0x1000000000000) % 0x100) as u8
    } else if i == 22 {
        ((h.clockidentity / 0x10000000000) % 0x100) as u8
    } else if i == 23 {
        ((h.clockidentity / 0x100000000) % 0x100) as u8
    } else if i == 24 {
        ((h.clockidentity / 0x1000000) % 0x100) as u8
    } else if i == 25 {
        ((h.clockidentity / 0x10000) % 0x100) as u8
    } else if i == 26 {
        ((h.clockidentity / 0x100) % 0x100) as u8
    } else if i == 27 {
        (h.clockidentity % 0x100) as u8
    } else if i == 28 {
        (h.sourceportid / 0x100) as u8
    } else if i == 29 {
        (h.sourceportid % 0x100) as u8
    } else if i == 30 {
        (h.sequenceid / 0x100) as u8
    } else if i == 31 {
        (h.sequenceid % 0x100) as u8
    } else if i == 32 {
        h.controlfield
    } else if i == 33 {
        ((((h.logmessageperiod as int) + 256) % 256)) as u8
    } else if i == 34 {
        ((h.origintimestamp_seconds / 0x10000000000) % 0x100) as u8
    } else if i == 35 {
        ((h.origintimestamp_seconds / 0x100000000) % 0x100) as u8
    } else if i == 36 {
        ((h.origintimestamp_seconds / 0x1000000) % 0x100) as u8
    } else if i == 37 {
        ((h.origintimestamp_seconds / 0x10000) % 0x100) as u8
    } else if i == 38 {
        ((h.origintimestamp_seconds / 0x100) % 0x100) as u8
    } else if i == 39 {
        (h.origintimestamp_seconds % 0x100) as u8
    } else if i == 40 {
        ((h.origintimestamp_nanoseconds / 0x1000000) % 0x100) as u8
    } else if i == 41 {
        ((h.origintimestamp_nanoseconds / 0x10000) % 0x100) as u8
    } else if i == 42 {
        ((h.origintimestamp_nanoseconds / 0x100) % 0x100) as u8
    } else {
        (h.origintimestamp_nanoseconds % 0x100) as u8
    }
}

/// The whole 44-byte wire form of header `h`.
pub open spec fn spec_header_bytes(h: PtpHeaderProtocol) -> Seq<u8> {
    Seq::new(44, |i: int| spec_header_byte(h, i))
}

impl PtpHeaderProtocol {
    /// A header with the fixed field values every probe uses: PTP version 2,
    /// zero correction and flags, source port 1, zero origin timestamp and
    /// the "not applicable" log message period 127.
    pub fn build(
        messagetype: u8,
        messagelength: u16,
        domainnumber: u8,
        clockidentity: u64,
        sequenceid: u16,
        controlfield: u8,
    ) -> (h: PtpHeaderProtocol)
        ensures
            h == spec_built_header(
                messagetype,
                messagelength,
                domainnumber,
                clockidentity,
                sequenceid,
                controlfield,
            ),
    {
        PtpHeaderProtocol {
            majorsdoid: 0,
            messagetype,
            minorversionptp: 0,
            versionptp: 2,
            messagelength,
            domainnumber,
            minorsdoid: 0,
            flags: 0,
            correction_ns: 0,
            correction_subns: 0,
            messagetypespecific: 0,
            clockidentity,
            sourceportid: 1,
            sequenceid,
            controlfield,
            logmessageperiod: 127,
            origintimestamp_seconds: 0,
            origintimestamp_nanoseconds: 0,
        }
    }

    /// Decodes the header from the first 44 bytes of `d`.
    pub fn parse(d: &[u8]) -> (h: PtpHeaderProtocol)
        requires
            d.len() >= 44,
        ensures
            h == spec_header(d@),
    {
        let b0 = *slice_index_get(d, 0);
        let b1 = *slice_index_get(d, 1);
        let b33 = *slice_index_get(d, 33);
        PtpHeaderProtocol {
            majorsdoid: b0 / 16,
            messagetype: b0 % 16,
            minorversionptp: b1 / 16,
            versionptp: b1 % 16,
            messagelength: read_be_u16(d, 2),
            domainnumber: *slice_index_get(d, 4),
            minorsdoid: *slice_index_get(d, 5),
            flags: read_be_u16(d, 6),
            correction_ns: read_be_u48(d, 8),
            correction_subns: read_be_u16(d, 14),
            messagetypespecific: read_be_u32(d, 16),
            clockidentity: read_be_u64(d, 20),
            sourceportid: read_be_u16(d, 28),
            sequenceid: read_be_u16(d, 30),
            controlfield: *slice_index_get(d, 32),
            logmessageperiod: (if b33 < 128 {
                b33 as i8
            } else {
                ((b33 as i16) - 256) as i8
            }),
            origintimestamp_seconds: read_be_u48(d, 34),
            origintimestamp_nanoseconds: read_be_u32(d, 40),
        }
    }

    /// Encodes the header into its 44-byte wire form.
    pub fn to_bytes(&self) -> (r: Vec<u8>)
        ensures
            r@ == spec_header_bytes(*self),
    {
        let mut r: Vec<u8> = Vec::new();
        r.push((self.majorsdoid % 16) * 16 + (self.messagetype % 16));
        r.push((self.minorversionptp % 16) * 16 + (self.versionptp % 16));
        r.push((self.messagelength / 0x100) as u8);
        r.push((self.messagelength % 0x100) as u8);
        r.push(self.domainnumber);
        r.push(self.minorsdoid);
        r.push((self.flags / 0x100) as u8);
        r.push((self.flags % 0x100) as u8);
        r.push(((self.correction_ns / 0x10000000000) % 0x100) as u8);
        r.push(((self.correction_ns / 0x100000000) % 0x100) as u8);
        r.push(((self.correction_ns / 0x1000000) % 0x100) as u8);
        r.push(((self.correction_ns / 0x10000) % 0x100) as u8);
        r.push(((self.correction_ns / 0x100) % 0x100) as u8);
        r.push((self.correction_ns % 0x100) as u8);
        r.push((self.correction_subns / 0x100) as u8);
        r.push((self.correction_subns % 0x100) as u8);
        r.push(((self.messagetypespecific / 0x1000000) % 0x100) as u8);
        r.push(((self.messagetypespecific / 0x10000) % 0x100) as u8);
        r.push(((self.messagetypespecific / 0x100) % 0x100) as u8);
        r.push((self.messagetypespecific % 0x100) as u8);
        r.push(((self.clockidentity / 0x100000000000000) % 0x100) as u8);
        r.push(((self.clockidentity / 0x1000000000000) % 0x100) as u8);
        r.push(((self.clockidentity / 0x10000000000) % 0x100) as u8);
        r.push(((self.clockidentity / 0x100000000) % 0x100) as u8);
        r.push(((self.clockidentity / 0x1000000) % 0x100) as u8);
        r.push(((self.clockidentity / 0x10000) % 0x100) as u8);
        r.push(((self.clockidentity / 0x100) % 0x100) as u8);
        r.push((self.clockidentity % 0x100) as u8);
        r.push((self.sourceportid / 0x100) as u8);
        r.push((self.sourceportid % 0x100) as u8);
        r.push((self.sequenceid / 0x100) as u8);
        r.push((self.sequenceid % 0x100) as u8);
        r.push(self.controlfield);
        r.push((((self.logmessageperiod as i16) + 256) % 256) as u8);
        r.push(((self.origintimestamp_seconds / 0x10000000000) % 0x100) as u8);
        r.push(((self.origintimestamp_seconds / 0x100000000) % 0x100) as u8);
        r.push(((self.origintimestamp_seconds / 0x1000000) % 0x100) as u8);
        r.push(((self.origintimestamp_seconds / 0x10000) % 0x100) as u8);
        r.push(((self.origintimestamp_seconds / 0x100) % 0x100) as u8);
        r.push((self.origintimestamp_seconds % 0x100) as u8);
        r.push(((self.origintimestamp_nanoseconds / 0x1000000) % 0x100) as u8);
        r.push(((self.origintimestamp_nanoseconds / 0x10000) % 0x100) as u8);
        r.push(((self.origintimestamp_nanoseconds / 0x100) % 0x100) as u8);
        r.push((self.origintimestamp_nanoseconds % 0x100) as u8);
        proof {
            assert(r@ =~= spec_header_bytes(*self));
        }
        r
    }
}

impl PtpAnnouceProtocol {
    /// Decodes the Announce body from the 20 bytes of `d` starting at `base`.
    pub fn parse(d: &[u8], base: usize) -> (b: PtpAnnouceProtocol)
        requires
            base + 20 <= d.len(),
        ensures
            b == spec_announce_body(d@, base as int),
    {
        PtpAnnouceProtocol {
            origincurrentutcoffset: read_be_u16(d, base),
            priority1: *slice_index_get(d, base + 3),
            grandmasterclockclass: *slice_index_get(d, base + 4),
            grandmasterclockaccuracy: *slice_index_get(d, base + 5),
            grandmasterclockvariance: read_be_u16(d, base + 6),
            priority2: *slice_index_get(d, base + 8),
            grandmasterclockidentity: read_be_u64(d, base + 9),
            localstepsremoved: read_be_u16(d, base + 17),
            timesource: *slice_index_get(d, base + 19),
        }
    }
}

} // verus!
