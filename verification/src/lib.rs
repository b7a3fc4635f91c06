//! Passive inventory of PTPv2 clocks: a verified wire codec for the PTPv2
//! message formats, a deduplicated per-(clock, domain) observation store with
//! exactly-once discovery signalling, and the pure decision logic of the
//! correlation loop that ties the two together.

use vstd::prelude::*;

pub mod messages;
pub mod ptphost;
pub mod ptpv2;
pub mod storage;

use crate::ptphost::PtpHostFlag;
use crate::ptpv2::PtpMsg;
use crate::storage::{has_key, spec_record, Storage};

verus! {

/// Maps one decoded message to its `record` step against the store and hands
/// back the discovery signal, if any: Announce is keyed by the grandmaster
/// identity its body advertises, every other kind by the header's clock
/// identity. A Delay_Req seen on the wire still raises its flag but never
/// yields a signal, so it triggers no probe of its own.
pub fn parse_msg(msg: PtpMsg, storage: &mut Storage) -> (r: Option<u8>)
    requires
        old(storage).wf(),
    ensures
        final(storage).wf(),
        match msg {
            PtpMsg::Sync(d) => final(storage)@ == spec_record(
                old(storage)@,
                d.clockidentity,
                d.domain,
                PtpHostFlag::Sync,
            ) && r == (if has_key(old(storage)@, d.clockidentity, d.domain) {
                None::<u8>
            } else {
                Some(d.domain)
            }),
            PtpMsg::DelayReq(d) => final(storage)@ == spec_record(
                old(storage)@,
                d.clockidentity,
                d.domain,
                PtpHostFlag::DelayReq,
            ) && r is None,
            PtpMsg::FollowUp(d) => final(storage)@ == spec_record(
                old(storage)@,
                d.clockidentity,
                d.domain,
                PtpHostFlag::FollowUp,
            ) && r == (if has_key(old(storage)@, d.clockidentity, d.domain) {
                None::<u8>
            } else {
                Some(d.domain)
            }),
            PtpMsg::DelayResp(d) => final(storage)@ == spec_record(
                old(storage)@,
                d.clockidentity,
                d.domain,
                PtpHostFlag::DelayResp,
            ) && r == (if has_key(old(storage)@, d.clockidentity, d.domain) {
                None::<u8>
            } else {
                Some(d.domain)
            }),
            PtpMsg::Announce(d) => final(storage)@ == spec_record(
                old(storage)@,
                d.clockidentity,
                d.domain,
                PtpHostFlag::Announce,
            ) && r == (if has_key(old(storage)@, d.clockidentity, d.domain) {
                None::<u8>
            } else {
                Some(d.domain)
            }),
        },
{
    match msg {
        PtpMsg::Announce(d) => storage.add(d.clockidentity, d.domain, PtpHostFlag::Announce),
        PtpMsg::DelayReq(d) => {
            let _ = storage.add(d.clockidentity, d.domain, PtpHostFlag::DelayReq);
            None
        },
        PtpMsg::DelayResp(d) => storage.add(d.clockidentity, d.domain, PtpHostFlag::DelayResp),
        PtpMsg::FollowUp(d) => storage.add(d.clockidentity, d.domain, PtpHostFlag::FollowUp),
        PtpMsg::Sync(d) => storage.add(d.clockidentity, d.domain, PtpHostFlag::Sync),
    }
}

/// Renders one boolean column of the report: a mark for present, a dash for
/// absent.
pub fn bool_to_str(value: bool) -> (r: String)
    ensures
        value ==> r@ == "+"@,
        !value ==> r@ == "-"@,
{
    if value {
        "+".to_owned()
    } else {
        "-".to_owned()
    }
}

} // verus!
