//! A single discovered PTP host: one record per (clock identity, domain
//! number) key, carrying five independent observation flags that are only
//! ever raised, never cleared.

use vstd::prelude::*;

verus! {

/// One discovered (clock identity, domain) pair together with the message
/// kinds that have been observed for it so far.
#[derive(Debug, Clone, Copy, PartialEq, Eq, Structural)]
pub struct PtpHost {
    pub clockidentity: u64,
    pub domainnumber: u8,
    pub announce: bool,
    pub sync: bool,
    pub follow_up: bool,
    pub delay_req: bool,
    pub delay_resp: bool,
}

/// Selects which observation flag of a [`PtpHost`] a message raises.
pub enum PtpHostFlag {
    Announce,
    Sync,
    FollowUp,
    DelayReq,
    DelayResp,
}

/// The record a fresh key starts from: all observation flags false.
pub open spec fn spec_new_host(clockidentity: u64, domainnumber: u8) -> PtpHost {
    PtpHost {
        clockidentity,
        domainnumber,
        announce: false,
        sync: false,
        follow_up: false,
        delay_req: false,
        delay_resp: false,
    }
}

/// The record `h` with the flag selected by `f` raised; every other field,
/// the key included, is unchanged.
pub open spec fn spec_set_flag(h: PtpHost, f: PtpHostFlag) -> PtpHost {
    match f {
        PtpHostFlag::Announce => PtpHost { announce: true, ..h },
        PtpHostFlag::Sync => PtpHost { sync: true, ..h },
        PtpHostFlag::FollowUp => PtpHost { follow_up: true, ..h },
        PtpHostFlag::DelayReq => PtpHost { delay_req: true, ..h },
        PtpHostFlag::DelayResp => PtpHost { delay_resp: true, ..h },
    }
}

/// Reads the flag of `h` selected by `f`.
pub open spec fn spec_flag(h: PtpHost, f: PtpHostFlag) -> bool {
    match f {
        PtpHostFlag::Announce => h.announce,
        PtpHostFlag::Sync => h.sync,
        PtpHostFlag::FollowUp => h.follow_up,
        PtpHostFlag::DelayReq => h.delay_req,
        PtpHostFlag::DelayResp => h.delay_resp,
    }
}

impl PtpHost {
    /// A fresh record for the given key, with no message kind observed yet.
    pub fn build(clockidentity: u64, domainnumber: u8) -> (h: PtpHost)
        ensures
            h == spec_new_host(clockidentity, domainnumber),
    {
        PtpHost {
            clockidentity,
            domainnumber,
            announce: false,
            sync: false,
            follow_up: false,
            delay_req: false,
            delay_resp: false,
        }
    }

    /// Raises one observation flag in place; the key and the other flags are
    /// untouched, so flags only ever accumulate.
    pub fn set(&mut self, flag: PtpHostFlag)
        ensures
            *final(self) == spec_set_flag(*old(self), flag),
    {
        match flag {
            PtpHostFlag::Announce => self.announce = true,
            PtpHostFlag::Sync => self.sync = true,
            PtpHostFlag::FollowUp => self.follow_up = true,
            PtpHostFlag::DelayReq => self.delay_req = true,
            PtpHostFlag::DelayResp => self.delay_resp = true,
        }
    }
}

/// Raising one flag never lowers another: every flag already set on a record
/// is still set after any further `set`.
pub proof fn lemma_set_flag_monotonic(h: PtpHost, f: PtpHostFlag, g: PtpHostFlag)
    ensures
        spec_flag(h, g) ==> spec_flag(spec_set_flag(h, f), g),
        spec_set_flag(h, f).clockidentity == h.clockidentity,
        spec_set_flag(h, f).domainnumber == h.domainnumber,
{
}

} // verus!
