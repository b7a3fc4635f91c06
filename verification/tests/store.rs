use ptpscan::bool_to_str;
use ptpscan::parse_msg;
use ptpscan::ptphost::{PtpHost, PtpHostFlag};
use ptpscan::ptpv2::{AnnounceData, PtpData, PtpMsg};
use ptpscan::storage::Storage;

#[test]
fn ptphost() {
    let mut host = PtpHost::build(0x123456, 1);
    assert_eq!(host.clockidentity, 0x123456);
    assert_eq!(host.domainnumber, 1);
    host.set(PtpHostFlag::Sync);
    assert!(host.sync);
}

#[test]
fn storage() {
    let mut storage = Storage::default();
    let r1 = storage.add(1, 127, PtpHostFlag::Announce);
    let r2 = storage.add(1, 127, PtpHostFlag::Sync);
    let r3 = storage.add(2, 127, PtpHostFlag::Announce);

    assert!(r1.is_some());
    assert_eq!(r1.unwrap(), 127);
    assert!(r2.is_none());
    assert!(r3.is_some());
    let mut itr = storage.into_values().into_iter();
    let item_1 = itr.next().unwrap();
    assert!(item_1.sync);
    assert!(item_1.announce);
    assert_eq!(item_1.domainnumber, 127);
    assert!(matches!(itr.next(), Some(..)));
    assert!(matches!(itr.next(), None));
}

#[test]
fn discovery_scenario() {
    // an Announce from (0xAA, 1), a Sync from (0xAA, 1), an Announce from
    // (0xBB, 2): two records, two discovery signals, each exactly once
    let mut storage = Storage::default();
    let r1 = parse_msg(
        PtpMsg::Announce(AnnounceData { clockidentity: 0xAA, domain: 1 }),
        &mut storage,
    );
    assert_eq!(r1, Some(1));
    let r2 = parse_msg(PtpMsg::Sync(PtpData { clockidentity: 0xAA, domain: 1 }), &mut storage);
    assert_eq!(r2, None);
    let r3 = parse_msg(
        PtpMsg::Announce(AnnounceData { clockidentity: 0xBB, domain: 2 }),
        &mut storage,
    );
    assert_eq!(r3, Some(2));

    let v = storage.into_values();
    assert_eq!(v.len(), 2);
    assert_eq!(v[0].clockidentity, 0xAA);
    assert_eq!(v[0].domainnumber, 1);
    assert!(v[0].announce);
    assert!(v[0].sync);
    assert!(!v[0].follow_up);
    assert!(!v[0].delay_req);
    assert!(!v[0].delay_resp);
    assert_eq!(v[1].clockidentity, 0xBB);
    assert_eq!(v[1].domainnumber, 2);
    assert!(v[1].announce);
    assert!(!v[1].sync);
    assert!(!v[1].follow_up);
    assert!(!v[1].delay_req);
    assert!(!v[1].delay_resp);
}

#[test]
fn drain_is_sorted_by_key() {
    let mut storage = Storage::default();
    storage.add(5, 1, PtpHostFlag::Sync);
    storage.add(2, 3, PtpHostFlag::Sync);
    storage.add(2, 1, PtpHostFlag::Announce);
    storage.add(9, 0, PtpHostFlag::DelayResp);
    storage.add(2, 2, PtpHostFlag::FollowUp);
    let v = storage.into_values();
    let keys: Vec<(u64, u8)> = v.iter().map(|h| (h.clockidentity, h.domainnumber)).collect();
    assert_eq!(keys, vec![(2, 1), (2, 2), (2, 3), (5, 1), (9, 0)]);
}

#[test]
fn flags_accumulate_per_key() {
    let mut storage = Storage::default();
    assert_eq!(storage.add(7, 0, PtpHostFlag::FollowUp), Some(0));
    assert_eq!(storage.add(7, 0, PtpHostFlag::Announce), None);
    assert_eq!(storage.add(7, 0, PtpHostFlag::Announce), None);
    assert_eq!(storage.add(7, 0, PtpHostFlag::DelayResp), None);
    let v = storage.into_values();
    assert_eq!(v.len(), 1);
    assert!(v[0].announce);
    assert!(!v[0].sync);
    assert!(v[0].follow_up);
    assert!(!v[0].delay_req);
    assert!(v[0].delay_resp);
}

#[test]
fn same_clock_distinct_domains_are_distinct_keys() {
    let mut storage = Storage::default();
    assert_eq!(storage.add(1, 0, PtpHostFlag::Sync), Some(0));
    assert_eq!(storage.add(1, 1, PtpHostFlag::Sync), Some(1));
    assert_eq!(storage.add(1, 0, PtpHostFlag::Sync), None);
    assert_eq!(storage.values().len(), 2);
}

#[test]
fn delay_req_updates_store_but_never_signals() {
    let mut storage = Storage::default();
    let r = parse_msg(PtpMsg::DelayReq(PtpData { clockidentity: 0xCC, domain: 4 }), &mut storage);
    assert_eq!(r, None);
    let v = storage.into_values();
    assert_eq!(v.len(), 1);
    assert_eq!(v[0].clockidentity, 0xCC);
    assert_eq!(v[0].domainnumber, 4);
    assert!(v[0].delay_req);
    assert!(!v[0].announce);
}

#[test]
fn report_markers() {
    assert_eq!(bool_to_str(true), "+");
    assert_eq!(bool_to_str(false), "-");
}
