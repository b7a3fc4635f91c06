//! The deduplicated identity store: an ordered collection of [`PtpHost`]
//! records, at most one per (clock identity, domain number) key. Recording an
//! observation creates the record on first sight — the discovery signal —
//! and only raises flags afterwards, so the signal fires exactly once per key.

use vstd::prelude::*;

use crate::ptphost::{PtpHost, PtpHostFlag, spec_flag, spec_new_host, spec_set_flag};

verus! {

/// Strict ordering of keys: by clock identity first, then by domain number.
pub open spec fn key_below(c1: u64, d1: u8, c2: u64, d2: u8) -> bool {
    c1 < c2 || (c1 == c2 && d1 < d2)
}

/// The records are strictly ascending by key; in particular no key repeats.
pub open spec fn sorted_by_key(s: Seq<PtpHost>) -> bool {
    forall|i: int, j: int|
        0 <= i < j < s.len() ==> key_below(
            s[i].clockidentity,
            s[i].domainnumber,
            s[j].clockidentity,
            s[j].domainnumber,
        )
}

/// Whether some record in `s` carries the key (`c`, `d`).
pub open spec fn has_key(s: Seq<PtpHost>, c: u64, d: u8) -> bool {
    exists|i: int| 0 <= i < s.len() && s[i].clockidentity == c && s[i].domainnumber == d
}

/// Whether a query of key (`c`, `d`) against the records `s` finds the flag
/// selected by `g` raised: the first record with that key decides.
pub open spec fn flag_in(s: Seq<PtpHost>, c: u64, d: u8, g: PtpHostFlag) -> bool
    decreases s.len(),
{
    if s.len() == 0 {
        false
    } else if s[0].clockidentity == c && s[0].domainnumber == d {
        spec_flag(s[0], g)
    } else {
        flag_in(s.drop_first(), c, d, g)
    }
}

/// What one `record` step does to the sequence of records: raise `f` on the
/// record keyed (`c`, `d`), creating it at its sorted position first if no
/// record carries that key yet.
pub open spec fn spec_record(s: Seq<PtpHost>, c: u64, d: u8, f: PtpHostFlag) -> Seq<PtpHost>
    decreases s.len(),
{
    if s.len() == 0 {
        seq![spec_set_flag(spec_new_host(c, d), f)]
    } else if key_below(c, d, s[0].clockidentity, s[0].domainnumber) {
        seq![spec_set_flag(spec_new_host(c, d), f)] + s
    } else if s[0].clockidentity == c && s[0].domainnumber == d {
        seq![spec_set_flag(s[0], f)] + s.drop_first()
    } else {
        seq![s[0]] + spec_record(s.drop_first(), c, d, f)
    }
}

/// The identity store. Owned and mutated by a single consumer; its records
/// stay strictly sorted by key, so each key appears at most once.
pub struct Storage {
    storage: Vec<PtpHost>,
}

impl View for Storage {
    type V = Seq<PtpHost>;

    closed spec fn view(&self) -> Seq<PtpHost> {
        self.storage@
    }
}

impl Storage {
    /// The store's invariant: records strictly ascending by key.
    pub open spec fn wf(&self) -> bool {
        sorted_by_key(self@)
    }

    /// Looks up (`clock`, `domain`). If absent, creates the record with the
    /// given flag raised and returns `Some(domain)` — the discovery signal.
    /// If present, raises the flag (idempotently) and returns `None`.
    pub fn add(&mut self, clock: u64, domain: u8, flag: PtpHostFlag) -> (r: Option<u8>)
        requires
            old(self).wf(),
        ensures
            final(self).wf(),
            final(self)@ == spec_record(old(self)@, clock, domain, flag),
            r == (if has_key(old(self)@, clock, domain) {
                None::<u8>
            } else {
                Some(domain)
            }),
    {
        let ghost s0 = self.storage@;
        let n = self.storage.len();
        let mut i: usize = 0;
        while i < n
            && (self.storage[i].clockidentity < clock || (self.storage[i].clockidentity == clock
                && self.storage[i].domainnumber < domain))
            invariant
                n == self.storage@.len(),
                self.storage@ == s0,
                sorted_by_key(s0),
                i <= n,
                forall|j: int|
                    0 <= j < i ==> key_below(
                        s0[j].clockidentity,
                        s0[j].domainnumber,
                        clock,
                        domain,
                    ),
            decreases n - i,
        {
            i = i + 1;
        }
        if i < n && self.storage[i].clockidentity == clock && self.storage[i].domainnumber
            == domain {
            let mut h = self.storage[i];
            h.set(flag);
            self.storage[i] = h;
            proof {
                lemma_record_is_update(s0, clock, domain, flag, i as int);
                assert(sorted_by_key(self.storage@)) by {
                    assert forall|p: int, q: int|
                        0 <= p < q < self.storage@.len() implies key_below(
                        self.storage@[p].clockidentity,
                        self.storage@[p].domainnumber,
                        self.storage@[q].clockidentity,
                        self.storage@[q].domainnumber,
                    ) by {
                        assert(key_below(
                            s0[p].clockidentity,
                            s0[p].domainnumber,
                            s0[q].clockidentity,
                            s0[q].domainnumber,
                        ));
                    }
                }
            }
            None
        } else {
            let mut h = PtpHost::build(clock, domain);
            h.set(flag);
            self.storage.insert(i, h);
            proof {
                lemma_record_is_insert(s0, clock, domain, flag, i as int);
                assert(!has_key(s0, clock, domain)) by {
                    assert forall|j: int|
                        0 <= j < s0.len() implies !(s0[j].clockidentity == clock
                        && s0[j].domainnumber == domain) by {
                        if j >= i {
                            if i < s0.len() {
                                if j > i {
                                    assert(key_below(
                                        s0[i as int].clockidentity,
                                        s0[i as int].domainnumber,
                                        s0[j].clockidentity,
                                        s0[j].domainnumber,
                                    ));
                                }
                            }
                        }
                    }
                }
                assert(sorted_by_key(self.storage@)) by {
                    let t = self.storage@;
                    assert forall|p: int, q: int|
                        0 <= p < q < t.len() implies key_below(
                        t[p].clockidentity,
                        t[p].domainnumber,
                        t[q].clockidentity,
                        t[q].domainnumber,
                    ) by {
                        if q < i {
                            assert(key_below(
                                s0[p].clockidentity,
                                s0[p].domainnumber,
                                s0[q].clockidentity,
                                s0[q].domainnumber,
                            ));
                        } else if p < i && q == i {
                            assert(key_below(
                                s0[p].clockidentity,
                                s0[p].domainnumber,
                                clock,
                                domain,
                            ));
                        } else if p < i && q > i {
                            assert(key_below(
                                s0[p].clockidentity,
                                s0[p].domainnumber,
                                s0[q - 1].clockidentity,
                                s0[q - 1].domainnumber,
                            ));
                        } else if p == i {
                            assert(key_below(clock, domain, s0[i as int].clockidentity, s0[i as int].domainnumber));
                            if q - 1 > i {
                                assert(key_below(
                                    s0[i as int].clockidentity,
                                    s0[i as int].domainnumber,
                                    s0[q - 1].clockidentity,
                                    s0[q - 1].domainnumber,
                                ));
                            }
                        } else {
                            assert(key_below(
                                s0[p - 1].clockidentity,
                                s0[p - 1].domainnumber,
                                s0[q - 1].clockidentity,
                                s0[q - 1].domainnumber,
                            ));
                        }
                    }
                }
            }
            Some(domain)
        }
    }

    /// Consumes the store, handing out every record in strictly ascending
    /// key order.
    pub fn into_values(self) -> (r: Vec<PtpHost>)
        requires
            self.wf(),
        ensures
            r@ == self@,
            sorted_by_key(r@),
    {
        self.storage
    }

    /// Borrows the records, in strictly ascending key order.
    pub fn values(&self) -> (r: &Vec<PtpHost>)
        requires
            self.wf(),
        ensures
            r@ == self@,
            sorted_by_key(r@),
    {
        &self.storage
    }
}

impl Default for Storage {
    /// The empty store.
    fn default() -> (s: Storage)
        ensures
            s@ == Seq::<PtpHost>::empty(),
            s.wf(),
    {
        Storage { storage: Vec::new() }
    }
}

/// When records `0..i` sit strictly below the key and record `i` carries it,
/// a `record` step updates record `i` in place.
proof fn lemma_record_is_update(s: Seq<PtpHost>, c: u64, d: u8, f: PtpHostFlag, i: int)
    requires
        0 <= i < s.len(),
        forall|j: int| 0 <= j < i ==> key_below(s[j].clockidentity, s[j].domainnumber, c, d),
        s[i].clockidentity == c,
        s[i].domainnumber == d,
    ensures
        spec_record(s, c, d, f) == s.update(i, spec_set_flag(s[i], f)),
        has_key(s, c, d),
    decreases i,
{
    if i == 0 {
        assert(seq![spec_set_flag(s[0], f)] + s.drop_first() =~= s.update(
            0,
            spec_set_flag(s[0], f),
        ));
    } else {
        assert(key_below(s[0].clockidentity, s[0].domainnumber, c, d));
        lemma_record_is_update(s.drop_first(), c, d, f, i - 1);
        assert(seq![s[0]] + s.drop_first().update(i - 1, spec_set_flag(s[i], f)) =~= s.update(
            i,
            spec_set_flag(s[i], f),
        ));
    }
}

/// When records `0..i` sit strictly below the key and record `i` (if any)
/// sits strictly above it, a `record` step inserts the fresh record at `i`.
proof fn lemma_record_is_insert(s: Seq<PtpHost>, c: u64, d: u8, f: PtpHostFlag, i: int)
    requires
        0 <= i <= s.len(),
        forall|j: int| 0 <= j < i ==> key_below(s[j].clockidentity, s[j].domainnumber, c, d),
        i < s.len() ==> !key_below(s[i].clockidentity, s[i].domainnumber, c, d),
        i < s.len() ==> !(s[i].clockidentity == c && s[i].domainnumber == d),
    ensures
        spec_record(s, c, d, f) == s.insert(i, spec_set_flag(spec_new_host(c, d), f)),
    decreases i,
{
    let fresh = spec_set_flag(spec_new_host(c, d), f);
    if s.len() == 0 {
        assert(seq![fresh] =~= s.insert(0, fresh));
    } else if i == 0 {
        assert(key_below(c, d, s[0].clockidentity, s[0].domainnumber));
        assert(seq![fresh] + s =~= s.insert(0, fresh));
    } else {
        assert(key_below(s[0].clockidentity, s[0].domainnumber, c, d));
        lemma_record_is_insert(s.drop_first(), c, d, f, i - 1);
        assert(seq![s[0]] + s.drop_first().insert(i - 1, fresh) =~= s.insert(i, fresh));
    }
}

/// A query can only find a raised flag under a key that some record carries.
proof fn lemma_flag_in_has_key(s: Seq<PtpHost>, c: u64, d: u8, g: PtpHostFlag)
    requires
        flag_in(s, c, d, g),
    ensures
        has_key(s, c, d),
    decreases s.len(),
{
    if s.len() == 0 {
    } else if s[0].clockidentity == c && s[0].domainnumber == d {
        assert(s[0].clockidentity == c && s[0].domainnumber == d);
    } else {
        lemma_flag_in_has_key(s.drop_first(), c, d, g);
        let j = choose|j: int|
            0 <= j < s.drop_first().len() && s.drop_first()[j].clockidentity == c
                && s.drop_first()[j].domainnumber == d;
        assert(s[j + 1].clockidentity == c && s[j + 1].domainnumber == d);
    }
}

/// Each distinct key is discovered exactly once, whatever the order of
/// `record` steps: a step establishes its own key, no step ever removes a
/// key, and (by the contract of [`Storage::add`]) the discovery signal fires
/// precisely on the step whose key was absent.
pub proof fn lemma_discovery_signalled_once(s: Seq<PtpHost>, c: u64, d: u8, f: PtpHostFlag)
    ensures
        has_key(spec_record(s, c, d, f), c, d),
        forall|c2: u64, d2: u8| has_key(s, c2, d2) ==> has_key(spec_record(s, c, d, f), c2, d2),
    decreases s.len(),
{
    let t = spec_record(s, c, d, f);
    if s.len() == 0 {
        assert(t[0].clockidentity == c && t[0].domainnumber == d);
    } else if key_below(c, d, s[0].clockidentity, s[0].domainnumber) {
        assert(t[0].clockidentity == c && t[0].domainnumber == d);
        assert forall|c2: u64, d2: u8| has_key(s, c2, d2) implies has_key(t, c2, d2) by {
            let i = choose|i: int|
                0 <= i < s.len() && s[i].clockidentity == c2 && s[i].domainnumber == d2;
            assert(t[i + 1].clockidentity == c2 && t[i + 1].domainnumber == d2);
        }
    } else if s[0].clockidentity == c && s[0].domainnumber == d {
        assert(t[0].clockidentity == c && t[0].domainnumber == d);
        assert forall|c2: u64, d2: u8| has_key(s, c2, d2) implies has_key(t, c2, d2) by {
            let i = choose|i: int|
                0 <= i < s.len() && s[i].clockidentity == c2 && s[i].domainnumber == d2;
            if i == 0 {
                assert(t[0].clockidentity == c2 && t[0].domainnumber == d2);
            } else {
                assert(t[i].clockidentity == c2 && t[i].domainnumber == d2);
            }
        }
    } else {
        lemma_discovery_signalled_once(s.drop_first(), c, d, f);
        let rest = spec_record(s.drop_first(), c, d, f);
        let j = choose|j: int|
            0 <= j < rest.len() && rest[j].clockidentity == c && rest[j].domainnumber == d;
        assert(t[j + 1].clockidentity == c && t[j + 1].domainnumber == d);
        assert forall|c2: u64, d2: u8| has_key(s, c2, d2) implies has_key(t, c2, d2) by {
            let i = choose|i: int|
                0 <= i < s.len() && s[i].clockidentity == c2 && s[i].domainnumber == d2;
            if i == 0 {
                assert(t[0].clockidentity == c2 && t[0].domainnumber == d2);
            } else {
                assert(s.drop_first()[i - 1].clockidentity == c2 && s.drop_first()[i - 1].domainnumber == d2);
                assert(has_key(s.drop_first(), c2, d2));
                let k = choose|k: int|
                    0 <= k < rest.len() && rest[k].clockidentity == c2 && rest[k].domainnumber
                        == d2;
                assert(t[k + 1].clockidentity == c2 && t[k + 1].domainnumber == d2);
            }
        }
    }
}

/// Flags are monotonic: a flag a query finds raised for a key is still found
/// raised for that key after any further `record` step.
pub proof fn lemma_flags_monotonic(
    s: Seq<PtpHost>,
    c: u64,
    d: u8,
    f: PtpHostFlag,
    c2: u64,
    d2: u8,
    g: PtpHostFlag,
)
    requires
        sorted_by_key(s),
        flag_in(s, c2, d2, g),
    ensures
        flag_in(spec_record(s, c, d, f), c2, d2, g),
    decreases s.len(),
{
    let t = spec_record(s, c, d, f);
    lemma_flag_in_has_key(s, c2, d2, g);
    if s.len() == 0 {
    } else if key_below(c, d, s[0].clockidentity, s[0].domainnumber) {
        let i = choose|i: int|
            0 <= i < s.len() && s[i].clockidentity == c2 && s[i].domainnumber == d2;
        if i > 0 {
            assert(key_below(
                s[0].clockidentity,
                s[0].domainnumber,
                s[i].clockidentity,
                s[i].domainnumber,
            ));
        }
        assert(!(c == c2 && d == d2));
        assert(t.drop_first() =~= s);
    } else if s[0].clockidentity == c && s[0].domainnumber == d {
        assert(t.drop_first() =~= s.drop_first());
        if c2 == c && d2 == d {
            assert(flag_in(s, c2, d2, g) == spec_flag(s[0], g));
            crate::ptphost::lemma_set_flag_monotonic(s[0], f, g);
        }
    } else {
        assert(t.drop_first() =~= spec_record(s.drop_first(), c, d, f));
        if s[0].clockidentity == c2 && s[0].domainnumber == d2 {
            assert(flag_in(t, c2, d2, g) == spec_flag(s[0], g));
        } else {
            assert(sorted_by_key(s.drop_first())) by {
                assert forall|p: int, q: int|
                    0 <= p < q < s.drop_first().len() implies key_below(
                    s.drop_first()[p].clockidentity,
                    s.drop_first()[p].domainnumber,
                    s.drop_first()[q].clockidentity,
                    s.drop_first()[q].domainnumber,
                ) by {
                    assert(key_below(
                        s[p + 1].clockidentity,
                        s[p + 1].domainnumber,
                        s[q + 1].clockidentity,
                        s[q + 1].domainnumber,
                    ));
                }
            }
            lemma_flags_monotonic(s.drop_first(), c, d, f, c2, d2, g);
        }
    }
}

} // verus!
