//! The DNS answer cache: the process-wide mapping from hostname to the set of
//! IP literals last answered for it. The cache is authoritative for egress
//! policy: the broker reaches only addresses found here, and an entry, once
//! present, is never empty. The external DNS forwarder overwrites an entry on
//! each successful resolution; nothing here evicts.

use crate::util::bytes_eq;
use vstd::prelude::*;

verus! {

/// A cache line: a hostname and the non-empty list of IP literals last
/// answered for it.
type Entry = (Vec<u8>, Vec<Vec<u8>>);

/// The mapping an entry list denotes; the most recently written entry for a
/// hostname wins.
spec fn lookup_entries(entries: Seq<Entry>, host: Seq<u8>) -> Option<Seq<Seq<u8>>>
    decreases entries.len(),
{
    if entries.len() == 0 {
        None
    } else if entries.last().0@ == host {
        Some(entries.last().1.deep_view())
    } else {
        lookup_entries(entries.drop_last(), host)
    }
}

/// Removing an entry for one hostname leaves every other hostname's answer
/// unchanged.
proof fn lemma_lookup_remove(s: Seq<Entry>, k: int, h: Seq<u8>)
    requires
        0 <= k < s.len(),
        s[k].0@ != h,
    ensures
        lookup_entries(s.remove(k), h) == lookup_entries(s, h),
    decreases s.len(),
{
    s.remove_ensures(k);
    if k == s.len() - 1 {
        assert(s.remove(k) =~= s.drop_last());
    } else {
        let t = s.remove(k);
        s.drop_last().remove_ensures(k);
        assert(t.last() == s.last());
        assert(t.drop_last() =~= s.drop_last().remove(k));
        lemma_lookup_remove(s.drop_last(), k, h);
    }
}

pub struct DnsCache {
    entries: Vec<Entry>,
}

impl DnsCache {
    /// Every entry holds a non-empty answer list, and no hostname appears twice.
    #[verifier::type_invariant]
    spec fn wf(self) -> bool {
        &&& forall|i: int|
            0 <= i < self.entries@.len() ==> (#[trigger] self.entries@[i]).1@.len() > 0
        &&& forall|i: int, j: int|
            0 <= i < j < self.entries@.len() ==> self.entries@[i].0@ != self.entries@[j].0@
    }

    /// The hostname-to-answers mapping this cache holds.
    pub closed spec fn lookup(self, host: Seq<u8>) -> Option<Seq<Seq<u8>>> {
        lookup_entries(self.entries@, host)
    }

    /// An empty cache: with nothing resolved yet, all egress is denied.
    pub fn new() -> (cache: Self)
        ensures
            forall|h: Seq<u8>| cache.lookup(h) is None,
    {
        DnsCache { entries: Vec::new() }
    }

    /// Record the answer the DNS forwarder returned for `host`, overwriting
    /// any earlier answer. Successful resolutions are never empty.
    pub fn insert(&mut self, host: Vec<u8>, ips: Vec<Vec<u8>>)
        requires
            ips@.len() > 0,
        ensures
            final(self).lookup(host@) == Some(ips.deep_view()),
            forall|h: Seq<u8>| h != host@ ==> final(self).lookup(h) == old(self).lookup(h),
    {
        proof {
            use_type_invariant(&*self);
        }
        let ghost orig = self.entries@;
        let mut entries: Vec<Entry> = Vec::new();
        core::mem::swap(&mut entries, &mut self.entries);
        let mut found: Option<usize> = None;
        let mut i: usize = 0;
        while i < entries.len()
            invariant
                i <= entries@.len(),
                entries@ == orig,
                match found {
                    Some(k) => k < i && orig[k as int].0@ == host@,
                    None => forall|j: int| 0 <= j < i ==> orig[j].0@ != host@,
                },
            decreases entries@.len() - i,
        {
            if found.is_none() && bytes_eq(&entries[i].0, &host) {
                found = Some(i);
            }
            i += 1;
        }
        let ghost mid = if let Some(k) = found { orig.remove(k as int) } else { orig };
        if let Some(k) = found {
            let _ = entries.remove(k);
            proof {
                orig.remove_ensures(k as int);
            }
        }
        entries.push((host, ips));
        proof {
            // The remaining old entries carry no answer for `host`.
            assert(forall|j: int| 0 <= j < mid.len() ==> (#[trigger] mid[j]).0@ != host@) by {
                if let Some(k) = found {
                    orig.remove_ensures(k as int);
                }
            }
            assert(entries@.drop_last() =~= mid);
            assert(forall|h: Seq<u8>| h != host@ ==> lookup_entries(entries@, h) == lookup_entries(
                mid,
                h,
            ));
            if let Some(k) = found {
                assert forall|h: Seq<u8>| h != host@ implies lookup_entries(mid, h)
                    == lookup_entries(orig, h) by {
                    lemma_lookup_remove(orig, k as int, h);
                }
            }
        }
        self.entries = entries;
    }

    /// The answers cached for `host`, or `None` when `host` was never resolved
    /// (and egress to it is therefore denied). An answer handed out is never
    /// empty.
    pub fn get_ip(&self, host: &Vec<u8>) -> (r: Option<&Vec<Vec<u8>>>)
        ensures
            match r {
                Some(ips) => self.lookup(host@) == Some(ips.deep_view()) && ips@.len() > 0,
                None => self.lookup(host@) is None,
            },
    {
        proof {
            use_type_invariant(&*self);
        }
        let mut i: usize = self.entries.len();
        proof {
            assert(self.entries@.take(i as int) =~= self.entries@);
        }
        while i > 0
            invariant
                i <= self.entries@.len(),
                lookup_entries(self.entries@, host@) == lookup_entries(
                    self.entries@.take(i as int),
                    host@,
                ),
                self.wf(),
            decreases i,
        {
            proof {
                assert(self.entries@.take(i as int).last() == self.entries@[i - 1]);
                assert(self.entries@.take(i as int).drop_last() =~= self.entries@.take(i - 1));
            }
            if bytes_eq(&self.entries[i - 1].0, host) {
                return Some(&self.entries[i - 1].1);
            }
            i -= 1;
        }
        proof {
            assert(self.entries@.take(0) =~= Seq::<Entry>::empty());
        }
        None
    }
}

} // verus!
