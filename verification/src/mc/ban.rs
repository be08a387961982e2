//! Banned IPs, as the server lists them in `banned-ips.json`.
use vstd::prelude::*;

use crate::net::IpAddress;

verus! {

/// File name.
pub const FILE: &'static str = "banned-ips.json";

/// A banned IP entry.
#[derive(Debug, Clone)]
pub struct BannedIp {
    /// Banned IP.
    pub ip: IpAddress,
    /// Ban creation time.
    pub created: String,
    /// Ban source.
    pub source: String,
    /// Ban expiry time.
    pub expires: String,
    /// Ban reason.
    pub reason: String,
}

impl BannedIp {
    /// Check if this entry is currently banned.
    ///
    /// Every listed entry counts as banned; the expiry time is not looked at.
    pub fn is_banned(&self) -> (res: bool)
        ensures
            res,
    {
        true
    }

    /// A copy of this entry.
    pub fn duplicate(&self) -> (res: BannedIp)
        ensures
            res == *self,
    {
        BannedIp {
            ip: self.ip,
            created: self.created.clone(),
            source: self.source.clone(),
            expires: self.expires.clone(),
            reason: self.reason.clone(),
        }
    }
}

/// The entry for `ip` among `entries`: the first one with that IP.
pub open spec fn spec_lookup(entries: Seq<BannedIp>, ip: IpAddress) -> Option<BannedIp>
    decreases entries.len(),
{
    if entries.len() == 0 {
        None
    } else if entries[0].ip == ip {
        Some(entries[0])
    } else {
        spec_lookup(entries.drop_first(), ip)
    }
}

/// The entry a list of bans keeps for `ip` when later entries replace earlier ones: the
/// last one with that IP.
pub open spec fn spec_last_entry(entries: Seq<BannedIp>, ip: IpAddress) -> Option<BannedIp>
    decreases entries.len(),
{
    if entries.len() == 0 {
        None
    } else if entries.last().ip == ip {
        Some(entries.last())
    } else {
        spec_last_entry(entries.drop_last(), ip)
    }
}

/// No IP occurs twice.
pub open spec fn distinct_ips(entries: Seq<BannedIp>) -> bool {
    forall|i: int, j: int|
        0 <= i < entries.len() && 0 <= j < entries.len() && i != j ==> #[trigger] entries[i].ip
            != #[trigger] entries[j].ip
}

/// List of banned IPs, one entry per IP.
#[derive(Debug)]
pub struct BannedIps {
    /// Banned IP entries.
    pub ips: Vec<BannedIp>,
}

impl BannedIps {
    /// Each IP has one entry at most.
    pub open spec fn wf(&self) -> bool {
        distinct_ips(self.ips@)
    }

    /// The entry for each IP.
    pub open spec fn entry(&self, ip: IpAddress) -> Option<BannedIp> {
        spec_lookup(self.ips@, ip)
    }

    /// No banned IPs.
    pub fn new() -> (res: Self)
        ensures
            res.wf(),
            forall|ip: IpAddress| res.entry(ip) is None,
    {
        BannedIps { ips: Vec::new() }
    }

    /// Build the list from file entries; an IP listed twice keeps its last entry.
    pub fn from_entries(entries: Vec<BannedIp>) -> (res: Self)
        ensures
            res.wf(),
            forall|ip: IpAddress| res.entry(ip) == spec_last_entry(entries@, ip),
    {
        let mut ips: Vec<BannedIp> = Vec::new();
        let mut i: usize = 0;
        while i < entries.len()
            invariant
                i <= entries.len(),
                distinct_ips(ips@),
                forall|ip: IpAddress| spec_lookup(ips@, ip) == spec_last_entry(
                    entries@.subrange(0, i as int),
                    ip,
                ),
            decreases entries.len() - i,
        {
            let entry = entries[i].duplicate();
            let ghost before = ips@;
            let found = find_ip(&ips, &entry.ip);
            proof {
                assert(entries@.subrange(0, i + 1).drop_last() =~= entries@.subrange(0, i as int));
                assert(entries@.subrange(0, i + 1).last() == entry);
            }
            if let Some(j) = found {
                ips.set(j, entry);
                proof {
                    lemma_lookup_after_set(before, j as int, entry);
                }
            } else {
                ips.push(entry);
                proof {
                    lemma_lookup_after_push(before, entry);
                }
            }
            i = i + 1;
        }
        proof {
            assert(entries@.subrange(0, entries@.len() as int) =~= entries@);
        }
        BannedIps { ips }
    }

    /// Get ban entry if IP if it exists.
    pub fn get(&self, ip: &IpAddress) -> (res: Option<BannedIp>)
        ensures
            res == self.entry(*ip),
    {
        let mut i: usize = 0;
        proof {
            assert(self.ips@.subrange(0, self.ips@.len() as int) =~= self.ips@);
        }
        while i < self.ips.len()
            invariant
                i <= self.ips@.len(),
                self.entry(*ip) == spec_lookup(self.ips@.subrange(i as int, self.ips@.len() as int), *ip),
            decreases self.ips.len() - i,
        {
            let ghost rest = self.ips@.subrange(i as int, self.ips@.len() as int);
            proof {
                assert(rest.drop_first() =~= self.ips@.subrange(i + 1, self.ips@.len() as int));
            }
            if self.ips[i].ip == *ip {
                return Some(self.ips[i].duplicate());
            }
            i = i + 1;
        }
        None
    }

    /// Check whether the given IP is banned.
    pub fn is_banned(&self, ip: &IpAddress) -> (res: bool)
        ensures
            res == self.entry(*ip) is Some,
    {
        match self.get(ip) {
            Some(entry) => entry.is_banned(),
            None => false,
        }
    }
}

/// Position of the entry for `ip`, if any.
fn find_ip(ips: &Vec<BannedIp>, ip: &IpAddress) -> (res: Option<usize>)
    ensures
        res matches Some(j) ==> j < ips@.len() && ips@[j as int].ip == *ip,
        res is None ==> forall|k: int| 0 <= k < ips@.len() ==> ips@[k].ip != *ip,
{
    let mut j: usize = 0;
    while j < ips.len()
        invariant
            j <= ips.len(),
            forall|k: int| 0 <= k < j ==> ips@[k].ip != *ip,
        decreases ips.len() - j,
    {
        if ips[j].ip == *ip {
            return Some(j);
        }
        j = j + 1;
    }
    None
}

impl Default for BannedIps {
    fn default() -> (res: Self)
        ensures
            res.ips@.len() == 0,
    {
        BannedIps { ips: Vec::new() }
    }
}

proof fn lemma_lookup_none(entries: Seq<BannedIp>, ip: IpAddress)
    requires
        forall|k: int| 0 <= k < entries.len() ==> entries[k].ip != ip,
    ensures
        spec_lookup(entries, ip) is None,
    decreases entries.len(),
{
    if entries.len() > 0 {
        assert(entries[0].ip != ip);
        lemma_lookup_none(entries.drop_first(), ip);
    }
}

proof fn lemma_lookup_at(entries: Seq<BannedIp>, k: int)
    requires
        distinct_ips(entries),
        0 <= k < entries.len(),
    ensures
        spec_lookup(entries, entries[k].ip) == Some(entries[k]),
    decreases entries.len(),
{
    if k > 0 {
        assert(entries[0].ip != entries[k].ip);
        let rest = entries.drop_first();
        assert(rest[k - 1] == entries[k]);
        assert(distinct_ips(rest)) by {
            assert forall|i: int, j: int|
                0 <= i < rest.len() && 0 <= j < rest.len() && i != j implies #[trigger] rest[i].ip
                != #[trigger] rest[j].ip by {
                assert(rest[i] == entries[i + 1] && rest[j] == entries[j + 1]);
            }
        }
        lemma_lookup_at(rest, k - 1);
    }
}

proof fn lemma_lookup_some(entries: Seq<BannedIp>, ip: IpAddress)
    requires
        distinct_ips(entries),
    ensures
        spec_lookup(entries, ip) is Some ==> exists|k: int|
            0 <= k < entries.len() && entries[k].ip == ip && spec_lookup(entries, ip) == Some(
                entries[k],
            ),
        spec_lookup(entries, ip) is None ==> forall|k: int|
            0 <= k < entries.len() ==> entries[k].ip != ip,
{
    if exists|k: int| 0 <= k < entries.len() && entries[k].ip == ip {
        let k = choose|k: int| 0 <= k < entries.len() && entries[k].ip == ip;
        lemma_lookup_at(entries, k);
    } else {
        lemma_lookup_none(entries, ip);
    }
}

proof fn lemma_lookup_after_set(entries: Seq<BannedIp>, j: int, entry: BannedIp)
    requires
        distinct_ips(entries),
        0 <= j < entries.len(),
        entries[j].ip == entry.ip,
    ensures
        distinct_ips(entries.update(j, entry)),
        forall|ip: IpAddress|
            spec_lookup(entries.update(j, entry), ip) == if ip == entry.ip {
                Some(entry)
            } else {
                spec_lookup(entries, ip)
            },
{
    let updated = entries.update(j, entry);
    assert(distinct_ips(updated)) by {
        assert forall|a: int, b: int|
            0 <= a < updated.len() && 0 <= b < updated.len() && a != b implies #[trigger] updated[a].ip
            != #[trigger] updated[b].ip by {
            assert(entries[a].ip != entries[b].ip);
        }
    }
    assert forall|ip: IpAddress|
        spec_lookup(updated, ip) == if ip == entry.ip {
            Some(entry)
        } else {
            spec_lookup(entries, ip)
        } by {
        if ip == entry.ip {
            lemma_lookup_at(updated, j);
        } else {
            lemma_lookup_some(entries, ip);
            lemma_lookup_some(updated, ip);
            if spec_lookup(entries, ip) is Some {
                let k = choose|k: int|
                    0 <= k < entries.len() && entries[k].ip == ip && spec_lookup(entries, ip) == Some(
                        entries[k],
                    );
                assert(k != j);
                assert(updated[k] == entries[k]);
                lemma_lookup_at(updated, k);
            } else {
                assert forall|k: int| 0 <= k < updated.len() implies updated[k].ip != ip by {
                    if k != j {
                        assert(updated[k] == entries[k]);
                    }
                }
                lemma_lookup_none(updated, ip);
            }
        }
    }
}

proof fn lemma_lookup_after_push(entries: Seq<BannedIp>, entry: BannedIp)
    requires
        distinct_ips(entries),
        forall|k: int| 0 <= k < entries.len() ==> entries[k].ip != entry.ip,
    ensures
        distinct_ips(entries.push(entry)),
        forall|ip: IpAddress|
            spec_lookup(entries.push(entry), ip) == if ip == entry.ip {
                Some(entry)
            } else {
                spec_lookup(entries, ip)
            },
{
    let pushed = entries.push(entry);
    assert(distinct_ips(pushed)) by {
        assert forall|a: int, b: int|
            0 <= a < pushed.len() && 0 <= b < pushed.len() && a != b implies #[trigger] pushed[a].ip
            != #[trigger] pushed[b].ip by {
            if a < entries.len() && b < entries.len() {
                assert(entries[a].ip != entries[b].ip);
            }
        }
    }
    assert forall|ip: IpAddress|
        spec_lookup(pushed, ip) == if ip == entry.ip {
            Some(entry)
        } else {
            spec_lookup(entries, ip)
        } by {
        if ip == entry.ip {
            lemma_lookup_at(pushed, entries.len() as int);
        } else {
            lemma_lookup_some(entries, ip);
            lemma_lookup_some(pushed, ip);
            if spec_lookup(entries, ip) is Some {
                let k = choose|k: int|
                    0 <= k < entries.len() && entries[k].ip == ip && spec_lookup(entries, ip) == Some(
                        entries[k],
                    );
                assert(pushed[k] == entries[k]);
                lemma_lookup_at(pushed, k);
            } else {
                assert forall|k: int| 0 <= k < pushed.len() implies pushed[k].ip != ip by {
                    if k < entries.len() {
                        assert(pushed[k] == entries[k]);
                    }
                }
                lemma_lookup_none(pushed, ip);
            }
        }
    }
}

} // verus!
