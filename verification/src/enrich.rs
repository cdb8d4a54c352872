//! The enrichment side of the pipeline: the in-memory cache of resolved
//! lookups, the decisions the enrichment worker takes for one newly-seen
//! address, and the single notification that ends every enrichment task.
//!
//! The remote transport itself lives outside the library; its status code
//! and parsed body are handed in as plain values and every decision around
//! them is made here.
use vstd::prelude::*;

use crate::addr::IpAddress;

verus! {

/// The network-ownership and geographic attributes resolved for one
/// address. Any field may be absent.
#[derive(Debug)]
pub struct IpInfoResponse {
    pub ip: Option<String>,
    pub asn: Option<String>,
    pub as_name: Option<String>,
    pub as_domain: Option<String>,
    pub country_code: Option<String>,
    pub country: Option<String>,
    pub continent_code: Option<String>,
    pub continent: Option<String>,
}

/// Why a lookup yielded no attributes. Every variant is absorbed by the
/// pipeline: the notification still fires, with empty attributes.
#[derive(Clone, Copy, PartialEq, Eq, Structural, Debug)]
pub enum LookupError {
    /// No credential is configured for the remote service.
    NotConfigured,
    /// The transport failed before any response arrived.
    RequestFailed,
    /// The response had a non-success status or an unparseable body.
    ResponseInvalid,
}

/// The text of an optional string, for contracts: `String` values carry
/// their character sequences.
pub open spec fn text_of(o: Option<String>) -> Option<Seq<char>> {
    match o {
        Some(s) => Some(s@),
        None => None,
    }
}

/// Two results carry the same attributes, field for field.
pub open spec fn same_info(a: IpInfoResponse, b: IpInfoResponse) -> bool {
    &&& text_of(a.ip) == text_of(b.ip)
    &&& text_of(a.asn) == text_of(b.asn)
    &&& text_of(a.as_name) == text_of(b.as_name)
    &&& text_of(a.as_domain) == text_of(b.as_domain)
    &&& text_of(a.country_code) == text_of(b.country_code)
    &&& text_of(a.country) == text_of(b.country)
    &&& text_of(a.continent_code) == text_of(b.continent_code)
    &&& text_of(a.continent) == text_of(b.continent)
}

fn clone_text(o: &Option<String>) -> (r: Option<String>)
    ensures
        text_of(r) == text_of(*o),
{
    match o {
        Some(s) => Some(s.clone()),
        None => None,
    }
}

impl IpInfoResponse {
    /// A result with every attribute absent.
    pub fn empty() -> (r: Self)
        ensures
            r.ip is None,
            r.asn is None,
            r.as_name is None,
            r.as_domain is None,
            r.country_code is None,
            r.country is None,
            r.continent_code is None,
            r.continent is None,
    {
        IpInfoResponse {
            ip: None,
            asn: None,
            as_name: None,
            as_domain: None,
            country_code: None,
            country: None,
            continent_code: None,
            continent: None,
        }
    }

    /// A field-for-field copy.
    pub fn duplicate(&self) -> (r: Self)
        ensures
            same_info(r, *self),
    {
        IpInfoResponse {
            ip: clone_text(&self.ip),
            asn: clone_text(&self.asn),
            as_name: clone_text(&self.as_name),
            as_domain: clone_text(&self.as_domain),
            country_code: clone_text(&self.country_code),
            country: clone_text(&self.country),
            continent_code: clone_text(&self.continent_code),
            continent: clone_text(&self.continent),
        }
    }
}

/// The map held by a sequence of key-value entries, later entries winning.
pub open spec fn map_of(entries: Seq<(IpAddress, IpInfoResponse)>) -> Map<
    IpAddress,
    IpInfoResponse,
>
    decreases entries.len(),
{
    if entries.len() == 0 {
        Map::<IpAddress, IpInfoResponse>::empty()
    } else {
        map_of(entries.drop_last()).insert(entries.last().0, entries.last().1)
    }
}

spec fn distinct_keys(entries: Seq<(IpAddress, IpInfoResponse)>) -> bool {
    forall|i: int, j: int|
        0 <= i < j < entries.len() ==> (#[trigger] entries[i]).0 != (#[trigger] entries[j]).0
}

proof fn lemma_map_of_dom(entries: Seq<(IpAddress, IpInfoResponse)>, k: IpAddress)
    ensures
        map_of(entries).dom().contains(k) <==> (exists|i: int|
            0 <= i < entries.len() && (#[trigger] entries[i]).0 == k),
    decreases entries.len(),
{
    if entries.len() > 0 {
        lemma_map_of_dom(entries.drop_last(), k);
        if entries.last().0 != k {
            if exists|i: int| 0 <= i < entries.len() && (#[trigger] entries[i]).0 == k {
                let i = choose|i: int| 0 <= i < entries.len() && (#[trigger] entries[i]).0 == k;
                assert(entries.drop_last()[i] == entries[i]);
            }
        }
    }
}

proof fn lemma_map_of_index(entries: Seq<(IpAddress, IpInfoResponse)>, i: int)
    requires
        distinct_keys(entries),
        0 <= i < entries.len(),
    ensures
        map_of(entries).dom().contains(entries[i].0),
        map_of(entries)[entries[i].0] == entries[i].1,
    decreases entries.len(),
{
    lemma_map_of_dom(entries, entries[i].0);
    if i + 1 < entries.len() {
        assert(entries.drop_last()[i] == entries[i]);
        lemma_map_of_index(entries.drop_last(), i);
    }
}

proof fn lemma_map_of_update(entries: Seq<(IpAddress, IpInfoResponse)>, i: int, v: IpInfoResponse)
    requires
        distinct_keys(entries),
        0 <= i < entries.len(),
    ensures
        map_of(entries.update(i, (entries[i].0, v))) == map_of(entries).insert(entries[i].0, v),
    decreases entries.len(),
{
    let k = entries[i].0;
    let upd = entries.update(i, (k, v));
    if i == entries.len() - 1 {
        assert(upd.drop_last() =~= entries.drop_last());
        assert(map_of(upd) == map_of(entries.drop_last()).insert(k, v));
        assert(map_of(entries).insert(k, v) == map_of(entries.drop_last()).insert(
            k,
            entries.last().1,
        ).insert(k, v));
        assert(map_of(entries.drop_last()).insert(k, v) =~= map_of(entries.drop_last()).insert(
            k,
            entries.last().1,
        ).insert(k, v));
    } else {
        assert(upd.drop_last() =~= entries.drop_last().update(i, (k, v)));
        assert(entries.drop_last()[i] == entries[i]);
        lemma_map_of_update(entries.drop_last(), i, v);
        assert(upd.last() == entries.last());
        assert(map_of(upd) == map_of(entries.drop_last()).insert(k, v).insert(
            entries.last().0,
            entries.last().1,
        ));
        assert(entries.last().0 != k);
        assert(map_of(entries.drop_last()).insert(k, v).insert(entries.last().0, entries.last().1)
            =~= map_of(entries.drop_last()).insert(entries.last().0, entries.last().1).insert(
            k,
            v,
        ));
    }
}

/// The in-memory mapping from address to previously resolved enrichment
/// result, consulted before any remote call. Unbounded; lives for the whole
/// process.
pub struct LookupCache {
    entries: Vec<(IpAddress, IpInfoResponse)>,
}

impl View for LookupCache {
    type V = Map<IpAddress, IpInfoResponse>;

    closed spec fn view(&self) -> Map<IpAddress, IpInfoResponse> {
        map_of(self.entries@)
    }
}

impl LookupCache {
    /// The cache's internal invariant: one entry per address.
    pub closed spec fn wf(&self) -> bool {
        distinct_keys(self.entries@)
    }

    /// An empty cache.
    pub fn new() -> (c: Self)
        ensures
            c@ == Map::<IpAddress, IpInfoResponse>::empty(),
            c.wf(),
    {
        LookupCache { entries: Vec::new() }
    }

    fn position_of(&self, addr: &IpAddress) -> (r: Option<usize>)
        ensures
            match r {
                Some(i) => i < self.entries@.len() && self.entries@[i as int].0 == *addr,
                None => forall|j: int|
                    0 <= j < self.entries@.len() ==> (#[trigger] self.entries@[j]).0 != *addr,
            },
    {
        let n = self.entries.len();
        let mut i: usize = 0;
        while i < n
            invariant
                n == self.entries@.len(),
                0 <= i <= n,
                forall|j: int| 0 <= j < i ==> (#[trigger] self.entries@[j]).0 != *addr,
            decreases n - i,
        {
            if self.entries[i].0 == *addr {
                return Some(i);
            }
            i = i + 1;
        }
        None
    }

    /// The cached result for an address, if one was stored earlier.
    pub fn get(&self, addr: &IpAddress) -> (r: Option<&IpInfoResponse>)
        requires
            self.wf(),
        ensures
            match r {
                Some(info) => self@.dom().contains(*addr) && *info == self@[*addr],
                None => !self@.dom().contains(*addr),
            },
    {
        proof {
            lemma_map_of_dom(self.entries@, *addr);
        }
        match self.position_of(addr) {
            Some(i) => {
                proof {
                    lemma_map_of_index(self.entries@, i as int);
                }
                Some(&self.entries[i].1)
            },
            None => None,
        }
    }

    /// Stores the result for an address, replacing any earlier one.
    pub fn insert(&mut self, addr: &IpAddress, info: IpInfoResponse)
        requires
            old(self).wf(),
        ensures
            final(self).wf(),
            final(self)@ == old(self)@.insert(*addr, info),
    {
        match self.position_of(addr) {
            Some(i) => {
                proof {
                    lemma_map_of_update(self.entries@, i as int, info);
                }
                self.entries.set(i, (*addr, info));
            },
            None => {
                let ghost pre = self.entries@;
                self.entries.push((*addr, info));
                proof {
                    assert(self.entries@.drop_last() =~= pre);
                }
            },
        }
    }
}

/// What the enrichment worker decides to do for one newly-seen address,
/// before any remote request is made.
pub enum EnrichmentPlan {
    /// Persistence already holds enrichment for the address: the task ends,
    /// with no remote call.
    SkipEnriched,
    /// The cache holds a prior result: no remote call; proceed with it.
    UseCached(IpInfoResponse),
    /// No credential is configured: the lookup fails as NotConfigured and
    /// the notification goes out with empty attributes.
    NoCredential,
    /// Nothing is known yet: a remote request must be made.
    NeedRemote,
}

/// The configured credential counts only when it is non-empty and not the
/// shipped placeholder.
pub open spec fn spec_token_configured(t: Seq<char>) -> bool {
    t.len() != 0 && t != "your_token_here"@
}

/// Whether a usable credential is configured for the remote service.
pub fn token_configured(token: &String) -> (r: bool)
    ensures
        r == spec_token_configured(token@),
{
    let placeholder: String = "your_token_here".to_owned();
    !token.as_str().is_empty() && !(*token == placeholder)
}

/// Decides the enrichment step for one newly-seen address: an address whose
/// record is already enriched is never looked up again; otherwise a cached
/// result is used before any remote call; otherwise the lookup can only run
/// with a configured credential.
pub fn plan_enrichment(
    already_enriched: bool,
    cache: &LookupCache,
    addr: &IpAddress,
    token_ok: bool,
) -> (r: EnrichmentPlan)
    requires
        cache.wf(),
    ensures
        already_enriched ==> r is SkipEnriched,
        !already_enriched && cache@.dom().contains(*addr) ==> (r matches
            EnrichmentPlan::UseCached(info) && same_info(info, cache@[*addr])),
        !already_enriched && !cache@.dom().contains(*addr) && !token_ok ==> r is NoCredential,
        !already_enriched && !cache@.dom().contains(*addr) && token_ok ==> r is NeedRemote,
{
    if already_enriched {
        return EnrichmentPlan::SkipEnriched;
    }
    match cache.get(addr) {
        Some(info) => EnrichmentPlan::UseCached(info.duplicate()),
        None => {
            if !token_ok {
                EnrichmentPlan::NoCredential
            } else {
                EnrichmentPlan::NeedRemote
            }
        },
    }
}

/// Settles a remote response: a success status with a parseable body is
/// cached and returned; a non-success status or an unparseable body is
/// ResponseInvalid and leaves the cache untouched. The transport's own
/// failures never reach here — they are RequestFailed at the caller.
pub fn finish_lookup(
    cache: &mut LookupCache,
    addr: &IpAddress,
    status: u16,
    parsed: Option<IpInfoResponse>,
) -> (r: Result<IpInfoResponse, LookupError>)
    requires
        old(cache).wf(),
    ensures
        final(cache).wf(),
        !(200 <= status < 300) ==> r == Err::<IpInfoResponse, LookupError>(
            LookupError::ResponseInvalid,
        ) && final(cache)@ == old(cache)@,
        200 <= status < 300 ==> match parsed {
            None => r == Err::<IpInfoResponse, LookupError>(LookupError::ResponseInvalid)
                && final(cache)@ == old(cache)@,
            Some(info) => final(cache)@ == old(cache)@.insert(*addr, info) && (r matches Ok(out)
                && same_info(out, info)),
        },
{
    if !(200 <= status && status < 300) {
        return Err(LookupError::ResponseInvalid);
    }
    match parsed {
        None => Err(LookupError::ResponseInvalid),
        Some(info) => {
            let out = info.duplicate();
            cache.insert(addr, info);
            Ok(out)
        },
    }
}

/// One notification to the presentation layer: the address and whatever
/// attributes were resolved for it, possibly none.
pub struct NewIpEvent {
    pub addr: IpAddress,
    pub country_code: Option<String>,
    pub country: Option<String>,
    pub asn: Option<String>,
    pub as_name: Option<String>,
}

/// The write of resolved attributes into the address's persisted record.
pub struct GeoUpdate {
    pub addr: IpAddress,
    pub asn: Option<String>,
    pub as_name: Option<String>,
    pub as_domain: Option<String>,
    pub country_code: Option<String>,
    pub country: Option<String>,
    pub continent_code: Option<String>,
    pub continent: Option<String>,
}

/// Ends one enrichment task: a resolved lookup yields the persistence write
/// of its attributes and the notification carrying them; a failed lookup
/// yields no persistence write and a notification with every attribute
/// empty. Either way there is exactly one notification, and it names the
/// address.
pub fn conclude_enrichment(addr: &IpAddress, outcome: Result<IpInfoResponse, LookupError>) -> (r: (
    Option<GeoUpdate>,
    NewIpEvent,
))
    ensures
        r.1.addr == *addr,
        outcome matches Ok(info) ==> (r.0 matches Some(g) && g.addr == *addr && text_of(g.asn)
            == text_of(info.asn) && text_of(g.as_name) == text_of(info.as_name) && text_of(
            g.as_domain,
        ) == text_of(info.as_domain) && text_of(g.country_code) == text_of(info.country_code)
            && text_of(g.country) == text_of(info.country) && text_of(g.continent_code) == text_of(
            info.continent_code,
        ) && text_of(g.continent) == text_of(info.continent) && text_of(r.1.country_code)
            == text_of(info.country_code) && text_of(r.1.country) == text_of(info.country)
            && text_of(r.1.asn) == text_of(info.asn) && text_of(r.1.as_name) == text_of(
            info.as_name,
        )),
        outcome is Err ==> {
            &&& r.0 is None
            &&& r.1.country_code is None
            &&& r.1.country is None
            &&& r.1.asn is None
            &&& r.1.as_name is None
        },
{
    match outcome {
        Ok(info) => {
            let event = NewIpEvent {
                addr: *addr,
                country_code: clone_text(&info.country_code),
                country: clone_text(&info.country),
                asn: clone_text(&info.asn),
                as_name: clone_text(&info.as_name),
            };
            let update = GeoUpdate {
                addr: *addr,
                asn: info.asn,
                as_name: info.as_name,
                as_domain: info.as_domain,
                country_code: info.country_code,
                country: info.country,
                continent_code: info.continent_code,
                continent: info.continent,
            };
            (Some(update), event)
        },
        Err(_) => {
            let event = NewIpEvent {
                addr: *addr,
                country_code: None,
                country: None,
                asn: None,
                as_name: None,
            };
            (None, event)
        },
    }
}

} // verus!
