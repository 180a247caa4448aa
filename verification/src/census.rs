//! The census: a point-in-time snapshot merging the service, election
//! and member rumor stores into one list of entries, rebuilt only when
//! the stores' combined version fingerprint has advanced.

use vstd::prelude::*;

use crate::error::Error;

verus! {

/// Stable identity of one logical service instance.
#[derive(Debug)]
pub struct ServiceGroup {
    pub package: String,
    pub group: String,
    pub organization: Option<String>,
}

/// Two optional strings hold the same text, or both are absent.
pub open spec fn spec_opt_str_eq(a: Option<String>, b: Option<String>) -> bool {
    match a {
        Some(x) => match b {
            Some(y) => x@ == y@,
            None => false,
        },
        None => b is None,
    }
}

/// Two service groups name the same logical service instance.
pub open spec fn spec_sg_eq(a: ServiceGroup, b: ServiceGroup) -> bool {
    &&& a.package@ == b.package@
    &&& a.group@ == b.group@
    &&& spec_opt_str_eq(a.organization, b.organization)
}

impl Clone for ServiceGroup {
    fn clone(&self) -> (r: Self)
        ensures
            r == *self,
    {
        ServiceGroup {
            package: self.package.clone(),
            group: self.group.clone(),
            organization: match &self.organization {
                Some(o) => Some(o.clone()),
                None => None,
            },
        }
    }
}

impl ServiceGroup {
    pub fn new(package: String, group: String, organization: Option<String>) -> (r: ServiceGroup)
        ensures
            r == (ServiceGroup { package, group, organization }),
    {
        ServiceGroup { package, group, organization }
    }

    /// Decides whether two groups are the same identity.
    pub fn same_group(&self, other: &ServiceGroup) -> (r: bool)
        ensures
            r == spec_sg_eq(*self, *other),
    {
        let org_eq: bool = match &self.organization {
            Some(x) => match &other.organization {
                Some(y) => *x == *y,
                None => false,
            },
            None => match &other.organization {
                Some(_) => false,
                None => true,
            },
        };
        self.package == other.package && self.group == other.group && org_eq
    }
}

/// The combined version fingerprint of the three rumor stores.
/// Equality of all three counters is the only operation the census
/// rebuild decision needs.
#[derive(Clone, Copy, Debug, PartialEq, Eq, Structural)]
pub struct CensusUpdate {
    pub service_counter: u64,
    pub election_counter: u64,
    pub member_counter: u64,
}

impl CensusUpdate {
    pub fn new(service_counter: u64, election_counter: u64, member_counter: u64) -> (r:
        CensusUpdate)
        ensures
            r == (CensusUpdate { service_counter, election_counter, member_counter }),
    {
        CensusUpdate { service_counter, election_counter, member_counter }
    }
}

/// A versioned store of one rumor type: a monotonically increasing
/// update counter over the entries currently held.
#[derive(Debug)]
pub struct RumorStore<T> {
    pub counter: u64,
    pub entries: Vec<T>,
}

impl<T> RumorStore<T> {
    pub fn new() -> (r: RumorStore<T>)
        ensures
            r.counter == 0,
            r.entries@ =~= Seq::<T>::empty(),
    {
        RumorStore { counter: 0, entries: Vec::new() }
    }

    /// The store's current version counter.
    pub fn get_update_counter(&self) -> (r: u64)
        ensures
            r == self.counter,
    {
        self.counter
    }

    /// Records one rumor and advances the version counter.
    pub fn insert(&mut self, entry: T)
        requires
            old(self).counter < u64::MAX,
        ensures
            final(self).counter == old(self).counter + 1,
            final(self).entries@ == old(self).entries@.push(entry),
    {
        self.entries.push(entry);
        self.counter = self.counter + 1;
    }
}

/// A fact about one service instance, owned by the member running it.
#[derive(Debug)]
pub struct ServiceRumor {
    pub member_id: String,
    pub service_group: ServiceGroup,
    pub hostname: String,
    pub ip: String,
    pub exposes: Vec<u32>,
}

/// One rumor in a group's election set, looked up by its key.
#[derive(Debug)]
pub struct ElectionRumor {
    pub key: String,
    pub leader_id: String,
}

/// The election rumor set replicated for one service group.
#[derive(Debug)]
pub struct ElectionEntry {
    pub service_group: ServiceGroup,
    pub rumors: Vec<ElectionRumor>,
}

/// A liveness fact about one member of the ring.
#[derive(Debug)]
pub struct MemberRumor {
    pub member_id: String,
    pub alive: bool,
}

/// One row of the census, derived from a service rumor and augmented
/// with the election result and liveness fact that touch it. Never
/// mutated incrementally; only fully replaced during a rebuild.
#[derive(Debug)]
pub struct CensusEntry {
    pub member_id: String,
    pub service_group: ServiceGroup,
    pub hostname: String,
    pub ip: String,
    pub exposes: Vec<u32>,
    pub leader: bool,
    pub alive: bool,
}

/// `a` carries the same data as `b`, field for field.
pub open spec fn spec_ce_like(a: CensusEntry, b: CensusEntry) -> bool {
    &&& a.member_id@ == b.member_id@
    &&& spec_sg_eq(a.service_group, b.service_group)
    &&& a.hostname@ == b.hostname@
    &&& a.ip@ == b.ip@
    &&& a.exposes@ == b.exposes@
    &&& a.leader == b.leader
    &&& a.alive == b.alive
}

impl Clone for CensusEntry {
    fn clone(&self) -> (r: Self)
        ensures
            spec_ce_like(r, *self),
    {
        CensusEntry {
            member_id: self.member_id.clone(),
            service_group: self.service_group.clone(),
            hostname: self.hostname.clone(),
            ip: self.ip.clone(),
            exposes: copy_ports(&self.exposes),
            leader: self.leader,
            alive: self.alive,
        }
    }
}

/// Copies a port list value for value.
pub fn copy_ports(v: &Vec<u32>) -> (r: Vec<u32>)
    ensures
        r@ == v@,
{
    let mut r: Vec<u32> = Vec::new();
    let mut i: usize = 0;
    while i < v.len()
        invariant
            i <= v.len(),
            r@ =~= v@.take(i as int),
        decreases v.len() - i,
    {
        r.push(v[i]);
        i = i + 1;
    }
    proof {
        assert(r@ =~= v@);
    }
    r
}

/// The full census snapshot for one tick: built whole, replaced whole.
#[derive(Debug)]
pub struct CensusList {
    pub entries: Vec<CensusEntry>,
}

impl CensusList {
    pub fn new() -> (r: CensusList)
        ensures
            r.entries@ =~= Seq::<CensusEntry>::empty(),
    {
        CensusList { entries: Vec::new() }
    }
}

/// The first election entry replicated for group `g`, if any.
pub open spec fn spec_find_election(s: Seq<ElectionEntry>, g: ServiceGroup) -> Option<ElectionEntry>
    decreases s.len(),
{
    if s.len() == 0 {
        None
    } else if spec_sg_eq(s[0].service_group, g) {
        Some(s[0])
    } else {
        spec_find_election(s.drop_first(), g)
    }
}

/// The first rumor under the well-known election key, if any.
pub open spec fn spec_find_key(s: Seq<ElectionRumor>, key: Seq<char>) -> Option<ElectionRumor>
    decreases s.len(),
{
    if s.len() == 0 {
        None
    } else if s[0].key@ == key {
        Some(s[0])
    } else {
        spec_find_key(s.drop_first(), key)
    }
}

/// The first liveness fact for member `id`, if any.
pub open spec fn spec_find_member(s: Seq<MemberRumor>, id: Seq<char>) -> Option<MemberRumor>
    decreases s.len(),
{
    if s.len() == 0 {
        None
    } else if s[0].member_id@ == id {
        Some(s[0])
    } else {
        spec_find_member(s.drop_first(), id)
    }
}

/// An election entry holds its expected rumor under the election key.
pub open spec fn spec_has_election(e: ElectionEntry) -> bool {
    spec_find_key(e.rumors@, "election"@) is Some
}

/// Every replicated election entry holds its expected rumor; when this
/// fails, the upstream store is defective and a rebuild must halt.
pub open spec fn spec_all_elections_present(s: Seq<ElectionEntry>) -> bool {
    forall|i: int| 0 <= i < s.len() ==> spec_has_election(#[trigger] s[i])
}

/// Whether the service rumor's owner won the election for its group.
pub open spec fn spec_leader_flag(r: ServiceRumor, elections: Seq<ElectionEntry>) -> bool {
    match spec_find_election(elections, r.service_group) {
        Some(e) => match spec_find_key(e.rumors@, "election"@) {
            Some(k) => k.leader_id@ == r.member_id@,
            None => false,
        },
        None => false,
    }
}

/// The liveness recorded for the rumor's owner; unknown members count
/// as not confirmed alive.
pub open spec fn spec_alive_flag(r: ServiceRumor, members: Seq<MemberRumor>) -> bool {
    match spec_find_member(members, r.member_id@) {
        Some(m) => m.alive,
        None => false,
    }
}

/// The census row that service rumor `r` must produce under the given
/// election and member stores.
pub open spec fn spec_entry_matches(
    ce: CensusEntry,
    r: ServiceRumor,
    elections: Seq<ElectionEntry>,
    members: Seq<MemberRumor>,
) -> bool {
    &&& ce.member_id@ == r.member_id@
    &&& spec_sg_eq(ce.service_group, r.service_group)
    &&& ce.hostname@ == r.hostname@
    &&& ce.ip@ == r.ip@
    &&& ce.exposes@ == r.exposes@
    &&& ce.leader == spec_leader_flag(r, elections)
    &&& ce.alive == spec_alive_flag(r, members)
}

/// A correctly built census: one row per service rumor, in store
/// order, each augmented from the election and member stores.
pub open spec fn spec_census_built(
    cl: CensusList,
    services: Seq<ServiceRumor>,
    elections: Seq<ElectionEntry>,
    members: Seq<MemberRumor>,
) -> bool {
    &&& cl.entries@.len() == services.len()
    &&& forall|i: int|
        0 <= i < services.len() ==> spec_entry_matches(
            #[trigger] cl.entries@[i],
            services[i],
            elections,
            members,
        )
}

/// Finds the rumor stored under the well-known election key.
fn find_election_rumor(rumors: &Vec<ElectionRumor>) -> (r: Option<&ElectionRumor>)
    ensures
        match r {
            Some(k) => spec_find_key(rumors@, "election"@) == Some(*k),
            None => spec_find_key(rumors@, "election"@) is None,
        },
{
    let key: String = "election".to_owned();
    let mut i: usize = 0;
    proof {
        assert(rumors@.skip(0) =~= rumors@);
    }
    while i < rumors.len()
        invariant
            i <= rumors.len(),
            key@ == "election"@,
            spec_find_key(rumors@.skip(i as int), "election"@) == spec_find_key(
                rumors@,
                "election"@,
            ),
        decreases rumors.len() - i,
    {
        proof {
            assert(rumors@.skip(i as int)[0] == rumors@[i as int]);
            assert(rumors@.skip(i as int).drop_first() =~= rumors@.skip(i + 1));
        }
        if rumors[i].key == key {
            return Some(&rumors[i]);
        }
        i = i + 1;
    }
    proof {
        assert(rumors@.skip(rumors@.len() as int) =~= Seq::<ElectionRumor>::empty());
    }
    None
}

/// Finds the election entry replicated for group `g`.
fn find_election_entry<'a>(entries: &'a Vec<ElectionEntry>, g: &ServiceGroup) -> (r: Option<
    &'a ElectionEntry,
>)
    ensures
        match r {
            Some(e) => spec_find_election(entries@, *g) == Some(*e),
            None => spec_find_election(entries@, *g) is None,
        },
{
    let mut i: usize = 0;
    proof {
        assert(entries@.skip(0) =~= entries@);
    }
    while i < entries.len()
        invariant
            i <= entries.len(),
            spec_find_election(entries@.skip(i as int), *g) == spec_find_election(entries@, *g),
        decreases entries.len() - i,
    {
        proof {
            assert(entries@.skip(i as int)[0] == entries@[i as int]);
            assert(entries@.skip(i as int).drop_first() =~= entries@.skip(i + 1));
        }
        if entries[i].service_group.same_group(g) {
            return Some(&entries[i]);
        }
        i = i + 1;
    }
    proof {
        assert(entries@.skip(entries@.len() as int) =~= Seq::<ElectionEntry>::empty());
    }
    None
}

/// Finds the liveness fact for member `id`.
fn find_member_rumor<'a>(members: &'a Vec<MemberRumor>, id: &String) -> (r: Option<&'a MemberRumor>)
    ensures
        match r {
            Some(m) => spec_find_member(members@, id@) == Some(*m),
            None => spec_find_member(members@, id@) is None,
        },
{
    let mut i: usize = 0;
    proof {
        assert(members@.skip(0) =~= members@);
    }
    while i < members.len()
        invariant
            i <= members.len(),
            spec_find_member(members@.skip(i as int), id@) == spec_find_member(members@, id@),
        decreases members.len() - i,
    {
        proof {
            assert(members@.skip(i as int)[0] == members@[i as int]);
            assert(members@.skip(i as int).drop_first() =~= members@.skip(i + 1));
        }
        if members[i].member_id == *id {
            return Some(&members[i]);
        }
        i = i + 1;
    }
    proof {
        assert(members@.skip(members@.len() as int) =~= Seq::<MemberRumor>::empty());
    }
    None
}

/// Computes the leader flag for one service rumor.
fn leader_flag(r: &ServiceRumor, elections: &Vec<ElectionEntry>) -> (b: bool)
    requires
        spec_all_elections_present(elections@),
    ensures
        b == spec_leader_flag(*r, elections@),
{
    match find_election_entry(elections, &r.service_group) {
        Some(entry) => {
            proof {
                lemma_find_election_in(elections@, r.service_group);
            }
            match find_election_rumor(&entry.rumors) {
                Some(k) => k.leader_id == r.member_id,
                None => false,
            }
        },
        None => false,
    }
}

/// A found election entry is one of the store's entries.
proof fn lemma_find_election_in(s: Seq<ElectionEntry>, g: ServiceGroup)
    ensures
        match spec_find_election(s, g) {
            Some(e) => exists|i: int| 0 <= i < s.len() && s[i] == e,
            None => true,
        },
    decreases s.len(),
{
    if s.len() > 0 && !spec_sg_eq(s[0].service_group, g) {
        lemma_find_election_in(s.drop_first(), g);
        if spec_find_election(s.drop_first(), g) is Some {
            let e = spec_find_election(s.drop_first(), g)->Some_0;
            let i = choose|i: int| 0 <= i < s.drop_first().len() && s.drop_first()[i] == e;
            assert(s[i + 1] == e);
        }
    }
}

/// Computes the liveness flag for one service rumor.
fn alive_flag(r: &ServiceRumor, members: &Vec<MemberRumor>) -> (b: bool)
    ensures
        b == spec_alive_flag(*r, members@),
{
    match find_member_rumor(members, &r.member_id) {
        Some(m) => m.alive,
        None => false,
    }
}

/// Builds a fresh census from the three rumor stores: one entry per
/// service rumor, augmented with its group's election result and its
/// owner's liveness. Halts with [`Error::MissingElection`] instead of
/// fabricating data when an election entry lacks the rumor under the
/// well-known key.
pub fn build_census_list(
    service_store: &RumorStore<ServiceRumor>,
    election_store: &RumorStore<ElectionEntry>,
    member_store: &RumorStore<MemberRumor>,
) -> (r: Result<CensusList, Error>)
    ensures
        match r {
            Ok(cl) => spec_all_elections_present(election_store.entries@) && spec_census_built(
                cl,
                service_store.entries@,
                election_store.entries@,
                member_store.entries@,
            ),
            Err(e) => e == Error::MissingElection && !spec_all_elections_present(
                election_store.entries@,
            ),
        },
{
    let mut i: usize = 0;
    while i < election_store.entries.len()
        invariant
            i <= election_store.entries@.len(),
            forall|k: int| 0 <= k < i ==> spec_has_election(#[trigger] election_store.entries@[k]),
        decreases election_store.entries@.len() - i,
    {
        if find_election_rumor(&election_store.entries[i].rumors).is_none() {
            return Err(Error::MissingElection);
        }
        i = i + 1;
    }
    let mut entries: Vec<CensusEntry> = Vec::new();
    let mut j: usize = 0;
    while j < service_store.entries.len()
        invariant
            j <= service_store.entries@.len(),
            entries@.len() == j,
            spec_all_elections_present(election_store.entries@),
            forall|k: int|
                0 <= k < j ==> spec_entry_matches(
                    #[trigger] entries@[k],
                    service_store.entries@[k],
                    election_store.entries@,
                    member_store.entries@,
                ),
        decreases service_store.entries@.len() - j,
    {
        let rumor = &service_store.entries[j];
        let leader = leader_flag(rumor, &election_store.entries);
        let alive = alive_flag(rumor, &member_store.entries);
        entries.push(
            CensusEntry {
                member_id: rumor.member_id.clone(),
                service_group: rumor.service_group.clone(),
                hostname: rumor.hostname.clone(),
                ip: rumor.ip.clone(),
                exposes: copy_ports(&rumor.exposes),
                leader,
                alive,
            },
        );
        j = j + 1;
    }
    Ok(CensusList { entries })
}

/// Reads the three stores' counters into one version fingerprint.
pub fn compute_census_update(
    service_store: &RumorStore<ServiceRumor>,
    election_store: &RumorStore<ElectionEntry>,
    member_store: &RumorStore<MemberRumor>,
) -> (r: CensusUpdate)
    ensures
        r.service_counter == service_store.counter,
        r.election_counter == election_store.counter,
        r.member_counter == member_store.counter,
{
    CensusUpdate::new(
        service_store.get_update_counter(),
        election_store.get_update_counter(),
        member_store.get_update_counter(),
    )
}

} // verus!
