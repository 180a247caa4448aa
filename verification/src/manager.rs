//! The manager: top-level orchestrator owning the supervised services,
//! the rumor stores' last-seen fingerprint, and the census snapshot,
//! driving one reconciliation tick at a time.
//!
//! Within one tick, signal handling strictly precedes the update
//! drain, which strictly precedes the conditional census rebuild and
//! reconfiguration; later stages see the effects of earlier ones.

use vstd::prelude::*;

use crate::census::{
    build_census_list, compute_census_update, spec_all_elections_present, spec_census_built,
    spec_opt_str_eq, CensusList, CensusUpdate, ElectionEntry, MemberRumor, RumorStore,
    ServiceGroup, ServiceRumor,
};
use crate::error::Error;
use crate::package::{parse_port, spec_digits_val, spec_valid_port, Package};
use crate::service::{
    spec_downed, spec_drain, spec_entries_like, spec_group_entries, spec_signaled, Service,
    Topology, UpdateStrategy,
};
use crate::signals::SignalEvent;
use crate::supervisor::spec_after_signal;

verus! {

/// The replicated gossip state this agent consumes: one versioned
/// store per rumor type, plus this member's own identity.
#[derive(Debug)]
pub struct GossipState {
    pub member_id: String,
    pub service_store: RumorStore<ServiceRumor>,
    pub election_store: RumorStore<ElectionEntry>,
    pub member_store: RumorStore<MemberRumor>,
}

impl GossipState {
    pub fn new(member_id: String) -> (r: GossipState)
        ensures
            r.member_id == member_id,
            r.service_store.counter == 0,
            r.service_store.entries@ =~= Seq::<ServiceRumor>::empty(),
            r.election_store.counter == 0,
            r.election_store.entries@ =~= Seq::<ElectionEntry>::empty(),
            r.member_store.counter == 0,
            r.member_store.entries@ =~= Seq::<MemberRumor>::empty(),
    {
        GossipState {
            member_id,
            service_store: RumorStore::new(),
            election_store: RumorStore::new(),
            member_store: RumorStore::new(),
        }
    }
}

/// The three store counters read as one fingerprint.
pub open spec fn spec_current_update(g: GossipState) -> CensusUpdate {
    CensusUpdate {
        service_counter: g.service_store.counter,
        election_counter: g.election_store.counter,
        member_counter: g.member_store.counter,
    }
}

/// Configuration fixed once at startup and passed in; no ambient
/// global lookup.
#[derive(Debug)]
pub struct ManagerConfig {
    /// The group label every added service joins.
    pub group: String,
    pub organization: Option<String>,
    pub hostname: String,
    pub ip: String,
}

/// Every declared port string parses as a port number.
pub open spec fn spec_ports_ok(exposes: Seq<String>) -> bool {
    forall|i: int| 0 <= i < exposes.len() ==> spec_valid_port(#[trigger] exposes[i]@)
}

/// The parsed port numbers, in declaration order.
pub open spec fn spec_parsed_ports(exposes: Seq<String>) -> Seq<u32> {
    Seq::new(exposes.len(), |i: int| spec_digits_val(exposes[i]@) as u32)
}

/// Whether the control loop goes on after a tick.
#[derive(Clone, Copy, Debug, PartialEq, Eq, Structural)]
pub enum TickStatus {
    Running,
    Terminated,
}

/// How one service moves through one non-terminal tick: a forwardable
/// signal reaches its process, its update channel is drained, and a
/// census rebuild recomputes its configuration.
pub open spec fn spec_tick_service(
    pre: Service,
    post: Service,
    event: Option<SignalEvent>,
    changed: bool,
    census: CensusList,
) -> bool {
    let drained = spec_drain(pre);
    &&& post.supervisor.pid == pre.supervisor.pid
    &&& post.supervisor.ident == pre.supervisor.ident
    &&& post.supervisor.runtime == pre.supervisor.runtime
    &&& post.supervisor.requests@ == match event {
        Some(SignalEvent::Passthrough(c)) => spec_after_signal(pre.supervisor, c),
        _ => pre.supervisor.requests@,
    }
    &&& post.package == drained.package
    &&& post.needs_restart == drained.needs_restart
    &&& post.update_inbox == drained.update_inbox
    &&& post.service_group == pre.service_group
    &&& post.topology == pre.topology
    &&& post.update_strategy == pre.update_strategy
    &&& if changed {
        &&& post.config is Some
        &&& post.config->Some_0.group == pre.service_group
        &&& spec_entries_like(
            post.config->Some_0.entries@,
            spec_group_entries(census.entries@, pre.service_group),
        )
    } else {
        post.config == pre.config
    }
}

/// The top-level orchestrator. It owns the services, the census, and
/// the last-seen store fingerprint; all mutation happens on the one
/// logical thread that runs the ticks.
#[derive(Debug)]
pub struct Manager {
    pub config: ManagerConfig,
    pub gossip: GossipState,
    pub services: Vec<Service>,
    pub census_list: CensusList,
    pub last_census_update: CensusUpdate,
}

impl Manager {
    /// A manager with no services and an empty census; the membership
    /// transport behind the gossip state is the caller's to start.
    pub fn new(config: ManagerConfig, gossip: GossipState) -> (r: Manager)
        ensures
            r.config == config,
            r.gossip == gossip,
            r.services@ =~= Seq::<Service>::empty(),
            r.census_list.entries@ =~= Seq::<crate::census::CensusEntry>::empty(),
            r.last_census_update == (CensusUpdate {
                service_counter: 0,
                election_counter: 0,
                member_counter: 0,
            }),
    {
        Manager {
            config,
            gossip,
            services: Vec::new(),
            census_list: CensusList::new(),
            last_census_update: CensusUpdate::new(0, 0, 0),
        }
    }

    /// Registers one service: builds its group from the configured
    /// group label, parses its declared ports, gossips its service
    /// rumor, and tracks the new handle. A single unparsable port
    /// string fails the whole call with [`Error::InvalidPort`] and
    /// mutates nothing.
    pub fn add_service(
        &mut self,
        package: Package,
        topology: Topology,
        update_strategy: UpdateStrategy,
    ) -> (r: Result<(), Error>)
        requires
            old(self).gossip.service_store.counter < u64::MAX,
        ensures
            final(self).config == old(self).config,
            final(self).gossip.member_id == old(self).gossip.member_id,
            final(self).gossip.election_store == old(self).gossip.election_store,
            final(self).gossip.member_store == old(self).gossip.member_store,
            final(self).census_list == old(self).census_list,
            final(self).last_census_update == old(self).last_census_update,
            match r {
                Err(e) => {
                    &&& e == Error::InvalidPort
                    &&& !spec_ports_ok(package.exposes@)
                    &&& *final(self) == *old(self)
                },
                Ok(()) => {
                    &&& spec_ports_ok(package.exposes@)
                    &&& final(self).services@.len() == old(self).services@.len() + 1
                    &&& forall|i: int|
                        0 <= i < old(self).services@.len() ==> final(self).services@[i] == old(self).services@[i]
                    &&& {
                        let svc = final(self).services@.last();
                        &&& svc.service_group.package@ == package.name@
                        &&& svc.service_group.group@ == old(self).config.group@
                        &&& spec_opt_str_eq(
                            svc.service_group.organization,
                            old(self).config.organization,
                        )
                        &&& svc.package == package
                        &&& svc.needs_restart == false
                        &&& svc.topology == topology
                        &&& svc.update_strategy == update_strategy
                        &&& svc.supervisor.pid is None
                        &&& svc.supervisor.requests@ =~= Seq::<
                            crate::supervisor::PlatformRequest,
                        >::empty()
                        &&& svc.supervisor.ident == package.ident
                        &&& (svc.update_inbox is Some <==> update_strategy
                            != UpdateStrategy::Disabled)
                        &&& svc.config is None
                    }
                    &&& final(self).gossip.service_store.counter == old(self).gossip.service_store.counter + 1
                    &&& final(self).gossip.service_store.entries@.len() == old(self).gossip.service_store.entries@.len() + 1
                    &&& forall|i: int|
                        0 <= i < old(self).gossip.service_store.entries@.len() ==> final(self).gossip.service_store.entries@[i] == old(self).gossip.service_store.entries@[i]
                    &&& {
                        let rumor = final(self).gossip.service_store.entries@.last();
                        &&& rumor.member_id@ == old(self).gossip.member_id@
                        &&& rumor.service_group.package@ == package.name@
                        &&& rumor.service_group.group@ == old(self).config.group@
                        &&& spec_opt_str_eq(
                            rumor.service_group.organization,
                            old(self).config.organization,
                        )
                        &&& rumor.hostname@ == old(self).config.hostname@
                        &&& rumor.ip@ == old(self).config.ip@
                        &&& rumor.exposes@ == spec_parsed_ports(package.exposes@)
                    }
                },
            },
    {
        let mut exposes: Vec<u32> = Vec::new();
        let mut i: usize = 0;
        while i < package.exposes.len()
            invariant
                i <= package.exposes@.len(),
                forall|k: int| 0 <= k < i ==> spec_valid_port(#[trigger] package.exposes@[k]@),
                exposes@ =~= spec_parsed_ports(package.exposes@).take(i as int),
            decreases package.exposes@.len() - i,
        {
            match parse_port(package.exposes[i].as_str()) {
                Some(port) => {
                    exposes.push(port);
                },
                None => {
                    return Err(Error::InvalidPort);
                },
            }
            i = i + 1;
        }
        proof {
            assert(exposes@ =~= spec_parsed_ports(package.exposes@));
        }
        let organization = match &self.config.organization {
            Some(o) => Some(o.clone()),
            None => None,
        };
        let service_group = ServiceGroup::new(
            package.name.clone(),
            self.config.group.clone(),
            organization,
        );
        let rumor = ServiceRumor {
            member_id: self.gossip.member_id.clone(),
            service_group: service_group.clone(),
            hostname: self.config.hostname.clone(),
            ip: self.config.ip.clone(),
            exposes,
        };
        self.gossip.service_store.insert(rumor);
        let service = Service::new(service_group, package, topology, update_strategy);
        self.services.push(service);
        Ok(())
    }

    /// Reads the stores' fingerprint and rebuilds the census only when
    /// it differs from `last_update`: the rebuild cost is paid only
    /// when gossip data actually advanced. An unchanged fingerprint
    /// leaves the held census untouched, unreallocated.
    pub fn build_census(&mut self, last_update: &CensusUpdate) -> (r: Result<
        (bool, CensusUpdate),
        Error,
    >)
        ensures
            final(self).config == old(self).config,
            final(self).gossip == old(self).gossip,
            final(self).services == old(self).services,
            final(self).last_census_update == old(self).last_census_update,
            match r {
                Ok((changed, update)) => {
                    &&& update == spec_current_update(old(self).gossip)
                    &&& changed == (update != *last_update)
                    &&& (!changed ==> *final(self) == *old(self))
                    &&& (changed ==> spec_all_elections_present(
                        old(self).gossip.election_store.entries@,
                    ) && spec_census_built(
                        final(self).census_list,
                        old(self).gossip.service_store.entries@,
                        old(self).gossip.election_store.entries@,
                        old(self).gossip.member_store.entries@,
                    ))
                },
                Err(e) => {
                    &&& e == Error::MissingElection
                    &&& !spec_all_elections_present(old(self).gossip.election_store.entries@)
                    &&& spec_current_update(old(self).gossip) != *last_update
                    &&& *final(self) == *old(self)
                },
            },
    {
        let update = compute_census_update(
            &self.gossip.service_store,
            &self.gossip.election_store,
            &self.gossip.member_store,
        );
        if update != *last_update {
            match build_census_list(
                &self.gossip.service_store,
                &self.gossip.election_store,
                &self.gossip.member_store,
            ) {
                Ok(cl) => {
                    self.census_list = cl;
                    Ok((true, update))
                },
                Err(e) => Err(e),
            }
        } else {
            Ok((false, update))
        }
    }

    /// Handles the one event polled this tick: a shutdown stops every
    /// tracked service exactly once, individual stop failures
    /// notwithstanding, and reports terminal; a forwardable signal is
    /// broadcast to every service; no event is a no-op.
    pub fn check_for_incoming_signals(&mut self, event: Option<SignalEvent>) -> (r: bool)
        ensures
            final(self).config == old(self).config,
            final(self).gossip == old(self).gossip,
            final(self).census_list == old(self).census_list,
            final(self).last_census_update == old(self).last_census_update,
            final(self).services@.len() == old(self).services@.len(),
            r == (event == Some(SignalEvent::Shutdown)),
            match event {
                Some(SignalEvent::Shutdown) => forall|i: int|
                    0 <= i < old(self).services@.len() ==> spec_downed(
                        old(self).services@[i],
                        #[trigger] final(self).services@[i],
                    ),
                Some(SignalEvent::Passthrough(code)) => forall|i: int|
                    0 <= i < old(self).services@.len() ==> spec_signaled(
                        old(self).services@[i],
                        #[trigger] final(self).services@[i],
                        code,
                    ),
                None => final(self).services == old(self).services,
            },
    {
        let ghost pre = *self;
        match event {
            Some(SignalEvent::Shutdown) => {
                let n = self.services.len();
                let mut i: usize = 0;
                while i < n
                    invariant
                        i <= n,
                        n == self.services@.len() == pre.services@.len(),
                        forall|k: int|
                            0 <= k < i ==> spec_downed(
                                pre.services@[k],
                                #[trigger] self.services@[k],
                            ),
                        forall|k: int| i <= k < n ==> self.services@[k] == pre.services@[k],
                        self.config == pre.config,
                        self.gossip == pre.gossip,
                        self.census_list == pre.census_list,
                        self.last_census_update == pre.last_census_update,
                    decreases n - i,
                {
                    let ghost before = self.services@;
                    let mut svc = self.services.remove(i);
                    let _ = svc.down();
                    self.services.insert(i, svc);
                    proof {
                        assert(self.services@ =~= before.update(i as int, svc));
                    }
                    i = i + 1;
                }
                true
            },
            Some(SignalEvent::Passthrough(code)) => {
                let n = self.services.len();
                let mut i: usize = 0;
                while i < n
                    invariant
                        i <= n,
                        n == self.services@.len() == pre.services@.len(),
                        forall|k: int|
                            0 <= k < i ==> spec_signaled(
                                pre.services@[k],
                                #[trigger] self.services@[k],
                                code,
                            ),
                        forall|k: int| i <= k < n ==> self.services@[k] == pre.services@[k],
                        self.config == pre.config,
                        self.gossip == pre.gossip,
                        self.census_list == pre.census_list,
                        self.last_census_update == pre.last_census_update,
                    decreases n - i,
                {
                    let ghost before = self.services@;
                    let mut svc = self.services.remove(i);
                    let _ = svc.send_signal(code);
                    self.services.insert(i, svc);
                    proof {
                        assert(self.services@ =~= before.update(i as int, svc));
                    }
                    i = i + 1;
                }
                false
            },
            None => false,
        }
    }

    /// Walks every service and drains its update channel without
    /// blocking: delivered packages are applied and flagged for
    /// restart, dead checkers are respawned.
    pub fn check_for_updated_packages(&mut self)
        ensures
            final(self).config == old(self).config,
            final(self).gossip == old(self).gossip,
            final(self).census_list == old(self).census_list,
            final(self).last_census_update == old(self).last_census_update,
            final(self).services@.len() == old(self).services@.len(),
            forall|i: int|
                0 <= i < old(self).services@.len() ==> #[trigger] final(self).services@[i]
                    == spec_drain(old(self).services@[i]),
    {
        let ghost pre = *self;
        let n = self.services.len();
        let mut i: usize = 0;
        while i < n
            invariant
                i <= n,
                n == self.services@.len() == pre.services@.len(),
                forall|k: int|
                    0 <= k < i ==> #[trigger] self.services@[k] == spec_drain(pre.services@[k]),
                forall|k: int| i <= k < n ==> self.services@[k] == pre.services@[k],
                self.config == pre.config,
                self.gossip == pre.gossip,
                self.census_list == pre.census_list,
                self.last_census_update == pre.last_census_update,
            decreases n - i,
        {
            let ghost before = self.services@;
            let mut svc = self.services.remove(i);
            svc.check_for_updated_package();
            self.services.insert(i, svc);
            proof {
                assert(self.services@ =~= before.update(i as int, svc));
            }
            i = i + 1;
        }
    }

    /// One reconciliation tick: signal handling first (possibly
    /// terminal), then the non-blocking update drain, then the
    /// conditional census rebuild whose fingerprint is stored as the
    /// new last-seen value and, when the census changed, every
    /// service's configuration is recomputed against it.
    pub fn tick(&mut self, event: Option<SignalEvent>) -> (r: Result<TickStatus, Error>)
        ensures
            final(self).config == old(self).config,
            final(self).gossip == old(self).gossip,
            final(self).services@.len() == old(self).services@.len(),
            event == Some(SignalEvent::Shutdown) ==> {
                &&& r == Ok::<TickStatus, Error>(TickStatus::Terminated)
                &&& forall|i: int|
                    0 <= i < old(self).services@.len() ==> spec_downed(
                        old(self).services@[i],
                        #[trigger] final(self).services@[i],
                    )
                &&& final(self).census_list == old(self).census_list
                &&& final(self).last_census_update == old(self).last_census_update
            },
            event != Some(SignalEvent::Shutdown) ==> match r {
                Ok(status) => {
                    let changed = spec_current_update(old(self).gossip) != old(self).last_census_update;
                    &&& status == TickStatus::Running
                    &&& final(self).last_census_update == spec_current_update(old(self).gossip)
                    &&& (changed ==> spec_census_built(
                        final(self).census_list,
                        old(self).gossip.service_store.entries@,
                        old(self).gossip.election_store.entries@,
                        old(self).gossip.member_store.entries@,
                    ))
                    &&& (!changed ==> final(self).census_list == old(self).census_list)
                    &&& forall|i: int|
                        0 <= i < old(self).services@.len() ==> spec_tick_service(
                            old(self).services@[i],
                            #[trigger] final(self).services@[i],
                            event,
                            changed,
                            final(self).census_list,
                        )
                },
                Err(e) => {
                    &&& e == Error::MissingElection
                    &&& !spec_all_elections_present(old(self).gossip.election_store.entries@)
                    &&& spec_current_update(old(self).gossip) != old(self).last_census_update
                    &&& final(self).census_list == old(self).census_list
                    &&& final(self).last_census_update == old(self).last_census_update
                    &&& forall|i: int|
                        0 <= i < old(self).services@.len() ==> spec_tick_service(
                            old(self).services@[i],
                            #[trigger] final(self).services@[i],
                            event,
                            false,
                            final(self).census_list,
                        )
                },
            },
    {
        if self.check_for_incoming_signals(event) {
            return Ok(TickStatus::Terminated);
        }
        self.check_for_updated_packages();
        let ghost mid = *self;
        let last = self.last_census_update;
        match self.build_census(&last) {
            Err(e) => Err(e),
            Ok((changed, ncu)) => {
                self.last_census_update = ncu;
                if changed {
                    let ghost pre = *self;
                    let n = self.services.len();
                    let mut i: usize = 0;
                    while i < n
                        invariant
                            i <= n,
                            n == self.services@.len() == pre.services@.len(),
                            forall|k: int|
                                0 <= k < i ==> {
                                    let post = #[trigger] self.services@[k];
                                    &&& post.config is Some
                                    &&& post.config->Some_0.group
                                        == pre.services@[k].service_group
                                    &&& spec_entries_like(
                                        post.config->Some_0.entries@,
                                        spec_group_entries(
                                            pre.census_list.entries@,
                                            pre.services@[k].service_group,
                                        ),
                                    )
                                    &&& post.service_group == pre.services@[k].service_group
                                    &&& post.supervisor == pre.services@[k].supervisor
                                    &&& post.package == pre.services@[k].package
                                    &&& post.needs_restart == pre.services@[k].needs_restart
                                    &&& post.topology == pre.services@[k].topology
                                    &&& post.update_strategy == pre.services@[k].update_strategy
                                    &&& post.update_inbox == pre.services@[k].update_inbox
                                },
                            forall|k: int| i <= k < n ==> self.services@[k] == pre.services@[k],
                            self.config == pre.config,
                            self.gossip == pre.gossip,
                            self.census_list == pre.census_list,
                            self.last_census_update == pre.last_census_update,
                        decreases n - i,
                    {
                        let ghost before = self.services@;
                        let mut svc = self.services.remove(i);
                        svc.reconfigure(&self.census_list);
                        self.services.insert(i, svc);
                        proof {
                            assert(self.services@ =~= before.update(i as int, svc));
                        }
                        i = i + 1;
                    }
                }
                Ok(TickStatus::Running)
            },
        }
    }
}

/// Rebuild idempotence: two census builds in a row with no intervening
/// store mutation report no change the second time. The two calls are
/// given by their contracts: each returns the fingerprint of the
/// gossip state it read and a change flag comparing it to the
/// fingerprint last seen; when nothing mutated the stores in between,
/// the second comparison cannot differ.
pub proof fn lemma_build_idempotent(
    pre: Manager,
    mid: Manager,
    last: CensusUpdate,
    u1: CensusUpdate,
    c1: bool,
    u2: CensusUpdate,
    c2: bool,
)
    requires
        mid.gossip == pre.gossip,
        u1 == spec_current_update(pre.gossip),
        c1 == (u1 != last),
        u2 == spec_current_update(mid.gossip),
        c2 == (u2 != u1),
    ensures
        u2 == u1,
        c2 == false,
{
}

} // verus!
