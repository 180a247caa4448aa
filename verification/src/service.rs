//! One supervised service: the manager's handle for a process,
//! its package, its policies, and its update hand-off channel.

use vstd::prelude::*;

use crate::census::{
    spec_ce_like, spec_sg_eq, CensusEntry, CensusList, ServiceGroup,
};
use crate::error::Error;
use crate::package::Package;
use crate::supervisor::{
    spec_after_down, spec_after_signal, RuntimeConfig, Supervisor,
};
use crate::updater::{HandoffResult, UpdateInbox};

verus! {

/// How a service's role is derived and how it reacts to restarts.
/// The restart policy per topology is a pluggable strategy slot, not
/// fixed here.
#[derive(Clone, Copy, Debug, PartialEq, Eq, Structural)]
pub enum Topology {
    Standalone,
    Leader,
}

/// Whether a background update checker exists for a service at all.
#[derive(Clone, Copy, Debug, PartialEq, Eq, Structural)]
pub enum UpdateStrategy {
    /// No checker is spawned for the service.
    Disabled,
    AtOnce,
}

/// A service's runtime configuration, recomputed from the census
/// whenever the census is rebuilt.
#[derive(Debug)]
pub struct ServiceConfig {
    pub group: ServiceGroup,
    pub entries: Vec<CensusEntry>,
}

/// The census rows that belong to group `g`, in census order.
pub open spec fn spec_group_entries(s: Seq<CensusEntry>, g: ServiceGroup) -> Seq<CensusEntry>
    decreases s.len(),
{
    if s.len() == 0 {
        Seq::<CensusEntry>::empty()
    } else {
        let rest = spec_group_entries(s.drop_last(), g);
        if spec_sg_eq(s.last().service_group, g) {
            rest.push(s.last())
        } else {
            rest
        }
    }
}

///`a` carries the same rows as `b`, field for field.
pub open spec fn spec_entries_like(a: Seq<CensusEntry>, b: Seq<CensusEntry>) -> bool {
    a.len() == b.len() && forall|i: int|
        0 <= i < a.len() ==> spec_ce_like(#[trigger] a[i], b[i])
}

/// The manager's handle for one supervised process.
#[derive(Debug)]
pub struct Service {
    pub service_group: ServiceGroup,
    pub supervisor: Supervisor,
    pub package: Package,
    pub needs_restart: bool,
    pub topology: Topology,
    pub update_strategy: UpdateStrategy,
    /// Receiving side of the update checker's hand-off channel;
    /// absent when the update strategy spawns no checker.
    pub update_inbox: Option<UpdateInbox>,
    /// Runtime configuration from the last census rebuild, if any.
    pub config: Option<ServiceConfig>,
}

/// The service after one non-blocking poll of its update channel: a
/// delivered package is applied and flagged for restart, a detected
/// disconnect respawns the checker, an empty channel is a no-op.
pub open spec fn spec_drain(s: Service) -> Service {
    match s.update_inbox {
        None => s,
        Some(inbox) => match inbox.slot {
            Some(pkg) => Service {
                package: pkg,
                needs_restart: true,
                update_inbox: Some(UpdateInbox { slot: None, connected: inbox.connected }),
                ..s
            },
            None => if inbox.connected {
                s
            } else {
                Service { update_inbox: Some(UpdateInbox { slot: None, connected: true }), ..s }
            },
        },
    }
}

/// `post` is `pre` with its process gracefully stopped and everything
/// else untouched.
pub open spec fn spec_downed(pre: Service, post: Service) -> bool {
    &&& post.supervisor.pid is None
    &&& post.supervisor.requests@ == spec_after_down(pre.supervisor)
    &&& post.supervisor.ident == pre.supervisor.ident
    &&& post.supervisor.runtime == pre.supervisor.runtime
    &&& post.service_group == pre.service_group
    &&& post.package == pre.package
    &&& post.needs_restart == pre.needs_restart
    &&& post.topology == pre.topology
    &&& post.update_strategy == pre.update_strategy
    &&& post.update_inbox == pre.update_inbox
    &&& post.config == pre.config
}

/// `post` is `pre` with one raw signal forwarded to its process, if
/// one runs, and everything else untouched.
pub open spec fn spec_signaled(pre: Service, post: Service, code: u32) -> bool {
    &&& post.supervisor.pid == pre.supervisor.pid
    &&& post.supervisor.requests@ == spec_after_signal(pre.supervisor, code)
    &&& post.supervisor.ident == pre.supervisor.ident
    &&& post.supervisor.runtime == pre.supervisor.runtime
    &&& post.service_group == pre.service_group
    &&& post.package == pre.package
    &&& post.needs_restart == pre.needs_restart
    &&& post.topology == pre.topology
    &&& post.update_strategy == pre.update_strategy
    &&& post.update_inbox == pre.update_inbox
    &&& post.config == pre.config
}

impl Service {
    /// Creates the handle: resolves the run-as identity from the
    /// package, prepares the supervisor, and opens an update channel
    /// when the strategy calls for a checker.
    pub fn new(
        service_group: ServiceGroup,
        package: Package,
        topology: Topology,
        update_strategy: UpdateStrategy,
    ) -> (r: Service)
        ensures
            r.service_group == service_group,
            r.package == package,
            r.needs_restart == false,
            r.topology == topology,
            r.update_strategy == update_strategy,
            r.supervisor.pid is None,
            r.supervisor.requests@ =~= Seq::<crate::supervisor::PlatformRequest>::empty(),
            r.supervisor.ident == package.ident,
            r.supervisor.runtime.svc_user == package.svc_user,
            r.supervisor.runtime.svc_group == package.svc_group,
            r.update_inbox is Some <==> update_strategy != UpdateStrategy::Disabled,
            match r.update_inbox {
                Some(inbox) => inbox.slot is None && inbox.connected,
                None => true,
            },
            r.config is None,
    {
        let runtime = RuntimeConfig::new(package.svc_user.clone(), package.svc_group.clone());
        let supervisor = Supervisor::new(package.ident.clone(), runtime);
        let update_inbox = if update_strategy != UpdateStrategy::Disabled {
            Some(UpdateInbox::new())
        } else {
            None
        };
        Service {
            service_group,
            supervisor,
            package,
            needs_restart: false,
            topology,
            update_strategy,
            update_inbox,
            config: None,
        }
    }

    /// Requests a process start; a caller error while one is running.
    pub fn start(&mut self, pid: u32) -> (r: Result<(), Error>)
        ensures
            match r {
                Ok(()) => {
                    &&& old(self).supervisor.pid is None
                    &&& final(self).supervisor.pid == Some(pid)
                    &&& final(self).supervisor.requests@ == old(self).supervisor.requests@.push(
                        crate::supervisor::PlatformRequest::Spawn(pid),
                    )
                },
                Err(e) => {
                    &&& e == Error::AlreadyRunning
                    &&& old(self).supervisor.pid is Some
                    &&& *final(self) == *old(self)
                },
            },
            final(self).supervisor.ident == old(self).supervisor.ident,
            final(self).supervisor.runtime == old(self).supervisor.runtime,
            final(self).service_group == old(self).service_group,
            final(self).package == old(self).package,
            final(self).needs_restart == old(self).needs_restart,
            final(self).topology == old(self).topology,
            final(self).update_strategy == old(self).update_strategy,
            final(self).update_inbox == old(self).update_inbox,
            final(self).config == old(self).config,
    {
        self.supervisor.start(pid)
    }

    /// Stops the process if running, starts it again with the current
    /// package, and clears the pending restart flag.
    pub fn restart(&mut self, pid: u32) -> (r: Result<(), Error>)
        ensures
            r is Ok,
            final(self).needs_restart == false,
            final(self).supervisor.pid == Some(pid),
            final(self).supervisor.requests@ == spec_after_down(old(self).supervisor).push(
                crate::supervisor::PlatformRequest::Spawn(pid),
            ),
            final(self).supervisor.ident == old(self).supervisor.ident,
            final(self).supervisor.runtime == old(self).supervisor.runtime,
            final(self).service_group == old(self).service_group,
            final(self).package == old(self).package,
            final(self).topology == old(self).topology,
            final(self).update_strategy == old(self).update_strategy,
            final(self).update_inbox == old(self).update_inbox,
            final(self).config == old(self).config,
    {
        self.needs_restart = false;
        self.supervisor.restart(pid)
    }

    /// Gracefully stops the process; safe with nothing running.
    pub fn down(&mut self) -> (r: Result<(), Error>)
        ensures
            r is Ok,
            spec_downed(*old(self), *final(self)),
    {
        self.supervisor.down()
    }

    /// Forwards a raw signal to the process; a no-op without one.
    pub fn send_signal(&mut self, code: u32) -> (r: Result<(), Error>)
        ensures
            r is Ok,
            spec_signaled(*old(self), *final(self), code),
    {
        self.supervisor.send_signal(code)
    }

    /// Recomputes the runtime configuration from a fresh census: the
    /// rows of this service's group, in census order.
    pub fn reconfigure(&mut self, census: &CensusList)
        ensures
            final(self).config is Some,
            final(self).config->Some_0.group == old(self).service_group,
            spec_entries_like(
                final(self).config->Some_0.entries@,
                spec_group_entries(census.entries@, old(self).service_group),
            ),
            final(self).service_group == old(self).service_group,
            final(self).supervisor == old(self).supervisor,
            final(self).package == old(self).package,
            final(self).needs_restart == old(self).needs_restart,
            final(self).topology == old(self).topology,
            final(self).update_strategy == old(self).update_strategy,
            final(self).update_inbox == old(self).update_inbox,
    {
        let mut entries: Vec<CensusEntry> = Vec::new();
        let mut i: usize = 0;
        while i < census.entries.len()
            invariant
                i <= census.entries@.len(),
                spec_entries_like(
                    entries@,
                    spec_group_entries(census.entries@.take(i as int), self.service_group),
                ),
            decreases census.entries@.len() - i,
        {
            proof {
                assert(census.entries@.take(i + 1).drop_last() =~= census.entries@.take(i as int));
                assert(census.entries@.take(i + 1).last() == census.entries@[i as int]);
            }
            if census.entries[i].service_group.same_group(&self.service_group) {
                entries.push(census.entries[i].clone());
            }
            i = i + 1;
        }
        proof {
            assert(census.entries@.take(census.entries@.len() as int) =~= census.entries@);
        }
        let group = self.service_group.clone();
        self.config = Some(ServiceConfig { group, entries });
    }

    /// One non-blocking poll of the update channel: applies a
    /// delivered package and flags a restart, respawns the checker on
    /// a detected disconnect, and does nothing on an empty channel.
    pub fn check_for_updated_package(&mut self)
        ensures
            *final(self) == spec_drain(*old(self)),
    {
        match self.update_inbox.take() {
            None => {},
            Some(inbox) => {
                match inbox.slot {
                    Some(pkg) => {
                        self.package = pkg;
                        self.needs_restart = true;
                        self.update_inbox = Some(
                            UpdateInbox { slot: None, connected: inbox.connected },
                        );
                    },
                    None => {
                        if inbox.connected {
                            self.update_inbox = Some(inbox);
                        } else {
                            self.update_inbox = Some(UpdateInbox::new());
                        }
                    },
                }
            },
        }
    }

    /// The checker side of the hand-off: offers a fetched package on
    /// this service's channel, if the service has one.
    pub fn deliver_update(&mut self, pkg: Package) -> (r: HandoffResult)
        ensures
            match old(self).update_inbox {
                Some(inbox) => {
                    &&& final(self).update_inbox == Some(
                        crate::updater::spec_offer(inbox, pkg),
                    )
                    &&& (r == HandoffResult::Delivered <==> inbox.connected && inbox.slot is None)
                    &&& (r == HandoffResult::Disconnected <==> !inbox.connected)
                    &&& (r == HandoffResult::Busy <==> inbox.connected && inbox.slot is Some)
                },
                None => r == HandoffResult::Disconnected && final(self).update_inbox is None,
            },
            final(self).service_group == old(self).service_group,
            final(self).supervisor == old(self).supervisor,
            final(self).package == old(self).package,
            final(self).needs_restart == old(self).needs_restart,
            final(self).topology == old(self).topology,
            final(self).update_strategy == old(self).update_strategy,
            final(self).config == old(self).config,
    {
        match self.update_inbox.take() {
            None => HandoffResult::Disconnected,
            Some(mut inbox) => {
                let r = inbox.offer(pkg);
                self.update_inbox = Some(inbox);
                r
            },
        }
    }
}

} // verus!
