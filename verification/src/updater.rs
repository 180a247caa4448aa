//! The update checker: a background task per service that polls a
//! remote package source on a fixed cadence and hands a strictly newer
//! package to its service over a single-slot channel.
//!
//! The verified core decides, from the remote descriptor observed at
//! the edge, whether a fetch is wanted, and performs the hand-off on
//! the modelled channel. Clock reads, HTTP calls, fetch, verify and
//! unpack stay at the process edge, which feeds their outcomes in.

use vstd::prelude::*;

use crate::package::{spec_newer_than, Package, PackageIdent};

verus! {

/// Milliseconds between two remote checks.
pub const UPDATE_STRATEGY_FREQUENCY_MS: u64 = 60000;

/// The deadline of the next remote check, one fixed interval from now.
pub fn next_check_at(now_ms: u64) -> (r: u64)
    requires
        now_ms <= u64::MAX - UPDATE_STRATEGY_FREQUENCY_MS,
    ensures
        r == now_ms + UPDATE_STRATEGY_FREQUENCY_MS,
{
    now_ms + UPDATE_STRATEGY_FREQUENCY_MS
}

/// How long to sleep until the deadline: work time is subtracted from
/// the interval, and a deadline already passed means no sleep at all.
pub fn time_to_wait(next_check_ms: u64, now_ms: u64) -> (r: u64)
    ensures
        r == if now_ms >= next_check_ms {
            0u64
        } else {
            (next_check_ms - now_ms) as u64
        },
{
    if now_ms >= next_check_ms {
        0
    } else {
        next_check_ms - now_ms
    }
}

/// The single-slot hand-off channel from one checker to its service:
/// capacity one, giving backpressure, torn down when either side goes
/// away.
#[derive(Debug)]
pub struct UpdateInbox {
    pub slot: Option<Package>,
    pub connected: bool,
}

/// What one hand-off attempt did.
#[derive(Clone, Copy, Debug, PartialEq, Eq, Structural)]
pub enum HandoffResult {
    /// The package now sits in the slot.
    Delivered,
    /// The slot still holds an undrained package; try again later.
    Busy,
    /// The receiving side is gone; the package is discarded.
    Disconnected,
}

/// The channel state after offering `pkg`: filled only when the
/// receiver is present and the slot is free.
pub open spec fn spec_offer(inbox: UpdateInbox, pkg: Package) -> UpdateInbox {
    if inbox.connected && inbox.slot is None {
        UpdateInbox { slot: Some(pkg), connected: inbox.connected }
    } else {
        inbox
    }
}

impl UpdateInbox {
    /// A fresh, empty, connected channel.
    pub fn new() -> (r: UpdateInbox)
        ensures
            r.slot is None,
            r.connected,
    {
        UpdateInbox { slot: None, connected: true }
    }

    /// Attempts the hand-off of one package.
    pub fn offer(&mut self, pkg: Package) -> (r: HandoffResult)
        ensures
            *final(self) == spec_offer(*old(self), pkg),
            r == HandoffResult::Delivered <==> old(self).connected && old(self).slot is None,
            r == HandoffResult::Disconnected <==> !old(self).connected,
            r == HandoffResult::Busy <==> old(self).connected && old(self).slot is Some,
    {
        if !self.connected {
            return HandoffResult::Disconnected;
        }
        if self.slot.is_some() {
            return HandoffResult::Busy;
        }
        self.slot = Some(pkg);
        HandoffResult::Delivered
    }

    /// Marks the sending side gone; anything already in the slot
    /// stays drainable.
    pub fn disconnect(&mut self)
        ensures
            final(self).slot == old(self).slot,
            !final(self).connected,
    {
        self.connected = false;
    }
}

/// Whether the remote descriptor calls for a fetch: only a strictly
/// newer release of the same package does.
pub open spec fn spec_wants_fetch(local: PackageIdent, remote: Option<PackageIdent>) -> bool {
    match remote {
        Some(r) => spec_newer_than(r, local),
        None => false,
    }
}

/// Decides from the observed remote descriptor whether the artifact
/// should be fetched; `None` stands for a failed connection or query,
/// retried on the next cycle rather than escalated.
pub fn wants_fetch(local: &PackageIdent, remote: &Option<PackageIdent>) -> (r: bool)
    ensures
        r == spec_wants_fetch(*local, *remote),
{
    match remote {
        Some(rem) => rem.newer_than(local),
        None => false,
    }
}

/// What one checker cycle reported.
#[derive(Clone, Copy, Debug, PartialEq, Eq, Structural)]
pub enum CheckOutcome {
    /// No remote descriptor could be obtained; retry next cycle.
    NoRemote,
    /// The remote release is not strictly newer than ours.
    NotNewer,
    /// A newer release was wanted but fetch, verify, unpack or load
    /// failed at the edge; retry next cycle.
    FetchFailed,
    /// The newer package was handed to the service.
    Delivered,
    /// The channel still holds an undrained package.
    Busy,
    /// The service side is gone; the package was discarded.
    Disconnected,
}

/// The channel state after one full checker cycle.
pub open spec fn spec_checker_cycle(
    local: PackageIdent,
    remote: Option<PackageIdent>,
    fetched: Option<Package>,
    inbox: UpdateInbox,
) -> UpdateInbox {
    if spec_wants_fetch(local, remote) {
        match fetched {
            Some(pkg) => spec_offer(inbox, pkg),
            None => inbox,
        }
    } else {
        inbox
    }
}

/// One cycle of the checker after the sleep: `remote` is the
/// descriptor the edge observed (or `None` on any connectivity
/// failure), and `fetched` is the package the edge fetched, verified,
/// unpacked and loaded when one was wanted (or `None` when that
/// failed). Exactly one package is handed off per detected newer
/// version; none otherwise.
pub fn run_checker_cycle(
    local: &PackageIdent,
    remote: Option<PackageIdent>,
    fetched: Option<Package>,
    inbox: &mut UpdateInbox,
) -> (r: CheckOutcome)
    ensures
        *final(inbox) == spec_checker_cycle(*local, remote, fetched, *old(inbox)),
        !spec_wants_fetch(*local, remote) ==> *final(inbox) == *old(inbox) && r == (if remote
            is None {
            CheckOutcome::NoRemote
        } else {
            CheckOutcome::NotNewer
        }),
        spec_wants_fetch(*local, remote) && fetched is None ==> *final(inbox) == *old(inbox) && r
            == CheckOutcome::FetchFailed,
        spec_wants_fetch(*local, remote) && fetched is Some ==> {
            &&& (r == CheckOutcome::Delivered <==> old(inbox).connected && old(inbox).slot is None)
            &&& (r == CheckOutcome::Disconnected <==> !old(inbox).connected)
            &&& (r == CheckOutcome::Busy <==> old(inbox).connected && old(inbox).slot is Some)
        },
{
    if !wants_fetch(local, &remote) {
        if remote.is_none() {
            return CheckOutcome::NoRemote;
        }
        return CheckOutcome::NotNewer;
    }
    match fetched {
        Some(pkg) => match inbox.offer(pkg) {
            HandoffResult::Delivered => CheckOutcome::Delivered,
            HandoffResult::Busy => CheckOutcome::Busy,
            HandoffResult::Disconnected => CheckOutcome::Disconnected,
        },
        None => CheckOutcome::FetchFailed,
    }
}

/// One checker cycle hands off exactly one package when the remote
/// release is strictly newer than the local one, and hands off none
/// when it is not.
pub proof fn lemma_update_handoff(
    local: PackageIdent,
    remote: Option<PackageIdent>,
    pkg: Package,
    inbox: UpdateInbox,
)
    requires
        inbox.connected,
        inbox.slot is None,
    ensures
        spec_wants_fetch(local, remote) ==> spec_checker_cycle(local, remote, Some(pkg), inbox)
            == (UpdateInbox { slot: Some(pkg), connected: true }),
        !spec_wants_fetch(local, remote) ==> spec_checker_cycle(local, remote, Some(pkg), inbox)
            == inbox,
{
}

} // verus!
