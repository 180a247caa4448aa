//! Per-service process lifecycle: the supervisor owns exactly one
//! child process and turns lifecycle decisions into platform requests.
//!
//! The verified state machine here decides *what* is requested of the
//! platform and records it in order; performing the requests (spawn,
//! wait with a bounded timeout, raw signal delivery) is the process
//! edge's job.

use vstd::prelude::*;

use crate::error::Error;
use crate::package::PackageIdent;

verus! {

/// The platform identity a service process runs as, resolved once at
/// service creation.
#[derive(Debug)]
pub struct RuntimeConfig {
    pub svc_user: String,
    pub svc_group: String,
}

impl RuntimeConfig {
    pub fn new(svc_user: String, svc_group: String) -> (r: RuntimeConfig)
        ensures
            r == (RuntimeConfig { svc_user, svc_group }),
    {
        RuntimeConfig { svc_user, svc_group }
    }
}

/// One request issued to the platform, in issue order. A stop request
/// carries graceful-then-forced semantics, bounded by a timeout, at
/// the platform edge.
#[derive(Clone, Copy, Debug, PartialEq, Eq, Structural)]
pub enum PlatformRequest {
    Spawn(u32),
    StopProcess(u32),
    SignalProcess(u32, u32),
}

/// Owns one service's child process: its identifier when running, and
/// the ordered log of lifecycle requests issued for it.
#[derive(Debug)]
pub struct Supervisor {
    pub ident: PackageIdent,
    pub runtime: RuntimeConfig,
    pub pid: Option<u32>,
    pub requests: Vec<PlatformRequest>,
}

/// The request log after a graceful stop: extended by one stop request
/// when a process was running, untouched otherwise.
pub open spec fn spec_after_down(s: Supervisor) -> Seq<PlatformRequest> {
    match s.pid {
        Some(p) => s.requests@.push(PlatformRequest::StopProcess(p)),
        None => s.requests@,
    }
}

/// The request log after forwarding a signal: extended by one signal
/// request when a process was running, untouched otherwise.
pub open spec fn spec_after_signal(s: Supervisor, code: u32) -> Seq<PlatformRequest> {
    match s.pid {
        Some(p) => s.requests@.push(PlatformRequest::SignalProcess(p, code)),
        None => s.requests@,
    }
}

impl Supervisor {
    pub fn new(ident: PackageIdent, runtime: RuntimeConfig) -> (r: Supervisor)
        ensures
            r.ident == ident,
            r.runtime == runtime,
            r.pid is None,
            r.requests@ =~= Seq::<PlatformRequest>::empty(),
    {
        Supervisor { ident, runtime, pid: None, requests: Vec::new() }
    }

    /// Requests a process spawn under `pid`, the identity the platform
    /// assigns. Starting while a process is already running is a
    /// caller error, refused without a duplicate spawn.
    pub fn start(&mut self, pid: u32) -> (r: Result<(), Error>)
        ensures
            match r {
                Ok(()) => {
                    &&& old(self).pid is None
                    &&& final(self).pid == Some(pid)
                    &&& final(self).requests@ == old(self).requests@.push(
                        PlatformRequest::Spawn(pid),
                    )
                },
                Err(e) => {
                    &&& e == Error::AlreadyRunning
                    &&& old(self).pid is Some
                    &&& *final(self) == *old(self)
                },
            },
            final(self).ident == old(self).ident,
            final(self).runtime == old(self).runtime,
    {
        if self.pid.is_some() {
            return Err(Error::AlreadyRunning);
        }
        self.requests.push(PlatformRequest::Spawn(pid));
        self.pid = Some(pid);
        Ok(())
    }

    /// Requests a graceful stop of the running process, if any; the
    /// platform edge waits bounded by a timeout and escalates to a
    /// forced kill on its own. Safe to call with nothing running.
    pub fn down(&mut self) -> (r: Result<(), Error>)
        ensures
            r is Ok,
            final(self).pid is None,
            final(self).requests@ == spec_after_down(*old(self)),
            final(self).ident == old(self).ident,
            final(self).runtime == old(self).runtime,
    {
        match self.pid {
            Some(p) => {
                self.requests.push(PlatformRequest::StopProcess(p));
                self.pid = None;
            },
            None => {},
        }
        Ok(())
    }

    /// Stops the process if one runs, then requests a spawn with the
    /// current package under the new platform identity.
    pub fn restart(&mut self, pid: u32) -> (r: Result<(), Error>)
        ensures
            r is Ok,
            final(self).pid == Some(pid),
            final(self).requests@ == spec_after_down(*old(self)).push(PlatformRequest::Spawn(pid)),
            final(self).ident == old(self).ident,
            final(self).runtime == old(self).runtime,
    {
        let _ = self.down();
        self.start(pid)
    }

    /// Forwards a raw signal to the running process; a no-op, not an
    /// error, when no process exists.
    pub fn send_signal(&mut self, code: u32) -> (r: Result<(), Error>)
        ensures
            r is Ok,
            final(self).pid == old(self).pid,
            final(self).requests@ == spec_after_signal(*old(self), code),
            final(self).ident == old(self).ident,
            final(self).runtime == old(self).runtime,
    {
        match self.pid {
            Some(p) => {
                self.requests.push(PlatformRequest::SignalProcess(p, code));
            },
            None => {},
        }
        Ok(())
    }
}

} // verus!
