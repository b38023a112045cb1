//! Lifecycle state of the daemon and the handle that owns it.
//!
//! The daemon is always in exactly one of three states. It starts `Running`,
//! may alternate between `Running` and `Paused`, and ends in `Stopped`, which
//! is terminal: no operation leaves `Stopped`.

use vstd::prelude::*;

verus! {

/// Observable lifecycle state of the service.
#[derive(Clone, Copy, PartialEq, Eq, Structural, Debug)]
pub enum ServiceState {
    Running,
    Paused,
    Stopped,
}

/// Error produced by a lifecycle operation that is invalid for the current
/// state. Always recoverable: it is reported to the control client and never
/// terminates the daemon.
#[derive(Clone, Copy, PartialEq, Eq, Structural, Debug)]
pub enum OperationError {
    /// Pause was requested while the service was not running.
    InvalidPause { from: ServiceState },
    /// Resume was requested while the service was not paused.
    InvalidResume { from: ServiceState },
    /// Stop was requested after the service had already stopped.
    InvalidStop { from: ServiceState },
}

/// Name of a lifecycle state, as reported in a status response.
pub open spec fn spec_state_name(s: ServiceState) -> Seq<char> {
    match s {
        ServiceState::Running => "Running"@,
        ServiceState::Paused => "Paused"@,
        ServiceState::Stopped => "Stopped"@,
    }
}

impl ServiceState {
    /// Human-readable name of the state, used as the `status` field of a
    /// status response.
    pub fn name(&self) -> (r: &'static str)
        ensures
            r@ == spec_state_name(*self),
    {
        match self {
            ServiceState::Running => "Running",
            ServiceState::Paused => "Paused",
            ServiceState::Stopped => "Stopped",
        }
    }
}

impl OperationError {
    /// Human-readable message of the error, delivered to the control client
    /// in a failure response.
    pub fn message(&self) -> (r: &'static str)
        ensures
            self is InvalidPause ==> r@ == "cannot pause: service is not running"@,
            self is InvalidResume ==> r@ == "cannot resume: service is not paused"@,
            self is InvalidStop ==> r@ == "cannot stop: service has already stopped"@,
    {
        match self {
            OperationError::InvalidPause { .. } => "cannot pause: service is not running",
            OperationError::InvalidResume { .. } => "cannot resume: service is not paused",
            OperationError::InvalidStop { .. } => "cannot stop: service has already stopped",
        }
    }
}

/// Mathematical view of a service handle: its lifecycle state and the fixed
/// network address established at construction.
pub struct HandleView {
    pub state: ServiceState,
    pub host: Seq<char>,
    pub port: u16,
}

/// Owner of the daemon's lifecycle state and of its bound network address.
///
/// The address is fixed at construction; only `pause`, `resume` and `stop`
/// mutate the state, and each of them rejects a transition that is invalid
/// for the current state.
pub struct ServiceHandle {
    state: ServiceState,
    host: String,
    port: u16,
}

impl View for ServiceHandle {
    type V = HandleView;

    closed spec fn view(&self) -> HandleView {
        HandleView { state: self.state, host: self.host@, port: self.port }
    }
}

impl ServiceHandle {
    /// Constructs a handle for a service bound at `host:port`; a freshly
    /// started service is `Running`.
    pub fn new(host: String, port: u16) -> (r: ServiceHandle)
        ensures
            r@.state == ServiceState::Running,
            r@.host == host@,
            r@.port == port,
    {
        ServiceHandle { state: ServiceState::Running, host, port }
    }

    /// The fixed address established at construction. Pure: never fails,
    /// never blocks.
    pub fn address(&self) -> (r: (String, u16))
        ensures
            r.0@ == self@.host,
            r.1 == self@.port,
    {
        (self.host.clone(), self.port)
    }

    /// Current lifecycle state. Pure read: never fails and never mutates.
    pub fn status(&self) -> (r: ServiceState)
        ensures
            r == self@.state,
    {
        self.state
    }

    /// Pauses the service: valid only from `Running`, in which case the
    /// service stops accepting new work while connections already in
    /// progress keep being served. From any other state the handle is left
    /// unchanged and the invalid transition is reported.
    pub fn pause(&mut self) -> (r: Result<(), OperationError>)
        ensures
            final(self)@.host == old(self)@.host,
            final(self)@.port == old(self)@.port,
            old(self)@.state == ServiceState::Running ==> {
                &&& r is Ok
                &&& final(self)@.state == ServiceState::Paused
            },
            old(self)@.state != ServiceState::Running ==> {
                &&& r == Result::<(), OperationError>::Err(
                    OperationError::InvalidPause { from: old(self)@.state },
                )
                &&& final(self)@.state == old(self)@.state
            },
    {
        match self.state {
            ServiceState::Running => {
                self.state = ServiceState::Paused;
                Ok(())
            },
            _ => Err(OperationError::InvalidPause { from: self.state }),
        }
    }

    /// Resumes the service: valid only from `Paused`, in which case the
    /// service accepts new work again. From any other state the handle is
    /// left unchanged and the invalid transition is reported.
    pub fn resume(&mut self) -> (r: Result<(), OperationError>)
        ensures
            final(self)@.host == old(self)@.host,
            final(self)@.port == old(self)@.port,
            old(self)@.state == ServiceState::Paused ==> {
                &&& r is Ok
                &&& final(self)@.state == ServiceState::Running
            },
            old(self)@.state != ServiceState::Paused ==> {
                &&& r == Result::<(), OperationError>::Err(
                    OperationError::InvalidResume { from: old(self)@.state },
                )
                &&& final(self)@.state == old(self)@.state
            },
    {
        match self.state {
            ServiceState::Paused => {
                self.state = ServiceState::Running;
                Ok(())
            },
            _ => Err(OperationError::InvalidResume { from: self.state }),
        }
    }

    /// Stops the service: valid from `Running` or `Paused`; the service
    /// stops serving new work, and requests in flight are dropped. `Stopped`
    /// is terminal: a second stop is rejected and the handle is left
    /// unchanged.
    pub fn stop(&mut self) -> (r: Result<(), OperationError>)
        ensures
            final(self)@.host == old(self)@.host,
            final(self)@.port == old(self)@.port,
            old(self)@.state != ServiceState::Stopped ==> {
                &&& r is Ok
                &&& final(self)@.state == ServiceState::Stopped
            },
            old(self)@.state == ServiceState::Stopped ==> {
                &&& r == Result::<(), OperationError>::Err(
                    OperationError::InvalidStop { from: ServiceState::Stopped },
                )
                &&& final(self)@.state == ServiceState::Stopped
            },
    {
        match self.state {
            ServiceState::Stopped => Err(OperationError::InvalidStop { from: self.state }),
            _ => {
                self.state = ServiceState::Stopped;
                Ok(())
            },
        }
    }
}

} // verus!
