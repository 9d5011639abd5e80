//! The decisions of the server's lifecycle: the one-message startup handoff
//! from the server thread to the caller, and a shutdown that stops the server
//! once however often it is asked.

use vstd::prelude::*;

verus! {

/// Errors that keep the server from starting.
#[derive(Debug)]
pub enum RestApiServerError {
    /// The server could not start: bind failure or a broken handoff.
    StartUpError(String),
}

/// The message reported when the server thread could not hand over its
/// control handle.
pub open spec fn send_failure_message() -> Seq<char> {
    "Unable to send Server Addr"@
}

/// The message reported when the caller received no control handle.
pub open spec fn receive_failure_message() -> Seq<char> {
    "Unable to receive Server Addr"@
}

/// The server thread's side of the handoff: whether its one message reached
/// the caller. A failed send is a startup failure.
pub fn confirm_sent(sent: bool) -> (r: Result<(), RestApiServerError>)
    ensures
        sent ==> r is Ok,
        !sent ==> r is Err && r->Err_0 is StartUpError && r->Err_0->StartUpError_0@
            == send_failure_message(),
{
    if sent {
        Ok(())
    } else {
        Err(RestApiServerError::StartUpError("Unable to send Server Addr".to_owned()))
    }
}

/// The caller's side of the handoff: the control handle the server thread
/// sent, or `None` when the thread ended without sending one (the bind
/// failed). The caller never starts without a handle.
pub fn receive_server<S>(received: Option<S>) -> (r: Result<S, RestApiServerError>)
    ensures
        received is Some ==> r == Ok::<S, RestApiServerError>(received->Some_0),
        received is None ==> r is Err && r->Err_0 is StartUpError && r->Err_0->StartUpError_0@
            == receive_failure_message(),
{
    match received {
        Some(server) => Ok(server),
        None => Err(RestApiServerError::StartUpError("Unable to receive Server Addr".to_owned())),
    }
}

/// Whether the server a shutdown handle controls has been told to stop.
#[derive(Debug)]
pub struct ShutdownState {
    stopped: bool,
}

impl ShutdownState {
    pub closed spec fn is_stopped(self) -> bool {
        self.stopped
    }

    /// The state after a shutdown request.
    pub open spec fn after_stop(self) -> ShutdownState {
        ShutdownState::stopped_state()
    }

    pub closed spec fn stopped_state() -> ShutdownState {
        ShutdownState { stopped: true }
    }

    /// Whether a shutdown request in this state must stop the server.
    pub open spec fn stop_issued(self) -> bool {
        !self.is_stopped()
    }

    /// The state of a server that is running.
    pub fn new() -> (r: ShutdownState)
        ensures
            !r.is_stopped(),
    {
        ShutdownState { stopped: false }
    }

    /// Whether the server has been told to stop.
    pub fn stopped(&self) -> (r: bool)
        ensures
            r == self.is_stopped(),
    {
        self.stopped
    }

    /// Records a shutdown request and says whether the caller must stop the
    /// server: only the first request does; later ones are no-ops.
    pub fn begin_stop(&mut self) -> (issue: bool)
        ensures
            issue == old(self).stop_issued(),
            *final(self) == old(self).after_stop(),
            final(self).is_stopped(),
    {
        let issue = !self.stopped;
        self.stopped = true;
        issue
    }
}

/// Shutdown is idempotent: after one request the server is stopped, a second
/// request stops nothing, and it leaves the state as it was.
pub proof fn lemma_shutdown_idempotent(s: ShutdownState)
    ensures
        s.after_stop().is_stopped(),
        !s.after_stop().stop_issued(),
        s.after_stop().after_stop() == s.after_stop(),
{
}

} // verus!
