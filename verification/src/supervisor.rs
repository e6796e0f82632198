//! The backend supervisor: the state record that owns the spawned
//! server's port and child handle, the URL and argument builders, the
//! readiness decision, and the take-at-most-once shutdown step.

use vstd::prelude::*;
use vstd::string::StringExecFns;
use crate::decimal::{decimal_of, u16_decimal};

verus! {

/// The supervisor's state: the port the backend was told to bind, fixed
/// for the supervisor's lifetime, and the handle of the child process,
/// present until shutdown takes it.
///
/// The handle is an opaque token chosen by the caller that spawned the
/// process (for instance the OS process id); the supervisor only stores
/// and releases it.
pub struct BackendProcess {
    pub port: u16,
    pub child: Option<u64>,
}

/// The base URL of the backend's API for a given port:
/// `http://localhost:<port>/api`.
pub open spec fn api_url_spec(port: u16) -> Seq<char> {
    "http://localhost:"@ + decimal_of(port as nat) + "/api"@
}

/// The health-check URL for a given port:
/// `http://localhost:<port>/actuator/health`.
pub open spec fn health_url_spec(port: u16) -> Seq<char> {
    "http://localhost:"@ + decimal_of(port as nat) + "/actuator/health"@
}

/// The port flag handed to the spawned backend:
/// `--server.port=<port>`.
pub open spec fn server_port_arg_spec(port: u16) -> Seq<char> {
    "--server.port="@ + decimal_of(port as nat)
}

/// A health probe outcome is "ready" exactly when a response arrived
/// and its status code lies in the success range 200..=299.
pub open spec fn ready_spec(status: Option<u16>) -> bool {
    status matches Some(code) && 200 <= code < 300
}

/// Shutdown as a state transition: empty the child slot, keep the port,
/// and hand back whatever handle was stored.
pub open spec fn shutdown_spec(s: BackendProcess) -> (BackendProcess, Option<u64>) {
    (BackendProcess { port: s.port, child: None }, s.child)
}

impl BackendProcess {
    /// A well-formed supervisor stores a usable port: non-zero, as an
    /// OS-assigned ephemeral port always is.
    pub open spec fn wf(&self) -> bool {
        1 <= self.port
    }

    /// The setup decision: a supervisor is registered exactly when the
    /// spawn succeeded (a handle exists) and the allocated port is
    /// usable. On any failure no state is created.
    pub fn register_backend(port: u16, spawned: Option<u64>) -> (r: Option<BackendProcess>)
        ensures
            r is Some <==> (1 <= port && spawned is Some),
            r matches Some(s) ==> s.port == port && s.child == spawned && s.wf(),
    {
        if port >= 1 {
            match spawned {
                Some(id) => Some(BackendProcess { port, child: Some(id) }),
                None => None,
            }
        } else {
            None
        }
    }

    /// The API base URL. Pure: the result is a function of the stored
    /// port alone.
    pub fn get_api_url(&self) -> (r: String)
        ensures
            r@ == api_url_spec(self.port),
    {
        let mut s = String::from_str("http://localhost:");
        let digits = u16_decimal(self.port);
        s.append(digits.as_str());
        s.append("/api");
        s
    }

    /// The health-check URL. Pure in the same way.
    pub fn health_url(&self) -> (r: String)
        ensures
            r@ == health_url_spec(self.port),
    {
        let mut s = String::from_str("http://localhost:");
        let digits = u16_decimal(self.port);
        s.append(digits.as_str());
        s.append("/actuator/health");
        s
    }

    /// Takes the child handle, at most once: the slot is empty
    /// afterwards, the port is unchanged, and the caller receives the
    /// handle exactly if one was still stored.
    pub fn shutdown(&mut self) -> (r: Option<u64>)
        ensures
            r == old(self).child,
            final(self).child is None,
            final(self).port == old(self).port,
            *final(self) == shutdown_spec(*old(self)).0,
            r == shutdown_spec(*old(self)).1,
    {
        let taken = self.child.take();
        taken
    }
}

/// A framework-level event, as far as the supervisor cares: the host
/// asked the application to exit, or anything else.
pub enum RunEvent {
    ExitRequested,
    Other,
}

impl BackendProcess {
    /// The run-event hook's decision: only an exit request triggers the
    /// shutdown step; every other event leaves the state untouched and
    /// yields no handle to kill.
    pub fn handle_run_event(&mut self, event: &RunEvent) -> (r: Option<u64>)
        ensures
            event is ExitRequested ==> *final(self) == shutdown_spec(*old(self)).0 && r
                == shutdown_spec(*old(self)).1,
            event is Other ==> *final(self) == *old(self) && r is None,
    {
        match event {
            RunEvent::ExitRequested => self.shutdown(),
            RunEvent::Other => None,
        }
    }
}

/// Shutdown is idempotent: a second shutdown observes an empty child
/// slot, returns no handle to kill, and leaves the state unchanged.
pub proof fn lemma_shutdown_idempotent(s: BackendProcess)
    ensures
        shutdown_spec(shutdown_spec(s).0).1 is None,
        shutdown_spec(shutdown_spec(s).0).0 == shutdown_spec(s).0,
{
}

/// Every registered supervisor stores a port in the usable range
/// 1..=65535: registration refuses port zero, and no larger value fits
/// the port's type.
pub proof fn lemma_registered_port_in_range(s: BackendProcess)
    requires
        s.wf(),
    ensures
        1 <= s.port <= 65535,
{
}

/// The API URL depends on the stored port alone: two supervisors with
/// the same port yield the same URL, whatever their child slots hold.
pub proof fn lemma_api_url_pure(s1: BackendProcess, s2: BackendProcess)
    requires
        s1.port == s2.port,
    ensures
        api_url_spec(s1.port) == api_url_spec(s2.port),
{
}

/// Decides readiness from a probe outcome: `true` exactly for a
/// response with a status code in the success range 200..=299; `false`
/// for any other status and for a failed request (`None`).
pub fn ready_from_status(status: Option<u16>) -> (r: bool)
    ensures
        r == ready_spec(status),
{
    match status {
        Some(code) => 200 <= code && code < 300,
        None => false,
    }
}

/// The command-line arguments the spawned backend is configured with:
/// the allocated port, a fixed operating profile, and a fixed log level.
pub fn backend_args(port: u16) -> (r: Vec<String>)
    ensures
        r@.len() == 3,
        r@[0]@ == server_port_arg_spec(port),
        r@[1]@ == "--spring.profiles.active=desktop"@,
        r@[2]@ == "--logging.level.root=INFO"@,
{
    let mut args: Vec<String> = Vec::new();
    let mut port_arg = String::from_str("--server.port=");
    let digits = u16_decimal(port);
    port_arg.append(digits.as_str());
    args.push(port_arg);
    args.push(String::from_str("--spring.profiles.active=desktop"));
    args.push(String::from_str("--logging.level.root=INFO"));
    args
}

} // verus!
