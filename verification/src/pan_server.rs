//! The network-bridge service object: the passive callback side that the
//! daemon notifies when a peer binds or releases the personal-area-network
//! service on a local bridge interface.

use vstd::prelude::*;

verus! {

/// The daemon rejected a register callback. Never produced by the default
/// policy, which accepts every registration.
#[derive(Clone, Copy, Debug, PartialEq, Eq, Structural)]
pub struct RegistrationRejected;

/// An unregister callback arrived for a service that was not in use. Never
/// produced by the default policy, which accepts every release.
#[derive(Clone, Copy, Debug, PartialEq, Eq, Structural)]
pub struct Unused;

/// An outstanding binding of the network-bridge service: the well-known
/// service identifier and the bridge interface it was bound to.
#[derive(Clone, Debug, PartialEq, Eq)]
pub struct BridgeRegistration {
    pub service_id: String,
    pub bridge_interface: String,
}

/// The network-server callback object. The daemon invokes `register` and
/// `unregister` on it when a peer binds or releases the service; both are
/// auto-accepted, and the current binding is recorded so the embedding
/// program can report it.
pub struct BluetoothPANServer {
    pub registration: Option<BridgeRegistration>,
}

impl BluetoothPANServer {
    /// A fresh callback object with no binding recorded.
    pub fn new() -> (s: Self)
        ensures
            s.registration is None,
    {
        BluetoothPANServer { registration: None }
    }

    /// A peer bound the service `uuid` to the bridge interface `bridge`:
    /// record the binding and accept.
    pub fn register(&mut self, uuid: &str, bridge: &str) -> (r: Result<(), RegistrationRejected>)
        ensures
            r == Ok::<(), RegistrationRejected>(()),
            final(self).registration matches Some(reg) && reg.service_id@ == uuid@
                && reg.bridge_interface@ == bridge@,
    {
        self.registration = Some(
            BridgeRegistration { service_id: uuid.to_owned(), bridge_interface: bridge.to_owned() },
        );
        Ok(())
    }

    /// A peer released the service: drop the recorded binding and accept,
    /// whatever service identifier the daemon names.
    pub fn unregister(&mut self, _uuid: &str) -> (r: Result<(), Unused>)
        ensures
            r == Ok::<(), Unused>(()),
            final(self).registration is None,
    {
        self.registration = None;
        Ok(())
    }
}

} // verus!
