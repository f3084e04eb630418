//! The vocabulary of remote operations against the daemon and the outcomes
//! the embedding program reports back for them.

use vstd::prelude::*;

verus! {

/// One of the four mirrored adapter properties.
#[derive(Clone, Copy, Debug, PartialEq, Eq, Structural)]
pub enum AdapterField {
    Name,
    Powered,
    Discoverable,
    Pairable,
}

/// A remote property write failed; `field` names the property whose write
/// was rejected. The mirror is left unchanged for that field.
#[derive(Clone, Copy, Debug, PartialEq, Eq, Structural)]
pub struct RemoteWriteError {
    pub field: AdapterField,
}

/// A remote operation the orchestrator directs the embedding program to
/// perform against the daemon: a property write on the adapter interface,
/// or a method call on the agent-manager or network-server interface.
#[derive(Clone, Debug, PartialEq, Eq)]
pub enum RemoteCall {
    SetAlias(String),
    SetPowered(bool),
    SetPairable(bool),
    SetDiscoverable(bool),
    RegisterAgent,
    RequestDefaultAgent,
    UnregisterAgent,
    RegisterBridge(String),
    UnregisterBridge,
}

/// The mathematical image of a `RemoteCall`: the same shape, with every
/// string replaced by its character sequence.
pub enum CallView {
    SetAlias(Seq<char>),
    SetPowered(bool),
    SetPairable(bool),
    SetDiscoverable(bool),
    RegisterAgent,
    RequestDefaultAgent,
    UnregisterAgent,
    RegisterBridge(Seq<char>),
    UnregisterBridge,
}

impl View for RemoteCall {
    type V = CallView;

    open spec fn view(&self) -> CallView {
        match self {
            RemoteCall::SetAlias(n) => CallView::SetAlias(n@),
            RemoteCall::SetPowered(v) => CallView::SetPowered(*v),
            RemoteCall::SetPairable(v) => CallView::SetPairable(*v),
            RemoteCall::SetDiscoverable(v) => CallView::SetDiscoverable(*v),
            RemoteCall::RegisterAgent => CallView::RegisterAgent,
            RemoteCall::RequestDefaultAgent => CallView::RequestDefaultAgent,
            RemoteCall::UnregisterAgent => CallView::UnregisterAgent,
            RemoteCall::RegisterBridge(b) => CallView::RegisterBridge(b@),
            RemoteCall::UnregisterBridge => CallView::UnregisterBridge,
        }
    }
}

/// A sequence of issued remote calls, as mathematical values.
pub open spec fn transcript(calls: Seq<RemoteCall>) -> Seq<CallView> {
    calls.map_values(|c: RemoteCall| c@)
}

/// Outcomes of the remote writes of the discoverable sequence, one per
/// write in issue order. An outcome after the first failed write is never
/// consulted, since the sequence short-circuits.
#[derive(Clone, Copy, Debug, PartialEq, Eq, Structural)]
pub struct WriteOutcomes {
    pub name_ok: bool,
    pub powered_ok: bool,
    pub pairable_ok: bool,
    pub discoverable_ok: bool,
}

/// Outcomes of the two agent-manager method calls of agent registration.
/// `request_default_ok` is never consulted when `register_ok` is false.
#[derive(Clone, Copy, Debug, PartialEq, Eq, Structural)]
pub struct AgentOutcomes {
    pub register_ok: bool,
    pub request_default_ok: bool,
}

/// Outcomes of the teardown sequence. The two unregistration outcomes are
/// accepted but never consulted: unregistration is best-effort and its
/// failure is ignored. The three final property writes must succeed.
#[derive(Clone, Copy, Debug, PartialEq, Eq, Structural)]
pub struct ShutdownOutcomes {
    pub unregister_agent_ok: bool,
    pub unregister_bridge_ok: bool,
    pub discoverable_ok: bool,
    pub pairable_ok: bool,
    pub powered_ok: bool,
}

/// Agent registration failed; the variant names the first agent-manager
/// call that was rejected. Non-fatal: the adapter stays configured.
#[derive(Clone, Copy, Debug, PartialEq, Eq, Structural)]
pub enum AgentRegistrationError {
    RegisterAgent,
    RequestDefaultAgent,
}

/// The daemon rejected the network-server registration call. Non-fatal to
/// startup: it is reported and does not unwind the agent registration.
#[derive(Clone, Copy, Debug, PartialEq, Eq, Structural)]
pub struct BridgeRegistrationError;

/// Why the startup query of the adapter properties failed: the daemon could
/// not be reached at all, or one specific property read was rejected.
#[derive(Clone, Copy, Debug, PartialEq, Eq, Structural)]
pub enum QueryError {
    RemoteUnavailable,
    PropertyRead(AdapterField),
}

/// The first failure of the startup sequence: either the property query or
/// one of the writes of the discoverable sequence. Fatal: the process must
/// not proceed to registration.
#[derive(Clone, Copy, Debug, PartialEq, Eq, Structural)]
pub enum StartupError {
    Query(QueryError),
    Write(RemoteWriteError),
}

} // verus!
