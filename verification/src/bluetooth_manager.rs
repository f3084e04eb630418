//! The adapter state mirror and the lifecycle orchestrator: a local copy
//! of the four adapter properties that always equals what was last
//! successfully written to the daemon, and the fixed call sequences that
//! configure the adapter, register the pairing agent and the bridge
//! service, and tear everything down again in reverse order.
//!
//! Every remote call is performed by the embedding program; the methods
//! here take the reported outcome of each call and say, for every possible
//! combination of outcomes, which calls are issued in which order and how
//! the mirror changes.

use vstd::prelude::*;

use crate::remote::AdapterField;
use crate::remote::AgentOutcomes;
use crate::remote::AgentRegistrationError;
use crate::remote::BridgeRegistrationError;
use crate::remote::CallView;
use crate::remote::QueryError;
use crate::remote::RemoteCall;
use crate::remote::RemoteWriteError;
use crate::remote::ShutdownOutcomes;
use crate::remote::StartupError;
use crate::remote::WriteOutcomes;
use crate::remote::transcript;

verus! {

/// The lifecycle states of the orchestrator, in order of acquisition.
/// `BridgeRegistered` is optional; a refused registration leaves the
/// earlier state standing and the process still reaches `Running`.
#[derive(Clone, Copy, Debug, PartialEq, Eq, Structural)]
pub enum Phase {
    Uninitialized,
    Configured,
    AgentRegistered,
    BridgeRegistered,
    Running,
    ShuttingDown,
    Terminated,
}

/// The four adapter properties, as read from the daemon at startup.
#[derive(Clone, Debug, PartialEq, Eq)]
pub struct AdapterProps {
    pub name: String,
    pub powered: bool,
    pub discoverable: bool,
    pub pairable: bool,
}

/// The mathematical image of a `BluetoothManager`: the mirrored properties
/// as plain values, the two registration flags and the lifecycle phase.
#[verifier::ext_equal]
pub struct MirrorModel {
    pub name: Seq<char>,
    pub powered: bool,
    pub discoverable: bool,
    pub pairable: bool,
    pub agent_registered: bool,
    pub bridge_registered: bool,
    pub phase: Phase,
}

impl MirrorModel {
    pub open spec fn with_name(self, n: Seq<char>) -> MirrorModel {
        MirrorModel {
            name: n,
            powered: self.powered,
            discoverable: self.discoverable,
            pairable: self.pairable,
            agent_registered: self.agent_registered,
            bridge_registered: self.bridge_registered,
            phase: self.phase,
        }
    }

    pub open spec fn with_powered(self, v: bool) -> MirrorModel {
        MirrorModel {
            name: self.name,
            powered: v,
            discoverable: self.discoverable,
            pairable: self.pairable,
            agent_registered: self.agent_registered,
            bridge_registered: self.bridge_registered,
            phase: self.phase,
        }
    }

    pub open spec fn with_discoverable(self, v: bool) -> MirrorModel {
        MirrorModel {
            name: self.name,
            powered: self.powered,
            discoverable: v,
            pairable: self.pairable,
            agent_registered: self.agent_registered,
            bridge_registered: self.bridge_registered,
            phase: self.phase,
        }
    }

    pub open spec fn with_pairable(self, v: bool) -> MirrorModel {
        MirrorModel {
            name: self.name,
            powered: self.powered,
            discoverable: self.discoverable,
            pairable: v,
            agent_registered: self.agent_registered,
            bridge_registered: self.bridge_registered,
            phase: self.phase,
        }
    }

    pub open spec fn with_phase(self, p: Phase) -> MirrorModel {
        MirrorModel {
            name: self.name,
            powered: self.powered,
            discoverable: self.discoverable,
            pairable: self.pairable,
            agent_registered: self.agent_registered,
            bridge_registered: self.bridge_registered,
            phase: p,
        }
    }

    pub open spec fn with_registrations(self, agent: bool, bridge: bool) -> MirrorModel {
        MirrorModel {
            name: self.name,
            powered: self.powered,
            discoverable: self.discoverable,
            pairable: self.pairable,
            agent_registered: agent,
            bridge_registered: bridge,
            phase: self.phase,
        }
    }
}

/// The field a failed property write reported, if any.
pub open spec fn write_error_field(r: Result<(), RemoteWriteError>) -> Option<AdapterField> {
    match r {
        Ok(_) => None,
        Err(e) => Some(e.field),
    }
}

/// The failed agent-manager call, if any.
pub open spec fn agent_error_of(r: Result<(), AgentRegistrationError>) -> Option<
    AgentRegistrationError,
> {
    match r {
        Ok(_) => None,
        Err(e) => Some(e),
    }
}

/// The discoverable sequence as a mathematical function: from a mirror,
/// the requested name and the outcome of each remote write (consulted in
/// issue order until the first failure) to the new mirror, the transcript
/// of issued calls and the field of the failed write, if any.
pub open spec fn config_model(m: MirrorModel, n: Seq<char>, o: WriteOutcomes) -> (
    MirrorModel,
    Seq<CallView>,
    Option<AdapterField>,
) {
    let c1 = seq![CallView::SetAlias(n)];
    if !o.name_ok {
        (m, c1, Some(AdapterField::Name))
    } else {
        let m1 = m.with_name(n);
        let c2 = c1.push(CallView::SetPowered(true));
        if !o.powered_ok {
            (m1, c2, Some(AdapterField::Powered))
        } else {
            let m2 = m1.with_powered(true);
            let c3 = c2.push(CallView::SetPairable(true));
            if !o.pairable_ok {
                (m2, c3, Some(AdapterField::Pairable))
            } else {
                let m3 = m2.with_pairable(true);
                let c4 = c3.push(CallView::SetDiscoverable(true));
                if !o.discoverable_ok {
                    (m3, c4, Some(AdapterField::Discoverable))
                } else {
                    (m3.with_discoverable(true).with_phase(Phase::Configured), c4, None)
                }
            }
        }
    }
}

/// Agent registration as a mathematical function: RegisterAgent, then
/// RequestDefaultAgent, stopping at the first refusal; only full success
/// records the registration and advances the phase.
pub open spec fn agent_model(m: MirrorModel, o: AgentOutcomes) -> (
    MirrorModel,
    Seq<CallView>,
    Option<AgentRegistrationError>,
) {
    let c1 = seq![CallView::RegisterAgent];
    if !o.register_ok {
        (m, c1, Some(AgentRegistrationError::RegisterAgent))
    } else {
        let c2 = c1.push(CallView::RequestDefaultAgent);
        if !o.request_default_ok {
            (m, c2, Some(AgentRegistrationError::RequestDefaultAgent))
        } else {
            (
                m.with_registrations(true, m.bridge_registered).with_phase(Phase::AgentRegistered),
                c2,
                None,
            )
        }
    }
}

/// Teardown as a mathematical function: best-effort unregistration of the
/// agent and, when one is registered, the bridge service — their outcomes
/// are ignored — then the three final writes discoverable, pairable,
/// powered, each to false, stopping at the first failure.
pub open spec fn shutdown_model(m: MirrorModel, o: ShutdownOutcomes) -> (
    MirrorModel,
    Seq<CallView>,
    Option<AdapterField>,
) {
    let pre = if m.bridge_registered {
        seq![CallView::UnregisterAgent, CallView::UnregisterBridge]
    } else {
        seq![CallView::UnregisterAgent]
    };
    let m0 = m.with_registrations(false, false).with_phase(Phase::ShuttingDown);
    let c1 = pre.push(CallView::SetDiscoverable(false));
    if !o.discoverable_ok {
        (m0, c1, Some(AdapterField::Discoverable))
    } else {
        let m1 = m0.with_discoverable(false);
        let c2 = c1.push(CallView::SetPairable(false));
        if !o.pairable_ok {
            (m1, c2, Some(AdapterField::Pairable))
        } else {
            let m2 = m1.with_pairable(false);
            let c3 = c2.push(CallView::SetPowered(false));
            if !o.powered_ok {
                (m2, c3, Some(AdapterField::Powered))
            } else {
                (m2.with_powered(false).with_phase(Phase::Terminated), c3, None)
            }
        }
    }
}

/// The adapter state mirror and lifecycle orchestrator. The four property
/// fields mirror what was last successfully read from or written to the
/// daemon; a field is never updated before the remote write is confirmed.
pub struct BluetoothManager {
    pub name: String,
    pub powered: bool,
    pub discoverable: bool,
    pub pairable: bool,
    pub agent_registered: bool,
    pub bridge_registered: bool,
    pub phase: Phase,
}

impl View for BluetoothManager {
    type V = MirrorModel;

    open spec fn view(&self) -> MirrorModel {
        MirrorModel {
            name: self.name@,
            powered: self.powered,
            discoverable: self.discoverable,
            pairable: self.pairable,
            agent_registered: self.agent_registered,
            bridge_registered: self.bridge_registered,
            phase: self.phase,
        }
    }
}

impl BluetoothManager {
    /// Build the mirror from the outcome of the startup query of the four
    /// adapter properties. A failed query is fatal: it becomes the
    /// `StartupError` that aborts startup before any registration.
    pub fn new(props: Result<AdapterProps, QueryError>) -> (r: Result<
        BluetoothManager,
        StartupError,
    >)
        ensures
            match props {
                Ok(p) => r matches Ok(m) && m@ == (MirrorModel {
                    name: p.name@,
                    powered: p.powered,
                    discoverable: p.discoverable,
                    pairable: p.pairable,
                    agent_registered: false,
                    bridge_registered: false,
                    phase: Phase::Uninitialized,
                }),
                Err(e) => r == Err::<BluetoothManager, StartupError>(StartupError::Query(e)),
            },
    {
        match props {
            Ok(p) => Ok(
                BluetoothManager {
                    name: p.name,
                    powered: p.powered,
                    discoverable: p.discoverable,
                    pairable: p.pairable,
                    agent_registered: false,
                    bridge_registered: false,
                    phase: Phase::Uninitialized,
                },
            ),
            Err(e) => Err(StartupError::Query(e)),
        }
    }

    /// Commit the reported outcome of the one remote write of the adapter's
    /// alias: on success the mirror takes the new name, on failure it is
    /// left unchanged and the error names the field. No retry either way.
    pub fn set_name(&mut self, name: String, write_ok: bool) -> (r: Result<(), RemoteWriteError>)
        ensures
            write_ok ==> final(self)@ == old(self)@.with_name(name@) && r == Ok::<
                (),
                RemoteWriteError,
            >(()),
            !write_ok ==> final(self)@ == old(self)@ && r == Err::<(), RemoteWriteError>(
                RemoteWriteError { field: AdapterField::Name },
            ),
    {
        if write_ok {
            self.name = name;
            Ok(())
        } else {
            Err(RemoteWriteError { field: AdapterField::Name })
        }
    }

    /// Commit the reported outcome of the one remote write of `Powered`:
    /// mirror updated on success, untouched on failure, never retried.
    pub fn set_powered(&mut self, powered: bool, write_ok: bool) -> (r: Result<
        (),
        RemoteWriteError,
    >)
        ensures
            write_ok ==> final(self)@ == old(self)@.with_powered(powered) && r == Ok::<
                (),
                RemoteWriteError,
            >(()),
            !write_ok ==> final(self)@ == old(self)@ && r == Err::<(), RemoteWriteError>(
                RemoteWriteError { field: AdapterField::Powered },
            ),
    {
        if write_ok {
            self.powered = powered;
            Ok(())
        } else {
            Err(RemoteWriteError { field: AdapterField::Powered })
        }
    }

    /// Commit the reported outcome of the one remote write of
    /// `Discoverable`: mirror updated on success, untouched on failure.
    pub fn set_discoverable(&mut self, discoverable: bool, write_ok: bool) -> (r: Result<
        (),
        RemoteWriteError,
    >)
        ensures
            write_ok ==> final(self)@ == old(self)@.with_discoverable(discoverable) && r == Ok::<
                (),
                RemoteWriteError,
            >(()),
            !write_ok ==> final(self)@ == old(self)@ && r == Err::<(), RemoteWriteError>(
                RemoteWriteError { field: AdapterField::Discoverable },
            ),
    {
        if write_ok {
            self.discoverable = discoverable;
            Ok(())
        } else {
            Err(RemoteWriteError { field: AdapterField::Discoverable })
        }
    }

    /// Commit the reported outcome of the one remote write of `Pairable`:
    /// mirror updated on success, untouched on failure.
    pub fn set_pairable(&mut self, pairable: bool, write_ok: bool) -> (r: Result<
        (),
        RemoteWriteError,
    >)
        ensures
            write_ok ==> final(self)@ == old(self)@.with_pairable(pairable) && r == Ok::<
                (),
                RemoteWriteError,
            >(()),
            !write_ok ==> final(self)@ == old(self)@ && r == Err::<(), RemoteWriteError>(
                RemoteWriteError { field: AdapterField::Pairable },
            ),
    {
        if write_ok {
            self.pairable = pairable;
            Ok(())
        } else {
            Err(RemoteWriteError { field: AdapterField::Pairable })
        }
    }

    /// Bring the adapter to its discoverable state: direct, in this fixed
    /// order, the writes of name, powered, pairable and discoverable, and
    /// stop at the first failure. The order matters: daemons may reject
    /// discoverability on an unpowered adapter and pairability before the
    /// name is applied. The mirror stays consistent with exactly the writes
    /// that succeeded — there is no all-or-nothing atomicity and no retry.
    pub fn enable_discoverable(&mut self, device_name: String, o: &WriteOutcomes) -> (r: (
        Vec<RemoteCall>,
        Result<(), RemoteWriteError>,
    ))
        requires
            old(self)@.phase == Phase::Uninitialized,
        ensures
            ({
                let (m, calls, failed) = config_model(old(self)@, device_name@, *o);
                &&& final(self)@ == m
                &&& transcript(r.0@) == calls
                &&& write_error_field(r.1) == failed
            }),
            // every write succeeds: the four writes were issued in this exact
            // order and the mirror reaches the full target state
            (o.name_ok && o.powered_ok && o.pairable_ok && o.discoverable_ok) ==> {
                &&& transcript(r.0@) == seq![
                    CallView::SetAlias(device_name@),
                    CallView::SetPowered(true),
                    CallView::SetPairable(true),
                    CallView::SetDiscoverable(true),
                ]
                &&& final(self)@.name == device_name@
                &&& final(self)@.powered
                &&& final(self)@.pairable
                &&& final(self)@.discoverable
                &&& final(self)@.phase == Phase::Configured
                &&& r.1 is Ok
            },
            // the powered write fails: the already-applied name write shows in
            // the mirror and the other three fields are untouched
            (o.name_ok && !o.powered_ok) ==> {
                &&& final(self)@.name == device_name@
                &&& final(self)@.powered == old(self)@.powered
                &&& final(self)@.pairable == old(self)@.pairable
                &&& final(self)@.discoverable == old(self)@.discoverable
                &&& r.1 == Err::<(), RemoteWriteError>(
                    RemoteWriteError { field: AdapterField::Powered },
                )
            },
    {
        let ghost m0 = self@;
        let ghost n = device_name@;
        let mut calls: Vec<RemoteCall> = Vec::new();
        calls.push(RemoteCall::SetAlias(device_name.clone()));
        proof {
            assert(transcript(calls@) =~= seq![CallView::SetAlias(n)]);
        }
        if let Err(e) = self.set_name(device_name, o.name_ok) {
            return (calls, Err(e));
        }
        calls.push(RemoteCall::SetPowered(true));
        proof {
            assert(!o.powered_ok ==> transcript(calls@) =~= config_model(m0, n, *o).1);
        }
        if let Err(e) = self.set_powered(true, o.powered_ok) {
            return (calls, Err(e));
        }
        calls.push(RemoteCall::SetPairable(true));
        proof {
            assert(!o.pairable_ok ==> transcript(calls@) =~= config_model(m0, n, *o).1);
        }
        if let Err(e) = self.set_pairable(true, o.pairable_ok) {
            return (calls, Err(e));
        }
        calls.push(RemoteCall::SetDiscoverable(true));
        proof {
            assert(transcript(calls@) =~= config_model(m0, n, *o).1);
            assert(transcript(calls@) =~= seq![
                CallView::SetAlias(n),
                CallView::SetPowered(true),
                CallView::SetPairable(true),
                CallView::SetDiscoverable(true),
            ]);
        }
        if let Err(e) = self.set_discoverable(true, o.discoverable_ok) {
            return (calls, Err(e));
        }
        self.phase = Phase::Configured;
        (calls, Ok(()))
    }

    /// Configured to AgentRegistered: direct the daemon's RegisterAgent and
    /// RequestDefaultAgent calls, in that order, stopping at the first
    /// refusal. Failure is non-fatal and not retried: the adapter stays
    /// configured, merely undiscoverable to pairing, and the registration
    /// is recorded only when both calls succeeded.
    pub fn register_agent(&mut self, o: &AgentOutcomes) -> (r: (
        Vec<RemoteCall>,
        Result<(), AgentRegistrationError>,
    ))
        requires
            old(self)@.phase == Phase::Configured,
        ensures
            ({
                let (m, calls, failed) = agent_model(old(self)@, *o);
                &&& final(self)@ == m
                &&& transcript(r.0@) == calls
                &&& agent_error_of(r.1) == failed
            }),
    {
        let ghost m0 = self@;
        let mut calls: Vec<RemoteCall> = Vec::new();
        calls.push(RemoteCall::RegisterAgent);
        proof {
            assert(transcript(calls@) =~= seq![CallView::RegisterAgent]);
        }
        if !o.register_ok {
            return (calls, Err(AgentRegistrationError::RegisterAgent));
        }
        calls.push(RemoteCall::RequestDefaultAgent);
        proof {
            assert(transcript(calls@) =~= agent_model(m0, *o).1);
        }
        if !o.request_default_ok {
            return (calls, Err(AgentRegistrationError::RequestDefaultAgent));
        }
        self.agent_registered = true;
        self.phase = Phase::AgentRegistered;
        (calls, Ok(()))
    }

    /// AgentRegistered to BridgeRegistered: direct the daemon's Register
    /// call, binding the well-known service identifier to the given bridge
    /// interface. A refusal is reported and unwinds nothing: startup goes
    /// on without the bridge service.
    pub fn register_pan_server(&mut self, bridge: &str, register_ok: bool) -> (r: (
        Vec<RemoteCall>,
        Result<(), BridgeRegistrationError>,
    ))
        requires
            old(self)@.phase == Phase::AgentRegistered,
        ensures
            transcript(r.0@) == seq![CallView::RegisterBridge(bridge@)],
            register_ok ==> final(self)@ == old(self)@.with_registrations(
                old(self)@.agent_registered,
                true,
            ).with_phase(Phase::BridgeRegistered) && r.1 is Ok,
            !register_ok ==> final(self)@ == old(self)@ && r.1 == Err::<
                (),
                BridgeRegistrationError,
            >(BridgeRegistrationError),
    {
        let mut calls: Vec<RemoteCall> = Vec::new();
        calls.push(RemoteCall::RegisterBridge(bridge.to_owned()));
        proof {
            assert(transcript(calls@) =~= seq![CallView::RegisterBridge(bridge@)]);
        }
        if register_ok {
            self.bridge_registered = true;
            self.phase = Phase::BridgeRegistered;
            (calls, Ok(()))
        } else {
            (calls, Err(BridgeRegistrationError))
        }
    }

    /// Best-effort release of the bridge registration: directs the daemon's
    /// Unregister call when a registration is outstanding, forgets the
    /// registration either way, and never fails — the outcome of the remote
    /// call is deliberately ignored, since the daemon drops a stale
    /// registration on its own when the process leaves the bus.
    pub fn unregister_pan_server(&mut self) -> (calls: Vec<RemoteCall>)
        ensures
            final(self)@ == old(self)@.with_registrations(old(self)@.agent_registered, false),
            old(self)@.bridge_registered ==> transcript(calls@) == seq![CallView::UnregisterBridge],
            !old(self)@.bridge_registered ==> calls@ == Seq::<RemoteCall>::empty(),
    {
        let mut calls: Vec<RemoteCall> = Vec::new();
        if self.bridge_registered {
            calls.push(RemoteCall::UnregisterBridge);
            proof {
                assert(transcript(calls@) =~= seq![CallView::UnregisterBridge]);
            }
        }
        self.bridge_registered = false;
        calls
    }

    /// Tear down in strict reverse order of acquisition: best-effort
    /// unregistration of the agent and, if one is registered, the bridge
    /// service — their outcomes are ignored, the daemon heals a stale
    /// registration on disconnect — then the three final property writes
    /// discoverable, pairable, powered, each to false. A failed final write
    /// is a real error, not a cosmetic one: the sequence stops there,
    /// reports it, and leaves the later writes unissued.
    ///
    /// Idempotent on the final resting state: a second run, with the
    /// unregistrations already performed by the first, still succeeds and
    /// leaves the same three fields false (`lemma_shutdown_idempotent`).
    pub fn shutdown(&mut self, o: &ShutdownOutcomes) -> (r: (
        Vec<RemoteCall>,
        Result<(), RemoteWriteError>,
    ))
        ensures
            ({
                let (m, calls, failed) = shutdown_model(old(self)@, *o);
                &&& final(self)@ == m
                &&& transcript(r.0@) == calls
                &&& write_error_field(r.1) == failed
            }),
            !final(self)@.agent_registered && !final(self)@.bridge_registered,
            final(self)@.name == old(self)@.name,
            (o.discoverable_ok && o.pairable_ok && o.powered_ok) ==> {
                &&& !final(self)@.powered
                &&& !final(self)@.pairable
                &&& !final(self)@.discoverable
                &&& final(self)@.phase == Phase::Terminated
                &&& r.1 is Ok
            },
    {
        let ghost m0 = self@;
        self.phase = Phase::ShuttingDown;
        let mut calls: Vec<RemoteCall> = Vec::new();
        calls.push(RemoteCall::UnregisterAgent);
        self.agent_registered = false;
        if self.bridge_registered {
            calls.push(RemoteCall::UnregisterBridge);
        }
        self.bridge_registered = false;
        calls.push(RemoteCall::SetDiscoverable(false));
        proof {
            assert(!o.discoverable_ok ==> transcript(calls@) =~= shutdown_model(m0, *o).1);
        }
        if let Err(e) = self.set_discoverable(false, o.discoverable_ok) {
            return (calls, Err(e));
        }
        calls.push(RemoteCall::SetPairable(false));
        proof {
            assert(!o.pairable_ok ==> transcript(calls@) =~= shutdown_model(m0, *o).1);
        }
        if let Err(e) = self.set_pairable(false, o.pairable_ok) {
            return (calls, Err(e));
        }
        calls.push(RemoteCall::SetPowered(false));
        proof {
            assert(transcript(calls@) =~= shutdown_model(m0, *o).1);
        }
        if let Err(e) = self.set_powered(false, o.powered_ok) {
            return (calls, Err(e));
        }
        self.phase = Phase::Terminated;
        (calls, Ok(()))
    }

    /// Enter the idle running state, in which the process waits for an
    /// interrupt. Reached after registration, and equally from the degraded
    /// states where the agent or bridge registration was refused.
    pub fn start_running(&mut self)
        requires
            old(self)@.phase == Phase::Configured || old(self)@.phase == Phase::AgentRegistered
                || old(self)@.phase == Phase::BridgeRegistered,
        ensures
            final(self)@ == old(self)@.with_phase(Phase::Running),
    {
        self.phase = Phase::Running;
    }
}

/// Shutdown is idempotent on the adapter's final resting state: when the
/// three final writes succeed, one run leaves powered, pairable and
/// discoverable false, and a second run — with the agent and bridge
/// unregistration already performed by the first — still succeeds, issues
/// no bridge unregistration, and leaves the same three fields false.
pub proof fn lemma_shutdown_idempotent(m: MirrorModel, o1: ShutdownOutcomes, o2: ShutdownOutcomes)
    requires
        o1.discoverable_ok && o1.pairable_ok && o1.powered_ok,
        o2.discoverable_ok && o2.pairable_ok && o2.powered_ok,
    ensures
        ({
            let (m1, calls1, failed1) = shutdown_model(m, o1);
            let (m2, calls2, failed2) = shutdown_model(m1, o2);
            &&& failed1 is None
            &&& !m1.powered && !m1.pairable && !m1.discoverable
            &&& !m1.agent_registered && !m1.bridge_registered
            &&& failed2 is None
            &&& !m2.powered && !m2.pairable && !m2.discoverable
            &&& m2.name == m1.name
            &&& calls2 == seq![
                CallView::UnregisterAgent,
                CallView::SetDiscoverable(false),
                CallView::SetPairable(false),
                CallView::SetPowered(false),
            ]
        }),
{
    let (m1, _, _) = shutdown_model(m, o1);
    let (_, calls2, _) = shutdown_model(m1, o2);
    assert(calls2 =~= seq![
        CallView::UnregisterAgent,
        CallView::SetDiscoverable(false),
        CallView::SetPairable(false),
        CallView::SetPowered(false),
    ]);
}

} // verus!
