//! The pairing-agent callback object: the policies it answers the daemon
//! with, and the derivation of a human-readable hardware address from a
//! daemon-assigned device path.

use vstd::prelude::*;
use vstd::string::StrSliceExecFns;
use vstd::string::StringExecFns;

verus! {

broadcast use vstd::string::group_string_axioms;

/// A pairing decision was refused. Never produced by the default policy,
/// which accepts every request.
#[derive(Clone, Copy, Debug, PartialEq, Eq, Structural)]
pub struct Rejected;

/// A daemon-issued pairing callback, as one value: the tagged union of the
/// six entry points of the pairing-agent interface.
#[derive(Clone, Debug, PartialEq, Eq)]
pub enum PairingEvent {
    ReleaseRequested,
    PinCodeDisplay { device: String, pin: String },
    ConfirmationRequested { device: String, passkey: u32 },
    AuthorizationRequested { device: String },
    ServiceAuthorizationRequested { device: String, service_id: String },
    Cancelled,
}

/// The synchronous reply owed to the daemon for one pairing event: nothing
/// for the informational events, an accept-or-reject decision for the rest.
#[derive(Clone, Copy, Debug, PartialEq, Eq)]
pub enum AgentReply {
    NoReply,
    Decision(Result<(), Rejected>),
}

/// The marker `"/dev_"` that precedes the address segment of a device path.
pub open spec fn dev_marker() -> Seq<char> {
    seq!['/', 'd', 'e', 'v', '_']
}

/// The marker occurs in `p` starting at index `i`.
pub open spec fn marker_at(p: Seq<char>, i: int) -> bool {
    &&& 0 <= i
    &&& i + 5 <= p.len()
    &&& p.subrange(i, i + 5) == dev_marker()
}

/// The leftmost index at or after `i` where the marker occurs, if any.
pub open spec fn find_marker_from(p: Seq<char>, i: int) -> Option<int>
    decreases p.len() - i,
{
    if i < 0 || i + 5 > p.len() {
        None
    } else if marker_at(p, i) {
        Some(i)
    } else {
        find_marker_from(p, i + 1)
    }
}

/// Every `'_'` replaced by `':'`, the conventional address-octet separator.
pub open spec fn colonize(s: Seq<char>) -> Seq<char> {
    s.map_values(|c: char| if c == '_' { ':' } else { c })
}

/// The hardware address a device path denotes: the segment between the
/// first `"/dev_"` marker and the next one (or the end of the path), with
/// `'_'` replaced by `':'`. A path without the marker denotes itself, as a
/// graceful fallback identifier.
pub open spec fn mac_of_path(p: Seq<char>) -> Seq<char> {
    match find_marker_from(p, 0) {
        None => p,
        Some(i) => {
            let end = match find_marker_from(p, i + 5) {
                None => p.len() as int,
                Some(j) => j,
            };
            colonize(p.subrange(i + 5, end))
        },
    }
}

/// Scan for the leftmost occurrence of the `"/dev_"` marker at or after
/// `from`.
fn find_marker(path: &str, from: usize) -> (r: Option<usize>)
    requires
        from <= path@.len(),
    ensures
        match r {
            Some(i) => {
                &&& from <= i
                &&& i + 5 <= path@.len()
                &&& find_marker_from(path@, from as int) == Some(i as int)
                &&& marker_at(path@, i as int)
            },
            None => find_marker_from(path@, from as int) is None,
        },
{
    let n = path.unicode_len();
    let mut i: usize = from;
    loop
        invariant
            from <= i <= n,
            n == path@.len(),
            find_marker_from(path@, from as int) == find_marker_from(path@, i as int),
        decreases n - i,
    {
        if n - i < 5 {
            proof {
                assert(find_marker_from(path@, i as int) is None);
            }
            return None;
        }
        let c0 = path.get_char(i);
        let c1 = path.get_char(i + 1);
        let c2 = path.get_char(i + 2);
        let c3 = path.get_char(i + 3);
        let c4 = path.get_char(i + 4);
        if c0 == '/' && c1 == 'd' && c2 == 'e' && c3 == 'v' && c4 == '_' {
            proof {
                assert(path@.subrange(i as int, i + 5) =~= dev_marker());
                assert(marker_at(path@, i as int));
            }
            return Some(i);
        }
        proof {
            assert(!marker_at(path@, i as int)) by {
                if marker_at(path@, i as int) {
                    assert(path@.subrange(i as int, i + 5)[0] == path@[i as int]);
                    assert(path@.subrange(i as int, i + 5)[1] == path@[i + 1]);
                    assert(path@.subrange(i as int, i + 5)[2] == path@[i + 2]);
                    assert(path@.subrange(i as int, i + 5)[3] == path@[i + 3]);
                    assert(path@.subrange(i as int, i + 5)[4] == path@[i + 4]);
                }
            }
            assert(find_marker_from(path@, i as int) == find_marker_from(path@, i + 1));
        }
        i = i + 1;
    }
}

/// The pairing-agent callback object. It is registered with the daemon
/// under a fixed object path and the `"DisplayYesNo"` capability, and it
/// answers every pairing callback with the default auto-accept policy.
///
/// The auto-accept policy is a deliberate design choice with security
/// implications: no human confirms a pairing. It is preserved behavior,
/// not a decision point.
pub struct BluetoothAgent;

impl BluetoothAgent {
    /// The hardware address encoded in a daemon device path, derived by
    /// taking the path segment after the `"/dev_"` marker and replacing its
    /// `'_'` separators with `':'`. A path without the marker is returned
    /// unchanged.
    pub fn extract_mac_from_path(device_path: &str) -> (mac: String)
        ensures
            mac@ == mac_of_path(device_path@),
    {
        let n = device_path.unicode_len();
        match find_marker(device_path, 0) {
            None => device_path.to_owned(),
            Some(i) => {
                let start = i + 5;
                let end = match find_marker(device_path, start) {
                    None => n,
                    Some(j) => j,
                };
                let ghost p = device_path@;
                let mut out = String::new();
                let mut k = start;
                proof {
                    assert(out@ =~= colonize(p.subrange(start as int, start as int)));
                }
                while k < end
                    invariant
                        start <= k <= end <= n,
                        n == p.len(),
                        p == device_path@,
                        out@ == colonize(p.subrange(start as int, k as int)),
                    decreases end - k,
                {
                    let c = device_path.get_char(k);
                    if c == '_' {
                        out.append(":");
                        proof {
                            reveal_strlit(":");
                        }
                    } else {
                        let piece = device_path.substring_char(k, k + 1);
                        out.append(piece);
                    }
                    proof {
                        assert(out@ =~= colonize(p.subrange(start as int, k + 1))) by {
                            assert(colonize(p.subrange(start as int, k + 1)) =~= colonize(
                                p.subrange(start as int, k as int),
                            ) + seq![if p[k as int] == '_' { ':' } else { p[k as int] }]);
                        }
                    }
                    k = k + 1;
                }
                proof {
                    assert(out@ == mac_of_path(p));
                }
                out
            },
        }
    }

    /// The daemon is revoking the agent; nothing to undo locally.
    pub fn release(&self) {
    }

    /// Informational callback: a PIN is being displayed on the remote side.
    /// Returns the device's hardware address so the caller can show it next
    /// to the PIN; never fails.
    pub fn display_pin_code(&self, device: &str, _pincode: &str) -> (mac: String)
        ensures
            mac@ == mac_of_path(device@),
    {
        Self::extract_mac_from_path(device)
    }

    /// Auto-accepts the pairing for any device and any passkey: the default
    /// non-interactive policy, not a security decision point.
    pub fn request_confirmation(&self, _device: &str, _passkey: u32) -> (r: Result<(), Rejected>)
        ensures
            r == Ok::<(), Rejected>(()),
    {
        Ok(())
    }

    /// Auto-accepts the authorization for any device: same default policy.
    pub fn request_authorization(&self, _device: &str) -> (r: Result<(), Rejected>)
        ensures
            r == Ok::<(), Rejected>(()),
    {
        Ok(())
    }

    /// Auto-accepts the service authorization for any device and any
    /// service identifier: same default policy.
    pub fn authorize_service(&self, _device: &str, _uuid: &str) -> (r: Result<(), Rejected>)
        ensures
            r == Ok::<(), Rejected>(()),
    {
        Ok(())
    }

    /// The daemon is aborting an in-flight pairing; nothing to undo locally.
    pub fn cancel(&self) {
    }

    /// Dispatch one daemon-issued pairing event to the matching entry point.
    /// Every decision event is accepted (the auto-accept policy); the
    /// informational events owe the daemon no reply.
    pub fn handle_event(&self, event: &PairingEvent) -> (r: AgentReply)
        ensures
            event matches PairingEvent::ConfirmationRequested { .. } ==> r
                == AgentReply::Decision(Ok(())),
            event matches PairingEvent::AuthorizationRequested { .. } ==> r
                == AgentReply::Decision(Ok(())),
            event matches PairingEvent::ServiceAuthorizationRequested { .. } ==> r
                == AgentReply::Decision(Ok(())),
            event is ReleaseRequested ==> r is NoReply,
            event is PinCodeDisplay ==> r is NoReply,
            event is Cancelled ==> r is NoReply,
    {
        match event {
            PairingEvent::ReleaseRequested => {
                self.release();
                AgentReply::NoReply
            },
            PairingEvent::PinCodeDisplay { .. } => AgentReply::NoReply,
            PairingEvent::ConfirmationRequested { device, passkey } => AgentReply::Decision(
                self.request_confirmation(device.as_str(), *passkey),
            ),
            PairingEvent::AuthorizationRequested { device } => AgentReply::Decision(
                self.request_authorization(device.as_str()),
            ),
            PairingEvent::ServiceAuthorizationRequested { device, service_id } => AgentReply::Decision(
                self.authorize_service(device.as_str(), service_id.as_str()),
            ),
            PairingEvent::Cancelled => {
                self.cancel();
                AgentReply::NoReply
            },
        }
    }
}

} // verus!
