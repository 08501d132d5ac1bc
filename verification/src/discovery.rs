//! Stream-node discovery: the decisions of the two interchangeable
//! strategies by which the compositor's live capture stream is found.
//!
//! Strategy A performs a two-phase protocol handshake over the compositor's
//! display-server socket; strategy B scans the multimedia server's live
//! object registry under a strict time budget.  The transport work (socket
//! connection, settle-waits, the scanning context) is done by the caller,
//! which feeds the observed events into the functions here; every decision
//! taken on those events is verified.

use vstd::prelude::*;

use crate::error::DiscoveryError;

verus! {

/// The socket name of the compositor's display-server endpoint: the
/// override if one is set, else the fixed default display name.
pub open spec fn socket_name_spec(display_override: Option<String>) -> Seq<char> {
    match display_override {
        Some(name) => name@,
        None => "gamescope-0"@,
    }
}

/// Resolves the display-server socket path from the ambient environment
/// values: the runtime directory must be set and absolute, and the socket
/// name defaults when the display override is unset.  No connection is
/// attempted here; on failure the caller never gets a path to connect to.
pub fn resolve_socket_path(runtime_dir: Option<String>, display_override: Option<String>) -> (r:
    Result<String, DiscoveryError>)
    ensures
        runtime_dir is None ==> r == Err::<String, DiscoveryError>(DiscoveryError::NoCompositor),
        runtime_dir matches Some(d) ==> (!(d@.len() > 0 && d@[0] == '/') ==> r == Err::<
            String,
            DiscoveryError,
        >(DiscoveryError::NoCompositor)),
        runtime_dir matches Some(d) ==> (d@.len() > 0 && d@[0] == '/' ==> (r matches Ok(p) && p@
            == d@ + "/"@ + socket_name_spec(display_override))),
{
    match runtime_dir {
        None => Err(DiscoveryError::NoCompositor),
        Some(d) => {
            if d.as_str().is_empty() {
                return Err(DiscoveryError::NoCompositor);
            }
            if d.as_str().get_char(0) != '/' {
                return Err(DiscoveryError::NoCompositor);
            }
            let name: String = match display_override {
                Some(name) => name,
                None => String::from_str("gamescope-0"),
            };
            let ghost d_view = d@;
            let path = d.concat("/").concat(name.as_str());
            proof {
                assert(path@ =~= d_view + "/"@ + name@);
            }
            Ok(path)
        },
    }
}

/// What the protocol handshake has observed so far: whether the
/// compositor's capture-stream interface was among the advertised globals,
/// and the stream-node notification, if one arrived.
pub struct HandshakeState {
    pub capability_found: bool,
    pub node_id: Option<u32>,
}

impl HandshakeState {
    /// The state before any event was dispatched.
    pub fn new() -> (r: HandshakeState)
        ensures
            !r.capability_found,
            r.node_id is None,
    {
        HandshakeState { capability_found: false, node_id: None }
    }

    /// Decision on one advertised registry global: the caller binds the
    /// object exactly when it advertises the compositor's capture-stream
    /// interface, and the capability is then known to be present.
    pub fn on_global(&mut self, interface: &String) -> (bind: bool)
        ensures
            bind == (interface@ == "gamescope_pipewire"@),
            final(self).capability_found == (old(self).capability_found || bind),
            final(self).node_id == old(self).node_id,
    {
        let target = String::from_str("gamescope_pipewire");
        if *interface == target {
            self.capability_found = true;
            true
        } else {
            false
        }
    }

    /// Records the stream-node notification pushed by the bound interface.
    pub fn on_stream_node(&mut self, id: u32)
        ensures
            final(self).node_id == Some(id),
            final(self).capability_found == old(self).capability_found,
    {
        self.node_id = Some(id);
    }

    /// Outcome of the first settle-wait: a transport failure is a dispatch
    /// error, and otherwise the advertised capability decides.
    pub fn first_phase_outcome(&self, roundtrip_ok: bool) -> (r: Result<(), DiscoveryError>)
        ensures
            !roundtrip_ok ==> r == Err::<(), DiscoveryError>(DiscoveryError::ProtocolDispatchError),
            roundtrip_ok && !self.capability_found ==> r == Err::<(), DiscoveryError>(
                DiscoveryError::CapabilityNotFound,
            ),
            roundtrip_ok && self.capability_found ==> r == Ok::<(), DiscoveryError>(()),
    {
        if !roundtrip_ok {
            Err(DiscoveryError::ProtocolDispatchError)
        } else if !self.capability_found {
            Err(DiscoveryError::CapabilityNotFound)
        } else {
            Ok(())
        }
    }

    /// Outcome of the second settle-wait: a transport failure is a dispatch
    /// error, and otherwise exactly the received stream node decides.
    pub fn second_phase_outcome(&self, roundtrip_ok: bool) -> (r: Result<u32, DiscoveryError>)
        ensures
            !roundtrip_ok ==> r == Err::<u32, DiscoveryError>(DiscoveryError::ProtocolDispatchError),
            roundtrip_ok && self.node_id is None ==> r == Err::<u32, DiscoveryError>(
                DiscoveryError::IdentifierNotAdvertised,
            ),
            self.node_id matches Some(id) ==> (roundtrip_ok ==> r == Ok::<u32, DiscoveryError>(
                id,
            )),
    {
        if !roundtrip_ok {
            Err(DiscoveryError::ProtocolDispatchError)
        } else {
            match self.node_id {
                Some(id) => Ok(id),
                None => Err(DiscoveryError::IdentifierNotAdvertised),
            }
        }
    }
}

/// Decision on one registry object of the multimedia server: whether its
/// advertised node name is the compositor's known stream name.
pub fn scan_object_matches(node_name: &String) -> (r: bool)
    ensures
        r == (node_name@ == "gamescope"@),
{
    let target = String::from_str("gamescope");
    *node_name == target
}

/// What the registry scan has observed: the identifier delivered over the
/// one-shot result channel, if any was yet.
pub struct ScanState {
    pub delivered: Option<u32>,
}

impl ScanState {
    /// The state before any object was announced.
    pub fn new() -> (r: ScanState)
        ensures
            r.delivered is None,
    {
        ScanState { delivered: None }
    }

    /// Decision on one object-became-available notification: the first
    /// object whose node name is the compositor's stream name has its
    /// identifier delivered; later matches deliver nothing more (the
    /// result channel is one-shot), and the listener keeps running either
    /// way.
    pub fn on_object(&mut self, node_name: &String, object_id: u32) -> (delivered: bool)
        ensures
            delivered == (node_name@ == "gamescope"@ && old(self).delivered is None),
            delivered ==> final(self).delivered == Some(object_id),
            !delivered ==> final(self).delivered == old(self).delivered,
    {
        if self.delivered.is_none() && scan_object_matches(node_name) {
            self.delivered = Some(object_id);
            true
        } else {
            false
        }
    }
}

/// Outcome of the bounded registry scan: an identifier delivered within
/// the time budget is returned as found, and an expired budget is the
/// timeout failure.  Without the bound a stream that never appears would
/// hang the request forever, so expiry must end the call.
pub fn scan_outcome(delivered: Option<u32>) -> (r: Result<u32, DiscoveryError>)
    ensures
        delivered is None ==> r == Err::<u32, DiscoveryError>(DiscoveryError::DiscoveryTimeout),
        delivered matches Some(id) ==> r == Ok::<u32, DiscoveryError>(id),
{
    match delivered {
        Some(id) => Ok(id),
        None => Err(DiscoveryError::DiscoveryTimeout),
    }
}

} // verus!
