use gamescope_portal::discovery::HandshakeState;
use gamescope_portal::discovery::ScanState;
use gamescope_portal::discovery::resolve_socket_path;
use gamescope_portal::discovery::scan_object_matches;
use gamescope_portal::discovery::scan_outcome;
use gamescope_portal::error::DiscoveryError;

#[test]
fn unset_runtime_dir_is_no_compositor() {
    assert_eq!(
        resolve_socket_path(None, None),
        Err(DiscoveryError::NoCompositor)
    );
    assert_eq!(
        resolve_socket_path(None, Some("wayland-1".to_string())),
        Err(DiscoveryError::NoCompositor)
    );
}

#[test]
fn relative_runtime_dir_is_no_compositor() {
    assert_eq!(
        resolve_socket_path(Some("run/user/1000".to_string()), None),
        Err(DiscoveryError::NoCompositor)
    );
    assert_eq!(
        resolve_socket_path(Some(String::new()), None),
        Err(DiscoveryError::NoCompositor)
    );
}

#[test]
fn socket_path_joins_default_display() {
    assert_eq!(
        resolve_socket_path(Some("/run/user/1000".to_string()), None),
        Ok("/run/user/1000/gamescope-0".to_string())
    );
}

#[test]
fn socket_path_honors_display_override() {
    assert_eq!(
        resolve_socket_path(
            Some("/run/user/1000".to_string()),
            Some("gamescope-7".to_string())
        ),
        Ok("/run/user/1000/gamescope-7".to_string())
    );
}

#[test]
fn handshake_finds_capability_and_node() {
    let mut hs = HandshakeState::new();
    assert!(!hs.on_global(&"wl_output".to_string()));
    assert!(hs.on_global(&"gamescope_pipewire".to_string()));
    assert_eq!(hs.first_phase_outcome(true), Ok(()));
    hs.on_stream_node(37);
    assert_eq!(hs.second_phase_outcome(true), Ok(37));
}

#[test]
fn handshake_missing_capability() {
    let mut hs = HandshakeState::new();
    assert!(!hs.on_global(&"wl_compositor".to_string()));
    assert_eq!(
        hs.first_phase_outcome(true),
        Err(DiscoveryError::CapabilityNotFound)
    );
}

#[test]
fn handshake_missing_stream_node() {
    let mut hs = HandshakeState::new();
    hs.on_global(&"gamescope_pipewire".to_string());
    assert_eq!(
        hs.second_phase_outcome(true),
        Err(DiscoveryError::IdentifierNotAdvertised)
    );
}

#[test]
fn handshake_dispatch_failure() {
    let hs = HandshakeState::new();
    assert_eq!(
        hs.first_phase_outcome(false),
        Err(DiscoveryError::ProtocolDispatchError)
    );
    assert_eq!(
        hs.second_phase_outcome(false),
        Err(DiscoveryError::ProtocolDispatchError)
    );
}

#[test]
fn scan_matches_gamescope_node_only() {
    assert!(scan_object_matches(&"gamescope".to_string()));
    assert!(!scan_object_matches(&"firefox".to_string()));
    assert!(!scan_object_matches(&"gamescope2".to_string()));
    assert!(!scan_object_matches(&String::new()));
}

#[test]
fn scan_delivers_first_match_only() {
    let mut scan = ScanState::new();
    assert!(!scan.on_object(&"audio-sink".to_string(), 3));
    assert_eq!(scan.delivered, None);
    assert!(scan.on_object(&"gamescope".to_string(), 58));
    assert_eq!(scan.delivered, Some(58));
    // The result channel is one-shot: a later match delivers nothing more.
    assert!(!scan.on_object(&"gamescope".to_string(), 77));
    assert_eq!(scan.delivered, Some(58));
    assert_eq!(scan_outcome(scan.delivered), Ok(58));
}

#[test]
fn scan_without_match_times_out() {
    assert_eq!(scan_outcome(None), Err(DiscoveryError::DiscoveryTimeout));
}

#[test]
fn scan_with_delivered_identifier_succeeds() {
    assert_eq!(scan_outcome(Some(11)), Ok(11));
}

#[test]
fn discovery_error_messages() {
    assert_eq!(
        DiscoveryError::NoCompositor.message(),
        "failed to connect to wayland socket"
    );
    assert_eq!(
        DiscoveryError::ProtocolDispatchError.message(),
        "Wayland protocol dispatch error"
    );
    assert_eq!(
        DiscoveryError::CapabilityNotFound.message(),
        "gamescope pipewire global object not found"
    );
    assert_eq!(
        DiscoveryError::IdentifierNotAdvertised.message(),
        "gamescope pipewire node ID not advertised"
    );
}
