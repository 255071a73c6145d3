use blackflower::arguments::{
    check_network_arguments, is_loopback, required_argument, validate_metrics_bind_address,
    validate_server_arguments, ArgumentError, IpHost, NetworkArguments,
};

#[test]
fn local_authority_rejects_non_loopback_listen_address() {
    let listen = IpHost::V4([0, 0, 0, 0]);
    assert!(validate_server_arguments(Some(listen), false, true, true).is_err());
}

#[test]
fn loopback_follows_the_standard_definition() {
    assert!(is_loopback(IpHost::V4([127, 0, 0, 1])));
    assert!(is_loopback(IpHost::V4([127, 200, 3, 4])));
    assert!(!is_loopback(IpHost::V4([128, 0, 0, 1])));
    assert!(is_loopback(IpHost::V6([0, 0, 0, 0, 0, 0, 0, 1])));
    assert!(!is_loopback(IpHost::V6([0, 0, 0, 0, 0, 0xffff, 0x7f00, 1])));
    assert!(!is_loopback(IpHost::V6([0; 8])));
}

#[test]
fn server_arguments_check_loopback_then_terminal() {
    let loopback = Some(IpHost::V4([127, 0, 0, 1]));
    assert_eq!(validate_server_arguments(None, false, false, false), Ok(()));
    assert_eq!(validate_server_arguments(loopback, true, true, true), Ok(()));
    assert_eq!(
        validate_server_arguments(loopback, true, true, false),
        Err(ArgumentError::ForegroundRequiresTerminal)
    );
    assert_eq!(
        validate_server_arguments(Some(IpHost::V4([10, 0, 0, 1])), true, false, false),
        Err(ArgumentError::ListenAddressNotLoopback)
    );
    assert_eq!(
        validate_metrics_bind_address(IpHost::V4([0, 0, 0, 0])),
        Err(ArgumentError::MetricsBindAddressNotLoopback)
    );
    assert_eq!(validate_metrics_bind_address(IpHost::V4([127, 0, 0, 1])), Ok(()));
}

#[test]
fn missing_network_arguments_are_named() {
    let present = 7u32;
    assert_eq!(required_argument(Some(&present), "--map-id"), Ok(&7));
    let missing = required_argument::<u32>(None, "--tls-certificate");
    assert_eq!(missing, Err(ArgumentError::Missing("--tls-certificate")));
    assert_eq!(
        ArgumentError::Missing("--tls-certificate").message(),
        "--tls-certificate is required with --listen-address"
    );
    assert_eq!(
        ArgumentError::ListenAddressNotLoopback.message(),
        "--listen-address must be loopback for the local identity authority"
    );
}

fn network(listen_address: bool) -> NetworkArguments {
    NetworkArguments {
        listen_address,
        tls_certificate: false,
        tls_private_key: false,
        map_id: false,
        asset_package_directory: false,
        asset_trust_keys: false,
    }
}

#[test]
fn simulation_only_mode_needs_no_network_arguments() {
    assert_eq!(check_network_arguments(network(false)), Ok(()));
}

#[test]
fn listen_address_requires_complete_authenticated_endpoint_arguments() {
    assert_eq!(
        check_network_arguments(network(true)),
        Err(ArgumentError::Missing("--tls-certificate"))
    );
    let complete = NetworkArguments {
        tls_certificate: true,
        tls_private_key: true,
        map_id: true,
        asset_package_directory: true,
        ..network(true)
    };
    assert_eq!(check_network_arguments(complete), Ok(()));
    assert_eq!(
        check_network_arguments(NetworkArguments { map_id: false, ..complete }),
        Err(ArgumentError::Missing("--map-id"))
    );
    let stray = NetworkArguments { asset_trust_keys: true, ..network(false) };
    assert_eq!(
        check_network_arguments(stray),
        Err(ArgumentError::RequiresListenAddress("--asset-trust-key"))
    );
    assert_eq!(
        ArgumentError::RequiresListenAddress("--map-id").message(),
        "--map-id requires --listen-address"
    );
}
