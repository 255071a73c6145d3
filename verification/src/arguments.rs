//! Validation of process command-line arguments that restricts services to loopback.
use vstd::prelude::*;
use vstd::string::StringExecFns;

verus! {

/// The IP address part of a socket address, as octets or segments.
#[derive(Debug, Clone, Copy, PartialEq, Eq)]
pub enum IpHost {
    V4([u8; 4]),
    V6([u16; 8]),
}

/// Whether an address is a loopback address: `127.0.0.0/8` for IPv4 and exactly `::1`
/// for IPv6, as `IpAddr::is_loopback` defines it.
pub open spec fn spec_is_loopback(host: IpHost) -> bool {
    match host {
        IpHost::V4(octets) => octets[0] == 127,
        IpHost::V6(segments) => segments@ == seq![0u16, 0, 0, 0, 0, 0, 0, 1],
    }
}

/// Return whether an address is a loopback address.
pub fn is_loopback(host: IpHost) -> (loopback: bool)
    ensures
        loopback == spec_is_loopback(host),
{
    match host {
        IpHost::V4(octets) => octets[0] == 127,
        IpHost::V6(segments) => {
            let loopback = segments[0] == 0 && segments[1] == 0 && segments[2] == 0 && segments[3]
                == 0 && segments[4] == 0 && segments[5] == 0 && segments[6] == 0 && segments[7]
                == 1;
            proof {
                if loopback {
                    assert(segments@ =~= seq![0u16, 0, 0, 0, 0, 0, 0, 1]);
                } else {
                    assert(segments@ != seq![0u16, 0, 0, 0, 0, 0, 0, 1]) by {
                        if segments@ == seq![0u16, 0, 0, 0, 0, 0, 0, 1] {
                            assert(segments@[0] == 0 && segments@[7] == 1);
                        }
                    }
                }
            }
            loopback
        },
    }
}

/// A command line that the process refuses.
#[derive(Debug, Clone, Copy, PartialEq, Eq)]
pub enum ArgumentError {
    /// The server's QUIC listen address is not loopback.
    ListenAddressNotLoopback,
    /// A metrics endpoint would be bound outside loopback.
    MetricsBindAddressNotLoopback,
    /// The foreground dashboard needs an interactive terminal on stdin and stdout.
    ForegroundRequiresTerminal,
    /// A network argument that the listen address needs is missing.
    Missing(&'static str),
    /// A network argument was given without the listen address.
    RequiresListenAddress(&'static str),
}

impl ArgumentError {
    /// The operator message of the error.
    pub open spec fn spec_message(self) -> Seq<char> {
        match self {
            ArgumentError::ListenAddressNotLoopback => "--listen-address must be loopback for the local identity authority"@,
            ArgumentError::MetricsBindAddressNotLoopback => "--metrics-bind-address must be loopback"@,
            ArgumentError::ForegroundRequiresTerminal => "--foreground requires an interactive terminal"@,
            ArgumentError::Missing(name) => name@ + " is required with --listen-address"@,
            ArgumentError::RequiresListenAddress(name) => name@ + " requires --listen-address"@,
        }
    }

    /// Return the operator message of the error.
    pub fn message(self) -> (message: String)
        ensures
            message@ == self.spec_message(),
    {
        match self {
            ArgumentError::ListenAddressNotLoopback => String::from_str(
                "--listen-address must be loopback for the local identity authority",
            ),
            ArgumentError::MetricsBindAddressNotLoopback => String::from_str(
                "--metrics-bind-address must be loopback",
            ),
            ArgumentError::ForegroundRequiresTerminal => String::from_str(
                "--foreground requires an interactive terminal",
            ),
            ArgumentError::Missing(name) => {
                let mut message = String::from_str(name);
                message.append(" is required with --listen-address");
                message
            },
            ArgumentError::RequiresListenAddress(name) => {
                let mut message = String::from_str(name);
                message.append(" requires --listen-address");
                message
            },
        }
    }
}

/// The server's checks of its command line, given the listen address if any, whether the
/// dashboard is requested, and whether stdin and stdout are terminals: the local identity
/// authority only listens on loopback, and the dashboard needs a terminal.
pub fn validate_server_arguments(
    listen_address: Option<IpHost>,
    foreground: bool,
    stdin_is_terminal: bool,
    stdout_is_terminal: bool,
) -> (result: Result<(), ArgumentError>)
    ensures
        result == (if listen_address is Some && !spec_is_loopback(listen_address->Some_0) {
            Err(ArgumentError::ListenAddressNotLoopback)
        } else if foreground && (!stdin_is_terminal || !stdout_is_terminal) {
            Err(ArgumentError::ForegroundRequiresTerminal)
        } else {
            Ok(())
        }),
{
    if let Some(host) = listen_address {
        if !is_loopback(host) {
            return Err(ArgumentError::ListenAddressNotLoopback);
        }
    }
    if foreground && (!stdin_is_terminal || !stdout_is_terminal) {
        return Err(ArgumentError::ForegroundRequiresTerminal);
    }
    Ok(())
}

/// The client's and agent's check that their metrics endpoint stays on loopback.
pub fn validate_metrics_bind_address(host: IpHost) -> (result: Result<(), ArgumentError>)
    ensures
        result == (if spec_is_loopback(host) {
            Ok(())
        } else {
            Err(ArgumentError::MetricsBindAddressNotLoopback)
        }),
{
    if is_loopback(host) {
        Ok(())
    } else {
        Err(ArgumentError::MetricsBindAddressNotLoopback)
    }
}

/// An argument that the listen address needs, or the error naming it.
pub fn required_argument<'a, T>(value: Option<&'a T>, name: &'static str) -> (result: Result<&'a T, ArgumentError>)
    ensures
        result == match value {
            Some(v) => Ok::<&'a T, ArgumentError>(v),
            None => Err(ArgumentError::Missing(name)),
        },
{
    match value {
        Some(v) => Ok(v),
        None => Err(ArgumentError::Missing(name)),
    }
}

/// Which of the server's network arguments the command line gives.
#[derive(Debug, Clone, Copy, PartialEq, Eq)]
pub struct NetworkArguments {
    pub listen_address: bool,
    pub tls_certificate: bool,
    pub tls_private_key: bool,
    pub map_id: bool,
    pub asset_package_directory: bool,
    pub asset_trust_keys: bool,
}

/// The first rule the network arguments break, if any: with a listen address the
/// certificate, private key, map, and asset package directory are all needed (checked in
/// that order); without one, none of the other network arguments may be given.
pub open spec fn network_arguments_error(a: NetworkArguments) -> Option<ArgumentError> {
    if a.listen_address {
        if !a.tls_certificate {
            Some(ArgumentError::Missing("--tls-certificate"))
        } else if !a.tls_private_key {
            Some(ArgumentError::Missing("--tls-private-key"))
        } else if !a.map_id {
            Some(ArgumentError::Missing("--map-id"))
        } else if !a.asset_package_directory {
            Some(ArgumentError::Missing("--asset-package-directory"))
        } else {
            None
        }
    } else if a.tls_certificate {
        Some(ArgumentError::RequiresListenAddress("--tls-certificate"))
    } else if a.tls_private_key {
        Some(ArgumentError::RequiresListenAddress("--tls-private-key"))
    } else if a.map_id {
        Some(ArgumentError::RequiresListenAddress("--map-id"))
    } else if a.asset_package_directory {
        Some(ArgumentError::RequiresListenAddress("--asset-package-directory"))
    } else if a.asset_trust_keys {
        Some(ArgumentError::RequiresListenAddress("--asset-trust-key"))
    } else {
        None
    }
}

/// Check which network arguments go together: a listen address needs a complete
/// authenticated endpoint, and endpoint arguments need a listen address; with none of
/// them the server runs only the simulation.
pub fn check_network_arguments(a: NetworkArguments) -> (result: Result<(), ArgumentError>)
    ensures
        result == (match network_arguments_error(a) {
            Some(error) => Err(error),
            None => Ok(()),
        }),
{
    if a.listen_address {
        if !a.tls_certificate {
            Err(ArgumentError::Missing("--tls-certificate"))
        } else if !a.tls_private_key {
            Err(ArgumentError::Missing("--tls-private-key"))
        } else if !a.map_id {
            Err(ArgumentError::Missing("--map-id"))
        } else if !a.asset_package_directory {
            Err(ArgumentError::Missing("--asset-package-directory"))
        } else {
            Ok(())
        }
    } else if a.tls_certificate {
        Err(ArgumentError::RequiresListenAddress("--tls-certificate"))
    } else if a.tls_private_key {
        Err(ArgumentError::RequiresListenAddress("--tls-private-key"))
    } else if a.map_id {
        Err(ArgumentError::RequiresListenAddress("--map-id"))
    } else if a.asset_package_directory {
        Err(ArgumentError::RequiresListenAddress("--asset-package-directory"))
    } else if a.asset_trust_keys {
        Err(ArgumentError::RequiresListenAddress("--asset-trust-key"))
    } else {
        Ok(())
    }
}

} // verus!
