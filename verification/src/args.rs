//! The choice of the device to connect to, from command-line style arguments.

use crate::mdns;
use crate::task::DEFAULT_PORT;
use vstd::prelude::*;
use vstd::string::*;

verus! {

/// An IP address.
#[derive(Clone, Copy, Debug, PartialEq, Eq)]
pub enum IpAddress {
    V4([u8; 4]),
    V6([u16; 8]),
}

/// A socket address: an IPv4 address and a port, or an IPv6 address, a port,
/// its flow information and its scope id.
#[derive(Clone, Copy, Debug, PartialEq, Eq)]
pub enum SocketAddress {
    V4 { ip: [u8; 4], port: u16 },
    V6 { ip: [u16; 8], port: u16, flowinfo: u32, scope_id: u32 },
}

/// The socket address of an IP address and a port: no flow information and no
/// scope id for an IPv6 address.
pub open spec fn spec_socket_address(ip: IpAddress, port: u16) -> SocketAddress {
    match ip {
        IpAddress::V4(a) => SocketAddress::V4 { ip: a, port },
        IpAddress::V6(a) => SocketAddress::V6 { ip: a, port, flowinfo: 0, scope_id: 0 },
    }
}

impl SocketAddress {
    /// The socket address of an IP address and a port: no flow information and
    /// no scope id for an IPv6 address.
    pub fn from_ip(ip: IpAddress, port: u16) -> (r: SocketAddress)
        ensures
            r == spec_socket_address(ip, port),
    {
        match ip {
            IpAddress::V4(a) => SocketAddress::V4 { ip: a, port },
            IpAddress::V6(a) => SocketAddress::V6 { ip: a, port, flowinfo: 0, scope_id: 0 },
        }
    }
}

/// The arguments that name the device to connect to; at most one is meant to be given.
#[derive(Clone, Debug)]
pub struct TargetArgs {
    /// Take the first device that mDNS finds.
    pub mdns_first: bool,
    /// Take the device with this display name that mDNS finds.
    pub mdns_display_name: Option<String>,
    /// Take the device with this id that mDNS finds.
    pub mdns_id: Option<String>,
    /// The device's IP address, with the default port.
    pub ip: Option<IpAddress>,
    /// The device's IP address and TCP port.
    pub addr: Option<SocketAddress>,
}

/// Where to connect: a device that mDNS finds, or an address.
#[derive(Clone, Debug)]
pub enum Target {
    Mdns(mdns::Target),
    SocketAddr(SocketAddress),
}

/// The target some arguments name, in this order of precedence: the address,
/// the IP address with the default port, the first device found, the device
/// with the display name, the device with the id. `None` when none is given.
pub open spec fn spec_target_of(args: TargetArgs) -> Option<Target> {
    if args.addr is Some {
        Some(Target::SocketAddr(args.addr.unwrap()))
    } else if args.ip is Some {
        Some(Target::SocketAddr(spec_socket_address(args.ip.unwrap(), DEFAULT_PORT)))
    } else if args.mdns_first {
        Some(Target::Mdns(mdns::Target::First))
    } else if args.mdns_display_name is Some {
        Some(Target::Mdns(mdns::Target::DisplayName(args.mdns_display_name.unwrap())))
    } else if args.mdns_id is Some {
        Some(Target::Mdns(mdns::Target::Id(args.mdns_id.unwrap())))
    } else {
        None
    }
}

/// Arguments that give an address name exactly that address, whatever else
/// they give.
pub proof fn lemma_target_of_addr(args: TargetArgs)
    requires
        args.addr is Some,
    ensures
        spec_target_of(args) == Some(Target::SocketAddr(args.addr.unwrap())),
{
}

/// Arguments that give an IP address and no address name exactly that IP
/// address with port 8009; an IPv6 one with no flow information and no scope
/// id.
pub proof fn lemma_target_of_ip(args: TargetArgs)
    requires
        args.addr is None,
        args.ip is Some,
    ensures
        args.ip matches Some(IpAddress::V4(a)) ==> spec_target_of(args) == Some(
            Target::SocketAddr(SocketAddress::V4 { ip: a, port: 8009 }),
        ),
        args.ip matches Some(IpAddress::V6(a)) ==> spec_target_of(args) == Some(
            Target::SocketAddr(SocketAddress::V6 { ip: a, port: 8009, flowinfo: 0, scope_id: 0 }),
        ),
{
}

/// Arguments that give neither an address nor an IP address name a device to
/// find by mDNS: the first one when asked for, else the one with the display
/// name, else the one with the id; and nothing when they give none of these.
pub proof fn lemma_target_of_mdns(args: TargetArgs)
    requires
        args.addr is None,
        args.ip is None,
    ensures
        args.mdns_first ==> spec_target_of(args) == Some(Target::Mdns(mdns::Target::First)),
        !args.mdns_first && args.mdns_display_name is Some ==> spec_target_of(args) == Some(
            Target::Mdns(mdns::Target::DisplayName(args.mdns_display_name.unwrap())),
        ),
        !args.mdns_first && args.mdns_display_name is None && args.mdns_id is Some
            ==> spec_target_of(args) == Some(Target::Mdns(mdns::Target::Id(args.mdns_id.unwrap()))),
        spec_target_of(args) is None <==> (!args.mdns_first && args.mdns_display_name is None
            && args.mdns_id is None),
{
}

/// The socket address made from an IP address and a port holds that very IP
/// address and port.
pub proof fn lemma_socket_address_parts(ip: IpAddress, port: u16)
    ensures
        ip matches IpAddress::V4(a) ==> spec_socket_address(ip, port) == (SocketAddress::V4 { ip: a, port }),
        ip matches IpAddress::V6(a) ==> spec_socket_address(ip, port) == (SocketAddress::V6 {
            ip: a,
            port,
            flowinfo: 0,
            scope_id: 0,
        }),
{
}

/// `anyhow::Error::msg`: an error that displays `text`.
#[verifier::external_body]
fn error_with_message(text: String) -> (r: anyhow::Error) {
    anyhow::Error::msg(text)
}

impl TargetArgs {
    /// The target these arguments name; an error when they name none.
    pub fn to_target(&self) -> (r: Result<Target, anyhow::Error>)
        ensures
            r is Err <==> spec_target_of(*self) is None,
            r matches Ok(t) ==> match (t, spec_target_of(*self).unwrap()) {
                (Target::SocketAddr(a), Target::SocketAddr(b)) => a == b,
                (Target::Mdns(mdns::Target::First), Target::Mdns(mdns::Target::First)) => true,
                (
                    Target::Mdns(mdns::Target::DisplayName(a)),
                    Target::Mdns(mdns::Target::DisplayName(b)),
                ) => a@ == b@,
                (Target::Mdns(mdns::Target::Id(a)), Target::Mdns(mdns::Target::Id(b))) => a@ == b@,
                _ => false,
            },
    {
        if let Some(sa) = self.addr {
            Ok(Target::SocketAddr(sa))
        } else if let Some(ip) = self.ip {
            Ok(Target::SocketAddr(SocketAddress::from_ip(ip, DEFAULT_PORT)))
        } else if self.mdns_first {
            Ok(Target::Mdns(mdns::Target::First))
        } else if let Some(name) = &self.mdns_display_name {
            Ok(Target::Mdns(mdns::Target::DisplayName(name.clone())))
        } else if let Some(id) = &self.mdns_id {
            Ok(Target::Mdns(mdns::Target::Id(id.clone())))
        } else {
            // Every field is empty here, so this is the whole pretty `Debug` form of `self`.
            Err(
                error_with_message(
                    String::from_str(
                        "TargetArgs::to_target: no target specified\nself = TargetArgs {\n    mdns_first: false,\n    mdns_display_name: None,\n    mdns_id: None,\n    ip: None,\n    addr: None,\n}",
                    ),
                ),
            )
        }
    }
}

} // verus!
