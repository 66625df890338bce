//! The container specification a lifecycle manager hands to the engine:
//! image, command line, binds, network attachment, published ports and the
//! volumes the client owns.

use vstd::prelude::*;

verus! {

/// The views of a sequence of strings.
pub open spec fn seq_views(v: Seq<String>) -> Seq<Seq<char>> {
    v.map_values(|s: String| s@)
}

/// A transport protocol of a published port.
#[derive(Clone)]
pub enum Protocol {
    Tcp,
    Udp,
}

/// One published port: a container port and protocol bound to a host
/// address.
#[derive(Clone)]
pub struct PortMapping {
    pub container_port: u16,
    pub protocol: Protocol,
    pub host_ip: String,
    pub host_port: u16,
}

/// The engine's name for a published port: the container port in decimal,
/// a slash, the protocol's lowercase name.
pub open spec fn spec_port_key(port: u16, proto: Protocol) -> Seq<char> {
    crate::decimal::dec_rep(port as nat) + (match proto {
        Protocol::Tcp => "/tcp"@,
        Protocol::Udp => "/udp"@,
    })
}

impl PortMapping {
    /// Renders the engine's name for this published port.
    pub fn engine_key(&self) -> (r: String)
        ensures
            r@ == spec_port_key(self.container_port, self.protocol),
    {
        let mut s = crate::decimal::u16_to_string(self.container_port);
        match self.protocol {
            Protocol::Tcp => s.append("/tcp"),
            Protocol::Udp => s.append("/udp"),
        }
        s
    }
}

/// True when `p` publishes `port` over `proto` at `ip`:`host`.
pub open spec fn is_port_mapping(
    p: PortMapping,
    port: u16,
    proto: Protocol,
    ip: Seq<char>,
    host: u16,
) -> bool {
    p.container_port == port && p.protocol == proto && p.host_ip@ == ip && p.host_port == host
}

/// A named volume to be ensured before the container is created, with its
/// driver options.
#[derive(Clone)]
pub struct VolumeSpec {
    pub name: String,
    pub driver_opts: Vec<(String, String)>,
}

/// Everything the engine needs to create one client container, built from
/// per-client configuration.
#[derive(Clone)]
pub struct NodeConfig {
    pub image: String,
    pub container_name: Option<String>,
    pub platform: Option<String>,
    pub user: Option<String>,
    pub cmd: Vec<String>,
    pub binds: Vec<String>,
    pub network: Option<String>,
    pub aliases: Vec<String>,
    pub privileged: bool,
    pub restart_unless_stopped: bool,
    pub port_bindings: Vec<PortMapping>,
    /// Volumes ensured (created if absent) before the container is created.
    pub data_volumes: Vec<VolumeSpec>,
    /// Client-exclusive volumes removed by `cleanup`; shared resources are
    /// not listed here.
    pub exclusive_volumes: Vec<String>,
}

} // verus!
