//! Configuration of the Nimbus consensus client and the container
//! specification built from it.

use crate::container::{
    is_port_mapping, seq_views, NodeConfig, PortMapping, Protocol, VolumeSpec,
};
use crate::decimal::{dec_rep, u16_to_string};
use vstd::prelude::*;

verus! {

/// Per-instance configuration of the Nimbus consensus client.
pub struct NimbusConfig {
    pub p2p_tcp_port: u16,
    pub p2p_udp_port: u16,
    pub rest_port: u16,
    pub metrics_port: u16,
    pub data_dir: String,
    pub execution_endpoint: String,
    pub network: String,
}

impl Default for NimbusConfig {
    /// The stock mainnet configuration, paired with the execution client
    /// under its shared-network alias.
    fn default() -> (c: Self)
        ensures
            c.p2p_tcp_port == 9000,
            c.p2p_udp_port == 9000,
            c.rest_port == 5052,
            c.metrics_port == 8008,
            c.data_dir@ == "/data"@,
            c.execution_endpoint@ == "http://reth:8551"@,
            c.network@ == "mainnet"@,
    {
        NimbusConfig {
            p2p_tcp_port: 9000,
            p2p_udp_port: 9000,
            rest_port: 5052,
            metrics_port: 8008,
            data_dir: String::from_str("/data"),
            execution_endpoint: String::from_str("http://reth:8551"),
            network: String::from_str("mainnet"),
        }
    }
}

/// The command line handed to the consensus client, encoding the network,
/// the data directory, the execution endpoint, the JWT secret path and the
/// served ports.
pub open spec fn nimbus_command(cfg: NimbusConfig) -> Seq<Seq<char>> {
    seq![
        "--network="@ + cfg.network@,
        "--data-dir="@ + cfg.data_dir@,
        "--el="@ + cfg.execution_endpoint@,
        "--jwt-secret=/jwt/jwt.hex"@,
        "--tcp-port="@ + dec_rep(cfg.p2p_tcp_port as nat),
        "--udp-port="@ + dec_rep(cfg.p2p_udp_port as nat),
        "--rest"@,
        "--rest-address=0.0.0.0"@,
        "--rest-port="@ + dec_rep(cfg.rest_port as nat),
        "--metrics"@,
        "--metrics-address=0.0.0.0"@,
        "--metrics-port="@ + dec_rep(cfg.metrics_port as nat),
        "--enr-auto-update=true"@,
        "--log-level=info"@,
        "--non-interactive=true"@,
    ]
}

impl NimbusConfig {
    /// The container specification of this consensus client: its image, the
    /// exact command line, its own data volume, the shared JWT bind, the
    /// shared-network attachment under the alias "nimbus", and the published
    /// peer-to-peer, REST and metrics ports.
    pub fn node_config(&self) -> (r: NodeConfig)
        ensures
            r.image@ == "statusim/nimbus-eth2:amd64-latest"@,
            r.container_name matches Some(n) && n@ == "nimbus-eth2"@,
            r.platform matches Some(p) && p@ == "linux/amd64"@,
            r.user matches Some(u) && u@ == "root"@,
            seq_views(r.cmd@) == nimbus_command(*self),
            seq_views(r.binds@) == seq!["nimbus_data:/data"@, "reth_jwt:/jwt:ro"@],
            r.network matches Some(n) && n@ == "eth_network"@,
            seq_views(r.aliases@) == seq!["nimbus"@],
            r.privileged,
            r.restart_unless_stopped,
            r.port_bindings@.len() == 4,
            is_port_mapping(
                r.port_bindings@[0],
                self.p2p_tcp_port,
                Protocol::Tcp,
                "0.0.0.0"@,
                self.p2p_tcp_port,
            ),
            is_port_mapping(
                r.port_bindings@[1],
                self.p2p_udp_port,
                Protocol::Udp,
                "0.0.0.0"@,
                self.p2p_udp_port,
            ),
            is_port_mapping(
                r.port_bindings@[2],
                self.rest_port,
                Protocol::Tcp,
                "127.0.0.1"@,
                self.rest_port,
            ),
            is_port_mapping(
                r.port_bindings@[3],
                self.metrics_port,
                Protocol::Tcp,
                "127.0.0.1"@,
                self.metrics_port,
            ),
            r.data_volumes@.len() == 1,
            r.data_volumes@[0].name@ == "nimbus_data"@,
            r.data_volumes@[0].driver_opts@.len() == 3,
            r.data_volumes@[0].driver_opts@[0].0@ == "type"@,
            r.data_volumes@[0].driver_opts@[0].1@ == "none"@,
            r.data_volumes@[0].driver_opts@[1].0@ == "device"@,
            r.data_volumes@[0].driver_opts@[1].1@ == "/data"@,
            r.data_volumes@[0].driver_opts@[2].0@ == "o"@,
            r.data_volumes@[0].driver_opts@[2].1@ == "bind"@,
            seq_views(r.exclusive_volumes@) == seq!["nimbus_data"@],
    {
        let mut cmd: Vec<String> = Vec::new();
        let mut network = String::from_str("--network=");
        network.append(self.network.as_str());
        cmd.push(network);
        let mut data_dir = String::from_str("--data-dir=");
        data_dir.append(self.data_dir.as_str());
        cmd.push(data_dir);
        let mut el = String::from_str("--el=");
        el.append(self.execution_endpoint.as_str());
        cmd.push(el);
        cmd.push(String::from_str("--jwt-secret=/jwt/jwt.hex"));
        let mut tcp_port = String::from_str("--tcp-port=");
        let tcp_digits = u16_to_string(self.p2p_tcp_port);
        tcp_port.append(tcp_digits.as_str());
        cmd.push(tcp_port);
        let mut udp_port = String::from_str("--udp-port=");
        let udp_digits = u16_to_string(self.p2p_udp_port);
        udp_port.append(udp_digits.as_str());
        cmd.push(udp_port);
        cmd.push(String::from_str("--rest"));
        cmd.push(String::from_str("--rest-address=0.0.0.0"));
        let mut rest_port = String::from_str("--rest-port=");
        let rest_digits = u16_to_string(self.rest_port);
        rest_port.append(rest_digits.as_str());
        cmd.push(rest_port);
        cmd.push(String::from_str("--metrics"));
        cmd.push(String::from_str("--metrics-address=0.0.0.0"));
        let mut metrics_port = String::from_str("--metrics-port=");
        let metrics_digits = u16_to_string(self.metrics_port);
        metrics_port.append(metrics_digits.as_str());
        cmd.push(metrics_port);
        cmd.push(String::from_str("--enr-auto-update=true"));
        cmd.push(String::from_str("--log-level=info"));
        cmd.push(String::from_str("--non-interactive=true"));
        proof {
            assert(seq_views(cmd@) =~~= nimbus_command(*self));
        }

        let mut binds: Vec<String> = Vec::new();
        binds.push(String::from_str("nimbus_data:/data"));
        binds.push(String::from_str("reth_jwt:/jwt:ro"));
        proof {
            assert(seq_views(binds@) =~~= seq!["nimbus_data:/data"@, "reth_jwt:/jwt:ro"@]);
        }

        let mut aliases: Vec<String> = Vec::new();
        aliases.push(String::from_str("nimbus"));
        proof {
            assert(seq_views(aliases@) =~~= seq!["nimbus"@]);
        }

        let mut ports: Vec<PortMapping> = Vec::new();
        ports.push(
            PortMapping {
                container_port: self.p2p_tcp_port,
                protocol: Protocol::Tcp,
                host_ip: String::from_str("0.0.0.0"),
                host_port: self.p2p_tcp_port,
            },
        );
        ports.push(
            PortMapping {
                container_port: self.p2p_udp_port,
                protocol: Protocol::Udp,
                host_ip: String::from_str("0.0.0.0"),
                host_port: self.p2p_udp_port,
            },
        );
        ports.push(
            PortMapping {
                container_port: self.rest_port,
                protocol: Protocol::Tcp,
                host_ip: String::from_str("127.0.0.1"),
                host_port: self.rest_port,
            },
        );
        ports.push(
            PortMapping {
                container_port: self.metrics_port,
                protocol: Protocol::Tcp,
                host_ip: String::from_str("127.0.0.1"),
                host_port: self.metrics_port,
            },
        );

        let mut opts: Vec<(String, String)> = Vec::new();
        opts.push((String::from_str("type"), String::from_str("none")));
        opts.push((String::from_str("device"), String::from_str("/data")));
        opts.push((String::from_str("o"), String::from_str("bind")));
        let mut data_volumes: Vec<VolumeSpec> = Vec::new();
        data_volumes.push(VolumeSpec { name: String::from_str("nimbus_data"), driver_opts: opts });

        let mut exclusive: Vec<String> = Vec::new();
        exclusive.push(String::from_str("nimbus_data"));
        proof {
            assert(seq_views(exclusive@) =~~= seq!["nimbus_data"@]);
        }

        NodeConfig {
            image: String::from_str("statusim/nimbus-eth2:amd64-latest"),
            container_name: Some(String::from_str("nimbus-eth2")),
            platform: Some(String::from_str("linux/amd64")),
            user: Some(String::from_str("root")),
            cmd,
            binds,
            network: Some(String::from_str("eth_network")),
            aliases,
            privileged: true,
            restart_unless_stopped: true,
            port_bindings: ports,
            data_volumes,
            exclusive_volumes: exclusive,
        }
    }
}

} // verus!
