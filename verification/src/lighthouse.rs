//! Configuration of the Lighthouse consensus client and the container
//! specification built from it.

use crate::container::{
    is_port_mapping, seq_views, NodeConfig, PortMapping, Protocol, VolumeSpec,
};
use crate::decimal::{dec_rep, u16_to_string};
use vstd::prelude::*;

verus! {

/// Per-instance configuration of the Lighthouse consensus client.
pub struct LighthouseConfig {
    pub p2p_port: u16,
    pub discovery_port: u16,
    pub http_port: u16,
    pub metrics_port: u16,
    pub data_dir: String,
    pub jwt_secret_path: String,
    pub execution_endpoint: String,
}

impl Default for LighthouseConfig {
    /// The stock mainnet configuration, paired with the execution client
    /// under its shared-network alias.
    fn default() -> (c: Self)
        ensures
            c.p2p_port == 9000,
            c.discovery_port == 9001,
            c.http_port == 5052,
            c.metrics_port == 5054,
            c.data_dir@ == "/data"@,
            c.jwt_secret_path@ == "/jwt/jwt.hex"@,
            c.execution_endpoint@ == "http://reth:8551"@,
    {
        LighthouseConfig {
            p2p_port: 9000,
            discovery_port: 9001,
            http_port: 5052,
            metrics_port: 5054,
            data_dir: String::from_str("/data"),
            jwt_secret_path: String::from_str("/jwt/jwt.hex"),
            execution_endpoint: String::from_str("http://reth:8551"),
        }
    }
}

/// The command line handed to the consensus client, encoding the execution
/// endpoint, the JWT secret path and the served ports.
pub open spec fn lighthouse_command(cfg: LighthouseConfig) -> Seq<Seq<char>> {
    seq![
        "lighthouse"@,
        "beacon"@,
        "--network=mainnet"@,
        "--execution-endpoint"@,
        cfg.execution_endpoint@,
        "--execution-jwt"@,
        cfg.jwt_secret_path@,
        "--http"@,
        "--http-address=0.0.0.0"@,
        "--http-port="@ + dec_rep(cfg.http_port as nat),
        "--metrics"@,
        "--metrics-address=0.0.0.0"@,
        "--metrics-port="@ + dec_rep(cfg.metrics_port as nat),
        "--disable-deposit-contract-sync"@,
    ]
}

impl LighthouseConfig {
    /// The container specification of this consensus client: its image, the
    /// exact command line, its own data volume, the shared JWT bind, the
    /// shared-network attachment under the alias "lighthouse", and the
    /// published peer-to-peer, HTTP and metrics ports.
    pub fn node_config(&self) -> (r: NodeConfig)
        ensures
            r.image@ == "sigp/lighthouse:latest"@,
            r.container_name matches Some(n) && n@ == "lighthouse"@,
            r.platform matches Some(p) && p@ == "linux/amd64"@,
            r.user matches Some(u) && u@ == "root"@,
            seq_views(r.cmd@) == lighthouse_command(*self),
            seq_views(r.binds@) == seq!["lighthouse_data:/data"@, "reth_jwt:/jwt:ro"@],
            r.network matches Some(n) && n@ == "eth_network"@,
            seq_views(r.aliases@) == seq!["lighthouse"@],
            r.privileged,
            r.restart_unless_stopped,
            r.port_bindings@.len() == 4,
            is_port_mapping(
                r.port_bindings@[0],
                self.p2p_port,
                Protocol::Tcp,
                "0.0.0.0"@,
                self.p2p_port,
            ),
            is_port_mapping(
                r.port_bindings@[1],
                self.p2p_port,
                Protocol::Udp,
                "0.0.0.0"@,
                self.p2p_port,
            ),
            is_port_mapping(
                r.port_bindings@[2],
                self.http_port,
                Protocol::Tcp,
                "127.0.0.1"@,
                self.http_port,
            ),
            is_port_mapping(
                r.port_bindings@[3],
                self.metrics_port,
                Protocol::Tcp,
                "127.0.0.1"@,
                self.metrics_port,
            ),
            r.data_volumes@.len() == 1,
            r.data_volumes@[0].name@ == "lighthouse_data"@,
            r.data_volumes@[0].driver_opts@.len() == 3,
            r.data_volumes@[0].driver_opts@[0].0@ == "type"@,
            r.data_volumes@[0].driver_opts@[0].1@ == "none"@,
            r.data_volumes@[0].driver_opts@[1].0@ == "device"@,
            r.data_volumes@[0].driver_opts@[1].1@ == "/data"@,
            r.data_volumes@[0].driver_opts@[2].0@ == "o"@,
            r.data_volumes@[0].driver_opts@[2].1@ == "bind"@,
            seq_views(r.exclusive_volumes@) == seq!["lighthouse_data"@],
    {
        let mut cmd: Vec<String> = Vec::new();
        cmd.push(String::from_str("lighthouse"));
        cmd.push(String::from_str("beacon"));
        cmd.push(String::from_str("--network=mainnet"));
        cmd.push(String::from_str("--execution-endpoint"));
        cmd.push(self.execution_endpoint.clone());
        cmd.push(String::from_str("--execution-jwt"));
        cmd.push(self.jwt_secret_path.clone());
        cmd.push(String::from_str("--http"));
        cmd.push(String::from_str("--http-address=0.0.0.0"));
        let mut http_port = String::from_str("--http-port=");
        let http_digits = u16_to_string(self.http_port);
        http_port.append(http_digits.as_str());
        cmd.push(http_port);
        cmd.push(String::from_str("--metrics"));
        cmd.push(String::from_str("--metrics-address=0.0.0.0"));
        let mut metrics_port = String::from_str("--metrics-port=");
        let metrics_digits = u16_to_string(self.metrics_port);
        metrics_port.append(metrics_digits.as_str());
        cmd.push(metrics_port);
        cmd.push(String::from_str("--disable-deposit-contract-sync"));
        proof {
            assert(seq_views(cmd@) =~~= lighthouse_command(*self));
        }

        let mut binds: Vec<String> = Vec::new();
        binds.push(String::from_str("lighthouse_data:/data"));
        binds.push(String::from_str("reth_jwt:/jwt:ro"));
        proof {
            assert(seq_views(binds@) =~~= seq!["lighthouse_data:/data"@, "reth_jwt:/jwt:ro"@]);
        }

        let mut aliases: Vec<String> = Vec::new();
        aliases.push(String::from_str("lighthouse"));
        proof {
            assert(seq_views(aliases@) =~~= seq!["lighthouse"@]);
        }

        let mut ports: Vec<PortMapping> = Vec::new();
        ports.push(
            PortMapping {
                container_port: self.p2p_port,
                protocol: Protocol::Tcp,
                host_ip: String::from_str("0.0.0.0"),
                host_port: self.p2p_port,
            },
        );
        ports.push(
            PortMapping {
                container_port: self.p2p_port,
                protocol: Protocol::Udp,
                host_ip: String::from_str("0.0.0.0"),
                host_port: self.p2p_port,
            },
        );
        ports.push(
            PortMapping {
                container_port: self.http_port,
                protocol: Protocol::Tcp,
                host_ip: String::from_str("127.0.0.1"),
                host_port: self.http_port,
            },
        );
        ports.push(
            PortMapping {
                container_port: self.metrics_port,
                protocol: Protocol::Tcp,
                host_ip: String::from_str("127.0.0.1"),
                host_port: self.metrics_port,
            },
        );

        let mut opts: Vec<(String, String)> = Vec::new();
        opts.push((String::from_str("type"), String::from_str("none")));
        opts.push((String::from_str("device"), String::from_str("/data")));
        opts.push((String::from_str("o"), String::from_str("bind")));
        let mut data_volumes: Vec<VolumeSpec> = Vec::new();
        data_volumes.push(
            VolumeSpec { name: String::from_str("lighthouse_data"), driver_opts: opts },
        );

        let mut exclusive: Vec<String> = Vec::new();
        exclusive.push(String::from_str("lighthouse_data"));
        proof {
            assert(seq_views(exclusive@) =~~= seq!["lighthouse_data"@]);
        }

        NodeConfig {
            image: String::from_str("sigp/lighthouse:latest"),
            container_name: Some(String::from_str("lighthouse")),
            platform: Some(String::from_str("linux/amd64")),
            user: Some(String::from_str("root")),
            cmd,
            binds,
            network: Some(String::from_str("eth_network")),
            aliases,
            privileged: true,
            restart_unless_stopped: true,
            port_bindings: ports,
            data_volumes,
            exclusive_volumes: exclusive,
        }
    }
}

} // verus!
