//! Configuration of the execution client and the container specification
//! built from it.

use crate::container::{is_port_mapping, seq_views, NodeConfig, PortMapping, Protocol};
use crate::decimal::{dec_rep, u16_to_string};
use vstd::prelude::*;

verus! {

/// Per-instance configuration of the execution client.
pub struct RethConfig {
    pub http_port: u16,
    pub ws_port: u16,
    pub auth_port: u16,
    pub p2p_port: u16,
    pub metrics_port: u16,
    pub data_dir: String,
    pub jwt_secret_path: String,
    pub bootnodes: Vec<String>,
}

impl Default for RethConfig {
    /// The stock mainnet configuration.
    fn default() -> (c: Self)
        ensures
            c.http_port == 8545,
            c.ws_port == 8546,
            c.auth_port == 8551,
            c.p2p_port == 30303,
            c.metrics_port == 9001,
            c.data_dir@ == "/data"@,
            c.jwt_secret_path@ == "/jwt/jwt.hex"@,
            c.bootnodes@.len() == 2,
    {
        let mut bootnodes: Vec<String> = Vec::new();
        bootnodes.push(
            String::from_str(
                "enode://d860a01f9722d78051619d1e2351aba3f43f943f6f00718d1b9baa4101932a1f5011f16bb2b1bb35db20d6fe28fa0bf09636d26a87d31de9ec6203eeedb1f666@18.138.108.67:30303",
            ),
        );
        bootnodes.push(
            String::from_str(
                "enode://22a8232c3abc76a16ae9d6c3b164f98775fe226f0917b0ca871128a74a8e9630b458460865bab457221f1d448dd9791d24c4e5d88786180ac185df813a68d4de@3.209.45.79:30303",
            ),
        );
        RethConfig {
            http_port: 8545,
            ws_port: 8546,
            auth_port: 8551,
            p2p_port: 30303,
            metrics_port: 9001,
            data_dir: String::from_str("/data"),
            jwt_secret_path: String::from_str("/jwt/jwt.hex"),
            bootnodes,
        }
    }
}

/// The command line handed to the execution client, encoding the data
/// directory, the JWT secret path and the served ports.
pub open spec fn reth_command(cfg: RethConfig) -> Seq<Seq<char>> {
    seq![
        "node"@,
        "--chain=mainnet"@,
        "--datadir="@ + cfg.data_dir@,
        "--authrpc.jwtsecret="@ + cfg.jwt_secret_path@,
        "--authrpc.addr=0.0.0.0"@,
        "--authrpc.port="@ + dec_rep(cfg.auth_port as nat),
        "--http"@,
        "--http.api=debug,eth,net,trace,txpool,web3,rpc,reth,ots"@,
        "--http.addr=0.0.0.0"@,
        "--http.port="@ + dec_rep(cfg.http_port as nat),
        "--http.corsdomain=*"@,
        "--ws"@,
        "--ws.api=debug,eth,net,trace,txpool,web3,rpc,reth,ots"@,
        "--ws.addr=0.0.0.0"@,
        "--ws.port="@ + dec_rep(cfg.ws_port as nat),
        "--ws.origins=*"@,
        "--port="@ + dec_rep(cfg.p2p_port as nat),
    ]
}

impl RethConfig {
    /// The container specification of this execution client: its image, the
    /// exact command line, the data and JWT binds, the shared-network
    /// attachment under the alias "reth", and the published HTTP and
    /// peer-to-peer ports.
    pub fn node_config(&self) -> (r: NodeConfig)
        ensures
            r.image@ == "ghcr.io/paradigmxyz/reth:latest"@,
            r.container_name is None,
            r.platform is None,
            r.user is None,
            seq_views(r.cmd@) == reth_command(*self),
            seq_views(r.binds@) == seq!["reth_data:/data"@, "reth_jwt:/jwt:ro"@],
            r.network matches Some(n) && n@ == "eth_network"@,
            seq_views(r.aliases@) == seq!["reth"@],
            !r.privileged,
            !r.restart_unless_stopped,
            r.port_bindings@.len() == 3,
            is_port_mapping(
                r.port_bindings@[0],
                self.http_port,
                Protocol::Tcp,
                "0.0.0.0"@,
                self.http_port,
            ),
            is_port_mapping(
                r.port_bindings@[1],
                self.p2p_port,
                Protocol::Tcp,
                "0.0.0.0"@,
                self.p2p_port,
            ),
            is_port_mapping(
                r.port_bindings@[2],
                self.p2p_port,
                Protocol::Udp,
                "0.0.0.0"@,
                self.p2p_port,
            ),
            r.data_volumes@.len() == 0,
            seq_views(r.exclusive_volumes@) == seq!["reth_data"@],
    {
        let mut cmd: Vec<String> = Vec::new();
        cmd.push(String::from_str("node"));
        cmd.push(String::from_str("--chain=mainnet"));
        let mut datadir = String::from_str("--datadir=");
        datadir.append(self.data_dir.as_str());
        cmd.push(datadir);
        let mut jwt = String::from_str("--authrpc.jwtsecret=");
        jwt.append(self.jwt_secret_path.as_str());
        cmd.push(jwt);
        cmd.push(String::from_str("--authrpc.addr=0.0.0.0"));
        let mut auth_port = String::from_str("--authrpc.port=");
        let auth_digits = u16_to_string(self.auth_port);
        auth_port.append(auth_digits.as_str());
        cmd.push(auth_port);
        cmd.push(String::from_str("--http"));
        cmd.push(String::from_str("--http.api=debug,eth,net,trace,txpool,web3,rpc,reth,ots"));
        cmd.push(String::from_str("--http.addr=0.0.0.0"));
        let mut http_port = String::from_str("--http.port=");
        let http_digits = u16_to_string(self.http_port);
        http_port.append(http_digits.as_str());
        cmd.push(http_port);
        cmd.push(String::from_str("--http.corsdomain=*"));
        cmd.push(String::from_str("--ws"));
        cmd.push(String::from_str("--ws.api=debug,eth,net,trace,txpool,web3,rpc,reth,ots"));
        cmd.push(String::from_str("--ws.addr=0.0.0.0"));
        let mut ws_port = String::from_str("--ws.port=");
        let ws_digits = u16_to_string(self.ws_port);
        ws_port.append(ws_digits.as_str());
        cmd.push(ws_port);
        cmd.push(String::from_str("--ws.origins=*"));
        let mut p2p = String::from_str("--port=");
        let p2p_digits = u16_to_string(self.p2p_port);
        p2p.append(p2p_digits.as_str());
        cmd.push(p2p);
        proof {
            assert(seq_views(cmd@) =~~= reth_command(*self));
        }

        let mut binds: Vec<String> = Vec::new();
        binds.push(String::from_str("reth_data:/data"));
        binds.push(String::from_str("reth_jwt:/jwt:ro"));
        proof {
            assert(seq_views(binds@) =~~= seq!["reth_data:/data"@, "reth_jwt:/jwt:ro"@]);
        }

        let mut aliases: Vec<String> = Vec::new();
        aliases.push(String::from_str("reth"));
        proof {
            assert(seq_views(aliases@) =~~= seq!["reth"@]);
        }

        let mut ports: Vec<PortMapping> = Vec::new();
        ports.push(
            PortMapping {
                container_port: self.http_port,
                protocol: Protocol::Tcp,
                host_ip: String::from_str("0.0.0.0"),
                host_port: self.http_port,
            },
        );
        ports.push(
            PortMapping {
                container_port: self.p2p_port,
                protocol: Protocol::Tcp,
                host_ip: String::from_str("0.0.0.0"),
                host_port: self.p2p_port,
            },
        );
        ports.push(
            PortMapping {
                container_port: self.p2p_port,
                protocol: Protocol::Udp,
                host_ip: String::from_str("0.0.0.0"),
                host_port: self.p2p_port,
            },
        );

        let mut exclusive: Vec<String> = Vec::new();
        exclusive.push(String::from_str("reth_data"));
        proof {
            assert(seq_views(exclusive@) =~~= seq!["reth_data"@]);
        }

        NodeConfig {
            image: String::from_str("ghcr.io/paradigmxyz/reth:latest"),
            container_name: None,
            platform: None,
            user: None,
            cmd,
            binds,
            network: Some(String::from_str("eth_network")),
            aliases,
            privileged: false,
            restart_unless_stopped: false,
            port_bindings: ports,
            data_volumes: Vec::new(),
            exclusive_volumes: exclusive,
        }
    }
}

} // verus!
