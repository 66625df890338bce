use reth_rpc_blueprint_template::container::Protocol;
use reth_rpc_blueprint_template::lighthouse::LighthouseConfig;
use reth_rpc_blueprint_template::nimbus::NimbusConfig;
use reth_rpc_blueprint_template::reth::RethConfig;

#[test]
fn test_reth_default_config() {
    let cfg = RethConfig::default();
    assert_eq!(cfg.http_port, 8545);
    assert_eq!(cfg.ws_port, 8546);
    assert_eq!(cfg.auth_port, 8551);
    assert_eq!(cfg.p2p_port, 30303);
    assert_eq!(cfg.metrics_port, 9001);
    assert_eq!(cfg.data_dir, "/data");
    assert_eq!(cfg.jwt_secret_path, "/jwt/jwt.hex");
    assert_eq!(cfg.bootnodes.len(), 2);
    assert!(cfg.bootnodes[0].starts_with("enode://"));
    assert!(cfg.bootnodes[1].starts_with("enode://"));
}

#[test]
fn test_reth_container_spec() {
    let cfg = RethConfig::default();
    let spec = cfg.node_config();
    assert_eq!(spec.image, "ghcr.io/paradigmxyz/reth:latest");
    assert!(spec.container_name.is_none());
    assert!(spec.platform.is_none());
    assert!(spec.user.is_none());
    let expected = vec![
        "node",
        "--chain=mainnet",
        "--datadir=/data",
        "--authrpc.jwtsecret=/jwt/jwt.hex",
        "--authrpc.addr=0.0.0.0",
        "--authrpc.port=8551",
        "--http",
        "--http.api=debug,eth,net,trace,txpool,web3,rpc,reth,ots",
        "--http.addr=0.0.0.0",
        "--http.port=8545",
        "--http.corsdomain=*",
        "--ws",
        "--ws.api=debug,eth,net,trace,txpool,web3,rpc,reth,ots",
        "--ws.addr=0.0.0.0",
        "--ws.port=8546",
        "--ws.origins=*",
        "--port=30303",
    ];
    assert_eq!(spec.cmd, expected);
    assert_eq!(
        spec.binds,
        vec![String::from("reth_data:/data"), String::from("reth_jwt:/jwt:ro")]
    );
    assert_eq!(spec.network.as_deref(), Some("eth_network"));
    assert_eq!(spec.aliases, vec![String::from("reth")]);
    assert!(!spec.privileged);
    assert!(!spec.restart_unless_stopped);
    assert_eq!(spec.port_bindings.len(), 3);
    assert_eq!(spec.port_bindings[0].container_port, 8545);
    assert!(matches!(spec.port_bindings[0].protocol, Protocol::Tcp));
    assert_eq!(spec.port_bindings[0].host_ip, "0.0.0.0");
    assert_eq!(spec.port_bindings[0].host_port, 8545);
    assert_eq!(spec.port_bindings[1].container_port, 30303);
    assert!(matches!(spec.port_bindings[1].protocol, Protocol::Tcp));
    assert_eq!(spec.port_bindings[2].container_port, 30303);
    assert!(matches!(spec.port_bindings[2].protocol, Protocol::Udp));
    assert!(spec.data_volumes.is_empty());
    assert_eq!(spec.exclusive_volumes, vec![String::from("reth_data")]);
}

#[test]
fn test_port_engine_keys() {
    let spec = RethConfig::default().node_config();
    assert_eq!(spec.port_bindings[0].engine_key(), "8545/tcp");
    assert_eq!(spec.port_bindings[1].engine_key(), "30303/tcp");
    assert_eq!(spec.port_bindings[2].engine_key(), "30303/udp");
}

#[test]
fn test_nimbus_default_config() {
    let cfg = NimbusConfig::default();
    assert_eq!(cfg.p2p_tcp_port, 9000);
    assert_eq!(cfg.p2p_udp_port, 9000);
    assert_eq!(cfg.rest_port, 5052);
    assert_eq!(cfg.metrics_port, 8008);
    assert_eq!(cfg.data_dir, "/data");
    assert_eq!(cfg.execution_endpoint, "http://reth:8551");
    assert_eq!(cfg.network, "mainnet");
}

#[test]
fn test_nimbus_container_spec() {
    let cfg = NimbusConfig::default();
    let spec = cfg.node_config();
    assert_eq!(spec.image, "statusim/nimbus-eth2:amd64-latest");
    assert_eq!(spec.container_name.as_deref(), Some("nimbus-eth2"));
    assert_eq!(spec.platform.as_deref(), Some("linux/amd64"));
    assert_eq!(spec.user.as_deref(), Some("root"));
    let expected = vec![
        "--network=mainnet",
        "--data-dir=/data",
        "--el=http://reth:8551",
        "--jwt-secret=/jwt/jwt.hex",
        "--tcp-port=9000",
        "--udp-port=9000",
        "--rest",
        "--rest-address=0.0.0.0",
        "--rest-port=5052",
        "--metrics",
        "--metrics-address=0.0.0.0",
        "--metrics-port=8008",
        "--enr-auto-update=true",
        "--log-level=info",
        "--non-interactive=true",
    ];
    assert_eq!(spec.cmd, expected);
    assert_eq!(
        spec.binds,
        vec![String::from("nimbus_data:/data"), String::from("reth_jwt:/jwt:ro")]
    );
    assert_eq!(spec.network.as_deref(), Some("eth_network"));
    assert_eq!(spec.aliases, vec![String::from("nimbus")]);
    assert!(spec.privileged);
    assert!(spec.restart_unless_stopped);
    assert_eq!(spec.port_bindings.len(), 4);
    assert_eq!(spec.port_bindings[2].host_ip, "127.0.0.1");
    assert_eq!(spec.port_bindings[2].container_port, 5052);
    assert_eq!(spec.port_bindings[3].container_port, 8008);
    assert_eq!(spec.data_volumes.len(), 1);
    assert_eq!(spec.data_volumes[0].name, "nimbus_data");
    let opts = &spec.data_volumes[0].driver_opts;
    assert_eq!(opts.len(), 3);
    assert_eq!(opts[0], (String::from("type"), String::from("none")));
    assert_eq!(opts[1], (String::from("device"), String::from("/data")));
    assert_eq!(opts[2], (String::from("o"), String::from("bind")));
    assert_eq!(spec.exclusive_volumes, vec![String::from("nimbus_data")]);
}

#[test]
fn test_lighthouse_default_config() {
    let cfg = LighthouseConfig::default();
    assert_eq!(cfg.p2p_port, 9000);
    assert_eq!(cfg.discovery_port, 9001);
    assert_eq!(cfg.http_port, 5052);
    assert_eq!(cfg.metrics_port, 5054);
    assert_eq!(cfg.data_dir, "/data");
    assert_eq!(cfg.jwt_secret_path, "/jwt/jwt.hex");
    assert_eq!(cfg.execution_endpoint, "http://reth:8551");
}

#[test]
fn test_lighthouse_container_spec() {
    let cfg = LighthouseConfig::default();
    let spec = cfg.node_config();
    assert_eq!(spec.image, "sigp/lighthouse:latest");
    assert_eq!(spec.container_name.as_deref(), Some("lighthouse"));
    assert_eq!(spec.platform.as_deref(), Some("linux/amd64"));
    assert_eq!(spec.user.as_deref(), Some("root"));
    let expected = vec![
        "lighthouse",
        "beacon",
        "--network=mainnet",
        "--execution-endpoint",
        "http://reth:8551",
        "--execution-jwt",
        "/jwt/jwt.hex",
        "--http",
        "--http-address=0.0.0.0",
        "--http-port=5052",
        "--metrics",
        "--metrics-address=0.0.0.0",
        "--metrics-port=5054",
        "--disable-deposit-contract-sync",
    ];
    assert_eq!(spec.cmd, expected);
    assert_eq!(
        spec.binds,
        vec![
            String::from("lighthouse_data:/data"),
            String::from("reth_jwt:/jwt:ro")
        ]
    );
    assert_eq!(spec.aliases, vec![String::from("lighthouse")]);
    assert!(spec.privileged);
    assert!(spec.restart_unless_stopped);
    assert_eq!(spec.port_bindings.len(), 4);
    assert_eq!(spec.port_bindings[0].container_port, 9000);
    assert!(matches!(spec.port_bindings[1].protocol, Protocol::Udp));
    assert_eq!(spec.port_bindings[2].host_ip, "127.0.0.1");
    assert_eq!(spec.data_volumes.len(), 1);
    assert_eq!(spec.data_volumes[0].name, "lighthouse_data");
    assert_eq!(
        spec.exclusive_volumes,
        vec![String::from("lighthouse_data")]
    );
}
