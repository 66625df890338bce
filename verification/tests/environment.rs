use reth_rpc_blueprint_template::environment::{
    helper_exit_result, secret_helper_config, secret_write_command, shared_volume_options,
    ResourceRegistry, SharedEnvironment,
};
use reth_rpc_blueprint_template::{Error, JwtConfig};

#[test]
fn test_ensure_network_exactly_once() {
    // Repeated ensure calls for one name leave exactly one resource.
    let mut registry = ResourceRegistry::new();
    assert!(registry.ensure(String::from("eth_network")));
    assert!(!registry.ensure(String::from("eth_network")));
    assert!(!registry.ensure(String::from("eth_network")));
    assert_eq!(registry.count(&String::from("eth_network")), 1);
    assert!(registry.contains_name(&String::from("eth_network")));
}

#[test]
fn test_ensure_distinct_names() {
    let mut registry = ResourceRegistry::new();
    assert!(registry.ensure(String::from("reth_data")));
    assert!(registry.ensure(String::from("reth_jwt")));
    assert!(!registry.ensure(String::from("reth_data")));
    assert_eq!(registry.count(&String::from("reth_data")), 1);
    assert_eq!(registry.count(&String::from("reth_jwt")), 1);
    assert_eq!(registry.count(&String::from("nimbus_data")), 0);
    assert!(!registry.contains_name(&String::from("nimbus_data")));
}

#[test]
fn test_shared_environment_layout() {
    let env = SharedEnvironment::default();
    assert_eq!(env.network, "eth_network");
    assert_eq!(env.volumes.len(), 2);
    assert_eq!(env.volumes[0], "reth_data");
    assert_eq!(env.volumes[1], "reth_jwt");
    assert_eq!(env.secret_volume, "reth_jwt");
}

#[test]
fn test_shared_volume_options_exact() {
    let opts = shared_volume_options();
    assert_eq!(opts.len(), 2);
    assert_eq!(opts[0].0, "type");
    assert_eq!(opts[0].1, "none");
    assert_eq!(opts[1].0, "o");
    assert_eq!(opts[1].1, "bind,rw,mode=700");
}

#[test]
fn test_secret_write_command_exact() {
    let cmd = secret_write_command("aa11");
    assert_eq!(
        cmd,
        "set -ex && mkdir -p /etc/jwt && echo aa11 > /etc/jwt/jwt.hex && \
         chmod 644 /etc/jwt/jwt.hex && ls -la /etc/jwt && cat /etc/jwt/jwt.hex"
    );
}

#[test]
fn test_secret_helper_container_spec() {
    let helper = secret_helper_config("deadbeef");
    assert_eq!(helper.image, "alpine:latest");
    assert!(helper.container_name.is_none());
    assert_eq!(helper.cmd.len(), 3);
    assert_eq!(helper.cmd[0], "sh");
    assert_eq!(helper.cmd[1], "-c");
    assert!(helper.cmd[2].contains("echo deadbeef > /etc/jwt/jwt.hex"));
    assert_eq!(helper.binds, vec![String::from("reth_jwt:/etc/jwt")]);
    assert!(helper.network.is_none());
    assert!(!helper.privileged);
    assert!(helper.port_bindings.is_empty());
}

#[test]
fn test_helper_exit_zero_is_success() {
    assert!(helper_exit_result(0).is_ok());
}

#[test]
fn test_helper_exit_nonzero_is_container_error() {
    match helper_exit_result(1) {
        Err(Error::Container(m)) => assert_eq!(m, "JWT setup container exited with code 1"),
        _ => unreachable!(),
    }
    match helper_exit_result(-2) {
        Err(Error::Container(m)) => assert_eq!(m, "JWT setup container exited with code -2"),
        _ => unreachable!(),
    }
}

#[test]
fn test_jwt_secret_is_64_hex_digits() {
    let jwt = JwtConfig::new().unwrap();
    assert_eq!(jwt.secret.len(), 64);
    assert!(jwt
        .secret
        .chars()
        .all(|c| c.is_ascii_digit() || ('a'..='f').contains(&c)));
}

#[test]
fn test_jwt_secrets_differ_between_draws() {
    // 32 random bytes colliding twice is beyond plausible.
    let a = JwtConfig::new().unwrap();
    let b = JwtConfig::new().unwrap();
    assert_ne!(a.secret, b.secret);
}
