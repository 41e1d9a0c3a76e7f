use fn_gateway::config::{route_method, Config, ConfigError, FunctionConfig, HttpMethod, NetworkingConfig};

fn function(method: &str, cmd: Option<&str>) -> FunctionConfig {
    FunctionConfig::new(
        String::from(method),
        String::from("/f"),
        String::from("./handler.js"),
        cmd.map(String::from),
        String::from("unix_socket"),
    )
}

#[test]
fn identities_differ_between_declarations() {
    let a = function("GET", None);
    let b = function("GET", None);
    assert_ne!(a.id(), b.id());
}

#[test]
fn command_without_interpreter_is_the_handler() {
    let f = function("GET", None);
    assert_eq!(f.cmd(), vec![String::from("./handler.js")]);
    assert_eq!(
        f.command_line(&String::from("/tmp/x/sock")),
        vec![String::from("./handler.js"), String::from("/tmp/x/sock")]
    );
}

#[test]
fn command_with_interpreter_runs_the_handler() {
    let f = function("GET", Some("node"));
    assert_eq!(
        f.command_line(&String::from("/tmp/x/sock")),
        vec![String::from("node"), String::from("./handler.js"), String::from("/tmp/x/sock")]
    );
}

#[test]
fn address_joins_host_and_port() {
    let c = Config::new(
        NetworkingConfig { host: Config::default_host(), port: Config::default_port() },
        vec![],
    );
    assert_eq!(c.address(), "0.0.0.0:80");
}

#[test]
fn methods_are_routed_by_upper_case() {
    assert_eq!(route_method(&String::from("get")).unwrap(), HttpMethod::Get);
    assert_eq!(route_method(&String::from("POST")).unwrap(), HttpMethod::Post);
    assert!(matches!(route_method(&String::from("put")), Err(ConfigError::UnimplementedMethod(m)) if m == "put"));
    assert!(matches!(route_method(&String::from("bad method")), Err(ConfigError::MethodError(_))));
}

#[test]
fn routes_of_a_configuration() {
    let net = || NetworkingConfig { host: String::from("127.0.0.1"), port: String::from("8080") };
    let c = Config::new(net(), vec![function("GET", None), function("post", None)]);
    assert_eq!(c.routes().unwrap(), vec![HttpMethod::Get, HttpMethod::Post]);
    let empty = Config::new(net(), vec![]);
    assert!(matches!(empty.routes(), Err(ConfigError::NoFunctions)));
    let bad = Config::new(net(), vec![function("GET", None), function("DELETE", None)]);
    assert!(matches!(bad.routes(), Err(ConfigError::UnimplementedMethod(_))));
}

#[test]
fn socket_lives_in_the_private_directory() {
    assert_eq!(fn_gateway::config::socket_path(&String::from("/tmp/abc")), "/tmp/abc/sock");
}

#[test]
fn config_errors_have_messages() {
    assert_eq!(
        ConfigError::UnimplementedMethod(String::from("PUT")).message(),
        "A handler for this HTTP Method has not been implemented: PUT"
    );
    assert_eq!(ConfigError::NoFunctions.message(), "Config must contain at least 1 function");
}
