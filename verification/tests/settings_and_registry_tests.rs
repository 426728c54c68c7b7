use gamesync::addr::{pick_external_ipv4, Ipv4Octets};
use gamesync::netloop::RetryPolicy;
use gamesync::registry::ClientConnections;
use gamesync::settings::{
    clamp_dim, default_settings, load_settings, redeem_skin, token_good, ConfigError,
};

#[test]
fn an_absent_file_resolves_to_the_defaults() {
    let s = load_settings("").unwrap();
    assert_eq!(s.window_length, 1000);
    assert_eq!(s.window_height, 1000);
    assert_eq!(s.fps, 60);
    assert_eq!(s.ip, "127.0.0.1");
    assert_eq!(s.port, 5766);
    assert_eq!(s.name, "Player");
    assert_eq!(s.preferred_latency, 4);
    assert_eq!(s.skin, 0);
    let d = default_settings();
    assert_eq!(s, d);
}

#[test]
fn a_full_settings_file_resolves_field_by_field() {
    let content = "{\"settings\": {\"RSWINDOW_LENGTH\": \"1600\", \"RSWINDOW_HEIGHT\": \"1200\", \
                    \"FPS\": \"30\", \"IP\": \"10.0.0.2\", \"PORT\": \"8080\", \
                    \"NAME\": \"Ada\", \"PREFERRED_LATENCY\": \"40\", \"SKIN\": \"1\"}}";
    let s = load_settings(content).unwrap();
    assert_eq!(s.window_length, 1600);
    assert_eq!(s.window_height, 1200);
    assert_eq!(s.fps, 30);
    assert_eq!(s.ip, "10.0.0.2");
    assert_eq!(s.port, 8080);
    assert_eq!(s.name, "Ada");
    assert_eq!(s.preferred_latency, 40);
    assert_eq!(s.skin, 1);
}

#[test]
fn small_window_dimensions_are_clamped_up() {
    let content = "{\"settings\": {\"RSWINDOW_LENGTH\": \"800\", \"RSWINDOW_HEIGHT\": \"999\"}}";
    let s = load_settings(content).unwrap();
    assert_eq!(s.window_length, 1000);
    assert_eq!(s.window_height, 1000);
    assert_eq!(clamp_dim(0), 1000);
    assert_eq!(clamp_dim(1000), 1000);
    assert_eq!(clamp_dim(1001), 1001);
}

#[test]
fn a_malformed_numeric_field_falls_back_to_its_default() {
    let content = "{\"settings\": {\"FPS\": \"sixty\", \"SKIN\": \"\"}}";
    let s = load_settings(content).unwrap();
    assert_eq!(s.fps, 60);
    assert_eq!(s.skin, 0);
}

#[test]
fn a_malformed_port_is_fatal() {
    let content = "{\"settings\": {\"PORT\": \"harbor\"}}";
    assert_eq!(load_settings(content).unwrap_err(), ConfigError::InvalidPort);
    let content2 = "{\"settings\": {\"PORT\": \"70000\"}}";
    assert_eq!(load_settings(content2).unwrap_err(), ConfigError::InvalidPort);
    // an absent port is not fatal: it defaults
    let s = load_settings("{\"settings\": {}}").unwrap();
    assert_eq!(s.port, 5766);
}

#[test]
fn the_skin_token_rules() {
    assert!(token_good("232445"));
    assert!(!token_good("232444"));
    assert!(redeem_skin("232445").is_ok());
    assert_eq!(redeem_skin("123456").unwrap_err(), "Invalid token");
    assert_eq!(redeem_skin("23244").unwrap_err(), "Invalid token");
    assert_eq!(redeem_skin("").unwrap_err(), "Invalid token");
}

#[test]
fn the_registry_stores_and_overwrites_by_identity() {
    let mut reg: ClientConnections<String> = ClientConnections::new();
    assert!(reg.get_client(4).is_none());
    reg.add_client(4, String::from("alpha"));
    reg.add_client(9, String::from("beta"));
    assert_eq!(reg.get_client(4).unwrap(), "alpha");
    assert_eq!(reg.get_client(9).unwrap(), "beta");
    // a reconnecting identity overwrites its stale entry
    reg.add_client(4, String::from("gamma"));
    assert_eq!(reg.get_client(4).unwrap(), "gamma");
    assert!(reg.get_client(5).is_none());
}

#[test]
fn the_bind_address_is_the_first_external_one() {
    let addrs = vec![
        Ipv4Octets { a: 127, b: 0, c: 0, d: 1 },
        Ipv4Octets { a: 0, b: 0, c: 0, d: 0 },
        Ipv4Octets { a: 192, b: 168, c: 1, d: 7 },
        Ipv4Octets { a: 10, b: 0, c: 0, d: 3 },
    ];
    let picked = pick_external_ipv4(&addrs).unwrap();
    assert_eq!(picked, Ipv4Octets { a: 192, b: 168, c: 1, d: 7 });
    let only_local = vec![Ipv4Octets { a: 127, b: 0, c: 0, d: 1 }];
    assert!(pick_external_ipv4(&only_local).is_none());
    assert!(pick_external_ipv4(&vec![]).is_none());
}

#[test]
fn the_connect_policy_is_five_tries_half_a_second_apart() {
    let p = RetryPolicy::standard();
    assert_eq!(p.max_attempts, 5);
    assert_eq!(p.delay_ms, 500);
    assert!(p.should_retry(0));
    assert!(p.should_retry(4));
    assert!(!p.should_retry(5));
}
