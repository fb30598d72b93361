use processmon::attach::attach_ports;
use processmon::attach::datagram_payload;
use processmon::config::CommandConfig;
use processmon::config::Config;

fn command(name: &str) -> CommandConfig {
    CommandConfig {
        command: name.to_owned(),
        args: None,
        working_dir: None,
        env: None,
        process_port: None,
        connect_port: None,
    }
}

fn ported_config() -> Config {
    let mut config = Config {
        paths_to_watch: Vec::new(),
        processes: vec![
            ("process1".to_owned(), command("one")),
            ("process2".to_owned(), command("two")),
            ("process3".to_owned(), command("three")),
        ],
        triggers: None,
        debug_mode: None,
        port_range_start: None,
    };
    config.assign_ports();
    config
}

#[test]
fn test_attach_ports_resolves_assigned_pair() {
    let config = ported_config();
    assert_eq!(Some((40_000, 40_001)), attach_ports(&config, "process1"));
    assert_eq!(Some((40_002, 40_003)), attach_ports(&config, "process2"));
    assert_eq!(Some((40_004, 40_005)), attach_ports(&config, "process3"));
}

#[test]
fn test_attach_ports_unknown_process() {
    let config = ported_config();
    assert_eq!(None, attach_ports(&config, "nonsense"));
}

#[test]
fn test_attach_ports_unassigned() {
    let config = Config {
        paths_to_watch: Vec::new(),
        processes: vec![("process1".to_owned(), command("one"))],
        triggers: None,
        debug_mode: None,
        port_range_start: None,
    };
    assert_eq!(None, attach_ports(&config, "process1"));
}

#[test]
fn test_datagram_payload_round_trip() {
    // What the relay hands on is byte for byte what arrived in the buffer.
    let mut buffer = [0u8; 16];
    let message = b"hello\nworld\x00\xff";
    buffer[..message.len()].copy_from_slice(message);

    let payload = datagram_payload(&buffer, message.len());
    assert_eq!(message.to_vec(), payload);

    // Forwarding the payload again changes nothing.
    let again = datagram_payload(&payload, payload.len());
    assert_eq!(message.to_vec(), again);
}

#[test]
fn test_datagram_payload_empty() {
    let buffer = [7u8; 4];
    assert!(datagram_payload(&buffer, 0).is_empty());
}
