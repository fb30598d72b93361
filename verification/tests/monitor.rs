use processmon::change_event::ChangeEvent;
use processmon::config::CommandConfig;
use processmon::config::Config;
use processmon::config::PathConfig;
use processmon::monitor::Decision;
use processmon::monitor::Monitor;

fn command(name: &str) -> CommandConfig {
    CommandConfig {
        command: name.to_owned(),
        args: None,
        working_dir: None,
        env: None,
        process_port: None,
        connect_port: None,
    }
}

fn test_config() -> Config {
    Config {
        paths_to_watch: vec![PathConfig {
            path: "/watched".to_owned(),
            ignore: Some(vec!["tmp".to_owned()]),
        }],
        processes: vec![
            ("one".to_owned(), command("run-one")),
            ("two".to_owned(), command("run-two")),
        ],
        triggers: None,
        debug_mode: None,
        port_range_start: None,
    }
}

#[test]
fn test_first_event_restarts() {
    let monitor = Monitor::new(test_config(), "/cwd");
    let event = ChangeEvent::new("/watched/src/main.c".to_owned(), 1_000);
    assert!(matches!(monitor.decide(&event), Decision::Restart));
}

#[test]
fn test_ignored_path_is_ignored() {
    let monitor = Monitor::new(test_config(), "/cwd");
    let event = ChangeEvent::new("/watched/tmp/scratch".to_owned(), 1_000);
    assert!(matches!(monitor.decide(&event), Decision::Ignored));
}

#[test]
fn test_debounce_window() {
    let mut monitor = Monitor::new(test_config(), "/cwd");

    // A restart completed at t = 1000 ms.
    monitor.record_restart(1_000);

    // Exactly the window after completion: still absorbed.
    let event = ChangeEvent::new("/watched/src/main.c".to_owned(), 3_000);
    assert!(matches!(monitor.decide(&event), Decision::Debounced));

    // One millisecond past the window: restart again.
    let event = ChangeEvent::new("/watched/src/main.c".to_owned(), 3_001);
    assert!(matches!(monitor.decide(&event), Decision::Restart));
}

#[test]
fn test_event_before_last_restart_is_debounced() {
    let mut monitor = Monitor::new(test_config(), "/cwd");
    monitor.record_restart(5_000);

    // Observed before the restart completed: covered by that cycle.
    let event = ChangeEvent::new("/watched/src/main.c".to_owned(), 4_000);
    assert!(matches!(monitor.decide(&event), Decision::Debounced));
}

#[test]
fn test_restart_records_running_processes() {
    let mut monitor = Monitor::new(test_config(), "/cwd");
    assert!(monitor.running_processes().is_empty());

    monitor.record_restart(1_000);
    assert_eq!(vec!["one".to_owned(), "two".to_owned()], *monitor.running_processes());

    // A second cycle kills everything before it spawns: same set after.
    monitor.record_restart(10_000);
    assert_eq!(vec!["one".to_owned(), "two".to_owned()], *monitor.running_processes());
}

#[test]
fn test_kill_all_empties_running_set() {
    let mut monitor = Monitor::new(test_config(), "/cwd");
    monitor.record_restart(1_000);
    assert_eq!(2, monitor.running_processes().len());

    monitor.record_kill_all();
    assert!(monitor.running_processes().is_empty());

    monitor.record_spawn("one".to_owned());
    assert_eq!(vec!["one".to_owned()], *monitor.running_processes());
}
