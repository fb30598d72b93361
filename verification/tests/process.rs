use processmon::config::CommandConfig;
use processmon::config::Config;
use processmon::process::build_exec_request;
use processmon::process::build_spawn_plan;
use processmon::process::build_trigger_plan;
use processmon::process::format_log_line;

fn command(name: &str) -> CommandConfig {
    CommandConfig {
        command: name.to_owned(),
        args: None,
        working_dir: None,
        env: None,
        process_port: None,
        connect_port: None,
    }
}

#[test]
fn test_build_exec_request_plain() {
    let mut cc = command("server");
    cc.args = Some(vec!["--port".to_owned(), "80".to_owned()]);
    cc.working_dir = Some("/srv".to_owned());

    let request = build_exec_request(&cc, &Vec::new());

    assert_eq!("server", request.program);
    assert_eq!(vec!["--port".to_owned(), "80".to_owned()], request.args);
    assert_eq!(Some("/srv".to_owned()), request.working_dir);
    assert!(request.env.is_empty());
}

#[test]
fn test_build_exec_request_uppercases_env_keys() {
    let mut cc = command("server");
    cc.env = Some(vec![
        ("path".to_owned(), "/usr/bin".to_owned()),
        ("rust_log".to_owned(), "debug".to_owned()),
    ]);

    let extra = vec![("TRIGGER_PATH".to_owned(), "/watched/file".to_owned())];
    let request = build_exec_request(&cc, &extra);

    assert_eq!(
        vec![
            ("PATH".to_owned(), "/usr/bin".to_owned()),
            ("RUST_LOG".to_owned(), "debug".to_owned()),
            ("TRIGGER_PATH".to_owned(), "/watched/file".to_owned()),
        ],
        request.env
    );
}

#[test]
fn test_build_spawn_plan_orders_and_cycles_colors() {
    let names = ["p1", "p2", "p3", "p4", "p5", "p6", "p7"];
    let config = Config {
        paths_to_watch: Vec::new(),
        processes: names.iter().map(|n| (n.to_string(), command("run"))).collect(),
        triggers: None,
        debug_mode: None,
        port_range_start: None,
    };

    let plan = build_spawn_plan(&config, 5);

    assert_eq!(7, plan.len());
    for (i, entry) in plan.iter().enumerate() {
        assert_eq!(names[i], entry.0);
        assert_eq!(i % 5, entry.1);
        assert_eq!("run", entry.2.program);
    }
}

#[test]
fn test_build_trigger_plan_order_and_environment() {
    let mut trigger_a = command("make");
    trigger_a.env = Some(vec![("mode".to_owned(), "fast".to_owned())]);
    let trigger_b = command("sync");

    let config = Config {
        paths_to_watch: Vec::new(),
        processes: Vec::new(),
        triggers: Some(vec![
            ("build".to_owned(), trigger_a),
            ("upload".to_owned(), trigger_b),
        ]),
        debug_mode: None,
        port_range_start: None,
    };

    let plan = build_trigger_plan(&config, "/watched/file.c");

    assert_eq!(2, plan.len());
    assert_eq!("build", plan[0].0);
    assert_eq!("upload", plan[1].0);
    assert_eq!(
        vec![
            ("MODE".to_owned(), "fast".to_owned()),
            ("TRIGGER_PATH".to_owned(), "/watched/file.c".to_owned()),
        ],
        plan[0].1.env
    );
    assert_eq!(
        vec![("TRIGGER_PATH".to_owned(), "/watched/file.c".to_owned())],
        plan[1].1.env
    );
}

#[test]
fn test_build_trigger_plan_without_triggers() {
    let config = Config {
        paths_to_watch: Vec::new(),
        processes: Vec::new(),
        triggers: None,
        debug_mode: None,
        port_range_start: None,
    };
    assert!(build_trigger_plan(&config, "/some/path").is_empty());
}

#[test]
fn test_format_log_line() {
    assert_eq!("web: listening", format_log_line("web", "listening", false));
    assert_eq!("web stderr: oh no", format_log_line("web", "oh no", true));
}
