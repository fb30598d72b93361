use processmon::config::Config;
use processmon::config::PathConfig;
use processmon::ignore::Ignore;

fn mock_config(path: &str, ignore: &str) -> Config {
    let paths_to_watch = vec![PathConfig {
        path: path.to_owned(),
        ignore: Some(vec![ignore.to_owned()]),
    }];
    Config {
        paths_to_watch,
        processes: Vec::new(),
        triggers: None,
        debug_mode: None,
        port_range_start: None,
    }
}

#[test]
fn test_ignore_with_root_path() {
    let config = mock_config("/path", "tmp");
    let ignore = Ignore::new(&config, "/cwd");

    // Don't ignore these
    assert!(!ignore.should_ignore("something"));
    assert!(!ignore.should_ignore("/path/something"));

    // Ignore these
    assert!(ignore.should_ignore("/path/tmp"));
    assert!(ignore.should_ignore("/path/tmp/some_file.txt"));
}

#[test]
fn test_ignore_wth_relative_path() {
    let current_dir = "/cwd";

    let config = mock_config("path", "tmp");
    let ignore = Ignore::new(&config, current_dir);

    // Don't ignore these
    assert!(!ignore.should_ignore("something"));
    assert!(!ignore.should_ignore("/cwd/path/something"));

    // Ignore these
    assert!(ignore.should_ignore("/cwd/path/tmp"));
    assert!(ignore.should_ignore("/cwd/path/tmp/some_file.txt"));
}

#[test]
fn test_ignore_prefix_boundary() {
    // A sibling sharing a string prefix is a different path component.
    let config = mock_config("/path", "tmp");
    let ignore = Ignore::new(&config, "/cwd");

    assert!(ignore.should_ignore("/path/tmp"));
    assert!(!ignore.should_ignore("/path/tmp2"));
    assert!(!ignore.should_ignore("/path/tmp2/some_file.txt"));
}

#[test]
fn test_ignore_without_ignore_list() {
    let config = Config {
        paths_to_watch: vec![PathConfig { path: "/path".to_owned(), ignore: None }],
        processes: Vec::new(),
        triggers: None,
        debug_mode: None,
        port_range_start: None,
    };
    let ignore = Ignore::new(&config, "/cwd");

    assert!(!ignore.should_ignore("/path"));
    assert!(!ignore.should_ignore("/path/tmp"));
}
