use tychecker::resolve::{BinarySettings, BinarySource, choose_binary_source, command_for};

#[test]
fn explicit_path_wins_over_search_path() {
    let settings = Some(BinarySettings {
        path: Some(String::from("/usr/local/bin/ty")),
        arguments: Some(vec![String::from("server"), String::from("--verbose")]),
    });
    let search_hit = Some(String::from("/somewhere/else/ty"));
    let source = choose_binary_source(&settings, &search_hit);
    let path = match source {
        BinarySource::Explicit(p) => p,
        _ => panic!("an explicitly configured path must win"),
    };
    assert_eq!(path, "/usr/local/bin/ty");
    let cmd = command_for(path, settings);
    assert_eq!(cmd.command, "/usr/local/bin/ty");
    assert_eq!(cmd.args, vec![String::from("server"), String::from("--verbose")]);
    assert!(cmd.env.is_empty());
}

#[test]
fn explicit_path_used_even_if_nothing_on_search_path() {
    let settings = Some(BinarySettings {
        path: Some(String::from("/usr/local/bin/ty")),
        arguments: None,
    });
    let source = choose_binary_source(&settings, &None);
    assert!(matches!(source, BinarySource::Explicit(p) if p == "/usr/local/bin/ty"));
}

#[test]
fn discovered_binary_gets_default_server_argument() {
    let settings: Option<BinarySettings> = None;
    let search_hit = Some(String::from("/home/user/.local/bin/ty"));
    let source = choose_binary_source(&settings, &search_hit);
    let path = match source {
        BinarySource::Discovered(p) => p,
        _ => panic!("a search-path hit must be used when no path is configured"),
    };
    assert_eq!(path, "/home/user/.local/bin/ty");
    let cmd = command_for(path, settings);
    assert_eq!(cmd.command, "/home/user/.local/bin/ty");
    assert_eq!(cmd.args, vec![String::from("server")]);
    assert!(cmd.env.is_empty());
}

#[test]
fn configured_arguments_apply_to_discovered_binary() {
    let settings = Some(BinarySettings {
        path: None,
        arguments: Some(vec![String::from("server"), String::from("--log=debug")]),
    });
    let search_hit = Some(String::from("/usr/bin/ty"));
    let source = choose_binary_source(&settings, &search_hit);
    let path = match source {
        BinarySource::Discovered(p) => p,
        _ => panic!("arguments alone must not stop search-path discovery"),
    };
    let cmd = command_for(path, settings);
    assert_eq!(cmd.args, vec![String::from("server"), String::from("--log=debug")]);
}

#[test]
fn managed_install_when_nothing_is_found() {
    let source = choose_binary_source(&None, &None);
    assert!(matches!(source, BinarySource::Managed));
}

#[test]
fn settings_without_path_fall_through_to_managed() {
    let settings = Some(BinarySettings { path: None, arguments: None });
    let source = choose_binary_source(&settings, &None);
    assert!(matches!(source, BinarySource::Managed));
}
