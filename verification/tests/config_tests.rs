//! The registry and its items: status classification, scope tokens,
//! default arguments, lookups, and the display helpers.

use dctl::config::{
    display_alias, display_description, display_status, CliConfig, ComposeItem, ComposeStatus,
    Config, DctlConfig, DefaultCommandArgs,
};

fn item(
    alias: &str,
    description: Option<&str>,
    enviroment_file: Option<&str>,
    compose_files: &[&str],
) -> ComposeItem {
    ComposeItem {
        alias: alias.to_string(),
        description: description.map(|s| s.to_string()),
        status: None,
        use_project_name: None,
        enviroment_file: enviroment_file.map(|s| s.to_string()),
        compose_files: compose_files.iter().map(|s| s.to_string()).collect(),
    }
}

/// A registry of three projects with per-verb defaults, as a
/// configuration file would declare them.
fn valid_config() -> DctlConfig {
    DctlConfig {
        main: Config {
            docker_bin: "docker".to_string(),
            default_command_args: Some(vec![
                DefaultCommandArgs {
                    command_name: "up".to_string(),
                    command_args: vec!["-d".to_string(), "--remove-orphan".to_string()],
                },
                DefaultCommandArgs {
                    command_name: "down".to_string(),
                    command_args: vec!["-v".to_string()],
                },
            ]),
        },
        collections: vec![
            item(
                "test1",
                Some("description 1"),
                Some("/home/test/test1/.env"),
                &["/home/test/test1/docker-compose.yml"],
            ),
            item(
                "test2",
                None,
                Some("/home/test/test2/.env"),
                &[
                    "/home/test/test2/docker-compose1.yml",
                    "/home/test/test2/docker-compose2.yml",
                ],
            ),
            item(
                "test3",
                Some("description 3"),
                None,
                &["/home/test/test3/docker-compose.yml"],
            ),
        ],
    }
}

#[test]
fn it_returns_the_project_alias() {
    let alias = String::from("test");
    assert_eq!(display_alias(&alias), "test");
}

#[test]
fn it_displays_the_project_description() {
    let description = Some(String::from("description"));
    assert_eq!(display_description(&description), "description");

    let description = None;
    assert_eq!(display_description(&description), "");
}

#[test]
fn it_displays_the_project_status() {
    let status = Some(ComposeStatus::Running);
    assert_eq!(display_status(&status), "🟢 Running");

    let status = Some(ComposeStatus::PartialRunning);
    assert_eq!(display_status(&status), "🟠 Partially running");

    let status = Some(ComposeStatus::Stopped);
    assert_eq!(display_status(&status), "🔴 Stopped");

    let status = Some(ComposeStatus::ConfigError);
    assert_eq!(display_status(&status), "🟣 Error, check your config");

    let status = None;
    assert_eq!(display_status(&status), "🔴 Stopped");
}

#[test]
fn it_returns_the_docker_bin_path() {
    let config = DctlConfig {
        main: Config {
            docker_bin: String::from("/usr/bin/docker"),
            default_command_args: None,
        },
        collections: Vec::new(),
    };

    assert_eq!(config.get_container_bin_path().unwrap(), "/usr/bin/docker");
}

#[test]
fn it_sets_the_compose_item_status() {
    let mut compose_item = ComposeItem {
        alias: String::from("test"),
        use_project_name: Some(false),
        description: Some(String::from("description")),
        compose_files: vec![
            String::from("docker-compose.yml"),
            String::from("docker-compose.override.yml"),
        ],
        enviroment_file: Some(String::from("test.env")),
        status: None,
    };

    compose_item.set_status(0, 0);
    assert_eq!(compose_item.status, Some(ComposeStatus::Stopped));

    compose_item.set_status(0, 6);
    assert_eq!(compose_item.status, Some(ComposeStatus::Stopped));

    compose_item.set_status(2, 3);
    assert_eq!(compose_item.status, Some(ComposeStatus::PartialRunning));

    compose_item.set_status(3, 3);
    assert_eq!(compose_item.status, Some(ComposeStatus::Running));

    compose_item.set_status(-1, -1);
    assert_eq!(compose_item.status, Some(ComposeStatus::ConfigError));
}

#[test]
fn it_returns_args_as_str_from_a_complete_compose_item() {
    let compose_item = ComposeItem {
        alias: String::from("test"),
        use_project_name: Some(false),
        description: Some(String::from("description")),
        compose_files: vec![
            String::from("docker-compose.yml"),
            String::from("docker-compose.override.yml"),
        ],
        enviroment_file: Some(String::from("test.env")),
        status: None,
    };

    let args = ComposeItem::to_args(&compose_item);

    assert!(args.len() == 6);
    assert!(args[0] == "--env-file");
    assert!(args[1] == "test.env");
    assert!(args[2] == "-f");
    assert!(args[3] == "docker-compose.yml");
    assert!(args[4] == "-f");
    assert!(args[5] == "docker-compose.override.yml");
}

#[test]
fn it_returns_args_as_str_from_a_minimal_compose_item() {
    let compose_item = ComposeItem {
        alias: String::from("test"),
        use_project_name: None,
        description: Some(String::from("description")),
        compose_files: vec![String::from("docker-compose.yml")],
        enviroment_file: None,
        status: None,
    };

    let args = ComposeItem::to_args(&compose_item);

    assert!(args.len() == 4);
    assert!(args[0] == "-p");
    assert!(args[1] == "test");
    assert!(args[2] == "-f");
    assert!(args[3] == "docker-compose.yml");
}

#[test]
fn it_build_a_undefined_default_command_args() {
    let command_args = DefaultCommandArgs::default("down");

    assert!(command_args.command_name == "down");
    assert!(command_args.command_args.len() == 0);
}

#[test]
fn it_returns_args_as_str_from_an_undefined_default_command_args() {
    let command_args = DefaultCommandArgs::default("down");
    let args = DefaultCommandArgs::to_args(&command_args);

    assert!(args.len() == 0);
}

#[test]
fn it_returns_args_as_str_from_a_defined_default_command_args() {
    let command_args = DefaultCommandArgs {
        command_name: String::from("down"),
        command_args: vec![String::from("--volumes"), String::from("--remove-orphans")],
    };

    let args = DefaultCommandArgs::to_args(&command_args);

    assert!(args.len() == 2);
    assert!(args[0] == "--volumes");
    assert!(args[1] == "--remove-orphans");
}

#[test]
fn it_returns_a_valid_alias_item() {
    let config = valid_config();
    let item = config.get_compose_item_by_alias(String::from("test1"));
    assert!(item.is_some());
}

#[test]
fn it_returns_an_unvalid_alias_item() {
    let config = valid_config();
    let item = config.get_compose_item_by_alias(String::from("test"));
    assert!(item.is_none());
}

#[test]
fn it_returns_all_compose_items() {
    let config = valid_config();
    let items = config.get_all_compose_items();
    assert!(3 == items.len());
}

#[test]
fn it_returns_item_attributes_values_for_test1() {
    let config = valid_config();
    let item = config
        .get_compose_item_by_alias(String::from("test1"))
        .unwrap();
    assert!(item.alias == "test1");
    assert!(item.description.unwrap() == "description 1");
    assert!(item.enviroment_file.unwrap() == "/home/test/test1/.env");
    assert!(item.compose_files.len() == 1);
    assert!(item.compose_files[0] == "/home/test/test1/docker-compose.yml");
}

#[test]
fn it_returns_item_attributes_values_for_test2() {
    let config = valid_config();
    let item = config
        .get_compose_item_by_alias(String::from("test2"))
        .unwrap();
    assert!(item.alias == "test2");
    assert!(item.description.is_none());
    assert!(item.enviroment_file.unwrap() == "/home/test/test2/.env");
    assert!(item.compose_files.len() == 2);
    assert!(item.compose_files[0] == "/home/test/test2/docker-compose1.yml");
    assert!(item.compose_files[1] == "/home/test/test2/docker-compose2.yml");
}

#[test]
fn it_returns_item_attributes_values_for_test3() {
    let config = valid_config();
    let item = config
        .get_compose_item_by_alias(String::from("test3"))
        .unwrap();
    assert!(item.alias == "test3");
    assert!(item.description.unwrap() == "description 3");
    assert!(item.enviroment_file.is_none());
    assert!(item.compose_files.len() == 1);
    assert!(item.compose_files[0] == "/home/test/test3/docker-compose.yml");
}

#[test]
fn it_returns_declared_defautlt_command_args() {
    let config = valid_config();

    let args = config.get_default_command_args("up");
    assert!(args.is_some());
    let args = args.unwrap();
    assert!(args.command_args.len() == 2);
    assert!(args.command_args[0] == "-d");
    assert!(args.command_args[1] == "--remove-orphan");

    let args = config.get_default_command_args("down");
    assert!(args.is_some());
    let args = args.unwrap();
    assert!(args.command_args.len() == 1);
    assert!(args.command_args[0] == "-v");

    let args = config.get_default_command_args("other");
    assert!(args.is_none());
}

#[test]
fn parser_get_a_valid_alias_item() {
    let config = valid_config();
    assert!(config
        .get_compose_item_by_alias(String::from("test1"))
        .is_some());
}

#[test]
fn parser_get_a_unvalid_alias_item() {
    let config = valid_config();
    assert!(config
        .get_compose_item_by_alias(String::from("test"))
        .is_none());
}

#[test]
fn parser_get_compose_items() {
    let config = valid_config();
    assert!(3 == config.get_all_compose_items().len());
}

#[test]
fn parser_get_item_attributes_values_for_test1() {
    let config = valid_config();
    let item = config
        .get_compose_item_by_alias(String::from("test1"))
        .unwrap();
    assert!(item.alias == "test1");
    assert!(item.description.unwrap() == "description 1");
    assert!(item.enviroment_file.unwrap() == "/home/test/test1/.env");
    assert!(item.compose_files.len() == 1);
    assert!(item.compose_files[0] == "/home/test/test1/docker-compose.yml");
}

#[test]
fn parser_get_item_attributes_values_for_test2() {
    let config = valid_config();
    let item = config
        .get_compose_item_by_alias(String::from("test2"))
        .unwrap();
    assert!(item.alias == "test2");
    assert!(item.description.is_none());
    assert!(item.enviroment_file.unwrap() == "/home/test/test2/.env");
    assert!(item.compose_files.len() == 2);
    assert!(item.compose_files[0] == "/home/test/test2/docker-compose1.yml");
    assert!(item.compose_files[1] == "/home/test/test2/docker-compose2.yml");
}

#[test]
fn parser_get_item_attributes_values_for_test3() {
    let config = valid_config();
    let item = config
        .get_compose_item_by_alias(String::from("test3"))
        .unwrap();
    assert!(item.alias == "test3");
    assert!(item.description.unwrap() == "description 3");
    assert!(item.enviroment_file.is_none());
    assert!(item.compose_files.len() == 1);
    assert!(item.compose_files[0] == "/home/test/test3/docker-compose.yml");
}

#[test]
fn parser_tests_get_a_valid_alias_item() {
    let config = valid_config();
    assert!(config
        .get_compose_item_by_alias(String::from("test1"))
        .is_some());
}

#[test]
fn parser_tests_get_a_unvalid_alias_item() {
    let config = valid_config();
    assert!(config
        .get_compose_item_by_alias(String::from("test"))
        .is_none());
}

#[test]
fn parser_tests_get_compose_items() {
    let config = valid_config();
    assert!(3 == config.get_all_compose_items().len());
}

#[test]
fn parser_tests_get_item_attributes_values_for_test1() {
    let config = valid_config();
    let item = config
        .get_compose_item_by_alias(String::from("test1"))
        .unwrap();
    assert!(item.alias == "test1");
    assert!(item.description.unwrap() == "description 1");
    assert!(item.enviroment_file.unwrap() == "/home/test/test1/.env");
    assert!(item.compose_files.len() == 1);
    assert!(item.compose_files[0] == "/home/test/test1/docker-compose.yml");
}

#[test]
fn parser_tests_get_item_attributes_values_for_test2() {
    let config = valid_config();
    let item = config
        .get_compose_item_by_alias(String::from("test2"))
        .unwrap();
    assert!(item.alias == "test2");
    assert!(item.description.is_none());
    assert!(item.enviroment_file.unwrap() == "/home/test/test2/.env");
    assert!(item.compose_files.len() == 2);
    assert!(item.compose_files[0] == "/home/test/test2/docker-compose1.yml");
    assert!(item.compose_files[1] == "/home/test/test2/docker-compose2.yml");
}

#[test]
fn parser_tests_get_item_attributes_values_for_test3() {
    let config = valid_config();
    let item = config
        .get_compose_item_by_alias(String::from("test3"))
        .unwrap();
    assert!(item.alias == "test3");
    assert!(item.description.unwrap() == "description 3");
    assert!(item.enviroment_file.is_none());
    assert!(item.compose_files.len() == 1);
    assert!(item.compose_files[0] == "/home/test/test3/docker-compose.yml");
}

#[test]
fn a_duplicated_alias_resolves_to_its_first_declaration() {
    let mut config = valid_config();
    config.collections.push(item(
        "test1",
        Some("a later duplicate"),
        None,
        &["/elsewhere/docker-compose.yml"],
    ));

    let found = config
        .get_compose_item_by_alias(String::from("test1"))
        .unwrap();
    assert_eq!(found.description.unwrap(), "description 1");
}

#[test]
fn a_duplicated_default_entry_resolves_to_its_first_declaration() {
    let mut config = valid_config();
    if let Some(entries) = &mut config.main.default_command_args {
        entries.push(DefaultCommandArgs {
            command_name: "up".to_string(),
            command_args: vec!["--late".to_string()],
        });
    }

    let args = config.get_default_command_args("up").unwrap();
    assert_eq!(args.command_args, vec!["-d", "--remove-orphan"]);
}

#[test]
fn an_empty_registry_has_no_items_to_look_up() {
    let config = DctlConfig {
        main: Config {
            docker_bin: "docker".to_string(),
            default_command_args: None,
        },
        collections: Vec::new(),
    };
    assert!(config.get_compose_item_by_alias("any".to_string()).is_none());
    assert!(config.get_all_compose_items().is_empty());
}

#[test]
fn zero_running_wins_even_against_the_sentinel_total() {
    let mut compose_item = ComposeItem {
        alias: String::from("test"),
        use_project_name: None,
        description: None,
        compose_files: vec![String::from("docker-compose.yml")],
        enviroment_file: None,
        status: None,
    };
    compose_item.set_status(0, -1);
    assert_eq!(compose_item.status, Some(ComposeStatus::Stopped));
}
