//! Configuration validity checking: one message per missing path.

use dctl::check::check_item_config;
use dctl::config::{ComposeItem, ComposeStatus};

#[test]
fn it_returns_no_errors_when_the_item_compose_is_good() {
    let item = ComposeItem {
        alias: "test".to_string(),
        enviroment_file: None,
        // A path that exists when the tests run.
        compose_files: vec!["tests/check_tests.rs".to_string()],
        description: Some("test".to_string()),
        status: Some(ComposeStatus::Running),
        use_project_name: Some(false),
    };

    assert!(true == (check_item_config(&item).expect("Error list").len() == 0));
}

#[test]
fn it_returns_errors_when_the_item_compose_is_bad() {
    let item = ComposeItem {
        alias: "test".to_string(),
        // Neither of these two files exists.
        enviroment_file: Some("tests/.env".to_string()),
        compose_files: vec!["tests/docker-compose.yml".to_string()],
        description: Some("test".to_string()),
        status: Some(ComposeStatus::Running),
        use_project_name: Some(false),
    };

    let error_list = check_item_config(&item).expect("Error list");

    assert!(true == (error_list.len() == 2));
    assert!(true == error_list.contains(&"❌ - env file: \"tests/.env\"".to_string()));
    assert!(
        true == error_list.contains(&"❌ - Compose file: \"tests/docker-compose.yml\"".to_string())
    );
}

#[test]
fn it_reports_each_missing_compose_file_in_declared_order() {
    let item = ComposeItem {
        alias: "test".to_string(),
        enviroment_file: None,
        compose_files: vec![
            "tests/missing-a.yml".to_string(),
            "tests/missing-b.yml".to_string(),
        ],
        description: None,
        status: None,
        use_project_name: None,
    };

    let error_list = check_item_config(&item).expect("Error list");
    assert_eq!(
        error_list,
        vec![
            "❌ - Compose file: \"tests/missing-a.yml\"",
            "❌ - Compose file: \"tests/missing-b.yml\"",
        ]
    );
}

#[test]
fn it_checks_the_docker_bin_path() {
    // The answer mirrors the disk: this test's source exists, a made-up
    // path does not.
    assert!(dctl::check::check_docker_bin_path("tests/check_tests.rs").unwrap());
    assert!(!dctl::check::check_docker_bin_path("tests/no-such-binary").unwrap());
}
