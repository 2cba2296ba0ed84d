//! The executor handle, the `cd` path derivation, and line counting.

use dctl::config::ComposeItem;
use dctl::infos::count_output_lines;
use dctl::system::{extract_path_from_cd_command, System};

fn project_at(path: &str) -> ComposeItem {
    ComposeItem {
        alias: String::from("test"),
        description: None,
        compose_files: vec![String::from(path)],
        enviroment_file: None,
        use_project_name: None,
        status: None,
    }
}

#[test]
fn system_tests_test_init() {
    let system = System::init();
    assert!(system == System {});
}

#[test]
fn tests_test_init() {
    let system = System::init();
    assert!(system == System {});
}

#[test]
fn system_tests_test_cd() {
    let item = project_at("/home/test/test/docker-compose.yml");
    let system = System::init();
    assert!(system.cd(&item).unwrap() == "/home/test/test");
}

#[test]
fn tests_test_cd() {
    let item = project_at("/home/test/test/docker-compose.yml");
    let system = System::init();
    assert!(system.cd(&item).unwrap() == "/home/test/test");
}

#[test]
fn it_returns_the_path_from_cd_command() {
    let item = project_at("/home/test/test/docker-compose.yml");
    assert!(extract_path_from_cd_command(&item).unwrap() == "/home/test/test");
}

#[test]
fn a_bare_file_name_has_an_empty_parent() {
    let item = project_at("docker-compose.yml");
    assert_eq!(extract_path_from_cd_command(&item).unwrap(), "");
}

#[test]
fn it_counts_lines_of_captured_output() {
    assert_eq!(count_output_lines(&Vec::new()), 0);
    assert_eq!(count_output_lines(&b"abc123\n".to_vec()), 1);
    assert_eq!(count_output_lines(&b"abc\ndef\n".to_vec()), 2);
    assert_eq!(count_output_lines(&b"abc\ndef".to_vec()), 2);
    assert_eq!(count_output_lines(&b"\n\n".to_vec()), 2);
}
