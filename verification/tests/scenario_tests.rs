//! End-to-end dispatch scenarios: full invocations assembled from a
//! project definition, parsed flags, and the default-argument overlay.

use dctl::command::exec::ExecFlags;
use dctl::command::stop::StopFlags;
use dctl::config::{ComposeItem, Config, DctlConfig, DefaultCommandArgs};
use dctl::docker::{dispatch, dispatch_for_alias, ComposeFlags};
use dctl::DctlError;

fn app_project() -> ComposeItem {
    ComposeItem {
        alias: "app".to_string(),
        description: None,
        status: None,
        use_project_name: Some(true),
        enviroment_file: Some("/p/.env".to_string()),
        compose_files: vec!["/p/a.yml".to_string(), "/p/b.yml".to_string()],
    }
}

#[test]
fn stop_with_timeout_dispatches_the_documented_argv() {
    let item = app_project();
    let flags = ComposeFlags::Stop(StopFlags {
        timeout: Some("10".to_string()),
        ..Default::default()
    });
    let default_args = DefaultCommandArgs::default("stop");

    let args = dispatch(&item, &flags, &default_args);
    assert_eq!(
        args,
        vec![
            "compose",
            "-p",
            "app",
            "--env-file",
            "/p/.env",
            "-f",
            "/p/a.yml",
            "-f",
            "/p/b.yml",
            "stop",
            "--timeout",
            "10",
        ]
    );
}

#[test]
fn exec_emits_env_pairs_before_the_positionals() {
    let item = app_project();
    let flags = ComposeFlags::Exec(ExecFlags {
        env: vec!["A=1".to_string(), "B=2".to_string()],
        service: "web".to_string(),
        command: "sh".to_string(),
        args: vec!["-c".to_string(), "echo hi".to_string()],
        ..Default::default()
    });
    let default_args = DefaultCommandArgs::default("exec");

    let args = dispatch(&item, &flags, &default_args);
    assert_eq!(
        args,
        vec![
            "compose",
            "-p",
            "app",
            "--env-file",
            "/p/.env",
            "-f",
            "/p/a.yml",
            "-f",
            "/p/b.yml",
            "exec",
            "--env",
            "A=1",
            "--env",
            "B=2",
            "web",
            "sh",
            "-c",
            "echo hi",
        ]
    );
}

#[test]
fn dispatcher_omits_the_project_name_when_disabled() {
    let mut item = app_project();
    item.use_project_name = Some(false);
    let flags = ComposeFlags::Stop(StopFlags::default());
    let default_args = DefaultCommandArgs::default("stop");

    let args = dispatch(&item, &flags, &default_args);
    assert_eq!(
        args,
        vec![
            "compose",
            "--env-file",
            "/p/.env",
            "-f",
            "/p/a.yml",
            "-f",
            "/p/b.yml",
            "stop",
        ]
    );
}

#[test]
fn the_default_override_is_appended_last() {
    let item = app_project();
    let flags = ComposeFlags::Stop(StopFlags::default());
    let config = DctlConfig {
        main: Config {
            docker_bin: "docker".to_string(),
            default_command_args: Some(vec![DefaultCommandArgs {
                command_name: "stop".to_string(),
                command_args: vec!["--volumes".to_string()],
            }]),
        },
        collections: vec![item],
    };

    let args = dispatch_for_alias(&config, "app".to_string(), "stop", &flags).unwrap();
    assert_eq!(
        args,
        vec![
            "compose",
            "-p",
            "app",
            "--env-file",
            "/p/.env",
            "-f",
            "/p/a.yml",
            "-f",
            "/p/b.yml",
            "stop",
            "--volumes",
        ]
    );
}

#[test]
fn an_unknown_alias_is_reported_before_anything_runs() {
    let config = DctlConfig {
        main: Config {
            docker_bin: "docker".to_string(),
            default_command_args: None,
        },
        collections: vec![app_project()],
    };
    let flags = ComposeFlags::Stop(StopFlags::default());

    let r = dispatch_for_alias(&config, "missing".to_string(), "stop", &flags);
    assert_eq!(r, Err(DctlError::AliasNotFound));
}

#[test]
fn the_one_call_helpers_build_each_bare_invocation() {
    let docker = dctl::docker::Docker::init("docker".to_string());
    let item = app_project();
    let scope = vec![
        "compose",
        "-p",
        "app",
        "--env-file",
        "/p/.env",
        "-f",
        "/p/a.yml",
        "-f",
        "/p/b.yml",
    ];

    let with = |verb: &'static str| {
        let mut v: Vec<&str> = scope.clone();
        v.push(verb);
        v
    };
    assert_eq!(docker.start(&item), with("start"));
    assert_eq!(docker.stop(&item), with("stop"));
    assert_eq!(docker.down(&item), with("down"));
    assert_eq!(docker.restart(&item), with("restart"));
    assert_eq!(docker.ps(&item), with("ps"));
    assert_eq!(docker.build(&item, None), with("build"));
    assert_eq!(docker.logs(&item, Some("web".to_string())), {
        let mut v = with("logs");
        v.push("web");
        v
    });
    assert_eq!(
        docker.exec(&item, Some("web".to_string()), Some("sh".to_string())),
        {
            let mut v = with("exec");
            v.push("web");
            v.push("sh");
            v
        }
    );
}
