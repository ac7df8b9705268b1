use metsysd::config::CliArgs;
use metsysd::manager::{
    Action, InstallError, ManagerBuilder, SUPERVISOR_CONTROL, SYSTEM_SERVICES_DIR,
};
use metsysd::service::Service;

#[test]
fn test_build_manager() {
    let manager = ManagerBuilder::new().build().unwrap();
    assert_eq!(manager.is_user(), false);
    assert_eq!(manager.install_dir(), SYSTEM_SERVICES_DIR);
}

#[test]
fn test_build_manager_with_user() {
    let manager = ManagerBuilder::new().set_is_user(true).build().unwrap();
    assert_eq!(manager.is_user(), true);
    let home = home::home_dir().unwrap();
    let expected = format!("{}/.config/systemd/user", home.to_string_lossy());
    assert_eq!(manager.install_dir(), expected);
}

#[test]
fn test_build_manager_with_install_dir() {
    let manager = ManagerBuilder::new()
        .set_install_dir(Some("/tmp".to_string()))
        .build()
        .unwrap();
    assert_eq!(manager.is_user(), false);
    assert_eq!(manager.install_dir(), "/tmp");
}

#[test]
fn test_build_manager_with_reload() {
    let manager = ManagerBuilder::new()
        .set_with_reload(false)
        .build()
        .unwrap();
    assert_eq!(manager.is_user(), false);
    assert_eq!(manager.install_dir(), SYSTEM_SERVICES_DIR);
    assert_eq!(manager.with_reload(), false);
}

#[test]
fn test_build_manager_with_install_dir_and_user() {
    let manager = ManagerBuilder::new()
        .set_is_user(true)
        .set_install_dir(Some("/tmp".to_string()))
        .build()
        .unwrap();
    assert_eq!(manager.is_user(), true);
    assert_eq!(manager.install_dir(), "/tmp");
}

fn named(name: &str) -> Service {
    Service {
        name: name.to_string(),
        ..Service::default()
    }
}

#[test]
fn system_scope_uses_fixed_directory() {
    let manager = ManagerBuilder::new().build_with_home(Some("/home/alice".to_string())).unwrap();
    assert_eq!(manager.install_dir(), "/etc/systemd/system");
    assert!(manager.with_reload());
}

#[test]
fn user_scope_appends_config_path_to_home() {
    let manager = ManagerBuilder::new()
        .set_is_user(true)
        .build_with_home(Some("/home/alice".to_string()))
        .unwrap();
    assert_eq!(manager.install_dir(), "/home/alice/.config/systemd/user");
}

#[test]
fn user_scope_without_home_fails() {
    let result = ManagerBuilder::new().set_is_user(true).build_with_home(None);
    assert!(matches!(result, Err(InstallError::HomeDirectoryNotFound)));
}

#[test]
fn override_ignores_scope_and_home() {
    let manager = ManagerBuilder::new()
        .set_is_user(true)
        .set_install_dir(Some("/srv/units".to_string()))
        .build_with_home(None)
        .unwrap();
    assert_eq!(manager.install_dir(), "/srv/units");
}

#[test]
fn default_user_directory_is_created() {
    let manager = ManagerBuilder::new()
        .set_is_user(true)
        .build_with_home(Some("/home/alice".to_string()))
        .unwrap();
    let plan = manager.install_plan(&named("web"));
    assert_eq!(plan.create_dir, Some("/home/alice/.config/systemd/user".to_string()));
    assert_eq!(plan.path, "/home/alice/.config/systemd/user/web.service");
    assert_eq!(
        plan.reload,
        Some(vec!["--user".to_string(), "daemon-reload".to_string()])
    );
}

#[test]
fn system_and_override_directories_are_not_created() {
    let system = ManagerBuilder::new().build_with_home(None).unwrap();
    let plan = system.install_plan(&named("web"));
    assert_eq!(plan.create_dir, None);
    assert_eq!(plan.path, "/etc/systemd/system/web.service");
    assert_eq!(plan.reload, Some(vec!["daemon-reload".to_string()]));

    let overridden = ManagerBuilder::new()
        .set_is_user(true)
        .set_install_dir(Some("/tmp/this/path/does/not/exist".to_string()))
        .set_with_reload(false)
        .build_with_home(Some("/home/alice".to_string()))
        .unwrap();
    let plan = overridden.install_plan(&named("web"));
    assert_eq!(plan.create_dir, None);
    assert_eq!(plan.path, "/tmp/this/path/does/not/exist/web.service");
    assert_eq!(plan.reload, None);
}

#[test]
fn path_joins_with_one_separator() {
    let manager = ManagerBuilder::new()
        .set_install_dir(Some("/tmp/".to_string()))
        .build()
        .unwrap();
    assert_eq!(manager.install_plan(&named("a")).path, "/tmp/a.service");

    let relative = ManagerBuilder::new()
        .set_install_dir(Some(String::new()))
        .build()
        .unwrap();
    assert_eq!(relative.install_plan(&named("a")).path, "a.service");
}

#[test]
fn plan_carries_rendered_text() {
    let manager = ManagerBuilder::new()
        .set_install_dir(Some("/tmp".to_string()))
        .set_with_reload(false)
        .build()
        .unwrap();
    let service = named("test_create_servic_tmp");
    let plan = manager.install_plan(&service);
    assert_eq!(plan.contents, service.render());
    assert_eq!(plan.path, "/tmp/test_create_servic_tmp.service");
}

#[test]
fn dry_run_only_shows() {
    let args = CliArgs {
        command: "echo hi".to_string(),
        dry_run: true,
        ..CliArgs::default()
    };
    let service = Service::from(args.clone());
    let manager = ManagerBuilder::new().build().unwrap();
    match manager.plan(&service, args.dry_run) {
        Action::Show(text) => assert_eq!(text, service.render()),
        Action::Install(_) => panic!("a dry run must not install"),
    }
    match manager.plan(&service, false) {
        Action::Install(plan) => assert_eq!(plan.path, "/etc/systemd/system/test.service"),
        Action::Show(_) => panic!("expected an install"),
    }
}

#[test]
fn error_messages_name_their_cause() {
    assert_eq!(
        InstallError::HomeDirectoryNotFound.message(),
        "could not find the home directory"
    );
    let e = InstallError::FileCreateFailed {
        dir: "/nope".to_string(),
        reason: "No such file or directory".to_string(),
    };
    assert_eq!(
        e.message(),
        "could not create the service file in '/nope': No such file or directory; \
         are you sure the directory exists? Hint: use --install-dir to choose another directory"
    );
    let e = InstallError::ReloadSpawnFailed {
        reason: "not found".to_string(),
    };
    assert_eq!(e.message(), "could not reload the supervisor: not found");
    assert_eq!(SUPERVISOR_CONTROL, "systemctl");
}
