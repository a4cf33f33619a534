use atom_node::config::{Config, FileConfig};
use atom_node::dto::{ExecutionResponse, ExecutionsListResponse, PluginResponse, PluginsListResponse};
use atom_node::errors::AppError;
use atom_node::execution::{Execution, ExecutionStatus};
use atom_node::plugin::{Plugin, PluginType};
use atom_node::process_manager::ProcessManager;

#[test]
fn the_default_config_points_at_a_local_database() {
    let c = Config::default();
    assert_eq!(c.database_url, "sqlite:atom_node.db");
    assert_eq!(c.host, "0.0.0.0");
    assert_eq!(c.port, 3000);
}

#[test]
fn file_overrides_apply_only_where_present() {
    let mut c = Config::default();
    c.apply_file(FileConfig {
        database_url: None,
        host: Some("127.0.0.1".to_string()),
        port: Some(8080),
    });
    assert_eq!(c.database_url, "sqlite:atom_node.db");
    assert_eq!(c.host, "127.0.0.1");
    assert_eq!(c.port, 8080);
}

#[test]
fn a_relative_sqlite_path_is_rooted_under_the_install_root() {
    let mut c = Config::default();
    c.database_url = "sqlite:data/app.db".to_string();
    c.normalize_database_url("/opt/app").expect("relative path is accepted");
    assert_eq!(c.database_url, "sqlite:/opt/app/data/app.db");
}

#[test]
fn a_relative_sqlite_path_may_not_climb_out() {
    let mut c = Config::default();
    c.database_url = "sqlite:../outside.db".to_string();
    assert!(matches!(c.normalize_database_url("/opt/app"), Err(AppError::Validation(_))));
    assert_eq!(c.database_url, "sqlite:../outside.db");
}

#[test]
fn an_absolute_sqlite_path_must_lie_under_the_install_root() {
    let mut c = Config::default();
    c.database_url = "sqlite:/opt/app/app.db".to_string();
    c.normalize_database_url("/opt/app").expect("path under the root is accepted");
    assert_eq!(c.database_url, "sqlite:/opt/app/app.db");
    c.database_url = "sqlite:/etc/app.db".to_string();
    assert!(matches!(c.normalize_database_url("/opt/app"), Err(AppError::Validation(_))));
    c.database_url = "sqlite:/opt/application/x.db".to_string();
    assert!(
        matches!(c.normalize_database_url("/opt/app"), Err(AppError::Validation(_))),
        "a sibling directory sharing the prefix is not under the root"
    );
}

#[test]
fn a_non_sqlite_locator_passes_through_unchanged() {
    let mut c = Config::default();
    c.database_url = "postgres://db.example.test/app".to_string();
    c.normalize_database_url("/opt/app").expect("other backends pass through");
    assert_eq!(c.database_url, "postgres://db.example.test/app");
}

#[test]
fn the_registry_tracks_registered_processes() {
    let mut pm = ProcessManager::new();
    assert!(!pm.is_running(7));
    pm.register_process(7);
    pm.register_process(9);
    assert!(pm.is_running(7));
    assert!(pm.is_running(9));
    pm.register_process(7);
    assert!(pm.is_running(7));
}

#[test]
fn stopping_removes_exactly_one_process_and_is_idempotent() {
    let mut pm = ProcessManager::new();
    pm.register_process(7);
    pm.register_process(9);
    assert!(pm.stop_process(7));
    assert!(!pm.is_running(7));
    assert!(pm.is_running(9));
    assert!(!pm.stop_process(7), "an absent pid is a no-op");
}

fn sample_plugin() -> Plugin {
    Plugin {
        id: "p-1".to_string(),
        name: "alpha".to_string(),
        version: "2.0".to_string(),
        plugin_type: PluginType::JavaScript,
        description: "desc".to_string(),
        author: "me".to_string(),
        plugin_path: "/srv/plugins/p-1".to_string(),
        entry_point: "index.js".to_string(),
        enabled: true,
        created_at: 0,
        updated_at: 86400,
        metadata: None,
        parameters: None,
    }
}

#[test]
fn a_plugin_renders_with_readable_timestamps_and_kind() {
    let r = PluginResponse::from_model(&sample_plugin());
    assert_eq!(r.id, "p-1");
    assert_eq!(r.plugin_type, "JavaScript");
    assert_eq!(r.created_at, "1970-01-01T00:00:00+00:00");
    assert_eq!(r.updated_at, "1970-01-02T00:00:00+00:00");
    assert!(r.enabled);
}

#[test]
fn a_plugin_list_renders_in_order() {
    let mut second = sample_plugin();
    second.id = "p-2".to_string();
    second.name = "beta".to_string();
    second.plugin_type = PluginType::Python;
    let list = PluginsListResponse::from_models(&vec![sample_plugin(), second]);
    assert_eq!(list.data.len(), 2);
    assert_eq!(list.data[0].name, "alpha");
    assert_eq!(list.data[1].name, "beta");
    assert_eq!(list.data[1].plugin_type, "Python");
}

#[test]
fn an_execution_renders_its_status_by_name() {
    let e = Execution {
        id: "run-1".to_string(),
        plugin_id: "p-1".to_string(),
        status: ExecutionStatus::Completed,
        pid: Some(42),
        exit_code: Some(0),
        stdout: Some("hi".to_string()),
        stderr: None,
        started_at: 100,
        finished_at: Some(200),
    };
    let r = ExecutionResponse::from_model(&e);
    assert_eq!(r.status, "Completed");
    assert_eq!(r.pid, Some(42));
    assert_eq!(r.stdout.as_deref(), Some("hi"));
    assert_eq!(r.started_at, 100);
    assert_eq!(r.finished_at, Some(200));
}

#[test]
fn an_execution_list_renders_in_order() {
    let mut first = Execution {
        id: "run-1".to_string(),
        plugin_id: "p-1".to_string(),
        status: ExecutionStatus::Pending,
        pid: None,
        exit_code: None,
        stdout: None,
        stderr: None,
        started_at: 1,
        finished_at: None,
    };
    let list = ExecutionsListResponse::from_models(&vec![atom_node::execution::clone_execution(&first), {
        first.id = "run-2".to_string();
        first.status = ExecutionStatus::Running;
        first
    }]);
    assert_eq!(list.data.len(), 2);
    assert_eq!(list.data[0].id, "run-1");
    assert_eq!(list.data[0].status, "Pending");
    assert_eq!(list.data[1].id, "run-2");
    assert_eq!(list.data[1].status, "Running");
}
