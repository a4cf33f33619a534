use std::io::Write;

use atom_node::errors::AppError;
use atom_node::execution::ExecutionStatus;
use atom_node::execution_service::{ExecutionService, SpawnOutcome, StartedExecution};
use atom_node::executors::ExecutionOutput;
use atom_node::plugin::PluginType;
use atom_node::plugin_service::PluginService;

fn install(plugins: &mut PluginService, name: &str, kind: PluginType) -> String {
    let pending = plugins
        .install_begin(
            name.to_string(),
            "1.0.0".to_string(),
            kind,
            String::new(),
            String::new(),
            "main.py".to_string(),
            None,
            None,
        )
        .expect("begin should pass");
    plugins.install_finish(pending, true).expect("finish should pass").id
}

fn start(
    engine: &mut ExecutionService,
    plugins: &PluginService,
    plugin_id: &str,
    exec_id: &str,
) -> StartedExecution {
    engine
        .execute_plugin_with_id(plugins, plugin_id, vec![], vec![], exec_id.to_string(), 100)
        .expect("execution should start")
}

fn output(stdout: &str, stderr: &str, code: Option<i32>) -> ExecutionOutput {
    ExecutionOutput {
        stdout: stdout.to_string(),
        stderr: stderr.to_string(),
        exit_code: code,
    }
}

#[test]
fn a_clean_exit_ends_in_completed_with_no_stderr() {
    let mut plugins = PluginService::new("/srv/plugins".to_string());
    let mut engine = ExecutionService::new("/srv/work".to_string());
    let pid = install(&mut plugins, "alpha", PluginType::Python);
    let se = start(&mut engine, &plugins, &pid, "run-1");
    assert!(matches!(se.execution.status, ExecutionStatus::Pending));
    assert!(se.execution.pid.is_none());
    engine.record_spawn("run-1", SpawnOutcome::Started(4242)).expect("spawn recorded");
    let running = engine.get_execution("run-1").unwrap();
    assert!(matches!(running.status, ExecutionStatus::Running));
    assert_eq!(running.pid, Some(4242));
    engine
        .finalize_execution("run-1", output("hello\n", "", Some(0)), 200)
        .expect("finalize should pass");
    let done = engine.get_execution("run-1").unwrap();
    assert!(matches!(done.status, ExecutionStatus::Completed));
    assert_eq!(done.exit_code, Some(0));
    assert_eq!(done.stdout.as_deref(), Some("hello\n"));
    assert!(done.stderr.is_none());
    assert_eq!(done.finished_at, Some(200));
}

#[test]
fn a_nonzero_exit_ends_in_failed() {
    let mut plugins = PluginService::new("/srv/plugins".to_string());
    let mut engine = ExecutionService::new("/srv/work".to_string());
    let pid = install(&mut plugins, "alpha", PluginType::Python);
    start(&mut engine, &plugins, &pid, "run-1");
    engine.record_spawn("run-1", SpawnOutcome::Started(10)).unwrap();
    engine
        .finalize_execution("run-1", output("", "exploded", Some(1)), 200)
        .unwrap();
    let done = engine.get_execution("run-1").unwrap();
    assert!(matches!(done.status, ExecutionStatus::Failed));
    assert_eq!(done.exit_code, Some(1));
    assert!(done.stdout.is_none());
    assert_eq!(done.stderr.as_deref(), Some("exploded"));
}

#[test]
fn a_wait_failure_ends_in_failed_with_a_diagnostic() {
    let mut plugins = PluginService::new("/srv/plugins".to_string());
    let mut engine = ExecutionService::new("/srv/work".to_string());
    let pid = install(&mut plugins, "alpha", PluginType::Python);
    start(&mut engine, &plugins, &pid, "run-1");
    engine.record_spawn("run-1", SpawnOutcome::Started(10)).unwrap();
    engine
        .finalize_execution("run-1", output("", "Error: wait failed", None), 200)
        .unwrap();
    let done = engine.get_execution("run-1").unwrap();
    assert!(matches!(done.status, ExecutionStatus::Failed));
    assert!(done.exit_code.is_none());
    assert_eq!(done.stderr.as_deref(), Some("Error: wait failed"));
}

#[test]
fn stop_forces_a_running_execution_to_stopped() {
    let mut plugins = PluginService::new("/srv/plugins".to_string());
    let mut engine = ExecutionService::new("/srv/work".to_string());
    let pid = install(&mut plugins, "alpha", PluginType::Python);
    start(&mut engine, &plugins, &pid, "run-1");
    engine.record_spawn("run-1", SpawnOutcome::Started(77)).unwrap();
    let stopped_pid = engine.stop_execution("run-1").expect("stop should pass");
    assert_eq!(stopped_pid, Some(77));
    let stopped = engine.get_execution("run-1").unwrap();
    assert!(matches!(stopped.status, ExecutionStatus::Stopped));
}

#[test]
fn stop_on_a_terminal_execution_keeps_its_status() {
    let mut plugins = PluginService::new("/srv/plugins".to_string());
    let mut engine = ExecutionService::new("/srv/work".to_string());
    let pid = install(&mut plugins, "alpha", PluginType::Python);
    start(&mut engine, &plugins, &pid, "run-1");
    engine.record_spawn("run-1", SpawnOutcome::Started(77)).unwrap();
    engine.finalize_execution("run-1", output("done", "", Some(0)), 200).unwrap();
    engine.stop_execution("run-1").expect("stop is a no-op on status");
    let done = engine.get_execution("run-1").unwrap();
    assert!(matches!(done.status, ExecutionStatus::Completed));
}

#[test]
fn a_monitor_arriving_after_a_stop_keeps_stopped_but_records_output() {
    let mut plugins = PluginService::new("/srv/plugins".to_string());
    let mut engine = ExecutionService::new("/srv/work".to_string());
    let pid = install(&mut plugins, "alpha", PluginType::Python);
    start(&mut engine, &plugins, &pid, "run-1");
    engine.record_spawn("run-1", SpawnOutcome::Started(77)).unwrap();
    engine.stop_execution("run-1").unwrap();
    engine.finalize_execution("run-1", output("partial", "", Some(0)), 300).unwrap();
    let stopped = engine.get_execution("run-1").unwrap();
    assert!(matches!(stopped.status, ExecutionStatus::Stopped));
    assert_eq!(stopped.stdout.as_deref(), Some("partial"));
    assert_eq!(stopped.finished_at, Some(300));
}

#[test]
fn executing_a_disabled_plugin_fails_and_creates_no_record() {
    let mut plugins = PluginService::new("/srv/plugins".to_string());
    let mut engine = ExecutionService::new("/srv/work".to_string());
    let pid = install(&mut plugins, "alpha", PluginType::Python);
    plugins.set_enabled_at(&pid, false, 50).unwrap();
    let r = engine.execute_plugin(&plugins, &pid, vec![], vec![]);
    assert!(matches!(r, Err(AppError::Disabled)));
    assert!(engine.list_executions(None).is_empty());
}

#[test]
fn executing_an_unknown_plugin_is_not_found() {
    let plugins = PluginService::new("/srv/plugins".to_string());
    let mut engine = ExecutionService::new("/srv/work".to_string());
    let r = engine.execute_plugin(&plugins, "ghost", vec![], vec![]);
    assert!(matches!(r, Err(AppError::NotFound)));
    assert!(engine.list_executions(None).is_empty());
}

#[test]
fn a_spawn_failure_propagates_and_leaves_the_record_pending() {
    let mut plugins = PluginService::new("/srv/plugins".to_string());
    let mut engine = ExecutionService::new("/srv/work".to_string());
    let pid = install(&mut plugins, "alpha", PluginType::Python);
    start(&mut engine, &plugins, &pid, "run-1");
    let r = engine.record_spawn("run-1", SpawnOutcome::Failed("binary not found".to_string()));
    match r {
        Err(AppError::Execution(m)) => assert_eq!(m, "binary not found"),
        _ => panic!("expected the spawn failure to propagate"),
    }
    let rec = engine.get_execution("run-1").unwrap();
    assert!(matches!(rec.status, ExecutionStatus::Pending));
    assert!(rec.pid.is_none());
}

#[test]
fn concurrent_executions_get_distinct_working_directories() {
    let mut plugins = PluginService::new("/srv/plugins".to_string());
    let mut engine = ExecutionService::new("/srv/work".to_string());
    let pid = install(&mut plugins, "alpha", PluginType::Python);
    let se1 = start(&mut engine, &plugins, &pid, "run-1");
    let se2 = start(&mut engine, &plugins, &pid, "run-2");
    assert_ne!(se1.work_dir, se2.work_dir);
    assert_eq!(se1.work_dir, "/srv/work/run-1");
    assert_eq!(se2.work_dir, "/srv/work/run-2");
    assert_eq!(se1.command.work_dir, se1.work_dir);
    assert_eq!(se2.command.work_dir, se2.work_dir);
}

#[test]
fn the_command_matches_the_runtime_kind_and_the_install() {
    let mut plugins = PluginService::new("/srv/plugins".to_string());
    let mut engine = ExecutionService::new("/srv/work".to_string());
    let py = install(&mut plugins, "alpha", PluginType::Python);
    let js = install(&mut plugins, "beta", PluginType::JavaScript);
    let se = engine
        .execute_plugin_with_id(
            &plugins,
            &py,
            vec!["--fast".to_string()],
            vec![("MODE".to_string(), "test".to_string())],
            "run-1".to_string(),
            100,
        )
        .unwrap();
    assert_eq!(se.command.program, "python3");
    assert_eq!(se.command.script_path, format!("/srv/plugins/{}/main.py", py));
    assert_eq!(se.command.args, vec!["--fast".to_string()]);
    assert_eq!(se.command.env, vec![("MODE".to_string(), "test".to_string())]);
    let se2 = start(&mut engine, &plugins, &js, "run-2");
    assert_eq!(se2.command.program, "node");
}

#[test]
fn a_reused_execution_identifier_is_rejected() {
    let mut plugins = PluginService::new("/srv/plugins".to_string());
    let mut engine = ExecutionService::new("/srv/work".to_string());
    let pid = install(&mut plugins, "alpha", PluginType::Python);
    start(&mut engine, &plugins, &pid, "run-1");
    let r = engine.execute_plugin_with_id(&plugins, &pid, vec![], vec![], "run-1".to_string(), 101);
    assert!(matches!(r, Err(AppError::AlreadyExists(_))));
    assert_eq!(engine.list_executions(None).len(), 1);
}

#[test]
fn execute_plugin_generates_a_fresh_identifier() {
    let mut plugins = PluginService::new("/srv/plugins".to_string());
    let mut engine = ExecutionService::new("/srv/work".to_string());
    let pid = install(&mut plugins, "alpha", PluginType::Python);
    let se = engine.execute_plugin(&plugins, &pid, vec![], vec![]).unwrap();
    assert_eq!(se.execution.id.len(), 36);
    assert_eq!(se.execution.plugin_id, pid);
    assert!(matches!(se.execution.status, ExecutionStatus::Pending));
}

#[test]
fn listing_filters_by_plugin_and_keeps_creation_order() {
    let mut plugins = PluginService::new("/srv/plugins".to_string());
    let mut engine = ExecutionService::new("/srv/work".to_string());
    let a = install(&mut plugins, "alpha", PluginType::Python);
    let b = install(&mut plugins, "beta", PluginType::Python);
    start(&mut engine, &plugins, &a, "run-1");
    start(&mut engine, &plugins, &b, "run-2");
    start(&mut engine, &plugins, &a, "run-3");
    let all = engine.list_executions(None);
    assert_eq!(all.len(), 3);
    assert_eq!(all[0].id, "run-1");
    assert_eq!(all[2].id, "run-3");
    let only_a = engine.list_executions(Some(&a));
    assert_eq!(only_a.len(), 2);
    assert_eq!(only_a[0].id, "run-1");
    assert_eq!(only_a[1].id, "run-3");
    let only_b = engine.list_executions(Some(&b));
    assert_eq!(only_b.len(), 1);
    assert_eq!(only_b[0].id, "run-2");
}

#[test]
fn uninstalling_a_plugin_cascades_to_its_executions() {
    let mut plugins = PluginService::new("/srv/plugins".to_string());
    let mut engine = ExecutionService::new("/srv/work".to_string());
    let a = install(&mut plugins, "alpha", PluginType::Python);
    let b = install(&mut plugins, "beta", PluginType::Python);
    start(&mut engine, &plugins, &a, "run-1");
    start(&mut engine, &plugins, &b, "run-2");
    plugins.uninstall_finish(&a, None).unwrap();
    engine.remove_plugin_executions(&a);
    let left = engine.list_executions(None);
    assert_eq!(left.len(), 1);
    assert_eq!(left[0].id, "run-2");
}

#[test]
fn unknown_execution_identifiers_are_not_found() {
    let mut engine = ExecutionService::new("/srv/work".to_string());
    assert!(matches!(engine.get_execution("ghost"), Err(AppError::NotFound)));
    assert!(matches!(engine.stop_execution("ghost"), Err(AppError::NotFound)));
    assert!(matches!(
        engine.record_spawn("ghost", SpawnOutcome::Started(1)),
        Err(AppError::NotFound)
    ));
    assert!(matches!(
        engine.finalize_execution("ghost", output("", "", Some(0)), 1),
        Err(AppError::NotFound)
    ));
}

#[test]
fn an_installed_package_runs_to_completion_in_the_engine() {
    // The end-to-end path at the model level: a package containing a
    // script that would print "hello" is installed, executed, spawned
    // and finalized; the record ends Completed with the captured
    // output.
    let mut plugins = PluginService::new("/srv/plugins".to_string());
    let mut engine = ExecutionService::new("/srv/work".to_string());
    let script = b"print('hello')\n";
    let cursor = std::io::Cursor::new(Vec::new());
    let mut writer = zip::ZipWriter::new(cursor);
    writer
        .start_file("main.py".to_string(), zip::write::SimpleFileOptions::default())
        .unwrap();
    writer.write_all(script).unwrap();
    let bytes = writer.finish().unwrap().into_inner();
    let mut archive = atom_node::archive::PackageArchive::open(bytes).expect("container parses");
    let plan = archive.plan_extraction().expect("package is safe");
    assert_eq!(plan.len(), 1);
    let pending = plugins
        .install_begin(
            "hello".to_string(),
            "1.0.0".to_string(),
            PluginType::Python,
            String::new(),
            String::new(),
            "main.py".to_string(),
            None,
            None,
        )
        .unwrap();
    let plugin = plugins.install_finish(pending, true).unwrap();
    let se = engine
        .execute_plugin_with_id(&plugins, &plugin.id, vec![], vec![], "run-1".to_string(), 100)
        .unwrap();
    assert_eq!(se.command.program, "python3");
    assert_eq!(
        se.command.script_path,
        format!("/srv/plugins/{}/main.py", plugin.id)
    );
    engine.record_spawn("run-1", SpawnOutcome::Started(31337)).unwrap();
    engine
        .finalize_execution("run-1", output("hello\n", "", Some(0)), 200)
        .unwrap();
    let done = engine.get_execution("run-1").unwrap();
    assert!(matches!(done.status, ExecutionStatus::Completed));
    assert_eq!(done.exit_code, Some(0));
    assert!(done.stdout.unwrap().contains("hello"));
}
