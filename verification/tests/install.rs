use atom_node::errors::AppError;
use atom_node::params::{ParamType, ParamValue, PluginParameter};
use atom_node::plugin::{parse_plugin_type, PluginType};
use atom_node::plugin_service::PluginService;

fn begin_simple(service: &PluginService, name: &str, entry: &str) -> Result<atom_node::plugin_service::PendingInstall, AppError> {
    service.install_begin(
        name.to_string(),
        "1.0.0".to_string(),
        PluginType::Python,
        "a test plugin".to_string(),
        "tester".to_string(),
        entry.to_string(),
        None,
        None,
    )
}

fn install_simple(service: &mut PluginService, name: &str) -> atom_node::plugin::Plugin {
    let pending = begin_simple(service, name, "main.py").expect("begin should pass");
    service.install_finish(pending, true).expect("finish should pass")
}

#[test]
fn install_then_get_returns_the_record() {
    let mut service = PluginService::new("/srv/plugins".to_string());
    let plugin = install_simple(&mut service, "alpha");
    assert_eq!(plugin.name, "alpha");
    assert!(plugin.enabled);
    assert_eq!(plugin.id.len(), 36);
    assert_eq!(plugin.created_at, plugin.updated_at);
    let fetched = service.get_plugin(&plugin.id).expect("stored plugin is found");
    assert_eq!(fetched.name, "alpha");
    assert_eq!(fetched.entry_point, "main.py");
    assert_eq!(fetched.plugin_path, format!("/srv/plugins/{}", plugin.id));
}

#[test]
fn duplicate_name_fails_with_already_exists_and_first_is_kept() {
    let mut service = PluginService::new("/srv/plugins".to_string());
    let first = install_simple(&mut service, "alpha");
    let second = begin_simple(&service, "alpha", "other.py");
    match second {
        Err(AppError::AlreadyExists(name)) => assert_eq!(name, "alpha"),
        other => panic!("expected AlreadyExists, got {:?}", other.is_ok()),
    }
    let all = service.list_plugins();
    assert_eq!(all.len(), 1);
    assert_eq!(all[0].id, first.id);
    assert_eq!(all[0].entry_point, "main.py");
}

#[test]
fn traversal_entry_point_fails_before_any_fetch() {
    let service = PluginService::new("/srv/plugins".to_string());
    let r = begin_simple(&service, "alpha", "../../etc/passwd");
    assert!(matches!(r, Err(AppError::Validation(_))));
    assert_eq!(service.list_plugins().len(), 0);
}

#[test]
fn absolute_entry_point_fails_before_any_fetch() {
    let service = PluginService::new("/srv/plugins".to_string());
    let r = begin_simple(&service, "alpha", "/etc/passwd");
    assert!(matches!(r, Err(AppError::Validation(_))));
}

#[test]
fn blank_entry_point_is_rejected() {
    let service = PluginService::new("/srv/plugins".to_string());
    assert!(matches!(begin_simple(&service, "alpha", ""), Err(AppError::Validation(_))));
    assert!(matches!(begin_simple(&service, "alpha", "   "), Err(AppError::Validation(_))));
}

#[test]
fn sneaky_parent_segments_are_rejected_and_lookalikes_pass() {
    assert!(PluginService::validate_entry_point("..").is_err());
    assert!(PluginService::validate_entry_point("a/../b").is_err());
    assert!(PluginService::validate_entry_point("a/..").is_err());
    assert!(PluginService::validate_entry_point("../a").is_err());
    assert!(PluginService::validate_entry_point("a/..b/c.py").is_ok());
    assert!(PluginService::validate_entry_point("a..b.py").is_ok());
    assert!(PluginService::validate_entry_point("sub/dir/main.py").is_ok());
}

#[test]
fn installation_failure_after_extraction_leaves_no_record() {
    let mut service = PluginService::new("/srv/plugins".to_string());
    let pending = begin_simple(&service, "alpha", "main.py").expect("begin should pass");
    let r = service.install_finish(pending, false);
    match r {
        Err(AppError::Execution(m)) => assert!(m.contains("entry point not found")),
        _ => panic!("expected an execution error for the missing entry file"),
    }
    assert_eq!(service.list_plugins().len(), 0);
    assert!(matches!(service.get_plugin_by_name("alpha"), Err(AppError::NotFound)));
}

fn param(name: &str, ptype: ParamType, default: Option<ParamValue>) -> PluginParameter {
    PluginParameter { name: name.to_string(), param_type: ptype, default }
}

fn begin_with_params(
    service: &PluginService,
    params: Vec<PluginParameter>,
) -> Result<atom_node::plugin_service::PendingInstall, AppError> {
    service.install_begin(
        "alpha".to_string(),
        "1.0.0".to_string(),
        PluginType::Python,
        String::new(),
        String::new(),
        "main.py".to_string(),
        None,
        Some(params),
    )
}

#[test]
fn duplicate_parameter_name_fails_installation() {
    let service = PluginService::new("/srv/plugins".to_string());
    let r = begin_with_params(
        &service,
        vec![param("x", ParamType::Text, None), param("x", ParamType::Number, None)],
    );
    assert!(matches!(r, Err(AppError::Validation(_))));
}

#[test]
fn blank_parameter_name_fails_installation() {
    let service = PluginService::new("/srv/plugins".to_string());
    let r = begin_with_params(&service, vec![param("  ", ParamType::Text, None)]);
    assert!(matches!(r, Err(AppError::Validation(_))));
}

#[test]
fn padded_parameter_name_fails_installation() {
    let service = PluginService::new("/srv/plugins".to_string());
    let r = begin_with_params(&service, vec![param(" x", ParamType::Text, None)]);
    assert!(matches!(r, Err(AppError::Validation(_))));
}

#[test]
fn exotic_whitespace_counts_for_parameter_names() {
    let service = PluginService::new("/srv/plugins".to_string());
    let padded = begin_with_params(&service, vec![param("\u{000B}x", ParamType::Text, None)]);
    assert!(
        matches!(padded, Err(AppError::Validation(_))),
        "a leading vertical tab is surrounding whitespace"
    );
    let blank = begin_with_params(&service, vec![param("\u{00A0}", ParamType::Text, None)]);
    assert!(
        matches!(blank, Err(AppError::Validation(_))),
        "a non-breaking space alone is a blank name"
    );
    let interior = begin_with_params(&service, vec![param("a\u{00A0}b", ParamType::Text, None)]);
    assert!(interior.is_ok(), "interior whitespace is not surrounding whitespace");
}

#[test]
fn exotic_whitespace_counts_for_entry_points() {
    let service = PluginService::new("/srv/plugins".to_string());
    assert!(matches!(
        begin_simple(&service, "alpha", "\u{3000}"),
        Err(AppError::Validation(_))
    ));
    assert!(matches!(
        begin_simple(&service, "alpha", "\u{0085}\u{2028}"),
        Err(AppError::Validation(_))
    ));
}

#[test]
fn mismatched_default_fails_installation() {
    let service = PluginService::new("/srv/plugins".to_string());
    let r = begin_with_params(
        &service,
        vec![param("x", ParamType::Number, Some(ParamValue::Text("no".to_string())))],
    );
    assert!(matches!(r, Err(AppError::Validation(_))));
}

#[test]
fn well_formed_parameters_round_trip_through_the_store() {
    let mut service = PluginService::new("/srv/plugins".to_string());
    let params = vec![
        param("count", ParamType::Number, Some(ParamValue::Number(3))),
        param("label", ParamType::Text, Some(ParamValue::Text("hi".to_string()))),
        param("loud", ParamType::Flag, Some(ParamValue::Flag(true))),
        param("free", ParamType::Text, None),
    ];
    let pending = begin_with_params(&service, params).expect("begin should pass");
    let plugin = service.install_finish(pending, true).expect("finish should pass");
    let fetched = service.get_plugin(&plugin.id).expect("stored plugin is found");
    let stored = fetched.parameters.expect("parameters are kept");
    assert_eq!(stored.len(), 4);
    assert_eq!(stored[0].name, "count");
    assert!(matches!(stored[0].default, Some(ParamValue::Number(3))));
    assert_eq!(stored[1].name, "label");
    match &stored[1].default {
        Some(ParamValue::Text(s)) => assert_eq!(s, "hi"),
        _ => panic!("text default lost"),
    }
    assert!(matches!(stored[2].default, Some(ParamValue::Flag(true))));
    assert!(stored[3].default.is_none());
}

#[test]
fn uninstall_removes_record_and_reports_directory() {
    let mut service = PluginService::new("/srv/plugins".to_string());
    let plugin = install_simple(&mut service, "alpha");
    let dir = service.uninstall_begin(&plugin.id).expect("plugin exists");
    assert_eq!(dir, plugin.plugin_path);
    service.uninstall_finish(&plugin.id, None).expect("uninstall should pass");
    assert!(matches!(service.get_plugin(&plugin.id), Err(AppError::NotFound)));
    assert_eq!(service.list_plugins().len(), 0);
}

#[test]
fn uninstall_aborts_when_directory_removal_fails() {
    let mut service = PluginService::new("/srv/plugins".to_string());
    let plugin = install_simple(&mut service, "alpha");
    let r = service.uninstall_finish(&plugin.id, Some("device busy".to_string()));
    match r {
        Err(AppError::Io(m)) => assert_eq!(m, "device busy"),
        _ => panic!("expected an io error"),
    }
    assert!(service.get_plugin(&plugin.id).is_ok());
}

#[test]
fn uninstall_of_unknown_id_is_not_found() {
    let mut service = PluginService::new("/srv/plugins".to_string());
    assert!(matches!(service.uninstall_begin("nope"), Err(AppError::NotFound)));
    assert!(matches!(service.uninstall_finish("nope", None), Err(AppError::NotFound)));
}

#[test]
fn enable_and_disable_flip_the_flag_and_touch_the_timestamp() {
    let mut service = PluginService::new("/srv/plugins".to_string());
    let plugin = install_simple(&mut service, "alpha");
    service.set_enabled_at(&plugin.id, false, 777).expect("disable should pass");
    let fetched = service.get_plugin(&plugin.id).unwrap();
    assert!(!fetched.enabled);
    assert_eq!(fetched.updated_at, 777);
    assert_eq!(fetched.created_at, plugin.created_at);
    service.enable_plugin(&plugin.id).expect("enable should pass");
    assert!(service.get_plugin(&plugin.id).unwrap().enabled);
    assert!(matches!(service.disable_plugin("nope"), Err(AppError::NotFound)));
}

#[test]
fn plugin_dir_is_keyed_by_identifier() {
    let service = PluginService::new("/srv/plugins".to_string());
    assert_eq!(service.plugin_dir_for("abc"), "/srv/plugins/abc");
}

#[test]
fn local_path_from_url_strips_the_scheme() {
    assert_eq!(
        PluginService::local_path_from_url("file:///tmp/pkg.zip"),
        Some("/tmp/pkg.zip".to_string())
    );
    assert_eq!(
        PluginService::local_path_from_url("file://localhost/tmp/pkg.zip"),
        Some("tmp/pkg.zip".to_string())
    );
    assert_eq!(PluginService::local_path_from_url("https://example.test/p.zip"), None);
}

#[test]
fn plugin_type_tags_parse_as_the_control_surface_spells_them() {
    assert!(matches!(parse_plugin_type("python"), Ok(PluginType::Python)));
    assert!(matches!(parse_plugin_type("javascript"), Ok(PluginType::JavaScript)));
    assert!(matches!(parse_plugin_type("js"), Ok(PluginType::JavaScript)));
    assert!(matches!(parse_plugin_type("ruby"), Err(AppError::InvalidPluginType)));
}

#[test]
fn error_messages_name_the_failure() {
    assert_eq!(AppError::NotFound.message(), "not found");
    assert_eq!(AppError::AlreadyExists("alpha".to_string()).message(), "plugin already exists: alpha");
    assert_eq!(AppError::Disabled.message(), "plugin is disabled");
    assert_eq!(AppError::InvalidPluginType.message(), "invalid plugin type");
    assert_eq!(AppError::Io("oops".to_string()).message(), "oops");
}
