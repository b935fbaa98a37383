use edge_worker_runtime::{
    bootstrap_script, mib_to_bytes, select_ca_stores, split_commas, trim_text, CaStore, CacheSetting,
    Capability, CodeSource, DenoRuntime, DenoRuntimeError, EnvVars, HostSettings, SetupError,
    StateKey, UserWorkerConfig, WorkerInitRequest, WorkerRole,
};
use edge_worker_runtime::get_error_class_name;

fn host() -> HostSettings {
    HostSettings {
        working_dir: "/srv/app".to_string(),
        ca_store_setting: None,
        target: "x86_64-unknown-linux-gnu".to_string(),
        version: None,
    }
}

fn user_conf(memory_limit_mb: u64, worker_timeout_ms: u64) -> UserWorkerConfig {
    UserWorkerConfig {
        service_path: "./test_cases/main".to_string(),
        memory_limit_mb,
        worker_timeout_ms,
        cpu_time_soft_limit_ms: 100,
        cpu_time_hard_limit_ms: 200,
        low_memory_multiplier: 5,
        net_access_disabled: false,
        allow_remote_modules: true,
        execution_key: None,
        has_events_channel: false,
    }
}

fn request(role: WorkerRole) -> WorkerInitRequest {
    WorkerInitRequest {
        service_path: "./test_cases/main".to_string(),
        entrypoint: None,
        no_module_cache: false,
        import_map_path: None,
        env_vars: EnvVars::new(),
        inline_source: None,
        has_prebuilt_bundle: false,
        role,
    }
}

#[test]
fn default_main_module_is_index_under_service_dir() {
    let rt = DenoRuntime::new(request(WorkerRole::Main), &host()).ok().unwrap();
    assert_eq!(rt.main_module_url, "file:///srv/app/test_cases/main/index.ts");
}

#[test]
fn absolute_service_path_replaces_working_dir() {
    let mut req = request(WorkerRole::Main);
    req.service_path = "/opt/fn/hello".to_string();
    let rt = DenoRuntime::new(req, &host()).ok().unwrap();
    assert_eq!(rt.main_module_url, "file:///opt/fn/hello/index.ts");
}

#[test]
fn explicit_entrypoint_is_parsed() {
    let mut req = request(WorkerRole::Main);
    req.entrypoint = Some("https://example.com/a/../mod.ts".to_string());
    let rt = DenoRuntime::new(req, &host()).ok().unwrap();
    assert_eq!(rt.main_module_url, "https://example.com/mod.ts");
}

#[test]
fn malformed_entrypoint_fails_setup() {
    let mut req = request(WorkerRole::Main);
    req.entrypoint = Some("not a url".to_string());
    match DenoRuntime::new(req, &host()) {
        Err(SetupError::InvalidEntrypoint(e)) => assert_eq!(e, "not a url"),
        _ => panic!("expected an entrypoint error"),
    }
}

#[test]
fn relative_service_dir_fails_setup() {
    let mut h = host();
    h.working_dir = "relative/dir".to_string();
    match DenoRuntime::new(request(WorkerRole::Main), &h) {
        Err(e) => {
            assert!(matches!(e, SetupError::InvalidServicePath(_)));
            assert_eq!(e.message(), "service path is not absolute: relative/dir/./test_cases/main");
        }
        _ => panic!("expected a service path error"),
    }
}

#[test]
fn unknown_cert_store_fails_setup() {
    let mut h = host();
    h.ca_store_setting = Some("mozilla, corporate".to_string());
    match DenoRuntime::new(request(WorkerRole::Main), &h) {
        Err(e) => {
            assert_eq!(
                e.message(),
                "Unknown certificate store \"corporate\" specified (allowed: \"system,mozilla\")"
            );
            let wrapped = DenoRuntimeError::from_setup(&e);
            assert!(wrapped.debug_text().starts_with("[Js Error] Unknown certificate store"));
        }
        _ => panic!("expected a cert store error"),
    }
}

#[test]
fn cert_store_selection() {
    assert_eq!(select_ca_stores(None).ok().unwrap(), vec![CaStore::Mozilla]);
    assert_eq!(
        select_ca_stores(Some(" system ,\tmozilla ,, ")).ok().unwrap(),
        vec![CaStore::System, CaStore::Mozilla]
    );
    assert_eq!(select_ca_stores(Some("")).ok().unwrap(), Vec::<CaStore>::new());
    match select_ca_stores(Some("system,Mozilla,foo")) {
        Err(SetupError::UnknownCertStore(n)) => assert_eq!(n, "Mozilla"),
        _ => panic!("expected the first unknown store"),
    }
}

#[test]
fn split_and_trim() {
    assert_eq!(split_commas("a,,b c,"), vec!["a", "", "b c", ""]);
    assert_eq!(split_commas(""), vec![""]);
    assert_eq!(trim_text("\u{3000} x y \n"), "x y");
    assert_eq!(trim_text("   "), "");
}

#[test]
fn bootstrap_script_for_user_worker() {
    let s = bootstrap_script("x86_64-unknown-linux-gnu", true, false, None);
    assert_eq!(
        s,
        "globalThis.bootstrapSBEdge({\"target\":\"x86_64-unknown-linux-gnu\"}, true, false, '0.1.0')"
    );
}

#[test]
fn bootstrap_script_escapes_target_and_takes_version() {
    let s = bootstrap_script("a\"b", false, true, Some("v1.2.3"));
    assert_eq!(s, "globalThis.bootstrapSBEdge({\"target\":\"a\\\"b\"}, false, true, 'v1.2.3')");
}

#[test]
fn bootstrap_script_escapes_control_characters() {
    let s = bootstrap_script("a\\b\n\u{1}\u{1f}\u{7f}\t\r\u{8}\u{c}é", false, false, None);
    assert_eq!(
        s,
        "globalThis.bootstrapSBEdge({\"target\":\"a\\\\b\\n\\u0001\\u001f\u{7f}\\t\\r\\b\\fé\"}, false, false, '0.1.0')"
    );
}

#[test]
fn runtime_carries_bootstrap_and_limits() {
    let mut h = host();
    h.version = Some("2.0.0".to_string());
    let rt = DenoRuntime::new(request(WorkerRole::User(user_conf(20, 1000))), &h).ok().unwrap();
    assert_eq!(
        rt.bootstrap_script,
        "globalThis.bootstrapSBEdge({\"target\":\"x86_64-unknown-linux-gnu\"}, true, false, '2.0.0')"
    );
    assert_eq!(rt.heap_limit_bytes, Some(20 * 1024 * 1024));
    assert_eq!(rt.construction_state, vec![StateKey::EnvVars]);
    assert_eq!(rt.ca_stores, vec![CaStore::Mozilla]);
    let main = DenoRuntime::new(request(WorkerRole::Main), &host()).ok().unwrap();
    assert_eq!(main.heap_limit_bytes, None);
}

#[test]
fn mib_conversion_saturates() {
    assert_eq!(mib_to_bytes(0), 0);
    assert_eq!(mib_to_bytes(20), 20971520);
    assert_eq!(mib_to_bytes(17592186044415), 17592186044415 * 1048576);
    assert_eq!(mib_to_bytes(17592186044416), u64::MAX);
}

#[test]
fn code_source_precedence() {
    let mut req = request(WorkerRole::Main);
    req.inline_source = Some("export {}".to_string());
    req.has_prebuilt_bundle = true;
    let rt = DenoRuntime::new(req, &host()).ok().unwrap();
    assert!(matches!(rt.code_source, CodeSource::Prebuilt));

    let mut req = request(WorkerRole::Main);
    req.inline_source = Some("export {}".to_string());
    req.no_module_cache = true;
    let rt = DenoRuntime::new(req, &host()).ok().unwrap();
    match rt.code_source {
        CodeSource::Build { inline_source, cache, allow_remote_modules, import_map_path } => {
            assert_eq!(inline_source, Some("export {}".to_string()));
            assert_eq!(cache, CacheSetting::ReloadAll);
            assert!(allow_remote_modules);
            assert_eq!(import_map_path, None);
        }
        _ => panic!("expected a build"),
    }

    let mut req = request(WorkerRole::Main);
    req.inline_source = Some("export {}".to_string());
    req.entrypoint = Some("file:///srv/app/main.ts".to_string());
    let rt = DenoRuntime::new(req, &host()).ok().unwrap();
    match rt.code_source {
        CodeSource::Build { inline_source, cache, .. } => {
            assert_eq!(inline_source, None);
            assert_eq!(cache, CacheSetting::Use);
        }
        _ => panic!("expected a build"),
    }
}

#[test]
fn user_worker_remote_modules_follow_config() {
    let mut c = user_conf(20, 1000);
    c.allow_remote_modules = false;
    let rt = DenoRuntime::new(request(WorkerRole::User(c)), &host()).ok().unwrap();
    match rt.code_source {
        CodeSource::Build { allow_remote_modules, .. } => assert!(!allow_remote_modules),
        _ => panic!("expected a build"),
    }
}

#[test]
fn prebuilt_bundle_changes_nothing_else() {
    let mut built = request(WorkerRole::User(user_conf(20, 1000)));
    built.inline_source = Some("Deno.serve(() => new Response('hi'));".to_string());
    let mut prebuilt = request(WorkerRole::User(user_conf(20, 1000)));
    prebuilt.has_prebuilt_bundle = true;
    let a = DenoRuntime::new(built, &host()).ok().unwrap();
    let b = DenoRuntime::new(prebuilt, &host()).ok().unwrap();
    assert_eq!(a.main_module_url, b.main_module_url);
    assert_eq!(a.capabilities, b.capabilities);
    assert_eq!(a.heap_limit_bytes, b.heap_limit_bytes);
    assert_eq!(a.bootstrap_script, b.bootstrap_script);
    assert_eq!(a.construction_state, b.construction_state);
    assert!(matches!(a.code_source, CodeSource::Build { .. }));
    assert!(matches!(b.code_source, CodeSource::Prebuilt));
}

#[test]
fn event_worker_state_and_metadata() {
    let rt = DenoRuntime::new(request(WorkerRole::Event), &host()).ok().unwrap();
    assert_eq!(rt.construction_state, vec![StateKey::EventReceiver, StateKey::EnvVars]);
    assert!(rt.event_metadata.is_none());

    let mut c = user_conf(20, 1000);
    c.has_events_channel = true;
    c.execution_key = Some("exec-1".to_string());
    let rt = DenoRuntime::new(request(WorkerRole::User(c)), &host()).ok().unwrap();
    assert_eq!(
        rt.construction_state,
        vec![StateKey::EventSender, StateKey::EventMetadata, StateKey::EnvVars]
    );
    let m = rt.event_metadata.unwrap();
    assert_eq!(m.service_path, "./test_cases/main");
    assert_eq!(m.execution_key, Some("exec-1".to_string()));
    assert!(rt.capabilities.contains(&Capability::Io(edge_worker_runtime::StdioMode::Discard)));
}

#[test]
fn runtime_error_compares_by_message() {
    let a = DenoRuntimeError::new("boom".to_string());
    let b = DenoRuntimeError::new("boom".to_string());
    let c = DenoRuntimeError::new("bang".to_string());
    assert!(a == b);
    assert!(a != c);
    assert_eq!(a.debug_text(), "[Js Error] boom");
}

#[test]
fn error_class_defaults_to_error() {
    assert_eq!(get_error_class_name(None), "Error");
    assert_eq!(get_error_class_name(Some("TypeError".to_string())), "TypeError");
}
