use roadrunner::data_hose::{
    find_function_metadata, qualify_bundle, read_memory_host_begin, read_memory_host_finish,
    strip_path_separators, transfer_data_within_wasm_vm, BridgeError, BundleInfo, Route,
};
use roadrunner::engine::{Engine, EngineError, ExportSet, GuestModule};
use roadrunner::oci_utils::{Annotation, OciSpec};

fn b(s: &str) -> Vec<u8> {
    s.as_bytes().to_vec()
}

fn manifest(function: &str, address: &str) -> OciSpec {
    OciSpec {
        annotations: vec![
            Annotation { key: b("target.function"), value: b(function) },
            Annotation { key: b("target.address"), value: b(address) },
        ],
        env: vec![],
        args: vec![],
    }
}

fn bundle(root: &str, function: &str, address: &str, socket_exists: bool) -> BundleInfo {
    BundleInfo { root: b(root), manifest: Some(manifest(function, address)), socket_exists }
}

fn no_exports() -> ExportSet {
    ExportSet {
        allocate: false,
        process_data: false,
        allocate_memory: false,
        start: false,
        deallocate_memory: false,
    }
}

fn transfer_target(name: &str, memory: Vec<u8>) -> GuestModule {
    GuestModule {
        name: b(name),
        memory,
        exports: ExportSet { allocate: true, process_data: true, ..no_exports() },
    }
}

fn main_module(memory: Vec<u8>) -> GuestModule {
    GuestModule { name: b("main"), memory, exports: no_exports() }
}

#[test]
fn test_find_function_metadata() {
    let container = "/tmp/bundles/test_container";
    let bundles = vec![bundle(container, "test_function", "127.0.0.1:8080", true)];

    let result = find_function_metadata(&bundles);

    assert!(result.is_some(), "Function metadata should be found");
    let Route { socket_path, function_name, function_address } = result.unwrap();
    assert_eq!(socket_path, b("/tmp/bundles/test_container.sock"), "Socket path mismatch");
    assert_eq!(function_name, b("test_function"), "Function name mismatch");
    assert_eq!(function_address, b("127.0.0.1:8080"), "Function address mismatch");
}

#[test]
fn test_locator_scenario_a() {
    let bundles = vec![bundle("/run/bundles/billing-0", "billing", "10.0.0.5:9000", true)];

    let route = find_function_metadata(&bundles).expect("route expected");
    assert_eq!(route.socket_path, b("/run/bundles/billing-0.sock"));
    assert_eq!(route.function_name, b("billing"));
    assert_eq!(route.function_address, b("10.0.0.5:9000"));
}

#[test]
fn test_locator_scenario_b_socket_absent() {
    let bundles = vec![bundle("/run/bundles/billing-0", "billing", "10.0.0.5:9000", false)];

    assert!(find_function_metadata(&bundles).is_none());
}

#[test]
fn test_locator_empty_function_never_returned() {
    let bundles = vec![bundle("/run/bundles/a", "", "10.0.0.5:9000", true)];
    assert!(find_function_metadata(&bundles).is_none());

    // A name of separators only strips to empty and is skipped too.
    let bundles = vec![bundle("/run/bundles/a", "///", "10.0.0.5:9000", true)];
    assert!(find_function_metadata(&bundles).is_none());
}

#[test]
fn test_locator_skips_unparsable_manifest() {
    let unparsable = BundleInfo { root: b("/run/bundles/broken"), manifest: None, socket_exists: true };
    let bundles = vec![
        unparsable,
        bundle("/run/bundles/ok", "billing", "10.0.0.5:9000", true),
    ];

    let route = find_function_metadata(&bundles).expect("later valid bundle must be found");
    assert_eq!(route.socket_path, b("/run/bundles/ok.sock"));
}

#[test]
fn test_locator_only_qualifying_bundles_locatable() {
    let bundles = vec![
        bundle("/b/no-name", "", "10.0.0.1:1", true),
        bundle("/b/no-address", "f", "", true),
        bundle("/b/no-socket", "f", "10.0.0.1:1", false),
        BundleInfo { root: b("/b/broken"), manifest: None, socket_exists: true },
    ];
    assert!(find_function_metadata(&bundles).is_none());

    let mut with_valid = bundles;
    with_valid.push(bundle("/b/valid", "f", "10.0.0.1:1", true));
    let route = find_function_metadata(&with_valid).expect("the one qualifying bundle");
    assert_eq!(route.socket_path, b("/b/valid.sock"));
}

#[test]
fn test_locator_first_match_wins() {
    let bundles = vec![
        bundle("/b/first", "one", "10.0.0.1:1", true),
        bundle("/b/second", "two", "10.0.0.2:2", true),
    ];
    let route = find_function_metadata(&bundles).expect("route expected");
    assert_eq!(route.socket_path, b("/b/first.sock"));
    assert_eq!(route.function_name, b("one"));
}

#[test]
fn test_qualify_bundle_strips_separators() {
    let route = qualify_bundle(&bundle("/b/x", "/billing", "10.0.0.5:9000", true))
        .expect("qualifying bundle");
    assert_eq!(route.function_name, b("billing"));
}

#[test]
fn test_strip_path_separators() {
    assert_eq!(strip_path_separators(&b("/usr/bin/f")), b("usrbinf"));
    assert_eq!(strip_path_separators(&b("plain")), b("plain"));
    assert_eq!(strip_path_separators(&b("")), b(""));
}

#[test]
fn test_transfer_data_within_wasm_vm() {
    let address = 0;
    let len = 10;
    let mut engine = Engine {
        modules: vec![main_module(vec![7u8; 10]), transfer_target("test_module", vec![])],
    };

    let result = transfer_data_within_wasm_vm(&mut engine, &b("test_module"), address, len);

    assert!(result.is_ok(), "transfer_data_within_wasm_vm should execute successfully");
    assert_eq!(engine.modules[1].memory, vec![7u8; 10]);
}

#[test]
fn test_transfer_appends_the_read_region() {
    let mut engine = Engine {
        modules: vec![
            main_module(vec![1, 2, 3, 4, 5, 6]),
            transfer_target("sink", vec![9, 9]),
        ],
    };

    let result = transfer_data_within_wasm_vm(&mut engine, &b("sink"), 2, 3);
    assert!(result.is_ok());
    assert_eq!(engine.modules[1].memory, vec![9, 9, 3, 4, 5]);
    // The main module is untouched.
    assert_eq!(engine.modules[0].memory, vec![1, 2, 3, 4, 5, 6]);
}

#[test]
fn test_transfer_idempotent_into_fresh_destinations() {
    let mut engine = Engine {
        modules: vec![
            main_module(vec![10, 20, 30, 40]),
            transfer_target("d1", vec![]),
            transfer_target("d2", vec![]),
        ],
    };

    assert!(transfer_data_within_wasm_vm(&mut engine, &b("d1"), 1, 2).is_ok());
    assert!(transfer_data_within_wasm_vm(&mut engine, &b("d2"), 1, 2).is_ok());
    assert_eq!(engine.modules[1].memory, engine.modules[2].memory);
    assert_eq!(engine.modules[1].memory, vec![20, 30]);
}

#[test]
fn test_transfer_missing_module_is_fatal() {
    let mut engine = Engine { modules: vec![main_module(vec![0; 4])] };
    let r = transfer_data_within_wasm_vm(&mut engine, &b("absent"), 0, 1);
    assert_eq!(r, Err(EngineError::ModuleNotFound));
}

#[test]
fn test_transfer_missing_export_is_fatal() {
    let mut engine = Engine {
        modules: vec![
            main_module(vec![0; 4]),
            GuestModule { name: b("sink"), memory: vec![], exports: no_exports() },
        ],
    };
    let r = transfer_data_within_wasm_vm(&mut engine, &b("sink"), 0, 1);
    assert_eq!(r, Err(EngineError::ExportNotFound));
}

#[test]
fn test_transfer_out_of_bounds_read_is_fatal() {
    let mut engine = Engine {
        modules: vec![main_module(vec![0; 4]), transfer_target("sink", vec![])],
    };
    let r = transfer_data_within_wasm_vm(&mut engine, &b("sink"), 2, 3);
    assert_eq!(r, Err(EngineError::MemoryOutOfBounds));
}

#[test]
fn test_bridge_begin_copies_request_and_resolves() {
    let mem = vec![1u8, 2, 3, 4, 5];
    let bundles = vec![bundle("/b/x", "billing", "10.0.0.5:9000", true)];

    let (payload, route) = read_memory_host_begin(&mem, 1, 3, &bundles).expect("bridge begin");
    assert_eq!(payload, vec![2, 3, 4]);
    assert_eq!(route.socket_path, b("/b/x.sock"));
    assert_eq!(route.function_address, b("10.0.0.5:9000"));
}

#[test]
fn test_bridge_begin_bad_address() {
    let mem = vec![1u8, 2, 3];
    let bundles = vec![bundle("/b/x", "billing", "10.0.0.5:9000", true)];
    let r = read_memory_host_begin(&mem, 2, 2, &bundles);
    assert_eq!(r.unwrap_err(), BridgeError::BadAddress);
}

#[test]
fn test_bridge_begin_function_not_found() {
    let mem = vec![1u8, 2, 3];
    let r = read_memory_host_begin(&mem, 0, 3, &vec![]);
    assert_eq!(r.unwrap_err(), BridgeError::FunctionNotFound);
}

#[test]
fn test_bridge_finish_writes_reply_back() {
    let mut mem = vec![0u8; 6];
    let n = read_memory_host_finish(&mut mem, 1, Some(vec![8, 9]), false).expect("finish");
    assert_eq!(n, 2);
    assert_eq!(mem, vec![0, 8, 9, 0, 0, 0]);
}

#[test]
fn test_bridge_finish_truncates_under_allocation() {
    let mut mem = vec![0u8; 2];
    let n = read_memory_host_finish(&mut mem, 0, Some(vec![5, 6, 7, 8, 9]), false)
        .expect("finish");
    // The returned length is the full response's; only what fits lands.
    assert_eq!(n, 5);
    assert_eq!(mem, vec![5, 6]);
}

#[test]
fn test_bridge_finish_fallback_leaves_response_empty() {
    let mut mem = vec![3u8, 3, 3];
    let n = read_memory_host_finish(&mut mem, 0, None, true).expect("finish");
    assert_eq!(n, 0);
    assert_eq!(mem, vec![3, 3, 3]);
}

#[test]
fn test_bridge_finish_communication_failure() {
    let mut mem = vec![3u8, 3, 3];
    let r = read_memory_host_finish(&mut mem, 0, None, false);
    assert_eq!(r.unwrap_err(), BridgeError::CommunicationFailure);
    assert_eq!(mem, vec![3, 3, 3]);
}
