use roadrunner::codec::{decode_result, encode_result};
use roadrunner::data_hose::BundleInfo;
use roadrunner::engine::{Engine, EngineError, ExportSet, GuestModule};
use roadrunner::oci_utils::{Annotation, OciSpec};
use roadrunner::runtime::{
    accumulate_chunks, bootstrap_address, is_stop_message, rediscover_socket_path, stop_message,
    LocalConn, RetryAction, RetryState, Runtime,
};

fn b(s: &str) -> Vec<u8> {
    s.as_bytes().to_vec()
}

fn empty_spec() -> OciSpec {
    OciSpec { annotations: vec![], env: vec![], args: vec![] }
}

fn serving_main(memory: Vec<u8>) -> GuestModule {
    GuestModule {
        name: b("main"),
        memory,
        exports: ExportSet {
            allocate: false,
            process_data: false,
            allocate_memory: true,
            start: true,
            deallocate_memory: true,
        },
    }
}

fn runtime_with_main() -> Runtime {
    Runtime::new(
        b("/run/bundles/me"),
        empty_spec(),
        Engine { modules: vec![serving_main(vec![0u8; 4])] },
    )
}

#[test]
fn test_encode_result_is_little_endian() {
    assert_eq!(encode_result(0), vec![0u8; 8]);
    assert_eq!(encode_result(-1), vec![0xffu8; 8]);
    assert_eq!(encode_result(1), vec![1, 0, 0, 0, 0, 0, 0, 0]);
    assert_eq!(encode_result(i64::MAX), i64::MAX.to_le_bytes().to_vec());
    assert_eq!(encode_result(i64::MIN), i64::MIN.to_le_bytes().to_vec());
}

#[test]
fn test_result_encoding_round_trip() {
    for v in [0i64, -1, i64::MAX, i64::MIN, 42, -9_876_543_210] {
        assert_eq!(decode_result(&encode_result(v)), Some(v));
    }
}

#[test]
fn test_decode_result_rejects_wrong_length() {
    assert_eq!(decode_result(&vec![1, 2, 3]), None);
    assert_eq!(decode_result(&vec![]), None);
    assert_eq!(decode_result(&vec![0u8; 9]), None);
}

#[test]
fn test_accumulate_chunks() {
    let chunks = vec![b("ab"), b("cd"), b(""), b("e")];
    assert_eq!(accumulate_chunks(&chunks), b("abcde"));
    assert_eq!(accumulate_chunks(&vec![]), b(""));
}

#[test]
fn test_handle_connection_writes_result_bytes() {
    let mut rt = runtime_with_main();
    let mut conn = LocalConn { inbound: vec![b("req"), b("uest")], outbound: vec![] };

    rt.handle_connection(&mut conn, 7).expect("one served request");

    assert_eq!(conn.outbound, 7i64.to_le_bytes().to_vec());
    // The balanced allocate/write/deallocate leaves the engine as it was.
    assert_eq!(rt.vm.modules[0].memory, vec![0u8; 4]);
}

#[test]
fn test_handle_connection_empty_request_writes_nothing() {
    let mut rt = runtime_with_main();
    let mut conn = LocalConn { inbound: vec![], outbound: vec![] };

    rt.handle_connection(&mut conn, 7).expect("empty request is served trivially");
    assert_eq!(conn.outbound, Vec::<u8>::new());
}

#[test]
fn test_handle_connection_missing_export_aborts() {
    let mut rt = Runtime::new(
        b("/run/bundles/me"),
        empty_spec(),
        Engine {
            modules: vec![GuestModule {
                name: b("main"),
                memory: vec![],
                exports: ExportSet {
                    allocate: false,
                    process_data: false,
                    allocate_memory: true,
                    start: false,
                    deallocate_memory: true,
                },
            }],
        },
    );
    let mut conn = LocalConn { inbound: vec![b("x")], outbound: vec![] };

    let r = rt.handle_connection(&mut conn, 7);
    assert_eq!(r, Err(EngineError::ExportNotFound));
    assert_eq!(conn.outbound, Vec::<u8>::new());
}

#[test]
fn test_call_vm_with_input_returns_entry_result() {
    let mut rt = runtime_with_main();
    let r = rt.call_vm_with_input(&b("payload"), -3);
    assert_eq!(r, Ok(-3));
}

#[test]
fn test_call_vm_without_main_module() {
    let mut rt = Runtime::new(b("/x"), empty_spec(), Engine { modules: vec![] });
    assert_eq!(rt.call_vm_with_input(&b("payload"), 1), Err(EngineError::ModuleNotFound));
}

#[test]
fn test_retry_scenario_c_no_premature_abort() {
    // Three consecutive connect failures, the rediscovered route never
    // changing — a fourth attempt is still made.
    let mut state = RetryState::new();
    for _ in 0..3 {
        assert!(matches!(state.on_connect_failure(), RetryAction::RetryWithRediscovery));
    }
    assert!(matches!(state.on_connect_failure(), RetryAction::RetryWithRediscovery));
}

#[test]
fn test_retry_ceiling_is_fatal() {
    let mut state = RetryState::new();
    let mut fatal = false;
    for _ in 0..1000 {
        if matches!(state.on_connect_failure(), RetryAction::Fatal) {
            fatal = true;
            break;
        }
    }
    assert!(fatal, "the ceiling must eventually be fatal");
    // 999 attempts are booked before the ceiling.
    assert_eq!(state.retries, 999);
}

#[test]
fn test_rediscover_socket_path() {
    let qualifying = BundleInfo {
        root: b("/b/fresh"),
        manifest: Some(OciSpec {
            annotations: vec![
                Annotation { key: b("target.function"), value: b("f") },
                Annotation { key: b("target.address"), value: b("10.0.0.1:1") },
            ],
            env: vec![],
            args: vec![],
        }),
        socket_exists: true,
    };

    let next = rediscover_socket_path(b("/b/stale.sock"), &vec![qualifying]);
    assert_eq!(next, b("/b/fresh.sock"));

    let unchanged = rediscover_socket_path(b("/b/stale.sock"), &vec![]);
    assert_eq!(unchanged, b("/b/stale.sock"));
}

#[test]
fn test_stop_message() {
    assert_eq!(stop_message(), b("exit"));
    assert!(is_stop_message(&b("exit")));
    assert!(!is_stop_message(&b("exit!")));
    assert!(!is_stop_message(&b("")));
}

#[test]
fn test_bootstrap_address() {
    let spec = OciSpec {
        annotations: vec![],
        env: vec![],
        args: vec![b("10.0.0.9:7000"), b("--flag")],
    };
    assert_eq!(bootstrap_address(&spec), Some(b("10.0.0.9:7000")));
    assert_eq!(bootstrap_address(&empty_spec()), None);
}
