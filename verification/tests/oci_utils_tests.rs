use roadrunner::oci_utils::{arg_to_wasi, env_to_wasi, get_wasm_annotations, Annotation, OciSpec};

fn b(s: &str) -> Vec<u8> {
    s.as_bytes().to_vec()
}

fn spec_with(annotations: Vec<Annotation>, env: Vec<Vec<u8>>, args: Vec<Vec<u8>>) -> OciSpec {
    OciSpec { annotations, env, args }
}

#[test]
fn test_env_to_wasi() {
    let spec = spec_with(vec![], vec![b("KEY1=VALUE1"), b("KEY2=VALUE2")], vec![]);

    let env_vars = env_to_wasi(&spec);
    assert_eq!(env_vars.len(), 2);
    assert_eq!(env_vars[0], b("KEY1=VALUE1"));
    assert_eq!(env_vars[1], b("KEY2=VALUE2"));
}

#[test]
fn test_arg_to_wasi() {
    let spec = spec_with(vec![], vec![], vec![b("/usr/bin/function"), b("--flag")]);

    let args = arg_to_wasi(&spec);
    assert_eq!(args.len(), 2);
    assert_eq!(args[0], b("/usr/bin/function"));
    assert_eq!(args[1], b("--flag"));
}

#[test]
fn test_get_wasm_annotations() {
    let spec = spec_with(
        vec![
            Annotation { key: b("key1"), value: b("value1") },
            Annotation { key: b("key2"), value: b("value2") },
        ],
        vec![],
        vec![],
    );

    let value = get_wasm_annotations(&spec, &b("key1"));
    assert_eq!(value, b("value1"));

    let empty_value = get_wasm_annotations(&spec, &b("non_existent_key"));
    assert_eq!(empty_value, b(""));
}

#[test]
fn test_get_wasm_annotations_first_match_wins() {
    let spec = spec_with(
        vec![
            Annotation { key: b("key1"), value: b("first") },
            Annotation { key: b("key1"), value: b("second") },
        ],
        vec![],
        vec![],
    );

    assert_eq!(get_wasm_annotations(&spec, &b("key1")), b("first"));
}
