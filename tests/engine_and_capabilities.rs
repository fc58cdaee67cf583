use faas::capability::{
    build_capabilities, check_link, import_family, needs_network, CapabilityRequest, CapabilitySet,
    ImportFamily, Strategy,
};
use faas::engine::{compile, component_preamble, scan_sections, EngineSettings};
use faas::error::AppError;
use faas::invocation::check_imports;

const EMPTY_COMPONENT: [u8; 8] = [0, 97, 115, 109, 13, 0, 1, 0];
/// A component whose one section is an empty core module.
const MINIMAL_COMPONENT: [u8; 18] = [0, 97, 115, 109, 13, 0, 1, 0, 1, 8, 0, 97, 115, 109, 1, 0, 0, 0];
/// The same component, exporting its core module under the name `exec`.
const EXEC_COMPONENT: [u8; 31] = [
    0, 97, 115, 109, 13, 0, 1, 0, 1, 8, 0, 97, 115, 109, 1, 0, 0, 0, 11, 11, 1, 0, 4, 101, 120, 101, 99, 0, 17,
    0, 0,
];

fn names(v: &[&str]) -> Vec<String> {
    v.iter().map(|s| s.to_string()).collect()
}

#[test]
fn stdout_is_always_granted_network_only_when_cooperative_and_needed() {
    let coop = build_capabilities(CapabilityRequest { strategy: Strategy::Cooperative, needs_network: true });
    assert_eq!(coop, CapabilitySet { inherit_stdout: true, outbound_http: true });
    let coop_plain = build_capabilities(CapabilityRequest { strategy: Strategy::Cooperative, needs_network: false });
    assert_eq!(coop_plain, CapabilitySet { inherit_stdout: true, outbound_http: false });
    let blocking = build_capabilities(CapabilityRequest { strategy: Strategy::Blocking, needs_network: true });
    assert_eq!(blocking, CapabilitySet { inherit_stdout: true, outbound_http: false });
}

#[test]
fn import_names_are_classified_by_prefix() {
    assert_eq!(import_family("wasi:http/outgoing-handler@0.2.0"), ImportFamily::WasiHttp);
    assert_eq!(import_family("wasi:http/types@0.2.0"), ImportFamily::WasiHttp);
    assert_eq!(import_family("wasi:cli/stdout@0.2.0"), ImportFamily::Wasi);
    assert_eq!(import_family("wasi:filesystem/preopens@0.2.0"), ImportFamily::Wasi);
    assert_eq!(import_family("wasi:"), ImportFamily::Wasi);
    assert_eq!(import_family("wasi"), ImportFamily::Other);
    assert_eq!(import_family("my:host/clock"), ImportFamily::Other);
    assert_eq!(import_family(""), ImportFamily::Other);
}

#[test]
fn network_need_is_detected_from_imports() {
    assert!(needs_network(&names(&["wasi:io/streams@0.2.0", "wasi:http/types@0.2.0"])));
    assert!(!needs_network(&names(&["wasi:io/streams@0.2.0", "wasi:cli/stdout@0.2.0"])));
    assert!(!needs_network(&Vec::new()));
}

#[test]
fn link_check_names_the_first_missing_import() {
    let caps = CapabilitySet { inherit_stdout: true, outbound_http: false };
    let imports = names(&["wasi:cli/stdout@0.2.0", "wasi:http/types@0.2.0", "acme:db/query"]);
    match check_link(&imports, caps) {
        Err(AppError::Link(m)) => assert_eq!(m, "unsatisfied import: wasi:http/types@0.2.0"),
        other => panic!("unexpected {:?}", other),
    }
    let with_net = CapabilitySet { inherit_stdout: true, outbound_http: true };
    match check_link(&imports, with_net) {
        Err(AppError::Link(m)) => assert_eq!(m, "unsatisfied import: acme:db/query"),
        other => panic!("unexpected {:?}", other),
    }
    assert!(check_link(&names(&["wasi:http/types@0.2.0"]), with_net).is_ok());
}

#[test]
fn network_component_fails_to_link_under_blocking_strategy() {
    let imports = names(&["wasi:cli/stdout@0.2.0", "wasi:http/outgoing-handler@0.2.0"]);
    match check_imports(Strategy::Blocking, &imports) {
        Err(AppError::Link(m)) => assert_eq!(m, "unsatisfied import: wasi:http/outgoing-handler@0.2.0"),
        other => panic!("unexpected {:?}", other),
    }
    let caps = check_imports(Strategy::Cooperative, &imports).unwrap();
    assert_eq!(caps, CapabilitySet { inherit_stdout: true, outbound_http: true });
    let plain = check_imports(Strategy::Cooperative, &names(&["wasi:cli/stdout@0.2.0"])).unwrap();
    assert_eq!(plain, CapabilitySet { inherit_stdout: true, outbound_http: false });
}

#[test]
fn baseline_engine_is_unoptimised_with_debug_info() {
    let s = EngineSettings::baseline();
    assert!(s.component_model && s.debug_info && !s.optimize);
}

#[test]
fn preamble_check() {
    assert!(component_preamble(&EMPTY_COMPONENT));
    assert!(!component_preamble(&EMPTY_COMPONENT[..7]));
    assert!(!component_preamble(&[0, 97, 115, 109, 1, 0, 0, 0]));
    assert!(!component_preamble(b"hello world"));
    assert!(!component_preamble(&[]));
}

#[test]
fn non_binary_bytes_give_compile_error() {
    for bytes in [&b""[..], &b"{\"n\": 10}"[..], &EMPTY_COMPONENT[..5], &[0, 97, 115, 109, 1, 0, 0, 0][..]] {
        match compile(&EngineSettings::baseline(), bytes) {
            Err(AppError::Compile(m)) => assert_eq!(m, "not a component binary"),
            Err(e) => panic!("unexpected {:?}", e),
            Ok(_) => panic!("compiled"),
        }
    }
}

#[test]
fn truncated_component_gives_compile_error() {
    let mut bytes = EMPTY_COMPONENT.to_vec();
    bytes.extend_from_slice(&[1, 200]);
    match compile(&EngineSettings::baseline(), &bytes) {
        Err(AppError::Compile(m)) => assert!(!m.is_empty()),
        Err(e) => panic!("unexpected {:?}", e),
        Ok(_) => panic!("compiled"),
    }
}

#[test]
fn component_exporting_exec_compiles_with_no_imports() {
    let compiled = compile(&EngineSettings::baseline(), &EXEC_COMPONENT).unwrap_or_else(|e| panic!("{:?}", e));
    assert!(compiled.imports.is_empty());
    assert_eq!(compiled.exports, vec!["exec".to_string()]);
}

#[test]
fn component_without_exec_is_a_compile_error() {
    match compile(&EngineSettings::baseline(), &MINIMAL_COMPONENT) {
        Err(AppError::Compile(m)) => assert_eq!(m, "component does not export exec"),
        Err(e) => panic!("unexpected {:?}", e),
        Ok(_) => panic!("compiled"),
    }
}

#[test]
fn every_strict_prefix_is_a_compile_error() {
    for i in 0..EXEC_COMPONENT.len() {
        match compile(&EngineSettings::baseline(), &EXEC_COMPONENT[..i]) {
            Err(AppError::Compile(_)) => {}
            Err(e) => panic!("prefix {}: unexpected {:?}", i, e),
            Ok(_) => panic!("prefix {} compiled", i),
        }
    }
}

#[test]
fn component_without_core_module_is_refused() {
    assert_eq!(scan_sections(&EMPTY_COMPONENT), Some(false));
    match compile(&EngineSettings::baseline(), &EMPTY_COMPONENT) {
        Err(AppError::Compile(m)) => assert_eq!(m, "component carries no core module"),
        Err(e) => panic!("unexpected {:?}", e),
        Ok(_) => panic!("compiled"),
    }
}

#[test]
fn section_scan_frames_and_finds_core_modules() {
    assert_eq!(scan_sections(&MINIMAL_COMPONENT), Some(true));
    assert_eq!(scan_sections(&EXEC_COMPONENT), Some(true));
    // a custom section of three bytes, then an empty core module section
    let mut b = EMPTY_COMPONENT.to_vec();
    b.extend_from_slice(&[0, 3, 1, 120, 9, 1, 0]);
    assert_eq!(scan_sections(&b), Some(true));
    // a section whose size is written in two LEB128 bytes: 130
    let mut long = EMPTY_COMPONENT.to_vec();
    long.extend_from_slice(&[0, 0x82, 0x01]);
    long.extend_from_slice(&[1u8; 130]);
    assert_eq!(scan_sections(&long), Some(false));
    long.extend_from_slice(&[1, 0]);
    assert_eq!(scan_sections(&long), Some(true));
    // a section that runs past the end
    let mut cut = EMPTY_COMPONENT.to_vec();
    cut.extend_from_slice(&[0, 50, 1]);
    assert_eq!(scan_sections(&cut), None);
    match compile(&EngineSettings::baseline(), &cut) {
        Err(AppError::Compile(m)) => assert_eq!(m, "malformed or truncated section"),
        other => panic!("unexpected {:?}", other.err()),
    }
    // a size that never ends
    let mut endless = EMPTY_COMPONENT.to_vec();
    endless.extend_from_slice(&[0, 0x80, 0x80]);
    assert_eq!(scan_sections(&endless), None);
}
