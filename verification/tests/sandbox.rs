use titan_factory::moat2_sandbox::BurnerSandbox;

#[test]
fn minimal_module_bytes() {
    assert_eq!(
        BurnerSandbox::minimal_valid_wasm(),
        vec![0x00, 0x61, 0x73, 0x6d, 0x01, 0x00, 0x00, 0x00]
    );
}

#[test]
fn minimal_module_runs() {
    assert_eq!(BurnerSandbox::test_execute(&BurnerSandbox::minimal_valid_wasm()), Ok(()));
}

#[test]
fn short_input_is_refused() {
    assert_eq!(
        BurnerSandbox::test_execute(&[0x00, 0x61, 0x73, 0x6d]).unwrap_err(),
        "[MOAT2] WASM payload too small to be a valid module."
    );
    assert_eq!(
        BurnerSandbox::test_execute(&[]).unwrap_err(),
        "[MOAT2] WASM payload too small to be a valid module."
    );
}

#[test]
fn bad_magic_is_refused() {
    assert_eq!(
        BurnerSandbox::test_execute(&[0x00, 0x61, 0x73, 0x6e, 0x01, 0, 0, 0]).unwrap_err(),
        "[MOAT2] Invalid WASM magic header. Module rejected."
    );
}

#[test]
fn engine_rejects_bad_version() {
    let e = BurnerSandbox::test_execute(&[0x00, 0x61, 0x73, 0x6d, 0x07, 0, 0, 0]).unwrap_err();
    assert!(e.starts_with("[MOAT2] WASM compile failed: "), "{e}");
    assert!(e.len() > "[MOAT2] WASM compile failed: ".len());
}

#[test]
fn unresolved_import_fails_instantiation() {
    // A module importing function "env"."f" of type () -> (); the sandbox
    // links nothing.
    let bytes: Vec<u8> = vec![
        0x00, 0x61, 0x73, 0x6d, 0x01, 0x00, 0x00, 0x00, // header
        0x01, 0x04, 0x01, 0x60, 0x00, 0x00, // type section: () -> ()
        0x02, 0x09, 0x01, 0x03, b'e', b'n', b'v', 0x01, b'f', 0x00, 0x00, // import
    ];
    let e = BurnerSandbox::test_execute(&bytes).unwrap_err();
    assert!(e.starts_with("[MOAT2] Instantiation failed: "), "{e}");
}

#[test]
fn trapping_start_function_is_reported() {
    // One function of type () -> () whose body is `unreachable`, marked as start.
    let bytes: Vec<u8> = vec![
        0x00, 0x61, 0x73, 0x6d, 0x01, 0x00, 0x00, 0x00, // header
        0x01, 0x04, 0x01, 0x60, 0x00, 0x00, // type section
        0x03, 0x02, 0x01, 0x00, // function section
        0x08, 0x01, 0x00, // start section
        0x0a, 0x05, 0x01, 0x03, 0x00, 0x00, 0x0b, // code: unreachable; end
    ];
    let e = BurnerSandbox::test_execute(&bytes).unwrap_err();
    assert!(e.starts_with("[MOAT2] Module start/trap: "), "{e}");
}

#[test]
fn startless_runner_declines_modules_with_start() {
    // Same module as the trapping start test: it declares a start section.
    let with_start: Vec<u8> = vec![
        0x00, 0x61, 0x73, 0x6d, 0x01, 0x00, 0x00, 0x00, 0x01, 0x04, 0x01, 0x60, 0x00, 0x00, 0x03,
        0x02, 0x01, 0x00, 0x08, 0x01, 0x00, 0x0a, 0x05, 0x01, 0x03, 0x00, 0x00, 0x0b,
    ];
    assert_eq!(BurnerSandbox::test_execute_startless(&with_start), None);
    assert_eq!(
        BurnerSandbox::test_execute_startless(&BurnerSandbox::minimal_valid_wasm()),
        Some(Ok(()))
    );
    assert_eq!(
        BurnerSandbox::test_execute_startless(&[1, 2, 3]),
        Some(Err("[MOAT2] WASM payload too small to be a valid module.".to_string()))
    );
}

#[test]
fn engine_error_text_is_carried() {
    let e = BurnerSandbox::test_execute(&[0x00, 0x61, 0x73, 0x6d, 0x02, 0, 0, 0]).unwrap_err();
    let detail = &e["[MOAT2] WASM compile failed: ".len()..];
    assert!(!detail.is_empty());
    assert!(!detail.starts_with("[MOAT2]"));
}
