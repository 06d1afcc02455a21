use titan_factory::moat1_translator::{
    FeatureType, TranslatorRejection, StructuredCommand, TranslatorGate, MAX_PATH_LEN,
    MAX_PAYLOAD_BYTES,
};

fn cmd(task_id: usize, payload: &str, path: &str) -> StructuredCommand {
    StructuredCommand {
        task_id,
        target_feature: FeatureType::WriteFile,
        code_payload: payload.to_string(),
        target_path: path.to_string(),
    }
}

const RAW: &str = "  {\"task_id\": 9}\n";

#[test]
fn valid_command_is_admitted_with_assigned_id() {
    let parsed = cmd(99, "fn feature_one() {}", "./output/feature_one.rs");
    let out = TranslatorGate::sanitize_and_translate(RAW, 1, Some(parsed)).unwrap();
    assert_eq!(out.task_id, 1);
    assert_eq!(out.target_feature, FeatureType::WriteFile);
    assert_eq!(out.code_payload, "fn feature_one() {}");
    assert_eq!(out.target_path, "./output/feature_one.rs");
}

#[test]
fn whitespace_only_input_is_empty() {
    let parsed = cmd(1, "x", "./output/a.rs");
    let r = TranslatorGate::sanitize_and_translate(" \t\n\u{3000} ", 1, Some(parsed));
    assert_eq!(r.unwrap_err(), "[MOAT1] Empty input rejected.");
    let r = TranslatorGate::sanitize_and_translate("", 1, None);
    assert_eq!(r.unwrap_err(), TranslatorRejection::EmptyInput.message());
}

#[test]
fn unparsable_input_fails_schema() {
    let r = TranslatorGate::sanitize_and_translate("not json", 3, None);
    assert_eq!(
        r.unwrap_err(),
        "[MOAT1] Schema validation failed. Injection/malformation blocked."
    );
}

#[test]
fn traversal_is_blocked() {
    for path in [
        "../../../etc/passwd",
        "./output/..\\x",
        "./output/.\\x",
        "./output/etc/../x",
        "./output/proc",
        "./output/a/sys",
        "./output/dev",
        "./output/C:\\Windows",
        "./output/x/etc",
    ] {
        let r = TranslatorGate::sanitize_and_translate(RAW, 3, Some(cmd(3, "x", path)));
        assert_eq!(
            r.unwrap_err(),
            "[MOAT1] Directory traversal attempt detected. Blocked.",
            "path {path}"
        );
    }
}

#[test]
fn path_outside_namespace_is_blocked() {
    for path in ["/tmp/x.rs", "output/x.rs", "./outputs/x.rs", "./output"] {
        let r = TranslatorGate::sanitize_and_translate(RAW, 3, Some(cmd(3, "x", path)));
        assert_eq!(
            r.unwrap_err(),
            "[MOAT1] Target path outside allowed ./output/ namespace. Blocked.",
            "path {path}"
        );
    }
}

#[test]
fn payload_limit_counts_bytes() {
    let exact = "a".repeat(MAX_PAYLOAD_BYTES);
    assert!(TranslatorGate::sanitize_and_translate(RAW, 1, Some(cmd(1, &exact, "./output/a"))).is_ok());
    let over = "a".repeat(MAX_PAYLOAD_BYTES + 1);
    assert_eq!(
        TranslatorGate::sanitize_and_translate(RAW, 1, Some(cmd(1, &over, "./output/a"))).unwrap_err(),
        "[MOAT1] Payload exceeds 64KB ceiling. Blocked."
    );
    // 21846 three-byte characters: 65538 bytes, though far fewer characters.
    let wide = "\u{20ac}".repeat(21846);
    assert_eq!(
        TranslatorGate::sanitize_and_translate(RAW, 1, Some(cmd(1, &wide, "./output/a"))).unwrap_err(),
        TranslatorRejection::PayloadTooLarge.message()
    );
}

#[test]
fn path_limit_counts_bytes() {
    let ok_path = format!("./output/{}", "p".repeat(MAX_PATH_LEN - 9));
    assert_eq!(ok_path.len(), MAX_PATH_LEN);
    assert!(TranslatorGate::sanitize_and_translate(RAW, 1, Some(cmd(1, "x", &ok_path))).is_ok());
    let long_path = format!("./output/{}", "p".repeat(MAX_PATH_LEN - 8));
    assert_eq!(
        TranslatorGate::sanitize_and_translate(RAW, 1, Some(cmd(1, "x", &long_path))).unwrap_err(),
        "[MOAT1] Target path exceeds length limit. Blocked."
    );
}

#[test]
fn traversal_is_reported_before_namespace() {
    let r = TranslatorGate::sanitize_and_translate(RAW, 1, Some(cmd(1, "x", "/etc/passwd")));
    assert_eq!(r.unwrap_err(), TranslatorRejection::Traversal.message());
}

#[test]
fn trim_input_strips_unicode_whitespace() {
    assert_eq!(TranslatorGate::trim_input(" \u{2003}\t{\"a\": 1} \u{85}\n"), "{\"a\": 1}");
    assert_eq!(TranslatorGate::trim_input("\u{a0}\u{a0}"), "");
    assert_eq!(TranslatorGate::trim_input("x"), "x");
    assert_eq!(TranslatorGate::trim_input("a b"), "a b");
}

#[test]
fn check_command_reports_first_failure() {
    assert_eq!(TranslatorGate::check_command(&cmd(1, "x", "./output/ok.rs")), None);
    assert_eq!(
        TranslatorGate::check_command(&cmd(1, "x", "./elsewhere")),
        Some(TranslatorRejection::OutsideNamespace)
    );
}

#[test]
fn admitted_command_scenario_of_law() {
    // Any admitted command lies under ./output/ and carries the assigned id.
    let out = TranslatorGate::sanitize_and_translate(RAW, 42, Some(cmd(7, "x", "./output/k.rs"))).unwrap();
    assert!(out.target_path.starts_with("./output/"));
    assert_eq!(out.task_id, 42);
}

#[test]
fn surrounding_whitespace_does_not_change_verdict() {
    let good = || Some(cmd(1, "x", "./output/a.rs"));
    let bad = || Some(cmd(1, "x", "./output/../a.rs"));
    let a = TranslatorGate::sanitize_and_translate("{}", 5, good()).unwrap();
    let b = TranslatorGate::sanitize_and_translate(" \n {} \t", 5, good()).unwrap();
    assert_eq!(a.target_path, b.target_path);
    assert_eq!(a.task_id, b.task_id);
    assert_eq!(
        TranslatorGate::sanitize_and_translate("{}", 5, bad()).unwrap_err(),
        TranslatorGate::sanitize_and_translate("\u{2028}{}\u{3000}", 5, bad()).unwrap_err()
    );
}
