use titan_factory::moat3_inspector::{blacklist_entry, CodeInspector, BLACKLIST_LEN};

#[test]
fn clean_code_passes() {
    let r = CodeInspector::inspect("fn feature_one() { println!(\"Feature One deployed.\"); }");
    assert!(r.passed);
    assert!(r.violations.is_empty());
}

#[test]
fn process_command_is_blocked() {
    let r = CodeInspector::inspect(
        "use std::process::Command; fn evil() { Command::new(\"rm\").spawn().unwrap(); }",
    );
    assert!(!r.passed);
    assert_eq!(
        r.violations,
        vec![
            "[MOAT3] BLOCKED \u{2014} EXEC: shell command spawning forbidden (token: `std::process::Command`)"
                .to_string()
        ]
    );
}

#[test]
fn violations_follow_blacklist_order() {
    let r = CodeInspector::inspect("ptrace(); chmod 777; include_str!(\"/etc/shadow\"); /dev/kmem");
    assert!(!r.passed);
    assert_eq!(
        r.violations,
        vec![
            "[MOAT3] BLOCKED \u{2014} MEM:  kernel memory access forbidden (token: `/dev/kmem`)".to_string(),
            "[MOAT3] BLOCKED \u{2014} PRIV: chmod syscall pattern forbidden (token: `chmod`)".to_string(),
            "[MOAT3] BLOCKED \u{2014} PRIV: ptrace debugging attach forbidden (token: `ptrace`)".to_string(),
            "[MOAT3] BLOCKED \u{2014} FS:   /etc file inclusion forbidden (token: `include_str!(\"/etc`)".to_string(),
        ]
    );
}

#[test]
fn every_token_is_caught_alone() {
    for i in 0..BLACKLIST_LEN {
        let (token, reason) = blacklist_entry(i);
        let code = format!("prefix {token} suffix");
        let r = CodeInspector::inspect(&code);
        assert!(!r.passed, "token {token}");
        assert!(r.violations.contains(&format!(
            "[MOAT3] BLOCKED \u{2014} {reason} (token: `{token}`)"
        )));
    }
}

#[test]
fn one_token_repeated_gives_one_violation() {
    let r = CodeInspector::inspect("setuid(0); setuid(0);");
    assert_eq!(r.violations.len(), 1);
}

#[test]
fn near_misses_pass() {
    let r = CodeInspector::inspect("std::net::TcpListene; /dev/me; chmo");
    assert!(r.passed);
}

#[test]
fn surrounding_text_keeps_violations() {
    let inner = "x.chmod(); mprotect(p)";
    let outer = format!("fn wrap() {{ {inner} }} // more text");
    let a = CodeInspector::inspect(inner);
    let b = CodeInspector::inspect(&outer);
    assert!(!a.passed && !b.passed);
    for v in &a.violations {
        assert!(b.violations.contains(v));
    }
}
