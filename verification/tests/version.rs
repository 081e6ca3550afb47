use sumup::version::{normalize_arch, runtime_info, rustc_version, user_agent, VERSION};

#[test]
fn user_agent_names_the_sdk_and_its_version() {
    assert_eq!(user_agent(), format!("sumup-rs/v{}", VERSION));
}

#[test]
fn normalizes_architecture_names() {
    assert_eq!(normalize_arch("x86_64"), "x86_64");
    assert_eq!(normalize_arch("x86"), "x86");
    assert_eq!(normalize_arch("i686"), "x86");
    assert_eq!(normalize_arch("aarch64"), "arm64");
    assert_eq!(normalize_arch("arm"), "arm");
    assert_eq!(normalize_arch("riscv64"), "riscv64");
}

#[test]
fn runtime_info_includes_expected_headers() {
    let headers = runtime_info("2024-01-01", "linux", "x86_64", None);

    let names: Vec<&str> = headers.iter().map(|(name, _)| *name).collect();
    assert!(names.contains(&"X-Sumup-Api-Version"));
    assert!(names.contains(&"X-SumUp-Lang"));
    assert!(names.contains(&"X-SumUp-Package-Version"));
    assert!(names.contains(&"X-SumUp-Os"));
    assert!(names.contains(&"X-SumUp-Arch"));
    assert!(names.contains(&"X-SumUp-Runtime"));
    assert!(names.contains(&"X-SumUp-Runtime-Version"));
}

#[test]
fn runtime_info_uses_normalized_arch_value() {
    for (arch, expected) in [
        ("x86_64", "x86_64"),
        ("x86", "x86"),
        ("i686", "x86"),
        ("aarch64", "arm64"),
        ("arm", "arm"),
        ("powerpc64", "powerpc64"),
    ] {
        let value = runtime_info("2024-01-01", "linux", arch, None)
            .into_iter()
            .find(|(name, _)| *name == "X-SumUp-Arch")
            .map(|(_, value)| value)
            .expect("runtime info should include X-SumUp-Arch");
        assert_eq!(value, expected);
    }
}

#[test]
fn runtime_info_lists_every_header_value_in_order() {
    let headers = runtime_info("2025-06-30", "macos", "aarch64", Some("1.82.0"));
    let expected: Vec<(&str, String)> = vec![
        ("X-Sumup-Api-Version", "2025-06-30".to_string()),
        ("X-SumUp-Lang", "rust".to_string()),
        ("X-SumUp-Package-Version", VERSION.to_string()),
        ("X-SumUp-Os", "macos".to_string()),
        ("X-SumUp-Arch", "arm64".to_string()),
        ("X-SumUp-Runtime", "rust".to_string()),
        ("X-SumUp-Runtime-Version", "1.82.0".to_string()),
    ];
    assert_eq!(headers, expected);
}

#[test]
fn rustc_version_falls_back_to_unknown() {
    assert_eq!(rustc_version(None), "unknown");
    assert_eq!(rustc_version(Some("1.90.0")), "1.90.0");
}
