use sumup::samples::{
    check_catalog, escape_path, format_elapsed, sample_file_name, sample_manifest, CatalogError,
};

fn ids(list: &[&str]) -> Vec<String> {
    list.iter().map(|s| s.to_string()).collect()
}

#[test]
fn accepts_deterministic_sorted_catalog() {
    let json = br#"{"samples":[]}"#;
    assert_eq!(check_catalog(json, json, &ids(&["a.list", "b.create", "b.get"])), Ok(()));
}

#[test]
fn refuses_catalogs_that_differ_between_runs() {
    assert_eq!(
        check_catalog(b"{}", b"{ }", &ids(&["a"])),
        Err(CatalogError::NotDeterministic)
    );
}

#[test]
fn refuses_empty_catalog() {
    assert_eq!(check_catalog(b"[]", b"[]", &[]), Err(CatalogError::Empty));
}

#[test]
fn refuses_duplicated_or_unsorted_ids() {
    assert_eq!(
        check_catalog(b"x", b"x", &ids(&["a", "a"])),
        Err(CatalogError::UnsortedIds)
    );
    assert_eq!(
        check_catalog(b"x", b"x", &ids(&["b", "a"])),
        Err(CatalogError::UnsortedIds)
    );
    assert_eq!(
        check_catalog(b"x", b"x", &ids(&["ab", "a"])),
        Err(CatalogError::UnsortedIds)
    );
    assert_eq!(check_catalog(b"x", b"x", &ids(&["a", "ab", "b"])), Ok(()));
    assert_eq!(check_catalog(b"x", b"x", &ids(&["z", "é"])), Ok(()));
}

#[test]
fn id_order_agrees_with_string_order() {
    let samples = ["", "a", "ab", "b", "B", "é", "z", "zz", "€"];
    for x in samples {
        for y in samples {
            let verdict = check_catalog(b"x", b"x", &ids(&[x, y]));
            assert_eq!(verdict.is_ok(), x < y, "{x:?} {y:?}");
        }
    }
}

#[test]
fn catalog_error_messages() {
    assert_eq!(
        CatalogError::NotDeterministic.message(),
        "Code sample generation is not deterministic"
    );
    assert_eq!(CatalogError::Empty.message(), "Code sample catalog is empty");
    assert_eq!(
        CatalogError::UnsortedIds.message(),
        "Code sample IDs are duplicated or unsorted"
    );
}

#[test]
fn sample_file_names_are_zero_padded() {
    for index in [0usize, 7, 42, 999, 1000, 123456] {
        assert_eq!(sample_file_name(index), format!("sample_{index:03}.rs"));
    }
    assert_eq!(sample_file_name(7), "sample_007.rs");
}

#[test]
fn elapsed_time_has_seconds_and_padded_milliseconds() {
    for micros in [0u64, 999, 1_000, 1_234_567, 12_005_000, 60_000_001] {
        let expected = format!("{}.{:03}s", micros / 1_000_000, (micros % 1_000_000) / 1_000);
        assert_eq!(format_elapsed(micros), expected);
    }
    assert_eq!(format_elapsed(1_234_567), "1.234s");
}

#[test]
fn backslashes_are_doubled() {
    assert_eq!(escape_path(r"C:\work\sdk"), r"C:\\work\\sdk");
    assert_eq!(escape_path("/home/dev/sdk"), "/home/dev/sdk");
    assert_eq!(escape_path(r"\\"), r"\\\\");
    assert_eq!(escape_path(""), "");
}

#[test]
fn sample_manifest_depends_on_the_local_sdk() {
    let sdk_path = r"C:\src\sdk";
    let expected = format!(
        "[package]\nname = \"sumup-generated-code-samples\"\nversion = \"0.0.0\"\nedition = \"2024\"\npublish = false\n\n[workspace]\n\n[dependencies]\nsumup = {{ path = \"{}\", default-features = false, features = [\"chrono\"] }}\nserde_json = \"1.0\"\ntokio = {{ version = \"1\", features = [\"macros\", \"rt-multi-thread\"] }}\n",
        sdk_path.replace('\\', "\\\\")
    );
    assert_eq!(sample_manifest(sdk_path), expected);
}
