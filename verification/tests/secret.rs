use sumup::secret::Secret;

#[test]
fn new_exposes_secret() {
    let password = Secret::new("super-secret");

    assert_eq!(password.secret(), "super-secret");
}

#[test]
fn into_secret_consumes_password() {
    let password = Secret::new("super-secret");

    let secret = password.into_secret();

    assert_eq!(secret, "super-secret");
}

#[test]
fn from_str_constructs_password() {
    let password: Secret = "super-secret".into();

    assert_eq!(password.secret(), "super-secret");
}

#[test]
fn debug_masks_secret() {
    let password = Secret::new("super-secret");
    let debug_output = password.redacted_debug();

    assert_eq!(debug_output, "Secret { secret: \"***\" }");
    assert!(!debug_output.contains("super-secret"));
}

#[test]
fn from_string_constructs_password() {
    let password = Secret::from(String::from("another"));

    assert_eq!(password.secret(), "another");
    assert_eq!(password.clone().into_secret(), "another");
}
