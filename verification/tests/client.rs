use sumup::{Authorization, Client};

#[test]
fn client_uses_default_base_url() {
    let client = Client::default();
    assert_eq!(client.base_url(), "https://api.sumup.com");
}

#[test]
fn client_with_base_url_overrides_default() {
    let client = Client::default().with_base_url("https://mock.sumup.internal.test");
    assert_eq!(client.base_url(), "https://mock.sumup.internal.test");
}

#[test]
fn client_without_authorization_has_none() {
    assert!(Client::default().authorization().is_none());
}

#[test]
fn client_with_authorization_overrides_value() {
    let client = Client::default().with_authorization(Authorization::api_key("override-token"));
    assert_eq!(client.authorization(), Some("override-token"));
    assert_eq!(client.base_url(), "https://api.sumup.com");
}

#[test]
fn resource_clients_are_bound_to_their_client() {
    let client = Client::default().with_base_url("https://example.test");
    assert_eq!(client.checkouts().client().base_url(), "https://example.test");
    assert_eq!(client.members().client().base_url(), "https://example.test");
    assert_eq!(client.transactions().client().base_url(), "https://example.test");
}

#[test]
fn client_new_reads_the_given_api_key() {
    let client = Client::new(Some("env-token"));
    assert_eq!(client.authorization(), Some("env-token"));
    assert_eq!(client.base_url(), "https://api.sumup.com");
}

#[test]
fn client_new_authorization_can_be_overridden() {
    let client = Client::new(Some("env-token")).with_authorization(Authorization::api_key("override-token"));
    assert_eq!(client.authorization(), Some("override-token"));
}

#[test]
fn client_new_without_api_key_has_no_authorization() {
    assert!(Client::new(None).authorization().is_none());
}
