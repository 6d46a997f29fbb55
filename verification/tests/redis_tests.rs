use barflow_controller::redis_connect::{connection_url, open_client, uri_scheme};

#[test]
fn scheme_follows_tls() {
    assert_eq!(uri_scheme(true), "rediss");
    assert_eq!(uri_scheme(false), "redis");
}

#[test]
fn url_carries_password_and_host() {
    assert_eq!(connection_url(false, "s3cret", "cache:6379"), "redis://:s3cret@cache:6379");
    assert_eq!(connection_url(true, "pw", "cache.example"), "rediss://:pw@cache.example");
}

#[test]
fn url_with_empty_password() {
    assert_eq!(connection_url(false, "", "localhost"), "redis://:@localhost");
}

#[test]
fn client_opens_for_a_host() {
    assert!(open_client(false, "pw", "localhost:6379").is_ok());
}

#[test]
fn client_refuses_wildcard_host() {
    assert!(open_client(false, "pw", "0.0.0.0").is_err());
}

#[test]
fn client_refuses_url_without_host() {
    assert!(open_client(false, "pw", "").is_err());
}
