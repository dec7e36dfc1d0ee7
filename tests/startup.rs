use zero_to_prod::startup::ApplicationBaseUrl;

#[test]
fn base_url_prefixes_paths() {
    let base = ApplicationBaseUrl("http://127.0.0.1:8000".to_string());
    assert_eq!(base.url_for("/subscriptions/confirm"), "http://127.0.0.1:8000/subscriptions/confirm");
    assert_eq!(base.0, "http://127.0.0.1:8000");
}
