use pleme_notifications::GrafanaClient;

#[test]
fn grafana_client_needs_url_and_key() {
    assert!(GrafanaClient::from_env_values(None, Some("k".to_string())).is_none());
    assert!(GrafanaClient::from_env_values(Some("http://g".to_string()), None).is_none());
    assert!(GrafanaClient::from_env_values(Some(String::new()), Some("k".to_string())).is_none());
    assert!(GrafanaClient::from_env_values(Some("http://g".to_string()), Some(String::new())).is_none());
    let c = GrafanaClient::from_env_values(Some("http://g".to_string()), Some("key".to_string())).unwrap();
    assert_eq!(c.base_url(), "http://g");
    assert_eq!(c.api_key(), "key");
}

#[test]
fn annotation_url_trims_trailing_slashes() {
    let c = GrafanaClient::new("https://grafana.example.com//".to_string(), "k".to_string()).unwrap();
    assert_eq!(c.annotation_url(), "https://grafana.example.com/api/annotations");
    let c = GrafanaClient::new("https://grafana.example.com".to_string(), "k".to_string()).unwrap();
    assert_eq!(c.annotation_url(), "https://grafana.example.com/api/annotations");
    let c = GrafanaClient::new("/".to_string(), "k".to_string()).unwrap();
    assert_eq!(c.annotation_url(), "/api/annotations");
}

#[test]
fn annotation_carries_text_and_tags() {
    let c = GrafanaClient::new("http://g".to_string(), "k".to_string()).unwrap();
    let a = c.annotation("deployed", vec!["service:x".to_string()]);
    assert_eq!(a.text, "deployed");
    assert_eq!(a.tags, vec!["service:x".to_string()]);
    assert!(a.time > 0);
}

#[test]
fn client_from_parts() {
    let c = GrafanaClient::with_http_client(reqwest::Client::new(), "http://g/".to_string(), "key".to_string());
    assert_eq!(c.base_url(), "http://g/");
    assert_eq!(c.api_key(), "key");
    assert_eq!(c.annotation_url(), "http://g/api/annotations");
}
