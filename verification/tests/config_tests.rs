use spider_worker::config::{config, Config, Error};

#[test]
fn load_from_env_reads_both_values() {
    let c = Config::load_from_env(Some("key-123".to_string()), Some("http://web:8000".to_string())).unwrap();
    assert_eq!(c.GOOGLE_PLACES_API, "key-123");
    assert_eq!(c.WEB_SERVER_URL, "http://web:8000");
}

#[test]
fn load_from_env_reports_missing_places_key_first() {
    match Config::load_from_env(None, None) {
        Err(Error::ParamNotInEnv(p)) => assert_eq!(p, "GOOGLE_PLACES_API"),
        Ok(_) => panic!("expected an error"),
    }
}

#[test]
fn load_from_env_reports_missing_web_server_url() {
    match Config::load_from_env(Some("k".to_string()), None) {
        Err(Error::ParamNotInEnv(p)) => assert_eq!(p, "WEB_SERVER_URL"),
        Ok(_) => panic!("expected an error"),
    }
}

#[test]
fn config_holds_the_values() {
    let c = config(Some("abc".to_string()), Some("http://x".to_string()));
    assert_eq!(c.GOOGLE_PLACES_API, "abc");
    assert_eq!(c.WEB_SERVER_URL, "http://x");
}
