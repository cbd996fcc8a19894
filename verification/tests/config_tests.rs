use sm::config::Config;

fn all_unset_config() -> Config {
    Config {
        // service monitor
        enable_service_monitor: None,
        api_tests: None,
        frontend_tests: None,
        ssl_tests: None,
        website_monitor_timeout: None,
        pause_reminder_timeout: None,
        times_to_retry: None,
        // telegram
        enable_telegram: None,
        telegram_bot_token: Some("asdfasdf.asdfasdf".to_string()),
        groups: None,
        // api
        host: None,
        port: None,
        api_token: None,
        enable_api: None,
    }
}

#[test]
fn merge_configs_test() {
    let mut config = all_unset_config();

    config = Config::merge_configs_with_defalt(config);

    // service monitor
    assert!(config.enable_service_monitor.is_some());
    assert!(config.api_tests.is_some());
    assert!(config.frontend_tests.is_some());
    assert!(config.ssl_tests.is_some());
    assert!(config.website_monitor_timeout.is_some());
    assert!(config.pause_reminder_timeout.is_some());
    assert!(config.times_to_retry.is_some());
    // telegram
    assert!(config.enable_telegram.is_some());
    assert!(config.telegram_bot_token.is_some());
    assert!(config.groups.is_some());
    // api
    assert!(config.host.is_some());
    assert!(config.port.is_some());
    assert!(config.api_token.is_some());
    assert!(config.enable_api.is_some());
}

#[test]
fn merge_fills_default_values() {
    let config = Config::merge_configs_with_defalt(all_unset_config());

    assert_eq!(config.enable_service_monitor, Some(true));
    assert_eq!(config.website_monitor_timeout, Some(20));
    assert_eq!(config.pause_reminder_timeout, Some(86400));
    assert_eq!(config.times_to_retry, Some(5));
    assert_eq!(config.enable_telegram, Some(true));
    assert_eq!(config.telegram_bot_token, Some("asdfasdf.asdfasdf".to_string()));
    assert_eq!(config.groups, Some(Vec::new()));
    assert_eq!(config.host, Some("127.0.0.1".to_string()));
    assert_eq!(config.port, Some(5353));
    assert_eq!(config.api_token, Some("service_token".to_string()));
    assert_eq!(config.enable_api, Some(true));
    assert!(config.api_tests.unwrap().is_empty());
    assert!(config.frontend_tests.unwrap().is_empty());
    assert!(config.ssl_tests.unwrap().is_empty());
}

#[test]
fn merge_keeps_given_values() {
    let mut config = all_unset_config();
    config.website_monitor_timeout = Some(7);
    config.pause_reminder_timeout = Some(100);
    config.times_to_retry = Some(2);
    config.host = Some("0.0.0.0".to_string());
    config.port = Some(8080);
    config.api_token = Some("custom".to_string());
    config.groups = Some(vec![7, 9]);

    let merged = Config::merge_configs_with_defalt(config);

    assert_eq!(merged.website_monitor_timeout, Some(7));
    assert_eq!(merged.pause_reminder_timeout, Some(100));
    assert_eq!(merged.times_to_retry, Some(2));
    assert_eq!(merged.host, Some("0.0.0.0".to_string()));
    assert_eq!(merged.port, Some(8080));
    assert_eq!(merged.api_token, Some("custom".to_string()));
    assert_eq!(merged.groups, Some(vec![7, 9]));
}
