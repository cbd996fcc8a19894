//! The configuration snapshot shared by every loop, and the merge that
//! fills each missing field with its default.

use vstd::prelude::*;
use crate::monitor::website::{Get, RouteTest};

verus! {

/// The process configuration. Every field is optional as read; the merge
/// below fills the gaps, except the bot token, which has no default.
#[derive(Clone, Debug)]
pub struct Config {
    // service monitor
    pub enable_service_monitor: Option<bool>,
    pub api_tests: Option<Vec<RouteTest>>,
    pub frontend_tests: Option<Vec<RouteTest>>,
    pub ssl_tests: Option<Vec<Get>>,
    pub website_monitor_timeout: Option<u64>,
    pub pause_reminder_timeout: Option<u64>,
    pub times_to_retry: Option<i64>,
    // telegram
    pub enable_telegram: Option<bool>,
    pub telegram_bot_token: Option<String>,
    pub groups: Option<Vec<i64>>,
    // api
    pub enable_api: Option<bool>,
    pub host: Option<String>,
    pub port: Option<u32>,
    pub api_token: Option<String>,
}

/// A given value, or the default where none was given.
pub open spec fn merge_field<T>(given: Option<T>, default: Option<T>) -> Option<T> {
    if given is Some {
        given
    } else {
        default
    }
}

impl Default for Config {
    /// The defaults: monitoring on, empty probe lists, a 20 second probe
    /// interval, a reminder once a day, five attempts per request, no bot
    /// token, and the loopback webhook endpoint.
    fn default() -> (r: Config)
        ensures
            r.enable_service_monitor == Some(true),
            (r.api_tests matches Some(v) && v@ == Seq::<RouteTest>::empty()),
            (r.frontend_tests matches Some(v) && v@ == Seq::<RouteTest>::empty()),
            (r.ssl_tests matches Some(v) && v@ == Seq::<Get>::empty()),
            r.website_monitor_timeout == Some(20u64),
            r.pause_reminder_timeout == Some(86400u64),
            r.times_to_retry == Some(5i64),
            r.enable_telegram == Some(true),
            r.telegram_bot_token is None,
            (r.groups matches Some(v) && v@ == Seq::<i64>::empty()),
            r.enable_api == Some(true),
            (r.host matches Some(h) && h@ == "127.0.0.1"@),
            r.port == Some(5353u32),
            (r.api_token matches Some(t) && t@ == "service_token"@),
    {
        Config {
            // service monitor
            enable_service_monitor: Some(true),
            api_tests: Some(Vec::new()),
            frontend_tests: Some(Vec::new()),
            ssl_tests: Some(Vec::new()),
            website_monitor_timeout: Some(20),
            pause_reminder_timeout: Some(86400),
            times_to_retry: Some(5),
            // telegram
            enable_telegram: Some(true),
            telegram_bot_token: None,
            groups: Some(Vec::new()),
            // api
            enable_api: Some(true),
            host: Some(String::from_str("127.0.0.1")),
            port: Some(5353),
            api_token: Some(String::from_str("service_token")),
        }
    }
}

impl Config {
    /// Fills every missing field with its default; a given field is kept
    /// exactly as it was. The bot token has no default and stays as given.
    pub fn merge_configs_with_defalt(config: Config) -> (r: Config)
        ensures
            r.enable_service_monitor == merge_field(config.enable_service_monitor, Some(true)),
            config.api_tests is Some ==> r.api_tests == config.api_tests,
            config.api_tests is None ==> (r.api_tests matches Some(v) && v@ == Seq::<
                RouteTest,
            >::empty()),
            config.frontend_tests is Some ==> r.frontend_tests == config.frontend_tests,
            config.frontend_tests is None ==> (r.frontend_tests matches Some(v) && v@ == Seq::<
                RouteTest,
            >::empty()),
            config.ssl_tests is Some ==> r.ssl_tests == config.ssl_tests,
            config.ssl_tests is None ==> (r.ssl_tests matches Some(v) && v@ == Seq::<Get>::empty()),
            r.website_monitor_timeout == merge_field(config.website_monitor_timeout, Some(20u64)),
            r.pause_reminder_timeout == merge_field(config.pause_reminder_timeout, Some(86400u64)),
            r.times_to_retry == merge_field(config.times_to_retry, Some(5i64)),
            r.enable_telegram == merge_field(config.enable_telegram, Some(true)),
            r.telegram_bot_token == config.telegram_bot_token,
            config.groups is Some ==> r.groups == config.groups,
            config.groups is None ==> (r.groups matches Some(v) && v@ == Seq::<i64>::empty()),
            r.enable_api == merge_field(config.enable_api, Some(true)),
            config.host is Some ==> r.host == config.host,
            config.host is None ==> (r.host matches Some(h) && h@ == "127.0.0.1"@),
            r.port == merge_field(config.port, Some(5353u32)),
            config.api_token is Some ==> r.api_token == config.api_token,
            config.api_token is None ==> (r.api_token matches Some(t) && t@ == "service_token"@),
    {
        let mut config = config;
        let default = Config::default();
        // service monitor
        if config.enable_service_monitor.is_none() {
            config.enable_service_monitor = default.enable_service_monitor;
        }
        if config.api_tests.is_none() {
            config.api_tests = default.api_tests;
        }
        if config.frontend_tests.is_none() {
            config.frontend_tests = default.frontend_tests;
        }
        if config.website_monitor_timeout.is_none() {
            config.website_monitor_timeout = default.website_monitor_timeout;
        }
        if config.ssl_tests.is_none() {
            config.ssl_tests = default.ssl_tests;
        }
        if config.pause_reminder_timeout.is_none() {
            config.pause_reminder_timeout = default.pause_reminder_timeout;
        }
        if config.times_to_retry.is_none() {
            config.times_to_retry = default.times_to_retry;
        }
        // telegram
        if config.enable_telegram.is_none() {
            config.enable_telegram = default.enable_telegram;
        }
        if config.groups.is_none() {
            config.groups = default.groups;
        }
        // api
        if config.host.is_none() {
            config.host = default.host;
        }
        if config.port.is_none() {
            config.port = default.port;
        }
        if config.api_token.is_none() {
            config.api_token = default.api_token;
        }
        if config.enable_api.is_none() {
            config.enable_api = default.enable_api;
        }
        config
    }
}

} // verus!
