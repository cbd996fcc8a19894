use sm::config::Config;
use sm::monitor::telegram::models::{SetMyCommandsBody, Update};
use sm::monitor::telegram::{
    absorb_batch, default_commands, send_message_body_json, set_my_commands_body_json,
    RetryDecision, RetryState, TelegramRequest, TelegramService,
};

fn config_with_token() -> Config {
    Config {
        // service monitor
        enable_service_monitor: None,
        api_tests: None,
        frontend_tests: None,
        ssl_tests: None,
        website_monitor_timeout: None,
        pause_reminder_timeout: None,
        times_to_retry: Some(5),
        // telegram
        enable_telegram: None,
        telegram_bot_token: Some("TOKEN".to_string()),
        groups: Some(vec![11, 22]),
        // api
        host: None,
        port: None,
        api_token: None,
        enable_api: None,
    }
}

fn update(id: i64) -> Update {
    Update { update_id: id, message: None }
}

#[test]
fn retry_accepts_success_at_once() {
    let mut retry = RetryState::new(5);
    assert_eq!(retry.step(true), RetryDecision::Accept);
}

#[test]
fn retry_gives_up_after_the_budget() {
    let mut retry = RetryState::new(3);
    assert_eq!(retry.step(false), RetryDecision::Retry);
    assert_eq!(retry.step(false), RetryDecision::Retry);
    assert_eq!(retry.step(false), RetryDecision::GiveUp);
}

#[test]
fn retry_accepts_late_success_within_budget() {
    let mut retry = RetryState::new(3);
    assert_eq!(retry.step(false), RetryDecision::Retry);
    assert_eq!(retry.step(true), RetryDecision::Accept);
}

#[test]
fn exhausted_send_is_queued_and_drained_once() {
    let mut service = TelegramService::new(config_with_token());

    let send = service.build_send_message_request(11, "hello");
    service.record_exhausted(send);
    let poll = TelegramRequest::Get { url: "https://api.telegram.org/botTOKEN/getUpdates".to_string() };
    service.record_exhausted(poll);

    let batch = service.drain_pending();
    assert_eq!(batch.len(), 1);
    assert!(matches!(batch[0], TelegramRequest::Post { .. }));

    // The queue is empty afterwards: a second cycle drains nothing.
    assert!(service.drain_pending().is_empty());
}

#[test]
fn poll_cursor_advances_past_each_batch() {
    let mut acc: Vec<Update> = Vec::new();
    let mut offset: i64 = 0;

    let more = absorb_batch(&mut acc, &mut offset, vec![update(1), update(2)]);
    assert!(more);
    assert_eq!(offset, 3);

    let more = absorb_batch(&mut acc, &mut offset, vec![update(3)]);
    assert!(more);
    assert_eq!(offset, 4);

    let more = absorb_batch(&mut acc, &mut offset, Vec::new());
    assert!(!more);
    assert_eq!(offset, 4);

    let ids: Vec<i64> = acc.iter().map(|u| u.update_id).collect();
    assert_eq!(ids, vec![1, 2, 3]);
}

#[test]
fn routes_are_built_on_the_token_url() {
    let service = TelegramService::new(config_with_token());
    assert_eq!(
        service.get_updates_route(100, 0),
        "https://api.telegram.org/botTOKEN/getUpdates?allowed_updates=[\"message\"]&limit=100&offset=0"
    );
    assert_eq!(
        service.get_updates_route(100, 42),
        "https://api.telegram.org/botTOKEN/getUpdates?allowed_updates=[\"message\"]&limit=100&offset=42"
    );
    assert_eq!(service.send_message_route(), "https://api.telegram.org/botTOKEN/sendMessage");
    assert_eq!(service.set_commands_route(), "https://api.telegram.org/botTOKEN/setMyCommands");
    assert_eq!(service.get_commands_route(), "https://api.telegram.org/botTOKEN/getMyCommands");
}

#[test]
fn explicit_targets_win_over_default_groups() {
    let service = TelegramService::new(config_with_token());
    assert_eq!(service.resolve_targets(&Some(vec![5])), vec![5]);
    assert_eq!(service.resolve_targets(&None), vec![11, 22]);
}

#[test]
fn send_message_body_is_compact_json() {
    assert_eq!(
        send_message_body_json(42, "hi"),
        "{\"chat_id\":42,\"text\":\"hi\",\"parse_mode\":\"markdown\"}"
    );
    assert_eq!(
        send_message_body_json(-7, "a\"b\\c\nd"),
        "{\"chat_id\":-7,\"text\":\"a\\\"b\\\\c\\nd\",\"parse_mode\":\"markdown\"}"
    );
}

#[test]
fn send_message_request_carries_route_body_and_content_type() {
    let service = TelegramService::new(config_with_token());
    match service.build_send_message_request(11, "hello") {
        TelegramRequest::Post { url, body, content_type } => {
            assert_eq!(url, "https://api.telegram.org/botTOKEN/sendMessage");
            assert_eq!(body, "{\"chat_id\":11,\"text\":\"hello\",\"parse_mode\":\"markdown\"}");
            assert_eq!(content_type, "application/json");
        },
        TelegramRequest::Get { .. } => panic!("a send must be a POST"),
    }
}

#[test]
fn default_commands_cover_the_table() {
    let commands = default_commands();
    let names: Vec<&str> = commands.iter().map(|c| c.command.as_str()).collect();
    assert_eq!(
        names,
        vec!["/check_all", "/check_api", "/check_frontend", "/check_certs", "/pause", "/unpause"]
    );
    assert_eq!(commands[0].description, "Validate all.");
    assert_eq!(commands[5].description, "Unpause validations.");
}

#[test]
fn command_list_body_is_compact_json() {
    let payload = SetMyCommandsBody { commands: default_commands() };
    let body = set_my_commands_body_json(&payload);
    assert_eq!(
        body,
        "{\"commands\":[\
         {\"command\":\"/check_all\",\"description\":\"Validate all.\"},\
         {\"command\":\"/check_api\",\"description\":\"Validate api.\"},\
         {\"command\":\"/check_frontend\",\"description\":\"Validate frontend.\"},\
         {\"command\":\"/check_certs\",\"description\":\"Validate certificates.\"},\
         {\"command\":\"/pause\",\"description\":\"Pause validations.\"},\
         {\"command\":\"/unpause\",\"description\":\"Unpause validations.\"}\
         ]}"
    );
}
