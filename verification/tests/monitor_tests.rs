use sm::monitor::{
    actions_for_command, commands_in_message, commands_in_update, extract_command,
    pause_reminder_text, Action, MonitorStep, PauseState, Validator,
};
use sm::monitor::telegram::models::{Chat, Message, MessageEntity, Update};

#[test]
fn extract_command_test() {
    assert_eq!(
        "/check_all",
        extract_command("/check_all@monitor_bc_bot".to_string())
    );
    assert_eq!("/check_all", extract_command("/check_all".to_string()));
}

#[test]
fn extract_command_strips_every_table_entry() {
    let commands = vec![
        "/check_all",
        "/check_api",
        "/check_frontend",
        "/check_certs",
        "/pause",
        "/unpause",
    ];
    for c in commands {
        let addressed = format!("{}@anyname", c);
        assert_eq!(c, extract_command(addressed));
        assert_eq!(c, extract_command(c.to_string()));
    }
}

#[test]
fn actions_for_each_command() {
    assert_eq!(
        actions_for_command("/check_all", 5),
        vec![
            Action::RunApiCheck { chat_id: 5 },
            Action::RunFrontendCheck { chat_id: 5 },
            Action::RunCertsCheck { chat_id: 5 },
        ]
    );
    assert_eq!(
        actions_for_command("/check_api", 5),
        vec![Action::RunApiCheck { chat_id: 5 }]
    );
    assert_eq!(
        actions_for_command("/check_frontend", 5),
        vec![Action::RunFrontendCheck { chat_id: 5 }]
    );
    assert_eq!(
        actions_for_command("/check_certs", 5),
        vec![Action::RunCertsCheck { chat_id: 5 }]
    );
    assert_eq!(
        actions_for_command("/pause", 5),
        vec![Action::SetPause { chat_id: 5 }]
    );
    assert_eq!(
        actions_for_command("/unpause", 5),
        vec![Action::SetUnpause { chat_id: 5 }]
    );
    assert_eq!(actions_for_command("/something_else", 5), Vec::new());
}

#[test]
fn commands_extracted_from_message_entities() {
    let text = "hi /check_api@bot there".to_string();
    let entities = vec![
        MessageEntity {
            type_value: "bot_command".to_string(),
            offset: 3,
            length: 15,
        },
        MessageEntity {
            type_value: "mention".to_string(),
            offset: 0,
            length: 2,
        },
    ];
    let commands = commands_in_message(&text, &entities);
    assert_eq!(commands, vec!["/check_api".to_string()]);
}

#[test]
fn out_of_range_entity_is_ignored() {
    let text = "/pause".to_string();
    let entities = vec![
        MessageEntity {
            type_value: "bot_command".to_string(),
            offset: 0,
            length: 600,
        },
        MessageEntity {
            type_value: "bot_command".to_string(),
            offset: 0,
            length: 6,
        },
    ];
    let commands = commands_in_message(&text, &entities);
    assert_eq!(commands, vec!["/pause".to_string()]);
}

#[test]
fn update_without_entities_has_no_commands() {
    let update = Update {
        update_id: 1,
        message: Some(Message {
            chat: Chat { id: 4 },
            text: Some("plain words".to_string()),
            entities: None,
        }),
    };
    assert!(commands_in_update(&update).is_empty());

    let bare = Update { update_id: 2, message: None };
    assert!(commands_in_update(&bare).is_empty());
}

#[test]
fn update_with_command_entity_dispatches() {
    let update = Update {
        update_id: 3,
        message: Some(Message {
            chat: Chat { id: 44 },
            text: Some("/check_all@monitor_bc_bot".to_string()),
            entities: Some(vec![MessageEntity {
                type_value: "bot_command".to_string(),
                offset: 0,
                length: 25,
            }]),
        }),
    };
    let commands = commands_in_update(&update);
    assert_eq!(commands, vec!["/check_all".to_string()]);
}

#[test]
fn format_report_empty_uses_fallback() {
    let report = Validator::handler_errors(&Vec::new(), "OK".to_string());
    assert_eq!(report, "OK");
}

#[test]
fn format_report_joins_lines_with_newlines() {
    let errs = vec!["a".to_string(), "b".to_string()];
    let report = Validator::handler_errors(&errs, "OK".to_string());
    assert_eq!(report, "a\nb\n");
}

#[test]
fn validation_with_success_message_always_sends() {
    let validator = Validator::new();
    let sent = validator.handler_validation(&Vec::new(), Some("all good".to_string()));
    assert_eq!(sent, Some("all good".to_string()));

    let errs = vec!["bad".to_string()];
    let sent = validator.handler_validation(&errs, Some("all good".to_string()));
    assert_eq!(sent, Some("bad\n".to_string()));
}

#[test]
fn validation_without_success_message_is_silent_on_success() {
    let validator = Validator::new();
    assert_eq!(validator.handler_validation(&Vec::new(), None), None);

    let errs = vec!["bad".to_string(), "worse".to_string()];
    let sent = validator.handler_validation(&errs, None);
    assert_eq!(sent, Some("bad\nworse\n".to_string()));
}

#[test]
fn paused_cycles_accumulate_and_remind_once() {
    let mut state = PauseState::new();
    assert!(!state.is_paused());
    assert_eq!(state.monitor_tick(20, 60), MonitorStep::Probe);

    state.set_paused(true);
    assert!(state.is_paused());

    // Three probe intervals of 20 reach the reminder interval of 60.
    assert_eq!(state.monitor_tick(20, 60), MonitorStep::Skip);
    assert_eq!(state.elapsed_while_paused, 20);
    assert_eq!(state.monitor_tick(20, 60), MonitorStep::Skip);
    assert_eq!(state.elapsed_while_paused, 40);
    assert_eq!(state.monitor_tick(20, 60), MonitorStep::Reminder);
    assert_eq!(state.elapsed_while_paused, 0);

    // The accumulator starts over: no second reminder right away.
    assert_eq!(state.monitor_tick(20, 60), MonitorStep::Skip);
    assert_eq!(state.elapsed_while_paused, 20);
}

#[test]
fn unpausing_resets_the_accumulator() {
    let mut state = PauseState::new();
    state.set_paused(true);
    assert_eq!(state.monitor_tick(20, 1000), MonitorStep::Skip);
    assert_eq!(state.elapsed_while_paused, 20);

    state.set_paused(false);
    assert_eq!(state.elapsed_while_paused, 0);
    assert_eq!(state.monitor_tick(20, 1000), MonitorStep::Probe);
}

#[test]
fn reminder_text_names_the_pause() {
    assert_eq!(pause_reminder_text(), "⚠️ REMINDER\nService monitor is in pause.");
}
