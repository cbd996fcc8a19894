//! Plain data carried between the notification channel and the monitor.

use vstd::prelude::*;

verus! {

/// A page of inbound updates returned by one poll request.
#[derive(Clone, Debug)]
pub struct GetUpdatesRes {
    pub result: Vec<Update>,
}

/// One inbound update; its identifier is the polling cursor's unit.
#[derive(Clone, Debug)]
pub struct Update {
    pub update_id: i64,
    pub message: Option<Message>,
}

/// An inbound chat message, possibly annotated with entities.
#[derive(Clone, Debug)]
pub struct Message {
    pub chat: Chat,
    pub text: Option<String>,
    pub entities: Option<Vec<MessageEntity>>,
}

/// The chat a message arrived from.
#[derive(Clone, Debug)]
pub struct Chat {
    pub id: i64,
}

/// One annotated span of a message, `[offset, offset + length)` in
/// characters, tagged with its kind.
#[derive(Clone, Debug)]
pub struct MessageEntity {
    pub type_value: String,
    pub offset: i64,
    pub length: i64,
}

/// The payload of one outbound message.
#[derive(Clone, Debug)]
pub struct SendMessageBody {
    pub chat_id: i64,
    pub text: String,
    pub parse_mode: String,
}

/// The payload that declares the bot's command list.
#[derive(Clone, Debug)]
pub struct SetMyCommandsBody {
    pub commands: Vec<BotCommand>,
}

/// The channel's answer to a command-list read-back.
#[derive(Clone, Debug)]
pub struct GetMyCommandsRes {
    pub ok: bool,
    pub result: Vec<BotCommand>,
}

/// One command descriptor declared to the channel.
#[derive(Clone, Debug)]
pub struct BotCommand {
    pub command: String,
    pub description: String,
}

} // verus!
