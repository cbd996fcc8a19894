//! The notification client: the polling cursor and its merge law, the
//! bounded retry policy with its pending queue, and the routes and JSON
//! payloads of the channel's REST boundary.

use vstd::prelude::*;
use vstd::string::*;
use crate::config::Config;
use crate::monitor::telegram::models::{BotCommand, SetMyCommandsBody, Update};
use crate::text::{dec_str, dec_str_signed, i64_to_string, json_escape, json_escape_string, u64_to_string};

pub mod models;

verus! {

/// One outbound call to the channel, kept whole so an exhausted send can be
/// queued and retried on a later cycle.
#[derive(Clone, Debug)]
pub enum TelegramRequest {
    Post { url: String, body: String, content_type: String },
    Get { url: String },
}

/// What the retry loop does after one more attempt.
#[derive(Clone, Copy, Debug, PartialEq, Eq, Structural)]
pub enum RetryDecision {
    Accept,
    Retry,
    GiveUp,
}

/// The decision after attempt number `times` of a budget of
/// `times_to_retry` attempts: success is accepted at once, failure is
/// retried until the budget is spent.
pub open spec fn retry_decision_spec(times: int, times_to_retry: int, succeeded: bool) -> RetryDecision {
    if succeeded {
        RetryDecision::Accept
    } else if times >= times_to_retry {
        RetryDecision::GiveUp
    } else {
        RetryDecision::Retry
    }
}

/// The attempt counter of one bounded retry of a single request.
pub struct RetryState {
    pub times: i64,
    pub times_to_retry: i64,
}

impl RetryState {
    pub fn new(times_to_retry: i64) -> (r: RetryState)
        ensures
            r.times == 0,
            r.times_to_retry == times_to_retry,
    {
        RetryState { times: 0, times_to_retry }
    }

    /// Counts one attempt and decides what to do with its outcome.
    pub fn step(&mut self, succeeded: bool) -> (d: RetryDecision)
        requires
            old(self).times < i64::MAX,
        ensures
            final(self).times == old(self).times + 1,
            final(self).times_to_retry == old(self).times_to_retry,
            d == retry_decision_spec(
                old(self).times + 1,
                old(self).times_to_retry as int,
                succeeded,
            ),
    {
        self.times = self.times + 1;
        if succeeded {
            RetryDecision::Accept
        } else if self.times >= self.times_to_retry {
            RetryDecision::GiveUp
        } else {
            RetryDecision::Retry
        }
    }
}

/// Whether the identifiers of a sequence of updates strictly increase.
pub open spec fn ids_strictly_increasing(s: Seq<Update>) -> bool {
    forall|i: int, j: int| 0 <= i < j < s.len() ==> s[i].update_id < s[j].update_id
}

/// The flattening of a polling session's batches, batch order and
/// batch-internal order both kept.
pub open spec fn merged_batches(batches: Seq<Seq<Update>>) -> Seq<Update>
    decreases batches.len(),
{
    if batches.len() == 0 {
        Seq::empty()
    } else {
        batches.first() + merged_batches(batches.drop_first())
    }
}

/// What the channel guarantees of a polling session: every batch is
/// non-empty and internally ordered, and each batch starts past the
/// identifier its predecessor was acknowledged up to.
pub open spec fn well_formed_poll(batches: Seq<Seq<Update>>) -> bool {
    &&& forall|k: int|
        0 <= k < batches.len() ==> (#[trigger] batches[k]).len() > 0 && ids_strictly_increasing(
            batches[k],
        )
    &&& forall|k: int|
        0 <= k < batches.len() - 1 ==> (#[trigger] batches[k + 1]).first().update_id
            > batches[k].last().update_id
}

/// Law: in an ordered batch the cursor value, one past the last
/// identifier, is one past the greatest identifier of the batch.
pub proof fn lemma_cursor_is_max_plus_one(batch: Seq<Update>)
    requires
        batch.len() > 0,
        ids_strictly_increasing(batch),
    ensures
        forall|i: int| 0 <= i < batch.len() ==> (#[trigger] batch[i]).update_id <= batch.last().update_id,
{
    assert forall|i: int| 0 <= i < batch.len() implies (#[trigger] batch[i]).update_id
        <= batch.last().update_id by {
        if i < batch.len() - 1 {
            assert(batch[i].update_id < batch[batch.len() - 1].update_id);
        }
    }
}

/// Law: appending one more batch extends the merged output on the right,
/// so the merged sequence preserves batch order and batch-internal order.
pub proof fn lemma_merged_batches_push(batches: Seq<Seq<Update>>, batch: Seq<Update>)
    ensures
        merged_batches(batches.push(batch)) == merged_batches(batches) + batch,
    decreases batches.len(),
{
    if batches.len() == 0 {
        assert(batches.push(batch).len() == 1);
        assert(merged_batches(batches.push(batch)) == batches.push(batch).first()
            + merged_batches(batches.push(batch).drop_first()));
        assert(batches.push(batch).drop_first() =~= Seq::<Seq<Update>>::empty());
        assert(batches.push(batch).first() == batch);
        assert(merged_batches(Seq::<Seq<Update>>::empty()) == Seq::<Update>::empty());
        assert(batch + Seq::<Update>::empty() =~= batch);
        assert(merged_batches(batches) + batch =~= batch);
    } else {
        lemma_merged_batches_push(batches.drop_first(), batch);
        assert(batches.push(batch).drop_first() =~= batches.drop_first().push(batch));
        assert(merged_batches(batches.push(batch)) =~= merged_batches(batches) + batch);
    }
}

/// Law: over a well-formed polling session the merged output's identifiers
/// strictly increase, so no update is delivered twice across batches.
pub proof fn lemma_merged_batches_no_duplicates(batches: Seq<Seq<Update>>)
    requires
        well_formed_poll(batches),
    ensures
        ids_strictly_increasing(merged_batches(batches)),
        batches.len() > 0 ==> merged_batches(batches).len() > 0 && merged_batches(
            batches,
        ).first().update_id == batches.first().first().update_id,
        forall|i: int, j: int|
            0 <= i < j < merged_batches(batches).len() ==> merged_batches(batches)[i].update_id
                != merged_batches(batches)[j].update_id,
    decreases batches.len(),
{
    if batches.len() == 0 {
    } else {
        let head = batches.first();
        let rest = batches.drop_first();
        assert(well_formed_poll(rest)) by {
            assert(forall|k: int| 0 <= k < rest.len() ==> rest[k] == batches[k + 1]);
        }
        lemma_merged_batches_no_duplicates(rest);
        let merged = merged_batches(batches);
        assert(merged == head + merged_batches(rest));
        if rest.len() > 0 {
            assert(batches[1int].first().update_id > batches[0int].last().update_id);
            assert(merged_batches(rest).first().update_id == rest.first().first().update_id);
            assert(rest.first() == batches[1]);
            lemma_cursor_is_max_plus_one(head);
            assert forall|i: int, j: int| 0 <= i < j < merged.len() implies merged[i].update_id
                < merged[j].update_id by {
                if j < head.len() {
                    assert(head[i].update_id < head[j].update_id);
                } else if i >= head.len() {
                    assert(merged_batches(rest)[i - head.len()].update_id < merged_batches(
                        rest,
                    )[j - head.len()].update_id);
                } else {
                    assert(merged[i] == head[i]);
                    assert(merged[j] == merged_batches(rest)[j - head.len()]);
                    assert(head[i].update_id <= head.last().update_id);
                    if j - head.len() > 0 {
                        assert(merged_batches(rest).first().update_id <= merged_batches(
                            rest,
                        )[j - head.len()].update_id);
                    }
                }
            }
        } else {
            assert(merged =~= head);
        }
    }
}

/// Absorbs one polled batch: an empty batch ends the session; a non-empty
/// batch is appended to the accumulated output, order kept, and the cursor
/// advances to one past the batch's last identifier, acknowledging it.
pub fn absorb_batch(acc: &mut Vec<Update>, offset: &mut i64, batch: Vec<Update>) -> (more: bool)
    requires
        batch@.len() > 0 ==> batch@.last().update_id < i64::MAX,
    ensures
        more == (batch@.len() > 0),
        batch@.len() > 0 ==> *final(offset) == batch@.last().update_id + 1,
        batch@.len() > 0 ==> final(acc)@ == old(acc)@ + batch@,
        batch@.len() == 0 ==> *final(offset) == *old(offset) && final(acc)@ == old(acc)@,
{
    let mut batch = batch;
    if batch.len() == 0 {
        proof {
            assert(acc@ =~= acc@ + batch@);
        }
        return false;
    }
    let last_id = batch[batch.len() - 1].update_id;
    *offset = last_id + 1;
    acc.append(&mut batch);
    true
}

/// The fixed command descriptors declared to the channel at startup.
pub fn default_commands() -> (r: Vec<BotCommand>)
    ensures
        r@.len() == 6,
        r@[0].command@ == "/check_all"@ && r@[0].description@ == "Validate all."@,
        r@[1].command@ == "/check_api"@ && r@[1].description@ == "Validate api."@,
        r@[2].command@ == "/check_frontend"@ && r@[2].description@ == "Validate frontend."@,
        r@[3].command@ == "/check_certs"@ && r@[3].description@ == "Validate certificates."@,
        r@[4].command@ == "/pause"@ && r@[4].description@ == "Pause validations."@,
        r@[5].command@ == "/unpause"@ && r@[5].description@ == "Unpause validations."@,
{
    let mut commands: Vec<BotCommand> = Vec::new();
    commands.push(
        BotCommand {
            command: String::from_str("/check_all"),
            description: String::from_str("Validate all."),
        },
    );
    commands.push(
        BotCommand {
            command: String::from_str("/check_api"),
            description: String::from_str("Validate api."),
        },
    );
    commands.push(
        BotCommand {
            command: String::from_str("/check_frontend"),
            description: String::from_str("Validate frontend."),
        },
    );
    commands.push(
        BotCommand {
            command: String::from_str("/check_certs"),
            description: String::from_str("Validate certificates."),
        },
    );
    commands.push(
        BotCommand {
            command: String::from_str("/pause"),
            description: String::from_str("Pause validations."),
        },
    );
    commands.push(
        BotCommand {
            command: String::from_str("/unpause"),
            description: String::from_str("Unpause validations."),
        },
    );
    commands
}

/// The JSON payload of one outbound message, markdown parse mode included.
pub open spec fn send_message_body_spec(chat_id: i64, text: Seq<char>) -> Seq<char> {
    "{\"chat_id\":"@ + dec_str_signed(chat_id as int) + ",\"text\":\""@ + json_escape(text)
        + "\",\"parse_mode\":\"markdown\"}"@
}

/// The JSON object of one command descriptor.
pub open spec fn bot_command_json_spec(c: BotCommand) -> Seq<char> {
    "{\"command\":\""@ + json_escape(c.command@) + "\",\"description\":\""@ + json_escape(
        c.description@,
    ) + "\"}"@
}

/// The JSON array of command descriptors, comma separated, in order.
pub open spec fn commands_array_json_spec(cs: Seq<BotCommand>) -> Seq<char>
    decreases cs.len(),
{
    if cs.len() == 0 {
        Seq::empty()
    } else {
        commands_array_json_spec(cs.drop_last()) + (if cs.len() > 1 {
            ","@
        } else {
            Seq::empty()
        }) + bot_command_json_spec(cs.last())
    }
}

/// The JSON payload that declares the command list.
pub open spec fn set_my_commands_body_spec(cs: Seq<BotCommand>) -> Seq<char> {
    "{\"commands\":["@ + commands_array_json_spec(cs) + "]}"@
}

/// Serializes one outbound message payload.
pub fn send_message_body_json(chat_id: i64, text: &str) -> (r: String)
    ensures
        r@ == send_message_body_spec(chat_id, text@),
{
    let mut out = String::from_str("{\"chat_id\":");
    let id_digits = i64_to_string(chat_id);
    out.append(id_digits.as_str());
    out.append(",\"text\":\"");
    let escaped = json_escape_string(text);
    out.append(escaped.as_str());
    out.append("\",\"parse_mode\":\"markdown\"}");
    assert(out@ =~= send_message_body_spec(chat_id, text@));
    out
}

/// Serializes the command-list payload.
pub fn set_my_commands_body_json(body: &SetMyCommandsBody) -> (r: String)
    ensures
        r@ == set_my_commands_body_spec(body.commands@),
{
    let commands = &body.commands;
    let mut array = String::new();
    let mut i: usize = 0;
    proof {
        assert(array@ =~= commands_array_json_spec(commands@.take(0)));
    }
    while i < commands.len()
        invariant
            0 <= i <= commands@.len(),
            array@ == commands_array_json_spec(commands@.take(i as int)),
        decreases commands@.len() - i,
    {
        if i > 0 {
            array.append(",");
        }
        array.append("{\"command\":\"");
        let cmd = json_escape_string(commands[i].command.as_str());
        array.append(cmd.as_str());
        array.append("\",\"description\":\"");
        let desc = json_escape_string(commands[i].description.as_str());
        array.append(desc.as_str());
        array.append("\"}");
        proof {
            assert(commands@.take(i + 1).drop_last() =~= commands@.take(i as int));
            assert(commands@.take(i + 1).last() == commands@[i as int]);
            assert(array@ =~= commands_array_json_spec(commands@.take(i + 1)));
        }
        i = i + 1;
    }
    proof {
        assert(commands@.take(commands@.len() as int) =~= commands@);
    }
    let mut out = String::from_str("{\"commands\":[");
    out.append(array.as_str());
    out.append("]}");
    assert(out@ =~= set_my_commands_body_spec(commands@));
    out
}

/// The notification client's state: the configuration snapshot, the
/// channel's base URL, and the queue of sends whose retries were exhausted.
pub struct TelegramService {
    configs: Config,
    api_url: String,
    pending_messages: Vec<TelegramRequest>,
}

impl TelegramService {
    /// The configuration snapshot the client was created with.
    pub closed spec fn spec_configs(&self) -> Config {
        self.configs
    }

    /// The base URL every route is built on.
    pub closed spec fn spec_api_url(&self) -> Seq<char> {
        self.api_url@
    }

    /// The queued sends awaiting one more delivery attempt.
    pub closed spec fn spec_pending(&self) -> Seq<TelegramRequest> {
        self.pending_messages@
    }

    /// A client over the channel, its base URL derived from the bot token.
    /// A missing token is fatal at startup, before any client exists.
    pub fn new(configs: Config) -> (r: TelegramService)
        requires
            configs.telegram_bot_token is Some,
        ensures
            r.spec_configs() == configs,
            r.spec_api_url() == "https://api.telegram.org/bot"@
                + configs.telegram_bot_token->0@,
            r.spec_pending() == Seq::<TelegramRequest>::empty(),
    {
        let mut api_url = String::from_str("https://api.telegram.org/bot");
        api_url.append(configs.telegram_bot_token.as_ref().unwrap().as_str());
        TelegramService { configs, api_url, pending_messages: Vec::new() }
    }

    /// The poll route for one page of updates past the cursor.
    pub fn get_updates_route(&self, limit: u64, offset: i64) -> (r: String)
        ensures
            r@ == self.spec_api_url() + "/getUpdates?allowed_updates=[\"message\"]&limit="@
                + dec_str(limit as nat) + "&offset="@ + dec_str_signed(offset as int),
    {
        let mut route = self.api_url.clone();
        route.append("/getUpdates?allowed_updates=[\"message\"]&limit=");
        let limit_digits = u64_to_string(limit);
        route.append(limit_digits.as_str());
        route.append("&offset=");
        let offset_digits = i64_to_string(offset);
        route.append(offset_digits.as_str());
        route
    }

    /// The route that sends one message.
    pub fn send_message_route(&self) -> (r: String)
        ensures
            r@ == self.spec_api_url() + "/sendMessage"@,
    {
        let mut route = self.api_url.clone();
        route.append("/sendMessage");
        route
    }

    /// The route that declares the command list.
    pub fn set_commands_route(&self) -> (r: String)
        ensures
            r@ == self.spec_api_url() + "/setMyCommands"@,
    {
        let mut route = self.api_url.clone();
        route.append("/setMyCommands");
        route
    }

    /// The route that reads the command list back.
    pub fn get_commands_route(&self) -> (r: String)
        ensures
            r@ == self.spec_api_url() + "/getMyCommands"@,
    {
        let mut route = self.api_url.clone();
        route.append("/getMyCommands");
        route
    }

    /// The complete outbound call that sends one message to one chat.
    pub fn build_send_message_request(&self, chat_id: i64, text: &str) -> (r: TelegramRequest)
        ensures
            (r matches TelegramRequest::Post { url, body, content_type } && url@
                == self.spec_api_url() + "/sendMessage"@ && body@ == send_message_body_spec(
                chat_id,
                text@,
            ) && content_type@ == "application/json"@),
    {
        TelegramRequest::Post {
            url: self.send_message_route(),
            body: send_message_body_json(chat_id, text),
            content_type: String::from_str("application/json"),
        }
    }

    /// Whether a default group list was configured.
    pub fn has_default_groups(&self) -> (r: bool)
        ensures
            r == (self.spec_configs().groups is Some),
    {
        self.configs.groups.is_some()
    }

    /// The chats a message goes to: the explicit list, or the configured
    /// default group list when none is given. The caller had to load a
    /// configuration, which always carries a group list.
    pub fn resolve_targets(&self, groups: &Option<Vec<i64>>) -> (r: Vec<i64>)
        requires
            groups is None ==> self.spec_configs().groups is Some,
        ensures
            r@ == (match groups {
                Some(ids) => ids@,
                None => self.spec_configs().groups->0@,
            }),
    {
        let source: &Vec<i64> = match groups {
            Some(ids) => ids,
            None => self.configs.groups.as_ref().unwrap(),
        };
        let mut out: Vec<i64> = Vec::new();
        let mut i: usize = 0;
        while i < source.len()
            invariant
                0 <= i <= source@.len(),
                out@ == source@.take(i as int),
            decreases source@.len() - i,
        {
            out.push(source[i]);
            proof {
                assert(out@ =~= source@.take(i + 1));
            }
            i = i + 1;
        }
        proof {
            assert(source@.take(source@.len() as int) =~= source@);
        }
        out
    }

    /// Moves every queued send into a retry batch, in arrival order,
    /// leaving the queue empty for the cycle now starting.
    pub fn drain_pending(&mut self) -> (batch: Vec<TelegramRequest>)
        ensures
            batch@ == old(self).spec_pending(),
            final(self).spec_pending() == Seq::<TelegramRequest>::empty(),
            final(self).spec_configs() == old(self).spec_configs(),
            final(self).spec_api_url() == old(self).spec_api_url(),
    {
        let mut batch: Vec<TelegramRequest> = Vec::new();
        batch.append(&mut self.pending_messages);
        proof {
            assert(batch@ =~= old(self).spec_pending());
        }
        batch
    }

    /// Records a request whose retry budget ran out: a send is queued for
    /// one more delivery attempt next cycle; a poll is simply dropped.
    pub fn record_exhausted(&mut self, req: TelegramRequest)
        ensures
            final(self).spec_pending() == (if req is Post {
                old(self).spec_pending().push(req)
            } else {
                old(self).spec_pending()
            }),
            final(self).spec_configs() == old(self).spec_configs(),
            final(self).spec_api_url() == old(self).spec_api_url(),
    {
        match req {
            TelegramRequest::Post { .. } => {
                self.pending_messages.push(req);
            },
            TelegramRequest::Get { .. } => {
            },
        }
    }
}

} // verus!
