//! The orchestration core: the shared pause state machine, command
//! extraction and routing, and validation-report handling.

use vstd::prelude::*;
use vstd::string::*;
use crate::monitor::telegram::models::{MessageEntity, Update};
use crate::text::{index_of_first, find_char, lemma_index_of_first_is, lemma_index_of_first_in_range, str_eq};

pub mod api;
pub mod telegram;
pub mod utils;
pub mod website;

verus! {

/// Whether periodic health checks are suppressed, and for how long they
/// have been, measured in accumulated probe intervals.
pub struct PauseState {
    pub paused: bool,
    pub elapsed_while_paused: u64,
}

/// What the website-monitor loop does in one cycle.
#[derive(Clone, Copy, Debug, PartialEq, Eq, Structural)]
pub enum MonitorStep {
    Probe,
    Skip,
    Reminder,
}

/// Addition on the pause accumulator, pinned at the top of its range.
pub open spec fn saturating_add(a: u64, b: u64) -> u64 {
    if a + b > u64::MAX {
        u64::MAX
    } else {
        (a + b) as u64
    }
}

impl PauseState {
    /// The initial state: not paused, nothing accumulated.
    pub fn new() -> (r: PauseState)
        ensures
            !r.paused,
            r.elapsed_while_paused == 0,
    {
        PauseState { paused: false, elapsed_while_paused: 0 }
    }

    pub fn is_paused(&self) -> (r: bool)
        ensures
            r == self.paused,
    {
        self.paused
    }

    /// Sets the flag; unpausing resets the accumulator, pausing keeps it.
    pub fn set_paused(&mut self, paused: bool)
        ensures
            final(self).paused == paused,
            final(self).elapsed_while_paused == (if paused {
                old(self).elapsed_while_paused
            } else {
                0u64
            }),
    {
        self.paused = paused;
        if !paused {
            self.elapsed_while_paused = 0;
        }
    }

    /// One cycle of the website-monitor loop: unpaused, the probes run;
    /// paused, one probe interval is accumulated instead, and once the
    /// accumulator reaches the reminder interval exactly one reminder is
    /// emitted and the accumulator starts over at zero.
    pub fn monitor_tick(&mut self, probe_interval: u64, reminder_interval: u64) -> (step:
        MonitorStep)
        ensures
            !old(self).paused ==> step == MonitorStep::Probe && *final(self) == *old(self),
            old(self).paused ==> final(self).paused,
            old(self).paused && saturating_add(old(self).elapsed_while_paused, probe_interval)
                >= reminder_interval ==> step == MonitorStep::Reminder
                && final(self).elapsed_while_paused == 0,
            old(self).paused && saturating_add(old(self).elapsed_while_paused, probe_interval)
                < reminder_interval ==> step == MonitorStep::Skip && final(self).elapsed_while_paused
                == saturating_add(old(self).elapsed_while_paused, probe_interval),
    {
        if !self.paused {
            return MonitorStep::Probe;
        }
        let accumulated = if self.elapsed_while_paused <= u64::MAX - probe_interval {
            self.elapsed_while_paused + probe_interval
        } else {
            u64::MAX
        };
        if accumulated >= reminder_interval {
            self.elapsed_while_paused = 0;
            MonitorStep::Reminder
        } else {
            self.elapsed_while_paused = accumulated;
            MonitorStep::Skip
        }
    }
}

/// The command name with any `@bot_name` suffix removed: everything before
/// the first `@`, or the whole text when there is none.
pub open spec fn extract_command_spec(s: Seq<char>) -> Seq<char> {
    s.take(index_of_first(s, '@'))
}

/// Strips the addressee suffix off a command mention.
pub fn extract_command(command: String) -> (r: String)
    ensures
        r@ == extract_command_spec(command@),
{
    proof {
        lemma_index_of_first_in_range(command@, '@');
    }
    match find_char(command.as_str(), '@') {
        Some(i) => {
            let prefix = command.as_str().substring_char(0, i);
            proof {
                assert(command@.subrange(0, i as int) =~= extract_command_spec(command@));
            }
            prefix.to_owned()
        },
        None => {
            proof {
                assert(command@.take(command@.len() as int) =~= command@);
            }
            command
        },
    }
}

/// The recognized command table.
pub open spec fn is_recognized_command(s: Seq<char>) -> bool {
    ||| s == "/check_all"@
    ||| s == "/check_api"@
    ||| s == "/check_frontend"@
    ||| s == "/check_certs"@
    ||| s == "/pause"@
    ||| s == "/unpause"@
}

/// A recognized command, or the marker for anything else.
#[derive(Clone, Copy, Debug, PartialEq, Eq, Structural)]
pub enum Command {
    CheckAll,
    CheckApi,
    CheckFrontend,
    CheckCerts,
    Pause,
    Unpause,
    Unknown,
}

/// The command a (suffix-stripped) name denotes.
pub open spec fn parse_command_spec(s: Seq<char>) -> Command {
    if s == "/check_all"@ {
        Command::CheckAll
    } else if s == "/check_api"@ {
        Command::CheckApi
    } else if s == "/check_frontend"@ {
        Command::CheckFrontend
    } else if s == "/check_certs"@ {
        Command::CheckCerts
    } else if s == "/pause"@ {
        Command::Pause
    } else if s == "/unpause"@ {
        Command::Unpause
    } else {
        Command::Unknown
    }
}

/// Parses a command name against the recognized table.
pub fn parse_command(name: &str) -> (c: Command)
    ensures
        c == parse_command_spec(name@),
{
    if str_eq(name, "/check_all") {
        Command::CheckAll
    } else if str_eq(name, "/check_api") {
        Command::CheckApi
    } else if str_eq(name, "/check_frontend") {
        Command::CheckFrontend
    } else if str_eq(name, "/check_certs") {
        Command::CheckCerts
    } else if str_eq(name, "/pause") {
        Command::Pause
    } else if str_eq(name, "/unpause") {
        Command::Unpause
    } else {
        Command::Unknown
    }
}

/// One step the dispatcher asks the surrounding loops to perform.
#[derive(Clone, Copy, Debug, PartialEq, Eq, Structural)]
pub enum Action {
    RunApiCheck { chat_id: i64 },
    RunFrontendCheck { chat_id: i64 },
    RunCertsCheck { chat_id: i64 },
    SetPause { chat_id: i64 },
    SetUnpause { chat_id: i64 },
}

/// The actions a command triggers, reported to the requesting chat: the
/// combined check fans out into the three single checks, in order; an
/// unrecognized command triggers nothing.
pub open spec fn actions_for_command_spec(c: Command, chat_id: i64) -> Seq<Action> {
    match c {
        Command::CheckAll => seq![
            Action::RunApiCheck { chat_id },
            Action::RunFrontendCheck { chat_id },
            Action::RunCertsCheck { chat_id },
        ],
        Command::CheckApi => seq![Action::RunApiCheck { chat_id }],
        Command::CheckFrontend => seq![Action::RunFrontendCheck { chat_id }],
        Command::CheckCerts => seq![Action::RunCertsCheck { chat_id }],
        Command::Pause => seq![Action::SetPause { chat_id }],
        Command::Unpause => seq![Action::SetUnpause { chat_id }],
        Command::Unknown => Seq::empty(),
    }
}

/// Routes one command name to its actions.
pub fn actions_for_command(name: &str, chat_id: i64) -> (acts: Vec<Action>)
    ensures
        acts@ == actions_for_command_spec(parse_command_spec(name@), chat_id),
{
    let command = parse_command(name);
    let mut acts: Vec<Action> = Vec::new();
    match command {
        Command::CheckAll => {
            acts.push(Action::RunApiCheck { chat_id });
            acts.push(Action::RunFrontendCheck { chat_id });
            acts.push(Action::RunCertsCheck { chat_id });
        },
        Command::CheckApi => {
            acts.push(Action::RunApiCheck { chat_id });
        },
        Command::CheckFrontend => {
            acts.push(Action::RunFrontendCheck { chat_id });
        },
        Command::CheckCerts => {
            acts.push(Action::RunCertsCheck { chat_id });
        },
        Command::Pause => {
            acts.push(Action::SetPause { chat_id });
        },
        Command::Unpause => {
            acts.push(Action::SetUnpause { chat_id });
        },
        Command::Unknown => {
        },
    }
    proof {
        assert(acts@ =~= actions_for_command_spec(parse_command_spec(name@), chat_id));
    }
    acts
}

/// Whether an entity's span lies inside its message text.
pub open spec fn entity_in_range(text: Seq<char>, e: MessageEntity) -> bool {
    0 <= e.offset && 0 <= e.length && e.offset + e.length <= text.len()
}

/// Whether an entity marks a command mention.
pub open spec fn is_bot_command_entity(e: MessageEntity) -> bool {
    e.type_value@ == "bot_command"@
}

/// The command named by one entity, suffix stripped.
pub open spec fn entity_command_spec(text: Seq<char>, e: MessageEntity) -> Seq<char> {
    extract_command_spec(text.subrange(e.offset as int, e.offset + e.length))
}

/// The command names of a message, in entity order: one for each command
/// entity whose span lies inside the text.
pub open spec fn message_commands_spec(text: Seq<char>, entities: Seq<MessageEntity>) -> Seq<
    Seq<char>,
>
    decreases entities.len(),
{
    if entities.len() == 0 {
        Seq::empty()
    } else {
        message_commands_spec(text, entities.drop_last()) + (if is_bot_command_entity(
            entities.last(),
        ) && entity_in_range(text, entities.last()) {
            seq![entity_command_spec(text, entities.last())]
        } else {
            Seq::empty()
        })
    }
}

/// Extracts the command names a message carries, in entity order.
pub fn commands_in_message(text: &String, entities: &Vec<MessageEntity>) -> (r: Vec<String>)
    ensures
        r.deep_view() == message_commands_spec(text@, entities@),
{
    let n = text.as_str().unicode_len();
    let mut out: Vec<String> = Vec::new();
    let mut i: usize = 0;
    proof {
        assert(out.deep_view() =~= message_commands_spec(text@, entities@.take(0)));
    }
    while i < entities.len()
        invariant
            0 <= i <= entities@.len(),
            n == text@.len(),
            out.deep_view() == message_commands_spec(text@, entities@.take(i as int)),
        decreases entities@.len() - i,
    {
        let e = &entities[i];
        if str_eq(e.type_value.as_str(), "bot_command") && e.offset >= 0 && e.length >= 0 && (
        e.offset as u64) <= (n as u64) && (e.length as u64) <= (n as u64) - (e.offset as u64) {
            proof {
                assert(0 <= e.offset <= n && 0 <= e.length && e.offset + e.length <= n);
            }
            let from: usize = e.offset as usize;
            let to: usize = from + (e.length as usize);
            let span = text.as_str().substring_char(from, to).to_owned();
            out.push(extract_command(span));
        }
        proof {
            assert(entities@.take(i + 1).drop_last() =~= entities@.take(i as int));
            assert(entities@.take(i + 1).last() == entities@[i as int]);
            assert(out.deep_view() =~= message_commands_spec(text@, entities@.take(i + 1)));
        }
        i = i + 1;
    }
    proof {
        assert(entities@.take(entities@.len() as int) =~= entities@);
    }
    out
}

/// The command names one inbound update carries; an update without a
/// message, text, or entities carries none.
pub open spec fn update_commands_spec(u: Update) -> Seq<Seq<char>> {
    match u.message {
        Some(m) => match m.text {
            Some(t) => match m.entities {
                Some(es) => message_commands_spec(t@, es@),
                None => Seq::empty(),
            },
            None => Seq::empty(),
        },
        None => Seq::empty(),
    }
}

/// Extracts the command names of one inbound update.
pub fn commands_in_update(update: &Update) -> (r: Vec<String>)
    ensures
        r.deep_view() == update_commands_spec(*update),
{
    match &update.message {
        Some(m) => match (&m.text, &m.entities) {
            (Some(t), Some(es)) => commands_in_message(t, es),
            _ => {
                let r: Vec<String> = Vec::new();
                proof {
                    assert(r.deep_view() =~= update_commands_spec(*update));
                }
                r
            },
        },
        None => {
            let r: Vec<String> = Vec::new();
            proof {
                assert(r.deep_view() =~= update_commands_spec(*update));
            }
            r
        },
    }
}

/// Law: a command of the recognized table keeps its meaning when addressed
/// to a bot: stripping the suffix off `command@name` yields the command,
/// and a bare command passes through unchanged.
pub proof fn lemma_extract_command_ignores_bot_name(c: Seq<char>, name: Seq<char>)
    requires
        is_recognized_command(c),
    ensures
        extract_command_spec(c + "@"@ + name) == c,
        extract_command_spec(c) == c,
{
    reveal_strlit("@");
    reveal_strlit("/check_all");
    reveal_strlit("/check_api");
    reveal_strlit("/check_frontend");
    reveal_strlit("/check_certs");
    reveal_strlit("/pause");
    reveal_strlit("/unpause");
    assert(forall|i: int| 0 <= i < c.len() ==> c[i] != '@');
    let s = c + "@"@ + name;
    assert(s[c.len() as int] == '@');
    assert(forall|k: int| 0 <= k < c.len() ==> s[k] == c[k]);
    lemma_index_of_first_is(s, '@', c.len() as int);
    assert(s.take(c.len() as int) =~= c);
    lemma_index_of_first_is(c, '@', c.len() as int);
    assert(c.take(c.len() as int) =~= c);
}

/// Joins failure lines, each with a trailing newline; an empty report
/// joins to the empty text.
pub open spec fn joined_report_spec(errs: Seq<Seq<char>>) -> Seq<char>
    decreases errs.len(),
{
    if errs.len() == 0 {
        Seq::empty()
    } else {
        joined_report_spec(errs.drop_last()) + errs.last() + "\n"@
    }
}

/// The text a report is shown as: the joined failure lines, or the given
/// fallback when the report is empty.
pub open spec fn report_or_default_spec(errs: Seq<Seq<char>>, default: Seq<char>) -> Seq<char> {
    if errs.len() > 0 {
        joined_report_spec(errs)
    } else {
        default
    }
}

/// Turns probe reports into outbound messages.
pub struct Validator {
}

impl Validator {
    pub fn new() -> (r: Validator) {
        Validator {  }
    }

    /// Formats a report: the failure lines joined with a trailing newline
    /// each, or the fallback verbatim when the report is empty.
    pub fn handler_errors(errs: &Vec<String>, default: String) -> (r: String)
        ensures
            r@ == report_or_default_spec(errs.deep_view(), default@),
    {
        if errs.len() > 0 {
            let mut report = String::new();
            let mut i: usize = 0;
            proof {
                assert(report@ =~= joined_report_spec(errs.deep_view().take(0)));
            }
            while i < errs.len()
                invariant
                    0 <= i <= errs@.len(),
                    report@ == joined_report_spec(errs.deep_view().take(i as int)),
                decreases errs@.len() - i,
            {
                report.append(errs[i].as_str());
                report.append("\n");
                proof {
                    assert(errs.deep_view().take(i + 1).drop_last() =~= errs.deep_view().take(
                        i as int,
                    ));
                    assert(errs.deep_view().take(i + 1).last() == errs@[i as int]@);
                    assert(report@ =~= joined_report_spec(errs.deep_view().take(i + 1)));
                }
                i = i + 1;
            }
            proof {
                assert(errs.deep_view().take(errs@.len() as int) =~= errs.deep_view());
            }
            report
        } else {
            default
        }
    }

    /// Decides what one validation pass sends: with a success message
    /// given, always exactly one message, the joined failures or that
    /// success text; without one, a message only when something failed, so
    /// the unattended periodic pass stays silent on success.
    pub fn handler_validation(&self, errs: &Vec<String>, success_msg: Option<String>) -> (r:
        Option<String>)
        ensures
            success_msg matches Some(m) ==> (r matches Some(t) && t@ == report_or_default_spec(
                errs.deep_view(),
                m@,
            )),
            success_msg is None && errs@.len() == 0 ==> r is None,
            success_msg is None && errs@.len() > 0 ==> (r matches Some(t) && t@
                == joined_report_spec(errs.deep_view())),
    {
        match success_msg {
            Some(msg) => Some(Validator::handler_errors(errs, msg)),
            None => {
                if errs.len() > 0 {
                    Some(Validator::handler_errors(errs, String::new()))
                } else {
                    None
                }
            },
        }
    }
}

/// The confirmation sent when the monitor is paused by command.
pub fn pause_confirmation_text() -> (r: String)
    ensures
        r@ == "✅ Service is paused, if you want to reanudate it use the command /unpause."@,
{
    String::from_str("✅ Service is paused, if you want to reanudate it use the command /unpause.")
}

/// The confirmation sent when the monitor is unpaused by command.
pub fn unpause_confirmation_text() -> (r: String)
    ensures
        r@ == "✅ Service is reanudated."@,
{
    String::from_str("✅ Service is reanudated.")
}

/// The reminder sent while the monitor stays paused.
pub fn pause_reminder_text() -> (r: String)
    ensures
        r@ == "⚠️ REMINDER\nService monitor is in pause."@,
{
    String::from_str("⚠️ REMINDER\nService monitor is in pause.")
}

/// The success line of an API check requested by command.
pub fn check_api_success_text() -> (r: String)
    ensures
        r@ == "✅ Api is working fine."@,
{
    String::from_str("✅ Api is working fine.")
}

/// The success line of a frontend check requested by command.
pub fn check_frontend_success_text() -> (r: String)
    ensures
        r@ == "✅ Frontend is working fine."@,
{
    String::from_str("✅ Frontend is working fine.")
}

/// The success line of a certificate check requested by command.
pub fn check_certs_success_text() -> (r: String)
    ensures
        r@ == "✅ Certificates are OK."@,
{
    String::from_str("✅ Certificates are OK.")
}

} // verus!
