//! The messages with which a dispatch answers when it stops before the command
//! runs, the presence shown while starting, and the records written to the log.
//!
//! Every text is stated as a sequence of characters, so that a contract can
//! say exactly which message a caller gets.

use crate::text::{decimal, push_decimal};
use vstd::prelude::*;
use vstd::string::StringExecFns;

verus! {

/// How a message is styled.
#[derive(Clone, Copy, Debug, PartialEq, Eq, Structural)]
pub enum Style {
    /// Something went wrong for the user.
    Error,
    /// Plain information.
    Information,
}

/// A message sent as a new response to an interaction.
#[derive(Clone, Debug, PartialEq, Eq)]
pub struct Response {
    pub title: String,
    pub description: String,
    pub style: Style,
    /// Whether only the invoking user sees the message.
    pub ephemeral: bool,
}

impl Response {
    /// Whether the response is an error message for the invoking user alone,
    /// with the given title and description.
    pub open spec fn is_error(&self, title: Seq<char>, description: Seq<char>) -> bool {
        &&& self.title@ == title
        &&& self.description@ == description
        &&& self.style == Style::Error
        &&& self.ephemeral
    }
}

/// The title of the answer given while work is not accepted yet.
pub open spec fn not_ready_title() -> Seq<char> {
    "Rude! I'm not even done getting ready!"@
}

/// The description of the answer given while work is not accepted yet.
pub open spec fn not_ready_description() -> Seq<char> {
    "Aegistrate hasn't finished all of its ready-up procedures. Coffee takes time to brew, you know?"@
}

/// The title of the answer to a command that is not registered.
pub open spec fn unknown_command_title(name: Seq<char>) -> Seq<char> {
    "Sorry champ, can't help you out there. I dunno what a \"/"@ + name + "\" is."@
}

/// The description of the answer to a command that is not registered.
pub open spec fn unknown_command_description(name: Seq<char>) -> Seq<char> {
    "Failed to get a command with the name \"/"@ + name + "\"."@
}

/// The title of the answer to a command that is still cooling down.
pub open spec fn not_cooled_down_title() -> Seq<char> {
    "Cool down! You need to wait a bit more before using this command."@
}

/// The description of the answer to a command that is still cooling down for
/// `left` more seconds.
pub open spec fn not_cooled_down_description(left: nat) -> Seq<char> {
    "Cooldown has not been reached: "@ + decimal(left) + "s left."@
}

/// The answer given while work is not accepted yet.
pub fn not_ready_respond() -> (response: Response)
    ensures
        response.is_error(not_ready_title(), not_ready_description()),
{
    Response {
        title: String::from_str("Rude! I'm not even done getting ready!"),
        description: String::from_str(
            "Aegistrate hasn't finished all of its ready-up procedures. Coffee takes time to brew, you know?",
        ),
        style: Style::Error,
        ephemeral: true,
    }
}

/// The answer to a command that is not registered.
pub fn unknown_command_respond(command_name: &str) -> (response: Response)
    ensures
        response.is_error(
            unknown_command_title(command_name@),
            unknown_command_description(command_name@),
        ),
{
    let mut title = String::from_str("Sorry champ, can't help you out there. I dunno what a \"/");
    title.append(command_name);
    title.append("\" is.");
    let mut description = String::from_str("Failed to get a command with the name \"/");
    description.append(command_name);
    description.append("\".");
    Response { title, description, style: Style::Error, ephemeral: true }
}

/// The answer to a command that is still cooling down for `left` more seconds.
pub fn not_cooled_down_respond(left: u128) -> (response: Response)
    ensures
        response.is_error(not_cooled_down_title(), not_cooled_down_description(left as nat)),
{
    let mut description = String::from_str("Cooldown has not been reached: ");
    push_decimal(&mut description, left);
    description.append("s left.");
    Response {
        title: String::from_str(
            "Cool down! You need to wait a bit more before using this command.",
        ),
        description,
        style: Style::Error,
        ephemeral: true,
    }
}

/// What the service is shown to be doing.
#[derive(Clone, Copy, Debug, PartialEq, Eq, Structural)]
pub enum ActivityKind {
    Playing,
    Watching,
}

/// How the service is shown to be reachable.
#[derive(Clone, Copy, Debug, PartialEq, Eq, Structural)]
pub enum OnlineStatus {
    Online,
    DoNotDisturb,
}

/// The presence of the service towards its users.
#[derive(Clone, Debug, PartialEq, Eq)]
pub struct Presence {
    pub activity: ActivityKind,
    pub text: String,
    pub status: OnlineStatus,
}

impl Presence {
    /// Whether this is the presence shown from the moment the service is
    /// connected until it accepts work.
    pub open spec fn is_waiting(&self) -> bool {
        &&& self.activity == ActivityKind::Playing
        &&& self.text@ == "the waiting game..."@
        &&& self.status == OnlineStatus::DoNotDisturb
    }

    /// Whether this is the presence shown while the service accepts work.
    pub open spec fn is_active(&self) -> bool {
        &&& self.activity == ActivityKind::Watching
        &&& self.text@ == "over the server"@
        &&& self.status == OnlineStatus::Online
    }

    /// The presence shown from the moment the service is connected until it
    /// accepts work.
    pub fn waiting() -> (presence: Presence)
        ensures
            presence.is_waiting(),
    {
        Presence {
            activity: ActivityKind::Playing,
            text: String::from_str("the waiting game..."),
            status: OnlineStatus::DoNotDisturb,
        }
    }

    /// The presence shown while the service accepts work.
    pub fn active() -> (presence: Presence)
        ensures
            presence.is_active(),
    {
        Presence {
            activity: ActivityKind::Watching,
            text: String::from_str("over the server"),
            status: OnlineStatus::Online,
        }
    }
}

/// How severe a record of the log is.
#[derive(Clone, Copy, Debug, PartialEq, Eq, Structural)]
pub enum LogLevel {
    Info,
    Error,
}

/// One record for the log.
#[derive(Clone, Debug, PartialEq, Eq)]
pub struct LogEntry {
    pub level: LogLevel,
    pub message: String,
}

/// How every record about an interaction starts: its identifier and the
/// command it asked for.
pub open spec fn interaction_prefix(interaction: u64, command_name: Seq<char>) -> Seq<char> {
    "Interaction "@ + decimal(interaction as nat) + ": Command /"@ + command_name
}

/// The record of a command that ran to its end.
pub open spec fn success_message(interaction: u64, command_name: Seq<char>) -> Seq<char> {
    interaction_prefix(interaction, command_name) + " executed successfully"@
}

/// The record of a command that failed for the reason `why`.
pub open spec fn failure_message(
    interaction: u64,
    command_name: Seq<char>,
    why: Seq<char>,
) -> Seq<char> {
    interaction_prefix(interaction, command_name) + " executed with an error: "@ + why
}

/// The record of a use that could not be written for the reason `why`.
pub open spec fn unrecorded_message(
    interaction: u64,
    command_name: Seq<char>,
    why: Seq<char>,
) -> Seq<char> {
    interaction_prefix(interaction, command_name) + " left no cooldown record: "@ + why
}

/// Starts a record about an interaction.
fn begin_record(interaction: u64, command_name: &str) -> (text: String)
    ensures
        text@ == interaction_prefix(interaction, command_name@),
{
    let mut text = String::from_str("Interaction ");
    push_decimal(&mut text, interaction as u128);
    text.append(": Command /");
    text.append(command_name);
    text
}

/// The record of how a command ended: `Ok` where it ran to its end, `Err` with
/// the reason where it failed.
pub fn execution_record(interaction: u64, command_name: &str, outcome: &Result<(), String>) -> (entry:
    LogEntry)
    ensures
        match outcome {
            Ok(_) => entry.level == LogLevel::Info && entry.message@ == success_message(
                interaction,
                command_name@,
            ),
            Err(why) => entry.level == LogLevel::Error && entry.message@ == failure_message(
                interaction,
                command_name@,
                why@,
            ),
        },
{
    let mut message = begin_record(interaction, command_name);
    match outcome {
        Ok(_) => {
            message.append(" executed successfully");
            LogEntry { level: LogLevel::Info, message }
        },
        Err(why) => {
            message.append(" executed with an error: ");
            message.append(why.as_str());
            LogEntry { level: LogLevel::Error, message }
        },
    }
}

/// The record of a use that the store did not take, for the reason `why`.
pub fn unrecorded_use_record(interaction: u64, command_name: &str, why: &str) -> (entry: LogEntry)
    ensures
        entry.level == LogLevel::Error,
        entry.message@ == unrecorded_message(interaction, command_name@, why@),
{
    let mut message = begin_record(interaction, command_name);
    message.append(" left no cooldown record: ");
    message.append(why);
    LogEntry { level: LogLevel::Error, message }
}

} // verus!
