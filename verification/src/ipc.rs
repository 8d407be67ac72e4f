//! The dispatcher of messages from the embedded content.
//!
//! A message is a JSON object with a string `cmd` and a `payload`. Two
//! commands are acted on, `profile_save` and `download_start`; every other
//! message is dropped without a trace. The dispatcher decides; the caller
//! carries out the command that comes back.

use crate::json::{json_parse, node_member, node_member_text, JsonNode, JsonValue};
use vstd::prelude::*;
use vstd::string::StringExecFns;

verus! {

/// The command that stores the profile.
pub const CMD_PROFILE_SAVE: &'static str = "profile_save";

/// The command that starts a download.
pub const CMD_DOWNLOAD_START: &'static str = "download_start";

/// A name that the generic check passes.
pub const CMD_TABS_SAVE: &'static str = "tabs_save";

/// The other name that the generic check passes.
pub const CMD_TABS_LOAD: &'static str = "tabs_load";

/// The member that names the command.
pub const KEY_CMD: &'static str = "cmd";

/// The member that holds the command's argument.
pub const KEY_PAYLOAD: &'static str = "payload";

/// In the payload of a download: the address to fetch.
pub const KEY_URL: &'static str = "url";

/// In the payload of a download: the file name to suggest.
pub const KEY_FILE: &'static str = "file";

/// The address fetched where the payload gives none: the empty one.
pub const DEFAULT_URL: &'static str = "";

/// The file name suggested where the payload gives none.
pub const DEFAULT_FILE: &'static str = "download";

/// A command of the embedded content, checked and converted once.
#[derive(Debug, PartialEq)]
pub enum Command {
    /// Replace the stored profile by `profile`, whole.
    ProfileSave { profile: JsonValue },
    /// Ask where to save, then fetch `url`; `file` is the name to suggest.
    DownloadStart { url: String, file: String },
}

/// The model of a [`Command`].
pub enum CommandView {
    ProfileSave { profile: JsonNode },
    DownloadStart { url: Seq<char>, file: Seq<char> },
}

impl View for Command {
    type V = CommandView;

    open spec fn view(&self) -> CommandView {
        match self {
            Command::ProfileSave { profile } => CommandView::ProfileSave { profile: profile@ },
            Command::DownloadStart { url, file } => CommandView::DownloadStart {
                url: url@,
                file: file@,
            },
        }
    }
}

impl Clone for Command {
    fn clone(&self) -> (copy: Command)
        ensures
            copy@ == self@,
    {
        match self {
            Command::ProfileSave { profile } => Command::ProfileSave { profile: profile.clone() },
            Command::DownloadStart { url, file } => Command::DownloadStart {
                url: url.clone(),
                file: file.clone(),
            },
        }
    }
}

/// The view of a command that may be absent.
pub open spec fn command_view(command: Option<Command>) -> Option<CommandView> {
    match command {
        Some(command) => Some(command@),
        None => None,
    }
}

/// `text` where there is one, else `fallback`.
pub open spec fn text_or(text: Option<Seq<char>>, fallback: Seq<char>) -> Seq<char> {
    match text {
        Some(text) => text,
        None => fallback,
    }
}

/// The download that a payload asks for: its string `url`, or the empty
/// address, and its string `file`, or the default name.
pub open spec fn download_of(payload: JsonNode) -> CommandView {
    CommandView::DownloadStart {
        url: text_or(node_member_text(payload, KEY_URL@), DEFAULT_URL@),
        file: text_or(node_member_text(payload, KEY_FILE@), DEFAULT_FILE@),
    }
}

/// The command that a parsed message stands for; `None` for a message that
/// is dropped: one without a string `cmd`, with a `cmd` that is not acted
/// on, or without a `payload`.
pub open spec fn decoded(message: JsonNode) -> Option<CommandView> {
    match node_member_text(message, KEY_CMD@) {
        Some(cmd) => if cmd == CMD_PROFILE_SAVE@ {
            match node_member(message, KEY_PAYLOAD@) {
                Some(payload) => Some(CommandView::ProfileSave { profile: payload }),
                None => None,
            }
        } else if cmd == CMD_DOWNLOAD_START@ {
            match node_member(message, KEY_PAYLOAD@) {
                Some(payload) => Some(download_of(payload)),
                None => None,
            }
        } else {
            None
        },
        None => None,
    }
}

/// The command that a raw message stands for; `None` for one that is
/// dropped, as is every message that is not JSON.
pub open spec fn handled(raw: Seq<char>) -> Option<CommandView> {
    match json_parse(raw) {
        Some(message) => decoded(message),
        None => None,
    }
}

/// Whether `text` reads `word`.
fn reads(text: &String, word: &str) -> (r: bool)
    ensures
        r == (text@ == word@),
{
    *text == String::from_str(word)
}

/// `text` where there is one, else a copy of `fallback`.
fn owned_or(text: Option<String>, fallback: &str) -> (r: String)
    ensures
        r@ == text_or(
            match text {
                Some(text) => Some(text@),
                None => None,
            },
            fallback@,
        ),
{
    match text {
        Some(text) => text,
        None => String::from_str(fallback),
    }
}

/// The generic check of a command name: `true` for `tabs_save` and
/// `tabs_load`, `false` for every other name. The data sent with the
/// command plays no part. The dispatcher does not consult it: the two
/// commands that [`decode`] acts on are not among the names it passes (see
/// [`lemma_validated_names_are_not_acted_on`]).
pub fn validate_ipc_command(cmd: &str, _data: &JsonValue) -> (valid: bool)
    ensures
        valid == (cmd@ == CMD_TABS_SAVE@ || cmd@ == CMD_TABS_LOAD@),
{
    let cmd = String::from_str(cmd);
    reads(&cmd, CMD_TABS_SAVE) || reads(&cmd, CMD_TABS_LOAD)
}

/// Converts a parsed message into the command it stands for, or `None`
/// where the message is to be dropped.
pub fn decode(message: &JsonValue) -> (command: Option<Command>)
    ensures
        command_view(command) == decoded(message@),
{
    match message.member_text(KEY_CMD) {
        Some(cmd) => if reads(&cmd, CMD_PROFILE_SAVE) {
            match message.member(KEY_PAYLOAD) {
                Some(payload) => Some(Command::ProfileSave { profile: payload }),
                None => None,
            }
        } else if reads(&cmd, CMD_DOWNLOAD_START) {
            match message.member(KEY_PAYLOAD) {
                Some(payload) => {
                    let url = owned_or(payload.member_text(KEY_URL), DEFAULT_URL);
                    let file = owned_or(payload.member_text(KEY_FILE), DEFAULT_FILE);
                    Some(Command::DownloadStart { url, file })
                },
                None => None,
            }
        } else {
            None
        },
        None => None,
    }
}

/// Handles one message of the embedded content: reads it as JSON and
/// converts it. What is not JSON, names no command, or names one that is
/// not acted on comes back as `None`: the caller then does nothing at all.
pub fn handle(raw_message: &str) -> (command: Option<Command>)
    ensures
        command_view(command) == handled(raw_message@),
        json_parse(raw_message@) is None ==> command is None,
{
    match JsonValue::parse(raw_message) {
        Some(message) => decode(&message),
        None => None,
    }
}

/// A message that is not JSON is dropped.
pub proof fn lemma_malformed_message_is_dropped(raw: Seq<char>)
    requires
        json_parse(raw) is None,
    ensures
        handled(raw) is None,
{
}

/// A message without a string `cmd` is dropped: one that is no object, one
/// that has no `cmd`, and one whose `cmd` is not a string.
pub proof fn lemma_message_without_command_is_dropped(message: JsonNode)
    requires
        node_member_text(message, KEY_CMD@) is None,
    ensures
        decoded(message) is None,
{
}

/// A message whose `cmd` is neither `profile_save` nor `download_start` is
/// dropped, whatever else it holds.
pub proof fn lemma_unrecognized_command_is_dropped(message: JsonNode, cmd: Seq<char>)
    requires
        node_member_text(message, KEY_CMD@) == Some(cmd),
        cmd != CMD_PROFILE_SAVE@,
        cmd != CMD_DOWNLOAD_START@,
    ensures
        decoded(message) is None,
{
}

/// A message comes out as a command only if it is an object with a
/// `payload` whose `cmd` is one of the two commands acted on, and the
/// command that comes out is the one it names.
pub proof fn lemma_command_is_the_one_named(message: JsonNode)
    requires
        decoded(message) is Some,
    ensures
        message is Object,
        node_member(message, KEY_PAYLOAD@) is Some,
        node_member_text(message, KEY_CMD@) == Some(CMD_PROFILE_SAVE@) <==> decoded(
            message,
        )->Some_0 is ProfileSave,
        node_member_text(message, KEY_CMD@) == Some(CMD_DOWNLOAD_START@) <==> decoded(
            message,
        )->Some_0 is DownloadStart,
{
    reveal_strlit("profile_save");
    reveal_strlit("download_start");
    assert(CMD_PROFILE_SAVE@.len() != CMD_DOWNLOAD_START@.len());
}

/// The generic check passes none of the commands that are acted on.
pub proof fn lemma_validated_names_are_not_acted_on(cmd: Seq<char>)
    requires
        cmd == CMD_TABS_SAVE@ || cmd == CMD_TABS_LOAD@,
    ensures
        cmd != CMD_PROFILE_SAVE@,
        cmd != CMD_DOWNLOAD_START@,
{
    reveal_strlit("tabs_save");
    reveal_strlit("tabs_load");
    reveal_strlit("profile_save");
    reveal_strlit("download_start");
    assert(CMD_TABS_SAVE@.len() == 9 && CMD_TABS_LOAD@.len() == 9);
    assert(CMD_PROFILE_SAVE@.len() == 12 && CMD_DOWNLOAD_START@.len() == 14);
}

} // verus!
