//! Chat messages as scripts see them.
use vstd::prelude::*;

use super::author::AuthorInfo;
use super::chat::ChatInfo;
use super::{ScriptAuthor, ScriptChat};
use crate::text::{debug_text, decimal, integer_text, quoted};

verus! {

/// What the chat client knows of a message.
pub struct MessageInfo {
    pub text: String,
    pub author: AuthorInfo,
    pub chat: ChatInfo,
    pub log_id: i64,
    pub thread_id: Option<i64>,
    /// The message type as it travels on the wire.
    pub kind: i32,
    pub attachment: String,
}

/// A chat message as scripts see it.
#[derive(Clone, Debug)]
pub struct ScriptMessage {
    pub text: String,
    pub author: ScriptAuthor,
    pub chat: ScriptChat,
    pub log_id: i64,
    /// The thread the message belongs to, or 0 when it is in no thread.
    pub thread_id: i64,
    pub kind: i32,
    pub attachment: String,
}

impl ScriptMessage {
    /// The message as scripts see it, made from what the client knows of it.
    pub open spec fn shows(self, message: MessageInfo) -> bool {
        &&& self.text == message.text
        &&& self.author.shows(message.author)
        &&& self.chat.shows(message.chat)
        &&& self.log_id == message.log_id
        &&& self.thread_id == match message.thread_id {
            Some(t) => t,
            None => 0i64,
        }
        &&& self.kind == message.kind
        &&& self.attachment == message.attachment
    }

    pub fn new(message: MessageInfo) -> (made: Self)
        ensures
            made.shows(message),
            made.text == message.text,
            made.log_id == message.log_id,
            message.thread_id matches Some(t) ==> made.thread_id == t,
            message.thread_id is None ==> made.thread_id == 0,
            made.kind == message.kind,
            made.attachment == message.attachment,
    {
        let chat = ScriptChat::new(&message.chat);
        let author = ScriptAuthor::new(&message.author);
        ScriptMessage {
            text: message.text,
            author,
            chat,
            log_id: message.log_id,
            thread_id: match message.thread_id {
                Some(t) => t,
                None => 0,
            },
            kind: message.kind,
            attachment: message.attachment,
        }
    }

    /// How the message is shown: `author: text`.
    pub fn display_text(&self) -> (shown: String)
        ensures
            shown@ == self.author.name@ + ": "@ + self.text@,
    {
        let mut shown = self.author.name.clone();
        shown.append(": ");
        shown.append(self.text.as_str());
        shown
    }

    /// How the message is shown for debugging: every field, texts quoted.
    pub fn debug_text(&self) -> (shown: String)
        ensures
            shown@ == "ScriptMessage { author: "@ + debug_text(self.author.name@)
                + ", text: "@ + debug_text(self.text@) + ", log_id: "@ + decimal(
                self.log_id as int,
            ) + ", chat_id: "@ + self.chat.id@ + ", thread_id: "@ + decimal(
                self.thread_id as int,
            ) + ", kind: "@ + decimal(self.kind as int) + ", attachment: "@ + debug_text(
                self.attachment@,
            ) + " }"@,
    {
        let mut shown = String::from_str("ScriptMessage { author: ");
        let author = quoted(self.author.name.as_str());
        shown.append(author.as_str());
        shown.append(", text: ");
        let text = quoted(self.text.as_str());
        shown.append(text.as_str());
        shown.append(", log_id: ");
        let log_id = integer_text(self.log_id);
        shown.append(log_id.as_str());
        shown.append(", chat_id: ");
        shown.append(self.chat.id.as_str());
        shown.append(", thread_id: ");
        let thread_id = integer_text(self.thread_id);
        shown.append(thread_id.as_str());
        shown.append(", kind: ");
        let kind = integer_text(self.kind as i64);
        shown.append(kind.as_str());
        shown.append(", attachment: ");
        let attachment = quoted(self.attachment.as_str());
        shown.append(attachment.as_str());
        shown.append(" }");
        shown
    }
}

/// A message seen by scripts keeps what the client knows of it: its text, log id, kind
/// and attachment unchanged, its thread (0 when it is in none), and its author and chat.
pub proof fn lemma_message_keeps_the_client_message(made: ScriptMessage, message: MessageInfo)
    requires
        made.shows(message),
    ensures
        made.text == message.text,
        made.log_id == message.log_id,
        message.thread_id matches Some(t) ==> made.thread_id == t,
        message.thread_id is None ==> made.thread_id == 0,
        made.kind == message.kind,
        made.attachment == message.attachment,
        made.author.id@ == decimal(message.author.id as int),
        made.author.name@ == message.author.display@,
        made.chat.id@ == decimal(message.chat.id as int),
{
}

/// The complaint about a log that the chat does not have, as message methods give it.
pub fn no_such_log(log_id: i64) -> (message: String)
    ensures
        message@ == "로그 "@ + decimal(log_id as int) + " 이 없다"@,
{
    let mut message = String::from_str("로그 ");
    let id = integer_text(log_id);
    message.append(id.as_str());
    message.append(" 이 없다");
    message
}

} // verus!
