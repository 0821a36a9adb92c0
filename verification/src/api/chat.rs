//! Chats as scripts see them, and the chat titles the host remembers.
use std::collections::HashMap;

use vstd::prelude::*;

use super::id_text;
use crate::text::decimal;

verus! {

broadcast use vstd::std_specs::hash::group_hash_axioms;

/// What the chat client knows of a chat.
pub struct ChatInfo {
    pub id: i64,
    pub is_open_chat: Option<bool>,
    pub link_id: Option<i64>,
}

/// A chat as scripts see it.
#[derive(Clone, Debug)]
pub struct ScriptChat {
    /// The chat's id, as text.
    pub id: String,
    /// Whether the chat is an open chat; false when that is unknown.
    pub is_open_chat: bool,
    /// The open-chat link's id, as text; "0" when the chat has none.
    pub link_id: String,
}

impl ScriptChat {
    /// The chat as scripts see it, made from what the client knows of it.
    pub open spec fn shows(self, chat: ChatInfo) -> bool {
        &&& self.id@ == decimal(chat.id as int)
        &&& self.is_open_chat == (chat.is_open_chat == Some(true))
        &&& self.link_id@ == decimal(
            match chat.link_id {
                Some(id) => id as int,
                None => 0,
            },
        )
    }

    pub fn new(chat: &ChatInfo) -> (made: Self)
        ensures
            made.shows(*chat),
            made.id@ == decimal(chat.id as int),
            made.is_open_chat == (chat.is_open_chat == Some(true)),
            made.id@ == decimal(chat.id as int),
            made.is_open_chat == (chat.is_open_chat == Some(true)),
            made.link_id@ == decimal(
                match chat.link_id {
                    Some(id) => id as int,
                    None => 0,
                },
            ),
    {
        ScriptChat {
            id: id_text(chat.id),
            is_open_chat: match chat.is_open_chat {
                Some(open) => open,
                None => false,
            },
            link_id: id_text(
                match chat.link_id {
                    Some(id) => id,
                    None => 0,
                },
            ),
        }
    }

    /// How a script prints the chat: `Chat(id)`.
    pub fn to_string_js(&self) -> (shown: String)
        ensures
            shown@ == "Chat("@ + self.id@ + ")"@,
    {
        let mut shown = String::from_str("Chat(");
        shown.append(self.id.as_str());
        shown.append(")");
        shown
    }
}

/// The complaint about a log that the chat does not have.
pub fn missing_log(log_id: &str) -> (message: String)
    ensures
        message@ == "로그 "@ + log_id@ + " 이(가) 없다"@,
{
    let mut message = String::from_str("로그 ");
    message.append(log_id);
    message.append(" 이(가) 없다");
    message
}

/// The complaint about a reaction code that names no reaction.
pub fn unknown_reaction(reaction: i32) -> (message: String)
    ensures
        message@ == decimal(reaction as int) + " 은 없는 반응이다"@,
{
    let mut message = crate::text::integer_text(reaction as i64);
    message.append(" 은 없는 반응이다");
    message
}

/// The titles of chats, as far as the host has looked them up.
pub struct TitleCache {
    titles: HashMap<i64, String>,
}

/// The next move in finding a chat's title.
pub enum TitleStep {
    /// The title is known.
    Done(String),
    /// Ask the client for the open-chat link with this id; its name is the title.
    AskLink(i64),
    /// Ask the client for the chat's own title.
    AskChat,
}

impl View for TitleCache {
    type V = Map<i64, Seq<char>>;

    closed spec fn view(&self) -> Map<i64, Seq<char>> {
        self.titles@.map_values(|t: String| t@)
    }
}

/// A title the host has found stays the answer for its chat until it is forgotten, and
/// forgetting one chat's title keeps every other chat's.
pub proof fn lemma_titles_kept_until_forgotten(
    titles: Map<i64, Seq<char>>,
    chat_id: i64,
    title: Seq<char>,
    other: i64,
)
    ensures
        titles.insert(chat_id, title).contains_key(chat_id),
        titles.insert(chat_id, title)[chat_id] == title,
        !titles.remove(chat_id).contains_key(chat_id),
        other != chat_id ==> (titles.remove(chat_id).contains_key(other) == titles.contains_key(
            other,
        )),
        other != chat_id && titles.contains_key(other) ==> titles.remove(chat_id)[other]
            == titles[other],
{
}

/// How the search for a chat's title starts, given the titles remembered so far.
pub open spec fn search_starts(
    titles: Map<i64, Seq<char>>,
    chat_id: i64,
    is_open_chat: Option<bool>,
    link_id: Option<i64>,
    step: TitleStep,
) -> bool {
    match step {
        TitleStep::Done(t) => titles.contains_key(chat_id) && t@ == titles[chat_id],
        TitleStep::AskLink(l) => !titles.contains_key(chat_id) && is_open_chat == Some(true)
            && link_id == Some(l),
        TitleStep::AskChat => !titles.contains_key(chat_id) && !(is_open_chat == Some(true)
            && link_id is Some),
    }
}

/// A remembered title is the answer with no request to the server, and two searches
/// over the same remembered titles, with nothing forgotten between them, give the same
/// title.
pub proof fn lemma_remembered_title_needs_no_request(
    titles: Map<i64, Seq<char>>,
    chat_id: i64,
    is_open_chat: Option<bool>,
    link_id: Option<i64>,
    first: TitleStep,
    second: TitleStep,
)
    requires
        titles.contains_key(chat_id),
        search_starts(titles, chat_id, is_open_chat, link_id, first),
        search_starts(titles, chat_id, is_open_chat, link_id, second),
    ensures
        first matches TitleStep::Done(t) && t@ == titles[chat_id],
        second matches TitleStep::Done(u) && u@ == titles[chat_id],
{
}

/// A title that is not remembered is never answered without asking: an open chat with
/// a link asks for that link, and every other chat asks for its own title.
pub proof fn lemma_unremembered_title_is_asked_for(
    titles: Map<i64, Seq<char>>,
    chat_id: i64,
    is_open_chat: Option<bool>,
    link_id: Option<i64>,
    step: TitleStep,
)
    requires
        !titles.contains_key(chat_id),
        search_starts(titles, chat_id, is_open_chat, link_id, step),
    ensures
        !(step is Done),
        is_open_chat == Some(true) && link_id is Some ==> step == TitleStep::AskLink(link_id->0),
        !(is_open_chat == Some(true) && link_id is Some) ==> step is AskChat,
{
}

/// A chat seen by scripts carries the client's chat: its id as text, whether it is an
/// open chat (false when unknown), and its link's id as text (0 when it has none).
pub proof fn lemma_chat_shows_the_client_chat(made: ScriptChat, chat: ChatInfo)
    requires
        made.shows(chat),
    ensures
        made.id@ == decimal(chat.id as int),
        chat.is_open_chat == Some(true) ==> made.is_open_chat,
        chat.is_open_chat != Some(true) ==> !made.is_open_chat,
        chat.link_id matches Some(l) ==> made.link_id@ == decimal(l as int),
        chat.link_id is None ==> made.link_id@ == decimal(0),
{
}

impl TitleCache {
    /// A cache that knows no title.
    pub fn new() -> (cache: Self)
        ensures
            cache@ == Map::<i64, Seq<char>>::empty(),
    {
        let cache = TitleCache { titles: HashMap::new() };
        assert(cache@ =~= Map::<i64, Seq<char>>::empty());
        cache
    }

    /// The title remembered for a chat.
    pub fn known(&self, chat_id: i64) -> (title: Option<String>)
        ensures
            match title {
                Some(t) => self@.contains_key(chat_id) && t@ == self@[chat_id],
                None => !self@.contains_key(chat_id),
            },
    {
        match self.titles.get(&chat_id) {
            Some(t) => Some(t.clone()),
            None => None,
        }
    }

    /// Remembers a chat's title.
    pub fn remember(&mut self, chat_id: i64, title: String)
        ensures
            final(self)@ == old(self)@.insert(chat_id, title@),
    {
        let ghost seen = title@;
        self.titles.insert(chat_id, title);
        assert(self@ =~= old(self)@.insert(chat_id, seen));
    }

    /// Forgets a chat's title: once a room's settings change, its name may have too.
    pub fn forget(&mut self, chat_id: i64)
        ensures
            final(self)@ == old(self)@.remove(chat_id),
    {
        self.titles.remove(&chat_id);
        assert(self@ =~= old(self)@.remove(chat_id));
    }

    /// Where the search for a chat's title starts: a remembered title is the answer;
    /// otherwise an open chat with a link asks for the link, and any other chat asks
    /// for its own title.
    pub fn begin(&self, chat_id: i64, is_open_chat: Option<bool>, link_id: Option<i64>) -> (step:
        TitleStep)
        ensures
            search_starts(self@, chat_id, is_open_chat, link_id, step),
            self@.contains_key(chat_id) ==> (step matches TitleStep::Done(t) && t@ == self@[chat_id]),
            !self@.contains_key(chat_id) ==> !(step is Done),
            !self@.contains_key(chat_id) && is_open_chat == Some(true) && link_id is Some ==> step
                == TitleStep::AskLink(link_id->0),
            !self@.contains_key(chat_id) && !(is_open_chat == Some(true) && link_id is Some) ==> step
                is AskChat,
    {
        match self.known(chat_id) {
            Some(t) => TitleStep::Done(t),
            None => {
                if is_open_chat == Some(true) {
                    match link_id {
                        Some(l) => TitleStep::AskLink(l),
                        None => TitleStep::AskChat,
                    }
                } else {
                    TitleStep::AskChat
                }
            },
        }
    }

    /// The link has been looked up. A link with a name names the chat, and that name is
    /// remembered; a missing link, or one without a name, leaves the chat's own title to
    /// ask for.
    pub fn after_link(&mut self, chat_id: i64, link_name: Option<String>) -> (step: TitleStep)
        ensures
            match link_name {
                Some(name) if name@.len() > 0 => step matches TitleStep::Done(t) && t@ == name@
                    && final(self)@ == old(self)@.insert(chat_id, name@),
                _ => step is AskChat && final(self)@ == old(self)@,
            },
    {
        match link_name {
            Some(name) => {
                if name.as_str().unicode_len() > 0 {
                    let kept = name.clone();
                    self.remember(chat_id, name);
                    TitleStep::Done(kept)
                } else {
                    TitleStep::AskChat
                }
            },
            None => TitleStep::AskChat,
        }
    }

    /// The chat's own title has been looked up; a chat without one is titled with the
    /// empty text. Either way the answer is remembered.
    pub fn after_chat(&mut self, chat_id: i64, title: Option<String>) -> (found: String)
        ensures
            found@ == match title {
                Some(t) => t@,
                None => Seq::<char>::empty(),
            },
            final(self)@ == old(self)@.insert(chat_id, found@),
    {
        let found = match title {
            Some(t) => t,
            None => String::new(),
        };
        let kept = found.clone();
        self.remember(chat_id, found);
        kept
    }
}

} // verus!
