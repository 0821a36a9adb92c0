//! The host: the scripts it has loaded, and which hook each chat event reaches.
use vstd::prelude::*;

use crate::api::author::{all_show, authors, AuthorInfo};
use crate::api::chat::ChatInfo;
use crate::api::message::MessageInfo;
use crate::api::{ScriptAuthor, ScriptChat, ScriptMessage};
use crate::engine::{Hook, Script};
use crate::error::ScriptError;

verus! {

/// The file a script directory starts from.
pub const ENTRY: &'static str = "index.js";

/// The scripts a host has loaded, in the order they were loaded.
pub struct ScriptHost {
    scripts: Vec<Script>,
}

/// The places, in increasing order, of the scripts among `scripts` that define `hook`.
pub open spec fn listening(scripts: Seq<Script>, hook: Hook) -> Seq<usize>
    decreases scripts.len(),
{
    if scripts.len() == 0 {
        Seq::empty()
    } else {
        let before = listening(scripts.drop_last(), hook);
        if scripts.last().handles().contains(hook) {
            before.push((scripts.len() - 1) as usize)
        } else {
            before
        }
    }
}

/// The scripts that hear an event are each heard once, in load order: their places
/// increase, lie among the loaded scripts, and are exactly the places of the scripts
/// that define the hook.
pub proof fn lemma_listening(scripts: Seq<Script>, hook: Hook)
    requires
        scripts.len() <= usize::MAX,
    ensures
        forall|i: int, j: int|
            0 <= i < j < listening(scripts, hook).len() ==> listening(scripts, hook)[i] < listening(
                scripts,
                hook,
            )[j],
        forall|i: int|
            0 <= i < listening(scripts, hook).len() ==> listening(scripts, hook)[i] < scripts.len(),
        forall|k: int|
            0 <= k < scripts.len() ==> (listening(scripts, hook).contains(k as usize) <==> scripts[k].handles().contains(hook)),
    decreases scripts.len(),
{
    if scripts.len() > 0 {
        let shorter = scripts.drop_last();
        lemma_listening(shorter, hook);
        let before = listening(shorter, hook);
        let after = listening(scripts, hook);
        let last = (scripts.len() - 1) as usize;
        if scripts.last().handles().contains(hook) {
            assert(after == before.push(last));
            assert forall|i: int, j: int| 0 <= i < j < after.len() implies after[i] < after[j] by {
                if j == after.len() - 1 {
                    assert(before[i] < shorter.len());
                } else {
                    assert(before[i] < before[j]);
                }
            }
        } else {
            assert(after == before);
        }
        assert forall|k: int| 0 <= k < scripts.len() implies (after.contains(k as usize) <==> scripts[k].handles().contains(hook)) by {
            if k < scripts.len() - 1 {
                assert(shorter[k] == scripts[k]);
                if after.contains(k as usize) {
                    let i = choose|i: int| 0 <= i < after.len() && after[i] == k as usize;
                    if i < before.len() {
                        assert(before[i] == k as usize);
                    }
                }
                if before.contains(k as usize) {
                    let i = choose|i: int| 0 <= i < before.len() && before[i] == k as usize;
                    assert(after[i] == k as usize);
                }
            } else {
                if scripts.last().handles().contains(hook) {
                    assert(after[before.len() as int] == last);
                } else {
                    if after.contains(k as usize) {
                        let i = choose|i: int| 0 <= i < after.len() && after[i] == k as usize;
                        assert(before[i] < shorter.len());
                    }
                }
            }
        }
    }
}

impl ScriptHost {
    /// The loaded scripts, in load order.
    pub closed spec fn loaded(&self) -> Seq<Script> {
        self.scripts@
    }

    /// A host with nothing loaded.
    pub fn new() -> (host: Self)
        ensures
            host.loaded() == Seq::<Script>::empty(),
    {
        ScriptHost { scripts: Vec::new() }
    }

    /// Takes in a compiled script. A script that failed to compile is refused with its
    /// error, and the host stays as it was.
    pub fn add(&mut self, compiled: Result<Script, ScriptError>) -> (added: Result<(), ScriptError>)
        ensures
            match compiled {
                Ok(s) => added is Ok && final(self).loaded() == old(self).loaded().push(s),
                Err(e) => added == Err::<(), ScriptError>(e) && final(self).loaded() == old(
                    self,
                ).loaded(),
            },
    {
        match compiled {
            Ok(script) => {
                self.scripts.push(script);
                Ok(())
            },
            Err(error) => Err(error),
        }
    }

    /// How many scripts are loaded.
    pub fn len(&self) -> (n: usize)
        ensures
            n == self.loaded().len(),
    {
        self.scripts.len()
    }

    /// Whether no script is loaded.
    pub fn is_empty(&self) -> (b: bool)
        ensures
            b == (self.loaded().len() == 0),
    {
        self.scripts.len() == 0
    }

    /// The names of the loaded scripts, in load order.
    pub fn names(&self) -> (names: Vec<&str>)
        ensures
            names@.len() == self.loaded().len(),
            forall|i: int| 0 <= i < names@.len() ==> (#[trigger] names@[i])@ == self.loaded()[i].script_name(),
    {
        let mut names: Vec<&str> = Vec::new();
        let mut i: usize = 0;
        while i < self.scripts.len()
            invariant
                i <= self.scripts@.len(),
                names@.len() == i,
                forall|j: int| 0 <= j < i ==> (#[trigger] names@[j])@ == self.scripts@[j].script_name(),
            decreases self.scripts@.len() - i,
        {
            names.push(self.scripts[i].name());
            i = i + 1;
        }
        names
    }

    /// The loaded script at a place.
    pub fn script(&self, i: usize) -> (script: &Script)
        requires
            i < self.loaded().len(),
        ensures
            *script == self.loaded()[i as int],
    {
        &self.scripts[i]
    }

    /// The scripts that hear an event of `hook`: every loaded script that defines the
    /// hook, each once, in load order. A script that fails on the event does not keep
    /// the ones after it from hearing it.
    pub fn listeners(&self, hook: Hook) -> (places: Vec<usize>)
        ensures
            places@ == listening(self.loaded(), hook),
    {
        let mut places: Vec<usize> = Vec::new();
        let mut i: usize = 0;
        while i < self.scripts.len()
            invariant
                i <= self.scripts@.len(),
                places@ == listening(self.scripts@.take(i as int), hook),
            decreases self.scripts@.len() - i,
        {
            assert(self.scripts@.take(i + 1).drop_last() =~= self.scripts@.take(i as int));
            if self.scripts[i].defines_hook(hook) {
                places.push(i);
            }
            i = i + 1;
        }
        assert(self.scripts@.take(self.scripts@.len() as int) =~= self.scripts@);
        places
    }
}

impl Default for ScriptHost {
    fn default() -> (host: Self)
        ensures
            host.loaded() == Seq::<Script>::empty(),
    {
        ScriptHost::new()
    }
}


/// What a push from the server was about.
pub enum PushSignal {
    /// The account was logged in elsewhere.
    KickedOut,
    /// The server asked the client to move to another server.
    ChangeServer,
    /// The server is restarting.
    Restarted,
    /// A room's settings changed; the meta, when there is one, is its type and content.
    MetaChanged { chat_id: i64, meta: Option<(i32, String)> },
    /// Any other push.
    Other,
}

/// An event from the chat client, with what the scripts are told of it.
pub enum HostEvent {
    Message(MessageInfo),
    Join { chat: ChatInfo, members: Vec<AuthorInfo> },
    Leave { chat: ChatInfo, members: Vec<AuthorInfo> },
    Read { chat: ChatInfo, user_id: i64, watermark: i64 },
    LogMeta { chat: ChatInfo, log_id: i64, meta_type: i32, content: String },
    MemberChange { chat: ChatInfo, joined: bool, members: Vec<AuthorInfo> },
    Feed { chat: ChatInfo, feed_type: i32 },
    SyncJoin { chat: ChatInfo },
    LinkProfile { chat: ChatInfo, link_id: i64 },
    Left { chat: ChatInfo },
    LoggedIn { account_id: Option<i64> },
    Listening { ping_seconds: u64 },
    Push { method: String, kind: PushSignal },
    PingAcknowledged,
    Connect,
    /// The connection closed; `failure` is the error's text when it closed on one.
    Close { failure: Option<String> },
}

/// The arguments a hook is called with.
pub enum HookArgs {
    Nothing,
    Message(ScriptMessage),
    Members(ScriptChat, Vec<ScriptAuthor>),
    Read(ScriptChat, i64, i64),
    Reaction(ScriptChat, i64, i32, String),
    MemberChange(ScriptChat, bool, Vec<ScriptAuthor>),
    Feed(ScriptChat, i32),
    Chat(ScriptChat),
    Link(ScriptChat, i64),
    Number(i64),
    Text(String),
    Meta(i64, i32, String),
}

/// A hook to call on every script that listens, with its arguments.
pub struct Firing {
    pub hook: Hook,
    pub args: HookArgs,
}

/// What the host does on an event: forget a chat's title first, when a room's settings
/// changed, then fire a hook, unless the event is not one scripts hear of.
pub struct Dispatch {
    pub forget_title: Option<i64>,
    pub firing: Option<Firing>,
}

/// The hook an event fires and the arguments it carries, when the event's own title
/// need not be forgotten.
pub open spec fn fires(d: Dispatch, hook: Hook) -> bool {
    d.forget_title is None && (d.firing matches Some(f) && f.hook == hook)
}

/// A ping interval in whole seconds as scripts get it: 0 when it does not fit an `i64`.
pub open spec fn seconds_for_scripts(seconds: u64) -> i64 {
    if seconds <= i64::MAX as u64 {
        seconds as i64
    } else {
        0
    }
}

/// Decides what the host does on an event.
pub fn dispatch(event: HostEvent) -> (d: Dispatch)
    ensures
        match event {
            HostEvent::Message(m) => fires(d, Hook::OnMessage) && (d.firing->0.args matches HookArgs::Message(sm) && sm.shows(m)),
            HostEvent::Join { chat, members } => fires(d, Hook::OnJoin) && (d.firing->0.args matches HookArgs::Members(c, ms) && c.shows(chat) && all_show(ms@, members@)),
            HostEvent::Leave { chat, members } => fires(d, Hook::OnLeave) && (d.firing->0.args matches HookArgs::Members(c, ms) && c.shows(chat) && all_show(ms@, members@)),
            HostEvent::Read { chat, user_id, watermark } => fires(d, Hook::OnRead) && (d.firing->0.args matches HookArgs::Read(c, u, w) && c.shows(chat) && u == user_id && w == watermark),
            HostEvent::LogMeta { chat, log_id, meta_type, content } => fires(d, Hook::OnReaction) && (d.firing->0.args matches HookArgs::Reaction(c, l, t, x) && c.shows(chat) && l == log_id && t == meta_type && x == content),
            HostEvent::MemberChange { chat, joined, members } => fires(d, Hook::OnMemberChange) && (d.firing->0.args matches HookArgs::MemberChange(c, j, ms) && c.shows(chat) && j == joined && all_show(ms@, members@)),
            HostEvent::Feed { chat, feed_type } => fires(d, Hook::OnFeed) && (d.firing->0.args matches HookArgs::Feed(c, f) && c.shows(chat) && f == feed_type),
            HostEvent::SyncJoin { chat } => fires(d, Hook::OnSyncJoin) && (d.firing->0.args matches HookArgs::Chat(c) && c.shows(chat)),
            HostEvent::LinkProfile { chat, link_id } => fires(d, Hook::OnLinkProfile) && (d.firing->0.args matches HookArgs::Link(c, l) && c.shows(chat) && l == link_id),
            HostEvent::Left { chat } => fires(d, Hook::OnLeft) && (d.firing->0.args matches HookArgs::Chat(c) && c.shows(chat)),
            HostEvent::LoggedIn { account_id } => fires(d, Hook::OnLogin) && d.firing->0.args == HookArgs::Number(
                match account_id {
                    Some(u) => u,
                    None => 0i64,
                },
            ),
            HostEvent::Listening { ping_seconds } => fires(d, Hook::OnListening) && d.firing->0.args == HookArgs::Number(seconds_for_scripts(ping_seconds)),
            HostEvent::Push { method, kind } => match kind {
                PushSignal::KickedOut => fires(d, Hook::OnKicked) && d.firing->0.args is Nothing,
                PushSignal::ChangeServer => fires(d, Hook::OnMoved) && d.firing->0.args == HookArgs::Text(method),
                PushSignal::Restarted => fires(d, Hook::OnMoved) && d.firing->0.args == HookArgs::Text(method),
                PushSignal::MetaChanged { chat_id, meta } => d.forget_title == Some(chat_id) && (d.firing matches Some(f) && f.hook == Hook::OnMetaChange && (f.args matches HookArgs::Meta(c, t, x) && c == chat_id && match meta {
                    Some((mt, mc)) => t == mt && x == mc,
                    None => t == 0 && x@ == Seq::<char>::empty(),
                })),
                PushSignal::Other => fires(d, Hook::OnPush) && d.firing->0.args == HookArgs::Text(method),
            },
            HostEvent::PingAcknowledged => d.forget_title is None && d.firing is None,
            HostEvent::Connect => fires(d, Hook::OnConnect) && d.firing->0.args is Nothing,
            HostEvent::Close { failure } => fires(d, Hook::OnClose) && (d.firing->0.args matches HookArgs::Text(reason) && reason@ == match failure {
                Some(f) => f@,
                None => Seq::<char>::empty(),
            }),
        },
{
    let (forget_title, firing) = match event {
        HostEvent::Message(m) => (None, Some(Firing { hook: Hook::OnMessage, args: HookArgs::Message(ScriptMessage::new(m)) })),
        HostEvent::Join { chat, members } => (None, Some(Firing { hook: Hook::OnJoin, args: HookArgs::Members(ScriptChat::new(&chat), authors(&members)) })),
        HostEvent::Leave { chat, members } => (None, Some(Firing { hook: Hook::OnLeave, args: HookArgs::Members(ScriptChat::new(&chat), authors(&members)) })),
        HostEvent::Read { chat, user_id, watermark } => (None, Some(Firing { hook: Hook::OnRead, args: HookArgs::Read(ScriptChat::new(&chat), user_id, watermark) })),
        HostEvent::LogMeta { chat, log_id, meta_type, content } => (None, Some(Firing { hook: Hook::OnReaction, args: HookArgs::Reaction(ScriptChat::new(&chat), log_id, meta_type, content) })),
        HostEvent::MemberChange { chat, joined, members } => (None, Some(Firing { hook: Hook::OnMemberChange, args: HookArgs::MemberChange(ScriptChat::new(&chat), joined, authors(&members)) })),
        HostEvent::Feed { chat, feed_type } => (None, Some(Firing { hook: Hook::OnFeed, args: HookArgs::Feed(ScriptChat::new(&chat), feed_type) })),
        HostEvent::SyncJoin { chat } => (None, Some(Firing { hook: Hook::OnSyncJoin, args: HookArgs::Chat(ScriptChat::new(&chat)) })),
        HostEvent::LinkProfile { chat, link_id } => (None, Some(Firing { hook: Hook::OnLinkProfile, args: HookArgs::Link(ScriptChat::new(&chat), link_id) })),
        HostEvent::Left { chat } => (None, Some(Firing { hook: Hook::OnLeft, args: HookArgs::Chat(ScriptChat::new(&chat)) })),
        HostEvent::LoggedIn { account_id } => {
            let id = match account_id {
                Some(u) => u,
                None => 0,
            };
            (None, Some(Firing { hook: Hook::OnLogin, args: HookArgs::Number(id) }))
        },
        HostEvent::Listening { ping_seconds } => {
            let seconds: i64 = if ping_seconds <= 0x7fff_ffff_ffff_ffff {
                ping_seconds as i64
            } else {
                0
            };
            (None, Some(Firing { hook: Hook::OnListening, args: HookArgs::Number(seconds) }))
        },
        HostEvent::Push { method, kind } => match kind {
            PushSignal::KickedOut => (None, Some(Firing { hook: Hook::OnKicked, args: HookArgs::Nothing })),
            PushSignal::ChangeServer => (None, Some(Firing { hook: Hook::OnMoved, args: HookArgs::Text(method) })),
            PushSignal::Restarted => (None, Some(Firing { hook: Hook::OnMoved, args: HookArgs::Text(method) })),
            PushSignal::MetaChanged { chat_id, meta } => {
                let (meta_type, content) = match meta {
                    Some((t, c)) => (t, c),
                    None => (0, String::new()),
                };
                (Some(chat_id), Some(Firing { hook: Hook::OnMetaChange, args: HookArgs::Meta(chat_id, meta_type, content) }))
            },
            PushSignal::Other => (None, Some(Firing { hook: Hook::OnPush, args: HookArgs::Text(method) })),
        },
        HostEvent::PingAcknowledged => (None, None),
        HostEvent::Connect => (None, Some(Firing { hook: Hook::OnConnect, args: HookArgs::Nothing })),
        HostEvent::Close { failure } => {
            let reason = match failure {
                Some(f) => f,
                None => String::new(),
            };
            (None, Some(Firing { hook: Hook::OnClose, args: HookArgs::Text(reason) }))
        },
    };
    Dispatch { forget_title, firing }
}

} // verus!
