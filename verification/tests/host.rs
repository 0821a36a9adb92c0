use script_engine::api::author::AuthorInfo;
use script_engine::api::chat::ChatInfo;
use script_engine::api::message::MessageInfo;
use script_engine::engine::{Hook, Script};
use script_engine::error::ScriptError;
use script_engine::host::{dispatch, HookArgs, HostEvent, PushSignal, ScriptHost, ENTRY};

fn all_found() -> Vec<bool> {
    vec![true; 18]
}

fn only(hook_place: usize) -> Vec<bool> {
    let mut present = vec![false; 18];
    present[hook_place] = true;
    present
}

fn chat(id: i64) -> ChatInfo {
    ChatInfo { id, is_open_chat: Some(true), link_id: Some(77) }
}

fn member(id: i64, name: &str) -> AuthorInfo {
    AuthorInfo {
        id,
        display: name.to_string(),
        is_me: false,
        profile_url: None,
        member_type: Some(2),
    }
}

#[test]
fn a_host_starts_with_nothing_loaded() {
    assert!(ScriptHost::new().is_empty());
}

#[test]
fn a_default_host_is_empty_too() {
    let host = ScriptHost::default();
    assert_eq!(host.len(), 0);
    assert!(host.names().is_empty());
}

#[test]
fn a_loaded_script_is_listed_by_name() {
    let mut host = ScriptHost::new();
    host.add(Script::compiled("index.js", Ok(only(0)))).unwrap();
    assert_eq!(host.len(), 1);
    assert_eq!(host.names(), vec!["index.js"]);
}

#[test]
fn a_refused_script_leaves_the_host_as_it_was() {
    let mut host = ScriptHost::new();
    host.add(Script::compiled("a.js", Ok(only(0)))).unwrap();
    let refused = host.add(Script::compiled(
        "bad.js",
        Err("SyntaxError: unexpected token".to_string()),
    ));
    let Err(error) = refused else {
        panic!("a broken script loaded");
    };
    assert!(error.is_compile());
    assert!(error.message().starts_with("bad.js"));
    assert_eq!(host.names(), vec!["a.js"]);
}

#[test]
fn the_entry_file_is_index_js() {
    assert_eq!(ENTRY, "index.js");
}

#[test]
fn only_scripts_that_define_a_hook_hear_it_in_load_order() {
    let mut host = ScriptHost::new();
    host.add(Script::compiled("a.js", Ok(only(0)))).unwrap();
    host.add(Script::compiled("b.js", Ok(only(1)))).unwrap();
    host.add(Script::compiled("c.js", Ok(all_found()))).unwrap();
    assert_eq!(host.listeners(Hook::OnMessage), vec![0, 2]);
    assert_eq!(host.listeners(Hook::OnJoin), vec![1, 2]);
    assert_eq!(host.listeners(Hook::OnClose), vec![2]);
    assert_eq!(host.script(1).name(), "b.js");
}

#[test]
fn a_message_reaches_on_message() {
    let d = dispatch(HostEvent::Message(MessageInfo {
        text: "hi".to_string(),
        author: member(5, "kim"),
        chat: chat(9),
        log_id: 3_915_793_272_451_299_329,
        thread_id: None,
        kind: 1,
        attachment: String::new(),
    }));
    assert_eq!(d.forget_title, None);
    let firing = d.firing.unwrap();
    assert_eq!(firing.hook, Hook::OnMessage);
    let HookArgs::Message(message) = firing.args else {
        panic!("a message went out without itself");
    };
    assert_eq!(message.text, "hi");
    assert_eq!(message.author.id, "5");
    assert_eq!(message.chat.id, "9");
    assert_eq!(message.thread_id, 0);
    assert_eq!(message.display_text(), "kim: hi");
}

#[test]
fn members_keep_their_order_when_they_join() {
    let d = dispatch(HostEvent::Join {
        chat: chat(1),
        members: vec![member(1, "a"), member(2, "b")],
    });
    let firing = d.firing.unwrap();
    assert_eq!(firing.hook, Hook::OnJoin);
    let HookArgs::Members(c, members) = firing.args else {
        panic!("join lost its members");
    };
    assert_eq!(c.id, "1");
    let names: Vec<&str> = members.iter().map(|m| m.name.as_str()).collect();
    assert_eq!(names, vec!["a", "b"]);
}

#[test]
fn a_log_meta_change_is_a_reaction() {
    let d = dispatch(HostEvent::LogMeta {
        chat: chat(4),
        log_id: 10,
        meta_type: 3,
        content: "{}".to_string(),
    });
    assert_eq!(d.firing.unwrap().hook, Hook::OnReaction);
}

#[test]
fn a_room_setting_change_forgets_the_title_first() {
    let d = dispatch(HostEvent::Push {
        method: "CHGMETA".to_string(),
        kind: PushSignal::MetaChanged { chat_id: 42, meta: None },
    });
    assert_eq!(d.forget_title, Some(42));
    let firing = d.firing.unwrap();
    assert_eq!(firing.hook, Hook::OnMetaChange);
    let HookArgs::Meta(chat_id, meta_type, content) = firing.args else {
        panic!("the meta change lost its arguments");
    };
    assert_eq!((chat_id, meta_type, content.as_str()), (42, 0, ""));
}

#[test]
fn pushes_map_to_their_hooks() {
    let kicked = dispatch(HostEvent::Push { method: "KICKOUT".to_string(), kind: PushSignal::KickedOut });
    assert_eq!(kicked.firing.unwrap().hook, Hook::OnKicked);
    let moved = dispatch(HostEvent::Push { method: "CHANGESVR".to_string(), kind: PushSignal::ChangeServer });
    let firing = moved.firing.unwrap();
    assert_eq!(firing.hook, Hook::OnMoved);
    assert!(matches!(firing.args, HookArgs::Text(ref m) if m == "CHANGESVR"));
    let other = dispatch(HostEvent::Push { method: "MSG".to_string(), kind: PushSignal::Other });
    assert_eq!(other.firing.unwrap().hook, Hook::OnPush);
}

#[test]
fn a_ping_acknowledgement_fires_nothing() {
    let d = dispatch(HostEvent::PingAcknowledged);
    assert!(d.firing.is_none());
    assert!(d.forget_title.is_none());
}

#[test]
fn a_ping_interval_too_long_for_scripts_reads_as_zero() {
    let long = dispatch(HostEvent::Listening { ping_seconds: u64::MAX });
    assert!(matches!(long.firing.unwrap().args, HookArgs::Number(0)));
    let short = dispatch(HostEvent::Listening { ping_seconds: 60 });
    assert!(matches!(short.firing.unwrap().args, HookArgs::Number(60)));
}

#[test]
fn a_login_without_an_id_reads_as_zero() {
    let d = dispatch(HostEvent::LoggedIn { account_id: None });
    let firing = d.firing.unwrap();
    assert_eq!(firing.hook, Hook::OnLogin);
    assert!(matches!(firing.args, HookArgs::Number(0)));
}

#[test]
fn a_clean_close_has_an_empty_reason() {
    let clean = dispatch(HostEvent::Close { failure: None });
    assert!(matches!(clean.firing.unwrap().args, HookArgs::Text(ref r) if r.is_empty()));
    let broken = dispatch(HostEvent::Close { failure: Some("reset".to_string()) });
    assert!(matches!(broken.firing.unwrap().args, HookArgs::Text(ref r) if r == "reset"));
}

#[test]
fn a_failed_compile_is_a_compile_error() {
    let refused = Script::compiled("t", Err("SyntaxError".to_string()));
    assert!(matches!(refused, Err(ScriptError::Compile { .. })));
}
