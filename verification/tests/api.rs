use script_engine::api::author::{authors, AuthorInfo};
use script_engine::api::chat::{missing_log, unknown_reaction, ChatInfo, TitleCache, TitleStep};
use script_engine::api::http::{read_options, FetchOptions, ScriptResponse};
use script_engine::api::link::LinkInfo;
use script_engine::api::message::{no_such_log, MessageInfo};
use script_engine::api::room::RoomInfo;
use script_engine::api::session::SessionInfo;
use script_engine::api::{
    ScriptAuthor, ScriptChat, ScriptLink, ScriptMessage, ScriptRoom, ScriptSession,
};
use script_engine::error::ScriptError;

fn member() -> AuthorInfo {
    AuthorInfo {
        id: 12,
        display: "lee".to_string(),
        is_me: true,
        profile_url: None,
        member_type: None,
    }
}

#[test]
fn an_author_fills_what_is_missing() {
    let author = ScriptAuthor::new(&member());
    assert_eq!(author.id, "12");
    assert_eq!(author.profile_url, "");
    assert_eq!(author.member_type, 0);
    assert!(author.is_me);
    assert_eq!(author.to_string_js(), "lee (12)");
    assert_eq!(authors(&vec![member(), member()]).len(), 2);
}

#[test]
fn a_chat_is_shown_by_its_id() {
    let chat = ScriptChat::new(&ChatInfo { id: -5, is_open_chat: None, link_id: None });
    assert_eq!(chat.id, "-5");
    assert!(!chat.is_open_chat);
    assert_eq!(chat.link_id, "0");
    assert_eq!(chat.to_string_js(), "Chat(-5)");
}

#[test]
fn a_room_is_shown_by_id_and_kind() {
    let room = ScriptRoom::new(&RoomInfo {
        chat_id: 7,
        kind: "OM".to_string(),
        member_count: 3,
        unread: 1,
        last_log_id: None,
        link_id: 0,
        is_full: false,
    });
    assert_eq!(room.last_log_id, 0);
    assert_eq!(room.to_string_js(), "Room(7, OM)");
}

#[test]
fn a_link_and_a_session_are_shown() {
    let link = ScriptLink::new(&LinkInfo {
        link_id: 99,
        name: "모임".to_string(),
        url: "https://open.kakao.com/o/x".to_string(),
        description: String::new(),
        member_count: 1,
        member_limit: 100,
        needs_passcode: false,
        active: true,
    });
    assert_eq!(link.to_string_js(), "Link(99, 모임)");
    let session = ScriptSession::new(&SessionInfo { user_id: 1234 });
    assert_eq!(session.to_string_js(), "Session(1234)");
}

#[test]
fn a_message_debug_line_quotes_its_texts() {
    let message = ScriptMessage::new(MessageInfo {
        text: "say \"hi\"".to_string(),
        author: member(),
        chat: ChatInfo { id: 3, is_open_chat: Some(false), link_id: None },
        log_id: 8,
        thread_id: Some(2),
        kind: 1,
        attachment: "{}".to_string(),
    });
    assert_eq!(
        message.debug_text(),
        "ScriptMessage { author: \"lee\", text: \"say \\\"hi\\\"\", log_id: 8, chat_id: 3, thread_id: 2, kind: 1, attachment: \"{}\" }"
    );
    assert_eq!(message.display_text(), "lee: say \"hi\"");
}

#[test]
fn complaints_name_what_was_missing() {
    assert_eq!(missing_log("17"), "로그 17 이(가) 없다");
    assert_eq!(no_such_log(17), "로그 17 이 없다");
    assert_eq!(unknown_reaction(-3), "-3 은 없는 반응이다");
}

#[test]
fn a_remembered_title_is_served_until_forgotten() {
    let mut cache = TitleCache::new();
    assert!(matches!(cache.begin(1, Some(true), Some(50)), TitleStep::AskLink(50)));
    assert!(matches!(cache.begin(1, Some(false), Some(50)), TitleStep::AskChat));
    assert!(matches!(cache.begin(1, Some(true), None), TitleStep::AskChat));
    assert!(matches!(cache.after_link(1, Some("방".to_string())), TitleStep::Done(ref t) if t == "방"));
    assert!(matches!(cache.begin(1, Some(true), Some(50)), TitleStep::Done(ref t) if t == "방"));
    cache.forget(1);
    assert_eq!(cache.known(1), None);
}

#[test]
fn a_nameless_link_falls_back_to_the_chat_title() {
    let mut cache = TitleCache::new();
    assert!(matches!(cache.after_link(2, Some(String::new())), TitleStep::AskChat));
    assert!(matches!(cache.after_link(2, None), TitleStep::AskChat));
    assert_eq!(cache.known(2), None);
    assert_eq!(cache.after_chat(2, None), "");
    assert_eq!(cache.known(2), Some(String::new()));
    assert_eq!(cache.after_chat(3, Some("친구".to_string())), "친구");
    assert_eq!(cache.known(3), Some("친구".to_string()));
    cache.forget(2);
    assert_eq!(cache.known(3), Some("친구".to_string()));
}

#[test]
fn fetch_without_options_is_a_bare_get() {
    let request = read_options("http://x", None);
    assert_eq!(request.method, "GET");
    assert!(request.headers.is_empty());
    assert!(request.body.is_none());
    assert_eq!(request.method_to_send().unwrap().as_str(), "GET");
}

#[test]
fn fetch_options_are_taken_as_given() {
    let request = read_options(
        "http://x",
        Some(FetchOptions {
            method: Some("POST".to_string()),
            headers: Some(vec![("a".to_string(), "b".to_string())]),
            body: Some("{}".to_string()),
        }),
    );
    assert_eq!(request.url, "http://x");
    assert_eq!(request.method, "POST");
    assert_eq!(request.headers, vec![("a".to_string(), "b".to_string())]);
    assert_eq!(request.body.as_deref(), Some("{}"));
    assert_eq!(request.method_to_send().unwrap(), reqwest::Method::POST);
    let partial = read_options("u", Some(FetchOptions { method: None, headers: None, body: None }));
    assert_eq!(partial.method, "GET");
}

#[test]
fn a_method_that_is_no_token_is_refused() {
    for method in ["", "GE T", "GÉT", "(GET)"] {
        let request = read_options(
            "u",
            Some(FetchOptions { method: Some(method.to_string()), headers: None, body: None }),
        );
        assert!(request.method_to_send().is_err(), "{method:?}");
    }
    let custom = read_options(
        "u",
        Some(FetchOptions { method: Some("PURGE".to_string()), headers: None, body: None }),
    );
    assert_eq!(custom.method_to_send().unwrap().as_str(), "PURGE");
}

#[test]
fn only_two_hundreds_are_ok() {
    assert!(!ScriptResponse::new(199, String::new(), String::new()).ok);
    assert!(ScriptResponse::new(200, String::new(), String::new()).ok);
    assert!(ScriptResponse::new(299, String::new(), String::new()).ok);
    assert!(!ScriptResponse::new(300, String::new(), String::new()).ok);
    let response = ScriptResponse::new(404, "http://x/y".to_string(), "gone".to_string());
    assert_eq!(response.to_string_js(), "Response(404, http://x/y)");
    assert_eq!(response.text(), "gone");
}

#[test]
fn error_texts_read_as_the_host_shows_them() {
    assert_eq!(ScriptError::Crowded { limit: 8 }.message(), "배경 스크립트가 이미 8개다");
    assert_eq!(ScriptError::Nested.message(), "eval 안에서 다시 eval 할 수 없다");
    assert_eq!(ScriptError::Vm("x".to_string()).message(), "x");
    let unreadable = ScriptError::Unreadable {
        path: "scripts/index.js".to_string(),
        source: std::io::Error::new(std::io::ErrorKind::NotFound, "no such file"),
    };
    assert_eq!(unreadable.message(), "scripts/index.js: no such file");
}

#[test]
fn a_refused_method_says_so() {
    let request = read_options(
        "u",
        Some(FetchOptions { method: Some("G T".to_string()), headers: None, body: None }),
    );
    let error = request.method_to_send().unwrap_err();
    assert!(error.to_string().contains("invalid HTTP method"), "{error}");
    let made = script_engine::api::complaint("boom".to_string());
    assert!(made.to_string().contains("boom"));
}
