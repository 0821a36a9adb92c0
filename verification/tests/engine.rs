use script_engine::engine::{all_hooks, engine_error, reported, Hook, Script};
use script_engine::error::ScriptError;

#[test]
fn a_script_says_which_hooks_it_defines() {
    let mut present = vec![false; 18];
    present[0] = true;
    let script = Script::compiled("t", Ok(present)).unwrap();
    assert!(script.defines("onMessage"));
    assert!(!script.defines("onJoin"));
    assert!(script.defines_hook(Hook::OnMessage));
}

#[test]
fn a_script_without_hooks_defines_none() {
    let script = Script::compiled("t", Ok(vec![false; 18])).unwrap();
    assert!(script.hooks().is_empty());
}

#[test]
fn every_named_hook_is_findable() {
    let script = Script::compiled("t", Ok(vec![true; 18])).unwrap();
    assert_eq!(script.hooks().len(), all_hooks().len());
    for hook in all_hooks() {
        assert!(script.defines(hook.name()));
    }
}

#[test]
fn hooks_come_in_the_engine_order_with_their_names() {
    let names: Vec<&str> = all_hooks().into_iter().map(Hook::name).collect();
    assert_eq!(
        names,
        vec![
            "onMessage", "onJoin", "onLeave", "onMemberChange", "onRead", "onReaction",
            "onFeed", "onMetaChange", "onSyncJoin", "onLinkProfile", "onLeft", "onLogin",
            "onListening", "onKicked", "onMoved", "onPush", "onConnect", "onClose",
        ]
    );
}

#[test]
fn a_short_finding_counts_the_rest_as_absent() {
    let script = Script::compiled("t", Ok(vec![true, false, true])).unwrap();
    assert_eq!(script.hooks(), vec!["onMessage", "onLeave"]);
    assert!(!script.defines("onClose"));
}

#[test]
fn an_unknown_name_is_no_hook() {
    let script = Script::compiled("t", Ok(vec![true; 18])).unwrap();
    assert!(!script.defines("onmessage"));
    assert!(!script.defines(""));
}

#[test]
fn a_hook_that_throws_is_reported() {
    let failed = Script::finished(Err("ReferenceError: nope is not defined".to_string()));
    assert!(matches!(failed, Err(ScriptError::Vm(ref r)) if r.starts_with("ReferenceError")));
    assert!(Script::finished(Ok(())).is_ok());
}

#[test]
fn a_broken_script_reports_where_it_broke() {
    let refused = Script::compiled("t", Err("SyntaxError at 1:7".to_string()));
    let Err(error) = refused else {
        panic!("a broken script compiled");
    };
    assert!(error.is_compile());
    assert_eq!(error.message(), "t\nSyntaxError at 1:7");
}

#[test]
fn an_exception_report_has_message_then_trimmed_stack() {
    let report = reported(
        Some("boom".to_string()),
        "Error: boom".to_string(),
        Some("    at f (t:1)\n  \t".to_string()),
    );
    assert_eq!(report, "boom\n    at f (t:1)");
}

#[test]
fn an_exception_without_message_falls_back_to_the_error() {
    let report = reported(None, "Error: boom".to_string(), None);
    assert_eq!(report, "Error: boom");
}

#[test]
fn an_engine_failure_keeps_its_text() {
    let error = engine_error("out of memory".to_string());
    assert!(matches!(error, ScriptError::Rune(ref t) if t == "out of memory"));
    assert!(!error.is_compile());
}
