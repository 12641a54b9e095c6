use herald::hooks::file_logging::{
    session_loaded_log, session_saved_log, tool_call_log, FileLoggingHook, PREVIEW_BYTES,
};
use orra::message::Message;
use orra::namespace::Namespace;
use orra::store::Session;
use serde_json::Value;

fn object(name: &str, value: &str) -> Value {
    let mut members = serde_json::Map::new();
    members.insert(name.to_string(), Value::String(value.to_string()));
    Value::Object(members)
}

#[test]
fn new_session_is_logged_and_counts_start_over() {
    let mut hook = FileLoggingHook {
        call_start: Some('t'),
        turn: 4,
        total_input_tokens: 5,
        total_output_tokens: 6,
    };
    let namespace = Namespace::new("acme").child("alice");
    let log = hook.after_session_load(&namespace, &Session::new(namespace.clone()));
    assert_eq!(log, "[session] new session for acme:alice");
    assert_eq!((hook.turn, hook.total_input_tokens, hook.total_output_tokens), (0, 0, 0));
    assert_eq!(hook.call_start, Some('t'));
}

#[test]
fn loaded_session_is_logged_with_its_messages() {
    let mut hook = FileLoggingHook::<char>::new();
    let namespace = Namespace::new("acme");
    let mut session = Session::new(namespace.clone());
    session.push_message(Message::user("one"));
    session.push_message(Message::user("two"));
    assert_eq!(
        hook.after_session_load(&namespace, &session),
        "[session] loaded 2 messages for acme"
    );
    assert_eq!(
        hook.before_session_save(&namespace, &session),
        "[session] saving 2 messages for acme"
    );
}

#[test]
fn session_logs_from_plain_values() {
    assert_eq!(session_loaded_log(0, "a:b"), "[session] new session for a:b");
    assert_eq!(session_loaded_log(12, "a:b"), "[session] loaded 12 messages for a:b");
    assert_eq!(session_saved_log(0, "a:b"), "[session] saving 0 messages for a:b");
}

#[test]
fn turns_and_tokens_add_up() {
    let mut hook = FileLoggingHook::<char>::new();
    assert_eq!(
        hook.before_provider_call(3, 2, 'a'),
        "[llm] turn 1: calling provider (3 messages, 2 tools)"
    );
    assert_eq!(
        hook.after_provider_call("1.5", 100, 20),
        "[llm] turn 1: response in 1.5s — 100 in / 20 out tokens (total: 100 in / 20 out)"
    );
    assert_eq!(
        hook.before_provider_call(5, 2, 'b'),
        "[llm] turn 2: calling provider (5 messages, 2 tools)"
    );
    assert_eq!(
        hook.after_provider_call("0.0", 150, 30),
        "[llm] turn 2: response in 0.0s — 150 in / 30 out tokens (total: 250 in / 50 out)"
    );
    assert_eq!((hook.turn, hook.total_input_tokens, hook.total_output_tokens), (2, 250, 50));
    assert_eq!(hook.call_start, Some('b'));
}

#[test]
fn token_counts_wrap() {
    let mut hook = FileLoggingHook::<char>::new();
    hook.total_input_tokens = u64::MAX;
    hook.after_provider_call("0.1", 3, u32::MAX);
    assert_eq!(hook.total_input_tokens, 2);
    assert_eq!(hook.total_output_tokens, 4_294_967_295);
}

#[test]
fn tool_call_is_logged_as_json() {
    let hook = FileLoggingHook::<char>::new();
    assert_eq!(
        hook.before_tool_call("search", &object("q", "rust")),
        "[tool] calling: search ({\"q\":\"rust\"})"
    );
}

#[test]
fn long_arguments_are_cut() {
    let hook = FileLoggingHook::<char>::new();
    let log = hook.before_tool_call("write", &object("text", &"x".repeat(300)));
    let shown = format!("{{\"text\":\"{}...", "x".repeat(PREVIEW_BYTES - 9));
    assert_eq!(log, format!("[tool] calling: write ({shown})"));
}

#[test]
fn arguments_are_cut_between_characters() {
    let hook = FileLoggingHook::<char>::new();
    // Two bytes for each letter, from an odd position on: the last one does not fit.
    let arguments = object("text", &"é".repeat(300));
    let shown = format!("{{\"text\":\"{}...", "é".repeat(55));
    assert_eq!(
        hook.before_tool_call("write", &arguments),
        format!("[tool] calling: write ({shown})")
    );
    // From an even position on, all of them do.
    let arguments = object("texts", &"é".repeat(300));
    let shown = format!("{{\"texts\":\"{}...", "é".repeat(55));
    assert_eq!(
        hook.before_tool_call("write", &arguments),
        format!("[tool] calling: write ({shown})")
    );
}

#[test]
fn result_is_cut_between_characters() {
    let hook = FileLoggingHook::<char>::new();
    let content = "a".repeat(119) + "é";
    assert_eq!(
        hook.after_tool_call("read", true, &content),
        format!("[tool] read → error ({}...)", "a".repeat(119))
    );
    let content = "a".repeat(117) + "🦀";
    assert_eq!(
        hook.after_tool_call("read", false, &content),
        format!("[tool] read → ok ({}...)", "a".repeat(117))
    );
    let content = "a".repeat(118) + "é";
    assert_eq!(
        hook.after_tool_call("read", false, &content),
        format!("[tool] read → ok ({content})")
    );
}

#[test]
fn preview_is_cut_at_120_bytes() {
    let full = "a".repeat(120);
    assert_eq!(tool_call_log("t", &full), format!("[tool] calling: t ({full})"));
    let long = "a".repeat(121);
    assert_eq!(tool_call_log("t", &long), format!("[tool] calling: t ({full}...)"));
}

#[test]
fn tool_result_is_logged_on_one_line() {
    let hook = FileLoggingHook::<char>::new();
    assert_eq!(
        hook.after_tool_call("search", false, "line one\nline two\n"),
        "[tool] search → ok (line one line two )"
    );
    assert_eq!(
        hook.after_tool_call("search", true, "failed"),
        "[tool] search → error (failed)"
    );
    let long = "é".repeat(61);
    assert_eq!(
        hook.after_tool_call("search", false, &long),
        format!("[tool] search → ok ({}...)", "é".repeat(60))
    );
}
