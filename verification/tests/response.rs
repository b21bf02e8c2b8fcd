use silex_mcp::bridge::ExecutionError;
use silex_mcp::json::parse;
use silex_mcp::response::{
    enrich, enrich_parsed, reply_to_script, tool_error,
    wrap_with_selection, DispatchError, ToolResult, SELECTION_STATE_JS,
};

#[test]
fn tool_error_is_flagged() {
    let result = tool_error("it broke".to_string());
    assert!(result.is_error);
    assert_eq!(result.content, vec!["it broke".to_string()]);
    let ok = ToolResult::success("fine".to_string());
    assert!(!ok.is_error);
    assert_eq!(ok.content, vec!["fine".to_string()]);
    let two = ToolResult::success_pair("a".to_string(), "b".to_string());
    assert!(!two.is_error);
    assert_eq!(two.content, vec!["a".to_string(), "b".to_string()]);
}

#[test]
fn dispatch_error_keeps_its_message() {
    assert_eq!(DispatchError::InvalidParams("page_id is required".to_string()).message(), "page_id is required");
    assert_eq!(DispatchError::PreconditionFailed("none open".to_string()).message(), "none open");
    assert_eq!(DispatchError::Internal("disk".to_string()).message(), "disk");
}

#[test]
fn script_outcome_becomes_a_reply() {
    let result = reply_to_script(Ok(Some("{\"a\":1}".to_string())), "null");
    assert!(!result.is_error);
    assert_eq!(result.content, vec!["{\"a\":1}".to_string()]);
    let result = reply_to_script(Ok(None), "null");
    assert_eq!(result.content, vec!["null".to_string()]);
    let result = reply_to_script(Err(ExecutionError::Timeout(10)), "null");
    assert!(result.is_error);
    assert_eq!(result.content, vec!["Timeout waiting for JS result (10s)".to_string()]);
    let result = reply_to_script(Err(ExecutionError::Remote("No component selected".to_string())), "null");
    assert!(result.is_error);
    assert_eq!(result.content, vec!["No component selected".to_string()]);
}

#[test]
fn wrap_with_selection_builds_the_script() {
    let script = wrap_with_selection("return 1", "Say \"next\".");
    assert_eq!(
        script,
        "(function(){var e=window.silex.getEditor();var __result__=(function(){ return 1 })();var __sel__=window.__silexMcp.getSelectionState(e);if(typeof __result__==='string'){try{__result__=JSON.parse(__result__)}catch(ex){__result__={raw:__result__}}}if(Array.isArray(__result__)){__result__={result:__result__}}if(typeof __result__==='object'&&__result__!==null){__result__.selection=__sel__;if(!('error' in __result__)){__result__.next_steps=\"Say \\\"next\\\".\"}}return JSON.stringify(__result__)})()"
    );
}

#[test]
fn selection_state_script_is_fixed() {
    assert_eq!(
        SELECTION_STATE_JS,
        "(function(){var e=window.silex.getEditor();return window.__silexMcp.getSelectionState(e)})()"
    );
}

#[test]
fn enrich_attaches_selection_and_hint_to_objects() {
    let selection = parse("{\"page\":\"index\"}").ok().unwrap();
    assert_eq!(
        enrich(Some("{\"pages\":[\"index\"]}"), Some(&selection), "Select a page."),
        "{\"pages\":[\"index\"],\"selection\":{\"page\":\"index\"},\"next_steps\":\"Select a page.\"}"
    );
    assert_eq!(
        enrich(Some("{\"selection\":1,\"next_steps\":2}"), Some(&selection), "n"),
        "{\"next_steps\":\"n\",\"selection\":{\"page\":\"index\"}}"
    );
}

#[test]
fn enrich_wraps_lists_and_raw_text() {
    assert_eq!(enrich(Some("[1,2]"), None, "n"), "{\"result\":[1,2],\"next_steps\":\"n\"}");
    assert_eq!(
        enrich(Some("<b>not json</b>"), None, "n"),
        "{\"raw\":\"<b>not json</b>\",\"next_steps\":\"n\"}"
    );
}

#[test]
fn enrich_gives_no_hint_after_an_error() {
    let selection = parse("null").ok().unwrap();
    assert_eq!(
        enrich(Some("{\"error\":\"Component not found\"}"), Some(&selection), "n"),
        "{\"error\":\"Component not found\",\"selection\":null}"
    );
}

#[test]
fn enrich_leaves_scalars_alone() {
    assert_eq!(enrich(None, None, "n"), "null");
    assert_eq!(enrich(Some("null"), None, "n"), "null");
    assert_eq!(enrich(Some(" 12 "), None, "n"), "12");
    assert_eq!(enrich(Some("\"text\""), None, "n"), "\"text\"");
    assert_eq!(enrich(Some("true"), None, "n"), "true");
}

#[test]
fn enrich_parsed_uses_the_given_document() {
    let parsed = parse("{\"a\":1}");
    assert_eq!(enrich_parsed("{\"a\":1}", parsed, None, "go"), "{\"a\":1,\"next_steps\":\"go\"}");
    assert_eq!(
        enrich_parsed("oops", Err("expected value".to_string()), None, "go"),
        "{\"raw\":\"oops\",\"next_steps\":\"go\"}"
    );
}
