use silex_mcp::bridge::{wrap_script, Context, ExecutionError, Signal};
use silex_mcp::dispatch::{Launch, SilexMcp};
use silex_mcp::json::parse;
use silex_mcp::params::{
    EditorAction, EditorParams, EvalParams, ReportLimitationParams, ScreenshotParams,
};
use silex_mcp::registry::Registry;
use silex_mcp::response::DispatchError;
use silex_mcp::selection::SelectionState;
use silex_mcp::session::{
    editor_emitted, eval_js_saved, read_image_bytes, read_image_data, read_picture,
    screenshot_saved, AppStateStep, EvalStep, SaveTarget, WindowInfo,
};

fn closed_session() -> SilexMcp {
    SilexMcp::new(SelectionState::new(), Registry::new())
}

fn open_session() -> SilexMcp {
    let mut mcp = closed_session();
    mcp.selection.set_current_project("abc".to_string(), "Site".to_string());
    mcp
}

fn in_editor() -> Context {
    Context::At { path: "/".to_string(), has_query: true }
}

fn window() -> WindowInfo {
    WindowInfo {
        title: Some("Site \u{2014} Silex".to_string()),
        url: Some("http://localhost:6805/?id=abc".to_string()),
        fullscreen: Some(false),
        size: Some((1280, 800)),
    }
}

const OPEN_GUIDE_JSON: &str = "\"Project is open. Hierarchy: Website \u{2192} Breakpoint \u{2192} Page \u{2192} Component \u{2192} Selector. Select each level before deeper operations. Use component(action:'get_tree') to see structure, component(action:'select') to select, selector(action:'list') to see selectors, selector(action:'select') to activate, then style(action:'set').\"";

const CLOSED_GUIDE_JSON: &str = "\"No project open. Next: website(action:'create', name:'My Site') to create a new site, or website(action:'list') then website(action:'open', website_id:'...') to open an existing one.\"";

#[test]
fn app_state_without_project() {
    let mut mcp = closed_session();
    let unknown = WindowInfo { title: None, url: None, fullscreen: None, size: None };
    let result = match mcp.get_app_state(&in_editor(), &unknown) {
        AppStateStep::Reply(result) => result,
        AppStateStep::Probe(_, _) => panic!("no project, no probe"),
    };
    assert!(!result.is_error);
    assert_eq!(
        result.content,
        vec![format!(
            "{{\"current_url\":null,\"current_website_id\":null,\"current_website_name\":null,\"has_unsaved_changes\":false,\"is_fullscreen\":null,\"next_steps\":{},\"window_size\":null,\"window_title\":null}}",
            CLOSED_GUIDE_JSON
        )]
    );
    assert_eq!(mcp.registry.issued(), 0);
}

#[test]
fn app_state_with_project_probes_the_selection() {
    let mut mcp = open_session();
    mcp.selection.mark_unsaved();
    let (envelope, _rx) = match mcp.get_app_state(&in_editor(), &window()) {
        AppStateStep::Probe(envelope, rx) => (envelope, rx),
        AppStateStep::Reply(_) => panic!("a project is open"),
    };
    assert_eq!(envelope.timeout_secs, 5);
    assert_eq!(
        envelope.body,
        wrap_script(
            0,
            "(function(){var e=window.silex.getEditor();return window.__silexMcp.getSelectionState(e)})()"
        )
    );
    let payload = "{\"success\":true,\"result\":\"{ \\\"page\\\": \\\"index\\\" }\"}".to_string();
    let result = mcp.app_state_probed(&window(), &envelope, Signal::Payload(payload));
    assert!(!result.is_error);
    let expected = format!(
        "{{\"current_url\":\"http://localhost:6805/?id=abc\",\"current_website_id\":\"abc\",\"current_website_name\":\"Site\",\"has_unsaved_changes\":true,\"is_fullscreen\":false,\"next_steps\":{},\"selection\":{{\"page\":\"index\"}},\"window_size\":[1280,800],\"window_title\":\"Site \u{2014} Silex\"}}",
        OPEN_GUIDE_JSON
    );
    assert_eq!(result.content, vec![expected.clone()]);
    let value: serde_json::Value = serde_json::from_str(&expected).unwrap();
    assert_eq!(value.to_string(), expected);
}

#[test]
fn app_state_without_selection_when_the_probe_fails() {
    let mut mcp = open_session();
    let (envelope, _rx) = match mcp.get_app_state(&in_editor(), &window()) {
        AppStateStep::Probe(envelope, rx) => (envelope, rx),
        AppStateStep::Reply(_) => panic!("a project is open"),
    };
    let result = mcp.app_state_probed(&window(), &envelope, Signal::Elapsed);
    assert!(!result.is_error);
    assert!(!result.content[0].contains("\"selection\""));
    assert!(result.content[0].contains("\"current_website_id\":\"abc\""));
    assert!(!mcp.registry.is_pending(envelope.id));
    let (envelope, _rx) = match mcp.get_app_state(&in_editor(), &window()) {
        AppStateStep::Probe(envelope, rx) => (envelope, rx),
        AppStateStep::Reply(_) => panic!("a project is open"),
    };
    let payload = "{\"success\":true,\"result\":\"not json\"}".to_string();
    let result = mcp.app_state_probed(&window(), &envelope, Signal::Payload(payload));
    assert!(!result.content[0].contains("\"selection\""));
    let landing = Context::At { path: "/".to_string(), has_query: false };
    match mcp.get_app_state(&landing, &window()) {
        AppStateStep::Reply(result) => assert!(!result.content[0].contains("\"selection\"")),
        AppStateStep::Probe(_, _) => panic!("the landing view runs no script"),
    }
}

#[test]
fn app_state_report_takes_a_parsed_selection() {
    let mcp = open_session();
    let selection = parse("[1]").ok().unwrap();
    let result = mcp.app_state(&window(), Some(&selection));
    assert!(result.content[0].contains(",\"selection\":[1],\"window_size\":[1280,800],"));
}

#[test]
fn editor_events() {
    let mcp = closed_session();
    assert_eq!(mcp.editor(&EditorParams { action: EditorAction::Save }), "menu-save");
    assert_eq!(mcp.editor(&EditorParams { action: EditorAction::Undo }), "menu-undo");
    assert_eq!(mcp.editor(&EditorParams { action: EditorAction::Redo }), "menu-redo");
    let result = editor_emitted("menu-save", Ok(()));
    assert!(!result.is_error);
    assert_eq!(result.content, vec!["{\"success\":true,\"action\":\"menu-save\"}".to_string()]);
    let result = editor_emitted("menu-undo", Err("no listener".to_string()));
    assert!(result.is_error);
    assert_eq!(result.content, vec!["Failed to emit menu-undo: no listener".to_string()]);
}

#[test]
fn eval_js_runs_without_a_project() {
    let mut mcp = closed_session();
    let params = EvalParams { js: "document.title".to_string(), output_file: None };
    let (envelope, _rx) = match mcp.eval_js(&in_editor(), &params) {
        Launch::Push(envelope, rx) => (envelope, rx),
        Launch::Reply(_) => panic!("expected a push"),
    };
    assert_eq!(envelope.body, wrap_script(0, "document.title"));
    assert_eq!(envelope.timeout_secs, 10);
    let payload = "{\"success\":true,\"result\":\"Silex\"}".to_string();
    match mcp.eval_js_done(&envelope, Signal::Payload(payload), None) {
        EvalStep::Reply(result) => {
            assert!(!result.is_error);
            assert_eq!(result.content, vec!["Silex".to_string()]);
        }
        EvalStep::Save { .. } => panic!("no file was named"),
    }
}

#[test]
fn eval_js_saves_or_answers() {
    let mut mcp = closed_session();
    let params = EvalParams { js: "void 0".to_string(), output_file: Some("/tmp/out.txt".to_string()) };
    let (envelope, _rx) = match mcp.eval_js(&in_editor(), &params) {
        Launch::Push(envelope, rx) => (envelope, rx),
        Launch::Reply(_) => panic!("expected a push"),
    };
    let payload = "{\"success\":true,\"result\":null}".to_string();
    match mcp.eval_js_done(&envelope, Signal::Payload(payload), params.output_file.clone()) {
        EvalStep::Save { path, contents } => {
            assert_eq!(path, "/tmp/out.txt");
            assert_eq!(contents, "undefined");
        }
        EvalStep::Reply(_) => panic!("a file was named"),
    }
    let payload = "{\"success\":false,\"error\":\"x is not defined\"}".to_string();
    match mcp.eval_js_done(&envelope, Signal::Payload(payload), params.output_file.clone()) {
        EvalStep::Reply(result) => {
            assert!(result.is_error);
            assert_eq!(result.content, vec!["x is not defined".to_string()]);
        }
        EvalStep::Save { .. } => panic!("the script failed"),
    }
    match mcp.eval_js(&Context::Unavailable, &params) {
        Launch::Reply(result) => {
            assert!(result.is_error);
            assert_eq!(result.content, vec!["No main window".to_string()]);
        }
        Launch::Push(_, _) => panic!("no window"),
    }
    let saved = eval_js_saved("/tmp/out.txt", Ok(())).ok().unwrap();
    assert_eq!(saved.content, vec!["Result saved to /tmp/out.txt".to_string()]);
    match eval_js_saved("/tmp/out.txt", Err("denied".to_string())) {
        Err(DispatchError::Internal(message)) => assert_eq!(message, "Failed to write file: denied"),
        _ => panic!("expected an internal error"),
    }
}

#[test]
fn screenshot_script_quotes_the_target() {
    let mut mcp = closed_session();
    let params = ScreenshotParams { target: Some("x' === 'x' || '".to_string()), output_file: None };
    let (envelope, _rx) = match mcp.take_screenshot(&in_editor(), &params) {
        Launch::Push(envelope, rx) => (envelope, rx),
        Launch::Reply(_) => panic!("expected a push"),
    };
    assert_eq!(envelope.timeout_secs, 30);
    let script = "\n(async function() {\n    if (!window.html2canvas) {\n        const s = document.createElement('script');\n        s.src = 'https://cdnjs.cloudflare.com/ajax/libs/html2canvas/1.4.1/html2canvas.min.js';\n        await new Promise((resolve, reject) => {\n            s.onload = resolve;\n            s.onerror = () => reject(new Error('Failed to load html2canvas from CDN'));\n            document.head.appendChild(s);\n        });\n    }\n    let element;\n    if (\"x' === 'x' || '\" === 'canvas') {\n        const frame = document.querySelector('.gjs-frame');\n        if (frame && frame.contentDocument && frame.contentDocument.body) {\n            element = frame.contentDocument.body;\n        } else {\n            throw new Error('GrapesJS canvas iframe not found or not accessible');\n        }\n    } else {\n        element = document.body;\n    }\n    const canvas = await html2canvas(element, { useCORS: true, allowTaint: true });\n    return canvas.toDataURL('image/png');\n})()\n";
    assert_eq!(envelope.body, wrap_script(0, script));
    let params = ScreenshotParams { target: None, output_file: None };
    let (envelope, _rx) = match mcp.take_screenshot(&in_editor(), &params) {
        Launch::Push(envelope, rx) => (envelope, rx),
        Launch::Reply(_) => panic!("expected a push"),
    };
    assert!(envelope.body.contains("if (\\\"ui\\\" === 'canvas')"));
    match mcp.take_screenshot(&Context::Unavailable, &params) {
        Launch::Reply(result) => {
            assert!(result.is_error);
            assert_eq!(result.content, vec!["Screenshot failed: No main window".to_string()]);
        }
        Launch::Push(_, _) => panic!("no window"),
    }
}

#[test]
fn picture_is_decoded_from_the_data_url() {
    let bytes = read_picture(Ok(Some("data:image/png;base64,iVBORw0KGgo=".to_string()))).ok().unwrap();
    assert_eq!(bytes, vec![0x89, 0x50, 0x4e, 0x47, 0x0d, 0x0a, 0x1a, 0x0a]);
    assert_eq!(read_picture(Ok(Some("data:image/png;base64,".to_string()))).ok().unwrap(), Vec::<u8>::new());
}

#[test]
fn picture_failures_are_tool_errors() {
    let result = read_picture(Ok(None)).err().unwrap();
    assert!(result.is_error);
    assert_eq!(result.content, vec!["Screenshot returned no data".to_string()]);
    let result = read_picture(Err(ExecutionError::Timeout(30))).err().unwrap();
    assert_eq!(result.content, vec!["Screenshot failed: Timeout waiting for JS result (30s)".to_string()]);
    let result = read_picture(Ok(Some("data:image/jpeg;base64,AAAA".to_string()))).err().unwrap();
    assert_eq!(result.content, vec!["Unexpected data URL format".to_string()]);
    let result = read_picture(Ok(Some("data:image/png;base64,@@@@".to_string()))).err().unwrap();
    assert!(result.is_error);
    assert_eq!(result.content, vec!["Failed to decode base64: Invalid symbol 64, offset 0.".to_string()]);
    assert_eq!(read_image_data(Ok(Some("data:image/png;base64,QUJD".to_string()))).ok().unwrap(), "QUJD");
    assert_eq!(read_image_bytes(Ok(vec![1, 2])).ok().unwrap(), vec![1, 2]);
    let result = read_image_bytes(Err("Invalid padding".to_string())).err().unwrap();
    assert_eq!(result.content, vec!["Failed to decode base64: Invalid padding".to_string()]);
}

#[test]
fn screenshot_is_saved_where_asked_or_in_a_numbered_file() {
    let mut mcp = closed_session();
    let params = ScreenshotParams { target: None, output_file: None };
    let (envelope, _rx) = match mcp.take_screenshot(&in_editor(), &params) {
        Launch::Push(envelope, rx) => (envelope, rx),
        Launch::Reply(_) => panic!("expected a push"),
    };
    let payload = "{\"success\":true,\"result\":\"data:image/png;base64,QUJD\"}".to_string();
    let bytes = mcp.screenshot_taken(&envelope, Signal::Payload(payload)).ok().unwrap();
    assert_eq!(bytes, b"ABC".to_vec());
    assert_eq!(mcp.registry.issued(), 1);
    match mcp.save_target(None) {
        SaveTarget::Temporary(name) => assert_eq!(name, "silex-screenshot-1.png"),
        SaveTarget::Path(_) => panic!("no path was asked for"),
    }
    assert_eq!(mcp.registry.issued(), 2);
    match mcp.save_target(Some("/tmp/shot.png".to_string())) {
        SaveTarget::Path(path) => assert_eq!(path, "/tmp/shot.png"),
        SaveTarget::Temporary(_) => panic!("a path was asked for"),
    }
    assert_eq!(mcp.registry.issued(), 2);
    let result = mcp.screenshot_taken(&envelope, Signal::Elapsed).err().unwrap();
    assert!(result.is_error);
    assert_eq!(result.content, vec!["Screenshot failed: Timeout waiting for JS result (30s)".to_string()]);
    assert_eq!(mcp.registry.issued(), 2);
    let result = screenshot_saved("/tmp/shot.png", Ok(()));
    assert_eq!(result.content, vec!["Screenshot saved to /tmp/shot.png".to_string()]);
    let result = screenshot_saved("/tmp/shot.png", Err("disk full".to_string()));
    assert!(result.is_error);
    assert_eq!(result.content, vec!["Failed to write file: disk full".to_string()]);
}

#[test]
fn limitation_is_recorded_as_a_json_line() {
    let mcp = closed_session();
    let params = ReportLimitationParams {
        description: "cannot upload \"images\"".to_string(),
        context: Some("adding a hero".to_string()),
        workaround: None,
    };
    let report = mcp.report_limitation(&params, 1700000000);
    assert_eq!(
        report.entry,
        "{\"context\":\"adding a hero\",\"description\":\"cannot upload \\\"images\\\"\",\"timestamp\":1700000000,\"workaround\":null}"
    );
    assert!(!report.result.is_error);
    assert_eq!(
        report.result.content,
        vec!["Limitation reported: cannot upload \"images\". The user can help improve Silex vibe-coding at: https://roadmap.silex.me/posts/65/vibe-coding-with-silex-desktop".to_string()]
    );
}
