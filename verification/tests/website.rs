use silex_mcp::dispatch::SilexMcp;
use silex_mcp::json::{parse, JsonDoc, JsonKind, JsonMember};
use silex_mcp::params::{WebsiteAction, WebsiteParams};
use silex_mcp::registry::Registry;
use silex_mcp::response::DispatchError;
use silex_mcp::selection::SelectionState;
use silex_mcp::website::{
    creation_reply, read_created_id, Followup, HttpMethod, HttpOutcome, HttpRequest,
    NavigationOutcome, WebsiteStep, WindowUrl,
};

const BASE: &str = "http://localhost:6805";

fn mcp() -> SilexMcp {
    SilexMcp::new(SelectionState::new(), Registry::new())
}

fn params(action: WebsiteAction, website_id: Option<&str>, name: Option<&str>) -> WebsiteParams {
    WebsiteParams {
        action,
        website_id: website_id.map(|s| s.to_string()),
        name: name.map(|s| s.to_string()),
    }
}

fn fetch(planned: Result<WebsiteStep, DispatchError>) -> (HttpRequest, Followup) {
    match planned {
        Ok(WebsiteStep::Fetch(request, followup)) => (request, followup),
        _ => panic!("expected a request"),
    }
}

fn invalid_website(planned: Result<WebsiteStep, DispatchError>) -> String {
    match planned {
        Err(DispatchError::InvalidParams(message)) => message,
        _ => panic!("expected invalid params"),
    }
}

fn answered(success: bool, status: &str, body: &str) -> HttpOutcome {
    HttpOutcome::Answered { success, status: status.to_string(), body: Ok(body.to_string()) }
}

#[test]
fn base_url_defaults() {
    assert_eq!(SilexMcp::get_base_url(None), "http://localhost:6805");
    let url = WindowUrl { scheme: "https".to_string(), host: Some("example.org".to_string()), port: Some(8443) };
    assert_eq!(SilexMcp::get_base_url(Some(&url)), "https://example.org:8443");
    let url = WindowUrl { scheme: "http".to_string(), host: None, port: None };
    assert_eq!(SilexMcp::get_base_url(Some(&url)), "http://localhost:6805");
}

#[test]
fn navigation_script_quotes_the_url() {
    assert_eq!(
        SilexMcp::navigate_to("http://localhost:6805/?id=a\"b"),
        "window.location.href = \"http://localhost:6805/?id=a\\\"b\""
    );
}

#[test]
fn website_list_fetches_the_api() {
    let (request, followup) = fetch(mcp().website(BASE, &params(WebsiteAction::List, None, None)));
    assert!(matches!(request.method, HttpMethod::Get));
    assert_eq!(request.url, "http://localhost:6805/api/website");
    assert_eq!(request.body, None);
    assert!(matches!(followup, Followup::Listing));
}

#[test]
fn website_create_puts_the_name() {
    let (request, followup) =
        fetch(mcp().website(BASE, &params(WebsiteAction::Create, None, Some("My \"Site\""))));
    assert!(matches!(request.method, HttpMethod::Put));
    assert_eq!(request.url, "http://localhost:6805/api/website?connectorId=fs-storage");
    assert_eq!(request.body, Some("{\"name\":\"My \\\"Site\\\"\"}".to_string()));
    match followup {
        Followup::Creation { base_url } => assert_eq!(base_url, BASE),
        _ => panic!("expected a creation"),
    }
    let (request, _) = fetch(mcp().website(BASE, &params(WebsiteAction::Create, None, None)));
    assert_eq!(request.body, Some("{}".to_string()));
}

#[test]
fn website_actions_need_an_id() {
    let m = mcp();
    for action in [WebsiteAction::Delete, WebsiteAction::Rename, WebsiteAction::Duplicate, WebsiteAction::Open] {
        assert_eq!(invalid_website(m.website(BASE, &params(action, None, Some("n")))), "website_id is required");
    }
    assert_eq!(
        invalid_website(m.website(BASE, &params(WebsiteAction::Rename, Some("w1"), None))),
        "name is required"
    );
}

#[test]
fn website_delete_rename_duplicate_requests() {
    let m = mcp();
    let (request, followup) = fetch(m.website(BASE, &params(WebsiteAction::Delete, Some("w1"), None)));
    assert!(matches!(request.method, HttpMethod::Delete));
    assert_eq!(request.url, "http://localhost:6805/api/website?websiteId=w1&connectorId=fs-storage");
    assert_eq!(request.body, None);
    match followup {
        Followup::Deletion { base_url, website_id } => {
            assert_eq!(base_url, BASE);
            assert_eq!(website_id, "w1");
        }
        _ => panic!("expected a deletion"),
    }
    let (request, followup) = fetch(m.website(BASE, &params(WebsiteAction::Rename, Some("w1"), Some("New"))));
    assert!(matches!(request.method, HttpMethod::Post));
    assert_eq!(request.url, "http://localhost:6805/api/website/meta?websiteId=w1&connectorId=fs-storage");
    assert_eq!(request.body, Some("{\"name\":\"New\"}".to_string()));
    match followup {
        Followup::Renaming { name } => assert_eq!(name, "New"),
        _ => panic!("expected a renaming"),
    }
    let (request, followup) = fetch(m.website(BASE, &params(WebsiteAction::Duplicate, Some("w1"), None)));
    assert!(matches!(request.method, HttpMethod::Post));
    assert_eq!(
        request.url,
        "http://localhost:6805/api/website/duplicate?websiteId=w1&connectorId=fs-storage"
    );
    assert_eq!(request.body, None);
    assert!(matches!(followup, Followup::Duplication));
}

#[test]
fn website_open_and_dashboard_navigate() {
    let m = mcp();
    match m.website(BASE, &params(WebsiteAction::Open, Some("w1"), None)) {
        Ok(WebsiteStep::Navigate { url, reply }) => {
            assert_eq!(url, "http://localhost:6805/?id=w1");
            assert_eq!(
                reply,
                "{\"success\":true,\"message\":\"Website opened in editor\",\"next_steps\":\"Use component(action:'get_tree') to see content, then component(action:'select') to select, selector(action:'list') to see selectors, and style(action:'set') to style.\"}"
            );
            let result = m.website_navigated(reply.clone(), NavigationOutcome::Done);
            assert!(!result.is_error);
            assert_eq!(result.content, vec![reply]);
        }
        _ => panic!("expected a navigation"),
    }
    match m.website(BASE, &params(WebsiteAction::Dashboard, None, None)) {
        Ok(WebsiteStep::Navigate { url, reply }) => {
            assert_eq!(url, "http://localhost:6805/");
            assert_eq!(reply, "{\"success\":true,\"message\":\"Navigated to dashboard\"}");
        }
        _ => panic!("expected a navigation"),
    }
    let result = m.website_navigated("r".to_string(), NavigationOutcome::NoWindow);
    assert!(result.is_error);
    assert_eq!(result.content, vec!["No main window".to_string()]);
    let result = m.website_navigated("r".to_string(), NavigationOutcome::Failed("denied".to_string()));
    assert!(result.is_error);
    assert_eq!(result.content, vec!["Navigation failed: denied".to_string()]);
}

#[test]
fn website_list_reply() {
    let m = mcp();
    let reply = m.website_fetched(Followup::Listing, answered(false, "500", "[{\"websiteId\":\"a\"}]"));
    assert!(!reply.result.is_error);
    assert_eq!(
        reply.result.content,
        vec![
            "[{\"websiteId\":\"a\"}]".to_string(),
            "{\"next_steps\":\"To open a website, use website(action:'open', website_id:'THE_ID'). To create a new one, use website(action:'create', name:'My Site').\"}".to_string()
        ]
    );
    assert_eq!(reply.navigate, None);
    let reply = m.website_fetched(Followup::Listing, HttpOutcome::Unsent("refused".to_string()));
    assert!(reply.result.is_error);
    assert_eq!(reply.result.content, vec!["Error fetching websites: refused".to_string()]);
    let reply = m.website_fetched(
        Followup::Listing,
        HttpOutcome::Answered { success: true, status: "200 OK".to_string(), body: Err("cut".to_string()) },
    );
    assert!(reply.result.is_error);
    assert_eq!(reply.result.content, vec!["Error reading response: cut".to_string()]);
}

#[test]
fn website_create_reply_opens_the_new_site() {
    let m = mcp();
    let followup = Followup::Creation { base_url: BASE.to_string() };
    let reply = m.website_fetched(followup, answered(true, "200 OK", "{\"websiteId\":\"w7\",\"name\":\"S\"}"));
    assert!(!reply.result.is_error);
    assert_eq!(reply.navigate, Some("http://localhost:6805/?id=w7".to_string()));
    assert_eq!(
        reply.result.content,
        vec!["{\"name\":\"S\",\"websiteId\":\"w7\",\"next_steps\":\"Website created and opened. Next: component(action:'add', html:'<section><h1>Title</h1><p>Content</p></section>') to add content. Then component(action:'select') \u{2192} selector(action:'create', class_name:'hero') \u{2192} selector(action:'select', selector:'.hero') \u{2192} style(action:'set', css:'padding: 2rem;') to style.\"}".to_string()]
    );
}

#[test]
fn website_create_reply_without_id_does_not_navigate() {
    let m = mcp();
    let reply = m.website_fetched(
        Followup::Creation { base_url: BASE.to_string() },
        answered(true, "200 OK", "{\"websiteId\":5}"),
    );
    assert!(!reply.result.is_error);
    assert_eq!(reply.navigate, None);
    let reply = m.website_fetched(
        Followup::Creation { base_url: BASE.to_string() },
        answered(true, "200 OK", "created"),
    );
    assert_eq!(reply.navigate, None);
    assert!(reply.result.content[0].starts_with("{\"raw\":\"created\",\"next_steps\":\"Website created"));
}

#[test]
fn website_create_failures() {
    let m = mcp();
    let reply = m.website_fetched(
        Followup::Creation { base_url: BASE.to_string() },
        answered(false, "409 Conflict", "exists"),
    );
    assert!(reply.result.is_error);
    assert_eq!(reply.result.content, vec!["Error creating website (409 Conflict): exists".to_string()]);
    assert_eq!(reply.navigate, None);
    let reply = m.website_fetched(
        Followup::Creation { base_url: BASE.to_string() },
        HttpOutcome::Unsent("down".to_string()),
    );
    assert_eq!(reply.result.content, vec!["Error creating website: down".to_string()]);
    let reply = m.website_fetched(
        Followup::Creation { base_url: BASE.to_string() },
        HttpOutcome::Answered { success: true, status: "200 OK".to_string(), body: Err("cut".to_string()) },
    );
    assert!(reply.result.is_error);
    assert_eq!(reply.result.content, vec!["Error reading response: cut".to_string()]);
}

#[test]
fn creation_reply_takes_the_parsed_body() {
    let body = "{\"websiteId\":\"x\"}";
    let parsed = parse(body);
    assert_eq!(read_created_id(&parsed), Some("x".to_string()));
    let reply = creation_reply("http://h:1", body, parsed);
    assert_eq!(reply.navigate, Some("http://h:1/?id=x".to_string()));
    assert_eq!(read_created_id(&parse("[\"websiteId\"]")), None);
    assert_eq!(read_created_id(&Err("bad".to_string())), None);
}

#[test]
fn created_id_is_read_from_objects_only() {
    let list = JsonDoc {
        kind: JsonKind::Array,
        text: "[]".to_string(),
        members: vec![JsonMember::string("websiteId", "w1")],
    };
    assert_eq!(read_created_id(&Ok(list)), None);
    let object = JsonDoc {
        kind: JsonKind::Object,
        text: "{\"websiteId\":\"w1\"}".to_string(),
        members: vec![JsonMember::string("websiteId", "w1")],
    };
    assert_eq!(read_created_id(&Ok(object)), Some("w1".to_string()));
}

#[test]
fn website_delete_reply() {
    let m = mcp();
    let followup = || Followup::Deletion { base_url: BASE.to_string(), website_id: "w1".to_string() };
    let reply = m.website_fetched(followup(), answered(true, "200 OK", "ignored"));
    assert!(!reply.result.is_error);
    assert_eq!(reply.result.content, vec!["{\"success\":true,\"message\":\"Website 'w1' deleted\"}".to_string()]);
    assert_eq!(reply.navigate, Some("http://localhost:6805/".to_string()));
    let reply = m.website_fetched(followup(), answered(false, "404", "no such site"));
    assert!(reply.result.is_error);
    assert_eq!(reply.result.content, vec!["Error deleting website: no such site".to_string()]);
    assert_eq!(reply.navigate, None);
    let reply = m.website_fetched(
        followup(),
        HttpOutcome::Answered { success: false, status: "500".to_string(), body: Err("cut".to_string()) },
    );
    assert_eq!(reply.result.content, vec!["Error deleting website: ".to_string()]);
    let reply = m.website_fetched(followup(), HttpOutcome::Unsent("down".to_string()));
    assert_eq!(reply.result.content, vec!["Error deleting website: down".to_string()]);
}

#[test]
fn confirmations_stay_json_for_any_text() {
    let m = mcp();
    let reply = m.website_fetched(
        Followup::Deletion { base_url: BASE.to_string(), website_id: "a\"b".to_string() },
        answered(true, "200", ""),
    );
    assert_eq!(
        reply.result.content,
        vec!["{\"success\":true,\"message\":\"Website 'a\\\"b' deleted\"}".to_string()]
    );
    let value: serde_json::Value = serde_json::from_str(&reply.result.content[0]).unwrap();
    assert_eq!(value.get("message").and_then(|v| v.as_str()), Some("Website 'a\"b' deleted"));
    let reply = m.website_fetched(
        Followup::Renaming { name: "back\\slash".to_string() },
        answered(true, "200", ""),
    );
    let value: serde_json::Value = serde_json::from_str(&reply.result.content[0]).unwrap();
    assert_eq!(value.get("message").and_then(|v| v.as_str()), Some("Renamed to 'back\\slash'"));
}

#[test]
fn website_rename_and_duplicate_replies() {
    let m = mcp();
    let reply = m.website_fetched(Followup::Renaming { name: "New".to_string() }, answered(true, "200", ""));
    assert!(!reply.result.is_error);
    assert_eq!(reply.result.content, vec!["{\"success\":true,\"message\":\"Renamed to 'New'\"}".to_string()]);
    let reply = m.website_fetched(Followup::Renaming { name: "New".to_string() }, answered(false, "400", "bad"));
    assert!(reply.result.is_error);
    assert_eq!(reply.result.content, vec!["Error renaming website: bad".to_string()]);
    let reply = m.website_fetched(Followup::Renaming { name: "New".to_string() }, HttpOutcome::Unsent("x".to_string()));
    assert_eq!(reply.result.content, vec!["Error renaming website: x".to_string()]);
    let reply = m.website_fetched(Followup::Duplication, answered(true, "200", "{\"websiteId\":\"copy\"}"));
    assert!(!reply.result.is_error);
    assert_eq!(reply.result.content, vec!["{\"websiteId\":\"copy\"}".to_string()]);
    assert_eq!(reply.navigate, None);
    let reply = m.website_fetched(
        Followup::Duplication,
        HttpOutcome::Answered { success: true, status: "200".to_string(), body: Err("cut".to_string()) },
    );
    assert_eq!(reply.result.content, vec![String::new()]);
    let reply = m.website_fetched(Followup::Duplication, answered(false, "500", "oops"));
    assert!(reply.result.is_error);
    assert_eq!(reply.result.content, vec!["Error duplicating website: oops".to_string()]);
    let reply = m.website_fetched(Followup::Duplication, HttpOutcome::Unsent("x".to_string()));
    assert_eq!(reply.result.content, vec!["Error duplicating website: x".to_string()]);
}
