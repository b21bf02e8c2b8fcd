//! The website tool: list, create, delete, rename, duplicate and open
//! websites through the storage API, and go back to the dashboard.

use crate::json::{
    find_member, json_document, member_index, member_views, object_text, parse, quote,
    render_object, string_literal, JsonDoc, JsonDocView, JsonKind, JsonKindView, JsonMember,
    JsonMemberView,
};
use crate::dispatch::SilexMcp;
use crate::params::{WebsiteAction, WebsiteParams};
use crate::response::{
    enrich_parsed, enriched, tool_error, DispatchError, DispatchErrorView, ToolResult,
    ToolResultView,
};
use crate::text::{decimal, decimal_string};
use vstd::prelude::*;

verus! {

/// The second text of a listing: how to open or create a website.
pub const WEBSITE_LIST_HINT: &'static str =
    r#"{"next_steps":"To open a website, use website(action:'open', website_id:'THE_ID'). To create a new one, use website(action:'create', name:'My Site')."}"#;

/// What to do after a website was created.
pub const WEBSITE_CREATE_HINT: &'static str =
    "Website created and opened. Next: component(action:'add', html:'<section><h1>Title</h1><p>Content</p></section>') to add content. Then component(action:'select') \u{2192} selector(action:'create', class_name:'hero') \u{2192} selector(action:'select', selector:'.hero') \u{2192} style(action:'set', css:'padding: 2rem;') to style.";

/// The answer to a website that was opened.
pub const WEBSITE_OPENED: &'static str =
    r#"{"success":true,"message":"Website opened in editor","next_steps":"Use component(action:'get_tree') to see content, then component(action:'select') to select, selector(action:'list') to see selectors, and style(action:'set') to style."}"#;

/// The answer to a return to the dashboard.
pub const DASHBOARD_SHOWN: &'static str =
    r#"{"success":true,"message":"Navigated to dashboard"}"#;


/// The storage connector that every request names.
pub const CONNECTOR: &'static str = "connectorId=fs-storage";

/// The port of the server where the window does not tell it.
pub const DEFAULT_PORT: u16 = 6805;

/// The parts of the window's location that the server's address is made of.
pub struct WindowUrl {
    pub scheme: String,
    pub host: Option<String>,
    pub port: Option<u16>,
}

/// The address of the server that the window shows: its scheme, host and
/// port, with `localhost` and the default port where the location lacks
/// them; `http://localhost:6805` where there is no location at all.
pub open spec fn base_url(location: Option<WindowUrl>) -> Seq<char> {
    match location {
        None => "http://localhost:6805"@,
        Some(url) => url.scheme@ + "://"@ + match url.host {
            Some(host) => host@,
            None => "localhost"@,
        } + ":"@ + decimal(
            match url.port {
                Some(port) => port,
                None => DEFAULT_PORT,
            } as nat,
        ),
    }
}

/// The script that sends the window to `url`, which reaches it as a JSON
/// string literal.
pub open spec fn navigation_script(url: Seq<char>) -> Seq<char> {
    "window.location.href = "@ + string_literal(url)
}

/// The method of a request to the storage API.
pub enum HttpMethod {
    Get,
    Put,
    Post,
    Delete,
}

/// A request to the storage API. A body, where there is one, is JSON and
/// is sent as such.
pub struct HttpRequest {
    pub method: HttpMethod,
    pub url: String,
    pub body: Option<String>,
}

/// An `HttpRequest` as a mathematical value.
pub struct HttpRequestView {
    pub method: HttpMethod,
    pub url: Seq<char>,
    pub body: Option<Seq<char>>,
}

impl View for HttpRequest {
    type V = HttpRequestView;

    open spec fn view(&self) -> HttpRequestView {
        HttpRequestView {
            method: self.method,
            url: self.url@,
            body: match self.body {
                Some(body) => Some(body@),
                None => None,
            },
        }
    }
}

/// What is to be done with the answer to a request.
pub enum Followup {
    /// Answer with the list of websites.
    Listing,
    /// Open the new website, on the server at `base_url`.
    Creation { base_url: String },
    /// Confirm that `website_id` is gone and return to the dashboard of
    /// the server at `base_url`.
    Deletion { base_url: String, website_id: String },
    /// Confirm the new `name`.
    Renaming { name: String },
    /// Answer with the description of the copy.
    Duplication,
}

/// A `Followup` as a mathematical value.
pub enum FollowupView {
    Listing,
    Creation { base_url: Seq<char> },
    Deletion { base_url: Seq<char>, website_id: Seq<char> },
    Renaming { name: Seq<char> },
    Duplication,
}

impl View for Followup {
    type V = FollowupView;

    open spec fn view(&self) -> FollowupView {
        match self {
            Followup::Listing => FollowupView::Listing,
            Followup::Creation { base_url } => FollowupView::Creation { base_url: base_url@ },
            Followup::Deletion { base_url, website_id } => FollowupView::Deletion {
                base_url: base_url@,
                website_id: website_id@,
            },
            Followup::Renaming { name } => FollowupView::Renaming { name: name@ },
            Followup::Duplication => FollowupView::Duplication,
        }
    }
}

/// What the website tool asks for once its parameters were accepted.
pub enum WebsiteStep {
    /// Send the request, then answer as the follow-up says.
    Fetch(HttpRequest, Followup),
    /// Send the window to `url`, then answer with `reply` where that worked.
    Navigate { url: String, reply: String },
}

/// A `WebsiteStep` as a mathematical value.
pub enum WebsiteStepView {
    Fetch(HttpRequestView, FollowupView),
    Navigate { url: Seq<char>, reply: Seq<char> },
}

impl View for WebsiteStep {
    type V = WebsiteStepView;

    open spec fn view(&self) -> WebsiteStepView {
        match self {
            WebsiteStep::Fetch(request, followup) => WebsiteStepView::Fetch(request@, followup@),
            WebsiteStep::Navigate { url, reply } => WebsiteStepView::Navigate {
                url: url@,
                reply: reply@,
            },
        }
    }
}

/// What the website tool decided, as a mathematical value.
pub open spec fn step_view(planned: Result<WebsiteStep, DispatchError>) -> Result<
    WebsiteStepView,
    DispatchErrorView,
> {
    match planned {
        Ok(step) => Ok(step@),
        Err(e) => Err(e@),
    }
}

/// The JSON object whose one member `name` is the string `value`.
pub open spec fn name_object(value: Seq<char>) -> Seq<char> {
    object_text(
        seq![
            JsonMemberView {
                name: "name"@,
                kind: JsonKindView::Text(value),
                text: string_literal(value),
            },
        ],
    )
}

/// The address of the storage API under `path` for the website `id`.
pub open spec fn website_url(base: Seq<char>, path: Seq<char>, id: Seq<char>) -> Seq<char> {
    base + path + "?websiteId="@ + id + "&"@ + CONNECTOR@
}

/// What the website tool does with `params` on the server at `base`.
/// `delete`, `rename`, `duplicate` and `open` need `website_id`, and
/// `rename` needs `name` too; the first one missing is named in the
/// refusal.
pub open spec fn website_plan(base: Seq<char>, params: WebsiteParams) -> Result<
    WebsiteStepView,
    DispatchErrorView,
> {
    match params.action {
        WebsiteAction::List => Ok(
            WebsiteStepView::Fetch(
                HttpRequestView { method: HttpMethod::Get, url: base + "/api/website"@, body: None },
                FollowupView::Listing,
            ),
        ),
        WebsiteAction::Create => Ok(
            WebsiteStepView::Fetch(
                HttpRequestView {
                    method: HttpMethod::Put,
                    url: base + "/api/website?"@ + CONNECTOR@,
                    body: Some(
                        match params.name {
                            Some(name) => name_object(name@),
                            None => "{}"@,
                        },
                    ),
                },
                FollowupView::Creation { base_url: base },
            ),
        ),
        WebsiteAction::Dashboard => Ok(
            WebsiteStepView::Navigate { url: base + "/"@, reply: DASHBOARD_SHOWN@ },
        ),
        _ => match params.website_id {
            None => Err(DispatchErrorView::InvalidParams("website_id is required"@)),
            Some(id) => match params.action {
                WebsiteAction::Delete => Ok(
                    WebsiteStepView::Fetch(
                        HttpRequestView {
                            method: HttpMethod::Delete,
                            url: website_url(base, "/api/website"@, id@),
                            body: None,
                        },
                        FollowupView::Deletion { base_url: base, website_id: id@ },
                    ),
                ),
                WebsiteAction::Rename => match params.name {
                    None => Err(DispatchErrorView::InvalidParams("name is required"@)),
                    Some(name) => Ok(
                        WebsiteStepView::Fetch(
                            HttpRequestView {
                                method: HttpMethod::Post,
                                url: website_url(base, "/api/website/meta"@, id@),
                                body: Some(name_object(name@)),
                            },
                            FollowupView::Renaming { name: name@ },
                        ),
                    ),
                },
                WebsiteAction::Duplicate => Ok(
                    WebsiteStepView::Fetch(
                        HttpRequestView {
                            method: HttpMethod::Post,
                            url: website_url(base, "/api/website/duplicate"@, id@),
                            body: None,
                        },
                        FollowupView::Duplication,
                    ),
                ),
                _ => Ok(
                    WebsiteStepView::Navigate {
                        url: base + "/?id="@ + id@,
                        reply: WEBSITE_OPENED@,
                    },
                ),
            },
        },
    }
}

/// How a request to the storage API ended.
pub enum HttpOutcome {
    /// It could not be sent, for this reason.
    Unsent(String),
    /// It was answered: whether the status tells success, the status as
    /// text, and the body, or why the body could not be read.
    Answered { success: bool, status: String, body: Result<String, String> },
}

/// The answer of the website tool, and the address to send the window to
/// afterwards, if any. A failure of that navigation changes nothing in the
/// answer.
pub struct WebsiteReply {
    pub result: ToolResult,
    pub navigate: Option<String>,
}

/// A `WebsiteReply` as a mathematical value.
pub struct WebsiteReplyView {
    pub result: ToolResultView,
    pub navigate: Option<Seq<char>>,
}

impl View for WebsiteReply {
    type V = WebsiteReplyView;

    open spec fn view(&self) -> WebsiteReplyView {
        WebsiteReplyView {
            result: self.result@,
            navigate: match self.navigate {
                Some(url) => Some(url@),
                None => None,
            },
        }
    }
}

/// The JSON object that confirms an operation with `message`.
pub open spec fn confirmation(message: Seq<char>) -> Seq<char> {
    object_text(
        seq![
            JsonMemberView { name: "success"@, kind: JsonKindView::Bool(true), text: "true"@ },
            JsonMemberView {
                name: "message"@,
                kind: JsonKindView::Text(message),
                text: string_literal(message),
            },
        ],
    )
}

/// A tool error whose message is `label` and then `detail`.
pub open spec fn failure(label: Seq<char>, detail: Seq<char>) -> WebsiteReplyView {
    WebsiteReplyView { result: ToolResultView::error(label + detail), navigate: None }
}

/// A success with one text and no navigation.
pub open spec fn done(text: Seq<char>) -> WebsiteReplyView {
    WebsiteReplyView { result: ToolResultView::success(text), navigate: None }
}

/// The body that was read, or the empty text.
pub open spec fn body_or_empty(body: Result<String, String>) -> Seq<char> {
    match body {
        Ok(text) => text@,
        Err(_) => Seq::empty(),
    }
}

/// The identity of the new website in the parsed answer to a creation: the
/// string under `websiteId`, if the answer is an object that has one. An
/// answer that is no object tells none, whatever members come with it.
pub open spec fn created_id(parsed: Result<JsonDocView, Seq<char>>) -> Option<Seq<char>> {
    match parsed {
        Err(_) => None,
        Ok(doc) => if doc.kind != JsonKindView::Object {
            None
        } else {
            match member_index(doc.members, "websiteId"@) {
                None => None,
                Some(i) => match doc.members[i].kind {
                    JsonKindView::Text(id) => Some(id),
                    _ => None,
                },
            }
        },
    }
}

/// The answer to a creation that succeeded with `body`, given what parsing
/// `body` gave: the body enriched with the next steps, and the address of
/// the new website in the editor where the body tells its identity.
pub open spec fn created(
    base: Seq<char>,
    body: Seq<char>,
    parsed: Result<JsonDocView, Seq<char>>,
) -> WebsiteReplyView {
    WebsiteReplyView {
        result: ToolResultView::success(enriched(Some(body), parsed, None, WEBSITE_CREATE_HINT@)),
        navigate: match created_id(parsed) {
            Some(id) => Some(base + "/?id="@ + id),
            None => None,
        },
    }
}

/// The answer of the website tool once the request ended with `outcome`;
/// `parsed` is what parsing the body gave, where a body was read. A
/// request that could not be sent, a body that could not be read and a
/// status that tells failure each give a tool error that says what was
/// being done. A listing does not look at the status.
pub open spec fn website_reply(
    followup: FollowupView,
    outcome: HttpOutcome,
    parsed: Result<JsonDocView, Seq<char>>,
) -> WebsiteReplyView {
    match followup {
        FollowupView::Listing => match outcome {
            HttpOutcome::Unsent(reason) => failure("Error fetching websites: "@, reason@),
            HttpOutcome::Answered { body: Err(reason), .. } => failure(
                "Error reading response: "@,
                reason@,
            ),
            HttpOutcome::Answered { body: Ok(body), .. } => WebsiteReplyView {
                result: ToolResultView::success_pair(body@, WEBSITE_LIST_HINT@),
                navigate: None,
            },
        },
        FollowupView::Creation { base_url } => match outcome {
            HttpOutcome::Unsent(reason) => failure("Error creating website: "@, reason@),
            HttpOutcome::Answered { body: Err(reason), .. } => failure(
                "Error reading response: "@,
                reason@,
            ),
            HttpOutcome::Answered { success, status, body: Ok(body) } => if success {
                created(base_url, body@, parsed)
            } else {
                failure("Error creating website ("@ + status@ + "): "@, body@)
            },
        },
        FollowupView::Deletion { base_url, website_id } => match outcome {
            HttpOutcome::Unsent(reason) => failure("Error deleting website: "@, reason@),
            HttpOutcome::Answered { success, body, .. } => if success {
                WebsiteReplyView {
                    result: ToolResultView::success(
                        confirmation("Website '"@ + website_id + "' deleted"@),
                    ),
                    navigate: Some(base_url + "/"@),
                }
            } else {
                failure("Error deleting website: "@, body_or_empty(body))
            },
        },
        FollowupView::Renaming { name } => match outcome {
            HttpOutcome::Unsent(reason) => failure("Error renaming website: "@, reason@),
            HttpOutcome::Answered { success, body, .. } => if success {
                done(confirmation("Renamed to '"@ + name + "'"@))
            } else {
                failure("Error renaming website: "@, body_or_empty(body))
            },
        },
        FollowupView::Duplication => match outcome {
            HttpOutcome::Unsent(reason) => failure("Error duplicating website: "@, reason@),
            HttpOutcome::Answered { success, body, .. } => if success {
                done(body_or_empty(body))
            } else {
                failure("Error duplicating website: "@, body_or_empty(body))
            },
        },
    }
}

/// What parsing the body of `outcome` gives, where a body was read.
pub open spec fn parsed_body(outcome: HttpOutcome) -> Result<JsonDocView, Seq<char>> {
    match outcome {
        HttpOutcome::Answered { body: Ok(body), .. } => json_document(body@),
        _ => Err(Seq::empty()),
    }
}

/// How sending the window somewhere ended.
pub enum NavigationOutcome {
    /// The window went there.
    Done,
    /// There is no window.
    NoWindow,
    /// The window refused, for this reason.
    Failed(String),
}

/// The answer after a navigation: `reply` where it worked, else a tool
/// error that says why not.
pub open spec fn navigation_reply(reply: Seq<char>, outcome: NavigationOutcome) -> ToolResultView {
    match outcome {
        NavigationOutcome::Done => ToolResultView::success(reply),
        NavigationOutcome::NoWindow => ToolResultView::error("No main window"@),
        NavigationOutcome::Failed(reason) => ToolResultView::error(
            "Navigation failed: "@ + reason@,
        ),
    }
}

/// Writes a tool error whose message is `label` and then `detail`.
fn fail(label: &str, detail: &str) -> (reply: WebsiteReply)
    ensures
        reply@ == failure(label@, detail@),
{
    let mut message = String::from_str(label);
    message.append(detail);
    WebsiteReply { result: tool_error(message), navigate: None }
}

/// The body that was read, or the empty text.
fn read_or_empty(body: Result<String, String>) -> (text: String)
    ensures
        text@ == body_or_empty(body),
{
    match body {
        Ok(text) => text,
        Err(_) => String::new(),
    }
}

/// Writes the JSON object whose one member `name` is the string `value`.
fn write_name_object(value: &str) -> (text: String)
    ensures
        text@ == name_object(value@),
{
    let mut members = Vec::new();
    members.push(JsonMember::string("name", value));
    assert(member_views(members@) =~= seq![
        JsonMemberView {
            name: "name"@,
            kind: JsonKindView::Text(value@),
            text: string_literal(value@),
        },
    ]);
    render_object(&members)
}

/// Writes the JSON object that confirms an operation with `message`.
fn write_confirmation(message: &str) -> (text: String)
    ensures
        text@ == confirmation(message@),
{
    let mut members = Vec::new();
    members.push(JsonMember::boolean("success", true));
    members.push(JsonMember::string("message", message));
    assert(member_views(members@) =~= seq![
        JsonMemberView { name: "success"@, kind: JsonKindView::Bool(true), text: "true"@ },
        JsonMemberView {
            name: "message"@,
            kind: JsonKindView::Text(message@),
            text: string_literal(message@),
        },
    ]);
    render_object(&members)
}

/// Writes the address of the storage API under `path` for the website `id`.
fn write_website_url(base: &str, path: &str, id: &str) -> (url: String)
    ensures
        url@ == website_url(base@, path@, id@),
{
    let mut url = String::from_str(base);
    url.append(path);
    url.append("?websiteId=");
    url.append(id);
    url.append("&");
    url.append(CONNECTOR);
    url
}

/// Reads the identity of the new website from the parsed answer to a
/// creation.
pub fn read_created_id(parsed: &Result<JsonDoc, String>) -> (id: Option<String>)
    ensures
        match id {
            Some(text) => created_id(
                match parsed {
                    Ok(doc) => Ok(doc@),
                    Err(message) => Err(message@),
                },
            ) == Some(text@),
            None => created_id(
                match parsed {
                    Ok(doc) => Ok(doc@),
                    Err(message) => Err(message@),
                },
            ) is None,
        },
{
    match parsed {
        Err(_) => None,
        Ok(doc) => {
            match &doc.kind {
                JsonKind::Object => {},
                _ => {
                    return None;
                },
            }
            match find_member(&doc.members, "websiteId") {
                None => None,
                Some(i) => {
                    assert(member_views(doc.members@)[i as int] == doc.members@[i as int]@);
                    match &doc.members[i].kind {
                        JsonKind::Text(id) => Some(id.clone()),
                        _ => None,
                    }
                },
            }
        },
    }
}

/// Answers a creation that succeeded with `body`; `parsed` is what parsing
/// `body` gave.
pub fn creation_reply(base_url: &str, body: &str, parsed: Result<JsonDoc, String>) -> (reply:
    WebsiteReply)
    ensures
        reply@ == created(
            base_url@,
            body@,
            match parsed {
                Ok(doc) => Ok(doc@),
                Err(message) => Err(message@),
            },
        ),
{
    let navigate = match read_created_id(&parsed) {
        Some(id) => {
            let mut url = String::from_str(base_url);
            url.append("/?id=");
            url.append(id.as_str());
            Some(url)
        },
        None => None,
    };
    let text = enrich_parsed(body, parsed, None, WEBSITE_CREATE_HINT);
    WebsiteReply { result: ToolResult::success(text), navigate }
}

impl SilexMcp {
    /// The address of the server that the window shows.
    pub fn get_base_url(location: Option<&WindowUrl>) -> (base: String)
        ensures
            base@ == base_url(
                match location {
                    Some(url) => Some(*url),
                    None => None,
                },
            ),
    {
        match location {
            None => String::from_str("http://localhost:6805"),
            Some(url) => {
                let mut base = url.scheme.clone();
                base.append("://");
                match &url.host {
                    Some(host) => base.append(host.as_str()),
                    None => base.append("localhost"),
                }
                base.append(":");
                let port: u16 = match url.port {
                    Some(port) => port,
                    None => DEFAULT_PORT,
                };
                base.append(decimal_string(port as u64).as_str());
                base
            },
        }
    }

    /// The script that sends the window to `url`.
    pub fn navigate_to(url: &str) -> (script: String)
        ensures
            script@ == navigation_script(url@),
    {
        let mut script = String::from_str("window.location.href = ");
        script.append(quote(url).as_str());
        script
    }

    /// The website tool: decides what to ask of the server at `base_url`.
    pub fn website(&self, base_url: &str, params: &WebsiteParams) -> (planned: Result<
        WebsiteStep,
        DispatchError,
    >)
        ensures
            step_view(planned) == website_plan(base_url@, *params),
    {
        match params.action {
            WebsiteAction::List => {
                let mut url = String::from_str(base_url);
                url.append("/api/website");
                return Ok(
                    WebsiteStep::Fetch(
                        HttpRequest { method: HttpMethod::Get, url, body: None },
                        Followup::Listing,
                    ),
                );
            },
            WebsiteAction::Create => {
                let mut url = String::from_str(base_url);
                url.append("/api/website?");
                url.append(CONNECTOR);
                let body = match &params.name {
                    Some(name) => write_name_object(name.as_str()),
                    None => String::from_str("{}"),
                };
                return Ok(
                    WebsiteStep::Fetch(
                        HttpRequest { method: HttpMethod::Put, url, body: Some(body) },
                        Followup::Creation { base_url: String::from_str(base_url) },
                    ),
                );
            },
            WebsiteAction::Dashboard => {
                let mut url = String::from_str(base_url);
                url.append("/");
                return Ok(
                    WebsiteStep::Navigate { url, reply: String::from_str(DASHBOARD_SHOWN) },
                );
            },
            _ => {},
        }
        let id = match &params.website_id {
            None => {
                return Err(
                    DispatchError::InvalidParams(String::from_str("website_id is required")),
                );
            },
            Some(id) => id.as_str(),
        };
        match params.action {
            WebsiteAction::Delete => Ok(
                WebsiteStep::Fetch(
                    HttpRequest {
                        method: HttpMethod::Delete,
                        url: write_website_url(base_url, "/api/website", id),
                        body: None,
                    },
                    Followup::Deletion {
                        base_url: String::from_str(base_url),
                        website_id: String::from_str(id),
                    },
                ),
            ),
            WebsiteAction::Rename => match &params.name {
                None => Err(DispatchError::InvalidParams(String::from_str("name is required"))),
                Some(name) => Ok(
                    WebsiteStep::Fetch(
                        HttpRequest {
                            method: HttpMethod::Post,
                            url: write_website_url(base_url, "/api/website/meta", id),
                            body: Some(write_name_object(name.as_str())),
                        },
                        Followup::Renaming { name: name.clone() },
                    ),
                ),
            },
            WebsiteAction::Duplicate => Ok(
                WebsiteStep::Fetch(
                    HttpRequest {
                        method: HttpMethod::Post,
                        url: write_website_url(base_url, "/api/website/duplicate", id),
                        body: None,
                    },
                    Followup::Duplication,
                ),
            ),
            _ => {
                let mut url = String::from_str(base_url);
                url.append("/?id=");
                url.append(id);
                Ok(WebsiteStep::Navigate { url, reply: String::from_str(WEBSITE_OPENED) })
            },
        }
    }

    /// The website tool, second half: answers once the request ended.
    pub fn website_fetched(&self, followup: Followup, outcome: HttpOutcome) -> (reply:
        WebsiteReply)
        ensures
            reply@ == website_reply(followup@, outcome, parsed_body(outcome)),
    {
        match followup {
            Followup::Listing => match outcome {
                HttpOutcome::Unsent(reason) => fail("Error fetching websites: ", reason.as_str()),
                HttpOutcome::Answered { success: _, status: _, body } => match body {
                    Err(reason) => fail("Error reading response: ", reason.as_str()),
                    Ok(body) => WebsiteReply {
                        result: ToolResult::success_pair(
                            body,
                            String::from_str(WEBSITE_LIST_HINT),
                        ),
                        navigate: None,
                    },
                },
            },
            Followup::Creation { base_url } => match outcome {
                HttpOutcome::Unsent(reason) => fail("Error creating website: ", reason.as_str()),
                HttpOutcome::Answered { success, status, body } => match body {
                    Err(reason) => fail("Error reading response: ", reason.as_str()),
                    Ok(body) => {
                        if success {
                            creation_reply(base_url.as_str(), body.as_str(), parse(body.as_str()))
                        } else {
                            let mut label = String::from_str("Error creating website (");
                            label.append(status.as_str());
                            label.append("): ");
                            fail(label.as_str(), body.as_str())
                        }
                    },
                },
            },
            Followup::Deletion { base_url, website_id } => match outcome {
                HttpOutcome::Unsent(reason) => fail("Error deleting website: ", reason.as_str()),
                HttpOutcome::Answered { success, status: _, body } => {
                    if success {
                        let mut message = String::from_str("Website '");
                        message.append(website_id.as_str());
                        message.append("' deleted");
                        let text = write_confirmation(message.as_str());
                        let mut url = base_url;
                        url.append("/");
                        WebsiteReply { result: ToolResult::success(text), navigate: Some(url) }
                    } else {
                        fail("Error deleting website: ", read_or_empty(body).as_str())
                    }
                },
            },
            Followup::Renaming { name } => match outcome {
                HttpOutcome::Unsent(reason) => fail("Error renaming website: ", reason.as_str()),
                HttpOutcome::Answered { success, status: _, body } => {
                    if success {
                        let mut message = String::from_str("Renamed to '");
                        message.append(name.as_str());
                        message.append("'");
                        let text = write_confirmation(message.as_str());
                        WebsiteReply { result: ToolResult::success(text), navigate: None }
                    } else {
                        fail("Error renaming website: ", read_or_empty(body).as_str())
                    }
                },
            },
            Followup::Duplication => match outcome {
                HttpOutcome::Unsent(reason) => fail(
                    "Error duplicating website: ",
                    reason.as_str(),
                ),
                HttpOutcome::Answered { success, status: _, body } => {
                    if success {
                        WebsiteReply {
                            result: ToolResult::success(read_or_empty(body)),
                            navigate: None,
                        }
                    } else {
                        fail("Error duplicating website: ", read_or_empty(body).as_str())
                    }
                },
            },
        }
    }

    /// The website tool, second half for a navigation: answers once the
    /// window was sent there, or could not be.
    pub fn website_navigated(&self, reply: String, outcome: NavigationOutcome) -> (result:
        ToolResult)
        ensures
            result@ == navigation_reply(reply@, outcome),
    {
        match outcome {
            NavigationOutcome::Done => ToolResult::success(reply),
            NavigationOutcome::NoWindow => tool_error(String::from_str("No main window")),
            NavigationOutcome::Failed(reason) => {
                let mut message = String::from_str("Navigation failed: ");
                message.append(reason.as_str());
                tool_error(message)
            },
        }
    }
}

} // verus!
