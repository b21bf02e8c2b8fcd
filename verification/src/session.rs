//! The tools that look at the application itself: its state, the editor's
//! commands, free scripts, screenshots and reports of what is missing.

use crate::bridge::{
    begin, context_error, envelope_text, outcome_view, settle, settled_outcome, settled_registry,
    settled_slots, Context, Envelope, ExecutionError, ExecutionErrorView, Signal,
};
use crate::dispatch::{Launch, SilexMcp, SCRIPT_TIMEOUT_SECS};
use crate::json::{
    boolean_text, json_document, member_views, object_text, parse, quote, render_object,
    string_literal, JsonDoc, JsonDocView, JsonKind, JsonKindView, JsonMember, JsonMemberView,
};
use crate::params::{
    EditorAction, EditorParams, EvalParams, ReportLimitationParams, ScreenshotParams,
};
use crate::response::{
    tool_error, DispatchError, DispatchErrorView, ToolResult, ToolResultView, SELECTION_STATE_JS,
};
use crate::text::{decimal, decimal_string, has_prefix, strip_prefix};
use base64::Engine;
use tokio::sync::oneshot::Receiver;
use vstd::prelude::*;

verus! {

/// The guidance given while a project is open.
pub const OPEN_GUIDE: &'static str =
    "Project is open. Hierarchy: Website \u{2192} Breakpoint \u{2192} Page \u{2192} Component \u{2192} Selector. Select each level before deeper operations. Use component(action:'get_tree') to see structure, component(action:'select') to select, selector(action:'list') to see selectors, selector(action:'select') to activate, then style(action:'set').";

/// The guidance given while no project is open.
pub const CLOSED_GUIDE: &'static str =
    "No project open. Next: website(action:'create', name:'My Site') to create a new site, or website(action:'list') then website(action:'open', website_id:'...') to open an existing one.";

/// How many seconds the state report waits for the selection state.
pub const PROBE_TIMEOUT_SECS: u64 = 5;

/// How many seconds a screenshot may take.
pub const SCREENSHOT_TIMEOUT_SECS: u64 = 30;

/// What a picture's data URL begins with.
pub const PNG_DATA_PREFIX: &'static str = "data:image/png;base64,";

/// The screenshot script up to the target that it compares with `canvas`.
pub const SCREENSHOT_HEAD: &'static str =
    "
(async function() {
    if (!window.html2canvas) {
        const s = document.createElement('script');
        s.src = 'https://cdnjs.cloudflare.com/ajax/libs/html2canvas/1.4.1/html2canvas.min.js';
        await new Promise((resolve, reject) => {
            s.onload = resolve;
            s.onerror = () => reject(new Error('Failed to load html2canvas from CDN'));
            document.head.appendChild(s);
        });
    }
    let element;
    if (";

/// The screenshot script after the target.
pub const SCREENSHOT_TAIL: &'static str =
    " === 'canvas') {
        const frame = document.querySelector('.gjs-frame');
        if (frame && frame.contentDocument && frame.contentDocument.body) {
            element = frame.contentDocument.body;
        } else {
            throw new Error('GrapesJS canvas iframe not found or not accessible');
        }
    } else {
        element = document.body;
    }
    const canvas = await html2canvas(element, { useCORS: true, allowTaint: true });
    return canvas.toDataURL('image/png');
})()
";

/// Where the caller can help after a limitation was reported.
pub const LIMITATION_TAIL: &'static str =
    ". The user can help improve Silex vibe-coding at: https://roadmap.silex.me/posts/65/vibe-coding-with-silex-desktop";

/// What is known of the window when the state is reported.
pub struct WindowInfo {
    pub title: Option<String>,
    pub url: Option<String>,
    pub fullscreen: Option<bool>,
    pub size: Option<(u32, u32)>,
}

/// The member `name` for an optional text: its string, or null.
pub open spec fn text_member(name: Seq<char>, value: Option<String>) -> JsonMemberView {
    match value {
        Some(text) => JsonMemberView {
            name,
            kind: JsonKindView::Text(text@),
            text: string_literal(text@),
        },
        None => JsonMemberView { name, kind: JsonKindView::Null, text: "null"@ },
    }
}

/// The member `name` for an optional text given as characters.
pub open spec fn chars_member(name: Seq<char>, value: Option<Seq<char>>) -> JsonMemberView {
    match value {
        Some(text) => JsonMemberView {
            name,
            kind: JsonKindView::Text(text),
            text: string_literal(text),
        },
        None => JsonMemberView { name, kind: JsonKindView::Null, text: "null"@ },
    }
}

/// The member `is_fullscreen`: the truth value, or null where unknown.
pub open spec fn fullscreen_member(value: Option<bool>) -> JsonMemberView {
    match value {
        Some(b) => JsonMemberView {
            name: "is_fullscreen"@,
            kind: JsonKindView::Bool(b),
            text: boolean_text(b),
        },
        None => JsonMemberView { name: "is_fullscreen"@, kind: JsonKindView::Null, text: "null"@ },
    }
}

/// The member `window_size`: width and height as a list, or null where
/// unknown.
pub open spec fn size_member(value: Option<(u32, u32)>) -> JsonMemberView {
    match value {
        Some(size) => JsonMemberView {
            name: "window_size"@,
            kind: JsonKindView::Array,
            text: "["@ + decimal(size.0 as nat) + ","@ + decimal(size.1 as nat) + "]"@,
        },
        None => JsonMemberView { name: "window_size"@, kind: JsonKindView::Null, text: "null"@ },
    }
}

/// The members of the state report, by name in alphabetical order: the
/// window's address, the project's identity and name, the dirty flag,
/// whether the window is full screen, the guidance for the state, the
/// selection state where there is one, and the window's size and title.
pub open spec fn app_state_members(
    project: Option<(Seq<char>, Seq<char>)>,
    dirty: bool,
    window: WindowInfo,
    selection: Option<JsonDocView>,
) -> Seq<JsonMemberView> {
    let guide = if project is Some {
        OPEN_GUIDE@
    } else {
        CLOSED_GUIDE@
    };
    let head = seq![
        text_member("current_url"@, window.url),
        chars_member(
            "current_website_id"@,
            match project {
                Some(p) => Some(p.0),
                None => None,
            },
        ),
        chars_member(
            "current_website_name"@,
            match project {
                Some(p) => Some(p.1),
                None => None,
            },
        ),
        JsonMemberView {
            name: "has_unsaved_changes"@,
            kind: JsonKindView::Bool(dirty),
            text: boolean_text(dirty),
        },
        fullscreen_member(window.fullscreen),
        JsonMemberView {
            name: "next_steps"@,
            kind: JsonKindView::Text(guide),
            text: string_literal(guide),
        },
    ];
    let middle = match selection {
        Some(doc) => head.push(
            JsonMemberView { name: "selection"@, kind: doc.kind, text: doc.text },
        ),
        None => head,
    };
    middle.push(size_member(window.size)).push(text_member("window_title"@, window.title))
}

/// The selection state to report: what the probe's script returned, where
/// a project is open, the script returned a text, and the text is JSON.
pub open spec fn reported_selection(
    project_open: bool,
    outcome: Result<Option<Seq<char>>, ExecutionErrorView>,
) -> Option<JsonDocView> {
    match outcome {
        Ok(Some(text)) => if project_open && json_document(text) is Ok {
            Some(json_document(text)->Ok_0)
        } else {
            None
        },
        _ => None,
    }
}

/// How the report of the application state starts.
pub enum AppStateStep {
    /// A project is open: push the envelope, which asks the editor for the
    /// selection state, and await the result on the receiver.
    Probe(Envelope, Receiver<String>),
    /// Answer with this report, which has no selection state.
    Reply(ToolResult),
}

/// The name of the event that stands for `action`.
pub open spec fn editor_event(action: EditorAction) -> Seq<char> {
    match action {
        EditorAction::Save => "menu-save"@,
        EditorAction::Undo => "menu-undo"@,
        EditorAction::Redo => "menu-redo"@,
    }
}

/// The answer after the event `event` was emitted, or could not be.
pub open spec fn editor_reply(event: Seq<char>, emitted: Result<(), String>) -> ToolResultView {
    match emitted {
        Ok(_) => ToolResultView::success("{\"success\":true,\"action\":\""@ + event + "\"}"@),
        Err(reason) => ToolResultView::error("Failed to emit "@ + event + ": "@ + reason@),
    }
}

/// What follows the run of a free script.
pub enum EvalStep {
    /// Write `contents` to the file at `path`.
    Save { path: String, contents: String },
    /// Answer with this result.
    Reply(ToolResult),
}

/// An `EvalStep` as a mathematical value.
pub enum EvalStepView {
    Save { path: Seq<char>, contents: Seq<char> },
    Reply(ToolResultView),
}

impl View for EvalStep {
    type V = EvalStepView;

    open spec fn view(&self) -> EvalStepView {
        match self {
            EvalStep::Save { path, contents } => EvalStepView::Save {
                path: path@,
                contents: contents@,
            },
            EvalStep::Reply(result) => EvalStepView::Reply(result@),
        }
    }
}

/// What follows the run of a free script that ended with `outcome`: its
/// result, `undefined` where it had none, is saved where a file is
/// named and is the answer where none is; a failure is a tool error.
pub open spec fn eval_step(
    outcome: Result<Option<Seq<char>>, ExecutionErrorView>,
    output_file: Option<String>,
) -> EvalStepView {
    match outcome {
        Err(e) => EvalStepView::Reply(ToolResultView::error(e.message())),
        Ok(result) => {
            let text = match result {
                Some(text) => text,
                None => "undefined"@,
            };
            match output_file {
                Some(path) => EvalStepView::Save { path: path@, contents: text },
                None => EvalStepView::Reply(ToolResultView::success(text)),
            }
        },
    }
}

/// The script that takes a picture of the editor, or of the website
/// preview alone where `target_literal`, a JSON string literal, denotes
/// `canvas`, and returns it as a data URL.
pub open spec fn screenshot_script(target_literal: Seq<char>) -> Seq<char> {
    SCREENSHOT_HEAD@ + target_literal + SCREENSHOT_TAIL@
}

/// What base64 decoding of `text` gives, with the standard alphabet and
/// padding: the bytes, or the decoder's message where `text` is not such
/// an encoding.
pub uninterp spec fn base64_decoded(text: Seq<char>) -> Result<Seq<u8>, Seq<char>>;

/// `Engine::decode` of `base64::engine::general_purpose::STANDARD`. The
/// result depends on `text` alone and is named `base64_decoded(text)`: the
/// decoded bytes, or the message of the decoder's error.
#[verifier::external_body]
fn decode_base64(text: &str) -> (decoded: Result<Vec<u8>, String>)
    ensures
        match decoded {
            Ok(bytes) => base64_decoded(text@) == Ok::<Seq<u8>, Seq<char>>(bytes@),
            Err(message) => base64_decoded(text@) == Err::<Seq<u8>, Seq<char>>(message@),
        },
{
    match base64::engine::general_purpose::STANDARD.decode(text) {
        Ok(bytes) => Ok(bytes),
        Err(e) => Err(e.to_string()),
    }
}

/// The base64 text of the picture in the outcome of the screenshot script,
/// or the tool error to answer with: the script failed, returned nothing,
/// or returned something that is no PNG data URL.
pub open spec fn image_data(outcome: Result<Option<Seq<char>>, ExecutionErrorView>) -> Result<
    Seq<char>,
    ToolResultView,
> {
    match outcome {
        Err(e) => Err(ToolResultView::error("Screenshot failed: "@ + e.message())),
        Ok(None) => Err(ToolResultView::error("Screenshot returned no data"@)),
        Ok(Some(url)) => if has_prefix(url, PNG_DATA_PREFIX@) {
            Ok(url.subrange(PNG_DATA_PREFIX@.len() as int, url.len() as int))
        } else {
            Err(ToolResultView::error("Unexpected data URL format"@))
        },
    }
}

/// The bytes of the picture, or the tool error to answer with, given what
/// decoding its base64 text gave.
pub open spec fn image_bytes(decoded: Result<Seq<u8>, Seq<char>>) -> Result<
    Seq<u8>,
    ToolResultView,
> {
    match decoded {
        Ok(bytes) => Ok(bytes),
        Err(message) => Err(ToolResultView::error("Failed to decode base64: "@ + message)),
    }
}

/// The picture in the outcome of the screenshot script, or the tool error
/// to answer with.
pub open spec fn picture(outcome: Result<Option<Seq<char>>, ExecutionErrorView>) -> Result<
    Seq<u8>,
    ToolResultView,
> {
    match image_data(outcome) {
        Err(result) => Err(result),
        Ok(data) => image_bytes(base64_decoded(data)),
    }
}

/// Where a picture is saved.
pub enum SaveTarget {
    /// At this path.
    Path(String),
    /// Under this name in the directory for temporary files.
    Temporary(String),
}

/// The name of the temporary file for the picture that got `id`.
pub open spec fn screenshot_name(id: u64) -> Seq<char> {
    "silex-screenshot-"@ + decimal(id as nat) + ".png"@
}

/// The answer after a file was written to `path`, or could not be;
/// `label` says what was saved.
pub open spec fn saved_reply(label: Seq<char>, path: Seq<char>, written: Result<(), String>) -> Result<
    Seq<char>,
    Seq<char>,
> {
    match written {
        Ok(_) => Ok(label + " saved to "@ + path),
        Err(reason) => Err("Failed to write file: "@ + reason@),
    }
}

/// A report of a missing capability: the line for the log, and the answer.
pub struct LimitationReport {
    pub entry: String,
    pub result: ToolResult,
}

/// The line that records a limitation reported at `timestamp`, in seconds
/// since the epoch: a JSON object with the context, the description, the
/// time and the workaround.
pub open spec fn limitation_entry(params: ReportLimitationParams, timestamp: u64) -> Seq<char> {
    object_text(
        seq![
            text_member("context"@, params.context),
            JsonMemberView {
                name: "description"@,
                kind: JsonKindView::Text(params.description@),
                text: string_literal(params.description@),
            },
            JsonMemberView {
                name: "timestamp"@,
                kind: JsonKindView::Number,
                text: decimal(timestamp as nat),
            },
            text_member("workaround"@, params.workaround),
        ],
    )
}

/// The answer to a reported limitation.
pub open spec fn limitation_reply(params: ReportLimitationParams) -> ToolResultView {
    ToolResultView::success("Limitation reported: "@ + params.description@ + LIMITATION_TAIL@)
}

/// Reads the base64 text of the picture from the outcome of the
/// screenshot script.
pub fn read_image_data(outcome: Result<Option<String>, ExecutionError>) -> (data: Result<
    String,
    ToolResult,
>)
    ensures
        match data {
            Ok(text) => image_data(outcome_view(outcome)) == Ok::<Seq<char>, ToolResultView>(
                text@,
            ),
            Err(result) => image_data(outcome_view(outcome)) == Err::<Seq<char>, ToolResultView>(
                result@,
            ),
        },
{
    match outcome {
        Err(e) => {
            let mut message = String::from_str("Screenshot failed: ");
            message.append(e.message().as_str());
            Err(tool_error(message))
        },
        Ok(None) => Err(tool_error(String::from_str("Screenshot returned no data"))),
        Ok(Some(url)) => match strip_prefix(url.as_str(), PNG_DATA_PREFIX) {
            Some(data) => Ok(data),
            None => Err(tool_error(String::from_str("Unexpected data URL format"))),
        },
    }
}

/// Gives the bytes of the picture, given what decoding its base64 text gave.
pub fn read_image_bytes(decoded: Result<Vec<u8>, String>) -> (bytes: Result<Vec<u8>, ToolResult>)
    ensures
        match bytes {
            Ok(b) => image_bytes(
                match decoded {
                    Ok(d) => Ok(d@),
                    Err(m) => Err(m@),
                },
            ) == Ok::<Seq<u8>, ToolResultView>(b@),
            Err(result) => image_bytes(
                match decoded {
                    Ok(d) => Ok(d@),
                    Err(m) => Err(m@),
                },
            ) == Err::<Seq<u8>, ToolResultView>(result@),
        },
{
    match decoded {
        Ok(bytes) => Ok(bytes),
        Err(message) => {
            let mut text = String::from_str("Failed to decode base64: ");
            text.append(message.as_str());
            Err(tool_error(text))
        },
    }
}

/// Reads the picture from the outcome of the screenshot script.
pub fn read_picture(outcome: Result<Option<String>, ExecutionError>) -> (bytes: Result<
    Vec<u8>,
    ToolResult,
>)
    ensures
        match bytes {
            Ok(b) => picture(outcome_view(outcome)) == Ok::<Seq<u8>, ToolResultView>(b@),
            Err(result) => picture(outcome_view(outcome)) == Err::<Seq<u8>, ToolResultView>(
                result@,
            ),
        },
{
    match read_image_data(outcome) {
        Err(result) => Err(result),
        Ok(data) => read_image_bytes(decode_base64(data.as_str())),
    }
}

/// The answer after the picture was written to `path`, or could not be.
pub fn screenshot_saved(path: &str, written: Result<(), String>) -> (result: ToolResult)
    ensures
        match saved_reply("Screenshot"@, path@, written) {
            Ok(text) => result@ == ToolResultView::success(text),
            Err(message) => result@ == ToolResultView::error(message),
        },
{
    match written {
        Ok(_) => {
            let mut text = String::from_str("Screenshot");
            text.append(" saved to ");
            text.append(path);
            ToolResult::success(text)
        },
        Err(reason) => {
            let mut message = String::from_str("Failed to write file: ");
            message.append(reason.as_str());
            tool_error(message)
        },
    }
}

/// The answer after the result of a free script was written to `path`; a
/// failure to write is an error of the dispatcher.
pub fn eval_js_saved(path: &str, written: Result<(), String>) -> (answer: Result<
    ToolResult,
    DispatchError,
>)
    ensures
        match saved_reply("Result"@, path@, written) {
            Ok(text) => answer is Ok && answer->Ok_0@ == ToolResultView::success(text),
            Err(message) => answer is Err && answer->Err_0@ == DispatchErrorView::Internal(
                message,
            ),
        },
{
    match written {
        Ok(_) => {
            let mut text = String::from_str("Result");
            text.append(" saved to ");
            text.append(path);
            Ok(ToolResult::success(text))
        },
        Err(reason) => {
            let mut message = String::from_str("Failed to write file: ");
            message.append(reason.as_str());
            Err(DispatchError::Internal(message))
        },
    }
}

/// The answer after the event `event` was emitted, or could not be.
pub fn editor_emitted(event: &str, emitted: Result<(), String>) -> (result: ToolResult)
    ensures
        result@ == editor_reply(event@, emitted),
{
    match emitted {
        Ok(_) => {
            let mut text = String::from_str("{\"success\":true,\"action\":\"");
            text.append(event);
            text.append("\"}");
            ToolResult::success(text)
        },
        Err(reason) => {
            let mut message = String::from_str("Failed to emit ");
            message.append(event);
            message.append(": ");
            message.append(reason.as_str());
            tool_error(message)
        },
    }
}

/// Makes the member `is_fullscreen`.
fn make_fullscreen_member(value: Option<bool>) -> (member: JsonMember)
    ensures
        member@ == fullscreen_member(value),
{
    match value {
        Some(b) => JsonMember::boolean("is_fullscreen", b),
        None => JsonMember::null("is_fullscreen"),
    }
}

/// Makes the member `window_size`.
fn make_size_member(value: Option<(u32, u32)>) -> (member: JsonMember)
    ensures
        member@ == size_member(value),
{
    match value {
        Some(size) => {
            let mut text = String::from_str("[");
            text.append(decimal_string(size.0 as u64).as_str());
            text.append(",");
            text.append(decimal_string(size.1 as u64).as_str());
            text.append("]");
            JsonMember { name: String::from_str("window_size"), kind: JsonKind::Array, text }
        },
        None => JsonMember::null("window_size"),
    }
}

impl SilexMcp {
    /// The report of the application state as JSON text: see
    /// `app_state_members`. The selection state is reported only while a
    /// project is open.
    pub fn app_state(&self, window: &WindowInfo, selection: Option<&JsonDoc>) -> (result:
        ToolResult)
        ensures
            result@ == ToolResultView::success(
                object_text(
                    app_state_members(
                        self.selection@.project,
                        self.selection@.dirty,
                        *window,
                        match selection {
                            Some(doc) => Some(doc@),
                            None => None,
                        },
                    ),
                ),
            ),
    {
        let id = self.selection.current_project_id();
        let name = self.selection.current_project_name();
        let dirty = self.selection.dirty();
        let guide = if self.selection.has_project() {
            OPEN_GUIDE
        } else {
            CLOSED_GUIDE
        };
        let mut members: Vec<JsonMember> = Vec::new();
        members.push(JsonMember::optional_string("current_url", &window.url));
        members.push(JsonMember::optional_string("current_website_id", &id));
        members.push(JsonMember::optional_string("current_website_name", &name));
        members.push(JsonMember::boolean("has_unsaved_changes", dirty));
        members.push(make_fullscreen_member(window.fullscreen));
        members.push(JsonMember::string("next_steps", guide));
        match selection {
            Some(doc) => members.push(JsonMember::document("selection", doc)),
            None => {},
        }
        members.push(make_size_member(window.size));
        members.push(JsonMember::optional_string("window_title", &window.title));
        assert(member_views(members@) =~= app_state_members(
            self.selection@.project,
            self.selection@.dirty,
            *window,
            match selection {
                Some(doc) => Some(doc@),
                None => None,
            },
        ));
        ToolResult::success(render_object(&members))
    }

    /// Starts the report of the application state. While a project is open
    /// and the execution context can run scripts, the editor is asked for
    /// the selection state first; else the report is given at once. Room
    /// for one more identifier is needed only where the editor is asked.
    pub fn get_app_state(&mut self, context: &Context, window: &WindowInfo) -> (step:
        AppStateStep)
        requires
            old(self).wf(),
            old(self).selection@.project is Some && context_error(*context) is None ==> old(self).registry@.has_room(),
        ensures
            final(self).wf(),
            final(self).selection == old(self).selection,
            old(self).selection@.project is Some && context_error(*context) is None
                <==> step is Probe,
            match step {
                AppStateStep::Probe(envelope, _) => {
                    &&& old(self).selection@.project is Some
                    &&& context_error(*context) is None
                    &&& final(self).registry@ == old(self).registry@.register()
                    &&& final(self).registry.held().contains_key(envelope.id)
                    &&& final(self).registry.held().remove(envelope.id) == old(self).registry.held()
                    &&& envelope.id == old(self).registry@.next_id
                    &&& envelope.body@ == envelope_text(envelope.id, SELECTION_STATE_JS@)
                    &&& envelope.timeout_secs == PROBE_TIMEOUT_SECS
                },
                AppStateStep::Reply(result) => {
                    &&& old(self).selection@.project is None || context_error(*context) is Some
                    &&& final(self).registry@ == old(self).registry@
                    &&& final(self).registry.held() == old(self).registry.held()
                    &&& result@ == ToolResultView::success(
                        object_text(
                            app_state_members(
                                old(self).selection@.project,
                                old(self).selection@.dirty,
                                *window,
                                None,
                            ),
                        ),
                    )
                },
            },
    {
        if !self.selection.has_project() {
            return AppStateStep::Reply(self.app_state(window, None));
        }
        match begin(&mut self.registry, context, SELECTION_STATE_JS, PROBE_TIMEOUT_SECS) {
            Ok((envelope, receiver)) => AppStateStep::Probe(envelope, receiver),
            Err(_) => AppStateStep::Reply(self.app_state(window, None)),
        }
    }

    /// Ends the report of the application state once the probe ended with
    /// `signal`: the report has the selection state where the probe gave
    /// JSON text, and lacks it otherwise.
    pub fn app_state_probed(&mut self, window: &WindowInfo, envelope: &Envelope, signal: Signal) -> (result:
        ToolResult)
        requires
            old(self).wf(),
        ensures
            final(self).wf(),
            final(self).selection == old(self).selection,
            final(self).registry@ == settled_registry(old(self).registry@, envelope.id, signal),
            final(self).registry.held() == settled_slots(
                old(self).registry.held(),
                envelope.id,
                signal,
            ),
            result@ == ToolResultView::success(
                object_text(
                    app_state_members(
                        old(self).selection@.project,
                        old(self).selection@.dirty,
                        *window,
                        reported_selection(
                            old(self).selection@.project is Some,
                            settled_outcome(envelope.timeout_secs, signal),
                        ),
                    ),
                ),
            ),
    {
        let outcome = settle(&mut self.registry, envelope, signal);
        if !self.selection.has_project() {
            return self.app_state(window, None);
        }
        match outcome {
            Ok(Some(text)) => match parse(text.as_str()) {
                Ok(doc) => self.app_state(window, Some(&doc)),
                Err(_) => self.app_state(window, None),
            },
            _ => self.app_state(window, None),
        }
    }

    /// The editor tool: the name of the event to emit for the action.
    pub fn editor(&self, params: &EditorParams) -> (event: &'static str)
        ensures
            event@ == editor_event(params.action),
    {
        match params.action {
            EditorAction::Save => "menu-save",
            EditorAction::Undo => "menu-undo",
            EditorAction::Redo => "menu-redo",
        }
    }

    /// Starts a run that needs no open project: registers the request, or
    /// gives the error of a context that cannot run scripts, in which case
    /// nothing is registered.
    pub fn execute(&mut self, context: &Context, script: &str, timeout_secs: u64) -> (started:
        Result<(Envelope, Receiver<String>), ExecutionError>)
        requires
            old(self).wf(),
            context_error(*context) is None ==> old(self).registry@.has_room(),
        ensures
            final(self).wf(),
            final(self).selection == old(self).selection,
            context_error(*context) is None <==> started is Ok,
            match started {
                Ok((envelope, _)) => {
                    &&& context_error(*context) is None
                    &&& final(self).registry@ == old(self).registry@.register()
                    &&& final(self).registry.held().contains_key(envelope.id)
                    &&& final(self).registry.held().remove(envelope.id) == old(self).registry.held()
                    &&& envelope.id == old(self).registry@.next_id
                    &&& envelope.body@ == envelope_text(envelope.id, script@)
                    &&& envelope.timeout_secs == timeout_secs
                },
                Err(e) => {
                    &&& context_error(*context) == Some(e@)
                    &&& final(self).registry@ == old(self).registry@
                    &&& final(self).registry.held() == old(self).registry.held()
                },
            },
    {
        begin(&mut self.registry, context, script, timeout_secs)
    }

    /// The free script tool: runs the caller's script as it is, whether or
    /// not a project is open.
    pub fn eval_js(&mut self, context: &Context, params: &EvalParams) -> (launch: Launch)
        requires
            old(self).wf(),
            context_error(*context) is None ==> old(self).registry@.has_room(),
        ensures
            final(self).wf(),
            final(self).selection == old(self).selection,
            context_error(*context) is None <==> launch is Push,
            match launch {
                Launch::Push(envelope, _) => {
                    &&& context_error(*context) is None
                    &&& final(self).registry@ == old(self).registry@.register()
                    &&& final(self).registry.held().contains_key(envelope.id)
                    &&& final(self).registry.held().remove(envelope.id) == old(self).registry.held()
                    &&& envelope.id == old(self).registry@.next_id
                    &&& envelope.body@ == envelope_text(envelope.id, params.js@)
                    &&& envelope.timeout_secs == SCRIPT_TIMEOUT_SECS
                },
                Launch::Reply(result) => {
                    &&& context_error(*context) is Some
                    &&& result@ == ToolResultView::error(context_error(*context)->Some_0.message())
                    &&& final(self).registry@ == old(self).registry@
                    &&& final(self).registry.held() == old(self).registry.held()
                },
            },
    {
        match self.execute(context, params.js.as_str(), SCRIPT_TIMEOUT_SECS) {
            Ok((envelope, receiver)) => Launch::Push(envelope, receiver),
            Err(e) => Launch::Reply(tool_error(e.message())),
        }
    }

    /// Ends the run of a free script with what happened to it.
    pub fn eval_js_done(&mut self, envelope: &Envelope, signal: Signal, output_file: Option<String>) -> (step:
        EvalStep)
        requires
            old(self).wf(),
        ensures
            final(self).wf(),
            final(self).selection == old(self).selection,
            final(self).registry@ == settled_registry(old(self).registry@, envelope.id, signal),
            final(self).registry.held() == settled_slots(
                old(self).registry.held(),
                envelope.id,
                signal,
            ),
            step@ == eval_step(settled_outcome(envelope.timeout_secs, signal), output_file),
    {
        match settle(&mut self.registry, envelope, signal) {
            Err(e) => EvalStep::Reply(tool_error(e.message())),
            Ok(result) => {
                let text = match result {
                    Some(text) => text,
                    None => String::from_str("undefined"),
                };
                match output_file {
                    Some(path) => EvalStep::Save { path, contents: text },
                    None => EvalStep::Reply(ToolResult::success(text)),
                }
            },
        }
    }

    /// The screenshot tool: runs the script that takes the picture. The
    /// target is "ui" where none is given, and reaches the script as a JSON
    /// string literal.
    pub fn take_screenshot(&mut self, context: &Context, params: &ScreenshotParams) -> (launch:
        Launch)
        requires
            old(self).wf(),
            context_error(*context) is None ==> old(self).registry@.has_room(),
        ensures
            final(self).wf(),
            final(self).selection == old(self).selection,
            context_error(*context) is None <==> launch is Push,
            match launch {
                Launch::Push(envelope, _) => {
                    &&& context_error(*context) is None
                    &&& final(self).registry@ == old(self).registry@.register()
                    &&& final(self).registry.held().contains_key(envelope.id)
                    &&& final(self).registry.held().remove(envelope.id) == old(self).registry.held()
                    &&& envelope.id == old(self).registry@.next_id
                    &&& envelope.body@ == envelope_text(
                        envelope.id,
                        screenshot_script(
                            string_literal(
                                match params.target {
                                    Some(target) => target@,
                                    None => "ui"@,
                                },
                            ),
                        ),
                    )
                    &&& envelope.timeout_secs == SCREENSHOT_TIMEOUT_SECS
                },
                Launch::Reply(result) => {
                    &&& context_error(*context) is Some
                    &&& result@ == ToolResultView::error(
                        "Screenshot failed: "@ + context_error(*context)->Some_0.message(),
                    )
                    &&& final(self).registry@ == old(self).registry@
                    &&& final(self).registry.held() == old(self).registry.held()
                },
            },
    {
        let target = match &params.target {
            Some(target) => target.as_str(),
            None => "ui",
        };
        let mut script = String::from_str(SCREENSHOT_HEAD);
        script.append(quote(target).as_str());
        script.append(SCREENSHOT_TAIL);
        match self.execute(context, script.as_str(), SCREENSHOT_TIMEOUT_SECS) {
            Ok((envelope, receiver)) => Launch::Push(envelope, receiver),
            Err(e) => {
                let mut message = String::from_str("Screenshot failed: ");
                message.append(e.message().as_str());
                Launch::Reply(tool_error(message))
            },
        }
    }

    /// Where to save a picture: at the path that was asked for, or in a
    /// temporary file named after the next identifier, which is then used
    /// up. Room for that identifier is needed only where no path is given.
    pub fn save_target(&mut self, output_file: Option<String>) -> (target: SaveTarget)
        requires
            old(self).wf(),
            output_file is None ==> old(self).registry@.has_room(),
        ensures
            final(self).wf(),
            final(self).selection == old(self).selection,
            final(self).registry.held() == old(self).registry.held(),
            match output_file {
                Some(path) => target == SaveTarget::Path(path) && final(self).registry@ == old(self).registry@,
                None => target matches SaveTarget::Temporary(name) && name@ == screenshot_name(
                    old(self).registry@.next_id as u64,
                ) && final(self).registry@ == old(self).registry@.skip(),
            },
    {
        match output_file {
            Some(path) => SaveTarget::Path(path),
            None => {
                let id = self.registry.skip();
                let mut name = String::from_str("silex-screenshot-");
                name.append(decimal_string(id).as_str());
                name.append(".png");
                SaveTarget::Temporary(name)
            },
        }
    }

    /// Ends the run of the screenshot script with what happened to it:
    /// the bytes of the picture, which `save_target` then finds a place
    /// for, or the tool error to answer with.
    pub fn screenshot_taken(&mut self, envelope: &Envelope, signal: Signal) -> (taken: Result<
        Vec<u8>,
        ToolResult,
    >)
        requires
            old(self).wf(),
        ensures
            final(self).wf(),
            final(self).selection == old(self).selection,
            final(self).registry@ == settled_registry(old(self).registry@, envelope.id, signal),
            final(self).registry.held() == settled_slots(
                old(self).registry.held(),
                envelope.id,
                signal,
            ),
            match taken {
                Ok(bytes) => picture(settled_outcome(envelope.timeout_secs, signal)) == Ok::<
                    Seq<u8>,
                    ToolResultView,
                >(bytes@),
                Err(result) => picture(settled_outcome(envelope.timeout_secs, signal)) == Err::<
                    Seq<u8>,
                    ToolResultView,
                >(result@),
            },
    {
        read_picture(settle(&mut self.registry, envelope, signal))
    }

    /// The limitation tool: records what the caller could not do, at
    /// `timestamp` seconds since the epoch.
    pub fn report_limitation(&self, params: &ReportLimitationParams, timestamp: u64) -> (report:
        LimitationReport)
        ensures
            report.entry@ == limitation_entry(*params, timestamp),
            report.result@ == limitation_reply(*params),
    {
        let mut members: Vec<JsonMember> = Vec::new();
        members.push(JsonMember::optional_string("context", &params.context));
        members.push(JsonMember::string("description", params.description.as_str()));
        members.push(JsonMember::number("timestamp", timestamp));
        members.push(JsonMember::optional_string("workaround", &params.workaround));
        assert(member_views(members@) =~= seq![
            text_member("context"@, params.context),
            JsonMemberView {
                name: "description"@,
                kind: JsonKindView::Text(params.description@),
                text: string_literal(params.description@),
            },
            JsonMemberView {
                name: "timestamp"@,
                kind: JsonKindView::Number,
                text: decimal(timestamp as nat),
            },
            text_member("workaround"@, params.workaround),
        ]);
        let entry = render_object(&members);
        let mut text = String::from_str("Limitation reported: ");
        text.append(params.description.as_str());
        text.append(LIMITATION_TAIL);
        LimitationReport { entry, result: ToolResult::success(text) }
    }
}

} // verus!
