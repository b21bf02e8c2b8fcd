//! The tool dispatcher: the context that every tool call runs in, and the
//! steps that take a script through the execution bridge.

use crate::bridge::{
    begin, context_error, envelope_text, settle, settled_outcome, settled_registry, settled_slots,
    Context, Envelope, Signal,
};
use crate::json::{
    law_literal_reads_back, quote, read_string_literal, string_literal, JsonText,
};
use crate::registry::Registry;
use crate::response::{
    reply_to_script, script_reply, selection_script, tool_error, wrap_with_selection,
    DispatchError, DispatchErrorView, ToolResult, ToolResultView,
};
use crate::selection::SelectionState;
use tokio::sync::oneshot::Receiver;
use vstd::prelude::*;

verus! {

/// What the caller is told where a tool needs an open project and none is open.
pub const NO_PROJECT: &'static str =
    "No project open. Use website(action: 'open') or website(action: 'create') first.";

/// How many seconds a tool waits for the result of its script.
pub const SCRIPT_TIMEOUT_SECS: u64 = 10;

/// What a tool asks for once its parameters were accepted.
pub enum ToolPlan {
    /// Run this script in the editor and answer with its result.
    RunJs(String),
}

/// A `ToolPlan` as a mathematical value.
pub enum ToolPlanView {
    RunJs(Seq<char>),
}

impl View for ToolPlan {
    type V = ToolPlanView;

    open spec fn view(&self) -> ToolPlanView {
        match self {
            ToolPlan::RunJs(script) => ToolPlanView::RunJs(script@),
        }
    }
}

/// What a tool decided, as a mathematical value.
pub open spec fn plan_view(planned: Result<ToolPlan, DispatchError>) -> Result<
    ToolPlanView,
    DispatchErrorView,
> {
    match planned {
        Ok(plan) => Ok(plan@),
        Err(e) => Err(e@),
    }
}

/// The plan of a tool that runs `body` enriched with the selection state
/// and `hint`: the script where a project is open, a refusal where none is.
pub open spec fn guided(project_open: bool, body: Seq<char>, hint: Seq<char>) -> Result<
    ToolPlanView,
    DispatchErrorView,
> {
    plain(project_open, selection_script(body, hint))
}

/// The plan of a tool that runs `script` as it is: the script where a
/// project is open, a refusal where none is.
pub open spec fn plain(project_open: bool, script: Seq<char>) -> Result<
    ToolPlanView,
    DispatchErrorView,
> {
    if project_open {
        Ok(ToolPlanView::RunJs(script))
    } else {
        Err(DispatchErrorView::PreconditionFailed(NO_PROJECT@))
    }
}

/// The refusal of a call that lacks a required parameter.
pub open spec fn missing(message: Seq<char>) -> Result<ToolPlanView, DispatchErrorView> {
    Err(DispatchErrorView::InvalidParams(message))
}

/// Refuses a call that lacks a required parameter.
pub fn refuse_missing(message: &str) -> (planned: Result<ToolPlan, DispatchError>)
    ensures
        plan_view(planned) == missing(message@),
{
    Err(DispatchError::InvalidParams(String::from_str(message)))
}

/// Without an open project no script is planned, whatever the script.
pub proof fn law_project_required(body: Seq<char>, hint: Seq<char>, script: Seq<char>)
    ensures
        guided(false, body, hint) == Err::<ToolPlanView, DispatchErrorView>(
            DispatchErrorView::PreconditionFailed(NO_PROJECT@),
        ),
        plain(false, script) == Err::<ToolPlanView, DispatchErrorView>(
            DispatchErrorView::PreconditionFailed(NO_PROJECT@),
        ),
{
}

/// A call of the editor helper `function` on the editor alone.
pub open spec fn helper_call0(function: Seq<char>) -> Seq<char> {
    "return window.__silexMcp."@ + function + "(e)"@
}

/// A call of the editor helper `function` with one more argument, given
/// as script text.
pub open spec fn helper_call1(function: Seq<char>, a: Seq<char>) -> Seq<char> {
    "return window.__silexMcp."@ + function + "(e,"@ + a + ")"@
}

/// A call of the editor helper `function` with two more arguments, given
/// as script text.
pub open spec fn helper_call2(function: Seq<char>, a: Seq<char>, b: Seq<char>) -> Seq<char> {
    "return window.__silexMcp."@ + function + "(e,"@ + a + ","@ + b + ")"@
}

/// A text that is handed to a helper as a JSON string literal stands in
/// the call as one literal: a reader that starts where it starts gets the
/// text back, whatever the text holds, and stops where the call goes on.
/// This holds of the one argument of `helper_call1` and of both arguments
/// of `helper_call2`.
pub proof fn law_call_holds_text(
    function: Seq<char>,
    first: Seq<char>,
    second: Seq<char>,
    other: Seq<char>,
)
    ensures
        read_string_literal(
            helper_call1(function, string_literal(first)).skip(
                ("return window.__silexMcp."@ + function + "(e,"@).len() as int,
            ),
        ) == Some((first, string_literal(first).len() as int)),
        read_string_literal(
            helper_call2(function, string_literal(first), other).skip(
                ("return window.__silexMcp."@ + function + "(e,"@).len() as int,
            ),
        ) == Some((first, string_literal(first).len() as int)),
        read_string_literal(
            helper_call2(function, other, string_literal(second)).skip(
                ("return window.__silexMcp."@ + function + "(e,"@ + other + ","@).len() as int,
            ),
        ) == Some((second, string_literal(second).len() as int)),
{
    let head = "return window.__silexMcp."@ + function + "(e,"@;
    assert(helper_call1(function, string_literal(first)).skip(head.len() as int)
        =~= string_literal(first) + ")"@);
    law_literal_reads_back(first, ")"@);
    assert(helper_call2(function, string_literal(first), other).skip(head.len() as int)
        =~= string_literal(first) + (","@ + other + ")"@));
    law_literal_reads_back(first, ","@ + other + ")"@);
    let head2 = head + other + ","@;
    assert(helper_call2(function, other, string_literal(second)).skip(head2.len() as int)
        =~= string_literal(second) + ")"@);
    law_literal_reads_back(second, ")"@);
}

/// Writes a call of the editor helper `function` on the editor alone.
pub fn call0(function: &str) -> (body: String)
    ensures
        body@ == helper_call0(function@),
{
    let mut body = String::from_str("return window.__silexMcp.");
    body.append(function);
    body.append("(e)");
    body
}

/// Writes a call of the editor helper `function` with one more argument.
pub fn call1(function: &str, a: &str) -> (body: String)
    ensures
        body@ == helper_call1(function@, a@),
{
    let mut body = String::from_str("return window.__silexMcp.");
    body.append(function);
    body.append("(e,");
    body.append(a);
    body.append(")");
    body
}

/// Writes a call of the editor helper `function` with two more arguments.
pub fn call2(function: &str, a: &str, b: &str) -> (body: String)
    ensures
        body@ == helper_call2(function@, a@, b@),
{
    let mut body = String::from_str("return window.__silexMcp.");
    body.append(function);
    body.append("(e,");
    body.append(a);
    body.append(",");
    body.append(b);
    body.append(")");
    body
}

/// The text of `value`, or `fallback` where there is none.
pub open spec fn text_or(value: Option<String>, fallback: Seq<char>) -> Seq<char> {
    match value {
        Some(text) => text@,
        None => fallback,
    }
}

/// The text of `value`, or `fallback` where there is none.
pub fn or_text<'a>(value: &'a Option<String>, fallback: &'a str) -> (text: &'a str)
    ensures
        text@ == text_or(*value, fallback@),
{
    match value {
        Some(text) => text.as_str(),
        None => fallback,
    }
}

/// `value` as a JSON string literal, or `null` where there is none.
pub open spec fn literal_or_null(value: Option<String>) -> Seq<char> {
    match value {
        Some(text) => string_literal(text@),
        None => "null"@,
    }
}

/// Writes `value` as a JSON string literal, or `null` where there is none.
pub fn quote_or_null(value: &Option<String>) -> (text: String)
    ensures
        text@ == literal_or_null(*value),
{
    match value {
        Some(text) => quote(text.as_str()),
        None => String::from_str("null"),
    }
}

/// The JSON text of `value`, or `fallback` where there is none.
pub open spec fn json_or(value: Option<JsonText>, fallback: Seq<char>) -> Seq<char> {
    match value {
        Some(json) => json@,
        None => fallback,
    }
}

/// The JSON text of `value`, or `fallback` where there is none.
pub fn or_json<'a>(value: &'a Option<JsonText>, fallback: &'a str) -> (text: &'a str)
    ensures
        text@ == json_or(*value, fallback@),
{
    match value {
        Some(json) => json.as_str(),
        None => fallback,
    }
}

/// How the run of a tool's script starts.
pub enum Launch {
    /// The request is registered: push the envelope into the execution
    /// context and await the result on the receiver.
    Push(Envelope, Receiver<String>),
    /// The execution context cannot run the script: answer with this.
    Reply(ToolResult),
}

/// The context of every tool call: the selection state and the
/// correlation registry.
pub struct SilexMcp {
    pub selection: SelectionState,
    pub registry: Registry,
}

impl SilexMcp {
    /// The invariant of the dispatcher: that of its registry.
    pub open spec fn wf(&self) -> bool {
        self.registry.wf()
    }

    /// A dispatcher over the given state and registry.
    pub fn new(selection: SelectionState, registry: Registry) -> (mcp: SilexMcp)
        requires
            registry.wf(),
        ensures
            mcp.wf(),
            mcp.selection == selection,
            mcp.registry == registry,
    {
        SilexMcp { selection, registry }
    }

    /// Checks that a project is open.
    pub fn require_project(&self) -> (checked: Result<(), String>)
        ensures
            match checked {
                Ok(_) => self.selection@.project is Some,
                Err(message) => self.selection@.project is None && message@ == NO_PROJECT@,
            },
    {
        if self.selection.has_project() {
            Ok(())
        } else {
            Err(String::from_str(NO_PROJECT))
        }
    }

    /// Plans to run `script` as it is, which needs an open project.
    pub fn run_plain(&self, script: String) -> (planned: Result<ToolPlan, DispatchError>)
        ensures
            plan_view(planned) == plain(self.selection@.project is Some, script@),
    {
        match self.require_project() {
            Ok(_) => Ok(ToolPlan::RunJs(script)),
            Err(message) => Err(DispatchError::PreconditionFailed(message)),
        }
    }

    /// Plans to run `body` enriched with the selection state and `hint`,
    /// which needs an open project.
    pub fn run_guided(&self, body: &str, hint: &str) -> (planned: Result<ToolPlan, DispatchError>)
        ensures
            plan_view(planned) == guided(self.selection@.project is Some, body@, hint@),
    {
        self.run_plain(wrap_with_selection(body, hint))
    }

    /// Starts the run of a tool's script. Without an open project the call
    /// is refused and the bridge is not touched. Where the execution
    /// context cannot run scripts the answer is a tool error, and again
    /// nothing is registered. Otherwise the request is registered and its
    /// envelope is returned for pushing. Room for one more identifier is
    /// needed only where the request is registered.
    pub fn run_js(&mut self, context: &Context, js: &str) -> (started: Result<
        Launch,
        DispatchError,
    >)
        requires
            old(self).wf(),
            old(self).selection@.project is Some && context_error(*context) is None ==> old(self).registry@.has_room(),
        ensures
            final(self).wf(),
            final(self).selection == old(self).selection,
            old(self).selection@.project is None ==> started is Err,
            old(self).selection@.project is Some && context_error(*context) is Some
                ==> started matches Ok(Launch::Reply(_)),
            old(self).selection@.project is Some && context_error(*context) is None
                ==> started matches Ok(Launch::Push(_, _)),
            match started {
                Err(e) => {
                    &&& old(self).selection@.project is None
                    &&& e@ == DispatchErrorView::PreconditionFailed(NO_PROJECT@)
                    &&& final(self).registry@ == old(self).registry@
                    &&& final(self).registry.held() == old(self).registry.held()
                },
                Ok(Launch::Reply(result)) => {
                    &&& old(self).selection@.project is Some
                    &&& context_error(*context) is Some
                    &&& result@ == ToolResultView::error(context_error(*context)->Some_0.message())
                    &&& final(self).registry@ == old(self).registry@
                    &&& final(self).registry.held() == old(self).registry.held()
                },
                Ok(Launch::Push(envelope, _)) => {
                    &&& old(self).selection@.project is Some
                    &&& context_error(*context) is None
                    &&& final(self).registry@ == old(self).registry@.register()
                    &&& final(self).registry.held().contains_key(envelope.id)
                    &&& final(self).registry.held().remove(envelope.id) == old(self).registry.held()
                    &&& envelope.id == old(self).registry@.next_id
                    &&& envelope.body@ == envelope_text(envelope.id, js@)
                    &&& envelope.timeout_secs == SCRIPT_TIMEOUT_SECS
                },
            },
    {
        match self.require_project() {
            Err(message) => Err(DispatchError::PreconditionFailed(message)),
            Ok(_) => match begin(&mut self.registry, context, js, SCRIPT_TIMEOUT_SECS) {
                Ok((envelope, receiver)) => Ok(Launch::Push(envelope, receiver)),
                Err(e) => Ok(Launch::Reply(tool_error(e.message()))),
            },
        }
    }

    /// Ends the run of a tool's script with what happened to it, and gives
    /// the tool's answer: the result text, `null` where the script had
    /// none, or a tool error with the message of the failure.
    pub fn finish_js(&mut self, envelope: &Envelope, signal: Signal) -> (result: ToolResult)
        requires
            old(self).wf(),
        ensures
            final(self).wf(),
            final(self).selection == old(self).selection,
            final(self).registry@ == settled_registry(old(self).registry@, envelope.id, signal),
            final(self).registry.held() == settled_slots(
                old(self).registry.held(),
                envelope.id,
                signal,
            ),
            result@ == script_reply(settled_outcome(envelope.timeout_secs, signal), "null"@),
    {
        reply_to_script(settle(&mut self.registry, envelope, signal), "null")
    }
}

} // verus!
