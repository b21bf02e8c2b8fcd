//! What a tool call answers: results, errors, and the enrichment of raw
//! results with selection state and a hint for the next step.

use crate::bridge::{outcome_view, ExecutionError, ExecutionErrorView};
use crate::json::{
    find_member, json_document, law_literal_reads_back, lemma_with_member, member_index,
    member_views, object_text, parse, quote, read_string_literal, render_object, set_member,
    string_literal, with_member, JsonDoc, JsonDocView, JsonKind, JsonKindView, JsonMember,
    JsonMemberView,
};
use vstd::prelude::*;

verus! {

/// The answer to a tool call: its texts, and whether it reports a failure
/// of the operation.
pub struct ToolResult {
    pub content: Vec<String>,
    pub is_error: bool,
}

/// A `ToolResult` as a mathematical value.
pub struct ToolResultView {
    pub content: Seq<Seq<char>>,
    pub is_error: bool,
}

/// The texts of `content`, each as a sequence of characters.
pub open spec fn text_views(content: Seq<String>) -> Seq<Seq<char>> {
    Seq::new(content.len(), |i: int| content[i]@)
}

impl View for ToolResult {
    type V = ToolResultView;

    open spec fn view(&self) -> ToolResultView {
        ToolResultView { content: text_views(self.content@), is_error: self.is_error }
    }
}

impl ToolResultView {
    /// A success with one text.
    pub open spec fn success(text: Seq<char>) -> ToolResultView {
        ToolResultView { content: seq![text], is_error: false }
    }

    /// A success with two texts.
    pub open spec fn success_pair(first: Seq<char>, second: Seq<char>) -> ToolResultView {
        ToolResultView { content: seq![first, second], is_error: false }
    }

    /// A failure of the operation, with its message.
    pub open spec fn error(message: Seq<char>) -> ToolResultView {
        ToolResultView { content: seq![message], is_error: true }
    }
}

impl ToolResult {
    /// A success with one text.
    pub fn success(text: String) -> (result: ToolResult)
        ensures
            result@ == ToolResultView::success(text@),
    {
        let mut content = Vec::new();
        content.push(text);
        let result = ToolResult { content, is_error: false };
        assert(result@.content =~= seq![text@]);
        result
    }

    /// A success with two texts.
    pub fn success_pair(first: String, second: String) -> (result: ToolResult)
        ensures
            result@ == ToolResultView::success_pair(first@, second@),
    {
        let mut content = Vec::new();
        content.push(first);
        content.push(second);
        let result = ToolResult { content, is_error: false };
        assert(result@.content =~= seq![first@, second@]);
        result
    }
}

/// A tool result that reports a failure of the operation with `message`.
/// It is an answer like any other, not an error of the dispatcher.
pub fn tool_error(message: String) -> (result: ToolResult)
    ensures
        result@ == ToolResultView::error(message@),
{
    let mut content = Vec::new();
    content.push(message);
    let result = ToolResult { content, is_error: true };
    assert(result@.content =~= seq![message@]);
    result
}

/// Why the dispatcher refused a call before anything was executed.
pub enum DispatchError {
    /// A required parameter is missing; the message names it.
    InvalidParams(String),
    /// The call needs something that is not there, such as an open project.
    PreconditionFailed(String),
    /// The dispatcher itself failed, after the operation ran.
    Internal(String),
}

/// A `DispatchError` as a mathematical value.
pub enum DispatchErrorView {
    InvalidParams(Seq<char>),
    PreconditionFailed(Seq<char>),
    Internal(Seq<char>),
}

impl View for DispatchError {
    type V = DispatchErrorView;

    open spec fn view(&self) -> DispatchErrorView {
        match self {
            DispatchError::InvalidParams(message) => DispatchErrorView::InvalidParams(message@),
            DispatchError::PreconditionFailed(message) => DispatchErrorView::PreconditionFailed(
                message@,
            ),
            DispatchError::Internal(message) => DispatchErrorView::Internal(message@),
        }
    }
}

impl DispatchError {
    /// The message of this error.
    pub fn message(&self) -> (text: String)
        ensures
            text@ == match self@ {
                DispatchErrorView::InvalidParams(message) => message,
                DispatchErrorView::PreconditionFailed(message) => message,
                DispatchErrorView::Internal(message) => message,
            },
    {
        match self {
            DispatchError::InvalidParams(message) => message.clone(),
            DispatchError::PreconditionFailed(message) => message.clone(),
            DispatchError::Internal(message) => message.clone(),
        }
    }
}

/// The answer to a tool whose script went through the bridge: the result
/// text, `null` where the script gave none, or a tool error with the
/// message of the failure.
pub open spec fn script_reply(
    outcome: Result<Option<Seq<char>>, ExecutionErrorView>,
    absent: Seq<char>,
) -> ToolResultView {
    match outcome {
        Ok(Some(text)) => ToolResultView::success(text),
        Ok(None) => ToolResultView::success(absent),
        Err(e) => ToolResultView::error(e.message()),
    }
}

/// Turns the outcome of an execution into the answer of the tool; `absent`
/// is the text given where the script had no result.
pub fn reply_to_script(outcome: Result<Option<String>, ExecutionError>, absent: &str) -> (result:
    ToolResult)
    ensures
        result@ == script_reply(outcome_view(outcome), absent@),
{
    match outcome {
        Ok(Some(text)) => ToolResult::success(text),
        Ok(None) => ToolResult::success(String::from_str(absent)),
        Err(e) => tool_error(e.message()),
    }
}

/// The enriching script up to the body: it takes the editor and runs what
/// follows as a function.
pub const ENRICH_RUN: &'static str = "(function(){var e=window.silex.getEditor();var __result__=(function(){ ";

/// The enriching script between the body and the hint: it parses a string
/// result, wraps a list, and attaches the selection state.
pub const ENRICH_ATTACH: &'static str =
    " })();var __sel__=window.__silexMcp.getSelectionState(e);if(typeof __result__==='string'){try{__result__=JSON.parse(__result__)}catch(ex){__result__={raw:__result__}}}if(Array.isArray(__result__)){__result__={result:__result__}}if(typeof __result__==='object'&&__result__!==null){__result__.selection=__sel__;if(!('error' in __result__)){__result__.next_steps=";

/// The end of the enriching script: it returns the result as JSON text.
pub const ENRICH_END: &'static str = "}}return JSON.stringify(__result__)})()";

/// The script that asks the editor for the current selection state.
pub const SELECTION_STATE_JS: &'static str =
    "(function(){var e=window.silex.getEditor();return window.__silexMcp.getSelectionState(e)})()";

/// The script that runs `body` inside the editor and enriches what it
/// returns: a string result is parsed as JSON, or kept under `raw` where
/// it is none; a list is put under `result`; an object gets the current
/// selection state under `selection` and, unless it carries an `error`,
/// the hint `next_steps`, which reaches the script as a JSON string
/// literal. The script returns the JSON text of the enriched result.
pub open spec fn selection_script(body: Seq<char>, next_steps: Seq<char>) -> Seq<char> {
    ENRICH_RUN@ + body + ENRICH_ATTACH@ + string_literal(next_steps) + ENRICH_END@
}

/// In the enriching script the hint is one string literal: a reader that
/// starts where it starts gets the hint back, whatever the hint holds, and
/// stops where the script goes on.
pub proof fn law_hint_is_literal(body: Seq<char>, next_steps: Seq<char>)
    ensures
        read_string_literal(
            selection_script(body, next_steps).skip(
                (ENRICH_RUN@ + body + ENRICH_ATTACH@).len() as int,
            ),
        ) == Some((next_steps, string_literal(next_steps).len() as int)),
{
    assert(selection_script(body, next_steps).skip(
        (ENRICH_RUN@ + body + ENRICH_ATTACH@).len() as int,
    ) =~= string_literal(next_steps) + ENRICH_END@);
    law_literal_reads_back(next_steps, ENRICH_END@);
}

/// Wraps the script body `js_body` so that it returns its result enriched
/// with the selection state and the hint `next_steps`.
pub fn wrap_with_selection(js_body: &str, next_steps: &str) -> (script: String)
    ensures
        script@ == selection_script(js_body@, next_steps@),
{
    let mut script = String::from_str(ENRICH_RUN);
    script.append(js_body);
    script.append(ENRICH_ATTACH);
    script.append(quote(next_steps).as_str());
    script.append(ENRICH_END);
    script
}

/// The members of the object that stands for a raw result: those of the
/// document where it is an object, the document under `result` where it
/// is a list, the raw text under `raw` where it is not JSON. A document of
/// another kind stands for itself and has no such object.
pub open spec fn result_members(raw: Seq<char>, parsed: Result<JsonDocView, Seq<char>>) -> Option<
    Seq<JsonMemberView>,
> {
    match parsed {
        Err(_) => Some(
            seq![
                JsonMemberView {
                    name: "raw"@,
                    kind: JsonKindView::Text(raw),
                    text: string_literal(raw),
                },
            ],
        ),
        Ok(doc) => match doc.kind {
            JsonKindView::Object => Some(doc.members),
            JsonKindView::Array => Some(
                seq![JsonMemberView { name: "result"@, kind: JsonKindView::Array, text: doc.text }],
            ),
            _ => None,
        },
    }
}

/// `members` with the selection state, where there is one, under
/// `selection`, and with the hint under `next_steps` unless a member
/// `error` marks a failure.
pub open spec fn enriched_members(
    members: Seq<JsonMemberView>,
    selection: Option<JsonDocView>,
    next_steps: Seq<char>,
) -> Seq<JsonMemberView> {
    let selected = match selection {
        Some(doc) => with_member(
            members,
            JsonMemberView { name: "selection"@, kind: doc.kind, text: doc.text },
        ),
        None => members,
    };
    if member_index(selected, "error"@) is Some {
        selected
    } else {
        with_member(
            selected,
            JsonMemberView {
                name: "next_steps"@,
                kind: JsonKindView::Text(next_steps),
                text: string_literal(next_steps),
            },
        )
    }
}

/// The member of `members` named `name`, if there is one.
pub open spec fn member_named(members: Seq<JsonMemberView>, name: Seq<char>) -> Option<
    JsonMemberView,
> {
    match member_index(members, name) {
        Some(i) => Some(members[i]),
        None => None,
    }
}

/// What enrichment does to the members of a result: a selection state
/// that is given stands under `selection`; a result without an `error`
/// gets the hint under `next_steps`, and one with an `error` keeps what it
/// had there; the `error` itself, and every member of another name, stay
/// as they were.
pub proof fn law_enrichment(
    members: Seq<JsonMemberView>,
    selection: Option<JsonDocView>,
    next_steps: Seq<char>,
    other: Seq<char>,
)
    ensures
        selection is Some ==> member_named(
            enriched_members(members, selection, next_steps),
            "selection"@,
        ) == Some(
            JsonMemberView {
                name: "selection"@,
                kind: selection->Some_0.kind,
                text: selection->Some_0.text,
            },
        ),
        member_index(members, "error"@) is None ==> member_named(
            enriched_members(members, selection, next_steps),
            "next_steps"@,
        ) == Some(
            JsonMemberView {
                name: "next_steps"@,
                kind: JsonKindView::Text(next_steps),
                text: string_literal(next_steps),
            },
        ),
        member_index(members, "error"@) is Some ==> member_named(
            enriched_members(members, selection, next_steps),
            "next_steps"@,
        ) == member_named(members, "next_steps"@),
        member_named(enriched_members(members, selection, next_steps), "error"@) == member_named(
            members,
            "error"@,
        ),
        other != "selection"@ && other != "next_steps"@ ==> member_named(
            enriched_members(members, selection, next_steps),
            other,
        ) == member_named(members, other),
{
    reveal_strlit("selection");
    reveal_strlit("next_steps");
    reveal_strlit("error");
    assert("selection"@ != "next_steps"@) by {
        assert("selection"@[0] != "next_steps"@[0]);
    }
    assert("selection"@ != "error"@) by {
        assert("selection"@[0] != "error"@[0]);
    }
    assert("next_steps"@ != "error"@) by {
        assert("next_steps"@[0] != "error"@[0]);
    }
    let chosen = JsonMemberView {
        name: "selection"@,
        kind: selection->Some_0.kind,
        text: selection->Some_0.text,
    };
    let hint = JsonMemberView {
        name: "next_steps"@,
        kind: JsonKindView::Text(next_steps),
        text: string_literal(next_steps),
    };
    let selected = match selection {
        Some(doc) => with_member(members, chosen),
        None => members,
    };
    if selection is Some {
        lemma_with_member(members, chosen, "error"@);
        lemma_with_member(members, chosen, "next_steps"@);
        lemma_with_member(members, chosen, other);
    }
    if member_index(selected, "error"@) is None {
        lemma_with_member(selected, hint, "error"@);
        lemma_with_member(selected, hint, "selection"@);
        lemma_with_member(selected, hint, other);
    }
}

/// The enriched form of a raw result, given what parsing it gave.
pub open spec fn enriched(
    raw: Option<Seq<char>>,
    parsed: Result<JsonDocView, Seq<char>>,
    selection: Option<JsonDocView>,
    next_steps: Seq<char>,
) -> Seq<char> {
    match raw {
        None => "null"@,
        Some(text) => match result_members(text, parsed) {
            Some(members) => object_text(enriched_members(members, selection, next_steps)),
            None => parsed->Ok_0.text,
        },
    }
}

/// Attaches the selection state and the hint to the members of a result.
pub fn enrich_members(
    members: &mut Vec<JsonMember>,
    selection: Option<&JsonDoc>,
    next_steps: &str,
)
    ensures
        member_views(final(members)@) == enriched_members(
            member_views(old(members)@),
            match selection {
                Some(doc) => Some(doc@),
                None => None,
            },
            next_steps@,
        ),
{
    match selection {
        Some(doc) => set_member(members, JsonMember::document("selection", doc)),
        None => {},
    }
    if find_member(members, "error").is_none() {
        set_member(members, JsonMember::string("next_steps", next_steps));
    }
}

/// Enriches a raw result that was already parsed: `parsed` is what parsing
/// `raw` gave.
pub fn enrich_parsed(
    raw: &str,
    parsed: Result<JsonDoc, String>,
    selection: Option<&JsonDoc>,
    next_steps: &str,
) -> (text: String)
    ensures
        text@ == enriched(
            Some(raw@),
            match parsed {
                Ok(doc) => Ok(doc@),
                Err(message) => Err(message@),
            },
            match selection {
                Some(doc) => Some(doc@),
                None => None,
            },
            next_steps@,
        ),
{
    let mut members = match parsed {
        Err(_) => {
            let mut members = Vec::new();
            members.push(JsonMember::string("raw", raw));
            assert(member_views(members@) =~= seq![
                JsonMemberView {
                    name: "raw"@,
                    kind: JsonKindView::Text(raw@),
                    text: string_literal(raw@),
                },
            ]);
            members
        },
        Ok(doc) => match doc.kind {
            JsonKind::Object => doc.members,
            JsonKind::Array => {
                let mut members = Vec::new();
                members.push(
                    JsonMember {
                        name: String::from_str("result"),
                        kind: JsonKind::Array,
                        text: doc.text,
                    },
                );
                assert(member_views(members@) =~= seq![
                    JsonMemberView {
                        name: "result"@,
                        kind: JsonKindView::Array,
                        text: doc.text@,
                    },
                ]);
                members
            },
            _ => {
                return doc.text;
            },
        },
    };
    enrich_members(&mut members, selection, next_steps);
    render_object(&members)
}

/// Enriches a raw result: `None` stays `null`; a result that parses as
/// JSON is used as such, any other is kept under `raw`; a list is put
/// under `result`; an object gets `selection` and, unless it carries an
/// `error`, `next_steps`.
pub fn enrich(raw: Option<&str>, selection: Option<&JsonDoc>, next_steps: &str) -> (text: String)
    ensures
        text@ == enriched(
            match raw {
                Some(r) => Some(r@),
                None => None,
            },
            match raw {
                Some(r) => json_document(r@),
                None => Err(Seq::empty()),
            },
            match selection {
                Some(doc) => Some(doc@),
                None => None,
            },
            next_steps@,
        ),
{
    match raw {
        None => String::from_str("null"),
        Some(text) => enrich_parsed(text, parse(text), selection, next_steps),
    }
}

} // verus!
