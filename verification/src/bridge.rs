//! The execution bridge: wraps a script so that its outcome is posted
//! back, registers the request, and decodes what comes back.

use crate::json::{
    find_member, json_document, law_literal_reads_back, member_index, member_views, parse, quote,
    read_string_literal, string_literal, JsonDoc, JsonDocView, JsonKind, JsonKindView, JsonMember,
    JsonMemberView,
};
use crate::registry::Registry;
use crate::text::{decimal, decimal_string, same_text};
use tokio::sync::oneshot::{Receiver, Sender};
use vstd::prelude::*;

verus! {

/// What the caller is told where the window shows the landing view.
pub const NOT_READY: &'static str =
    "eval_js is only available in the editor, not on the dashboard. Open or create a project first.";

/// Why an execution gave no result.
pub enum ExecutionError {
    /// There is no execution context to run the script in.
    ContextUnavailable,
    /// The execution context shows the landing view, where no script runs.
    ContextNotReady,
    /// The script could not be handed to the execution context.
    PushFailed(String),
    /// No result arrived within this many seconds.
    Timeout(u64),
    /// The slot was dropped before a result arrived.
    SlotClosed,
    /// The script ran and reported this failure.
    Remote(String),
    /// The posted result was malformed.
    ProtocolError(String),
}

/// An `ExecutionError` as a mathematical value.
pub enum ExecutionErrorView {
    ContextUnavailable,
    ContextNotReady,
    PushFailed(Seq<char>),
    Timeout(u64),
    SlotClosed,
    Remote(Seq<char>),
    ProtocolError(Seq<char>),
}

impl View for ExecutionError {
    type V = ExecutionErrorView;

    open spec fn view(&self) -> ExecutionErrorView {
        match self {
            ExecutionError::ContextUnavailable => ExecutionErrorView::ContextUnavailable,
            ExecutionError::ContextNotReady => ExecutionErrorView::ContextNotReady,
            ExecutionError::PushFailed(reason) => ExecutionErrorView::PushFailed(reason@),
            ExecutionError::Timeout(secs) => ExecutionErrorView::Timeout(*secs),
            ExecutionError::SlotClosed => ExecutionErrorView::SlotClosed,
            ExecutionError::Remote(message) => ExecutionErrorView::Remote(message@),
            ExecutionError::ProtocolError(detail) => ExecutionErrorView::ProtocolError(detail@),
        }
    }
}

impl ExecutionErrorView {
    /// The text that a caller is shown for this error.
    pub open spec fn message(self) -> Seq<char> {
        match self {
            ExecutionErrorView::ContextUnavailable => "No main window"@,
            ExecutionErrorView::ContextNotReady => NOT_READY@,
            ExecutionErrorView::PushFailed(reason) => "Failed to inject JS: "@ + reason,
            ExecutionErrorView::Timeout(secs) => "Timeout waiting for JS result ("@ + decimal(
                secs as nat,
            ) + "s)"@,
            ExecutionErrorView::SlotClosed => "Callback channel closed"@,
            ExecutionErrorView::Remote(message) => message,
            ExecutionErrorView::ProtocolError(detail) => "Failed to parse JS result: "@ + detail,
        }
    }
}

impl ExecutionError {
    /// The text that a caller is shown for this error.
    pub fn message(&self) -> (text: String)
        ensures
            text@ == self@.message(),
    {
        match self {
            ExecutionError::ContextUnavailable => String::from_str("No main window"),
            ExecutionError::ContextNotReady => String::from_str(NOT_READY),
            ExecutionError::PushFailed(reason) => {
                let mut text = String::from_str("Failed to inject JS: ");
                text.append(reason.as_str());
                text
            },
            ExecutionError::Timeout(secs) => {
                let mut text = String::from_str("Timeout waiting for JS result (");
                text.append(decimal_string(*secs).as_str());
                text.append("s)");
                text
            },
            ExecutionError::SlotClosed => String::from_str("Callback channel closed"),
            ExecutionError::Remote(message) => message.clone(),
            ExecutionError::ProtocolError(detail) => {
                let mut text = String::from_str("Failed to parse JS result: ");
                text.append(detail.as_str());
                text
            },
        }
    }
}

/// What is known of the execution context before a script is sent.
pub enum Context {
    /// There is no window to run scripts in.
    Unavailable,
    /// There is a window, and its location cannot be read.
    Unlocated,
    /// The window shows the page at `path`, with or without a query.
    At { path: String, has_query: bool },
}

/// The error, if any, that stops an execution before anything is
/// registered: no window, or a window that shows the landing view (the
/// root path without a query).
pub open spec fn context_error(context: Context) -> Option<ExecutionErrorView> {
    match context {
        Context::Unavailable => Some(ExecutionErrorView::ContextUnavailable),
        Context::Unlocated => None,
        Context::At { path, has_query } => if path@ == "/"@ && !has_query {
            Some(ExecutionErrorView::ContextNotReady)
        } else {
            None
        },
    }
}

/// Checks that the execution context can run a script.
pub fn check_context(context: &Context) -> (checked: Result<(), ExecutionError>)
    ensures
        match checked {
            Ok(_) => context_error(*context) is None,
            Err(e) => context_error(*context) == Some(e@),
        },
{
    match context {
        Context::Unavailable => Err(ExecutionError::ContextUnavailable),
        Context::Unlocated => Ok(()),
        Context::At { path, has_query } => {
            if same_text(path.as_str(), "/") && !*has_query {
                Err(ExecutionError::ContextNotReady)
            } else {
                Ok(())
            }
        },
    }
}

/// The envelope up to the script: it evaluates what follows.
pub const ENVELOPE_EVAL: &'static str = "(async()=>{try{let __r=eval(";

/// The envelope between the script and the first identifier: it awaits a
/// promise, turns the value into a string or null, and posts a success to
/// the callback path.
pub const ENVELOPE_POST_RESULT: &'static str =
    ");if(__r instanceof Promise)__r=await __r;const __s=(typeof __r==='undefined')?null:(typeof __r==='string')?__r:JSON.stringify(__r);await fetch(window.location.origin+'/eval-callback/";

/// The envelope between the two identifiers: the body of the success, and
/// the post of a failure to the callback path.
pub const ENVELOPE_POST_ERROR: &'static str =
    "',{method:'POST',headers:{'Content-Type':'application/json'},body:JSON.stringify({success:true,result:__s})})}catch(__e){await fetch(window.location.origin+'/eval-callback/";

/// The end of the envelope: the body of the failure.
pub const ENVELOPE_END: &'static str =
    "',{method:'POST',headers:{'Content-Type':'application/json'},body:JSON.stringify({success:false,error:__e.message||String(__e)})})}})()";

/// The script that the execution context is given for request `id`: it
/// evaluates `script`, awaits the value where that is a promise, and posts
/// `{success:true,result:..}` or `{success:false,error:..}` to the callback
/// path of `id`. The script reaches it as a JSON string literal.
pub open spec fn envelope_text(id: u64, script: Seq<char>) -> Seq<char> {
    ENVELOPE_EVAL@ + string_literal(script) + ENVELOPE_POST_RESULT@ + decimal(id as nat)
        + ENVELOPE_POST_ERROR@ + decimal(id as nat) + ENVELOPE_END@
}

/// Builds the text of the envelope for request `id` around `script`.
pub fn wrap_script(id: u64, script: &str) -> (body: String)
    ensures
        body@ == envelope_text(id, script@),
{
    let digits = decimal_string(id);
    let mut body = String::from_str(ENVELOPE_EVAL);
    body.append(quote(script).as_str());
    body.append(ENVELOPE_POST_RESULT);
    body.append(digits.as_str());
    body.append(ENVELOPE_POST_ERROR);
    body.append(digits.as_str());
    body.append(ENVELOPE_END);
    body
}

/// Inside the envelope the script is one string literal: a reader that
/// starts where the literal starts gets the script back, whatever the
/// script holds, and stops where the envelope goes on.
pub proof fn law_envelope_holds_script(id: u64, script: Seq<char>)
    ensures
        read_string_literal(envelope_text(id, script).skip(ENVELOPE_EVAL@.len() as int)) == Some(
            (script, string_literal(script).len() as int),
        ),
{
    let after = ENVELOPE_POST_RESULT@ + decimal(id as nat) + ENVELOPE_POST_ERROR@ + decimal(
        id as nat,
    ) + ENVELOPE_END@;
    assert(envelope_text(id, script).skip(ENVELOPE_EVAL@.len() as int) =~= string_literal(script)
        + after);
    law_literal_reads_back(script, after);
}

/// One request on its way: its identifier, the instrumented script, and
/// how long to wait for the result.
pub struct Envelope {
    pub id: u64,
    pub body: String,
    pub timeout_secs: u64,
}

/// What happened to a request after its envelope was made.
pub enum Signal {
    /// The execution context refused the script, for this reason.
    PushFailed(String),
    /// The time to wait ran out.
    Elapsed,
    /// The slot was dropped before a result arrived.
    Closed,
    /// This body was posted for the request.
    Payload(String),
}

/// The outcome of an execution as a mathematical value.
pub open spec fn outcome_view(outcome: Result<Option<String>, ExecutionError>) -> Result<
    Option<Seq<char>>,
    ExecutionErrorView,
> {
    match outcome {
        Ok(Some(text)) => Ok(Some(text@)),
        Ok(None) => Ok(None),
        Err(e) => Err(e@),
    }
}

/// What an optional text member of a posted result holds: `Ok(None)` where
/// the member is absent or null, `Ok(Some(..))` where it is a string, and
/// `Err` where it is anything else.
pub open spec fn optional_text(members: Seq<JsonMemberView>, name: Seq<char>) -> Result<
    Option<Seq<char>>,
    (),
> {
    match member_index(members, name) {
        None => Ok(None),
        Some(i) => match members[i].kind {
            JsonKindView::Null => Ok(None),
            JsonKindView::Text(s) => Ok(Some(s)),
            _ => Err(()),
        },
    }
}

/// What a posted document means. It must be an object whose `success` is a
/// truth value and whose `result` and `error`, where present, are strings
/// or null. With `success` true the outcome is the `result`; with `success`
/// false it is the remote failure that `error` describes.
pub open spec fn decoded_document(doc: JsonDocView) -> Result<
    Option<Seq<char>>,
    ExecutionErrorView,
> {
    if doc.kind != JsonKindView::Object {
        Err(ExecutionErrorView::ProtocolError("expected an object"@))
    } else {
        match member_index(doc.members, "success"@) {
            None => Err(ExecutionErrorView::ProtocolError("missing field `success`"@)),
            Some(i) => match doc.members[i].kind {
                JsonKindView::Bool(success) => match (
                    optional_text(doc.members, "result"@),
                    optional_text(doc.members, "error"@),
                ) {
                    (Ok(result), Ok(error)) => if success {
                        Ok(result)
                    } else {
                        Err(
                            ExecutionErrorView::Remote(
                                match error {
                                    Some(message) => message,
                                    None => "Unknown JS error"@,
                                },
                            ),
                        )
                    },
                    (Err(_), _) => Err(
                        ExecutionErrorView::ProtocolError("`result` is not a string"@),
                    ),
                    (_, Err(_)) => Err(
                        ExecutionErrorView::ProtocolError("`error` is not a string"@),
                    ),
                },
                _ => Err(ExecutionErrorView::ProtocolError("`success` is not a boolean"@)),
            },
        }
    }
}

/// What a posted body means, given what parsing it gave.
pub open spec fn decoded(parsed: Result<JsonDocView, Seq<char>>) -> Result<
    Option<Seq<char>>,
    ExecutionErrorView,
> {
    match parsed {
        Ok(doc) => decoded_document(doc),
        Err(message) => Err(ExecutionErrorView::ProtocolError(message)),
    }
}

/// Reads an optional text member.
fn read_optional_text(members: &Vec<JsonMember>, name: &str) -> (read: Result<Option<String>, ()>)
    ensures
        match read {
            Ok(Some(s)) => optional_text(member_views(members@), name@) == Ok::<
                Option<Seq<char>>,
                (),
            >(Some(s@)),
            Ok(None) => optional_text(member_views(members@), name@) == Ok::<
                Option<Seq<char>>,
                (),
            >(None),
            Err(_) => optional_text(member_views(members@), name@) is Err,
        },
{
    match find_member(members, name) {
        None => Ok(None),
        Some(i) => {
            assert(member_views(members@)[i as int] == members@[i as int]@);
            match &members[i].kind {
                JsonKind::Null => Ok(None),
                JsonKind::Text(s) => Ok(Some(s.clone())),
                _ => Err(()),
            }
        },
    }
}

/// Decodes a posted document.
pub fn decode_document(doc: &JsonDoc) -> (outcome: Result<Option<String>, ExecutionError>)
    ensures
        outcome_view(outcome) == decoded_document(doc@),
{
    match &doc.kind {
        JsonKind::Object => {},
        _ => {
            return Err(ExecutionError::ProtocolError(String::from_str("expected an object")));
        },
    }
    let success = match find_member(&doc.members, "success") {
        None => {
            return Err(
                ExecutionError::ProtocolError(String::from_str("missing field `success`")),
            );
        },
        Some(i) => {
            assert(member_views(doc.members@)[i as int] == doc.members@[i as int]@);
            match &doc.members[i].kind {
                JsonKind::Bool(success) => *success,
                _ => {
                    return Err(
                        ExecutionError::ProtocolError(
                            String::from_str("`success` is not a boolean"),
                        ),
                    );
                },
            }
        },
    };
    let result = match read_optional_text(&doc.members, "result") {
        Ok(result) => result,
        Err(_) => {
            return Err(
                ExecutionError::ProtocolError(String::from_str("`result` is not a string")),
            );
        },
    };
    let error = match read_optional_text(&doc.members, "error") {
        Ok(error) => error,
        Err(_) => {
            return Err(
                ExecutionError::ProtocolError(String::from_str("`error` is not a string")),
            );
        },
    };
    if success {
        Ok(result)
    } else {
        match error {
            Some(message) => Err(ExecutionError::Remote(message)),
            None => Err(ExecutionError::Remote(String::from_str("Unknown JS error"))),
        }
    }
}

/// Decodes a posted body: parses it as JSON and reads the document.
pub fn decode(raw: &str) -> (outcome: Result<Option<String>, ExecutionError>)
    ensures
        outcome_view(outcome) == decoded(json_document(raw@)),
{
    match parse(raw) {
        Ok(doc) => decode_document(&doc),
        Err(message) => Err(ExecutionError::ProtocolError(message)),
    }
}

/// Starts an execution. Where the context cannot run scripts this fails at
/// once and registers nothing. Otherwise it issues the next identifier and
/// returns the envelope to push, with the half on which the result will
/// arrive. The slots of other requests stay as they are.
pub fn begin(registry: &mut Registry, context: &Context, script: &str, timeout_secs: u64) -> (started:
    Result<(Envelope, Receiver<String>), ExecutionError>)
    requires
        old(registry).wf(),
        context_error(*context) is None ==> old(registry)@.has_room(),
    ensures
        final(registry).wf(),
        context_error(*context) is None <==> started is Ok,
        match started {
            Ok((envelope, _)) => {
                &&& context_error(*context) is None
                &&& final(registry)@ == old(registry)@.register()
                &&& final(registry).held().contains_key(envelope.id)
                &&& final(registry).held().remove(envelope.id) == old(registry).held()
                &&& envelope.id == old(registry)@.next_id
                &&& envelope.body@ == envelope_text(envelope.id, script@)
                &&& envelope.timeout_secs == timeout_secs
            },
            Err(e) => {
                &&& context_error(*context) == Some(e@)
                &&& final(registry)@ == old(registry)@
                &&& final(registry).held() == old(registry).held()
            },
        },
{
    match check_context(context) {
        Err(e) => Err(e),
        Ok(_) => {
            let (id, receiver) = registry.register();
            let body = wrap_script(id, script);
            Ok((Envelope { id, body, timeout_secs }, receiver))
        },
    }
}

/// The registry after `signal` arrived for request `id`: a failed push and
/// a timeout remove the entry, the other two leave the registry alone.
pub open spec fn settled_registry(
    before: crate::registry::RegistryView,
    id: u64,
    signal: Signal,
) -> crate::registry::RegistryView {
    match signal {
        Signal::PushFailed(_) => before.expire(id),
        Signal::Elapsed => before.expire(id),
        Signal::Closed => before,
        Signal::Payload(_) => before,
    }
}

/// The slots that wait after `signal` arrived for request `id`: a failed
/// push and a timeout take the slot of `id` away, and no signal touches
/// the slot of another request.
pub open spec fn settled_slots(
    before: Map<u64, Sender<String>>,
    id: u64,
    signal: Signal,
) -> Map<u64, Sender<String>> {
    match signal {
        Signal::PushFailed(_) => before.remove(id),
        Signal::Elapsed => before.remove(id),
        Signal::Closed => before,
        Signal::Payload(_) => before,
    }
}

/// What the caller of an execution gets once `signal` arrived.
pub open spec fn settled_outcome(timeout_secs: u64, signal: Signal) -> Result<
    Option<Seq<char>>,
    ExecutionErrorView,
> {
    match signal {
        Signal::PushFailed(reason) => Err(ExecutionErrorView::PushFailed(reason@)),
        Signal::Elapsed => Err(ExecutionErrorView::Timeout(timeout_secs)),
        Signal::Closed => Err(ExecutionErrorView::SlotClosed),
        Signal::Payload(raw) => decoded(json_document(raw@)),
    }
}

/// Ends an execution with what happened to it.
pub fn settle(registry: &mut Registry, envelope: &Envelope, signal: Signal) -> (outcome: Result<
    Option<String>,
    ExecutionError,
>)
    requires
        old(registry).wf(),
    ensures
        final(registry).wf(),
        final(registry)@ == settled_registry(old(registry)@, envelope.id, signal),
        final(registry).held() == settled_slots(old(registry).held(), envelope.id, signal),
        outcome_view(outcome) == settled_outcome(envelope.timeout_secs, signal),
{
    match signal {
        Signal::PushFailed(reason) => {
            registry.expire(envelope.id);
            Err(ExecutionError::PushFailed(reason))
        },
        Signal::Elapsed => {
            registry.expire(envelope.id);
            Err(ExecutionError::Timeout(envelope.timeout_secs))
        },
        Signal::Closed => Err(ExecutionError::SlotClosed),
        Signal::Payload(raw) => decode(raw.as_str()),
    }
}

/// The answer of the callback endpoint, whatever was posted.
pub const ACKNOWLEDGED: &'static str = "ok";

/// The result callback endpoint: hands the posted `body` to the slot of
/// `id`, if that slot still waits, and acknowledges in any case. The slot
/// of every other request stays as it is.
pub fn eval_callback(registry: &mut Registry, id: u64, body: String) -> (answer: &'static str)
    requires
        old(registry).wf(),
    ensures
        final(registry).wf(),
        final(registry)@ == old(registry)@.resolve(id, body@),
        final(registry).held() == old(registry).held().remove(id),
        answer@ == ACKNOWLEDGED@,
{
    let _ = registry.resolve(id, body);
    ACKNOWLEDGED
}

/// The document that the envelope posts for a script that returned
/// `result`: an object whose `success` is true and whose `result` is the
/// string, or null where the script returned nothing.
pub open spec fn posted_success(result: Option<Seq<char>>, text: Seq<char>) -> JsonDocView {
    JsonDocView {
        kind: JsonKindView::Object,
        text,
        members: seq![
            JsonMemberView { name: "success"@, kind: JsonKindView::Bool(true), text: "true"@ },
            match result {
                Some(value) => JsonMemberView {
                    name: "result"@,
                    kind: JsonKindView::Text(value),
                    text: string_literal(value),
                },
                None => JsonMemberView { name: "result"@, kind: JsonKindView::Null, text: "null"@ },
            },
        ],
    }
}

/// The document that the envelope posts for a script that failed with
/// `message`: an object whose `success` is false and whose `error` is the
/// message.
pub open spec fn posted_failure(message: Seq<char>, text: Seq<char>) -> JsonDocView {
    JsonDocView {
        kind: JsonKindView::Object,
        text,
        members: seq![
            JsonMemberView { name: "success"@, kind: JsonKindView::Bool(false), text: "false"@ },
            JsonMemberView {
                name: "error"@,
                kind: JsonKindView::Text(message),
                text: string_literal(message),
            },
        ],
    }
}

/// What the envelope posts is decoded into the value that the script gave:
/// a string result into that string, no result into none, and a failure
/// into the remote error with its message.
pub proof fn law_round_trip(result: Option<Seq<char>>, message: Seq<char>, text: Seq<char>)
    ensures
        decoded_document(posted_success(result, text)) == Ok::<
            Option<Seq<char>>,
            ExecutionErrorView,
        >(result),
        decoded_document(posted_failure(message, text)) == Err::<
            Option<Seq<char>>,
            ExecutionErrorView,
        >(ExecutionErrorView::Remote(message)),
{
    reveal_strlit("success");
    reveal_strlit("result");
    reveal_strlit("error");
    let won = posted_success(result, text).members;
    let lost = posted_failure(message, text).members;
    assert("success"@ != "result"@) by {
        assert("success"@[0] != "result"@[0]);
    }
    assert("success"@ != "error"@) by {
        assert("success"@[0] != "error"@[0]);
    }
    assert("result"@ != "error"@) by {
        assert("result"@[0] != "error"@[0]);
    }
    assert(member_index(won, "success"@) == Some(0int));
    assert(won.drop_first()[0] == won[1]);
    assert(member_index(won.drop_first(), "result"@) == Some(0int));
    assert(member_index(won, "result"@) == Some(1int));
    assert(won.drop_first().drop_first().len() == 0);
    assert(member_index(won.drop_first().drop_first(), "error"@) is None);
    assert(member_index(won.drop_first(), "error"@) is None);
    assert(member_index(won, "error"@) is None);
    assert(member_index(lost, "success"@) == Some(0int));
    assert(lost.drop_first()[0] == lost[1]);
    assert(lost.drop_first().drop_first().len() == 0);
    assert(member_index(lost.drop_first().drop_first(), "result"@) is None);
    assert(member_index(lost.drop_first(), "result"@) is None);
    assert(member_index(lost, "result"@) is None);
    assert(member_index(lost.drop_first(), "error"@) == Some(0int));
    assert(member_index(lost, "error"@) == Some(1int));
}

/// A result that arrives in time is what the caller gets, and the timeout
/// that would have followed takes nothing back. A result that arrives
/// after the timeout finds no slot: the caller got the timeout, and the
/// late `resolve` changes nothing.
pub proof fn law_result_or_timeout(
    registry: crate::registry::RegistryView,
    id: u64,
    timeout_secs: u64,
    raw: String,
)
    requires
        registry.wf(),
    ensures
        settled_outcome(timeout_secs, Signal::Payload(raw)) == decoded(json_document(raw@)),
        registry.pending.contains(id) ==> registry.resolve(id, raw@).delivered
            == registry.delivered.push((id, raw@)),
        settled_registry(registry.resolve(id, raw@), id, Signal::Elapsed) == registry.resolve(
            id,
            raw@,
        ),
        settled_outcome(timeout_secs, Signal::Elapsed) == Err::<
            Option<Seq<char>>,
            ExecutionErrorView,
        >(ExecutionErrorView::Timeout(timeout_secs)),
        settled_registry(registry, id, Signal::Elapsed).resolve(id, raw@) == settled_registry(
            registry,
            id,
            Signal::Elapsed,
        ),
        !settled_registry(registry, id, Signal::Elapsed).pending.contains(id),
{
    crate::registry::law_settled_once(registry, id, raw@, raw@);
}

} // verus!
