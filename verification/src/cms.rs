//! The CMS tool: binds components to data by scripts that resolve a
//! data path and set a state on the component.

use crate::dispatch::{
    json_or, missing, or_json, or_text, plain, plan_view, refuse_missing, text_or, SilexMcp,
    ToolPlan, ToolPlanView,
};
use crate::json::{quote, string_literal};
use crate::params::{CmsAction, CmsParams};
use crate::response::{DispatchError, DispatchErrorView};
use vstd::prelude::*;

verus! {

/// The script that lists the data sources with their types and queryables.
pub const LIST_SOURCES_SCRIPT: &'static str =
    "(function(){var dsApi=window.__silexMcp.getDataSourceApi();if(!dsApi||!dsApi.getAllDataSources)return JSON.stringify({error:'Data source plugin not available. No CMS configured.'});var allDs=dsApi.getAllDataSources();var sources=[];allDs.forEach(function(ds){var types=[];try{(ds.getTypes()||[]).forEach(function(t){types.push({id:t.id,label:t.label,fields:(t.fields||[]).map(function(f){return{id:f.id,label:f.label,kind:f.kind,typeIds:f.typeIds}})})})}catch(ex){}var queryables=[];try{(ds.getQueryables()||[]).forEach(function(f){queryables.push({id:f.id,label:f.label,kind:f.kind,typeIds:f.typeIds})})}catch(ex){}sources.push({id:ds.id,label:ds.label,connected:ds.isConnected?ds.isConnected():true,types:types,queryables:queryables})});return JSON.stringify(sources)})()";

/// The script that refreshes the data preview.
pub const REFRESH_PREVIEW_SCRIPT: &'static str =
    "(function(){var e=window.silex.getEditor();e.runCommand('data-source:preview:refresh');return JSON.stringify({success:true})})()";

/// The first piece of the statement that sets the condition operator; its arguments stand between the pieces.
pub const OPERATOR_0: &'static str =
    "c.set('conditionOperator',";

/// The second piece of the statement that sets the condition operator; its arguments stand between the pieces.
pub const OPERATOR_1: &'static str =
    ");";

/// The statement that sets the condition operator of the component; `op` is
/// script text.
pub open spec fn operator_statement_text(op: Seq<char>) -> Seq<char> {
    OPERATOR_0@ + op + OPERATOR_1@
}

/// Writes the statement that sets the condition operator of the component.
pub fn operator_statement(op: &str) -> (statement: String)
    ensures
        statement@ == operator_statement_text(op@),
{
    let mut statement = String::from_str(OPERATOR_0);
    statement.append(op);
    statement.append(OPERATOR_1);
    statement
}

/// The first piece of the binding script; its arguments stand between the pieces.
pub const BINDING_0: &'static str =
    "(function(){var e=window.silex.getEditor();var c=window.__silexMcp.findComponent(e,";

/// The second piece of the binding script; its arguments stand between the pieces.
pub const BINDING_1: &'static str =
    ");if(!c)return JSON.stringify({error:'Component not found'});var tokens=window.__silexMcp.resolveExpression(e,";

/// The third piece of the binding script; its arguments stand between the pieces.
pub const BINDING_2: &'static str =
    ");if(tokens.error)return JSON.stringify(tokens);window.__silexMcp.setState(c,";

/// The fourth piece of the binding script; its arguments stand between the pieces.
pub const BINDING_3: &'static str =
    ",{expression:tokens},false);";

/// The fifth piece of the binding script; its arguments stand between the pieces.
pub const BINDING_4: &'static str =
    "return JSON.stringify({success:true,state_id:";

/// The sixth piece of the binding script; its arguments stand between the pieces.
pub const BINDING_5: &'static str =
    ",tokens_count:tokens.length})})()";

/// The script that finds the component `cid`, resolves the data path `expr`
/// to tokens and sets them as the private state `sid`; `op` is a statement
/// that runs after that, or nothing. All four are script text.
pub open spec fn binding_script_text(cid: Seq<char>, expr: Seq<char>, sid: Seq<char>, op: Seq<char>) -> Seq<char> {
    BINDING_0@ + cid + BINDING_1@ + expr + BINDING_2@ + sid + BINDING_3@ + op + BINDING_4@ + sid + BINDING_5@
}

/// Writes the script that binds a component to a data path.
pub fn binding_script(cid: &str, expr: &str, sid: &str, op: &str) -> (script: String)
    ensures
        script@ == binding_script_text(cid@, expr@, sid@, op@),
{
    let mut script = String::from_str(BINDING_0);
    script.append(cid);
    script.append(BINDING_1);
    script.append(expr);
    script.append(BINDING_2);
    script.append(sid);
    script.append(BINDING_3);
    script.append(op);
    script.append(BINDING_4);
    script.append(sid);
    script.append(BINDING_5);
    script
}

/// The first piece of the script that exposes a state; its arguments stand between the pieces.
pub const EXPOSE_0: &'static str =
    "(function(){var e=window.silex.getEditor();var c=window.__silexMcp.findComponent(e,";

/// The second piece of the script that exposes a state; its arguments stand between the pieces.
pub const EXPOSE_1: &'static str =
    ");if(!c)return JSON.stringify({error:'Component not found'});var tokens=window.__silexMcp.resolveExpression(e,";

/// The third piece of the script that exposes a state; its arguments stand between the pieces.
pub const EXPOSE_2: &'static str =
    ");if(tokens.error)return JSON.stringify(tokens);window.__silexMcp.setState(c,";

/// The fourth piece of the script that exposes a state; its arguments stand between the pieces.
pub const EXPOSE_3: &'static str =
    ",{label:";

/// The fifth piece of the script that exposes a state; its arguments stand between the pieces.
pub const EXPOSE_4: &'static str =
    ",hidden:false,expression:tokens},true);return JSON.stringify({success:true,state_id:";

/// The sixth piece of the script that exposes a state; its arguments stand between the pieces.
pub const EXPOSE_5: &'static str =
    "})})()";

/// The script that finds the component `cid`, resolves the data path `expr`
/// and sets it as the public state `sid` labelled `label`. All four are
/// script text.
pub open spec fn expose_script_text(cid: Seq<char>, expr: Seq<char>, sid: Seq<char>, label: Seq<char>) -> Seq<char> {
    EXPOSE_0@ + cid + EXPOSE_1@ + expr + EXPOSE_2@ + sid + EXPOSE_3@ + label + EXPOSE_4@ + sid + EXPOSE_5@
}

/// Writes the script that exposes a data path as a public state.
pub fn expose_script(cid: &str, expr: &str, sid: &str, label: &str) -> (script: String)
    ensures
        script@ == expose_script_text(cid@, expr@, sid@, label@),
{
    let mut script = String::from_str(EXPOSE_0);
    script.append(cid);
    script.append(EXPOSE_1);
    script.append(expr);
    script.append(EXPOSE_2);
    script.append(sid);
    script.append(EXPOSE_3);
    script.append(label);
    script.append(EXPOSE_4);
    script.append(sid);
    script.append(EXPOSE_5);
    script
}

/// The first piece of the script that sets an attribute; its arguments stand between the pieces.
pub const ATTRIBUTE_0: &'static str =
    "(function(){var e=window.silex.getEditor();var c=window.__silexMcp.findComponent(e,";

/// The second piece of the script that sets an attribute; its arguments stand between the pieces.
pub const ATTRIBUTE_1: &'static str =
    ");if(!c)return JSON.stringify({error:'Component not found'});var stateId=window.__silexMcp.getOrCreatePersistantId(c)+'-attr-'+";

/// The third piece of the script that sets an attribute; its arguments stand between the pieces.
pub const ATTRIBUTE_2: &'static str =
    ".replace(/[^a-zA-Z0-9]/g,'_');window.__silexMcp.setState(c,stateId,{label:";

/// The fourth piece of the script that sets an attribute; its arguments stand between the pieces.
pub const ATTRIBUTE_3: &'static str =
    ",expression:[{type:'property',propType:'field',fieldId:'fixed',kind:'scalar',label:'Fixed value',typeIds:['String'],options:{value:";

/// The fifth piece of the script that sets an attribute; its arguments stand between the pieces.
pub const ATTRIBUTE_4: &'static str =
    "}}]},false);return JSON.stringify({success:true,attribute:";

/// The sixth piece of the script that sets an attribute; its arguments stand between the pieces.
pub const ATTRIBUTE_5: &'static str =
    ",value:";

/// The seventh piece of the script that sets an attribute; its arguments stand between the pieces.
pub const ATTRIBUTE_6: &'static str =
    "})})()";

/// The script that finds the component `cid` and sets the fixed `value` as
/// the private state of the attribute `name`. All three are script text.
pub open spec fn attribute_script_text(cid: Seq<char>, name: Seq<char>, value: Seq<char>) -> Seq<char> {
    ATTRIBUTE_0@ + cid + ATTRIBUTE_1@ + name + ATTRIBUTE_2@ + name + ATTRIBUTE_3@ + value + ATTRIBUTE_4@ + name + ATTRIBUTE_5@ + value + ATTRIBUTE_6@
}

/// Writes the script that sets an attribute of a component.
pub fn attribute_script(cid: &str, name: &str, value: &str) -> (script: String)
    ensures
        script@ == attribute_script_text(cid@, name@, value@),
{
    let mut script = String::from_str(ATTRIBUTE_0);
    script.append(cid);
    script.append(ATTRIBUTE_1);
    script.append(name);
    script.append(ATTRIBUTE_2);
    script.append(name);
    script.append(ATTRIBUTE_3);
    script.append(value);
    script.append(ATTRIBUTE_4);
    script.append(name);
    script.append(ATTRIBUTE_5);
    script.append(value);
    script.append(ATTRIBUTE_6);
    script
}

/// The first piece of the script that sets states; its arguments stand between the pieces.
pub const STATES_0: &'static str =
    "(function(){var e=window.silex.getEditor();var c=window.__silexMcp.findComponent(e,";

/// The second piece of the script that sets states; its arguments stand between the pieces.
pub const STATES_1: &'static str =
    ");if(!c)return JSON.stringify({error:'Component not found'});var pubs=";

/// The third piece of the script that sets states; its arguments stand between the pieces.
pub const STATES_2: &'static str =
    ";var privs=";

/// The fourth piece of the script that sets states; its arguments stand between the pieces.
pub const STATES_3: &'static str =
    ";if(pubs!==null)pubs.forEach(function(s){window.__silexMcp.setState(c,s.id,{label:s.label,hidden:s.hidden,expression:s.expression},true)});if(privs!==null)privs.forEach(function(s){window.__silexMcp.setState(c,s.id,{label:s.label,hidden:s.hidden,expression:s.expression},false)});return JSON.stringify({success:true})})()";

/// The script that finds the component `cid` and sets each of the given
/// public and private states; the two lists are JSON text or `null`.
pub open spec fn states_script_text(cid: Seq<char>, pub_states: Seq<char>, priv_states: Seq<char>) -> Seq<char> {
    STATES_0@ + cid + STATES_1@ + pub_states + STATES_2@ + priv_states + STATES_3@
}

/// Writes the script that sets the states of a component.
pub fn states_script(cid: &str, pub_states: &str, priv_states: &str) -> (script: String)
    ensures
        script@ == states_script_text(cid@, pub_states@, priv_states@),
{
    let mut script = String::from_str(STATES_0);
    script.append(cid);
    script.append(STATES_1);
    script.append(pub_states);
    script.append(STATES_2);
    script.append(priv_states);
    script.append(STATES_3);
    script
}

/// The script that binds the component to a data path under the state
/// `state_id`. `cid_js` and `expr_js` are script text; the operator, where
/// there is one, is script text too and is set on the component.
pub open spec fn cms_script(
    cid_js: Seq<char>,
    expr_js: Seq<char>,
    state_id: Seq<char>,
    operator_js: Option<Seq<char>>,
) -> Seq<char> {
    binding_script_text(
        cid_js,
        expr_js,
        string_literal(state_id),
        match operator_js {
            Some(op) => operator_statement_text(op),
            None => Seq::empty(),
        },
    )
}

/// What the CMS tool does with `params`, while a project is open or not.
/// Every action but the listing and
/// the refresh needs `component_id`; the bindings need `expression` too,
/// `expose_data` an `id`, `set_attribute` a `name`. The first one missing,
/// in that order, is named in the refusal.
pub open spec fn cms_plan(project_open: bool, params: CmsParams) -> Result<ToolPlanView, DispatchErrorView> {
    match params.action {
        CmsAction::ListSources => plain(project_open, LIST_SOURCES_SCRIPT@),
        CmsAction::RefreshPreview => plain(project_open, REFRESH_PREVIEW_SCRIPT@),
        _ => match params.component_id {
            None => missing("component_id is required"@),
            Some(cid) => match params.action {
                CmsAction::SetAttribute => match params.name {
                    None => missing("name is required"@),
                    Some(name) => plain(
                        project_open, attribute_script_text(
                            string_literal(cid@),
                            string_literal(name@),
                            string_literal(text_or(params.value, ""@)),
                        ),
                    ),
                },
                CmsAction::SetStates => plain(
                    project_open, states_script_text(
                        string_literal(cid@),
                        json_or(params.public_states, "null"@),
                        json_or(params.private_states, "null"@),
                    ),
                ),
                _ => match params.expression {
                    None => missing("expression is required"@),
                    Some(expr) => match params.action {
                        CmsAction::BindContent => plain(
                            project_open, cms_script(
                                string_literal(cid@),
                                string_literal(expr@),
                                "innerHTML"@,
                                None,
                            ),
                        ),
                        CmsAction::SetCondition => plain(
                            project_open, cms_script(
                                string_literal(cid@),
                                string_literal(expr@),
                                "condition"@,
                                Some(string_literal(text_or(params.operator, "truthy"@))),
                            ),
                        ),
                        CmsAction::SetLoop => plain(
                            project_open, cms_script(
                                string_literal(cid@),
                                string_literal(expr@),
                                "__data"@,
                                None,
                            ),
                        ),
                        _ => match params.id {
                            None => missing("id is required for expose_data"@),
                            Some(id) => plain(
                                project_open, expose_script_text(
                                    string_literal(cid@),
                                    string_literal(expr@),
                                    string_literal(id@),
                                    string_literal(text_or(params.label, id@)),
                                ),
                            ),
                        },
                    },
                },
            },
        },
    }
}

/// Without an open project the CMS tool refuses every call: nothing of it
/// reaches the bridge.
pub proof fn law_cms_needs_project(params: CmsParams)
    ensures
        cms_plan(false, params) is Err,
{
}

impl SilexMcp {
    /// Writes the script that binds a component to a data path under the
    /// state `state_id`, and sets the condition operator where one is given.
    pub fn build_cms_js(cid_js: &str, expr_js: &str, state_id: &str, operator_js: Option<&str>) -> (script:
        String)
        ensures
            script@ == cms_script(
                cid_js@,
                expr_js@,
                state_id@,
                match operator_js {
                    Some(op) => Some(op@),
                    None => None,
                },
            ),
    {
        let sid_js = quote(state_id);
        let op_part = match operator_js {
            Some(op) => operator_statement(op),
            None => String::new(),
        };
        binding_script(cid_js, expr_js, sid_js.as_str(), op_part.as_str())
    }

    /// The CMS tool: data sources, bindings, attributes and states.
    pub fn cms(&self, params: &CmsParams) -> (planned: Result<ToolPlan, DispatchError>)
        ensures
            plan_view(planned) == cms_plan(self.selection@.project is Some, *params),
    {
        match params.action {
            CmsAction::ListSources => {
                return self.run_plain(String::from_str(LIST_SOURCES_SCRIPT));
            },
            CmsAction::RefreshPreview => {
                return self.run_plain(String::from_str(REFRESH_PREVIEW_SCRIPT));
            },
            _ => {},
        }
        let cid_js = match &params.component_id {
            None => {
                return refuse_missing("component_id is required");
            },
            Some(cid) => quote(cid.as_str()),
        };
        match params.action {
            CmsAction::SetAttribute => {
                let name_js = match &params.name {
                    None => {
                        return refuse_missing("name is required");
                    },
                    Some(name) => quote(name.as_str()),
                };
                let value_js = quote(or_text(&params.value, ""));
                return self.run_plain(
                    attribute_script(cid_js.as_str(), name_js.as_str(), value_js.as_str()),
                );
            },
            CmsAction::SetStates => {
                return self.run_plain(
                    states_script(
                        cid_js.as_str(),
                        or_json(&params.public_states, "null"),
                        or_json(&params.private_states, "null"),
                    ),
                );
            },
            _ => {},
        }
        let expr_js = match &params.expression {
            None => {
                return refuse_missing("expression is required");
            },
            Some(expr) => quote(expr.as_str()),
        };
        match params.action {
            CmsAction::BindContent => self.run_plain(
                Self::build_cms_js(cid_js.as_str(), expr_js.as_str(), "innerHTML", None),
            ),
            CmsAction::SetCondition => {
                let op_js = quote(or_text(&params.operator, "truthy"));
                self.run_plain(
                    Self::build_cms_js(
                        cid_js.as_str(),
                        expr_js.as_str(),
                        "condition",
                        Some(op_js.as_str()),
                    ),
                )
            },
            CmsAction::SetLoop => self.run_plain(
                Self::build_cms_js(cid_js.as_str(), expr_js.as_str(), "__data", None),
            ),
            _ => {
                let state_id = match &params.id {
                    None => {
                        return refuse_missing("id is required for expose_data");
                    },
                    Some(id) => id.as_str(),
                };
                let sid_js = quote(state_id);
                let label_js = quote(or_text(&params.label, state_id));
                self.run_plain(
                    expose_script(
                        cid_js.as_str(),
                        expr_js.as_str(),
                        sid_js.as_str(),
                        label_js.as_str(),
                    ),
                )
            },
        }
    }
}

} // verus!
