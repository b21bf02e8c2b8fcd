//! The component tool: view the tree, select, read, add, update, move
//! and remove components.

use crate::dispatch::{
    call0, call1, call2, guided, helper_call0, helper_call1, helper_call2, json_or,
    literal_or_null, missing, or_json, or_text, plan_view, quote_or_null, refuse_missing,
    text_or, SilexMcp, ToolPlan, ToolPlanView,
};
use crate::json::{quote, string_literal};
use crate::params::{ComponentAction, ComponentParams};
use crate::response::{DispatchError, DispatchErrorView};
use crate::text::{decimal, decimal_string};
use vstd::prelude::*;

verus! {

pub const COMPONENT_TREE_HINT: &'static str =
    "Use component(action:'select', component_id:'...') to select a component, then selector(action:'list') to see its selectors.";

pub const COMPONENT_GET_HINT: &'static str =
    "Use selector(action:'list') to see selectors, or component(action:'update') to modify.";

pub const COMPONENT_ADD_HINT: &'static str =
    "Component added and selected. Use selector(action:'create', class_name:'...') to add a class, then selector(action:'select', selector:'.classname') and style(action:'set', css:'...') to style it.";

pub const COMPONENT_UPDATE_HINT: &'static str =
    "Component updated. Use selector(action:'list') to see selectors for styling.";

pub const COMPONENT_MOVE_HINT: &'static str = "Component moved.";

pub const COMPONENT_REMOVE_HINT: &'static str = "Component removed.";

pub const COMPONENT_SELECT_HINT: &'static str =
    "Component selected. Use selector(action:'list') to see selectors, or selector(action:'create', class_name:'...') to add a class.";

/// The depth of the tree where none is asked for.
pub const DEFAULT_DEPTH: u32 = 2;

/// The most components returned where no limit is asked for.
pub const DEFAULT_MAX_COMPONENTS: u32 = 50;

/// `value`, or `fallback` where there is none.
pub open spec fn number_or(value: Option<u32>, fallback: u32) -> u32 {
    match value {
        Some(n) => n,
        None => fallback,
    }
}

/// What the component tool does with `params`. `add` needs `html`, `move`
/// and `select` need `component_id`; the position is "inside" where none is
/// given. Every text reaches the script as a JSON string literal.
pub open spec fn component_plan(project_open: bool, params: ComponentParams) -> Result<
    ToolPlanView,
    DispatchErrorView,
> {
    match params.action {
        ComponentAction::GetTree => guided(
            project_open, helper_call2(
                "getTree"@,
                decimal(number_or(params.depth, DEFAULT_DEPTH) as nat),
                decimal(number_or(params.max_components, DEFAULT_MAX_COMPONENTS) as nat),
            ),
            COMPONENT_TREE_HINT@,
        ),
        ComponentAction::Get => guided(project_open, helper_call0("getComponent"@), COMPONENT_GET_HINT@),
        ComponentAction::Add => match params.html {
            None => missing("html is required"@),
            Some(html) => guided(
                project_open, helper_call2(
                    "addComponent"@,
                    string_literal(html@),
                    string_literal(text_or(params.position, "inside"@)),
                ),
                COMPONENT_ADD_HINT@,
            ),
        },
        ComponentAction::Update => guided(
            project_open, helper_call2(
                "updateComponent"@,
                literal_or_null(params.content),
                json_or(params.attributes, "null"@),
            ),
            COMPONENT_UPDATE_HINT@,
        ),
        ComponentAction::Move => match params.component_id {
            None => missing("component_id (target) is required for move"@),
            Some(target) => guided(
                project_open, helper_call2(
                    "moveComponent"@,
                    string_literal(target@),
                    string_literal(text_or(params.position, "inside"@)),
                ),
                COMPONENT_MOVE_HINT@,
            ),
        },
        ComponentAction::Remove => guided(
            project_open, helper_call0("removeComponent"@),
            COMPONENT_REMOVE_HINT@,
        ),
        ComponentAction::Select => match params.component_id {
            None => missing("component_id is required"@),
            Some(id) => guided(
                project_open, helper_call1("selectComponent"@, string_literal(id@)),
                COMPONENT_SELECT_HINT@,
            ),
        },
    }
}

/// Without an open project the component tool refuses every call: nothing of it
/// reaches the bridge.
pub proof fn law_component_needs_project(params: ComponentParams)
    ensures
        component_plan(false, params) is Err,
{
}

impl SilexMcp {
    /// The component tool.
    pub fn component(&self, params: &ComponentParams) -> (planned: Result<
        ToolPlan,
        DispatchError,
    >)
        ensures
            plan_view(planned) == component_plan(self.selection@.project is Some, *params),
    {
        match params.action {
            ComponentAction::GetTree => {
                let depth: u32 = match params.depth {
                    Some(n) => n,
                    None => DEFAULT_DEPTH,
                };
                let max: u32 = match params.max_components {
                    Some(n) => n,
                    None => DEFAULT_MAX_COMPONENTS,
                };
                let body = call2(
                    "getTree",
                    decimal_string(depth as u64).as_str(),
                    decimal_string(max as u64).as_str(),
                );
                self.run_guided(body.as_str(), COMPONENT_TREE_HINT)
            },
            ComponentAction::Get => self.run_guided(call0("getComponent").as_str(), COMPONENT_GET_HINT),
            ComponentAction::Add => match &params.html {
                None => refuse_missing("html is required"),
                Some(html) => {
                    let position = or_text(&params.position, "inside");
                    let body = call2(
                        "addComponent",
                        quote(html.as_str()).as_str(),
                        quote(position).as_str(),
                    );
                    self.run_guided(body.as_str(), COMPONENT_ADD_HINT)
                },
            },
            ComponentAction::Update => {
                let body = call2(
                    "updateComponent",
                    quote_or_null(&params.content).as_str(),
                    or_json(&params.attributes, "null"),
                );
                self.run_guided(body.as_str(), COMPONENT_UPDATE_HINT)
            },
            ComponentAction::Move => match &params.component_id {
                None => refuse_missing("component_id (target) is required for move"),
                Some(target) => {
                    let position = or_text(&params.position, "inside");
                    let body = call2(
                        "moveComponent",
                        quote(target.as_str()).as_str(),
                        quote(position).as_str(),
                    );
                    self.run_guided(body.as_str(), COMPONENT_MOVE_HINT)
                },
            },
            ComponentAction::Remove => self.run_guided(
                call0("removeComponent").as_str(),
                COMPONENT_REMOVE_HINT,
            ),
            ComponentAction::Select => match &params.component_id {
                None => refuse_missing("component_id is required"),
                Some(id) => self.run_guided(
                    call1("selectComponent", quote(id.as_str()).as_str()).as_str(),
                    COMPONENT_SELECT_HINT,
                ),
            },
        }
    }
}

} // verus!
