//! The selector tool and the style tool: the CSS selectors of the selected
//! component, and the styles of the active selector.

use crate::dispatch::{
    call0, call1, guided, helper_call0, helper_call1, missing, plan_view, refuse_missing,
    SilexMcp, ToolPlan, ToolPlanView,
};
use crate::json::{quote, string_literal};
use crate::params::{SelectorAction, SelectorParams, StyleAction, StyleParams};
use crate::response::{DispatchError, DispatchErrorView};
use vstd::prelude::*;

verus! {

/// The script body that lists the selectors of the selected component, or
/// reports that none is selected.
pub const SELECTOR_LIST_BODY: &'static str =
    "var c=e.getSelected();if(!c)return{error:'No component selected. Use component(action:select) first.'};return window.__silexMcp.listComponentSelectors(e)";

pub const SELECTOR_LIST_HINT: &'static str =
    "Use selector(action:'select', selector:'.classname') to activate a selector for styling, or selector(action:'create', class_name:'my-class') to add a new class.";

pub const SELECTOR_SELECT_HINT: &'static str =
    "Selector activated. Use style(action:'set', css:'...') to apply styles, or style(action:'get') to read current styles.";

pub const SELECTOR_CREATE_HINT: &'static str =
    "Class added. Use selector(action:'select', selector:'.classname') to activate it for styling.";

pub const SELECTOR_DELETE_HINT: &'static str = "Class and associated styles removed.";

pub const STYLE_GET_HINT: &'static str =
    "Use style(action:'set', css:'...') to modify styles, or style(action:'delete', property:'...') to remove a property.";

pub const STYLE_SET_HINT: &'static str =
    "Styles applied. Use take_screenshot to verify, or style(action:'get') to confirm.";

pub const STYLE_DELETE_HINT: &'static str = "CSS property removed.";

/// The refusal of a style that is set without properties: it names the
/// two parameters of which one is required.
pub const STYLE_SOURCE_MISSING: &'static str = "Either 'properties' or 'css' is required";

/// What the selector tool does with `params`. `select` needs `selector`,
/// `create` and `delete` need `class_name`.
pub open spec fn selector_plan(project_open: bool, params: SelectorParams) -> Result<ToolPlanView, DispatchErrorView> {
    match params.action {
        SelectorAction::List => guided(project_open, SELECTOR_LIST_BODY@, SELECTOR_LIST_HINT@),
        SelectorAction::Select => match params.selector {
            None => missing("selector string is required"@),
            Some(selector) => guided(
                project_open, helper_call1("selectSelector"@, string_literal(selector@)),
                SELECTOR_SELECT_HINT@,
            ),
        },
        SelectorAction::Create => match params.class_name {
            None => missing("class_name is required"@),
            Some(class_name) => guided(
                project_open, helper_call1("createSelector"@, string_literal(class_name@)),
                SELECTOR_CREATE_HINT@,
            ),
        },
        SelectorAction::Delete => match params.class_name {
            None => missing("class_name is required"@),
            Some(class_name) => guided(
                project_open, helper_call1("deleteSelector"@, string_literal(class_name@)),
                SELECTOR_DELETE_HINT@,
            ),
        },
    }
}

/// The script text that parses CSS text, given as a JSON string literal,
/// into properties.
pub open spec fn parsed_css(css_literal: Seq<char>) -> Seq<char> {
    "window.__silexMcp.parseCssString("@ + css_literal + ")"@
}

/// What the style tool does with `params`. `set` takes the properties
/// object where there is one, else the CSS text, and is refused for a
/// missing parameter where there is neither. `delete` needs `property`.
pub open spec fn style_plan(project_open: bool, params: StyleParams) -> Result<ToolPlanView, DispatchErrorView> {
    match params.action {
        StyleAction::Get => guided(project_open, helper_call0("getStyle"@), STYLE_GET_HINT@),
        StyleAction::Assign => match params.properties {
            Some(properties) => guided(project_open, helper_call1("setStyle"@, properties@), STYLE_SET_HINT@),
            None => match params.css {
                Some(css) => guided(
                    project_open, helper_call1("setStyle"@, parsed_css(string_literal(css@))),
                    STYLE_SET_HINT@,
                ),
                None => missing(STYLE_SOURCE_MISSING@),
            },
        },
        StyleAction::Delete => match params.property {
            None => missing("property is required"@),
            Some(property) => guided(
                project_open, helper_call1("deleteStyleProperty"@, string_literal(property@)),
                STYLE_DELETE_HINT@,
            ),
        },
    }
}

/// Without an open project the selector tool refuses every call: nothing of it
/// reaches the bridge.
pub proof fn law_selector_needs_project(params: SelectorParams)
    ensures
        selector_plan(false, params) is Err,
{
}

/// Without an open project the style tool refuses every call: nothing of it
/// reaches the bridge.
pub proof fn law_style_needs_project(params: StyleParams)
    ensures
        style_plan(false, params) is Err,
{
}

impl SilexMcp {
    /// The selector tool.
    pub fn selector(&self, params: &SelectorParams) -> (planned: Result<ToolPlan, DispatchError>)
        ensures
            plan_view(planned) == selector_plan(self.selection@.project is Some, *params),
    {
        match params.action {
            SelectorAction::List => self.run_guided(SELECTOR_LIST_BODY, SELECTOR_LIST_HINT),
            SelectorAction::Select => match &params.selector {
                None => refuse_missing("selector string is required"),
                Some(selector) => self.run_guided(
                    call1("selectSelector", quote(selector.as_str()).as_str()).as_str(),
                    SELECTOR_SELECT_HINT,
                ),
            },
            SelectorAction::Create => match &params.class_name {
                None => refuse_missing("class_name is required"),
                Some(class_name) => self.run_guided(
                    call1("createSelector", quote(class_name.as_str()).as_str()).as_str(),
                    SELECTOR_CREATE_HINT,
                ),
            },
            SelectorAction::Delete => match &params.class_name {
                None => refuse_missing("class_name is required"),
                Some(class_name) => self.run_guided(
                    call1("deleteSelector", quote(class_name.as_str()).as_str()).as_str(),
                    SELECTOR_DELETE_HINT,
                ),
            },
        }
    }

    /// The style tool.
    pub fn style(&self, params: &StyleParams) -> (planned: Result<ToolPlan, DispatchError>)
        ensures
            plan_view(planned) == style_plan(self.selection@.project is Some, *params),
    {
        match params.action {
            StyleAction::Get => self.run_guided(call0("getStyle").as_str(), STYLE_GET_HINT),
            StyleAction::Assign => match &params.properties {
                Some(properties) => self.run_guided(
                    call1("setStyle", properties.as_str()).as_str(),
                    STYLE_SET_HINT,
                ),
                None => match &params.css {
                    Some(css) => {
                        let mut source = String::from_str("window.__silexMcp.parseCssString(");
                        source.append(quote(css.as_str()).as_str());
                        source.append(")");
                        self.run_guided(call1("setStyle", source.as_str()).as_str(), STYLE_SET_HINT)
                    },
                    None => refuse_missing(STYLE_SOURCE_MISSING),
                },
            },
            StyleAction::Delete => match &params.property {
                None => refuse_missing("property is required"),
                Some(property) => self.run_guided(
                    call1("deleteStyleProperty", quote(property.as_str()).as_str()).as_str(),
                    STYLE_DELETE_HINT,
                ),
            },
        }
    }
}

} // verus!
