//! The symbol, device, site settings and output tools.

use crate::dispatch::{
    call0, call1, call2, guided, helper_call0, helper_call1, helper_call2, json_or, missing,
    or_json, or_text, plain, plan_view, refuse_missing, text_or, SilexMcp, ToolPlan,
    ToolPlanView,
};
use crate::json::{quote, string_literal};
use crate::params::{
    DeviceAction, DeviceParams, GetHtmlCssParams, SettingsAction, SettingsParams, SymbolAction,
    SymbolParams,
};
use crate::response::{DispatchError, DispatchErrorView};
use vstd::prelude::*;

verus! {

/// The script body that lists every symbol.
pub const SYMBOL_LIST_BODY: &'static str = "return{symbols:window.__silexMcp.findAllSymbols(e)}";

pub const SYMBOL_LIST_HINT: &'static str =
    "Use symbol(action:'place', label:'...') to place a symbol, or symbol(action:'create', label:'...') to create one from the selected component.";

pub const SYMBOL_CREATE_HINT: &'static str =
    "Symbol created. Use symbol(action:'place', label:'...') to place it on other pages.";

pub const SYMBOL_PLACE_HINT: &'static str = "Symbol placed.";

pub const SYMBOL_DELETE_HINT: &'static str = "Symbol deleted.";

/// The icon of a symbol where none is given.
pub const DEFAULT_ICON: &'static str = "fa fa-diamond";

pub const DEVICE_LIST_HINT: &'static str =
    "Use device(action:'set', name:'Tablet') to switch breakpoint.";

pub const DEVICE_SET_HINT: &'static str =
    "Breakpoint changed. Styles set now will apply to this breakpoint.";

pub const SETTINGS_GET_HINT: &'static str =
    "Use site_settings(action:'set', settings:{...}) to update settings.";

pub const SETTINGS_SET_HINT: &'static str = "Site settings updated.";

/// The script that returns an outline of the website: each element with
/// its classes and the number of its children, four levels deep.
pub const OUTLINE_SCRIPT: &'static str =
    r#"(function(){var e=window.silex.getEditor();var w=e.getWrapper();function walk(c,d){var indent='';for(var i=0;i<d;i++)indent+='  ';var tag=c.get('tagName')||'div';var cls=c.getClasses().join(' ');var line=indent+'<'+tag+(cls?' class="'+cls+'"':'')+'>  ('+c.components().length+' children)';var lines=[line];if(d<4)c.components().forEach(function(ch){lines=lines.concat(walk(ch,d+1))});return lines}return walk(w,0).join('\n')})()"#;

/// The script that returns the HTML and the CSS of the website.
pub const HTML_CSS_SCRIPT: &'static str =
    "(function(){var e=window.silex.getEditor();return JSON.stringify({html:e.getHtml(),css:e.getCss()})})()";

/// What the symbol tool does with `params`. Every action but the listing
/// needs `label`; the icon is "fa fa-diamond" and the position "inside"
/// where none is given.
pub open spec fn symbol_plan(project_open: bool, params: SymbolParams) -> Result<ToolPlanView, DispatchErrorView> {
    match params.action {
        SymbolAction::List => guided(project_open, SYMBOL_LIST_BODY@, SYMBOL_LIST_HINT@),
        _ => match params.label {
            None => missing("label is required"@),
            Some(label) => match params.action {
                SymbolAction::Create => guided(
                    project_open, helper_call2(
                        "createSymbol"@,
                        string_literal(label@),
                        string_literal(text_or(params.icon, DEFAULT_ICON@)),
                    ),
                    SYMBOL_CREATE_HINT@,
                ),
                SymbolAction::Place => guided(
                    project_open, helper_call2(
                        "placeSymbol"@,
                        string_literal(label@),
                        string_literal(text_or(params.position, "inside"@)),
                    ),
                    SYMBOL_PLACE_HINT@,
                ),
                _ => guided(
                    project_open, helper_call1("deleteSymbol"@, string_literal(label@)),
                    SYMBOL_DELETE_HINT@,
                ),
            },
        },
    }
}

/// What the device tool does with `params`; `set` needs `name`.
pub open spec fn device_plan(project_open: bool, params: DeviceParams) -> Result<ToolPlanView, DispatchErrorView> {
    match params.action {
        DeviceAction::List => guided(project_open, helper_call0("listDevices"@), DEVICE_LIST_HINT@),
        DeviceAction::Assign => match params.name {
            None => missing("name is required"@),
            Some(name) => guided(
                project_open, helper_call1("setDevice"@, string_literal(name@)),
                DEVICE_SET_HINT@,
            ),
        },
    }
}

/// What the site settings tool does with `params`; `set` without settings
/// sets the empty object.
pub open spec fn site_settings_plan(project_open: bool, params: SettingsParams) -> Result<
    ToolPlanView,
    DispatchErrorView,
> {
    match params.action {
        SettingsAction::Get => guided(project_open, helper_call0("getSiteSettings"@), SETTINGS_GET_HINT@),
        SettingsAction::Assign => guided(
            project_open, helper_call1("setSiteSettings"@, json_or(params.settings, "{}"@)),
            SETTINGS_SET_HINT@,
        ),
    }
}

/// What the output tool does with `params`: the outline where a summary is
/// asked for, else the full HTML and CSS.
pub open spec fn get_html_css_plan(project_open: bool, params: GetHtmlCssParams) -> Result<
    ToolPlanView,
    DispatchErrorView,
> {
    if params.summary == Some(true) {
        plain(project_open, OUTLINE_SCRIPT@)
    } else {
        plain(project_open, HTML_CSS_SCRIPT@)
    }
}

/// Without an open project the symbol tool refuses every call: nothing of it
/// reaches the bridge.
pub proof fn law_symbol_needs_project(params: SymbolParams)
    ensures
        symbol_plan(false, params) is Err,
{
}

/// Without an open project the device tool refuses every call: nothing of it
/// reaches the bridge.
pub proof fn law_device_needs_project(params: DeviceParams)
    ensures
        device_plan(false, params) is Err,
{
}

/// Without an open project the site settings tool refuses every call: nothing of it
/// reaches the bridge.
pub proof fn law_site_settings_needs_project(params: SettingsParams)
    ensures
        site_settings_plan(false, params) is Err,
{
}

/// Without an open project the output tool refuses every call: nothing of it
/// reaches the bridge.
pub proof fn law_get_html_css_needs_project(params: GetHtmlCssParams)
    ensures
        get_html_css_plan(false, params) is Err,
{
}

impl SilexMcp {
    /// The symbol tool.
    pub fn symbol(&self, params: &SymbolParams) -> (planned: Result<ToolPlan, DispatchError>)
        ensures
            plan_view(planned) == symbol_plan(self.selection@.project is Some, *params),
    {
        match params.action {
            SymbolAction::List => {
                return self.run_guided(SYMBOL_LIST_BODY, SYMBOL_LIST_HINT);
            },
            _ => {},
        }
        let label_js = match &params.label {
            None => {
                return refuse_missing("label is required");
            },
            Some(label) => quote(label.as_str()),
        };
        match params.action {
            SymbolAction::Create => {
                let icon_js = quote(or_text(&params.icon, DEFAULT_ICON));
                self.run_guided(
                    call2("createSymbol", label_js.as_str(), icon_js.as_str()).as_str(),
                    SYMBOL_CREATE_HINT,
                )
            },
            SymbolAction::Place => {
                let position_js = quote(or_text(&params.position, "inside"));
                self.run_guided(
                    call2("placeSymbol", label_js.as_str(), position_js.as_str()).as_str(),
                    SYMBOL_PLACE_HINT,
                )
            },
            _ => self.run_guided(call1("deleteSymbol", label_js.as_str()).as_str(), SYMBOL_DELETE_HINT),
        }
    }

    /// The device tool: the responsive breakpoint that styles apply to.
    pub fn device(&self, params: &DeviceParams) -> (planned: Result<ToolPlan, DispatchError>)
        ensures
            plan_view(planned) == device_plan(self.selection@.project is Some, *params),
    {
        match params.action {
            DeviceAction::List => self.run_guided(call0("listDevices").as_str(), DEVICE_LIST_HINT),
            DeviceAction::Assign => match &params.name {
                None => refuse_missing("name is required"),
                Some(name) => self.run_guided(
                    call1("setDevice", quote(name.as_str()).as_str()).as_str(),
                    DEVICE_SET_HINT,
                ),
            },
        }
    }

    /// The site settings tool.
    pub fn site_settings(&self, params: &SettingsParams) -> (planned: Result<
        ToolPlan,
        DispatchError,
    >)
        ensures
            plan_view(planned) == site_settings_plan(self.selection@.project is Some, *params),
    {
        match params.action {
            SettingsAction::Get => self.run_guided(
                call0("getSiteSettings").as_str(),
                SETTINGS_GET_HINT,
            ),
            SettingsAction::Assign => self.run_guided(
                call1("setSiteSettings", or_json(&params.settings, "{}")).as_str(),
                SETTINGS_SET_HINT,
            ),
        }
    }

    /// The output tool: the HTML and CSS of the website, or its outline.
    pub fn get_html_css(&self, params: &GetHtmlCssParams) -> (planned: Result<
        ToolPlan,
        DispatchError,
    >)
        ensures
            plan_view(planned) == get_html_css_plan(self.selection@.project is Some, *params),
    {
        let summary = match params.summary {
            Some(summary) => summary,
            None => false,
        };
        if summary {
            self.run_plain(String::from_str(OUTLINE_SCRIPT))
        } else {
            self.run_plain(String::from_str(HTML_CSS_SCRIPT))
        }
    }
}

} // verus!
