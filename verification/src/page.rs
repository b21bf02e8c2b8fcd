//! The page tool: list, add, select, remove, update settings.

use crate::dispatch::{
    call0, call1, call2, guided, helper_call0, helper_call1, helper_call2, json_or,
    literal_or_null, missing, or_json, or_text, plan_view, quote_or_null, refuse_missing,
    text_or, SilexMcp, ToolPlan, ToolPlanView,
};
use crate::json::{quote, string_literal};
use crate::params::{PageAction, PageParams};
use crate::response::{DispatchError, DispatchErrorView};
use vstd::prelude::*;

verus! {

pub const PAGE_LIST_HINT: &'static str =
    "Use page(action:'select', page_id:'...') to select a page, then component(action:'add') to add content.";

pub const PAGE_ADD_HINT: &'static str =
    "Page created and selected. Use component(action:'add', html:'...') to add content.";

pub const PAGE_SELECT_HINT: &'static str =
    "Page selected. Use component(action:'get_tree') to see content, or component(action:'add') to add content.";

pub const PAGE_REMOVE_HINT: &'static str = "Page removed.";

pub const PAGE_SETTINGS_HINT: &'static str = "Page settings updated.";

/// What the page tool does with `params`. A new page is named "New Page"
/// where no name is given, and its slug is its name where no slug is
/// given; `remove` needs `page_id`. Every text reaches the script as a JSON
/// string literal.
pub open spec fn page_plan(project_open: bool, params: PageParams) -> Result<ToolPlanView, DispatchErrorView> {
    match params.action {
        PageAction::List => guided(project_open, helper_call0("listPages"@), PAGE_LIST_HINT@),
        PageAction::Add => {
            let name = text_or(params.name, "New Page"@);
            let slug = text_or(params.slug, name);
            guided(
                project_open, helper_call2("addPage"@, string_literal(name), string_literal(slug)),
                PAGE_ADD_HINT@,
            )
        },
        PageAction::Select => guided(
            project_open, helper_call1("selectPage"@, string_literal(text_or(params.page_id, ""@))),
            PAGE_SELECT_HINT@,
        ),
        PageAction::Remove => match params.page_id {
            None => missing("page_id is required"@),
            Some(id) => guided(project_open, helper_call1("removePage"@, string_literal(id@)), PAGE_REMOVE_HINT@),
        },
        PageAction::UpdateSettings => guided(
            project_open, helper_call2(
                "updatePageSettings"@,
                literal_or_null(params.page_id),
                json_or(params.settings, "{}"@),
            ),
            PAGE_SETTINGS_HINT@,
        ),
    }
}

/// Without an open project the page tool refuses every call: nothing of it
/// reaches the bridge.
pub proof fn law_page_needs_project(params: PageParams)
    ensures
        page_plan(false, params) is Err,
{
}

impl SilexMcp {
    /// The page tool.
    pub fn page(&self, params: &PageParams) -> (planned: Result<ToolPlan, DispatchError>)
        ensures
            plan_view(planned) == page_plan(self.selection@.project is Some, *params),
    {
        match params.action {
            PageAction::List => self.run_guided(call0("listPages").as_str(), PAGE_LIST_HINT),
            PageAction::Add => {
                let name = or_text(&params.name, "New Page");
                let slug = or_text(&params.slug, name);
                let body = call2("addPage", quote(name).as_str(), quote(slug).as_str());
                self.run_guided(body.as_str(), PAGE_ADD_HINT)
            },
            PageAction::Select => {
                let id = or_text(&params.page_id, "");
                self.run_guided(call1("selectPage", quote(id).as_str()).as_str(), PAGE_SELECT_HINT)
            },
            PageAction::Remove => match &params.page_id {
                None => refuse_missing("page_id is required"),
                Some(id) => self.run_guided(
                    call1("removePage", quote(id.as_str()).as_str()).as_str(),
                    PAGE_REMOVE_HINT,
                ),
            },
            PageAction::UpdateSettings => {
                let body = call2(
                    "updatePageSettings",
                    quote_or_null(&params.page_id).as_str(),
                    or_json(&params.settings, "{}"),
                );
                self.run_guided(body.as_str(), PAGE_SETTINGS_HINT)
            },
        }
    }
}

} // verus!
