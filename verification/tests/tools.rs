use silex_mcp::bridge::{Context, Signal};
use silex_mcp::dispatch::{call0, call1, call2, Launch, SilexMcp, ToolPlan};
use silex_mcp::json::JsonText;
use silex_mcp::params::{
    CmsAction, CmsParams, ComponentAction, ComponentParams, DeviceAction, DeviceParams,
    GetHtmlCssParams, PageAction, PageParams, SelectorAction, SelectorParams, SettingsAction,
    SettingsParams, StyleAction, StyleParams, SymbolAction, SymbolParams,
};
use silex_mcp::registry::Registry;
use silex_mcp::response::{wrap_with_selection, DispatchError};
use silex_mcp::selection::SelectionState;

fn closed() -> SilexMcp {
    SilexMcp::new(SelectionState::new(), Registry::new())
}

fn opened() -> SilexMcp {
    let mut mcp = closed();
    mcp.selection.set_current_project("abc".to_string(), "Site".to_string());
    mcp
}

fn editor_context() -> Context {
    Context::At { path: "/".to_string(), has_query: true }
}

fn script(planned: Result<ToolPlan, DispatchError>) -> String {
    match planned {
        Ok(ToolPlan::RunJs(js)) => js,
        _ => panic!("expected a script to run"),
    }
}

fn invalid(planned: Result<ToolPlan, DispatchError>) -> String {
    match planned {
        Err(DispatchError::InvalidParams(message)) => message,
        _ => panic!("expected invalid params"),
    }
}

fn page(action: PageAction) -> PageParams {
    PageParams { action, page_id: None, name: None, slug: None, settings: None }
}

fn component(action: ComponentAction) -> ComponentParams {
    ComponentParams {
        action,
        component_id: None,
        html: None,
        content: None,
        attributes: None,
        position: None,
        depth: None,
        max_components: None,
    }
}

fn cms(action: CmsAction) -> CmsParams {
    CmsParams {
        action,
        component_id: None,
        expression: None,
        operator: None,
        name: None,
        value: None,
        id: None,
        label: None,
        public_states: None,
        private_states: None,
    }
}

#[test]
fn helper_calls_are_written_out() {
    assert_eq!(call0("listPages"), "return window.__silexMcp.listPages(e)");
    assert_eq!(call1("selectPage", "\"p\""), "return window.__silexMcp.selectPage(e,\"p\")");
    assert_eq!(call2("getTree", "2", "50"), "return window.__silexMcp.getTree(e,2,50)");
}

fn refused(planned: Result<ToolPlan, DispatchError>) -> String {
    match planned {
        Err(DispatchError::PreconditionFailed(message)) => message,
        _ => panic!("expected a refusal for the missing project"),
    }
}

const NO_PROJECT: &str =
    "No project open. Use website(action: 'open') or website(action: 'create') first.";

#[test]
fn tool_without_project_is_refused_before_the_bridge() {
    let mut mcp = closed();
    assert_eq!(refused(mcp.page(&page(PageAction::List))), NO_PROJECT);
    assert_eq!(mcp.registry.issued(), 0);
    match mcp.run_js(&editor_context(), "return 1") {
        Err(DispatchError::PreconditionFailed(message)) => assert_eq!(message, NO_PROJECT),
        _ => panic!("expected a refusal"),
    }
    assert_eq!(mcp.registry.issued(), 0);
    assert_eq!(mcp.registry.pending_count(), 0);
    assert!(mcp.require_project().is_err());
}

#[test]
fn every_editing_tool_needs_a_project() {
    let mcp = closed();
    assert_eq!(refused(mcp.page(&page(PageAction::Add))), NO_PROJECT);
    assert_eq!(refused(mcp.component(&component(ComponentAction::Get))), NO_PROJECT);
    let list = SelectorParams { action: SelectorAction::List, selector: None, class_name: None };
    assert_eq!(refused(mcp.selector(&list)), NO_PROJECT);
    let get = StyleParams { action: StyleAction::Get, properties: None, css: None, property: None };
    assert_eq!(refused(mcp.style(&get)), NO_PROJECT);
    let list = SymbolParams { action: SymbolAction::List, label: None, icon: None, position: None };
    assert_eq!(refused(mcp.symbol(&list)), NO_PROJECT);
    assert_eq!(refused(mcp.device(&DeviceParams { action: DeviceAction::List, name: None })), NO_PROJECT);
    let get = SettingsParams { action: SettingsAction::Get, settings: None };
    assert_eq!(refused(mcp.site_settings(&get)), NO_PROJECT);
    assert_eq!(refused(mcp.get_html_css(&GetHtmlCssParams { summary: None })), NO_PROJECT);
    assert_eq!(refused(mcp.cms(&cms(CmsAction::ListSources))), NO_PROJECT);
    let mut params = cms(CmsAction::SetLoop);
    params.component_id = Some("c1".to_string());
    params.expression = Some("a.b".to_string());
    assert_eq!(refused(mcp.cms(&params)), NO_PROJECT);
    assert_eq!(mcp.registry.issued(), 0);
}

#[test]
fn invalid_params_come_before_the_project_check() {
    let mcp = closed();
    assert_eq!(invalid(mcp.page(&page(PageAction::Remove))), "page_id is required");
    assert_eq!(mcp.registry.issued(), 0);
}

#[test]
fn tool_with_project_goes_through_the_bridge() {
    let mut mcp = opened();
    assert!(mcp.require_project().is_ok());
    let js = script(mcp.page(&page(PageAction::List)));
    let (envelope, mut rx) = match mcp.run_js(&editor_context(), &js) {
        Ok(Launch::Push(envelope, rx)) => (envelope, rx),
        _ => panic!("expected a push"),
    };
    assert_eq!(envelope.id, 0);
    assert_eq!(envelope.timeout_secs, 10);
    assert_eq!(envelope.body, silex_mcp::bridge::wrap_script(0, &js));
    assert_eq!(mcp.registry.issued(), 1);
    assert!(mcp.registry.resolve(0, "{\"success\":true,\"result\":\"[\\\"index\\\"]\"}".to_string()));
    let raw = rx.try_recv().unwrap();
    let result = mcp.finish_js(&envelope, Signal::Payload(raw));
    assert!(!result.is_error);
    assert_eq!(result.content, vec!["[\"index\"]".to_string()]);
}

#[test]
fn tool_on_landing_view_answers_with_a_tool_error() {
    let mut mcp = opened();
    let landing = Context::At { path: "/".to_string(), has_query: false };
    match mcp.run_js(&landing, "x") {
        Ok(Launch::Reply(result)) => {
            assert!(result.is_error);
            assert_eq!(
                result.content,
                vec!["eval_js is only available in the editor, not on the dashboard. Open or create a project first.".to_string()]
            );
        }
        _ => panic!("expected a tool error"),
    }
    match mcp.run_js(&Context::Unavailable, "x") {
        Ok(Launch::Reply(result)) => {
            assert!(result.is_error);
            assert_eq!(result.content, vec!["No main window".to_string()]);
        }
        _ => panic!("expected a tool error"),
    }
    assert_eq!(mcp.registry.issued(), 0);
}

#[test]
fn finished_script_without_result_answers_null() {
    let mut mcp = opened();
    let (envelope, _rx) = match mcp.run_js(&editor_context(), "void 0") {
        Ok(Launch::Push(envelope, rx)) => (envelope, rx),
        _ => panic!("expected a push"),
    };
    let result = mcp.finish_js(&envelope, Signal::Payload("{\"success\":true,\"result\":null}".to_string()));
    assert_eq!(result.content, vec!["null".to_string()]);
    let (envelope, _rx) = match mcp.run_js(&editor_context(), "void 0") {
        Ok(Launch::Push(envelope, rx)) => (envelope, rx),
        _ => panic!("expected a push"),
    };
    let result = mcp.finish_js(&envelope, Signal::Elapsed);
    assert!(result.is_error);
    assert_eq!(result.content, vec!["Timeout waiting for JS result (10s)".to_string()]);
    assert!(!mcp.registry.is_pending(envelope.id));
}

#[test]
fn page_add_quotes_its_texts() {
    let mcp = opened();
    let mut params = page(PageAction::Add);
    params.name = Some("A \"quoted\" \\ name".to_string());
    let js = script(mcp.page(&params));
    assert_eq!(
        js,
        wrap_with_selection(
            "return window.__silexMcp.addPage(e,\"A \\\"quoted\\\" \\\\ name\",\"A \\\"quoted\\\" \\\\ name\")",
            "Page created and selected. Use component(action:'add', html:'...') to add content."
        )
    );
    params.slug = Some("about".to_string());
    assert!(script(mcp.page(&params)).contains("addPage(e,\"A \\\"quoted\\\" \\\\ name\",\"about\")"));
    let js = script(mcp.page(&page(PageAction::Add)));
    assert!(js.contains("addPage(e,\"New Page\",\"New Page\")"));
}

#[test]
fn page_actions_compose_helper_calls() {
    let mcp = opened();
    assert!(script(mcp.page(&page(PageAction::List))).contains("{ return window.__silexMcp.listPages(e) }"));
    assert!(script(mcp.page(&page(PageAction::Select))).contains("selectPage(e,\"\")"));
    let mut params = page(PageAction::Remove);
    params.page_id = Some("home".to_string());
    let js = script(mcp.page(&params));
    assert!(js.contains("removePage(e,\"home\")"));
    assert!(js.contains("__result__.next_steps=\"Page removed.\""));
    let mut params = page(PageAction::UpdateSettings);
    assert!(script(mcp.page(&params)).contains("updatePageSettings(e,null,{})"));
    params.page_id = Some("home".to_string());
    params.settings = JsonText::parse("{ \"title\": \"Home\" }");
    assert!(script(mcp.page(&params)).contains("updatePageSettings(e,\"home\",{\"title\":\"Home\"})"));
}

#[test]
fn component_actions_validate_and_compose() {
    let mcp = opened();
    assert!(script(mcp.component(&component(ComponentAction::GetTree))).contains("getTree(e,2,50)"));
    let mut params = component(ComponentAction::GetTree);
    params.depth = Some(4);
    params.max_components = Some(4294967295);
    assert!(script(mcp.component(&params)).contains("getTree(e,4,4294967295)"));
    assert!(script(mcp.component(&component(ComponentAction::Get))).contains("getComponent(e)"));
    assert_eq!(invalid(mcp.component(&component(ComponentAction::Add))), "html is required");
    let mut params = component(ComponentAction::Add);
    params.html = Some("<p class=\"x\">hi</p>".to_string());
    assert!(script(mcp.component(&params)).contains("addComponent(e,\"<p class=\\\"x\\\">hi</p>\",\"inside\")"));
    params.position = Some("before".to_string());
    assert!(script(mcp.component(&params)).contains(",\"before\")"));
    assert!(script(mcp.component(&component(ComponentAction::Update))).contains("updateComponent(e,null,null)"));
    let mut params = component(ComponentAction::Update);
    params.content = Some("text".to_string());
    params.attributes = JsonText::parse("{\"href\":\"./about\"}");
    assert!(script(mcp.component(&params)).contains("updateComponent(e,\"text\",{\"href\":\"./about\"})"));
    assert_eq!(
        invalid(mcp.component(&component(ComponentAction::Move))),
        "component_id (target) is required for move"
    );
    let mut params = component(ComponentAction::Move);
    params.component_id = Some("c9".to_string());
    params.position = Some("after".to_string());
    assert!(script(mcp.component(&params)).contains("moveComponent(e,\"c9\",\"after\")"));
    assert!(script(mcp.component(&component(ComponentAction::Remove))).contains("removeComponent(e)"));
    assert_eq!(invalid(mcp.component(&component(ComponentAction::Select))), "component_id is required");
    let mut params = component(ComponentAction::Select);
    params.component_id = Some("c1".to_string());
    assert!(script(mcp.component(&params)).contains("selectComponent(e,\"c1\")"));
}

#[test]
fn selector_actions_validate_and_compose() {
    let mcp = opened();
    let list = SelectorParams { action: SelectorAction::List, selector: None, class_name: None };
    assert!(script(mcp.selector(&list)).contains(
        "var c=e.getSelected();if(!c)return{error:'No component selected. Use component(action:select) first.'};return window.__silexMcp.listComponentSelectors(e)"
    ));
    let select = SelectorParams { action: SelectorAction::Select, selector: None, class_name: None };
    assert_eq!(invalid(mcp.selector(&select)), "selector string is required");
    let select = SelectorParams {
        action: SelectorAction::Select,
        selector: Some(".hero__title".to_string()),
        class_name: None,
    };
    assert!(script(mcp.selector(&select)).contains("selectSelector(e,\".hero__title\")"));
    let create = SelectorParams { action: SelectorAction::Create, selector: None, class_name: None };
    assert_eq!(invalid(mcp.selector(&create)), "class_name is required");
    let create = SelectorParams {
        action: SelectorAction::Create,
        selector: None,
        class_name: Some("hero".to_string()),
    };
    assert!(script(mcp.selector(&create)).contains("createSelector(e,\"hero\")"));
    let delete = SelectorParams { action: SelectorAction::Delete, selector: None, class_name: None };
    assert_eq!(invalid(mcp.selector(&delete)), "class_name is required");
    let delete = SelectorParams {
        action: SelectorAction::Delete,
        selector: None,
        class_name: Some("hero".to_string()),
    };
    let js = script(mcp.selector(&delete));
    assert!(js.contains("deleteSelector(e,\"hero\")"));
    assert!(js.contains("\"Class and associated styles removed.\""));
}

#[test]
fn style_set_needs_properties_or_css() {
    let params = StyleParams { action: StyleAction::Assign, properties: None, css: None, property: None };
    let mut mcp = closed();
    assert_eq!(invalid(mcp.style(&params)), "Either 'properties' or 'css' is required");
    mcp = opened();
    assert_eq!(invalid(mcp.style(&params)), "Either 'properties' or 'css' is required");
    assert_eq!(mcp.registry.issued(), 0);
    assert_eq!(mcp.registry.pending_count(), 0);
}

#[test]
fn style_actions_compose() {
    let mcp = opened();
    let get = StyleParams { action: StyleAction::Get, properties: None, css: None, property: None };
    assert!(script(mcp.style(&get)).contains("getStyle(e)"));
    let css = StyleParams {
        action: StyleAction::Assign,
        properties: None,
        css: Some("content: \"x\";".to_string()),
        property: None,
    };
    assert!(script(mcp.style(&css))
        .contains("setStyle(e,window.__silexMcp.parseCssString(\"content: \\\"x\\\";\"))"));
    let both = StyleParams {
        action: StyleAction::Assign,
        properties: JsonText::parse("{\"color\":\"red\"}"),
        css: Some("ignored".to_string()),
        property: None,
    };
    assert!(script(mcp.style(&both)).contains("setStyle(e,{\"color\":\"red\"})"));
    let delete = StyleParams { action: StyleAction::Delete, properties: None, css: None, property: None };
    assert_eq!(invalid(mcp.style(&delete)), "property is required");
    let delete = StyleParams {
        action: StyleAction::Delete,
        properties: None,
        css: None,
        property: Some("color".to_string()),
    };
    assert!(script(mcp.style(&delete)).contains("deleteStyleProperty(e,\"color\")"));
}

#[test]
fn symbol_actions_validate_and_compose() {
    let mcp = opened();
    let list = SymbolParams { action: SymbolAction::List, label: None, icon: None, position: None };
    assert!(script(mcp.symbol(&list)).contains("{ return{symbols:window.__silexMcp.findAllSymbols(e)} }"));
    let create = SymbolParams { action: SymbolAction::Create, label: None, icon: None, position: None };
    assert_eq!(invalid(mcp.symbol(&create)), "label is required");
    let create = SymbolParams {
        action: SymbolAction::Create,
        label: Some("Header".to_string()),
        icon: None,
        position: None,
    };
    assert!(script(mcp.symbol(&create)).contains("createSymbol(e,\"Header\",\"fa fa-diamond\")"));
    let place = SymbolParams {
        action: SymbolAction::Place,
        label: Some("Header".to_string()),
        icon: None,
        position: None,
    };
    assert!(script(mcp.symbol(&place)).contains("placeSymbol(e,\"Header\",\"inside\")"));
    let place = SymbolParams { action: SymbolAction::Place, label: None, icon: None, position: None };
    assert_eq!(invalid(mcp.symbol(&place)), "label is required");
    let delete = SymbolParams {
        action: SymbolAction::Delete,
        label: Some("Header".to_string()),
        icon: None,
        position: None,
    };
    assert!(script(mcp.symbol(&delete)).contains("deleteSymbol(e,\"Header\")"));
    let delete = SymbolParams { action: SymbolAction::Delete, label: None, icon: None, position: None };
    assert_eq!(invalid(mcp.symbol(&delete)), "label is required");
}

#[test]
fn device_and_settings_compose() {
    let mcp = opened();
    let list = DeviceParams { action: DeviceAction::List, name: None };
    assert!(script(mcp.device(&list)).contains("listDevices(e)"));
    let set = DeviceParams { action: DeviceAction::Assign, name: None };
    assert_eq!(invalid(mcp.device(&set)), "name is required");
    let set = DeviceParams { action: DeviceAction::Assign, name: Some("Tablet".to_string()) };
    assert!(script(mcp.device(&set)).contains("setDevice(e,\"Tablet\")"));
    let get = SettingsParams { action: SettingsAction::Get, settings: None };
    assert!(script(mcp.site_settings(&get)).contains("getSiteSettings(e)"));
    let set = SettingsParams { action: SettingsAction::Assign, settings: None };
    assert!(script(mcp.site_settings(&set)).contains("setSiteSettings(e,{})"));
    let set = SettingsParams {
        action: SettingsAction::Assign,
        settings: JsonText::parse("{\"lang\": \"fr\"}"),
    };
    assert!(script(mcp.site_settings(&set)).contains("setSiteSettings(e,{\"lang\":\"fr\"})"));
}

#[test]
fn html_css_picks_the_script() {
    let mcp = opened();
    let full = script(mcp.get_html_css(&GetHtmlCssParams { summary: None }));
    assert_eq!(
        full,
        "(function(){var e=window.silex.getEditor();return JSON.stringify({html:e.getHtml(),css:e.getCss()})})()"
    );
    assert_eq!(script(mcp.get_html_css(&GetHtmlCssParams { summary: Some(false) })), full);
    let outline = script(mcp.get_html_css(&GetHtmlCssParams { summary: Some(true) }));
    assert!(outline.contains("function walk(c,d)"));
    assert!(outline.contains("(cls?' class=\"'+cls+'\"':'')"));
    assert!(outline.ends_with("return walk(w,0).join('\\n')})()"));
}

#[test]
fn cms_requires_its_fields_in_order() {
    let mcp = opened();
    assert_eq!(invalid(mcp.cms(&cms(CmsAction::BindContent))), "component_id is required");
    let mut params = cms(CmsAction::BindContent);
    params.component_id = Some("c1".to_string());
    assert_eq!(invalid(mcp.cms(&params)), "expression is required");
    let mut params = cms(CmsAction::ExposeData);
    params.component_id = Some("c1".to_string());
    params.expression = Some("a.b".to_string());
    assert_eq!(invalid(mcp.cms(&params)), "id is required for expose_data");
    let mut params = cms(CmsAction::SetAttribute);
    assert_eq!(invalid(mcp.cms(&params)), "component_id is required");
    params.component_id = Some("c1".to_string());
    assert_eq!(invalid(mcp.cms(&params)), "name is required");
    assert_eq!(invalid(mcp.cms(&cms(CmsAction::SetStates))), "component_id is required");
    assert_eq!(invalid(mcp.cms(&cms(CmsAction::SetLoop))), "component_id is required");
    assert_eq!(invalid(mcp.cms(&cms(CmsAction::SetCondition))), "component_id is required");
}

#[test]
fn cms_binding_script_is_exact() {
    let mcp = opened();
    let mut params = cms(CmsAction::BindContent);
    params.component_id = Some("c\"1".to_string());
    params.expression = Some("wordpress.posts.title".to_string());
    assert_eq!(
        script(mcp.cms(&params)),
        "(function(){var e=window.silex.getEditor();var c=window.__silexMcp.findComponent(e,\"c\\\"1\");if(!c)return JSON.stringify({error:'Component not found'});var tokens=window.__silexMcp.resolveExpression(e,\"wordpress.posts.title\");if(tokens.error)return JSON.stringify(tokens);window.__silexMcp.setState(c,\"innerHTML\",{expression:tokens},false);return JSON.stringify({success:true,state_id:\"innerHTML\",tokens_count:tokens.length})})()"
    );
    assert_eq!(
        SilexMcp::build_cms_js("\"c\"", "\"e\"", "condition", Some("\"==\"")),
        "(function(){var e=window.silex.getEditor();var c=window.__silexMcp.findComponent(e,\"c\");if(!c)return JSON.stringify({error:'Component not found'});var tokens=window.__silexMcp.resolveExpression(e,\"e\");if(tokens.error)return JSON.stringify(tokens);window.__silexMcp.setState(c,\"condition\",{expression:tokens},false);c.set('conditionOperator',\"==\");return JSON.stringify({success:true,state_id:\"condition\",tokens_count:tokens.length})})()"
    );
}

#[test]
fn cms_actions_compose() {
    let mcp = opened();
    let mut params = cms(CmsAction::SetCondition);
    params.component_id = Some("c1".to_string());
    params.expression = Some("a.b".to_string());
    let js = script(mcp.cms(&params));
    assert!(js.contains("setState(c,\"condition\",{expression:tokens},false);c.set('conditionOperator',\"truthy\");return"));
    params.operator = Some("!=".to_string());
    assert!(script(mcp.cms(&params)).contains("c.set('conditionOperator',\"!=\");"));
    let mut params = cms(CmsAction::SetLoop);
    params.component_id = Some("c1".to_string());
    params.expression = Some("a.b".to_string());
    let js = script(mcp.cms(&params));
    assert!(js.contains("setState(c,\"__data\",{expression:tokens},false);return JSON.stringify"));
    let mut params = cms(CmsAction::ExposeData);
    params.component_id = Some("c1".to_string());
    params.expression = Some("a.b".to_string());
    params.id = Some("posts".to_string());
    let js = script(mcp.cms(&params));
    assert!(js.contains("setState(c,\"posts\",{label:\"posts\",hidden:false,expression:tokens},true);return JSON.stringify({success:true,state_id:\"posts\"})})()"));
    params.label = Some("All posts".to_string());
    assert!(script(mcp.cms(&params)).contains("{label:\"All posts\",hidden:false"));
    let mut params = cms(CmsAction::SetAttribute);
    params.component_id = Some("c1".to_string());
    params.name = Some("data-x".to_string());
    let js = script(mcp.cms(&params));
    assert!(js.contains("+'-attr-'+\"data-x\".replace(/[^a-zA-Z0-9]/g,'_');"));
    assert!(js.contains("options:{value:\"\"}}]},false);return JSON.stringify({success:true,attribute:\"data-x\",value:\"\"})})()"));
    params.value = Some("v".to_string());
    assert!(script(mcp.cms(&params)).contains("options:{value:\"v\"}"));
    let mut params = cms(CmsAction::SetStates);
    params.component_id = Some("c1".to_string());
    assert!(script(mcp.cms(&params)).contains("var pubs=null;var privs=null;"));
    params.public_states = JsonText::parse("[{\"id\":\"s\"}]");
    assert!(script(mcp.cms(&params)).contains("var pubs=[{\"id\":\"s\"}];var privs=null;"));
    assert!(script(mcp.cms(&cms(CmsAction::ListSources))).starts_with("(function(){var dsApi=window.__silexMcp.getDataSourceApi();"));
    assert_eq!(
        script(mcp.cms(&cms(CmsAction::RefreshPreview))),
        "(function(){var e=window.silex.getEditor();e.runCommand('data-source:preview:refresh');return JSON.stringify({success:true})})()"
    );
}
