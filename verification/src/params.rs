//! The parameters of each tool: a closed set of actions, and the fields
//! that the actions read.

use crate::json::JsonText;
use vstd::prelude::*;

verus! {

pub enum WebsiteAction {
    List,
    Create,
    Delete,
    Rename,
    Duplicate,
    Open,
    Dashboard,
}

pub enum PageAction {
    List,
    Add,
    Select,
    Remove,
    UpdateSettings,
}

pub enum ComponentAction {
    GetTree,
    Get,
    Add,
    Update,
    Move,
    Remove,
    Select,
}

pub enum SelectorAction {
    List,
    Select,
    Create,
    Delete,
}

pub enum StyleAction {
    Get,
    /// Sets properties.
    Assign,
    Delete,
}

pub enum SymbolAction {
    List,
    Create,
    Place,
    Delete,
}

pub enum DeviceAction {
    List,
    /// Sets the device.
    Assign,
}

pub enum SettingsAction {
    Get,
    /// Sets the settings.
    Assign,
}

pub enum CmsAction {
    ListSources,
    BindContent,
    SetCondition,
    SetLoop,
    ExposeData,
    SetAttribute,
    SetStates,
    RefreshPreview,
}

pub enum EditorAction {
    Save,
    Undo,
    Redo,
}

pub struct WebsiteParams {
    /// The action to perform.
    pub action: WebsiteAction,
    /// Website ID (required for delete, rename, duplicate, open).
    pub website_id: Option<String>,
    /// Website name (required for rename, used by create).
    pub name: Option<String>,
}

pub struct PageParams {
    /// The action to perform.
    pub action: PageAction,
    /// Page ID or name (for select, remove, update_settings).
    pub page_id: Option<String>,
    /// Page display name (for add).
    pub name: Option<String>,
    /// Page slug (for add); the name where omitted.
    pub slug: Option<String>,
    /// Page-level settings object (for update_settings).
    pub settings: Option<JsonText>,
}

pub struct ComponentParams {
    /// The action to perform.
    pub action: ComponentAction,
    /// Component ID (required for select, and the target of move).
    pub component_id: Option<String>,
    /// HTML to add as components (for add).
    pub html: Option<String>,
    /// New text content (for update).
    pub content: Option<String>,
    /// HTML attributes as an object (for update).
    pub attributes: Option<JsonText>,
    /// "before", "after" or "inside" (the default), relative to the
    /// selected component (for add) or to the target (for move).
    pub position: Option<String>,
    /// Tree depth limit (for get_tree, default 2).
    pub depth: Option<u32>,
    /// Most components to return (for get_tree, default 50).
    pub max_components: Option<u32>,
}

pub struct SelectorParams {
    /// The action to perform.
    pub action: SelectorAction,
    /// CSS selector (for select), such as ".hero__title".
    pub selector: Option<String>,
    /// CSS class name without the dot (for create and delete).
    pub class_name: Option<String>,
}

pub struct StyleParams {
    /// The action to perform, on the active selector.
    pub action: StyleAction,
    /// CSS properties as an object (for set).
    pub properties: Option<JsonText>,
    /// CSS text such as "font-size: 2rem; color: #333;" (for set).
    pub css: Option<String>,
    /// Name of the CSS property to remove (for delete).
    pub property: Option<String>,
}

pub struct SymbolParams {
    /// The action to perform.
    pub action: SymbolAction,
    /// Symbol label (for create, place, delete).
    pub label: Option<String>,
    /// Icon class (for create), such as "fa fa-diamond".
    pub icon: Option<String>,
    /// "before", "after" or "inside" (the default), relative to the
    /// selected component (for place).
    pub position: Option<String>,
}

pub struct DeviceParams {
    /// The action to perform.
    pub action: DeviceAction,
    /// Device name: "Desktop", "Tablet" or "Mobile" (for set).
    pub name: Option<String>,
}

pub struct SettingsParams {
    /// The action to perform.
    pub action: SettingsAction,
    /// Settings object (for set).
    pub settings: Option<JsonText>,
}

pub struct CmsParams {
    /// The action to perform.
    pub action: CmsAction,
    /// Component ID (required for every action that binds or sets).
    pub component_id: Option<String>,
    /// Data path in dot notation, such as "wordpress.posts.title".
    pub expression: Option<String>,
    /// Condition operator: "truthy", "==", "!=" and so on (for set_condition).
    pub operator: Option<String>,
    /// Attribute name (for set_attribute).
    pub name: Option<String>,
    /// Attribute value (for set_attribute).
    pub value: Option<String>,
    /// State ID (for expose_data).
    pub id: Option<String>,
    /// Display label (for expose_data).
    pub label: Option<String>,
    /// All public states, as an array (for set_states).
    pub public_states: Option<JsonText>,
    /// All private states, as an array (for set_states).
    pub private_states: Option<JsonText>,
}

pub struct EditorParams {
    /// The action to perform.
    pub action: EditorAction,
}

pub struct EvalParams {
    /// The script to run in the webview.
    pub js: String,
    /// Where to save the result, if anywhere.
    pub output_file: Option<String>,
}

pub struct ScreenshotParams {
    /// What to capture: "ui" for the whole editor (the default), "canvas"
    /// for the website preview alone.
    pub target: Option<String>,
    /// Where to save the picture.
    pub output_file: Option<String>,
}

pub struct GetHtmlCssParams {
    /// Whether to return a structural summary in place of the full HTML.
    pub summary: Option<bool>,
}

pub struct ReportLimitationParams {
    /// The capability that is missing.
    pub description: String,
    /// What the caller was trying to do.
    pub context: Option<String>,
    /// A workaround, if one was found.
    pub workaround: Option<String>,
}

} // verus!
