//! Shared models: the authentication state and the description of a
//! plugin's settings panel.
use vstd::prelude::*;
use crate::text::{chars_of, string_of};

verus! {

/// Where authentication with a streaming service stands.
#[derive(Debug, Clone)]
pub enum AuthState {
    Unauthenticated,
    /// An authorization code arrived and awaits exchange.
    Authenticating { provider: String, code: String },
    /// Tokens are known.
    Authenticated { provider: String, access_token: String, refresh_token: String },
}

/// The kind of input a setting takes.
#[derive(Debug, Clone)]
pub enum SettingFieldType {
    Text,
    Password,
    Number,
    Boolean,
    Select { options: Vec<String> },
    /// A button that triggers the named plugin action.
    Action { button_label: String, action_name: String },
}

/// Where a plugin's settings appear.
#[derive(Debug, Clone, Copy, PartialEq, Eq, Structural)]
pub enum PluginCategory {
    Auth,
    Overlay,
    Output,
    Storage,
    General,
}

/// The default value of a setting.
#[derive(Debug, Clone)]
pub enum SettingValue {
    Null,
    Bool(bool),
    Int(i64),
    /// `units` divided by ten to the power `scale`.
    Decimal { units: i64, scale: u32 },
    Text(String),
}

/// One setting of a plugin.
#[derive(Debug, Clone)]
pub struct SettingField {
    pub key: String,
    pub label: String,
    pub description: Option<String>,
    pub field_type: SettingFieldType,
    pub default_value: SettingValue,
}

/// A plugin's settings panel.
#[derive(Debug, Clone)]
pub struct PluginSettingsDefinition {
    pub category: PluginCategory,
    pub fields: Vec<SettingField>,
}

/// A plugin as the settings window lists it.
#[derive(Debug, Clone)]
pub struct PluginMetadata {
    pub id: String,
    pub name: String,
    pub category: Option<PluginCategory>,
    pub fields: Vec<SettingField>,
}

/// The kind of input a setting takes, as plain data.
pub enum KindV {
    Text,
    Password,
    Number,
    Boolean,
    Select(Seq<Seq<char>>),
    Action { button: Seq<char>, action: Seq<char> },
}

/// A default value, read as plain data.
pub enum DefaultView {
    Null,
    Bool(bool),
    Int(int),
    Decimal(int, nat),
    Text(Seq<char>),
}

/// A setting, read as plain data.
pub struct FieldV {
    pub key: Seq<char>,
    pub label: Seq<char>,
    pub description: Option<Seq<char>>,
    pub kind: KindV,
    pub default: DefaultView,
}

/// The view of an optional text.
pub open spec fn opt_view(o: Option<String>) -> Option<Seq<char>> {
    match o {
        Some(s) => Some(s@),
        None => None,
    }
}

/// The view of an optional literal.
pub open spec fn opt_str_view(o: Option<&str>) -> Option<Seq<char>> {
    match o {
        Some(s) => Some(s@),
        None => None,
    }
}

/// The view of the kind of a setting.
pub open spec fn kind_view(t: SettingFieldType) -> KindV {
    match t {
        SettingFieldType::Text => KindV::Text,
        SettingFieldType::Password => KindV::Password,
        SettingFieldType::Number => KindV::Number,
        SettingFieldType::Boolean => KindV::Boolean,
        SettingFieldType::Select { options } => KindV::Select(
            options@.map_values(|o: String| o@),
        ),
        SettingFieldType::Action { button_label, action_name } => KindV::Action {
            button: button_label@,
            action: action_name@,
        },
    }
}

/// The view of a default value.
pub open spec fn default_view(v: SettingValue) -> DefaultView {
    match v {
        SettingValue::Null => DefaultView::Null,
        SettingValue::Bool(b) => DefaultView::Bool(b),
        SettingValue::Int(i) => DefaultView::Int(i as int),
        SettingValue::Decimal { units, scale } => DefaultView::Decimal(units as int, scale as nat),
        SettingValue::Text(t) => DefaultView::Text(t@),
    }
}

/// The view of a setting.
pub open spec fn field_view(f: SettingField) -> FieldV {
    FieldV {
        key: f.key@,
        label: f.label@,
        description: opt_view(f.description),
        kind: kind_view(f.field_type),
        default: default_view(f.default_value),
    }
}

/// The views of a list of settings, in order.
pub open spec fn fields_view(fields: Seq<SettingField>) -> Seq<FieldV> {
    fields.map_values(|f: SettingField| field_view(f))
}

/// A setting with a plain input, as data.
pub open spec fn plain_v(
    key: Seq<char>,
    label: Seq<char>,
    description: Option<Seq<char>>,
    kind: KindV,
    default: DefaultView,
) -> FieldV {
    FieldV { key, label, description, kind, default }
}

/// A button that triggers `action`, as data: its default is null.
pub open spec fn action_v(
    key: Seq<char>,
    label: Seq<char>,
    description: Option<Seq<char>>,
    button: Seq<char>,
    action: Seq<char>,
) -> FieldV {
    FieldV { key, label, description, kind: KindV::Action { button, action }, default: DefaultView::Null }
}

/// The names of the actions that the buttons among `fields` trigger, in
/// order.
pub open spec fn offered_actions(fields: Seq<FieldV>) -> Seq<Seq<char>>
    decreases fields.len(),
{
    if fields.len() == 0 {
        Seq::empty()
    } else {
        let rest = offered_actions(fields.drop_last());
        match fields.last().kind {
            KindV::Action { action, .. } => rest.push(action),
            _ => rest,
        }
    }
}

/// A string from a literal.
pub fn text(s: &str) -> (r: String)
    ensures
        r@ == s@,
{
    string_of(&chars_of(s))
}

/// A setting with a plain input.
pub fn plain_field(
    key: &str,
    label: &str,
    description: Option<&str>,
    field_type: SettingFieldType,
    default_value: SettingValue,
) -> (f: SettingField)
    ensures
        field_view(f) == plain_v(
            key@,
            label@,
            opt_str_view(description),
            kind_view(field_type),
            default_view(default_value),
        ),
{
    SettingField {
        key: text(key),
        label: text(label),
        description: match description {
            Some(d) => Some(text(d)),
            None => None,
        },
        field_type,
        default_value,
    }
}

/// A button that triggers `action`.
pub fn action_field(key: &str, label: &str, description: Option<&str>, button: &str, action: &str) -> (f:
    SettingField)
    ensures
        field_view(f) == action_v(key@, label@, opt_str_view(description), button@, action@),
{
    plain_field(
        key,
        label,
        description,
        SettingFieldType::Action { button_label: text(button), action_name: text(action) },
        SettingValue::Null,
    )
}

/// A text default.
pub fn text_default(s: &str) -> (v: SettingValue)
    ensures
        v matches SettingValue::Text(t) && t@ == s@,
{
    SettingValue::Text(text(s))
}

/// The entry for a plugin in the plugin list: its id and name, and the
/// category and settings of its panel (none when it has no panel).
pub fn plugin_metadata(id: &str, name: &str, def: Option<PluginSettingsDefinition>) -> (m:
    PluginMetadata)
    ensures
        m.id@ == id@,
        m.name@ == name@,
        match def {
            Some(d) => m.category == Some(d.category) && m.fields == d.fields,
            None => m.category is None && m.fields@.len() == 0,
        },
{
    match def {
        Some(d) => PluginMetadata {
            id: text(id),
            name: text(name),
            category: Some(d.category),
            fields: d.fields,
        },
        None => PluginMetadata {
            id: text(id),
            name: text(name),
            category: None,
            fields: Vec::new(),
        },
    }
}

} // verus!
