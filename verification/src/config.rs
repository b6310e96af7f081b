//! The launcher's configuration: one wallpaper, an optional theme text
//! colour, a shutdown command, and an ordered list of launchable apps.
//!
//! A configuration document is a TOML table. Its fields are projected onto
//! plain values (present and textual, present with some other type, or
//! absent), and assembling a `Config` from them is exact: it succeeds if
//! and only if every required field is textual, the optional text colour
//! is absent or textual, and `apps` is a list of tables whose entries each
//! carry the three app fields; otherwise the first fault in field order is
//! reported. The same statement is carried up to whole documents through
//! the named projections of [`crate::toml_doc`].

use crate::toml_doc::entries_of;
use crate::toml_doc::entry_of;
use crate::toml_doc::items_of;
use crate::toml_doc::table_entry;
use crate::toml_doc::text_of;
use crate::toml_doc::value_entries;
use crate::toml_doc::value_items;
use crate::toml_doc::value_text;
use vstd::prelude::*;

verus! {

/// One launchable app as configured: its icon path, its accent colour
/// string, and its launch command.
pub struct AppEntry {
    pub icon: String,
    pub preferred_color: String,
    pub command: String,
}

/// The whole configuration record.
pub struct Config {
    pub wallpaper: String,
    pub text_color: Option<String>,
    pub shutdown_command: String,
    pub apps: Vec<AppEntry>,
}

/// The mathematical value of an `AppEntry`.
pub struct AppEntryModel {
    pub icon: Seq<char>,
    pub preferred_color: Seq<char>,
    pub command: Seq<char>,
}

/// The mathematical value of a `Config`.
pub struct ConfigModel {
    pub wallpaper: Seq<char>,
    pub text_color: Option<Seq<char>>,
    pub shutdown_command: Seq<char>,
    pub apps: Seq<AppEntryModel>,
}

impl View for AppEntry {
    type V = AppEntryModel;

    open spec fn view(&self) -> AppEntryModel {
        AppEntryModel {
            icon: self.icon@,
            preferred_color: self.preferred_color@,
            command: self.command@,
        }
    }
}

impl View for Config {
    type V = ConfigModel;

    open spec fn view(&self) -> ConfigModel {
        ConfigModel {
            wallpaper: self.wallpaper@,
            text_color: match self.text_color {
                Option::None => Option::None,
                Option::Some(s) => Option::Some(s@),
            },
            shutdown_command: self.shutdown_command@,
            apps: self.apps@.map_values(|a: AppEntry| a@),
        }
    }
}

/// What a table holds under a key: nothing, a value of some non-string
/// type, or a string.
pub enum TomlField {
    Absent,
    NotText,
    Text(String),
}

/// The mathematical value of a `TomlField`.
pub enum FieldModel {
    Absent,
    NotText,
    Text(Seq<char>),
}

impl View for TomlField {
    type V = FieldModel;

    open spec fn view(&self) -> FieldModel {
        match self {
            TomlField::Absent => FieldModel::Absent,
            TomlField::NotText => FieldModel::NotText,
            TomlField::Text(s) => FieldModel::Text(s@),
        }
    }
}

/// The three fields of one element of the `apps` list.
pub struct AppFieldStates {
    pub icon: TomlField,
    pub preferred_color: TomlField,
    pub command: TomlField,
}

/// The mathematical value of an `AppFieldStates`.
pub struct AppFieldsModel {
    pub icon: FieldModel,
    pub preferred_color: FieldModel,
    pub command: FieldModel,
}

impl View for AppFieldStates {
    type V = AppFieldsModel;

    open spec fn view(&self) -> AppFieldsModel {
        AppFieldsModel {
            icon: self.icon@,
            preferred_color: self.preferred_color@,
            command: self.command@,
        }
    }
}

/// One element of the `apps` list: either not a table at all, or its
/// projected fields.
pub enum AppItemState {
    NotTable,
    Fields(AppFieldStates),
}

/// The mathematical value of an `AppItemState`.
pub enum AppItemModel {
    NotTable,
    Fields(AppFieldsModel),
}

impl View for AppItemState {
    type V = AppItemModel;

    open spec fn view(&self) -> AppItemModel {
        match self {
            AppItemState::NotTable => AppItemModel::NotTable,
            AppItemState::Fields(f) => AppItemModel::Fields(f@),
        }
    }
}

/// The `apps` key of the document: absent, present but not a list, or the
/// projected elements in order.
pub enum AppsState {
    Absent,
    NotList,
    Items(Vec<AppItemState>),
}

/// The mathematical value of an `AppsState`.
pub enum AppsModel {
    Absent,
    NotList,
    Items(Seq<AppItemModel>),
}

impl View for AppsState {
    type V = AppsModel;

    open spec fn view(&self) -> AppsModel {
        match self {
            AppsState::Absent => AppsModel::Absent,
            AppsState::NotList => AppsModel::NotList,
            AppsState::Items(items) => AppsModel::Items(
                items@.map_values(|it: AppItemState| it@),
            ),
        }
    }
}

/// Why a configuration document was rejected.
pub enum ConfigError {
    /// The text was not a TOML document; the parser's message is kept.
    Syntax { message: String },
    /// A top-level field is missing or has the wrong type.
    Field { name: String },
    /// An element of `apps` is not a table.
    App { index: usize },
    /// An element of `apps` is missing a field or holds the wrong type.
    AppField { index: usize, name: String },
}

/// Whether one `apps` element carries all three fields as text.
pub open spec fn item_ok(it: AppItemModel) -> bool {
    match it {
        AppItemModel::NotTable => false,
        AppItemModel::Fields(f) => f.icon is Text && f.preferred_color is Text
            && f.command is Text,
    }
}

/// Whether the projected fields assemble into a configuration.
pub open spec fn assembly_ok(
    wallpaper: FieldModel,
    text_color: FieldModel,
    shutdown_command: FieldModel,
    apps: AppsModel,
) -> bool {
    &&& wallpaper is Text
    &&& !(text_color is NotText)
    &&& shutdown_command is Text
    &&& apps matches AppsModel::Items(items) && (forall|i: int|
        0 <= i < items.len() ==> item_ok(#[trigger] items[i]))
}

/// The text of a field known to be textual.
pub open spec fn field_text(f: FieldModel) -> Seq<char> {
    match f {
        FieldModel::Text(s) => s,
        _ => Seq::empty(),
    }
}

/// The model of one assembled `apps` element.
pub open spec fn item_model(it: AppItemModel) -> AppEntryModel {
    match it {
        AppItemModel::Fields(f) => AppEntryModel {
            icon: field_text(f.icon),
            preferred_color: field_text(f.preferred_color),
            command: field_text(f.command),
        },
        AppItemModel::NotTable => AppEntryModel {
            icon: Seq::empty(),
            preferred_color: Seq::empty(),
            command: Seq::empty(),
        },
    }
}

/// The configuration that a successful assembly yields.
pub open spec fn assembled_model(
    wallpaper: FieldModel,
    text_color: FieldModel,
    shutdown_command: FieldModel,
    apps: AppsModel,
) -> ConfigModel {
    ConfigModel {
        wallpaper: field_text(wallpaper),
        text_color: match text_color {
            FieldModel::Text(s) => Option::Some(s),
            _ => Option::None,
        },
        shutdown_command: field_text(shutdown_command),
        apps: match apps {
            AppsModel::Items(items) => items.map_values(|it: AppItemModel| item_model(it)),
            _ => Seq::empty(),
        },
    }
}

/// The index of the first faulty `apps` element.
pub open spec fn first_bad_item(items: Seq<AppItemModel>) -> int
    decreases items.len(),
{
    if items.len() == 0 {
        0
    } else if !item_ok(items[0]) {
        0
    } else {
        1 + first_bad_item(items.drop_first())
    }
}

proof fn lemma_first_bad_item(items: Seq<AppItemModel>, i: int)
    requires
        0 <= i < items.len(),
        forall|j: int| 0 <= j < i ==> item_ok(#[trigger] items[j]),
        !item_ok(items[i]),
    ensures
        first_bad_item(items) == i,
    decreases i,
{
    if i > 0 {
        assert(forall|j: int|
            0 <= j < i - 1 ==> item_ok(#[trigger] items.drop_first()[j]) == item_ok(
                items[j + 1],
            ));
        lemma_first_bad_item(items.drop_first(), i - 1);
    }
}

/// Whether a rejection blames the first fault, in field order: wallpaper,
/// text colour, shutdown command, then the `apps` list and its elements,
/// each in the order icon, preferred colour, command.
pub open spec fn fault_named(
    e: ConfigError,
    wallpaper: FieldModel,
    text_color: FieldModel,
    shutdown_command: FieldModel,
    apps: AppsModel,
) -> bool {
    if !(wallpaper is Text) {
        e matches ConfigError::Field { name } && name@ == "wallpaper"@
    } else if text_color is NotText {
        e matches ConfigError::Field { name } && name@ == "text_color"@
    } else if !(shutdown_command is Text) {
        e matches ConfigError::Field { name } && name@ == "shutdown_command"@
    } else {
        match apps {
            AppsModel::Items(items) => {
                let k = first_bad_item(items);
                match items[k] {
                    AppItemModel::NotTable => e matches ConfigError::App { index } && index == k,
                    AppItemModel::Fields(f) => e matches ConfigError::AppField { index, name }
                        && index == k && (if !(f.icon is Text) {
                        name@ == "icon"@
                    } else if !(f.preferred_color is Text) {
                        name@ == "preferred_color"@
                    } else {
                        name@ == "command"@
                    }),
                }
            },
            _ => e matches ConfigError::Field { name } && name@ == "apps"@,
        }
    }
}

/// Assemble a configuration from the projected fields of the document, or
/// report the first fault in field order.
#[verifier::loop_isolation(false)]
pub fn config_from_fields(
    wallpaper: TomlField,
    text_color: TomlField,
    shutdown_command: TomlField,
    apps: AppsState,
) -> (r: Result<Config, ConfigError>)
    ensures
        (r is Ok) <==> assembly_ok(wallpaper@, text_color@, shutdown_command@, apps@),
        r matches Ok(c) ==> c@ == assembled_model(
            wallpaper@,
            text_color@,
            shutdown_command@,
            apps@,
        ),
        r matches Err(e) ==> fault_named(e, wallpaper@, text_color@, shutdown_command@, apps@),
{
    let wallpaper_text = match wallpaper {
        TomlField::Text(s) => s,
        _ => {
            return Err(ConfigError::Field { name: String::from_str("wallpaper") });
        },
    };
    let text_color_value = match text_color {
        TomlField::Absent => None,
        TomlField::Text(s) => Some(s),
        TomlField::NotText => {
            return Err(ConfigError::Field { name: String::from_str("text_color") });
        },
    };
    let shutdown_text = match shutdown_command {
        TomlField::Text(s) => s,
        _ => {
            return Err(ConfigError::Field { name: String::from_str("shutdown_command") });
        },
    };
    let items = match apps {
        AppsState::Items(items) => items,
        _ => {
            return Err(ConfigError::Field { name: String::from_str("apps") });
        },
    };
    let ghost models = items@.map_values(|it: AppItemState| it@);
    let mut entries: Vec<AppEntry> = Vec::new();
    let mut i: usize = 0;
    while i < items.len()
        invariant
            0 <= i <= items@.len(),
            entries@.len() == i,
            forall|j: int| 0 <= j < i ==> item_ok(#[trigger] models[j]),
            forall|j: int| 0 <= j < i ==> entries@[j]@ == item_model(#[trigger] models[j]),
        decreases items@.len() - i,
    {
        proof {
            assert(models[i as int] == items@[i as int]@);
        }
        match &items[i] {
            AppItemState::NotTable => {
                proof {
                    lemma_first_bad_item(models, i as int);
                }
                return Err(ConfigError::App { index: i });
            },
            AppItemState::Fields(f) => {
                let icon = match &f.icon {
                    TomlField::Text(s) => s.clone(),
                    _ => {
                        proof {
                            lemma_first_bad_item(models, i as int);
                        }
                        return Err(
                            ConfigError::AppField { index: i, name: String::from_str("icon") },
                        );
                    },
                };
                let preferred_color = match &f.preferred_color {
                    TomlField::Text(s) => s.clone(),
                    _ => {
                        proof {
                            lemma_first_bad_item(models, i as int);
                        }
                        return Err(
                            ConfigError::AppField {
                                index: i,
                                name: String::from_str("preferred_color"),
                            },
                        );
                    },
                };
                let command = match &f.command {
                    TomlField::Text(s) => s.clone(),
                    _ => {
                        proof {
                            lemma_first_bad_item(models, i as int);
                        }
                        return Err(
                            ConfigError::AppField { index: i, name: String::from_str("command") },
                        );
                    },
                };
                entries.push(AppEntry { icon, preferred_color, command });
            },
        }
        i += 1;
    }
    let built = Config {
        wallpaper: wallpaper_text,
        text_color: text_color_value,
        shutdown_command: shutdown_text,
        apps: entries,
    };
    proof {
        assert(built@.apps =~= models.map_values(|it: AppItemModel| item_model(it)));
    }
    Ok(built)
}

/// What a document holds under a key, as a plain field state.
pub open spec fn field_of(t: toml::map::Map<String, toml::Value>, key: Seq<char>) -> FieldModel {
    match entry_of(t, key) {
        Option::None => FieldModel::Absent,
        Option::Some(v) => match text_of(v) {
            Option::None => FieldModel::NotText,
            Option::Some(s) => FieldModel::Text(s),
        },
    }
}

/// What one element of the document's `apps` array projects to.
pub open spec fn app_item_of(v: toml::Value) -> AppItemModel {
    match entries_of(v) {
        Option::None => AppItemModel::NotTable,
        Option::Some(t) => AppItemModel::Fields(
            AppFieldsModel {
                icon: field_of(t, "icon"@),
                preferred_color: field_of(t, "preferred_color"@),
                command: field_of(t, "command"@),
            },
        ),
    }
}

/// What the document's `apps` key projects to.
pub open spec fn apps_of(t: toml::map::Map<String, toml::Value>) -> AppsModel {
    match entry_of(t, "apps"@) {
        Option::None => AppsModel::Absent,
        Option::Some(v) => match items_of(v) {
            Option::None => AppsModel::NotList,
            Option::Some(list) => AppsModel::Items(
                list.map_values(|x: toml::Value| app_item_of(x)),
            ),
        },
    }
}

/// Whether the document assembles into a configuration.
pub open spec fn doc_assembly_ok(t: toml::map::Map<String, toml::Value>) -> bool {
    assembly_ok(
        field_of(t, "wallpaper"@),
        field_of(t, "text_color"@),
        field_of(t, "shutdown_command"@),
        apps_of(t),
    )
}

/// The configuration a document assembles into.
pub open spec fn doc_model(t: toml::map::Map<String, toml::Value>) -> ConfigModel {
    assembled_model(
        field_of(t, "wallpaper"@),
        field_of(t, "text_color"@),
        field_of(t, "shutdown_command"@),
        apps_of(t),
    )
}

/// Whether a rejection blames the document's first fault in field order.
pub open spec fn doc_fault_named(e: ConfigError, t: toml::map::Map<String, toml::Value>) -> bool {
    fault_named(
        e,
        field_of(t, "wallpaper"@),
        field_of(t, "text_color"@),
        field_of(t, "shutdown_command"@),
        apps_of(t),
    )
}

/// Project what `t` holds under `key` onto a plain value.
fn field_state(t: &toml::map::Map<String, toml::Value>, key: &str) -> (r: TomlField)
    ensures
        r@ == field_of(*t, key@),
{
    match table_entry(t, key) {
        None => TomlField::Absent,
        Some(v) => match value_text(v) {
            None => TomlField::NotText,
            Some(s) => TomlField::Text(s),
        },
    }
}

/// Read a parsed TOML document into a configuration: it assembles exactly
/// when the document's projected fields do, yields that document's
/// configuration, and otherwise blames the document's first fault in
/// field order.
#[verifier::loop_isolation(false)]
pub fn config_from_table(t: &toml::map::Map<String, toml::Value>) -> (r: Result<
    Config,
    ConfigError,
>)
    ensures
        (r is Ok) <==> doc_assembly_ok(*t),
        r matches Ok(c) ==> c@ == doc_model(*t),
        r matches Err(e) ==> doc_fault_named(e, *t) && !(e is Syntax),
{
    let wallpaper = field_state(t, "wallpaper");
    let text_color = field_state(t, "text_color");
    let shutdown_command = field_state(t, "shutdown_command");
    let apps: AppsState = match table_entry(t, "apps") {
        None => AppsState::Absent,
        Some(v) => match value_items(v) {
            None => AppsState::NotList,
            Some(list) => {
                let mut items: Vec<AppItemState> = Vec::new();
                let mut i: usize = 0;
                while i < list.len()
                    invariant
                        0 <= i <= list@.len(),
                        items@.len() == i,
                        forall|j: int|
                            0 <= j < i ==> (#[trigger] items@[j])@ == app_item_of(list@[j]),
                    decreases list@.len() - i,
                {
                    match value_entries(&list[i]) {
                        None => items.push(AppItemState::NotTable),
                        Some(entry) => items.push(
                            AppItemState::Fields(
                                AppFieldStates {
                                    icon: field_state(entry, "icon"),
                                    preferred_color: field_state(entry, "preferred_color"),
                                    command: field_state(entry, "command"),
                                },
                            ),
                        ),
                    }
                    i += 1;
                }
                proof {
                    assert(items@.map_values(|it: AppItemState| it@) =~= list@.map_values(
                        |x: toml::Value| app_item_of(x),
                    ));
                }
                AppsState::Items(items)
            },
        },
    };
    proof {
        assert(apps@ == apps_of(*t));
    }
    config_from_fields(wallpaper, text_color, shutdown_command, apps)
}

} // verus!
