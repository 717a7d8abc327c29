//! Generator configuration: what a configuration document says.

use vstd::prelude::*;
use vstd::string::*;
use crate::format::Format;
use crate::record::texts;

verus! {

/// Settings of an id/event generator, as a configuration document gives them.
#[derive(Clone, Debug, PartialEq, Eq)]
pub struct IdEventConfig {
    pub ids: Vec<String>,
    pub events: Vec<String>,
    pub format: Option<Format>,
}

/// The mathematical content of an [`IdEventConfig`].
pub struct IdEventConfigView {
    pub ids: Seq<Seq<char>>,
    pub events: Seq<Seq<char>>,
    pub format: Option<Format>,
}

impl View for IdEventConfig {
    type V = IdEventConfigView;

    open spec fn view(&self) -> IdEventConfigView {
        IdEventConfigView {
            ids: texts(self.ids@),
            events: texts(self.events@),
            format: self.format,
        }
    }
}

/// Settings of a counter, as a configuration document gives them.
#[derive(Clone, Copy, Debug, PartialEq, Eq)]
pub struct CounterConfig {
    pub initial_count: Option<u64>,
    pub format: Option<Format>,
}

/// Why a configuration could not be used.
#[derive(Clone, Debug, PartialEq, Eq)]
pub enum ConfigCause {
    /// The file could not be read; the text is the reader's message.
    Unreadable(String),
    /// The document is not well-formed; the text is the parser's message.
    Syntax(String),
    /// The named field is missing where it is required, or holds something
    /// other than what it stands for.
    Field(String),
}

/// The mathematical content of a [`ConfigCause`]. The parser's message is
/// left out: it is the parser's to word.
pub enum ConfigCauseView {
    Unreadable(Seq<char>),
    Syntax,
    Field(Seq<char>),
}

impl View for ConfigCause {
    type V = ConfigCauseView;

    open spec fn view(&self) -> ConfigCauseView {
        match *self {
            ConfigCause::Unreadable(message) => ConfigCauseView::Unreadable(message@),
            ConfigCause::Syntax(_) => ConfigCauseView::Syntax,
            ConfigCause::Field(name) => ConfigCauseView::Field(name@),
        }
    }
}

impl ConfigCause {
    /// Whether this cause reports the field `name`.
    pub open spec fn is_field(self, name: Seq<char>) -> bool {
        self@ == ConfigCauseView::Field(name)
    }
}

/// Where the settings of a generator come from.
#[derive(Clone, Debug, PartialEq, Eq)]
pub enum ConfigFile {
    /// No path was given.
    Absent,
    /// The file at `path` holds `content`.
    Read { path: String, content: String },
    /// The file at `path` could not be read, for `cause`.
    Unreadable { path: String, cause: String },
}

/// The mathematical content of a [`ConfigFile`].
pub enum ConfigFileView {
    Absent,
    Read { path: Seq<char>, content: Seq<char> },
    Unreadable { path: Seq<char>, cause: Seq<char> },
}

impl View for ConfigFile {
    type V = ConfigFileView;

    open spec fn view(&self) -> ConfigFileView {
        match *self {
            ConfigFile::Absent => ConfigFileView::Absent,
            ConfigFile::Read { path, content } => ConfigFileView::Read {
                path: path@,
                content: content@,
            },
            ConfigFile::Unreadable { path, cause } => ConfigFileView::Unreadable {
                path: path@,
                cause: cause@,
            },
        }
    }
}

impl ConfigFileView {
    /// The path of the file; the placeholder `"?"` where none was given.
    pub open spec fn path(self) -> Seq<char> {
        match self {
            ConfigFileView::Absent => "?"@,
            ConfigFileView::Read { path, .. } => path,
            ConfigFileView::Unreadable { path, .. } => path,
        }
    }

    /// The settings that the file gives, read from its document by `read`:
    /// none where no path was given; else the settings, or the cause by
    /// which there are none.
    pub open spec fn settings<T>(
        self,
        read: spec_fn(TomlItem) -> Result<T, Seq<char>>,
    ) -> Result<Option<T>, ConfigCauseView> {
        match self {
            ConfigFileView::Absent => Ok(None),
            ConfigFileView::Unreadable { cause, .. } => Err(ConfigCauseView::Unreadable(cause)),
            ConfigFileView::Read { content, .. } => match toml_document(content) {
                None => Err(ConfigCauseView::Syntax),
                Some(document) => match read(document) {
                    Ok(found) => Ok(Some(found)),
                    Err(name) => Err(ConfigCauseView::Field(name)),
                },
            },
        }
    }
}

impl ConfigFile {
    /// The path of the file; the placeholder `"?"` where none was given.
    pub fn path(&self) -> (r: String)
        ensures
            r@ == self@.path(),
    {
        match self {
            ConfigFile::Absent => String::from_str("?"),
            ConfigFile::Read { path, .. } => path.clone(),
            ConfigFile::Unreadable { path, .. } => path.clone(),
        }
    }
}

#[verifier::external_type_specification]
#[verifier::external_body]
pub struct ExTomlValue(toml::Value);

/// What a value of a configuration document holds, as far as the settings
/// read it: a text, an integer, a list, a table, or something else.
pub enum TomlItem {
    Text(Seq<char>),
    Integer(i64),
    List(Seq<TomlItem>),
    Table(Map<Seq<char>, TomlItem>),
    Other,
}

/// What a `toml::Value` holds.
pub uninterp spec fn toml_item(value: toml::Value) -> TomlItem;

/// What `toml::Value`'s `from_str` reads from a document; `None` where it
/// reports an error.
pub uninterp spec fn toml_document(text: Seq<char>) -> Option<TomlItem>;

/// What each of a sequence of values holds.
pub open spec fn toml_items(values: Seq<toml::Value>) -> Seq<TomlItem> {
    values.map_values(|value: toml::Value| toml_item(value))
}

/// The member `name` of a table; `None` for a table without it and for
/// anything that is no table.
pub open spec fn member(item: TomlItem, name: Seq<char>) -> Option<TomlItem> {
    match item {
        TomlItem::Table(members) => if members.contains_key(name) {
            Some(members[name])
        } else {
            None
        },
        _ => None,
    }
}

/// Calls `str::parse` for `toml::Value`, which is `toml::from_str`. Trusted:
/// the outcome depends on the text alone; the value read holds
/// `toml_document` of the text, an error text standing for `None`.
#[verifier::external_body]
fn parse_toml(text: &str) -> (r: Result<toml::Value, String>)
    ensures
        match r {
            Ok(value) => toml_document(text@) == Some(toml_item(value)),
            Err(_) => toml_document(text@) is None,
        },
{
    text.parse::<toml::Value>().map_err(|e| e.to_string())
}

/// Calls `toml::Value::get` with a text index. Trusted: a table that has
/// the member gives it; anything else gives `None`.
#[verifier::external_body]
fn toml_member<'a>(value: &'a toml::Value, name: &str) -> (r: Option<&'a toml::Value>)
    ensures
        match r {
            Some(found) => member(toml_item(*value), name@) == Some(toml_item(*found)),
            None => member(toml_item(*value), name@) is None,
        },
{
    value.get(name)
}

/// Calls `toml::Value::as_integer`. Trusted: an integer gives its number;
/// anything else gives `None`.
#[verifier::external_body]
fn toml_integer(value: &toml::Value) -> (r: Option<i64>)
    ensures
        match r {
            Some(number) => toml_item(*value) == TomlItem::Integer(number),
            None => !(toml_item(*value) is Integer),
        },
{
    value.as_integer()
}

/// Calls `toml::Value::as_str`. Trusted: a text gives its characters;
/// anything else gives `None`.
#[verifier::external_body]
fn toml_text<'a>(value: &'a toml::Value) -> (r: Option<&'a str>)
    ensures
        match r {
            Some(text) => toml_item(*value) == TomlItem::Text(text@),
            None => !(toml_item(*value) is Text),
        },
{
    value.as_str()
}

/// Calls `toml::Value::as_array`. Trusted: a list gives its elements, in
/// order; anything else gives `None`.
#[verifier::external_body]
fn toml_list<'a>(value: &'a toml::Value) -> (r: Option<&'a Vec<toml::Value>>)
    ensures
        match r {
            Some(values) => toml_item(*value) == TomlItem::List(toml_items(values@)),
            None => !(toml_item(*value) is List),
        },
{
    value.as_array()
}

/// The format that a document selects: none where it has no `format`, the
/// named one where `format` is the text `"CSV"` or `"JSON"`; anything else is
/// an error that reports the field.
pub open spec fn format_setting(document: TomlItem) -> Result<Option<Format>, Seq<char>> {
    match member(document, "format"@) {
        None => Ok(None),
        Some(TomlItem::Text(name)) => match Format::named(name) {
            Some(format) => Ok(Some(format)),
            None => Err("format"@),
        },
        Some(_) => Err("format"@),
    }
}

/// The initial count that a document gives: none where it has no
/// `initial_count`, the number where `initial_count` is an integer that is
/// not negative; anything else is an error that reports the field.
pub open spec fn count_setting(document: TomlItem) -> Result<Option<u64>, Seq<char>> {
    match member(document, "initial_count"@) {
        None => Ok(None),
        Some(TomlItem::Integer(number)) => if number >= 0 {
            Ok(Some(number as u64))
        } else {
            Err("initial_count"@)
        },
        Some(_) => Err("initial_count"@),
    }
}

/// Whether every one of `items` is a text.
pub open spec fn all_texts(items: Seq<TomlItem>) -> bool {
    forall|i: int| 0 <= i < items.len() ==> (#[trigger] items[i]) is Text
}

/// The texts of a list of texts.
pub open spec fn item_texts(items: Seq<TomlItem>) -> Seq<Seq<char>> {
    Seq::new(items.len(), |i: int| items[i]->Text_0)
}

/// The vocabulary that a document gives under `name`: the member must be
/// there and be a list of texts; anything else is an error that reports the
/// field.
pub open spec fn vocabulary_setting(document: TomlItem, name: Seq<char>) -> Result<
    Seq<Seq<char>>,
    Seq<char>,
> {
    match member(document, name) {
        Some(TomlItem::List(items)) => if all_texts(items) {
            Ok(item_texts(items))
        } else {
            Err(name)
        },
        _ => Err(name),
    }
}

/// The counter settings of a document: the first field in the order
/// `initial_count`, `format` that is in error is reported.
pub open spec fn counter_settings(document: TomlItem) -> Result<CounterConfig, Seq<char>> {
    match count_setting(document) {
        Err(name) => Err(name),
        Ok(initial_count) => match format_setting(document) {
            Err(name) => Err(name),
            Ok(format) => Ok(CounterConfig { initial_count, format }),
        },
    }
}

/// The id/event settings of a document: the first field in the order `ids`,
/// `events`, `format` that is in error is reported.
pub open spec fn id_event_settings(document: TomlItem) -> Result<IdEventConfigView, Seq<char>> {
    match vocabulary_setting(document, "ids"@) {
        Err(name) => Err(name),
        Ok(ids) => match vocabulary_setting(document, "events"@) {
            Err(name) => Err(name),
            Ok(events) => match format_setting(document) {
                Err(name) => Err(name),
                Ok(format) => Ok(IdEventConfigView { ids, events, format }),
            },
        },
    }
}

/// Whether `r` reports what a document's settings are: the settings, or the
/// field in error.
pub open spec fn reports<T>(r: Result<T, ConfigCause>, settings: Result<T, Seq<char>>) -> bool {
    match r {
        Ok(found) => settings == Ok::<T, Seq<char>>(found),
        Err(cause) => settings is Err && cause.is_field(settings->Err_0),
    }
}

/// Reads the `format` selector of a document.
fn read_format(document: &toml::Value) -> (r: Result<Option<Format>, ConfigCause>)
    ensures
        reports(r, format_setting(toml_item(*document))),
{
    match toml_member(document, "format") {
        None => Ok(None),
        Some(found) => match toml_text(found) {
            None => Err(ConfigCause::Field(String::from_str("format"))),
            Some(name) => match Format::from_name(name) {
                Some(format) => Ok(Some(format)),
                None => Err(ConfigCause::Field(String::from_str("format"))),
            },
        },
    }
}

/// Reads the `initial_count` of a document.
fn read_count(document: &toml::Value) -> (r: Result<Option<u64>, ConfigCause>)
    ensures
        reports(r, count_setting(toml_item(*document))),
{
    match toml_member(document, "initial_count") {
        None => Ok(None),
        Some(found) => match toml_integer(found) {
            None => Err(ConfigCause::Field(String::from_str("initial_count"))),
            Some(number) => if number >= 0 {
                Ok(Some(number as u64))
            } else {
                Err(ConfigCause::Field(String::from_str("initial_count")))
            },
        },
    }
}

/// Reads the vocabulary that a document gives under `name`.
fn read_vocabulary(document: &toml::Value, name: &str) -> (r: Result<Vec<String>, ConfigCause>)
    ensures
        match r {
            Ok(vocabulary) => vocabulary_setting(toml_item(*document), name@) == Ok::<
                Seq<Seq<char>>,
                Seq<char>,
            >(texts(vocabulary@)),
            Err(cause) => vocabulary_setting(toml_item(*document), name@) is Err
                && cause.is_field(name@),
        },
{
    let found = match toml_member(document, name) {
        None => {
            return Err(ConfigCause::Field(String::from_str(name)));
        },
        Some(found) => found,
    };
    let values = match toml_list(found) {
        None => {
            return Err(ConfigCause::Field(String::from_str(name)));
        },
        Some(values) => values,
    };
    let ghost items = toml_items(values@);
    let mut vocabulary: Vec<String> = Vec::new();
    let mut i: usize = 0;
    while i < values.len()
        invariant
            i <= values.len(),
            items == toml_items(values@),
            member(toml_item(*document), name@) == Some(TomlItem::List(items)),
            vocabulary@.len() == i,
            forall|j: int| 0 <= j < i ==> (#[trigger] items[j]) is Text,
            forall|j: int| 0 <= j < i ==> (#[trigger] vocabulary@[j])@ == items[j]->Text_0,
        decreases values.len() - i,
    {
        match toml_text(&values[i]) {
            None => {
                assert(!(items[i as int] is Text));
                return Err(ConfigCause::Field(String::from_str(name)));
            },
            Some(text) => {
                assert(items[i as int] == TomlItem::Text(text@));
                vocabulary.push(String::from_str(text));
            },
        }
        i = i + 1;
    }
    assert(all_texts(items));
    assert(texts(vocabulary@) =~= item_texts(items));
    Ok(vocabulary)
}

impl CounterConfig {
    /// The counter settings that a parsed document holds.
    pub fn from_table(document: &toml::Value) -> (r: Result<CounterConfig, ConfigCause>)
        ensures
            reports(r, counter_settings(toml_item(*document))),
    {
        let initial_count = match read_count(document) {
            Err(cause) => {
                return Err(cause);
            },
            Ok(initial_count) => initial_count,
        };
        let format = match read_format(document) {
            Err(cause) => {
                return Err(cause);
            },
            Ok(format) => format,
        };
        Ok(CounterConfig { initial_count, format })
    }

    /// The counter settings that a document's text holds. A text that is no
    /// well-formed document is reported as a syntax error.
    pub fn from_document(text: &str) -> (r: Result<CounterConfig, ConfigCause>)
        ensures
            match toml_document(text@) {
                Some(document) => reports(r, counter_settings(document)),
                None => r is Err && r->Err_0 is Syntax,
            },
    {
        match parse_toml(text) {
            Ok(document) => CounterConfig::from_table(&document),
            Err(message) => Err(ConfigCause::Syntax(message)),
        }
    }
}

/// Whether `r` reports what a document's id/event settings are.
pub open spec fn reports_id_event(
    r: Result<IdEventConfig, ConfigCause>,
    settings: Result<IdEventConfigView, Seq<char>>,
) -> bool {
    match r {
        Ok(found) => settings == Ok::<IdEventConfigView, Seq<char>>(found@),
        Err(cause) => settings is Err && cause.is_field(settings->Err_0),
    }
}

impl IdEventConfig {
    /// The id/event settings that a parsed document holds.
    pub fn from_table(document: &toml::Value) -> (r: Result<IdEventConfig, ConfigCause>)
        ensures
            reports_id_event(r, id_event_settings(toml_item(*document))),
    {
        let ids = match read_vocabulary(document, "ids") {
            Err(cause) => {
                return Err(cause);
            },
            Ok(ids) => ids,
        };
        let events = match read_vocabulary(document, "events") {
            Err(cause) => {
                return Err(cause);
            },
            Ok(events) => events,
        };
        let format = match read_format(document) {
            Err(cause) => {
                return Err(cause);
            },
            Ok(format) => format,
        };
        Ok(IdEventConfig { ids, events, format })
    }

    /// The id/event settings that a document's text holds. A text that is no
    /// well-formed document is reported as a syntax error.
    pub fn from_document(text: &str) -> (r: Result<IdEventConfig, ConfigCause>)
        ensures
            match toml_document(text@) {
                Some(document) => reports_id_event(r, id_event_settings(document)),
                None => r is Err && r->Err_0 is Syntax,
            },
    {
        match parse_toml(text) {
            Ok(document) => IdEventConfig::from_table(&document),
            Err(message) => Err(ConfigCause::Syntax(message)),
        }
    }
}

} // verus!
