//! The persisted configuration.
//!
//! The store keeps a TOML document. The tool reads it once into settings
//! of its own: three sections, each field present or not, each number
//! within its range.

use crate::text::opt_view;
use vstd::prelude::*;

verus! {

/// A TOML document as the store hands it out. What it holds is known
/// through [`sections_of`] and [`entries_of`] alone.
#[verifier::external_type_specification]
#[verifier::external_body]
pub struct ExDocument(toml::Value);

/// What stands under one key of one section of a document.
#[derive(Debug, Clone, PartialEq, Eq)]
pub enum Entry {
    /// A string.
    Text(String),
    /// An integer.
    Integer(i64),
    /// Anything else.
    Other,
}

/// What an [`Entry`] holds, with every text as the sequence of its characters.
pub enum EntryView {
    Text(Seq<char>),
    Integer(i64),
    Other,
}

impl View for Entry {
    type V = EntryView;

    open spec fn view(&self) -> EntryView {
        match self {
            Entry::Text(text) => EntryView::Text(text@),
            Entry::Integer(number) => EntryView::Integer(*number),
            Entry::Other => EntryView::Other,
        }
    }
}

/// The sections of a document: the names under which its root holds a
/// table.
pub uninterp spec fn sections_of(document: toml::Value) -> Set<Seq<char>>;

/// The entries of a document: for each section and each key that the
/// section holds, what stands under the key.
pub uninterp spec fn entries_of(document: toml::Value) -> Map<(Seq<char>, Seq<char>), EntryView>;

/// What stands in a document under a key of a section, if anything.
pub open spec fn entry_of(
    document: toml::Value,
    section: Seq<char>,
    key: Seq<char>,
) -> Option<EntryView> {
    if entries_of(document).contains_key((section, key)) {
        Some(entries_of(document)[(section, key)])
    } else {
        None
    }
}

/// `Value::get` of toml, with a string, on the root of a document, and
/// `Value::is_table` on what it finds: whether the root holds a table
/// under the name.
#[verifier::external_body]
pub(crate) fn is_section(document: &toml::Value, section: &str) -> (present: bool)
    ensures
        present == sections_of(*document).contains(section@),
{
    match document.get(section) {
        Some(value) => value.is_table(),
        None => false,
    }
}

/// `Value::get` of toml, with a string, on the root of a document and then
/// on what stands under the section's name: what stands under the key. A
/// value that is no table holds nothing under any key.
#[verifier::external_body]
pub(crate) fn entry_at(document: &toml::Value, section: &str, key: &str) -> (entry: Option<Entry>)
    ensures
        (match entry {
            Some(found) => Some(found@),
            None => None,
        }) == entry_of(*document, section@, key@),
{
    match document.get(section) {
        Some(table) => match table.get(key) {
            Some(toml::Value::String(text)) => Some(Entry::Text(text.clone())),
            Some(toml::Value::Integer(number)) => Some(Entry::Integer(*number)),
            Some(_) => Some(Entry::Other),
            None => None,
        },
        None => None,
    }
}

/// `Value::get_mut` of toml, with a string, on the root of a document, and
/// `Map::insert` on the table that it finds: a string is put under the key
/// of the section, in place of what stood there. Nothing else changes, and
/// nothing at all where the root holds no table under the section's name.
#[verifier::external_body]
pub(crate) fn put_text(
    document: &mut toml::Value,
    section: &str,
    key: &str,
    text: &str,
) -> (done: bool)
    ensures
        done == sections_of(*old(document)).contains(section@),
        sections_of(*final(document)) == sections_of(*old(document)),
        entries_of(*final(document)) == (if done {
            entries_of(*old(document)).insert((section@, key@), EntryView::Text(text@))
        } else {
            entries_of(*old(document))
        }),
{
    match document.get_mut(section) {
        Some(toml::Value::Table(table)) => {
            table.insert(key.to_string(), toml::Value::String(text.to_string()));
            true
        },
        _ => false,
    }
}

/// The entries of a document without those of one section.
pub open spec fn without_section(
    entries: Map<(Seq<char>, Seq<char>), EntryView>,
    section: Seq<char>,
) -> Map<(Seq<char>, Seq<char>), EntryView> {
    entries.remove_keys(Set::new(|at: (Seq<char>, Seq<char>)| at.0 == section))
}

/// `Value::as_table_mut` of toml on the root of a document, with `Map::new`
/// and `Map::insert`: a new section that holds one integer under one key
/// is put under the section's name, in place of what stood there. Nothing
/// else changes, and nothing at all where the root is no table, which it is
/// whenever it holds a section.
#[verifier::external_body]
pub(crate) fn put_section(
    document: &mut toml::Value,
    section: &str,
    key: &str,
    number: i64,
) -> (done: bool)
    ensures
        forall|name: Seq<char>| sections_of(*old(document)).contains(name) ==> done,
        sections_of(*final(document)) == (if done {
            sections_of(*old(document)).insert(section@)
        } else {
            sections_of(*old(document))
        }),
        entries_of(*final(document)) == (if done {
            without_section(entries_of(*old(document)), section@).insert(
                (section@, key@),
                EntryView::Integer(number),
            )
        } else {
            entries_of(*old(document))
        }),
{
    match document.as_table_mut() {
        Some(root) => {
            let mut table = toml::map::Map::new();
            table.insert(key.to_string(), toml::Value::Integer(number));
            root.insert(section.to_string(), toml::Value::Table(table));
            true
        },
        None => false,
    }
}

/// The section of the configuration that holds the state of the update
/// reminder.
pub const UPDATE_SECTION: &'static str = "update";

/// A number that the store is asked to put under a key of a section.
#[derive(Debug, Clone, Copy, PartialEq, Eq)]
pub struct NumberSetting {
    pub section: &'static str,
    pub key: &'static str,
    pub value: i64,
}

/// A text that the store is asked to put under a key of a section.
#[derive(Debug, Clone, PartialEq, Eq)]
pub struct TextSetting {
    pub section: &'static str,
    pub key: &'static str,
    pub value: String,
}

/// The `ai` section: how to reach the model, and in which language it is to
/// answer.
#[derive(Debug, Clone, PartialEq, Eq)]
pub struct AiConfig {
    pub model: Option<String>,
    pub apikey: Option<String>,
    pub url: Option<String>,
    pub language: Option<String>,
}

/// What a [`AiConfig`] holds, with every text as the sequence of its characters.
pub struct AiConfigView {
    pub model: Option<Seq<char>>,
    pub apikey: Option<Seq<char>>,
    pub url: Option<Seq<char>>,
    pub language: Option<Seq<char>>,
}

impl View for AiConfig {
    type V = AiConfigView;

    open spec fn view(&self) -> AiConfigView {
        AiConfigView {
            model: opt_view(self.model),
            apikey: opt_view(self.apikey),
            url: opt_view(self.url),
            language: opt_view(self.language),
        }
    }
}

/// The `update` section: the state of the update reminder.
#[derive(Debug, Clone, PartialEq, Eq)]
pub struct UpdateConfig {
    pub tried: Option<u32>,
    pub max_try: Option<u32>,
    pub try_interval_days: Option<u32>,
    pub last_try_day: Option<String>,
}

/// What a [`UpdateConfig`] holds, with every text as the sequence of its characters.
pub struct UpdateConfigView {
    pub tried: Option<u32>,
    pub max_try: Option<u32>,
    pub try_interval_days: Option<u32>,
    pub last_try_day: Option<Seq<char>>,
}

impl View for UpdateConfig {
    type V = UpdateConfigView;

    open spec fn view(&self) -> UpdateConfigView {
        UpdateConfigView {
            tried: self.tried,
            max_try: self.max_try,
            try_interval_days: self.try_interval_days,
            last_try_day: opt_view(self.last_try_day),
        }
    }
}

/// The `user` section: the user's own parameters.
#[derive(Debug, Clone, Copy, PartialEq, Eq)]
pub struct UserConfig {
    pub lines_limit: Option<usize>,
}

/// The whole configuration. A section that the document does not hold is
/// `None`.
#[derive(Debug, Clone, PartialEq, Eq)]
pub struct Settings {
    pub ai: Option<AiConfig>,
    pub update: Option<UpdateConfig>,
    pub user: Option<UserConfig>,
}

/// What a [`Settings`] holds, with every text as the sequence of its characters.
pub struct SettingsView {
    pub ai: Option<AiConfigView>,
    pub update: Option<UpdateConfigView>,
    pub user: Option<UserConfig>,
}

impl View for Settings {
    type V = SettingsView;

    open spec fn view(&self) -> SettingsView {
        SettingsView {
            ai: match self.ai {
                Some(ai) => Some(ai@),
                None => None,
            },
            update: match self.update {
                Some(update) => Some(update@),
                None => None,
            },
            user: self.user,
        }
    }
}

/// A setting that is not what it must be.
#[derive(Debug, Clone, Copy, PartialEq, Eq, Structural)]
pub enum InvalidSetting {
    /// `update.tried` is no count.
    Tried,
    /// `update.max_try` is no count.
    MaxTry,
    /// `update.try_interval_days` is no count.
    TryIntervalDays,
    /// `update.last_try_day` is no string.
    LastTryDay,
    /// `user.lines_limit` is no count.
    LinesLimit,
}

/// The text under a key, where a text stands there. Anything else counts as
/// absent.
pub open spec fn text_in(entry: Option<EntryView>) -> Option<Seq<char>> {
    match entry {
        Some(EntryView::Text(text)) => Some(text),
        _ => None,
    }
}

/// The text under a key that holds a text or nothing; `None` for anything
/// else.
pub open spec fn strict_text_in(entry: Option<EntryView>) -> Option<Option<Seq<char>>> {
    match entry {
        None => Some(None),
        Some(EntryView::Text(text)) => Some(Some(text)),
        Some(_) => None,
    }
}

/// The count under a key that holds an integer from zero to `max`, or
/// nothing; `None` for anything else.
pub open spec fn count_in(entry: Option<EntryView>, max: int) -> Option<Option<int>> {
    match entry {
        None => Some(None),
        Some(EntryView::Integer(number)) => if 0 <= number <= max {
            Some(Some(number as int))
        } else {
            None
        },
        Some(_) => None,
    }
}

/// The `ai` section of a document, where it holds one. A field under which
/// no string stands is absent.
pub open spec fn ai_of(document: toml::Value) -> Option<AiConfigView> {
    if sections_of(document).contains("ai"@) {
        Some(
            AiConfigView {
                model: text_in(entry_of(document, "ai"@, "model"@)),
                apikey: text_in(entry_of(document, "ai"@, "apikey"@)),
                url: text_in(entry_of(document, "ai"@, "url"@)),
                language: text_in(entry_of(document, "ai"@, "language"@)),
            },
        )
    } else {
        None
    }
}

/// The settings that a document holds, or the first setting in it that is
/// not what it must be: the counts of the reminder, the day of its last
/// check, the ceiling on the size of a change description, in this order.
pub open spec fn settings_of(document: toml::Value) -> Result<SettingsView, InvalidSetting> {
    let tried = count_in(entry_of(document, "update"@, "tried"@), u32::MAX as int);
    let max_try = count_in(entry_of(document, "update"@, "max_try"@), u32::MAX as int);
    let interval = count_in(entry_of(document, "update"@, "try_interval_days"@), u32::MAX as int);
    let last = strict_text_in(entry_of(document, "update"@, "last_try_day"@));
    let limit = count_in(entry_of(document, "user"@, "lines_limit"@), usize::MAX as int);
    let has_update = sections_of(document).contains("update"@);
    let has_user = sections_of(document).contains("user"@);
    if has_update && tried is None {
        Err(InvalidSetting::Tried)
    } else if has_update && max_try is None {
        Err(InvalidSetting::MaxTry)
    } else if has_update && interval is None {
        Err(InvalidSetting::TryIntervalDays)
    } else if has_update && last is None {
        Err(InvalidSetting::LastTryDay)
    } else if has_user && limit is None {
        Err(InvalidSetting::LinesLimit)
    } else {
        Ok(
            SettingsView {
                ai: ai_of(document),
                update: if has_update {
                    Some(
                        UpdateConfigView {
                            tried: match tried->Some_0 {
                                Some(n) => Some(n as u32),
                                None => None,
                            },
                            max_try: match max_try->Some_0 {
                                Some(n) => Some(n as u32),
                                None => None,
                            },
                            try_interval_days: match interval->Some_0 {
                                Some(n) => Some(n as u32),
                                None => None,
                            },
                            last_try_day: last->Some_0,
                        },
                    )
                } else {
                    None
                },
                user: if has_user {
                    Some(
                        UserConfig {
                            lines_limit: match limit->Some_0 {
                                Some(n) => Some(n as usize),
                                None => None,
                            },
                        },
                    )
                } else {
                    None
                },
            },
        )
    }
}

fn text_at(document: &toml::Value, section: &str, key: &str) -> (text: Option<String>)
    ensures
        opt_view(text) == text_in(entry_of(*document, section@, key@)),
{
    match entry_at(document, section, key) {
        Some(Entry::Text(text)) => Some(text),
        _ => None,
    }
}

fn strict_text_at(
    document: &toml::Value,
    section: &str,
    key: &str,
) -> (text: Option<Option<String>>)
    ensures
        (match text {
            Some(found) => Some(opt_view(found)),
            None => None,
        }) == strict_text_in(entry_of(*document, section@, key@)),
{
    match entry_at(document, section, key) {
        None => Some(None),
        Some(Entry::Text(text)) => Some(Some(text)),
        Some(_) => None,
    }
}

fn count_at(document: &toml::Value, section: &str, key: &str) -> (count: Option<Option<u32>>)
    ensures
        (match count {
            Some(Some(n)) => Some(Some(n as int)),
            Some(None) => Some(None),
            None => None,
        }) == count_in(entry_of(*document, section@, key@), u32::MAX as int),
{
    match entry_at(document, section, key) {
        None => Some(None),
        Some(Entry::Integer(number)) => {
            if 0 <= number && number <= u32::MAX as i64 {
                Some(Some(number as u32))
            } else {
                None
            }
        },
        Some(_) => None,
    }
}

fn limit_at(document: &toml::Value, section: &str, key: &str) -> (count: Option<Option<usize>>)
    ensures
        (match count {
            Some(Some(n)) => Some(Some(n as int)),
            Some(None) => Some(None),
            None => None,
        }) == count_in(entry_of(*document, section@, key@), usize::MAX as int),
{
    match entry_at(document, section, key) {
        None => Some(None),
        Some(Entry::Integer(number)) => {
            if 0 <= number && number as u64 <= usize::MAX as u64 {
                Some(Some(number as usize))
            } else {
                None
            }
        },
        Some(_) => None,
    }
}

impl Settings {
    /// Reads the settings out of a document, once and for all. A document
    /// in which a setting is not what it must be is refused.
    pub fn load(document: &toml::Value) -> (settings: Result<Settings, InvalidSetting>)
        ensures
            (match settings_of(*document) {
                Ok(expected) => settings is Ok && settings->Ok_0@ == expected,
                Err(invalid) => settings == Err::<Settings, InvalidSetting>(invalid),
            }),
    {
        let update = if is_section(document, "update") {
            let tried = match count_at(document, "update", "tried") {
                Some(tried) => tried,
                None => {
                    return Err(InvalidSetting::Tried);
                },
            };
            let max_try = match count_at(document, "update", "max_try") {
                Some(max_try) => max_try,
                None => {
                    return Err(InvalidSetting::MaxTry);
                },
            };
            let try_interval_days = match count_at(document, "update", "try_interval_days") {
                Some(days) => days,
                None => {
                    return Err(InvalidSetting::TryIntervalDays);
                },
            };
            let last_try_day = match strict_text_at(document, "update", "last_try_day") {
                Some(day) => day,
                None => {
                    return Err(InvalidSetting::LastTryDay);
                },
            };
            Some(UpdateConfig { tried, max_try, try_interval_days, last_try_day })
        } else {
            None
        };
        let user = if is_section(document, "user") {
            match limit_at(document, "user", "lines_limit") {
                Some(lines_limit) => Some(UserConfig { lines_limit }),
                None => {
                    return Err(InvalidSetting::LinesLimit);
                },
            }
        } else {
            None
        };
        let ai = if is_section(document, "ai") {
            Some(
                AiConfig {
                    model: text_at(document, "ai", "model"),
                    apikey: text_at(document, "ai", "apikey"),
                    url: text_at(document, "ai", "url"),
                    language: text_at(document, "ai", "language"),
                },
            )
        } else {
            None
        };
        Ok(Settings { ai, update, user })
    }
}

} // verus!
