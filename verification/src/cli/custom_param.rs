//! The user's own parameters: the ceiling on the size of a change
//! description.

use crate::config::{
    entries_of, entry_of, put_section, sections_of, settings_of, without_section, EntryView,
    InvalidSetting, Settings, SettingsView, UserConfig,
};
use crate::constants::{CUSTOM_SECTION_NAME, DIFF_SIZE_LIMIT};
use crate::text::joined;
use vstd::prelude::*;

verus! {

/// The ceiling that a configuration sets: the user's where one is set, and
/// the built-in one otherwise.
pub open spec fn lines_limit(settings: Settings) -> usize {
    match settings.user {
        Some(UserConfig { lines_limit: Some(limit) }) => limit,
        _ => DIFF_SIZE_LIMIT,
    }
}

/// Returns the largest number of lines that a change description may have.
pub fn get_lines_limit(settings: &Settings) -> (limit: usize)
    ensures
        limit == lines_limit(*settings),
{
    match &settings.user {
        Some(user) => match user.lines_limit {
            Some(limit) => limit,
            None => DIFF_SIZE_LIMIT,
        },
        None => DIFF_SIZE_LIMIT,
    }
}

/// Puts the section for the user's parameters into a document, with the
/// ceiling as all that it holds. Whatever stood under the section's name
/// is replaced; the other sections stay as they are. A ceiling too large
/// for the document to hold, and a document whose root is no table, leave
/// everything as it is; a document that holds a section has a table for its
/// root.
pub fn set_lines_limit(document: &mut toml::Value, lines_limit: usize) -> (done: bool)
    ensures
        done ==> lines_limit <= i64::MAX,
        done ==> entry_of(*final(document), CUSTOM_SECTION_NAME@, "lines_limit"@) == Some(
            EntryView::Integer(lines_limit as i64),
        ),
        (lines_limit <= i64::MAX && exists|name: Seq<char>|
            sections_of(*old(document)).contains(name)) ==> done,
        sections_of(*final(document)) == (if done {
            sections_of(*old(document)).insert(CUSTOM_SECTION_NAME@)
        } else {
            sections_of(*old(document))
        }),
        entries_of(*final(document)) == (if done {
            without_section(entries_of(*old(document)), CUSTOM_SECTION_NAME@).insert(
                (CUSTOM_SECTION_NAME@, "lines_limit"@),
                EntryView::Integer(lines_limit as i64),
            )
        } else {
            entries_of(*old(document))
        }),
{
    if lines_limit as u64 > i64::MAX as u64 {
        return false;
    }
    put_section(document, CUSTOM_SECTION_NAME, "lines_limit", lines_limit as i64)
}

/// A ceiling that was put into a document is the ceiling that is read out
/// of it, and the other sections are read as before.
pub proof fn lemma_ceiling_is_read_back(before: toml::Value, after: toml::Value, limit: usize)
    requires
        limit <= i64::MAX,
        sections_of(after) == sections_of(before).insert(CUSTOM_SECTION_NAME@),
        entries_of(after) == without_section(entries_of(before), CUSTOM_SECTION_NAME@).insert(
            (CUSTOM_SECTION_NAME@, "lines_limit"@),
            EntryView::Integer(limit as i64),
        ),
        settings_of(before) is Ok || settings_of(before) == Err::<SettingsView, InvalidSetting>(
            InvalidSetting::LinesLimit,
        ),
    ensures
        settings_of(after) is Ok,
        settings_of(after)->Ok_0.user == Some(UserConfig { lines_limit: Some(limit) }),
        settings_of(before) is Ok ==> settings_of(after)->Ok_0.ai == settings_of(before)->Ok_0.ai,
        settings_of(before) is Ok ==> settings_of(after)->Ok_0.update == settings_of(
            before,
        )->Ok_0.update,
{
    reveal_strlit("user");
    reveal_strlit("update");
    reveal_strlit("ai");
    assert("user"@.len() == 4 && "update"@.len() == 6 && "ai"@.len() == 2);
}

/// What the configuration store says when it is asked to change a value in
/// a section that it does not hold.
pub open spec fn missing_section_message(section: Seq<char>) -> Seq<char> {
    "Section '"@ + section + "' not found"@
}

/// Whether a refused change of the ceiling is to be made good by creating
/// the section for the user's parameters: it is where the store found
/// nothing, and says that this section is what it did not find.
pub fn creates_section(not_found: bool, message: &str) -> (create: bool)
    ensures
        create == (not_found && message@ == missing_section_message(CUSTOM_SECTION_NAME@)),
{
    if !not_found {
        return false;
    }
    let head = joined("Section '", CUSTOM_SECTION_NAME);
    let expected = joined(head.as_str(), "' not found");
    str::eq(message, expected.as_str())
}

} // verus!
