//! Updates: whether a newer version is published, and the reminder that
//! says so now and then.

pub mod calendar;
pub mod models;
pub mod reminder;
pub mod version;

use crate::cli::update::calendar::current_day;
use crate::cli::update::models::BrewInfo;
use crate::cli::update::reminder::UpdateReminder;
use crate::config::{NumberSetting, UPDATE_SECTION};
use crate::cli::update::version::{comes_after, greater, is_version, parses};
use crate::text::{chars_of, joined, text_of, trim_start, trimmed_start};
use vstd::prelude::*;
use vstd::string::StringExecFns;

verus! {

/// What came of asking the package manager about the published tool.
#[derive(Debug, Clone, PartialEq, Eq)]
pub enum BrewReport {
    /// The package manager could not be run.
    Unavailable(String),
    /// It ran and failed.
    Failed,
    /// It answered, but the answer could not be read.
    Unreadable(String),
    /// Its answer.
    Info(BrewInfo),
}

/// Why nothing is known of a newer version, or why none was installed.
#[derive(Debug, Clone, PartialEq, Eq)]
pub enum UpdateError {
    /// The version of the running tool is no version number.
    InvalidCurrentVersion(String),
    /// The package manager could not be run.
    Unavailable(String),
    /// The package manager failed to report.
    FetchFailed,
    /// The report could not be read.
    ParseFailed(String),
    /// The report names no formula.
    NoVersion,
    /// The published version is no version number.
    InvalidLatestVersion(String),
    /// The package manager failed to install.
    UpgradeFailed,
}

/// What a [`UpdateError`] holds, with every text as the sequence of its characters.
pub enum UpdateErrorView {
    InvalidCurrentVersion(Seq<char>),
    Unavailable(Seq<char>),
    FetchFailed,
    ParseFailed(Seq<char>),
    NoVersion,
    InvalidLatestVersion(Seq<char>),
    UpgradeFailed,
}

impl View for UpdateError {
    type V = UpdateErrorView;

    open spec fn view(&self) -> UpdateErrorView {
        match self {
            UpdateError::InvalidCurrentVersion(text) => UpdateErrorView::InvalidCurrentVersion(
                text@,
            ),
            UpdateError::Unavailable(reason) => UpdateErrorView::Unavailable(reason@),
            UpdateError::FetchFailed => UpdateErrorView::FetchFailed,
            UpdateError::ParseFailed(reason) => UpdateErrorView::ParseFailed(reason@),
            UpdateError::NoVersion => UpdateErrorView::NoVersion,
            UpdateError::InvalidLatestVersion(text) => UpdateErrorView::InvalidLatestVersion(text@),
            UpdateError::UpgradeFailed => UpdateErrorView::UpgradeFailed,
        }
    }
}

impl UpdateErrorView {
    /// What the user is told of an error.
    pub open spec fn message(self) -> Seq<char> {
        match self {
            UpdateErrorView::InvalidCurrentVersion(text) => "Invalid current version format: "@
                + text,
            UpdateErrorView::Unavailable(reason) => reason,
            UpdateErrorView::FetchFailed => "Failed to fetch version information from Homebrew"@,
            UpdateErrorView::ParseFailed(reason) => "Failed to parse Homebrew info: "@ + reason,
            UpdateErrorView::NoVersion => "No version information found in Homebrew response"@,
            UpdateErrorView::InvalidLatestVersion(text) => "Invalid version format in release: "@
                + text,
            UpdateErrorView::UpgradeFailed => "Failed to upgrade via Homebrew"@,
        }
    }
}

impl UpdateError {
    /// What the user is told of this error.
    pub fn message(&self) -> (text: String)
        ensures
            text@ == self@.message(),
    {
        match self {
            UpdateError::InvalidCurrentVersion(text) => joined(
                "Invalid current version format: ",
                text.as_str(),
            ),
            UpdateError::Unavailable(reason) => reason.clone(),
            UpdateError::FetchFailed => String::from_str(
                "Failed to fetch version information from Homebrew",
            ),
            UpdateError::ParseFailed(reason) => joined(
                "Failed to parse Homebrew info: ",
                reason.as_str(),
            ),
            UpdateError::NoVersion => String::from_str(
                "No version information found in Homebrew response",
            ),
            UpdateError::InvalidLatestVersion(text) => joined(
                "Invalid version format in release: ",
                text.as_str(),
            ),
            UpdateError::UpgradeFailed => String::from_str("Failed to upgrade via Homebrew"),
        }
    }
}

/// The published version according to a report: the stable version of the
/// first formula, without the letter `v` that may stand before it.
pub open spec fn latest_version(report: BrewReport) -> Result<Seq<char>, UpdateErrorView> {
    match report {
        BrewReport::Unavailable(reason) => Err(UpdateErrorView::Unavailable(reason@)),
        BrewReport::Failed => Err(UpdateErrorView::FetchFailed),
        BrewReport::Unreadable(reason) => Err(UpdateErrorView::ParseFailed(reason@)),
        BrewReport::Info(info) => if info.formulae@.len() == 0 {
            Err(UpdateErrorView::NoVersion)
        } else {
            let stable = trim_start(info.formulae@[0].versions.stable@, 'v');
            if is_version(stable) {
                Ok(stable)
            } else {
                Err(UpdateErrorView::InvalidLatestVersion(stable))
            }
        },
    }
}

/// Gets the published version out of a report of the package manager.
pub fn get_latest_version_by_homebrew(report: &BrewReport) -> (latest: Result<String, UpdateError>)
    ensures
        (match latest_version(*report) {
            Ok(version) => latest is Ok && latest->Ok_0@ == version,
            Err(error) => latest is Err && latest->Err_0@ == error,
        }),
{
    match report {
        BrewReport::Unavailable(reason) => Err(UpdateError::Unavailable(reason.clone())),
        BrewReport::Failed => Err(UpdateError::FetchFailed),
        BrewReport::Unreadable(reason) => Err(UpdateError::ParseFailed(reason.clone())),
        BrewReport::Info(info) => {
            if info.formulae.len() == 0 {
                return Err(UpdateError::NoVersion);
            }
            let chars = chars_of(info.formulae[0].versions.stable.as_str());
            let start = trimmed_start(&chars, 'v');
            let stable = text_of(&chars, start, chars.len());
            if parses(stable.as_str()) {
                Ok(stable)
            } else {
                Err(UpdateError::InvalidLatestVersion(stable))
            }
        },
    }
}

/// What is known once the running and the published version are compared.
#[derive(Debug, Clone, PartialEq, Eq)]
pub struct VersionCheck {
    pub newer: bool,
    pub current: String,
    pub latest: String,
}

/// What a [`VersionCheck`] holds, with every text as the sequence of its characters.
pub struct VersionCheckView {
    pub newer: bool,
    pub current: Seq<char>,
    pub latest: Seq<char>,
}

impl View for VersionCheck {
    type V = VersionCheckView;

    open spec fn view(&self) -> VersionCheckView {
        VersionCheckView { newer: self.newer, current: self.current@, latest: self.latest@ }
    }
}

/// Whether the published version is newer than the running one. The
/// running version is looked at first; then the report.
pub open spec fn version_check(current: Seq<char>, report: BrewReport) -> Result<
    VersionCheckView,
    UpdateErrorView,
> {
    if !is_version(current) {
        Err(UpdateErrorView::InvalidCurrentVersion(current))
    } else {
        match latest_version(report) {
            Err(error) => Err(error),
            Ok(latest) => Ok(
                VersionCheckView { newer: comes_after(latest, current), current, latest },
            ),
        }
    }
}

/// Compares the running version with the published one.
pub fn new_version_available(current: &str, report: &BrewReport) -> (check: Result<
    VersionCheck,
    UpdateError,
>)
    ensures
        (match version_check(current@, *report) {
            Ok(expected) => check is Ok && check->Ok_0@ == expected,
            Err(error) => check is Err && check->Err_0@ == error,
        }),
{
    if !parses(current) {
        return Err(UpdateError::InvalidCurrentVersion(current.to_owned()));
    }
    let latest = match get_latest_version_by_homebrew(report) {
        Err(error) => {
            return Err(error);
        },
        Ok(latest) => latest,
    };
    match greater(latest.as_str(), current) {
        Some(newer) => Ok(VersionCheck { newer, current: current.to_owned(), latest }),
        None => Err(UpdateError::InvalidCurrentVersion(current.to_owned())),
    }
}

/// Whether the user is told of a newer version on the day `now`: where
/// the reminder is due, and the check for a newer version succeeded and
/// found one. `newer` is `None` where the check failed.
pub open spec fn tells(reminder: UpdateReminder, now: i32, newer: Option<bool>) -> bool {
    reminder.due(now) && newer == Some(true)
}

/// The state of the reminder after the check for a newer version on the
/// day `now`: a try is counted where the user is told, and only there. A
/// failed check leaves the reminder as it was, and so does one that finds
/// nothing newer.
pub open spec fn reminded(reminder: UpdateReminder, now: i32, newer: Option<bool>) -> UpdateReminder {
    if tells(reminder, now, newer) {
        reminder.notified(now)
    } else {
        reminder
    }
}

/// The state of the reminder after a newer version was found on each of
/// the given days, in their order.
pub open spec fn reminded_on(reminder: UpdateReminder, days: Seq<i32>) -> UpdateReminder
    decreases days.len(),
{
    if days.len() == 0 {
        reminder
    } else {
        reminded(reminded_on(reminder, days.drop_last()), days.last(), Some(true))
    }
}

/// Settles the reminder on the day `now`, once the check for a newer
/// version has been made; `newer` is `None` where the check failed. Returns
/// whether the user is to be told of a newer version, in which case the new
/// state of the reminder is to be written back.
pub fn settle_reminder(reminder: &mut UpdateReminder, now: i32, newer: Option<bool>) -> (tell: bool)
    ensures
        tell == tells(*old(reminder), now, newer),
        *final(reminder) == reminded(*old(reminder), now, newer),
{
    if !reminder.should_check(now) {
        return false;
    }
    match newer {
        Some(true) => {
            reminder.notify_on(now);
            true
        },
        _ => false,
    }
}

/// Settles the reminder today, once the check for a newer version has been
/// made; `newer` is `None` where the check failed. Returns whether the user
/// is to be told of a newer version, and the day that the machine took for
/// today.
pub fn check_update_reminder(reminder: &mut UpdateReminder, newer: Option<bool>) -> (told: (
    bool,
    i32,
))
    ensures
        told.0 == tells(*old(reminder), told.1, newer),
        *final(reminder) == reminded(*old(reminder), told.1, newer),
{
    let now = current_day();
    (settle_reminder(reminder, now, newer), now)
}

/// A check that fails, or finds nothing newer, does not use up a try, and
/// neither does any check of a reminder that is not due.
pub proof fn lemma_only_a_told_user_uses_a_try(
    reminder: UpdateReminder,
    now: i32,
    newer: Option<bool>,
)
    ensures
        newer != Some(true) ==> reminded(reminder, now, newer) == reminder,
        !reminder.due(now) ==> reminded(reminder, now, newer) == reminder,
{
}

/// Within a window every day from the first due day on is due: while a
/// newer version is found on days on which the reminder is due, the count
/// goes up by one each time and nothing else changes, as long as tries
/// remain beyond those used.
pub proof fn lemma_due_days_count_up(reminder: UpdateReminder, days: Seq<i32>)
    requires
        reminder.reminder_count + days.len() < reminder.max_try_count,
        forall|k: int|
            0 <= k < days.len() ==> days[k] - reminder.last_update_check
                >= reminder.max_check_interval,
    ensures
        reminded_on(reminder, days) == (UpdateReminder {
            reminder_count: (reminder.reminder_count + days.len()) as u32,
            ..reminder
        }),
    decreases days.len(),
{
    if days.len() > 0 {
        lemma_due_days_count_up(reminder, days.drop_last());
    }
}

/// A full cycle: a reminder with tries left that finds a newer version on
/// as many due days as tries are left, less one, has used all tries but
/// the last; the next due day on which a newer version is found begins a
/// new window on that day, with the count at zero.
pub proof fn lemma_due_cycle_resets(reminder: UpdateReminder, days: Seq<i32>, now: i32)
    requires
        reminder.watching(),
        days.len() == reminder.max_try_count - 1 - reminder.reminder_count,
        forall|k: int|
            0 <= k < days.len() ==> days[k] - reminder.last_update_check
                >= reminder.max_check_interval,
        now - reminder.last_update_check >= reminder.max_check_interval,
    ensures
        reminded_on(reminder, days).reminder_count == reminder.max_try_count - 1,
        reminded_on(reminder, days).last_update_check == reminder.last_update_check,
        tells(reminded_on(reminder, days), now, Some(true)),
        reminded_on(reminder, days.push(now)) == reminder.reset(now),
        reminded_on(reminder, days.push(now)).reminder_count == 0,
        reminded_on(reminder, days.push(now)).last_update_check == now,
{
    lemma_due_days_count_up(reminder, days);
    assert(days.push(now).drop_last() =~= days);
}

/// What an explicit request to update comes to.
#[derive(Debug, Clone, Copy, PartialEq, Eq, Structural)]
pub enum UpdatePlan {
    /// The running version is the latest: say so and install nothing.
    UpToDate,
    /// Install the published version; `newer` says whether it is newer than
    /// the running one.
    Upgrade { newer: bool },
}

/// Decides whether an explicit request to update installs anything: it
/// does where the published version is newer, or where the user insists.
/// Either way the request was the user's own, so that whoever carries the
/// plan out begins a new window of the reminder afterwards.
pub fn check_and_install_update(force: bool, newer: bool) -> (plan: UpdatePlan)
    ensures
        plan == (if !newer && !force {
            UpdatePlan::UpToDate
        } else {
            UpdatePlan::Upgrade { newer }
        }),
{
    if !newer && !force {
        UpdatePlan::UpToDate
    } else {
        UpdatePlan::Upgrade { newer }
    }
}

/// Concludes an explicit request to update: the request was the user's
/// own, so that a new window of the reminder begins today, whether
/// anything was installed or the request came to nothing. Returns the day
/// that the machine took for today.
pub fn conclude_update(reminder: &mut UpdateReminder, done: &Result<(), UpdateError>) -> (now: i32)
    ensures
        *final(reminder) == old(reminder).reset(now),
{
    reminder.reset_reminder()
}

/// What the run of the installation means.
pub fn upgrade_result(succeeded: bool) -> (result: Result<(), UpdateError>)
    ensures
        result == (if succeeded {
            Ok::<(), UpdateError>(())
        } else {
            Err::<(), UpdateError>(UpdateError::UpgradeFailed)
        }),
{
    if succeeded {
        Ok(())
    } else {
        Err(UpdateError::UpgradeFailed)
    }
}

/// Sets how often the reminder may appear within one window: returns what
/// the store is to be asked for.
pub fn set_max_try(max_try: u32) -> (setting: NumberSetting)
    ensures
        setting.section@ == UPDATE_SECTION@,
        setting.key@ == "max_try"@,
        setting.value == max_try,
{
    NumberSetting { section: UPDATE_SECTION, key: "max_try", value: max_try as i64 }
}

/// Sets the number of days that must pass before the reminder appears:
/// returns what the store is to be asked for.
pub fn set_try_interval(interval: u32) -> (setting: NumberSetting)
    ensures
        setting.section@ == UPDATE_SECTION@,
        setting.key@ == "try_interval_days"@,
        setting.value == interval,
{
    NumberSetting { section: UPDATE_SECTION, key: "try_interval_days", value: interval as i64 }
}

} // verus!
