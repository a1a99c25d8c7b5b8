//! The update reminder: a throttle, kept in the configuration, on how often
//! the user is told of a newer version.

use crate::cli::update::calendar::{
    current_day, day_text, days_between, days_since, format_day, parse_day, written_day,
};
use crate::config::{NumberSetting, TextSetting, UpdateConfig, UPDATE_SECTION};
use crate::text::{decimal, joined, number_text};
use vstd::prelude::*;
use vstd::string::StringExecFns;

verus! {

/// The number of the first of January 2000, the day on which a reminder
/// that was never shown counts as last shown.
pub const NEVER_CHECKED: i32 = 730120;

/// How often the reminder appears within one window unless the user says
/// otherwise.
pub const DEFAULT_MAX_TRY: u32 = 5;

/// The length of a window in days unless the user says otherwise.
pub const DEFAULT_INTERVAL: u32 = 30;

/// The state of the reminder: the day on which the present window began,
/// how often the reminder has appeared since, how often it may appear, and
/// how many days must pass before it appears.
#[derive(Debug, Clone, Copy, PartialEq, Eq, Structural)]
pub struct UpdateReminder {
    pub last_update_check: i32,
    pub reminder_count: u32,
    pub max_try_count: u32,
    pub max_check_interval: u32,
}

impl UpdateReminder {
    /// The state of a reminder that was never shown.
    pub open spec fn initial() -> UpdateReminder {
        UpdateReminder {
            last_update_check: NEVER_CHECKED,
            reminder_count: 0,
            max_try_count: DEFAULT_MAX_TRY,
            max_check_interval: DEFAULT_INTERVAL,
        }
    }

    /// Whether tries remain.
    pub open spec fn watching(self) -> bool {
        self.reminder_count < self.max_try_count
    }

    /// Whether a check for a newer version is due on the day `now`: the
    /// interval has passed, its last day included, and tries remain.
    pub open spec fn due(self, now: i32) -> bool {
        days_between(now, self.last_update_check) >= self.max_check_interval && self.watching()
    }

    /// The state after a reset on the day `now`: a new window begins.
    pub open spec fn reset(self, now: i32) -> UpdateReminder {
        UpdateReminder { last_update_check: now, reminder_count: 0, ..self }
    }

    /// The state after the user was told of a newer version on the day
    /// `now`: with the last try of a window the window is over and a new one
    /// begins; before that only the count goes up.
    pub open spec fn notified(self, now: i32) -> UpdateReminder {
        if self.reminder_count >= self.max_try_count - 1 {
            self.reset(now)
        } else {
            UpdateReminder { reminder_count: (self.reminder_count + 1) as u32, ..self }
        }
    }

    /// The state after the user was told of a newer version on each of the
    /// given days, in their order.
    pub open spec fn notified_on(self, days: Seq<i32>) -> UpdateReminder
        decreases days.len(),
    {
        if days.len() == 0 {
            self
        } else {
            self.notified_on(days.drop_last()).notified(days.last())
        }
    }

    /// The state that an `update` section holds, given the day of the last
    /// check. The numbers that the section does not say are as for a
    /// reminder that was never shown.
    pub open spec fn of_section(section: UpdateConfig, last_update_check: i32) -> UpdateReminder {
        UpdateReminder {
            last_update_check,
            reminder_count: match section.tried {
                Some(tried) => tried,
                None => 0,
            },
            max_try_count: match section.max_try {
                Some(max_try) => max_try,
                None => DEFAULT_MAX_TRY,
            },
            max_check_interval: match section.try_interval_days {
                Some(days) => days,
                None => DEFAULT_INTERVAL,
            },
        }
    }

    /// The state that the `update` section of a configuration holds. A
    /// configuration without the section, and a section without the day of
    /// the last check, are as for a reminder that was never shown. There
    /// is no state where what the section gives for the day is no date.
    pub open spec fn stored(update: Option<UpdateConfig>) -> Option<UpdateReminder> {
        match update {
            None => Some(Self::initial()),
            Some(section) => match section.last_try_day {
                None => Some(Self::of_section(section, NEVER_CHECKED)),
                Some(text) => match written_day(text@) {
                    Some(day) => Some(Self::of_section(section, day)),
                    None => None,
                },
            },
        }
    }

    /// What the reminder says of itself, given the written form of the day
    /// of its last check.
    pub open spec fn description(self, day: Seq<char>) -> Seq<char> {
        "last_update_check: "@ + day + ", reminder_count: "@ + decimal(self.reminder_count as nat)
            + "/"@ + decimal(self.max_try_count as nat) + ", check_interval: "@ + decimal(
            self.max_check_interval as nat,
        ) + " days"@
    }

    /// Builds the state from an `update` section and the day of the last
    /// check.
    pub fn with_section(section: &UpdateConfig, last_update_check: i32) -> (state: UpdateReminder)
        ensures
            state == Self::of_section(*section, last_update_check),
    {
        let mut reminder = UpdateReminder::default();
        reminder.last_update_check = last_update_check;
        if let Some(tried) = section.tried {
            reminder.reminder_count = tried;
        }
        if let Some(max_try) = section.max_try {
            reminder.max_try_count = max_try;
        }
        if let Some(days) = section.try_interval_days {
            reminder.max_check_interval = days;
        }
        reminder
    }

    /// Reads the state out of the `update` section of a configuration.
    pub fn load(update: &Option<UpdateConfig>) -> (reminder: Option<UpdateReminder>)
        ensures
            reminder == Self::stored(*update),
    {
        let section = match update {
            None => {
                return Some(UpdateReminder::default());
            },
            Some(section) => section,
        };
        match &section.last_try_day {
            None => Some(Self::with_section(section, NEVER_CHECKED)),
            Some(text) => match parse_day(text.as_str()) {
                Some(day) => Some(Self::with_section(section, day)),
                None => None,
            },
        }
    }

    /// What the store is asked to write back to the `update` section: the
    /// count under `tried`, and the day of the last check, as a date, under
    /// `last_try_day`. There is nothing to write where that day lies beyond
    /// the calendar.
    pub fn save(&self) -> (fields: Option<(NumberSetting, TextSetting)>)
        ensures
            (match day_text(self.last_update_check) {
                Some(day) => {
                    &&& fields is Some
                    &&& fields->Some_0.0.section@ == UPDATE_SECTION@
                    &&& fields->Some_0.0.key@ == "tried"@
                    &&& fields->Some_0.0.value == self.reminder_count
                    &&& fields->Some_0.1.section@ == UPDATE_SECTION@
                    &&& fields->Some_0.1.key@ == "last_try_day"@
                    &&& fields->Some_0.1.value@ == day
                },
                None => fields is None,
            }),
    {
        match format_day(self.last_update_check) {
            Some(day) => Some(
                (
                    NumberSetting {
                        section: UPDATE_SECTION,
                        key: "tried",
                        value: self.reminder_count as i64,
                    },
                    TextSetting { section: UPDATE_SECTION, key: "last_try_day", value: day },
                ),
            ),
            None => None,
        }
    }

    /// Whether a check for a newer version is due on the day `now`.
    pub fn should_check(&self, now: i32) -> (due: bool)
        ensures
            due == self.due(now),
    {
        days_since(now, self.last_update_check) >= self.max_check_interval as i64
            && self.reminder_count < self.max_try_count
    }

    /// Whether a check for a newer version is due today. Which day today
    /// is, the machine says: the answer is the one for some day, and so no
    /// check is due once the tries are used up.
    pub fn should_show_reminder(&self) -> (due: bool)
        ensures
            exists|now: i32| due == self.due(now),
            due ==> self.watching(),
    {
        let now = current_day();
        let due = self.should_check(now);
        due
    }

    /// Records that the user was told of a newer version on the day `now`.
    /// A reminder with tries left has tries left afterwards.
    pub fn notify_on(&mut self, now: i32)
        ensures
            *final(self) == old(self).notified(now),
            old(self).watching() ==> final(self).watching(),
    {
        if self.max_try_count == 0 || self.reminder_count >= self.max_try_count - 1 {
            self.reset_on(now);
        } else {
            self.reminder_count += 1;
        }
    }

    /// Begins a new window on the day `now`.
    pub fn reset_on(&mut self, now: i32)
        ensures
            *final(self) == old(self).reset(now),
    {
        self.last_update_check = now;
        self.reminder_count = 0;
    }

    /// Records that the user was told of a newer version today, and returns
    /// the day that the machine took for today.
    pub fn increment_reminder_count(&mut self) -> (now: i32)
        ensures
            *final(self) == old(self).notified(now),
    {
        let now = current_day();
        self.notify_on(now);
        now
    }

    /// Begins a new window today, and returns the day that the machine took
    /// for today.
    pub fn reset_reminder(&mut self) -> (now: i32)
        ensures
            *final(self) == old(self).reset(now),
    {
        let now = current_day();
        self.reset_on(now);
        now
    }

    /// What the reminder says of itself, given the written form of the day
    /// of its last check.
    pub fn describe_with(&self, day: &str) -> (text: String)
        ensures
            text@ == self.description(day@),
    {
        let mut text = joined("last_update_check: ", day);
        text.append(", reminder_count: ");
        text.append(number_text(self.reminder_count as u64).as_str());
        text.append("/");
        text.append(number_text(self.max_try_count as u64).as_str());
        text.append(", check_interval: ");
        text.append(number_text(self.max_check_interval as u64).as_str());
        text.append(" days");
        text
    }

    /// What the reminder says of itself. There is nothing to say where the
    /// day of the last check lies beyond the calendar.
    pub fn describe(&self) -> (text: Option<String>)
        ensures
            (match day_text(self.last_update_check) {
                Some(day) => text is Some && text->Some_0@ == self.description(day),
                None => text is None,
            }),
    {
        match format_day(self.last_update_check) {
            Some(day) => Some(self.describe_with(day.as_str())),
            None => None,
        }
    }
}

impl Default for UpdateReminder {
    fn default() -> (reminder: UpdateReminder)
        ensures
            reminder == UpdateReminder::initial(),
    {
        UpdateReminder {
            last_update_check: NEVER_CHECKED,
            reminder_count: 0,
            max_try_count: DEFAULT_MAX_TRY,
            max_check_interval: DEFAULT_INTERVAL,
        }
    }
}

/// A reminder with tries left has tries left after every notification:
/// the count never reaches the number of tries.
pub proof fn lemma_watching_is_kept(reminder: UpdateReminder, now: i32)
    requires
        reminder.watching(),
    ensures
        reminder.notified(now).watching(),
        reminder.notified(now).max_try_count == reminder.max_try_count,
        reminder.notified(now).max_check_interval == reminder.max_check_interval,
{
}

/// While tries remain, a check is due from the last day of the interval
/// on, and not a day before.
pub proof fn lemma_due_from_the_interval_day(reminder: UpdateReminder, now: i32)
    requires
        reminder.watching(),
    ensures
        days_between(now, reminder.last_update_check) == reminder.max_check_interval
            ==> reminder.due(now),
        days_between(now, reminder.last_update_check) == reminder.max_check_interval - 1
            ==> !reminder.due(now),
        reminder.due(now) <==> days_between(now, reminder.last_update_check)
            >= reminder.max_check_interval,
{
}

/// Once the tries are used up no check is due, however long ago the last
/// one was.
pub proof fn lemma_exhausted_is_never_due(reminder: UpdateReminder, now: i32)
    requires
        !reminder.watching(),
    ensures
        !reminder.due(now),
{
}

/// Telling the user within a window only counts: as long as the tries that
/// remain are more than those told, the count goes up by one each time and
/// nothing else changes.
pub proof fn lemma_notifications_count_up(reminder: UpdateReminder, days: Seq<i32>)
    requires
        reminder.reminder_count + days.len() < reminder.max_try_count,
    ensures
        reminder.notified_on(days) == (UpdateReminder {
            reminder_count: (reminder.reminder_count + days.len()) as u32,
            ..reminder
        }),
    decreases days.len(),
{
    if days.len() > 0 {
        lemma_notifications_count_up(reminder, days.drop_last());
    }
}

/// A full cycle: a reminder with tries left that tells the user as often
/// as tries are left, less one, has used all tries but the last; telling
/// the user once more begins a new window on that day, with the count at
/// zero.
pub proof fn lemma_full_cycle_resets(reminder: UpdateReminder, days: Seq<i32>, now: i32)
    requires
        reminder.watching(),
        days.len() == reminder.max_try_count - 1 - reminder.reminder_count,
    ensures
        reminder.notified_on(days).reminder_count == reminder.max_try_count - 1,
        reminder.notified_on(days).last_update_check == reminder.last_update_check,
        reminder.notified_on(days.push(now)) == reminder.reset(now),
        reminder.notified_on(days.push(now)).reminder_count == 0,
        reminder.notified_on(days.push(now)).last_update_check == now,
{
    lemma_notifications_count_up(reminder, days);
    assert(days.push(now).drop_last() =~= days);
}

} // verus!
