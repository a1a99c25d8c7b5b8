use chrono::{Datelike, NaiveDate};
use gim::cli::update::models::{BrewFormulae, BrewInfo, BrewInstalled, BrewVersions};
use gim::cli::update::reminder::UpdateReminder;
use gim::cli::update::{
    check_and_install_update, check_update_reminder, conclude_update,
    get_latest_version_by_homebrew,
    new_version_available, set_max_try, set_try_interval, settle_reminder, upgrade_result,
    BrewReport, UpdateError, UpdatePlan, VersionCheck,
};
use gim::config::{NumberSetting, TextSetting, UpdateConfig};

fn day(year: i32, month: u32, day: u32) -> i32 {
    NaiveDate::from_ymd_opt(year, month, day)
        .unwrap()
        .num_days_from_ce()
}

fn reminder(last: i32, count: u32, max: u32, interval: u32) -> UpdateReminder {
    UpdateReminder {
        last_update_check: last,
        reminder_count: count,
        max_try_count: max,
        max_check_interval: interval,
    }
}

fn saved(tried: i64, last_try_day: &str) -> (NumberSetting, TextSetting) {
    (
        NumberSetting {
            section: "update",
            key: "tried",
            value: tried,
        },
        TextSetting {
            section: "update",
            key: "last_try_day",
            value: last_try_day.to_string(),
        },
    )
}

fn report(stable: &str) -> BrewReport {
    BrewReport::Info(BrewInfo {
        formulae: vec![BrewFormulae {
            name: "git-intelligence-message".to_string(),
            versions: BrewVersions {
                stable: stable.to_string(),
            },
            installed: vec![BrewInstalled {
                version: "1.0.0".to_string(),
            }],
        }],
    })
}

#[test]
fn reminder_that_was_never_shown() {
    let fresh = UpdateReminder::default();
    assert_eq!(fresh, reminder(day(2000, 1, 1), 0, 5, 30));
    assert_eq!(fresh.save(), Some(saved(0, "2000-01-01")));
}

#[test]
fn load_takes_what_the_section_says() {
    assert_eq!(UpdateReminder::load(&None), Some(UpdateReminder::default()));
    let section = UpdateConfig {
        tried: Some(2),
        max_try: Some(7),
        try_interval_days: Some(14),
        last_try_day: Some("2024-02-29".to_string()),
    };
    assert_eq!(
        UpdateReminder::load(&Some(section)),
        Some(reminder(day(2024, 2, 29), 2, 7, 14))
    );
    let partial = UpdateConfig {
        tried: Some(3),
        max_try: None,
        try_interval_days: None,
        last_try_day: None,
    };
    assert_eq!(
        UpdateReminder::load(&Some(partial)),
        Some(reminder(day(2000, 1, 1), 3, 5, 30))
    );
}

#[test]
fn load_refuses_what_is_no_date() {
    for text in ["", "yesterday", "2024-02-30", "2024-13-01", "20240101"] {
        let section = UpdateConfig {
            tried: None,
            max_try: None,
            try_interval_days: None,
            last_try_day: Some(text.to_string()),
        };
        assert_eq!(UpdateReminder::load(&Some(section)), None);
    }
}

#[test]
fn save_writes_the_count_and_the_date() {
    assert_eq!(
        reminder(day(2024, 12, 31), 4, 5, 30).save(),
        Some(saved(4, "2024-12-31"))
    );
    assert_eq!(
        reminder(day(1999, 3, 7), 0, 5, 30).save(),
        Some(saved(0, "1999-03-07"))
    );
    assert_eq!(reminder(i32::MAX, 0, 5, 30).save(), None);
}

#[test]
fn saved_state_loads_again() {
    let state = reminder(day(2025, 6, 15), 3, 9, 11);
    let (tried, last_try_day) = state.save().unwrap();
    let section = UpdateConfig {
        tried: Some(tried.value as u32),
        max_try: Some(9),
        try_interval_days: Some(11),
        last_try_day: Some(last_try_day.value),
    };
    assert_eq!(UpdateReminder::load(&Some(section)), Some(state));
}

#[test]
fn check_is_due_from_the_interval_day_on() {
    let today = day(2025, 3, 1);
    let interval = 30;
    assert!(!reminder(today - (interval as i32 - 1), 0, 5, interval).should_check(today));
    assert!(reminder(today - interval as i32, 0, 5, interval).should_check(today));
    assert!(reminder(today - interval as i32 - 1, 0, 5, interval).should_check(today));
    assert!(!reminder(today, 0, 5, interval).should_check(today));
    assert!(!reminder(today + 1, 0, 5, interval).should_check(today));
    assert!(reminder(today, 0, 5, 0).should_check(today));
}

#[test]
fn no_check_is_due_once_the_tries_are_used_up() {
    let today = day(2025, 3, 1);
    assert!(reminder(day(2000, 1, 1), 4, 5, 30).should_check(today));
    assert!(!reminder(day(2000, 1, 1), 5, 5, 30).should_check(today));
    assert!(!reminder(day(2000, 1, 1), 6, 5, 30).should_check(today));
    assert!(!reminder(day(2000, 1, 1), 0, 0, 30).should_check(today));
    assert!(!reminder(day(2000, 1, 1), 5, 5, 30).should_show_reminder());
}

#[test]
fn check_is_due_across_the_whole_range_of_days() {
    assert!(reminder(i32::MIN, 0, 1, u32::MAX).should_check(i32::MAX));
    assert!(!reminder(i32::MAX, 0, 1, 0).should_check(i32::MIN));
}

#[test]
fn never_shown_reminder_is_due_today() {
    assert!(UpdateReminder::default().should_show_reminder());
}

#[test]
fn full_cycle_resets_the_reminder() {
    let start = day(2000, 1, 1);
    let mut state = reminder(start, 0, 5, 30);
    for told in 1..5 {
        state.notify_on(day(2025, 1, told));
        assert_eq!(state, reminder(start, told, 5, 30));
    }
    let now = day(2025, 1, 5);
    state.notify_on(now);
    assert_eq!(state, reminder(now, 0, 5, 30));
}

#[test]
fn single_try_resets_at_once() {
    let mut state = reminder(day(2000, 1, 1), 0, 1, 30);
    state.notify_on(day(2025, 1, 1));
    assert_eq!(state, reminder(day(2025, 1, 1), 0, 1, 30));
    let mut state = reminder(day(2000, 1, 1), 0, 0, 30);
    state.notify_on(day(2025, 1, 1));
    assert_eq!(state, reminder(day(2025, 1, 1), 0, 0, 30));
    let mut state = reminder(day(2000, 1, 1), 9, 5, 30);
    state.notify_on(day(2025, 1, 1));
    assert_eq!(state, reminder(day(2025, 1, 1), 0, 5, 30));
}

#[test]
fn reset_begins_a_new_window() {
    let mut state = reminder(day(2000, 1, 1), 3, 5, 30);
    state.reset_on(day(2025, 7, 4));
    assert_eq!(state, reminder(day(2025, 7, 4), 0, 5, 30));
}

#[test]
fn today_is_the_day_of_the_machine() {
    let before = chrono::Local::now().date_naive().num_days_from_ce();
    let mut state = reminder(day(2000, 1, 1), 3, 5, 30);
    let now = state.reset_reminder();
    let after = chrono::Local::now().date_naive().num_days_from_ce();
    assert!(before <= now && now <= after);
    assert_eq!(state, reminder(now, 0, 5, 30));

    let mut state = reminder(day(2000, 1, 1), 3, 5, 30);
    let now = state.increment_reminder_count();
    assert!(before <= now);
    assert_eq!(state, reminder(day(2000, 1, 1), 4, 5, 30));
    let now = state.increment_reminder_count();
    assert_eq!(state, reminder(now, 0, 5, 30));
}

#[test]
fn section_overrides_what_it_says() {
    let section = UpdateConfig {
        tried: None,
        max_try: Some(2),
        try_interval_days: None,
        last_try_day: Some("not read here".to_string()),
    };
    assert_eq!(
        UpdateReminder::with_section(&section, 17),
        reminder(17, 0, 2, 30)
    );
}

#[test]
fn explicit_update_always_begins_a_new_window() {
    for done in [Ok(()), Err(UpdateError::UpgradeFailed), Err(UpdateError::FetchFailed)] {
        let mut state = reminder(day(2000, 1, 1), 4, 5, 30);
        let now = conclude_update(&mut state, &done);
        assert_eq!(state, reminder(now, 0, 5, 30));
        assert!(now >= day(2025, 1, 1));
    }
}

#[test]
fn reminder_describes_itself() {
    assert_eq!(
        reminder(0, 0, 1, 7).describe_with("someday"),
        "last_update_check: someday, reminder_count: 0/1, check_interval: 7 days"
    );
    assert_eq!(
        reminder(day(2000, 1, 1), 2, 5, 30).describe(),
        Some("last_update_check: 2000-01-01, reminder_count: 2/5, check_interval: 30 days".to_string())
    );
    assert_eq!(reminder(i32::MIN, 2, 5, 30).describe(), None);
}

#[test]
fn test_check_update_reminder() {
    // a reminder that is not due stays as it is, whatever the check found
    let mut state = reminder(day(2000, 1, 1), 5, 5, 30);
    let (tell, today) = check_update_reminder(&mut state, Some(true));
    assert!(!tell);
    assert_eq!(state, reminder(day(2000, 1, 1), 5, 5, 30));
    let mut state = reminder(today - 29, 0, 5, 30);
    let (tell, _) = check_update_reminder(&mut state, Some(true));
    assert!(!tell);
    assert_eq!(state, reminder(today - 29, 0, 5, 30));
    // a failed check does not consume a try
    let mut state = reminder(day(2000, 1, 1), 3, 5, 30);
    let (tell, _) = check_update_reminder(&mut state, None);
    assert!(!tell, "failed check (test)");
    assert_eq!(state, reminder(day(2000, 1, 1), 3, 5, 30));
    // nor does a check that finds nothing newer
    let (tell, _) = check_update_reminder(&mut state, Some(false));
    assert!(!tell);
    assert_eq!(state, reminder(day(2000, 1, 1), 3, 5, 30));
    // a newer version is told of, and counted
    let (tell, _) = check_update_reminder(&mut state, Some(true));
    assert!(tell);
    assert_eq!(state, reminder(day(2000, 1, 1), 4, 5, 30));
    let (tell, today) = check_update_reminder(&mut state, Some(true));
    assert!(tell);
    assert_eq!(state, reminder(today, 0, 5, 30));
}

#[test]
fn due_reminder_is_settled_on_the_day_given() {
    let today = day(2025, 1, 1);
    let mut state = reminder(day(2000, 1, 1), 2, 5, 30);
    assert!(!settle_reminder(&mut state, today, None));
    assert_eq!(state, reminder(day(2000, 1, 1), 2, 5, 30));
    assert!(!settle_reminder(&mut state, today, Some(false)));
    assert_eq!(state, reminder(day(2000, 1, 1), 2, 5, 30));
    assert!(settle_reminder(&mut state, today, Some(true)));
    assert_eq!(state, reminder(day(2000, 1, 1), 3, 5, 30));
    assert!(settle_reminder(&mut state, today, Some(true)));
    assert_eq!(state, reminder(day(2000, 1, 1), 4, 5, 30));
    assert!(settle_reminder(&mut state, today, Some(true)));
    assert_eq!(state, reminder(today, 0, 5, 30));
    // the new window has begun: nothing is due for thirty days
    assert!(!settle_reminder(&mut state, today + 29, Some(true)));
    assert_eq!(state, reminder(today, 0, 5, 30));
    assert!(settle_reminder(&mut state, today + 30, Some(true)));
    assert_eq!(state, reminder(today, 1, 5, 30));
}

#[test]
fn latest_version_of_the_first_formula() {
    assert_eq!(
        get_latest_version_by_homebrew(&report("1.8.0")),
        Ok("1.8.0".to_string())
    );
    assert_eq!(
        get_latest_version_by_homebrew(&report("v1.8.0")),
        Ok("1.8.0".to_string())
    );
    assert_eq!(
        get_latest_version_by_homebrew(&report("vv2.0.0-rc.1+build")),
        Ok("2.0.0-rc.1+build".to_string())
    );
}

#[test]
fn latest_version_that_cannot_be_had() {
    assert_eq!(
        get_latest_version_by_homebrew(&BrewReport::Unavailable("not found".to_string())),
        Err(UpdateError::Unavailable("not found".to_string()))
    );
    assert_eq!(
        get_latest_version_by_homebrew(&BrewReport::Failed),
        Err(UpdateError::FetchFailed)
    );
    assert_eq!(
        get_latest_version_by_homebrew(&BrewReport::Unreadable("eof".to_string())),
        Err(UpdateError::ParseFailed("eof".to_string()))
    );
    assert_eq!(
        get_latest_version_by_homebrew(&BrewReport::Info(BrewInfo {
            formulae: Vec::new()
        })),
        Err(UpdateError::NoVersion)
    );
    assert_eq!(
        get_latest_version_by_homebrew(&report("v1.8")),
        Err(UpdateError::InvalidLatestVersion("1.8".to_string()))
    );
    assert_eq!(
        get_latest_version_by_homebrew(&report("1.8.0v")),
        Err(UpdateError::InvalidLatestVersion("1.8.0v".to_string()))
    );
}

#[test]
fn versions_are_compared_by_their_numbers() {
    let check = new_version_available("1.2.3", &report("1.10.0")).unwrap();
    assert_eq!(
        check,
        VersionCheck {
            newer: true,
            current: "1.2.3".to_string(),
            latest: "1.10.0".to_string(),
        }
    );
    assert!(!new_version_available("1.10.0", &report("1.2.3")).unwrap().newer);
    assert!(!new_version_available("1.8.0", &report("v1.8.0")).unwrap().newer);
    assert!(new_version_available("1.8.0-rc.1", &report("1.8.0")).unwrap().newer);
    assert!(!new_version_available("1.8.0", &report("1.8.0-rc.1")).unwrap().newer);
    assert!(new_version_available("1.8.0-alpha.9", &report("1.8.0-alpha.10")).unwrap().newer);
}

#[test]
fn running_version_is_looked_at_first() {
    assert_eq!(
        new_version_available("one", &BrewReport::Failed),
        Err(UpdateError::InvalidCurrentVersion("one".to_string()))
    );
    assert_eq!(
        new_version_available("1.0.0", &BrewReport::Failed),
        Err(UpdateError::FetchFailed)
    );
    assert_eq!(
        new_version_available("1.0.0", &report("latest")),
        Err(UpdateError::InvalidLatestVersion("latest".to_string()))
    );
}

#[test]
fn update_error_messages() {
    assert_eq!(
        UpdateError::InvalidCurrentVersion("one".to_string()).message(),
        "Invalid current version format: one"
    );
    assert_eq!(
        UpdateError::Unavailable("No such file or directory".to_string()).message(),
        "No such file or directory"
    );
    assert_eq!(
        UpdateError::FetchFailed.message(),
        "Failed to fetch version information from Homebrew"
    );
    assert_eq!(
        UpdateError::ParseFailed("eof".to_string()).message(),
        "Failed to parse Homebrew info: eof"
    );
    assert_eq!(
        UpdateError::NoVersion.message(),
        "No version information found in Homebrew response"
    );
    assert_eq!(
        UpdateError::InvalidLatestVersion("1.8".to_string()).message(),
        "Invalid version format in release: 1.8"
    );
    assert_eq!(
        UpdateError::UpgradeFailed.message(),
        "Failed to upgrade via Homebrew"
    );
}

#[test]
fn explicit_update() {
    assert_eq!(check_and_install_update(false, false), UpdatePlan::UpToDate);
    assert_eq!(
        check_and_install_update(true, false),
        UpdatePlan::Upgrade { newer: false }
    );
    assert_eq!(
        check_and_install_update(false, true),
        UpdatePlan::Upgrade { newer: true }
    );
    assert_eq!(
        check_and_install_update(true, true),
        UpdatePlan::Upgrade { newer: true }
    );
    assert_eq!(upgrade_result(true), Ok(()));
    assert_eq!(upgrade_result(false), Err(UpdateError::UpgradeFailed));
}

#[test]
fn numbers_of_the_reminder_are_set_in_the_update_section() {
    assert_eq!(
        set_max_try(9),
        NumberSetting {
            section: "update",
            key: "max_try",
            value: 9
        }
    );
    assert_eq!(
        set_try_interval(u32::MAX),
        NumberSetting {
            section: "update",
            key: "try_interval_days",
            value: 4294967295
        }
    );
}
