use actioneer::preferences::{
    refresh_option_seconds, refresh_seconds_for_minutes, refresh_wait, stored_refresh_interval, Preferences,
    PreferencesManager,
};

#[test]
fn test_preferences_default() {
    let prefs = Preferences::default();
    assert_eq!(prefs.refresh_interval, 0);
    assert_eq!(prefs.window_width, 1000);
    assert!(prefs.enable_notifications);
}

#[test]
fn test_preferences_update() {
    let mut manager = PreferencesManager::new(None);

    manager.set_refresh_interval(30);

    let prefs = manager.get();
    assert_eq!(prefs.refresh_interval, 30);
}

#[test]
fn setters_change_only_their_field() {
    let mut manager = PreferencesManager::new(None);
    manager.set_window_size(1280, 800);
    manager.set_notifications_enabled(false);
    manager.set_last_selected_repo(Some(42));
    manager.set_sounds_enabled(false);
    let prefs = manager.get();
    assert_eq!(prefs.window_width, 1280);
    assert_eq!(prefs.window_height, 800);
    assert!(!prefs.enable_notifications);
    assert!(!prefs.enable_sounds);
    assert_eq!(prefs.last_selected_repo_id, Some(42));
    assert_eq!(prefs.refresh_interval, 0);
}

#[test]
fn loaded_preferences_are_kept() {
    let loaded = Preferences { refresh_interval: 120, ..Preferences::default() };
    let manager = PreferencesManager::new(Some(loaded));
    assert_eq!(manager.get(), loaded);
    assert_eq!(PreferencesManager::new(None).get(), Preferences::default());
}

#[test]
fn auto_refresh_choices() {
    assert_eq!(refresh_option_seconds("Never"), None);
    assert_eq!(refresh_option_seconds("30 seconds"), Some(30));
    assert_eq!(refresh_option_seconds("1 minute"), Some(60));
    assert_eq!(refresh_option_seconds("5 minutes"), Some(300));
    assert_eq!(refresh_option_seconds("2 minutes"), None);
    assert_eq!(refresh_seconds_for_minutes(0), 0);
    assert_eq!(refresh_seconds_for_minutes(120), 7200);
}

#[test]
fn stored_interval_for_each_choice() {
    assert_eq!(stored_refresh_interval("Never"), Some(0));
    assert_eq!(stored_refresh_interval("30 seconds"), Some(30));
    assert_eq!(stored_refresh_interval("1 minute"), Some(60));
    assert_eq!(stored_refresh_interval("5 minutes"), Some(300));
    assert_eq!(stored_refresh_interval("hourly"), None);
    assert_eq!(refresh_wait(0), None);
    assert_eq!(refresh_wait(300), Some(300));
}
