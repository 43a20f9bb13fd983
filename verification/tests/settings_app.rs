use watch_core::apps::settings::{ActionTone, SettingsApp, SettingsView, SetupStep};
use watch_core::peripherals::wifi::WifiState;
use watch_core::product::settings::WatchSettings;

const ACTION: (u16, u16) = (300, 60);
const KEY_ABC: (u16, u16) = (205, 211);

fn tap(app: &mut SettingsApp, at: (u16, u16)) -> bool {
    app.handle_tap(at.0, at.1)
}

fn open_wifi() -> SettingsApp {
    let mut app = SettingsApp::new();
    assert!(tap(&mut app, (200, 120)));
    app
}

#[test]
fn starts_on_the_home_screen() {
    let app = SettingsApp::new();
    assert_eq!(app.screen(), SettingsView::Home);
    assert_eq!(app.step(), SetupStep::Ssid);
    assert_eq!(app.wifi_state, WifiState::Disconnected);
    assert_eq!(app.watch_settings(), WatchSettings::default());
}

#[test]
fn home_taps_outside_the_cards_are_not_taken() {
    let mut app = SettingsApp::new();
    assert!(!tap(&mut app, (10, 120)));
    assert!(!tap(&mut app, (200, 160)));
    assert!(!tap(&mut app, (200, 340)));
    assert_eq!(app.screen(), SettingsView::Home);
}

#[test]
fn next_requires_a_network_name() {
    let mut app = open_wifi();
    assert_eq!(app.screen(), SettingsView::Wifi);
    assert!(app.keyboard.is_active());
    assert!(tap(&mut app, ACTION));
    assert_eq!(app.wifi_state, WifiState::Error);
    assert_eq!(app.step(), SetupStep::Ssid);
    assert!(tap(&mut app, KEY_ABC));
    assert_eq!(app.wifi_state, WifiState::Disconnected);
    assert_eq!(app.wifi_config.ssid_str(), "a");
    assert!(tap(&mut app, ACTION));
    assert_eq!(app.step(), SetupStep::Password);
    assert_eq!(app.keyboard.get_text(), "");
}

#[test]
fn open_network_reaches_review_and_connects_once() {
    let mut app = open_wifi();
    tap(&mut app, KEY_ABC);
    tap(&mut app, KEY_ABC);
    tap(&mut app, ACTION);
    assert_eq!(app.action_label(), ("REVIEW", ActionTone::Normal));
    assert!(tap(&mut app, ACTION));
    assert_eq!(app.step(), SetupStep::Review);
    assert!(!app.keyboard.is_active());
    assert_eq!(app.wifi_config.pass_len(), 0);
    assert_eq!(app.wifi_config.ssid_str(), "b");
    assert_eq!(app.action_label(), ("CONNECT", ActionTone::Normal));
    assert!(!app.take_connection_request());
    assert!(tap(&mut app, ACTION));
    assert_eq!(app.wifi_state, WifiState::Connecting);
    assert!(tap(&mut app, (200, 300)));
    assert_eq!(app.step(), SetupStep::Review);
    assert!(app.take_connection_request());
    assert!(!app.take_connection_request());
}

#[test]
fn review_cards_reopen_their_fields() {
    let mut app = open_wifi();
    tap(&mut app, KEY_ABC);
    tap(&mut app, ACTION);
    tap(&mut app, KEY_ABC);
    tap(&mut app, KEY_ABC);
    tap(&mut app, KEY_ABC);
    assert_eq!(app.wifi_config.password_str(), "c");
    tap(&mut app, ACTION);
    assert!(tap(&mut app, (200, 300)));
    assert_eq!(app.step(), SetupStep::Password);
    assert_eq!(app.keyboard.get_text(), "c");
    assert!(app.keyboard.is_active());
    tap(&mut app, ACTION);
    assert!(tap(&mut app, (200, 200)));
    assert_eq!(app.step(), SetupStep::Ssid);
    assert_eq!(app.keyboard.get_text(), "a");
    assert!(!tap(&mut app, (200, 100)));
}

#[test]
fn failed_connection_offers_retry() {
    let mut app = open_wifi();
    tap(&mut app, KEY_ABC);
    tap(&mut app, ACTION);
    tap(&mut app, ACTION);
    app.wifi_state = WifiState::Error;
    assert_eq!(app.action_label(), ("RETRY", ActionTone::Alert));
    assert!(tap(&mut app, ACTION));
    assert_eq!(app.wifi_state, WifiState::Connecting);
}

#[test]
fn keyboard_commit_is_saved_on_update() {
    let mut app = open_wifi();
    tap(&mut app, KEY_ABC);
    tap(&mut app, KEY_ABC);
    app.update(1_500);
    assert_eq!(app.wifi_config.ssid_str(), "b");
    assert_eq!(app.keyboard.pending_key(), None);
}

#[test]
fn clock_format_change_is_reported_once() {
    let mut app = SettingsApp::new();
    assert_eq!(app.take_watch_settings_change(), None);
    assert!(tap(&mut app, (200, 200)));
    let changed = app.take_watch_settings_change().expect("a change");
    assert!(!changed.use_24_hour_clock());
    assert_eq!(app.take_watch_settings_change(), None);
    app.set_watch_settings(WatchSettings::default());
    assert_eq!(app.take_watch_settings_change(), None);
}

#[test]
fn time_zone_moves_by_hours_and_returns_home() {
    let mut app = SettingsApp::new();
    assert!(tap(&mut app, (200, 280)));
    assert_eq!(app.screen(), SettingsView::TimeZone);
    assert_eq!(&app.timezone_label(), b"UTC+00");
    assert!(tap(&mut app, (200, 270)));
    assert_eq!(&app.timezone_label(), b"UTC+01");
    assert!(tap(&mut app, (200, 200)));
    assert!(tap(&mut app, (200, 200)));
    assert_eq!(&app.timezone_label(), b"UTC-01");
    assert_eq!(app.watch_settings().utc_offset_seconds(), -3600);
    assert!(!tap(&mut app, (200, 240)));
    assert!(tap(&mut app, (200, 400)));
    assert_eq!(app.screen(), SettingsView::Home);
}

#[test]
fn time_zone_stays_in_the_real_world_range() {
    let mut app = SettingsApp::new();
    tap(&mut app, (200, 280));
    for _ in 0..20 {
        tap(&mut app, (200, 200));
    }
    assert_eq!(app.watch_settings().utc_offset_seconds(), -12 * 3600);
    assert_eq!(&app.timezone_label(), b"UTC-12");
    for _ in 0..30 {
        tap(&mut app, (200, 300));
    }
    assert_eq!(app.watch_settings().utc_offset_seconds(), 14 * 3600);
    assert_eq!(&app.timezone_label(), b"UTC+14");
}

#[test]
fn partial_hour_zones_are_labelled_by_whole_hours() {
    let mut app = SettingsApp::new();
    let mut settings = WatchSettings::default();
    settings.set_utc_offset_seconds(-(5 * 3600 + 1800));
    app.set_watch_settings(settings);
    assert_eq!(&app.timezone_label(), b"UTC-05");
    settings.set_utc_offset_seconds(-1800);
    app.set_watch_settings(settings);
    assert_eq!(&app.timezone_label(), b"UTC+00");
    settings.set_utc_offset_seconds(5 * 3600 + 45 * 60);
    app.set_watch_settings(settings);
    assert_eq!(&app.timezone_label(), b"UTC+05");
}

#[test]
fn review_cards_mask_the_password() {
    let mut app = open_wifi();
    tap(&mut app, ACTION);
    assert_eq!(app.wifi_error_text(), Some("ENTER A NETWORK NAME"));
    tap(&mut app, KEY_ABC);
    tap(&mut app, ACTION);
    tap(&mut app, ACTION);
    assert_eq!(app.review_cards(), ("a", "OPEN NETWORK"));
    assert!(tap(&mut app, (200, 300)));
    tap(&mut app, KEY_ABC);
    tap(&mut app, KEY_ABC);
    tap(&mut app, ACTION);
    assert_eq!(app.wifi_config().password_str(), "b");
    assert_eq!(app.review_cards(), ("a", "********"));
}

#[test]
fn review_without_a_name_says_so_and_asks_for_one() {
    let mut app = open_wifi();
    tap(&mut app, KEY_ABC);
    tap(&mut app, ACTION);
    tap(&mut app, ACTION);
    app.wifi_config.set_ssid("");
    assert_eq!(app.review_cards(), ("NOT SET", "OPEN NETWORK"));
    assert!(tap(&mut app, ACTION));
    assert_eq!(app.step(), SetupStep::Ssid);
    assert_eq!(app.wifi_state(), WifiState::Error);
    assert_eq!(app.wifi_error_text(), Some("ENTER A NETWORK NAME"));
    assert!(!app.take_connection_request());
}

#[test]
fn status_words_follow_the_connection() {
    let mut app = open_wifi();
    assert_eq!(app.heading(), "1/3  ENTER NETWORK NAME");
    assert_eq!(app.wifi_error_text(), None);
    assert_eq!(app.wifi_progress_text(), None);
    tap(&mut app, KEY_ABC);
    tap(&mut app, ACTION);
    assert_eq!(app.heading(), "2/3  ENTER PASSWORD");
    tap(&mut app, ACTION);
    assert_eq!(app.heading(), "3/3  REVIEW AND CONNECT");
    tap(&mut app, ACTION);
    assert_eq!(app.wifi_state(), WifiState::Connecting);
    assert_eq!(app.wifi_progress_text(), Some("CONNECTING..."));
    app.wifi_state = WifiState::Connected;
    assert_eq!(app.wifi_progress_text(), Some("CONNECTED"));
    assert_eq!(app.wifi_error_text(), None);
    app.wifi_state = WifiState::Error;
    assert_eq!(app.wifi_progress_text(), None);
    assert_eq!(app.wifi_error_text(), Some("CONNECTION FAILED - EDIT OR RETRY"));
}

#[test]
fn clock_format_label_follows_the_setting() {
    let mut app = SettingsApp::new();
    assert_eq!(app.clock_format_label(), "24 H");
    let mut s = WatchSettings::default();
    s.set_use_24_hour_clock(false);
    app.set_watch_settings(s);
    assert_eq!(app.clock_format_label(), "12 H");
}

#[test]
fn each_connect_gives_one_request() {
    let mut app = open_wifi();
    tap(&mut app, KEY_ABC);
    tap(&mut app, ACTION);
    tap(&mut app, ACTION);
    app.update(2_000);
    assert!(!app.take_connection_request());
    tap(&mut app, ACTION);
    app.update(2_000);
    tap(&mut app, ACTION);
    assert!(app.take_connection_request());
    assert!(!app.take_connection_request());
    app.wifi_state = WifiState::Error;
    tap(&mut app, ACTION);
    assert!(app.take_connection_request());
}
