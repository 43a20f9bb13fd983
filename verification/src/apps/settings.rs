//! Settings application: a home screen of setting cards, a time-zone
//! screen, and on-watch Wi-Fi setup with one field per screen (network
//! name, password, review) above a large T9 keyboard.

use vstd::prelude::*;
use vstd::string::StringSliceAdditionalSpecFns;
use vstd::utf8::encode_utf8;
use crate::peripherals::wifi::{WifiConfig, WifiConfigView, WifiState};
use crate::product::settings::{
    default_settings, kept_utc_offset, WatchSettings, MAX_UTC_OFFSET_SECONDS, MIN_UTC_OFFSET_SECONDS,
};
use crate::ui::t9_keyboard::{appended_text, text_of, KeyboardView, T9Keyboard, MAX_TEXT_LEN};

verus! {

/// Left edge of the action button (NEXT / REVIEW / CONNECT / RETRY).
pub const ACTION_X: i32 = 278;
/// Top edge of the action button.
pub const ACTION_Y: i32 = 46;
/// Width of the action button.
pub const ACTION_W: u32 = 116;
/// Height of the action button.
pub const ACTION_H: u32 = 42;
/// One hour in seconds: the step of the time-zone buttons.
pub const HOUR_SECONDS: i32 = 3600;

/// The Wi-Fi setup page being shown.
#[derive(Clone, Copy, Debug, PartialEq, Eq, Structural)]
pub enum SetupStep {
    Ssid,
    Password,
    Review,
}

/// The settings screen being shown.
#[derive(Clone, Copy, Debug, PartialEq, Eq, Structural)]
pub enum SettingsView {
    Home,
    Wifi,
    TimeZone,
}

/// How the action button is coloured: as usual, or as an error to retry.
#[derive(Clone, Copy, Debug, PartialEq, Eq, Structural)]
pub enum ActionTone {
    Normal,
    Alert,
}

/// Whether a tap hits the action button.
pub open spec fn in_action(x: u16, y: u16) -> bool {
    ACTION_X <= x < ACTION_X + ACTION_W && ACTION_Y <= y < ACTION_Y + ACTION_H
}

/// Whether a tap is within the column of full-width cards.
pub open spec fn in_card_column(x: u16) -> bool {
    16 <= x <= 394
}

/// The state of the settings application.
pub struct SettingsAppState {
    pub wifi_config: WifiConfigView,
    pub wifi_state: WifiState,
    pub keyboard: KeyboardView,
    pub step: SetupStep,
    pub screen: SettingsView,
    pub watch_settings: WatchSettings,
    pub settings_changed: bool,
    pub connection_request_pending: bool,
}

impl SettingsAppState {
    /// The state with the keyboard's text stored in the field being edited.
    pub open spec fn field_saved(self) -> SettingsAppState {
        match self.step {
            SetupStep::Ssid => SettingsAppState {
                wifi_config: WifiConfigView { ssid: text_of(self.keyboard.text), ..self.wifi_config },
                ..self
            },
            SetupStep::Password => SettingsAppState {
                wifi_config: WifiConfigView {
                    password: text_of(self.keyboard.text),
                    ..self.wifi_config
                },
                ..self
            },
            SetupStep::Review => self,
        }
    }

    /// The keyboard shown, committed, with `value` as its text.
    pub open spec fn keyboard_editing(self, value: Seq<char>) -> KeyboardView {
        KeyboardView {
            text: appended_text(Seq::empty(), encode_utf8(value)),
            active: true,
            ..self.keyboard.committed()
        }
    }

    /// The state editing the network name: its page, with the keyboard
    /// holding the current name, and the connection reset.
    pub open spec fn editing_ssid(self) -> SettingsAppState {
        SettingsAppState {
            step: SetupStep::Ssid,
            keyboard: self.keyboard_editing(self.wifi_config.ssid),
            wifi_state: WifiState::Disconnected,
            ..self
        }
    }

    /// The state editing the password: its page, with the keyboard holding
    /// the current password, and the connection reset.
    pub open spec fn editing_password(self) -> SettingsAppState {
        SettingsAppState {
            step: SetupStep::Password,
            keyboard: self.keyboard_editing(self.wifi_config.password),
            wifi_state: WifiState::Disconnected,
            ..self
        }
    }

    /// A tap on the home screen: the Wi-Fi card opens network-name entry,
    /// the clock-format card toggles 24-hour time, the time-zone card opens
    /// its screen. Other taps are not taken.
    pub open spec fn after_home_tap(self, x: u16, y: u16) -> (SettingsAppState, bool) {
        if !in_card_column(x) {
            (self, false)
        } else if 92 <= y <= 157 {
            (SettingsAppState { screen: SettingsView::Wifi, ..self }.editing_ssid(), true)
        } else if 170 <= y <= 235 {
            (
                SettingsAppState {
                    watch_settings: self.watch_settings.with_24_hour_clock(
                        !self.watch_settings.spec_use_24_hour_clock(),
                    ),
                    settings_changed: true,
                    ..self
                },
                true,
            )
        } else if 248 <= y <= 313 {
            (SettingsAppState { screen: SettingsView::TimeZone, ..self }, true)
        } else {
            (self, false)
        }
    }

    /// A tap on the time-zone screen: the two cards move the UTC offset one
    /// hour west or east (within the real-world range), DONE returns home.
    pub open spec fn after_timezone_tap(self, x: u16, y: u16) -> (SettingsAppState, bool) {
        let offset = self.watch_settings.spec_utc_offset_seconds();
        if in_card_column(x) && 150 <= y <= 230 {
            (
                SettingsAppState {
                    watch_settings: self.watch_settings.with_utc_offset((offset - HOUR_SECONDS) as i32),
                    settings_changed: true,
                    ..self
                },
                true,
            )
        } else if in_card_column(x) && 245 <= y <= 325 {
            (
                SettingsAppState {
                    watch_settings: self.watch_settings.with_utc_offset((offset + HOUR_SECONDS) as i32),
                    settings_changed: true,
                    ..self
                },
                true,
            )
        } else if in_card_column(x) && 360 <= y <= 435 {
            (SettingsAppState { screen: SettingsView::Home, ..self }, true)
        } else {
            (self, false)
        }
    }

    /// A tap during Wi-Fi setup. While connecting or connected every tap is
    /// taken and changes nothing. On the name page, the action (NEXT) saves
    /// the name and moves to the password page when a name exists, or shows
    /// an error; on the password page the action (REVIEW) saves the password
    /// and moves to the review page without requiring one. On both pages a
    /// tap the keyboard takes updates the field. On the review page the
    /// action (CONNECT / RETRY) requests a connection when a name exists, or
    /// returns to the name page with an error; the password and network
    /// cards reopen their pages.
    pub open spec fn after_wifi_tap(self, x: u16, y: u16) -> (SettingsAppState, bool) {
        if self.wifi_state == WifiState::Connecting || self.wifi_state == WifiState::Connected {
            (self, true)
        } else {
            match self.step {
                SetupStep::Ssid => {
                    if in_action(x, y) {
                        let saved = self.field_saved();
                        if saved.wifi_config.ssid.len() > 0 {
                            (saved.editing_password(), true)
                        } else {
                            (SettingsAppState { wifi_state: WifiState::Error, ..saved }, true)
                        }
                    } else {
                        let (keyboard, taken) = self.keyboard.after_tap(x, y);
                        if taken {
                            (
                                SettingsAppState {
                                    wifi_state: WifiState::Disconnected,
                                    ..SettingsAppState { keyboard, ..self }.field_saved()
                                },
                                true,
                            )
                        } else {
                            (self, false)
                        }
                    }
                },
                SetupStep::Password => {
                    if in_action(x, y) {
                        let saved = self.field_saved();
                        (
                            SettingsAppState {
                                step: SetupStep::Review,
                                keyboard: KeyboardView { active: false, ..saved.keyboard.committed() },
                                wifi_state: WifiState::Disconnected,
                                ..saved
                            },
                            true,
                        )
                    } else {
                        let (keyboard, taken) = self.keyboard.after_tap(x, y);
                        if taken {
                            (
                                SettingsAppState {
                                    wifi_state: WifiState::Disconnected,
                                    ..SettingsAppState { keyboard, ..self }.field_saved()
                                },
                                true,
                            )
                        } else {
                            (self, false)
                        }
                    }
                },
                SetupStep::Review => {
                    if in_action(x, y) {
                        if self.wifi_config.ssid.len() > 0 {
                            (
                                SettingsAppState {
                                    wifi_state: WifiState::Connecting,
                                    connection_request_pending: true,
                                    ..self
                                },
                                true,
                            )
                        } else {
                            (
                                SettingsAppState { wifi_state: WifiState::Error, ..self.editing_ssid() },
                                true,
                            )
                        }
                    } else if in_card_column(x) && 280 <= y <= 355 {
                        (self.editing_password(), true)
                    } else if in_card_column(x) && 190 <= y <= 265 {
                        (self.editing_ssid(), true)
                    } else {
                        (self, false)
                    }
                },
            }
        }
    }

    /// The state after a tap, and whether the application took it.
    pub open spec fn after_tap(self, x: u16, y: u16) -> (SettingsAppState, bool) {
        match self.screen {
            SettingsView::Home => self.after_home_tap(x, y),
            SettingsView::TimeZone => self.after_timezone_tap(x, y),
            SettingsView::Wifi => self.after_wifi_tap(x, y),
        }
    }

    /// The state after `dt_ms` milliseconds: the keyboard's clock advances,
    /// and a character it commits is stored in the field being edited.
    pub open spec fn after_time(self, dt_ms: u32) -> SettingsAppState {
        let (keyboard, committed) = self.keyboard.after_time(dt_ms);
        let advanced = SettingsAppState { keyboard, ..self };
        if committed {
            advanced.field_saved()
        } else {
            advanced
        }
    }
}

/// The settings application.
pub struct SettingsApp {
    pub wifi_config: WifiConfig,
    pub wifi_state: WifiState,
    pub keyboard: T9Keyboard,
    step: SetupStep,
    view: SettingsView,
    watch_settings: WatchSettings,
    settings_changed: bool,
    connection_request_pending: bool,
}

impl View for SettingsApp {
    type V = SettingsAppState;

    closed spec fn view(&self) -> SettingsAppState {
        SettingsAppState {
            wifi_config: self.wifi_config@,
            wifi_state: self.wifi_state,
            keyboard: self.keyboard@,
            step: self.step,
            screen: self.view,
            watch_settings: self.watch_settings,
            settings_changed: self.settings_changed,
            connection_request_pending: self.connection_request_pending,
        }
    }
}

/// The "UTC+hh" label of an offset: whole hours toward zero, with a minus
/// sign only when at least one whole hour west of UTC.
pub open spec fn timezone_text(offset_seconds: i32) -> Seq<u8> {
    let magnitude = if offset_seconds < 0 { -offset_seconds } else { offset_seconds as int };
    let hours = magnitude / 3600;
    let sign = if offset_seconds < 0 && hours > 0 { 0x2du8 } else { 0x2bu8 };
    seq![0x55u8, 0x54u8, 0x43u8, sign, (0x30 + hours / 10) as u8, (0x30 + hours % 10) as u8]
}

/// What the review page's two cards show: the network name, or "NOT SET"
/// when there is none; and the password masked as "********", or "OPEN
/// NETWORK" when there is none.
pub open spec fn review_cards_of(v: SettingsAppState) -> (Seq<char>, &'static str) {
    (
        if v.wifi_config.ssid.len() == 0 { "NOT SET"@ } else { v.wifi_config.ssid },
        if v.wifi_config.password.len() == 0 { "OPEN NETWORK" } else { "********" },
    )
}

/// The error instruction shown during Wi-Fi setup, if the connection is in
/// error: on the name page, a request for a name; otherwise a request to
/// edit or retry.
pub open spec fn wifi_error_text_of(v: SettingsAppState) -> Option<&'static str> {
    if v.wifi_state == WifiState::Error {
        Some(
            if v.step == SetupStep::Ssid {
                "ENTER A NETWORK NAME"
            } else {
                "CONNECTION FAILED - EDIT OR RETRY"
            },
        )
    } else {
        None
    }
}

/// The connection progress shown in words, while connecting or connected.
pub open spec fn wifi_progress_text_of(v: SettingsAppState) -> Option<&'static str> {
    if v.wifi_state == WifiState::Connecting {
        Some("CONNECTING...")
    } else if v.wifi_state == WifiState::Connected {
        Some("CONNECTED")
    } else {
        None
    }
}

/// The heading of each Wi-Fi setup page.
pub open spec fn heading_of(step: SetupStep) -> &'static str {
    match step {
        SetupStep::Ssid => "1/3  ENTER NETWORK NAME",
        SetupStep::Password => "2/3  ENTER PASSWORD",
        SetupStep::Review => "3/3  REVIEW AND CONNECT",
    }
}

/// The clock-format card's value.
pub open spec fn clock_format_label_of(use_24_hour_clock: bool) -> &'static str {
    if use_24_hour_clock {
        "24 H"
    } else {
        "12 H"
    }
}

/// The state after a connection request is taken, and whether one was made.
pub open spec fn after_take_request(v: SettingsAppState) -> (SettingsAppState, bool) {
    (SettingsAppState { connection_request_pending: false, ..v }, v.connection_request_pending)
}

/// The label and tone of the action button on each Wi-Fi page.
pub open spec fn action_label_of(step: SetupStep, state: WifiState) -> (&'static str, ActionTone) {
    match step {
        SetupStep::Ssid => ("NEXT", ActionTone::Normal),
        SetupStep::Password => ("REVIEW", ActionTone::Normal),
        SetupStep::Review => {
            if state == WifiState::Error {
                ("RETRY", ActionTone::Alert)
            } else {
                ("CONNECT", ActionTone::Normal)
            }
        },
    }
}

impl SettingsApp {
    /// The home screen, with the keyboard shown and empty for network-name
    /// entry, no network, and default watch settings.
    pub fn new() -> (r: Self)
        ensures
            r@.keyboard == (KeyboardView {
                text: Seq::empty(),
                mode: crate::ui::t9_keyboard::Mode::Lower,
                last_key: -1,
                char_index: 0,
                commit_timer: 0,
                active: true,
                pending_char: false,
            }),
            r@.wifi_config.ssid == Seq::<char>::empty(),
            r@.wifi_config.password == Seq::<char>::empty(),
            r@.wifi_state == WifiState::Disconnected,
            r@.step == SetupStep::Ssid,
            r@.screen == SettingsView::Home,
            r@.watch_settings == default_settings(),
            !r@.settings_changed,
            !r@.connection_request_pending,
    {
        let mut keyboard = T9Keyboard::new();
        keyboard.show();
        SettingsApp {
            wifi_config: WifiConfig::new(),
            wifi_state: WifiState::Disconnected,
            keyboard,
            step: SetupStep::Ssid,
            view: SettingsView::Home,
            watch_settings: WatchSettings::default(),
            settings_changed: false,
            connection_request_pending: false,
        }
    }

    /// Replaces the watch settings with those loaded from storage; they are
    /// not a change to save.
    pub fn set_watch_settings(&mut self, settings: WatchSettings)
        ensures
            final(self)@ == (SettingsAppState {
                watch_settings: settings,
                settings_changed: false,
                ..old(self)@
            }),
    {
        self.watch_settings = settings;
        self.settings_changed = false;
    }

    /// The watch settings if the wearer changed them since the last call
    /// (or since they were set), clearing the change.
    pub fn take_watch_settings_change(&mut self) -> (r: Option<WatchSettings>)
        ensures
            r == (if old(self)@.settings_changed {
                Some(old(self)@.watch_settings)
            } else {
                None
            }),
            final(self)@ == (SettingsAppState { settings_changed: false, ..old(self)@ }),
    {
        if self.settings_changed {
            self.settings_changed = false;
            Some(self.watch_settings)
        } else {
            None
        }
    }

    /// The current watch settings.
    pub fn watch_settings(&self) -> (r: WatchSettings)
        ensures
            r == self@.watch_settings,
    {
        self.watch_settings
    }

    /// The screen being shown.
    pub fn screen(&self) -> (r: SettingsView)
        ensures
            r == self@.screen,
    {
        self.view
    }

    /// The Wi-Fi setup page being shown.
    pub fn step(&self) -> (r: SetupStep)
        ensures
            r == self@.step,
    {
        self.step
    }

    /// Whether a tap hits the action button.
    fn action_hit(x: u16, y: u16) -> (r: bool)
        ensures
            r == in_action(x, y),
    {
        (x as i32) >= ACTION_X && (x as i32) < ACTION_X + ACTION_W as i32 && (y as i32) >= ACTION_Y
            && (y as i32) < ACTION_Y + ACTION_H as i32
    }

    /// Stores the keyboard's text in the field being edited.
    fn save_active_field(&mut self)
        ensures
            final(self)@ == old(self)@.field_saved(),
    {
        match self.step {
            SetupStep::Ssid => self.wifi_config.set_ssid(self.keyboard.get_text()),
            SetupStep::Password => self.wifi_config.set_password(self.keyboard.get_text()),
            SetupStep::Review => {},
        }
    }

    /// Opens network-name entry with the current name.
    fn edit_ssid(&mut self)
        ensures
            final(self)@ == old(self)@.editing_ssid(),
    {
        self.step = SetupStep::Ssid;
        self.keyboard.set_text(self.wifi_config.ssid_str());
        self.keyboard.show();
        self.wifi_state = WifiState::Disconnected;
    }

    /// Opens password entry with the current password.
    fn edit_password(&mut self)
        ensures
            final(self)@ == old(self)@.editing_password(),
    {
        self.step = SetupStep::Password;
        self.keyboard.set_text(self.wifi_config.password_str());
        self.keyboard.show();
        self.wifi_state = WifiState::Disconnected;
    }

    /// Handles a tap at screen position (`x`, `y`). Returns whether it was
    /// taken (see `SettingsAppState::after_tap`).
    pub fn handle_tap(&mut self, x: u16, y: u16) -> (taken: bool)
        ensures
            (final(self)@, taken) == old(self)@.after_tap(x, y),
    {
        match self.view {
            SettingsView::Home => return self.handle_home_tap(x, y),
            SettingsView::TimeZone => return self.handle_timezone_tap(x, y),
            SettingsView::Wifi => {},
        }
        if self.wifi_state == WifiState::Connecting || self.wifi_state == WifiState::Connected {
            return true;
        }
        match self.step {
            SetupStep::Ssid => {
                if Self::action_hit(x, y) {
                    self.save_active_field();
                    if self.wifi_config.is_ready() {
                        self.edit_password();
                    } else {
                        self.wifi_state = WifiState::Error;
                    }
                    return true;
                }
                if self.keyboard.handle_tap(x, y) {
                    self.save_active_field();
                    self.wifi_state = WifiState::Disconnected;
                    return true;
                }
            },
            SetupStep::Password => {
                if Self::action_hit(x, y) {
                    self.save_active_field();
                    self.step = SetupStep::Review;
                    self.keyboard.hide_keyboard();
                    self.wifi_state = WifiState::Disconnected;
                    return true;
                }
                if self.keyboard.handle_tap(x, y) {
                    self.save_active_field();
                    self.wifi_state = WifiState::Disconnected;
                    return true;
                }
            },
            SetupStep::Review => {
                if Self::action_hit(x, y) {
                    if self.wifi_config.is_ready() {
                        self.wifi_state = WifiState::Connecting;
                        self.connection_request_pending = true;
                    } else {
                        self.edit_ssid();
                        self.wifi_state = WifiState::Error;
                    }
                    return true;
                }
                // A large dedicated edit target avoids returning to a dense form.
                if 16 <= x && x <= 394 && 280 <= y && y <= 355 {
                    self.edit_password();
                    return true;
                }
                if 16 <= x && x <= 394 && 190 <= y && y <= 265 {
                    self.edit_ssid();
                    return true;
                }
            },
        }
        false
    }

    /// Handles a tap on the home screen.
    fn handle_home_tap(&mut self, x: u16, y: u16) -> (taken: bool)
        ensures
            (final(self)@, taken) == old(self)@.after_home_tap(x, y),
    {
        if !(16 <= x && x <= 394) {
            return false;
        }
        if 92 <= y && y <= 157 {
            self.view = SettingsView::Wifi;
            self.edit_ssid();
            true
        } else if 170 <= y && y <= 235 {
            let use_24_hour_clock = self.watch_settings.use_24_hour_clock();
            self.watch_settings.set_use_24_hour_clock(!use_24_hour_clock);
            self.settings_changed = true;
            true
        } else if 248 <= y && y <= 313 {
            self.view = SettingsView::TimeZone;
            true
        } else {
            false
        }
    }

    /// Handles a tap on the time-zone screen.
    fn handle_timezone_tap(&mut self, x: u16, y: u16) -> (taken: bool)
        ensures
            (final(self)@, taken) == old(self)@.after_timezone_tap(x, y),
    {
        if 16 <= x && x <= 394 && 150 <= y && y <= 230 {
            let offset = self.watch_settings.utc_offset_seconds();
            self.watch_settings.set_utc_offset_seconds(offset - HOUR_SECONDS);
            self.settings_changed = true;
            return true;
        }
        if 16 <= x && x <= 394 && 245 <= y && y <= 325 {
            let offset = self.watch_settings.utc_offset_seconds();
            self.watch_settings.set_utc_offset_seconds(offset + HOUR_SECONDS);
            self.settings_changed = true;
            return true;
        }
        if 16 <= x && x <= 394 && 360 <= y && y <= 435 {
            self.view = SettingsView::Home;
            return true;
        }
        false
    }

    /// Advances the application's clock by `dt_ms` (see
    /// `SettingsAppState::after_time`).
    pub fn update(&mut self, dt_ms: u32)
        requires
            old(self)@.keyboard.active && old(self)@.keyboard.pending_char
                ==> old(self)@.keyboard.commit_timer + dt_ms <= u32::MAX,
        ensures
            final(self)@ == old(self)@.after_time(dt_ms),
    {
        if self.keyboard.update(dt_ms) {
            self.save_active_field();
        }
    }

    /// Takes the single connection request made by the review page's
    /// CONNECT action: true once per request.
    pub fn take_connection_request(&mut self) -> (requested: bool)
        ensures
            (final(self)@, requested) == after_take_request(old(self)@),
    {
        let requested = self.connection_request_pending;
        self.connection_request_pending = false;
        requested
    }

    /// The connection's progress.
    pub fn wifi_state(&self) -> (r: WifiState)
        ensures
            r == self@.wifi_state,
    {
        self.wifi_state
    }

    /// The entered network name and password.
    pub fn wifi_config(&self) -> (r: &WifiConfig)
        ensures
            r@ == self@.wifi_config,
    {
        &self.wifi_config
    }

    /// The keyboard of the Wi-Fi pages.
    pub fn keyboard(&self) -> (r: &T9Keyboard)
        ensures
            r@ == self@.keyboard,
    {
        &self.keyboard
    }

    /// What the review page's cards show (see `review_cards_of`).
    pub fn review_cards(&self) -> (r: (&str, &'static str))
        ensures
            (r.0@, r.1) == review_cards_of(self@),
    {
        let ssid = self.wifi_config.ssid_str();
        let network = if ssid.is_empty() {
            "NOT SET"
        } else {
            ssid
        };
        let password = if self.wifi_config.password_str().is_empty() {
            "OPEN NETWORK"
        } else {
            "********"
        };
        (network, password)
    }

    /// The error instruction to show, if any (see `wifi_error_text_of`).
    pub fn wifi_error_text(&self) -> (r: Option<&'static str>)
        ensures
            r == wifi_error_text_of(self@),
    {
        if self.wifi_state == WifiState::Error {
            Some(
                if self.step == SetupStep::Ssid {
                    "ENTER A NETWORK NAME"
                } else {
                    "CONNECTION FAILED - EDIT OR RETRY"
                },
            )
        } else {
            None
        }
    }

    /// The connection progress to show, if any (see `wifi_progress_text_of`).
    pub fn wifi_progress_text(&self) -> (r: Option<&'static str>)
        ensures
            r == wifi_progress_text_of(self@),
    {
        match self.wifi_state {
            WifiState::Connecting => Some("CONNECTING..."),
            WifiState::Connected => Some("CONNECTED"),
            _ => None,
        }
    }

    /// The heading of the current Wi-Fi setup page.
    pub fn heading(&self) -> (r: &'static str)
        ensures
            r == heading_of(self@.step),
    {
        match self.step {
            SetupStep::Ssid => "1/3  ENTER NETWORK NAME",
            SetupStep::Password => "2/3  ENTER PASSWORD",
            SetupStep::Review => "3/3  REVIEW AND CONNECT",
        }
    }

    /// The clock-format card's value: "24 H" or "12 H".
    pub fn clock_format_label(&self) -> (r: &'static str)
        ensures
            r == clock_format_label_of(self@.watch_settings.spec_use_24_hour_clock()),
    {
        if self.watch_settings.use_24_hour_clock() {
            "24 H"
        } else {
            "12 H"
        }
    }

    /// The label and tone of the action button on the current page.
    pub fn action_label(&self) -> (r: (&'static str, ActionTone))
        ensures
            r == action_label_of(self@.step, self@.wifi_state),
    {
        match self.step {
            SetupStep::Ssid => ("NEXT", ActionTone::Normal),
            SetupStep::Password => ("REVIEW", ActionTone::Normal),
            SetupStep::Review => match self.wifi_state {
                WifiState::Error => ("RETRY", ActionTone::Alert),
                _ => ("CONNECT", ActionTone::Normal),
            },
        }
    }

    /// The time-zone label of the current settings (see `timezone_text`).
    pub fn timezone_label(&self) -> (r: [u8; 6])
        ensures
            r@ == timezone_text(self@.watch_settings.spec_utc_offset_seconds()),
    {
        let offset = self.watch_settings.utc_offset_seconds();
        let magnitude: u32 = if offset < 0 { (-offset) as u32 } else { offset as u32 };
        let hours = magnitude / 3600;
        let sign = if offset < 0 && hours > 0 { 0x2du8 } else { 0x2bu8 };
        let mut label = [0x55u8, 0x54u8, 0x43u8, sign, 0x30u8, 0x30u8];
        label[4] = 0x30 + (hours / 10) as u8;
        label[5] = 0x30 + (hours % 10) as u8;
        assert(label@ =~= timezone_text(offset));
        label
    }
}

/// On the network-name page, NEXT moves on to the password only when a
/// network name was entered; otherwise the page stays and shows an error.
pub proof fn lemma_next_requires_name(v: SettingsAppState, x: u16, y: u16)
    requires
        v.screen == SettingsView::Wifi,
        v.step == SetupStep::Ssid,
        v.wifi_state == WifiState::Disconnected || v.wifi_state == WifiState::Error,
        in_action(x, y),
    ensures
        ({
            let (w, taken) = v.after_tap(x, y);
            &&& taken
            &&& w.wifi_config.ssid == text_of(v.keyboard.text)
            &&& (w.step == SetupStep::Password) == (text_of(v.keyboard.text).len() > 0)
            &&& w.step != SetupStep::Password ==> w.wifi_state == WifiState::Error
        }),
{
}

/// On the password page, REVIEW always reaches the review page, with or
/// without a password, so open networks remain possible; the keyboard is
/// put away.
pub proof fn lemma_review_needs_no_password(v: SettingsAppState, x: u16, y: u16)
    requires
        v.screen == SettingsView::Wifi,
        v.step == SetupStep::Password,
        v.wifi_state == WifiState::Disconnected || v.wifi_state == WifiState::Error,
        in_action(x, y),
    ensures
        ({
            let (w, taken) = v.after_tap(x, y);
            &&& taken
            &&& w.step == SetupStep::Review
            &&& w.wifi_config.password == text_of(v.keyboard.text)
            &&& !w.keyboard.active
            &&& w.wifi_state == WifiState::Disconnected
        }),
{
}

/// CONNECT on the review page makes one connection request when a network
/// name exists: the request is taken once, and taking again finds none.
/// While connecting, further taps change nothing.
pub proof fn lemma_connect_requests_once(v: SettingsAppState, x: u16, y: u16, x2: u16, y2: u16)
    requires
        v.screen == SettingsView::Wifi,
        v.step == SetupStep::Review,
        v.wifi_state == WifiState::Disconnected || v.wifi_state == WifiState::Error,
        v.wifi_config.ssid.len() > 0,
        in_action(x, y),
    ensures
        ({
            let (w, taken) = v.after_tap(x, y);
            let taken_once = SettingsAppState { connection_request_pending: false, ..w };
            &&& taken
            &&& w.wifi_state == WifiState::Connecting
            &&& w.connection_request_pending
            &&& !taken_once.connection_request_pending
            &&& w.after_tap(x2, y2) == (w, true)
        }),
{
}

/// The time-zone buttons keep the offset within the real-world range, and
/// one hour east undoes one hour west (and the reverse) wherever the first
/// step was not clamped.
pub proof fn lemma_timezone_steps(v: SettingsAppState, x: u16, west_y: u16, east_y: u16)
    requires
        v.screen == SettingsView::TimeZone,
        v.watch_settings.is_valid(),
        in_card_column(x),
        150 <= west_y <= 230,
        245 <= east_y <= 325,
    ensures
        ({
            let offset = v.watch_settings.spec_utc_offset_seconds();
            let west = v.after_tap(x, west_y).0;
            let east = v.after_tap(x, east_y).0;
            &&& west.watch_settings.is_valid()
            &&& east.watch_settings.is_valid()
            &&& offset - HOUR_SECONDS >= MIN_UTC_OFFSET_SECONDS ==> west.after_tap(x, east_y).0.watch_settings
                == v.watch_settings
            &&& offset + HOUR_SECONDS <= MAX_UTC_OFFSET_SECONDS ==> east.after_tap(x, west_y).0.watch_settings
                == v.watch_settings
        }),
{
    let s = v.watch_settings;
    let offset = s.spec_utc_offset_seconds();
    let west = s.with_utc_offset((offset - HOUR_SECONDS) as i32);
    let east = s.with_utc_offset((offset + HOUR_SECONDS) as i32);
    WatchSettings::lemma_settings_of_fields(
        s.spec_brightness(),
        s.spec_active_watchface(),
        s.spec_use_24_hour_clock(),
        kept_utc_offset((offset - HOUR_SECONDS) as i32),
        s.spec_alarm_enabled(),
        s.spec_alarm_hour(),
        s.spec_alarm_minute(),
    );
    WatchSettings::lemma_settings_of_fields(
        s.spec_brightness(),
        s.spec_active_watchface(),
        s.spec_use_24_hour_clock(),
        kept_utc_offset((offset + HOUR_SECONDS) as i32),
        s.spec_alarm_enabled(),
        s.spec_alarm_hour(),
        s.spec_alarm_minute(),
    );
    if offset - HOUR_SECONDS >= MIN_UTC_OFFSET_SECONDS {
        let back = west.with_utc_offset((west.spec_utc_offset_seconds() + HOUR_SECONDS) as i32);
        WatchSettings::lemma_settings_of_fields(
            s.spec_brightness(),
            s.spec_active_watchface(),
            s.spec_use_24_hour_clock(),
            kept_utc_offset((offset - HOUR_SECONDS + HOUR_SECONDS) as i32),
            s.spec_alarm_enabled(),
            s.spec_alarm_hour(),
            s.spec_alarm_minute(),
        );
        s.lemma_equal_fields(back);
    }
    if offset + HOUR_SECONDS <= MAX_UTC_OFFSET_SECONDS {
        let back = east.with_utc_offset((east.spec_utc_offset_seconds() - HOUR_SECONDS) as i32);
        WatchSettings::lemma_settings_of_fields(
            s.spec_brightness(),
            s.spec_active_watchface(),
            s.spec_use_24_hour_clock(),
            kept_utc_offset((offset + HOUR_SECONDS - HOUR_SECONDS) as i32),
            s.spec_alarm_enabled(),
            s.spec_alarm_hour(),
            s.spec_alarm_minute(),
        );
        s.lemma_equal_fields(back);
    }
}

/// The review page's cards reveal nothing of a password but whether there is
/// one: two states that differ only in a non-empty password show the same
/// cards.
pub proof fn lemma_review_cards_mask_password(v: SettingsAppState, password: Seq<char>)
    requires
        v.wifi_config.password.len() > 0,
        password.len() > 0,
    ensures
        review_cards_of(
            SettingsAppState {
                wifi_config: WifiConfigView { password, ..v.wifi_config },
                ..v
            },
        ) == review_cards_of(v),
{
}

/// A connection request is raised only by CONNECT on the review page when a
/// network name exists; passing time and every other tap leave it as it was;
/// and once taken, taking again finds none until the next CONNECT.
pub proof fn lemma_connection_request_only_from_connect(v: SettingsAppState, x: u16, y: u16, dt_ms: u32)
    ensures
        v.after_tap(x, y).0.connection_request_pending != v.connection_request_pending ==> {
            &&& !v.connection_request_pending
            &&& v.after_tap(x, y).0.connection_request_pending
            &&& v.screen == SettingsView::Wifi
            &&& v.step == SetupStep::Review
            &&& v.wifi_state == WifiState::Disconnected || v.wifi_state == WifiState::Error
            &&& in_action(x, y)
            &&& v.wifi_config.ssid.len() > 0
        },
        v.after_time(dt_ms).connection_request_pending == v.connection_request_pending,
        after_take_request(v).1 == v.connection_request_pending,
        after_take_request(after_take_request(v).0).1 == false,
{
}

/// Something that happens to the settings application between two takes of
/// its connection request: a tap at a screen position, or time passing.
pub enum SettingsEvent {
    Tap(u16, u16),
    Time(u32),
}

/// The state after the events, in order.
pub open spec fn after_events(v: SettingsAppState, events: Seq<SettingsEvent>) -> SettingsAppState
    decreases events.len(),
{
    if events.len() == 0 {
        v
    } else {
        let before = after_events(v, events.drop_last());
        match events.last() {
            SettingsEvent::Tap(x, y) => before.after_tap(x, y).0,
            SettingsEvent::Time(dt_ms) => before.after_time(dt_ms),
        }
    }
}

/// Whether a tap at (`x`, `y`) is CONNECT on the review page with a network
/// name entered.
pub open spec fn is_connect_tap(v: SettingsAppState, x: u16, y: u16) -> bool {
    &&& v.screen == SettingsView::Wifi
    &&& v.step == SetupStep::Review
    &&& v.wifi_state == WifiState::Disconnected || v.wifi_state == WifiState::Error
    &&& in_action(x, y)
    &&& v.wifi_config.ssid.len() > 0
}

/// Whether any of the events, applied in order from `v`, is a CONNECT tap.
pub open spec fn connects_during(v: SettingsAppState, events: Seq<SettingsEvent>) -> bool
    decreases events.len(),
{
    if events.len() == 0 {
        false
    } else {
        connects_during(v, events.drop_last()) || match events.last() {
            SettingsEvent::Tap(x, y) => is_connect_tap(after_events(v, events.drop_last()), x, y),
            SettingsEvent::Time(_) => false,
        }
    }
}

/// Each connection request is taken exactly once: after a take, whatever
/// taps and time follow, the next take reports a request exactly when one of
/// those taps was CONNECT on the review page with a network name entered.
pub proof fn lemma_request_taken_once_per_connect(v: SettingsAppState, events: Seq<SettingsEvent>)
    ensures
        ({
            let taken = after_take_request(v).0;
            after_take_request(after_events(taken, events)).1 == connects_during(taken, events)
        }),
    decreases events.len(),
{
    let taken = after_take_request(v).0;
    if events.len() > 0 {
        lemma_request_taken_once_per_connect(v, events.drop_last());
        let before = after_events(taken, events.drop_last());
        match events.last() {
            SettingsEvent::Tap(x, y) => {
                lemma_connection_request_only_from_connect(before, x, y, 0);
            },
            SettingsEvent::Time(dt_ms) => {
                lemma_connection_request_only_from_connect(before, 0, 0, dt_ms);
            },
        }
    }
}

/// NEXT on the network-name page, with a name entered, keeps the password
/// entered before: the password page opens with the keyboard holding that
/// password's UTF-8 bytes (as far as they fit in the text limit), ready for
/// a new sequence.
pub proof fn lemma_next_keeps_password(v: SettingsAppState, x: u16, y: u16)
    requires
        v.screen == SettingsView::Wifi,
        v.step == SetupStep::Ssid,
        v.wifi_state == WifiState::Disconnected || v.wifi_state == WifiState::Error,
        in_action(x, y),
        text_of(v.keyboard.text).len() > 0,
    ensures
        ({
            let (w, taken) = v.after_tap(x, y);
            let bytes = encode_utf8(v.wifi_config.password);
            &&& taken
            &&& w.step == SetupStep::Password
            &&& w.wifi_config.password == v.wifi_config.password
            &&& w.keyboard.text == (if bytes.len() <= MAX_TEXT_LEN {
                bytes
            } else {
                bytes.take(MAX_TEXT_LEN as int)
            })
            &&& w.keyboard.active
            &&& !w.keyboard.pending_char
        }),
{
    let bytes = encode_utf8(v.wifi_config.password);
    if bytes.len() <= MAX_TEXT_LEN {
        assert(Seq::<u8>::empty() + bytes =~= bytes);
    } else {
        assert(Seq::<u8>::empty() + bytes.take(MAX_TEXT_LEN as int) =~= bytes.take(MAX_TEXT_LEN as int));
    }
}

/// A tap on the home screen's clock-format card switches between 24-hour and
/// 12-hour time, leaves every other setting as it was and marks the change
/// for saving; so a second tap restores the settings.
pub proof fn lemma_clock_card_toggles(v: SettingsAppState, x: u16, y: u16)
    requires
        v.screen == SettingsView::Home,
        in_card_column(x),
        170 <= y <= 235,
    ensures
        ({
            let (w, taken) = v.after_tap(x, y);
            let (u, again) = w.after_tap(x, y);
            let s = v.watch_settings;
            let t = w.watch_settings;
            &&& taken && again
            &&& t.spec_use_24_hour_clock() == !s.spec_use_24_hour_clock()
            &&& t.spec_brightness() == s.spec_brightness()
            &&& t.spec_active_watchface() == s.spec_active_watchface()
            &&& t.spec_utc_offset_seconds() == s.spec_utc_offset_seconds()
            &&& t.spec_alarm_enabled() == s.spec_alarm_enabled()
            &&& t.spec_alarm_hour() == s.spec_alarm_hour()
            &&& t.spec_alarm_minute() == s.spec_alarm_minute()
            &&& w.settings_changed
            &&& w.screen == SettingsView::Home
            &&& u.watch_settings == s
        }),
{
    let s = v.watch_settings;
    let t = s.with_24_hour_clock(!s.spec_use_24_hour_clock());
    WatchSettings::lemma_settings_of_fields(
        s.spec_brightness(),
        s.spec_active_watchface(),
        !s.spec_use_24_hour_clock(),
        s.spec_utc_offset_seconds(),
        s.spec_alarm_enabled(),
        s.spec_alarm_hour(),
        s.spec_alarm_minute(),
    );
    let u = t.with_24_hour_clock(!t.spec_use_24_hour_clock());
    WatchSettings::lemma_settings_of_fields(
        s.spec_brightness(),
        s.spec_active_watchface(),
        s.spec_use_24_hour_clock(),
        s.spec_utc_offset_seconds(),
        s.spec_alarm_enabled(),
        s.spec_alarm_hour(),
        s.spec_alarm_minute(),
    );
    s.lemma_equal_fields(u);
}

/// The time-zone label reads back the offset: "UTC", a minus sign exactly
/// when at least one whole hour west of UTC (a plus sign otherwise), and two
/// decimal digits giving the whole hours of the offset's magnitude.
pub proof fn lemma_timezone_text_reads_back(offset_seconds: i32)
    requires
        MIN_UTC_OFFSET_SECONDS <= offset_seconds <= MAX_UTC_OFFSET_SECONDS,
    ensures
        ({
            let t = timezone_text(offset_seconds);
            let magnitude = if offset_seconds < 0 { -offset_seconds } else { offset_seconds as int };
            &&& t.len() == 6
            &&& t[0] == 0x55 && t[1] == 0x54 && t[2] == 0x43
            &&& (t[3] == 0x2d) == (offset_seconds <= -HOUR_SECONDS)
            &&& t[3] == 0x2d || t[3] == 0x2b
            &&& 0x30 <= t[4] <= 0x39 && 0x30 <= t[5] <= 0x39
            &&& (t[4] - 0x30) * 10 + (t[5] - 0x30) == magnitude / (HOUR_SECONDS as int)
        }),
{
    let magnitude = if offset_seconds < 0 { -offset_seconds } else { offset_seconds as int };
    let hours = magnitude / 3600;
    assert(0 <= hours <= 14);
    assert((hours / 10) * 10 + hours % 10 == hours) by (nonlinear_arith)
        requires
            hours >= 0,
    ;
}

/// Reopening a field never loses what was entered: the home screen's Wi-Fi
/// card and the review page's network card open name entry, and the review
/// page's password card opens password entry, each with the keyboard
/// holding that field's current value (as far as it fits) and both fields
/// kept as they were.
pub proof fn lemma_reopening_keeps_fields(v: SettingsAppState, x: u16, y: u16)
    requires
        in_card_column(x),
        ({
            ||| v.screen == SettingsView::Home && 92 <= y <= 157
            ||| v.screen == SettingsView::Wifi && v.step == SetupStep::Review && (v.wifi_state
                == WifiState::Disconnected || v.wifi_state == WifiState::Error) && !in_action(x, y) && (
            190 <= y <= 265 || 280 <= y <= 355)
        }),
    ensures
        ({
            let (w, taken) = v.after_tap(x, y);
            let value = if w.step == SetupStep::Password {
                v.wifi_config.password
            } else {
                v.wifi_config.ssid
            };
            let bytes = encode_utf8(value);
            &&& taken
            &&& w.screen == SettingsView::Wifi
            &&& w.wifi_config == v.wifi_config
            &&& (w.step == SetupStep::Password) == (v.screen == SettingsView::Wifi && 280 <= y)
            &&& w.step != SetupStep::Review
            &&& w.keyboard.text == (if bytes.len() <= MAX_TEXT_LEN {
                bytes
            } else {
                bytes.take(MAX_TEXT_LEN as int)
            })
            &&& w.keyboard.active
            &&& !w.keyboard.pending_char
        }),
{
    let (w, _) = v.after_tap(x, y);
    let value = if w.step == SetupStep::Password {
        v.wifi_config.password
    } else {
        v.wifi_config.ssid
    };
    let bytes = encode_utf8(value);
    if bytes.len() <= MAX_TEXT_LEN {
        assert(Seq::<u8>::empty() + bytes =~= bytes);
    } else {
        assert(Seq::<u8>::empty() + bytes.take(MAX_TEXT_LEN as int) =~= bytes.take(MAX_TEXT_LEN as int));
    }
}

} // verus!
