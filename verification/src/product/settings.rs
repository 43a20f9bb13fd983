//! Durable user settings and the storage boundary for them.
//!
//! The settings live in two flash slots. Each save writes the slot that does
//! not hold the newest valid record, so the previous choice survives until its
//! replacement is complete. This module holds the record format, the choice
//! of the newest slot and the save plan; the flash driver calls stay with the
//! caller, which hands the bytes it read to these functions.

use vstd::prelude::*;
use vstd::bytes::*;
use vstd::slice::slice_subrange;
use vstd::wrapping::u32_specs;

verus! {

/// First of the two dedicated 4 KiB sectors inside the NVS data partition.
pub const SETTINGS_SLOT_A: u32 = 0x9000;
/// Second settings sector.
pub const SETTINGS_SLOT_B: u32 = 0xa000;
/// Size of one settings sector (one erase unit).
pub const SETTINGS_SLOT_SIZE: u32 = 4096;

/// Current record format version.
pub const RECORD_VERSION: u8 = 2;
/// Length in bytes of a current record.
pub const RECORD_LEN: usize = 24;
/// Length in bytes of a version 1 record.
pub const V1_RECORD_LEN: usize = 20;

/// Westernmost real-world UTC offset, in seconds.
pub const MIN_UTC_OFFSET_SECONDS: i32 = -43200;
/// Easternmost real-world UTC offset, in seconds.
pub const MAX_UTC_OFFSET_SECONDS: i32 = 50400;

/// The selected watchface. New designs become new variants; the stored number
/// is stable so persistence does not depend on Rust names.
#[derive(Clone, Copy, Debug, PartialEq, Eq, Structural)]
pub enum WatchfaceId {
    Digital,
}

/// The number a watchface is stored as.
pub open spec fn watchface_code(face: WatchfaceId) -> u8 {
    match face {
        WatchfaceId::Digital => 0,
    }
}

/// The watchface stored under a number, if any.
pub open spec fn watchface_from_code(value: u8) -> Option<WatchfaceId> {
    if value == 0 {
        Some(WatchfaceId::Digital)
    } else {
        None
    }
}

impl WatchfaceId {
    /// Decodes a stored watchface number.
    pub fn from_storage(value: u8) -> (r: Option<Self>)
        ensures
            r == watchface_from_code(value),
    {
        match value {
            0 => Some(WatchfaceId::Digital),
            _ => None,
        }
    }

    /// The number under which this watchface is stored.
    pub fn storage_value(self) -> (r: u8)
        ensures
            r == watchface_code(self),
    {
        match self {
            WatchfaceId::Digital => 0,
        }
    }
}

/// The brightness kept for a requested value: never below the minimum.
pub open spec fn kept_brightness(value: u8) -> u8 {
    if value < WatchSettings::MIN_BRIGHTNESS {
        WatchSettings::MIN_BRIGHTNESS
    } else {
        value
    }
}

/// The UTC offset kept for a requested value: clamped to the real-world range.
pub open spec fn kept_utc_offset(value: i32) -> i32 {
    if value < MIN_UTC_OFFSET_SECONDS {
        MIN_UTC_OFFSET_SECONDS
    } else if value > MAX_UTC_OFFSET_SECONDS {
        MAX_UTC_OFFSET_SECONDS
    } else {
        value
    }
}

/// The alarm hour kept for a requested value.
pub open spec fn kept_alarm_hour(value: u8) -> u8 {
    if value > 23 {
        23
    } else {
        value
    }
}

/// The alarm minute kept for a requested value.
pub open spec fn kept_alarm_minute(value: u8) -> u8 {
    if value > 59 {
        59
    } else {
        value
    }
}

/// User-owned choices that should survive restart and firmware updates.
///
/// Every value is in range: brightness at least the minimum, a real-world
/// UTC offset, and an alarm time on the clock.
#[derive(Clone, Copy, Debug, PartialEq, Eq, Structural)]
pub struct WatchSettings {
    brightness: u8,
    active_watchface: WatchfaceId,
    use_24_hour_clock: bool,
    utc_offset_seconds: i32,
    alarm_enabled: bool,
    alarm_hour: u8,
    alarm_minute: u8,
}

/// The settings value with the given fields.
pub closed spec fn settings_of(
    brightness: u8,
    active_watchface: WatchfaceId,
    use_24_hour_clock: bool,
    utc_offset_seconds: i32,
    alarm_enabled: bool,
    alarm_hour: u8,
    alarm_minute: u8,
) -> WatchSettings {
    WatchSettings {
        brightness,
        active_watchface,
        use_24_hour_clock,
        utc_offset_seconds,
        alarm_enabled,
        alarm_hour,
        alarm_minute,
    }
}

/// The settings a watch starts with.
pub open spec fn default_settings() -> WatchSettings {
    settings_of(0xA0, WatchfaceId::Digital, true, 0, false, 7, 0)
}

impl WatchSettings {
    /// Lowest brightness the panel accepts; zero would turn it off.
    pub const MIN_BRIGHTNESS: u8 = 0x10;

    /// Whether every field is in its allowed range.
    pub open spec fn is_valid(self) -> bool {
        &&& self.spec_brightness() >= WatchSettings::MIN_BRIGHTNESS
        &&& MIN_UTC_OFFSET_SECONDS <= self.spec_utc_offset_seconds() <= MAX_UTC_OFFSET_SECONDS
        &&& self.spec_alarm_hour() <= 23
        &&& self.spec_alarm_minute() <= 59
    }

    #[verifier::type_invariant]
    closed spec fn fields_in_range(self) -> bool {
        &&& self.brightness >= WatchSettings::MIN_BRIGHTNESS
        &&& MIN_UTC_OFFSET_SECONDS <= self.utc_offset_seconds <= MAX_UTC_OFFSET_SECONDS
        &&& self.alarm_hour <= 23
        &&& self.alarm_minute <= 59
    }

    pub closed spec fn spec_brightness(self) -> u8 {
        self.brightness
    }

    pub closed spec fn spec_active_watchface(self) -> WatchfaceId {
        self.active_watchface
    }

    pub closed spec fn spec_use_24_hour_clock(self) -> bool {
        self.use_24_hour_clock
    }

    pub closed spec fn spec_utc_offset_seconds(self) -> i32 {
        self.utc_offset_seconds
    }

    pub closed spec fn spec_alarm_enabled(self) -> bool {
        self.alarm_enabled
    }

    pub closed spec fn spec_alarm_hour(self) -> u8 {
        self.alarm_hour
    }

    pub closed spec fn spec_alarm_minute(self) -> u8 {
        self.alarm_minute
    }

    /// These settings with the clock format set to `value`.
    pub open spec fn with_24_hour_clock(self, value: bool) -> WatchSettings {
        settings_of(
            self.spec_brightness(),
            self.spec_active_watchface(),
            value,
            self.spec_utc_offset_seconds(),
            self.spec_alarm_enabled(),
            self.spec_alarm_hour(),
            self.spec_alarm_minute(),
        )
    }

    /// These settings with the UTC offset set to `value`, clamped to the
    /// real-world range.
    pub open spec fn with_utc_offset(self, value: i32) -> WatchSettings {
        settings_of(
            self.spec_brightness(),
            self.spec_active_watchface(),
            self.spec_use_24_hour_clock(),
            kept_utc_offset(value),
            self.spec_alarm_enabled(),
            self.spec_alarm_hour(),
            self.spec_alarm_minute(),
        )
    }

    /// Two settings values are equal exactly when all their fields are.
    pub proof fn lemma_equal_fields(self, other: WatchSettings)
        ensures
            (self == other) <==> {
                &&& self.spec_brightness() == other.spec_brightness()
                &&& self.spec_active_watchface() == other.spec_active_watchface()
                &&& self.spec_use_24_hour_clock() == other.spec_use_24_hour_clock()
                &&& self.spec_utc_offset_seconds() == other.spec_utc_offset_seconds()
                &&& self.spec_alarm_enabled() == other.spec_alarm_enabled()
                &&& self.spec_alarm_hour() == other.spec_alarm_hour()
                &&& self.spec_alarm_minute() == other.spec_alarm_minute()
            },
    {
    }

    /// The fields of a value built by `settings_of` are its arguments.
    pub proof fn lemma_settings_of_fields(
        brightness: u8,
        active_watchface: WatchfaceId,
        use_24_hour_clock: bool,
        utc_offset_seconds: i32,
        alarm_enabled: bool,
        alarm_hour: u8,
        alarm_minute: u8,
    )
        ensures
            ({
                let s = settings_of(
                    brightness,
                    active_watchface,
                    use_24_hour_clock,
                    utc_offset_seconds,
                    alarm_enabled,
                    alarm_hour,
                    alarm_minute,
                );
                &&& s.spec_brightness() == brightness
                &&& s.spec_active_watchface() == active_watchface
                &&& s.spec_use_24_hour_clock() == use_24_hour_clock
                &&& s.spec_utc_offset_seconds() == utc_offset_seconds
                &&& s.spec_alarm_enabled() == alarm_enabled
                &&& s.spec_alarm_hour() == alarm_hour
                &&& s.spec_alarm_minute() == alarm_minute
            }),
    {
    }

    /// The panel brightness.
    #[verifier::when_used_as_spec(spec_brightness)]
    pub fn brightness(self) -> (r: u8)
        ensures
            r == self.spec_brightness(),
            r >= WatchSettings::MIN_BRIGHTNESS,
    {
        proof {
            use_type_invariant(&self);
        }
        self.brightness
    }

    /// Sets the brightness; values below the minimum keep the panel at the minimum.
    pub fn set_brightness(&mut self, value: u8)
        ensures
            *final(self) == settings_of(
                kept_brightness(value),
                old(self).spec_active_watchface(),
                old(self).spec_use_24_hour_clock(),
                old(self).spec_utc_offset_seconds(),
                old(self).spec_alarm_enabled(),
                old(self).spec_alarm_hour(),
                old(self).spec_alarm_minute(),
            ),
    {
        proof {
            use_type_invariant(&*self);
        }
        self.brightness = value.max(WatchSettings::MIN_BRIGHTNESS);
    }

    /// The selected watchface.
    #[verifier::when_used_as_spec(spec_active_watchface)]
    pub fn active_watchface(self) -> (r: WatchfaceId)
        ensures
            r == self.spec_active_watchface(),
    {
        self.active_watchface
    }

    /// Selects a watchface.
    pub fn set_active_watchface(&mut self, value: WatchfaceId)
        ensures
            *final(self) == settings_of(
                old(self).spec_brightness(),
                value,
                old(self).spec_use_24_hour_clock(),
                old(self).spec_utc_offset_seconds(),
                old(self).spec_alarm_enabled(),
                old(self).spec_alarm_hour(),
                old(self).spec_alarm_minute(),
            ),
    {
        proof {
            use_type_invariant(&*self);
        }
        self.active_watchface = value;
    }

    /// Whether the clock shows 24-hour time.
    #[verifier::when_used_as_spec(spec_use_24_hour_clock)]
    pub fn use_24_hour_clock(self) -> (r: bool)
        ensures
            r == self.spec_use_24_hour_clock(),
    {
        self.use_24_hour_clock
    }

    /// Chooses between 24-hour and 12-hour time.
    pub fn set_use_24_hour_clock(&mut self, value: bool)
        ensures
            *final(self) == old(self).with_24_hour_clock(value),
    {
        proof {
            use_type_invariant(&*self);
        }
        self.use_24_hour_clock = value;
    }

    /// The time zone, as seconds east of UTC.
    #[verifier::when_used_as_spec(spec_utc_offset_seconds)]
    pub fn utc_offset_seconds(self) -> (r: i32)
        ensures
            r == self.spec_utc_offset_seconds(),
            MIN_UTC_OFFSET_SECONDS <= r <= MAX_UTC_OFFSET_SECONDS,
    {
        proof {
            use_type_invariant(&self);
        }
        self.utc_offset_seconds
    }

    /// Sets the time zone. Offsets within the real-world UTC range (including
    /// the 30- and 45-minute zones) are kept; others are clamped to it, so a
    /// corrupt value cannot produce surprising clock output.
    pub fn set_utc_offset_seconds(&mut self, value: i32)
        ensures
            *final(self) == old(self).with_utc_offset(value),
    {
        proof {
            use_type_invariant(&*self);
        }
        self.utc_offset_seconds = value.max(MIN_UTC_OFFSET_SECONDS).min(MAX_UTC_OFFSET_SECONDS);
    }

    /// Whether the alarm is armed.
    #[verifier::when_used_as_spec(spec_alarm_enabled)]
    pub fn alarm_enabled(self) -> (r: bool)
        ensures
            r == self.spec_alarm_enabled(),
    {
        self.alarm_enabled
    }

    /// The alarm hour, 0 to 23.
    #[verifier::when_used_as_spec(spec_alarm_hour)]
    pub fn alarm_hour(self) -> (r: u8)
        ensures
            r == self.spec_alarm_hour(),
            r <= 23,
    {
        proof {
            use_type_invariant(&self);
        }
        self.alarm_hour
    }

    /// The alarm minute, 0 to 59.
    #[verifier::when_used_as_spec(spec_alarm_minute)]
    pub fn alarm_minute(self) -> (r: u8)
        ensures
            r == self.spec_alarm_minute(),
            r <= 59,
    {
        proof {
            use_type_invariant(&self);
        }
        self.alarm_minute
    }

    /// Sets the alarm; an hour past 23 becomes 23 and a minute past 59 becomes 59.
    pub fn set_alarm(&mut self, enabled: bool, hour: u8, minute: u8)
        ensures
            *final(self) == settings_of(
                old(self).spec_brightness(),
                old(self).spec_active_watchface(),
                old(self).spec_use_24_hour_clock(),
                old(self).spec_utc_offset_seconds(),
                enabled,
                kept_alarm_hour(hour),
                kept_alarm_minute(minute),
            ),
    {
        proof {
            use_type_invariant(&*self);
        }
        self.alarm_enabled = enabled;
        self.alarm_hour = hour.min(23);
        self.alarm_minute = minute.min(59);
    }
}

impl Default for WatchSettings {
    /// Full-brightness-minus-a-little, digital face, 24-hour clock, UTC, alarm
    /// off at 07:00. UTC is predictable and safe until a time zone is chosen.
    fn default() -> (r: Self)
        ensures
            r == default_settings(),
    {
        WatchSettings {
            brightness: 0xA0,
            active_watchface: WatchfaceId::Digital,
            use_24_hour_clock: true,
            utc_offset_seconds: 0,
            alarm_enabled: false,
            alarm_hour: 7,
            alarm_minute: 0,
        }
    }
}


/// Hardware-agnostic persistence contract. The flash adapter implements it;
/// watchfaces and UI never write flash directly.
pub trait SettingsStore {
    type Error;

    fn load(&mut self) -> Result<WatchSettings, Self::Error>;

    fn save(&mut self, settings: WatchSettings) -> Result<(), Self::Error>;
}

/// Why a flash-backed settings operation failed: the flash driver's error.
#[derive(Clone, Copy, Debug, PartialEq, Eq)]
pub enum FlashSettingsError<E> {
    Flash(E),
}

/// Multiplier of the 32-bit FNV hash that checks records.
pub const CHECKSUM_PRIME: u32 = 0x0100_0193;
/// Starting value of the record checksum.
pub const CHECKSUM_SEED: u32 = 0x811c_9dc5;

/// One checksum step: multiply (wrapping) by the prime, then mix the byte in.
pub open spec fn checksum_step(hash: u32, byte: u8) -> u32 {
    u32_specs::wrapping_mul(hash, CHECKSUM_PRIME) ^ (byte as u32)
}

/// The checksum of a byte sequence: the steps folded over it from the seed.
pub open spec fn spec_checksum(bytes: Seq<u8>) -> u32
    decreases bytes.len(),
{
    if bytes.len() == 0 {
        CHECKSUM_SEED
    } else {
        checksum_step(spec_checksum(bytes.drop_last()), bytes.last())
    }
}

/// Computes the record checksum (32-bit FNV-1) of `bytes`.
pub fn checksum(bytes: &[u8]) -> (r: u32)
    ensures
        r == spec_checksum(bytes@),
{
    let mut hash: u32 = CHECKSUM_SEED;
    let mut i: usize = 0;
    while i < bytes.len()
        invariant
            i <= bytes@.len(),
            hash == spec_checksum(bytes@.take(i as int)),
        decreases bytes@.len() - i,
    {
        assert(bytes@.take(i + 1).drop_last() =~= bytes@.take(i as int));
        hash = hash.wrapping_mul(CHECKSUM_PRIME) ^ (bytes[i] as u32);
        i = i + 1;
    }
    assert(bytes@.take(i as int) =~= bytes@);
    hash
}

/// Whether generation `candidate` was written after `baseline`, allowing the
/// counter to wrap: it differs and is less than half the counter range ahead.
pub open spec fn spec_generation_is_newer(candidate: u32, baseline: u32) -> bool {
    candidate != baseline && u32_specs::wrapping_sub(candidate, baseline) < 0x8000_0000
}

/// Decides whether generation `candidate` is newer than `baseline`.
pub fn generation_is_newer(candidate: u32, baseline: u32) -> (r: bool)
    ensures
        r == spec_generation_is_newer(candidate, baseline),
{
    candidate != baseline && candidate.wrapping_sub(baseline) < 0x8000_0000
}

/// The magic bytes every record starts with: "WWRS".
pub open spec fn record_magic() -> Seq<u8> {
    seq![0x57u8, 0x57u8, 0x52u8, 0x53u8]
}

/// A flag as its stored byte.
pub open spec fn flag_byte(flag: bool) -> u8 {
    if flag {
        1
    } else {
        0
    }
}

/// The first twenty bytes of a current record, which the checksum covers:
/// magic, version, brightness, watchface, clock format, UTC offset
/// (little-endian), generation (little-endian), alarm flag, hour, minute, and
/// one unused byte left erased.
pub open spec fn record_body(generation: u32, s: WatchSettings) -> Seq<u8> {
    record_magic()
        + seq![
            RECORD_VERSION,
            s.spec_brightness(),
            watchface_code(s.spec_active_watchface()),
            flag_byte(s.spec_use_24_hour_clock()),
        ]
        + spec_u32_to_le_bytes(s.spec_utc_offset_seconds() as u32)
        + spec_u32_to_le_bytes(generation)
        + seq![
            flag_byte(s.spec_alarm_enabled()),
            s.spec_alarm_hour(),
            s.spec_alarm_minute(),
            0xffu8,
        ]
}

/// A current record: its body followed by the body's checksum (little-endian).
pub open spec fn spec_encode_record(generation: u32, s: WatchSettings) -> Seq<u8> {
    record_body(generation, s) + spec_u32_to_le_bytes(spec_checksum(record_body(generation, s)))
}

/// The little-endian `u32` stored at `at`.
pub open spec fn stored_u32(record: Seq<u8>, at: int) -> u32 {
    spec_u32_from_le_bytes(record.subrange(at, at + 4))
}

/// How many leading bytes the checksum of a record covers, by its version:
/// 16 for a version 1 record; 20 for a current record whose alarm fields are
/// in range; none for anything else, which is not read.
pub open spec fn checksummed_len(record: Seq<u8>) -> Option<int> {
    if record[4] == 1 {
        Some(16)
    } else if record[4] == RECORD_VERSION && record[16] <= 1 && record[17] <= 23 && record[18] <= 59 {
        Some(20)
    } else {
        None
    }
}

/// What a stored record holds, if it is one: its generation and settings.
/// A record is read when it starts with the magic, its clock-format byte is a
/// flag, its version is known, its checksum matches and its watchface exists.
/// Brightness and UTC offset are brought into range; a version 1 record, which
/// has no alarm, keeps the default alarm.
pub open spec fn spec_decode_record(record: Seq<u8>) -> Option<(u32, WatchSettings)> {
    if record.subrange(0, 4) != record_magic() || record[7] > 1 {
        None
    } else {
        match checksummed_len(record) {
            None => None,
            Some(n) => {
                if spec_checksum(record.subrange(0, n)) != stored_u32(record, n) {
                    None
                } else {
                    match watchface_from_code(record[6]) {
                        None => None,
                        Some(face) => {
                            let v1 = record[4] == 1;
                            Some(
                                (
                                    stored_u32(record, 12),
                                    settings_of(
                                        kept_brightness(record[5]),
                                        face,
                                        record[7] != 0,
                                        kept_utc_offset(stored_u32(record, 8) as i32),
                                        if v1 { false } else { record[16] != 0 },
                                        if v1 { 7 } else { kept_alarm_hour(record[17]) },
                                        if v1 { 0 } else { kept_alarm_minute(record[18]) },
                                    ),
                                ),
                            )
                        },
                    }
                }
            },
        }
    }
}

/// Encodes `settings` as a current record with the given generation.
pub fn encode_record(generation: u32, settings: WatchSettings) -> (record: [u8; RECORD_LEN])
    ensures
        record@ == spec_encode_record(generation, settings),
{
    let mut record = [0xffu8; RECORD_LEN];
    record[0] = 0x57;
    record[1] = 0x57;
    record[2] = 0x52;
    record[3] = 0x53;
    record[4] = RECORD_VERSION;
    record[5] = settings.brightness();
    record[6] = settings.active_watchface().storage_value();
    record[7] = if settings.use_24_hour_clock() { 1 } else { 0 };
    let offset = u32_to_le_bytes(settings.utc_offset_seconds() as u32);
    record[8] = offset[0];
    record[9] = offset[1];
    record[10] = offset[2];
    record[11] = offset[3];
    let stored_generation = u32_to_le_bytes(generation);
    record[12] = stored_generation[0];
    record[13] = stored_generation[1];
    record[14] = stored_generation[2];
    record[15] = stored_generation[3];
    record[16] = if settings.alarm_enabled() { 1 } else { 0 };
    record[17] = settings.alarm_hour();
    record[18] = settings.alarm_minute();
    let body = slice_subrange(record.as_slice(), 0, 20);
    assert(body@ =~= record_body(generation, settings));
    let sum = u32_to_le_bytes(checksum(body));
    record[20] = sum[0];
    record[21] = sum[1];
    record[22] = sum[2];
    record[23] = sum[3];
    assert(record@ =~= spec_encode_record(generation, settings));
    record
}

/// Decodes a stored record: its generation and settings, or `None` when the
/// bytes are not a readable record (see `spec_decode_record`).
pub fn decode_record(record: &[u8; RECORD_LEN]) -> (r: Option<(u32, WatchSettings)>)
    ensures
        r == spec_decode_record(record@),
{
    let bytes = record.as_slice();
    if record[0] != 0x57 || record[1] != 0x57 || record[2] != 0x52 || record[3] != 0x53
        || record[7] > 1 {
        proof {
            if record@.subrange(0, 4) == record_magic() {
                assert(record@.subrange(0, 4)[0] == record@[0]);
                assert(record@.subrange(0, 4)[1] == record@[1]);
                assert(record@.subrange(0, 4)[2] == record@[2]);
                assert(record@.subrange(0, 4)[3] == record@[3]);
            }
        }
        return None;
    }
    assert(record@.subrange(0, 4) =~= record_magic());
    let version = record[4];
    let checked: usize;
    if version == 1 {
        checked = V1_RECORD_LEN - 4;
    } else if version == RECORD_VERSION && record[16] <= 1 && record[17] <= 23 && record[18] <= 59 {
        checked = RECORD_LEN - 4;
    } else {
        return None;
    }
    let expected = u32_from_le_bytes(slice_subrange(bytes, checked, checked + 4));
    if checksum(slice_subrange(bytes, 0, checked)) != expected {
        return None;
    }
    let face = match WatchfaceId::from_storage(record[6]) {
        Some(face) => face,
        None => return None,
    };
    let mut settings = WatchSettings::default();
    settings.set_brightness(record[5]);
    settings.set_active_watchface(face);
    settings.set_use_24_hour_clock(record[7] != 0);
    settings.set_utc_offset_seconds(u32_from_le_bytes(slice_subrange(bytes, 8, 12)) as i32);
    if version == RECORD_VERSION {
        settings.set_alarm(record[16] != 0, record[17], record[18]);
    }
    let generation = u32_from_le_bytes(slice_subrange(bytes, 12, 16));
    Some((generation, settings))
}

/// The newest readable record of the two slots, as (slot, generation,
/// settings): the only readable one, or, when both are, slot A if its
/// generation is newer than B's and slot B otherwise.
pub open spec fn spec_newest(
    a: Option<(u32, WatchSettings)>,
    b: Option<(u32, WatchSettings)>,
) -> Option<(u32, u32, WatchSettings)> {
    match (a, b) {
        (None, None) => None,
        (Some((generation, settings)), None) => Some((SETTINGS_SLOT_A, generation, settings)),
        (None, Some((generation, settings))) => Some((SETTINGS_SLOT_B, generation, settings)),
        (Some((a_generation, a_settings)), Some((b_generation, b_settings))) => {
            if spec_generation_is_newer(a_generation, b_generation) {
                Some((SETTINGS_SLOT_A, a_generation, a_settings))
            } else {
                Some((SETTINGS_SLOT_B, b_generation, b_settings))
            }
        },
    }
}

/// Chooses the newest readable record from what slot A and slot B hold.
pub fn newest(
    a: Option<(u32, WatchSettings)>,
    b: Option<(u32, WatchSettings)>,
) -> (r: Option<(u32, u32, WatchSettings)>)
    ensures
        r == spec_newest(a, b),
{
    match (a, b) {
        (None, None) => None,
        (Some((generation, settings)), None) => Some((SETTINGS_SLOT_A, generation, settings)),
        (None, Some((generation, settings))) => Some((SETTINGS_SLOT_B, generation, settings)),
        (Some((a_generation, a_settings)), Some((b_generation, b_settings))) => {
            if generation_is_newer(a_generation, b_generation) {
                Some((SETTINGS_SLOT_A, a_generation, a_settings))
            } else {
                Some((SETTINGS_SLOT_B, b_generation, b_settings))
            }
        },
    }
}

/// The settings a load yields: those of the newest record, or the defaults
/// when neither slot holds a readable record.
pub open spec fn spec_loaded(newest: Option<(u32, u32, WatchSettings)>) -> WatchSettings {
    match newest {
        Some((_, _, settings)) => settings,
        None => default_settings(),
    }
}

/// Picks the settings to load from the newest record.
pub fn loaded_settings(newest: Option<(u32, u32, WatchSettings)>) -> (r: WatchSettings)
    ensures
        r == spec_loaded(newest),
{
    match newest {
        Some((_, _, settings)) => settings,
        None => WatchSettings::default(),
    }
}

/// Where a save goes and with which generation: the slot other than the one
/// holding the newest record, one generation later (wrapping); slot A with
/// generation 1 when no slot holds a readable record.
pub open spec fn spec_save_slot(newest: Option<(u32, u32, WatchSettings)>) -> (u32, u32) {
    match newest {
        Some((slot, generation, _)) => (
            if slot == SETTINGS_SLOT_A { SETTINGS_SLOT_B } else { SETTINGS_SLOT_A },
            u32_specs::wrapping_add(generation, 1),
        ),
        None => (SETTINGS_SLOT_A, 1),
    }
}

/// What a save writes: erase `target..erase_end`, then write `record` at `target`.
pub struct SavePlan {
    pub target: u32,
    pub erase_end: u32,
    pub generation: u32,
    pub record: [u8; RECORD_LEN],
}

/// Plans saving `settings`, given the newest record the slots hold.
pub fn plan_save(newest: Option<(u32, u32, WatchSettings)>, settings: WatchSettings) -> (plan: SavePlan)
    requires
        newest matches Some((slot, _, _)) ==> slot == SETTINGS_SLOT_A || slot == SETTINGS_SLOT_B,
    ensures
        (plan.target, plan.generation) == spec_save_slot(newest),
        plan.erase_end == plan.target + SETTINGS_SLOT_SIZE,
        plan.record@ == spec_encode_record(plan.generation, settings),
{
    let (target, generation) = match newest {
        Some((slot, generation, _)) => {
            if slot == SETTINGS_SLOT_A {
                (SETTINGS_SLOT_B, generation.wrapping_add(1))
            } else {
                (SETTINGS_SLOT_A, generation.wrapping_add(1))
            }
        },
        None => (SETTINGS_SLOT_A, 1),
    };
    SavePlan {
        target,
        erase_end: target + SETTINGS_SLOT_SIZE,
        generation,
        record: encode_record(generation, settings),
    }
}

/// What a load yields when slot A starts with bytes `a` and slot B with `b`.
pub open spec fn spec_load(a: Seq<u8>, b: Seq<u8>) -> WatchSettings {
    spec_loaded(spec_newest(spec_decode_record(a), spec_decode_record(b)))
}

/// The slot that a save over slots starting with `a` and `b` writes.
pub open spec fn spec_save_target(a: Seq<u8>, b: Seq<u8>) -> u32 {
    spec_save_slot(spec_newest(spec_decode_record(a), spec_decode_record(b))).0
}

/// The record that a save of `s` over slots starting with `a` and `b` writes.
pub open spec fn spec_saved_record(a: Seq<u8>, b: Seq<u8>, s: WatchSettings) -> Seq<u8> {
    spec_encode_record(spec_save_slot(spec_newest(spec_decode_record(a), spec_decode_record(b))).1, s)
}

/// The slots' leading bytes after the target slot was given `written`.
pub open spec fn with_target(a: Seq<u8>, b: Seq<u8>, written: Seq<u8>) -> (Seq<u8>, Seq<u8>) {
    if spec_save_target(a, b) == SETTINGS_SLOT_A {
        (written, b)
    } else {
        (a, written)
    }
}

/// Loads from the record bytes that start slot A and slot B: the settings
/// of the newest readable record, or the defaults.
pub fn load_from_records(a: &[u8; RECORD_LEN], b: &[u8; RECORD_LEN]) -> (r: WatchSettings)
    ensures
        r == spec_load(a@, b@),
{
    loaded_settings(newest(decode_record(a), decode_record(b)))
}

/// Plans saving `settings` over slots whose record bytes are `a` and `b`.
pub fn plan_save_over_records(
    a: &[u8; RECORD_LEN],
    b: &[u8; RECORD_LEN],
    settings: WatchSettings,
) -> (plan: SavePlan)
    ensures
        plan.target == spec_save_target(a@, b@),
        plan.generation == spec_save_slot(spec_newest(spec_decode_record(a@), spec_decode_record(b@))).1,
        plan.erase_end == plan.target + SETTINGS_SLOT_SIZE,
        plan.record@ == spec_saved_record(a@, b@, settings),
{
    let current = newest(decode_record(a), decode_record(b));
    proof {
        lemma_newest_is_held(spec_decode_record(a@), spec_decode_record(b@));
    }
    plan_save(current, settings)
}

/// A stored current record reads back as the generation and settings it was
/// written with.
pub proof fn lemma_record_round_trip(generation: u32, s: WatchSettings)
    requires
        s.is_valid(),
    ensures
        spec_decode_record(spec_encode_record(generation, s)) == Some((generation, s)),
{
    let body = record_body(generation, s);
    let record = spec_encode_record(generation, s);
    let offset = s.utc_offset_seconds;
    lemma_auto_spec_u32_to_from_le_bytes();
    assert(record.subrange(0, 4) =~= record_magic());
    assert(record.subrange(0, 20) =~= body);
    assert(record.subrange(20, 24) =~= spec_u32_to_le_bytes(spec_checksum(body)));
    assert(record.subrange(8, 12) =~= spec_u32_to_le_bytes(offset as u32));
    assert(record.subrange(12, 16) =~= spec_u32_to_le_bytes(generation));
    assert((offset as u32) as i32 == offset) by (bit_vector);
    assert(spec_decode_record(record) == Some((generation, s)));
}

/// The newest record of two slots is one of them, and a readable slot is
/// never passed over for an unreadable one.
pub proof fn lemma_newest_is_held(a: Option<(u32, WatchSettings)>, b: Option<(u32, WatchSettings)>)
    ensures
        spec_newest(a, b) matches Some((slot, generation, settings)) ==> {
            ||| slot == SETTINGS_SLOT_A && a == Some((generation, settings))
            ||| slot == SETTINGS_SLOT_B && b == Some((generation, settings))
        },
        spec_newest(a, b) is None <==> (a is None && b is None),
{
}

/// A save never writes the slot holding the newest readable record, so
/// that record stays intact until its replacement is complete.
pub proof fn lemma_save_spares_newest(a: Seq<u8>, b: Seq<u8>)
    ensures
        spec_newest(spec_decode_record(a), spec_decode_record(b)) matches Some((slot, _, _))
            ==> spec_save_target(a, b) != slot,
        spec_save_target(a, b) == SETTINGS_SLOT_A || spec_save_target(a, b) == SETTINGS_SLOT_B,
{
    lemma_newest_is_held(spec_decode_record(a), spec_decode_record(b));
}

/// After a completed save, a load gives back exactly the settings that were
/// saved, whatever the two slots held before.
pub proof fn lemma_load_after_save(a: Seq<u8>, b: Seq<u8>, s: WatchSettings)
    requires
        s.is_valid(),
    ensures
        ({
            let (a2, b2) = with_target(a, b, spec_saved_record(a, b, s));
            spec_load(a2, b2) == s
        }),
{
    let n = spec_newest(spec_decode_record(a), spec_decode_record(b));
    let (target, generation) = spec_save_slot(n);
    lemma_record_round_trip(generation, s);
    lemma_newest_is_held(spec_decode_record(a), spec_decode_record(b));
}

/// A save cut short by power loss leaves the target slot with bytes that
/// are not a readable record; a load then still gives the settings it gave
/// before the save began.
pub proof fn lemma_interrupted_save_keeps_previous(a: Seq<u8>, b: Seq<u8>, damaged: Seq<u8>)
    requires
        spec_decode_record(damaged) is None,
    ensures
        ({
            let (a2, b2) = with_target(a, b, damaged);
            spec_load(a2, b2) == spec_load(a, b)
        }),
{
    lemma_newest_is_held(spec_decode_record(a), spec_decode_record(b));
}

/// Wherever power is lost during a save, a load afterwards gives either the
/// settings it gave before or the settings being saved: the target slot then
/// holds either bytes that are not a readable record (erased, or a partly
/// written record) or the complete new record.
pub proof fn lemma_save_is_old_or_new(a: Seq<u8>, b: Seq<u8>, s: WatchSettings, written: Seq<u8>)
    requires
        s.is_valid(),
        spec_decode_record(written) is None || written == spec_saved_record(a, b, s),
    ensures
        ({
            let (a2, b2) = with_target(a, b, written);
            spec_load(a2, b2) == spec_load(a, b) || spec_load(a2, b2) == s
        }),
{
    if spec_decode_record(written) is None {
        lemma_interrupted_save_keeps_previous(a, b, written);
    } else {
        lemma_load_after_save(a, b, s);
    }
}

/// When neither slot holds a readable record (a blank or damaged region),
/// a load gives the default settings.
pub proof fn lemma_unreadable_slots_load_defaults(a: Seq<u8>, b: Seq<u8>)
    requires
        spec_decode_record(a) is None,
        spec_decode_record(b) is None,
    ensures
        spec_load(a, b) == default_settings(),
{
}

/// Erased flash (all bytes 0xff) is not a readable record.
pub proof fn lemma_erased_slot_is_unreadable(erased: Seq<u8>)
    requires
        erased.len() == RECORD_LEN,
        forall|i: int| 0 <= i < erased.len() ==> erased[i] == 0xffu8,
    ensures
        spec_decode_record(erased) is None,
{
    assert(erased.subrange(0, 4)[0] == 0xffu8);
}

/// Multiplying by the checksum prime is undone by multiplying by its inverse
/// modulo 2^32, so no two hashes share a product.
proof fn lemma_prime_product_injective(h1: u32, h2: u32)
    ensures
        u32_specs::wrapping_mul(h1, CHECKSUM_PRIME) == u32_specs::wrapping_mul(h2, CHECKSUM_PRIME)
            ==> h1 == h2,
{
    assert(((h1 as nat * 0x0100_0193nat) % 0x1_0000_0000nat) as u32 == (h1 * 0x0100_0193u32) as u32)
        by (bit_vector);
    assert(((h2 as nat * 0x0100_0193nat) % 0x1_0000_0000nat) as u32 == (h2 * 0x0100_0193u32) as u32)
        by (bit_vector);
    assert((((h1 * 0x0100_0193u32) as u32) * 0x359c_449bu32) as u32 == h1) by (bit_vector);
    assert((((h2 * 0x0100_0193u32) as u32) * 0x359c_449bu32) as u32 == h2) by (bit_vector);
}

/// A checksum step keeps different hashes apart when the same byte is mixed
/// in, and keeps different bytes apart when mixed into the same hash.
proof fn lemma_checksum_step_injective(h1: u32, h2: u32, b1: u8, b2: u8)
    requires
        h1 == h2 || b1 == b2,
        checksum_step(h1, b1) == checksum_step(h2, b2),
    ensures
        h1 == h2 && b1 == b2,
{
    let m1 = u32_specs::wrapping_mul(h1, CHECKSUM_PRIME);
    let m2 = u32_specs::wrapping_mul(h2, CHECKSUM_PRIME);
    let c1 = b1 as u32;
    let c2 = b2 as u32;
    if b1 == b2 {
        assert((m1 ^ c1) == (m2 ^ c1) ==> m1 == m2) by (bit_vector);
        lemma_prime_product_injective(h1, h2);
    } else {
        assert((m1 ^ c1) == (m1 ^ c2) ==> c1 == c2) by (bit_vector);
    }
}

/// The checksum detects any single changed byte: two byte sequences of
/// equal length that differ in exactly one position have different checksums.
pub proof fn lemma_checksum_detects_one_byte(p: Seq<u8>, q: Seq<u8>, j: int)
    requires
        p.len() == q.len(),
        0 <= j < p.len(),
        p[j] != q[j],
        forall|k: int| 0 <= k < p.len() && k != j ==> p[k] == q[k],
    ensures
        spec_checksum(p) != spec_checksum(q),
    decreases p.len(),
{
    let last = p.len() - 1;
    if j < last {
        lemma_checksum_detects_one_byte(p.drop_last(), q.drop_last(), j);
    } else {
        assert(p.drop_last() =~= q.drop_last());
    }
    if spec_checksum(p) == spec_checksum(q) {
        lemma_checksum_step_injective(
            spec_checksum(p.drop_last()),
            spec_checksum(q.drop_last()),
            p.last(),
            q.last(),
        );
    }
}

/// A current record with any single byte changed is rejected, except when
/// the change turns its version byte into that of a version 1 record.
pub proof fn lemma_single_byte_damage_is_rejected(generation: u32, s: WatchSettings, i: int, value: u8)
    requires
        0 <= i < RECORD_LEN,
        value != spec_encode_record(generation, s)[i],
        !(i == 4 && value == 1),
    ensures
        spec_decode_record(spec_encode_record(generation, s).update(i, value)) is None,
{
    let body = record_body(generation, s);
    let record = spec_encode_record(generation, s);
    let damaged = record.update(i, value);
    let sum = spec_checksum(body);
    lemma_auto_spec_u32_to_from_le_bytes();
    assert(record.subrange(0, 20) =~= body);
    assert(record.subrange(20, 24) =~= spec_u32_to_le_bytes(sum));
    if spec_decode_record(damaged) is Some {
        assert(damaged.subrange(0, 4) == record_magic());
        assert(damaged.subrange(0, 4)[0] == damaged[0]);
        assert(damaged.subrange(0, 4)[1] == damaged[1]);
        assert(damaged.subrange(0, 4)[2] == damaged[2]);
        assert(damaged.subrange(0, 4)[3] == damaged[3]);
        assert(damaged[4] == RECORD_VERSION);
        assert(checksummed_len(damaged) == Some(20int));
        assert(spec_checksum(damaged.subrange(0, 20)) == stored_u32(damaged, 20));
        if i < 20 {
            assert(damaged.subrange(20, 24) =~= record.subrange(20, 24));
            lemma_checksum_detects_one_byte(damaged.subrange(0, 20), body, i);
            assert(false);
        } else {
            assert(damaged.subrange(0, 20) =~= body);
            let stored = damaged.subrange(20, 24);
            assert(spec_u32_to_le_bytes(spec_u32_from_le_bytes(stored)) == stored);
            assert(stored[i - 20] != spec_u32_to_le_bytes(sum)[i - 20]);
            assert(false);
        }
    }
}

} // verus!
