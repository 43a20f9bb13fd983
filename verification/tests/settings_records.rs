use watch_core::product::settings::{
    checksum, decode_record, encode_record, generation_is_newer, load_from_records, loaded_settings,
    newest, plan_save, plan_save_over_records, WatchSettings, WatchfaceId, SETTINGS_SLOT_A, SETTINGS_SLOT_B, SETTINGS_SLOT_SIZE,
};

#[test]
fn brightness_never_turns_the_panel_off() {
    let mut settings = WatchSettings::default();
    settings.set_brightness(0);
    assert_eq!(settings.brightness(), WatchSettings::MIN_BRIGHTNESS);
}

#[test]
fn stored_record_round_trips_every_user_choice() {
    let mut settings = WatchSettings::default();
    settings.set_brightness(0x6a);
    settings.set_active_watchface(WatchfaceId::Digital);
    settings.set_use_24_hour_clock(false);
    settings.set_utc_offset_seconds(5 * 60 * 60 + 45 * 60);
    assert_eq!(decode_record(&encode_record(42, settings)), Some((42, settings)));
}

#[test]
fn damaged_record_is_rejected() {
    let mut record = encode_record(7, WatchSettings::default());
    record[5] ^= 1;
    assert_eq!(decode_record(&record), None);
}

#[test]
fn default_settings_are_the_documented_ones() {
    let settings = WatchSettings::default();
    assert_eq!(settings.brightness(), 0xA0);
    assert_eq!(settings.active_watchface(), WatchfaceId::Digital);
    assert!(settings.use_24_hour_clock());
    assert_eq!(settings.utc_offset_seconds(), 0);
    assert!(!settings.alarm_enabled());
    assert_eq!(settings.alarm_hour(), 7);
    assert_eq!(settings.alarm_minute(), 0);
}

#[test]
fn brightness_above_the_minimum_is_kept() {
    let mut settings = WatchSettings::default();
    settings.set_brightness(0x10);
    assert_eq!(settings.brightness(), 0x10);
    settings.set_brightness(0x0f);
    assert_eq!(settings.brightness(), 0x10);
    settings.set_brightness(0xff);
    assert_eq!(settings.brightness(), 0xff);
}

#[test]
fn utc_offset_is_clamped_to_the_real_world_range() {
    let mut settings = WatchSettings::default();
    settings.set_utc_offset_seconds(-13 * 3600);
    assert_eq!(settings.utc_offset_seconds(), -12 * 3600);
    settings.set_utc_offset_seconds(15 * 3600);
    assert_eq!(settings.utc_offset_seconds(), 14 * 3600);
    settings.set_utc_offset_seconds(i32::MIN);
    assert_eq!(settings.utc_offset_seconds(), -43200);
    settings.set_utc_offset_seconds(5 * 3600 + 45 * 60);
    assert_eq!(settings.utc_offset_seconds(), 20700);
}

#[test]
fn alarm_time_is_kept_on_the_clock() {
    let mut settings = WatchSettings::default();
    settings.set_alarm(true, 30, 75);
    assert!(settings.alarm_enabled());
    assert_eq!(settings.alarm_hour(), 23);
    assert_eq!(settings.alarm_minute(), 59);
    settings.set_alarm(false, 6, 30);
    assert!(!settings.alarm_enabled());
    assert_eq!(settings.alarm_hour(), 6);
    assert_eq!(settings.alarm_minute(), 30);
}

#[test]
fn watchface_storage_numbers() {
    assert_eq!(WatchfaceId::from_storage(0), Some(WatchfaceId::Digital));
    assert_eq!(WatchfaceId::from_storage(1), None);
    assert_eq!(WatchfaceId::Digital.storage_value(), 0);
}

#[test]
fn checksum_is_32_bit_fnv1() {
    assert_eq!(checksum(&[]), 0x811c_9dc5);
    assert_eq!(checksum(b"a"), 0x050c_5d7e);
    assert_eq!(checksum(b"WWRS"), 0xb9d4_128e);
}

#[test]
fn default_record_has_the_documented_layout() {
    let record = encode_record(1, WatchSettings::default());
    assert_eq!(
        record,
        [
            87, 87, 82, 83, 2, 160, 0, 1, 0, 0, 0, 0, 1, 0, 0, 0, 0, 7, 0, 255, 0xde, 0x0e, 0xca,
            0xcc
        ]
    );
}

#[test]
fn version_one_record_keeps_the_default_alarm() {
    let mut record = [0xffu8; 24];
    let body = [87u8, 87, 82, 83, 1, 48, 0, 0, 240, 241, 255, 255, 5, 0, 0, 0];
    record[..16].copy_from_slice(&body);
    record[16..20].copy_from_slice(&[0xc1, 0x46, 0xb6, 0xbd]);
    let (generation, settings) = decode_record(&record).expect("a version 1 record");
    assert_eq!(generation, 5);
    assert_eq!(settings.brightness(), 0x30);
    assert!(!settings.use_24_hour_clock());
    assert_eq!(settings.utc_offset_seconds(), -3600);
    assert!(!settings.alarm_enabled());
    assert_eq!(settings.alarm_hour(), 7);
    assert_eq!(settings.alarm_minute(), 0);
}

#[test]
fn records_with_unknown_versions_or_bad_fields_are_rejected() {
    let good = encode_record(3, WatchSettings::default());
    let mut unknown = good;
    unknown[4] = 3;
    assert_eq!(decode_record(&unknown), None);
    let mut flag = good;
    flag[7] = 2;
    assert_eq!(decode_record(&flag), None);
    let mut magic = good;
    magic[0] = b'X';
    assert_eq!(decode_record(&magic), None);
    assert_eq!(decode_record(&[0xff; 24]), None);
    assert_eq!(decode_record(&[0; 24]), None);
}

#[test]
fn every_single_byte_damage_is_rejected() {
    let mut settings = WatchSettings::default();
    settings.set_alarm(true, 6, 45);
    let record = encode_record(0x1234_5678, settings);
    for i in 0..24 {
        for value in 0..=255u8 {
            if value == record[i] || (i == 4 && value == 1) {
                continue;
            }
            let mut damaged = record;
            damaged[i] = value;
            assert_eq!(decode_record(&damaged), None, "byte {} set to {}", i, value);
        }
    }
}

#[test]
fn generations_compare_across_wrap() {
    assert!(generation_is_newer(2, 1));
    assert!(!generation_is_newer(1, 2));
    assert!(!generation_is_newer(5, 5));
    assert!(generation_is_newer(0, u32::MAX));
    assert!(!generation_is_newer(u32::MAX, 0));
    assert!(generation_is_newer(0x8000_0000, 1));
    assert!(!generation_is_newer(0x8000_0001, 1));
}

#[test]
fn newest_readable_slot_wins() {
    let mut a = WatchSettings::default();
    a.set_brightness(0x20);
    let b = WatchSettings::default();
    assert_eq!(newest(None, None), None);
    assert_eq!(newest(Some((4, a)), None), Some((SETTINGS_SLOT_A, 4, a)));
    assert_eq!(newest(None, Some((9, b))), Some((SETTINGS_SLOT_B, 9, b)));
    assert_eq!(newest(Some((10, a)), Some((9, b))), Some((SETTINGS_SLOT_A, 10, a)));
    assert_eq!(newest(Some((9, a)), Some((10, b))), Some((SETTINGS_SLOT_B, 10, b)));
    assert_eq!(newest(Some((9, a)), Some((9, b))), Some((SETTINGS_SLOT_B, 9, b)));
    assert_eq!(newest(Some((0, a)), Some((u32::MAX, b))), Some((SETTINGS_SLOT_A, 0, a)));
}

#[test]
fn load_gives_defaults_when_no_slot_is_readable() {
    assert_eq!(loaded_settings(None), WatchSettings::default());
    let mut s = WatchSettings::default();
    s.set_use_24_hour_clock(false);
    assert_eq!(loaded_settings(Some((SETTINGS_SLOT_B, 3, s))), s);
}

#[test]
fn save_writes_the_other_slot_one_generation_later() {
    let s = WatchSettings::default();
    let first = plan_save(None, s);
    assert_eq!(first.target, SETTINGS_SLOT_A);
    assert_eq!(first.generation, 1);
    assert_eq!(first.erase_end, SETTINGS_SLOT_A + SETTINGS_SLOT_SIZE);
    assert_eq!(first.record, encode_record(1, s));
    let second = plan_save(Some((SETTINGS_SLOT_A, 1, s)), s);
    assert_eq!(second.target, SETTINGS_SLOT_B);
    assert_eq!(second.generation, 2);
    assert_eq!(second.erase_end, SETTINGS_SLOT_B + SETTINGS_SLOT_SIZE);
    let wrapped = plan_save(Some((SETTINGS_SLOT_B, u32::MAX, s)), s);
    assert_eq!(wrapped.target, SETTINGS_SLOT_A);
    assert_eq!(wrapped.generation, 0);
}

/// Two slots in memory, saved to and loaded from as the flash store does.
fn load(a: &[u8; 24], b: &[u8; 24]) -> WatchSettings {
    loaded_settings(newest(decode_record(a), decode_record(b)))
}

fn save(a: &mut [u8; 24], b: &mut [u8; 24], settings: WatchSettings) {
    let plan = plan_save(newest(decode_record(a), decode_record(b)), settings);
    if plan.target == SETTINGS_SLOT_A {
        *a = plan.record;
    } else {
        *b = plan.record;
    }
}

#[test]
fn load_after_save_returns_what_was_saved() {
    let mut a = [0xffu8; 24];
    let mut b = [0xffu8; 24];
    assert_eq!(load(&a, &b), WatchSettings::default());
    for step in 0..5u8 {
        let mut s = WatchSettings::default();
        s.set_brightness(0x40 + step);
        s.set_alarm(step % 2 == 0, step, step * 10);
        save(&mut a, &mut b, s);
        assert_eq!(load(&a, &b), s);
    }
}

#[test]
fn interrupted_save_keeps_the_previous_settings() {
    let mut a = [0xffu8; 24];
    let mut b = [0xffu8; 24];
    let mut first = WatchSettings::default();
    first.set_brightness(0x55);
    save(&mut a, &mut b, first);
    let mut second = WatchSettings::default();
    second.set_brightness(0x66);
    save(&mut a, &mut b, second);
    let before = load(&a, &b);
    assert_eq!(before, second);
    let plan = plan_save(newest(decode_record(&a), decode_record(&b)), first);
    let mut half = plan.record;
    for byte in half[12..].iter_mut() {
        *byte = 0xff;
    }
    if plan.target == SETTINGS_SLOT_A {
        a = half;
    } else {
        b = half;
    }
    assert_eq!(load(&a, &b), before);
}

#[test]
fn loading_from_records_picks_the_newest_readable_one() {
    let mut older = WatchSettings::default();
    older.set_brightness(0x30);
    let mut newer = WatchSettings::default();
    newer.set_brightness(0x70);
    let a = encode_record(7, older);
    let b = encode_record(8, newer);
    assert_eq!(load_from_records(&a, &b), newer);
    assert_eq!(load_from_records(&b, &a), newer);
    let mut damaged = b;
    damaged[5] ^= 0x01;
    assert_eq!(load_from_records(&a, &damaged), older);
    assert_eq!(load_from_records(&[0xff; 24], &[0xff; 24]), WatchSettings::default());
}

#[test]
fn save_over_records_targets_the_older_slot() {
    let mut s = WatchSettings::default();
    s.set_use_24_hour_clock(false);
    let a = encode_record(7, WatchSettings::default());
    let b = encode_record(8, WatchSettings::default());
    let plan = plan_save_over_records(&a, &b, s);
    assert_eq!(plan.target, SETTINGS_SLOT_A);
    assert_eq!(plan.erase_end, SETTINGS_SLOT_A + SETTINGS_SLOT_SIZE);
    assert_eq!(plan.generation, 9);
    assert_eq!(plan.record, encode_record(9, s));
    assert_eq!(load_from_records(&plan.record, &b), s);
    let blank = [0xffu8; 24];
    let first = plan_save_over_records(&blank, &blank, s);
    assert_eq!(first.target, SETTINGS_SLOT_A);
    assert_eq!(first.generation, 1);
    assert_eq!(first.record, encode_record(1, s));
    let second = plan_save_over_records(&first.record, &blank, s);
    assert_eq!(second.target, SETTINGS_SLOT_B);
    assert_eq!(second.generation, 2);
    assert_eq!(second.record, encode_record(2, s));
}
