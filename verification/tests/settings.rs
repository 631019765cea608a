use lens_orders::settings::{default_settings, merge_settings, PartialSettings};

fn empty_partial() -> PartialSettings {
    PartialSettings {
        version: None,
        ui_scale: None,
        ui_font_size: None,
        export_path: None,
        tray_enabled: None,
        minimize_to_tray: None,
        start_in_tray: None,
        autostart_enabled: None,
        tray_logo_path: None,
        notify_enabled: None,
        notify_days: None,
        notify_time: None,
        mkl_notify_enabled: None,
        mkl_notify_after_days: None,
        mkl_notify_time: None,
        notify_sound_enabled: None,
        notify_sound_alias: None,
        notify_sound_mode: None,
        notify_sound_file: None,
        main_geometry: None,
    }
}

#[test]
fn missing_fields_backfilled() {
    let d = default_settings("/home/user/Desktop");
    let m = merge_settings(empty_partial(), &d);
    assert_eq!(m.version, 1);
    assert_eq!(m.ui_scale, 125);
    assert_eq!(m.ui_font_size, 17);
    assert_eq!(m.export_path, "/home/user/Desktop");
    assert!(m.tray_enabled);
    assert!(m.minimize_to_tray);
    assert!(m.start_in_tray);
    assert!(!m.autostart_enabled);
    assert_eq!(m.tray_logo_path, "app/assets/logo.png");
    assert!(!m.notify_enabled);
    assert!(m.notify_days.is_empty());
    assert_eq!(m.notify_time, "09:00");
    assert!(!m.mkl_notify_enabled);
    assert_eq!(m.mkl_notify_after_days, 3);
    assert_eq!(m.mkl_notify_time, "09:00");
    assert!(m.notify_sound_enabled);
    assert_eq!(m.notify_sound_alias, "SystemAsterisk");
    assert_eq!(m.notify_sound_mode, "alias");
    assert_eq!(m.notify_sound_file, "");
    assert_eq!(m.main_geometry, "");
}

#[test]
fn present_fields_preserved() {
    let d = default_settings("/base");
    let mut p = empty_partial();
    p.ui_font_size = Some(12);
    p.export_path = Some("/exports".to_string());
    p.notify_time = Some("21:30".to_string());
    p.tray_enabled = Some(false);
    p.notify_days = Some(vec![1, 3, 5]);
    p.main_geometry = Some("100x200".to_string());
    let m = merge_settings(p, &d);
    assert_eq!(m.ui_font_size, 12);
    assert_eq!(m.export_path, "/exports");
    assert_eq!(m.notify_time, "21:30");
    assert!(!m.tray_enabled);
    assert_eq!(m.notify_days, vec![1, 3, 5]);
    assert_eq!(m.main_geometry, "100x200");
    // fields the document did not set still come out as defaults
    assert_eq!(m.version, 1);
    assert_eq!(m.ui_scale, 125);
}

#[test]
fn zero_and_blank_sentinels_backfilled() {
    let d = default_settings("/base");
    let mut p = empty_partial();
    p.version = Some(0);
    p.ui_scale = Some(0);
    p.ui_font_size = Some(0);
    p.export_path = Some("   ".to_string());
    p.tray_logo_path = Some("".to_string());
    p.notify_time = Some(" \t ".to_string());
    p.mkl_notify_after_days = Some(0);
    p.notify_sound_alias = Some("".to_string());
    p.notify_sound_mode = Some("".to_string());
    let m = merge_settings(p, &d);
    assert_eq!(m.version, 1);
    assert_eq!(m.ui_scale, 125);
    assert_eq!(m.ui_font_size, 17);
    assert_eq!(m.export_path, "/base");
    assert_eq!(m.tray_logo_path, "app/assets/logo.png");
    assert_eq!(m.notify_time, "09:00");
    assert_eq!(m.mkl_notify_after_days, 3);
    assert_eq!(m.notify_sound_alias, "SystemAsterisk");
    assert_eq!(m.notify_sound_mode, "alias");
}

#[test]
fn load_save_load_round_trip() {
    let d = default_settings("/base");
    let mut p = empty_partial();
    p.version = Some(2);
    p.ui_scale = Some(0);
    p.export_path = Some("/exports".to_string());
    p.tray_enabled = Some(false);
    p.notify_days = Some(vec![2, 4]);
    p.notify_sound_file = Some("ding.wav".to_string());
    let first = merge_settings(p, &d);
    // saving writes the full document; a reparse yields every field present
    let reparsed = PartialSettings {
        version: Some(first.version),
        ui_scale: Some(first.ui_scale),
        ui_font_size: Some(first.ui_font_size),
        export_path: Some(first.export_path.clone()),
        tray_enabled: Some(first.tray_enabled),
        minimize_to_tray: Some(first.minimize_to_tray),
        start_in_tray: Some(first.start_in_tray),
        autostart_enabled: Some(first.autostart_enabled),
        tray_logo_path: Some(first.tray_logo_path.clone()),
        notify_enabled: Some(first.notify_enabled),
        notify_days: Some(first.notify_days.clone()),
        notify_time: Some(first.notify_time.clone()),
        mkl_notify_enabled: Some(first.mkl_notify_enabled),
        mkl_notify_after_days: Some(first.mkl_notify_after_days),
        mkl_notify_time: Some(first.mkl_notify_time.clone()),
        notify_sound_enabled: Some(first.notify_sound_enabled),
        notify_sound_alias: Some(first.notify_sound_alias.clone()),
        notify_sound_mode: Some(first.notify_sound_mode.clone()),
        notify_sound_file: Some(first.notify_sound_file.clone()),
        main_geometry: Some(first.main_geometry.clone()),
    };
    let second = merge_settings(reparsed, &d);
    assert_eq!(second.version, first.version);
    assert_eq!(second.ui_scale, first.ui_scale);
    assert_eq!(second.ui_font_size, first.ui_font_size);
    assert_eq!(second.export_path, first.export_path);
    assert_eq!(second.tray_enabled, first.tray_enabled);
    assert_eq!(second.minimize_to_tray, first.minimize_to_tray);
    assert_eq!(second.start_in_tray, first.start_in_tray);
    assert_eq!(second.autostart_enabled, first.autostart_enabled);
    assert_eq!(second.tray_logo_path, first.tray_logo_path);
    assert_eq!(second.notify_enabled, first.notify_enabled);
    assert_eq!(second.notify_days, first.notify_days);
    assert_eq!(second.notify_time, first.notify_time);
    assert_eq!(second.mkl_notify_enabled, first.mkl_notify_enabled);
    assert_eq!(second.mkl_notify_after_days, first.mkl_notify_after_days);
    assert_eq!(second.mkl_notify_time, first.mkl_notify_time);
    assert_eq!(second.notify_sound_enabled, first.notify_sound_enabled);
    assert_eq!(second.notify_sound_alias, first.notify_sound_alias);
    assert_eq!(second.notify_sound_mode, first.notify_sound_mode);
    assert_eq!(second.notify_sound_file, first.notify_sound_file);
    assert_eq!(second.main_geometry, first.main_geometry);
}
