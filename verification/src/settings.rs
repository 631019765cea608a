//! The settings store's document model and default-backfill merge.
//!
//! A stored document may miss fields, or carry a zero/empty sentinel
//! where a meaningful default exists; loading merges it with the default
//! document field by field. The merge is field-local: one field's
//! default-use never affects another field. Reading and writing the
//! document file, and its serialized form, are the caller's concern:
//! a parsed document arrives here as a `PartialSettings`, with `None`
//! for every field the stored document lacked.
//!
//! The display scale is carried in hundredths (a scale of 125 stands
//! for 1.25x), so the sentinel check and the defaults are exact.

use vstd::prelude::*;
use crate::text::{blank, is_blank};

verus! {

/// The fully populated settings document.
pub struct Settings {
    /// Schema marker for forward migration.
    pub version: u8,
    /// Display scale in hundredths.
    pub ui_scale: u32,
    pub ui_font_size: u8,
    /// Directory where export documents are written.
    pub export_path: String,
    pub tray_enabled: bool,
    pub minimize_to_tray: bool,
    pub start_in_tray: bool,
    pub autostart_enabled: bool,
    pub tray_logo_path: String,
    pub notify_enabled: bool,
    /// Weekday markers of the generic reminder schedule.
    pub notify_days: Vec<u8>,
    /// Reminder time, `HH:MM`.
    pub notify_time: String,
    pub mkl_notify_enabled: bool,
    pub mkl_notify_after_days: u8,
    pub mkl_notify_time: String,
    pub notify_sound_enabled: bool,
    pub notify_sound_alias: String,
    /// `alias` or `file`.
    pub notify_sound_mode: String,
    pub notify_sound_file: String,
    /// Last-known window placement, opaque.
    pub main_geometry: String,
}

/// A stored document as parsed: `None` for every missing field.
pub struct PartialSettings {
    pub version: Option<u8>,
    pub ui_scale: Option<u32>,
    pub ui_font_size: Option<u8>,
    pub export_path: Option<String>,
    pub tray_enabled: Option<bool>,
    pub minimize_to_tray: Option<bool>,
    pub start_in_tray: Option<bool>,
    pub autostart_enabled: Option<bool>,
    pub tray_logo_path: Option<String>,
    pub notify_enabled: Option<bool>,
    pub notify_days: Option<Vec<u8>>,
    pub notify_time: Option<String>,
    pub mkl_notify_enabled: Option<bool>,
    pub mkl_notify_after_days: Option<u8>,
    pub mkl_notify_time: Option<String>,
    pub notify_sound_enabled: Option<bool>,
    pub notify_sound_alias: Option<String>,
    pub notify_sound_mode: Option<String>,
    pub notify_sound_file: Option<String>,
    pub main_geometry: Option<String>,
}

/// Ghost view of a settings document.
pub ghost struct SettingsV {
    pub version: u8,
    pub ui_scale: u32,
    pub ui_font_size: u8,
    pub export_path: Seq<char>,
    pub tray_enabled: bool,
    pub minimize_to_tray: bool,
    pub start_in_tray: bool,
    pub autostart_enabled: bool,
    pub tray_logo_path: Seq<char>,
    pub notify_enabled: bool,
    pub notify_days: Seq<u8>,
    pub notify_time: Seq<char>,
    pub mkl_notify_enabled: bool,
    pub mkl_notify_after_days: u8,
    pub mkl_notify_time: Seq<char>,
    pub notify_sound_enabled: bool,
    pub notify_sound_alias: Seq<char>,
    pub notify_sound_mode: Seq<char>,
    pub notify_sound_file: Seq<char>,
    pub main_geometry: Seq<char>,
}

/// Ghost view of a parsed (possibly partial) document.
pub ghost struct PartialSettingsV {
    pub version: Option<u8>,
    pub ui_scale: Option<u32>,
    pub ui_font_size: Option<u8>,
    pub export_path: Option<Seq<char>>,
    pub tray_enabled: Option<bool>,
    pub minimize_to_tray: Option<bool>,
    pub start_in_tray: Option<bool>,
    pub autostart_enabled: Option<bool>,
    pub tray_logo_path: Option<Seq<char>>,
    pub notify_enabled: Option<bool>,
    pub notify_days: Option<Seq<u8>>,
    pub notify_time: Option<Seq<char>>,
    pub mkl_notify_enabled: Option<bool>,
    pub mkl_notify_after_days: Option<u8>,
    pub mkl_notify_time: Option<Seq<char>>,
    pub notify_sound_enabled: Option<bool>,
    pub notify_sound_alias: Option<Seq<char>>,
    pub notify_sound_mode: Option<Seq<char>>,
    pub notify_sound_file: Option<Seq<char>>,
    pub main_geometry: Option<Seq<char>>,
}

pub open spec fn opt_view(o: Option<String>) -> Option<Seq<char>> {
    match o {
        Some(s) => Some(s@),
        None => None,
    }
}

pub open spec fn opt_days_view(o: Option<Vec<u8>>) -> Option<Seq<u8>> {
    match o {
        Some(v) => Some(v@),
        None => None,
    }
}

impl View for Settings {
    type V = SettingsV;

    open spec fn view(&self) -> SettingsV {
        SettingsV {
            version: self.version,
            ui_scale: self.ui_scale,
            ui_font_size: self.ui_font_size,
            export_path: self.export_path@,
            tray_enabled: self.tray_enabled,
            minimize_to_tray: self.minimize_to_tray,
            start_in_tray: self.start_in_tray,
            autostart_enabled: self.autostart_enabled,
            tray_logo_path: self.tray_logo_path@,
            notify_enabled: self.notify_enabled,
            notify_days: self.notify_days@,
            notify_time: self.notify_time@,
            mkl_notify_enabled: self.mkl_notify_enabled,
            mkl_notify_after_days: self.mkl_notify_after_days,
            mkl_notify_time: self.mkl_notify_time@,
            notify_sound_enabled: self.notify_sound_enabled,
            notify_sound_alias: self.notify_sound_alias@,
            notify_sound_mode: self.notify_sound_mode@,
            notify_sound_file: self.notify_sound_file@,
            main_geometry: self.main_geometry@,
        }
    }
}

impl View for PartialSettings {
    type V = PartialSettingsV;

    open spec fn view(&self) -> PartialSettingsV {
        PartialSettingsV {
            version: self.version,
            ui_scale: self.ui_scale,
            ui_font_size: self.ui_font_size,
            export_path: opt_view(self.export_path),
            tray_enabled: self.tray_enabled,
            minimize_to_tray: self.minimize_to_tray,
            start_in_tray: self.start_in_tray,
            autostart_enabled: self.autostart_enabled,
            tray_logo_path: opt_view(self.tray_logo_path),
            notify_enabled: self.notify_enabled,
            notify_days: opt_days_view(self.notify_days),
            notify_time: opt_view(self.notify_time),
            mkl_notify_enabled: self.mkl_notify_enabled,
            mkl_notify_after_days: self.mkl_notify_after_days,
            mkl_notify_time: opt_view(self.mkl_notify_time),
            notify_sound_enabled: self.notify_sound_enabled,
            notify_sound_alias: opt_view(self.notify_sound_alias),
            notify_sound_mode: opt_view(self.notify_sound_mode),
            notify_sound_file: opt_view(self.notify_sound_file),
            main_geometry: opt_view(self.main_geometry),
        }
    }
}

/// A numeric field: zero is the stored form of "absent", so a missing
/// or zero value loads as the default.
pub open spec fn merged_u8(x: Option<u8>, d: u8) -> u8 {
    match x {
        Some(v) => if v != 0 {
            v
        } else {
            d
        },
        None => d,
    }
}

pub open spec fn merged_u32(x: Option<u32>, d: u32) -> u32 {
    match x {
        Some(v) => if v != 0 {
            v
        } else {
            d
        },
        None => d,
    }
}

/// A string field with a meaningful default: a missing or blank value
/// loads as the default.
pub open spec fn merged_str(x: Option<Seq<char>>, d: Seq<char>) -> Seq<char> {
    match x {
        Some(s) => if !blank(s) {
            s
        } else {
            d
        },
        None => d,
    }
}

/// A field with no sentinel: a stored value is kept as it is, only a
/// missing one loads as the default.
pub open spec fn kept_bool(x: Option<bool>, d: bool) -> bool {
    match x {
        Some(v) => v,
        None => d,
    }
}

pub open spec fn kept_str(x: Option<Seq<char>>, d: Seq<char>) -> Seq<char> {
    match x {
        Some(s) => s,
        None => d,
    }
}

pub open spec fn kept_days(x: Option<Seq<u8>>, d: Seq<u8>) -> Seq<u8> {
    match x {
        Some(v) => v,
        None => d,
    }
}

/// The field-by-field merge of a parsed document with the defaults.
pub open spec fn spec_merge(p: PartialSettingsV, d: SettingsV) -> SettingsV {
    SettingsV {
        version: merged_u8(p.version, d.version),
        ui_scale: merged_u32(p.ui_scale, d.ui_scale),
        ui_font_size: merged_u8(p.ui_font_size, d.ui_font_size),
        export_path: merged_str(p.export_path, d.export_path),
        tray_enabled: kept_bool(p.tray_enabled, d.tray_enabled),
        minimize_to_tray: kept_bool(p.minimize_to_tray, d.minimize_to_tray),
        start_in_tray: kept_bool(p.start_in_tray, d.start_in_tray),
        autostart_enabled: kept_bool(p.autostart_enabled, d.autostart_enabled),
        tray_logo_path: merged_str(p.tray_logo_path, d.tray_logo_path),
        notify_enabled: kept_bool(p.notify_enabled, d.notify_enabled),
        notify_days: kept_days(p.notify_days, d.notify_days),
        notify_time: merged_str(p.notify_time, d.notify_time),
        mkl_notify_enabled: kept_bool(p.mkl_notify_enabled, d.mkl_notify_enabled),
        mkl_notify_after_days: merged_u8(p.mkl_notify_after_days, d.mkl_notify_after_days),
        mkl_notify_time: merged_str(p.mkl_notify_time, d.mkl_notify_time),
        notify_sound_enabled: kept_bool(p.notify_sound_enabled, d.notify_sound_enabled),
        notify_sound_alias: merged_str(p.notify_sound_alias, d.notify_sound_alias),
        notify_sound_mode: merged_str(p.notify_sound_mode, d.notify_sound_mode),
        notify_sound_file: kept_str(p.notify_sound_file, d.notify_sound_file),
        main_geometry: kept_str(p.main_geometry, d.main_geometry),
    }
}

/// The defaults are well formed: no field with a sentinel carries it.
pub open spec fn defaults_wf(d: SettingsV) -> bool {
    &&& d.version != 0
    &&& d.ui_scale != 0
    &&& d.ui_font_size != 0
    &&& !blank(d.export_path)
    &&& !blank(d.tray_logo_path)
    &&& !blank(d.notify_time)
    &&& d.mkl_notify_after_days != 0
    &&& !blank(d.mkl_notify_time)
    &&& !blank(d.notify_sound_alias)
    &&& !blank(d.notify_sound_mode)
}

/// The default document, given the default export directory (the
/// desktop directory when present, else the working directory — looked
/// up by the caller).
pub open spec fn spec_default(export_path: Seq<char>) -> SettingsV {
    SettingsV {
        version: 1,
        ui_scale: 125,
        ui_font_size: 17,
        export_path: export_path,
        tray_enabled: true,
        minimize_to_tray: true,
        start_in_tray: true,
        autostart_enabled: false,
        tray_logo_path: "app/assets/logo.png"@,
        notify_enabled: false,
        notify_days: Seq::<u8>::empty(),
        notify_time: "09:00"@,
        mkl_notify_enabled: false,
        mkl_notify_after_days: 3,
        mkl_notify_time: "09:00"@,
        notify_sound_enabled: true,
        notify_sound_alias: "SystemAsterisk"@,
        notify_sound_mode: "alias"@,
        notify_sound_file: ""@,
        main_geometry: ""@,
    }
}

/// Builds the default document around the given export directory.
pub fn default_settings(export_path: &str) -> (r: Settings)
    ensures
        r@ == spec_default(export_path@),
{
    Settings {
        version: 1,
        ui_scale: 125,
        ui_font_size: 17,
        export_path: export_path.to_owned(),
        tray_enabled: true,
        minimize_to_tray: true,
        start_in_tray: true,
        autostart_enabled: false,
        tray_logo_path: "app/assets/logo.png".to_owned(),
        notify_enabled: false,
        notify_days: Vec::new(),
        notify_time: "09:00".to_owned(),
        mkl_notify_enabled: false,
        mkl_notify_after_days: 3,
        mkl_notify_time: "09:00".to_owned(),
        notify_sound_enabled: true,
        notify_sound_alias: "SystemAsterisk".to_owned(),
        notify_sound_mode: "alias".to_owned(),
        notify_sound_file: "".to_owned(),
        main_geometry: "".to_owned(),
    }
}

fn copy_days(v: &Vec<u8>) -> (r: Vec<u8>)
    ensures
        r@ == v@,
{
    let mut r: Vec<u8> = Vec::new();
    let mut i: usize = 0;
    while i < v.len()
        invariant
            i <= v.len(),
            r@ == v@.take(i as int),
        decreases v.len() - i,
    {
        r.push(v[i]);
        proof {
            assert(r@ =~= v@.take(i + 1));
        }
        i = i + 1;
    }
    proof {
        assert(v@.take(v@.len() as int) =~= v@);
    }
    r
}

/// Merges a parsed document with the defaults, exactly as `spec_merge`
/// describes: every missing field, and every field carrying its
/// zero/empty sentinel where a meaningful default exists, loads as the
/// default; every other stored field is preserved unchanged.
fn merge_u8_field(x: Option<u8>, d: u8) -> (r: u8)
    ensures
        r == merged_u8(x, d),
{
    match x {
        Some(v) => if v != 0 {
            v
        } else {
            d
        },
        None => d,
    }
}

fn merge_u32_field(x: Option<u32>, d: u32) -> (r: u32)
    ensures
        r == merged_u32(x, d),
{
    match x {
        Some(v) => if v != 0 {
            v
        } else {
            d
        },
        None => d,
    }
}

fn merge_str_field(x: Option<String>, d: &String) -> (r: String)
    ensures
        r@ == merged_str(opt_view(x), d@),
{
    match x {
        Some(s) => if !is_blank(s.as_str()) {
            s
        } else {
            d.clone()
        },
        None => d.clone(),
    }
}

fn keep_bool_field(x: Option<bool>, d: bool) -> (r: bool)
    ensures
        r == kept_bool(x, d),
{
    match x {
        Some(v) => v,
        None => d,
    }
}

fn keep_str_field(x: Option<String>, d: &String) -> (r: String)
    ensures
        r@ == kept_str(opt_view(x), d@),
{
    match x {
        Some(s) => s,
        None => d.clone(),
    }
}

fn keep_days_field(x: Option<Vec<u8>>, d: &Vec<u8>) -> (r: Vec<u8>)
    ensures
        r@ == kept_days(opt_days_view(x), d@),
{
    match x {
        Some(v) => v,
        None => copy_days(d),
    }
}

/// Merges a parsed document with the defaults, exactly as `spec_merge`
/// describes: every missing field, and every field carrying its
/// zero/empty sentinel where a meaningful default exists, loads as the
/// default; every other stored field is preserved unchanged.
pub fn merge_settings(p: PartialSettings, defaults: &Settings) -> (r: Settings)
    ensures
        r@ == spec_merge(p@, defaults@),
{
    let r = Settings {
        version: merge_u8_field(p.version, defaults.version),
        ui_scale: merge_u32_field(p.ui_scale, defaults.ui_scale),
        ui_font_size: merge_u8_field(p.ui_font_size, defaults.ui_font_size),
        export_path: merge_str_field(p.export_path, &defaults.export_path),
        tray_enabled: keep_bool_field(p.tray_enabled, defaults.tray_enabled),
        minimize_to_tray: keep_bool_field(p.minimize_to_tray, defaults.minimize_to_tray),
        start_in_tray: keep_bool_field(p.start_in_tray, defaults.start_in_tray),
        autostart_enabled: keep_bool_field(p.autostart_enabled, defaults.autostart_enabled),
        tray_logo_path: merge_str_field(p.tray_logo_path, &defaults.tray_logo_path),
        notify_enabled: keep_bool_field(p.notify_enabled, defaults.notify_enabled),
        notify_days: keep_days_field(p.notify_days, &defaults.notify_days),
        notify_time: merge_str_field(p.notify_time, &defaults.notify_time),
        mkl_notify_enabled: keep_bool_field(p.mkl_notify_enabled, defaults.mkl_notify_enabled),
        mkl_notify_after_days: merge_u8_field(
            p.mkl_notify_after_days,
            defaults.mkl_notify_after_days,
        ),
        mkl_notify_time: merge_str_field(p.mkl_notify_time, &defaults.mkl_notify_time),
        notify_sound_enabled: keep_bool_field(
            p.notify_sound_enabled,
            defaults.notify_sound_enabled,
        ),
        notify_sound_alias: merge_str_field(p.notify_sound_alias, &defaults.notify_sound_alias),
        notify_sound_mode: merge_str_field(p.notify_sound_mode, &defaults.notify_sound_mode),
        notify_sound_file: keep_str_field(p.notify_sound_file, &defaults.notify_sound_file),
        main_geometry: keep_str_field(p.main_geometry, &defaults.main_geometry),
    };
    r
}

/// A fully populated document, reparsed: every field present.
pub open spec fn all_some(s: SettingsV) -> PartialSettingsV {
    PartialSettingsV {
        version: Some(s.version),
        ui_scale: Some(s.ui_scale),
        ui_font_size: Some(s.ui_font_size),
        export_path: Some(s.export_path),
        tray_enabled: Some(s.tray_enabled),
        minimize_to_tray: Some(s.minimize_to_tray),
        start_in_tray: Some(s.start_in_tray),
        autostart_enabled: Some(s.autostart_enabled),
        tray_logo_path: Some(s.tray_logo_path),
        notify_enabled: Some(s.notify_enabled),
        notify_days: Some(s.notify_days),
        notify_time: Some(s.notify_time),
        mkl_notify_enabled: Some(s.mkl_notify_enabled),
        mkl_notify_after_days: Some(s.mkl_notify_after_days),
        mkl_notify_time: Some(s.mkl_notify_time),
        notify_sound_enabled: Some(s.notify_sound_enabled),
        notify_sound_alias: Some(s.notify_sound_alias),
        notify_sound_mode: Some(s.notify_sound_mode),
        notify_sound_file: Some(s.notify_sound_file),
        main_geometry: Some(s.main_geometry),
    }
}

/// Loading after saving a loaded document changes nothing: merging any
/// merged document again, with the same well-formed defaults, is the
/// identity, so a load-save-load round trip returns the first load's
/// result field for field.
pub proof fn lemma_load_save_load(p: PartialSettingsV, d: SettingsV)
    requires
        defaults_wf(d),
    ensures
        spec_merge(all_some(spec_merge(p, d)), d) == spec_merge(p, d),
{
}

} // verus!
