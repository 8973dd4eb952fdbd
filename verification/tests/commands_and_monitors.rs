use interactivebackground::commands::{
    background_without_missing_file, image_extension_for_import, image_signature_matches,
    image_size_is_allowed, replaced_custom_background, settings_change_effects,
};
use interactivebackground::data_migration::{
    background_path_updates, migration_precheck, relocated_paths, MigrationOutcome,
};
use interactivebackground::monitors::{
    choose_monitor, compensated_position, find_monitor, monitor_id, monitor_name, target_monitor,
    MonitorChoice,
};
use interactivebackground::pomodoro_service::notification_text;
use interactivebackground::settings::{
    AppSettings, BackgroundFit, BackgroundPreset, BackgroundSettings, BackgroundSource,
    LanguagePreference, PomodoroMode, ThemePreference, WallpaperTemplate,
};

const PNG: [u8; 12] = [137, 80, 78, 71, 13, 10, 26, 10, 0, 0, 0, 0];

#[test]
fn matches_image_signatures_by_extension() {
    assert!(image_signature_matches(&PNG, "png"));
    assert!(!image_signature_matches(b"not an image", "png"));
    assert!(!image_signature_matches(&PNG[..7], "png"));
    assert!(image_signature_matches(&[0xff, 0xd8, 0xff, 0xe0], "jpg"));
    assert!(image_signature_matches(&[0xff, 0xd8, 0xff], "jpeg"));
    assert!(!image_signature_matches(&[0xff, 0xd8], "jpeg"));
    assert!(image_signature_matches(b"RIFF\x10\0\0\0WEBP", "webp"));
    assert!(!image_signature_matches(b"RIFF\x10\0\0\0WAVE", "webp"));
    assert!(!image_signature_matches(&PNG, "gif"));
    assert!(!image_signature_matches(&PNG, "PNG"));
}

#[test]
fn normalizes_imported_image_extensions() {
    assert_eq!(image_extension_for_import("JPEG"), Some("jpg"));
    assert_eq!(image_extension_for_import("jpg"), Some("jpg"));
    assert_eq!(image_extension_for_import("Png"), Some("png"));
    assert_eq!(image_extension_for_import("WebP"), Some("webp"));
    assert_eq!(image_extension_for_import("gif"), None);
    assert_eq!(image_extension_for_import("pngg"), None);
    assert_eq!(image_extension_for_import(""), None);
}

#[test]
fn limits_imported_images_to_fifty_megabytes() {
    assert!(!image_size_is_allowed(0));
    assert!(image_size_is_allowed(1));
    assert!(image_size_is_allowed(50 * 1024 * 1024));
    assert!(!image_size_is_allowed(50 * 1024 * 1024 + 1));
}

fn settings(language: LanguagePreference, edit_mode: bool, monitor: Option<&str>) -> AppSettings {
    AppSettings {
        template: WallpaperTemplate::Focus,
        opacity: 82,
        edit_mode,
        monitor_id: monitor.map(str::to_string),
        auto_calm_minutes: Some(5),
        theme: ThemePreference::System,
        language,
    }
}

#[test]
fn refreshes_only_what_a_settings_change_touches() {
    let before = settings(LanguagePreference::Tr, false, None);
    let same = settings_change_effects(&before, &before, true);
    assert!(!same.refresh_tray_language && !same.reapply_window_mode);

    let english = settings(LanguagePreference::En, false, None);
    assert!(settings_change_effects(&before, &english, true).refresh_tray_language);

    let editing = settings(LanguagePreference::Tr, true, None);
    assert!(settings_change_effects(&before, &editing, true).reapply_window_mode);
    assert!(!settings_change_effects(&before, &editing, false).reapply_window_mode);

    let moved = settings(LanguagePreference::Tr, false, Some("display:0:0:2560x1440"));
    assert!(settings_change_effects(&before, &moved, true).reapply_window_mode);
}

fn custom(path: Option<&str>) -> BackgroundSettings {
    BackgroundSettings {
        monitor_id: None,
        source: BackgroundSource::Custom,
        preset: BackgroundPreset::Ember,
        custom_path: path.map(str::to_string),
        fit: BackgroundFit::Stretch,
        overlay: 20,
        blur: 3,
    }
}

#[test]
fn falls_back_to_the_preset_when_the_custom_file_is_gone() {
    let fallback = background_without_missing_file(&custom(Some("C:\\gone.png")), false).unwrap();
    assert_eq!(fallback.source, BackgroundSource::Preset);
    assert_eq!(fallback.custom_path, None);
    assert_eq!(fallback.preset, BackgroundPreset::Ember);
    assert_eq!(fallback.overlay, 20);
    assert!(background_without_missing_file(&custom(None), true).is_some());
    assert_eq!(background_without_missing_file(&custom(Some("C:\\here.png")), true), None);
    let preset = BackgroundSettings { source: BackgroundSource::Preset, ..custom(None) };
    assert_eq!(background_without_missing_file(&preset, false), None);
}

#[test]
fn names_the_custom_file_an_update_leaves_unused() {
    let old = custom(Some("C:\\old.png"));
    assert_eq!(replaced_custom_background(&old, &custom(Some("C:\\new.png"))), Some("C:\\old.png".to_string()));
    assert_eq!(replaced_custom_background(&old, &old.clone()), None);
    let preset = BackgroundSettings { source: BackgroundSource::Preset, custom_path: None, ..old.clone() };
    assert_eq!(replaced_custom_background(&old, &preset), Some("C:\\old.png".to_string()));
    assert_eq!(replaced_custom_background(&preset, &old), None);
}

#[test]
fn precheck_keeps_an_existing_current_database() {
    assert_eq!(migration_precheck(true, true), Some(MigrationOutcome::CurrentDataAlreadyExists));
    assert_eq!(migration_precheck(true, false), Some(MigrationOutcome::CurrentDataAlreadyExists));
}

#[test]
fn precheck_stops_when_no_legacy_database_exists() {
    assert_eq!(migration_precheck(false, false), Some(MigrationOutcome::LegacyDataNotFound));
    assert_eq!(migration_precheck(false, true), None);
}

#[test]
fn identifies_monitors_by_name_position_and_size() {
    assert_eq!(monitor_id(Some("display"), 0, 0, 2560, 1440), "display:0:0:2560x1440");
    assert_eq!(monitor_id(None, -1920, 120, 1920, 1080), "monitor:-1920:120:1920x1080");
    assert_eq!(monitor_name(None, 0), "Ekran 1");
    assert_eq!(monitor_name(None, 41), "Ekran 42");
    assert_eq!(monitor_name(None, usize::MAX - 1), format!("Ekran {}", usize::MAX));
    assert_eq!(monitor_name(Some("DELL U2720Q"), 3), "DELL U2720Q");
}

#[test]
fn chooses_the_named_then_primary_then_first_monitor() {
    let ids: Vec<String> = vec!["a:0:0:1x1".to_string(), "b:1:0:1x1".to_string(), "b:1:0:1x1".to_string()];
    assert_eq!(find_monitor(&ids, "b:1:0:1x1"), Some(1));
    assert_eq!(find_monitor(&ids, "c"), None);
    let primary = vec![false, false, true];
    assert_eq!(target_monitor(&ids, &primary, Some("b:1:0:1x1")), Some(1));
    assert_eq!(target_monitor(&ids, &primary, Some("gone")), Some(2));
    assert_eq!(target_monitor(&ids, &primary, None), Some(2));
    assert_eq!(target_monitor(&ids, &vec![false; 3], None), Some(0));
    assert_eq!(target_monitor(&Vec::new(), &Vec::new(), Some("a")), None);
}

#[test]
fn announces_finished_sessions_in_the_chosen_language() {
    assert_eq!(
        notification_text(LanguagePreference::Tr, PomodoroMode::Work),
        ("Pomodoro tamamlandı", "Odak seansı bitti. Mola zamanı.")
    );
    assert_eq!(
        notification_text(LanguagePreference::Tr, PomodoroMode::Break),
        ("Mola tamamlandı", "Yeni odak seansına hazırsın.")
    );
    assert_eq!(
        notification_text(LanguagePreference::System, PomodoroMode::Work),
        ("Pomodoro complete", "Focus session finished. Time for a break.")
    );
    assert_eq!(
        notification_text(LanguagePreference::En, PomodoroMode::Break),
        ("Break complete", "Ready for another focus session.")
    );
}

#[test]
fn chooses_the_selected_then_primary_then_first_wallpaper_monitor() {
    let ids: Vec<String> = vec!["a".to_string(), "b".to_string()];
    assert_eq!(choose_monitor(&ids, Some("b"), true), Some(MonitorChoice::Listed(1)));
    assert_eq!(choose_monitor(&ids, Some("c"), true), Some(MonitorChoice::Primary));
    assert_eq!(choose_monitor(&ids, None, false), Some(MonitorChoice::Listed(0)));
    assert_eq!(choose_monitor(&Vec::new(), Some("a"), false), None);
    assert_eq!(choose_monitor(&Vec::new(), None, true), Some(MonitorChoice::Primary));
}

#[test]
fn compensates_the_invisible_window_border() {
    assert_eq!(compensated_position(-7, 0, 1), Some(-8));
    assert_eq!(compensated_position(2553, 2560, 2560), Some(2553));
    assert_eq!(compensated_position(i32::MAX, 1, 0), None);
}

#[test]
fn lists_the_background_rows_to_rewrite_in_order() {
    let keys: Vec<String> = vec!["primary".to_string(), "two".to_string(), "three".to_string()];
    let relocated = vec![Some("/new/a.webp".to_string()), None, Some("/new/c.png".to_string())];
    assert_eq!(
        background_path_updates(&keys, &relocated),
        vec![
            ("primary".to_string(), "/new/a.webp".to_string()),
            ("three".to_string(), "/new/c.png".to_string())
        ]
    );
    assert_eq!(background_path_updates(&Vec::new(), &Vec::new()), Vec::new());
}

#[test]
fn relocates_paths_under_the_legacy_directory() {
    let paths = vec!["/legacy/backgrounds/wallpaper.webp".to_string(), "/elsewhere/x.png".to_string()];
    let relocated = relocated_paths(&paths, "/legacy", "/current");
    assert_eq!(relocated.len(), 2);
    assert_eq!(relocated[0], Some("/current/backgrounds/wallpaper.webp".to_string()));
    assert_eq!(relocated[1], None);
}
