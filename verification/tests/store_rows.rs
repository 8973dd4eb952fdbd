use interactivebackground::model::{Task, TaskStatus};
use interactivebackground::settings::{
    AppSettings, BackgroundFit, BackgroundPreset, BackgroundSettings, BackgroundSource,
    LanguagePreference, ThemePreference, WallpaperTemplate,
};
use interactivebackground::store::{
    background_monitor_key, background_row, background_settings_from_lookup,
    background_settings_from_row, column_missing, normalize_time, settings_from_row, settings_row,
    task_from_row, task_not_found, task_row, task_to_create, toggled_status, BackgroundRow,
    ColumnError, SettingsRow, TaskRow,
};

#[test]
fn prepares_a_new_task_with_a_trimmed_title_and_time() {
    let task = task_to_create("  Tauri öğren  ".to_string(), Some("  09:30 ".to_string())).unwrap();
    assert_eq!(task.id, 0);
    assert_eq!(task.title, "Tauri öğren");
    assert_eq!(task.status, TaskStatus::Todo);
    assert_eq!(task.scheduled_for, Some("09:30".to_string()));
    assert_eq!(task_to_create("x".to_string(), Some("  ".to_string())).unwrap().scheduled_for, None);
    assert_eq!(task_to_create("   ".to_string(), None).unwrap_err(), "Görev başlığı boş olamaz.");
}

#[test]
fn normalizes_scheduled_times() {
    assert_eq!(normalize_time(None), None);
    assert_eq!(normalize_time(Some(" \t".to_string())), None);
    assert_eq!(normalize_time(Some(" 18:30\n".to_string())), Some("18:30".to_string()));
    assert_eq!(normalize_time(Some("18:30".to_string())), Some("18:30".to_string()));
}

#[test]
fn toggles_between_done_and_todo() {
    assert_eq!(toggled_status(TaskStatus::Todo), TaskStatus::Done);
    assert_eq!(toggled_status(TaskStatus::InProgress), TaskStatus::Done);
    assert_eq!(toggled_status(TaskStatus::Done), TaskStatus::Todo);
    assert_eq!(toggled_status(toggled_status(TaskStatus::Todo)), TaskStatus::Todo);
}

#[test]
fn reports_a_missing_task_by_its_id() {
    assert_eq!(task_not_found(4), "4 numaralı görev bulunamadı.");
    assert_eq!(task_not_found(0), "0 numaralı görev bulunamadı.");
    assert_eq!(task_not_found(-12), "-12 numaralı görev bulunamadı.");
    assert_eq!(
        task_not_found(i64::MIN),
        "-9223372036854775808 numaralı görev bulunamadı."
    );
    assert_eq!(task_not_found(i64::MAX), "9223372036854775807 numaralı görev bulunamadı.");
}

#[test]
fn reads_back_a_written_task_row() {
    let task = Task {
        id: 9,
        title: "Yeniden açıldığında beni hatırla".to_string(),
        status: TaskStatus::InProgress,
        scheduled_for: Some("12:00".to_string()),
    };
    let row = task_row(&task);
    assert_eq!(row.status, "in_progress");
    assert_eq!(task_from_row(row), Ok(task));

    let broken = TaskRow { id: 1, title: "x".to_string(), status: "blocked".to_string(), scheduled_for: None };
    assert_eq!(
        task_from_row(broken),
        Err(ColumnError::InvalidText { index: 2, message: "Bilinmeyen görev durumu: blocked".to_string() })
    );
}

fn stored_settings() -> AppSettings {
    AppSettings {
        template: WallpaperTemplate::Kanban,
        opacity: 74,
        edit_mode: true,
        monitor_id: Some("monitor:0:0:1920x1080".to_string()),
        auto_calm_minutes: Some(15),
        theme: ThemePreference::Dark,
        language: LanguagePreference::En,
    }
}

#[test]
fn reads_back_written_settings() {
    let row = settings_row(&stored_settings());
    assert_eq!(row.template, "kanban");
    assert_eq!(row.opacity, 74);
    assert_eq!(row.theme, "dark");
    assert_eq!(row.language, "en");
    assert_eq!(settings_from_row(row), Ok(stored_settings()));

    let none = AppSettings { monitor_id: None, auto_calm_minutes: None, ..stored_settings() };
    assert_eq!(settings_from_row(settings_row(&none)), Ok(none));
}

fn raw_settings() -> SettingsRow {
    SettingsRow {
        template: "focus".to_string(),
        opacity: 82,
        edit_mode: false,
        monitor_id: None,
        auto_calm_minutes: Some(5),
        theme: "system".to_string(),
        language: "system".to_string(),
    }
}

#[test]
fn reads_the_seeded_settings_row() {
    let settings = settings_from_row(raw_settings()).unwrap();
    assert_eq!(settings.template, WallpaperTemplate::Focus);
    assert_eq!(settings.opacity, 82);
    assert_eq!(settings.auto_calm_minutes, Some(5));
    assert_eq!(settings.theme, ThemePreference::System);
    assert_eq!(settings.language, LanguagePreference::System);
}

#[test]
fn reports_the_first_unreadable_settings_column() {
    let bad_template = SettingsRow { template: "grid".to_string(), opacity: 900, ..raw_settings() };
    assert_eq!(
        settings_from_row(bad_template),
        Err(ColumnError::InvalidText { index: 0, message: "Bilinmeyen wallpaper şablonu: grid".to_string() })
    );
    let bad_opacity = SettingsRow { opacity: 300, theme: "neon".to_string(), ..raw_settings() };
    assert_eq!(
        settings_from_row(bad_opacity),
        Err(ColumnError::ConversionOutOfRange { index: 1, value: 300 })
    );
    let bad_theme = SettingsRow { theme: "neon".to_string(), ..raw_settings() };
    assert_eq!(
        settings_from_row(bad_theme),
        Err(ColumnError::InvalidText { index: 5, message: "Bilinmeyen tema tercihi: neon".to_string() })
    );
    let bad_language = SettingsRow { language: "fr".to_string(), ..raw_settings() };
    assert_eq!(
        settings_from_row(bad_language),
        Err(ColumnError::InvalidText { index: 6, message: "Bilinmeyen dil tercihi: fr".to_string() })
    );
    let bad_minutes = SettingsRow { auto_calm_minutes: Some(-1), ..raw_settings() };
    assert_eq!(
        settings_from_row(bad_minutes),
        Err(ColumnError::IntegralOutOfRange { index: 4, value: -1 })
    );
}

fn display_two() -> BackgroundSettings {
    BackgroundSettings {
        monitor_id: Some("display-two".to_string()),
        source: BackgroundSource::Custom,
        preset: BackgroundPreset::Midnight,
        custom_path: Some("C:\\managed\\wallpaper.webp".to_string()),
        fit: BackgroundFit::Contain,
        overlay: 32,
        blur: 6,
    }
}

#[test]
fn reads_back_a_written_background_row() {
    let row = background_row(&display_two());
    assert_eq!(row.source, "custom");
    assert_eq!(row.preset, "midnight");
    assert_eq!(row.fit, "contain");
    assert_eq!(
        background_settings_from_row(row, Some("display-two".to_string())),
        Ok(display_two())
    );
}

#[test]
fn falls_back_to_defaults_without_a_stored_background() {
    assert_eq!(background_settings_from_lookup(None, None), Ok(BackgroundSettings::defaults_for(None)));
    let row = background_row(&display_two());
    assert_eq!(
        background_settings_from_lookup(Some("display-two".to_string()), Some(row)),
        Ok(display_two())
    );
}

#[test]
fn reports_the_first_unreadable_background_column() {
    let row = |source: &str, preset: &str, fit: &str, overlay: i64, blur: i64| BackgroundRow {
        source: source.to_string(),
        preset: preset.to_string(),
        custom_path: None,
        fit: fit.to_string(),
        overlay,
        blur,
    };
    assert_eq!(
        background_settings_from_row(row("web", "x", "cover", 0, 0), None),
        Err(ColumnError::InvalidText { index: 0, message: "Bilinmeyen arka plan kaynağı: web".to_string() })
    );
    assert_eq!(
        background_settings_from_row(row("preset", "x", "cover", 0, 0), None),
        Err(ColumnError::InvalidText { index: 1, message: "Bilinmeyen arka plan teması: x".to_string() })
    );
    assert_eq!(
        background_settings_from_row(row("preset", "ember", "fill", 0, 0), None),
        Err(ColumnError::InvalidText {
            index: 3,
            message: "Bilinmeyen arka plan ölçekleme biçimi: fill".to_string()
        })
    );
    assert_eq!(
        background_settings_from_row(row("preset", "ember", "cover", 256, 0), None),
        Err(ColumnError::IntegralOutOfRange { index: 4, value: 256 })
    );
    assert_eq!(
        background_settings_from_row(row("preset", "ember", "cover", 10, -3), None),
        Err(ColumnError::IntegralOutOfRange { index: 5, value: -3 })
    );
}

#[test]
fn keys_the_primary_monitor_background_separately() {
    assert_eq!(background_monitor_key(None), "__primary__");
    assert_eq!(background_monitor_key(Some("display-two")), "display-two");
}

#[test]
fn detects_columns_missing_from_older_tables() {
    let columns: Vec<String> =
        ["id", "template", "opacity", "edit_mode"].iter().map(|name| name.to_string()).collect();
    assert!(column_missing(&columns, "monitor_id"));
    assert!(column_missing(&columns, "auto_calm_minutes"));
    assert!(!column_missing(&columns, "opacity"));
    assert!(column_missing(&Vec::new(), "language"));
}
