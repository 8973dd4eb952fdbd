use interactivebackground::model::{Task, TaskStatus};
use interactivebackground::settings::{
    AppSettings, BackgroundFit, BackgroundPreset, BackgroundSettings, BackgroundSource,
    ClockHourFormat, ClockStyle, ClockWidgetSettings, LanguagePreference, PomodoroMode,
    PomodoroPreferences, ThemePreference, WallpaperTemplate, WidgetKind,
};

#[test]
fn creates_a_todo_task_with_a_trimmed_title() {
    let task = Task::new(7, "  Tauri öğren  ".to_string(), Some("12:00".to_string())).unwrap();
    assert_eq!(task.id, 7);
    assert_eq!(task.title, "Tauri öğren");
    assert_eq!(task.status, TaskStatus::Todo);
    assert_eq!(task.scheduled_for, Some("12:00".to_string()));
}

#[test]
fn rejects_empty_and_overlong_titles() {
    assert_eq!(Task::new(1, "   ".to_string(), None).unwrap_err(), "Görev başlığı boş olamaz.");
    assert_eq!(Task::new(1, "\t\n\u{3000}".to_string(), None).unwrap_err(), "Görev başlığı boş olamaz.");
    let long = "ğ".repeat(121);
    assert_eq!(
        Task::new(1, long, None).unwrap_err(),
        "Görev başlığı 120 karakterden uzun olamaz."
    );
    let limit = format!("  {}  ", "ğ".repeat(120));
    assert_eq!(Task::new(1, limit, None).unwrap().title.chars().count(), 120);
}

#[test]
fn retrimming_a_task_title_keeps_it() {
    let task = Task::new(3, " \u{a0}Plan\u{2003} ".to_string(), None).unwrap();
    assert_eq!(task.title, "Plan");
    let again = Task::new(4, task.title.clone(), None).unwrap();
    assert_eq!(again.title, task.title);
}

#[test]
fn stores_and_reads_every_task_status() {
    for status in [TaskStatus::Todo, TaskStatus::InProgress, TaskStatus::Done] {
        assert_eq!(TaskStatus::from_database_value(status.as_database_value()), Ok(status));
    }
    assert_eq!(TaskStatus::InProgress.as_database_value(), "in_progress");
    assert_eq!(
        TaskStatus::from_database_value("Done").unwrap_err(),
        "Bilinmeyen görev durumu: Done"
    );
}

#[test]
fn stores_and_reads_every_widget_kind() {
    let kinds = [
        WidgetKind::Focus,
        WidgetKind::Kanban,
        WidgetKind::Pomodoro,
        WidgetKind::Clock,
        WidgetKind::Date,
        WidgetKind::DailyPoem,
        WidgetKind::DailyVerse,
        WidgetKind::DailyHadith,
    ];
    for kind in kinds {
        assert_eq!(WidgetKind::from_database_value(kind.as_database_value()), Ok(kind));
    }
    assert_eq!(WidgetKind::DailyHadith.as_database_value(), "daily_hadith");
    assert_eq!(
        WidgetKind::from_database_value("weather").unwrap_err(),
        "Bilinmeyen widget türü: weather"
    );
}

#[test]
fn separates_core_widgets_from_store_packages() {
    assert!(WidgetKind::Clock.is_core());
    assert!(WidgetKind::Pomodoro.is_core());
    assert!(!WidgetKind::Date.is_core());
    let bundled = WidgetKind::bundled_packages();
    assert_eq!(
        bundled,
        [WidgetKind::Date, WidgetKind::DailyPoem, WidgetKind::DailyVerse, WidgetKind::DailyHadith]
    );
    assert!(bundled.iter().all(|kind| !kind.is_core()));
}

#[test]
fn stores_and_reads_the_other_enumerations() {
    for template in [WallpaperTemplate::Focus, WallpaperTemplate::Kanban] {
        assert_eq!(WallpaperTemplate::from_database_value(template.as_database_value()), Ok(template));
    }
    for theme in [ThemePreference::System, ThemePreference::Light, ThemePreference::Dark] {
        assert_eq!(ThemePreference::from_database_value(theme.as_database_value()), Ok(theme));
    }
    for language in [LanguagePreference::System, LanguagePreference::Tr, LanguagePreference::En] {
        assert_eq!(LanguagePreference::from_database_value(language.as_database_value()), Ok(language));
    }
    for source in [BackgroundSource::Preset, BackgroundSource::Custom] {
        assert_eq!(BackgroundSource::from_database_value(source.as_database_value()), Ok(source));
    }
    let presets = [
        BackgroundPreset::FoldedHorizon,
        BackgroundPreset::Midnight,
        BackgroundPreset::Graphite,
        BackgroundPreset::Ember,
        BackgroundPreset::Porcelain,
        BackgroundPreset::Arctic,
        BackgroundPreset::Linen,
        BackgroundPreset::MorningMist,
    ];
    for preset in presets {
        assert_eq!(BackgroundPreset::from_database_value(preset.as_database_value()), Ok(preset));
    }
    for fit in [BackgroundFit::Cover, BackgroundFit::Contain, BackgroundFit::Stretch] {
        assert_eq!(BackgroundFit::from_database_value(fit.as_database_value()), Ok(fit));
    }
    for mode in [PomodoroMode::Work, PomodoroMode::Break] {
        assert_eq!(PomodoroMode::from_database_value(mode.as_database_value()), Ok(mode));
    }
    assert_eq!(BackgroundPreset::MorningMist.as_database_value(), "morning_mist");
    assert_eq!(
        WallpaperTemplate::from_database_value("grid").unwrap_err(),
        "Bilinmeyen wallpaper şablonu: grid"
    );
    assert_eq!(ThemePreference::from_database_value("").unwrap_err(), "Bilinmeyen tema tercihi: ");
    assert_eq!(
        LanguagePreference::from_database_value("de").unwrap_err(),
        "Bilinmeyen dil tercihi: de"
    );
    assert_eq!(
        BackgroundSource::from_database_value("remote").unwrap_err(),
        "Bilinmeyen arka plan kaynağı: remote"
    );
    assert_eq!(
        BackgroundPreset::from_database_value("Midnight").unwrap_err(),
        "Bilinmeyen arka plan teması: Midnight"
    );
    assert_eq!(
        BackgroundFit::from_database_value("tile").unwrap_err(),
        "Bilinmeyen arka plan ölçekleme biçimi: tile"
    );
    assert_eq!(
        PomodoroMode::from_database_value("rest").unwrap_err(),
        "Bilinmeyen Pomodoro modu: rest"
    );
}

fn settings(opacity: u8, auto_calm_minutes: Option<u16>) -> AppSettings {
    AppSettings {
        template: WallpaperTemplate::Kanban,
        opacity,
        edit_mode: true,
        monitor_id: Some("monitor:0:0:1920x1080".to_string()),
        auto_calm_minutes,
        theme: ThemePreference::Dark,
        language: LanguagePreference::En,
    }
}

#[test]
fn validates_wallpaper_settings() {
    assert_eq!(settings(76, Some(5)).validate(), Ok(settings(76, Some(5))));
    assert_eq!(settings(40, None).validate(), Ok(settings(40, None)));
    assert_eq!(settings(100, Some(120)).validate(), Ok(settings(100, Some(120))));
    assert_eq!(
        settings(20, Some(5)).validate().unwrap_err(),
        "Saydamlık değeri 40 ile 100 arasında olmalıdır."
    );
    assert_eq!(
        settings(101, Some(500)).validate().unwrap_err(),
        "Saydamlık değeri 40 ile 100 arasında olmalıdır."
    );
    assert_eq!(
        settings(82, Some(0)).validate().unwrap_err(),
        "Otomatik sakin mod süresi 1 ile 120 dakika arasında olmalıdır."
    );
    assert_eq!(
        settings(82, Some(121)).validate().unwrap_err(),
        "Otomatik sakin mod süresi 1 ile 120 dakika arasında olmalıdır."
    );
}

#[test]
fn validates_pomodoro_preferences() {
    let loud = PomodoroPreferences { notifications_enabled: true, sound_enabled: true, sound_volume: 101 };
    assert_eq!(loud.validate().unwrap_err(), "Pomodoro ses seviyesi 0 ile 100 arasında olmalıdır.");
    let full = PomodoroPreferences { sound_volume: 100, ..loud };
    assert_eq!(full.validate(), Ok(full));
}

fn custom_background(path: Option<&str>) -> BackgroundSettings {
    BackgroundSettings {
        monitor_id: Some("display-two".to_string()),
        source: BackgroundSource::Custom,
        preset: BackgroundPreset::Midnight,
        custom_path: path.map(str::to_string),
        fit: BackgroundFit::Contain,
        overlay: 32,
        blur: 6,
    }
}

#[test]
fn validates_background_settings() {
    let custom = custom_background(Some("C:\\managed\\wallpaper.webp"));
    assert_eq!(custom.clone().validate(), Ok(custom.clone()));

    let preset = BackgroundSettings { source: BackgroundSource::Preset, ..custom.clone() };
    let validated = preset.validate().unwrap();
    assert_eq!(validated.custom_path, None);
    assert_eq!(validated.clone().validate(), Ok(validated));

    assert_eq!(
        BackgroundSettings { overlay: 71, ..custom.clone() }.validate().unwrap_err(),
        "Arka plan karartması 0 ile 70 arasında olmalıdır."
    );
    assert_eq!(
        BackgroundSettings { blur: 25, ..custom.clone() }.validate().unwrap_err(),
        "Arka plan bulanıklığı 0 ile 24 arasında olmalıdır."
    );
    assert_eq!(
        custom_background(Some("")).validate().unwrap_err(),
        "Özel arka plan dosyası bulunamadı."
    );
    assert_eq!(custom_background(None).validate().unwrap_err(), "Özel arka plan dosyası bulunamadı.");
}

#[test]
fn defaults_every_monitor_to_the_folded_horizon_preset() {
    let defaults = BackgroundSettings::defaults_for(None);
    assert_eq!(defaults.preset, BackgroundPreset::FoldedHorizon);
    assert_eq!(defaults.source, BackgroundSource::Preset);
    assert_eq!(defaults.fit, BackgroundFit::Cover);
    assert_eq!(defaults.overlay, 16);
    assert_eq!(defaults.blur, 0);
    assert_eq!(defaults.clone().validate(), Ok(defaults));
    assert_eq!(
        BackgroundSettings::defaults_for(Some("display-two".to_string())).monitor_id,
        Some("display-two".to_string())
    );
}

#[test]
fn validates_clock_settings_and_trims_the_time_zone() {
    let defaults = ClockWidgetSettings::default();
    assert_eq!(defaults.version, 1);
    assert_eq!(defaults.style, ClockStyle::Digital);
    assert_eq!(defaults.hour_format, ClockHourFormat::System);
    assert!(defaults.show_seconds && defaults.show_date && defaults.show_weekday);
    assert_eq!(defaults.clone().validate(), Ok(defaults.clone()));

    let zoned = ClockWidgetSettings { time_zone: Some("  Europe/Istanbul ".to_string()), ..defaults.clone() };
    let validated = zoned.validate().unwrap();
    assert_eq!(validated.time_zone, Some("Europe/Istanbul".to_string()));
    assert_eq!(validated.clone().validate(), Ok(validated));

    let blank = ClockWidgetSettings { time_zone: Some("   ".to_string()), ..defaults.clone() };
    assert_eq!(blank.validate().unwrap().time_zone, None);

    let offset = ClockWidgetSettings { time_zone: Some("Etc/GMT+3".to_string()), ..defaults.clone() };
    assert!(offset.validate().is_ok());

    let invalid = ClockWidgetSettings { time_zone: Some("Europe/İstanbul".to_string()), ..defaults.clone() };
    assert_eq!(
        invalid.validate().unwrap_err(),
        "Saat dilimi geçerli bir IANA tanımlayıcısı olmalıdır."
    );
    let long = ClockWidgetSettings { time_zone: Some("a".repeat(65)), ..defaults.clone() };
    assert!(long.validate().is_err());
    let exact = ClockWidgetSettings { time_zone: Some("a".repeat(64)), ..defaults.clone() };
    assert!(exact.validate().is_ok());

    let future = ClockWidgetSettings { version: 2, ..defaults };
    assert_eq!(future.validate().unwrap_err(), "Desteklenmeyen saat ayarı sürümü.");
}
