use interactivebackground::desktop_integration::{
    language_from_locale, resolve_language, tray_labels, ResolvedLanguage,
};
use interactivebackground::settings::LanguagePreference;

#[test]
fn provides_turkish_and_english_tray_labels() {
    let tr = tray_labels(ResolvedLanguage::Tr);
    let en = tray_labels(ResolvedLanguage::En);

    assert_eq!(tr.show_control, "Yönetim panelini aç");
    assert_eq!(tr.quit, "interactivebackground'dan çık");
    assert_eq!(en.show_control, "Open control panel");
    assert_eq!(en.quit, "Quit interactivebackground");
}

#[test]
fn names_the_interaction_shortcut_in_both_languages() {
    assert_eq!(
        tray_labels(ResolvedLanguage::Tr).toggle_interaction,
        "Etkileşim modunu aç / kapat   Ctrl+Alt+Space"
    );
    assert_eq!(tray_labels(ResolvedLanguage::En).toggle_wallpaper, "Show / hide wallpaper");
}

#[test]
fn reads_turkish_locales_in_any_case() {
    assert_eq!(language_from_locale("tr-TR"), ResolvedLanguage::Tr);
    assert_eq!(language_from_locale("TR_tr.UTF-8"), ResolvedLanguage::Tr);
    assert_eq!(language_from_locale("Tr"), ResolvedLanguage::Tr);
    assert_eq!(language_from_locale("en_US.UTF-8"), ResolvedLanguage::En);
    assert_eq!(language_from_locale("t"), ResolvedLanguage::En);
    assert_eq!(language_from_locale(""), ResolvedLanguage::En);
    assert_eq!(language_from_locale("de-tr"), ResolvedLanguage::En);
}

#[test]
fn resolves_explicit_preferences_and_follows_the_system_otherwise() {
    assert_eq!(resolve_language(LanguagePreference::Tr, ResolvedLanguage::En), ResolvedLanguage::Tr);
    assert_eq!(resolve_language(LanguagePreference::En, ResolvedLanguage::Tr), ResolvedLanguage::En);
    assert_eq!(
        resolve_language(LanguagePreference::System, ResolvedLanguage::Tr),
        ResolvedLanguage::Tr
    );
}
