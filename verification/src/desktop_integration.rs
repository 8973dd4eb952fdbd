//! The texts of the system tray menu and the language they are shown in.

use vstd::prelude::*;

use crate::settings::LanguagePreference;
use crate::text::{equals_ignoring_ascii_case, starts_with_ignoring_ascii_case};

verus! {

/// A language the user interface is actually shown in.
#[derive(Clone, Copy, Debug, PartialEq, Eq, Structural)]
pub enum ResolvedLanguage {
    Tr,
    En,
}

/// The labels of the tray menu entries.
#[derive(Clone, Copy, Debug, PartialEq, Eq)]
pub struct TrayLabels {
    pub show_control: &'static str,
    pub toggle_wallpaper: &'static str,
    pub toggle_interaction: &'static str,
    pub quit: &'static str,
}

pub fn tray_labels(language: ResolvedLanguage) -> (r: TrayLabels)
    ensures
        language == ResolvedLanguage::Tr ==> {
            &&& r.show_control@ == "Yönetim panelini aç"@
            &&& r.toggle_wallpaper@ == "Wallpaper'ı aç / kapat"@
            &&& r.toggle_interaction@ == "Etkileşim modunu aç / kapat   Ctrl+Alt+Space"@
            &&& r.quit@ == "interactivebackground'dan çık"@
        },
        language == ResolvedLanguage::En ==> {
            &&& r.show_control@ == "Open control panel"@
            &&& r.toggle_wallpaper@ == "Show / hide wallpaper"@
            &&& r.toggle_interaction@ == "Toggle interaction mode   Ctrl+Alt+Space"@
            &&& r.quit@ == "Quit interactivebackground"@
        },
{
    match language {
        ResolvedLanguage::Tr => TrayLabels {
            show_control: "Yönetim panelini aç",
            toggle_wallpaper: "Wallpaper'ı aç / kapat",
            toggle_interaction: "Etkileşim modunu aç / kapat   Ctrl+Alt+Space",
            quit: "interactivebackground'dan çık",
        },
        ResolvedLanguage::En => TrayLabels {
            show_control: "Open control panel",
            toggle_wallpaper: "Show / hide wallpaper",
            toggle_interaction: "Toggle interaction mode   Ctrl+Alt+Space",
            quit: "Quit interactivebackground",
        },
    }
}

/// The language of a system locale name: Turkish for a locale whose name
/// starts with `tr` in any case, English otherwise.
pub open spec fn locale_language(locale: Seq<char>) -> ResolvedLanguage {
    if locale.len() >= 2 && equals_ignoring_ascii_case(locale.subrange(0, 2), "tr"@) {
        ResolvedLanguage::Tr
    } else {
        ResolvedLanguage::En
    }
}

/// The code points of the letters of `tr` in both cases.
proof fn lemma_letter_codes(c: char)
    ensures
        (c as u32 == 0x74) == (c == 't'),
        (c as u32 == 0x54) == (c == 'T'),
        (c as u32 == 0x72) == (c == 'r'),
        (c as u32 == 0x52) == (c == 'R'),
{
}

/// A system locale names Turkish exactly when its first two characters are
/// `t` or `T` and then `r` or `R`, as in `tr`, `tr-TR` or `TR_tr`; every
/// other locale, a shorter one included, is English.
pub proof fn lemma_locale_language_rule(locale: Seq<char>)
    ensures
        (locale_language(locale) == ResolvedLanguage::Tr) <==> (locale.len() >= 2 && (locale[0]
            == 't' || locale[0] == 'T') && (locale[1] == 'r' || locale[1] == 'R')),
{
    reveal_strlit("tr");
    if locale.len() >= 2 {
        let head = locale.subrange(0, 2);
        assert(head[0] == locale[0]);
        assert(head[1] == locale[1]);
        assert("tr"@[0] == 't');
        assert("tr"@[1] == 'r');
        lemma_letter_codes(locale[0]);
        lemma_letter_codes(locale[1]);
        let turkish = (locale[0] as u32 == 0x74 || locale[0] as u32 == 0x54) && (locale[1] as u32
            == 0x72 || locale[1] as u32 == 0x52);
        if turkish {
            assert forall|i: int| 0 <= i < head.len() implies #[trigger] head[i] == "tr"@[i] || (
            'a' <= "tr"@[i] && "tr"@[i] <= 'z' && head[i] as u32 == "tr"@[i] as u32 - 32) by {
                if i == 0 {
                    assert(head[0] == locale[0]);
                    lemma_letter_codes(head[0]);
                } else {
                    assert(head[1] == locale[1]);
                    lemma_letter_codes(head[1]);
                }
            }
            assert(equals_ignoring_ascii_case(head, "tr"@));
        } else if equals_ignoring_ascii_case(head, "tr"@) {
            lemma_letter_codes(head[0]);
            lemma_letter_codes(head[1]);
            assert(head[0] == "tr"@[0] || head[0] as u32 == 't' as u32 - 32);
            assert(head[1] == "tr"@[1] || head[1] as u32 == 'r' as u32 - 32);
        }
    }
}

pub fn language_from_locale(locale: &str) -> (r: ResolvedLanguage)
    ensures
        r == locale_language(locale@),
{
    proof {
        reveal_strlit("tr");
    }
    if starts_with_ignoring_ascii_case(locale, "tr") {
        ResolvedLanguage::Tr
    } else {
        ResolvedLanguage::En
    }
}

/// The language a preference stands for; following the system means the
/// system's language.
pub fn resolve_language(preference: LanguagePreference, system_language: ResolvedLanguage) -> (r:
    ResolvedLanguage)
    ensures
        r == match preference {
            LanguagePreference::Tr => ResolvedLanguage::Tr,
            LanguagePreference::En => ResolvedLanguage::En,
            LanguagePreference::System => system_language,
        },
{
    match preference {
        LanguagePreference::Tr => ResolvedLanguage::Tr,
        LanguagePreference::En => ResolvedLanguage::En,
        LanguagePreference::System => system_language,
    }
}

} // verus!
