//! The notification shown when a Pomodoro session ends.

use vstd::prelude::*;

use crate::settings::{LanguagePreference, PomodoroMode};

verus! {

/// The title and body of the notification for a finished session. Only an
/// explicit Turkish preference gives Turkish texts; any other gives English.
pub fn notification_text(language: LanguagePreference, completed_mode: PomodoroMode) -> (r: (
    &'static str,
    &'static str,
))
    ensures
        language == LanguagePreference::Tr && completed_mode == PomodoroMode::Work ==> r.0@
            == "Pomodoro tamamlandı"@ && r.1@ == "Odak seansı bitti. Mola zamanı."@,
        language == LanguagePreference::Tr && completed_mode == PomodoroMode::Break ==> r.0@
            == "Mola tamamlandı"@ && r.1@ == "Yeni odak seansına hazırsın."@,
        language != LanguagePreference::Tr && completed_mode == PomodoroMode::Work ==> r.0@
            == "Pomodoro complete"@ && r.1@ == "Focus session finished. Time for a break."@,
        language != LanguagePreference::Tr && completed_mode == PomodoroMode::Break ==> r.0@
            == "Break complete"@ && r.1@ == "Ready for another focus session."@,
{
    let turkish = match language {
        LanguagePreference::Tr => true,
        _ => false,
    };
    match (turkish, completed_mode) {
        (true, PomodoroMode::Work) => ("Pomodoro tamamlandı", "Odak seansı bitti. Mola zamanı."),
        (true, PomodoroMode::Break) => ("Mola tamamlandı", "Yeni odak seansına hazırsın."),
        (false, PomodoroMode::Work) => (
            "Pomodoro complete",
            "Focus session finished. Time for a break.",
        ),
        (false, PomodoroMode::Break) => ("Break complete", "Ready for another focus session."),
    }
}

} // verus!
