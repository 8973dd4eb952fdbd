use vstd::prelude::*;
use vstd::string::*;

use crate::text::{opt_text, same_text, trim_non_empty, trimmed_non_empty};

verus! {

#[derive(Clone, Copy, Debug, PartialEq, Eq, Structural)]
pub enum WallpaperTemplate {
    Focus,
    Kanban,
}

#[derive(Clone, Copy, Debug, PartialEq, Eq, Structural)]
pub enum ThemePreference {
    System,
    Light,
    Dark,
}

#[derive(Clone, Copy, Debug, PartialEq, Eq, Structural)]
pub enum LanguagePreference {
    System,
    Tr,
    En,
}

#[derive(Clone, Copy, Debug, PartialEq, Eq, Structural)]
pub enum BackgroundSource {
    Preset,
    Custom,
}

#[derive(Clone, Copy, Debug, PartialEq, Eq, Structural)]
pub enum BackgroundPreset {
    FoldedHorizon,
    Midnight,
    Graphite,
    Ember,
    Porcelain,
    Arctic,
    Linen,
    MorningMist,
}

#[derive(Clone, Copy, Debug, PartialEq, Eq, Structural)]
pub enum BackgroundFit {
    Cover,
    Contain,
    Stretch,
}

/// The background drawn behind the widgets of one monitor.
#[derive(Clone, Debug, PartialEq, Eq)]
pub struct BackgroundSettings {
    pub monitor_id: Option<String>,
    pub source: BackgroundSource,
    pub preset: BackgroundPreset,
    pub custom_path: Option<String>,
    pub fit: BackgroundFit,
    pub overlay: u8,
    pub blur: u8,
}

#[derive(Clone, Copy, Debug, PartialEq, Eq, Structural)]
pub enum WidgetKind {
    Focus,
    Kanban,
    Pomodoro,
    Clock,
    Date,
    DailyPoem,
    DailyVerse,
    DailyHadith,
}

#[derive(Clone, Copy, Debug, PartialEq, Eq, Structural)]
pub enum WidgetPackageSource {
    Core,
    BundledStore,
}

#[derive(Clone, Copy, Debug, PartialEq, Eq, Structural)]
pub enum ClockStyle {
    Digital,
    Analog,
}

#[derive(Clone, Copy, Debug, PartialEq, Eq, Structural)]
pub enum ClockHourFormat {
    System,
    Hour12,
    Hour24,
}

/// Display options of a clock widget.
#[derive(Clone, Debug, PartialEq, Eq)]
pub struct ClockWidgetSettings {
    pub version: u8,
    pub style: ClockStyle,
    pub hour_format: ClockHourFormat,
    pub time_zone: Option<String>,
    pub show_seconds: bool,
    pub show_date: bool,
    pub show_weekday: bool,
}

impl Default for ClockWidgetSettings {
    fn default() -> (r: ClockWidgetSettings)
        ensures
            r.version == 1,
            r.style == ClockStyle::Digital,
            r.hour_format == ClockHourFormat::System,
            r.time_zone is None,
            r.show_seconds,
            r.show_date,
            r.show_weekday,
    {
        ClockWidgetSettings {
            version: 1,
            style: ClockStyle::Digital,
            hour_format: ClockHourFormat::System,
            time_zone: None,
            show_seconds: true,
            show_date: true,
            show_weekday: true,
        }
    }
}

/// A character that may appear in an IANA time zone identifier.
pub open spec fn is_time_zone_char(c: char) -> bool {
    ||| ('a' <= c && c <= 'z')
    ||| ('A' <= c && c <= 'Z')
    ||| ('0' <= c && c <= '9')
    ||| c == '/'
    ||| c == '_'
    ||| c == '+'
    ||| c == '-'
}

/// The longest time zone identifier that is accepted.
pub const MAX_TIME_ZONE_LEN: usize = 64;

pub open spec fn time_zone_is_valid(zone: Seq<char>) -> bool {
    &&& zone.len() <= MAX_TIME_ZONE_LEN
    &&& forall|i: int| 0 <= i < zone.len() ==> is_time_zone_char(#[trigger] zone[i])
}

/// The time zone that remains once the given one is trimmed and an empty one
/// is dropped.
pub open spec fn normalized_time_zone(zone: Option<String>) -> Option<Seq<char>> {
    trimmed_non_empty(zone)
}

fn time_zone_chars_are_valid(zone: &str) -> (r: bool)
    ensures
        r == time_zone_is_valid(zone@),
{
    let n = zone.unicode_len();
    let mut i: usize = 0;
    while i < n
        invariant
            n == zone@.len(),
            i <= n,
            forall|k: int| 0 <= k < i ==> is_time_zone_char(#[trigger] zone@[k]),
        decreases n - i,
    {
        let c = zone.get_char(i);
        let ok = ('a' <= c && c <= 'z') || ('A' <= c && c <= 'Z') || ('0' <= c && c <= '9') || c
            == '/' || c == '_' || c == '+' || c == '-';
        if !ok {
            return false;
        }
        i = i + 1;
    }
    n <= MAX_TIME_ZONE_LEN
}

impl ClockWidgetSettings {
    /// Whether validation accepts these settings.
    pub open spec fn is_acceptable(self) -> bool {
        &&& self.version == 1
        &&& (normalized_time_zone(self.time_zone) matches Some(zone) ==> time_zone_is_valid(zone))
    }

    /// These settings are what validation makes of `input`.
    pub open spec fn is_validation_of(self, input: ClockWidgetSettings) -> bool {
        &&& self.version == input.version
        &&& self.style == input.style
        &&& self.hour_format == input.hour_format
        &&& opt_text(self.time_zone) == normalized_time_zone(input.time_zone)
        &&& self.show_seconds == input.show_seconds
        &&& self.show_date == input.show_date
        &&& self.show_weekday == input.show_weekday
    }

    pub fn validate(self) -> (r: Result<ClockWidgetSettings, String>)
        ensures
            match r {
                Ok(settings) => self.is_acceptable() && settings.is_validation_of(self),
                Err(message) => {
                    ||| (self.version != 1 && message@ == "Desteklenmeyen saat ayarı sürümü."@)
                    ||| (self.version == 1 && !self.is_acceptable()
                        && message@ == "Saat dilimi geçerli bir IANA tanımlayıcısı olmalıdır."@)
                },
            },
    {
        if self.version != 1 {
            return Err(String::from_str("Desteklenmeyen saat ayarı sürümü."));
        }
        let time_zone = trim_non_empty(&self.time_zone);
        let valid = match &time_zone {
            Some(zone) => time_zone_chars_are_valid(zone.as_str()),
            None => true,
        };
        if !valid {
            return Err(String::from_str("Saat dilimi geçerli bir IANA tanımlayıcısı olmalıdır."));
        }
        Ok(ClockWidgetSettings {
            version: self.version,
            style: self.style,
            hour_format: self.hour_format,
            time_zone,
            show_seconds: self.show_seconds,
            show_date: self.show_date,
            show_weekday: self.show_weekday,
        })
    }
}

/// Validating settings that validation produced accepts them and leaves them
/// as they are.
pub proof fn lemma_clock_validation_is_idempotent(
    input: ClockWidgetSettings,
    output: ClockWidgetSettings,
)
    requires
        input.is_acceptable(),
        output.is_validation_of(input),
    ensures
        output.is_acceptable(),
        output.is_validation_of(output),
{
    match input.time_zone {
        Some(text) => {
            crate::text::lemma_trimmed_is_idempotent(text@);
        },
        None => {},
    }
}

proof fn lemma_time_zone_char_code(c: char)
    ensures
        is_time_zone_char(c) <==> {
            let code = c as u32;
            ||| (0x61 <= code && code <= 0x7a)
            ||| (0x41 <= code && code <= 0x5a)
            ||| (0x30 <= code && code <= 0x39)
            ||| code == 0x2f
            ||| code == 0x5f
            ||| code == 0x2b
            ||| code == 0x2d
        },
{
}

/// With the supported version, clock settings are accepted exactly when their
/// time zone is absent, blank, or, once trimmed, at most 64 characters long
/// with every character an ASCII letter (code points 0x41 to 0x5a and 0x61 to
/// 0x7a), an ASCII digit (0x30 to 0x39), or one of `/`, `_`, `+` and `-`
/// (0x2f, 0x5f, 0x2b, 0x2d), the characters of IANA identifiers such as
/// `America/New_York` or `Etc/GMT+3`. Validation then keeps the trimmed zone.
pub proof fn lemma_clock_time_zone_rule(settings: ClockWidgetSettings, output: ClockWidgetSettings)
    requires
        settings.version == 1,
    ensures
        settings.is_acceptable() <==> match settings.time_zone {
            Some(text) => {
                let zone = crate::text::trimmed(text@);
                zone.len() == 0 || (zone.len() <= 64 && forall|i: int|
                    0 <= i < zone.len() ==> {
                        let code = (#[trigger] zone[i]) as u32;
                        ||| (0x61 <= code && code <= 0x7a)
                        ||| (0x41 <= code && code <= 0x5a)
                        ||| (0x30 <= code && code <= 0x39)
                        ||| code == 0x2f
                        ||| code == 0x5f
                        ||| code == 0x2b
                        ||| code == 0x2d
                    })
            },
            None => true,
        },
        output.is_validation_of(settings) ==> match settings.time_zone {
            Some(text) => crate::text::trimmed(text@).len() > 0 ==> (output.time_zone matches Some(
                zone,
            ) && zone@ == crate::text::trimmed(text@)),
            None => output.time_zone is None,
        },
{
    if let Some(text) = settings.time_zone {
        let zone = crate::text::trimmed(text@);
        assert forall|i: int| 0 <= i < zone.len() implies is_time_zone_char(#[trigger] zone[i])
            == {
            let code = zone[i] as u32;
            ||| (0x61 <= code && code <= 0x7a)
            ||| (0x41 <= code && code <= 0x5a)
            ||| (0x30 <= code && code <= 0x39)
            ||| code == 0x2f
            ||| code == 0x5f
            ||| code == 0x2b
            ||| code == 0x2d
        } by {
            lemma_time_zone_char_code(zone[i]);
        }
    }
}

#[derive(Clone, Copy, Debug, PartialEq, Eq, Structural)]
pub enum StarterLayout {
    Focus,
    Planning,
    Blank,
}

/// The choices made on the first-run screen.
#[derive(Clone, Debug, PartialEq, Eq)]
pub struct OnboardingPreferences {
    pub language: LanguagePreference,
    pub theme: ThemePreference,
    pub monitor_id: Option<String>,
    pub background_preset: BackgroundPreset,
    pub starter_layout: StarterLayout,
}

#[derive(Clone, Copy, Debug, PartialEq, Eq)]
pub struct OnboardingStatus {
    pub completed: bool,
}

#[derive(Clone, Copy, Debug, PartialEq, Eq, Structural)]
pub enum PomodoroMode {
    Work,
    Break,
}

#[derive(Clone, Copy, Debug, PartialEq, Eq, Structural)]
pub enum PomodoroAction {
    Start,
    Pause,
    Reset,
    Skip,
    Complete,
}

/// The timer of one Pomodoro widget.
#[derive(Clone, Debug, PartialEq, Eq)]
pub struct PomodoroState {
    pub widget_id: i64,
    pub mode: PomodoroMode,
    pub work_minutes: u16,
    pub break_minutes: u16,
    pub remaining_seconds: i64,
    pub running: bool,
    pub ends_at: Option<i64>,
}

/// How a finished Pomodoro session is announced.
#[derive(Clone, Copy, Debug, PartialEq, Eq)]
pub struct PomodoroPreferences {
    pub notifications_enabled: bool,
    pub sound_enabled: bool,
    pub sound_volume: u8,
}

impl PomodoroPreferences {
    pub fn validate(self) -> (r: Result<PomodoroPreferences, String>)
        ensures
            self.sound_volume <= 100 ==> r == Ok::<PomodoroPreferences, String>(self),
            self.sound_volume > 100 ==> (r matches Err(message)
                && message@ == "Pomodoro ses seviyesi 0 ile 100 arasında olmalıdır."@),
    {
        if self.sound_volume > 100 {
            return Err(String::from_str("Pomodoro ses seviyesi 0 ile 100 arasında olmalıdır."));
        }
        Ok(self)
    }
}

/// A Pomodoro session that ran out, with the timer state that follows it.
#[derive(Clone, Debug, PartialEq, Eq)]
pub struct PomodoroCompletion {
    pub widget_id: i64,
    pub completed_mode: PomodoroMode,
    pub state: PomodoroState,
}

/// The application-wide wallpaper settings.
#[derive(Clone, Debug, PartialEq, Eq)]
pub struct AppSettings {
    pub template: WallpaperTemplate,
    pub opacity: u8,
    pub edit_mode: bool,
    pub monitor_id: Option<String>,
    pub auto_calm_minutes: Option<u16>,
    pub theme: ThemePreference,
    pub language: LanguagePreference,
}

impl AppSettings {
    pub open spec fn opacity_is_acceptable(self) -> bool {
        40 <= self.opacity <= 100
    }

    pub open spec fn auto_calm_is_acceptable(self) -> bool {
        self.auto_calm_minutes matches Some(minutes) ==> 1 <= minutes <= 120
    }

    pub open spec fn is_acceptable(self) -> bool {
        self.opacity_is_acceptable() && self.auto_calm_is_acceptable()
    }

    pub fn validate(self) -> (r: Result<AppSettings, String>)
        ensures
            self.is_acceptable() ==> (r matches Ok(settings) && settings == self),
            !self.opacity_is_acceptable() ==> (r matches Err(message)
                && message@ == "Saydamlık değeri 40 ile 100 arasında olmalıdır."@),
            self.opacity_is_acceptable() && !self.auto_calm_is_acceptable() ==> (r matches Err(
                message,
            ) && message@ == "Otomatik sakin mod süresi 1 ile 120 dakika arasında olmalıdır."@),
    {
        if self.opacity < 40 || self.opacity > 100 {
            return Err(String::from_str("Saydamlık değeri 40 ile 100 arasında olmalıdır."));
        }
        match self.auto_calm_minutes {
            Some(minutes) => {
                if minutes < 1 || minutes > 120 {
                    return Err(
                        String::from_str(
                            "Otomatik sakin mod süresi 1 ile 120 dakika arasında olmalıdır.",
                        ),
                    );
                }
            },
            None => {},
        }
        Ok(self)
    }
}

/// Application settings are accepted exactly when the wallpaper opacity lies
/// between 40 and 100 percent and the idle time before the calm layer, when
/// set, lies between 1 and 120 minutes.
pub proof fn lemma_app_settings_acceptance_rule(settings: AppSettings)
    ensures
        settings.is_acceptable() <==> (40 <= settings.opacity && settings.opacity <= 100 && match settings.auto_calm_minutes {
            Some(minutes) => 1 <= minutes && minutes <= 120,
            None => true,
        }),
{
}

impl BackgroundSettings {
    /// The background a monitor has until one is chosen for it.
    pub fn defaults_for(monitor_id: Option<String>) -> (r: BackgroundSettings)
        ensures
            r.monitor_id == monitor_id,
            r.source == BackgroundSource::Preset,
            r.preset == BackgroundPreset::FoldedHorizon,
            r.custom_path is None,
            r.fit == BackgroundFit::Cover,
            r.overlay == 16,
            r.blur == 0,
    {
        BackgroundSettings {
            monitor_id,
            source: BackgroundSource::Preset,
            preset: BackgroundPreset::FoldedHorizon,
            custom_path: None,
            fit: BackgroundFit::Cover,
            overlay: 16,
            blur: 0,
        }
    }

    /// A custom background is chosen but no file is named for it.
    pub open spec fn custom_file_is_missing(self) -> bool {
        &&& self.source == BackgroundSource::Custom
        &&& match self.custom_path {
            Some(path) => path@.len() == 0,
            None => true,
        }
    }

    pub open spec fn is_acceptable(self) -> bool {
        &&& self.overlay <= 70
        &&& self.blur <= 24
        &&& !self.custom_file_is_missing()
    }

    /// These settings are what validation makes of `input`: a preset
    /// background keeps no custom file.
    pub open spec fn is_validation_of(self, input: BackgroundSettings) -> bool {
        &&& self.monitor_id == input.monitor_id
        &&& self.source == input.source
        &&& self.preset == input.preset
        &&& self.custom_path == (if input.source == BackgroundSource::Preset {
            None
        } else {
            input.custom_path
        })
        &&& self.fit == input.fit
        &&& self.overlay == input.overlay
        &&& self.blur == input.blur
    }

    pub fn validate(self) -> (r: Result<BackgroundSettings, String>)
        ensures
            match r {
                Ok(settings) => self.is_acceptable() && settings.is_validation_of(self),
                Err(message) => {
                    ||| (self.overlay > 70
                        && message@ == "Arka plan karartması 0 ile 70 arasında olmalıdır."@)
                    ||| (self.overlay <= 70 && self.blur > 24
                        && message@ == "Arka plan bulanıklığı 0 ile 24 arasında olmalıdır."@)
                    ||| (self.overlay <= 70 && self.blur <= 24 && self.custom_file_is_missing()
                        && message@ == "Özel arka plan dosyası bulunamadı."@)
                },
            },
    {
        if self.overlay > 70 {
            return Err(String::from_str("Arka plan karartması 0 ile 70 arasında olmalıdır."));
        }
        if self.blur > 24 {
            return Err(String::from_str("Arka plan bulanıklığı 0 ile 24 arasında olmalıdır."));
        }
        let missing = match self.source {
            BackgroundSource::Custom => match &self.custom_path {
                Some(path) => path.as_str().unicode_len() == 0,
                None => true,
            },
            BackgroundSource::Preset => false,
        };
        if missing {
            return Err(String::from_str("Özel arka plan dosyası bulunamadı."));
        }
        let custom_path = match self.source {
            BackgroundSource::Preset => None,
            BackgroundSource::Custom => self.custom_path,
        };
        Ok(BackgroundSettings {
            monitor_id: self.monitor_id,
            source: self.source,
            preset: self.preset,
            custom_path,
            fit: self.fit,
            overlay: self.overlay,
            blur: self.blur,
        })
    }
}

/// Validating background settings that validation produced accepts them and
/// leaves them as they are.
pub proof fn lemma_background_validation_is_idempotent(
    input: BackgroundSettings,
    output: BackgroundSettings,
)
    requires
        input.is_acceptable(),
        output.is_validation_of(input),
    ensures
        output.is_acceptable(),
        output.is_validation_of(output),
{
}

/// The defaults of every monitor pass validation unchanged.
pub proof fn lemma_background_defaults_are_valid(defaults: BackgroundSettings)
    requires
        defaults.source == BackgroundSource::Preset,
        defaults.preset == BackgroundPreset::FoldedHorizon,
        defaults.custom_path is None,
        defaults.fit == BackgroundFit::Cover,
        defaults.overlay == 16,
        defaults.blur == 0,
    ensures
        defaults.is_acceptable(),
        defaults.is_validation_of(defaults),
{
}

/// Background settings are accepted exactly when the darkening is at most 70,
/// the blur at most 24, and a custom background names a non-empty file; a
/// preset background is accepted whatever file it names.
pub proof fn lemma_background_acceptance_rule(input: BackgroundSettings)
    ensures
        input.is_acceptable() <==> (input.overlay <= 70 && input.blur <= 24 && (input.source
            == BackgroundSource::Custom ==> (input.custom_path matches Some(path) && path@.len()
            > 0))),
{
}

/// Validation that succeeds keeps every choice as it was given: the monitor,
/// the source, the preset, the fit, the darkening and the blur, for a preset
/// and a custom background alike. The only change is that a preset background
/// drops the file it names; a custom background keeps its file.
pub proof fn lemma_background_validation_keeps_the_choices(
    input: BackgroundSettings,
    output: BackgroundSettings,
)
    requires
        output.is_validation_of(input),
    ensures
        output.monitor_id == input.monitor_id,
        output.source == input.source,
        output.preset == input.preset,
        output.fit == input.fit,
        output.overlay == input.overlay,
        output.blur == input.blur,
        input.source == BackgroundSource::Preset ==> output.custom_path is None,
        input.source == BackgroundSource::Custom ==> output.custom_path == input.custom_path,
{
}

impl WidgetKind {
    /// The widgets that ship with the application itself.
    pub open spec fn spec_is_core(self) -> bool {
        self is Focus || self is Kanban || self is Pomodoro || self is Clock
    }

    pub fn is_core(self) -> (r: bool)
        ensures
            r == self.spec_is_core(),
    {
        match self {
            WidgetKind::Focus | WidgetKind::Kanban | WidgetKind::Pomodoro | WidgetKind::Clock => true,
            _ => false,
        }
    }

    /// The optional widgets offered by the bundled widget store.
    pub fn bundled_packages() -> (r: [WidgetKind; 4])
        ensures
            r@ == seq![
                WidgetKind::Date,
                WidgetKind::DailyPoem,
                WidgetKind::DailyVerse,
                WidgetKind::DailyHadith,
            ],
    {
        [WidgetKind::Date, WidgetKind::DailyPoem, WidgetKind::DailyVerse, WidgetKind::DailyHadith]
    }
}


impl WidgetKind {
    /// The text under which the value is stored in the database.
    pub open spec fn database_text(self) -> Seq<char> {
        match self {
            WidgetKind::Focus => "focus"@,
            WidgetKind::Kanban => "kanban"@,
            WidgetKind::Pomodoro => "pomodoro"@,
            WidgetKind::Clock => "clock"@,
            WidgetKind::Date => "date"@,
            WidgetKind::DailyPoem => "daily_poem"@,
            WidgetKind::DailyVerse => "daily_verse"@,
            WidgetKind::DailyHadith => "daily_hadith"@,
        }
    }

    /// The value stored under the given text, if any.
    pub open spec fn parse_database_text(text: Seq<char>) -> Option<WidgetKind> {
        if text == "focus"@ {
            Some(WidgetKind::Focus)
        } else if text == "kanban"@ {
            Some(WidgetKind::Kanban)
        } else if text == "pomodoro"@ {
            Some(WidgetKind::Pomodoro)
        } else if text == "clock"@ {
            Some(WidgetKind::Clock)
        } else if text == "date"@ {
            Some(WidgetKind::Date)
        } else if text == "daily_poem"@ {
            Some(WidgetKind::DailyPoem)
        } else if text == "daily_verse"@ {
            Some(WidgetKind::DailyVerse)
        } else if text == "daily_hadith"@ {
            Some(WidgetKind::DailyHadith)
        } else {
            None
        }
    }

    pub fn as_database_value(self) -> (r: &'static str)
        ensures
            r@ == self.database_text(),
    {
        match self {
            WidgetKind::Focus => "focus",
            WidgetKind::Kanban => "kanban",
            WidgetKind::Pomodoro => "pomodoro",
            WidgetKind::Clock => "clock",
            WidgetKind::Date => "date",
            WidgetKind::DailyPoem => "daily_poem",
            WidgetKind::DailyVerse => "daily_verse",
            WidgetKind::DailyHadith => "daily_hadith",
        }
    }

    pub fn from_database_value(value: &str) -> (r: Result<WidgetKind, String>)
        ensures
            match r {
                Ok(parsed) => WidgetKind::parse_database_text(value@) == Some(parsed),
                Err(message) => WidgetKind::parse_database_text(value@) is None
                    && message@ == "Bilinmeyen widget türü: "@ + value@,
            },
    {
        if same_text(value, "focus") {
            Ok(WidgetKind::Focus)
        } else if same_text(value, "kanban") {
            Ok(WidgetKind::Kanban)
        } else if same_text(value, "pomodoro") {
            Ok(WidgetKind::Pomodoro)
        } else if same_text(value, "clock") {
            Ok(WidgetKind::Clock)
        } else if same_text(value, "date") {
            Ok(WidgetKind::Date)
        } else if same_text(value, "daily_poem") {
            Ok(WidgetKind::DailyPoem)
        } else if same_text(value, "daily_verse") {
            Ok(WidgetKind::DailyVerse)
        } else if same_text(value, "daily_hadith") {
            Ok(WidgetKind::DailyHadith)
        } else {
            Err(String::from_str("Bilinmeyen widget türü: ").concat(value))
        }
    }
}

/// Reading back the stored text of a widget kind gives the same value, and
/// a text is read as a value only when it is exactly that value's stored text.
pub proof fn lemma_widget_kind_database_round_trip(value: WidgetKind, text: Seq<char>)
    ensures
        WidgetKind::parse_database_text(value.database_text()) == Some(value),
        WidgetKind::parse_database_text(text) == Some(value) ==> text == value.database_text(),
{
    reveal_strlit("focus");
    reveal_strlit("kanban");
    reveal_strlit("pomodoro");
    reveal_strlit("clock");
    reveal_strlit("date");
    reveal_strlit("daily_poem");
    reveal_strlit("daily_verse");
    reveal_strlit("daily_hadith");
    match value {
        WidgetKind::Focus => {
        },
        WidgetKind::Kanban => {
            assert("kanban"@.len() != "focus"@.len());
        },
        WidgetKind::Pomodoro => {
            assert("pomodoro"@.len() != "focus"@.len());
            assert("pomodoro"@.len() != "kanban"@.len());
        },
        WidgetKind::Clock => {
            assert("clock"@[0] != "focus"@[0]);
            assert("clock"@.len() != "kanban"@.len());
            assert("clock"@.len() != "pomodoro"@.len());
        },
        WidgetKind::Date => {
            assert("date"@.len() != "focus"@.len());
            assert("date"@.len() != "kanban"@.len());
            assert("date"@.len() != "pomodoro"@.len());
            assert("date"@.len() != "clock"@.len());
        },
        WidgetKind::DailyPoem => {
            assert("daily_poem"@.len() != "focus"@.len());
            assert("daily_poem"@.len() != "kanban"@.len());
            assert("daily_poem"@.len() != "pomodoro"@.len());
            assert("daily_poem"@.len() != "clock"@.len());
            assert("daily_poem"@.len() != "date"@.len());
        },
        WidgetKind::DailyVerse => {
            assert("daily_verse"@.len() != "focus"@.len());
            assert("daily_verse"@.len() != "kanban"@.len());
            assert("daily_verse"@.len() != "pomodoro"@.len());
            assert("daily_verse"@.len() != "clock"@.len());
            assert("daily_verse"@.len() != "date"@.len());
            assert("daily_verse"@.len() != "daily_poem"@.len());
        },
        WidgetKind::DailyHadith => {
            assert("daily_hadith"@.len() != "focus"@.len());
            assert("daily_hadith"@.len() != "kanban"@.len());
            assert("daily_hadith"@.len() != "pomodoro"@.len());
            assert("daily_hadith"@.len() != "clock"@.len());
            assert("daily_hadith"@.len() != "date"@.len());
            assert("daily_hadith"@.len() != "daily_poem"@.len());
            assert("daily_hadith"@.len() != "daily_verse"@.len());
        },
    }
}

impl PomodoroMode {
    /// The text under which the value is stored in the database.
    pub open spec fn database_text(self) -> Seq<char> {
        match self {
            PomodoroMode::Work => "work"@,
            PomodoroMode::Break => "break"@,
        }
    }

    /// The value stored under the given text, if any.
    pub open spec fn parse_database_text(text: Seq<char>) -> Option<PomodoroMode> {
        if text == "work"@ {
            Some(PomodoroMode::Work)
        } else if text == "break"@ {
            Some(PomodoroMode::Break)
        } else {
            None
        }
    }

    pub fn as_database_value(self) -> (r: &'static str)
        ensures
            r@ == self.database_text(),
    {
        match self {
            PomodoroMode::Work => "work",
            PomodoroMode::Break => "break",
        }
    }

    pub fn from_database_value(value: &str) -> (r: Result<PomodoroMode, String>)
        ensures
            match r {
                Ok(parsed) => PomodoroMode::parse_database_text(value@) == Some(parsed),
                Err(message) => PomodoroMode::parse_database_text(value@) is None
                    && message@ == "Bilinmeyen Pomodoro modu: "@ + value@,
            },
    {
        if same_text(value, "work") {
            Ok(PomodoroMode::Work)
        } else if same_text(value, "break") {
            Ok(PomodoroMode::Break)
        } else {
            Err(String::from_str("Bilinmeyen Pomodoro modu: ").concat(value))
        }
    }
}

/// Reading back the stored text of a Pomodoro mode gives the same value, and
/// a text is read as a value only when it is exactly that value's stored text.
pub proof fn lemma_pomodoro_mode_database_round_trip(value: PomodoroMode, text: Seq<char>)
    ensures
        PomodoroMode::parse_database_text(value.database_text()) == Some(value),
        PomodoroMode::parse_database_text(text) == Some(value) ==> text == value.database_text(),
{
    reveal_strlit("work");
    reveal_strlit("break");
    match value {
        PomodoroMode::Work => {
        },
        PomodoroMode::Break => {
            assert("break"@.len() != "work"@.len());
        },
    }
}

impl WallpaperTemplate {
    /// The text under which the value is stored in the database.
    pub open spec fn database_text(self) -> Seq<char> {
        match self {
            WallpaperTemplate::Focus => "focus"@,
            WallpaperTemplate::Kanban => "kanban"@,
        }
    }

    /// The value stored under the given text, if any.
    pub open spec fn parse_database_text(text: Seq<char>) -> Option<WallpaperTemplate> {
        if text == "focus"@ {
            Some(WallpaperTemplate::Focus)
        } else if text == "kanban"@ {
            Some(WallpaperTemplate::Kanban)
        } else {
            None
        }
    }

    pub fn as_database_value(self) -> (r: &'static str)
        ensures
            r@ == self.database_text(),
    {
        match self {
            WallpaperTemplate::Focus => "focus",
            WallpaperTemplate::Kanban => "kanban",
        }
    }

    pub fn from_database_value(value: &str) -> (r: Result<WallpaperTemplate, String>)
        ensures
            match r {
                Ok(parsed) => WallpaperTemplate::parse_database_text(value@) == Some(parsed),
                Err(message) => WallpaperTemplate::parse_database_text(value@) is None
                    && message@ == "Bilinmeyen wallpaper şablonu: "@ + value@,
            },
    {
        if same_text(value, "focus") {
            Ok(WallpaperTemplate::Focus)
        } else if same_text(value, "kanban") {
            Ok(WallpaperTemplate::Kanban)
        } else {
            Err(String::from_str("Bilinmeyen wallpaper şablonu: ").concat(value))
        }
    }
}

/// Reading back the stored text of a wallpaper template gives the same value, and
/// a text is read as a value only when it is exactly that value's stored text.
pub proof fn lemma_wallpaper_template_database_round_trip(value: WallpaperTemplate, text: Seq<char>)
    ensures
        WallpaperTemplate::parse_database_text(value.database_text()) == Some(value),
        WallpaperTemplate::parse_database_text(text) == Some(value) ==> text == value.database_text(),
{
    reveal_strlit("focus");
    reveal_strlit("kanban");
    match value {
        WallpaperTemplate::Focus => {
        },
        WallpaperTemplate::Kanban => {
            assert("kanban"@.len() != "focus"@.len());
        },
    }
}

impl ThemePreference {
    /// The text under which the value is stored in the database.
    pub open spec fn database_text(self) -> Seq<char> {
        match self {
            ThemePreference::System => "system"@,
            ThemePreference::Light => "light"@,
            ThemePreference::Dark => "dark"@,
        }
    }

    /// The value stored under the given text, if any.
    pub open spec fn parse_database_text(text: Seq<char>) -> Option<ThemePreference> {
        if text == "system"@ {
            Some(ThemePreference::System)
        } else if text == "light"@ {
            Some(ThemePreference::Light)
        } else if text == "dark"@ {
            Some(ThemePreference::Dark)
        } else {
            None
        }
    }

    pub fn as_database_value(self) -> (r: &'static str)
        ensures
            r@ == self.database_text(),
    {
        match self {
            ThemePreference::System => "system",
            ThemePreference::Light => "light",
            ThemePreference::Dark => "dark",
        }
    }

    pub fn from_database_value(value: &str) -> (r: Result<ThemePreference, String>)
        ensures
            match r {
                Ok(parsed) => ThemePreference::parse_database_text(value@) == Some(parsed),
                Err(message) => ThemePreference::parse_database_text(value@) is None
                    && message@ == "Bilinmeyen tema tercihi: "@ + value@,
            },
    {
        if same_text(value, "system") {
            Ok(ThemePreference::System)
        } else if same_text(value, "light") {
            Ok(ThemePreference::Light)
        } else if same_text(value, "dark") {
            Ok(ThemePreference::Dark)
        } else {
            Err(String::from_str("Bilinmeyen tema tercihi: ").concat(value))
        }
    }
}

/// Reading back the stored text of a theme preference gives the same value, and
/// a text is read as a value only when it is exactly that value's stored text.
pub proof fn lemma_theme_preference_database_round_trip(value: ThemePreference, text: Seq<char>)
    ensures
        ThemePreference::parse_database_text(value.database_text()) == Some(value),
        ThemePreference::parse_database_text(text) == Some(value) ==> text == value.database_text(),
{
    reveal_strlit("system");
    reveal_strlit("light");
    reveal_strlit("dark");
    match value {
        ThemePreference::System => {
        },
        ThemePreference::Light => {
            assert("light"@.len() != "system"@.len());
        },
        ThemePreference::Dark => {
            assert("dark"@.len() != "system"@.len());
            assert("dark"@.len() != "light"@.len());
        },
    }
}

impl LanguagePreference {
    /// The text under which the value is stored in the database.
    pub open spec fn database_text(self) -> Seq<char> {
        match self {
            LanguagePreference::System => "system"@,
            LanguagePreference::Tr => "tr"@,
            LanguagePreference::En => "en"@,
        }
    }

    /// The value stored under the given text, if any.
    pub open spec fn parse_database_text(text: Seq<char>) -> Option<LanguagePreference> {
        if text == "system"@ {
            Some(LanguagePreference::System)
        } else if text == "tr"@ {
            Some(LanguagePreference::Tr)
        } else if text == "en"@ {
            Some(LanguagePreference::En)
        } else {
            None
        }
    }

    pub fn as_database_value(self) -> (r: &'static str)
        ensures
            r@ == self.database_text(),
    {
        match self {
            LanguagePreference::System => "system",
            LanguagePreference::Tr => "tr",
            LanguagePreference::En => "en",
        }
    }

    pub fn from_database_value(value: &str) -> (r: Result<LanguagePreference, String>)
        ensures
            match r {
                Ok(parsed) => LanguagePreference::parse_database_text(value@) == Some(parsed),
                Err(message) => LanguagePreference::parse_database_text(value@) is None
                    && message@ == "Bilinmeyen dil tercihi: "@ + value@,
            },
    {
        if same_text(value, "system") {
            Ok(LanguagePreference::System)
        } else if same_text(value, "tr") {
            Ok(LanguagePreference::Tr)
        } else if same_text(value, "en") {
            Ok(LanguagePreference::En)
        } else {
            Err(String::from_str("Bilinmeyen dil tercihi: ").concat(value))
        }
    }
}

/// Reading back the stored text of a language preference gives the same value, and
/// a text is read as a value only when it is exactly that value's stored text.
pub proof fn lemma_language_preference_database_round_trip(value: LanguagePreference, text: Seq<char>)
    ensures
        LanguagePreference::parse_database_text(value.database_text()) == Some(value),
        LanguagePreference::parse_database_text(text) == Some(value) ==> text == value.database_text(),
{
    reveal_strlit("system");
    reveal_strlit("tr");
    reveal_strlit("en");
    match value {
        LanguagePreference::System => {
        },
        LanguagePreference::Tr => {
            assert("tr"@.len() != "system"@.len());
        },
        LanguagePreference::En => {
            assert("en"@.len() != "system"@.len());
            assert("en"@[0] != "tr"@[0]);
        },
    }
}

impl BackgroundSource {
    /// The text under which the value is stored in the database.
    pub open spec fn database_text(self) -> Seq<char> {
        match self {
            BackgroundSource::Preset => "preset"@,
            BackgroundSource::Custom => "custom"@,
        }
    }

    /// The value stored under the given text, if any.
    pub open spec fn parse_database_text(text: Seq<char>) -> Option<BackgroundSource> {
        if text == "preset"@ {
            Some(BackgroundSource::Preset)
        } else if text == "custom"@ {
            Some(BackgroundSource::Custom)
        } else {
            None
        }
    }

    pub fn as_database_value(self) -> (r: &'static str)
        ensures
            r@ == self.database_text(),
    {
        match self {
            BackgroundSource::Preset => "preset",
            BackgroundSource::Custom => "custom",
        }
    }

    pub fn from_database_value(value: &str) -> (r: Result<BackgroundSource, String>)
        ensures
            match r {
                Ok(parsed) => BackgroundSource::parse_database_text(value@) == Some(parsed),
                Err(message) => BackgroundSource::parse_database_text(value@) is None
                    && message@ == "Bilinmeyen arka plan kaynağı: "@ + value@,
            },
    {
        if same_text(value, "preset") {
            Ok(BackgroundSource::Preset)
        } else if same_text(value, "custom") {
            Ok(BackgroundSource::Custom)
        } else {
            Err(String::from_str("Bilinmeyen arka plan kaynağı: ").concat(value))
        }
    }
}

/// Reading back the stored text of a background source gives the same value, and
/// a text is read as a value only when it is exactly that value's stored text.
pub proof fn lemma_background_source_database_round_trip(value: BackgroundSource, text: Seq<char>)
    ensures
        BackgroundSource::parse_database_text(value.database_text()) == Some(value),
        BackgroundSource::parse_database_text(text) == Some(value) ==> text == value.database_text(),
{
    reveal_strlit("preset");
    reveal_strlit("custom");
    match value {
        BackgroundSource::Preset => {
        },
        BackgroundSource::Custom => {
            assert("custom"@[0] != "preset"@[0]);
        },
    }
}

impl BackgroundPreset {
    /// The text under which the value is stored in the database.
    pub open spec fn database_text(self) -> Seq<char> {
        match self {
            BackgroundPreset::FoldedHorizon => "folded_horizon"@,
            BackgroundPreset::Midnight => "midnight"@,
            BackgroundPreset::Graphite => "graphite"@,
            BackgroundPreset::Ember => "ember"@,
            BackgroundPreset::Porcelain => "porcelain"@,
            BackgroundPreset::Arctic => "arctic"@,
            BackgroundPreset::Linen => "linen"@,
            BackgroundPreset::MorningMist => "morning_mist"@,
        }
    }

    /// The value stored under the given text, if any.
    pub open spec fn parse_database_text(text: Seq<char>) -> Option<BackgroundPreset> {
        if text == "folded_horizon"@ {
            Some(BackgroundPreset::FoldedHorizon)
        } else if text == "midnight"@ {
            Some(BackgroundPreset::Midnight)
        } else if text == "graphite"@ {
            Some(BackgroundPreset::Graphite)
        } else if text == "ember"@ {
            Some(BackgroundPreset::Ember)
        } else if text == "porcelain"@ {
            Some(BackgroundPreset::Porcelain)
        } else if text == "arctic"@ {
            Some(BackgroundPreset::Arctic)
        } else if text == "linen"@ {
            Some(BackgroundPreset::Linen)
        } else if text == "morning_mist"@ {
            Some(BackgroundPreset::MorningMist)
        } else {
            None
        }
    }

    pub fn as_database_value(self) -> (r: &'static str)
        ensures
            r@ == self.database_text(),
    {
        match self {
            BackgroundPreset::FoldedHorizon => "folded_horizon",
            BackgroundPreset::Midnight => "midnight",
            BackgroundPreset::Graphite => "graphite",
            BackgroundPreset::Ember => "ember",
            BackgroundPreset::Porcelain => "porcelain",
            BackgroundPreset::Arctic => "arctic",
            BackgroundPreset::Linen => "linen",
            BackgroundPreset::MorningMist => "morning_mist",
        }
    }

    pub fn from_database_value(value: &str) -> (r: Result<BackgroundPreset, String>)
        ensures
            match r {
                Ok(parsed) => BackgroundPreset::parse_database_text(value@) == Some(parsed),
                Err(message) => BackgroundPreset::parse_database_text(value@) is None
                    && message@ == "Bilinmeyen arka plan teması: "@ + value@,
            },
    {
        if same_text(value, "folded_horizon") {
            Ok(BackgroundPreset::FoldedHorizon)
        } else if same_text(value, "midnight") {
            Ok(BackgroundPreset::Midnight)
        } else if same_text(value, "graphite") {
            Ok(BackgroundPreset::Graphite)
        } else if same_text(value, "ember") {
            Ok(BackgroundPreset::Ember)
        } else if same_text(value, "porcelain") {
            Ok(BackgroundPreset::Porcelain)
        } else if same_text(value, "arctic") {
            Ok(BackgroundPreset::Arctic)
        } else if same_text(value, "linen") {
            Ok(BackgroundPreset::Linen)
        } else if same_text(value, "morning_mist") {
            Ok(BackgroundPreset::MorningMist)
        } else {
            Err(String::from_str("Bilinmeyen arka plan teması: ").concat(value))
        }
    }
}

/// Reading back the stored text of a background preset gives the same value, and
/// a text is read as a value only when it is exactly that value's stored text.
pub proof fn lemma_background_preset_database_round_trip(value: BackgroundPreset, text: Seq<char>)
    ensures
        BackgroundPreset::parse_database_text(value.database_text()) == Some(value),
        BackgroundPreset::parse_database_text(text) == Some(value) ==> text == value.database_text(),
{
    reveal_strlit("folded_horizon");
    reveal_strlit("midnight");
    reveal_strlit("graphite");
    reveal_strlit("ember");
    reveal_strlit("porcelain");
    reveal_strlit("arctic");
    reveal_strlit("linen");
    reveal_strlit("morning_mist");
    match value {
        BackgroundPreset::FoldedHorizon => {
        },
        BackgroundPreset::Midnight => {
            assert("midnight"@.len() != "folded_horizon"@.len());
        },
        BackgroundPreset::Graphite => {
            assert("graphite"@.len() != "folded_horizon"@.len());
            assert("graphite"@[0] != "midnight"@[0]);
        },
        BackgroundPreset::Ember => {
            assert("ember"@.len() != "folded_horizon"@.len());
            assert("ember"@.len() != "midnight"@.len());
            assert("ember"@.len() != "graphite"@.len());
        },
        BackgroundPreset::Porcelain => {
            assert("porcelain"@.len() != "folded_horizon"@.len());
            assert("porcelain"@.len() != "midnight"@.len());
            assert("porcelain"@.len() != "graphite"@.len());
            assert("porcelain"@.len() != "ember"@.len());
        },
        BackgroundPreset::Arctic => {
            assert("arctic"@.len() != "folded_horizon"@.len());
            assert("arctic"@.len() != "midnight"@.len());
            assert("arctic"@.len() != "graphite"@.len());
            assert("arctic"@.len() != "ember"@.len());
            assert("arctic"@.len() != "porcelain"@.len());
        },
        BackgroundPreset::Linen => {
            assert("linen"@.len() != "folded_horizon"@.len());
            assert("linen"@.len() != "midnight"@.len());
            assert("linen"@.len() != "graphite"@.len());
            assert("linen"@[0] != "ember"@[0]);
            assert("linen"@.len() != "porcelain"@.len());
            assert("linen"@.len() != "arctic"@.len());
        },
        BackgroundPreset::MorningMist => {
            assert("morning_mist"@.len() != "folded_horizon"@.len());
            assert("morning_mist"@.len() != "midnight"@.len());
            assert("morning_mist"@.len() != "graphite"@.len());
            assert("morning_mist"@.len() != "ember"@.len());
            assert("morning_mist"@.len() != "porcelain"@.len());
            assert("morning_mist"@.len() != "arctic"@.len());
            assert("morning_mist"@.len() != "linen"@.len());
        },
    }
}

impl BackgroundFit {
    /// The text under which the value is stored in the database.
    pub open spec fn database_text(self) -> Seq<char> {
        match self {
            BackgroundFit::Cover => "cover"@,
            BackgroundFit::Contain => "contain"@,
            BackgroundFit::Stretch => "stretch"@,
        }
    }

    /// The value stored under the given text, if any.
    pub open spec fn parse_database_text(text: Seq<char>) -> Option<BackgroundFit> {
        if text == "cover"@ {
            Some(BackgroundFit::Cover)
        } else if text == "contain"@ {
            Some(BackgroundFit::Contain)
        } else if text == "stretch"@ {
            Some(BackgroundFit::Stretch)
        } else {
            None
        }
    }

    pub fn as_database_value(self) -> (r: &'static str)
        ensures
            r@ == self.database_text(),
    {
        match self {
            BackgroundFit::Cover => "cover",
            BackgroundFit::Contain => "contain",
            BackgroundFit::Stretch => "stretch",
        }
    }

    pub fn from_database_value(value: &str) -> (r: Result<BackgroundFit, String>)
        ensures
            match r {
                Ok(parsed) => BackgroundFit::parse_database_text(value@) == Some(parsed),
                Err(message) => BackgroundFit::parse_database_text(value@) is None
                    && message@ == "Bilinmeyen arka plan ölçekleme biçimi: "@ + value@,
            },
    {
        if same_text(value, "cover") {
            Ok(BackgroundFit::Cover)
        } else if same_text(value, "contain") {
            Ok(BackgroundFit::Contain)
        } else if same_text(value, "stretch") {
            Ok(BackgroundFit::Stretch)
        } else {
            Err(String::from_str("Bilinmeyen arka plan ölçekleme biçimi: ").concat(value))
        }
    }
}

/// Reading back the stored text of a background fit gives the same value, and
/// a text is read as a value only when it is exactly that value's stored text.
pub proof fn lemma_background_fit_database_round_trip(value: BackgroundFit, text: Seq<char>)
    ensures
        BackgroundFit::parse_database_text(value.database_text()) == Some(value),
        BackgroundFit::parse_database_text(text) == Some(value) ==> text == value.database_text(),
{
    reveal_strlit("cover");
    reveal_strlit("contain");
    reveal_strlit("stretch");
    match value {
        BackgroundFit::Cover => {
        },
        BackgroundFit::Contain => {
            assert("contain"@.len() != "cover"@.len());
        },
        BackgroundFit::Stretch => {
            assert("stretch"@.len() != "cover"@.len());
            assert("stretch"@[0] != "contain"@[0]);
        },
    }
}

} // verus!
