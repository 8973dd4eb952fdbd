//! What the SQLite store computes: the rows it writes for tasks and settings,
//! the values it reads back from them, and the small decisions around its
//! queries. Running the queries is left to the caller.

use vstd::prelude::*;
use vstd::string::*;

use crate::model::{Task, TaskStatus};
use crate::settings::{
    AppSettings, BackgroundFit, BackgroundPreset, BackgroundSettings, BackgroundSource,
    LanguagePreference, ThemePreference, WallpaperTemplate,
};
use crate::text::{decimal, opt_text, signed_decimal, trim_non_empty, trimmed_non_empty};

verus! {

/// Why a stored column could not be read as the value it holds.
#[derive(Debug, PartialEq, Eq)]
pub enum ColumnError {
    /// A text column holds a text that names no known value.
    InvalidText { index: usize, message: String },
    /// An integer column does not fit the narrower integer it is converted to.
    ConversionOutOfRange { index: usize, value: i64 },
    /// An integer column is out of range of the integer type it is read as.
    IntegralOutOfRange { index: usize, value: i64 },
}

/// The columns of a row of the `tasks` table.
#[derive(Debug, PartialEq, Eq)]
pub struct TaskRow {
    pub id: i64,
    pub title: String,
    pub status: String,
    pub scheduled_for: Option<String>,
}

/// The columns of the single row of the `app_settings` table.
#[derive(Debug, PartialEq, Eq)]
pub struct SettingsRow {
    pub template: String,
    pub opacity: i64,
    pub edit_mode: bool,
    pub monitor_id: Option<String>,
    pub auto_calm_minutes: Option<i64>,
    pub theme: String,
    pub language: String,
}

/// The columns of a row of the `monitor_backgrounds` table, without its key.
#[derive(Debug, PartialEq, Eq)]
pub struct BackgroundRow {
    pub source: String,
    pub preset: String,
    pub custom_path: Option<String>,
    pub fit: String,
    pub overlay: i64,
    pub blur: i64,
}

pub open spec fn fits_u8(value: i64) -> bool {
    0 <= value <= 255
}

pub open spec fn fits_u16(value: i64) -> bool {
    0 <= value <= 65535
}

fn clone_text(value: &Option<String>) -> (r: Option<String>)
    ensures
        r == *value,
{
    match value {
        Some(text) => Some(text.clone()),
        None => None,
    }
}

/// The task a row stands for, when its status column is readable.
pub open spec fn decode_task_row(row: TaskRow) -> Option<Task> {
    match TaskStatus::parse_database_text(row.status@) {
        Some(status) => Some(
            Task { id: row.id, title: row.title, status, scheduled_for: row.scheduled_for },
        ),
        None => None,
    }
}

/// `row` is the row that stores `task`.
pub open spec fn is_task_row(row: TaskRow, task: Task) -> bool {
    &&& row.id == task.id
    &&& row.title == task.title
    &&& row.status@ == task.status.database_text()
    &&& row.scheduled_for == task.scheduled_for
}

pub fn task_from_row(row: TaskRow) -> (r: Result<Task, ColumnError>)
    ensures
        match r {
            Ok(task) => decode_task_row(row) == Some(task),
            Err(error) => {
                &&& decode_task_row(row) is None
                &&& error matches ColumnError::InvalidText { index, message }
                &&& index == 2
                &&& message@ == "Bilinmeyen görev durumu: "@ + row.status@
            },
        },
{
    let status = match TaskStatus::from_database_value(row.status.as_str()) {
        Ok(status) => status,
        Err(message) => {
            return Err(ColumnError::InvalidText { index: 2, message });
        },
    };
    Ok(Task { id: row.id, title: row.title, status, scheduled_for: row.scheduled_for })
}

/// The row that stores a task.
pub fn task_row(task: &Task) -> (r: TaskRow)
    ensures
        is_task_row(r, *task),
{
    TaskRow {
        id: task.id,
        title: task.title.clone(),
        status: String::from_str(task.status.as_database_value()),
        scheduled_for: clone_text(&task.scheduled_for),
    }
}

/// Reading back the row written for a task gives that task.
pub proof fn lemma_task_row_round_trip(task: Task, row: TaskRow)
    requires
        is_task_row(row, task),
    ensures
        decode_task_row(row) == Some(task),
{
    crate::model::lemma_task_status_database_round_trip(task.status, row.status@);
}

/// The settings a row stands for, when every column is readable.
pub open spec fn decode_settings_row(row: SettingsRow) -> Option<AppSettings> {
    match (
        WallpaperTemplate::parse_database_text(row.template@),
        ThemePreference::parse_database_text(row.theme@),
        LanguagePreference::parse_database_text(row.language@),
    ) {
        (Some(template), Some(theme), Some(language)) => {
            if fits_u8(row.opacity) && (row.auto_calm_minutes matches Some(minutes) ==> fits_u16(
                minutes,
            )) {
                Some(
                    AppSettings {
                        template,
                        opacity: row.opacity as u8,
                        edit_mode: row.edit_mode,
                        monitor_id: row.monitor_id,
                        auto_calm_minutes: match row.auto_calm_minutes {
                            Some(minutes) => Some(minutes as u16),
                            None => None,
                        },
                        theme,
                        language,
                    },
                )
            } else {
                None
            }
        },
        _ => None,
    }
}

/// `error` is the first problem met when reading `row`, column by column.
pub open spec fn is_settings_row_error(row: SettingsRow, error: ColumnError) -> bool {
    if WallpaperTemplate::parse_database_text(row.template@) is None {
        error matches ColumnError::InvalidText { index, message } && index == 0 && message@
            == "Bilinmeyen wallpaper şablonu: "@ + row.template@
    } else if !fits_u8(row.opacity) {
        error == ColumnError::ConversionOutOfRange { index: 1, value: row.opacity }
    } else if ThemePreference::parse_database_text(row.theme@) is None {
        error matches ColumnError::InvalidText { index, message } && index == 5 && message@
            == "Bilinmeyen tema tercihi: "@ + row.theme@
    } else if LanguagePreference::parse_database_text(row.language@) is None {
        error matches ColumnError::InvalidText { index, message } && index == 6 && message@
            == "Bilinmeyen dil tercihi: "@ + row.language@
    } else {
        row.auto_calm_minutes matches Some(minutes) && !fits_u16(minutes) && error
            == ColumnError::IntegralOutOfRange { index: 4, value: minutes }
    }
}

/// `row` is the row that stores `settings`.
pub open spec fn is_settings_row(row: SettingsRow, settings: AppSettings) -> bool {
    &&& row.template@ == settings.template.database_text()
    &&& row.opacity == settings.opacity as i64
    &&& row.edit_mode == settings.edit_mode
    &&& row.monitor_id == settings.monitor_id
    &&& row.auto_calm_minutes == match settings.auto_calm_minutes {
        Some(minutes) => Some(minutes as i64),
        None => None::<i64>,
    }
    &&& row.theme@ == settings.theme.database_text()
    &&& row.language@ == settings.language.database_text()
}

pub fn settings_from_row(row: SettingsRow) -> (r: Result<AppSettings, ColumnError>)
    ensures
        match r {
            Ok(settings) => decode_settings_row(row) == Some(settings),
            Err(error) => decode_settings_row(row) is None && is_settings_row_error(row, error),
        },
{
    let template = match WallpaperTemplate::from_database_value(row.template.as_str()) {
        Ok(template) => template,
        Err(message) => {
            return Err(ColumnError::InvalidText { index: 0, message });
        },
    };
    if row.opacity < 0 || row.opacity > 255 {
        return Err(ColumnError::ConversionOutOfRange { index: 1, value: row.opacity });
    }
    let opacity = row.opacity as u8;
    let theme = match ThemePreference::from_database_value(row.theme.as_str()) {
        Ok(theme) => theme,
        Err(message) => {
            return Err(ColumnError::InvalidText { index: 5, message });
        },
    };
    let language = match LanguagePreference::from_database_value(row.language.as_str()) {
        Ok(language) => language,
        Err(message) => {
            return Err(ColumnError::InvalidText { index: 6, message });
        },
    };
    let auto_calm_minutes = match row.auto_calm_minutes {
        Some(minutes) => {
            if minutes < 0 || minutes > 65535 {
                return Err(ColumnError::IntegralOutOfRange { index: 4, value: minutes });
            }
            Some(minutes as u16)
        },
        None => None,
    };
    Ok(
        AppSettings {
            template,
            opacity,
            edit_mode: row.edit_mode,
            monitor_id: row.monitor_id,
            auto_calm_minutes,
            theme,
            language,
        },
    )
}

/// The row that stores the settings.
pub fn settings_row(settings: &AppSettings) -> (r: SettingsRow)
    ensures
        is_settings_row(r, *settings),
{
    SettingsRow {
        template: String::from_str(settings.template.as_database_value()),
        opacity: settings.opacity as i64,
        edit_mode: settings.edit_mode,
        monitor_id: clone_text(&settings.monitor_id),
        auto_calm_minutes: match settings.auto_calm_minutes {
            Some(minutes) => Some(minutes as i64),
            None => None,
        },
        theme: String::from_str(settings.theme.as_database_value()),
        language: String::from_str(settings.language.as_database_value()),
    }
}

/// Reading back the row written for some settings gives those settings.
pub proof fn lemma_settings_row_round_trip(settings: AppSettings, row: SettingsRow)
    requires
        is_settings_row(row, settings),
    ensures
        decode_settings_row(row) == Some(settings),
{
    crate::settings::lemma_wallpaper_template_database_round_trip(
        settings.template,
        row.template@,
    );
    crate::settings::lemma_theme_preference_database_round_trip(settings.theme, row.theme@);
    crate::settings::lemma_language_preference_database_round_trip(
        settings.language,
        row.language@,
    );
}

/// The background a row stands for, on the given monitor, when every column
/// is readable.
pub open spec fn decode_background_row(row: BackgroundRow, monitor_id: Option<String>) -> Option<
    BackgroundSettings,
> {
    match (
        BackgroundSource::parse_database_text(row.source@),
        BackgroundPreset::parse_database_text(row.preset@),
        BackgroundFit::parse_database_text(row.fit@),
    ) {
        (Some(source), Some(preset), Some(fit)) => {
            if fits_u8(row.overlay) && fits_u8(row.blur) {
                Some(
                    BackgroundSettings {
                        monitor_id,
                        source,
                        preset,
                        custom_path: row.custom_path,
                        fit,
                        overlay: row.overlay as u8,
                        blur: row.blur as u8,
                    },
                )
            } else {
                None
            }
        },
        _ => None,
    }
}

/// `error` is the first problem met when reading `row`, column by column.
pub open spec fn is_background_row_error(row: BackgroundRow, error: ColumnError) -> bool {
    if BackgroundSource::parse_database_text(row.source@) is None {
        error matches ColumnError::InvalidText { index, message } && index == 0 && message@
            == "Bilinmeyen arka plan kaynağı: "@ + row.source@
    } else if BackgroundPreset::parse_database_text(row.preset@) is None {
        error matches ColumnError::InvalidText { index, message } && index == 1 && message@
            == "Bilinmeyen arka plan teması: "@ + row.preset@
    } else if BackgroundFit::parse_database_text(row.fit@) is None {
        error matches ColumnError::InvalidText { index, message } && index == 3 && message@
            == "Bilinmeyen arka plan ölçekleme biçimi: "@ + row.fit@
    } else if !fits_u8(row.overlay) {
        error == ColumnError::IntegralOutOfRange { index: 4, value: row.overlay }
    } else {
        !fits_u8(row.blur) && error == ColumnError::IntegralOutOfRange { index: 5, value: row.blur }
    }
}

/// `row` is the row that stores `settings`.
pub open spec fn is_background_row(row: BackgroundRow, settings: BackgroundSettings) -> bool {
    &&& row.source@ == settings.source.database_text()
    &&& row.preset@ == settings.preset.database_text()
    &&& row.custom_path == settings.custom_path
    &&& row.fit@ == settings.fit.database_text()
    &&& row.overlay == settings.overlay as i64
    &&& row.blur == settings.blur as i64
}

pub fn background_settings_from_row(row: BackgroundRow, monitor_id: Option<String>) -> (r: Result<
    BackgroundSettings,
    ColumnError,
>)
    ensures
        match r {
            Ok(settings) => decode_background_row(row, monitor_id) == Some(settings),
            Err(error) => decode_background_row(row, monitor_id) is None
                && is_background_row_error(row, error),
        },
{
    let source = match BackgroundSource::from_database_value(row.source.as_str()) {
        Ok(source) => source,
        Err(message) => {
            return Err(ColumnError::InvalidText { index: 0, message });
        },
    };
    let preset = match BackgroundPreset::from_database_value(row.preset.as_str()) {
        Ok(preset) => preset,
        Err(message) => {
            return Err(ColumnError::InvalidText { index: 1, message });
        },
    };
    let fit = match BackgroundFit::from_database_value(row.fit.as_str()) {
        Ok(fit) => fit,
        Err(message) => {
            return Err(ColumnError::InvalidText { index: 3, message });
        },
    };
    if row.overlay < 0 || row.overlay > 255 {
        return Err(ColumnError::IntegralOutOfRange { index: 4, value: row.overlay });
    }
    if row.blur < 0 || row.blur > 255 {
        return Err(ColumnError::IntegralOutOfRange { index: 5, value: row.blur });
    }
    Ok(
        BackgroundSettings {
            monitor_id,
            source,
            preset,
            custom_path: row.custom_path,
            fit,
            overlay: row.overlay as u8,
            blur: row.blur as u8,
        },
    )
}

/// The row that stores a monitor's background.
pub fn background_row(settings: &BackgroundSettings) -> (r: BackgroundRow)
    ensures
        is_background_row(r, *settings),
{
    BackgroundRow {
        source: String::from_str(settings.source.as_database_value()),
        preset: String::from_str(settings.preset.as_database_value()),
        custom_path: clone_text(&settings.custom_path),
        fit: String::from_str(settings.fit.as_database_value()),
        overlay: settings.overlay as i64,
        blur: settings.blur as i64,
    }
}

/// Reading back the row written for a monitor's background, on that monitor,
/// gives that background.
pub proof fn lemma_background_row_round_trip(settings: BackgroundSettings, row: BackgroundRow)
    requires
        is_background_row(row, settings),
    ensures
        decode_background_row(row, settings.monitor_id) == Some(settings),
{
    crate::settings::lemma_background_source_database_round_trip(settings.source, row.source@);
    crate::settings::lemma_background_preset_database_round_trip(settings.preset, row.preset@);
    crate::settings::lemma_background_fit_database_round_trip(settings.fit, row.fit@);
}

/// The background of a monitor: the stored one when a row was found, the
/// defaults otherwise.
pub fn background_settings_from_lookup(
    monitor_id: Option<String>,
    row: Option<BackgroundRow>,
) -> (r: Result<BackgroundSettings, ColumnError>)
    ensures
        match row {
            Some(found) => match r {
                Ok(settings) => decode_background_row(found, monitor_id) == Some(settings),
                Err(error) => decode_background_row(found, monitor_id) is None
                    && is_background_row_error(found, error),
            },
            None => r matches Ok(settings) && settings.monitor_id == monitor_id && settings.source
                == BackgroundSource::Preset && settings.preset == BackgroundPreset::FoldedHorizon
                && settings.custom_path is None && settings.fit == BackgroundFit::Cover
                && settings.overlay == 16 && settings.blur == 0,
        },
{
    match row {
        Some(found) => background_settings_from_row(found, monitor_id),
        None => Ok(BackgroundSettings::defaults_for(monitor_id)),
    }
}

/// The key under which a monitor's background is stored; the primary
/// monitor's background has a key of its own.
pub fn background_monitor_key<'a>(monitor_id: Option<&'a str>) -> (r: &'a str)
    ensures
        r@ == match monitor_id {
            Some(id) => id@,
            None => "__primary__"@,
        },
{
    match monitor_id {
        Some(id) => id,
        None => "__primary__",
    }
}

/// A scheduled time with white space trimmed; an empty one is dropped.
pub fn normalize_time(value: Option<String>) -> (r: Option<String>)
    ensures
        opt_text(r) == trimmed_non_empty(value),
{
    trim_non_empty(&value)
}

/// Normalizing a scheduled time that is already normalized changes nothing.
pub proof fn lemma_normalized_time_is_stable(value: Option<String>, normalized: Option<String>)
    requires
        opt_text(normalized) == trimmed_non_empty(value),
    ensures
        trimmed_non_empty(normalized) == opt_text(normalized),
{
    match value {
        Some(text) => {
            crate::text::lemma_trimmed_is_idempotent(text@);
        },
        None => {},
    }
}

/// The task that a create request stores before the database assigns its id.
pub fn task_to_create(title: String, scheduled_for: Option<String>) -> (r: Result<Task, String>)
    ensures
        match r {
            Ok(task) => {
                &&& crate::model::title_is_acceptable(title@)
                &&& task.id == 0
                &&& task.title@ == crate::text::trimmed(title@)
                &&& task.status == TaskStatus::Todo
                &&& opt_text(task.scheduled_for) == trimmed_non_empty(scheduled_for)
            },
            Err(message) => {
                ||| (crate::text::trimmed(title@).len() == 0
                    && message@ == "Görev başlığı boş olamaz."@)
                ||| (crate::text::trimmed(title@).len() > crate::model::MAX_TITLE_CHARS
                    && message@ == "Görev başlığı 120 karakterden uzun olamaz."@)
            },
        },
{
    Task::new(0, title, normalize_time(scheduled_for))
}

/// The status a task takes when its check mark is toggled: a finished task is
/// reopened, any other is finished.
pub fn toggled_status(status: TaskStatus) -> (r: TaskStatus)
    ensures
        r == toggled(status),
        (status == TaskStatus::Done) != (r == TaskStatus::Done),
{
    match status {
        TaskStatus::Done => TaskStatus::Todo,
        _ => TaskStatus::Done,
    }
}

/// Toggling a task twice brings a to-do or finished task back to where it
/// was; a task in progress ends up to do.
pub proof fn lemma_toggling_twice(status: TaskStatus)
    ensures
        status != TaskStatus::InProgress ==> toggled(toggled(status)) == status,
        status == TaskStatus::InProgress ==> toggled(toggled(status)) == TaskStatus::Todo,
{
}

/// The status a toggled task takes.
pub open spec fn toggled(status: TaskStatus) -> TaskStatus {
    if status == TaskStatus::Done {
        TaskStatus::Todo
    } else {
        TaskStatus::Done
    }
}

/// The message of a request on a task id that names no task.
pub fn task_not_found(id: i64) -> (r: String)
    ensures
        r@ == decimal(id as int) + " numaralı görev bulunamadı."@,
{
    let text = signed_decimal(id);
    text.concat(" numaralı görev bulunamadı.")
}

/// Whether a column is absent from the listed columns of a table, so that an
/// older database needs it added.
pub fn column_missing(column_names: &Vec<String>, column: &str) -> (r: bool)
    ensures
        r == !(exists|i: int| 0 <= i < column_names@.len() && (#[trigger] column_names@[i])@ == column@),
{
    let wanted = String::from_str(column);
    let mut i: usize = 0;
    while i < column_names.len()
        invariant
            i <= column_names@.len(),
            wanted@ == column@,
            forall|k: int| 0 <= k < i ==> (#[trigger] column_names@[k])@ != column@,
        decreases column_names.len() - i,
    {
        if column_names[i] == wanted {
            return false;
        }
        i = i + 1;
    }
    true
}

} // verus!
