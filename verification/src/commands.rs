//! The decisions that the application's commands take around their native
//! work: which background image files are accepted, what a settings change
//! has to refresh, and which stored background files become stale.

use vstd::prelude::*;
use vstd::string::*;

use crate::settings::{AppSettings, BackgroundSettings, BackgroundSource};
use crate::text::{equals_ignoring_ascii_case, equals_ignoring_case, opt_text, same_optional_text};

verus! {

/// The first bytes of a PNG file.
pub open spec fn png_signature() -> Seq<u8> {
    seq![137u8, 80u8, 78u8, 71u8, 13u8, 10u8, 26u8, 10u8]
}

/// The first bytes of a JPEG file.
pub open spec fn jpeg_signature() -> Seq<u8> {
    seq![0xffu8, 0xd8u8, 0xffu8]
}

/// `RIFF`, the first bytes of a WebP file.
pub open spec fn riff_tag() -> Seq<u8> {
    seq![82u8, 73u8, 70u8, 70u8]
}

/// `WEBP`, the bytes of a WebP file at offset eight.
pub open spec fn webp_tag() -> Seq<u8> {
    seq![87u8, 69u8, 66u8, 80u8]
}

/// The leading bytes of a file (at most twelve are read) match the image
/// type named by its lower-case extension.
pub open spec fn signature_matches(header: Seq<u8>, extension: Seq<char>) -> bool {
    if extension == "png"@ {
        header.len() >= 8 && header.subrange(0, 8) == png_signature()
    } else if extension == "jpg"@ || extension == "jpeg"@ {
        header.len() >= 3 && header.subrange(0, 3) == jpeg_signature()
    } else if extension == "webp"@ {
        header.len() >= 12 && header.subrange(0, 4) == riff_tag() && header.subrange(8, 12)
            == webp_tag()
    } else {
        false
    }
}

fn bytes_match(header: &[u8], start: usize, expected: &[u8]) -> (r: bool)
    requires
        start + expected@.len() <= header@.len(),
    ensures
        r == (header@.subrange(start as int, start + expected@.len()) == expected@),
{
    let n = header.len();
    let mut i: usize = 0;
    while i < expected.len()
        invariant
            n == header@.len(),
            i <= expected@.len(),
            start + expected@.len() <= header@.len(),
            forall|k: int| 0 <= k < i ==> header@[start + k] == expected@[k],
        decreases expected.len() - i,
    {
        if header[start + i] != expected[i] {
            proof {
                assert(header@.subrange(start as int, start + expected@.len())[i as int]
                    != expected@[i as int]);
            }
            return false;
        }
        i = i + 1;
    }
    proof {
        assert(header@.subrange(start as int, start + expected@.len()) =~= expected@);
    }
    true
}

/// Whether the leading bytes of a file match the image type its lower-case
/// extension names.
pub fn image_signature_matches(header: &[u8], extension: &str) -> (r: bool)
    ensures
        r == signature_matches(header@, extension@),
{
    let png: [u8; 8] = [137, 80, 78, 71, 13, 10, 26, 10];
    let jpeg: [u8; 3] = [0xff, 0xd8, 0xff];
    let riff: [u8; 4] = [82, 73, 70, 70];
    let webp: [u8; 4] = [87, 69, 66, 80];
    assert(png@ == png_signature());
    assert(jpeg@ == jpeg_signature());
    assert(riff@ == riff_tag());
    assert(webp@ == webp_tag());
    if crate::text::same_text(extension, "png") {
        header.len() >= 8 && bytes_match(header, 0, png.as_slice())
    } else if crate::text::same_text(extension, "jpg") || crate::text::same_text(
        extension,
        "jpeg",
    ) {
        header.len() >= 3 && bytes_match(header, 0, jpeg.as_slice())
    } else if crate::text::same_text(extension, "webp") {
        header.len() >= 12 && bytes_match(header, 0, riff.as_slice()) && bytes_match(
            header,
            8,
            webp.as_slice(),
        )
    } else {
        false
    }
}

/// A file stored as `jpg` or as `jpeg` is a JPEG image exactly when it
/// starts with the three bytes `ff d8 ff`, whatever follows them: the JFIF
/// (`ff e0`), EXIF (`ff e1`) and other JPEG variants alike. Both extensions
/// are judged the same way.
pub proof fn lemma_jpeg_signature_rule(header: Seq<u8>)
    ensures
        signature_matches(header, "jpg"@) == signature_matches(header, "jpeg"@),
        signature_matches(header, "jpg"@) == (header.len() >= 3 && header[0] == 0xff && header[1]
            == 0xd8 && header[2] == 0xff),
{
    reveal_strlit("png");
    reveal_strlit("jpg");
    reveal_strlit("jpeg");
    assert("jpg"@ != "png"@) by {
        assert("jpg"@[0] != "png"@[0]);
    }
    assert("jpeg"@.len() != "png"@.len());
    if header.len() >= 3 {
        let first = header.subrange(0, 3);
        assert(forall|i: int| 0 <= i < 3 ==> first[i] == header[i]);
        if header[0] == 0xff && header[1] == 0xd8 && header[2] == 0xff {
            assert(first =~= jpeg_signature());
        } else {
            assert(first != jpeg_signature()) by {
                if first == jpeg_signature() {
                    assert(first[0] == jpeg_signature()[0]);
                    assert(first[1] == jpeg_signature()[1]);
                    assert(first[2] == jpeg_signature()[2]);
                }
            }
        }
    }
}

/// A `png` file is a PNG image exactly when it starts with the eight bytes
/// `89 50 4e 47 0d 0a 1a 0a`.
pub proof fn lemma_png_signature_rule(header: Seq<u8>)
    ensures
        signature_matches(header, "png"@) == (header.len() >= 8 && header[0] == 0x89 && header[1]
            == 0x50 && header[2] == 0x4e && header[3] == 0x47 && header[4] == 0x0d && header[5]
            == 0x0a && header[6] == 0x1a && header[7] == 0x0a),
{
    reveal_strlit("png");
    if header.len() >= 8 {
        let first = header.subrange(0, 8);
        assert(forall|i: int| 0 <= i < 8 ==> first[i] == header[i]);
        if header[0] == 0x89 && header[1] == 0x50 && header[2] == 0x4e && header[3] == 0x47
            && header[4] == 0x0d && header[5] == 0x0a && header[6] == 0x1a && header[7] == 0x0a {
            assert(first =~= png_signature());
        } else {
            assert(first != png_signature()) by {
                if first == png_signature() {
                    assert(first[0] == png_signature()[0]);
                    assert(first[1] == png_signature()[1]);
                    assert(first[2] == png_signature()[2]);
                    assert(first[3] == png_signature()[3]);
                    assert(first[4] == png_signature()[4]);
                    assert(first[5] == png_signature()[5]);
                    assert(first[6] == png_signature()[6]);
                    assert(first[7] == png_signature()[7]);
                }
            }
        }
    }
}

/// A `webp` file is a WebP image exactly when it has twelve bytes, starts
/// with `RIFF` and holds `WEBP` from its eighth byte on, whatever the four
/// bytes of length between them.
pub proof fn lemma_webp_signature_rule(header: Seq<u8>)
    ensures
        signature_matches(header, "webp"@) == (header.len() >= 12 && header[0] == 0x52 && header[1]
            == 0x49 && header[2] == 0x46 && header[3] == 0x46 && header[8] == 0x57 && header[9]
            == 0x45 && header[10] == 0x42 && header[11] == 0x50),
{
    reveal_strlit("png");
    reveal_strlit("jpg");
    reveal_strlit("jpeg");
    reveal_strlit("webp");
    assert("webp"@.len() != "png"@.len());
    assert("webp"@.len() != "jpg"@.len());
    assert("webp"@ != "jpeg"@) by {
        assert("webp"@[0] != "jpeg"@[0]);
    }
    if header.len() >= 12 {
        let tag = header.subrange(0, 4);
        let kind = header.subrange(8, 12);
        assert(forall|i: int| 0 <= i < 4 ==> tag[i] == header[i]);
        assert(forall|i: int| 0 <= i < 4 ==> kind[i] == header[8 + i]);
        if header[0] == 0x52 && header[1] == 0x49 && header[2] == 0x46 && header[3] == 0x46 {
            assert(tag =~= riff_tag());
        } else {
            assert(tag != riff_tag()) by {
                if tag == riff_tag() {
                    assert(tag[0] == riff_tag()[0]);
                    assert(tag[1] == riff_tag()[1]);
                    assert(tag[2] == riff_tag()[2]);
                    assert(tag[3] == riff_tag()[3]);
                }
            }
        }
        if header[8] == 0x57 && header[9] == 0x45 && header[10] == 0x42 && header[11] == 0x50 {
            assert(kind =~= webp_tag());
        } else {
            assert(kind != webp_tag()) by {
                if kind == webp_tag() {
                    assert(kind[0] == webp_tag()[0]);
                    assert(kind[1] == webp_tag()[1]);
                    assert(kind[2] == webp_tag()[2]);
                    assert(kind[3] == webp_tag()[3]);
                }
            }
        }
    }
}

/// The extension an imported background image is stored under, for a file
/// extension in any ASCII case: JPEG files are stored as `jpg`, PNG and WebP
/// files keep theirs, and no other type is accepted.
pub fn image_extension_for_import(extension: &str) -> (r: Option<&'static str>)
    ensures
        match r {
            Some(stored) => {
                ||| ((equals_ignoring_ascii_case(extension@, "jpg"@) || equals_ignoring_ascii_case(
                    extension@,
                    "jpeg"@,
                )) && stored@ == "jpg"@)
                ||| (equals_ignoring_ascii_case(extension@, "png"@) && stored@ == "png"@)
                ||| (equals_ignoring_ascii_case(extension@, "webp"@) && stored@ == "webp"@)
            },
            None => !equals_ignoring_ascii_case(extension@, "jpg"@) && !equals_ignoring_ascii_case(
                extension@,
                "jpeg"@,
            ) && !equals_ignoring_ascii_case(extension@, "png"@) && !equals_ignoring_ascii_case(
                extension@,
                "webp"@,
            ),
        },
{
    if equals_ignoring_case(extension, "jpg") || equals_ignoring_case(extension, "jpeg") {
        Some("jpg")
    } else if equals_ignoring_case(extension, "png") {
        Some("png")
    } else if equals_ignoring_case(extension, "webp") {
        Some("webp")
    } else {
        None
    }
}

/// The largest background image, in bytes, that is imported.
pub const MAX_BACKGROUND_IMAGE_BYTES: u64 = 52428800;

/// A background image is imported only when it is neither empty nor larger
/// than 50 MiB.
pub fn image_size_is_allowed(length: u64) -> (r: bool)
    ensures
        r == (0 < length <= 50 * 1024 * 1024),
{
    length != 0 && length <= MAX_BACKGROUND_IMAGE_BYTES
}

/// What has to follow a successful settings update.
#[derive(Clone, Copy, Debug, PartialEq, Eq)]
pub struct SettingsEffects {
    /// The tray menu is rebuilt in the new language.
    pub refresh_tray_language: bool,
    /// The shown wallpaper is moved to its new layer or monitor.
    pub reapply_window_mode: bool,
}

pub fn settings_change_effects(
    previous: &AppSettings,
    updated: &AppSettings,
    wallpaper_is_visible: bool,
) -> (r: SettingsEffects)
    ensures
        r.refresh_tray_language == (previous.language != updated.language),
        r.reapply_window_mode == (wallpaper_is_visible && (previous.edit_mode != updated.edit_mode
            || opt_text(previous.monitor_id) != opt_text(updated.monitor_id))),
{
    let monitor_changed = !same_optional_text(&previous.monitor_id, &updated.monitor_id);
    SettingsEffects {
        refresh_tray_language: previous.language != updated.language,
        reapply_window_mode: wallpaper_is_visible && (previous.edit_mode != updated.edit_mode
            || monitor_changed),
    }
}

/// A stored custom background whose file is gone falls back to the preset
/// background; `custom_file_is_present` is whether the named file exists. The
/// settings to store instead are returned; none when they stand.
pub fn background_without_missing_file(
    settings: &BackgroundSettings,
    custom_file_is_present: bool,
) -> (r: Option<BackgroundSettings>)
    ensures
        match r {
            Some(fallback) => {
                &&& settings.source == BackgroundSource::Custom
                &&& (settings.custom_path is None || !custom_file_is_present)
                &&& fallback.source == BackgroundSource::Preset
                &&& fallback.custom_path is None
                &&& fallback.monitor_id == settings.monitor_id
                &&& fallback.preset == settings.preset
                &&& fallback.fit == settings.fit
                &&& fallback.overlay == settings.overlay
                &&& fallback.blur == settings.blur
            },
            None => settings.source == BackgroundSource::Preset || (settings.custom_path is Some
                && custom_file_is_present),
        },
{
    let missing = match settings.source {
        BackgroundSource::Custom => match &settings.custom_path {
            Some(_) => !custom_file_is_present,
            None => true,
        },
        BackgroundSource::Preset => false,
    };
    if !missing {
        return None;
    }
    let monitor_id = match &settings.monitor_id {
        Some(id) => Some(id.clone()),
        None => None,
    };
    Some(
        BackgroundSettings {
            monitor_id,
            source: BackgroundSource::Preset,
            preset: settings.preset,
            custom_path: None,
            fit: settings.fit,
            overlay: settings.overlay,
            blur: settings.blur,
        },
    )
}

/// The custom background file that an update leaves unused: the previous
/// custom file when the new settings name another file or none.
pub fn replaced_custom_background(
    previous: &BackgroundSettings,
    updated: &BackgroundSettings,
) -> (r: Option<String>)
    ensures
        match r {
            Some(path) => previous.source == BackgroundSource::Custom && opt_text(
                previous.custom_path,
            ) != opt_text(updated.custom_path) && previous.custom_path == Some(path),
            None => previous.source != BackgroundSource::Custom || opt_text(previous.custom_path)
                == opt_text(updated.custom_path) || previous.custom_path is None,
        },
{
    match previous.source {
        BackgroundSource::Custom => {},
        BackgroundSource::Preset => {
            return None;
        },
    }
    if same_optional_text(&previous.custom_path, &updated.custom_path) {
        return None;
    }
    match &previous.custom_path {
        Some(path) => Some(path.clone()),
        None => None,
    }
}

} // verus!
