//! Telling an animated input from a still one, and the errors of reading input.

use vstd::prelude::*;

verus! {

/// What kind of input a path names.
#[derive(Clone, Copy, Debug, PartialEq, Eq)]
pub enum InputKind {
    /// A sequence of frames, each with its own delay.
    Animation,
    /// A single frame.
    Still,
}

/// Why input was turned down before anything was rendered.
#[derive(Clone, Copy, Debug, PartialEq, Eq)]
pub enum InputError {
    /// The path does not name a known image container.
    UnknownFormat,
    /// The animation decoded to no frames at all.
    NoFrames,
}

impl InputError {
    /// The message shown to the user for this error.
    pub open spec fn message_text(self) -> Seq<char> {
        match self {
            InputError::UnknownFormat => "Failed to detect image format"@,
            InputError::NoFrames => "GIF contains no frames."@,
        }
    }

    /// The message shown to the user for this error.
    pub fn message(&self) -> (text: String)
        ensures
            text@ == self.message_text(),
    {
        match self {
            InputError::UnknownFormat => "Failed to detect image format".to_owned(),
            InputError::NoFrames => "GIF contains no frames.".to_owned(),
        }
    }
}

/// What format detection comes to: the kind that was detected, or the
/// error for a path whose format is unknown.
pub open spec fn outcome_of(detected: Option<InputKind>) -> Result<InputKind, InputError> {
    match detected {
        Some(kind) => Ok(kind),
        None => Err(InputError::UnknownFormat),
    }
}

/// The outcome of format detection: the kind that was detected, or the
/// error for a path whose format is unknown.
pub fn kind_or_error(detected: Option<InputKind>) -> (outcome: Result<InputKind, InputError>)
    ensures
        outcome == outcome_of(detected),
{
    match detected {
        Some(kind) => Ok(kind),
        None => Err(InputError::UnknownFormat),
    }
}

/// Decides from a path alone whether it names an animation or a still
/// image: the path's extension decides, whatever its case. A path that is
/// turned down is turned down as of unknown format.
///
/// A path without a dot has no extension and is turned down. A plain path,
/// `dir/stem.ext`, is an animation for `gif`, a still image for the
/// extension of another known container, and turned down for any other.
pub fn classify_path(path: &str) -> (outcome: Result<InputKind, InputError>)
    ensures
        outcome matches Err(error) ==> error == InputError::UnknownFormat,
        !path@.contains('.') ==> outcome == outcome_of(None),
        forall|dir: Seq<char>, stem: Seq<char>, ext: Seq<char>| #[trigger]
            plain_path(path@, dir, stem, ext) ==> outcome == outcome_of(
                kind_of_extension(lowered(ext)),
            ),
{
    kind_or_error(detect_kind(path))
}

/// A character that has no meaning in a path on any platform: an ASCII
/// letter or digit, an underscore or a hyphen.
pub open spec fn is_name_char(c: char) -> bool {
    let code = c as u32;
    ||| 0x30 <= code <= 0x39
    ||| 0x41 <= code <= 0x5a
    ||| 0x61 <= code <= 0x7a
    ||| c == '_'
    ||| c == '-'
}

/// A character of a directory part: a plain character, a slash or a dot.
pub open spec fn is_dir_char(c: char) -> bool {
    is_name_char(c) || c == '/' || c == '.'
}

/// Whether `path` is `dir`, `stem`, a dot and `ext` in a row, where
/// - `dir` is empty or ends in a slash, holds only plain characters, slashes
///   and dots, and does not begin with two slashes;
/// - `stem` begins with a plain character and holds only plain characters
///   and dots;
/// - `ext` holds only plain characters.
/// The file name of such a path is `stem.ext` on every platform, and `ext`
/// is what follows its last dot.
pub open spec fn plain_path(path: Seq<char>, dir: Seq<char>, stem: Seq<char>, ext: Seq<char>) -> bool {
    &&& path =~= dir + stem + seq!['.'] + ext
    &&& (dir.len() > 0 ==> dir.last() == '/')
    &&& !(dir.len() >= 2 && dir[0] == '/' && dir[1] == '/')
    &&& forall|i: int| 0 <= i < dir.len() ==> is_dir_char(#[trigger] dir[i])
    &&& stem.len() > 0
    &&& is_name_char(stem[0])
    &&& forall|i: int| 0 <= i < stem.len() ==> is_name_char(#[trigger] stem[i]) || stem[i] == '.'
    &&& forall|i: int| 0 <= i < ext.len() ==> is_name_char(#[trigger] ext[i])
}

/// An ASCII capital as its small letter, any other character as it is.
pub open spec fn ascii_lower(c: char) -> char {
    if 0x41 <= c as u32 <= 0x5a {
        ((c as u32 + 0x20) as u8) as char
    } else {
        c
    }
}

/// A text with every ASCII capital as its small letter.
pub open spec fn lowered(text: Seq<char>) -> Seq<char> {
    Seq::new(text.len(), |i: int| ascii_lower(text[i]))
}

/// Whether a lower-case extension is that of a known still-image container.
pub open spec fn still_extension(ext: Seq<char>) -> bool {
    ||| ext == "avif"@
    ||| ext == "jpg"@
    ||| ext == "jpeg"@
    ||| ext == "jfif"@
    ||| ext == "png"@
    ||| ext == "apng"@
    ||| ext == "webp"@
    ||| ext == "tif"@
    ||| ext == "tiff"@
    ||| ext == "tga"@
    ||| ext == "dds"@
    ||| ext == "bmp"@
    ||| ext == "ico"@
    ||| ext == "hdr"@
    ||| ext == "exr"@
    ||| ext == "pbm"@
    ||| ext == "pam"@
    ||| ext == "ppm"@
    ||| ext == "pgm"@
    ||| ext == "pnm"@
    ||| ext == "ff"@
    ||| ext == "qoi"@
}

/// The kind that a lower-case extension stands for, if it is a known one.
pub open spec fn kind_of_extension(ext: Seq<char>) -> Option<InputKind> {
    if ext == "gif"@ {
        Some(InputKind::Animation)
    } else if still_extension(ext) {
        Some(InputKind::Still)
    } else {
        None
    }
}

/// Calls `image::ImageFormat::from_path` and tells the GIF container from
/// the other known containers; `None` stands for its error. That function
/// takes the extension that `std::path::Path::extension` gives, lowers its
/// ASCII capitals, and looks it up in a fixed table. The contract claims two
/// things of it. A path without a dot has no extension, so `None` comes
/// back. A plain path, `dir/stem.ext`, has `stem.ext` as its last component
/// and `ext`, the text after the last dot, as its extension, so what comes
/// back is what the table holds for `ext` in lower case: `gif` is the GIF
/// container, the names of `still_extension` are the other containers, and
/// nothing else is in the table. Of other paths nothing is claimed: what
/// their extension is follows the platform's path rules. A backslash or a
/// colon parts components on some platforms only, and so do two slashes at
/// the start, which is why `plain_path` leaves them out.
#[verifier::external_body]
fn detect_kind(path: &str) -> (detected: Option<InputKind>)
    ensures
        !path@.contains('.') ==> detected is None,
        forall|dir: Seq<char>, stem: Seq<char>, ext: Seq<char>| #[trigger]
            plain_path(path@, dir, stem, ext) ==> detected == kind_of_extension(lowered(ext)),
{
    match image::ImageFormat::from_path(path) {
        Ok(image::ImageFormat::Gif) => Some(InputKind::Animation),
        Ok(_) => Some(InputKind::Still),
        Err(_) => None,
    }
}

/// Accepts a decoded animation of `count` frames unless it is empty.
pub fn check_frame_count(count: usize) -> (outcome: Result<(), InputError>)
    ensures
        count == 0 ==> outcome == Err::<(), InputError>(InputError::NoFrames),
        count > 0 ==> outcome is Ok,
{
    if count == 0 {
        Err(InputError::NoFrames)
    } else {
        Ok(())
    }
}

} // verus!
