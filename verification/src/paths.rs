//! Paths of the files a transfer carries: the icon that stands for a file
//! to send, and what opening a received transfer opens.
use vstd::prelude::*;

use crate::text::{chars_of, equals_text, opt_str_text, opt_text, string_of};
use crate::wifi_direct::ascii_lower;

verus! {

/// What `Path::join` makes of the paths `base` and `name`, as text.
pub uninterp spec fn joined_path(base: Seq<char>, name: Seq<char>) -> Seq<char>;

/// `Path::join` on two paths given as text, read back as text. Stated only
/// as a name for its result: the path `name` taken from `base`.
#[verifier::external_body]
fn join_path(base: &str, name: &str) -> (r: String)
    ensures
        r@ == joined_path(base@, name@),
{
    std::path::Path::new(base).join(name).to_string_lossy().into_owned()
}

/// What `Path::extension` finds in the path `path`, as text.
pub uninterp spec fn path_extension(path: Seq<char>) -> Option<Seq<char>>;

/// `Path::extension` of a path given as text. Stated only as a name for
/// its result: the part of the file name after its last dot, where the
/// file name has one.
#[verifier::external_body]
fn extension_of(path: &str) -> (r: Option<String>)
    ensures
        opt_text(r) == path_extension(path@),
{
    match std::path::Path::new(path).extension() {
        Some(e) => e.to_str().map(String::from),
        None => None,
    }
}

/// The ASCII lower case of a text.
pub open spec fn ascii_lower_text(s: Seq<char>) -> Seq<char> {
    s.map_values(|c: char| ascii_lower(c))
}

fn lower_char(c: char) -> (r: char)
    ensures
        r == ascii_lower(c),
{
    if 'A' <= c && c <= 'Z' {
        let b = (c as u8) + 32;
        b as char
    } else {
        c
    }
}

/// `s` in ASCII lower case: `A` to `Z` become `a` to `z`, every other
/// character stays.
pub fn ascii_lowercase(s: &str) -> (r: String)
    ensures
        r@ == ascii_lower_text(s@),
{
    let cs = chars_of(s);
    let mut out: Vec<char> = Vec::new();
    let mut i: usize = 0;
    while i < cs.len()
        invariant
            i <= cs.len(),
            cs@ == s@,
            out@ == ascii_lower_text(cs@.take(i as int)),
        decreases cs.len() - i,
    {
        out.push(lower_char(cs[i]));
        assert(ascii_lower_text(cs@.take(i + 1)) =~= ascii_lower_text(cs@.take(i as int)).push(
            ascii_lower(cs@[i as int]),
        ));
        i = i + 1;
    }
    assert(cs@.take(cs.len() as int) =~= cs@);
    string_of(&out)
}

/// Extensions of pictures.
pub open spec fn is_image_extension(e: Seq<char>) -> bool {
    ||| e == "png"@
    ||| e == "jpg"@
    ||| e == "jpeg"@
    ||| e == "webp"@
    ||| e == "gif"@
    ||| e == "svg"@
    ||| e == "bmp"@
    ||| e == "avif"@
}

/// Extensions of videos.
pub open spec fn is_video_extension(e: Seq<char>) -> bool {
    ||| e == "mp4"@
    ||| e == "mkv"@
    ||| e == "avi"@
    ||| e == "mov"@
    ||| e == "webm"@
    ||| e == "m4v"@
}

/// Extensions of sound files.
pub open spec fn is_audio_extension(e: Seq<char>) -> bool {
    ||| e == "mp3"@
    ||| e == "flac"@
    ||| e == "wav"@
    ||| e == "ogg"@
    ||| e == "m4a"@
    ||| e == "aac"@
}

/// Extensions of archives.
pub open spec fn is_archive_extension(e: Seq<char>) -> bool {
    ||| e == "zip"@
    ||| e == "rar"@
    ||| e == "7z"@
    ||| e == "tar"@
    ||| e == "gz"@
    ||| e == "xz"@
}

/// The icon of a file with the lower-case extension `ext`: a picture, a
/// video, a sound, a PDF document or an archive; any other file, or one
/// without an extension, is shown as text.
pub open spec fn icon_of_extension(ext: Option<Seq<char>>) -> Seq<char> {
    match ext {
        Some(e) => if is_image_extension(e) {
            "image-x-generic-symbolic"@
        } else if is_video_extension(e) {
            "video-x-generic-symbolic"@
        } else if is_audio_extension(e) {
            "audio-x-generic-symbolic"@
        } else if e == "pdf"@ {
            "application-pdf-symbolic"@
        } else if is_archive_extension(e) {
            "package-x-generic-symbolic"@
        } else {
            "text-x-generic-symbolic"@
        },
        None => "text-x-generic-symbolic"@,
    }
}

/// The icon of a file whose extension, in lower case, is `ext`.
pub fn icon_for_extension(ext: Option<&str>) -> (r: &'static str)
    ensures
        r@ == icon_of_extension(opt_str_text(ext)),
{
    let e = match ext {
        Some(e) => chars_of(e),
        None => return "text-x-generic-symbolic",
    };
    if equals_text(&e, "png") || equals_text(&e, "jpg") || equals_text(&e, "jpeg") || equals_text(
        &e,
        "webp",
    ) || equals_text(&e, "gif") || equals_text(&e, "svg") || equals_text(&e, "bmp")
        || equals_text(&e, "avif") {
        "image-x-generic-symbolic"
    } else if equals_text(&e, "mp4") || equals_text(&e, "mkv") || equals_text(&e, "avi")
        || equals_text(&e, "mov") || equals_text(&e, "webm") || equals_text(&e, "m4v") {
        "video-x-generic-symbolic"
    } else if equals_text(&e, "mp3") || equals_text(&e, "flac") || equals_text(&e, "wav")
        || equals_text(&e, "ogg") || equals_text(&e, "m4a") || equals_text(&e, "aac") {
        "audio-x-generic-symbolic"
    } else if equals_text(&e, "pdf") {
        "application-pdf-symbolic"
    } else if equals_text(&e, "zip") || equals_text(&e, "rar") || equals_text(&e, "7z")
        || equals_text(&e, "tar") || equals_text(&e, "gz") || equals_text(&e, "xz") {
        "package-x-generic-symbolic"
    } else {
        "text-x-generic-symbolic"
    }
}

/// The lower-case extension of the path `path`, where it has one.
pub open spec fn lower_extension(path: Seq<char>) -> Option<Seq<char>> {
    match path_extension(path) {
        Some(e) => Some(ascii_lower_text(e)),
        None => None,
    }
}

/// The icon of the file at `path`, by its extension in any case.
pub fn file_icon_name(path: &str) -> (r: &'static str)
    ensures
        r@ == icon_of_extension(lower_extension(path@)),
{
    match extension_of(path) {
        Some(e) => {
            let lower = ascii_lowercase(e.as_str());
            icon_for_extension(Some(lower.as_str()))
        },
        None => icon_for_extension(None),
    }
}

/// The icon of a file does not depend on the case of its extension: two
/// paths whose extensions agree but for the case of ASCII letters get the
/// same icon, and a path with `PNG`, `Png` or `png` as its extension is a
/// picture.
pub proof fn lemma_icon_ignores_case(p: Seq<char>, q: Seq<char>)
    ensures
        (path_extension(p) is Some && path_extension(q) is Some && ascii_lower_text(
            path_extension(p)->0,
        ) == ascii_lower_text(path_extension(q)->0)) ==> icon_of_extension(lower_extension(p))
            == icon_of_extension(lower_extension(q)),
        (path_extension(p) == Some("PNG"@) || path_extension(p) == Some("Png"@)
            || path_extension(p) == Some("png"@)) ==> icon_of_extension(lower_extension(p))
            == "image-x-generic-symbolic"@,
        path_extension(p) is None ==> icon_of_extension(lower_extension(p))
            == "text-x-generic-symbolic"@,
{
    reveal_strlit("PNG");
    reveal_strlit("Png");
    reveal_strlit("png");
    if path_extension(p) == Some("PNG"@) || path_extension(p) == Some("Png"@)
        || path_extension(p) == Some("png"@) {
        assert(ascii_lower_text(path_extension(p)->0) =~= "png"@);
    }
}

/// What opening a finished transfer opens: the single file received into
/// a destination folder, or else the destination itself; nothing without
/// a destination.
pub open spec fn open_target_of(
    destination: Option<Seq<char>>,
    destination_is_dir: bool,
    files: Option<Seq<Seq<char>>>,
) -> Option<Seq<char>> {
    match destination {
        None => None,
        Some(d) => match files {
            Some(fs) => if destination_is_dir && fs.len() == 1 {
                Some(joined_path(d, fs[0]))
            } else {
                Some(d)
            },
            None => Some(d),
        },
    }
}

/// What opening a transfer saved to `destination` opens, given whether
/// the destination is a folder and the names of the files received.
pub fn open_target(destination: Option<&str>, destination_is_dir: bool, files: Option<&Vec<String>>) -> (r:
    Option<String>)
    ensures
        opt_text(r) == open_target_of(
            opt_str_text(destination),
            destination_is_dir,
            match files {
                Some(fs) => Some(fs@.map_values(|f: String| f@)),
                None => None,
            },
        ),
{
    let d = match destination {
        Some(d) => d,
        None => return None,
    };
    if destination_is_dir {
        if let Some(fs) = files {
            if fs.len() == 1 {
                return Some(join_path(d, fs[0].as_str()));
            }
        }
    }
    Some(d.to_owned())
}

/// What `Path::parent` finds in the path `path`, as text.
pub uninterp spec fn parent_path(path: Seq<char>) -> Option<Seq<char>>;

/// `Path::parent` of a path given as text. Stated only as a name for its
/// result: the path without its last component, none for a root or an
/// empty path.
#[verifier::external_body]
fn parent_of(path: &str) -> (r: Option<String>)
    ensures
        opt_text(r) == parent_path(path@),
{
    std::path::Path::new(path).parent().map(|p| p.to_string_lossy().into_owned())
}

/// The folder that showing `target` opens: the target itself when it is a
/// folder, else the folder that holds it, else the target.
pub open spec fn folder_to_show_of(target: Seq<char>, target_is_dir: bool) -> Seq<char> {
    if target_is_dir {
        target
    } else {
        match parent_path(target) {
            Some(p) => p,
            None => target,
        }
    }
}

/// The folder to open to show `target`, given whether it is a folder.
pub fn folder_to_show(target: &str, target_is_dir: bool) -> (r: String)
    ensures
        r@ == folder_to_show_of(target@, target_is_dir),
{
    if target_is_dir {
        return target.to_owned();
    }
    match parent_of(target) {
        Some(p) => p,
        None => target.to_owned(),
    }
}

/// What `Path::file_name` finds in the path `path`, as text.
pub uninterp spec fn path_file_name(path: Seq<char>) -> Option<Seq<char>>;

/// `Path::file_name` of a path given as text. Stated only as a name for
/// its result: the last component of the path, none where it ends in `..`
/// or has no component.
#[verifier::external_body]
fn file_name_of(path: &str) -> (r: Option<String>)
    ensures
        opt_text(r) == path_file_name(path@),
{
    match std::path::Path::new(path).file_name() {
        Some(n) => n.to_str().map(String::from),
        None => None,
    }
}

/// The name under which a selected file is listed: its file name, or the
/// whole path where it has none.
pub fn file_display_name(path: &str) -> (r: String)
    ensures
        r@ == match path_file_name(path@) {
            Some(n) => n,
            None => path@,
        },
{
    match file_name_of(path) {
        Some(n) => n,
        None => path.to_owned(),
    }
}

} // verus!
