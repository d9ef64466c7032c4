//! MIME classification: extension-table guessing for most paths, magic-byte
//! sniffing of the file's leading bytes for a small denylist of extensions
//! whose table entries are unreliable, and the supported thumbnail types.

use crate::path_codec::get_extension;
use crate::path_codec::spec_extension;
use vstd::prelude::*;
use vstd::string::*;

verus! {

/// The MIME type that the extension-table crate lists first for a path;
/// a fixed function of the path string alone.
pub uninterp spec fn mime_guess_of(path: Seq<char>) -> Option<Seq<char>>;

/// The MIME type that magic-byte signature detection reads off a buffer;
/// a fixed function of the bytes alone.
pub uninterp spec fn infer_mime_of(bytes: Seq<u8>) -> Option<Seq<char>>;

/// Relies on `mime_guess::from_path` and `MimeGuess::first`: the first MIME
/// type that a static extension table associates with the path's extension.
#[verifier::external_body]
fn guess_mime_from_path(path: &str) -> (r: Option<String>)
    ensures
        match r {
            Some(s) => mime_guess_of(path@) == Some(s@),
            None => mime_guess_of(path@) is None,
        },
{
    mime_guess::from_path(path).first().map(|m| m.to_string())
}

/// Relies on `infer::get`: the MIME type of the first magic-byte signature
/// in a static matcher list that matches the buffer.
#[verifier::external_body]
fn infer_mime_from_bytes(bytes: &Vec<u8>) -> (r: Option<String>)
    ensures
        match r {
            Some(s) => infer_mime_of(bytes@) == Some(s@),
            None => infer_mime_of(bytes@) is None,
        },
{
    infer::get(bytes.as_slice()).map(|t| t.mime_type().to_string())
}

/// The view of an optional string.
pub open spec fn opt_string_view(o: Option<String>) -> Option<Seq<char>> {
    match o {
        None => None,
        Some(s) => Some(s@),
    }
}

/// The view of an optional byte buffer.
pub open spec fn opt_bytes_view(o: Option<Vec<u8>>) -> Option<Seq<u8>> {
    match o {
        None => None,
        Some(v) => Some(v@),
    }
}

/// Whether the path's extension is one whose extension-table entry is not to
/// be trusted, so that the file's contents are sniffed instead.
pub open spec fn spec_denylisted(p: Seq<char>) -> bool {
    match spec_extension(p) {
        None => false,
        Some(e) => e == seq!['d', 'e', 'b'] || e == seq!['e', 'x', 'e'] || e == seq![
            'r',
            'p',
            'm',
        ],
    }
}

/// Whether the path's extension is on the denylist for extension-based
/// guessing.
pub fn is_mime_denylisted(path: &str) -> (r: bool)
    ensures
        r == spec_denylisted(path@),
{
    match get_extension(path) {
        None => false,
        Some(e) => {
            let deb = String::from_str("deb");
            let exe = String::from_str("exe");
            let rpm = String::from_str("rpm");
            proof {
                reveal_strlit("deb");
                reveal_strlit("exe");
                reveal_strlit("rpm");
                assert(deb@ =~= seq!['d', 'e', 'b']);
                assert(exe@ =~= seq!['e', 'x', 'e']);
                assert(rpm@ =~= seq!['r', 'p', 'm']);
            }
            e == deb || e == exe || e == rpm
        },
    }
}

/// What MIME classification returns: the extension-table guess for ordinary
/// paths; for denylisted extensions, magic-byte sniffing of the file's first
/// bytes, or nothing when those could not be read.
pub open spec fn spec_classified_mime(p: Seq<char>, head: Option<Seq<u8>>) -> Option<Seq<char>> {
    if !spec_denylisted(p) {
        mime_guess_of(p)
    } else {
        match head {
            None => None,
            Some(h) => infer_mime_of(h),
        }
    }
}

/// Best-effort MIME classification of the entry at `path`. `head` holds the
/// file's first bytes when they could be read; it is consulted only for
/// denylisted extensions. Any failure degrades to `None`, never an error.
pub fn classify_mime(path: &str, head: &Option<Vec<u8>>) -> (r: Option<String>)
    ensures
        opt_string_view(r) == spec_classified_mime(path@, opt_bytes_view(*head)),
{
    if !is_mime_denylisted(path) {
        guess_mime_from_path(path)
    } else {
        match head {
            None => None,
            Some(h) => infer_mime_from_bytes(h),
        }
    }
}

/// The MIME types eligible for an image thumbnail.
pub open spec fn spec_supported_image(m: Seq<char>) -> bool {
    m == "image/jpeg"@ || m == "image/png"@ || m == "image/webp"@
}

/// The MIME types eligible for a video thumbnail.
pub open spec fn spec_supported_video(m: Seq<char>) -> bool {
    m == "video/mp4"@ || m == "video/webm"@ || m == "video/x-matroska"@
}

/// Whether a classified MIME type is a supported image input.
pub fn is_thumbnail_supported_image(mime: &Option<String>) -> (r: bool)
    ensures
        r == match mime {
            Some(m) => spec_supported_image(m@),
            None => false,
        },
{
    match mime {
        None => false,
        Some(m) => {
            let jpeg = String::from_str("image/jpeg");
            let png = String::from_str("image/png");
            let webp = String::from_str("image/webp");
            *m == jpeg || *m == png || *m == webp
        },
    }
}

/// Whether a classified MIME type is a supported video input.
pub fn is_thumbnail_supported_video(mime: &Option<String>) -> (r: bool)
    ensures
        r == match mime {
            Some(m) => spec_supported_video(m@),
            None => false,
        },
{
    match mime {
        None => false,
        Some(m) => {
            let mp4 = String::from_str("video/mp4");
            let webm = String::from_str("video/webm");
            let mkv = String::from_str("video/x-matroska");
            *m == mp4 || *m == webm || *m == mkv
        },
    }
}

} // verus!
