//! The thumbnail cache planner: for one probed entry, whether to reuse the
//! cached thumbnail keyed by the entry's identity, or which transcoder
//! invocation to spawn to create it. The caller performs the spawn; the
//! invocation is fire-and-forget, so the intended output path is returned
//! without waiting for the transcoder.

use crate::entry::EntryStat;
use crate::entry::EntryStatView;
use crate::errors::FsError;
use crate::identity::FsId;
use crate::mime::classify_mime;
use crate::mime::is_thumbnail_supported_image;
use crate::mime::is_thumbnail_supported_video;
use crate::mime::opt_bytes_view;
use crate::mime::spec_classified_mime;
use crate::mime::spec_supported_image;
use crate::mime::spec_supported_video;
use crate::path_codec::string_views;
use vstd::prelude::*;
use vstd::string::*;

verus! {

/// What a thumbnail request should do next.
#[derive(Debug)]
pub enum ThumbnailAction {
    /// The cached thumbnail at this path is to be reused as it stands.
    UseExisting { path: String },
    /// The transcoder is to be spawned with these arguments; the intended
    /// output path is handed back without waiting for it to materialize.
    Transcode { args: Vec<String>, path: String },
}

/// The mathematical image of a `ThumbnailAction`.
pub enum ThumbnailActionView {
    UseExisting { path: Seq<char> },
    Transcode { args: Seq<Seq<char>>, path: Seq<char> },
}

impl View for ThumbnailAction {
    type V = ThumbnailActionView;

    open spec fn view(&self) -> ThumbnailActionView {
        match self {
            ThumbnailAction::UseExisting { path } => ThumbnailActionView::UseExisting {
                path: path@,
            },
            ThumbnailAction::Transcode { args, path } => ThumbnailActionView::Transcode {
                args: string_views(args@),
                path: path@,
            },
        }
    }
}

/// The cache slot for an identity: `{cache_dir}/{id}.webp`, with a
/// separator inserted unless the cache directory is empty or already ends
/// in one.
pub open spec fn spec_thumbnail_path(cache_dir: Seq<char>, id: Seq<char>) -> Seq<char> {
    let base = if cache_dir.len() == 0 || cache_dir.last() == '/' {
        cache_dir
    } else {
        cache_dir + seq!['/']
    };
    base + id + ".webp"@
}

/// The path of the cache slot that an identity keys into.
pub fn thumbnail_cache_path(cache_dir: &str, id: &FsId) -> (r: String)
    ensures
        r@ == spec_thumbnail_path(cache_dir@, id@),
{
    let mut s = String::from_str(cache_dir);
    let n = cache_dir.unicode_len();
    if n > 0 && cache_dir.get_char(n - 1) == '/' {
    } else if n > 0 {
        s.append("/");
        proof {
            reveal_strlit("/");
            assert(s@ =~= cache_dir@ + seq!['/']);
        }
    }
    s.append(id.as_str());
    s.append(".webp");
    s
}

/// The transcoder arguments for a supported image: scale to fit a 930x480
/// box preserving the aspect ratio, and write the output as webp.
pub open spec fn spec_image_args(input: Seq<char>, out: Seq<char>) -> Seq<Seq<char>> {
    seq![
        "-i"@,
        input,
        "-vf"@,
        "scale='min(930,iw*480/ih)': 'min(480,ih*930/iw)'"@,
        out,
    ]
}

/// The transcoder arguments for a supported video: pick a representative
/// frame, scale it to fit the same 930x480 box, and write one frame as
/// webp.
pub open spec fn spec_video_args(input: Seq<char>, out: Seq<char>) -> Seq<Seq<char>> {
    seq![
        "-i"@,
        input,
        "-vf"@,
        "thumbnail,scale='if(gt(a,930/480),930,-1)':'if(gt(a,930/480),-1,480)'"@,
        "-frames:v"@,
        "1"@,
        "-q:v"@,
        "2"@,
        out,
    ]
}

fn build_image_args(input: &str, out: &str) -> (r: Vec<String>)
    ensures
        string_views(r@) == spec_image_args(input@, out@),
{
    let mut v: Vec<String> = Vec::new();
    v.push(String::from_str("-i"));
    v.push(String::from_str(input));
    v.push(String::from_str("-vf"));
    v.push(String::from_str("scale='min(930,iw*480/ih)': 'min(480,ih*930/iw)'"));
    v.push(String::from_str(out));
    proof {
        assert(string_views(v@) =~= spec_image_args(input@, out@));
    }
    v
}

fn build_video_args(input: &str, out: &str) -> (r: Vec<String>)
    ensures
        string_views(r@) == spec_video_args(input@, out@),
{
    let mut v: Vec<String> = Vec::new();
    v.push(String::from_str("-i"));
    v.push(String::from_str(input));
    v.push(String::from_str("-vf"));
    v.push(String::from_str("thumbnail,scale='if(gt(a,930/480),930,-1)':'if(gt(a,930/480),-1,480)'"));
    v.push(String::from_str("-frames:v"));
    v.push(String::from_str("1"));
    v.push(String::from_str("-q:v"));
    v.push(String::from_str("2"));
    v.push(String::from_str(out));
    proof {
        assert(string_views(v@) =~= spec_video_args(input@, out@));
    }
    v
}

/// The plan owed for a thumbnail request, in order: a path that does not
/// exist is refused with `NotFound`; a path that is not a regular file with
/// `NotAFile`; an occupied cache slot is reused as it stands; otherwise a
/// supported image or video yields its transcoder invocation, and any other
/// classification is refused with `UnsupportedType`.
pub open spec fn spec_thumbnail_plan(
    stat: EntryStatView,
    head: Option<Seq<u8>>,
    id: Seq<char>,
    cache_dir: Seq<char>,
    cache_file_exists: bool,
) -> Result<ThumbnailActionView, FsError> {
    if !stat.exists {
        Err(FsError::NotFound)
    } else if !stat.is_file {
        Err(FsError::NotAFile)
    } else {
        let out = spec_thumbnail_path(cache_dir, id);
        if cache_file_exists {
            Ok(ThumbnailActionView::UseExisting { path: out })
        } else {
            match spec_classified_mime(stat.path, head) {
                Some(m) => if spec_supported_image(m) {
                    Ok(
                        ThumbnailActionView::Transcode {
                            args: spec_image_args(stat.path, out),
                            path: out,
                        },
                    )
                } else if spec_supported_video(m) {
                    Ok(
                        ThumbnailActionView::Transcode {
                            args: spec_video_args(stat.path, out),
                            path: out,
                        },
                    )
                } else {
                    Err(FsError::UnsupportedType)
                },
                None => Err(FsError::UnsupportedType),
            }
        }
    }
}

/// The view of a plan result.
pub open spec fn res_plan_view(r: Result<ThumbnailAction, FsError>) -> Result<
    ThumbnailActionView,
    FsError,
> {
    match r {
        Ok(a) => Ok(a@),
        Err(e) => Err(e),
    }
}

/// Plans one thumbnail request for a probed entry whose identity is `id`.
/// `cache_file_exists` reports whether the entry's cache slot is already
/// occupied; `head` holds the file's first bytes when they could be read.
pub fn plan_thumbnail(
    stat: &EntryStat,
    head: &Option<Vec<u8>>,
    id: &FsId,
    cache_dir: &str,
    cache_file_exists: bool,
) -> (r: Result<ThumbnailAction, FsError>)
    ensures
        res_plan_view(r) == spec_thumbnail_plan(
            stat@,
            opt_bytes_view(*head),
            id@,
            cache_dir@,
            cache_file_exists,
        ),
{
    if !stat.exists {
        return Err(FsError::NotFound);
    }
    if !stat.is_file {
        return Err(FsError::NotAFile);
    }
    let out = thumbnail_cache_path(cache_dir, id);
    if cache_file_exists {
        return Ok(ThumbnailAction::UseExisting { path: out });
    }
    let mime = classify_mime(stat.path.as_str(), head);
    if is_thumbnail_supported_image(&mime) {
        let args = build_image_args(stat.path.as_str(), out.as_str());
        Ok(ThumbnailAction::Transcode { args, path: out })
    } else if is_thumbnail_supported_video(&mime) {
        let args = build_video_args(stat.path.as_str(), out.as_str());
        Ok(ThumbnailAction::Transcode { args, path: out })
    } else {
        Err(FsError::UnsupportedType)
    }
}

/// Cache idempotence: once the cache slot of an identity is occupied, a
/// request for an existing regular file maps to reuse of that very slot and
/// never to a transcoder invocation. The slot is a function of the cache
/// directory and the identity alone, so a repeated request for the same
/// file keys into the same slot.
pub proof fn lemma_thumbnail_cache_idempotent(
    stat: EntryStatView,
    head: Option<Seq<u8>>,
    id: Seq<char>,
    cache_dir: Seq<char>,
)
    requires
        stat.exists,
        stat.is_file,
    ensures
        spec_thumbnail_plan(stat, head, id, cache_dir, true) == Ok::<ThumbnailActionView, FsError>(
            ThumbnailActionView::UseExisting { path: spec_thumbnail_path(cache_dir, id) },
        ),
{
}

/// A plainly-typed text file is refused: when the classification is
/// `text/plain` and the cache slot is empty, the plan is `UnsupportedType`
/// and no transcoder invocation is proposed.
pub proof fn lemma_text_plain_unsupported(
    stat: EntryStatView,
    head: Option<Seq<u8>>,
    id: Seq<char>,
    cache_dir: Seq<char>,
)
    requires
        stat.exists,
        stat.is_file,
        spec_classified_mime(stat.path, head) == Some("text/plain"@),
    ensures
        spec_thumbnail_plan(stat, head, id, cache_dir, false) == Err::<
            ThumbnailActionView,
            FsError,
        >(FsError::UnsupportedType),
{
    reveal_strlit("text/plain");
    reveal_strlit("image/jpeg");
    reveal_strlit("image/png");
    reveal_strlit("image/webp");
    reveal_strlit("video/mp4");
    reveal_strlit("video/webm");
    reveal_strlit("video/x-matroska");
    assert("text/plain"@[0] != "image/jpeg"@[0]);
    assert("text/plain"@[0] != "image/png"@[0]);
    assert("text/plain"@[0] != "image/webp"@[0]);
    assert("text/plain"@[0] != "video/mp4"@[0]);
    assert("text/plain"@[0] != "video/webm"@[0]);
    assert("text/plain"@[0] != "video/x-matroska"@[0]);
    assert(!spec_supported_image("text/plain"@));
    assert(!spec_supported_video("text/plain"@));
}

} // verus!
