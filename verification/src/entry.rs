//! The records that listings and detail queries return, and their assembly
//! from caller-side probes: a summary record per entry, a detail record per
//! entry, and the best-effort listing of a directory's children.

use crate::errors::FsError;
use crate::identity::FsId;
use crate::meta::Timestamp;
use crate::mime::classify_mime;
use crate::mime::opt_bytes_view;
use crate::mime::opt_string_view;
use crate::mime::spec_classified_mime;
use crate::path_codec::get_name;
use crate::path_codec::spec_get_name;
use vstd::prelude::*;
use vstd::string::*;

verus! {

/// What a caller-side probe reports about one path before a record is
/// assembled from it.
#[derive(Debug)]
pub struct EntryStat {
    /// The path itself.
    pub path: String,
    /// Whether the path exists.
    pub exists: bool,
    /// Whether it is a regular file.
    pub is_file: bool,
    /// The byte length, when metadata could be read and the length fits.
    pub size: Option<i64>,
    /// The modification time, when available and not before the epoch.
    pub modified: Option<Timestamp>,
}

/// The mathematical image of an `EntryStat`.
pub struct EntryStatView {
    pub path: Seq<char>,
    pub exists: bool,
    pub is_file: bool,
    pub size: Option<i64>,
    pub modified: Option<Timestamp>,
}

impl View for EntryStat {
    type V = EntryStatView;

    open spec fn view(&self) -> EntryStatView {
        EntryStatView {
            path: self.path@,
            exists: self.exists,
            is_file: self.is_file,
            size: self.size,
            modified: self.modified,
        }
    }
}

/// One regular file in a listing.
#[derive(Debug)]
pub struct FileInfo {
    /// The entry's derived identity.
    pub id: FsId,
    /// The file's name.
    pub name: String,
    /// The full path.
    pub pathbuf: String,
    /// The byte length, when it could be read.
    pub size: Option<i64>,
    /// The modification time, when it could be read.
    pub modified_time: Option<Timestamp>,
    /// The persisted view counter, when the caller looked one up.
    pub total_views: Option<i64>,
}

/// One directory in a listing.
#[derive(Debug)]
pub struct FolderInfo {
    /// The entry's derived identity.
    pub id: FsId,
    /// The directory's name, or the full path when it has no name.
    pub name: String,
    /// The full path.
    pub pathbuf: String,
}

/// The detail record of a regular file.
#[derive(Debug)]
pub struct FileDetail {
    /// The best-effort MIME classification.
    pub mime: Option<String>,
}

/// The detail record of a directory.
#[derive(Debug)]
pub struct FolderDetail {
    /// The number of direct children.
    pub total_items: Option<i64>,
}

/// The summary record returned for a listed entry.
#[derive(Debug)]
pub enum FsInfo {
    File(FileInfo),
    Folder(FolderInfo),
}

/// The detail record returned for one entry on demand.
#[derive(Debug)]
pub enum FsDetail {
    File(FileDetail),
    Folder(FolderDetail),
}

/// The mathematical image of a `FileInfo`.
pub struct FileInfoView {
    pub id: Seq<char>,
    pub name: Seq<char>,
    pub pathbuf: Seq<char>,
    pub size: Option<i64>,
    pub modified_time: Option<Timestamp>,
    pub total_views: Option<i64>,
}

/// The mathematical image of a `FolderInfo`.
pub struct FolderInfoView {
    pub id: Seq<char>,
    pub name: Seq<char>,
    pub pathbuf: Seq<char>,
}

/// The mathematical image of an `FsInfo`.
pub enum FsInfoView {
    File(FileInfoView),
    Folder(FolderInfoView),
}

/// The mathematical image of an `FsDetail`.
pub enum FsDetailView {
    File { mime: Option<Seq<char>> },
    Folder { total_items: Option<i64> },
}

impl View for FsInfo {
    type V = FsInfoView;

    open spec fn view(&self) -> FsInfoView {
        match self {
            FsInfo::File(f) => FsInfoView::File(
                FileInfoView {
                    id: f.id@,
                    name: f.name@,
                    pathbuf: f.pathbuf@,
                    size: f.size,
                    modified_time: f.modified_time,
                    total_views: f.total_views,
                },
            ),
            FsInfo::Folder(f) => FsInfoView::Folder(
                FolderInfoView { id: f.id@, name: f.name@, pathbuf: f.pathbuf@ },
            ),
        }
    }
}

impl View for FsDetail {
    type V = FsDetailView;

    open spec fn view(&self) -> FsDetailView {
        match self {
            FsDetail::File(d) => FsDetailView::File { mime: opt_string_view(d.mime) },
            FsDetail::Folder(d) => FsDetailView::Folder { total_items: d.total_items },
        }
    }
}

/// The summary record owed for a probe: absent paths are refused with
/// `NotFound`; a file whose name cannot be read is refused with
/// `AccessError`; a directory without a name falls back to the full path.
pub open spec fn spec_fs_info(stat: EntryStatView, id: Seq<char>, total_views: Option<i64>) -> Result<
    FsInfoView,
    FsError,
> {
    if !stat.exists {
        Err(FsError::NotFound)
    } else if stat.is_file {
        match spec_get_name(stat.path) {
            None => Err(FsError::AccessError),
            Some(nm) => Ok(
                FsInfoView::File(
                    FileInfoView {
                        id,
                        name: nm,
                        pathbuf: stat.path,
                        size: stat.size,
                        modified_time: stat.modified,
                        total_views,
                    },
                ),
            ),
        }
    } else {
        let nm = match spec_get_name(stat.path) {
            None => stat.path,
            Some(n) => n,
        };
        Ok(FsInfoView::Folder(FolderInfoView { id, name: nm, pathbuf: stat.path }))
    }
}

/// The view of a summary result.
pub open spec fn res_info_view(r: Result<FsInfo, FsError>) -> Result<FsInfoView, FsError> {
    match r {
        Ok(i) => Ok(i@),
        Err(e) => Err(e),
    }
}

/// Assembles the summary record for one probed entry. A nonexistent path
/// yields `Err(NotFound)` and never a default record.
pub fn get_fs_info(stat: &EntryStat, id: FsId, total_views: Option<i64>) -> (r: Result<
    FsInfo,
    FsError,
>)
    ensures
        res_info_view(r) == spec_fs_info(stat@, id@, total_views),
{
    if !stat.exists {
        return Err(FsError::NotFound);
    }
    if stat.is_file {
        match get_name(stat.path.as_str()) {
            None => Err(FsError::AccessError),
            Some(name) => Ok(
                FsInfo::File(
                    FileInfo {
                        id,
                        name,
                        pathbuf: stat.path.clone(),
                        size: stat.size,
                        modified_time: stat.modified,
                        total_views,
                    },
                ),
            ),
        }
    } else {
        let name = match get_name(stat.path.as_str()) {
            None => stat.path.clone(),
            Some(n) => n,
        };
        Ok(FsInfo::Folder(FolderInfo { id, name, pathbuf: stat.path.clone() }))
    }
}

/// The detail record owed for a probe: absent paths are refused with
/// `NotFound`; a file reports its MIME classification; a directory reports
/// its child count, or `AccessError` when its children could not be
/// enumerated.
pub open spec fn spec_fs_detail(
    stat: EntryStatView,
    head: Option<Seq<u8>>,
    child_count: Option<i64>,
) -> Result<FsDetailView, FsError> {
    if !stat.exists {
        Err(FsError::NotFound)
    } else if stat.is_file {
        Ok(FsDetailView::File { mime: spec_classified_mime(stat.path, head) })
    } else {
        match child_count {
            None => Err(FsError::AccessError),
            Some(n) => Ok(FsDetailView::Folder { total_items: Some(n) }),
        }
    }
}

/// The view of a detail result.
pub open spec fn res_detail_view(r: Result<FsDetail, FsError>) -> Result<FsDetailView, FsError> {
    match r {
        Ok(d) => Ok(d@),
        Err(e) => Err(e),
    }
}

/// Assembles the detail record for one probed entry. `head` holds the
/// file's first bytes when they could be read; `child_count` holds the
/// number of direct children a directory enumeration found, or `None` when
/// enumerating failed.
pub fn get_fs_detail(stat: &EntryStat, head: &Option<Vec<u8>>, child_count: Option<i64>) -> (r:
    Result<FsDetail, FsError>)
    ensures
        res_detail_view(r) == spec_fs_detail(stat@, opt_bytes_view(*head), child_count),
{
    if !stat.exists {
        return Err(FsError::NotFound);
    }
    if stat.is_file {
        let mime = classify_mime(stat.path.as_str(), head);
        Ok(FsDetail::File(FileDetail { mime }))
    } else {
        match child_count {
            None => Err(FsError::AccessError),
            Some(n) => Ok(FsDetail::Folder(FolderDetail { total_items: Some(n) })),
        }
    }
}

/// One enumerated child, ready to be described: its probe, its derived
/// identity, and the view counter the caller looked up for it.
#[derive(Debug)]
pub struct ChildRecord {
    /// The child's probe.
    pub stat: EntryStat,
    /// The child's derived identity.
    pub id: FsId,
    /// The child's persisted view counter, when one was looked up.
    pub total_views: Option<i64>,
}

/// The mathematical image of a `ChildRecord`.
pub struct ChildRecordView {
    pub stat: EntryStatView,
    pub id: Seq<char>,
    pub total_views: Option<i64>,
}

impl View for ChildRecord {
    type V = ChildRecordView;

    open spec fn view(&self) -> ChildRecordView {
        ChildRecordView { stat: self.stat@, id: self.id@, total_views: self.total_views }
    }
}

/// The views of a sequence of summary records.
pub open spec fn infos_view(v: Seq<FsInfo>) -> Seq<FsInfoView> {
    v.map_values(|i: FsInfo| i@)
}

/// The views of a sequence of child records.
pub open spec fn children_views(v: Seq<ChildRecord>) -> Seq<ChildRecordView> {
    v.map_values(|c: ChildRecord| c@)
}

/// The records a best-effort listing owes: each child whose description
/// succeeds contributes its record, in order, and every failing child is
/// skipped.
pub open spec fn spec_children_infos(cs: Seq<ChildRecordView>) -> Seq<FsInfoView>
    decreases cs.len(),
{
    if cs.len() == 0 {
        Seq::empty()
    } else {
        let rest = spec_children_infos(cs.drop_first());
        match spec_fs_info(cs[0].stat, cs[0].id, cs[0].total_views) {
            Ok(i) => seq![i] + rest,
            Err(_) => rest,
        }
    }
}

/// How many of the enumerated children describe cleanly.
pub open spec fn spec_describable_count(cs: Seq<ChildRecordView>) -> int
    decreases cs.len(),
{
    if cs.len() == 0 {
        0
    } else {
        (if spec_fs_info(cs[0].stat, cs[0].id, cs[0].total_views) is Ok {
            1int
        } else {
            0int
        }) + spec_describable_count(cs.drop_first())
    }
}

/// A child whose description succeeds is never dropped: the listing holds
/// exactly one record per cleanly-describable child, so among N describable
/// children and M failing ones, exactly N records come back, and never more
/// than were enumerated.
pub proof fn lemma_listing_counts(cs: Seq<ChildRecordView>)
    ensures
        spec_children_infos(cs).len() == spec_describable_count(cs),
        spec_describable_count(cs) <= cs.len(),
    decreases cs.len(),
{
    if cs.len() > 0 {
        lemma_listing_counts(cs.drop_first());
    }
}

/// Describes every enumerated child, keeping the ones that describe cleanly
/// in order and silently skipping the rest. The listing itself never fails,
/// and returns at most one record per enumerated child.
pub fn get_fs_children_infos(children: Vec<ChildRecord>) -> (r: Vec<FsInfo>)
    ensures
        infos_view(r@) == spec_children_infos(children_views(children@)),
        r@.len() <= children@.len(),
{
    let ghost all = children_views(children@);
    let ghost n0 = children@.len();
    let mut rest = children;
    let mut out: Vec<FsInfo> = Vec::new();
    while rest.len() > 0
        invariant
            spec_children_infos(all) == infos_view(out@) + spec_children_infos(
                children_views(rest@),
            ),
            out@.len() + rest@.len() <= n0,
        decreases rest@.len(),
    {
        let ghost pre = rest@;
        let c = rest.remove(0);
        let ghost cv = c@;
        proof {
            assert(children_views(pre) =~= seq![cv] + children_views(rest@));
            assert((seq![cv] + children_views(rest@)).drop_first() =~= children_views(
                rest@,
            ));
        }
        let verdict = get_fs_info(&c.stat, c.id, c.total_views);
        match verdict {
            Ok(info) => {
                proof {
                    assert(infos_view(out@.push(info)) =~= infos_view(out@).push(info@));
                    assert(infos_view(out@) + (seq![info@] + spec_children_infos(
                        children_views(rest@),
                    )) =~= infos_view(out@).push(info@) + spec_children_infos(
                        children_views(rest@),
                    ));
                }
                out.push(info);
            },
            Err(_) => {},
        }
    }
    proof {
        assert(children_views(rest@) =~= Seq::<ChildRecordView>::empty());
        assert(infos_view(out@) + spec_children_infos(Seq::empty()) =~= infos_view(out@));
    }
    out
}

} // verus!
