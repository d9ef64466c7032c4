use almanac::entry::EntryStat;
use almanac::errors::FsError;
use almanac::identity::get_id;
use almanac::identity::EntryProbe;
use almanac::identity::FsId;
use almanac::thumbnail::plan_thumbnail;
use almanac::thumbnail::thumbnail_cache_path;
use almanac::thumbnail::ThumbnailAction;

fn id_for(path: &str) -> FsId {
    get_id(&EntryProbe {
        path: path.to_string(),
        readable_file: false,
        size: None,
        modified: None,
        head: None,
        content: None,
    })
    .unwrap()
}

fn file_stat(path: &str) -> EntryStat {
    EntryStat {
        path: path.to_string(),
        exists: true,
        is_file: true,
        size: Some(1),
        modified: None,
    }
}

#[test]
fn cache_slot_is_keyed_by_the_identity() {
    let id = id_for("/tmp/a.png");
    assert_eq!(
        thumbnail_cache_path("/cache", &id),
        format!("/cache/{}.webp", id.as_str())
    );
    assert_eq!(
        thumbnail_cache_path("/cache/", &id),
        format!("/cache/{}.webp", id.as_str())
    );
    assert_eq!(thumbnail_cache_path("", &id), format!("{}.webp", id.as_str()));
}

#[test]
fn missing_thumbnail_input_is_not_found() {
    let stat = EntryStat {
        path: "/tmp/not-here.png".to_string(),
        exists: false,
        is_file: false,
        size: None,
        modified: None,
    };
    let r = plan_thumbnail(&stat, &None, &id_for("/tmp/not-here.png"), "/cache", false);
    assert!(matches!(r, Err(FsError::NotFound)));
}

#[test]
fn directory_is_not_a_file() {
    let stat = EntryStat {
        path: "/tmp/d".to_string(),
        exists: true,
        is_file: false,
        size: None,
        modified: None,
    };
    let r = plan_thumbnail(&stat, &None, &id_for("/tmp/d"), "/cache", false);
    assert!(matches!(r, Err(FsError::NotAFile)));
}

#[test]
fn cache_hit_reuses_the_slot() {
    let stat = file_stat("/tmp/a.png");
    let id = id_for("/tmp/a.png");
    let slot = thumbnail_cache_path("/cache", &id);
    let r = plan_thumbnail(&stat, &None, &id, "/cache", true).unwrap();
    match r {
        ThumbnailAction::UseExisting { path } => assert_eq!(path, slot),
        ThumbnailAction::Transcode { .. } => {
            panic!("an occupied slot must not be transcoded again")
        },
    }
}

#[test]
fn repeated_requests_return_the_identical_path() {
    // first request: the slot is empty, a transcode is planned toward it
    let stat = file_stat("/tmp/a.png");
    let id = id_for("/tmp/a.png");
    let intended = match plan_thumbnail(&stat, &None, &id, "/cache", false).unwrap() {
        ThumbnailAction::Transcode { path, .. } => path,
        ThumbnailAction::UseExisting { .. } => panic!("an empty slot cannot be reused"),
    };
    // after the transcoder completes, both later requests reuse that path
    let second = match plan_thumbnail(&stat, &None, &id, "/cache", true).unwrap() {
        ThumbnailAction::UseExisting { path } => path,
        ThumbnailAction::Transcode { .. } => panic!("the slot is occupied now"),
    };
    let third = match plan_thumbnail(&stat, &None, &id, "/cache", true).unwrap() {
        ThumbnailAction::UseExisting { path } => path,
        ThumbnailAction::Transcode { .. } => panic!("the slot is occupied now"),
    };
    assert_eq!(second, intended);
    assert_eq!(third, intended);
}

#[test]
fn text_plain_is_unsupported() {
    let stat = file_stat("/tmp/note.txt");
    let r = plan_thumbnail(&stat, &None, &id_for("/tmp/note.txt"), "/cache", false);
    assert!(matches!(r, Err(FsError::UnsupportedType)));
}

#[test]
fn image_transcode_arguments() {
    let stat = file_stat("/tmp/a.png");
    let id = id_for("/tmp/a.png");
    let slot = thumbnail_cache_path("/cache", &id);
    let r = plan_thumbnail(&stat, &None, &id, "/cache", false).unwrap();
    match r {
        ThumbnailAction::Transcode { args, path } => {
            assert_eq!(path, slot);
            assert_eq!(
                args,
                vec![
                    "-i".to_string(),
                    "/tmp/a.png".to_string(),
                    "-vf".to_string(),
                    "scale='min(930,iw*480/ih)': 'min(480,ih*930/iw)'".to_string(),
                    slot.clone(),
                ]
            );
        },
        ThumbnailAction::UseExisting { .. } => panic!("an empty slot cannot be reused"),
    }
}

#[test]
fn video_transcode_arguments() {
    let stat = file_stat("/tmp/clip.mp4");
    let id = id_for("/tmp/clip.mp4");
    let slot = thumbnail_cache_path("/cache", &id);
    let r = plan_thumbnail(&stat, &None, &id, "/cache", false).unwrap();
    match r {
        ThumbnailAction::Transcode { args, path } => {
            assert_eq!(path, slot);
            assert_eq!(
                args,
                vec![
                    "-i".to_string(),
                    "/tmp/clip.mp4".to_string(),
                    "-vf".to_string(),
                    "thumbnail,scale='if(gt(a,930/480),930,-1)':'if(gt(a,930/480),-1,480)'"
                        .to_string(),
                    "-frames:v".to_string(),
                    "1".to_string(),
                    "-q:v".to_string(),
                    "2".to_string(),
                    slot.clone(),
                ]
            );
        },
        ThumbnailAction::UseExisting { .. } => panic!("an empty slot cannot be reused"),
    }
}
