use almanac::identity::get_id;
use almanac::identity::increased_views;
use almanac::identity::stored_views;
use almanac::identity::EntryProbe;
use almanac::meta::Timestamp;

fn path_probe(path: &str) -> EntryProbe {
    EntryProbe {
        path: path.to_string(),
        readable_file: false,
        size: None,
        modified: None,
        head: None,
        content: None,
    }
}

#[test]
fn unreadable_entry_hashes_the_path() {
    let id = get_id(&path_probe("/tmp/somewhere")).unwrap();
    let expected = blake3::hash("/tmp/somewhere".as_bytes()).to_string();
    assert_eq!(id.as_str(), expected);
}

#[test]
fn fast_path_hashes_the_metadata_fingerprint() {
    let t = Timestamp { secs: 1_700_000_000, nanos: 123_456_789 };
    let p = EntryProbe {
        path: "/tmp/a.png".to_string(),
        readable_file: true,
        size: Some(1024),
        modified: Some(t),
        head: None,
        content: None,
    };
    let id = get_id(&p).unwrap();
    let mut msg: Vec<u8> = Vec::new();
    msg.extend_from_slice(&1024i64.to_be_bytes());
    msg.extend_from_slice("image/png".as_bytes());
    msg.extend_from_slice(&1_700_000_000u64.to_be_bytes());
    msg.extend_from_slice(&123_456_789u32.to_be_bytes());
    assert_eq!(id.as_str(), blake3::hash(&msg).to_string());
}

#[test]
fn derivation_is_deterministic_and_ignores_content_on_the_fast_path() {
    let t = Timestamp { secs: 1_000, nanos: 5 };
    let a = EntryProbe {
        path: "/tmp/a.png".to_string(),
        readable_file: true,
        size: Some(1024),
        modified: Some(t),
        head: None,
        content: None,
    };
    let b = EntryProbe {
        path: "/tmp/a.png".to_string(),
        readable_file: true,
        size: Some(1024),
        modified: Some(t),
        head: None,
        content: Some(vec![1, 2, 3]),
    };
    let first = get_id(&a).unwrap();
    let again = get_id(&a).unwrap();
    let other_content = get_id(&b).unwrap();
    assert_eq!(first.as_str(), again.as_str());
    assert_eq!(first.as_str(), other_content.as_str());
}

#[test]
fn incomplete_metadata_needs_content() {
    let p = EntryProbe {
        path: "/tmp/odd".to_string(),
        readable_file: true,
        size: None,
        modified: None,
        head: None,
        content: None,
    };
    assert!(get_id(&p).is_none());
}

#[test]
fn slow_path_hashes_the_content() {
    let p = EntryProbe {
        path: "/tmp/odd".to_string(),
        readable_file: true,
        size: None,
        modified: None,
        head: None,
        content: Some(b"hello world".to_vec()),
    };
    let id = get_id(&p).unwrap();
    assert_eq!(id.as_str(), blake3::hash(b"hello world").to_string());
}

#[test]
fn store_key_format() {
    let id = get_id(&path_probe("/tmp/d")).unwrap();
    let key = id.get_total_views_store_key();
    assert_eq!(key, format!("fs/{}/total-views", id.as_str()));
}

#[test]
fn view_counters() {
    assert_eq!(stored_views(None), 0);
    assert_eq!(stored_views(Some(7)), 7);
    assert_eq!(increased_views(None), 1);
    assert_eq!(increased_views(Some(41)), 42);
}
