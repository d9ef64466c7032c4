use almanac::path_codec::convert_path_to_pathvec;
use almanac::path_codec::convert_pathvec_to_path;
use almanac::path_codec::get_extension;
use almanac::path_codec::get_name;
use almanac::path_codec::VecStringMethods;

#[test]
fn splits_absolute_path() {
    let v = convert_path_to_pathvec("/tmp/a.png");
    assert_eq!(v, vec!["/".to_string(), "tmp".to_string(), "a.png".to_string()]);
}

#[test]
fn splits_relative_path() {
    let v = convert_path_to_pathvec("a/b/c");
    assert_eq!(v, vec!["a".to_string(), "b".to_string(), "c".to_string()]);
}

#[test]
fn splits_root() {
    assert_eq!(convert_path_to_pathvec("/"), vec!["/".to_string()]);
}

#[test]
fn splits_empty() {
    assert_eq!(convert_path_to_pathvec(""), Vec::<String>::new());
}

#[test]
fn split_drops_empty_components() {
    let v = convert_path_to_pathvec("a//b/");
    assert_eq!(v, vec!["a".to_string(), "b".to_string()]);
}

#[test]
fn joins_components() {
    let v = vec!["/".to_string(), "tmp".to_string(), "a.png".to_string()];
    assert_eq!(convert_pathvec_to_path(v), "/tmp/a.png".to_string());
}

#[test]
fn joins_relative_components() {
    let v = vec!["a".to_string(), "b".to_string()];
    assert_eq!(v.to_pathbuf(), "a/b".to_string());
}

#[test]
fn round_trips_plain_paths() {
    for p in ["/tmp/a.png", "a/b/c", "/", "", "x", "/home/user/file.tar.gz"] {
        let v = convert_path_to_pathvec(p);
        assert_eq!(convert_pathvec_to_path(v), p.to_string());
    }
}

#[test]
fn name_of_file_path() {
    assert_eq!(get_name("/tmp/a.png"), Some("a.png".to_string()));
}

#[test]
fn name_of_folder_path() {
    assert_eq!(get_name("/home/user"), Some("user".to_string()));
}

#[test]
fn name_of_root_is_none() {
    assert_eq!(get_name("/"), None);
}

#[test]
fn name_of_parent_marker_is_none() {
    assert_eq!(get_name("/a/.."), None);
}

#[test]
fn extension_of_simple_name() {
    assert_eq!(get_extension("/tmp/a.png"), Some("png".to_string()));
}

#[test]
fn extension_takes_the_last_dot() {
    assert_eq!(get_extension("/tmp/archive.tar.gz"), Some("gz".to_string()));
}

#[test]
fn extension_missing() {
    assert_eq!(get_extension("/tmp/noext"), None);
}

#[test]
fn extension_of_hidden_file_is_none() {
    assert_eq!(get_extension("/tmp/.bashrc"), None);
}

#[test]
fn extension_of_trailing_dot_is_empty() {
    assert_eq!(get_extension("/tmp/dot."), Some(String::new()));
}
