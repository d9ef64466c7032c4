use almanac::mime::classify_mime;
use almanac::mime::is_mime_denylisted;
use almanac::mime::is_thumbnail_supported_image;
use almanac::mime::is_thumbnail_supported_video;

#[test]
fn guesses_png_from_extension() {
    assert_eq!(classify_mime("/tmp/a.png", &None), Some("image/png".to_string()));
}

#[test]
fn guesses_text_plain_from_extension() {
    assert_eq!(classify_mime("/tmp/note.txt", &None), Some("text/plain".to_string()));
}

#[test]
fn unknown_extension_yields_none() {
    assert_eq!(classify_mime("/tmp/file.zzqq", &None), None);
}

#[test]
fn denylist_covers_the_three_extensions() {
    assert!(is_mime_denylisted("/x/pkg.deb"));
    assert!(is_mime_denylisted("/x/setup.exe"));
    assert!(is_mime_denylisted("/x/pkg.rpm"));
    assert!(!is_mime_denylisted("/x/a.png"));
    assert!(!is_mime_denylisted("/x/noext"));
}

#[test]
fn denylisted_without_head_yields_none() {
    assert_eq!(classify_mime("/tmp/pkg.deb", &None), None);
}

#[test]
fn denylisted_sniffs_the_head_bytes() {
    let mut buf = vec![0u8; 512];
    buf[0] = 0x89;
    buf[1] = 0x50;
    buf[2] = 0x4e;
    buf[3] = 0x47;
    buf[4] = 0x0d;
    buf[5] = 0x0a;
    buf[6] = 0x1a;
    buf[7] = 0x0a;
    assert_eq!(classify_mime("/tmp/pkg.deb", &Some(buf)), Some("image/png".to_string()));
}

#[test]
fn denylisted_head_without_signature_yields_none() {
    let buf = vec![0u8; 512];
    assert_eq!(classify_mime("/tmp/pkg.deb", &Some(buf)), None);
}

#[test]
fn supported_images() {
    for m in ["image/jpeg", "image/png", "image/webp"] {
        assert!(is_thumbnail_supported_image(&Some(m.to_string())));
    }
    assert!(!is_thumbnail_supported_image(&Some("image/gif".to_string())));
    assert!(!is_thumbnail_supported_image(&Some("text/plain".to_string())));
    assert!(!is_thumbnail_supported_image(&None));
}

#[test]
fn supported_videos() {
    for m in ["video/mp4", "video/webm", "video/x-matroska"] {
        assert!(is_thumbnail_supported_video(&Some(m.to_string())));
    }
    assert!(!is_thumbnail_supported_video(&Some("video/avi".to_string())));
    assert!(!is_thumbnail_supported_video(&None));
}
