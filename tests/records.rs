use search_image::error::Error;
use search_image::record::ImageInfo;
use search_image::session::{records_for_paths, records_with_extras};

fn is_uuid_v4(s: &str) -> bool {
    let b = s.as_bytes();
    b.len() == 36
        && b.iter().enumerate().all(|(i, c)| {
            if [8, 13, 18, 23].contains(&i) {
                *c == b'-'
            } else {
                c.is_ascii_digit() || (b'a'..=b'f').contains(c)
            }
        })
        && b[14] == b'4'
}

#[test]
fn with_path_has_no_extra_and_a_fresh_id() {
    let a: ImageInfo<()> = ImageInfo::with_path("data/cat.png");
    let b: ImageInfo<()> = ImageInfo::with_path("data/cat.png");
    assert_eq!(a.path(), "data/cat.png");
    assert!(a.extra().is_none());
    assert!(is_uuid_v4(a.id()));
    assert!(is_uuid_v4(b.id()));
    assert_ne!(a.id(), b.id());
}

#[test]
fn with_extra_keeps_the_metadata() {
    let a = ImageInfo::with_extra("data/cat.png", "cat".to_string());
    assert_eq!(a.path(), "data/cat.png");
    assert_eq!(a.extra(), Some(&"cat".to_string()));
    assert!(is_uuid_v4(a.id()));
    let (id, path, extra) = a.clone().into_parts();
    assert_eq!(id, a.id());
    assert_eq!(path, "data/cat.png");
    assert_eq!(extra, Some("cat".to_string()));
}

#[test]
fn records_for_paths_keeps_order() {
    let paths = vec!["a.png".to_string(), "b.png".to_string(), "c.png".to_string()];
    let records: Vec<ImageInfo<()>> = records_for_paths(&paths);
    assert_eq!(records.len(), 3);
    for (r, p) in records.iter().zip(paths.iter()) {
        assert_eq!(r.path(), p);
        assert!(r.extra().is_none());
        assert!(is_uuid_v4(r.id()));
    }
}

#[test]
fn records_with_extras_pairs_in_order() {
    let paths = vec!["a.png".to_string(), "b.png".to_string()];
    let records = records_with_extras(&paths, vec![1u32, 2u32]).unwrap();
    assert_eq!(records.len(), 2);
    assert_eq!(records[0].path(), "a.png");
    assert_eq!(records[0].extra(), Some(&1));
    assert_eq!(records[1].path(), "b.png");
    assert_eq!(records[1].extra(), Some(&2));
}

#[test]
fn records_with_extras_refuses_misaligned_input() {
    let paths = vec!["a.png".to_string(), "b.png".to_string()];
    let r = records_with_extras(&paths, vec![1u32]);
    assert_eq!(r.unwrap_err(), Error::LengthMismatch { left: 2, right: 1 });
    let r = records_with_extras::<u32>(&paths, vec![]);
    assert_eq!(r.unwrap_err(), Error::LengthMismatch { left: 2, right: 0 });
}

#[test]
fn empty_batches_of_records() {
    let paths: Vec<String> = vec![];
    assert!(records_for_paths::<()>(&paths).is_empty());
    assert!(records_with_extras::<u8>(&paths, vec![]).unwrap().is_empty());
}
