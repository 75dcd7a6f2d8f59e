use image_gateway::path::ContentImageInfo;

#[test]
fn it_works() {}

#[test]
fn image_simple_path() {
    let res = ContentImageInfo::from_path(&vec!["onecms:123".to_owned(), "apa.jpg".to_owned()]);
    match res {
        Some(info) => {
            assert_eq!("apa.jpg", info.path);
            assert_eq!("onecms:123", info.content_id);
        }
        None => panic!("Should get content image info"),
    }
}

#[test]
fn image_too_short_path() {
    let res = ContentImageInfo::from_path(&vec!["onecms:123".to_owned()]);
    match res {
        Some(_) => panic!("Should get none when path too short"),
        None => {}
    }
}

#[test]
fn image_long_path() {
    let res = ContentImageInfo::from_path(&vec![
        "onecms:123".to_owned(),
        "apa".to_owned(),
        "bapa.jpg".to_owned(),
    ]);
    match res {
        Some(info) => {
            assert_eq!("onecms:123", info.content_id);
            assert_eq!("apa/bapa.jpg", info.path);
        }
        None => panic!("Should get content image info"),
    }
}

#[test]
fn empty_path_is_absent() {
    let empty: Vec<String> = Vec::new();
    assert!(ContentImageInfo::from_path(&empty).is_none());
}

#[test]
fn segments_pass_through_unescaped() {
    let segs = vec![
        "src:1".to_owned(),
        "a b".to_owned(),
        "".to_owned(),
        "%2F.png".to_owned(),
    ];
    let info = ContentImageInfo::from_path(&segs).unwrap();
    assert_eq!("src:1", info.content_id);
    assert_eq!("a b//%2F.png", info.path);
}

#[test]
fn resolving_twice_gives_equal_results() {
    let segs = vec!["onecms:9".to_owned(), "x".to_owned(), "y.png".to_owned()];
    let a = ContentImageInfo::from_path(&segs).unwrap();
    let b = ContentImageInfo::from_path(&segs).unwrap();
    assert_eq!(a.content_id, b.content_id);
    assert_eq!(a.path, b.path);
}
