use memetool::shared::{
    FileList, ImageAction, ImageData, ImageFormat, ImagePassed, PathArgs, RESIZE_DEFAULT_X,
    RESIZE_DEFAULT_Y,
};

#[test]
fn an_empty_listing_has_no_files() {
    let list = FileList::empty();
    assert!(list.files.is_empty());
    assert_eq!(list.total_files, 0);
}

#[test]
fn a_listing_page_is_clamped_to_the_end() {
    let files: Vec<String> = ["a", "b", "c", "d", "e"].iter().map(|s| s.to_string()).collect();
    let page = FileList::page(&files, 0, 2);
    assert_eq!(page.files, vec!["a".to_string(), "b".to_string()]);
    assert_eq!(page.total_files, 5);
    let page = FileList::page(&files, 4, 2);
    assert_eq!(page.files, vec!["e".to_string()]);
    assert_eq!(page.total_files, 5);
    let page = FileList::page(&files, 9, 2);
    assert!(page.files.is_empty());
    assert_eq!(page.total_files, 5);
}

#[test]
fn the_media_type_comes_from_the_url_extension() {
    let data = ImageData::for_listing(
        "/home/u/pics/a.png".to_string(),
        "asset://localhost/home/u/pics/a.png".to_string(),
    );
    assert_eq!(data.content_type, "image/png");
    assert_eq!(data.file_path, "/home/u/pics/a.png");
    assert_eq!(
        data.file_url.as_deref(),
        Some("asset://localhost/home/u/pics/a.png")
    );
    assert!(data.file_size.is_none());
}

#[test]
fn an_unknown_extension_defaults_to_jpeg() {
    let data = ImageData::for_listing("x".to_string(), "x.noidea".to_string());
    assert_eq!(data.content_type, "image/jpeg");
}

#[test]
fn full_metadata_is_assembled_from_the_parts() {
    let passed = ImagePassed {
        path: "pics/a.gif".to_string(),
        file_url: "asset://pics/a.gif".to_string(),
        image_format: Some(ImageFormat::Gif),
    };
    let data = ImageData::try_from_parts(passed, 1234, (640, 480))
        .expect("a gif path has a known media type");
    assert_eq!(data.content_type, "image/gif");
    assert_eq!(data.file_path, "pics/a.gif");
    assert_eq!(data.file_size, Some(1234));
    assert_eq!(data.file_dimensions, Some((640, 480)));
    assert_eq!(data.file_type, Some(ImageFormat::Gif));
}

#[test]
fn metadata_needs_a_known_media_type() {
    let passed = ImagePassed {
        path: "strange.zzz".to_string(),
        file_url: "u".to_string(),
        image_format: None,
    };
    assert!(ImageData::try_from_parts(passed, 1, (1, 1)).is_none());
}

#[test]
fn the_viewer_reference_needs_a_url() {
    let with_url = ImageData {
        content_type: "image/png".to_string(),
        file_path: "a.png".to_string(),
        file_url: Some("asset://a.png".to_string()),
        file_size: None,
        file_dimensions: None,
        file_type: Some(ImageFormat::Png),
    };
    let passed = ImagePassed::from_image_data(&with_url).expect("a url is present");
    assert_eq!(passed.path, "a.png");
    assert_eq!(passed.file_url, "asset://a.png");
    assert!(passed.image_format.is_none());

    let without_url = ImageData { file_url: None, ..with_url };
    assert!(ImagePassed::from_image_data(&without_url).is_none());
}

#[test]
fn the_bare_editor_record_carries_only_the_path() {
    let passed = ImagePassed {
        path: "p.png".to_string(),
        file_url: "u".to_string(),
        image_format: None,
    };
    let data = ImageData::from_passed(passed);
    assert_eq!(data.file_path, "p.png");
    assert_eq!(data.content_type, "");
    assert!(data.file_url.is_none());
    assert!(data.file_size.is_none());
}

#[test]
fn listing_requests_and_actions_carry_their_fields() {
    let args = PathArgs { path: "~/Downloads", limit: 20, offset: 40 };
    assert_eq!(args.path, "~/Downloads");
    assert_eq!((args.limit, args.offset), (20, 40));
    let resize = ImageAction::Resize { x: RESIZE_DEFAULT_X, y: RESIZE_DEFAULT_Y };
    assert_eq!(resize, ImageAction::Resize { x: 800, y: 800 });
    assert_ne!(ImageAction::Delete, resize);
    let rename = ImageAction::Rename { new_path: "b.png".to_string() };
    assert!(matches!(rename, ImageAction::Rename { .. }));
}
