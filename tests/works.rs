use collection_scan::{
    add_image_asset, add_metadata_from_metafile, add_novel_asset, build_work, classify_assets,
    get_page_index, get_required_metadata, page_key_of, parse_field, parse_metafile_field,
    parse_size, role_of, sort_by_page, AssetRole, ImageDimensions, MetadataField, Work,
};

fn strings(items: &[&str]) -> Vec<String> {
    items.iter().map(|s| s.to_string()).collect()
}

fn blank_work() -> Work {
    get_required_metadata("/collection", "/collection/alice/first")
}

fn image_names(work: &Work) -> Vec<String> {
    work.image_assets.iter().map(|a| a.name.clone()).collect()
}

#[test]
fn unkeyed_images_sort_last() {
    let roles = classify_assets(&strings(&["w/a.jpg", "w/a(10).jpg", "w/a(2).jpg"]));
    assert_eq!(roles.images, strings(&["w/a(2).jpg", "w/a(10).jpg", "w/a.jpg"]));
}

#[test]
fn page_index_uses_last_parentheses() {
    assert_eq!(get_page_index("page (3).jpg"), Some(3));
    assert_eq!(get_page_index("a(1)(2).jpg"), Some(2));
    assert_eq!(get_page_index("a(+4).png"), Some(4));
    assert_eq!(get_page_index("a.jpg"), None);
    assert_eq!(get_page_index("a(x).jpg"), None);
    assert_eq!(get_page_index("a(3.jpg"), None);
    assert_eq!(get_page_index("a(-3).jpg"), None);
    assert_eq!(get_page_index(""), None);
    assert_eq!(get_page_index("(18446744073709551615)"), Some(u64::MAX));
    assert_eq!(get_page_index("(18446744073709551616)"), None);
}

#[test]
fn page_key_reads_the_file_name() {
    assert_eq!(page_key_of("dir (9)/p(7).jpg"), 7);
    assert_eq!(page_key_of("dir (9)/p.jpg"), u64::MAX);
}

#[test]
fn sort_keeps_every_path() {
    let sorted = sort_by_page(&strings(&["x(3).png", "y.png", "x(1).png", "x(3).gif"]));
    assert_eq!(sorted.len(), 4);
    assert_eq!(sorted[0], "x(1).png");
    assert!(sorted[1] == "x(3).png" || sorted[1] == "x(3).gif");
    assert!(sorted[2] == "x(3).png" || sorted[2] == "x(3).gif");
    assert_ne!(sorted[1], sorted[2]);
    assert_eq!(sorted[3], "y.png");
}

#[test]
fn files_are_classified_by_name() {
    assert_eq!(role_of("w/p.jpg"), AssetRole::Image);
    assert_eq!(role_of("w/p.apng"), AssetRole::Image);
    assert_eq!(role_of("w/p.webm"), AssetRole::Image);
    assert_eq!(role_of("w/story.txt"), AssetRole::Novel);
    assert_eq!(role_of("w/story.epub"), AssetRole::Novel);
    assert_eq!(role_of("w/info-meta.txt"), AssetRole::Metadata);
    assert_eq!(role_of("w/.jpg"), AssetRole::Other);
    assert_eq!(role_of("w/notes.md"), AssetRole::Other);
    assert_eq!(role_of("w/noext"), AssetRole::Other);
    assert_eq!(role_of(".."), AssetRole::Other);
}

#[test]
fn classification_keeps_last_text_and_sidecar() {
    let roles = classify_assets(&strings(&[
        "w/a-meta.txt",
        "w/one.txt",
        "w/p(1).jpg",
        "w/b-meta.txt",
        "w/two.epub",
        "w/thumbs.db",
    ]));
    assert_eq!(roles.images, strings(&["w/p(1).jpg"]));
    assert_eq!(roles.novel, Some("w/two.epub".to_string()));
    assert_eq!(roles.metadata, Some("w/b-meta.txt".to_string()));
    assert!(roles.is_work());
}

#[test]
fn directory_without_images_or_sidecar_is_no_work() {
    let roles = classify_assets(&strings(&["w/story.txt", "w/thumbs.db"]));
    assert!(!roles.is_work());
    assert!(build_work("/c", "/c/u/w", &roles, None, &vec![]).is_none());
}

#[test]
fn required_fields_come_from_the_path() {
    let work = get_required_metadata("/collection", "/collection/alice/first");
    assert_eq!(work.path, "/collection/alice/first");
    assert_eq!(work.relative_path, "alice/first");
    assert_eq!(work.title, "first");
    assert_eq!(work.user_name, "alice");
    assert!(work.image_assets.is_empty());
    assert!(work.novel_asset.is_none());
    assert_eq!(work.id, None);
    assert_eq!(work.tags, None);
}

#[test]
fn relative_path_is_empty_outside_the_collection() {
    let work = get_required_metadata("/elsewhere", "/collection/alice/first");
    assert_eq!(work.relative_path, "");
    assert_eq!(work.title, "first");
}

#[test]
fn assets_need_a_file_name_and_a_size() {
    let mut work = blank_work();
    add_image_asset("/c/w/p.jpg", Some(ImageDimensions { width: 3, height: 4 }), &mut work);
    add_image_asset("/c/w/q.jpg", None, &mut work);
    assert_eq!(image_names(&work), strings(&["p.jpg"]));
    assert_eq!(work.image_assets[0].path, "/c/w/p.jpg");
    assert_eq!(work.image_assets[0].dimensions, ImageDimensions { width: 3, height: 4 });
    add_novel_asset("/c/w/story.txt", &mut work);
    let novel = work.novel_asset.clone().unwrap();
    assert_eq!(novel.name, "story.txt");
    assert_eq!(novel.path, "/c/w/story.txt");
}

#[test]
fn tags_drop_their_marker() {
    let mut work = blank_work();
    add_metadata_from_metafile("Tags\n#foo\n#bar\n\n", &mut work);
    assert_eq!(work.tags, Some(strings(&["foo", "bar"])));
}

#[test]
fn size_reads_width_and_height() {
    let mut work = blank_work();
    add_metadata_from_metafile("Size\n1200 x 1800\n\n", &mut work);
    assert_eq!(work.dimensions, Some(ImageDimensions { width: 1200, height: 1800 }));
}

#[test]
fn bad_size_leaves_dimensions_absent() {
    let mut work = blank_work();
    add_metadata_from_metafile("Size\nbad\n\n", &mut work);
    assert_eq!(work.dimensions, None);
}

#[test]
fn size_needs_two_numbers() {
    assert_eq!(parse_size("1 x 2"), Some(ImageDimensions { width: 1, height: 2 }));
    assert_eq!(parse_size("1x2"), None);
    assert_eq!(parse_size("1 x "), None);
    assert_eq!(parse_size("1 x 2 x 3"), None);
}

#[test]
fn every_field_is_read() {
    let text = "ID\n123\n\nURL\nhttps://example.org/w/123\n\nOriginal\nhttps://example.org/o.png\n\n\
Thumbnail\nhttps://example.org/t.png\n\nxRestrict\nR-18\n\nAI\nYes\n\nUser\nBob\n\nUserID\n77\n\n\
Title\nA title\n\nDescription\nline one\nline two\n\nTags\n#a\n#b\n\nSize\n10 x 20\n\n\
Bookmark\n5\n\nDate\n2024-01-02\n";
    let mut work = blank_work();
    add_metadata_from_metafile(text, &mut work);
    assert_eq!(work.id, Some(123));
    assert_eq!(work.url.as_deref(), Some("https://example.org/w/123"));
    assert_eq!(work.image_url.as_deref(), Some("https://example.org/o.png"));
    assert_eq!(work.thumbnail_url.as_deref(), Some("https://example.org/t.png"));
    assert_eq!(work.age_restriction.as_deref(), Some("r-18"));
    assert_eq!(work.ai, Some(true));
    assert_eq!(work.user_name, "Bob");
    assert_eq!(work.user_id, Some(77));
    assert_eq!(work.title, "A title");
    assert_eq!(work.description.as_deref(), Some("line one\nline two"));
    assert_eq!(work.tags, Some(strings(&["a", "b"])));
    assert_eq!(work.dimensions, Some(ImageDimensions { width: 10, height: 20 }));
    assert_eq!(work.bookmarks, Some(5));
    assert_eq!(work.upload_time.as_deref(), Some("2024-01-02"));
}

#[test]
fn windows_line_endings_are_read() {
    let mut work = blank_work();
    add_metadata_from_metafile("ID\r\n42\r\n\r\nAI\r\nNo\r\n\r\n", &mut work);
    assert_eq!(work.id, Some(42));
    assert_eq!(work.ai, Some(false));
}

#[test]
fn header_needs_a_blank_line_before_it() {
    let mut work = blank_work();
    add_metadata_from_metafile("Title\nfoo\nURL\nbar\n\nID\n9\n", &mut work);
    assert_eq!(work.title, "foo");
    assert_eq!(work.url, None);
    assert_eq!(work.id, Some(9));
}

#[test]
fn lines_before_any_header_are_dropped() {
    let mut work = blank_work();
    add_metadata_from_metafile("junk\nID\n8\n", &mut work);
    assert_eq!(work.id, Some(8));
}

#[test]
fn unreadable_values_stay_unset() {
    let mut work = blank_work();
    add_metadata_from_metafile("ID\nabc\n\nxRestrict\nmaybe\n\nAI\nperhaps\n\nUserID\n-1\n", &mut work);
    assert_eq!(work.id, None);
    assert_eq!(work.age_restriction, None);
    assert_eq!(work.ai, None);
    assert_eq!(work.user_id, None);
}

#[test]
fn empty_title_keeps_the_path_title() {
    let mut work = blank_work();
    add_metadata_from_metafile("Title\n", &mut work);
    assert_eq!(work.title, "first");
    assert_eq!(work.description, None);
}

#[test]
fn age_restrictions_are_mapped() {
    let mut work = blank_work();
    parse_field(MetadataField::XRestrict, &vec!["AllAges", ""], &mut work);
    assert_eq!(work.age_restriction.as_deref(), Some("all-ages"));
    parse_field(MetadataField::XRestrict, &vec!["R-18G", ""], &mut work);
    assert_eq!(work.age_restriction.as_deref(), Some("r-18g"));
}

#[test]
fn description_without_lines_is_empty() {
    let mut work = blank_work();
    parse_field(MetadataField::Description, &vec![], &mut work);
    assert_eq!(work.description.as_deref(), Some(""));
    parse_field(MetadataField::Tags, &vec!["#x", "", "#y", ""], &mut work);
    assert_eq!(work.tags, Some(strings(&["x", "y"])));
}

#[test]
fn field_names_are_looked_up() {
    let mut work = blank_work();
    parse_metafile_field("Bookmark", &vec!["+12", ""], &mut work);
    assert_eq!(work.bookmarks, Some(12));
    parse_metafile_field("Unknown", &vec!["3"], &mut work);
    assert_eq!(work.bookmarks, Some(12));
    parse_metafile_field("Bookmark", &vec!["18446744073709551616"], &mut work);
    assert_eq!(work.bookmarks, None);
}

#[test]
fn work_is_built_in_order() {
    let roles = classify_assets(&strings(&[
        "/c/bob/w/p(2).jpg",
        "/c/bob/w/w-meta.txt",
        "/c/bob/w/p(1).jpg",
        "/c/bob/w/story.txt",
        "/c/bob/w/p(3).jpg",
    ]));
    let dims = vec![
        Some(ImageDimensions { width: 1, height: 1 }),
        None,
        Some(ImageDimensions { width: 3, height: 3 }),
    ];
    let work = build_work("/c", "/c/bob/w", &roles, Some("Title\nNamed\n\n"), &dims).unwrap();
    assert_eq!(work.title, "Named");
    assert_eq!(work.user_name, "bob");
    assert_eq!(work.relative_path, "bob/w");
    assert_eq!(image_names(&work), strings(&["p(1).jpg", "p(3).jpg"]));
    assert_eq!(work.novel_asset.unwrap().name, "story.txt");
}
