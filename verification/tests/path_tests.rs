use file_asset_io::paths::has_meta_suffix;
use file_asset_io::paths::join;
use file_asset_io::paths::meta_path;
use file_asset_io::paths::parent_dir;
use file_asset_io::paths::strip_root;
use file_asset_io::FileAssetReader;
use file_asset_io::FileAssetWriter;

#[test]
fn meta_path_appends_suffix() {
    assert_eq!(meta_path("a/b.png"), "a/b.png.meta");
    assert_eq!(meta_path("file.tga"), "file.tga.meta");
    assert_eq!(meta_path("dir/file"), "dir/file.meta");
    assert_eq!(meta_path(""), ".meta");
}

#[test]
fn meta_path_deterministic_and_pure() {
    let first = meta_path("sprites/hero.png");
    let second = meta_path("sprites/hero.png");
    let third = meta_path("sprites/hero.png");
    assert_eq!(first, second);
    assert_eq!(second, third);
    assert_eq!(first, "sprites/hero.png.meta");
}

#[test]
fn join_inserts_separator() {
    assert_eq!(join("root", "a/b.png"), "root/a/b.png");
    assert_eq!(join("/abs/root", "x"), "/abs/root/x");
    assert_eq!(join("root", ""), "root");
}

#[test]
fn parent_dir_takes_prefix_before_last_separator() {
    assert_eq!(parent_dir("root/a/b.png"), Some("root/a".to_string()));
    assert_eq!(parent_dir("root/a"), Some("root".to_string()));
    assert_eq!(parent_dir("file.png"), None);
    assert_eq!(parent_dir(""), None);
}

#[test]
fn strip_root_removes_prefix() {
    assert_eq!(strip_root("root", "root/a/b.png"), Some("a/b.png".to_string()));
    assert_eq!(strip_root("root", "root/x"), Some("x".to_string()));
    assert_eq!(strip_root("root", "root"), None);
    assert_eq!(strip_root("root", "root/"), None);
    assert_eq!(strip_root("root", "other/a.png"), None);
    assert_eq!(strip_root("root", "rootless/a.png"), None);
}

#[test]
fn meta_suffix_is_case_insensitive() {
    assert!(has_meta_suffix("a/b.png.meta"));
    assert!(has_meta_suffix("a/b.png.META"));
    assert!(has_meta_suffix("a/b.png.MeTa"));
    assert!(has_meta_suffix(".meta"));
    assert!(!has_meta_suffix("a/b.png"));
    assert!(!has_meta_suffix("meta"));
    assert!(!has_meta_suffix("a/b.met"));
    assert!(!has_meta_suffix("a/bmeta"));
}

#[test]
fn listing_excludes_meta_files() {
    let reader = FileAssetReader::new("root".to_string(), 4);
    let entries = vec![
        "root/a.png".to_string(),
        "root/a.png.meta".to_string(),
        "root/b.TGA".to_string(),
        "root/B.PNG.META".to_string(),
        "root/sub".to_string(),
    ];
    let listed = reader.directory_entries(&entries);
    assert_eq!(
        listed,
        vec!["a.png".to_string(), "b.TGA".to_string(), "sub".to_string()]
    );
}

#[test]
fn listing_skips_entries_outside_root() {
    let reader = FileAssetReader::new("root".to_string(), 4);
    let entries = vec![
        "elsewhere/a.png".to_string(),
        "root/keep.png".to_string(),
        "root".to_string(),
    ];
    let listed = reader.directory_entries(&entries);
    assert_eq!(listed, vec!["keep.png".to_string()]);
}

#[test]
fn reader_and_writer_resolve_identically() {
    let reader = FileAssetReader::new("/assets".to_string(), 8);
    let writer = FileAssetWriter::new("/assets".to_string());
    assert_eq!(reader.read_target("a/b.png"), writer.target("a/b.png"));
    assert_eq!(reader.meta_target("a/b.png"), writer.meta_target("a/b.png"));
    assert_eq!(writer.meta_target("a/b.png"), "/assets/a/b.png.meta");
    assert_eq!(reader.root_path().as_str(), "/assets");
}
