use winit_windows::asset_paths::{EnvironmentPaths, FileAssetReader, FileAssetWriter};

fn env(asset_root: Option<&str>, manifest_dir: Option<&str>, exe_parent: &str) -> EnvironmentPaths {
    EnvironmentPaths {
        asset_root: asset_root.map(str::to_string),
        manifest_dir: manifest_dir.map(str::to_string),
        exe_parent_dir: exe_parent.to_string(),
    }
}

#[test]
fn base_path_prefers_asset_root() {
    let e = env(Some("/explicit"), Some("/manifest"), "/exe");
    assert_eq!(FileAssetReader::get_base_path(&e), "/explicit");
}

#[test]
fn base_path_falls_back_to_manifest_dir() {
    let e = env(None, Some("/manifest"), "/exe");
    assert_eq!(FileAssetReader::get_base_path(&e), "/manifest");
}

#[test]
fn base_path_falls_back_to_exe_dir() {
    let e = env(None, None, "/exe");
    assert_eq!(FileAssetReader::get_base_path(&e), "/exe");
}

#[test]
fn reader_root_joins_base_and_path() {
    let e = env(Some("/base"), None, "/exe");
    let reader = FileAssetReader::new(&e, "assets");
    assert_eq!(reader.root_path(), "/base/assets");
}

#[test]
fn reader_keeps_absolute_path() {
    let e = env(Some("/base"), None, "/exe");
    let reader = FileAssetReader::new(&e, "/absolute/assets");
    assert_eq!(reader.root_path(), "/absolute/assets");
}

#[test]
fn reader_adds_no_second_separator() {
    let e = env(Some("/base/"), None, "/exe");
    let reader = FileAssetReader::new(&e, "assets");
    assert_eq!(reader.root_path(), "/base/assets");
}

#[test]
fn writer_root_joins_base_and_path() {
    let e = env(None, Some("/manifest"), "/exe");
    let writer = FileAssetWriter::new(&e, "saves");
    assert_eq!(writer.root_path(), "/manifest/saves");
}
