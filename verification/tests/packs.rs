use dungeon_rs::hashing::{hash_path, hash_string, to_hex_lower};
use dungeon_rs::pack::{AssetPack, AssetPackError, AssetPackManifest, AssetPackState};

#[test]
fn hash_of_empty_text_is_blake3_of_nothing() {
    assert_eq!(
        hash_string(""),
        "af1349b9f5f9a1a6a0404dea36dcc9499bcb25c9adc112b7cc9a93cae41f3262"
    );
}

#[test]
fn hash_of_abc() {
    assert_eq!(
        hash_string("abc"),
        "6437b3ac38465133ffb63b75273a8db548c558465d79db03fd359c6cd5bd9d85"
    );
}

#[test]
fn hash_path_and_hash_string_agree() {
    assert_eq!(hash_path("/tmp/some/pack"), hash_string("/tmp/some/pack"));
    assert_eq!(hash_path("/tmp/some/pack").len(), 64);
}

#[test]
fn hex_is_lowercase_two_digits_per_byte() {
    assert_eq!(to_hex_lower(&[0x00, 0x0f, 0xa0, 0xff]), "000fa0ff");
    assert_eq!(to_hex_lower(&[]), "");
}

#[test]
fn new_asset_pack_id_is_stable() {
    let subpath = "/tmp/dungeon_rs-assets/new_asset_pack_id_is_stable";

    let pack = AssetPack::new(subpath, subpath, None);
    let pack_id = pack.id.clone();

    let pack2 = AssetPack::new(subpath, subpath, None);

    assert_eq!(pack_id, pack2.id);
}

#[test]
fn new_asset_pack_id_unique() {
    let path1 = "/tmp/dungeon_rs-assets-1";
    let path2 = "/tmp/dungeon_rs-assets-2";
    let pack1 = AssetPack::new(path1, path1, None);
    let pack2 = AssetPack::new(path2, path2, None);

    assert_ne!(pack1.id, pack2.id);
}

#[test]
fn new_pack_is_named_after_its_folder() {
    let pack = AssetPack::new("/packs/Forest Tiles", "/cache", None);
    assert_eq!(pack.name, "Forest Tiles");
    assert_eq!(pack.state, AssetPackState::Created);
    assert_eq!(pack.id, hash_path("/packs/Forest Tiles"));
    assert_eq!(pack.meta_dir, format!("/cache/{}", pack.id));
    assert_eq!(pack.index_dir(), format!("/cache/{}/index", pack.id));
    assert_eq!(pack.thumbnails_dir(), format!("/cache/{}/thumbnails", pack.id));
    assert_eq!(pack.manifest_path(), "/packs/Forest Tiles/asset_pack.toml");
}

#[test]
fn new_pack_keeps_a_given_name() {
    let pack = AssetPack::new("/packs/forest", "/cache", Some("Forest".to_string()));
    assert_eq!(pack.name, "Forest");
}

#[test]
fn new_pack_without_folder_name_is_named_by_id() {
    let pack = AssetPack::new("/", "/cache", None);
    assert_eq!(pack.name, pack.id);
}

#[test]
fn manifest_round_trip() {
    let pack = AssetPack::new("/packs/forest", "/cache", Some("Forest".to_string()));
    let manifest = pack.to_manifest();
    assert_eq!(manifest.id, pack.id);
    assert_eq!(manifest.name, "Forest");
    let loaded = AssetPack::load_manifest("/packs/forest", "/cache", Ok(manifest)).unwrap();
    assert_eq!(loaded.id, pack.id);
    assert_eq!(loaded.name, pack.name);
    assert_eq!(loaded.root, pack.root);
    assert_eq!(loaded.meta_dir, pack.meta_dir);
    assert_eq!(loaded.state, AssetPackState::Created);
    assert_eq!(loaded.filter_script(), None);
}

#[test]
fn manifest_keeps_custom_scripts() {
    let manifest = AssetPackManifest {
        id: "abc".to_string(),
        name: "Custom".to_string(),
        filter_script: Some("fn filter(n) { true }".to_string()),
        index_script: None,
    };
    let pack = AssetPack::load_manifest("/packs/custom", "/cache", Ok(manifest)).unwrap();
    assert_eq!(pack.meta_dir, "/cache/abc");
    assert_eq!(pack.filter_script().map(|s| s.as_str()), Some("fn filter(n) { true }"));
    assert_eq!(pack.index_script(), None);
    assert_eq!(pack.to_manifest().filter_script, Some("fn filter(n) { true }".to_string()));
}

#[test]
fn load_manifest_passes_errors_on() {
    let r = AssetPack::load_manifest("/packs/x", "/cache", Err(AssetPackError::Serialisation("bad".to_string())));
    assert_eq!(r.unwrap_err(), AssetPackError::Serialisation("bad".to_string()));
}

#[test]
fn default_state_is_created() {
    assert_eq!(AssetPackState::default(), AssetPackState::Created);
}
