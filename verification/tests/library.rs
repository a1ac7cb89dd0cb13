use dungeon_rs::library::{first_resolved, AssetLibrary, AssetLibraryError, DeletePackStep};
use dungeon_rs::pack::{AssetPack, AssetPackError};

/// Adds the pack rooted at `root` with its metadata under `cache`, as adding a pack does.
fn add(library: &mut AssetLibrary, root: &str, cache: &str, name: Option<String>) -> String {
    let base = AssetLibrary::pack_meta_base(Some(cache.to_string()), Ok("/default/cache".to_string())).unwrap();
    let pack = AssetPack::new(root, &base, name);
    library.add_pack(pack, base)
}

#[test]
fn add_pack_creates_asset_pack() {
    let tmp = "/tmp/dungeon_rs-assets-tmp";
    let cache = "/tmp/dungeon_rs-assets-cache";
    let mut library = AssetLibrary::default();
    let pack_id = add(&mut library, tmp, cache, None);

    assert_eq!(library.iter().len(), 1);
    assert!(library.is_pack_registered(&pack_id));
}

#[test]
fn save_and_load_library() {
    let tmp = "/tmp/dungeon_rs-assets-tmp";
    let cache = "/tmp/dungeon_rs-assets-cache";

    let mut library = AssetLibrary::default();
    let pack_id = add(&mut library, tmp, cache, None);

    let file = library.to_file();
    let library = AssetLibrary::load_or_default(Ok(AssetLibrary::from_file(file))).unwrap();

    assert_eq!(library.iter().len(), 1);
    assert!(library.is_pack_registered(&pack_id));
    assert!(!library.is_pack_loaded(&pack_id));
}

#[test]
fn load_asset_pack_requires_registration() {
    let tmp = "/tmp/dungeon_rs-assets-tmp";
    let mut library = AssetLibrary::default();
    let pack = AssetPack::new(tmp, tmp, None);
    let id = pack.id.clone();

    library
        .load_pack(&id, Ok(pack))
        .expect_err("Asset pack should not be registered");
    assert!(library.unloaded_ids().is_empty());
    assert!(library.iter().is_empty());
    assert!(!library.is_pack_loaded(&id));
}

#[test]
fn iterate_registered_packs() {
    let tmp = "/tmp/dungeon_rs-iterate";
    let cache = "/tmp/dungeon_rs-iterate-cache";
    let mut library = AssetLibrary::default();
    let pack_id = add(&mut library, tmp, cache, None);
    let library = AssetLibrary::from_file(library.to_file());
    assert!(!library.is_pack_loaded(&pack_id));

    for (id, entry) in library.iter() {
        assert_eq!(id, pack_id);
        assert_eq!(entry, tmp.to_string());
    }
}

#[test]
fn load_pack_of_unknown_id_is_not_found() {
    let mut library = AssetLibrary::new();
    let err = library.load_pack(&"nope".to_string(), Err(AssetPackError::ManifestFile("x".to_string())));
    assert_eq!(err, Err(AssetLibraryError::NotFound("nope".to_string())));
}

#[test]
fn load_pack_failure_is_open_asset_pack() {
    let mut library = AssetLibrary::new();
    let id = add(&mut library, "/packs/a", "/cache", None);
    let file = library.to_file();
    let mut library = AssetLibrary::from_file(file);
    let err = library.load_pack(&id, Err(AssetPackError::ManifestFile("missing".to_string())));
    assert_eq!(err, Err(AssetLibraryError::OpenAssetPack(AssetPackError::ManifestFile("missing".to_string()))));
    assert!(!library.is_pack_loaded(&id));
}

#[test]
fn load_all_loads_the_unloaded_packs() {
    let mut library = AssetLibrary::new();
    let a = add(&mut library, "/packs/a", "/cache", None);
    let b = add(&mut library, "/packs/b", "/cache", None);
    let mut library = AssetLibrary::from_file(library.to_file());
    assert_eq!(library.unloaded_ids(), vec![a.clone(), b.clone()]);

    let entry = library.pack_location(&a).unwrap();
    assert_eq!(entry.root, "/packs/a");
    assert_eq!(entry.cache, "/cache");
    let pack = AssetPack::new(&entry.root, &entry.cache, None);
    library.load_pack(&a, Ok(pack)).unwrap();
    assert_eq!(library.unloaded_ids(), vec![b.clone()]);
    assert!(library.get_pack(&a).is_some());
    assert!(library.get_pack(&b).is_none());
}

#[test]
fn manifests_to_save_lists_loaded_packs() {
    let mut library = AssetLibrary::new();
    let a = add(&mut library, "/packs/a", "/cache", Some("A".to_string()));
    let saved = library.manifests_to_save();
    assert_eq!(saved.len(), 1);
    assert_eq!(saved[0].0, "/packs/a/asset_pack.toml");
    assert_eq!(saved[0].1.id, a);
    assert_eq!(saved[0].1.name, "A");
}

#[test]
fn delete_loaded_pack() {
    let mut library = AssetLibrary::new();
    let id = add(&mut library, "/packs/a", "/cache", None);
    match library.begin_delete_pack(&id) {
        DeletePackStep::RemoveFiles { manifest, meta_dir } => {
            assert_eq!(manifest, "/packs/a/asset_pack.toml");
            assert_eq!(meta_dir, format!("/cache/{id}"));
        }
        other => panic!("unexpected step {other:?}"),
    }
    assert!(!library.is_pack_loaded(&id));
    assert!(library.is_pack_registered(&id));
    library.finish_delete_pack(&id, Ok(())).unwrap();
    assert!(!library.is_pack_registered(&id));
    assert!(library.iter().is_empty());
}

#[test]
fn delete_unloaded_pack_loads_manifest_first() {
    let mut library = AssetLibrary::new();
    let id = add(&mut library, "/packs/a", "/cache", None);
    let mut library = AssetLibrary::from_file(library.to_file());
    let (root, cache) = match library.begin_delete_pack(&id) {
        DeletePackStep::LoadManifest { root, cache } => (root, cache),
        other => panic!("unexpected step {other:?}"),
    };
    assert_eq!(root, "/packs/a");
    let pack = AssetPack::load_manifest(&root, &cache, Ok(AssetPack::new(&root, &cache, None).to_manifest()));
    match library.resume_delete_pack(&id, pack) {
        DeletePackStep::RemoveFiles { manifest, .. } => assert_eq!(manifest, "/packs/a/asset_pack.toml"),
        other => panic!("unexpected step {other:?}"),
    }
    library.finish_delete_pack(&id, Ok(())).unwrap();
    assert!(!library.is_pack_registered(&id));
}

#[test]
fn delete_unknown_pack_fails() {
    let mut library = AssetLibrary::new();
    match library.begin_delete_pack(&"ghost".to_string()) {
        DeletePackStep::Failed(e) => assert_eq!(e, AssetLibraryError::NotFound("ghost".to_string())),
        other => panic!("unexpected step {other:?}"),
    }
}

#[test]
fn failed_file_removal_keeps_pack_registered() {
    let mut library = AssetLibrary::new();
    let id = add(&mut library, "/packs/a", "/cache", None);
    let _ = library.begin_delete_pack(&id);
    let r = library.finish_delete_pack(&id, Err(AssetPackError::ManifestFile("denied".to_string())));
    assert_eq!(r, Err(AssetLibraryError::OpenAssetPack(AssetPackError::ManifestFile("denied".to_string()))));
    assert!(library.is_pack_registered(&id));
    assert!(!library.is_pack_loaded(&id));
}

#[test]
fn load_or_default_on_unreadable_file_is_empty() {
    let r = AssetLibrary::load_or_default(Err(AssetLibraryError::ReadFile("no such file".to_string()))).unwrap();
    assert!(r.iter().is_empty());
}

#[test]
fn load_or_default_keeps_other_errors() {
    let r = AssetLibrary::load_or_default(Err(AssetLibraryError::Serialisation("bad toml".to_string())));
    assert_eq!(r.unwrap_err(), AssetLibraryError::Serialisation("bad toml".to_string()));
}

#[test]
fn get_path_prefers_the_given_folder() {
    assert_eq!(AssetLibrary::get_path(Some("/given".to_string()), Err("none".to_string())), Ok("/given".to_string()));
    assert_eq!(AssetLibrary::get_path(None, Ok("/config".to_string())), Ok("/config".to_string()));
    assert_eq!(
        AssetLibrary::get_path(None, Err("none".to_string())),
        Err(AssetLibraryError::LocateConfigFolder("none".to_string()))
    );
    assert_eq!(AssetLibrary::library_file("/config"), "/config/library.toml");
}

#[test]
fn pack_meta_base_needs_a_cache_folder() {
    assert_eq!(
        AssetLibrary::pack_meta_base(Some("/meta".to_string()), Err("no cache".to_string())),
        Err(AssetLibraryError::LocateConfigFolder("no cache".to_string()))
    );
    assert_eq!(AssetLibrary::pack_meta_base(None, Ok("/cache".to_string())), Ok("/cache".to_string()));
}

#[test]
fn add_then_delete_restores_library() {
    let mut library = AssetLibrary::new();
    let a = add(&mut library, "/packs/a", "/cache", None);
    let b = add(&mut library, "/packs/b", "/cache", None);
    let _ = library.begin_delete_pack(&b);
    library.finish_delete_pack(&b, Ok(())).unwrap();
    assert_eq!(library.iter(), vec![(a.clone(), "/packs/a".to_string())]);
    assert!(library.is_pack_loaded(&a));
}

#[test]
fn removed_pack_is_gone_from_the_saved_library() {
    let mut library = AssetLibrary::new();
    let kept = add(&mut library, "/packs/a", "/cache", None);
    let removed = add(&mut library, "/packs/b", "/cache", None);
    let _ = library.begin_delete_pack(&removed);
    library.finish_delete_pack(&removed, Ok(())).unwrap();
    let reloaded = AssetLibrary::from_file(library.to_file());
    assert!(!reloaded.is_pack_registered(&removed));
    assert!(reloaded.is_pack_registered(&kept));
}

#[test]
fn first_loaded_pack_that_knows_an_asset_resolves_it() {
    assert_eq!(
        first_resolved(vec![None, Some("/a/tree.png".to_string()), Some("/b/tree.png".to_string())]),
        Some("/a/tree.png".to_string())
    );
    assert_eq!(first_resolved(vec![None, None]), None);
    assert_eq!(first_resolved(vec![]), None);
}
