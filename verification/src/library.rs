//! A library serves as a device-wide registry of asset packs.
//!
//! The library keeps the registered packs (by id: where the pack lives and where its
//! metadata is kept) and the packs currently loaded. Reading and writing the library file,
//! loading pack manifests and removing a pack's files are done by the caller, which hands
//! the outcomes to the operations below.
use vstd::prelude::*;
use crate::str_map::StrMap;
use crate::pack::{AssetPack, AssetPackError, AssetPackView, AssetPackManifest, AssetPackManifestView, manifest_of};
use crate::paths::{join_path, joined_path};

verus! {

/// Where a registered pack lives, and where its metadata folder is kept.
#[derive(Debug)]
pub struct AssetLibraryEntry {
    /// The (canonical) root folder of the pack.
    pub root: String,
    /// The folder under which the pack's metadata folder lives.
    pub cache: String,
}

/// The abstract form of an [`AssetLibraryEntry`].
pub struct AssetLibraryEntryView {
    pub root: Seq<char>,
    pub cache: Seq<char>,
}

impl View for AssetLibraryEntry {
    type V = AssetLibraryEntryView;

    open spec fn view(&self) -> AssetLibraryEntryView {
        AssetLibraryEntryView { root: self.root@, cache: self.cache@ }
    }
}

impl AssetLibraryEntry {
    /// A copy of this entry.
    pub fn duplicate(&self) -> (e: AssetLibraryEntry)
        ensures
            e@ == self@,
    {
        AssetLibraryEntry { root: self.root.clone(), cache: self.cache.clone() }
    }
}

/// The errors that can occur when loading, saving or changing the [`AssetLibrary`].
#[derive(Debug, Clone, PartialEq, Eq)]
pub enum AssetLibraryError {
    /// The configuration or cache folder could not be located.
    LocateConfigFolder(String),
    /// Reading or writing the library file failed.
    ReadFile(String),
    /// (De)serialising the library file failed.
    Serialisation(String),
    /// Opening, saving or removing an asset pack failed.
    OpenAssetPack(AssetPackError),
    /// The requested asset pack was not loaded or registered, depending on the operation.
    NotFound(String),
}

/// The content of the library file: the registered packs.
pub struct LibraryFile {
    pub packs: StrMap<AssetLibraryEntry>,
}

/// The abstract form of an [`AssetLibrary`]: the registered and the loaded packs by id.
pub struct LibraryView {
    pub registered: Map<Seq<char>, AssetLibraryEntryView>,
    pub loaded: Map<Seq<char>, AssetPackView>,
}

impl LibraryView {
    /// Every loaded pack is registered.
    pub open spec fn consistent(self) -> bool {
        forall|k: Seq<char>| #[trigger] self.loaded.contains_key(k) ==> self.registered.contains_key(k)
    }

    /// The empty library.
    pub open spec fn empty() -> LibraryView {
        LibraryView { registered: Map::empty(), loaded: Map::empty() }
    }

    /// The library after registering and loading `pack`, with its metadata under `cache`.
    pub open spec fn add(self, pack: AssetPackView, cache: Seq<char>) -> LibraryView {
        LibraryView {
            registered: self.registered.insert(pack.id, AssetLibraryEntryView { root: pack.root, cache }),
            loaded: self.loaded.insert(pack.id, pack),
        }
    }

    /// The library after loading `pack` under `id`.
    pub open spec fn load(self, id: Seq<char>, pack: AssetPackView) -> LibraryView {
        LibraryView { registered: self.registered, loaded: self.loaded.insert(id, pack) }
    }

    /// The library after unloading the pack `id`.
    pub open spec fn unload(self, id: Seq<char>) -> LibraryView {
        LibraryView { registered: self.registered, loaded: self.loaded.remove(id) }
    }

    /// The library after unregistering (and unloading) the pack `id`.
    pub open spec fn unregister(self, id: Seq<char>) -> LibraryView {
        LibraryView { registered: self.registered.remove(id), loaded: self.loaded.remove(id) }
    }

    /// Adding a pack keeps every loaded pack registered.
    pub proof fn lemma_add_consistent(self, pack: AssetPackView, cache: Seq<char>)
        requires
            self.consistent(),
        ensures
            self.add(pack, cache).consistent(),
    {
        assert forall|k: Seq<char>| #[trigger] self.add(pack, cache).loaded.contains_key(k)
            implies self.add(pack, cache).registered.contains_key(k) by {
            if k != pack.id {
                assert(self.loaded.contains_key(k));
            }
        }
    }

    /// Loading a registered pack keeps every loaded pack registered.
    pub proof fn lemma_load_consistent(self, id: Seq<char>, pack: AssetPackView)
        requires
            self.consistent(),
            self.registered.contains_key(id),
        ensures
            self.load(id, pack).consistent(),
    {
        assert forall|k: Seq<char>| #[trigger] self.load(id, pack).loaded.contains_key(k)
            implies self.load(id, pack).registered.contains_key(k) by {
            if k != id {
                assert(self.loaded.contains_key(k));
            }
        }
    }

    /// Unloading or unregistering a pack keeps every loaded pack registered.
    pub proof fn lemma_unload_consistent(self, id: Seq<char>)
        requires
            self.consistent(),
        ensures
            self.unload(id).consistent(),
            self.unregister(id).consistent(),
    {
        assert forall|k: Seq<char>| #[trigger] self.unload(id).loaded.contains_key(k)
            implies self.unload(id).registered.contains_key(k) by {
            assert(self.loaded.contains_key(k));
        }
        assert forall|k: Seq<char>| #[trigger] self.unregister(id).loaded.contains_key(k)
            implies self.unregister(id).registered.contains_key(k) by {
            assert(self.loaded.contains_key(k));
        }
    }

    /// The library that a library file with `packs` describes.
    pub open spec fn from_registered(packs: Map<Seq<char>, AssetLibraryEntryView>) -> LibraryView {
        LibraryView { registered: packs, loaded: Map::empty() }
    }
}

/// Adding a pack that was not registered and then deleting it leaves the library as it was:
/// unloading and unregistering the pack undo registering and loading it.
pub proof fn lemma_add_then_delete(lib: LibraryView, pack: AssetPackView, cache: Seq<char>)
    requires
        lib.consistent(),
        !lib.registered.contains_key(pack.id),
    ensures
        lib.add(pack, cache).unload(pack.id).unregister(pack.id) == lib,
{
    assert(!lib.loaded.contains_key(pack.id));
    assert(lib.add(pack, cache).unload(pack.id).unregister(pack.id).registered =~= lib.registered);
    assert(lib.add(pack, cache).unload(pack.id).unregister(pack.id).loaded =~= lib.loaded);
}

/// Deleting a registered pack that was not loaded (its manifest is loaded first, then it is
/// unloaded and unregistered) ends as unregistering it directly would.
pub proof fn lemma_delete_unloaded_pack(lib: LibraryView, id: Seq<char>, pack: AssetPackView)
    requires
        lib.consistent(),
    ensures
        lib.load(id, pack).unload(id).unregister(id) == lib.unregister(id),
{
    assert(lib.load(id, pack).unload(id).unregister(id).loaded =~= lib.unregister(id).loaded);
}

/// A deleted pack stays removed: once a pack is unregistered and the library saved, loading
/// the library file back does not register the pack, and keeps every other registered pack.
pub proof fn lemma_deleted_pack_stays_removed(lib: LibraryView, id: Seq<char>)
    ensures
        !LibraryView::from_registered(lib.unregister(id).registered).registered.contains_key(id),
        forall|k: Seq<char>| k != id && #[trigger] lib.registered.contains_key(k)
            ==> LibraryView::from_registered(lib.unregister(id).registered).registered.contains_key(k),
{
}

/// Saving a library and loading the file back registers exactly the packs that were
/// registered, with none loaded.
pub proof fn lemma_save_load_round_trip(lib: LibraryView)
    ensures
        LibraryView::from_registered(lib.registered).registered == lib.registered,
        LibraryView::from_registered(lib.registered).loaded == Map::<Seq<char>, AssetPackView>::empty(),
        LibraryView::from_registered(lib.registered).consistent(),
{
}

/// What the caller must do next while deleting an asset pack.
#[derive(Debug)]
pub enum DeletePackStep {
    /// Read and parse the manifest of the pack rooted at `root`, with metadata under `cache`,
    /// and hand the outcome to [`AssetLibrary::resume_delete_pack`].
    LoadManifest { root: String, cache: String },
    /// Remove the manifest file and then the metadata folder, and hand the outcome to
    /// [`AssetLibrary::finish_delete_pack`].
    RemoveFiles { manifest: String, meta_dir: String },
    /// The deletion failed; nothing is left to do.
    Failed(AssetLibraryError),
}

/// The files that deleting `pack` removes.
pub open spec fn remove_files_step(step: DeletePackStep, pack: AssetPackView) -> bool {
    match step {
        DeletePackStep::RemoveFiles { manifest, meta_dir } =>
            manifest@ == joined_path(pack.root, "asset_pack.toml"@) && meta_dir@ == pack.meta_dir,
        _ => false,
    }
}

/// An [`AssetLibrary`] is a device-wide registry of packs that save files can refer to.
#[derive(Debug)]
pub struct AssetLibrary {
    /// The registered packs, keyed by id.
    registered_packs: StrMap<AssetLibraryEntry>,
    /// The packs currently loaded, keyed by id.
    loaded_packs: StrMap<AssetPack>,
}

impl View for AssetLibrary {
    type V = LibraryView;

    closed spec fn view(&self) -> LibraryView {
        LibraryView { registered: self.registered_packs@, loaded: self.loaded_packs@ }
    }
}

impl LibraryFile {
    /// No id occurs twice.
    pub open spec fn wf(&self) -> bool {
        self.packs.wf()
    }
}

impl AssetLibrary {
    /// The internal consistency of the library: ids are unique and loaded packs are registered.
    pub closed spec fn wf(&self) -> bool {
        &&& self.registered_packs.wf()
        &&& self.loaded_packs.wf()
        &&& self@.consistent()
    }

    /// The ids of the registered packs, in registration order.
    pub closed spec fn registered_order(&self) -> Seq<Seq<char>> {
        self.registered_packs.key_seq()
    }

    /// The ids of the loaded packs, in loading order.
    pub closed spec fn loaded_order(&self) -> Seq<Seq<char>> {
        self.loaded_packs.key_seq()
    }

    /// A well-formed library satisfies the invariant of its view, and its orders list each
    /// registered (loaded) id exactly once.
    pub proof fn lemma_wf(&self)
        requires
            self.wf(),
        ensures
            self@.consistent(),
            forall|i: int| 0 <= i < self.registered_order().len()
                ==> #[trigger] self@.registered.contains_key(self.registered_order()[i]),
            forall|k: Seq<char>| #[trigger] self@.registered.contains_key(k) ==> self.registered_order().contains(k),
            forall|i: int, j: int| 0 <= i < self.registered_order().len() && 0 <= j < self.registered_order().len() && i != j
                ==> #[trigger] self.registered_order()[i] != #[trigger] self.registered_order()[j],
            forall|i: int| 0 <= i < self.loaded_order().len()
                ==> #[trigger] self@.loaded.contains_key(self.loaded_order()[i]),
            forall|k: Seq<char>| #[trigger] self@.loaded.contains_key(k) ==> self.loaded_order().contains(k),
    {
        self.registered_packs.lemma_keys();
        self.loaded_packs.lemma_keys();
    }

    /// An empty library.
    pub fn new() -> (l: AssetLibrary)
        ensures
            l.wf(),
            l@ == LibraryView::empty(),
    {
        AssetLibrary { registered_packs: StrMap::new(), loaded_packs: StrMap::new() }
    }

    /// The library that a library file describes: its packs registered, none loaded.
    pub fn from_file(file: LibraryFile) -> (l: AssetLibrary)
        requires
            file.wf(),
        ensures
            l.wf(),
            l@ == LibraryView::from_registered(file.packs@),
    {
        AssetLibrary { registered_packs: file.packs, loaded_packs: StrMap::new() }
    }

    /// The library file that saving this library writes: the registered packs.
    pub fn to_file(&self) -> (file: LibraryFile)
        requires
            self.wf(),
        ensures
            file.wf(),
            file.packs@ == self@.registered,
    {
        let mut packs: StrMap<AssetLibraryEntry> = StrMap::new();
        let n = self.registered_packs.len();
        let mut i: usize = 0;
        proof {
            self.registered_packs.lemma_keys();
        }
        while i < n
            invariant
                n == self.registered_packs.key_seq().len(),
                i <= n,
                self.registered_packs.wf(),
                packs.wf(),
                forall|k: Seq<char>| #[trigger] packs@.contains_key(k)
                    <==> exists|j: int| 0 <= j < i && self.registered_packs.key_seq()[j] == k,
                forall|k: Seq<char>| #[trigger] packs@.contains_key(k) ==> packs@[k] == self.registered_packs@[k],
                forall|j: int| 0 <= j < n ==> #[trigger] self.registered_packs@.contains_key(self.registered_packs.key_seq()[j]),
                forall|k: Seq<char>| #[trigger] self.registered_packs@.contains_key(k) ==> self.registered_packs.key_seq().contains(k),
            decreases n - i,
        {
            let k = self.registered_packs.key_at(i).clone();
            let e = self.registered_packs.value_at(i).duplicate();
            packs.insert(k, e);
            proof {
                assert forall|key: Seq<char>| #[trigger] packs@.contains_key(key)
                    <==> exists|j: int| 0 <= j < i + 1 && self.registered_packs.key_seq()[j] == key by {
                    if packs@.contains_key(key) && key != self.registered_packs.key_seq()[i as int] {
                        let j = choose|j: int| 0 <= j < i && self.registered_packs.key_seq()[j] == key;
                        assert(0 <= j < i + 1 && self.registered_packs.key_seq()[j] == key);
                    }
                    if key == self.registered_packs.key_seq()[i as int] {
                        assert(0 <= i < i + 1 && self.registered_packs.key_seq()[i as int] == key);
                    }
                }
            }
            i += 1;
        }
        proof {
            assert forall|key: Seq<char>| #[trigger] packs@.contains_key(key) == self.registered_packs@.contains_key(key) by {
                if self.registered_packs@.contains_key(key) {
                    let j = choose|j: int| 0 <= j < self.registered_packs.key_seq().len() && self.registered_packs.key_seq()[j] == key;
                    assert(0 <= j < i && self.registered_packs.key_seq()[j] == key);
                }
            }
            assert(packs@ =~= self.registered_packs@);
        }
        LibraryFile { packs }
    }

    /// Decides what loading the library ends with: a library file that could not be read
    /// gives the empty library, any other outcome stands.
    pub fn load_or_default(loaded: Result<AssetLibrary, AssetLibraryError>) -> (r: Result<AssetLibrary, AssetLibraryError>)
        requires
            loaded matches Ok(l) ==> l.wf(),
        ensures
            match loaded {
                Err(AssetLibraryError::ReadFile(_)) => r matches Ok(l) && l.wf() && l@ == LibraryView::empty(),
                Err(e) => r == Err::<AssetLibrary, AssetLibraryError>(e),
                Ok(l) => r matches Ok(l2) && l2 == l,
            },
            r matches Ok(l) ==> l.wf(),
    {
        match loaded {
            Err(AssetLibraryError::ReadFile(_)) => Ok(AssetLibrary::new()),
            other => other,
        }
    }

    /// The folder the library file lives in: `path` when given, else the configuration folder
    /// (`config_dir`, or why it could not be located).
    pub fn get_path(path: Option<String>, config_dir: Result<String, String>) -> (r: Result<String, AssetLibraryError>)
        ensures
            match path {
                Some(p) => r == Ok::<String, AssetLibraryError>(p),
                None => match config_dir {
                    Ok(d) => r == Ok::<String, AssetLibraryError>(d),
                    Err(e) => r == Err::<String, AssetLibraryError>(AssetLibraryError::LocateConfigFolder(e)),
                },
            },
    {
        match path {
            Some(p) => Ok(p),
            None => match config_dir {
                Ok(d) => Ok(d),
                Err(e) => Err(AssetLibraryError::LocateConfigFolder(e)),
            },
        }
    }

    /// The library file inside the folder `dir`.
    pub fn library_file(dir: &str) -> (p: String)
        ensures
            p@ == joined_path(dir@, "library.toml"@),
    {
        join_path(dir, "library.toml")
    }

    /// The folder under which a new pack's metadata folder is placed: `meta_dir` when given,
    /// else the cache folder. The cache folder is looked up either way, so a cache folder that
    /// cannot be located fails the addition even when `meta_dir` is given.
    pub fn pack_meta_base(meta_dir: Option<String>, cache_dir: Result<String, String>) -> (r: Result<String, AssetLibraryError>)
        ensures
            match cache_dir {
                Err(e) => r == Err::<String, AssetLibraryError>(AssetLibraryError::LocateConfigFolder(e)),
                Ok(c) => match meta_dir {
                    Some(m) => r == Ok::<String, AssetLibraryError>(m),
                    None => r == Ok::<String, AssetLibraryError>(c),
                },
            },
    {
        match cache_dir {
            Err(e) => Err(AssetLibraryError::LocateConfigFolder(e)),
            Ok(c) => match meta_dir {
                Some(m) => Ok(m),
                None => Ok(c),
            },
        }
    }

    /// Registers and loads a newly created `pack` whose metadata folder lives under `cache`,
    /// and returns the pack's id.
    pub fn add_pack(&mut self, pack: AssetPack, cache: String) -> (id: String)
        requires
            old(self).wf(),
        ensures
            final(self).wf(),
            final(self)@ == old(self)@.add(pack@, cache@),
            id@ == pack@.id,
    {
        let id = pack.id.clone();
        let entry = AssetLibraryEntry { root: pack.root.clone(), cache };
        self.registered_packs.insert(id.clone(), entry);
        self.loaded_packs.insert(id.clone(), pack);
        proof {
            old(self)@.lemma_add_consistent(pack@, cache@);
            assert(self@ == old(self)@.add(pack@, cache@));
        }
        id
    }

    /// Where the registered pack `id` lives, so that its manifest can be loaded.
    pub fn pack_location(&self, id: &String) -> (r: Result<AssetLibraryEntry, AssetLibraryError>)
        requires
            self.wf(),
        ensures
            match r {
                Ok(e) => self@.registered.contains_key(id@) && e@ == self@.registered[id@],
                Err(e) => !self@.registered.contains_key(id@) && e == AssetLibraryError::NotFound(*id),
            },
    {
        match self.registered_packs.get(id) {
            Some(e) => Ok(e.duplicate()),
            None => Err(AssetLibraryError::NotFound(id.clone())),
        }
    }

    /// Loads the registered pack `id` from the outcome of loading its manifest (see
    /// [`AssetLibrary::pack_location`]). An unregistered id fails with
    /// [`AssetLibraryError::NotFound`] whatever the outcome; a failed load fails with
    /// [`AssetLibraryError::OpenAssetPack`]. On failure the library is unchanged.
    pub fn load_pack(&mut self, id: &String, loaded: Result<AssetPack, AssetPackError>) -> (r: Result<(), AssetLibraryError>)
        requires
            old(self).wf(),
        ensures
            final(self).wf(),
            !old(self)@.registered.contains_key(id@) ==> r == Err::<(), AssetLibraryError>(AssetLibraryError::NotFound(*id))
                && final(self)@ == old(self)@,
            old(self)@.registered.contains_key(id@) ==> match loaded {
                Ok(p) => r is Ok && final(self)@ == old(self)@.load(id@, p@),
                Err(e) => r == Err::<(), AssetLibraryError>(AssetLibraryError::OpenAssetPack(e)) && final(self)@ == old(self)@,
            },
    {
        if !self.registered_packs.contains_key(id) {
            return Err(AssetLibraryError::NotFound(id.clone()));
        }
        match loaded {
            Ok(p) => {
                self.loaded_packs.insert(id.clone(), p);
                proof {
                    old(self)@.lemma_load_consistent(id@, p@);
                    assert(self@ == old(self)@.load(id@, p@));
                }
                Ok(())
            },
            Err(e) => Err(AssetLibraryError::OpenAssetPack(e)),
        }
    }

    /// Whether the pack `id` is loaded.
    pub fn is_pack_loaded(&self, id: &String) -> (b: bool)
        requires
            self.wf(),
        ensures
            b == self@.loaded.contains_key(id@),
    {
        self.loaded_packs.contains_key(id)
    }

    /// Whether the pack `id` is registered.
    pub fn is_pack_registered(&self, id: &String) -> (b: bool)
        requires
            self.wf(),
        ensures
            b == self@.registered.contains_key(id@),
    {
        self.registered_packs.contains_key(id)
    }

    /// The loaded pack `id`, if it is loaded.
    pub fn get_pack(&self, id: &String) -> (r: Option<&AssetPack>)
        requires
            self.wf(),
        ensures
            match r {
                Some(p) => self@.loaded.contains_key(id@) && p@ == self@.loaded[id@],
                None => !self@.loaded.contains_key(id@),
            },
    {
        self.loaded_packs.get(id)
    }

    /// The id and root folder of every registered pack, in registration order.
    pub fn iter(&self) -> (v: Vec<(String, String)>)
        requires
            self.wf(),
        ensures
            v.len() == self.registered_order().len(),
            forall|i: int| 0 <= i < v.len() ==> {
                &&& (#[trigger] v[i]).0@ == self.registered_order()[i]
                &&& v[i].1@ == self@.registered[self.registered_order()[i]].root
            },
    {
        let mut v: Vec<(String, String)> = Vec::new();
        let n = self.registered_packs.len();
        let mut i: usize = 0;
        while i < n
            invariant
                n == self.registered_packs.key_seq().len(),
                i <= n,
                self.registered_packs.wf(),
                v.len() == i,
                forall|j: int| 0 <= j < i ==> {
                    &&& (#[trigger] v[j]).0@ == self.registered_packs.key_seq()[j]
                    &&& v[j].1@ == self.registered_packs@[self.registered_packs.key_seq()[j]].root
                },
            decreases n - i,
        {
            let k = self.registered_packs.key_at(i).clone();
            let root = self.registered_packs.value_at(i).root.clone();
            v.push((k, root));
            i += 1;
        }
        v
    }

    /// The ids of the registered packs that are not loaded, in registration order: the packs
    /// that loading all packs still has to load.
    pub fn unloaded_ids(&self) -> (ids: Vec<String>)
        requires
            self.wf(),
        ensures
            ids@.map_values(|s: String| s@) == self.registered_order().filter(|k: Seq<char>| !self@.loaded.contains_key(k)),
    {
        let ghost pred = |k: Seq<char>| !self@.loaded.contains_key(k);
        let mut ids: Vec<String> = Vec::new();
        let n = self.registered_packs.len();
        let mut i: usize = 0;
        while i < n
            invariant
                n == self.registered_packs.key_seq().len(),
                i <= n,
                self.wf(),
                pred == (|k: Seq<char>| !self@.loaded.contains_key(k)),
                ids@.map_values(|s: String| s@) == self.registered_order().take(i as int).filter(pred),
            decreases n - i,
        {
            let k = self.registered_packs.key_at(i);
            let ghost before = ids@;
            proof {
                reveal_with_fuel(Seq::<_>::filter, 1);
                assert(self.registered_order().take(i + 1).drop_last() =~= self.registered_order().take(i as int));
            }
            if !self.loaded_packs.contains_key(k) {
                ids.push(k.clone());
                proof {
                    assert(ids@.map_values(|s: String| s@) =~= before.map_values(|s: String| s@).push(k@));
                }
            }
            i += 1;
        }
        proof {
            assert(self.registered_order().take(n as int) =~= self.registered_order());
        }
        ids
    }

    /// The manifests that saving the library writes: for each loaded pack, in loading order,
    /// its manifest file and the manifest.
    pub fn manifests_to_save(&self) -> (v: Vec<(String, AssetPackManifest)>)
        requires
            self.wf(),
        ensures
            v.len() == self.loaded_order().len(),
            forall|i: int| 0 <= i < v.len() ==> {
                &&& (#[trigger] v[i]).0@ == joined_path(self@.loaded[self.loaded_order()[i]].root, "asset_pack.toml"@)
                &&& v[i].1@ == manifest_of(self@.loaded[self.loaded_order()[i]])
            },
    {
        let mut v: Vec<(String, AssetPackManifest)> = Vec::new();
        let n = self.loaded_packs.len();
        let mut i: usize = 0;
        while i < n
            invariant
                n == self.loaded_packs.key_seq().len(),
                i <= n,
                self.loaded_packs.wf(),
                v.len() == i,
                forall|j: int| 0 <= j < i ==> {
                    &&& (#[trigger] v[j]).0@ == joined_path(self.loaded_packs@[self.loaded_packs.key_seq()[j]].root, "asset_pack.toml"@)
                    &&& v[j].1@ == manifest_of(self.loaded_packs@[self.loaded_packs.key_seq()[j]])
                },
            decreases n - i,
        {
            let pack = self.loaded_packs.value_at(i);
            v.push((pack.manifest_path(), pack.to_manifest()));
            i += 1;
        }
        v
    }

    /// Starts deleting the pack `id`. A loaded pack is unloaded and its files are to be
    /// removed; a pack that is registered but not loaded has its manifest loaded first; an
    /// unknown id fails with [`AssetLibraryError::NotFound`].
    pub fn begin_delete_pack(&mut self, id: &String) -> (step: DeletePackStep)
        requires
            old(self).wf(),
        ensures
            final(self).wf(),
            old(self)@.loaded.contains_key(id@) ==> final(self)@ == old(self)@.unload(id@)
                && remove_files_step(step, old(self)@.loaded[id@]),
            !old(self)@.loaded.contains_key(id@) && old(self)@.registered.contains_key(id@) ==> final(self)@ == old(self)@
                && (step matches DeletePackStep::LoadManifest { root, cache }
                && root@ == old(self)@.registered[id@].root && cache@ == old(self)@.registered[id@].cache),
            !old(self)@.registered.contains_key(id@) ==> final(self)@ == old(self)@
                && step == DeletePackStep::Failed(AssetLibraryError::NotFound(*id)),
    {
        proof {
            self.lemma_wf();
            old(self)@.lemma_unload_consistent(id@);
        }
        match self.loaded_packs.remove(id) {
            Some(pack) => {
                let manifest = pack.manifest_path();
                DeletePackStep::RemoveFiles { manifest, meta_dir: pack.meta_dir }
            },
            None => match self.registered_packs.get(id) {
                Some(e) => DeletePackStep::LoadManifest { root: e.root.clone(), cache: e.cache.clone() },
                None => DeletePackStep::Failed(AssetLibraryError::NotFound(id.clone())),
            },
        }
    }

    /// Continues deleting the pack `id` with the outcome of loading its manifest: the pack is
    /// loaded (as [`AssetLibrary::load_pack`] does) and then unloaded, and its files are to be
    /// removed. A failure to load ends the deletion with the library unchanged.
    pub fn resume_delete_pack(&mut self, id: &String, loaded: Result<AssetPack, AssetPackError>) -> (step: DeletePackStep)
        requires
            old(self).wf(),
        ensures
            final(self).wf(),
            !old(self)@.registered.contains_key(id@) ==> final(self)@ == old(self)@
                && step == DeletePackStep::Failed(AssetLibraryError::NotFound(*id)),
            old(self)@.registered.contains_key(id@) ==> match loaded {
                Ok(p) => final(self)@ == old(self)@.unload(id@) && remove_files_step(step, p@),
                Err(e) => final(self)@ == old(self)@
                    && step == DeletePackStep::Failed(AssetLibraryError::OpenAssetPack(e)),
            },
    {
        let ghost p0 = loaded;
        match self.load_pack(id, loaded) {
            Err(e) => DeletePackStep::Failed(e),
            Ok(()) => {
                let step = self.begin_delete_pack(id);
                proof {
                    let p = p0->Ok_0;
                    assert(self@.loaded =~= old(self)@.loaded.insert(id@, p@).remove(id@));
                    assert(old(self)@.loaded.insert(id@, p@).remove(id@) =~= old(self)@.loaded.remove(id@));
                }
                step
            },
        }
    }

    /// Ends deleting the pack `id` with the outcome of removing its files: on success the pack
    /// is unregistered; a failure is returned and leaves the pack registered (but unloaded).
    pub fn finish_delete_pack(&mut self, id: &String, removed: Result<(), AssetPackError>) -> (r: Result<(), AssetLibraryError>)
        requires
            old(self).wf(),
        ensures
            final(self).wf(),
            match removed {
                Ok(()) => r is Ok && final(self)@ == old(self)@.unregister(id@),
                Err(e) => r == Err::<(), AssetLibraryError>(AssetLibraryError::OpenAssetPack(e)) && final(self)@ == old(self)@,
            },
    {
        match removed {
            Ok(()) => {
                let _ = self.loaded_packs.remove(id);
                let _ = self.registered_packs.remove(id);
                proof {
                    old(self)@.lemma_unload_consistent(id@);
                    assert(self@ == old(self)@.unregister(id@));
                }
                Ok(())
            },
            Err(e) => Err(AssetLibraryError::OpenAssetPack(e)),
        }
    }
}

impl Default for AssetLibrary {
    fn default() -> (l: AssetLibrary)
        ensures
            l.wf(),
            l@ == LibraryView::empty(),
    {
        AssetLibrary::new()
    }
}

/// The first path found, in the order given.
pub open spec fn first_found(found: Seq<Option<Seq<char>>>) -> Option<Seq<char>>
    decreases found.len(),
{
    if found.len() == 0 {
        None
    } else {
        match found.first() {
            Some(p) => Some(p),
            None => first_found(found.drop_first()),
        }
    }
}

/// The path an asset id resolves to in the library, given what each loaded pack resolves it
/// to, in the order the packs were loaded: the first pack that knows the id wins; `None`
/// when no loaded pack knows it.
pub fn first_resolved(found: Vec<Option<String>>) -> (r: Option<String>)
    ensures
        r.deep_view() == first_found(found@.map_values(|f: Option<String>| f.deep_view())),
{
    let ghost all = found@.map_values(|f: Option<String>| f.deep_view());
    let mut rest = found;
    let ghost mut done: int = 0;
    while rest.len() > 0
        invariant
            0 <= done <= all.len(),
            all == found@.map_values(|f: Option<String>| f.deep_view()),
            rest@.map_values(|f: Option<String>| f.deep_view()) == all.skip(done),
            first_found(all) == first_found(all.skip(done)),
        decreases rest.len(),
    {
        let ghost before = rest@.map_values(|f: Option<String>| f.deep_view());
        let f = rest.remove(0);
        proof {
            assert(before.len() > 0);
            assert(before.first() == f.deep_view());
            assert(before.drop_first() =~= rest@.map_values(|f: Option<String>| f.deep_view()));
            assert(all.skip(done).drop_first() =~= all.skip(done + 1));
        }
        match f {
            Some(p) => {
                return Some(p);
            },
            None => {},
        }
        proof {
            done = done + 1;
        }
    }
    proof {
        assert(all.skip(done).len() == 0);
    }
    None
}

} // verus!
