//! An asset pack is a single root folder that contains assets and subfolders.
//!
//! This module holds the pack's bookkeeping: its identity, where its metadata lives, and its
//! manifest. Creating folders, reading and writing the manifest file and indexing are left to
//! the caller, which hands the results in.
use vstd::prelude::*;
use crate::hashing::{content_id, hash_path};
use crate::indexing::AssetPackIndexError;
use crate::paths::{join_path, file_name, joined_path, path_file_name};
use crate::scripting::{compile_outcome, scripting, script_text, Scripts, DEFAULT_FILTER_SCRIPT, DEFAULT_INDEX_SCRIPT};

verus! {

/// Describes the current state of an [`AssetPack`].
#[derive(Debug, Clone, PartialEq, Eq)]
pub enum AssetPackState {
    /// The asset pack was just created; it has not been validated yet.
    Created,
    /// The asset pack is currently (re)indexing its contents.
    Indexing,
    /// Something went wrong during processing, leaving this pack in an invalid state.
    Invalid(String),
    /// The pack is ready to use.
    Ready,
}

/// The abstract form of an [`AssetPackState`].
pub enum AssetPackStateView {
    Created,
    Indexing,
    Invalid(Seq<char>),
    Ready,
}

impl View for AssetPackState {
    type V = AssetPackStateView;

    open spec fn view(&self) -> AssetPackStateView {
        match self {
            AssetPackState::Created => AssetPackStateView::Created,
            AssetPackState::Indexing => AssetPackStateView::Indexing,
            AssetPackState::Invalid(m) => AssetPackStateView::Invalid(m@),
            AssetPackState::Ready => AssetPackStateView::Ready,
        }
    }
}

impl Default for AssetPackState {
    fn default() -> (s: Self)
        ensures
            s@ == AssetPackStateView::Created,
    {
        AssetPackState::Created
    }
}

/// The errors that can occur when working with [`AssetPack`]s.
#[derive(Debug, Clone, PartialEq, Eq)]
pub enum AssetPackError {
    /// Creating, opening or removing the manifest or the pack's folders failed.
    ManifestFile(String),
    /// (De)serialising the manifest failed.
    Serialisation(String),
    /// The pack's index could not be created, opened or written.
    Indexing(String),
    /// Thumbnail generation or resolution failed.
    Thumbnails(String),
}

/// A single root folder with assets, as the library keeps track of it.
#[derive(Debug)]
pub struct AssetPack {
    /// The state the pack is currently in.
    pub state: AssetPackState,
    /// The identifier of this pack: the hash of its (canonical) root path.
    pub id: String,
    /// The human-readable name of this pack; not necessarily unique.
    pub name: String,
    /// The (canonical) root directory under which the assets live.
    pub root: String,
    /// The directory in which index, thumbnails and other metadata of the pack are kept.
    pub meta_dir: String,
    /// A custom filter script; `None` selects the built-in one.
    pub filter_script: Option<String>,
    /// A custom index script; `None` selects the built-in one.
    pub index_script: Option<String>,
}

/// The abstract form of an [`AssetPack`].
pub struct AssetPackView {
    pub state: AssetPackStateView,
    pub id: Seq<char>,
    pub name: Seq<char>,
    pub root: Seq<char>,
    pub meta_dir: Seq<char>,
    pub filter_script: Option<Seq<char>>,
    pub index_script: Option<Seq<char>>,
}

impl View for AssetPack {
    type V = AssetPackView;

    open spec fn view(&self) -> AssetPackView {
        AssetPackView {
            state: self.state@,
            id: self.id@,
            name: self.name@,
            root: self.root@,
            meta_dir: self.meta_dir@,
            filter_script: self.filter_script.deep_view(),
            index_script: self.index_script.deep_view(),
        }
    }
}

/// The part of an [`AssetPack`] that is saved in its manifest file.
#[derive(Debug, Clone)]
pub struct AssetPackManifest {
    pub id: String,
    pub name: String,
    pub filter_script: Option<String>,
    pub index_script: Option<String>,
}

/// The abstract form of an [`AssetPackManifest`].
pub struct AssetPackManifestView {
    pub id: Seq<char>,
    pub name: Seq<char>,
    pub filter_script: Option<Seq<char>>,
    pub index_script: Option<Seq<char>>,
}

impl View for AssetPackManifest {
    type V = AssetPackManifestView;

    open spec fn view(&self) -> AssetPackManifestView {
        AssetPackManifestView {
            id: self.id@,
            name: self.name@,
            filter_script: self.filter_script.deep_view(),
            index_script: self.index_script.deep_view(),
        }
    }
}

/// The name a new pack gets: the given one, else the root folder's name, else its id.
pub open spec fn default_pack_name(name: Option<Seq<char>>, root: Seq<char>) -> Seq<char> {
    match name {
        Some(n) => n,
        None => match path_file_name(root) {
            Some(f) => f,
            None => content_id(root),
        },
    }
}

/// The pack that [`AssetPack::new`] creates for `root` with metadata under `meta_dir`.
pub open spec fn new_pack(root: Seq<char>, meta_dir: Seq<char>, name: Option<Seq<char>>) -> AssetPackView {
    AssetPackView {
        state: AssetPackStateView::Created,
        id: content_id(root),
        name: default_pack_name(name, root),
        root: root,
        meta_dir: joined_path(meta_dir, content_id(root)),
        filter_script: None,
        index_script: None,
    }
}

/// The manifest that is saved for `pack`.
pub open spec fn manifest_of(pack: AssetPackView) -> AssetPackManifestView {
    AssetPackManifestView {
        id: pack.id,
        name: pack.name,
        filter_script: pack.filter_script,
        index_script: pack.index_script,
    }
}

/// The pack that a manifest describes, for a pack rooted at `root` with metadata under
/// `meta_dir`.
pub open spec fn pack_from_manifest(
    root: Seq<char>,
    meta_dir: Seq<char>,
    manifest: AssetPackManifestView,
) -> AssetPackView {
    AssetPackView {
        state: AssetPackStateView::Created,
        id: manifest.id,
        name: manifest.name,
        root: root,
        meta_dir: joined_path(meta_dir, manifest.id),
        filter_script: manifest.filter_script,
        index_script: manifest.index_script,
    }
}

impl AssetPack {
    /// Creates the [`AssetPack`] for the canonical directory `root`, in the
    /// [`AssetPackState::Created`] state, with its metadata in a folder named by its id under
    /// `meta_dir`.
    ///
    /// The id is the hash of `root`. The name is `name`, else the root folder's name, else the
    /// id. The caller creates [`AssetPack::index_dir`] and [`AssetPack::thumbnails_dir`] and
    /// the index before using the pack.
    pub fn new(root: &str, meta_dir: &str, name: Option<String>) -> (pack: AssetPack)
        ensures
            pack@ == new_pack(root@, meta_dir@, name.deep_view()),
    {
        let id = hash_path(root);
        let meta_dir = join_path(meta_dir, id.as_str());
        let name = match name {
            Some(n) => n,
            None => match file_name(root) {
                Some(f) => f,
                None => id.clone(),
            },
        };
        AssetPack {
            state: AssetPackState::Created,
            id,
            name,
            root: root.to_owned(),
            meta_dir,
            filter_script: None,
            index_script: None,
        }
    }

    /// The manifest file of the pack rooted at `root`.
    pub fn manifest_file(root: &str) -> (p: String)
        ensures
            p@ == joined_path(root@, "asset_pack.toml"@),
    {
        join_path(root, "asset_pack.toml")
    }

    /// The manifest file of this pack, inside its root folder.
    pub fn manifest_path(&self) -> (p: String)
        ensures
            p@ == joined_path(self.root@, "asset_pack.toml"@),
    {
        AssetPack::manifest_file(self.root.as_str())
    }

    /// The folder that holds this pack's search index.
    pub fn index_dir(&self) -> (p: String)
        ensures
            p@ == joined_path(self.meta_dir@, "index"@),
    {
        join_path(self.meta_dir.as_str(), "index")
    }

    /// The folder that holds this pack's thumbnails.
    pub fn thumbnails_dir(&self) -> (p: String)
        ensures
            p@ == joined_path(self.meta_dir@, "thumbnails"@),
    {
        join_path(self.meta_dir.as_str(), "thumbnails")
    }

    /// The custom filter script, if one is set.
    pub fn filter_script(&self) -> (s: Option<&String>)
        ensures
            s.deep_view() == self.filter_script.deep_view(),
    {
        self.filter_script.as_ref()
    }

    /// The custom index script, if one is set.
    pub fn index_script(&self) -> (s: Option<&String>)
        ensures
            s.deep_view() == self.index_script.deep_view(),
    {
        self.index_script.as_ref()
    }

    /// Compiles the scripts this pack is indexed with: its own filter and index scripts where
    /// it has them, the built-in ones otherwise (see [`scripting`]).
    pub fn scripts(&self) -> (r: Result<Scripts, AssetPackIndexError>)
        ensures
            compile_outcome(
                r,
                script_text(self.filter_script.deep_view(), DEFAULT_FILTER_SCRIPT@),
                script_text(self.index_script.deep_view(), DEFAULT_INDEX_SCRIPT@),
            ),
    {
        scripting(self.filter_script(), self.index_script())
    }

    /// The manifest that is saved for this pack.
    pub fn to_manifest(&self) -> (m: AssetPackManifest)
        ensures
            m@ == manifest_of(self@),
            m.id@ == self.id@,
            m.name@ == self.name@,
            m.filter_script.deep_view() == self.filter_script.deep_view(),
            m.index_script.deep_view() == self.index_script.deep_view(),
    {
        AssetPackManifest {
            id: self.id.clone(),
            name: self.name.clone(),
            filter_script: self.filter_script.clone(),
            index_script: self.index_script.clone(),
        }
    }

    /// Builds the pack rooted at `root` from the outcome of reading and parsing its manifest.
    /// The pack is in [`AssetPackState::Created`]; its metadata lives in a folder named by the
    /// manifest's id under `meta_dir`. A failed read or parse is returned as it is.
    pub fn load_manifest(
        root: &str,
        meta_dir: &str,
        manifest: Result<AssetPackManifest, AssetPackError>,
    ) -> (r: Result<AssetPack, AssetPackError>)
        ensures
            match manifest {
                Ok(m) => r is Ok && r->Ok_0@ == pack_from_manifest(root@, meta_dir@, m@)
                    && r->Ok_0.id@ == m.id@ && r->Ok_0.name@ == m.name@ && r->Ok_0.root@ == root@
                    && r->Ok_0.filter_script.deep_view() == m.filter_script.deep_view()
                    && r->Ok_0.index_script.deep_view() == m.index_script.deep_view(),
                Err(e) => r == Err::<AssetPack, AssetPackError>(e),
            },
    {
        match manifest {
            Ok(m) => {
                let meta_dir = join_path(meta_dir, m.id.as_str());
                Ok(AssetPack {
                    state: AssetPackState::Created,
                    id: m.id,
                    name: m.name,
                    root: root.to_owned(),
                    meta_dir,
                    filter_script: m.filter_script,
                    index_script: m.index_script,
                })
            },
            Err(e) => Err(e),
        }
    }
}

/// Saving the manifest of a new pack and loading it back from the same root and metadata
/// folder gives back the same pack.
pub proof fn lemma_manifest_round_trip(root: Seq<char>, meta_dir: Seq<char>, name: Option<Seq<char>>)
    ensures
        pack_from_manifest(root, meta_dir, manifest_of(new_pack(root, meta_dir, name)))
            == new_pack(root, meta_dir, name),
{
}

/// The manifest saved for a pack holds the pack's id, name, filter script and index script
/// unchanged.
pub proof fn lemma_manifest_keeps_pack(pack: AssetPackView)
    ensures
        manifest_of(pack).id == pack.id,
        manifest_of(pack).name == pack.name,
        manifest_of(pack).filter_script == pack.filter_script,
        manifest_of(pack).index_script == pack.index_script,
{
}

/// A pack loaded from a manifest is the pack the manifest names, rooted where it was loaded
/// from, and keeps the manifest's filter and index scripts.
pub proof fn lemma_loaded_pack_keeps_manifest(root: Seq<char>, meta_dir: Seq<char>, manifest: AssetPackManifestView)
    ensures
        pack_from_manifest(root, meta_dir, manifest).id == manifest.id,
        pack_from_manifest(root, meta_dir, manifest).name == manifest.name,
        pack_from_manifest(root, meta_dir, manifest).root == root,
        pack_from_manifest(root, meta_dir, manifest).filter_script == manifest.filter_script,
        pack_from_manifest(root, meta_dir, manifest).index_script == manifest.index_script,
{
}

/// Saving any pack's manifest and loading it back from the pack's root gives back the pack's
/// id, name and scripts; when the pack's metadata folder is the one named by its id under
/// `meta_dir` and the pack is freshly created, it gives back the pack itself.
pub proof fn lemma_any_manifest_round_trip(pack: AssetPackView, meta_dir: Seq<char>)
    ensures
        pack_from_manifest(pack.root, meta_dir, manifest_of(pack)).id == pack.id,
        pack_from_manifest(pack.root, meta_dir, manifest_of(pack)).name == pack.name,
        pack_from_manifest(pack.root, meta_dir, manifest_of(pack)).filter_script == pack.filter_script,
        pack_from_manifest(pack.root, meta_dir, manifest_of(pack)).index_script == pack.index_script,
        pack.meta_dir == joined_path(meta_dir, pack.id) && pack.state == AssetPackStateView::Created
            ==> pack_from_manifest(pack.root, meta_dir, manifest_of(pack)) == pack,
{
}

/// A pack's id depends on its root path alone: two packs created for the same root have the
/// same id, whatever their metadata folders and names.
pub proof fn lemma_pack_id_stable(
    root: Seq<char>,
    meta_a: Seq<char>,
    name_a: Option<Seq<char>>,
    meta_b: Seq<char>,
    name_b: Option<Seq<char>>,
)
    ensures
        new_pack(root, meta_a, name_a).id == new_pack(root, meta_b, name_b).id,
{
}

} // verus!
