//! The `assets` subcommand.
use vstd::prelude::*;
use crate::indexing::{AssetPackIndexCompletedEvent, AssetPackIndexProgressEvent};
use crate::library::{AssetLibrary, AssetLibraryError, DeletePackStep, remove_files_step};
use crate::pack::AssetPackError;
use crate::str_map::StrMap;

verus! {

/// Manage the asset library and its packs.
#[derive(Debug)]
pub struct Args {
    /// The folder of the library to use; the default library when not given.
    pub library: Option<String>,
    /// The asset command.
    pub command: Commands,
}

/// All commands available for assets.
#[derive(Debug)]
pub enum Commands {
    /// Add an asset pack to the asset library.
    Add {
        /// Do not index the pack after adding it.
        no_index: bool,
        /// Do not generate thumbnails while indexing.
        no_thumbnail: bool,
        /// The folder to add as an asset pack.
        path: String,
        /// An optional name for the pack.
        name: Option<String>,
    },
    /// Remove an asset pack from the library.
    Remove {
        /// The id of the pack to remove.
        id: String,
    },
    /// List all asset packs.
    List,
    /// Clean up the asset library.
    CleanUp,
    /// Re-index one asset pack, or all of them.
    Index {
        /// The id of the pack to index; all packs when not given.
        pack: Option<String>,
        /// Generate thumbnails while indexing.
        thumbnails: bool,
    },
    /// Query the asset library.
    Query {
        /// The query to run.
        query: String,
        /// The maximum number of results.
        max_amount: usize,
    },
}

/// Why an asset command failed, with the step that failed.
#[derive(Debug)]
pub enum CommandError {
    /// The asset library could not be loaded.
    LoadLibrary(AssetLibraryError),
    /// The asset library could not be deleted.
    DeleteLibrary(AssetLibraryError),
    /// The asset pack could not be added to the library.
    AddPack(AssetLibraryError),
    /// The asset library could not be saved.
    SaveLibrary(AssetLibraryError),
    /// The asset pack could not be deleted.
    DeletePack(AssetLibraryError),
    /// The pack with the given id could not be loaded.
    GetPack(String, AssetLibraryError),
    /// The asset packs could not be loaded.
    LoadPacks(AssetLibraryError),
    /// Indexing the one pack asked for failed.
    Index(AssetPackError),
    /// Indexing all loaded packs failed.
    IndexPacks(AssetLibraryError),
    /// A query asked for no results at all.
    ZeroMaxAmount,
}

/// The message of a failed asset command.
pub open spec fn command_message(e: CommandError) -> Seq<char> {
    match e {
        CommandError::LoadLibrary(_) => "Failed to load asset library"@,
        CommandError::DeleteLibrary(_) => "Failed to delete asset library"@,
        CommandError::AddPack(_) => "Failed to add asset pack to asset library"@,
        CommandError::SaveLibrary(_) => "Failed to save asset library"@,
        CommandError::DeletePack(_) => "Failed to delete asset pack"@,
        CommandError::GetPack(id, _) => "Failed to get pack with id '"@ + id@ + "'"@,
        CommandError::LoadPacks(_) => "Failed to load asset packs"@,
        CommandError::Index(_) => "An error occurred while indexing the asset pack"@,
        CommandError::IndexPacks(_) => "Failed to index asset packs"@,
        CommandError::ZeroMaxAmount => "The maximum amount of entries returned cannot be 0"@,
    }
}

impl CommandError {
    /// The message shown for this error.
    pub fn message(&self) -> (s: String)
        ensures
            s@ == command_message(*self),
    {
        match self {
            CommandError::LoadLibrary(_) => "Failed to load asset library".to_owned(),
            CommandError::DeleteLibrary(_) => "Failed to delete asset library".to_owned(),
            CommandError::AddPack(_) => "Failed to add asset pack to asset library".to_owned(),
            CommandError::SaveLibrary(_) => "Failed to save asset library".to_owned(),
            CommandError::DeletePack(_) => "Failed to delete asset pack".to_owned(),
            CommandError::GetPack(id, _) => {
                let mut s = "Failed to get pack with id '".to_owned();
                s.append(id.as_str());
                s.append("'");
                s
            },
            CommandError::LoadPacks(_) => "Failed to load asset packs".to_owned(),
            CommandError::Index(_) => "An error occurred while indexing the asset pack".to_owned(),
            CommandError::IndexPacks(_) => "Failed to index asset packs".to_owned(),
            CommandError::ZeroMaxAmount => "The maximum amount of entries returned cannot be 0".to_owned(),
        }
    }
}

/// Starts removing the pack `id` with the outcome of loading the library: a library that
/// could not be loaded fails the command; otherwise the deletion of the pack starts (see
/// [`AssetLibrary::begin_delete_pack`]). Once the deletion ends well (see [`remove_outcome`]),
/// the caller saves the library, so that its file no longer lists the pack.
pub fn execute_remove(library: Result<AssetLibrary, AssetLibraryError>, id: &String) -> (r: Result<(AssetLibrary, DeletePackStep), CommandError>)
    requires
        library matches Ok(l) ==> l.wf(),
    ensures
        match library {
            Err(e) => r matches Err(CommandError::LoadLibrary(e2)) && e2 == e,
            Ok(l) => r matches Ok((l2, step)) && l2.wf() && {
                if l@.loaded.contains_key(id@) {
                    l2@ == l@.unload(id@) && remove_files_step(step, l@.loaded[id@])
                } else if l@.registered.contains_key(id@) {
                    l2@ == l@ && (step matches DeletePackStep::LoadManifest { root, cache }
                        && root@ == l@.registered[id@].root && cache@ == l@.registered[id@].cache)
                } else {
                    l2@ == l@ && step == DeletePackStep::Failed(AssetLibraryError::NotFound(*id))
                }
            },
        },
{
    match library {
        Err(e) => Err(CommandError::LoadLibrary(e)),
        Ok(mut l) => {
            let step = l.begin_delete_pack(id);
            Ok((l, step))
        },
    }
}

/// The outcome of the remove command once the deletion of the pack ended; on success the
/// library is to be saved next.
pub fn remove_outcome(deleted: Result<(), AssetLibraryError>) -> (r: Result<(), CommandError>)
    ensures
        match deleted {
            Ok(()) => r is Ok,
            Err(e) => r matches Err(CommandError::DeletePack(e2)) && e2 == e,
        },
{
    match deleted {
        Ok(()) => Ok(()),
        Err(e) => Err(CommandError::DeletePack(e)),
    }
}

/// A query must ask for at least one result.
pub fn check_max_amount(max_amount: usize) -> (r: Result<(), CommandError>)
    ensures
        max_amount == 0 <==> r matches Err(CommandError::ZeroMaxAmount),
        max_amount != 0 <==> r is Ok,
{
    if max_amount == 0 {
        Err(CommandError::ZeroMaxAmount)
    } else {
        Ok(())
    }
}

/// The message after adding a pack: its name (or, without one, the path it was added from)
/// and its id.
pub fn added_message(name: &Option<String>, path: &str, id: &str) -> (s: String)
    ensures
        s@ == "Added "@ + match name {
            Some(n) => n@,
            None => path@,
        } + " as '"@ + id@ + "' to library"@,
{
    let mut s = "Added ".to_owned();
    match name {
        Some(n) => s.append(n.as_str()),
        None => s.append(path),
    }
    s.append(" as '");
    s.append(id);
    s.append("' to library");
    s
}

/// The state of the progress bar of one pack being indexed.
#[derive(Debug, Clone, Copy, PartialEq, Eq, Structural)]
pub struct ProgressBar {
    /// The number of entries to process.
    pub length: u64,
    /// The number of entries processed.
    pub position: u64,
    /// Whether the pack's indexing completed.
    pub finished: bool,
}

impl View for ProgressBar {
    type V = ProgressBar;

    open spec fn view(&self) -> ProgressBar {
        *self
    }
}

/// The progress bars of an indexing command, one per registered pack.
#[derive(Debug)]
pub struct ProgressTracker {
    bars: StrMap<ProgressBar>,
}

impl ProgressTracker {
    /// The bars, by pack id.
    pub closed spec fn bars(&self) -> Map<Seq<char>, ProgressBar> {
        self.bars@
    }

    /// Each pack has at most one bar.
    pub closed spec fn wf(&self) -> bool {
        self.bars.wf()
    }

    /// One empty, unfinished bar for each id in `ids`.
    pub fn new(ids: &Vec<String>) -> (t: ProgressTracker)
        ensures
            t.wf(),
            forall|k: Seq<char>| #[trigger] t.bars().contains_key(k) <==> ids@.map_values(|s: String| s@).contains(k),
            forall|k: Seq<char>| #[trigger] t.bars().contains_key(k) ==> t.bars()[k] == (ProgressBar { length: 0, position: 0, finished: false }),
    {
        let mut bars: StrMap<ProgressBar> = StrMap::new();
        let mut i: usize = 0;
        while i < ids.len()
            invariant
                i <= ids.len(),
                bars.wf(),
                forall|k: Seq<char>| #[trigger] bars@.contains_key(k) <==> ids@.map_values(|s: String| s@).take(i as int).contains(k),
                forall|k: Seq<char>| #[trigger] bars@.contains_key(k) ==> bars@[k] == (ProgressBar { length: 0, position: 0, finished: false }),
            decreases ids.len() - i,
        {
            bars.insert(ids[i].clone(), ProgressBar { length: 0, position: 0, finished: false });
            proof {
                let all = ids@.map_values(|s: String| s@);
                let t1 = all.take(i + 1);
                let t0 = all.take(i as int);
                assert(t1 =~= t0.push(ids[i as int]@));
                assert forall|k: Seq<char>| #[trigger] bars@.contains_key(k) <==> t1.contains(k) by {
                    if t1.contains(k) && k != ids[i as int]@ {
                        let j = choose|j: int| 0 <= j < t1.len() && #[trigger] t1[j] == k;
                        assert(t0[j] == k);
                    }
                    if t0.contains(k) {
                        let j = choose|j: int| 0 <= j < t0.len() && #[trigger] t0[j] == k;
                        assert(t1[j] == k);
                    }
                    if k == ids[i as int]@ {
                        assert(t1[i as int] == k);
                    }
                }
            }
            i += 1;
        }
        proof {
            assert(ids@.map_values(|s: String| s@).take(i as int) =~= ids@.map_values(|s: String| s@));
        }
        ProgressTracker { bars }
    }

    /// Whether the pack `id` has a bar.
    pub fn tracks(&self, id: &String) -> (b: bool)
        requires
            self.wf(),
        ensures
            b == self.bars().contains_key(id@),
    {
        self.bars.contains_key(id)
    }

    /// The bar of the pack `id`.
    pub fn bar(&self, id: &String) -> (b: Option<ProgressBar>)
        requires
            self.wf(),
        ensures
            match b {
                Some(x) => self.bars().contains_key(id@) && x == self.bars()[id@],
                None => !self.bars().contains_key(id@),
            },
    {
        match self.bars.get(id) {
            Some(b) => Some(*b),
            None => None,
        }
    }

    /// Shows the progress `event` reports: the bar of its pack gets the event's total as its
    /// length and the event's count as its position.
    pub fn on_progress(&mut self, event: &AssetPackIndexProgressEvent)
        requires
            old(self).wf(),
            old(self).bars().contains_key(event.id@),
        ensures
            final(self).wf(),
            final(self).bars() == old(self).bars().insert(event.id@, ProgressBar {
                length: event.total as u64,
                position: event.current as u64,
                finished: old(self).bars()[event.id@].finished,
            }),
    {
        let old_bar = match self.bars.get(&event.id) {
            Some(b) => *b,
            None => ProgressBar { length: 0, position: 0, finished: false },
        };
        self.bars.insert(event.id.clone(), ProgressBar {
            length: event.total as u64,
            position: event.current as u64,
            finished: old_bar.finished,
        });
    }

    /// Finishes the bar of the pack that `event` reports as indexed. Tracking stops at the
    /// first completion.
    pub fn on_completed(&mut self, event: &AssetPackIndexCompletedEvent)
        requires
            old(self).wf(),
            old(self).bars().contains_key(event.id@),
        ensures
            final(self).wf(),
            final(self).bars() == old(self).bars().insert(event.id@, ProgressBar {
                finished: true,
                ..old(self).bars()[event.id@]
            }),
    {
        let old_bar = match self.bars.get(&event.id) {
            Some(b) => *b,
            None => ProgressBar { length: 0, position: 0, finished: false },
        };
        self.bars.insert(event.id.clone(), ProgressBar { finished: true, ..old_bar });
    }
}

} // verus!
