//! The decisions taken while an asset pack is indexed, and how search results are shown.
//!
//! Walking the pack's folder, running the filter and index scripts and writing the search
//! index are left to the caller; the functions here count progress and decide, entry by
//! entry, what is skipped and what is indexed.
use vstd::prelude::*;

verus! {

/// Reports that indexing an asset pack progressed.
#[derive(Debug)]
pub struct AssetPackIndexProgressEvent {
    /// The id of the pack being indexed.
    pub id: String,
    /// The number of entries processed so far.
    pub current: usize,
    /// The number of entries to process.
    pub total: usize,
}

/// Reports that indexing an asset pack completed.
#[derive(Debug)]
pub struct AssetPackIndexCompletedEvent {
    /// The id of the pack that was indexed.
    pub id: String,
}

/// All errors that can occur while creating, opening or writing an asset pack's index.
#[derive(Debug, Clone, PartialEq, Eq)]
pub enum AssetPackIndexError {
    /// Creating the index in the given folder failed.
    CreateIndex(String, String),
    /// Opening the index in the given folder failed.
    OpenIndex(String, String),
    /// Writing the index failed while processing the given path.
    Index(String, String),
    /// The named script (`filter` or `index`) failed to compile.
    CompileScript(String, String),
    /// The named script (`filter` or `index`) failed to run.
    RunScript(String, String),
    /// Generating the thumbnail of the given path failed.
    Thumbnail(String, String),
}

/// The source of a script: the custom one when set, else the built-in `default`.
pub fn script_source<'a>(custom: Option<&'a String>, default: &'a str) -> (s: &'a str)
    ensures
        match custom {
            Some(c) => s@ == c@,
            None => s@ == default@,
        },
{
    match custom {
        Some(c) => c.as_str(),
        None => default,
    }
}

/// Counts the entries of one indexing run and reports its progress.
#[derive(Debug)]
pub struct IndexRun {
    /// The id of the pack being indexed.
    pub id: String,
    /// The entries processed so far.
    pub current: usize,
    /// The entries counted before the run started.
    pub total: usize,
}

impl IndexRun {
    /// A run over the `total` entries of the pack `id`, none processed yet.
    pub fn new(id: String, total: usize) -> (r: IndexRun)
        ensures
            r.id == id,
            r.current == 0,
            r.total == total,
    {
        IndexRun { id, current: 0, total }
    }

    /// Moves to the next entry and reports the progress made with it.
    pub fn next_entry(&mut self) -> (e: AssetPackIndexProgressEvent)
        requires
            old(self).current < usize::MAX,
        ensures
            final(self).id == old(self).id,
            final(self).total == old(self).total,
            final(self).current == old(self).current + 1,
            e.id@ == old(self).id@,
            e.current == final(self).current,
            e.total == old(self).total,
    {
        self.current = self.current + 1;
        AssetPackIndexProgressEvent { id: self.id.clone(), current: self.current, total: self.total }
    }

    /// Reports that the run completed.
    pub fn completed(&self) -> (e: AssetPackIndexCompletedEvent)
        ensures
            e.id@ == self.id@,
    {
        AssetPackIndexCompletedEvent { id: self.id.clone() }
    }
}

/// Why an entry of the pack's folder is not indexed.
#[derive(Debug, Clone, Copy, PartialEq, Eq, Structural)]
pub enum EntrySkip {
    /// The entry has no file name.
    InvalidName,
    /// The entry is the pack's manifest.
    Manifest,
    /// The filter script rejected the entry.
    Filtered,
    /// The entry is not a file.
    NotAFile,
    /// Thumbnails cannot be generated for the entry's format.
    Unsupported,
}

/// What to do with an entry once its name is known.
#[derive(Debug)]
pub enum NameCheck {
    /// Skip the entry.
    Skip(EntrySkip),
    /// Run the filter script on the entry's file name.
    Filter(String),
}

/// What to do with an entry once the filter script has run.
#[derive(Debug, Clone, Copy, PartialEq, Eq, Structural)]
pub enum EntryDecision {
    /// Skip the entry.
    Skip(EntrySkip),
    /// Run the index script on the entry and add it to the index.
    Index,
}

/// Decides on an entry by its file name: an entry without a name, and the manifest, are
/// skipped; any other entry goes to the filter script.
pub fn check_entry_name(file_name: Option<String>) -> (r: NameCheck)
    ensures
        match file_name {
            None => r == NameCheck::Skip(EntrySkip::InvalidName),
            Some(n) => if n@ == "asset_pack.toml"@ {
                r == NameCheck::Skip(EntrySkip::Manifest)
            } else {
                r == NameCheck::Filter(n)
            },
        },
{
    match file_name {
        None => NameCheck::Skip(EntrySkip::InvalidName),
        Some(n) => {
            let manifest = "asset_pack.toml".to_owned();
            if n == manifest {
                NameCheck::Skip(EntrySkip::Manifest)
            } else {
                NameCheck::Filter(n)
            }
        },
    }
}

/// The outcome of the filter script, its error taken as text.
pub open spec fn filter_outcome_view(filter: Result<bool, String>) -> Result<bool, Seq<char>> {
    match filter {
        Ok(b) => Ok(b),
        Err(e) => Err(e@),
    }
}

/// Whether `r` is the decision on an entry that passed the name check, given the filter
/// script's outcome `filter`, whether the entry is a file and whether its format supports
/// thumbnails: a failed script is a `filter` script error carrying its message; an entry the
/// script rejects is skipped as filtered; an accepted entry is skipped when it is no file or
/// its format is not supported, and indexed otherwise.
pub open spec fn decided(r: Result<EntryDecision, AssetPackIndexError>, filter: Result<bool, Seq<char>>, is_file: bool, supported: bool) -> bool {
    match filter {
        Err(m) => r matches Err(AssetPackIndexError::RunScript(name, msg)) && name@ == "filter"@ && msg@ == m,
        Ok(false) => r == Ok::<EntryDecision, AssetPackIndexError>(EntryDecision::Skip(EntrySkip::Filtered)),
        Ok(true) => if !is_file {
            r == Ok::<EntryDecision, AssetPackIndexError>(EntryDecision::Skip(EntrySkip::NotAFile))
        } else if !supported {
            r == Ok::<EntryDecision, AssetPackIndexError>(EntryDecision::Skip(EntrySkip::Unsupported))
        } else {
            r == Ok::<EntryDecision, AssetPackIndexError>(EntryDecision::Index)
        },
    }
}

/// Decides on an entry that passed the name check, given what the filter script returned,
/// whether the entry is a file and whether its format supports thumbnails. A failing filter
/// script ends the run with [`AssetPackIndexError::RunScript`].
pub fn decide_entry(filter: Result<bool, String>, is_file: bool, supported: bool) -> (r: Result<EntryDecision, AssetPackIndexError>)
    ensures
        decided(r, filter_outcome_view(filter), is_file, supported),
        match filter {
            Err(e) => r matches Err(AssetPackIndexError::RunScript(name, msg)) && name@ == "filter"@ && msg == e,
            Ok(false) => r == Ok::<EntryDecision, AssetPackIndexError>(EntryDecision::Skip(EntrySkip::Filtered)),
            Ok(true) => if !is_file {
                r == Ok::<EntryDecision, AssetPackIndexError>(EntryDecision::Skip(EntrySkip::NotAFile))
            } else if !supported {
                r == Ok::<EntryDecision, AssetPackIndexError>(EntryDecision::Skip(EntrySkip::Unsupported))
            } else {
                r == Ok::<EntryDecision, AssetPackIndexError>(EntryDecision::Index)
            },
        },
{
    match filter {
        Err(e) => Err(AssetPackIndexError::RunScript("filter".to_owned(), e)),
        Ok(false) => Ok(EntryDecision::Skip(EntrySkip::Filtered)),
        Ok(true) => if !is_file {
            Ok(EntryDecision::Skip(EntrySkip::NotAFile))
        } else if !supported {
            Ok(EntryDecision::Skip(EntrySkip::Unsupported))
        } else {
            Ok(EntryDecision::Index)
        },
    }
}

/// The text shown for a missing field.
pub open spec fn no_value() -> Seq<char> {
    "<no value>"@
}

/// The lines listing `categories`, one `- category` line each.
pub open spec fn category_lines(categories: Seq<Seq<char>>) -> Seq<char>
    decreases categories.len(),
{
    if categories.len() == 0 {
        Seq::empty()
    } else {
        category_lines(categories.drop_last()) + "- "@ + categories.last() + "\n"@
    }
}

/// How a search result is shown. The thumbnail line shows the result's path.
pub open spec fn search_result_text(name: Option<Seq<char>>, categories: Seq<Seq<char>>, path: Option<Seq<char>>) -> Seq<char> {
    let name = match name {
        Some(n) => n,
        None => no_value(),
    };
    let path = match path {
        Some(p) => p,
        None => no_value(),
    };
    "name: "@ + name + "\n"@ + "categories:\n"@ + category_lines(categories) + "path: "@ + path + "\n"@
        + "thumbnail: "@ + path + "\n"@
}

/// Shows a search result with the given name, categories and path.
pub fn render_search_result(name: Option<String>, categories: &Vec<String>, path: Option<String>) -> (s: String)
    ensures
        s@ == search_result_text(name.deep_view(), categories@.map_values(|c: String| c@), path.deep_view()),
{
    let ghost name_view = name.deep_view();
    let ghost path_view = path.deep_view();
    let name_text = match name {
        Some(n) => n,
        None => "<no value>".to_owned(),
    };
    let path_text = match path {
        Some(p) => p,
        None => "<no value>".to_owned(),
    };
    let mut s = "name: ".to_owned();
    s.append(name_text.as_str());
    s.append("\n");
    s.append("categories:\n");
    let ghost head = s@;
    let mut i: usize = 0;
    while i < categories.len()
        invariant
            i <= categories.len(),
            s@ == head + category_lines(categories@.map_values(|c: String| c@).take(i as int)),
        decreases categories.len() - i,
    {
        s.append("- ");
        s.append(categories[i].as_str());
        s.append("\n");
        proof {
            let cs = categories@.map_values(|c: String| c@);
            assert(cs.take(i + 1).drop_last() =~= cs.take(i as int));
            assert(cs.take(i + 1).last() == categories[i as int]@);
        }
        i += 1;
    }
    proof {
        assert(categories@.map_values(|c: String| c@).take(i as int) =~= categories@.map_values(|c: String| c@));
    }
    s.append("path: ");
    s.append(path_text.as_str());
    s.append("\n");
    s.append("thumbnail: ");
    s.append(path_text.as_str());
    s.append("\n");
    proof {
        assert(s@ =~= search_result_text(name_view, categories@.map_values(|c: String| c@), path_view));
    }
    s
}

/// One asset found by a search of a pack's index, with the fields stored for it.
#[derive(Debug, Clone)]
pub struct AssetPackSearchResult {
    name: Option<String>,
    categories: Vec<String>,
    path: Option<String>,
    thumbnail: Option<String>,
}

impl AssetPackSearchResult {
    /// A result with the given stored fields; a field that the document lacks is `None`.
    pub fn new(name: Option<String>, categories: Vec<String>, path: Option<String>, thumbnail: Option<String>) -> (r: AssetPackSearchResult)
        ensures
            r.name_spec() == name.deep_view(),
            r.categories_spec() == categories@.map_values(|c: String| c@),
            r.path_spec() == path.deep_view(),
            r.thumbnail_spec() == thumbnail.deep_view(),
    {
        AssetPackSearchResult { name, categories, path, thumbnail }
    }

    /// The stored name, if any.
    pub closed spec fn name_spec(&self) -> Option<Seq<char>> {
        self.name.deep_view()
    }

    /// The stored categories, in their order.
    pub closed spec fn categories_spec(&self) -> Seq<Seq<char>> {
        self.categories@.map_values(|c: String| c@)
    }

    /// The stored path, if any.
    pub closed spec fn path_spec(&self) -> Option<Seq<char>> {
        self.path.deep_view()
    }

    /// The stored thumbnail identifier, if any.
    pub closed spec fn thumbnail_spec(&self) -> Option<Seq<char>> {
        self.thumbnail.deep_view()
    }

    /// The name of the asset, if the result has one.
    pub fn name(&self) -> (n: Option<&str>)
        ensures
            match n {
                Some(s) => self.name_spec() == Some(s@),
                None => self.name_spec() is None,
            },
    {
        match &self.name {
            Some(s) => Some(s.as_str()),
            None => None,
        }
    }

    /// The categories of the asset; empty when none were stored.
    pub fn categories(&self) -> (c: Vec<String>)
        ensures
            c@.map_values(|s: String| s@) == self.categories_spec(),
    {
        let mut c: Vec<String> = Vec::new();
        let mut i: usize = 0;
        while i < self.categories.len()
            invariant
                i <= self.categories.len(),
                c@.map_values(|s: String| s@) == self.categories@.map_values(|s: String| s@).take(i as int),
            decreases self.categories.len() - i,
        {
            let ghost before = c@;
            c.push(self.categories[i].clone());
            proof {
                assert(c@.map_values(|s: String| s@) =~= before.map_values(|s: String| s@).push(self.categories@[i as int]@));
                assert(self.categories@.map_values(|s: String| s@).take(i + 1) =~= self.categories@.map_values(|s: String| s@).take(i as int).push(self.categories@[i as int]@));
            }
            i += 1;
        }
        proof {
            assert(self.categories@.map_values(|s: String| s@).take(i as int) =~= self.categories@.map_values(|s: String| s@));
        }
        c
    }

    /// The path of the asset, if the result has one.
    pub fn path(&self) -> (p: Option<String>)
        ensures
            p.deep_view() == self.path_spec(),
    {
        match &self.path {
            Some(s) => Some(s.clone()),
            None => None,
        }
    }

    /// The thumbnail identifier of the asset, if the result has one.
    pub fn thumbnail(&self) -> (t: Option<String>)
        ensures
            t.deep_view() == self.thumbnail_spec(),
    {
        match &self.thumbnail {
            Some(s) => Some(s.clone()),
            None => None,
        }
    }

    /// The result as text: its name, its categories one per line, its path, and on the
    /// thumbnail line the path once more.
    pub fn to_text(&self) -> (s: String)
        ensures
            s@ == search_result_text(self.name_spec(), self.categories_spec(), self.path_spec()),
    {
        let name = match self.name() {
            Some(n) => Some(n.to_owned()),
            None => None,
        };
        let categories = self.categories();
        render_search_result(name, &categories, self.path())
    }
}

/// The path an asset id resolves to within one pack, given the stored paths of the search
/// results for the id in rank order: the path of the best result, if there is a result and
/// it has a path. Later results are not consulted.
pub fn resolved_path(top_paths: Vec<Option<String>>) -> (r: Option<String>)
    ensures
        r.deep_view() == if top_paths.len() == 0 {
            None
        } else {
            top_paths@[0].deep_view()
        },
{
    let mut top_paths = top_paths;
    if top_paths.len() == 0 {
        None
    } else {
        top_paths.remove(0)
    }
}

} // verus!
