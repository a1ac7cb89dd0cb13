//! The Rhai scripts that filter and describe the entries of an asset pack.
//!
//! A pack may bring its own filter and index scripts; otherwise the built-in ones are used.
//! The filter script's `filter(file_name)` tells whether an entry is indexed at all; the
//! index script's `index(file_name, components)` returns an `index_entry(name, categories,
//! thumbnail)` that describes it.
use vstd::prelude::*;
use crate::hashing::hash_string;
use crate::indexing::{
    check_entry_name, decide_entry, decided, filter_outcome_view, AssetPackIndexCompletedEvent, AssetPackIndexError, AssetPackIndexProgressEvent, EntryDecision, EntrySkip, IndexRun,
    NameCheck,
};
use crate::paths::{path_component_names, path_components};

verus! {

#[verifier::external_type_specification]
#[verifier::external_body]
pub struct ExEngine(rhai::Engine);

#[verifier::external_type_specification]
#[verifier::external_body]
pub struct ExAst(rhai::AST);

/// The filter script used when a pack brings none, kept minimal: every entry is indexed.
pub const DEFAULT_FILTER_SCRIPT: &'static str = "fn filter(name) { true }";

/// The index script used when a pack brings none, kept minimal: an entry is named by its file
/// name, filed under the components of the pack's root and given the hash of its name as
/// thumbnail.
pub const DEFAULT_INDEX_SCRIPT: &'static str = "fn index(name, components) { index_entry(name, components, hash(name)) }";

/// Calls `rhai::Engine::new`. Nothing is claimed of the engine, which Verus cannot see into.
#[verifier::external_body]
fn new_engine() -> rhai::Engine {
    rhai::Engine::new()
}

/// The number of operations a script call may take before Rhai stops it with an error.
pub const MAX_SCRIPT_OPERATIONS: u64 = 1_000_000;

/// Calls `rhai::Engine::set_max_operations`, so that a script call that takes more than
/// `operations` operations ends in an error instead of running on.
#[verifier::external_body]
fn limit_operations(engine: &mut rhai::Engine, operations: u64) {
    engine.set_max_operations(operations);
}

/// Calls `rhai::Engine::register_type_with_name` so that scripts see what `index_entry`
/// makes as the type `IndexEntry`.
#[verifier::external_body]
fn name_entry_type(engine: &mut rhai::Engine) {
    engine.register_type_with_name::<(rhai::ImmutableString, rhai::Array, rhai::ImmutableString)>("IndexEntry");
}

/// Calls `rhai::Engine::register_fn` to make two functions available to scripts:
/// `hash(value)`, which calls [`hash_string`], and `index_entry(name, categories, thumbnail)`,
/// which keeps its three arguments together.
#[verifier::external_body]
fn register_functions(engine: &mut rhai::Engine) {
    engine.register_fn("hash", |value: &mut rhai::ImmutableString| -> rhai::ImmutableString {
        hash_string(value.as_str()).into()
    });
    engine.register_fn(
        "index_entry",
        |name: rhai::ImmutableString, categories: rhai::Array, thumbnail: rhai::ImmutableString| {
            (name, categories, thumbnail)
        },
    );
}

/// The message of the parse error that Rhai reports for the script `source`, or `None`
/// where `source` compiles.
pub uninterp spec fn rhai_parse_error(source: Seq<char>) -> Option<Seq<char>>;

/// A compiled script, kept together with the text it was compiled from.
pub struct CompiledScript {
    /// The compiled script.
    pub ast: rhai::AST,
    /// The script's text.
    pub source: String,
}

/// Calls `rhai::Engine::compile` on `source`, on an engine made by `rhai::Engine::new_raw`
/// for the purpose; a parse error is returned as its message, a compiled script together
/// with a copy of `source`.
///
/// Claimed of it: whether `source` compiles, and the message where it does not, are the ones
/// named by [`rhai_parse_error`]. In the crate's source, compiling lexes and parses the text
/// under the engine's parser options (custom syntax, disabled symbols, depth limits), which a
/// fresh engine holds at their defaults, so the outcome is a function of the source alone.
/// Nothing is claimed of the compiled script, which Verus cannot see into; it runs on any
/// engine.
#[verifier::external_body]
fn compile(source: &str) -> (r: Result<CompiledScript, String>)
    ensures
        match r {
            Ok(c) => rhai_parse_error(source@) is None && c.source@ == source@,
            Err(message) => rhai_parse_error(source@) == Some(message@),
        },
{
    rhai::Engine::new_raw()
        .compile(source)
        .map(|ast| CompiledScript { ast, source: source.to_string() })
        .map_err(|error| error.to_string())
}

/// Calls `rhai::Engine::optimize_ast` at the full optimisation level, with an empty scope.
#[verifier::external_body]
fn optimize(engine: &rhai::Engine, ast: rhai::AST) -> rhai::AST {
    engine.optimize_ast(&rhai::Scope::new(), ast, rhai::OptimizationLevel::Full)
}

/// Whether `out` is an outcome that calling the function `function` of the script with text
/// `source`, with `file_name` as its one argument, may have on an engine of this library: the
/// value it returns, or the message of the error it ends in.
pub uninterp spec fn filter_may_return(source: Seq<char>, function: Seq<char>, file_name: Seq<char>, out: Result<bool, Seq<char>>) -> bool;

/// Whether `out` is an outcome that calling the function `function` of the script with text
/// `source`, with `file_name` and the list `components` as arguments, may have on an engine of
/// this library: the name, categories (`None` for a value that is not text) and thumbnail it
/// returns through `index_entry`, or the message of the error it ends in.
pub uninterp spec fn index_may_return(
    source: Seq<char>,
    function: Seq<char>,
    file_name: Seq<char>,
    components: Seq<Seq<char>>,
    out: Result<(Seq<char>, Seq<Option<Seq<char>>>, Seq<char>), Seq<char>>,
) -> bool;

/// The outcome of the index script, taken as text.
pub open spec fn index_outcome_view(out: Result<(String, Vec<Option<String>>, String), String>) -> Result<(Seq<char>, Seq<Option<Seq<char>>>, Seq<char>), Seq<char>> {
    match out {
        Ok((n, c, t)) => Ok((n@, c@.map_values(|x: Option<String>| x.deep_view()), t@)),
        Err(e) => Err(e@),
    }
}

/// Calls `rhai::Engine::call_fn` for the function `function` of the compiled `script`, with
/// `file_name` as its one argument and a fresh scope, expecting a `bool`; an error is
/// returned as its message.
///
/// Claimed of it: the outcome is one that the script's function may have on that argument
/// ([`filter_may_return`] of the script's text, the function's name and the file name). A
/// script may consult the clock, so nothing more is claimed of which outcome comes back.
/// The call returns: the engines of this library stop a script after a bounded number of
/// operations (see [`build_engine`]).
#[verifier::external_body]
fn call_filter(engine: &rhai::Engine, script: &CompiledScript, function: &str, file_name: String) -> (r: Result<bool, String>)
    ensures
        filter_may_return(script.source@, function@, file_name@, filter_outcome_view(r)),
{
    let mut scope = rhai::Scope::new();
    engine.call_fn::<bool>(&mut scope, &script.ast, function, (file_name,)).map_err(|error| error.to_string())
}

/// Calls `rhai::Engine::call_fn` for the function `function` of the compiled `script`, with
/// `file_name` and the list `components` as arguments and a fresh scope, expecting what
/// `index_entry` makes. Each category is handed back as text, or as `None` where the script
/// gave a value that is not a string; an error is returned as its message.
///
/// Claimed of it: the outcome is one that the script's function may have on those arguments
/// ([`index_may_return`]); nothing more, as a script may consult the clock. The call returns,
/// as for [`call_filter`].
#[verifier::external_body]
fn call_index(
    engine: &rhai::Engine,
    script: &CompiledScript,
    function: &str,
    file_name: String,
    components: Vec<String>,
) -> (r: Result<(String, Vec<Option<String>>, String), String>)
    ensures
        index_may_return(script.source@, function@, file_name@, components@.map_values(|s: String| s@), index_outcome_view(r)),
{
    let mut scope = rhai::Scope::new();
    let components: rhai::Array = components.into_iter().map(rhai::Dynamic::from).collect();
    engine
        .call_fn::<(rhai::ImmutableString, rhai::Array, rhai::ImmutableString)>(&mut scope, &script.ast, function, (file_name, components))
        .map(|(name, categories, thumbnail)| {
            (name.to_string(), categories.into_iter().map(|c| c.into_string().ok()).collect(), thumbnail.to_string())
        })
        .map_err(|error| error.to_string())
}

/// Builds the Rhai engine that runs the scripts, with `hash` and `index_entry` registered.
/// A Rhai engine lets a script run without bound; this one stops every script call after
/// [`MAX_SCRIPT_OPERATIONS`] operations with an error, so that a script that loops forever
/// ends the indexing run instead of hanging it. What scripts print goes to Rhai's default printer until the caller sets another with
/// `rhai::Engine::on_print`.
pub fn build_engine() -> rhai::Engine {
    let mut engine = new_engine();
    limit_operations(&mut engine, MAX_SCRIPT_OPERATIONS);
    name_entry_type(&mut engine);
    register_functions(&mut engine);
    engine
}

/// The engine with the filter and index scripts compiled and optimised.
pub struct Scripts {
    /// The engine the scripts run on.
    pub engine: rhai::Engine,
    /// The compiled filter script.
    pub filter: CompiledScript,
    /// The compiled index script.
    pub index: CompiledScript,
}

/// The text of a script: the custom one when given, else `default`.
pub open spec fn script_text(custom: Option<Seq<char>>, default: Seq<char>) -> Seq<char> {
    match custom {
        Some(c) => c,
        None => default,
    }
}

/// Whether `r` is what compiling the filter script `filter` and then the index script `index`
/// gives: the parse error of the filter script, else that of the index script, each named
/// after its script, else the two scripts compiled from their texts, each in its place.
pub open spec fn compile_outcome(r: Result<Scripts, AssetPackIndexError>, filter: Seq<char>, index: Seq<char>) -> bool {
    match rhai_parse_error(filter) {
        Some(m) => r matches Err(AssetPackIndexError::CompileScript(which, e)) && which@ == "filter"@ && e@ == m,
        None => match rhai_parse_error(index) {
            Some(m) => r matches Err(AssetPackIndexError::CompileScript(which, e)) && which@ == "index"@ && e@ == m,
            None => r matches Ok(s) && s.filter.source@ == filter && s.index.source@ == index,
        },
    }
}

/// Builds the engine and compiles the given scripts, or the built-in ones where none is
/// given: first the filter script, then the index script.
///
/// A script that fails to compile ends this with [`AssetPackIndexError::CompileScript`],
/// naming the script and carrying Rhai's message.
pub fn scripting(filter_script: Option<&String>, index_script: Option<&String>) -> (r: Result<Scripts, AssetPackIndexError>)
    ensures
        compile_outcome(
            r,
            script_text(filter_script.deep_view(), DEFAULT_FILTER_SCRIPT@),
            script_text(index_script.deep_view(), DEFAULT_INDEX_SCRIPT@),
        ),
{
    let engine = build_engine();
    let filter = match compile(crate::indexing::script_source(filter_script, DEFAULT_FILTER_SCRIPT)) {
        Ok(compiled) => compiled,
        Err(message) => {
            return Err(AssetPackIndexError::CompileScript("filter".to_owned(), message));
        },
    };
    let index = match compile(crate::indexing::script_source(index_script, DEFAULT_INDEX_SCRIPT)) {
        Ok(compiled) => compiled,
        Err(message) => {
            return Err(AssetPackIndexError::CompileScript("index".to_owned(), message));
        },
    };
    let filter = CompiledScript { ast: optimize(&engine, filter.ast), source: filter.source };
    let index = CompiledScript { ast: optimize(&engine, index.ast), source: index.source };
    Ok(Scripts { engine, filter, index })
}

/// Whether `r` is what the index script's outcome `out` makes of an entry: the entry it
/// describes (see [`IndexEntry::from_script`]), or an `index` script error carrying its
/// message.
pub open spec fn described(r: Result<IndexEntry, AssetPackIndexError>, out: Result<(Seq<char>, Seq<Option<Seq<char>>>, Seq<char>), Seq<char>>) -> bool {
    match out {
        Err(m) => r matches Err(AssetPackIndexError::RunScript(which, e)) && which@ == "index"@ && e@ == m,
        Ok((n, c, t)) => r matches Ok(entry) && entry.name@ == n && entry.thumbnail@ == t
            && entry.categories@.map_values(|s: String| s@) == text_categories(c),
    }
}

impl Scripts {
    /// Runs the filter script on `file_name` and decides on the entry with [`decide_entry`].
    ///
    /// An entry is indexed only when the script accepts it, it is a file and its format
    /// supports thumbnails; a script that fails ends the run with a `filter` script error.
    pub fn filter_entry(&self, file_name: String, is_file: bool, supported: bool) -> (r: Result<EntryDecision, AssetPackIndexError>)
        ensures
            exists|f: Result<bool, Seq<char>>|
                #[trigger] filter_may_return(self.filter.source@, "filter"@, file_name@, f) && decided(r, f, is_file, supported),
    {
        let ghost name = file_name@;
        let outcome = call_filter(&self.engine, &self.filter, "filter", file_name);
        let r = decide_entry(outcome, is_file, supported);
        proof {
            reveal_strlit("filter");
            assert(filter_may_return(self.filter.source@, "filter"@, name, filter_outcome_view(outcome)));
        }
        r
    }

    /// Runs the index script on `file_name`, handing it the components of the pack's root
    /// `index_root`, and turns what it returns into an [`IndexEntry`] with
    /// [`IndexEntry::from_script`]. A script that fails ends the run with an `index` script
    /// error.
    pub fn index_entry(&self, index_root: &str, file_name: String) -> (r: Result<IndexEntry, AssetPackIndexError>)
        ensures
            exists|o: Result<(Seq<char>, Seq<Option<Seq<char>>>, Seq<char>), Seq<char>>|
                #[trigger] index_may_return(self.index.source@, "index"@, file_name@, path_component_names(index_root@), o)
                && described(r, o),
    {
        let ghost name = file_name@;
        let components = path_components(index_root);
        let outcome = call_index(&self.engine, &self.index, "index", file_name, components);
        let ghost o = index_outcome_view(outcome);
        let r = match outcome {
            Ok((name, categories, thumbnail)) => Ok(IndexEntry::from_script(name, categories, thumbnail)),
            Err(message) => Err(AssetPackIndexError::RunScript("index".to_owned(), message)),
        };
        proof {
            assert(index_may_return(self.index.source@, "index"@, name, path_component_names(index_root@), o));
            assert(described(r, o));
        }
        r
    }
}

/// What becomes of one entry of the pack's folder.
#[derive(Debug)]
pub enum EntryOutcome {
    /// The entry is skipped, for the reason given.
    Skip(EntrySkip),
    /// The entry is added to the index as described.
    Add(IndexEntry),
}

/// Whether `r` is what the index script's outcome `out` makes of an accepted entry: the
/// entry added as described, or an `index` script error carrying its message.
pub open spec fn added(r: Result<EntryOutcome, AssetPackIndexError>, out: Result<(Seq<char>, Seq<Option<Seq<char>>>, Seq<char>), Seq<char>>) -> bool {
    match out {
        Err(m) => r matches Err(AssetPackIndexError::RunScript(which, e)) && which@ == "index"@ && e@ == m,
        Ok((n, c, t)) => r matches Ok(EntryOutcome::Add(entry)) && entry.name@ == n && entry.thumbnail@ == t
            && entry.categories@.map_values(|s: String| s@) == text_categories(c),
    }
}

/// Whether `r` is what the filter script's outcome `filter` makes of an entry that is not
/// indexed: a `filter` script error carrying its message, or the entry skipped as filtered,
/// as not a file, or as of an unsupported format.
pub open spec fn skipped(r: Result<EntryOutcome, AssetPackIndexError>, filter: Result<bool, Seq<char>>, is_file: bool) -> bool {
    match filter {
        Err(m) => r matches Err(AssetPackIndexError::RunScript(which, e)) && which@ == "filter"@ && e@ == m,
        Ok(false) => r matches Ok(EntryOutcome::Skip(EntrySkip::Filtered)),
        Ok(true) => if !is_file {
            r matches Ok(EntryOutcome::Skip(EntrySkip::NotAFile))
        } else {
            r matches Ok(EntryOutcome::Skip(EntrySkip::Unsupported))
        },
    }
}

/// Whether `r` is what becomes of an entry named `file_name` (`None` where it has no name),
/// given whether it is a file and whether its format supports thumbnails, when the filter
/// and index scripts have the texts `filter_source` and `index_source` and the pack's root is
/// `index_root`: a nameless entry and the manifest are skipped; any other entry goes to the
/// filter script's `filter`, for some outcome of which an accepted file of a supported format
/// goes to the index script's `index` (with the root's components), for some outcome of
/// which it is added; otherwise it is skipped or the filter script's error ends the run.
pub open spec fn scripted_outcome(
    r: Result<EntryOutcome, AssetPackIndexError>,
    filter_source: Seq<char>,
    index_source: Seq<char>,
    index_root: Seq<char>,
    file_name: Option<Seq<char>>,
    is_file: bool,
    supported: bool,
) -> bool {
    match file_name {
        None => r matches Ok(EntryOutcome::Skip(EntrySkip::InvalidName)),
        Some(n) => if n == "asset_pack.toml"@ {
            r matches Ok(EntryOutcome::Skip(EntrySkip::Manifest))
        } else {
            exists|f: Result<bool, Seq<char>>| #[trigger] filter_may_return(filter_source, "filter"@, n, f) && {
                if f == Ok::<bool, Seq<char>>(true) && is_file && supported {
                    exists|o: Result<(Seq<char>, Seq<Option<Seq<char>>>, Seq<char>), Seq<char>>|
                        #[trigger] index_may_return(index_source, "index"@, n, path_component_names(index_root), o) && added(r, o)
                } else {
                    skipped(r, f, is_file)
                }
            }
        },
    }
}

impl IndexRun {
    /// Processes the next entry of the pack's folder: counts it, reporting the progress, then
    /// skips an entry without a name and the manifest, asks the filter script about the
    /// rest, and describes an entry that is to be indexed with the index script.
    pub fn process_entry(
        &mut self,
        scripts: &Scripts,
        index_root: &str,
        file_name: Option<String>,
        is_file: bool,
        supported: bool,
    ) -> (r: (AssetPackIndexProgressEvent, Result<EntryOutcome, AssetPackIndexError>))
        requires
            old(self).current < usize::MAX,
        ensures
            final(self).id == old(self).id,
            final(self).total == old(self).total,
            final(self).current == old(self).current + 1,
            r.0.id@ == old(self).id@,
            r.0.current == final(self).current,
            r.0.total == old(self).total,
            scripted_outcome(r.1, scripts.filter.source@, scripts.index.source@, index_root@, file_name.deep_view(), is_file, supported),
    {
        let progress = self.next_entry();
        let ghost name_view = file_name.deep_view();
        let name = match check_entry_name(file_name) {
            NameCheck::Skip(skip) => {
                return (progress, Ok(EntryOutcome::Skip(skip)));
            },
            NameCheck::Filter(name) => name,
        };
        let ghost n = name@;
        let decision = scripts.filter_entry(name.clone(), is_file, supported);
        let ghost f = choose|f: Result<bool, Seq<char>>|
            #[trigger] filter_may_return(scripts.filter.source@, "filter"@, n, f) && decided(decision, f, is_file, supported);
        let outcome = match decision {
            Err(e) => Err(e),
            Ok(EntryDecision::Skip(skip)) => Ok(EntryOutcome::Skip(skip)),
            Ok(EntryDecision::Index) => {
                let described_entry = scripts.index_entry(index_root, name);
                let ghost o = choose|o: Result<(Seq<char>, Seq<Option<Seq<char>>>, Seq<char>), Seq<char>>|
                    #[trigger] index_may_return(scripts.index.source@, "index"@, n, path_component_names(index_root@), o)
                    && described(described_entry, o);
                let outcome = match described_entry {
                    Ok(entry) => Ok(EntryOutcome::Add(entry)),
                    Err(e) => Err(e),
                };
                proof {
                    assert(added(outcome, o));
                }
                outcome
            },
        };
        proof {
            assert(filter_may_return(scripts.filter.source@, "filter"@, n, f));
        }
        (progress, outcome)
    }
}

/// What is known of one entry of the pack's folder before the scripts look at it.
#[derive(Debug)]
pub struct EntryFacts {
    /// The entry's file name, if it has one.
    pub file_name: Option<String>,
    /// Whether the entry is a file.
    pub is_file: bool,
    /// Whether thumbnails can be made of the entry's format.
    pub supported: bool,
}

/// What a whole run over the entries of a pack's folder gives.
#[derive(Debug)]
pub struct RunReport {
    /// The progress reported, one event per entry processed, in order.
    pub progress: Vec<AssetPackIndexProgressEvent>,
    /// What became of each entry processed without error, in order.
    pub outcomes: Vec<EntryOutcome>,
    /// The completion of the run, or the error that ended it.
    pub end: Result<AssetPackIndexCompletedEvent, AssetPackIndexError>,
}

impl IndexRun {
    /// Processes the entries of the pack's folder in order (see [`IndexRun::process_entry`]),
    /// stopping at the first script that fails. Every entry processed reports its progress,
    /// counting on from the run's count; a run that meets no error ends in its completion.
    pub fn run(&mut self, scripts: &Scripts, index_root: &str, entries: Vec<EntryFacts>) -> (r: RunReport)
        requires
            old(self).current + entries.len() <= usize::MAX,
        ensures
            final(self).id == old(self).id,
            final(self).total == old(self).total,
            final(self).current == old(self).current + r.progress.len(),
            r.progress.len() <= entries.len(),
            forall|k: int| 0 <= k < r.progress.len() ==> {
                &&& (#[trigger] r.progress[k]).id@ == old(self).id@
                &&& r.progress[k].current == old(self).current + k + 1
                &&& r.progress[k].total == old(self).total
            },
            forall|k: int| 0 <= k < r.outcomes.len() ==> scripted_outcome(
                Ok(#[trigger] r.outcomes[k]),
                scripts.filter.source@,
                scripts.index.source@,
                index_root@,
                entries[k].file_name.deep_view(),
                entries[k].is_file,
                entries[k].supported,
            ),
            match r.end {
                Ok(c) => c.id@ == old(self).id@ && r.progress.len() == entries.len() && r.outcomes.len() == entries.len(),
                Err(e) => r.progress.len() > 0 && r.outcomes.len() == r.progress.len() - 1 && scripted_outcome(
                    Err(e),
                    scripts.filter.source@,
                    scripts.index.source@,
                    index_root@,
                    entries[r.progress.len() - 1].file_name.deep_view(),
                    entries[r.progress.len() - 1].is_file,
                    entries[r.progress.len() - 1].supported,
                ),
            },
    {
        let ghost all = entries@;
        let ghost start = self.current;
        let mut rest = entries;
        let mut progress: Vec<AssetPackIndexProgressEvent> = Vec::new();
        let mut outcomes: Vec<EntryOutcome> = Vec::new();
        let ghost mut done: int = 0;
        while rest.len() > 0
            invariant
                0 <= done <= all.len(),
                all == entries@,
                rest@ == all.skip(done),
                self.id == old(self).id,
                self.total == old(self).total,
                self.current == start + done,
                start == old(self).current,
                start + all.len() <= usize::MAX,
                progress.len() == done,
                outcomes.len() == done,
                forall|k: int| 0 <= k < progress.len() ==> {
                    &&& (#[trigger] progress[k]).id@ == old(self).id@
                    &&& progress[k].current == start + k + 1
                    &&& progress[k].total == old(self).total
                },
                forall|k: int| 0 <= k < outcomes.len() ==> scripted_outcome(
                    Ok(#[trigger] outcomes[k]),
                    scripts.filter.source@,
                    scripts.index.source@,
                    index_root@,
                    all[k].file_name.deep_view(),
                    all[k].is_file,
                    all[k].supported,
                ),
            decreases rest.len(),
        {
            let e = rest.remove(0);
            proof {
                assert(done < all.len());
                assert(e == all[done]);
                assert(rest@ =~= all.skip(done + 1));
            }
            let (p, o) = self.process_entry(scripts, index_root, e.file_name, e.is_file, e.supported);
            progress.push(p);
            match o {
                Ok(x) => {
                    outcomes.push(x);
                },
                Err(err) => {
                    return RunReport { progress, outcomes, end: Err(err) };
                },
            }
            proof {
                done = done + 1;
            }
        }
        let end = self.completed();
        RunReport { progress, outcomes, end: Ok(end) }
    }
}

/// What the index script says of an asset.
#[derive(Debug, Clone)]
pub struct IndexEntry {
    /// The name shown in the asset browser.
    pub name: String,
    /// The keywords the asset can be found by.
    pub categories: Vec<String>,
    /// The identifier of the asset's thumbnail.
    pub thumbnail: String,
}

/// The categories that are text, in their order.
pub open spec fn text_categories(categories: Seq<Option<Seq<char>>>) -> Seq<Seq<char>>
    decreases categories.len(),
{
    if categories.len() == 0 {
        Seq::empty()
    } else {
        let rest = text_categories(categories.drop_last());
        match categories.last() {
            Some(c) => rest.push(c),
            None => rest,
        }
    }
}

impl IndexEntry {
    /// Builds the entry from the name, categories and thumbnail that the script returned.
    /// A category that is not a string is skipped.
    pub fn from_script(name: String, categories: Vec<Option<String>>, thumbnail: String) -> (e: IndexEntry)
        ensures
            e.name@ == name@,
            e.thumbnail@ == thumbnail@,
            e.categories@.map_values(|c: String| c@) == text_categories(categories@.map_values(|c: Option<String>| c.deep_view())),
    {
        let ghost given = categories@.map_values(|c: Option<String>| c.deep_view());
        let mut kept: Vec<String> = Vec::new();
        let mut i: usize = 0;
        while i < categories.len()
            invariant
                i <= categories.len(),
                given == categories@.map_values(|c: Option<String>| c.deep_view()),
                kept@.map_values(|c: String| c@) == text_categories(given.take(i as int)),
            decreases categories.len() - i,
        {
            proof {
                assert(given.take(i + 1).drop_last() =~= given.take(i as int));
                assert(given.take(i + 1).last() == given[i as int]);
            }
            match &categories[i] {
                Some(c) => {
                    let ghost before = kept@;
                    kept.push(c.clone());
                    proof {
                        assert(kept@.map_values(|c: String| c@) =~= before.map_values(|c: String| c@).push(c@));
                    }
                },
                None => {},
            }
            i += 1;
        }
        proof {
            assert(given.take(i as int) =~= given);
        }
        IndexEntry { name, categories: kept, thumbnail }
    }
}

} // verus!
