use dungeon_rs::hashing::hash_string;
use dungeon_rs::indexing::{resolved_path, AssetPackIndexError, AssetPackSearchResult, EntrySkip, IndexRun};
use dungeon_rs::pack::AssetPack;
use dungeon_rs::scripting::{scripting, EntryFacts, EntryOutcome, IndexEntry, DEFAULT_INDEX_SCRIPT};

#[test]
fn built_in_scripts_compile() {
    assert!(scripting(None, None).is_ok());
}

#[test]
fn broken_filter_script_is_reported_first() {
    let filter = "fn filter(name) {".to_string();
    let index = "fn index(".to_string();
    match scripting(Some(&filter), Some(&index)) {
        Err(AssetPackIndexError::CompileScript(which, _)) => assert_eq!(which, "filter"),
        _ => panic!("expected a compile error"),
    }
}

#[test]
fn broken_index_script_is_reported() {
    let index = "fn index(".to_string();
    match scripting(None, Some(&index)) {
        Err(AssetPackIndexError::CompileScript(which, _)) => assert_eq!(which, "index"),
        _ => panic!("expected a compile error"),
    }
}

#[test]
fn custom_filter_script_decides() {
    let filter = "fn filter(name) { name.ends_with(\".png\") }".to_string();
    let scripts = scripting(Some(&filter), None).unwrap_or_else(|_| panic!("scripts compile"));
    let mut run = IndexRun::new("pack".to_string(), 2);
    let (progress, outcome) = run.process_entry(&scripts, "/packs/forest", Some("notes.txt".to_string()), true, true);
    assert_eq!(progress.current, 1);
    assert!(matches!(outcome, Ok(EntryOutcome::Skip(EntrySkip::Filtered))));
    let (progress, outcome) = run.process_entry(&scripts, "/packs/forest", Some("tree.png".to_string()), true, true);
    assert_eq!((progress.current, progress.total), (2, 2));
    assert!(matches!(outcome, Ok(EntryOutcome::Add(_))));
}

#[test]
fn built_in_index_script_describes_entry() {
    let scripts = scripting(None, None).unwrap_or_else(|_| panic!("scripts compile"));
    match scripts.index_entry("/packs/forest", "tree.png".to_string()) {
        Ok(entry) => {
            assert_eq!(entry.name, "tree.png");
            assert_eq!(entry.categories, vec!["/".to_string(), "packs".to_string(), "forest".to_string()]);
            assert_eq!(entry.thumbnail, hash_string("tree.png"));
        }
        Err(e) => panic!("index script failed: {e:?}"),
    }
}

#[test]
fn failing_filter_script_ends_the_run() {
    let filter = "fn filter(name) { throw \"broken\" }".to_string();
    let scripts = scripting(Some(&filter), None).unwrap_or_else(|_| panic!("scripts compile"));
    let mut run = IndexRun::new("pack".to_string(), 1);
    let (_, outcome) = run.process_entry(&scripts, "/packs", Some("a.png".to_string()), true, true);
    match outcome {
        Err(AssetPackIndexError::RunScript(which, _)) => assert_eq!(which, "filter"),
        _ => panic!("expected a script error"),
    }
}

#[test]
fn manifest_is_skipped_before_any_script_runs() {
    let filter = "fn filter(name) { throw \"broken\" }".to_string();
    let scripts = scripting(Some(&filter), None).unwrap_or_else(|_| panic!("scripts compile"));
    let mut run = IndexRun::new("pack".to_string(), 2);
    let (_, outcome) = run.process_entry(&scripts, "/packs", Some("asset_pack.toml".to_string()), true, true);
    assert!(matches!(outcome, Ok(EntryOutcome::Skip(EntrySkip::Manifest))));
    let (_, outcome) = run.process_entry(&scripts, "/packs", None, true, true);
    assert!(matches!(outcome, Ok(EntryOutcome::Skip(EntrySkip::InvalidName))));
}

#[test]
fn directories_and_unsupported_formats_are_skipped() {
    let scripts = scripting(None, None).unwrap_or_else(|_| panic!("scripts compile"));
    let mut run = IndexRun::new("pack".to_string(), 2);
    let (_, outcome) = run.process_entry(&scripts, "/packs", Some("trees".to_string()), false, true);
    assert!(matches!(outcome, Ok(EntryOutcome::Skip(EntrySkip::NotAFile))));
    let (_, outcome) = run.process_entry(&scripts, "/packs", Some("notes.txt".to_string()), true, false);
    assert!(matches!(outcome, Ok(EntryOutcome::Skip(EntrySkip::Unsupported))));
}

#[test]
fn non_text_categories_are_skipped() {
    let entry = IndexEntry::from_script(
        "Tree".to_string(),
        vec![Some("Forest".to_string()), None, Some("Green".to_string())],
        "thumb".to_string(),
    );
    assert_eq!(entry.name, "Tree");
    assert_eq!(entry.categories, vec!["Forest".to_string(), "Green".to_string()]);
    assert_eq!(entry.thumbnail, "thumb");
}

#[test]
fn pack_scripts_follow_its_manifest() {
    let mut pack = AssetPack::new("/packs/forest", "/cache", None);
    pack.filter_script = Some("fn filter(".to_string());
    match pack.scripts() {
        Err(AssetPackIndexError::CompileScript(which, _)) => assert_eq!(which, "filter"),
        _ => panic!("expected the pack's own filter script to be compiled"),
    }
}

#[test]
fn search_result_fields_and_text() {
    let result = AssetPackSearchResult::new(
        Some("Tree".to_string()),
        vec!["Forest".to_string(), "Green".to_string()],
        Some("/packs/tree.png".to_string()),
        Some("abc".to_string()),
    );
    assert_eq!(result.name(), Some("Tree"));
    assert_eq!(result.categories(), vec!["Forest".to_string(), "Green".to_string()]);
    assert_eq!(result.path(), Some("/packs/tree.png".to_string()));
    assert_eq!(result.thumbnail(), Some("abc".to_string()));
    assert_eq!(
        result.to_text(),
        "name: Tree\ncategories:\n- Forest\n- Green\npath: /packs/tree.png\nthumbnail: /packs/tree.png\n"
    );
}

#[test]
fn search_result_without_fields() {
    let result = AssetPackSearchResult::new(None, vec![], None, None);
    assert_eq!(result.name(), None);
    assert!(result.categories().is_empty());
    assert_eq!(
        result.to_text(),
        "name: <no value>\ncategories:\npath: <no value>\nthumbnail: <no value>\n"
    );
}

#[test]
fn compile_error_carries_rhai_message() {
    let filter = "fn filter(name) {".to_string();
    match scripting(Some(&filter), None) {
        Err(AssetPackIndexError::CompileScript(which, message)) => {
            assert_eq!(which, "filter");
            assert!(!message.is_empty());
            assert_ne!(message, filter);
        }
        _ => panic!("expected a compile error"),
    }
    let pack_error = {
        let mut pack = AssetPack::new("/packs/forest", "/cache", None);
        pack.filter_script = Some(filter.clone());
        match pack.scripts() {
            Err(AssetPackIndexError::CompileScript(_, message)) => message,
            _ => panic!("expected a compile error"),
        }
    };
    match scripting(Some(&filter), None) {
        Err(AssetPackIndexError::CompileScript(_, message)) => assert_eq!(message, pack_error),
        _ => panic!("expected a compile error"),
    }
}

#[test]
fn compiled_scripts_keep_their_texts_in_place() {
    let filter = "fn filter(name) { name.ends_with(\".png\") }".to_string();
    let scripts = scripting(Some(&filter), None).unwrap_or_else(|_| panic!("scripts compile"));
    assert_eq!(scripts.filter.source, filter);
    assert_eq!(scripts.index.source, DEFAULT_INDEX_SCRIPT);
}

fn facts(name: &str, is_file: bool) -> EntryFacts {
    EntryFacts { file_name: Some(name.to_string()), is_file, supported: true }
}

#[test]
fn run_reports_each_entry_then_completes() {
    let scripts = scripting(None, None).unwrap_or_else(|_| panic!("scripts compile"));
    let mut run = IndexRun::new("pack".to_string(), 2);
    let report = run.run(&scripts, "/tmp/p", vec![facts("p", false), facts("a.png", true)]);
    let counts: Vec<(usize, usize)> = report.progress.iter().map(|e| (e.current, e.total)).collect();
    assert_eq!(counts, vec![(1, 2), (2, 2)]);
    assert!(matches!(report.outcomes[0], EntryOutcome::Skip(EntrySkip::NotAFile)));
    assert!(matches!(report.outcomes[1], EntryOutcome::Add(_)));
    assert_eq!(report.end.map(|c| c.id).ok(), Some("pack".to_string()));
}

#[test]
fn run_stops_at_a_failing_script() {
    let filter = "fn filter(name) { if name == \"b.png\" { throw \"broken\" } true }".to_string();
    let scripts = scripting(Some(&filter), None).unwrap_or_else(|_| panic!("scripts compile"));
    let mut run = IndexRun::new("pack".to_string(), 3);
    let report = run.run(&scripts, "/p", vec![facts("a.png", true), facts("b.png", true), facts("c.png", true)]);
    assert_eq!(report.progress.len(), 2);
    assert_eq!(report.outcomes.len(), 1);
    assert!(matches!(report.end, Err(AssetPackIndexError::RunScript(_, _))));
}

#[test]
fn an_asset_resolves_to_the_best_result_path() {
    assert_eq!(resolved_path(vec![Some("/a.png".to_string()), Some("/b.png".to_string())]), Some("/a.png".to_string()));
    assert_eq!(resolved_path(vec![None, Some("/b.png".to_string())]), None);
    assert_eq!(resolved_path(vec![]), None);
}

#[test]
fn a_script_that_never_ends_is_stopped() {
    let filter = "fn filter(name) { loop {} }".to_string();
    let scripts = scripting(Some(&filter), None).unwrap_or_else(|_| panic!("scripts compile"));
    let mut run = IndexRun::new("pack".to_string(), 1);
    let (_, outcome) = run.process_entry(&scripts, "/packs", Some("a.png".to_string()), true, true);
    match outcome {
        Err(AssetPackIndexError::RunScript(which, _)) => assert_eq!(which, "filter"),
        _ => panic!("expected the script to be stopped"),
    }
}

#[test]
fn index_entries_are_of_type_index_entry() {
    let index = "fn index(name, components) { index_entry(type_of(index_entry(name, [], name)), [], name) }".to_string();
    let scripts = scripting(None, Some(&index)).unwrap_or_else(|_| panic!("scripts compile"));
    match scripts.index_entry("/packs", "tree.png".to_string()) {
        Ok(entry) => assert_eq!(entry.name, "IndexEntry"),
        Err(e) => panic!("index script failed: {e:?}"),
    }
}
