use dungeon_rs::document::{Document, DocumentItem};
use dungeon_rs::hierarchy::{
    DungeonQueries, Element, ElementQueryItem, Layer, LayerQueryItem, Level, LevelQueryItem,
    Project, ProjectQueryItem, Transform, Visibility,
};
use dungeon_rs::messages::{
    handle_create_project_message, handle_load_project_event, handle_save_project, save_outcome,
    CreateProjectMessage, LoadProjectEvent, ReadProjectError, SaveProjectError, SaveProjectMessage,
};
use dungeon_rs::spawn::ProjectSpawn;

fn example_project(file: &str) -> DungeonQueries {
    DungeonQueries {
        projects: vec![ProjectQueryItem {
            entity: 10,
            name: "Example Project".to_string(),
            children: vec![11],
            project: Project { file: file.to_string() },
        }],
        levels: vec![LevelQueryItem {
            entity: 11,
            level: Level,
            name: "First Level".to_string(),
            children: vec![12],
            visibility: Visibility::Inherited,
        }],
        layers: vec![LayerQueryItem {
            entity: 12,
            layer: Layer,
            name: "First Layer".to_string(),
            transform: Transform::identity(),
            children: vec![13],
            visibility: Visibility::Inherited,
        }],
        elements: vec![ElementQueryItem {
            entity: 13,
            element: Element::Object(String::new()),
            name: "First Object".to_string(),
            transform: Transform::identity(),
            visibility: Visibility::Inherited,
        }],
    }
}

#[test]
pub fn document_new() {
    let queries = example_project("");
    let project = &queries.projects[0];

    let document = Document::new(project, &queries);
    assert_eq!(document.name, String::from("Example Project"));
    assert_eq!(document.levels.len(), 1);
    assert_eq!(document.levels[0].name, String::from("First Level"));
    assert_eq!(document.levels[0].layers.len(), 1);
    assert_eq!(document.levels[0].layers[0].name, "First Layer");
    assert_eq!(f32::from_bits(document.levels[0].layers[0].order), 0.0);
    assert_eq!(document.levels[0].layers[0].items.len(), 1);
}

#[test]
fn document_items_keep_their_transform() {
    let queries = example_project("");
    let document = Document::new(&queries.projects[0], &queries);
    match &document.levels[0].layers[0].items[0] {
        DocumentItem::Object { id, translation, rotation, scale } => {
            assert_eq!(id, "");
            assert_eq!(translation.z, 0);
            assert_eq!(f32::from_bits(rotation.w), 1.0);
            assert_eq!(f32::from_bits(scale.x), 1.0);
        }
    }
}

#[test]
fn save_project_event() {
    let queries = example_project("save_project_event_test_output.json");
    let job = handle_save_project(&queries, &SaveProjectMessage::new(10)).expect("the project exists");
    assert_eq!(job.project, 10);
    assert_eq!(job.file, "save_project_event_test_output.json");
    assert_eq!(job.document.name, "Example Project");
    let done = save_outcome(job.project, Ok(())).expect("A completed event should have been dispatched");
    assert_eq!(done.project, 10, "The completed event should have been for the project");
}

#[test]
fn save_project_event_failed() {
    let queries = example_project("does-not-exist-folder/save_project_event_test_output.json");
    let job = handle_save_project(&queries, &SaveProjectMessage::new(10)).expect("the project exists");
    let failed = save_outcome(job.project, Err("No such file or directory".to_string()))
        .expect_err("A failed event should have been dispatched");
    assert_eq!(failed.project, 10, "The failed event should have been for the project");
}

#[test]
fn saving_an_entity_that_is_no_project_fails() {
    let queries = example_project("out.json");
    let failed = handle_save_project(&queries, &SaveProjectMessage::new(11)).expect_err("not a project");
    assert_eq!(failed.project, 11);
    assert!(matches!(failed.error, SaveProjectError::NotAProject));
}

#[test]
fn create_project_replaces_the_current_one() {
    let queries = example_project("old.json");
    let (despawn, spawn) =
        handle_create_project_message(&queries, &CreateProjectMessage::new("new.json".to_string(), "New".to_string()));
    assert_eq!(despawn, Some(10));
    assert_eq!(spawn.file, "new.json");
    assert_eq!(spawn.name, "New");
    assert_eq!(spawn.levels.len(), 1);
    assert_eq!(spawn.levels[0].name, "default");
    assert_eq!(spawn.levels[0].layers.len(), 1);
    assert_eq!(spawn.levels[0].layers[0].name, "default");
    assert_eq!(spawn.levels[0].layers[0].transform, Transform::identity());
}

#[test]
fn create_project_without_previous_project_despawns_nothing() {
    let queries = DungeonQueries { projects: vec![], levels: vec![], layers: vec![], elements: vec![] };
    let (despawn, _) =
        handle_create_project_message(&queries, &CreateProjectMessage::new("a.json".to_string(), "A".to_string()));
    assert_eq!(despawn, None);
}

#[test]
fn load_project_message() {
    let queries = DungeonQueries { projects: vec![], levels: vec![], layers: vec![], elements: vec![] };
    let saved = example_project("");
    let document = Document::new(&saved.projects[0], &saved);
    let event = LoadProjectEvent { input: "testfile".to_string() };
    let (despawn, spawned) = handle_load_project_event(&queries, &event, Ok(document));
    assert_eq!(despawn, None);
    let spawned = spawned.expect("Project should have been loaded");
    assert_eq!(spawned.file, "testfile");
    assert_eq!(spawned.name, "Example Project");
    assert_eq!(spawned.levels[0].name, "First Level");
    assert_eq!(spawned.levels[0].layers[0].name, "First Layer");
    assert_eq!(spawned.levels[0].layers[0].transform, Transform::from_z(0));
}

#[test]
fn load_failures_name_the_file() {
    let queries = example_project("x");
    let event = LoadProjectEvent { input: "missing.json".to_string() };
    let (despawn, outcome) = handle_load_project_event(&queries, &event, Err(ReadProjectError::Open("gone".to_string())));
    assert_eq!(despawn, Some(10));
    let failed = outcome.unwrap_err();
    assert_eq!(failed.input, "missing.json");
    assert_eq!(failed.error, "Failed to open project file: 'missing.json'");

    let (_, outcome) = handle_load_project_event(&queries, &event, Err(ReadProjectError::Parse("eof".to_string())));
    assert_eq!(outcome.unwrap_err().error, "Failed to parse project file 'missing.json'");
}

#[test]
fn loaded_project_saves_back_as_loaded() {
    // Load a document, lay out what the queries then yield, and save it again.
    let saved = example_project("");
    let document = Document::new(&saved.projects[0], &saved);
    let spawn = ProjectSpawn::from_document("p.json", &document);
    let queries = DungeonQueries {
        projects: vec![ProjectQueryItem {
            entity: 0,
            name: spawn.name.clone(),
            children: vec![1],
            project: Project { file: spawn.file.clone() },
        }],
        levels: vec![LevelQueryItem {
            entity: 1,
            level: Level,
            name: spawn.levels[0].name.clone(),
            children: vec![2],
            visibility: Visibility::Inherited,
        }],
        layers: vec![LayerQueryItem {
            entity: 2,
            layer: Layer,
            name: spawn.levels[0].layers[0].name.clone(),
            transform: spawn.levels[0].layers[0].transform,
            children: vec![],
            visibility: Visibility::Inherited,
        }],
        elements: vec![],
    };
    let again = Document::new(&queries.projects[0], &queries);
    assert_eq!(again.name, document.name);
    assert_eq!(again.levels[0].name, document.levels[0].name);
    assert_eq!(again.levels[0].layers[0].name, document.levels[0].layers[0].name);
    assert_eq!(again.levels[0].layers[0].order, document.levels[0].layers[0].order);
    assert!(again.levels[0].layers[0].items.is_empty());
    assert!(!again.levels[0].visible);
}

#[test]
fn load_project_event() {
    let queries = DungeonQueries { projects: vec![], levels: vec![], layers: vec![], elements: vec![] };
    assert_eq!(queries.projects.len(), 0, "Project should not be loaded yet");
    let event = LoadProjectEvent { input: "testfile".to_string() };
    let empty = Document { name: String::new(), levels: vec![] };
    let (despawn, spawned) = handle_load_project_event(&queries, &event, Ok(empty));
    assert_eq!(despawn, None);
    let spawned = spawned.expect("Project should have been loaded");
    assert_eq!(spawned.file, "testfile");
    assert!(spawned.levels.is_empty());
}
