use dungeon_rs::hierarchy::{
    find_item, DungeonQueries, Element, ElementQueryItem, Layer, LayerQueryItem, Level,
    LevelQueryItem, Project, ProjectQueryItem, Transform, Visibility,
};

/// What the queries yield for a project holding a level, holding a layer, holding an
/// element. Entities: project 0, level 1, layer 2, element 3.
fn create_test_hierarchy() -> (DungeonQueries, u64, u64, u64, u64) {
    let queries = DungeonQueries {
        projects: vec![ProjectQueryItem {
            entity: 0,
            name: "Test Project".to_string(),
            children: vec![1],
            project: Project { file: String::new() },
        }],
        levels: vec![LevelQueryItem {
            entity: 1,
            level: Level,
            name: "Test Level".to_string(),
            children: vec![2],
            visibility: Visibility::Inherited,
        }],
        layers: vec![LayerQueryItem {
            entity: 2,
            layer: Layer,
            name: "Test Layer".to_string(),
            transform: Transform::identity(),
            children: vec![3],
            visibility: Visibility::Inherited,
        }],
        elements: vec![ElementQueryItem {
            entity: 3,
            element: Element::new_object("test-asset-id".to_string()),
            name: "Test Element".to_string(),
            transform: Transform::identity(),
            visibility: Visibility::Inherited,
        }],
    };
    (queries, 0, 1, 2, 3)
}

#[test]
fn test_project_query() {
    let (queries, project_entity, _, _, _) = create_test_hierarchy();
    let project = find_item(&queries.projects, project_entity).expect("Project should exist");
    assert_eq!(project.entity, project_entity);
    assert_eq!(project.name.as_str(), "Test Project");
    assert!(!project.children.is_empty(), "Project should have children");
}

#[test]
fn test_level_query() {
    let (queries, _, level_entity, _, _) = create_test_hierarchy();
    let level = find_item(&queries.levels, level_entity).expect("Level should exist");
    assert_eq!(level.entity, level_entity);
    assert_eq!(level.name.as_str(), "Test Level");
    assert!(!level.children.is_empty(), "Level should have children");
}

#[test]
fn test_layer_query() {
    let (queries, _, _, layer_entity, _) = create_test_hierarchy();
    let layer = find_item(&queries.layers, layer_entity).expect("Layer should exist");
    assert_eq!(layer.entity, layer_entity);
    assert_eq!(layer.name.as_str(), "Test Layer");
    assert!(!layer.children.is_empty(), "Layer should have children");
}

#[test]
fn test_element_query() {
    let (queries, _, _, _, element_entity) = create_test_hierarchy();
    let element = find_item(&queries.elements, element_entity).expect("Element should exist");
    assert_eq!(element.entity, element_entity);
    assert_eq!(element.name.as_str(), "Test Element");
}

#[test]
fn test_dungeon_queries_levels_for_project() {
    let (queries, project_entity, level_entity, _, _) = create_test_hierarchy();
    let levels = queries.levels_for_project(project_entity);
    assert_eq!(levels.len(), 1, "Should find exactly one level");
    assert_eq!(levels[0].entity, level_entity);
    assert_eq!(levels[0].name.as_str(), "Test Level");
}

#[test]
fn test_dungeon_queries_layers_for_level() {
    let (queries, _, level_entity, layer_entity, _) = create_test_hierarchy();
    let layers = queries.layers_for_level(level_entity);
    assert_eq!(layers.len(), 1, "Should find exactly one layer");
    assert_eq!(layers[0].entity, layer_entity);
    assert_eq!(layers[0].name.as_str(), "Test Layer");
}

#[test]
fn test_dungeon_queries_elements_for_layer() {
    let (queries, _, _, layer_entity, element_entity) = create_test_hierarchy();
    let elements = queries.elements_for_layer(layer_entity);
    assert_eq!(elements.len(), 1, "Should find exactly one element");
    assert_eq!(elements[0].entity, element_entity);
    assert_eq!(elements[0].name.as_str(), "Test Element");
}

#[test]
fn test_dungeon_queries_nonexistent_entities() {
    let (queries, _, _, _, _) = create_test_hierarchy();
    let fake_entity = 9999;

    let levels = queries.levels_for_project(fake_entity);
    assert_eq!(levels.len(), 0, "Should find no levels for nonexistent project");

    let layers = queries.layers_for_level(fake_entity);
    assert_eq!(layers.len(), 0, "Should find no layers for nonexistent level");

    let elements = queries.elements_for_layer(fake_entity);
    assert_eq!(elements.len(), 0, "Should find no elements for nonexistent layer");
}

#[test]
fn test_multiple_children() {
    let queries = DungeonQueries {
        projects: vec![ProjectQueryItem {
            entity: 0,
            name: "Multi-Level Project".to_string(),
            children: vec![1, 2],
            project: Project { file: String::new() },
        }],
        levels: vec![
            LevelQueryItem { entity: 1, level: Level, name: "Level 1".to_string(), children: vec![], visibility: Visibility::Inherited },
            LevelQueryItem { entity: 2, level: Level, name: "Level 2".to_string(), children: vec![], visibility: Visibility::Inherited },
        ],
        layers: vec![],
        elements: vec![],
    };

    let levels = queries.levels_for_project(0);
    assert_eq!(levels.len(), 2, "Should find exactly two levels");

    let level_names: Vec<&str> = levels.iter().map(|l| l.name.as_str()).collect();
    assert!(level_names.contains(&"Level 1"));
    assert!(level_names.contains(&"Level 2"));
}

#[test]
fn children_that_are_not_levels_are_skipped() {
    let (mut queries, project, _, _, _) = create_test_hierarchy();
    queries.projects[0].children = vec![7, 1, 3];
    let levels = queries.levels_for_project(project);
    assert_eq!(levels.len(), 1);
    assert_eq!(levels[0].entity, 1);
}

#[test]
fn only_visible_counts_as_visible() {
    let (mut queries, _, _, _, _) = create_test_hierarchy();
    assert!(!queries.levels[0].is_visible());
    queries.levels[0].visibility = Visibility::Hidden;
    assert!(!queries.levels[0].is_visible());
    queries.levels[0].visibility = Visibility::Visible;
    assert!(queries.levels[0].is_visible());
}
