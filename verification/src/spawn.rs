//! What loading or creating a project spawns: a project entity with its levels and layers.
//!
//! [`ProjectSpawn`] describes the entities to spawn; [`realizes`] says when what the hierarchy
//! queries yield is that tree, so that saving and loading can be related.
use vstd::prelude::*;
use crate::document::{Document, DocumentView, DocumentLevelView, DocumentLayerView, DocumentItemView, project_doc, level_doc, layer_doc};
use crate::hierarchy::{
    DungeonQueries, ElementQueryItem, LayerQueryItem, LevelQueryItem, Transform, Visibility,
    has_item, item_of, items_of, identity_transform,
};

verus! {

/// A layer to spawn: a named layer entity with a transform and no children.
#[derive(Debug)]
pub struct LayerSpawn {
    pub name: String,
    pub transform: Transform,
}

/// A level to spawn, with its layers as children.
#[derive(Debug)]
pub struct LevelSpawn {
    pub name: String,
    pub layers: Vec<LayerSpawn>,
}

/// A project to spawn, associated with `file`, with its levels as children.
#[derive(Debug)]
pub struct ProjectSpawn {
    pub file: String,
    pub name: String,
    pub levels: Vec<LevelSpawn>,
}

pub struct LayerSpawnView {
    pub name: Seq<char>,
    pub transform: Transform,
}

pub struct LevelSpawnView {
    pub name: Seq<char>,
    pub layers: Seq<LayerSpawnView>,
}

pub struct ProjectSpawnView {
    pub file: Seq<char>,
    pub name: Seq<char>,
    pub levels: Seq<LevelSpawnView>,
}

impl View for LayerSpawn {
    type V = LayerSpawnView;

    open spec fn view(&self) -> LayerSpawnView {
        LayerSpawnView { name: self.name@, transform: self.transform }
    }
}

impl View for LevelSpawn {
    type V = LevelSpawnView;

    open spec fn view(&self) -> LevelSpawnView {
        LevelSpawnView { name: self.name@, layers: self.layers@.map_values(|l: LayerSpawn| l@) }
    }
}

impl View for ProjectSpawn {
    type V = ProjectSpawnView;

    open spec fn view(&self) -> ProjectSpawnView {
        ProjectSpawnView {
            file: self.file@,
            name: self.name@,
            levels: self.levels@.map_values(|l: LevelSpawn| l@),
        }
    }
}

/// The layer that loading the saved layer `l` spawns: its name, at the depth of its order.
pub open spec fn layer_spawn_of(l: DocumentLayerView) -> LayerSpawnView {
    LayerSpawnView {
        name: l.name,
        transform: Transform { translation: crate::hierarchy::Vec3Bits { x: 0, y: 0, z: l.order }, ..identity_transform() },
    }
}

/// The level that loading the saved level `l` spawns.
pub open spec fn level_spawn_of(l: DocumentLevelView) -> LevelSpawnView {
    LevelSpawnView { name: l.name, layers: l.layers.map_values(|y: DocumentLayerView| layer_spawn_of(y)) }
}

/// The project that loading the document `d` from the file `input` spawns. The items of the
/// document's layers are not spawned.
pub open spec fn project_spawn_of(input: Seq<char>, d: DocumentView) -> ProjectSpawnView {
    ProjectSpawnView {
        file: input,
        name: d.name,
        levels: d.levels.map_values(|l: DocumentLevelView| level_spawn_of(l)),
    }
}

/// The project that creating a new project spawns: a level named "default" holding a layer
/// named "default" at the identity transform.
pub open spec fn new_project_spawn(file: Seq<char>, name: Seq<char>) -> ProjectSpawnView {
    ProjectSpawnView {
        file,
        name,
        levels: seq![LevelSpawnView {
            name: "default"@,
            layers: seq![LayerSpawnView { name: "default"@, transform: identity_transform() }],
        }],
    }
}

impl ProjectSpawn {
    /// The project to spawn when the document `document`, read from the file `input`, is
    /// loaded: the project named as the document, its levels and their layers in the
    /// document's order, each layer at the depth of its order. Items are not spawned.
    pub fn from_document(input: &str, document: &Document) -> (s: ProjectSpawn)
        ensures
            s@ == project_spawn_of(input@, document@),
    {
        let mut levels: Vec<LevelSpawn> = Vec::new();
        let mut i: usize = 0;
        while i < document.levels.len()
            invariant
                i <= document.levels.len(),
                levels.len() == i,
                forall|j: int| 0 <= j < i ==> #[trigger] levels[j]@ == level_spawn_of(document.levels[j]@),
            decreases document.levels.len() - i,
        {
            let level = &document.levels[i];
            let mut layers: Vec<LayerSpawn> = Vec::new();
            let mut k: usize = 0;
            while k < level.layers.len()
                invariant
                    k <= level.layers.len(),
                    layers.len() == k,
                    forall|j: int| 0 <= j < k ==> #[trigger] layers[j]@ == layer_spawn_of(level.layers[j]@),
                decreases level.layers.len() - k,
            {
                let layer = &level.layers[k];
                layers.push(LayerSpawn { name: layer.name.clone(), transform: Transform::from_z(layer.order) });
                k += 1;
            }
            proof {
                assert(layers@.map_values(|l: LayerSpawn| l@)
                    =~= level@.layers.map_values(|y: DocumentLayerView| layer_spawn_of(y)));
            }
            levels.push(LevelSpawn { name: level.name.clone(), layers });
            i += 1;
        }
        proof {
            assert(levels@.map_values(|l: LevelSpawn| l@)
                =~= document@.levels.map_values(|l: DocumentLevelView| level_spawn_of(l)));
        }
        ProjectSpawn { file: input.to_owned(), name: document.name.clone(), levels }
    }

    /// The project to spawn for a new project named `name`, associated with `file`.
    pub fn new_project(file: String, name: String) -> (s: ProjectSpawn)
        ensures
            s@ == new_project_spawn(file@, name@),
    {
        let layer = LayerSpawn { name: "default".to_owned(), transform: Transform::identity() };
        let mut layers: Vec<LayerSpawn> = Vec::new();
        layers.push(layer);
        let level = LevelSpawn { name: "default".to_owned(), layers };
        let mut levels: Vec<LevelSpawn> = Vec::new();
        levels.push(level);
        let s = ProjectSpawn { file, name, levels };
        proof {
            assert(s@.levels[0].layers =~= seq![LayerSpawnView { name: "default"@, transform: identity_transform() }]);
            assert(s@.levels =~= new_project_spawn(file@, name@).levels);
        }
        s
    }
}

/// The layer item `y` is the spawned layer `s`: same name and transform, visibility left at
/// its default, and no element among its children.
pub open spec fn layer_realizes(q: DungeonQueries, y: LayerQueryItem, s: LayerSpawnView) -> bool {
    &&& y.name@ == s.name
    &&& y.transform == s.transform
    &&& y.visibility == Visibility::Inherited
    &&& forall|i: int| 0 <= i < y.children@.len() ==> !has_item(q.elements@, #[trigger] y.children@[i])
}

/// The level item `l` is the spawned level `s`: same name, default visibility, and its
/// children are the spawned layers, in order.
pub open spec fn level_realizes(q: DungeonQueries, l: LevelQueryItem, s: LevelSpawnView) -> bool {
    &&& l.name@ == s.name
    &&& l.visibility == Visibility::Inherited
    &&& l.children@.len() == s.layers.len()
    &&& forall|i: int| 0 <= i < s.layers.len() ==> has_item(q.layers@, #[trigger] l.children@[i])
        && layer_realizes(q, item_of(q.layers@, l.children@[i]), s.layers[i])
}

/// What the hierarchy queries yield holds the spawned project `s` as the entity `p`: a
/// project with the same name and file whose children are the spawned levels, in order.
pub open spec fn realizes(q: DungeonQueries, p: u64, s: ProjectSpawnView) -> bool {
    &&& has_item(q.projects@, p)
    &&& item_of(q.projects@, p).name@ == s.name
    &&& item_of(q.projects@, p).project.file@ == s.file
    &&& item_of(q.projects@, p).children@.len() == s.levels.len()
    &&& forall|i: int| 0 <= i < s.levels.len() ==> has_item(q.levels@, #[trigger] item_of(q.projects@, p).children@[i])
        && level_realizes(q, item_of(q.levels@, item_of(q.projects@, p).children@[i]), s.levels[i])
}

/// The saved form of a loaded document: visibility is not restored and items are not
/// spawned, so every level and layer reads back as not visible and every layer as empty.
pub open spec fn loaded_document(d: DocumentView) -> DocumentView {
    DocumentView {
        name: d.name,
        levels: d.levels.map_values(|l: DocumentLevelView| DocumentLevelView {
            name: l.name,
            visible: false,
            layers: l.layers.map_values(|y: DocumentLayerView| DocumentLayerView {
                name: y.name,
                visible: false,
                order: y.order,
                items: Seq::<DocumentItemView>::empty(),
            }),
        }),
    }
}

/// When every child has an item, the items of the children are the children's items.
pub proof fn lemma_items_of_all<T: crate::hierarchy::EntityItem>(children: Seq<u64>, items: Seq<T>)
    requires
        forall|i: int| 0 <= i < children.len() ==> has_item(items, #[trigger] children[i]),
    ensures
        items_of(children, items) == children.map_values(|c: u64| item_of(items, c)),
    decreases children.len(),
{
    if children.len() > 0 {
        let rest = children.drop_last();
        assert forall|i: int| 0 <= i < rest.len() implies has_item(items, #[trigger] rest[i]) by {
            assert(rest[i] == children[i]);
        }
        lemma_items_of_all(rest, items);
        assert(has_item(items, children[children.len() - 1]));
        assert(children.map_values(|c: u64| item_of(items, c))
            =~= rest.map_values(|c: u64| item_of(items, c)).push(item_of(items, children.last())));
    } else {
        assert(children.map_values(|c: u64| item_of(items, c)) =~= Seq::<T>::empty());
    }
}

/// When no child has an item, the children have no items.
pub proof fn lemma_items_of_none<T: crate::hierarchy::EntityItem>(children: Seq<u64>, items: Seq<T>)
    requires
        forall|i: int| 0 <= i < children.len() ==> !has_item(items, #[trigger] children[i]),
    ensures
        items_of(children, items) == Seq::<T>::empty(),
    decreases children.len(),
{
    if children.len() > 0 {
        let rest = children.drop_last();
        assert forall|i: int| 0 <= i < rest.len() implies !has_item(items, #[trigger] rest[i]) by {
            assert(rest[i] == children[i]);
        }
        lemma_items_of_none(rest, items);
        assert(!has_item(items, children[children.len() - 1]));
    }
}

proof fn lemma_layer_round_trip(q: DungeonQueries, y: LayerQueryItem, d: DocumentLayerView)
    requires
        layer_realizes(q, y, layer_spawn_of(d)),
    ensures
        layer_doc(y, q) == (DocumentLayerView { name: d.name, visible: false, order: d.order, items: Seq::<DocumentItemView>::empty() }),
{
    lemma_items_of_none(y.children@, q.elements@);
    assert(items_of(y.children@, q.elements@).map_values(|e: ElementQueryItem| crate::document::item_doc(e))
        =~= Seq::<DocumentItemView>::empty());
}

proof fn lemma_level_round_trip(q: DungeonQueries, l: LevelQueryItem, d: DocumentLevelView)
    requires
        level_realizes(q, l, level_spawn_of(d)),
    ensures
        level_doc(l, q) == (DocumentLevelView {
            name: d.name,
            visible: false,
            layers: d.layers.map_values(|y: DocumentLayerView| DocumentLayerView {
                name: y.name,
                visible: false,
                order: y.order,
                items: Seq::<DocumentItemView>::empty(),
            }),
        }),
{
    let s = level_spawn_of(d);
    assert forall|i: int| 0 <= i < l.children@.len() implies has_item(q.layers@, #[trigger] l.children@[i]) by {
        assert(has_item(q.layers@, l.children@[i]) && layer_realizes(q, item_of(q.layers@, l.children@[i]), s.layers[i]));
    }
    lemma_items_of_all(l.children@, q.layers@);
    let found = items_of(l.children@, q.layers@);
    let expected = d.layers.map_values(|y: DocumentLayerView| DocumentLayerView {
        name: y.name,
        visible: false,
        order: y.order,
        items: Seq::<DocumentItemView>::empty(),
    });
    let mapped = found.map_values(|y: LayerQueryItem| layer_doc(y, q));
    assert forall|i: int| 0 <= i < d.layers.len() implies
        #[trigger] mapped[i] == expected[i] by {
        assert(has_item(q.layers@, l.children@[i]) && layer_realizes(q, item_of(q.layers@, l.children@[i]), s.layers[i]));
        assert(s.layers[i] == layer_spawn_of(d.layers[i]));
        lemma_layer_round_trip(q, item_of(q.layers@, l.children@[i]), d.layers[i]);
    }
    assert(mapped =~= expected);
}

/// Loading a document and saving the loaded project gives the document back, up to what
/// loading does not restore: whenever what the hierarchy queries yield holds the project
/// spawned for `d` as the entity `p`, the saved form of `p` is `d` with every level and layer
/// not visible and every layer without items.
pub proof fn lemma_load_then_save(q: DungeonQueries, p: u64, input: Seq<char>, d: DocumentView)
    requires
        realizes(q, p, project_spawn_of(input, d)),
    ensures
        project_doc(item_of(q.projects@, p), q) == loaded_document(d),
{
    let s = project_spawn_of(input, d);
    let item = item_of(q.projects@, p);
    assert forall|i: int| 0 <= i < item.children@.len() implies has_item(q.levels@, #[trigger] item.children@[i]) by {
        assert(has_item(q.levels@, item.children@[i]) && level_realizes(q, item_of(q.levels@, item.children@[i]), s.levels[i]));
    }
    lemma_items_of_all(item.children@, q.levels@);
    let found = items_of(item.children@, q.levels@);
    let expected = loaded_document(d).levels;
    let mapped = found.map_values(|l: LevelQueryItem| level_doc(l, q));
    assert forall|i: int| 0 <= i < d.levels.len() implies
        #[trigger] mapped[i] == expected[i] by {
        assert(has_item(q.levels@, item.children@[i]) && level_realizes(q, item_of(q.levels@, item.children@[i]), s.levels[i]));
        assert(s.levels[i] == level_spawn_of(d.levels[i]));
        lemma_level_round_trip(q, item_of(q.levels@, item.children@[i]), d.levels[i]);
    }
    assert(mapped =~= expected);
}

} // verus!
