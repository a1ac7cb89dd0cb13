//! The project hierarchy: projects contain levels, levels contain layers, layers contain
//! elements.
//!
//! The hierarchy is read from the entity-component store through four queries, one per kind
//! of entity. [`DungeonQueries`] holds what those queries yield: for every entity that has
//! all components a query asks for, one item with the entity's id and those components.
//! Floating-point components are carried as their bit patterns; nothing here computes with
//! them.
use vstd::prelude::*;

verus! {

/// Whether an entity is shown; `Inherited` follows the parent.
#[derive(Debug, Clone, Copy, PartialEq, Eq, Structural)]
pub enum Visibility {
    Inherited,
    Hidden,
    Visible,
}

/// Only an explicitly visible entity counts as visible.
pub open spec fn visible_spec(v: Visibility) -> bool {
    v == Visibility::Visible
}

/// Returns whether the visibility is [`Visibility::Visible`]; both `Inherited` and `Hidden`
/// count as not visible.
pub fn is_visible(v: &Visibility) -> (b: bool)
    ensures
        b == visible_spec(*v),
{
    match v {
        Visibility::Inherited | Visibility::Hidden => false,
        Visibility::Visible => true,
    }
}

/// A three-component vector of `f32`, as bit patterns.
#[derive(Debug, Clone, Copy, PartialEq, Eq, Structural)]
pub struct Vec3Bits {
    pub x: u32,
    pub y: u32,
    pub z: u32,
}

/// A quaternion of `f32`, as bit patterns.
#[derive(Debug, Clone, Copy, PartialEq, Eq, Structural)]
pub struct QuatBits {
    pub x: u32,
    pub y: u32,
    pub z: u32,
    pub w: u32,
}

/// Position, rotation and scale of an entity, as bit patterns of `f32`.
#[derive(Debug, Clone, Copy, PartialEq, Eq, Structural)]
pub struct Transform {
    pub translation: Vec3Bits,
    pub rotation: QuatBits,
    pub scale: Vec3Bits,
}

/// The bit pattern of `1.0f32`.
pub const ONE_F32_BITS: u32 = 0x3f80_0000u32;

/// The transform that changes nothing: no translation, no rotation, unit scale.
pub open spec fn identity_transform() -> Transform {
    Transform {
        translation: Vec3Bits { x: 0, y: 0, z: 0 },
        rotation: QuatBits { x: 0, y: 0, z: 0, w: ONE_F32_BITS },
        scale: Vec3Bits { x: ONE_F32_BITS, y: ONE_F32_BITS, z: ONE_F32_BITS },
    }
}

impl Transform {
    /// The identity transform (also the default one).
    pub fn identity() -> (t: Transform)
        ensures
            t == identity_transform(),
    {
        Transform {
            translation: Vec3Bits { x: 0, y: 0, z: 0 },
            rotation: QuatBits { x: 0, y: 0, z: 0, w: ONE_F32_BITS },
            scale: Vec3Bits { x: ONE_F32_BITS, y: ONE_F32_BITS, z: ONE_F32_BITS },
        }
    }

    /// The identity transform moved to depth `z` (the bit pattern of an `f32`).
    pub fn from_z(z: u32) -> (t: Transform)
        ensures
            t == (Transform { translation: Vec3Bits { x: 0, y: 0, z }, ..identity_transform() }),
    {
        Transform {
            translation: Vec3Bits { x: 0, y: 0, z },
            rotation: QuatBits { x: 0, y: 0, z: 0, w: ONE_F32_BITS },
            scale: Vec3Bits { x: ONE_F32_BITS, y: ONE_F32_BITS, z: ONE_F32_BITS },
        }
    }
}

/// Marks the top-level entity of a map; only what lies under a project is saved or exported.
#[derive(Debug)]
pub struct Project {
    /// The file this project is associated with (it may not exist yet).
    pub file: String,
}

/// Marks a level: one floor or area of a project.
#[derive(Debug, Clone, Copy, Default)]
pub struct Level;

/// Marks a layer: one editing plane within a level.
#[derive(Debug, Clone, Copy, Default)]
pub struct Layer;

/// The content of an element: what is placed on a layer.
#[derive(Debug)]
pub enum Element {
    /// An object showing the asset with the given id.
    Object(String),
}

impl Element {
    /// An object element for the asset `id`.
    pub fn new_object(id: String) -> (e: Element)
        ensures
            e == Element::Object(id),
    {
        Element::Object(id)
    }
}

/// Items that belong to an entity.
pub trait EntityItem {
    /// The entity this item belongs to.
    spec fn entity_of(&self) -> u64;

    /// The entity this item belongs to.
    fn entity(&self) -> (e: u64)
        ensures
            e == self.entity_of();
}

/// What the project query yields for one entity.
#[derive(Debug)]
pub struct ProjectQueryItem {
    pub entity: u64,
    pub name: String,
    pub children: Vec<u64>,
    pub project: Project,
}

/// What the level query yields for one entity.
#[derive(Debug)]
pub struct LevelQueryItem {
    pub entity: u64,
    pub level: Level,
    pub name: String,
    pub children: Vec<u64>,
    pub visibility: Visibility,
}

/// What the layer query yields for one entity.
#[derive(Debug)]
pub struct LayerQueryItem {
    pub entity: u64,
    pub layer: Layer,
    pub name: String,
    pub transform: Transform,
    pub children: Vec<u64>,
    pub visibility: Visibility,
}

/// What the element query yields for one entity.
#[derive(Debug)]
pub struct ElementQueryItem {
    pub entity: u64,
    pub element: Element,
    pub name: String,
    pub transform: Transform,
    pub visibility: Visibility,
}

impl EntityItem for ProjectQueryItem {
    open spec fn entity_of(&self) -> u64 {
        self.entity
    }

    fn entity(&self) -> (e: u64) {
        self.entity
    }
}

impl EntityItem for LevelQueryItem {
    open spec fn entity_of(&self) -> u64 {
        self.entity
    }

    fn entity(&self) -> (e: u64) {
        self.entity
    }
}

impl EntityItem for LayerQueryItem {
    open spec fn entity_of(&self) -> u64 {
        self.entity
    }

    fn entity(&self) -> (e: u64) {
        self.entity
    }
}

impl EntityItem for ElementQueryItem {
    open spec fn entity_of(&self) -> u64 {
        self.entity
    }

    fn entity(&self) -> (e: u64) {
        self.entity
    }
}

impl LevelQueryItem {
    /// Returns whether the level is visible.
    pub fn is_visible(&self) -> (b: bool)
        ensures
            b == visible_spec(self.visibility),
    {
        is_visible(&self.visibility)
    }
}

impl LayerQueryItem {
    /// Returns whether the layer is visible.
    pub fn is_visible(&self) -> (b: bool)
        ensures
            b == visible_spec(self.visibility),
    {
        is_visible(&self.visibility)
    }
}

/// No entity has two items.
pub open spec fn unique_entities<T: EntityItem>(items: Seq<T>) -> bool {
    forall|i: int, j: int|
        0 <= i < items.len() && 0 <= j < items.len() && i != j ==> #[trigger] items[i].entity_of()
            != #[trigger] items[j].entity_of()
}

/// Some item belongs to `e`.
pub open spec fn has_item<T: EntityItem>(items: Seq<T>, e: u64) -> bool {
    exists|i: int| 0 <= i < items.len() && #[trigger] items[i].entity_of() == e
}

/// The item that belongs to `e`.
pub open spec fn item_of<T: EntityItem>(items: Seq<T>, e: u64) -> T {
    items[choose|i: int| 0 <= i < items.len() && #[trigger] items[i].entity_of() == e]
}

/// The items that belong to `children`, in the children's order; children without an item
/// are skipped.
pub open spec fn items_of<T: EntityItem>(children: Seq<u64>, items: Seq<T>) -> Seq<T>
    decreases children.len(),
{
    if children.len() == 0 {
        Seq::empty()
    } else {
        let rest = items_of(children.drop_last(), items);
        if has_item(items, children.last()) {
            rest.push(item_of(items, children.last()))
        } else {
            rest
        }
    }
}

proof fn lemma_item_of<T: EntityItem>(items: Seq<T>, i: int)
    requires
        unique_entities(items),
        0 <= i < items.len(),
    ensures
        has_item(items, items[i].entity_of()),
        item_of(items, items[i].entity_of()) == items[i],
{
    let e = items[i].entity_of();
    assert(items[i].entity_of() == e);
    let j = choose|j: int| 0 <= j < items.len() && #[trigger] items[j].entity_of() == e;
    if j != i {
        assert(items[j].entity_of() != items[i].entity_of());
    }
}

/// Looks up the item of `e`.
pub fn find_item<'a, T: EntityItem>(items: &'a Vec<T>, e: u64) -> (r: Option<&'a T>)
    requires
        unique_entities(items@),
    ensures
        match r {
            Some(x) => has_item(items@, e) && *x == item_of(items@, e),
            None => !has_item(items@, e),
        },
{
    let mut i: usize = 0;
    while i < items.len()
        invariant
            i <= items.len(),
            unique_entities(items@),
            forall|j: int| 0 <= j < i ==> #[trigger] items@[j].entity_of() != e,
        decreases items.len() - i,
    {
        if items[i].entity() == e {
            proof {
                lemma_item_of(items@, i as int);
            }
            return Some(&items[i]);
        }
        i += 1;
    }
    None
}

/// The items that belong to `children`, in the children's order, skipping children without
/// an item.
pub fn find_items<'a, T: EntityItem>(children: &Vec<u64>, items: &'a Vec<T>) -> (r: Vec<&'a T>)
    requires
        unique_entities(items@),
    ensures
        r.len() == items_of(children@, items@).len(),
        forall|i: int| 0 <= i < r.len() ==> *#[trigger] r[i] == items_of(children@, items@)[i],
{
    let mut r: Vec<&'a T> = Vec::new();
    let mut i: usize = 0;
    while i < children.len()
        invariant
            i <= children.len(),
            unique_entities(items@),
            r.len() == items_of(children@.take(i as int), items@).len(),
            forall|j: int| 0 <= j < r.len() ==> *#[trigger] r[j] == items_of(children@.take(i as int), items@)[j],
        decreases children.len() - i,
    {
        let c = children[i];
        proof {
            assert(children@.take(i + 1).drop_last() =~= children@.take(i as int));
            assert(children@.take(i + 1).last() == c);
        }
        match find_item(items, c) {
            Some(x) => {
                r.push(x);
            },
            None => {},
        }
        i += 1;
    }
    proof {
        assert(children@.take(i as int) =~= children@);
    }
    r
}

/// What the four hierarchy queries yield.
#[derive(Debug)]
pub struct DungeonQueries {
    pub projects: Vec<ProjectQueryItem>,
    pub levels: Vec<LevelQueryItem>,
    pub layers: Vec<LayerQueryItem>,
    pub elements: Vec<ElementQueryItem>,
}

impl DungeonQueries {
    /// A query yields at most one item per entity.
    pub open spec fn wf(&self) -> bool {
        &&& unique_entities(self.projects@)
        &&& unique_entities(self.levels@)
        &&& unique_entities(self.layers@)
        &&& unique_entities(self.elements@)
    }

    /// The levels among the children of the project `project`, in child order; none when
    /// `project` is not a project.
    pub open spec fn levels_of(&self, project: u64) -> Seq<LevelQueryItem> {
        if has_item(self.projects@, project) {
            items_of(item_of(self.projects@, project).children@, self.levels@)
        } else {
            Seq::empty()
        }
    }

    /// The layers among the children of the level `level`, in child order; none when `level`
    /// is not a level.
    pub open spec fn layers_of(&self, level: u64) -> Seq<LayerQueryItem> {
        if has_item(self.levels@, level) {
            items_of(item_of(self.levels@, level).children@, self.layers@)
        } else {
            Seq::empty()
        }
    }

    /// The elements among the children of the layer `layer`, in child order; none when
    /// `layer` is not a layer.
    pub open spec fn elements_of(&self, layer: u64) -> Seq<ElementQueryItem> {
        if has_item(self.layers@, layer) {
            items_of(item_of(self.layers@, layer).children@, self.elements@)
        } else {
            Seq::empty()
        }
    }

    /// Gets all levels that belong to the project `project_entity`: the children of the
    /// project that are levels, in order. Empty when the entity is not a project.
    pub fn levels_for_project(&self, project_entity: u64) -> (r: Vec<&LevelQueryItem>)
        requires
            self.wf(),
        ensures
            r.len() == self.levels_of(project_entity).len(),
            forall|i: int| 0 <= i < r.len() ==> *#[trigger] r[i] == self.levels_of(project_entity)[i],
    {
        match find_item(&self.projects, project_entity) {
            Some(p) => find_items(&p.children, &self.levels),
            None => Vec::new(),
        }
    }

    /// Gets all layers that belong to the level `level_entity`: the children of the level
    /// that are layers, in order. Empty when the entity is not a level.
    pub fn layers_for_level(&self, level_entity: u64) -> (r: Vec<&LayerQueryItem>)
        requires
            self.wf(),
        ensures
            r.len() == self.layers_of(level_entity).len(),
            forall|i: int| 0 <= i < r.len() ==> *#[trigger] r[i] == self.layers_of(level_entity)[i],
    {
        match find_item(&self.levels, level_entity) {
            Some(l) => find_items(&l.children, &self.layers),
            None => Vec::new(),
        }
    }

    /// Gets all elements that belong to the layer `layer_entity`: the children of the layer
    /// that are elements, in order. Empty when the entity is not a layer.
    pub fn elements_for_layer(&self, layer_entity: u64) -> (r: Vec<&ElementQueryItem>)
        requires
            self.wf(),
        ensures
            r.len() == self.elements_of(layer_entity).len(),
            forall|i: int| 0 <= i < r.len() ==> *#[trigger] r[i] == self.elements_of(layer_entity)[i],
    {
        match find_item(&self.layers, layer_entity) {
            Some(l) => find_items(&l.children, &self.elements),
            None => Vec::new(),
        }
    }
}

} // verus!
