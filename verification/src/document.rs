//! The [`Document`] types are what a project is saved as and loaded from: a simplified tree
//! of the project's levels, layers and items.
use vstd::prelude::*;
use crate::hierarchy::{
    DungeonQueries, Element, ElementQueryItem, LayerQueryItem, LevelQueryItem, ProjectQueryItem,
    QuatBits, Vec3Bits, find_items, items_of, visible_spec,
};

verus! {

/// A saved project.
#[derive(Debug)]
pub struct Document {
    /// The project's name.
    pub name: String,
    /// The project's levels, in child order.
    pub levels: Vec<DocumentLevel>,
}

/// A saved level.
#[derive(Debug)]
pub struct DocumentLevel {
    pub name: String,
    /// Whether the level is visible in the editor.
    pub visible: bool,
    /// The level's layers, in child order.
    pub layers: Vec<DocumentLayer>,
}

/// A saved layer.
#[derive(Debug)]
pub struct DocumentLayer {
    pub name: String,
    /// Whether the layer is visible in the editor.
    pub visible: bool,
    /// The layer's order: the depth of its translation (bit pattern of an `f32`).
    pub order: u32,
    /// The layer's items, in child order.
    pub items: Vec<DocumentItem>,
}

/// A saved item: what is visible on a layer.
#[derive(Debug)]
pub enum DocumentItem {
    /// An object showing the asset `id`, placed by the given transform components.
    Object { id: String, translation: Vec3Bits, rotation: QuatBits, scale: Vec3Bits },
}

/// The abstract form of a [`DocumentItem`].
pub enum DocumentItemView {
    Object { id: Seq<char>, translation: Vec3Bits, rotation: QuatBits, scale: Vec3Bits },
}

/// The abstract form of a [`DocumentLayer`].
pub struct DocumentLayerView {
    pub name: Seq<char>,
    pub visible: bool,
    pub order: u32,
    pub items: Seq<DocumentItemView>,
}

/// The abstract form of a [`DocumentLevel`].
pub struct DocumentLevelView {
    pub name: Seq<char>,
    pub visible: bool,
    pub layers: Seq<DocumentLayerView>,
}

/// The abstract form of a [`Document`].
pub struct DocumentView {
    pub name: Seq<char>,
    pub levels: Seq<DocumentLevelView>,
}

impl View for DocumentItem {
    type V = DocumentItemView;

    open spec fn view(&self) -> DocumentItemView {
        match self {
            DocumentItem::Object { id, translation, rotation, scale } => DocumentItemView::Object {
                id: id@,
                translation: *translation,
                rotation: *rotation,
                scale: *scale,
            },
        }
    }
}

impl View for DocumentLayer {
    type V = DocumentLayerView;

    open spec fn view(&self) -> DocumentLayerView {
        DocumentLayerView {
            name: self.name@,
            visible: self.visible,
            order: self.order,
            items: self.items@.map_values(|i: DocumentItem| i@),
        }
    }
}

impl View for DocumentLevel {
    type V = DocumentLevelView;

    open spec fn view(&self) -> DocumentLevelView {
        DocumentLevelView {
            name: self.name@,
            visible: self.visible,
            layers: self.layers@.map_values(|l: DocumentLayer| l@),
        }
    }
}

impl View for Document {
    type V = DocumentView;

    open spec fn view(&self) -> DocumentView {
        DocumentView { name: self.name@, levels: self.levels@.map_values(|l: DocumentLevel| l@) }
    }
}

/// The saved form of an element.
pub open spec fn item_doc(e: ElementQueryItem) -> DocumentItemView {
    match e.element {
        Element::Object(id) => DocumentItemView::Object {
            id: id@,
            translation: e.transform.translation,
            rotation: e.transform.rotation,
            scale: e.transform.scale,
        },
    }
}

/// The saved form of a layer: its name, visibility, depth, and the elements among its
/// children.
pub open spec fn layer_doc(l: LayerQueryItem, q: DungeonQueries) -> DocumentLayerView {
    DocumentLayerView {
        name: l.name@,
        visible: visible_spec(l.visibility),
        order: l.transform.translation.z,
        items: items_of(l.children@, q.elements@).map_values(|e: ElementQueryItem| item_doc(e)),
    }
}

/// The saved form of a level: its name, visibility and the layers among its children.
pub open spec fn level_doc(l: LevelQueryItem, q: DungeonQueries) -> DocumentLevelView {
    DocumentLevelView {
        name: l.name@,
        visible: visible_spec(l.visibility),
        layers: items_of(l.children@, q.layers@).map_values(|y: LayerQueryItem| layer_doc(y, q)),
    }
}

/// The saved form of a project: its name and the levels among its children.
pub open spec fn project_doc(p: ProjectQueryItem, q: DungeonQueries) -> DocumentView {
    DocumentView {
        name: p.name@,
        levels: items_of(p.children@, q.levels@).map_values(|l: LevelQueryItem| level_doc(l, q)),
    }
}

/// The saved item of an element carries the element's asset id and its transform unchanged:
/// the translation, rotation and scale of the item are those of the element.
pub proof fn lemma_saved_item_keeps_element(e: ElementQueryItem)
    ensures
        match (item_doc(e), e.element) {
            (DocumentItemView::Object { id, translation, rotation, scale }, Element::Object(asset)) => {
                &&& id == asset@
                &&& translation == e.transform.translation
                &&& rotation == e.transform.rotation
                &&& scale == e.transform.scale
            },
        },
{
}

/// Every item of a saved layer is the saved form of the element child in the same place, so
/// it carries that element's asset id and transform unchanged.
pub proof fn lemma_saved_layer_keeps_elements(l: LayerQueryItem, q: DungeonQueries)
    ensures
        layer_doc(l, q).items.len() == items_of(l.children@, q.elements@).len(),
        forall|k: int| 0 <= k < layer_doc(l, q).items.len() ==> match (
            #[trigger] layer_doc(l, q).items[k],
            items_of(l.children@, q.elements@)[k].element,
        ) {
            (DocumentItemView::Object { id, translation, rotation, scale }, Element::Object(asset)) => {
                &&& id == asset@
                &&& translation == items_of(l.children@, q.elements@)[k].transform.translation
                &&& rotation == items_of(l.children@, q.elements@)[k].transform.rotation
                &&& scale == items_of(l.children@, q.elements@)[k].transform.scale
            },
        },
{
    assert forall|k: int| 0 <= k < layer_doc(l, q).items.len() implies match (
        #[trigger] layer_doc(l, q).items[k],
        items_of(l.children@, q.elements@)[k].element,
    ) {
        (DocumentItemView::Object { id, translation, rotation, scale }, Element::Object(asset)) => {
            &&& id == asset@
            &&& translation == items_of(l.children@, q.elements@)[k].transform.translation
            &&& rotation == items_of(l.children@, q.elements@)[k].transform.rotation
            &&& scale == items_of(l.children@, q.elements@)[k].transform.scale
        },
    } by {
        lemma_saved_item_keeps_element(items_of(l.children@, q.elements@)[k]);
    }
}

impl DocumentItem {
    /// The saved form of the element `value`.
    pub fn new(value: &ElementQueryItem) -> (d: DocumentItem)
        ensures
            d@ == item_doc(*value),
            match (d, value.element) {
                (DocumentItem::Object { id, translation, rotation, scale }, Element::Object(asset)) => {
                    &&& id@ == asset@
                    &&& translation == value.transform.translation
                    &&& rotation == value.transform.rotation
                    &&& scale == value.transform.scale
                },
            },
    {
        match &value.element {
            Element::Object(id) => DocumentItem::Object {
                id: id.clone(),
                translation: value.transform.translation,
                rotation: value.transform.rotation,
                scale: value.transform.scale,
            },
        }
    }
}

impl DocumentLayer {
    /// The saved form of the layer `value`, with the elements among its children.
    pub fn new(value: &LayerQueryItem, queries: &DungeonQueries) -> (d: DocumentLayer)
        requires
            queries.wf(),
        ensures
            d@ == layer_doc(*value, *queries),
    {
        let found = find_items(&value.children, &queries.elements);
        let ghost expected = items_of(value.children@, queries.elements@);
        let mut items: Vec<DocumentItem> = Vec::new();
        let mut i: usize = 0;
        while i < found.len()
            invariant
                i <= found.len(),
                found.len() == expected.len(),
                forall|j: int| 0 <= j < found.len() ==> *#[trigger] found[j] == expected[j],
                items.len() == i,
                forall|j: int| 0 <= j < i ==> #[trigger] items[j]@ == item_doc(expected[j]),
            decreases found.len() - i,
        {
            items.push(DocumentItem::new(found[i]));
            i += 1;
        }
        proof {
            assert(items@.map_values(|i: DocumentItem| i@)
                =~= expected.map_values(|e: ElementQueryItem| item_doc(e)));
        }
        DocumentLayer {
            name: value.name.clone(),
            visible: value.is_visible(),
            order: value.transform.translation.z,
            items,
        }
    }
}

impl DocumentLevel {
    /// The saved form of the level `value`, with the layers among its children.
    pub fn new(value: &LevelQueryItem, queries: &DungeonQueries) -> (d: DocumentLevel)
        requires
            queries.wf(),
        ensures
            d@ == level_doc(*value, *queries),
    {
        let found = find_items(&value.children, &queries.layers);
        let ghost expected = items_of(value.children@, queries.layers@);
        let mut layers: Vec<DocumentLayer> = Vec::new();
        let mut i: usize = 0;
        while i < found.len()
            invariant
                queries.wf(),
                i <= found.len(),
                found.len() == expected.len(),
                forall|j: int| 0 <= j < found.len() ==> *#[trigger] found[j] == expected[j],
                layers.len() == i,
                forall|j: int| 0 <= j < i ==> #[trigger] layers[j]@ == layer_doc(expected[j], *queries),
            decreases found.len() - i,
        {
            layers.push(DocumentLayer::new(found[i], queries));
            i += 1;
        }
        proof {
            assert(layers@.map_values(|l: DocumentLayer| l@)
                =~= expected.map_values(|y: LayerQueryItem| layer_doc(y, *queries)));
        }
        DocumentLevel { name: value.name.clone(), visible: value.is_visible(), layers }
    }
}

impl Document {
    /// The saved form of the project `value`, with the levels among its children and,
    /// below them, their layers and the layers' elements, all in child order.
    pub fn new(value: &ProjectQueryItem, queries: &DungeonQueries) -> (d: Document)
        requires
            queries.wf(),
        ensures
            d@ == project_doc(*value, *queries),
    {
        let found = find_items(&value.children, &queries.levels);
        let ghost expected = items_of(value.children@, queries.levels@);
        let mut levels: Vec<DocumentLevel> = Vec::new();
        let mut i: usize = 0;
        while i < found.len()
            invariant
                queries.wf(),
                i <= found.len(),
                found.len() == expected.len(),
                forall|j: int| 0 <= j < found.len() ==> *#[trigger] found[j] == expected[j],
                levels.len() == i,
                forall|j: int| 0 <= j < i ==> #[trigger] levels[j]@ == level_doc(expected[j], *queries),
            decreases found.len() - i,
        {
            levels.push(DocumentLevel::new(found[i], queries));
            i += 1;
        }
        proof {
            assert(levels@.map_values(|l: DocumentLevel| l@)
                =~= expected.map_values(|l: LevelQueryItem| level_doc(l, *queries)));
        }
        Document { name: value.name.clone(), levels }
    }
}

} // verus!
