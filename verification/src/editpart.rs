//! Edit parts, which connect scene blocks to the editor, and the registry
//! that owns them.

use std::collections::HashMap;

use slotmap::{DefaultKey, SlotMap};
use vstd::prelude::*;

verus! {

broadcast use vstd::std_specs::hash::group_hash_axioms;

#[verifier::external_type_specification]
#[verifier::external_body]
pub struct ExDefaultKey(DefaultKey);

/// Identifies an edit part in its registry.
pub type EditPartId = DefaultKey;

/// Identifies a block of the scene.
pub type BlockId = u64;

/// `==` on slot map keys, which slotmap derives field by field.
#[verifier::external_body]
fn same_part_id(a: EditPartId, b: EditPartId) -> (r: bool)
    ensures
        r == (a == b),
{
    a == b
}

/// `ids` without the occurrences of `id`.
pub open spec fn without_id(ids: Seq<EditPartId>, id: EditPartId) -> Seq<EditPartId> {
    ids.filter(|c: EditPartId| c != id)
}

/// An editing component: its identity, where it sits in the part tree, and
/// whether it is selected and visible.
pub trait EditPart {
    fn id(&self) -> EditPartId;
    fn block_id(&self) -> BlockId;
    fn parent(&self) -> Option<EditPartId>;
    fn set_parent(&mut self, parent: Option<EditPartId>);
    fn get_name(&self) -> &str;
    fn is_selected(&self) -> bool;
    fn set_selected(&mut self, selected: bool);
    fn is_visible(&self) -> bool;
    fn set_visible(&mut self, visible: bool);
    fn refresh<S>(&mut self, scene: &S);
    fn add_child(&mut self, child: &Self);
    fn remove_child(&mut self, child_id: EditPartId);
    fn children(&self) -> &[EditPartId];
    fn activate(&mut self);
    fn deactivate(&mut self);
}

/// The edit part of one block of the scene.
pub struct GraphicalEditPart {
    id: EditPartId,
    block_id: BlockId,
    parent: Option<EditPartId>,
    children: Vec<EditPartId>,
    name: String,
    selected: bool,
    visible: bool,
}

impl GraphicalEditPart {
    pub closed spec fn id_spec(&self) -> EditPartId {
        self.id
    }

    pub closed spec fn block_spec(&self) -> BlockId {
        self.block_id
    }

    pub closed spec fn parent_spec(&self) -> Option<EditPartId> {
        self.parent
    }

    pub closed spec fn children_spec(&self) -> Seq<EditPartId> {
        self.children@
    }

    pub closed spec fn name_spec(&self) -> Seq<char> {
        self.name@
    }

    pub closed spec fn selected_spec(&self) -> bool {
        self.selected
    }

    pub closed spec fn visible_spec(&self) -> bool {
        self.visible
    }

    /// This part with another parent.
    pub closed spec fn with_parent(self, parent: Option<EditPartId>) -> Self {
        GraphicalEditPart { parent, ..self }
    }

    /// This part with its selection set to `selected`.
    pub closed spec fn with_selected(self, selected: bool) -> Self {
        GraphicalEditPart { selected, ..self }
    }

    /// This part with its visibility set to `visible`.
    pub closed spec fn with_visible(self, visible: bool) -> Self {
        GraphicalEditPart { visible, ..self }
    }

    /// A visible, unselected part with no parent and no children.
    pub fn new(id: EditPartId, block_id: BlockId, name: &str) -> (p: Self)
        ensures
            p.id_spec() == id,
            p.block_spec() == block_id,
            p.parent_spec() == None::<EditPartId>,
            p.children_spec() == Seq::<EditPartId>::empty(),
            p.name_spec() == name@,
            !p.selected_spec(),
            p.visible_spec(),
    {
        GraphicalEditPart {
            id,
            block_id,
            parent: None,
            children: Vec::new(),
            name: name.to_string(),
            selected: false,
            visible: true,
        }
    }
}

impl EditPart for GraphicalEditPart {
    fn id(&self) -> (r: EditPartId)
        ensures
            r == self.id_spec(),
    {
        self.id
    }

    fn block_id(&self) -> (r: BlockId)
        ensures
            r == self.block_spec(),
    {
        self.block_id
    }

    fn parent(&self) -> (r: Option<EditPartId>)
        ensures
            r == self.parent_spec(),
    {
        self.parent
    }

    fn set_parent(&mut self, parent: Option<EditPartId>)
        ensures
            *final(self) == old(self).with_parent(parent),
    {
        self.parent = parent;
    }

    fn get_name(&self) -> (r: &str)
        ensures
            r@ == self.name_spec(),
    {
        self.name.as_str()
    }

    fn is_selected(&self) -> (r: bool)
        ensures
            r == self.selected_spec(),
    {
        self.selected
    }

    fn set_selected(&mut self, selected: bool)
        ensures
            *final(self) == old(self).with_selected(selected),
    {
        self.selected = selected;
    }

    fn is_visible(&self) -> (r: bool)
        ensures
            r == self.visible_spec(),
    {
        self.visible
    }

    fn set_visible(&mut self, visible: bool)
        ensures
            *final(self) == old(self).with_visible(visible),
    {
        self.visible = visible;
    }

    /// Brings the part up to date with the scene; a graphical part keeps no
    /// state derived from the scene, so nothing changes.
    fn refresh<S>(&mut self, scene: &S)
        ensures
            *final(self) == *old(self),
    {
    }

    /// Records `child` as the last child.
    fn add_child(&mut self, child: &Self)
        ensures
            final(self).children_spec() == old(self).children_spec().push(child.id_spec()),
            final(self).id_spec() == old(self).id_spec(),
            final(self).block_spec() == old(self).block_spec(),
            final(self).parent_spec() == old(self).parent_spec(),
            final(self).name_spec() == old(self).name_spec(),
            final(self).selected_spec() == old(self).selected_spec(),
            final(self).visible_spec() == old(self).visible_spec(),
    {
        self.children.push(child.id);
    }

    /// Forgets every record of the child `child_id`, keeping the order of
    /// the others.
    fn remove_child(&mut self, child_id: EditPartId)
        ensures
            final(self).children_spec() == without_id(old(self).children_spec(), child_id),
            final(self).id_spec() == old(self).id_spec(),
            final(self).block_spec() == old(self).block_spec(),
            final(self).parent_spec() == old(self).parent_spec(),
            final(self).name_spec() == old(self).name_spec(),
            final(self).selected_spec() == old(self).selected_spec(),
            final(self).visible_spec() == old(self).visible_spec(),
    {
        let mut kept: Vec<EditPartId> = Vec::new();
        let n = self.children.len();
        let mut i: usize = 0;
        while i < n
            invariant
                n == self.children@.len(),
                i <= n,
                kept@ == without_id(self.children@.subrange(0, i as int), child_id),
            decreases n - i,
        {
            let c = self.children[i];
            proof {
                let s = self.children@.subrange(0, i + 1);
                assert(s.drop_last() =~= self.children@.subrange(0, i as int));
                reveal_with_fuel(Seq::filter, 1);
            }
            if !same_part_id(c, child_id) {
                kept.push(c);
            }
            i = i + 1;
        }
        proof {
            assert(self.children@.subrange(0, n as int) =~= self.children@);
        }
        self.children = kept;
    }

    fn children(&self) -> (r: &[EditPartId])
        ensures
            r@ == self.children_spec(),
    {
        self.children.as_slice()
    }

    fn activate(&mut self)
        ensures
            *final(self) == *old(self),
    {
    }

    fn deactivate(&mut self)
        ensures
            *final(self) == *old(self),
    {
    }
}

/// The slot map that owns the registered parts.
#[verifier::external_body]
pub struct PartSlots {
    slots: SlotMap<EditPartId, GraphicalEditPart>,
}

/// The parts a slot map holds, by key.
pub uninterp spec fn slot_parts(m: PartSlots) -> Map<EditPartId, GraphicalEditPart>;

impl PartSlots {
    /// `SlotMap::with_key`: an empty slot map.
    #[verifier::external_body]
    fn new() -> (fresh: PartSlots)
        ensures
            slot_parts(fresh) =~= Map::empty(),
    {
        PartSlots { slots: SlotMap::with_key() }
    }

    /// `SlotMap::insert`: stores `part` under a key that was not in use and
    /// returns the key. It panics only when the map already holds
    /// `u32::MAX - 1` values and has no free slot, which `requires` rules out.
    #[verifier::external_body]
    fn insert(&mut self, part: GraphicalEditPart) -> (k: EditPartId)
        requires
            slot_parts(*old(self)).len() < u32::MAX - 1,
        ensures
            !slot_parts(*old(self)).contains_key(k),
            slot_parts(*final(self)) == slot_parts(*old(self)).insert(k, part),
    {
        self.slots.insert(part)
    }

    /// `SlotMap::remove`: takes out the value stored under `k`, if any.
    #[verifier::external_body]
    fn remove(&mut self, k: EditPartId) -> (r: Option<GraphicalEditPart>)
        ensures
            slot_parts(*final(self)) == slot_parts(*old(self)).remove(k),
            r == if slot_parts(*old(self)).contains_key(k) {
                Some(slot_parts(*old(self))[k])
            } else {
                None
            },
    {
        self.slots.remove(k)
    }

    /// `SlotMap::get`: the value stored under `k`, if any.
    #[verifier::external_body]
    fn get(&self, k: EditPartId) -> (r: Option<&GraphicalEditPart>)
        ensures
            r == if slot_parts(*self).contains_key(k) {
                Some(&slot_parts(*self)[k])
            } else {
                None
            },
    {
        self.slots.get(k)
    }

    /// `SlotMap::get_mut`: the value stored under `k`, if any, to change in
    /// place.
    #[verifier::external_body]
    fn get_mut(&mut self, k: EditPartId) -> (r: Option<&mut GraphicalEditPart>)
        ensures
            match r {
                Some(p) => {
                    &&& slot_parts(*old(self)).contains_key(k)
                    &&& *p == slot_parts(*old(self))[k]
                    &&& slot_parts(*final(self)) == slot_parts(*old(self)).insert(k, *final(p))
                },
                None => {
                    &&& !slot_parts(*old(self)).contains_key(k)
                    &&& slot_parts(*final(self)) == slot_parts(*old(self))
                },
            },
    {
        self.slots.get_mut(k)
    }

    /// `SlotMap::len`: how many values the map holds.
    #[verifier::external_body]
    fn len(&self) -> (n: usize)
        ensures
            n == slot_parts(*self).len(),
    {
        self.slots.len()
    }
}

/// Every block recorded in `blocks` maps to a registered part of that
/// block.
pub open spec fn consistent(parts: Map<EditPartId, GraphicalEditPart>, blocks: Map<BlockId, EditPartId>) -> bool {
    forall|b: BlockId| #[trigger]
        blocks.contains_key(b) ==> parts.contains_key(blocks[b]) && parts[blocks[b]].block_spec() == b
}

/// The part found for block `b`.
pub open spec fn part_of_block(
    parts: Map<EditPartId, GraphicalEditPart>,
    blocks: Map<BlockId, EditPartId>,
    b: BlockId,
) -> Option<GraphicalEditPart> {
    if blocks.contains_key(b) && parts.contains_key(blocks[b]) {
        Some(parts[blocks[b]])
    } else {
        None
    }
}

/// Owns the edit parts and finds them by id or by block.
pub struct EditPartRegistry {
    parts: PartSlots,
    block_to_part: HashMap<BlockId, EditPartId>,
}

impl EditPartRegistry {
    /// The registered parts, by id.
    pub closed spec fn parts_spec(&self) -> Map<EditPartId, GraphicalEditPart> {
        slot_parts(self.parts)
    }

    /// The part id recorded for each block.
    pub closed spec fn blocks_spec(&self) -> Map<BlockId, EditPartId> {
        self.block_to_part@
    }

    /// An empty registry.
    pub fn new() -> (r: Self)
        ensures
            r.parts_spec() == Map::<EditPartId, GraphicalEditPart>::empty(),
            r.blocks_spec() == Map::<BlockId, EditPartId>::empty(),
    {
        EditPartRegistry { parts: PartSlots::new(), block_to_part: HashMap::new() }
    }

    /// Registers `part` under a fresh id, which also becomes the part of its
    /// block; returns the id.
    pub fn register(&mut self, part: GraphicalEditPart) -> (id: EditPartId)
        requires
            old(self).parts_spec().len() < u32::MAX - 1,
        ensures
            !old(self).parts_spec().contains_key(id),
            final(self).parts_spec() == old(self).parts_spec().insert(id, part),
            final(self).blocks_spec() == old(self).blocks_spec().insert(part.block_spec(), id),
    {
        let block_id = part.block_id();
        let id = self.parts.insert(part);
        self.block_to_part.insert(block_id, id);
        id
    }

    /// Removes the part `id`, if registered, and forgets its block.
    pub fn unregister(&mut self, id: EditPartId)
        ensures
            final(self).parts_spec() == old(self).parts_spec().remove(id),
            final(self).blocks_spec() == if old(self).parts_spec().contains_key(id) {
                old(self).blocks_spec().remove(old(self).parts_spec()[id].block_spec())
            } else {
                old(self).blocks_spec()
            },
    {
        match self.parts.remove(id) {
            Some(part) => {
                self.block_to_part.remove(&part.block_id());
            },
            None => {},
        }
    }

    /// The part registered under `id`.
    pub fn get(&self, id: EditPartId) -> (r: Option<&GraphicalEditPart>)
        ensures
            r == if self.parts_spec().contains_key(id) {
                Some(&self.parts_spec()[id])
            } else {
                None
            },
    {
        self.parts.get(id)
    }

    /// The part registered under `id`, to change in place.
    pub fn get_mut(&mut self, id: EditPartId) -> (r: Option<&mut GraphicalEditPart>)
        ensures
            final(self).blocks_spec() == old(self).blocks_spec(),
            match r {
                Some(p) => {
                    &&& old(self).parts_spec().contains_key(id)
                    &&& *p == old(self).parts_spec()[id]
                    &&& final(self).parts_spec() == old(self).parts_spec().insert(id, *final(p))
                },
                None => {
                    &&& !old(self).parts_spec().contains_key(id)
                    &&& final(self).parts_spec() == old(self).parts_spec()
                },
            },
    {
        self.parts.get_mut(id)
    }

    /// The part recorded for block `block_id`, to change in place.
    pub fn get_by_block_mut(&mut self, block_id: BlockId) -> (r: Option<&mut GraphicalEditPart>)
        ensures
            final(self).blocks_spec() == old(self).blocks_spec(),
            match r {
                Some(p) => {
                    &&& part_of_block(old(self).parts_spec(), old(self).blocks_spec(), block_id) == Some(*p)
                    &&& final(self).parts_spec() == old(self).parts_spec().insert(
                        old(self).blocks_spec()[block_id],
                        *final(p),
                    )
                },
                None => {
                    &&& part_of_block(old(self).parts_spec(), old(self).blocks_spec(), block_id) is None
                    &&& final(self).parts_spec() == old(self).parts_spec()
                },
            },
    {
        match self.block_to_part.get(&block_id) {
            Some(id) => {
                let id = *id;
                self.parts.get_mut(id)
            },
            None => None,
        }
    }

    /// The part recorded for block `block_id`.
    pub fn get_by_block(&self, block_id: BlockId) -> (r: Option<&GraphicalEditPart>)
        ensures
            r == match part_of_block(self.parts_spec(), self.blocks_spec(), block_id) {
                Some(p) => Some(&p),
                None => None,
            },
    {
        match self.block_to_part.get(&block_id) {
            Some(id) => self.parts.get(*id),
            None => None,
        }
    }

    /// How many parts are registered.
    pub fn len(&self) -> (n: usize)
        ensures
            n == self.parts_spec().len(),
    {
        self.parts.len()
    }

    /// Whether no part is registered.
    pub fn is_empty(&self) -> (b: bool)
        ensures
            b == (self.parts_spec().len() == 0),
    {
        self.parts.len() == 0
    }
}

impl Default for EditPartRegistry {
    fn default() -> (r: Self)
        ensures
            r.parts_spec() == Map::<EditPartId, GraphicalEditPart>::empty(),
            r.blocks_spec() == Map::<BlockId, EditPartId>::empty(),
    {
        Self::new()
    }
}

/// Registering keeps every recorded block pointing at a registered part of
/// that block, and the new part is then found through its block.
pub proof fn law_register_keeps_blocks_consistent(
    parts: Map<EditPartId, GraphicalEditPart>,
    blocks: Map<BlockId, EditPartId>,
    id: EditPartId,
    part: GraphicalEditPart,
)
    requires
        consistent(parts, blocks),
        !parts.contains_key(id),
    ensures
        consistent(parts.insert(id, part), blocks.insert(part.block_spec(), id)),
        part_of_block(parts.insert(id, part), blocks.insert(part.block_spec(), id), part.block_spec())
            == Some(part),
{
    let parts1 = parts.insert(id, part);
    let blocks1 = blocks.insert(part.block_spec(), id);
    assert forall|b: BlockId| #[trigger] blocks1.contains_key(b) implies parts1.contains_key(blocks1[b])
        && parts1[blocks1[b]].block_spec() == b by {
        if b != part.block_spec() {
            assert(blocks.contains_key(b));
            assert(blocks[b] != id);
        }
    }
}

/// Unregistering keeps every recorded block pointing at a registered part
/// of that block, and the removed part is no longer found through its block.
pub proof fn law_unregister_keeps_blocks_consistent(
    parts: Map<EditPartId, GraphicalEditPart>,
    blocks: Map<BlockId, EditPartId>,
    id: EditPartId,
)
    requires
        consistent(parts, blocks),
        parts.contains_key(id),
    ensures
        consistent(parts.remove(id), blocks.remove(parts[id].block_spec())),
        part_of_block(parts.remove(id), blocks.remove(parts[id].block_spec()), parts[id].block_spec()) is None,
{
    let parts1 = parts.remove(id);
    let blocks1 = blocks.remove(parts[id].block_spec());
    assert forall|b: BlockId| #[trigger] blocks1.contains_key(b) implies parts1.contains_key(blocks1[b])
        && parts1[blocks1[b]].block_spec() == b by {
        assert(blocks.contains_key(b));
        assert(parts[blocks[b]].block_spec() == b);
        assert(blocks[b] != id);
    }
}

} // verus!
