//! Guillotine bin-packer over a rectangular region, stored as a binary heap
//! of nodes in a flat array.
//!
//! ```text
//!  ____________________________
//! |          |                 |
//! |   Slot   |      Right      |
//! |          |                 |
//! |__________|_________________|
//! |                            |
//! |           Bottom           |
//! |                            |
//! |____________________________|
//! ```

use vstd::prelude::*;

verus! {

/// Rectangle of the packed region: a position and a size, in texels.
#[derive(Debug, Clone, Copy, PartialEq, Eq)]
pub struct Rectangle {
    pub pos: [u32; 2],
    pub size: [u32; 2],
}

impl Rectangle {
    /// A target size is admitted when it is no larger than this rectangle on
    /// either axis.
    pub open spec fn admits(self, target: [u32; 2]) -> bool {
        target[0] <= self.size[0] && target[1] <= self.size[1]
    }

    /// Two rectangles overlap when some texel lies in both.
    pub open spec fn overlaps(self, other: Rectangle) -> bool {
        &&& self.pos[0] < self.pos[0] + self.size[0]
        &&& self.pos[0] < other.pos[0] + other.size[0]
        &&& other.pos[0] < self.pos[0] + self.size[0]
        &&& other.pos[0] < other.pos[0] + other.size[0]
        &&& self.pos[1] < self.pos[1] + self.size[1]
        &&& self.pos[1] < other.pos[1] + other.size[1]
        &&& other.pos[1] < self.pos[1] + self.size[1]
        &&& other.pos[1] < other.pos[1] + other.size[1]
    }

    /// The rectangle lies inside the region `[0, extent)`.
    pub open spec fn within(self, extent: [u32; 2]) -> bool {
        &&& self.pos[0] + self.size[0] <= extent[0]
        &&& self.pos[1] + self.size[1] <= extent[1]
    }

    /// What is left to the right of a slot of size `target` claimed at this
    /// rectangle's origin: as high as the slot.
    pub open spec fn right_of(self, target: [u32; 2]) -> Rectangle {
        Rectangle {
            pos: [(self.pos[0] + target[0]) as u32, self.pos[1]],
            size: [(self.size[0] - target[0]) as u32, target[1]],
        }
    }

    /// What is left below a slot of size `target` claimed at this rectangle's
    /// origin: as wide as the rectangle.
    pub open spec fn below(self, target: [u32; 2]) -> Rectangle {
        Rectangle {
            pos: [self.pos[0], (self.pos[1] + target[1]) as u32],
            size: [self.size[0], (self.size[1] - target[1]) as u32],
        }
    }

    /// Checks whether a rectangle of size `other` can fit inside this one.
    pub fn can_fit(&self, other: [u32; 2]) -> (r: bool)
        ensures
            r == self.admits(other),
    {
        other[0] <= self.size[0] && other[1] <= self.size[1]
    }
}

/// State of one slot of the packer's heap. The children of the node at
/// index `i` are at `2i + 1` (right) and `2i + 2` (bottom).
#[derive(Debug, Clone, Copy, PartialEq, Eq)]
pub enum RectNode {
    /// Reserved heap slot that holds no node yet.
    Vacant,
    /// Leaf whose rectangle is empty: nothing can be placed there.
    Closed,
    /// Free rectangle that can take an insertion and be split further.
    Leaf(Rectangle),
    /// Claimed slot; what was left of the leaf is split between its children.
    Branch(Rectangle),
}

/// Number of `Leaf` nodes in a heap.
pub open spec fn leaf_count(nodes: Seq<RectNode>) -> nat
    decreases nodes.len(),
{
    if nodes.len() == 0 {
        0
    } else {
        leaf_count(nodes.drop_last()) + if nodes.last() is Leaf {
            1nat
        } else {
            0nat
        }
    }
}

/// The node that stands for a residual area: a leaf if the area is not
/// empty, closed if it is.
pub open spec fn child_node(area: Rectangle) -> RectNode {
    if area.size[0] > 0 && area.size[1] > 0 {
        RectNode::Leaf(area)
    } else {
        RectNode::Closed
    }
}

/// The node at `index` is a leaf that admits `target`, and the heap slots of
/// its two children can be addressed.
pub open spec fn can_claim(nodes: Seq<RectNode>, target: [u32; 2], index: int) -> bool {
    &&& 0 <= index < nodes.len()
    &&& nodes[index] matches RectNode::Leaf(area)
    &&& area.admits(target)
    &&& index < usize::MAX / 2
}

/// Index of the leaf that an insertion of `target` claims when the search
/// starts at `index`: the node itself if it is a leaf that can be claimed,
/// else, below a branch, what the right child yields, else what the bottom
/// child yields.
pub open spec fn find_slot(nodes: Seq<RectNode>, target: [u32; 2], index: int) -> Option<int>
    decreases
        (if index < nodes.len() {
            nodes.len() - index
        } else {
            0
        }),
{
    if index < 0 || index >= nodes.len() {
        None
    } else {
        match nodes[index] {
            RectNode::Vacant => None,
            RectNode::Closed => None,
            RectNode::Leaf(_) => if can_claim(nodes, target, index) {
                Some(index)
            } else {
                None
            },
            RectNode::Branch(_) => match find_slot(nodes, target, 2 * index + 1) {
                Some(found) => Some(found),
                None => find_slot(nodes, target, 2 * index + 2),
            },
        }
    }
}

/// `nodes`, extended with vacant slots to a length of at least `len`.
pub open spec fn extended(nodes: Seq<RectNode>, len: int) -> Seq<RectNode> {
    if nodes.len() >= len {
        nodes
    } else {
        nodes + Seq::new((len - nodes.len()) as nat, |i: int| RectNode::Vacant)
    }
}

/// The heap after the leaf at `index` was claimed for `target`: the leaf
/// becomes a branch that holds the slot, and its children hold what is left
/// to the right of the slot and below it.
pub open spec fn split(nodes: Seq<RectNode>, target: [u32; 2], index: int) -> Seq<RectNode> {
    let area = nodes[index]->Leaf_0;
    extended(nodes, 2 * index + 3).update(
        index,
        RectNode::Branch(Rectangle { pos: area.pos, size: target }),
    ).update(2 * index + 1, child_node(area.right_of(target))).update(
        2 * index + 2,
        child_node(area.below(target)),
    )
}

/// What an insertion of `target` does to the heap and to the list of slots
/// handed out, given the leaf `found` that the search arrived at.
pub open spec fn inserted(
    nodes: Seq<RectNode>,
    slots: Seq<Rectangle>,
    target: [u32; 2],
    found: Option<int>,
    nodes_after: Seq<RectNode>,
    slots_after: Seq<Rectangle>,
    slot: Option<[u32; 2]>,
) -> bool {
    match found {
        Some(index) => {
            &&& slot == Some(nodes[index]->Leaf_0.pos)
            &&& nodes_after == split(nodes, target, index)
            &&& slots_after == slots.push(
                Rectangle { pos: nodes[index]->Leaf_0.pos, size: target },
            )
        },
        None => {
            &&& slot is None
            &&& nodes_after == nodes
            &&& slots_after == slots
        },
    }
}

/// Every branch has both children in the heap, and they are nodes; below
/// anything else the heap is vacant.
#[verifier::opaque]
spec fn heap_shaped(nodes: Seq<RectNode>) -> bool {
    &&& nodes.len() >= 1
    &&& !(nodes[0] is Vacant)
    &&& forall|i: int|
        0 <= i < nodes.len() && #[trigger] nodes[i] is Branch ==> 2 * i + 2 < nodes.len()
            && !(nodes[2 * i + 1] is Vacant) && !(nodes[2 * i + 2] is Vacant)
    &&& forall|i: int, c: int|
        0 <= i < nodes.len() && !(#[trigger] nodes[i] is Branch) && 2 * i + 1 <= c <= 2 * i + 2 && c
            < nodes.len() ==> #[trigger] nodes[c] is Vacant
}

/// No slot handed out overlaps another slot or a free leaf, no two free
/// leaves overlap, and all of them lie inside the packed region.
#[verifier::opaque]
spec fn disjointly_placed(
    nodes: Seq<RectNode>,
    slots: Seq<Rectangle>,
    extent: [u32; 2],
) -> bool {
    &&& forall|i: int|
        0 <= i < nodes.len() && #[trigger] nodes[i] is Leaf ==> nodes[i]->Leaf_0.within(extent)
    &&& forall|i: int, j: int|
        0 <= i < nodes.len() && 0 <= j < nodes.len() && i != j && #[trigger] nodes[i] is Leaf
            && #[trigger] nodes[j] is Leaf ==> !nodes[i]->Leaf_0.overlaps(nodes[j]->Leaf_0)
    &&& forall|k: int| 0 <= k < slots.len() ==> (#[trigger] slots[k]).within(extent)
    &&& forall|k: int, l: int|
        0 <= k < slots.len() && 0 <= l < slots.len() && k != l ==> !(#[trigger] slots[k]).overlaps(
            #[trigger] slots[l],
        )
    &&& forall|k: int, i: int|
        0 <= k < slots.len() && 0 <= i < nodes.len() && #[trigger] nodes[i] is Leaf ==> !(
        #[trigger] slots[k]).overlaps(nodes[i]->Leaf_0)
}

/// Some branch of the heap holds the given slot.
pub open spec fn held(nodes: Seq<RectNode>, slot: Rectangle) -> bool {
    exists|i: int| 0 <= i < nodes.len() && (#[trigger] nodes[i]) == RectNode::Branch(slot)
}

/// The given rectangle is one of the slots.
pub open spec fn handed_out(slots: Seq<Rectangle>, slot: Rectangle) -> bool {
    exists|k: int| 0 <= k < slots.len() && (#[trigger] slots[k]) == slot
}

/// The branches of the heap hold the slots handed out: every slot is held
/// by a branch, and every branch holds a slot.
#[verifier::opaque]
spec fn slots_held(nodes: Seq<RectNode>, slots: Seq<Rectangle>) -> bool {
    &&& forall|k: int| 0 <= k < slots.len() ==> held(nodes, #[trigger] slots[k])
    &&& forall|i: int|
        0 <= i < nodes.len() && #[trigger] nodes[i] is Branch ==> handed_out(
            slots,
            nodes[i]->Branch_0,
        )
}

proof fn lemma_leaf_count_bound(nodes: Seq<RectNode>)
    ensures
        leaf_count(nodes) <= nodes.len(),
    decreases nodes.len(),
{
    if nodes.len() > 0 {
        lemma_leaf_count_bound(nodes.drop_last());
    }
}

proof fn lemma_leaf_count_update(nodes: Seq<RectNode>, index: int, node: RectNode)
    requires
        0 <= index < nodes.len(),
    ensures
        leaf_count(nodes.update(index, node)) + (if nodes[index] is Leaf {
            1nat
        } else {
            0nat
        }) == leaf_count(nodes) + (if node is Leaf {
            1nat
        } else {
            0nat
        }),
    decreases nodes.len(),
{
    let updated = nodes.update(index, node);
    if index == nodes.len() - 1 {
        assert(updated.drop_last() =~= nodes.drop_last());
    } else {
        assert(updated.drop_last() =~= nodes.drop_last().update(index, node));
        lemma_leaf_count_update(nodes.drop_last(), index, node);
    }
}

proof fn lemma_leaf_count_push_vacant(nodes: Seq<RectNode>)
    ensures
        leaf_count(nodes.push(RectNode::Vacant)) == leaf_count(nodes),
{
    assert(nodes.push(RectNode::Vacant).drop_last() =~= nodes);
}

/// A heap holds a leaf exactly when its leaf count is not zero.
pub proof fn lemma_leaf_count_positive(nodes: Seq<RectNode>)
    ensures
        leaf_count(nodes) > 0 <==> exists|i: int|
            0 <= i < nodes.len() && #[trigger] nodes[i] is Leaf,
    decreases nodes.len(),
{
    if nodes.len() > 0 {
        let front = nodes.drop_last();
        lemma_leaf_count_positive(front);
        if nodes.last() is Leaf {
            assert(nodes[nodes.len() - 1] is Leaf);
        } else if leaf_count(front) > 0 {
            let i = choose|i: int| 0 <= i < front.len() && #[trigger] front[i] is Leaf;
            assert(nodes[i] is Leaf);
        } else {
            assert forall|i: int| 0 <= i < nodes.len() implies !(#[trigger] nodes[i] is Leaf) by {
                if i < front.len() {
                    assert(front[i] == nodes[i]);
                }
            }
        }
    }
}

proof fn lemma_split_keeps_shape(nodes: Seq<RectNode>, target: [u32; 2], index: int)
    requires
        heap_shaped(nodes),
        can_claim(nodes, target, index),
    ensures
        heap_shaped(split(nodes, target, index)),
{
    reveal(heap_shaped);
    let after = split(nodes, target, index);
    let right = 2 * index + 1;
    let bottom = 2 * index + 2;
    assert forall|i: int| 0 <= i < after.len() && #[trigger] after[i] is Branch implies 2 * i + 2
        < after.len() && !(after[2 * i + 1] is Vacant) && !(after[2 * i + 2] is Vacant) by {
        if i != index {
            assert(i < nodes.len() && nodes[i] is Branch);
            assert(!(nodes[2 * i + 1] is Vacant));
            assert(!(nodes[2 * i + 2] is Vacant));
        }
    }
    assert forall|i: int, c: int|
        0 <= i < after.len() && !(#[trigger] after[i] is Branch) && 2 * i + 1 <= c <= 2 * i + 2 && c
            < after.len() implies #[trigger] after[c] is Vacant by {
        if i == right || i == bottom {
            if c < nodes.len() {
                assert(nodes[i] is Vacant);
                assert(nodes[c] is Vacant);
            }
        } else if i < nodes.len() {
            assert(!(nodes[i] is Branch));
            if c < nodes.len() {
                assert(nodes[c] is Vacant);
            }
            if c == index {
                assert(nodes[c] is Vacant);
            }
        }
    }
    if index != 0 {
        assert(after[0] == nodes[0]);
    }
}

proof fn lemma_split_keeps_placement(
    nodes: Seq<RectNode>,
    slots: Seq<Rectangle>,
    extent: [u32; 2],
    target: [u32; 2],
    index: int,
)
    requires
        heap_shaped(nodes),
        disjointly_placed(nodes, slots, extent),
        can_claim(nodes, target, index),
    ensures
        disjointly_placed(
            split(nodes, target, index),
            slots.push(Rectangle { pos: nodes[index]->Leaf_0.pos, size: target }),
            extent,
        ),
{
    reveal(heap_shaped);
    reveal(disjointly_placed);
    let area = nodes[index]->Leaf_0;
    let slot = Rectangle { pos: area.pos, size: target };
    let after = split(nodes, target, index);
    let slots_after = slots.push(slot);
    let right = 2 * index + 1;
    let bottom = 2 * index + 2;
    assert(nodes[index] is Leaf);
    assert(area.within(extent));
    // Every leaf of the new heap lies inside the claimed leaf or is an old leaf.
    assert forall|i: int| 0 <= i < after.len() && #[trigger] after[i] is Leaf implies {
        &&& after[i]->Leaf_0.within(extent)
        &&& !slot.overlaps(after[i]->Leaf_0)
        &&& (i == right || i == bottom || (i != index && i < nodes.len() && nodes[i]
            == after[i]))
        &&& (i == right ==> after[i]->Leaf_0 == area.right_of(target))
        &&& (i == bottom ==> after[i]->Leaf_0 == area.below(target))
    } by {
        if i != right && i != bottom {
            assert(i != index);
            assert(i < nodes.len() && nodes[i] == after[i]);
            assert(!area.overlaps(nodes[i]->Leaf_0));
        }
    }
    assert forall|i: int, j: int|
        0 <= i < after.len() && 0 <= j < after.len() && i != j && #[trigger] after[i] is Leaf
            && #[trigger] after[j] is Leaf implies !after[i]->Leaf_0.overlaps(after[j]->Leaf_0) by {
        let a = after[i]->Leaf_0;
        let b = after[j]->Leaf_0;
        if i != right && i != bottom {
            assert(!area.overlaps(nodes[i]->Leaf_0));
        }
        if j != right && j != bottom {
            assert(!area.overlaps(nodes[j]->Leaf_0));
        }
        if i != right && i != bottom && j != right && j != bottom {
            assert(!nodes[i]->Leaf_0.overlaps(nodes[j]->Leaf_0));
        }
    }
    assert forall|k: int| 0 <= k < slots_after.len() implies (#[trigger] slots_after[k]).within(
        extent,
    ) by {
        if k < slots.len() {
            assert(slots[k].within(extent));
        }
    }
    assert forall|k: int, i: int|
        0 <= k < slots_after.len() && 0 <= i < after.len() && #[trigger] after[i] is Leaf implies !(
        #[trigger] slots_after[k]).overlaps(after[i]->Leaf_0) by {
        if k < slots.len() {
            assert(!slots[k].overlaps(area));
            if i != right && i != bottom {
                assert(!slots[k].overlaps(nodes[i]->Leaf_0));
            }
        }
    }
    assert forall|k: int, l: int|
        0 <= k < slots_after.len() && 0 <= l < slots_after.len() && k != l implies !(
        #[trigger] slots_after[k]).overlaps(#[trigger] slots_after[l]) by {
        if k < slots.len() && l < slots.len() {
            assert(!slots[k].overlaps(slots[l]));
        } else if k < slots.len() {
            assert(!slots[k].overlaps(area));
        } else {
            assert(!slots[l].overlaps(area));
        }
    }
}

proof fn lemma_split_keeps_slots_held(
    nodes: Seq<RectNode>,
    slots: Seq<Rectangle>,
    target: [u32; 2],
    index: int,
)
    requires
        heap_shaped(nodes),
        slots_held(nodes, slots),
        can_claim(nodes, target, index),
    ensures
        slots_held(
            split(nodes, target, index),
            slots.push(Rectangle { pos: nodes[index]->Leaf_0.pos, size: target }),
        ),
{
    reveal(slots_held);
    let slot = Rectangle { pos: nodes[index]->Leaf_0.pos, size: target };
    let after = split(nodes, target, index);
    let slots_after = slots.push(slot);
    assert(nodes[index] is Leaf);
    assert(after.len() >= nodes.len());
    assert(after[index] == RectNode::Branch(slot));
    assert forall|k: int| 0 <= k < slots_after.len() implies held(
        after,
        #[trigger] slots_after[k],
    ) by {
        if k < slots.len() {
            assert(held(nodes, slots[k]));
            let i = choose|i: int|
                0 <= i < nodes.len() && (#[trigger] nodes[i]) == RectNode::Branch(slots[k]);
            lemma_split_keeps_branches(nodes, target, index, i);
            assert(after[i] == RectNode::Branch(slots_after[k]));
        }
    }
    assert forall|i: int| 0 <= i < after.len() && #[trigger] after[i] is Branch implies handed_out(
        slots_after,
        after[i]->Branch_0,
    ) by {
        if i == index {
            assert(slots_after[slots.len() as int] == after[i]->Branch_0);
        } else {
            lemma_split_adds_one_branch(nodes, target, index, i);
            assert(handed_out(slots, nodes[i]->Branch_0));
            let k = choose|k: int|
                0 <= k < slots.len() && (#[trigger] slots[k]) == nodes[i]->Branch_0;
            assert(slots_after[k] == after[i]->Branch_0);
        }
    }
}

/// A branch stays as it is when a leaf is claimed.
proof fn lemma_split_keeps_branches(nodes: Seq<RectNode>, target: [u32; 2], index: int, i: int)
    requires
        heap_shaped(nodes),
        can_claim(nodes, target, index),
        0 <= i < nodes.len(),
        nodes[i] is Branch,
    ensures
        split(nodes, target, index)[i] == nodes[i],
{
    reveal(heap_shaped);
    assert(nodes[index] is Leaf);
    assert(!(nodes[2 * i + 1] is Vacant));
    if 2 * index + 1 < nodes.len() {
        assert(nodes[2 * index + 1] is Vacant);
    }
    if 2 * index + 2 < nodes.len() {
        assert(nodes[2 * index + 2] is Vacant);
    }
}

/// The one branch that a claim adds is the claimed leaf.
proof fn lemma_split_adds_one_branch(nodes: Seq<RectNode>, target: [u32; 2], index: int, i: int)
    requires
        heap_shaped(nodes),
        can_claim(nodes, target, index),
        0 <= i < split(nodes, target, index).len(),
        split(nodes, target, index)[i] is Branch,
        i != index,
    ensures
        i < nodes.len(),
        split(nodes, target, index)[i] == nodes[i],
{
}

/// Rectangle based bin packer.
pub struct Packer {
    rects: Vec<RectNode>,
    available: usize,
    padding: u32,
    extent: Ghost<[u32; 2]>,
    slots: Ghost<Seq<Rectangle>>,
}

impl Packer {
    /// The heap of nodes, root first.
    pub closed spec fn nodes(&self) -> Seq<RectNode> {
        self.rects@
    }

    /// Size of the packed region.
    pub closed spec fn extent(&self) -> [u32; 2] {
        self.extent@
    }

    /// The slots handed out so far, oldest first, each with the size it was
    /// claimed for.
    pub closed spec fn slots(&self) -> Seq<Rectangle> {
        self.slots@
    }

    /// Padding that the packer was made with.
    pub closed spec fn padding(&self) -> u32 {
        self.padding
    }

    /// The heap is shaped as a tree of branches over leaves, the leaf counter
    /// is exact, and slots and free leaves tile the region without overlap.
    pub closed spec fn wf(&self) -> bool {
        &&& heap_shaped(self.rects@)
        &&& self.available == leaf_count(self.rects@)
        &&& disjointly_placed(self.rects@, self.slots@, self.extent@)
        &&& slots_held(self.rects@, self.slots@)
    }

    /// A packer whose root is one leaf that covers the whole region.
    pub fn new(width: u32, height: u32) -> (packer: Packer)
        ensures
            packer.wf(),
            packer.nodes() == seq![
                RectNode::Leaf(Rectangle { pos: [0u32, 0u32], size: [width, height] }),
            ],
            packer.extent() == [width, height],
            packer.slots() == Seq::<Rectangle>::empty(),
            packer.padding() == 0,
    {
        let root = RectNode::Leaf(Rectangle { pos: [0, 0], size: [width, height] });
        let mut rects: Vec<RectNode> = Vec::new();
        rects.push(root);
        proof {
            assert(rects@ =~= seq![root]);
            assert(rects@.drop_last() =~= Seq::<RectNode>::empty());
            assert(leaf_count(rects@) == 1) by {
                reveal_with_fuel(leaf_count, 2);
            }
            reveal(heap_shaped);
            reveal(disjointly_placed);
            reveal(slots_held);
        }
        Packer {
            rects,
            available: 1,
            padding: 0,
            extent: Ghost([width, height]),
            slots: Ghost(Seq::empty()),
        }
    }

    /// Number of free leaves.
    pub fn available(&self) -> (count: usize)
        requires
            self.wf(),
        ensures
            count == leaf_count(self.nodes()),
    {
        self.available
    }

    /// Number of slots in the heap, vacant ones included.
    pub fn node_count(&self) -> (count: usize)
        ensures
            count == self.nodes().len(),
    {
        self.rects.len()
    }

    /// The node in the heap slot at `index`, if the heap is that long.
    pub fn node(&self, index: usize) -> (node: Option<RectNode>)
        ensures
            index < self.nodes().len() ==> node == Some(self.nodes()[index as int]),
            index >= self.nodes().len() ==> node is None,
    {
        if index < self.rects.len() {
            Some(self.rects[index])
        } else {
            None
        }
    }

    /// Whether any free leaf is left.
    pub fn has_space(&self) -> (r: bool)
        requires
            self.wf(),
        ensures
            r == (leaf_count(self.nodes()) > 0),
            r == (exists|i: int| 0 <= i < self.nodes().len() && #[trigger] self.nodes()[i] is Leaf),
            r == (exists|i: int|
                0 <= i < self.nodes().len() && #[trigger] self.nodes()[i] is Leaf
                    && self.nodes()[i]->Leaf_0.admits([0u32, 0u32])),
    {
        proof {
            lemma_leaf_count_positive(self.rects@);
        }
        self.available > 0
    }

    /// Claims the first leaf that can take a rectangle of the given size,
    /// searching from the root, right before bottom, and returns the
    /// position of the slot. The slot lies inside the packed region and
    /// overlaps no slot handed out before.
    pub fn try_insert(&mut self, width: u32, height: u32) -> (slot: Option<[u32; 2]>)
        requires
            old(self).wf(),
        ensures
            final(self).wf(),
            final(self).extent() == old(self).extent(),
            final(self).padding() == old(self).padding(),
            inserted(
                old(self).nodes(),
                old(self).slots(),
                [width, height],
                find_slot(old(self).nodes(), [width, height], 0),
                final(self).nodes(),
                final(self).slots(),
                slot,
            ),
            slot is None ==> *final(self) == *old(self),
            slot matches Some(pos) ==> {
                let placed = Rectangle { pos, size: [width, height] };
                &&& placed.within(old(self).extent())
                &&& forall|k: int|
                    0 <= k < old(self).slots().len() ==> !(
                    #[trigger] old(self).slots()[k]).overlaps(placed)
            },
    {
        if self.rects.is_empty() {
            proof {
                reveal(heap_shaped);
            }
            return None;
        }
        proof {
            reveal(heap_shaped);
        }
        let slot = self.insert_internal([width, height], 0);
        proof {
            if slot is Some {
                let placed = Rectangle { pos: slot->Some_0, size: [width, height] };
                let last = old(self).slots().len() as int;
                self.lemma_slots_apart();
                assert(self.slots()[last] == placed);
                assert forall|k: int| 0 <= k < old(self).slots().len() implies !(
                #[trigger] old(self).slots()[k]).overlaps(placed) by {
                    assert(self.slots()[k] == old(self).slots()[k]);
                }
            }
        }
        slot
    }

    /// The search of `try_insert`, started at the node at `index`.
    pub fn insert_internal(&mut self, target: [u32; 2], index: usize) -> (slot: Option<[u32; 2]>)
        requires
            old(self).wf(),
            index < old(self).nodes().len(),
            !(old(self).nodes()[index as int] is Vacant),
        ensures
            final(self).wf(),
            final(self).extent() == old(self).extent(),
            final(self).padding() == old(self).padding(),
            inserted(
                old(self).nodes(),
                old(self).slots(),
                target,
                find_slot(old(self).nodes(), target, index as int),
                final(self).nodes(),
                final(self).slots(),
                slot,
            ),
            slot is None ==> *final(self) == *old(self),
        decreases old(self).nodes().len() - index,
    {
        match self.rects[index] {
            RectNode::Vacant => None,
            RectNode::Closed => None,
            RectNode::Leaf(rect) => {
                if rect.can_fit(target) && index < usize::MAX / 2 {
                    Some(self.claim(target, index, rect))
                } else {
                    None
                }
            },
            RectNode::Branch(_) => {
                let ghost before = self.rects@;
                proof {
                    assert(2 * index + 2 < self.rects.len() && !(before[2 * index + 1] is Vacant)
                        && !(before[2 * index + 2] is Vacant)) by {
                        reveal(heap_shaped);
                    }
                }
                let right = index * 2 + 1;
                let bottom = index * 2 + 2;
                match self.insert_internal(target, right) {
                    Some(slot) => Some(slot),
                    None => self.insert_internal(target, bottom),
                }
            },
        }
    }

    /// Turns the leaf at `index` into a branch that holds a slot of size
    /// `target`, and gives its children what is left of the leaf.
    fn claim(&mut self, target: [u32; 2], index: usize, rect: Rectangle) -> (slot: [u32; 2])
        requires
            old(self).wf(),
            can_claim(old(self).rects@, target, index as int),
            old(self).rects@[index as int] == RectNode::Leaf(rect),
        ensures
            final(self).wf(),
            final(self).extent == old(self).extent,
            final(self).padding == old(self).padding,
            slot == rect.pos,
            final(self).rects@ == split(old(self).rects@, target, index as int),
            final(self).slots@ == old(self).slots@.push(Rectangle { pos: rect.pos, size: target }),
    {
        let ghost before = self.rects@;
        let ghost branch = RectNode::Branch(Rectangle { pos: rect.pos, size: target });
        proof {
            lemma_leaf_count_positive(before);
            lemma_leaf_count_update(before, index as int, branch);
            lemma_split_keeps_shape(before, target, index as int);
            lemma_split_keeps_placement(before, self.slots@, self.extent@, target, index as int);
            lemma_split_keeps_slots_held(before, self.slots@, target, index as int);
            assert(rect.within(self.extent@)) by {
                reveal(disjointly_placed);
            }
        }
        let slot = rect.pos;
        self.rects.set(index, RectNode::Branch(Rectangle { pos: rect.pos, size: target }));
        self.available = self.available - 1;
        let right = index * 2 + 1;
        let bottom = index * 2 + 2;
        let ghost claimed = self.rects@;
        while self.rects.len() <= bottom
            invariant
                self.rects@.len() >= claimed.len(),
                self.rects@.len() == claimed.len() || self.rects@.len() <= bottom + 1,
                self.rects@ == extended(claimed, self.rects@.len() as int),
                self.available == leaf_count(self.rects@),
                self.extent == old(self).extent,
                self.padding == old(self).padding,
                self.slots == old(self).slots,
            decreases bottom + 1 - self.rects@.len(),
        {
            proof {
                lemma_leaf_count_push_vacant(self.rects@);
                assert(self.rects@.push(RectNode::Vacant) =~= extended(
                    claimed,
                    (self.rects@.len() + 1) as int,
                ));
            }
            self.rects.push(RectNode::Vacant);
        }
        proof {
            assert(self.rects@ =~= extended(before, 2 * index + 3).update(index as int, branch));
            assert(before[right as int] is Vacant || right >= before.len()) by {
                reveal(heap_shaped);
            }
            assert(before[bottom as int] is Vacant || bottom >= before.len()) by {
                reveal(heap_shaped);
            }
        }
        self.set_child_rect(
            right,
            Rectangle {
                pos: [slot[0] + target[0], slot[1]],
                size: [rect.size[0] - target[0], target[1]],
            },
        );
        self.set_child_rect(
            bottom,
            Rectangle {
                pos: [slot[0], slot[1] + target[1]],
                size: [rect.size[0], rect.size[1] - target[1]],
            },
        );
        self.slots = Ghost(self.slots@.push(Rectangle { pos: rect.pos, size: target }));
        proof {
            assert(self.rects@ =~= split(before, target, index as int));
        }
        slot
    }

    /// No two slots that the packer has handed out overlap, and every one of
    /// them lies inside the packed region.
    pub proof fn lemma_slots_apart(&self)
        requires
            self.wf(),
        ensures
            forall|k: int, l: int|
                0 <= k < self.slots().len() && 0 <= l < self.slots().len() && k != l ==> !(
                #[trigger] self.slots()[k]).overlaps(#[trigger] self.slots()[l]),
            forall|k: int|
                0 <= k < self.slots().len() ==> (#[trigger] self.slots()[k]).within(self.extent()),
    {
        reveal(disjointly_placed);
    }

    /// The branches of the heap are the slots handed out: every slot is
    /// held by a branch, and every branch holds a slot.
    pub proof fn lemma_slots_are_branches(&self)
        requires
            self.wf(),
        ensures
            forall|k: int|
                0 <= k < self.slots().len() ==> held(self.nodes(), #[trigger] self.slots()[k]),
            forall|i: int|
                0 <= i < self.nodes().len() && #[trigger] self.nodes()[i] is Branch ==> handed_out(
                    self.slots(),
                    self.nodes()[i]->Branch_0,
                ),
    {
        reveal(slots_held);
    }

    /// Every free leaf lies inside the packed region and overlaps no slot
    /// that the packer has handed out.
    pub proof fn lemma_leaves_free(&self)
        requires
            self.wf(),
        ensures
            forall|i: int|
                0 <= i < self.nodes().len() && #[trigger] self.nodes()[i] is Leaf
                    ==> self.nodes()[i]->Leaf_0.within(self.extent()),
            forall|k: int, i: int|
                0 <= k < self.slots().len() && 0 <= i < self.nodes().len()
                    && #[trigger] self.nodes()[i] is Leaf ==> !(
                #[trigger] self.slots()[k]).overlaps(self.nodes()[i]->Leaf_0),
    {
        reveal(disjointly_placed);
    }

    /// An insertion changes a heap slot in one of three ways only: the leaf
    /// that is claimed becomes a branch, and a vacant slot becomes a leaf or
    /// becomes closed. All other slots stay as they are.
    pub proof fn lemma_insert_transitions(&self, target: [u32; 2], index: int)
        requires
            self.wf(),
            can_claim(self.nodes(), target, index),
        ensures
            split(self.nodes(), target, index).len() >= self.nodes().len(),
            forall|i: int|
                0 <= i < self.nodes().len() ==> {
                    let before = self.nodes()[i];
                    let after = #[trigger] split(self.nodes(), target, index)[i];
                    ||| after == before
                    ||| before is Leaf && after is Branch
                    ||| before is Vacant && (after is Leaf || after is Closed)
                },
    {
        reveal(heap_shaped);
        let nodes = self.nodes();
        assert(nodes[index] is Leaf);
        if 2 * index + 1 < nodes.len() {
            assert(nodes[2 * index + 1] is Vacant);
        }
        if 2 * index + 2 < nodes.len() {
            assert(nodes[2 * index + 2] is Vacant);
        }
    }

    /// Writes the node for a residual area into the vacant heap slot at
    /// `index`, and counts it if it is a leaf.
    fn set_child_rect(&mut self, index: usize, rect: Rectangle)
        requires
            index < old(self).rects@.len(),
            old(self).rects@[index as int] is Vacant,
            old(self).available == leaf_count(old(self).rects@),
        ensures
            final(self).rects@ == old(self).rects@.update(index as int, child_node(rect)),
            final(self).available == leaf_count(final(self).rects@),
            final(self).padding == old(self).padding,
            final(self).extent == old(self).extent,
            final(self).slots == old(self).slots,
    {
        proof {
            lemma_leaf_count_update(self.rects@, index as int, child_node(rect));
            lemma_leaf_count_bound(self.rects@.update(index as int, child_node(rect)));
            assert(self.rects@.update(index as int, child_node(rect)).len() == self.rects.len());
        }
        if rect.size[0] > 0 && rect.size[1] > 0 {
            self.rects.set(index, RectNode::Leaf(rect));
            self.available = self.available + 1;
        } else {
            self.rects.set(index, RectNode::Closed);
        }
    }
}

/// What an insertion hands out and what heap it leaves is fixed by the heap
/// it starts from and the size asked for: two insertions of one size into
/// equal heaps hand out the same slot and leave equal heaps.
pub proof fn lemma_insert_deterministic(
    nodes: Seq<RectNode>,
    target: [u32; 2],
    first_slots: Seq<Rectangle>,
    first_nodes_after: Seq<RectNode>,
    first_slots_after: Seq<Rectangle>,
    first: Option<[u32; 2]>,
    second_slots: Seq<Rectangle>,
    second_nodes_after: Seq<RectNode>,
    second_slots_after: Seq<Rectangle>,
    second: Option<[u32; 2]>,
)
    requires
        inserted(
            nodes,
            first_slots,
            target,
            find_slot(nodes, target, 0),
            first_nodes_after,
            first_slots_after,
            first,
        ),
        inserted(
            nodes,
            second_slots,
            target,
            find_slot(nodes, target, 0),
            second_nodes_after,
            second_slots_after,
            second,
        ),
    ensures
        first == second,
        first_nodes_after == second_nodes_after,
{
}

/// A packer that has handed out nothing yet takes any size that is no
/// larger than its region, at the origin.
pub proof fn lemma_first_insert(width: u32, height: u32, target: [u32; 2])
    requires
        target[0] <= width,
        target[1] <= height,
    ensures
        find_slot(
            seq![RectNode::Leaf(Rectangle { pos: [0u32, 0u32], size: [width, height] })],
            target,
            0,
        ) == Some(0int),
{
}

} // verus!
