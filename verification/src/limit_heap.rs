//! A fixed tree of candidate request rates and a cursor that walks it.

use vstd::prelude::*;

verus! {

/// Number of nodes in the tree: a complete binary tree of height 7.
pub const HEAP_SIZE: usize = 255;

/// Half of the distance between a node's value and its parent's value.
pub open spec fn spread(parent: int, value: int) -> int {
    (if parent >= value { parent - value } else { value - parent }) / 2
}

/// Value given to the left child of a node: a step towards a higher rate.
pub open spec fn left_value(parent: int, value: int) -> int {
    value + spread(parent, value)
}

/// Value given to the right child of a node: a step towards a lower rate.
pub open spec fn right_value(parent: int, value: int) -> int {
    value - spread(parent, value)
}

/// The left child's value can be computed from `parent` and `value` in 32-bit
/// signed arithmetic.
pub open spec fn left_fits(parent: int, value: int) -> bool {
    &&& -(i32::MAX as int) <= parent - value <= i32::MAX
    &&& left_value(parent, value) <= i32::MAX
}

/// The right child's value can be computed from `parent` and `value` in 32-bit
/// signed arithmetic.
pub open spec fn right_fits(parent: int, value: int) -> bool {
    &&& -(i32::MAX as int) <= parent - value <= i32::MAX
    &&& i32::MIN <= right_value(parent, value)
}

/// Mathematical model of a [`LimitHeap`].
pub struct HeapView {
    /// The 255 node values, root first, children of `i` at `2i + 1` and `2i + 2`.
    pub inner: Seq<i32>,
    /// The rate the tree was seeded with.
    pub original: i32,
    /// Index of the node the cursor rests on.
    pub current: int,
}

impl HeapView {
    /// The model describes a tree of the right size with the cursor on a node.
    pub open spec fn wf(self) -> bool {
        &&& self.inner.len() == HEAP_SIZE
        &&& 0 <= self.current < HEAP_SIZE
    }

    /// The cursor's node has two children.
    pub open spec fn has_children(self) -> bool {
        self.current * 2 + 2 <= 254
    }

    /// The cursor's node is not the root.
    pub open spec fn has_parent(self) -> bool {
        self.current > 0
    }

    /// Value of the cursor's node.
    pub open spec fn value(self) -> i32 {
        self.inner[self.current]
    }

    /// Every node holds zero.
    pub open spec fn is_blank(self) -> bool {
        forall|index: int| 0 <= index < HEAP_SIZE ==> self.inner[index] == 0
    }

    /// The same tree seeded with another rate.
    pub open spec fn with_original(self, rate: i32) -> HeapView {
        HeapView { original: rate, ..self }
    }

    /// The same tree with the cursor on `index`.
    pub open spec fn move_to(self, index: int) -> HeapView {
        HeapView { current: index, ..self }
    }

    /// The cursor steps to the right child, or stays on a leaf.
    pub open spec fn move_right(self) -> HeapView {
        if self.has_children() {
            self.move_to(self.current * 2 + 2)
        } else {
            self
        }
    }

    /// The cursor steps to the left child, or stays on a leaf.
    pub open spec fn move_left(self) -> HeapView {
        if self.has_children() {
            self.move_to(self.current * 2 + 1)
        } else {
            self
        }
    }

    /// The cursor steps to the parent, or stays on the root.
    pub open spec fn move_up(self) -> HeapView {
        if self.has_parent() {
            self.move_to((self.current - 1) / 2)
        } else {
            self
        }
    }

    /// The same tree with `value` written to the cursor's node.
    pub open spec fn set_value(self, value: i32) -> HeapView {
        HeapView { inner: self.inner.update(self.current, value), ..self }
    }

    /// Value of the parent of the cursor's node; the seed rate above the root.
    pub open spec fn parent_value(self) -> i32 {
        if self.has_parent() {
            self.move_up().value()
        } else {
            self.original
        }
    }

    /// Value of the right child of the cursor's node; a leaf answers with its own value.
    pub open spec fn right_child_value(self) -> i32 {
        self.move_right().value()
    }

    /// The tree after the left child of the cursor's node has been written.
    /// On a leaf there is no child to step to: the leaf itself is overwritten
    /// and the cursor ends on its parent.
    pub open spec fn set_left_child(self) -> HeapView {
        let value = left_value(self.parent_value() as int, self.value() as int);
        self.move_left().set_value(value as i32).move_up()
    }

    /// The tree after the right child of the cursor's node has been written.
    /// On a leaf there is no child to step to: the leaf itself is overwritten
    /// and the cursor ends on its parent.
    pub open spec fn set_right_child(self) -> HeapView {
        let value = right_value(self.parent_value() as int, self.value() as int);
        self.move_right().set_value(value as i32).move_up()
    }

    /// Value that `build` leaves at node `index`.
    ///
    /// The root holds half of the seed rate and its children are derived from
    /// it. Below, the children of `node` are derived from the node and its
    /// parent when the right child's slot held zero before the build, and keep
    /// what they held otherwise.
    pub open spec fn built_value(self, index: int) -> int
        decreases index,
    {
        if index <= 0 {
            self.original / 2
        } else if index == 1 {
            left_value(self.original as int, self.original / 2)
        } else if index == 2 {
            right_value(self.original as int, self.original / 2)
        } else {
            let node = (index - 1) / 2;
            if self.inner[2 * node + 2] != 0 {
                self.inner[index] as int
            } else if index % 2 == 1 {
                left_value(self.built_value((node - 1) / 2), self.built_value(node))
            } else {
                right_value(self.built_value((node - 1) / 2), self.built_value(node))
            }
        }
    }

    /// The tree that `build` leaves: every node holds its built value and the
    /// cursor rests on the root.
    pub open spec fn built(self) -> HeapView {
        HeapView {
            inner: Seq::new(HEAP_SIZE as nat, |index: int| self.built_value(index) as i32),
            original: self.original,
            current: 0,
        }
    }

    /// Distance between the value `build` leaves at `index` and the value
    /// above it: the parent's, or the seed rate above the root.
    spec fn built_gap(self, index: int) -> int {
        let above = if index <= 0 {
            self.original as int
        } else {
            self.built_value((index - 1) / 2)
        };
        if above >= self.built_value(index) {
            above - self.built_value(index)
        } else {
            self.built_value(index) - above
        }
    }

    /// Both children of `node` can be derived in 32-bit signed arithmetic
    /// during a build.
    pub open spec fn children_fit(self, node: int) -> bool {
        &&& left_fits(self.built_value((node - 1) / 2), self.built_value(node))
        &&& right_fits(self.built_value((node - 1) / 2), self.built_value(node))
    }

    /// A build of this tree stays within 32-bit signed arithmetic: the seed
    /// rate is not negative and every pair of children that the build derives
    /// fits.
    pub open spec fn buildable(self) -> bool {
        &&& self.original >= 0
        &&& forall|node: int|
            1 <= node <= 126 && self.inner[2 * node + 2] == 0 ==> #[trigger] self.children_fit(
                node,
            )
    }
}

/// In a tree of zeroes every built value lies between zero and the seed rate,
/// and keeps a margin of its gap on both sides.
proof fn lemma_blank_bounds(h: HeapView, index: int)
    requires
        h.wf(),
        h.is_blank(),
        h.original >= 0,
        0 <= index < HEAP_SIZE,
    ensures
        0 <= h.built_value(index) <= h.original,
        h.built_gap(index) >= 1 ==> h.built_gap(index) - 1 <= h.built_value(index)
            && h.built_value(index) + h.built_gap(index) - 1 <= h.original,
    decreases index,
{
    if index > 0 {
        let node = (index - 1) / 2;
        lemma_blank_bounds(h, node);
        assert(h.inner[2 * node + 2] == 0);
    }
}

/// A tree of zeroes can be built from any seed rate that is not negative, and
/// every value of the built tree lies between zero and the seed rate.
pub proof fn lemma_blank_buildable(h: HeapView)
    requires
        h.wf(),
        h.is_blank(),
        h.original >= 0,
    ensures
        h.buildable(),
        forall|index: int|
            0 <= index < HEAP_SIZE ==> 0 <= #[trigger] h.built_value(index) <= h.original,
{
    assert forall|index: int| 0 <= index < HEAP_SIZE implies 0 <= #[trigger] h.built_value(index)
        <= h.original by {
        lemma_blank_bounds(h, index);
    }
    assert forall|node: int| 1 <= node <= 126 && h.inner[2 * node + 2] == 0 implies #[trigger] h.children_fit(
        node,
    ) by {
        lemma_blank_bounds(h, node);
        lemma_blank_bounds(h, (node - 1) / 2);
        lemma_blank_bounds(h, 2 * node + 1);
        lemma_blank_bounds(h, 2 * node + 2);
    }
}

/// Whatever the tree held, a build puts half of the seed rate in the root.
/// Where a quarter of the seed rate leaves a remainder below two, the root's
/// children hold three quarters and one quarter of it.
pub proof fn lemma_first_levels(h: HeapView)
    requires
        h.original >= 0,
    ensures
        h.built_value(0) == h.original / 2,
        h.built_value(1) == left_value(h.original as int, h.original / 2),
        h.built_value(2) == right_value(h.original as int, h.original / 2),
        h.original % 4 < 2 ==> h.built_value(1) == h.original / 2 + h.original / 4
            && h.built_value(2) == h.original / 4,
{
}

/// Seeded with zero, a tree of zeroes is built to a tree of zeroes.
pub proof fn lemma_blank_zero_seed(h: HeapView)
    requires
        h.wf(),
        h.is_blank(),
        h.original == 0,
    ensures
        h.buildable(),
        h.built().is_blank(),
{
    lemma_blank_buildable(h);
}

/// After a build no node is smaller than its right child or larger than its
/// left child, wherever the build derived the children: below the root, and
/// below every node whose right child's slot held zero. Children that the
/// build kept hold what they held before, in whatever order.
pub proof fn lemma_children_ordered(h: HeapView, node: int)
    requires
        h.wf(),
        0 <= node <= 126,
    ensures
        node == 0 || h.inner[2 * node + 2] == 0 ==> h.built_value(2 * node + 1) >= h.built_value(
            node,
        ) >= h.built_value(2 * node + 2),
        node > 0 && h.inner[2 * node + 2] != 0 ==> h.built_value(2 * node + 1) == h.inner[2 * node
            + 1] && h.built_value(2 * node + 2) == h.inner[2 * node + 2],
{
}

/// Built from a tree of zeroes, every node with children lies between them:
/// the left child is not smaller and the right child is not larger.
pub proof fn lemma_blank_build_ordered(h: HeapView)
    requires
        h.wf(),
        h.is_blank(),
        h.original >= 0,
    ensures
        forall|node: int|
            0 <= node <= 126 ==> h.built().inner[2 * node + 1] >= #[trigger] h.built().inner[node]
                >= h.built().inner[2 * node + 2],
{
    lemma_blank_buildable(h);
    assert forall|node: int| 0 <= node <= 126 implies h.built().inner[2 * node + 1]
        >= #[trigger] h.built().inner[node] >= h.built().inner[2 * node + 2] by {
        lemma_children_ordered(h, node);
    }
}

/// Every value that a build within 32-bit arithmetic leaves is a 32-bit value.
pub proof fn lemma_built_values_fit(h: HeapView, index: int)
    requires
        h.wf(),
        h.buildable(),
        0 <= index < HEAP_SIZE,
    ensures
        i32::MIN <= h.built_value(index) <= i32::MAX,
    decreases index,
{
    if index >= 3 {
        let node = (index - 1) / 2;
        if h.inner[2 * node + 2] == 0 {
            assert(h.children_fit(node));
            lemma_built_values_fit(h, node);
        }
    }
}

/// A second build from the same seed rate finds every node as the first build
/// left it.
proof fn lemma_rebuilt_value(h: HeapView, index: int)
    requires
        h.wf(),
        h.buildable(),
        0 <= index < HEAP_SIZE,
    ensures
        h.built().built_value(index) == h.built_value(index),
    decreases index,
{
    if index >= 3 {
        let node = (index - 1) / 2;
        lemma_built_values_fit(h, index);
        lemma_built_values_fit(h, 2 * node + 2);
        lemma_rebuilt_value(h, node);
        lemma_rebuilt_value(h, (node - 1) / 2);
    }
}

/// Building is idempotent: a tree that was built can be built again from the
/// same seed rate, and the second build changes nothing.
pub proof fn lemma_build_idempotent(h: HeapView)
    requires
        h.wf(),
        h.buildable(),
    ensures
        h.built().wf(),
        h.built().buildable(),
        h.built().built() == h.built(),
{
    let once = h.built();
    assert forall|node: int| 1 <= node <= 126 && once.inner[2 * node + 2] == 0 implies #[trigger] once.children_fit(
        node,
    ) by {
        lemma_built_values_fit(h, 2 * node + 2);
        lemma_rebuilt_value(h, node);
        lemma_rebuilt_value(h, (node - 1) / 2);
        if h.inner[2 * node + 2] == 0 {
            assert(h.children_fit(node));
        }
    }
    assert forall|index: int| 0 <= index < HEAP_SIZE implies once.built().inner[index]
        == once.inner[index] by {
        lemma_rebuilt_value(h, index);
    }
    assert(once.built().inner =~= once.inner);
}

/// Half of the distance between `parent` and `value`.
fn half_gap(parent: i32, value: i32) -> (gap: i32)
    requires
        -(i32::MAX as int) <= parent - value <= i32::MAX,
    ensures
        gap == spread(parent as int, value as int),
        0 <= gap,
{
    let distance: i32 = parent - value;
    let magnitude: i32 = if distance < 0 {
        -distance
    } else {
        distance
    };
    magnitude / 2
}

/// A complete binary tree of 255 candidate rates stored in index order, with a
/// cursor. Taking the left child raises the rate, taking the right child lowers
/// it, and each level halves the step.
#[derive(Debug)]
pub struct LimitHeap {
    inner: [i32; 255],
    original: i32,
    current: usize,
}

impl View for LimitHeap {
    type V = HeapView;

    closed spec fn view(&self) -> HeapView {
        HeapView { inner: self.inner@, original: self.original, current: self.current as int }
    }
}

impl Default for LimitHeap {
    /// A tree of zeroes seeded with zero, cursor on the root.
    fn default() -> (heap: LimitHeap)
        ensures
            heap@.wf(),
            heap@.is_blank(),
            heap@.original == 0,
            heap@.current == 0,
    {
        LimitHeap { inner: [0; 255], original: 0, current: 0 }
    }
}

impl LimitHeap {
    /// The cursor always rests on one of the 255 nodes.
    #[verifier::type_invariant]
    pub open spec fn inv(&self) -> bool {
        self@.wf()
    }

    /// Index of the node the cursor rests on.
    pub fn current(&self) -> (index: usize)
        ensures
            index == self@.current,
            index < HEAP_SIZE,
    {
        proof {
            use_type_invariant(self);
        }
        self.current
    }

    /// The rate the tree is seeded with.
    pub fn original(&self) -> (rate: i32)
        ensures
            rate == self@.original,
    {
        self.original
    }

    /// Change the seed rate; the nodes keep their values until the next build.
    pub fn set_original(&mut self, rate: i32)
        ensures
            final(self)@ == old(self)@.with_original(rate),
    {
        proof {
            use_type_invariant(&*self);
        }
        self.original = rate;
    }

    /// Value of the node at `index`, wherever the cursor is.
    pub fn node(&self, index: usize) -> (v: i32)
        requires
            index < HEAP_SIZE,
        ensures
            v == self@.inner[index as int],
    {
        self.inner[index]
    }

    /// Move to the right child; returns the index the move was asked from.
    /// On a leaf, from index 127 on, the cursor stays.
    pub fn move_right(&mut self) -> (from: usize)
        ensures
            from == old(self)@.current,
            final(self)@ == old(self)@.move_right(),
            old(self)@.current >= 127 ==> final(self)@ == old(self)@,
    {
        proof {
            use_type_invariant(&*self);
        }
        if self.has_children() {
            let tmp: usize = self.current;
            self.current = self.current * 2 + 2;
            return tmp;
        }
        self.current
    }

    /// Move to the left child; returns the index the move was asked from.
    /// On a leaf, from index 127 on, the cursor stays.
    pub fn move_left(&mut self) -> (from: usize)
        ensures
            from == old(self)@.current,
            final(self)@ == old(self)@.move_left(),
            old(self)@.current >= 127 ==> final(self)@ == old(self)@,
    {
        proof {
            use_type_invariant(&*self);
        }
        if self.has_children() {
            let tmp: usize = self.current;
            self.current = self.current * 2 + 1;
            return tmp;
        }
        self.current
    }

    /// Move to the parent; returns the index the move was asked from. On the
    /// root the cursor stays.
    pub fn move_up(&mut self) -> (from: usize)
        ensures
            from == old(self)@.current,
            final(self)@ == old(self)@.move_up(),
    {
        proof {
            use_type_invariant(&*self);
        }
        if self.has_parent() {
            let tmp: usize = self.current;
            self.current = (self.current - 1) / 2;
            return tmp;
        }
        self.current
    }

    /// Move directly to the node at `index`.
    pub fn move_to(&mut self, index: usize)
        requires
            index < HEAP_SIZE,
        ensures
            final(self)@ == old(self)@.move_to(index as int),
    {
        self.current = index;
    }

    /// Value of the cursor's node.
    pub fn value(&self) -> (v: i32)
        ensures
            v == self@.value(),
    {
        proof {
            use_type_invariant(self);
        }
        self.inner[self.current]
    }

    /// Write `value` to the cursor's node.
    pub fn set_value(&mut self, value: i32)
        ensures
            final(self)@ == old(self)@.set_value(value),
    {
        proof {
            use_type_invariant(&*self);
        }
        self.inner[self.current] = value;
    }

    /// Whether the cursor's node has a parent: true of all but the root.
    pub fn has_parent(&self) -> (b: bool)
        ensures
            b == self@.has_parent(),
    {
        self.current > 0
    }

    /// Whether the cursor's node has children.
    pub fn has_children(&self) -> (b: bool)
        ensures
            b == self@.has_children(),
    {
        proof {
            use_type_invariant(self);
        }
        self.current * 2 + 2 <= self.inner.len()
    }

    /// Value of the parent of the cursor's node, or the seed rate at the root.
    /// The cursor ends where it started.
    pub fn parent_value(&mut self) -> (v: i32)
        ensures
            v == old(self)@.parent_value(),
            final(self)@ == old(self)@,
            !old(self)@.has_parent() ==> v == old(self)@.original,
    {
        proof {
            use_type_invariant(&*self);
        }
        if self.has_parent() {
            let current: usize = self.move_up();
            let val: i32 = self.value();
            self.move_to(current);
            return val;
        }
        self.original
    }

    /// Value of the right child of the cursor's node. The cursor ends where
    /// it started.
    pub fn right_child_value(&mut self) -> (v: i32)
        ensures
            v == old(self)@.right_child_value(),
            final(self)@ == old(self)@,
    {
        proof {
            use_type_invariant(&*self);
        }
        let tmp: usize = self.move_right();
        let val: i32 = self.value();
        self.move_to(tmp);
        val
    }

    /// Derive the left child of the cursor's node from the node and its parent.
    pub fn set_left_child(&mut self)
        requires
            left_fits(old(self)@.parent_value() as int, old(self)@.value() as int),
        ensures
            final(self)@ == old(self)@.set_left_child(),
            old(self)@.has_children() ==> final(self)@ == (HeapView {
                inner: old(self)@.inner.update(
                    old(self)@.current * 2 + 1,
                    left_value(old(self)@.parent_value() as int, old(self)@.value() as int) as i32,
                ),
                ..old(self)@
            }),
    {
        proof {
            use_type_invariant(&*self);
        }
        let parent: i32 = self.parent_value();
        let current: i32 = self.value();
        let value: i32 = half_gap(parent, current) + current;

        self.move_left();
        self.set_value(value);
        self.move_up();
    }

    /// Derive the right child of the cursor's node from the node and its parent.
    pub fn set_right_child(&mut self)
        requires
            right_fits(old(self)@.parent_value() as int, old(self)@.value() as int),
        ensures
            final(self)@ == old(self)@.set_right_child(),
            old(self)@.has_children() ==> final(self)@ == (HeapView {
                inner: old(self)@.inner.update(
                    old(self)@.current * 2 + 2,
                    right_value(old(self)@.parent_value() as int, old(self)@.value() as int) as i32,
                ),
                ..old(self)@
            }),
    {
        proof {
            use_type_invariant(&*self);
        }
        let parent: i32 = self.parent_value();
        let current: i32 = self.value();
        let value: i32 = current - half_gap(parent, current);

        self.move_right();
        self.set_value(value);
        self.move_up();
    }

    /// Whether the tree, seeded with `rate`, could be built within 32-bit
    /// signed arithmetic. Nothing is changed.
    pub fn can_build(&self, rate: i32) -> (ok: bool)
        ensures
            ok == self@.with_original(rate).buildable(),
    {
        proof {
            use_type_invariant(self);
        }
        if rate < 0 {
            return false;
        }
        let ghost seeded = self@.with_original(rate);
        let root: i32 = rate / 2;
        let mut built: [i32; 255] = [0; 255];
        built[0] = root;
        built[1] = half_gap(rate, root) + root;
        built[2] = root - half_gap(rate, root);

        let mut node: usize = 1;
        while node < 127
            invariant
                1 <= node <= 127,
                self@.wf(),
                seeded == self@.with_original(rate),
                rate >= 0,
                forall|index: int|
                    0 <= index < 2 * node + 1 ==> built@[index] == seeded.built_value(index),
                forall|earlier: int|
                    1 <= earlier < node && seeded.inner[2 * earlier + 2] == 0
                        ==> #[trigger] seeded.children_fit(earlier),
            decreases 127 - node,
        {
            if self.inner[2 * node + 2] == 0 {
                let parent: i64 = built[(node - 1) / 2] as i64;
                let value: i64 = built[node] as i64;
                let distance: i64 = parent - value;
                if distance < -(i32::MAX as i64) || distance > i32::MAX as i64 {
                    assert(!seeded.children_fit(node as int));
                    return false;
                }
                let gap: i64 = (if distance < 0 {
                    -distance
                } else {
                    distance
                }) / 2;
                let left: i64 = value + gap;
                let right: i64 = value - gap;
                assert(parent == seeded.built_value((node - 1) / 2));
                assert(value == seeded.built_value(node as int));
                assert(seeded.built_value(2 * node + 1) == left);
                assert(seeded.built_value(2 * node + 2) == right);
                if left > i32::MAX as i64 || right < i32::MIN as i64 {
                    assert(!seeded.children_fit(node as int));
                    return false;
                }
                built[2 * node + 1] = left as i32;
                built[2 * node + 2] = right as i32;
            } else {
                built[2 * node + 1] = self.inner[2 * node + 1];
                built[2 * node + 2] = self.inner[2 * node + 2];
            }
            node += 1;
        }
        true
    }

    /// Fill the tree from the seed rate and put the cursor on the root.
    ///
    /// The root takes half of the seed rate and its two children are derived
    /// from it. Every further node that has children gets them derived when
    /// its right child's slot holds zero, and keeps them as they are
    /// otherwise.
    pub fn build(&mut self)
        requires
            old(self)@.buildable(),
        ensures
            final(self)@ == old(self)@.built(),
            forall|index: int|
                0 <= index < HEAP_SIZE ==> final(self)@.inner[index] == old(self)@.built_value(
                    index,
                ),
    {
        proof {
            use_type_invariant(&*self);
        }
        let ghost before = self@;
        let root: i32 = self.original / 2;

        self.inner[0] = root;
        self.inner[1] = half_gap(self.original, root) + root;
        self.inner[2] = root - half_gap(self.original, root);

        let nodes: usize = self.inner.len();
        for i in 1..nodes
            invariant
                nodes == HEAP_SIZE,
                before.buildable(),
                before.wf(),
                self@.wf(),
                self@.original == before.original,
                forall|index: int|
                    0 <= index < HEAP_SIZE && index < 2 * i + 1 ==> self@.inner[index]
                        == before.built_value(index),
                forall|index: int|
                    2 * i + 1 <= index < HEAP_SIZE ==> self@.inner[index] == before.inner[index],
        {
            self.move_to(i);

            if self.has_children() && self.right_child_value() == 0 {
                assert(before.children_fit(i as int));
                self.set_left_child();
                self.set_right_child();
            }
        }
        self.move_to(0);
        assert(self@.inner =~= before.built().inner);
    }
}

} // verus!
