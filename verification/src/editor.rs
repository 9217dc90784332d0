//! Editor layer masks, selection sets and transform-tool settings.

use vstd::prelude::*;

use crate::ids::NodeId;

verus! {

broadcast use vstd::seq_lib::group_filter_ensures;

/// A bit mask used to filter scene interaction layers.
#[derive(Clone, Copy, Debug, Default, PartialEq, Eq, Hash, Structural)]
pub struct LayerMask(u32);

impl View for LayerMask {
    type V = u32;

    closed spec fn view(&self) -> u32 {
        self.0
    }
}

impl LayerMask {
    /// No layers.
    pub fn none() -> (mask: Self)
        ensures
            mask@ == 0,
    {
        LayerMask(0)
    }

    /// Every layer bit.
    pub fn all() -> (mask: Self)
        ensures
            mask@ == 0xffff_ffffu32,
    {
        LayerMask(0xffff_ffff)
    }

    /// Creates a mask from raw bits.
    pub fn from_bits(bits: u32) -> (mask: Self)
        ensures
            mask@ == bits,
    {
        LayerMask(bits)
    }

    /// Returns raw mask bits.
    pub fn bits(self) -> (bits: u32)
        ensures
            bits == self@,
    {
        self.0
    }

    /// Returns whether any bits overlap.
    pub fn intersects(self, other: Self) -> (b: bool)
        ensures
            b == (self@ & other@ != 0),
    {
        self.0 & other.0 != 0
    }

    /// Returns whether this mask includes the node's layer mask.
    pub fn matches_node(self, node_layers: u32) -> (b: bool)
        ensures
            b == (self@ & node_layers != 0),
    {
        self.0 & node_layers != 0
    }

    /// Adds bits to the mask.
    pub fn insert(&mut self, other: Self)
        ensures
            final(self)@ == old(self)@ | other@,
    {
        self.0 = self.0 | other.0;
    }

    /// Removes bits from the mask.
    pub fn remove(&mut self, other: Self)
        ensures
            final(self)@ == old(self)@ & !other@,
    {
        self.0 = self.0 & !other.0;
    }
}

/// After `insert(other)`, a mask overlaps every non-empty `other`; after
/// `remove(other)`, it overlaps none of `other`'s bits; and the bits it held
/// before stay set after an insert.
pub proof fn lemma_layer_mask_insert_remove(mask: u32, other: u32)
    ensures
        other != 0 ==> (mask | other) & other != 0,
        (mask & !other) & other == 0,
        (mask | other) & mask == mask,
{
    assert(other != 0 ==> (mask | other) & other != 0) by (bit_vector);
    assert((mask & !other) & other == 0) by (bit_vector);
    assert((mask | other) & mask == mask) by (bit_vector);
}

/// The empty mask overlaps nothing; the full mask overlaps every non-empty mask.
pub proof fn lemma_layer_mask_none_all(other: u32)
    ensures
        0u32 & other == 0,
        other != 0 ==> 0xffff_ffffu32 & other != 0,
{
    assert(0u32 & other == 0) by (bit_vector);
    assert(other != 0 ==> 0xffff_ffffu32 & other != 0) by (bit_vector);
}

/// Layer filters applied by editor interactions.
#[derive(Clone, Copy, Debug, PartialEq, Eq)]
pub struct LayerPolicy {
    /// Layers eligible for selection.
    pub selectable: LayerMask,
    /// Layers eligible for dragging.
    pub draggable: LayerMask,
    /// Layers eligible for transform tools.
    pub transformable: LayerMask,
}

impl Default for LayerPolicy {
    fn default() -> (policy: Self)
        ensures
            policy.selectable@ == 0xffff_ffffu32,
            policy.draggable@ == 0xffff_ffffu32,
            policy.transformable@ == 0xffff_ffffu32,
    {
        LayerPolicy {
            selectable: LayerMask::all(),
            draggable: LayerMask::all(),
            transformable: LayerMask::all(),
        }
    }
}

/// Sparse editor-only metadata associated with a scene node.
#[derive(Clone, Debug, PartialEq, Eq)]
pub struct NodeEditorMetadata {
    /// Node can be selected.
    pub selectable: bool,
    /// Node can be moved by drag tools.
    pub draggable: bool,
    /// Node can be modified by transform tools.
    pub transformable: bool,
    /// Node is protected from editor mutations.
    pub locked: bool,
    /// Node appears in inspector snapshots.
    pub visible_in_inspector: bool,
    /// Optional editor label overriding the scene name.
    pub label: Option<String>,
    /// Application-defined editor tags.
    pub tags: Vec<String>,
}

impl Default for NodeEditorMetadata {
    fn default() -> (meta: Self)
        ensures
            meta.selectable,
            meta.draggable,
            meta.transformable,
            !meta.locked,
            meta.visible_in_inspector,
            meta.label is None,
            meta.tags@.len() == 0,
    {
        NodeEditorMetadata {
            selectable: true,
            draggable: true,
            transformable: true,
            locked: false,
            visible_in_inspector: true,
            label: None,
            tags: Vec::new(),
        }
    }
}

/// How a selection command combines with the existing selection.
#[derive(Clone, Copy, Debug, PartialEq, Eq, Hash, Structural)]
pub enum SelectionMode {
    /// Replace the complete selection.
    Replace,
    /// Add the node if absent.
    Add,
    /// Toggle membership.
    Toggle,
    /// Remove the node if present.
    Remove,
}

impl Default for SelectionMode {
    fn default() -> (mode: Self)
        ensures
            mode == SelectionMode::Replace,
    {
        SelectionMode::Replace
    }
}

/// Active transform tool.
#[derive(Clone, Copy, Debug, PartialEq, Eq, Hash, Structural)]
pub enum TransformMode {
    /// Move nodes.
    Translate,
    /// Rotate nodes.
    Rotate,
    /// Scale nodes.
    Scale,
}

impl Default for TransformMode {
    fn default() -> (mode: Self)
        ensures
            mode == TransformMode::Translate,
    {
        TransformMode::Translate
    }
}

/// Coordinate system used by a transform tool.
#[derive(Clone, Copy, Debug, PartialEq, Eq, Hash, Structural)]
pub enum TransformSpace {
    /// World axes.
    World,
    /// Node-local axes.
    Local,
}

impl Default for TransformSpace {
    fn default() -> (space: Self)
        ensures
            space == TransformSpace::World,
    {
        TransformSpace::World
    }
}

/// Axis or plane constraint used by a transform operation.
#[derive(Clone, Copy, Debug, PartialEq, Eq, Hash, Structural)]
pub enum TransformConstraint {
    /// No axis constraint.
    Free,
    /// X axis.
    X,
    /// Y axis.
    Y,
    /// Z axis.
    Z,
    /// XY plane.
    XY,
    /// XZ plane.
    XZ,
    /// YZ plane.
    YZ,
}

impl Default for TransformConstraint {
    fn default() -> (constraint: Self)
        ensures
            constraint == TransformConstraint::Free,
    {
        TransformConstraint::Free
    }
}

/// Whether `ids` is in strictly ascending identifier order (hence free of
/// duplicates).
pub open spec fn strictly_sorted(ids: Seq<NodeId>) -> bool {
    forall|i: int, j: int| 0 <= i < j < ids.len() ==> ids[i].0 < ids[j].0
}

/// The set of nodes selected after applying `mode` for `id` to `selected`.
pub open spec fn selection_after(selected: Seq<NodeId>, id: NodeId, mode: SelectionMode) -> Set<
    NodeId,
> {
    match mode {
        SelectionMode::Replace => Set::empty().insert(id),
        SelectionMode::Add => selected.to_set().insert(id),
        SelectionMode::Toggle => if selected.contains(id) {
            selected.to_set().remove(id)
        } else {
            selected.to_set().insert(id)
        },
        SelectionMode::Remove => selected.to_set().remove(id),
    }
}

/// Identifiers of `current` that are absent from `previous`, in `current` order.
pub open spec fn added_ids(previous: Seq<NodeId>, current: Seq<NodeId>) -> Seq<NodeId> {
    current.filter(|x: NodeId| !previous.contains(x))
}

/// Identifiers of `previous` that are absent from `current`, in `previous` order.
pub open spec fn removed_ids(previous: Seq<NodeId>, current: Seq<NodeId>) -> Seq<NodeId> {
    previous.filter(|x: NodeId| !current.contains(x))
}

/// Current graph-local editor selection.
#[derive(Debug, PartialEq, Eq)]
pub struct SelectionState {
    hovered: Option<NodeId>,
    active: Option<NodeId>,
    selected: Vec<NodeId>,
}

/// Abstract value of a [`SelectionState`].
pub struct SelectionView {
    /// Node under the pointer, if any.
    pub hovered: Option<NodeId>,
    /// Node receiving the active interaction, if any.
    pub active: Option<NodeId>,
    /// Selected identifiers, in stored order.
    pub selected: Seq<NodeId>,
}

impl View for SelectionState {
    type V = SelectionView;

    closed spec fn view(&self) -> SelectionView {
        SelectionView { hovered: self.hovered, active: self.active, selected: self.selected@ }
    }
}

impl Clone for SelectionState {
    fn clone(&self) -> (copy: Self)
        ensures
            copy@ == self@,
    {
        proof {
            use_type_invariant(self);
        }
        SelectionState {
            hovered: self.hovered,
            active: self.active,
            selected: copy_ids(self.selected.as_slice()),
        }
    }
}

impl Default for SelectionState {
    fn default() -> (state: Self)
        ensures
            state@.hovered is None,
            state@.active is None,
            state@.selected == Seq::<NodeId>::empty(),
    {
        SelectionState { hovered: None, active: None, selected: Vec::new() }
    }
}

impl SelectionState {
    /// The selection is kept in strictly ascending identifier order.
    #[verifier::type_invariant]
    spec fn selection_sorted(self) -> bool {
        strictly_sorted(self.selected@)
    }

    /// Selected IDs in ascending deterministic order.
    pub fn selected(&self) -> (ids: &[NodeId])
        ensures
            ids@ == self@.selected,
            strictly_sorted(ids@),
    {
        proof {
            use_type_invariant(self);
        }
        self.selected.as_slice()
    }

    /// Returns whether a node is selected.
    pub fn contains(&self, id: NodeId) -> (b: bool)
        ensures
            b == self@.selected.contains(id),
    {
        proof {
            use_type_invariant(self);
        }
        search_ids(self.selected.as_slice(), id).is_ok()
    }

    /// Node under the pointer, if any.
    pub fn hovered(&self) -> (id: Option<NodeId>)
        ensures
            id == self@.hovered,
    {
        self.hovered
    }

    /// Node receiving the active interaction, if any.
    pub fn active(&self) -> (id: Option<NodeId>)
        ensures
            id == self@.active,
    {
        self.active
    }

    /// Sets the node under the pointer.
    pub fn set_hovered(&mut self, id: Option<NodeId>)
        ensures
            final(self)@.hovered == id,
            final(self)@.active == old(self)@.active,
            final(self)@.selected == old(self)@.selected,
    {
        proof {
            use_type_invariant(&*self);
        }
        self.hovered = id;
    }

    /// Sets the node receiving the active interaction.
    pub fn set_active(&mut self, id: Option<NodeId>)
        ensures
            final(self)@.active == id,
            final(self)@.hovered == old(self)@.hovered,
            final(self)@.selected == old(self)@.selected,
    {
        proof {
            use_type_invariant(&*self);
        }
        self.active = id;
    }
}

/// Exact selection differences produced by one operation.
#[derive(Clone, Debug, Default, PartialEq, Eq)]
pub struct SelectionChange {
    /// IDs added by the operation.
    pub added: Vec<NodeId>,
    /// IDs removed by the operation.
    pub removed: Vec<NodeId>,
}

/// Binary search over strictly ascending identifiers: `Ok(i)` where `id`
/// stands, or `Err(i)` with `i` the position at which it would be inserted.
fn search_ids(ids: &[NodeId], id: NodeId) -> (r: Result<usize, usize>)
    requires
        strictly_sorted(ids@),
    ensures
        match r {
            Ok(i) => i < ids@.len() && ids@[i as int] == id,
            Err(i) => {
                &&& i <= ids@.len()
                &&& forall|j: int| 0 <= j < i ==> ids@[j].0 < id.0
                &&& forall|j: int| i <= j < ids@.len() ==> ids@[j].0 > id.0
            },
        },
        r is Ok <==> ids@.contains(id),
{
    let mut lo: usize = 0;
    let mut hi: usize = ids.len();
    while lo < hi
        invariant
            strictly_sorted(ids@),
            lo <= hi <= ids@.len(),
            forall|j: int| 0 <= j < lo ==> ids@[j].0 < id.0,
            forall|j: int| hi <= j < ids@.len() ==> ids@[j].0 > id.0,
        decreases hi - lo,
    {
        let mid = lo + (hi - lo) / 2;
        let m = ids[mid].0;
        if m < id.0 {
            lo = mid + 1;
        } else if m > id.0 {
            hi = mid;
        } else {
            assert(ids@[mid as int] == id);
            return Ok(mid);
        }
    }
    assert(!ids@.contains(id)) by {
        if ids@.contains(id) {
            let k = choose|k: int| 0 <= k < ids@.len() && ids@[k] == id;
            assert(ids@[k].0 == id.0);
        }
    }
    Err(lo)
}

/// Applies one selection command and reports exactly what changed.
///
/// The selection stays in strictly ascending order; hover and active
/// interaction are left untouched.
pub fn apply_selection(state: &mut SelectionState, id: NodeId, mode: SelectionMode) -> (change:
    SelectionChange)
    ensures
        strictly_sorted(old(state)@.selected),
        strictly_sorted(final(state)@.selected),
        final(state)@.selected.to_set() == selection_after(old(state)@.selected, id, mode),
        final(state)@.hovered == old(state)@.hovered,
        final(state)@.active == old(state)@.active,
        change.added@ == added_ids(old(state)@.selected, final(state)@.selected),
        change.removed@ == removed_ids(old(state)@.selected, final(state)@.selected),
{
    proof {
        use_type_invariant(&*state);
    }
    let previous = copy_ids(state.selected.as_slice());
    let mut ids: Vec<NodeId> = Vec::new();
    std::mem::swap(&mut ids, &mut state.selected);
    let ghost old_ids = ids@;
    match mode {
        SelectionMode::Replace => {
            ids.clear();
            ids.push(id);
            proof {
                assert(ids@ =~= Seq::<NodeId>::empty().push(id));
                Seq::<NodeId>::empty().lemma_push_to_set_commute(id);
                assert(Seq::<NodeId>::empty().to_set() =~= Set::<NodeId>::empty());
            }
        },
        SelectionMode::Add => {
            match search_ids(ids.as_slice(), id) {
                Ok(_) => {
                    assert(old_ids.to_set() =~= old_ids.to_set().insert(id));
                },
                Err(index) => {
                    ids.insert(index, id);
                    proof { lemma_insert_sorted(old_ids, index as int, id); }
                },
            }
        },
        SelectionMode::Toggle => {
            match search_ids(ids.as_slice(), id) {
                Ok(index) => {
                    ids.remove(index);
                    proof { lemma_remove_sorted(old_ids, index as int); }
                },
                Err(index) => {
                    ids.insert(index, id);
                    proof { lemma_insert_sorted(old_ids, index as int, id); }
                },
            }
        },
        SelectionMode::Remove => {
            match search_ids(ids.as_slice(), id) {
                Ok(index) => {
                    ids.remove(index);
                    proof { lemma_remove_sorted(old_ids, index as int); }
                },
                Err(_) => {
                    assert(old_ids.to_set() =~= old_ids.to_set().remove(id));
                },
            }
        },
    }
    state.selected = ids;
    selection_diff(previous.as_slice(), state.selected.as_slice())
}

/// Replaces the whole selection with the given identifiers (sorted, without
/// duplicates) and reports exactly what changed.
pub fn replace_selection(state: &mut SelectionState, selected: Vec<NodeId>) -> (change:
    SelectionChange)
    ensures
        strictly_sorted(old(state)@.selected),
        strictly_sorted(final(state)@.selected),
        final(state)@.selected.to_set() == selected@.to_set(),
        final(state)@.hovered == old(state)@.hovered,
        final(state)@.active == old(state)@.active,
        change.added@ == added_ids(old(state)@.selected, final(state)@.selected),
        change.removed@ == removed_ids(old(state)@.selected, final(state)@.selected),
{
    proof {
        use_type_invariant(&*state);
    }
    let sorted = sorted_unique(&selected);
    let previous = copy_ids(state.selected.as_slice());
    state.selected = sorted;
    selection_diff(previous.as_slice(), state.selected.as_slice())
}

/// Computes the identifiers added to and removed from a sorted selection.
pub fn selection_diff(previous: &[NodeId], current: &[NodeId]) -> (change: SelectionChange)
    requires
        strictly_sorted(previous@),
        strictly_sorted(current@),
    ensures
        change.added@ == added_ids(previous@, current@),
        change.removed@ == removed_ids(previous@, current@),
{
    SelectionChange { added: ids_absent_from(current, previous), removed: ids_absent_from(previous, current) }
}

/// The identifiers of `from` that do not occur in the sorted `other`, in order.
fn ids_absent_from(from: &[NodeId], other: &[NodeId]) -> (out: Vec<NodeId>)
    requires
        strictly_sorted(other@),
    ensures
        out@ == from@.filter(|x: NodeId| !other@.contains(x)),
{
    let ghost pred = |x: NodeId| !other@.contains(x);
    let mut out: Vec<NodeId> = Vec::new();
    let mut i: usize = 0;
    while i < from.len()
        invariant
            strictly_sorted(other@),
            pred == (|x: NodeId| !other@.contains(x)),
            i <= from@.len(),
            out@ == from@.take(i as int).filter(pred),
        decreases from@.len() - i,
    {
        let x = from[i];
        let found = search_ids(other, x);
        proof {
            let t = from@.take(i as int + 1);
            assert(t.drop_last() =~= from@.take(i as int));
            assert(t.last() == x);
            reveal_with_fuel(Seq::filter, 1);
            assert(t.filter(pred) == if pred(x) {
                from@.take(i as int).filter(pred).push(x)
            } else {
                from@.take(i as int).filter(pred)
            });
            assert((found is Ok) == other@.contains(x));
            assert(pred(x) == !other@.contains(x));
            assert(pred(x) == (found is Err));
        }
        if found.is_err() {
            out.push(x);
        }
        i = i + 1;
    }
    assert(from@.take(from@.len() as int) =~= from@);
    out
}

/// Copies a slice of identifiers into a new vector.
fn copy_ids(ids: &[NodeId]) -> (out: Vec<NodeId>)
    ensures
        out@ == ids@,
{
    let mut out: Vec<NodeId> = Vec::new();
    let mut i: usize = 0;
    while i < ids.len()
        invariant
            i <= ids@.len(),
            out@ == ids@.take(i as int),
        decreases ids@.len() - i,
    {
        out.push(ids[i]);
        i = i + 1;
        assert(out@ =~= ids@.take(i as int));
    }
    assert(ids@.take(ids@.len() as int) =~= ids@);
    out
}

/// Sorts identifiers ascending and removes duplicates.
fn sorted_unique(ids: &Vec<NodeId>) -> (out: Vec<NodeId>)
    ensures
        strictly_sorted(out@),
        out@.to_set() == ids@.to_set(),
{
    let mut out: Vec<NodeId> = Vec::new();
    let mut i: usize = 0;
    while i < ids.len()
        invariant
            i <= ids@.len(),
            strictly_sorted(out@),
            out@.to_set() == ids@.take(i as int).to_set(),
        decreases ids@.len() - i,
    {
        let x = ids[i];
        let ghost before = out@;
        match search_ids(out.as_slice(), x) {
            Ok(_) => {},
            Err(index) => {
                out.insert(index, x);
                proof { lemma_insert_sorted(before, index as int, x); }
            },
        }
        proof {
            assert(ids@.take(i as int + 1) =~= ids@.take(i as int).push(x));
            ids@.take(i as int).lemma_push_to_set_commute(x);
            assert(out@.to_set() =~= before.to_set().insert(x));
        }
        i = i + 1;
    }
    assert(ids@.take(ids@.len() as int) =~= ids@);
    out
}

/// Inserting `id` at its insertion point keeps a sequence strictly sorted and
/// adds exactly `id` to its set of members.
proof fn lemma_insert_sorted(s: Seq<NodeId>, index: int, id: NodeId)
    requires
        strictly_sorted(s),
        0 <= index <= s.len(),
        forall|j: int| 0 <= j < index ==> s[j].0 < id.0,
        forall|j: int| index <= j < s.len() ==> s[j].0 > id.0,
    ensures
        strictly_sorted(s.insert(index, id)),
        s.insert(index, id).to_set() == s.to_set().insert(id),
{
    s.insert_ensures(index, id);
    let t = s.insert(index, id);
    assert forall|i: int, j: int| 0 <= i < j < t.len() implies t[i].0 < t[j].0 by {
        if j < index {
        } else if j == index {
        } else if i < index {
            assert(t[j] == s[j - 1]);
        } else if i == index {
            assert(t[j] == s[j - 1]);
        } else {
            assert(t[i] == s[i - 1]);
            assert(t[j] == s[j - 1]);
        }
    }
    assert forall|y: NodeId| t.contains(y) <==> (s.contains(y) || y == id) by {
        if t.contains(y) {
            let k = choose|k: int| 0 <= k < t.len() && t[k] == y;
            if k < index {
                assert(s[k] == y);
            } else if k > index {
                assert(s[k - 1] == y);
            }
        }
        if s.contains(y) {
            let k = choose|k: int| 0 <= k < s.len() && s[k] == y;
            if k < index {
                assert(t[k] == y);
            } else {
                assert(t[k + 1] == y);
            }
        }
        if y == id {
            assert(t[index] == y);
        }
    }
    assert(t.to_set() =~= s.to_set().insert(id));
}

/// Removing the element at `index` keeps a sequence strictly sorted and removes
/// exactly that element from its set of members.
proof fn lemma_remove_sorted(s: Seq<NodeId>, index: int)
    requires
        strictly_sorted(s),
        0 <= index < s.len(),
    ensures
        strictly_sorted(s.remove(index)),
        s.remove(index).to_set() == s.to_set().remove(s[index]),
{
    s.remove_ensures(index);
    let t = s.remove(index);
    let id = s[index];
    assert forall|i: int, j: int| 0 <= i < j < t.len() implies t[i].0 < t[j].0 by {
        if j < index {
        } else if i < index {
            assert(t[j] == s[j + 1]);
        } else {
            assert(t[i] == s[i + 1]);
            assert(t[j] == s[j + 1]);
        }
    }
    assert forall|y: NodeId| t.contains(y) <==> (s.contains(y) && y != id) by {
        if t.contains(y) {
            let k = choose|k: int| 0 <= k < t.len() && t[k] == y;
            if k < index {
                assert(s[k] == y);
                assert(s[k].0 < s[index].0);
            } else {
                assert(s[k + 1] == y);
                assert(s[index].0 < s[k + 1].0);
            }
        }
        if s.contains(y) && y != id {
            let k = choose|k: int| 0 <= k < s.len() && s[k] == y;
            if k < index {
                assert(t[k] == y);
            } else {
                assert(k != index);
                assert(t[k - 1] == y);
            }
        }
    }
    assert(t.to_set() =~= s.to_set().remove(id));
}

/// Two strictly sorted identifier sequences with the same members are equal.
pub proof fn lemma_sorted_sets_equal(s: Seq<NodeId>, t: Seq<NodeId>)
    requires
        strictly_sorted(s),
        strictly_sorted(t),
        s.to_set() == t.to_set(),
    ensures
        s == t,
    decreases s.len() + t.len(),
{
    if s.len() == 0 {
        if t.len() > 0 {
            assert(t.to_set().contains(t[0]));
            assert(!s.to_set().contains(t[0]));
        }
        assert(s =~= t);
    } else if t.len() == 0 {
        assert(s.to_set().contains(s[0]));
        assert(!t.to_set().contains(s[0]));
    } else {
        let ls = s.last();
        let lt = t.last();
        assert(s.to_set().contains(ls));
        assert(t.to_set().contains(lt));
        let ks = choose|k: int| 0 <= k < s.len() && s[k] == lt;
        let kt = choose|k: int| 0 <= k < t.len() && t[k] == ls;
        assert(ls.0 == lt.0) by {
            if ks < s.len() - 1 {
                assert(s[ks].0 < ls.0);
            }
            if kt < t.len() - 1 {
                assert(t[kt].0 < lt.0);
            }
        }
        let s1 = s.drop_last();
        let t1 = t.drop_last();
        assert forall|y: NodeId| s1.contains(y) <==> t1.contains(y) by {
            if s1.contains(y) {
                let k = choose|k: int| 0 <= k < s1.len() && s1[k] == y;
                assert(s[k] == y);
                assert(y.0 < ls.0);
                assert(t.to_set().contains(y));
                let j = choose|j: int| 0 <= j < t.len() && t[j] == y;
                assert(j != t.len() - 1);
                assert(t1[j] == y);
            }
            if t1.contains(y) {
                let k = choose|k: int| 0 <= k < t1.len() && t1[k] == y;
                assert(t[k] == y);
                assert(y.0 < lt.0);
                assert(s.to_set().contains(y));
                let j = choose|j: int| 0 <= j < s.len() && s[j] == y;
                assert(j != s.len() - 1);
                assert(s1[j] == y);
            }
        }
        assert(s1.to_set() =~= t1.to_set());
        lemma_sorted_sets_equal(s1, t1);
        assert(s =~= s1.push(ls));
        assert(t =~= t1.push(lt));
    }
}

/// Toggling the same node twice gives back exactly the original selection.
pub proof fn lemma_toggle_twice_restores(
    s: Seq<NodeId>,
    t: Seq<NodeId>,
    u: Seq<NodeId>,
    id: NodeId,
)
    requires
        strictly_sorted(s),
        strictly_sorted(t),
        strictly_sorted(u),
        t.to_set() == selection_after(s, id, SelectionMode::Toggle),
        u.to_set() == selection_after(t, id, SelectionMode::Toggle),
    ensures
        u == s,
{
    assert(t.contains(id) <==> t.to_set().contains(id));
    assert(s.contains(id) <==> s.to_set().contains(id));
    assert(u.to_set() =~= s.to_set());
    lemma_sorted_sets_equal(u, s);
}

/// Adding a node that is already selected leaves the selection unchanged, and
/// removing a node that was just added takes exactly that node away again.
pub proof fn lemma_add_idempotent_remove_undoes(
    s: Seq<NodeId>,
    t: Seq<NodeId>,
    u: Seq<NodeId>,
    id: NodeId,
)
    requires
        strictly_sorted(s),
        strictly_sorted(t),
        strictly_sorted(u),
        !s.contains(id),
        t.to_set() == selection_after(s, id, SelectionMode::Add),
    ensures
        selection_after(t, id, SelectionMode::Add) == t.to_set(),
        u.to_set() == selection_after(t, id, SelectionMode::Remove) ==> u == s,
{
    assert(selection_after(t, id, SelectionMode::Add) =~= t.to_set());
    if u.to_set() == selection_after(t, id, SelectionMode::Remove) {
        assert(u.to_set() =~= s.to_set());
        lemma_sorted_sets_equal(u, s);
    }
}

/// The reported change is exact: nothing added was selected before, everything
/// removed was selected before, and the previous selection minus the removed
/// nodes plus the added nodes is the current selection.
pub proof fn lemma_selection_diff_exact(previous: Seq<NodeId>, current: Seq<NodeId>)
    requires
        strictly_sorted(previous),
        strictly_sorted(current),
    ensures
        forall|x: NodeId| #[trigger] added_ids(previous, current).contains(x) ==> !previous.contains(x),
        forall|x: NodeId| #[trigger] removed_ids(previous, current).contains(x) ==> previous.contains(x),
        previous.to_set().difference(removed_ids(previous, current).to_set()).union(
            added_ids(previous, current).to_set(),
        ) == current.to_set(),
{
    let added = added_ids(previous, current);
    let removed = removed_ids(previous, current);
    let pa = |x: NodeId| !previous.contains(x);
    let pr = |x: NodeId| !current.contains(x);
    assert forall|x: NodeId| added.contains(x) implies !previous.contains(x) && current.contains(x) by {
        let k = choose|k: int| 0 <= k < added.len() && added[k] == x;
        current.lemma_filter_pred(pa, k);
        current.lemma_filter_contains_rev(pa, x);
    }
    assert forall|x: NodeId| removed.contains(x) implies previous.contains(x) && !current.contains(x) by {
        let k = choose|k: int| 0 <= k < removed.len() && removed[k] == x;
        previous.lemma_filter_pred(pr, k);
        previous.lemma_filter_contains_rev(pr, x);
    }
    assert forall|x: NodeId| current.contains(x) && !previous.contains(x) implies added.contains(x) by {
        let k = choose|k: int| 0 <= k < current.len() && current[k] == x;
        current.lemma_filter_contains(pa, k);
    }
    assert forall|x: NodeId| previous.contains(x) && !current.contains(x) implies removed.contains(x) by {
        let k = choose|k: int| 0 <= k < previous.len() && previous[k] == x;
        previous.lemma_filter_contains(pr, k);
    }
    assert(previous.to_set().difference(removed.to_set()).union(added.to_set()) =~= current.to_set());
}

} // verus!
