//! Editor picking requests, editor buffer counters and uniform alignment.

use vstd::prelude::*;

use crate::ids::NodeId;

verus! {

/// One on-demand editor-picking request.
#[derive(Clone, Copy, Debug, PartialEq, Eq, Structural)]
pub struct EditorPickRequest {
    /// Physical target pixel X coordinate.
    pub x: u32,
    /// Physical target pixel Y coordinate.
    pub y: u32,
    /// Scene layer mask.
    pub layers: u32,
    /// Whether scene editor selection policy must be honored.
    pub selectable_only: bool,
}

impl EditorPickRequest {
    /// Creates a pick request testing all selectable layers.
    pub fn new(x: u32, y: u32) -> (request: Self)
        ensures
            request.x == x,
            request.y == y,
            request.layers == u32::MAX,
            request.selectable_only,
    {
        EditorPickRequest { x, y, layers: u32::MAX, selectable_only: true }
    }
}

/// Allocation and usage counters for optional editor buffers.
#[derive(Clone, Copy, Debug, Default, PartialEq, Eq, Structural)]
pub struct EditorBufferStats {
    /// Whether GPU editor buffers are allocated.
    pub allocated: bool,
    /// Current width.
    pub width: u32,
    /// Current height.
    pub height: u32,
    /// Approximate texture/readback/uniform bytes.
    pub memory_bytes: u64,
    /// Number of submitted editor-picking passes.
    pub pick_requests: u64,
}

/// `size` rounded up to the next multiple of 256 (the uniform offset
/// alignment).
pub open spec fn round_up_256(size: int) -> int {
    ((size + 255) / 256) * 256
}

/// Size of `T` rounded up to the 256-byte dynamic uniform offset alignment.
pub fn aligned_uniform_size<T>() -> (size: u64)
    requires
        vstd::layout::size_of::<T>() + 255 <= u64::MAX,
    ensures
        size == round_up_256(vstd::layout::size_of::<T>() as int),
        size % 256 == 0,
        vstd::layout::size_of::<T>() <= size < vstd::layout::size_of::<T>() + 256,
{
    let raw = core::mem::size_of::<T>() as u64;
    let padded = raw + 255;
    let size = padded & !255u64;
    assert(padded & !255u64 == padded - padded % 256) by (bit_vector);
    assert(size == round_up_256(raw as int)) by (nonlinear_arith)
        requires
            size == padded - padded % 256,
            padded == raw + 255,
    ;
    size
}

/// Validation failures reported by scene and editor operations.
#[derive(Clone, Copy, Debug, PartialEq, Eq, Structural)]
pub enum ValidationError {
    /// An identifier does not name a live resource.
    InvalidId,
    /// A value is outside its permitted range.
    OutOfRange,
    /// The object is not in a state that permits the operation.
    InvalidState,
}

/// The pick-id table for one editor pass: slot `0` is the cleared background
/// (the null node) and slot `i + 1` is the `i`-th drawn node.
pub open spec fn pick_table(drawn: Seq<NodeId>) -> Seq<NodeId> {
    seq![NodeId(0)] + drawn
}

/// Builds the pick-id table for the drawn nodes; refuses more draws than
/// 32-bit object ids can number.
pub fn build_pick_id_map(drawn: &[NodeId]) -> (map: Result<Vec<NodeId>, ValidationError>)
    ensures
        drawn@.len() > u32::MAX - 1 ==> map == Err::<Vec<NodeId>, ValidationError>(
            ValidationError::OutOfRange,
        ),
        drawn@.len() <= u32::MAX - 1 ==> map is Ok && map->Ok_0@ == pick_table(drawn@),
{
    if drawn.len() > (u32::MAX as usize) - 1 {
        return Err(ValidationError::OutOfRange);
    }
    let mut map: Vec<NodeId> = Vec::new();
    map.push(NodeId(0));
    let mut i: usize = 0;
    while i < drawn.len()
        invariant
            i <= drawn@.len(),
            map@ == pick_table(drawn@.take(i as int)),
        decreases drawn@.len() - i,
    {
        map.push(drawn[i]);
        i = i + 1;
        assert(map@ =~= pick_table(drawn@.take(i as int)));
    }
    assert(drawn@.take(drawn@.len() as int) =~= drawn@);
    Ok(map)
}

/// The object id of a draw, split into four little-endian bytes (one per
/// colour channel of the id target).
pub fn pick_id_bytes(id: u32) -> (bytes: [u32; 4])
    ensures
        bytes@ == seq![id & 0xff, (id >> 8u32) & 0xff, (id >> 16u32) & 0xff, (id >> 24u32) & 0xff],
{
    [id & 0xff, (id >> 8) & 0xff, (id >> 16) & 0xff, (id >> 24) & 0xff]
}

/// The object id read back from four little-endian bytes.
pub open spec fn id_from_le(b0: u8, b1: u8, b2: u8, b3: u8) -> u32 {
    (b0 as u32) | ((b1 as u32) << 8u32) | ((b2 as u32) << 16u32) | ((b3 as u32) << 24u32)
}

/// Decodes the object id from the four bytes read back from the id target.
pub fn pick_id_from_le_bytes(bytes: [u8; 4]) -> (id: u32)
    ensures
        id == id_from_le(bytes@[0], bytes@[1], bytes@[2], bytes@[3]),
{
    (bytes[0] as u32) | ((bytes[1] as u32) << 8) | ((bytes[2] as u32) << 16) | ((bytes[3] as u32)
        << 24)
}

/// What the editor pass reads of one scene node, visited depth first.
#[derive(Clone, Copy, Debug, PartialEq, Eq, Structural)]
pub struct PickCandidate {
    /// The node.
    pub node_id: NodeId,
    /// Whether the node is visible.
    pub visible: bool,
    /// The node's layer bits.
    pub layer: u32,
    /// Whether the scene's editor policy lets the node be selected.
    pub selectable: bool,
    /// Whether the node is a mesh node whose mesh has been uploaded.
    pub has_uploaded_mesh: bool,
}

/// Whether the editor pass draws `c` for a request on `layers`: a visible
/// node on one of the layers, selectable when only selectable nodes are
/// asked for, with an uploaded mesh.
pub open spec fn is_drawn(c: PickCandidate, layers: u32, selectable_only: bool) -> bool {
    &&& c.visible
    &&& c.layer & layers != 0
    &&& (!selectable_only || c.selectable)
    &&& c.has_uploaded_mesh
}

/// The nodes the editor pass draws, in visiting order.
pub open spec fn drawn_nodes_of(candidates: Seq<PickCandidate>, layers: u32, selectable_only: bool) -> Seq<
    NodeId,
>
    decreases candidates.len(),
{
    if candidates.len() == 0 {
        Seq::empty()
    } else {
        let before = drawn_nodes_of(candidates.drop_last(), layers, selectable_only);
        if is_drawn(candidates.last(), layers, selectable_only) {
            before.push(candidates.last().node_id)
        } else {
            before
        }
    }
}

/// Selects the nodes an editor pass draws, in visiting order.
pub fn drawn_nodes(candidates: &[PickCandidate], layers: u32, selectable_only: bool) -> (drawn: Vec<
    NodeId,
>)
    ensures
        drawn@ == drawn_nodes_of(candidates@, layers, selectable_only),
{
    let mut drawn: Vec<NodeId> = Vec::new();
    let mut i: usize = 0;
    while i < candidates.len()
        invariant
            i <= candidates@.len(),
            drawn@ == drawn_nodes_of(candidates@.take(i as int), layers, selectable_only),
        decreases candidates@.len() - i,
    {
        let c = candidates[i];
        proof {
            assert(candidates@.take(i as int + 1).drop_last() =~= candidates@.take(i as int));
            assert(candidates@.take(i as int + 1).last() == c);
        }
        if c.visible && c.layer & layers != 0 && (!selectable_only || c.selectable)
            && c.has_uploaded_mesh {
            drawn.push(c.node_id);
        }
        i = i + 1;
    }
    assert(candidates@.take(candidates@.len() as int) =~= candidates@);
    drawn
}

/// Every node the editor pass draws is a visited node that passes the filter:
/// hidden nodes, nodes off the requested layers, non-selectable nodes under a
/// selectable-only request and nodes without an uploaded mesh never get an id.
pub proof fn lemma_drawn_nodes_pass_filter(
    candidates: Seq<PickCandidate>,
    layers: u32,
    selectable_only: bool,
    k: int,
)
    requires
        0 <= k < drawn_nodes_of(candidates, layers, selectable_only).len(),
    ensures
        exists|i: int|
            0 <= i < candidates.len() && #[trigger] candidates[i].node_id == drawn_nodes_of(
                candidates,
                layers,
                selectable_only,
            )[k] && is_drawn(candidates[i], layers, selectable_only),
    decreases candidates.len(),
{
    let before = drawn_nodes_of(candidates.drop_last(), layers, selectable_only);
    if k < before.len() {
        lemma_drawn_nodes_pass_filter(candidates.drop_last(), layers, selectable_only, k);
        let i = choose|i: int|
            0 <= i < candidates.drop_last().len() && #[trigger] candidates.drop_last()[i].node_id
                == before[k] && is_drawn(candidates.drop_last()[i], layers, selectable_only);
        assert(candidates[i] == candidates.drop_last()[i]);
    } else {
        assert(candidates[candidates.len() - 1] == candidates.last());
    }
}

/// Checks that a pick targets a pixel inside a `width` by `height` target.
pub fn check_pick_pixel(x: u32, y: u32, width: u32, height: u32) -> (checked: Result<
    (),
    ValidationError,
>)
    ensures
        checked == if x >= width || y >= height {
            Err::<(), ValidationError>(ValidationError::OutOfRange)
        } else {
            Ok::<(), ValidationError>(())
        },
{
    if x >= width || y >= height {
        Err(ValidationError::OutOfRange)
    } else {
        Ok(())
    }
}

/// Reading back the bytes written for an id gives the id again.
pub proof fn lemma_pick_id_round_trip(id: u32)
    ensures
        id_from_le(
            (id & 0xff) as u8,
            ((id >> 8u32) & 0xff) as u8,
            ((id >> 16u32) & 0xff) as u8,
            ((id >> 24u32) & 0xff) as u8,
        ) == id,
{
    assert(((id & 0xff) as u8 as u32) | ((((id >> 8u32) & 0xff) as u8 as u32) << 8u32) | ((((id
        >> 16u32) & 0xff) as u8 as u32) << 16u32) | ((((id >> 24u32) & 0xff) as u8 as u32) << 24u32)
        == id) by (bit_vector);
}

/// The node picked at a pixel whose id target holds `id`: the table entry,
/// unless the id is out of the table or names the null (background) node.
pub fn picked_node(map: &[NodeId], id: u32) -> (node: Option<NodeId>)
    ensures
        node == if (id as int) < map@.len() && map@[id as int].0 != 0 {
            Some(map@[id as int])
        } else {
            None::<NodeId>
        },
{
    let index = id as usize;
    if index < map.len() && !map[index].is_null() {
        Some(map[index])
    } else {
        None
    }
}

/// A node drawn in an editor pass is picked back from its own object id, and
/// the cleared background picks nothing.
pub proof fn lemma_drawn_node_is_picked(drawn: Seq<NodeId>, i: int)
    requires
        0 <= i < drawn.len(),
        drawn[i].0 != 0,
    ensures
        pick_table(drawn)[i + 1] == drawn[i],
        pick_table(drawn)[0].0 == 0,
{
}

/// Whether `n` is a power of two.
pub open spec fn is_power_of_two(n: nat) -> bool
    decreases n,
{
    if n == 1 {
        true
    } else if n == 0 || n % 2 == 1 {
        false
    } else {
        is_power_of_two(n / 2)
    }
}

/// Capacity of the object uniform buffer after making room for `needed`
/// objects: unchanged when it suffices, else the smallest power of two that
/// holds `needed`.
pub fn object_capacity_for(capacity: usize, needed: usize) -> (grown: usize)
    requires
        needed <= usize::MAX / 2 + 1,
    ensures
        needed <= capacity ==> grown == capacity,
        needed > capacity ==> {
            &&& is_power_of_two(grown as nat)
            &&& grown >= needed
            &&& (grown == 1 || grown / 2 < needed)
        },
{
    if needed <= capacity {
        return capacity;
    }
    let mut p: usize = 1;
    while p < needed
        invariant
            is_power_of_two(p as nat),
            p == 1 || p / 2 < needed,
            needed <= usize::MAX / 2 + 1,
        decreases usize::MAX - p,
    {
        proof {
            assert((2 * p) as nat / 2 == p as nat);
            assert((2 * p) as nat % 2 == 0);
            assert(is_power_of_two((2 * p) as nat));
        }
        p = p * 2;
    }
    p
}

/// Approximate bytes owned by editor buffers of the given size: sixteen bytes
/// per pixel across the four targets, the three-row readback buffer, and the
/// object uniform buffer.
pub fn editor_memory_bytes(width: u32, height: u32, object_stride: u64, object_capacity: usize) -> (bytes:
    u64)
    requires
        width as int * height as int * 16 + 768 + object_stride as int * object_capacity as int
            <= u64::MAX,
    ensures
        bytes == width as int * height as int * 16 + 768 + object_stride as int
            * object_capacity as int,
{
    let pixels = width as u64 * height as u64;
    assert(pixels * 16 <= u64::MAX) by (nonlinear_arith)
        requires
            pixels == width as int * height as int,
            width as int * height as int * 16 + 768 + object_stride as int * object_capacity as int
                <= u64::MAX,
            object_stride as int * object_capacity as int >= 0,
    ;
    assert(object_stride as int * object_capacity as int >= 0) by (nonlinear_arith);
    pixels * 16 + 768 + object_stride * object_capacity as u64
}

} // verus!
