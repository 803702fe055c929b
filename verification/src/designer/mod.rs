//! Lays rectangles out in normalized device coordinates and places them.
//!
//! Coordinates arrive here already resolved against the surface's extent, as
//! single-precision bit patterns.

use vstd::prelude::*;
use crate::graphics::instance::{is_upload_of, InstanceData, Shape, ShapeView};
use crate::graphics::{fill, fill_color, Vertex};
use crate::render::wgpu::{BufferSync, WgpuRenderer};
use crate::scalar::{is_nan, key_of, less_than, order_key, precedes, settled, ONE, ZERO};

verus! {

/// Lays shapes out and hands them to a renderer.
pub struct Designer;

/// The smaller of two values; the second where neither is below the other.
pub open spec fn lower(a: u32, b: u32) -> u32 {
    if precedes(a, b) {
        a
    } else {
        b
    }
}

/// The larger of two values; the second where neither is above the other.
pub open spec fn upper(a: u32, b: u32) -> u32 {
    if precedes(b, a) {
        a
    } else {
        b
    }
}

/// The triangle indices of every rectangle: two triangles over the corners
/// in the order top left, bottom right, bottom left, top right, both wound
/// counter-clockwise.
pub open spec fn rectangle_indices() -> Seq<u16> {
    seq![1u16, 3u16, 0u16, 0u16, 2u16, 1u16]
}

/// The rectangle between the given edges: its corners in the order top
/// left, bottom right, bottom left, top right, all in the fill colour.
pub open spec fn rectangle(left: u32, right: u32, top: u32, bottom: u32) -> ShapeView {
    ShapeView {
        vertices: seq![
            Vertex { position: [left, top], color: fill_color() },
            Vertex { position: [right, bottom], color: fill_color() },
            Vertex { position: [left, bottom], color: fill_color() },
            Vertex { position: [right, top], color: fill_color() },
        ],
        indices: rectangle_indices(),
    }
}

/// The rectangle that has `first` and `second` as opposite corners.
pub open spec fn corner_rectangle(first: [u32; 2], second: [u32; 2]) -> ShapeView {
    rectangle(
        lower(first[0], second[0]),
        upper(first[0], second[0]),
        upper(first[1], second[1]),
        lower(first[1], second[1]),
    )
}

/// The transform that leaves a shape where it was laid out: no offset, scale
/// one.
pub open spec fn in_place() -> InstanceData {
    InstanceData { position: [ZERO, ZERO], scale: [ONE, ONE] }
}

/// The transform that moves a shape by `anchor` at scale one.
pub open spec fn moved_to(anchor: [u32; 2]) -> InstanceData {
    InstanceData { position: anchor, scale: [ONE, ONE] }
}

/// The corner at `i` comes before the corner at `j` when the corners are
/// taken by rising angle: its angle is smaller, or the angles are equal and
/// it stands earlier in the list.
pub open spec fn comes_before(angles: Seq<u32>, i: int, j: int) -> bool {
    order_key(angles[i]) < order_key(angles[j]) || (order_key(angles[i]) == order_key(angles[j])
        && i < j)
}

/// How many of the first `upto` corners come before the corner at `i`.
pub open spec fn count_before(angles: Seq<u32>, i: int, upto: int) -> nat
    decreases upto,
{
    if upto <= 0 {
        0
    } else {
        count_before(angles, i, upto - 1) + if comes_before(angles, upto - 1, i) {
            1nat
        } else {
            0nat
        }
    }
}

/// The place of the corner at `i` when the corners are taken by rising
/// angle: the number of corners that come before it.
pub open spec fn rank(angles: Seq<u32>, i: int) -> nat {
    count_before(angles, i, angles.len() as int)
}

/// A position in a list as an index of a shape: its low 16 bits.
pub open spec fn index_of(position: int) -> u16 {
    (position % 0x1_0000) as u16
}

/// Of the first `upto` corners, fewer than `upto` come before the corner at
/// `i` once `upto` has passed it: no corner comes before itself.
pub proof fn lemma_count_is_bounded(angles: Seq<u32>, i: int, upto: int)
    requires
        0 <= i,
        0 <= upto,
    ensures
        count_before(angles, i, upto) <= upto,
        i < upto ==> count_before(angles, i, upto) < upto,
    decreases upto,
{
    if upto > 0 {
        lemma_count_is_bounded(angles, i, upto - 1);
    }
}

/// What comes before an earlier corner comes before every later one; and the
/// earlier corner itself comes before the later one.
pub proof fn lemma_count_rises(angles: Seq<u32>, i: int, j: int, upto: int)
    requires
        0 <= i,
        0 <= upto,
        comes_before(angles, i, j),
    ensures
        count_before(angles, i, upto) <= count_before(angles, j, upto),
        i < upto ==> count_before(angles, i, upto) < count_before(angles, j, upto),
    decreases upto,
{
    if upto > 0 {
        lemma_count_rises(angles, i, j, upto - 1);
    }
}

/// The ranks order the corners by rising angle, and corners of equal angle
/// by their place in the list: one corner has the lower rank exactly if it
/// comes before the other. No two corners share a rank, and every rank is
/// below the number of corners.
pub proof fn lemma_rank_follows_angle(angles: Seq<u32>, i: int, j: int)
    requires
        0 <= i < angles.len(),
        0 <= j < angles.len(),
    ensures
        rank(angles, i) < angles.len(),
        rank(angles, i) < rank(angles, j) <==> comes_before(angles, i, j),
        rank(angles, i) == rank(angles, j) <==> i == j,
{
    let n = angles.len() as int;
    lemma_count_is_bounded(angles, i, n);
    if comes_before(angles, i, j) {
        lemma_count_rises(angles, i, j, n);
    } else if comes_before(angles, j, i) {
        lemma_count_rises(angles, j, i, n);
    } else {
        assert(i == j);
    }
}

/// Builds the rectangle between the given edges.
pub fn rectangle_shape(left: u32, right: u32, top: u32, bottom: u32) -> (shape: Shape)
    ensures
        shape@ == rectangle(left, right, top, bottom),
{
    let color = fill();
    let top_left = Vertex::new([left, top], color);
    let top_right = Vertex::new([right, top], color);
    let bottom_left = Vertex::new([left, bottom], color);
    let bottom_right = Vertex::new([right, bottom], color);
    let mut vertices: Vec<Vertex> = Vec::new();
    vertices.push(top_left);
    vertices.push(bottom_right);
    vertices.push(bottom_left);
    vertices.push(top_right);
    let mut indices: Vec<u16> = Vec::new();
    indices.push(1);
    indices.push(3);
    indices.push(0);
    indices.push(0);
    indices.push(2);
    indices.push(1);
    proof {
        assert(vertices@ =~= rectangle(left, right, top, bottom).vertices);
        assert(indices@ =~= rectangle_indices());
    }
    Shape { vertices, indices }
}

impl Designer {
    /// A designer.
    pub fn new() -> (designer: Self) {
        Self
    }

    /// Registers the rectangle that has `first` and `second` as opposite
    /// corners and places one instance of it where it was laid out. Each
    /// corner is a horizontal and a vertical coordinate.
    pub fn create_rectangle(
        &self,
        renderer: &mut WgpuRenderer,
        first: [u32; 2],
        second: [u32; 2],
    ) -> (sync: BufferSync)
        ensures
            is_upload_of(
                final(renderer)@.instances.last().shape,
                corner_rectangle(first, second),
            ),
            final(renderer)@.instances.last().data == in_place(),
            WgpuRenderer::follows_add(
                old(renderer)@,
                final(renderer)@,
                sync,
                final(renderer)@.instances.last(),
            ),
            old(renderer).wf() ==> final(renderer).wf(),
    {
        let first_x = first[0];
        let first_y = first[1];
        let second_x = second[0];
        let second_y = second[1];
        let shape = rectangle_shape(
            Self::min(first_x, second_x),
            Self::max(first_x, second_x),
            Self::max(first_y, second_y),
            Self::min(first_y, second_y),
        );
        let shape = renderer.create_shape(shape);
        renderer.add_instance(shape, [ZERO, ZERO], [ONE, ONE])
    }

    /// Registers the rectangle between the given edges, which the caller has
    /// laid out around `point`, and places one instance of it with `point`
    /// as its offset.
    pub fn create_relative_rectangle(
        &self,
        renderer: &mut WgpuRenderer,
        point: [u32; 2],
        left: u32,
        right: u32,
        top: u32,
        bottom: u32,
    ) -> (sync: BufferSync)
        ensures
            is_upload_of(
                final(renderer)@.instances.last().shape,
                rectangle(left, right, top, bottom),
            ),
            final(renderer)@.instances.last().data == moved_to(point),
            WgpuRenderer::follows_add(
                old(renderer)@,
                final(renderer)@,
                sync,
                final(renderer)@.instances.last(),
            ),
            old(renderer).wf() ==> final(renderer).wf(),
    {
        let shape = rectangle_shape(left, right, top, bottom);
        let shape = renderer.create_shape(shape);
        renderer.add_instance(shape, point, [ONE, ONE])
    }

    /// Orders the corners of a polygon counter-clockwise. `angles` holds,
    /// for each corner, the angle of its direction from the centroid. The
    /// result lists the corners' positions by rising angle; corners of equal
    /// angle keep the order they have in the list. Angles that are NaN
    /// cannot be ordered against others.
    pub fn get_counter_clockwise_index_order(angles: &Vec<u32>) -> (order: Vec<u16>)
        requires
            angles@.len() > 1 ==> forall|i: int| 0 <= i < angles@.len() ==> !is_nan(angles@[i]),
        ensures
            order@.len() == angles@.len(),
            forall|i: int|
                0 <= i < angles@.len() ==> order@[rank(angles@, i) as int] == index_of(i),
    {
        let n = angles.len();
        let mut order: Vec<u16> = Vec::new();
        let mut filled: usize = 0;
        while filled < n
            invariant
                filled <= n,
                order@.len() == filled,
            decreases n - filled,
        {
            order.push(0);
            filled = filled + 1;
        }
        let mut i: usize = 0;
        while i < n
            invariant
                i <= n,
                n == angles@.len(),
                order@.len() == n,
                forall|k: int| 0 <= k < i ==> order@[rank(angles@, k) as int] == index_of(k),
            decreases n - i,
        {
            let key = key_of(angles[i]);
            let mut place: usize = 0;
            let mut j: usize = 0;
            while j < n
                invariant
                    j <= n,
                    i < n,
                    n == angles@.len(),
                    key == order_key(angles@[i as int]),
                    place == count_before(angles@, i as int, j as int),
                    place <= j,
                decreases n - j,
            {
                let other = key_of(angles[j]);
                if other < key || (other == key && j < i) {
                    place = place + 1;
                }
                j = j + 1;
            }
            proof {
                lemma_rank_follows_angle(angles@, i as int, i as int);
            }
            let ghost before = order@;
            let wide: u64 = i as u64;
            order.set(place, (wide % 0x1_0000) as u16);
            proof {
                assert forall|k: int| 0 <= k < i + 1 implies order@[rank(angles@, k) as int]
                    == index_of(k) by {
                    lemma_rank_follows_angle(angles@, k, i as int);
                    if k < i {
                        assert(before[rank(angles@, k) as int] == index_of(k));
                    }
                }
            }
            i = i + 1;
        }
        order
    }

    /// The larger of two values; `b` where neither is above the other.
    pub fn max(a: u32, b: u32) -> (larger: u32)
        ensures
            larger == upper(a, b),
    {
        if less_than(b, a) {
            a
        } else {
            b
        }
    }

    /// The smaller of two values; `b` where neither is below the other.
    pub fn min(a: u32, b: u32) -> (smaller: u32)
        ensures
            smaller == lower(a, b),
    {
        if less_than(a, b) {
            a
        } else {
            b
        }
    }
}

/// Which of two opposite corners is given first does not matter, as long as
/// the two horizontal coordinates are settled, and the two vertical ones.
pub proof fn lemma_corner_order_is_immaterial(first: [u32; 2], second: [u32; 2])
    requires
        settled(first[0], second[0]),
        settled(first[1], second[1]),
    ensures
        corner_rectangle(first, second) == corner_rectangle(second, first),
{
}

} // verus!
