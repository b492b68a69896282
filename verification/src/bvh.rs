//! Shape of the bounding-volume hierarchy.
//!
//! The hierarchy is built once, recursively, over a contiguous range of
//! primitive indices: a range of one primitive becomes a leaf, a longer
//! range picks a random coordinate axis, is split at its midpoint, and the
//! two halves are built the same way. Ordering the primitives along the
//! chosen axis and taking the union of child boxes involve the primitives'
//! floating-point bounds and happen outside this crate; the tree built here
//! fixes which primitive ends up under which node, and is proved to keep
//! every primitive of the range exactly once, in range order.

use rand::Rng;
use vstd::prelude::*;

verus! {

/// A node of the hierarchy over primitive indices: either one primitive, or
/// an internal node that splits its range in two after ordering it along
/// `axis`.
pub enum BvhShape {
    /// A single primitive of the scene collection.
    Leaf { index: usize },
    /// An internal node: its range was ordered along coordinate axis `axis`
    /// (0, 1 or 2) and split at the midpoint into `left` and `right`.
    Node { axis: usize, left: Box<BvhShape>, right: Box<BvhShape> },
}

impl BvhShape {
    /// The primitive indices at the leaves, left to right.
    pub open spec fn leaf_indices(self) -> Seq<int>
        decreases self,
    {
        match self {
            BvhShape::Leaf { index } => seq![index as int],
            BvhShape::Node { left, right, .. } => left.leaf_indices() + right.leaf_indices(),
        }
    }

    /// Every internal node carries one of the three coordinate axes.
    pub open spec fn well_formed(self) -> bool
        decreases self,
    {
        match self {
            BvhShape::Leaf { .. } => true,
            BvhShape::Node { axis, left, right } => axis < 3 && left.well_formed()
                && right.well_formed(),
        }
    }
}

/// Relies on rand: `thread_rng().gen_range(0..3)` returns a value of the
/// range it is given, here one of the three coordinate axes; which one is
/// left to chance, so nothing more is assumed of the result.
#[verifier::external_body]
fn random_axis() -> (axis: usize)
    ensures
        axis < 3,
{
    rand::thread_rng().gen_range(0..3)
}

/// Builds the shape of the hierarchy over the primitive range `lo..hi`:
/// the leaves are exactly the indices of the range, in order, one leaf per
/// primitive, and every split axis is one of the three coordinate axes.
pub fn build_shape(lo: usize, hi: usize) -> (shape: BvhShape)
    requires
        lo < hi,
    ensures
        shape.leaf_indices() == Seq::new((hi - lo) as nat, |k: int| lo + k),
        shape.well_formed(),
    decreases hi - lo,
{
    if hi - lo == 1 {
        let shape = BvhShape::Leaf { index: lo };
        proof {
            assert(shape.leaf_indices() =~= Seq::new((hi - lo) as nat, |k: int| lo + k));
        }
        shape
    } else {
        let axis = random_axis();
        let mid = lo + (hi - lo) / 2;
        let left = build_shape(lo, mid);
        let right = build_shape(mid, hi);
        let shape = BvhShape::Node { axis, left: Box::new(left), right: Box::new(right) };
        proof {
            assert(shape.leaf_indices() =~= Seq::new((hi - lo) as nat, |k: int| lo + k));
        }
        shape
    }
}

/// The leaf indices of `shape`, left to right, as executable values; what a
/// scene walks to place its primitives under the hierarchy's leaves.
pub fn leaf_index_list(shape: &BvhShape) -> (leaves: Vec<usize>)
    ensures
        leaves@.map_values(|u: usize| u as int) == shape.leaf_indices(),
    decreases *shape,
{
    match shape {
        BvhShape::Leaf { index } => {
            let mut leaves = Vec::new();
            leaves.push(*index);
            proof {
                assert(leaves@.map_values(|u: usize| u as int) =~= shape.leaf_indices());
            }
            leaves
        },
        BvhShape::Node { left, right, .. } => {
            let mut leaves = leaf_index_list(left);
            let mut rest = leaf_index_list(right);
            leaves.append(&mut rest);
            proof {
                assert(leaves@.map_values(|u: usize| u as int) =~= shape.leaf_indices());
            }
            leaves
        },
    }
}

} // verus!
