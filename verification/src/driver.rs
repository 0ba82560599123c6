//! The overlay driver: once per frame it takes whatever snapshots the input
//! side could supply — an untracked hand simply has none — and produces the
//! primitives to submit, right hand first, in layout order. A hand without a
//! snapshot contributes nothing: no partial draw.

use vstd::prelude::*;
use crate::controls::{Hand, ControllerSnapshot, snapshot_wf};
use crate::layout::{Primitive, PrimitiveSpec, prims_view, layout, layout_spec};

verus! {

/// The controller debug overlay; `draw_gizmos` is its per-frame entry point.
#[derive(Clone, Copy, PartialEq, Eq, Structural, Debug)]
pub struct OpenXrDebugRenderer;

impl Default for OpenXrDebugRenderer {
    fn default() -> (r: Self)
        ensures
            r == OpenXrDebugRenderer,
    {
        OpenXrDebugRenderer
    }
}

/// Everything one frame draws: the right hand's layout, then the left
/// hand's; an absent snapshot contributes nothing.
pub open spec fn frame_spec(
    right: Option<ControllerSnapshot>,
    left: Option<ControllerSnapshot>,
) -> Seq<PrimitiveSpec> {
    (match right {
        Option::Some(s) => layout_spec(Hand::Right, s@),
        Option::None => Seq::<PrimitiveSpec>::empty(),
    }) + (match left {
        Option::Some(s) => layout_spec(Hand::Left, s@),
        Option::None => Seq::<PrimitiveSpec>::empty(),
    })
}

/// Run one frame: lay out each tracked hand and return the primitives in
/// submission order, right hand first. A hand whose snapshot is absent is
/// skipped whole — it contributes no primitive.
pub fn draw_gizmos(
    right: Option<ControllerSnapshot>,
    left: Option<ControllerSnapshot>,
) -> (r: Vec<Primitive>)
    requires
        right matches Some(s) ==> snapshot_wf(s@),
        left matches Some(s) ==> snapshot_wf(s@),
    ensures
        prims_view(r@) == frame_spec(right, left),
        r@.len() == (if right is Some { 7int } else { 0int }) + (if left is Some {
            7int
        } else {
            0int
        }),
{
    let mut out: Vec<Primitive> = Vec::new();
    if let Some(s) = right {
        let mut p = layout(Hand::Right, &s);
        out.append(&mut p);
    }
    if let Some(s) = left {
        let mut p = layout(Hand::Left, &s);
        out.append(&mut p);
    }
    proof {
        assert(prims_view(out@) =~= frame_spec(right, left));
    }
    out
}

} // verus!
