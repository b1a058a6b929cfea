//! The apply step: what committing a resolved background writes.
//!
//! Making a pixmap the visible, advertised background takes four writes: the
//! two background-pixmap-identifier properties (the de-facto-standard one and
//! the legacy one), each a single 32-bit little-endian value; the window's
//! background-pixmap attribute; and an immediate redraw of the surface's full
//! rectangle, followed by a flush.  The plan of those writes is computed here
//! as one value before anything is sent, so the writes cannot disagree about
//! which pixmap they advertise; performing them is the caller's business.

use vstd::prelude::*;

use crate::props::{le32_bytes, le32_of, le32_value, lemma_le32_round_trip};

verus! {

/// Everything a successful apply writes, computed up front.
pub struct ApplyPlan {
    /// Payload of the de-facto-standard background-pixmap-identifier property.
    pub xrootpmap_value: Vec<u8>,
    /// Payload of the legacy background-pixmap-identifier property.
    pub esetroot_value: Vec<u8>,
    /// The pixmap the window's background-pixmap attribute is set to.
    pub background_pixmap: u32,
    /// Width of the redraw rectangle, anchored at the origin.
    pub clear_width: u16,
    /// Height of the redraw rectangle, anchored at the origin.
    pub clear_height: u16,
}

/// The mathematical value of a plan.
pub struct ApplyPlanV {
    pub xrootpmap_value: Seq<u8>,
    pub esetroot_value: Seq<u8>,
    pub background_pixmap: u32,
    pub clear_width: u16,
    pub clear_height: u16,
}

impl View for ApplyPlan {
    type V = ApplyPlanV;

    open spec fn view(&self) -> ApplyPlanV {
        ApplyPlanV {
            xrootpmap_value: self.xrootpmap_value@,
            esetroot_value: self.esetroot_value@,
            background_pixmap: self.background_pixmap,
            clear_width: self.clear_width,
            clear_height: self.clear_height,
        }
    }
}

/// The plan that commits `pixmap` on a surface of geometry `width`x`height`.
pub open spec fn apply_plan_spec(pixmap: u32, width: u16, height: u16) -> ApplyPlanV {
    ApplyPlanV {
        xrootpmap_value: le32_bytes(pixmap),
        esetroot_value: le32_bytes(pixmap),
        background_pixmap: pixmap,
        clear_width: width,
        clear_height: height,
    }
}

/// Build the apply plan for a resolved pixmap and the surface geometry the
/// resolution ran with.
pub fn apply_plan(pixmap: u32, width: u16, height: u16) -> (r: ApplyPlan)
    ensures
        r@ == apply_plan_spec(pixmap, width, height),
{
    ApplyPlan {
        xrootpmap_value: le32_of(pixmap),
        esetroot_value: le32_of(pixmap),
        background_pixmap: pixmap,
        clear_width: width,
        clear_height: height,
    }
}

/// One pixmap, whole plan.  Both identifier properties carry the same
/// payload, that payload decodes back to exactly the pixmap the attribute
/// names, and the redraw rectangle is precisely the geometry the resolution
/// ran with.  The plan is one value, built before anything is written: a
/// write sequence that stops at its first failure has been handed nothing
/// that names any pixmap but the new one, so no partial write can leave the
/// advertised state pointing two ways.
pub proof fn lemma_apply_plan_consistent(pixmap: u32, width: u16, height: u16)
    ensures
        apply_plan_spec(pixmap, width, height).xrootpmap_value == apply_plan_spec(
            pixmap,
            width,
            height,
        ).esetroot_value,
        le32_value(apply_plan_spec(pixmap, width, height).xrootpmap_value) == pixmap,
        apply_plan_spec(pixmap, width, height).background_pixmap == pixmap,
        apply_plan_spec(pixmap, width, height).clear_width == width,
        apply_plan_spec(pixmap, width, height).clear_height == height,
{
    lemma_le32_round_trip(pixmap);
}

} // verus!
