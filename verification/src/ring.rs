//! The frame slot ring: double-buffered frame memory.
//!
//! The ring owns one frame slot per frame in flight.  Each loop iteration
//! writes exactly one slot, selected by the presentable-image index that the
//! acquisition call returned — not by a free-running counter — and never
//! touches any other slot.

use crate::error::RenderError;
use crate::geometry::Primitive;
use crate::writer::{fill_slot, scene_fits, scene_index_count, FrameSlot};
use vstd::prelude::*;

verus! {

/// Number of frame slots: two frames in flight.
pub const FRAME_SLOT_COUNT: usize = 2;

/// The ring of frame slots.  It exclusively owns the slots' regions; the
/// writer gets access to exactly one slot per call.
#[derive(Clone, Debug, PartialEq)]
pub struct FrameRing {
    pub slots: Vec<FrameSlot>,
}

impl FrameRing {
    /// Allocates the ring with every slot empty.
    pub fn new() -> (r: FrameRing)
        ensures
            r.slots@.len() == FRAME_SLOT_COUNT,
            forall|j: int|
                0 <= j < FRAME_SLOT_COUNT ==> {
                    &&& (#[trigger] r.slots@[j]).matrix.words@.len() == 0
                    &&& r.slots@[j].payload@.len() == 0
                    &&& r.slots@[j].indices@.len() == 0
                },
    {
        let mut slots: Vec<FrameSlot> = Vec::new();
        slots.push(FrameSlot::new());
        slots.push(FrameSlot::new());
        FrameRing { slots }
    }

    /// How many slots the ring holds.
    pub fn slot_count(&self) -> (n: usize)
        ensures
            n == self.slots@.len(),
    {
        self.slots.len()
    }

    /// Writes the slot selected by the acquired image index from the
    /// geometry table, and returns the index count for the draw call.
    /// Every other slot's regions are left untouched, byte for byte; on a
    /// capacity failure the whole ring is left as it was.
    pub fn write_slot(
        &mut self,
        image_index: usize,
        scene: &Vec<Primitive>,
        view_w: u32,
        view_h: u32,
    ) -> (r: Result<usize, RenderError>)
        requires
            image_index < old(self).slots@.len(),
            view_w > 0,
            view_h > 0,
        ensures
            final(self).slots@.len() == old(self).slots@.len(),
            forall|j: int|
                0 <= j < old(self).slots@.len() && j != image_index ==> final(self).slots@[j]
                    == old(self).slots@[j],
            match r {
                Ok(n) => {
                    &&& scene_fits(scene@)
                    &&& final(self).slots@[image_index as int].is_filled(scene@, view_w, view_h)
                    &&& n == scene_index_count(scene@)
                },
                Err(e) => {
                    &&& e == RenderError::FrameCapacityExceeded
                    &&& !scene_fits(scene@)
                    &&& final(self).slots@ == old(self).slots@
                },
            },
    {
        let mut slot = FrameSlot::new();
        match fill_slot(&mut slot, scene, view_w, view_h) {
            Ok(n) => {
                self.slots.set(image_index, slot);
                Ok(n)
            },
            Err(e) => Err(e),
        }
    }
}

} // verus!
