//! Canvas data buffers.
//!
//! The canvas lives in two pairs of buffers: host-visible staging buffers
//! that the editing side writes, and device-local buffers that the vertex
//! shader reads. The device copies are updated only by an explicit
//! transfer — recorded once and submitted on the transfer queue whenever
//! the canvas changes — never written directly, so a frame always draws
//! from a consistent snapshot.

use vstd::prelude::*;

verus! {

/// The canvas settings block as the vertex shader sees it: the grid size
/// in tiles.
#[derive(Debug, Clone, Copy, PartialEq, Eq, Structural)]
pub struct CanvasSettings {
    pub width: u32,
    pub height: u32,
}

/// The host staging buffers and the device copies for the canvas settings
/// and the per-tile palette indices.
#[derive(Debug, Clone, PartialEq, Eq)]
pub struct CanvasBuffersManager {
    pub host_settings: CanvasSettings,
    pub device_settings: CanvasSettings,
    pub host_indices: Vec<u32>,
    pub device_indices: Vec<u32>,
}

impl CanvasBuffersManager {
    /// Both index buffers hold one entry per grid tile.
    pub open spec fn wf(&self) -> bool {
        &&& self.host_indices@.len() == self.host_settings.width * self.host_settings.height
        &&& self.device_indices@.len() == self.host_indices@.len()
    }

    /// The device copies agree with the host staging buffers, as they do
    /// right after a transfer completes.
    pub open spec fn device_in_sync(&self) -> bool {
        &&& self.device_settings == self.host_settings
        &&& self.device_indices@ == self.host_indices@
    }

    /// Allocates the buffers for a grid of the given size, with every tile
    /// at palette index zero.
    pub fn new(width: u32, height: u32) -> (m: CanvasBuffersManager)
        requires
            width * height <= usize::MAX,
        ensures
            m.wf(),
            m.host_settings == (CanvasSettings { width, height }),
            m.host_indices@ == Seq::<u32>::new((width * height) as nat, |i: int| 0u32),
            m.device_in_sync(),
    {
        let tile_count: usize = (width as usize) * (height as usize);
        let mut indices: Vec<u32> = Vec::new();
        let mut i: usize = 0;
        while i < tile_count
            invariant
                i <= tile_count,
                indices@.len() == i,
                forall|j: int| 0 <= j < i ==> indices@[j] == 0u32,
            decreases tile_count - i,
        {
            indices.push(0);
            i += 1;
        }
        let settings = CanvasSettings { width, height };
        let device_indices = indices.clone();
        proof {
            assert(indices@ =~= Seq::<u32>::new((width * height) as nat, |i: int| 0u32));
            assert(device_indices@ =~= indices@);
        }
        CanvasBuffersManager {
            host_settings: settings,
            device_settings: settings,
            host_indices: indices,
            device_indices,
        }
    }

    /// Writes one tile's palette index into the host staging buffer. The
    /// device copy is left alone: it changes only through a transfer.
    pub fn set_cell(&mut self, x: u32, y: u32, value: u32)
        requires
            old(self).wf(),
            x < old(self).host_settings.width,
            y < old(self).host_settings.height,
        ensures
            final(self).wf(),
            final(self).host_settings == old(self).host_settings,
            final(self).host_indices@ == old(self).host_indices@.update(
                y * old(self).host_settings.width + x,
                value,
            ),
            final(self).device_settings == old(self).device_settings,
            final(self).device_indices@ == old(self).device_indices@,
    {
        let w = self.host_settings.width;
        let h = self.host_settings.height;
        let len = self.host_indices.len();
        proof {
            assert(y * w + x < w * h) by (nonlinear_arith)
                requires
                    x < w,
                    y < h,
            ;
            assert(w * h == len);
        }
        let idx: usize = (y as usize) * (w as usize) + (x as usize);
        self.host_indices.set(idx, value);
    }

    /// The effect of the transfer command buffer completing on the
    /// transfer queue: both device copies now equal their host staging
    /// buffers.
    pub fn apply_transfer(&mut self)
        requires
            old(self).wf(),
        ensures
            final(self).wf(),
            final(self).device_in_sync(),
            final(self).host_settings == old(self).host_settings,
            final(self).host_indices@ == old(self).host_indices@,
    {
        self.device_settings = self.host_settings;
        self.device_indices = self.host_indices.clone();
        proof {
            assert(self.device_indices@ =~= self.host_indices@);
        }
    }
}

} // verus!
