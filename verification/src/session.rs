//! Per-frame render-session state.
//!
//! The driving loop owns one value of this: the rotation and ambient-light
//! toggles, the ambient sample budget, and the frame counter that seeds the
//! per-pixel random generators.  The loop reads input and performs the
//! drawing; the decisions — what the toggles become, how many ambient
//! samples the next frame gets, how the frame counter advances — are made
//! here.

use vstd::prelude::*;

verus! {

/// The mutable state a render session threads through its frames.
pub struct RenderSession {
    /// Whether the world keeps rotating on its own.
    pub autorotate: bool,
    /// Whether ambient lighting from the environment map is on.
    pub env_on: bool,
    /// How many ambient samples a frame draws while `env_on` holds.
    pub env_samples: u32,
    /// The frame about to be rendered, counted from 1.
    pub frame_id: u64,
}

impl RenderSession {
    /// A fresh session: rotating, ambient lighting on, about to render
    /// frame 1.
    pub fn new(env_samples: u32) -> (r: RenderSession)
        ensures
            r.autorotate,
            r.env_on,
            r.env_samples == env_samples,
            r.frame_id == 1,
    {
        RenderSession { autorotate: true, env_on: true, env_samples, frame_id: 1 }
    }

    /// Flip the autorotation toggle, leaving the rest of the state as it
    /// was.
    pub fn toggle_rotate(&mut self)
        ensures
            final(self).autorotate == !old(self).autorotate,
            final(self).env_on == old(self).env_on,
            final(self).env_samples == old(self).env_samples,
            final(self).frame_id == old(self).frame_id,
    {
        self.autorotate = !self.autorotate;
    }

    /// Flip the ambient-lighting toggle, leaving the rest of the state as
    /// it was.
    pub fn toggle_env(&mut self)
        ensures
            final(self).env_on == !old(self).env_on,
            final(self).autorotate == old(self).autorotate,
            final(self).env_samples == old(self).env_samples,
            final(self).frame_id == old(self).frame_id,
    {
        self.env_on = !self.env_on;
    }

    /// The ambient sample count the next frame renders with: the session's
    /// budget while ambient lighting is on, none while it is off.
    pub fn samples_for_frame(&self) -> (r: u32)
        ensures
            r == if self.env_on {
                self.env_samples
            } else {
                0u32
            },
    {
        if self.env_on { self.env_samples } else { 0 }
    }

    /// Count the rendered frame, wrapping around at the top of the 64-bit
    /// range.
    pub fn advance_frame(&mut self)
        ensures
            final(self).frame_id == if old(self).frame_id == u64::MAX {
                0u64
            } else {
                (old(self).frame_id + 1) as u64
            },
            final(self).autorotate == old(self).autorotate,
            final(self).env_on == old(self).env_on,
            final(self).env_samples == old(self).env_samples,
    {
        self.frame_id = self.frame_id.wrapping_add(1);
    }
}

} // verus!
