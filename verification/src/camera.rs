//! Model rotation for the camera/uniform staging step.
//!
//! The uniform matrix uploaded to the GPU each tick combines the camera's
//! view and projection with a rotation of the model around the Z axis. The
//! rotation advances by a fixed step of 2 degrees on every tick,
//! unconditionally, whether or not a new audio frame arrived. Because the
//! step is a whole number of degrees and trigonometric functions are
//! periodic, the angle is kept as an integer number of degrees reduced
//! modulo a full turn; the floating-point matrix is built from it outside
//! the library.

use vstd::prelude::*;

verus! {

/// Staging state for the per-tick uniform update: the current model
/// rotation, in whole degrees, always less than a full turn of 360.
#[derive(Clone, Copy, PartialEq, Eq, Structural, Debug)]
pub struct UniformStaging {
    /// Model rotation around the Z axis, in degrees, in `[0, 360)`.
    pub model_rotation_deg: u32,
}

impl UniformStaging {
    /// The rotation is a reduced angle: a whole number of degrees below 360.
    pub open spec fn wf(self) -> bool {
        self.model_rotation_deg < 360
    }

    /// Staging starts with the model unrotated.
    pub fn new() -> (s: Self)
        ensures
            s.model_rotation_deg == 0,
            s.wf(),
    {
        UniformStaging { model_rotation_deg: 0 }
    }

    /// Advance the model rotation by one tick's step of 2 degrees,
    /// wrapping at a full turn.
    pub fn update(&mut self)
        requires
            old(self).wf(),
        ensures
            final(self).model_rotation_deg == (old(self).model_rotation_deg + 2) % 360,
            final(self).wf(),
    {
        self.model_rotation_deg = (self.model_rotation_deg + 2) % 360;
    }
}

} // verus!
