//! Per-tick mapping from a decoded audio frame to vertex color drivers.
//!
//! Each tick, every vertex's color is recomputed from its own generated
//! position and the single current audio frame:
//!
//! * red   = position.x * data[2]  (mod 256)
//! * green = position.y * data[1]  (mod 256)
//! * blue  = position.z / data[0]  (mod 256)
//!
//! The samples are signed 16-bit PCM values; the products, quotients and
//! remainders above are 32-bit floating point and are evaluated outside the
//! library. What the library fixes is everything discrete about the mapping:
//! which sample drives which channel, and the division-by-zero policy — when
//! `data[0]` is zero the blue channel is not computed at all but substituted
//! with zero, locally, without any error escaping the tick.

use vstd::prelude::*;

verus! {

/// One decoded unit of PCM audio, as the color mapping consumes it: at
/// least three signed 16-bit sample slots. Only `data[0]`, `data[1]` and
/// `data[2]` drive colors; the rest of the frame rides along untouched.
pub struct AudioFrame {
    /// The frame's decoded samples.
    pub data: Vec<i16>,
}

impl AudioFrame {
    /// A frame can drive the color mapping when it carries the three
    /// samples the formula reads.
    pub open spec fn wf(self) -> bool {
        self.data@.len() >= 3
    }

    /// Build a frame from decoded samples.
    pub fn new(data: Vec<i16>) -> (f: Self)
        ensures
            f.data == data,
    {
        AudioFrame { data }
    }

    /// Whether the frame carries enough samples to drive the mapping.
    pub fn drives_colors(&self) -> (r: bool)
        ensures
            r == self.wf(),
    {
        self.data.len() >= 3
    }
}

/// The discrete part of one tick's color mapping: the three samples of the
/// current frame in their channel roles, the same for every vertex of the
/// tick.
#[derive(Clone, Copy, PartialEq, Eq, Structural, Debug)]
pub struct ColorDrivers {
    /// Multiplies the vertex's x coordinate for the red channel.
    pub red_scale: i16,
    /// Multiplies the vertex's y coordinate for the green channel.
    pub green_scale: i16,
    /// Divides the vertex's z coordinate for the blue channel.
    pub blue_divisor: i16,
}

impl ColorDrivers {
    /// Whether the blue channel can be computed at all. When this is false
    /// the blue division is skipped and every vertex's blue channel is
    /// substituted with zero; no error escapes the tick.
    pub open spec fn spec_blue_defined(self) -> bool {
        self.blue_divisor != 0
    }

    /// Run-time test matching `spec_blue_defined`.
    pub fn blue_defined(&self) -> (r: bool)
        ensures
            r == self.spec_blue_defined(),
    {
        self.blue_divisor != 0
    }
}

/// Extract one tick's color drivers from the current frame: sample 2 scales
/// red, sample 1 scales green, sample 0 divides blue. Deterministic in the
/// frame: recomputing the colors from the same frame rewrites every vertex
/// with the same values.
pub fn color_drivers(frame: &AudioFrame) -> (d: ColorDrivers)
    requires
        frame.wf(),
    ensures
        d == (ColorDrivers {
            red_scale: frame.data@[2],
            green_scale: frame.data@[1],
            blue_divisor: frame.data@[0],
        }),
        d.spec_blue_defined() <==> frame.data@[0] != 0,
{
    ColorDrivers {
        red_scale: frame.data[2],
        green_scale: frame.data[1],
        blue_divisor: frame.data[0],
    }
}

} // verus!
