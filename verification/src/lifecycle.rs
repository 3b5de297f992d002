//! Surface and swap-configuration lifecycle.
//!
//! One context owns the GPU connection: the device, the presentable surface,
//! the render pipeline and the negotiated swap configuration. The handles
//! themselves live outside the library; this module keeps their book-keeping
//! model — the configuration's dimensions, the identity of the pipeline, and
//! a generation counter that advances exactly when the swap configuration is
//! rebuilt — and fixes the rules: a resize rebuilds only the swap
//! configuration, never the pipeline or the device; a resize to the current
//! size is a no-op; recovering from a lost surface forces a rebuild at the
//! current size.

use vstd::prelude::*;

verus! {

/// How a failed presentation is classified. Callers switch on this tag,
/// never on a backend-specific error.
#[derive(Clone, Copy, PartialEq, Eq, Structural, Debug)]
pub enum PresentError {
    /// The surface was lost: rebuild the swap configuration at the current
    /// size, then the same frame may be retried.
    Lost,
    /// The GPU is out of memory: unrecoverable, begin shutdown.
    OutOfMemory,
    /// The presentation was outdated or timed out: skip this tick's draw
    /// and proceed to the next tick unchanged.
    Transient,
}

/// The negotiated contract between renderer and surface: size, pixel format
/// and presentation mode. Format and mode are negotiated once at startup
/// and carried here as opaque identifiers; only the size changes afterwards.
#[derive(Clone, Copy, PartialEq, Eq, Structural, Debug)]
pub struct SurfaceConfig {
    /// Surface width in pixels.
    pub width: u32,
    /// Surface height in pixels.
    pub height: u32,
    /// Opaque identifier of the negotiated texture format.
    pub format: u64,
    /// Opaque identifier of the presentation mode.
    pub present_mode: u64,
}

/// Book-keeping model of the GPU-owning context. `swap_generation` counts
/// swap-configuration rebuilds, so "the swap configuration was rebuilt
/// exactly once here and nowhere else" is visible in contracts;
/// `pipeline_id` stands for the identity of the render pipeline handle,
/// which is built once and never replaced.
#[derive(Clone, Copy, PartialEq, Eq, Structural, Debug)]
pub struct Lifecycle {
    /// The current swap configuration.
    pub config: SurfaceConfig,
    /// Identity of the render pipeline handle, fixed at initialization.
    pub pipeline_id: u64,
    /// Number of swap-configuration rebuilds since initialization.
    pub swap_generation: u64,
}

/// What a resize does: the stored size becomes `width` by `height`; format,
/// presentation mode and pipeline are untouched; the swap configuration is
/// rebuilt exactly once — unless the size is unchanged, in which case the
/// resize is a no-op.
pub open spec fn resize_spec(pre: Lifecycle, post: Lifecycle, width: u32, height: u32) -> bool {
    &&& post.config.width == width
    &&& post.config.height == height
    &&& post.config.format == pre.config.format
    &&& post.config.present_mode == pre.config.present_mode
    &&& post.pipeline_id == pre.pipeline_id
    &&& (width == pre.config.width && height == pre.config.height ==> post == pre)
    &&& (width != pre.config.width || height != pre.config.height
        ==> post.swap_generation == pre.swap_generation + 1)
}

impl Lifecycle {
    /// Enter the ready state after device negotiation: the initial swap
    /// configuration and the pipeline identity, with no rebuilds yet.
    pub fn init(config: SurfaceConfig, pipeline_id: u64) -> (s: Self)
        ensures
            s.config == config,
            s.pipeline_id == pipeline_id,
            s.swap_generation == 0,
    {
        Lifecycle { config, pipeline_id, swap_generation: 0 }
    }

    /// Resize the surface: update the stored size and rebuild the swap
    /// configuration only — format, presentation mode and pipeline are
    /// untouched. A resize to the current size changes nothing at all.
    /// Every later render uses a swap configuration sized `width` by
    /// `height` until the next resize.
    pub fn resize(&mut self, width: u32, height: u32)
        requires
            old(self).swap_generation < u64::MAX,
        ensures
            resize_spec(*old(self), *final(self), width, height),
    {
        if width != self.config.width || height != self.config.height {
            self.config.width = width;
            self.config.height = height;
            self.swap_generation = self.swap_generation + 1;
        }
    }

    /// Force a swap-configuration rebuild at the current size, as lost-
    /// surface recovery requires; nothing else changes.
    pub fn reconfigure(&mut self)
        requires
            old(self).swap_generation < u64::MAX,
        ensures
            final(self).config == old(self).config,
            final(self).pipeline_id == old(self).pipeline_id,
            final(self).swap_generation == old(self).swap_generation + 1,
    {
        self.swap_generation = self.swap_generation + 1;
    }
}

} // verus!
