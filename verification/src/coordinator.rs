//! The per-tick coordination policy.
//!
//! One tick runs in order: poll the audio hand-off; on end-of-stream set the
//! shutdown flag and end the tick; on a frame recolor the mesh; advance the
//! camera rotation unconditionally; process pending window events (resize,
//! close, Escape); render unless shutting down; classify the presentation
//! result. The loop itself — window events, GPU submission, the audio
//! thread — runs outside the library and calls back in here for every
//! decision; this module owns the shutdown and error-recovery policy and
//! nothing performs a decision the contracts below do not pin down.

use vstd::prelude::*;
use crate::camera::UniformStaging;
use crate::color::AudioFrame;
use crate::lifecycle::Lifecycle;
use crate::lifecycle::PresentError;
use crate::lifecycle::resize_spec;

verus! {

/// What the audio timeline handed the tick.
pub enum AudioEvent {
    /// A decoded frame: recolor the mesh from it.
    Frame(AudioFrame),
    /// The track ended: graceful shutdown, no error.
    EndOfStream,
    /// The decoder failed in any other way: fatal.
    DecodeError,
}

/// What the windowing layer delivered.
pub enum InputEvent {
    /// The window was resized.
    Resized {
        /// New surface width in pixels.
        width: u32,
        /// New surface height in pixels.
        height: u32,
    },
    /// The user asked to close the window: graceful shutdown.
    CloseRequested,
    /// Escape was pressed: graceful shutdown.
    EscapePressed,
}

/// What the render loop must do after a presentation attempt.
#[derive(Clone, Copy, PartialEq, Eq, Structural, Debug)]
pub enum RenderDirective {
    /// The frame was presented: proceed to the next tick.
    Proceed,
    /// The surface was lost and the swap configuration has been rebuilt at
    /// the current size: recreate the backend swap objects, then the same
    /// frame may be retried.
    RetryAfterReconfigure,
    /// A transient presentation failure: skip this tick's draw and proceed
    /// to the next tick with nothing changed.
    SkipTick,
    /// The GPU is out of memory: make no further render calls and begin
    /// shutdown.
    Stop,
}

/// The tick coordinator: the shutdown and error policy, the camera staging
/// and the lifecycle model, together.
#[derive(Clone, Copy, PartialEq, Eq, Structural, Debug)]
pub struct Coordinator {
    /// Set when the loop must stop: end-of-stream, user close, Escape, or a
    /// fatal error. Checked once per tick; never cleared.
    pub shutdown: bool,
    /// Set when shutdown is due to an error: the process exits non-zero.
    pub fatal: bool,
    /// The camera staging: the model rotation advanced every tick.
    pub staging: UniformStaging,
    /// The surface lifecycle model.
    pub lifecycle: Lifecycle,
}

impl Coordinator {
    /// A coordinator is well formed when its rotation is a reduced angle
    /// and a fatal condition always shuts the loop down.
    pub open spec fn wf(self) -> bool {
        &&& self.staging.wf()
        &&& (self.fatal ==> self.shutdown)
    }

    /// Start the loop: running, nothing fatal, model unrotated.
    pub fn new(lifecycle: Lifecycle) -> (c: Self)
        ensures
            !c.shutdown,
            !c.fatal,
            c.staging.model_rotation_deg == 0,
            c.lifecycle == lifecycle,
            c.wf(),
    {
        Coordinator {
            shutdown: false,
            fatal: false,
            staging: UniformStaging::new(),
            lifecycle,
        }
    }

    /// Whether the tick should poll the audio hand-off at all: once the
    /// shutdown flag is set, no further frame is requested.
    pub fn should_poll_audio(&self) -> (r: bool)
        ensures
            r == !self.shutdown,
    {
        !self.shutdown
    }

    /// Take the tick's audio event. A frame asks for a recolor and changes
    /// no state; end-of-stream sets the shutdown flag, gracefully; any
    /// other decode failure sets it fatally.
    pub fn on_audio(&mut self, event: &AudioEvent) -> (recolor: bool)
        requires
            old(self).wf(),
        ensures
            final(self).wf(),
            old(self).shutdown ==> final(self).shutdown,
            final(self).staging == old(self).staging,
            final(self).lifecycle == old(self).lifecycle,
            event is Frame ==> recolor
                && final(self).shutdown == old(self).shutdown
                && final(self).fatal == old(self).fatal,
            event is EndOfStream ==> !recolor
                && final(self).shutdown
                && final(self).fatal == old(self).fatal,
            event is DecodeError ==> !recolor
                && final(self).shutdown
                && final(self).fatal,
    {
        match event {
            AudioEvent::Frame(_) => true,
            AudioEvent::EndOfStream => {
                self.shutdown = true;
                false
            },
            AudioEvent::DecodeError => {
                self.shutdown = true;
                self.fatal = true;
                false
            },
        }
    }

    /// Advance the camera for this tick: the model rotation steps by 2
    /// degrees, unconditionally, whether or not a new frame arrived.
    pub fn update(&mut self)
        requires
            old(self).wf(),
        ensures
            final(self).wf(),
            old(self).shutdown ==> final(self).shutdown,
            final(self).staging.model_rotation_deg
                == (old(self).staging.model_rotation_deg + 2) % 360,
            final(self).shutdown == old(self).shutdown,
            final(self).fatal == old(self).fatal,
            final(self).lifecycle == old(self).lifecycle,
    {
        self.staging.update();
    }

    /// Apply one window event: a resize goes to the lifecycle (pipeline
    /// untouched, swap configuration rebuilt unless the size is unchanged);
    /// a close request or Escape sets the shutdown flag, gracefully.
    pub fn on_input(&mut self, event: &InputEvent)
        requires
            old(self).wf(),
            old(self).lifecycle.swap_generation < u64::MAX,
        ensures
            final(self).wf(),
            old(self).shutdown ==> final(self).shutdown,
            final(self).staging == old(self).staging,
            final(self).fatal == old(self).fatal,
            event matches InputEvent::Resized { width, height }
                ==> final(self).shutdown == old(self).shutdown
                    && resize_spec(old(self).lifecycle, final(self).lifecycle, *width, *height),
            event is CloseRequested || event is EscapePressed
                ==> final(self).shutdown
                    && final(self).lifecycle == old(self).lifecycle,
    {
        match event {
            InputEvent::Resized { width, height } => {
                self.lifecycle.resize(*width, *height);
            },
            InputEvent::CloseRequested => {
                self.shutdown = true;
            },
            InputEvent::EscapePressed => {
                self.shutdown = true;
            },
        }
    }

    /// The process exit status the loop ends with: zero for a graceful end
    /// (end-of-stream, close, Escape), non-zero when shutdown was fatal.
    pub fn exit_code(&self) -> (r: i32)
        ensures
            r == if self.fatal { 1i32 } else { 0i32 },
    {
        if self.fatal {
            1
        } else {
            0
        }
    }

    /// Whether the tick should render: once the shutdown flag is set, no
    /// further render call is made.
    pub fn should_render(&self) -> (r: bool)
        ensures
            r == !self.shutdown,
    {
        !self.shutdown
    }

    /// Classify the presentation result. Success and transient failures
    /// change nothing — a transient failure only skips the tick's draw. A
    /// lost surface forces the swap configuration to be rebuilt at the
    /// current size before anything else renders. Out-of-memory is fatal:
    /// shutdown begins and the directive forbids further rendering.
    pub fn on_render_result(&mut self, result: &Result<(), PresentError>) -> (d: RenderDirective)
        requires
            old(self).wf(),
            old(self).lifecycle.swap_generation < u64::MAX,
        ensures
            final(self).wf(),
            old(self).shutdown ==> final(self).shutdown,
            final(self).staging == old(self).staging,
            result is Ok ==> *final(self) == *old(self) && d == RenderDirective::Proceed,
            result matches Err(PresentError::Lost)
                ==> d == RenderDirective::RetryAfterReconfigure
                    && final(self).shutdown == old(self).shutdown
                    && final(self).fatal == old(self).fatal
                    && final(self).lifecycle.config == old(self).lifecycle.config
                    && final(self).lifecycle.pipeline_id == old(self).lifecycle.pipeline_id
                    && final(self).lifecycle.swap_generation
                        == old(self).lifecycle.swap_generation + 1,
            result matches Err(PresentError::OutOfMemory)
                ==> d == RenderDirective::Stop
                    && final(self).shutdown
                    && final(self).fatal
                    && final(self).lifecycle == old(self).lifecycle,
            result matches Err(PresentError::Transient)
                ==> d == RenderDirective::SkipTick && *final(self) == *old(self),
    {
        match result {
            Ok(_) => RenderDirective::Proceed,
            Err(PresentError::Lost) => {
                self.lifecycle.reconfigure();
                RenderDirective::RetryAfterReconfigure
            },
            Err(PresentError::OutOfMemory) => {
                self.shutdown = true;
                self.fatal = true;
                RenderDirective::Stop
            },
            Err(PresentError::Transient) => RenderDirective::SkipTick,
        }
    }
}

} // verus!
