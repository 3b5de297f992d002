//! Core logic of an audio-reactive sphere visualizer.
//!
//! The library holds everything about the visualizer that can be stated and
//! proved: the sphere tessellation (vertex grid and triangle index list), the
//! mapping from decoded audio samples to per-vertex color drivers, the model
//! rotation that advances every tick, the surface lifecycle with its resize
//! and reconfiguration rules, the per-tick coordination policy with its
//! error-recovery and shutdown rules, and the single-slot frame hand-off
//! between the audio and render timelines.
//!
//! Floating-point evaluation (trigonometry, matrices, the color formula on
//! `f32`) and all GPU, window and file I/O live outside the library; they
//! consume the plain values this library produces.

pub mod camera;
pub mod color;
pub mod coordinator;
pub mod handoff;
pub mod lifecycle;
pub mod mesh;
