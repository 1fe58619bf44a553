//! Core of a wavefront path-tracing renderer: bounded work queues that many
//! parallel producers append to, typed work items that carry their origin
//! pixel, the per-thread semantics of the four pipeline stage kernels
//! (camera-ray generation, closest intersection, material evaluation, film
//! update), and the scheduler that sequences those stages over a frame.
//!
//! Device submission, window presentation and all floating-point shading math
//! live outside this crate; payload fields that are IEEE-754 values on the
//! device are carried here as their 32-bit patterns and never interpreted
//! numerically.

pub mod film;
pub mod integrator;
pub mod layout;
pub mod sampler;
pub mod kernels;
pub mod registry;
pub mod scene;
pub mod workitems;
pub mod workqueue;
