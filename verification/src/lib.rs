//! A verified model of a minimal real-time rendering engine.
//!
//! The engine draws a textured, colour-tinted quad through an explicit,
//! Vulkan-style graphics API: logical device and queue acquisition,
//! memory-backed buffer and image allocation, descriptor-set binding,
//! swapchain presentation, and a per-frame draw loop with explicit
//! synchronisation and swapchain-recreation recovery.
//!
//! The library holds every decision the engine makes — memory-type
//! selection, staging-buffer layout, command recording, frame-slot
//! rotation, teardown ordering, and the colour-editing input machine —
//! as verified code over a plain model of the GPU objects.  The
//! unverifiable edge (the windowing event loop and the driver calls
//! themselves) stays outside and drives these functions with the
//! outcomes it observed.

pub mod buffer;
pub mod desc;
pub mod device;
pub mod item;
pub mod pipeline;
pub mod render;
pub mod swapchain;
