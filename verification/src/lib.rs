//! A validating compiler from a declarative multi-stage render pass
//! description into a packed, driver-consumable layout, plus a query
//! layer over the compiled result.
//!
//! A [`desc::RenderPassDesc`] lists attachment slots, the subpasses that
//! reference them and the ordering dependencies between those subpasses.
//! Compiling a description validates its structural invariants, flattens
//! the per-subpass reference lists into shared pools, and drives the one
//! native creation call; the result is an immutable handle exposing
//! derived queries such as per-subpass sample counts and the tiling
//! granularity of the pass.

pub mod buffer;
pub mod desc;
pub mod device;
pub mod format;
pub mod multiview;
pub mod pack;
pub mod render_pass;
pub mod validate;
