//! Pixel-level image transformations delegated to a native processing backend.
//!
//! The library holds the parts that decide: how an image becomes a flat RGB
//! buffer and back (`codec`), which native entry point and which arguments an
//! operation needs (`dispatch`, `histogram`), the single-flight guard that
//! serialises native calls (`guard`), and the presentation state that results
//! of background work are applied to (`view`).
pub mod codec;
pub mod dispatch;
pub mod guard;
pub mod histogram;
pub mod view;
