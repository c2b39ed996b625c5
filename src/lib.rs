//! Scene storage, entity/component association, per-frame motion and buffer
//! synchronisation for a small real-time renderer.
//!
//! Everything here is generic over the scalar type `S` of coordinates. The
//! bookkeeping (slot indices, which records a step reads and writes, the order
//! of the vertex transform, index re-basing, buffer layout) is verified
//! independently of the arithmetic on scalars, which callers supply.

pub mod components;
pub mod entity;
pub mod motion;
pub mod primitives;
pub mod renderer;
pub mod scene;
pub mod seqs;
