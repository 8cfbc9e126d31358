//! Recursive path removal with permission recovery.
//!
//! A plain recursive delete gives up as soon as it meets a read-only file or
//! directory. This library holds the logic of a remover that recovers from
//! such a failure: it determines which path's permission state actually gates
//! the deletion, grants the owner write permission on that path if it is not
//! already writable, and retries the removal exactly once.
//!
//! The library is pure logic over plain values. The filesystem calls
//! themselves (walking a tree, unlinking, reading and changing permissions)
//! are performed by a thin driver outside the library, which feeds their
//! results back as events.

pub mod entry;
pub mod model;
pub mod perm;
pub mod remover;
