//! Compiled-module caching for accelerator kernels: contexts that register
//! accelerators and share code generators between equal targets, per-context
//! write-once module caches, and per-kernel cells that follow the current
//! context.
use vstd::prelude::*;

pub mod cell;
pub mod context;
pub mod metadata;
pub mod module_data;
pub mod table;
pub mod workitem;

verus! {

} // verus!
