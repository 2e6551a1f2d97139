//! A global-allocator adapter over the UEFI pool allocation service.
//!
//! The firmware calls themselves (allocate and free) are made by the host
//! program; this crate decides what to ask the firmware for, and what each of
//! its answers means for the allocator's caller.

pub mod allocator;
mod firmware;
pub mod laws;

pub use allocator::{
    alloc_result, dealloc_result, AllocStep, Allocator, Fatal, FreeStep, LOADER_DATA_CODE,
    MAX_ALIGN,
};
