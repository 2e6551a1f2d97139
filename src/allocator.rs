//! The allocator adapter: a registration slot for the firmware's boot
//! services, and the decisions around each pool allocation and free.
//!
//! The adapter itself performs no firmware call. For an allocation it first
//! says which call to make ([`Allocator::plan_alloc`]), and then what the
//! firmware's answer means ([`alloc_result`]); a free goes the same way
//! ([`Allocator::plan_dealloc`], [`dealloc_result`]). The host runs the calls
//! in between, and aborts on a [`Fatal`] outcome.
//!
//! The adapter does no locking: the host must serialise `init` and every
//! allocation and free, as single-threaded boot code does.

use vstd::prelude::*;
use uefi::table::boot::MemoryType;

use crate::firmware::loader_data;

verus! {

/// The largest alignment, in bytes, of the addresses that the firmware's
/// pool allocator hands out.
pub const MAX_ALIGN: usize = 8;

/// The code of the memory type requested for every allocation: the data of
/// a loaded application.
pub const LOADER_DATA_CODE: u32 = 2;

/// A condition under which the host must abort the process.
pub enum Fatal {
    /// An allocation or a free was asked for before `init` registered the
    /// boot services.
    Uninitialized,
    /// The firmware refused to free an address: an invalid address, a double
    /// free or corrupted pool state.
    FreeRejected(uefi::Error),
}

/// What to do for one allocation request.
pub enum AllocStep<H> {
    /// The request cannot be met: answer with the failure sentinel, and do
    /// not call the firmware.
    Unsupported,
    /// Call the firmware's pool allocation of `service`, then hand its answer
    /// to [`alloc_result`].
    Call { service: H, memory_type: MemoryType, size: usize },
    /// Abort the process.
    Abort(Fatal),
}

/// What to do for one free request.
pub enum FreeStep<H> {
    /// Call the firmware's pool free of `service` on `address`, then hand its
    /// answer to [`dealloc_result`].
    Call { service: H, address: usize },
    /// Abort the process.
    Abort(Fatal),
}

/// The step for an allocation of `size` bytes aligned to `align` bytes, with
/// `registered` the boot services registered so far.
pub open spec fn alloc_step_of<H>(registered: Option<H>, size: usize, align: usize) -> AllocStep<H> {
    if align > MAX_ALIGN {
        AllocStep::Unsupported
    } else {
        match registered {
            Some(h) => AllocStep::Call {
                service: h,
                memory_type: MemoryType(LOADER_DATA_CODE),
                size,
            },
            None => AllocStep::Abort(Fatal::Uninitialized),
        }
    }
}

/// The step for a free of `address`, whose block was `size_hint` bytes long.
/// The firmware knows each block's size, so the hint plays no part.
pub open spec fn free_step_of<H>(registered: Option<H>, address: usize, size_hint: usize) -> FreeStep<H> {
    match registered {
        Some(h) => FreeStep::Call { service: h, address },
        None => FreeStep::Abort(Fatal::Uninitialized),
    }
}

/// The allocator's answer to the firmware's answer: the address it gave, or
/// `None`, the failure sentinel.
pub open spec fn alloc_result_of(answer: Result<usize, uefi::Error>) -> Option<usize> {
    match answer {
        Ok(address) => Some(address),
        Err(_) => None,
    }
}

/// The outcome of a free, given the firmware's answer.
pub open spec fn dealloc_result_of(answer: Result<(), uefi::Error>) -> Result<(), Fatal> {
    match answer {
        Ok(()) => Ok(()),
        Err(e) => Err(Fatal::FreeRejected(e)),
    }
}

/// An allocator over the UEFI pool functions of the boot services `H`,
/// registered once by [`Allocator::init`].
///
/// Only valid for as long as the registered boot services are available.
pub struct Allocator<H> {
    service: Option<H>,
}

impl<H> View for Allocator<H> {
    type V = Option<H>;

    /// The registered boot services, or `None` before `init`.
    closed spec fn view(&self) -> Option<H> {
        self.service
    }
}

impl<H: Copy> Allocator<H> {
    /// An allocator with no boot services registered yet.
    pub fn new() -> (r: Self)
        ensures
            r@ is None,
    {
        Allocator { service: None }
    }

    /// Registers the boot services that every later allocation and free
    /// goes to. A second call replaces the first registration.
    pub fn init(&mut self, service: H)
        ensures
            final(self)@ == Some(service),
    {
        self.service = Some(service);
    }

    /// The registered boot services; reading them before `init` is fatal.
    pub fn current(&self) -> (r: Result<H, Fatal>)
        ensures
            r == (match self@ {
                Some(h) => Ok::<H, Fatal>(h),
                None => Err(Fatal::Uninitialized),
            }),
    {
        match self.service {
            Some(h) => Ok(h),
            None => Err(Fatal::Uninitialized),
        }
    }

    /// The step for an allocation of `size` bytes aligned to `align` bytes.
    ///
    /// An alignment above [`MAX_ALIGN`] is refused before anything else; the
    /// registration is read only after that.
    pub fn plan_alloc(&self, size: usize, align: usize) -> (r: AllocStep<H>)
        ensures
            r == alloc_step_of(self@, size, align),
    {
        if align > MAX_ALIGN {
            AllocStep::Unsupported
        } else {
            match self.current() {
                Ok(service) => AllocStep::Call { service, memory_type: loader_data(), size },
                Err(fatal) => AllocStep::Abort(fatal),
            }
        }
    }

    /// The step for a free of `address`, a block of `size_hint` bytes.
    pub fn plan_dealloc(&self, address: usize, size_hint: usize) -> (r: FreeStep<H>)
        ensures
            r == free_step_of(self@, address, size_hint),
    {
        match self.current() {
            Ok(service) => FreeStep::Call { service, address },
            Err(fatal) => FreeStep::Abort(fatal),
        }
    }
}

/// The allocator's answer to the firmware's answer to a pool allocation:
/// the address given, or `None` when the firmware could not allocate.
pub fn alloc_result(answer: Result<usize, uefi::Error>) -> (r: Option<usize>)
    ensures
        r == alloc_result_of(answer),
{
    match answer {
        Ok(address) => Some(address),
        Err(_) => None,
    }
}

/// The outcome of a free given the firmware's answer: a refused free is
/// fatal.
pub fn dealloc_result(answer: Result<(), uefi::Error>) -> (r: Result<(), Fatal>)
    ensures
        r == dealloc_result_of(answer),
{
    match answer {
        Ok(()) => Ok(()),
        Err(e) => Err(Fatal::FreeRejected(e)),
    }
}

} // verus!
