//! Properties of the allocator adapter that hold across its steps.

use vstd::prelude::*;
use uefi::table::boot::MemoryType;

use crate::allocator::{
    alloc_result_of, alloc_step_of, dealloc_result_of, free_step_of, AllocStep, Allocator, Fatal,
    FreeStep, LOADER_DATA_CODE, MAX_ALIGN,
};

verus! {

/// With boot services registered and an alignment of at most `MAX_ALIGN`,
/// an allocation asks the firmware for `size` bytes of loader data, and an
/// address that the firmware gives is the allocation's result.
pub proof fn lemma_granted_address_returned<H>(
    registered: Option<H>,
    size: usize,
    align: usize,
    address: usize,
)
    requires
        registered is Some,
        align <= MAX_ALIGN,
    ensures
        alloc_step_of(registered, size, align) == (AllocStep::Call {
            service: registered->Some_0,
            memory_type: MemoryType(LOADER_DATA_CODE),
            size,
        }),
        alloc_result_of(Ok(address)) == Some(address),
{
}

/// An alignment above `MAX_ALIGN` is refused whatever the size and whether
/// or not boot services are registered, and the firmware is never called.
pub proof fn lemma_overaligned_refused<H>(registered: Option<H>, size: usize, align: usize)
    requires
        align > MAX_ALIGN,
    ensures
        alloc_step_of(registered, size, align) is Unsupported,
{
}

/// When the firmware cannot allocate, the allocation's result is the failure
/// sentinel.
pub proof fn lemma_refused_allocation_is_sentinel(e: uefi::Error)
    ensures
        alloc_result_of(Err(e)) is None,
{
}

/// After `init(handle)`, every allocation that reaches the firmware and every
/// free goes to `handle` itself.
pub proof fn lemma_registered_handle_used<H>(
    a: Allocator<H>,
    handle: H,
    size: usize,
    align: usize,
    address: usize,
    size_hint: usize,
)
    requires
        a@ == Some(handle),
    ensures
        align <= MAX_ALIGN ==> alloc_step_of(a@, size, align) == (AllocStep::Call {
            service: handle,
            memory_type: MemoryType(LOADER_DATA_CODE),
            size,
        }),
        free_step_of(a@, address, size_hint) == (FreeStep::Call { service: handle, address }),
{
}

/// A free makes exactly one firmware call, on the address given, whatever
/// the size hint.
pub proof fn lemma_free_passes_address<H>(
    registered: Option<H>,
    address: usize,
    size_hint: usize,
    other_hint: usize,
)
    requires
        registered is Some,
    ensures
        free_step_of(registered, address, size_hint) == (FreeStep::Call {
            service: registered->Some_0,
            address,
        }),
        free_step_of(registered, address, size_hint) == free_step_of(
            registered,
            address,
            other_hint,
        ),
{
}

/// Before `init`, a free, and an allocation whose alignment the firmware
/// could honour, are fatal.
pub proof fn lemma_uninitialized_fatal<H>(
    size: usize,
    align: usize,
    address: usize,
    size_hint: usize,
)
    requires
        align <= MAX_ALIGN,
    ensures
        alloc_step_of(None::<H>, size, align) == AllocStep::<H>::Abort(Fatal::Uninitialized),
        free_step_of(None::<H>, address, size_hint) == FreeStep::<H>::Abort(Fatal::Uninitialized),
{
}

/// A free that the firmware refuses is fatal, and one that it accepts is
/// not.
pub proof fn lemma_rejected_free_fatal(e: uefi::Error)
    ensures
        dealloc_result_of(Err(e)) == Err::<(), Fatal>(Fatal::FreeRejected(e)),
        dealloc_result_of(Ok(())) is Ok,
{
}

} // verus!
