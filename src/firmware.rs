//! Declarations of the firmware types that the allocator's decisions carry.

use vstd::prelude::*;

verus! {

#[verifier::external_type_specification]
pub struct ExMemoryType(uefi::table::boot::MemoryType);

#[verifier::external_type_specification]
#[verifier::external_body]
#[verifier::reject_recursive_types(Data)]
pub struct ExError<Data: core::fmt::Debug>(uefi::Error<Data>);

/// The memory type that the allocator requests pool memory of.
///
/// Relies on `uefi::table::boot::MemoryType::LOADER_DATA`, which is the
/// memory type with code 2: the data of a loaded application.
#[verifier::external_body]
pub(crate) fn loader_data() -> (r: uefi::table::boot::MemoryType)
    ensures
        r.0 == 2,
{
    uefi::table::boot::MemoryType::LOADER_DATA
}

} // verus!
