//! Laws the handle obeys, proved once for every value.
//!
//! Each proof function here relates several of the handle's operations
//! through the spec values their contracts are stated over.

use crate::handle::Metadata;
use crate::handle::NonNullMut;
use vstd::arithmetic::div_mod::lemma_div_by_multiple;
use vstd::arithmetic::div_mod::lemma_mod_multiples_basic;
use vstd::layout::size_of;
use vstd::prelude::*;
use vstd::std_specs::cmp::PartialEqSpec;
use vstd::std_specs::cmp::PartialOrdSpec;

verus! {

/// Arithmetic consistency, element level: advancing a handle by an in-bounds
/// count `n` gives an address whose element distance back to the start is
/// exactly `n`.  The first conclusion discharges the exact-multiple
/// precondition of `offset_from`; the second pins its result to `n`.
pub proof fn lemma_add_offset_from_roundtrip<T>(h: NonNullMut<T>, n: usize)
    requires
        size_of::<T>() > 0,
        h.address() + n * size_of::<T>() <= usize::MAX,
        n * size_of::<T>() <= isize::MAX,
    ensures
        ((h.address() + n * size_of::<T>()) - h.address()) % (size_of::<T>() as int) == 0,
        ((h.address() + n * size_of::<T>()) - h.address()) / (size_of::<T>() as int) == n,
{
    lemma_mod_multiples_basic(n as int, size_of::<T>() as int);
    lemma_div_by_multiple(n as int, size_of::<T>() as int);
}

/// Arithmetic consistency, byte level: advancing a handle by an in-bounds
/// byte count `n` gives an address whose byte distance back to the start is
/// exactly `n`, which is what `byte_offset_from` returns.
pub proof fn lemma_byte_add_byte_offset_from_roundtrip<T: ?Sized>(h: NonNullMut<T>, n: usize)
    requires
        h.address() + n <= usize::MAX,
        n <= isize::MAX,
    ensures
        (h.address() + n) - h.address() == n,
{
}

/// Equality is identity over the address: two thin handles are equal under
/// `==` exactly when they hold the same address, the address `as_ptr` and
/// `addr` return.
pub proof fn lemma_eq_is_address_identity<T: ?Sized>(h1: NonNullMut<T>, h2: NonNullMut<T>)
    requires
        h1.metadata() == Metadata::Thin,
        h2.metadata() == Metadata::Thin,
    ensures
        h1.eq_spec(&h2) <==> h1.address() == h2.address(),
{
}

/// The order on handles is the numeric order of their addresses: for two
/// thin handles, `partial_cmp` decides less, equal, or greater exactly as
/// the addresses compare, and is never undecided.
pub proof fn lemma_order_is_address_order<T: ?Sized>(h1: NonNullMut<T>, h2: NonNullMut<T>)
    requires
        h1.metadata() == Metadata::Thin,
        h2.metadata() == Metadata::Thin,
    ensures
        h1.partial_cmp_spec(&h2) == Some(core::cmp::Ordering::Less) <==> h1.address() < h2.address(),
        h1.partial_cmp_spec(&h2) == Some(core::cmp::Ordering::Equal) <==> h1.address() == h2.address(),
        h1.partial_cmp_spec(&h2) == Some(core::cmp::Ordering::Greater) <==> h1.address() > h2.address(),
        h1.partial_cmp_spec(&h2) is Some,
{
}

/// Equality of slice handles is identity over their inspection surface: two
/// slice handles are equal under `==` exactly when they hold the same
/// address (what `as_ptr` returns) and count the same number of elements
/// (what `len` returns), the two values a raw slice pointer carries.
pub proof fn lemma_slice_eq_is_identity<T>(h1: NonNullMut<[T]>, h2: NonNullMut<[T]>)
    requires
        h1.metadata() is Length,
        h2.metadata() is Length,
    ensures
        h1.eq_spec(&h2) <==> (h1.address() == h2.address() && h1.slice_len() == h2.slice_len()),
{
}

/// A slice handle reads back exactly the length it was built with, and is
/// empty exactly when that length is zero.
pub proof fn lemma_slice_len_roundtrip<T>(h: NonNullMut<[T]>, n: usize)
    requires
        h.metadata() == Metadata::Length(n),
    ensures
        h.slice_len() == n,
        h.slice_len() == 0 <==> n == 0,
{
}

} // verus!
