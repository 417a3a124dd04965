//! The handle type and its core operations.

use core::marker::PhantomData;
use vstd::arithmetic::div_mod::lemma_div_multiples_vanish;
use vstd::arithmetic::div_mod::lemma_div_nonincreasing;
use vstd::arithmetic::div_mod::lemma_fundamental_div_mod;
use vstd::arithmetic::div_mod::lemma_mod_division_less_than_divisor;
use vstd::arithmetic::div_mod::lemma_mod_multiples_basic;
use vstd::arithmetic::div_mod::lemma_mod_self_0;
use vstd::arithmetic::div_mod::lemma_small_mod;
use vstd::arithmetic::power2::is_pow2;
use vstd::layout::align_of;
use vstd::layout::layout_for_type_is_valid;
use vstd::layout::size_of;
use vstd::prelude::*;

verus! {

/// What a handle knows about its pointee beyond the address: a handle to a
/// single value is thin, a handle to a contiguous run of elements also
/// carries the element count.
#[derive(Clone, Copy, Debug, Hash, PartialEq, Eq, Structural)]
pub enum Metadata {
    /// A handle to a single (sized) pointee.
    Thin,
    /// A handle to a contiguous run of elements, with the element count.
    Length(usize),
}

/// A non-null address handle with mutable-pointer semantics.
///
/// The held address is never zero; an operation that could produce a zero
/// address states that impossibility as a precondition.  The handle does not
/// own or track the memory it addresses, and accessing the pointee is outside
/// its scope: it is a bare value, and every operation on it is a pure
/// transformation of the address (and, for slice handles, the length).
///
/// The handle is an ordinary value of two words; it does not reproduce the
/// in-memory representation of a raw pointer, and an `Option` of it is an
/// ordinary `Option`, with no compact representation promised.
#[derive(Hash)]
pub struct NonNullMut<T: ?Sized> {
    addr: usize,
    meta: Metadata,
    _marker: PhantomData<T>,
}

impl<T: ?Sized> NonNullMut<T> {
    /// The held address, as a mathematical value.
    pub closed spec fn address(&self) -> usize {
        self.addr
    }

    /// The held metadata, as a mathematical value.
    pub closed spec fn metadata(&self) -> Metadata {
        self.meta
    }

    #[verifier::type_invariant]
    spec fn inv(&self) -> bool {
        self.addr != 0
    }

    /// Wrap `addr`, or report absence for the one invalid address, zero.
    pub fn new(addr: usize) -> (r: Option<Self>)
        ensures
            addr == 0 <==> r is None,
            r matches Some(h) ==> h.address() == addr && h.metadata() == Metadata::Thin,
    {
        if addr == 0 {
            None
        } else {
            Some(NonNullMut { addr, meta: Metadata::Thin, _marker: PhantomData })
        }
    }

    /// Wrap `addr` unconditionally; the caller owes the non-zero check.
    pub fn new_unchecked(addr: usize) -> (r: Self)
        requires
            addr != 0,
        ensures
            r.address() == addr,
            r.metadata() == Metadata::Thin,
    {
        NonNullMut { addr, meta: Metadata::Thin, _marker: PhantomData }
    }

    /// Wrap an address that has already been validated as non-zero.
    pub fn from_inner(addr: usize) -> (r: Self)
        requires
            addr != 0,
        ensures
            r.address() == addr,
            r.metadata() == Metadata::Thin,
    {
        NonNullMut { addr, meta: Metadata::Thin, _marker: PhantomData }
    }

    /// The held address; never zero.
    pub fn addr(self) -> (r: usize)
        ensures
            r == self.address(),
            r != 0,
    {
        proof {
            use_type_invariant(&self);
        }
        self.addr
    }

    /// The held address as the raw value a pointer would carry; never zero.
    ///
    /// For a slice handle this is the address alone: the element count is
    /// read by `len`, and handle equality is the two together.
    pub fn as_ptr(self) -> (r: usize)
        ensures
            r == self.address(),
            r != 0,
    {
        proof {
            use_type_invariant(&self);
        }
        self.addr
    }

    /// The validated non-zero address the handle was built around.
    pub fn as_inner(self) -> (r: usize)
        ensures
            r == self.address(),
            r != 0,
    {
        proof {
            use_type_invariant(&self);
        }
        self.addr
    }

    /// A handle at `addr`, keeping this handle's metadata.
    pub fn with_addr(self, addr: usize) -> (r: Self)
        requires
            addr != 0,
        ensures
            r.address() == addr,
            r.metadata() == self.metadata(),
    {
        NonNullMut { addr, meta: self.meta, _marker: PhantomData }
    }

    /// Apply a pure address transformation and rewrap the result.
    ///
    /// The transformation must be callable on the held address and must never
    /// produce zero; what it returns is exactly what the new handle holds.
    pub fn map_addr<F: FnOnce(usize) -> usize>(self, f: F) -> (r: Self)
        requires
            call_requires(f, (self.address(),)),
            forall|b: usize| call_ensures(f, (self.address(),), b) ==> b != 0,
        ensures
            call_ensures(f, (self.address(),), r.address()),
            r.metadata() == self.metadata(),
    {
        proof {
            use_type_invariant(&self);
        }
        let addr = f(self.addr);
        NonNullMut { addr, meta: self.meta, _marker: PhantomData }
    }

    /// Reinterpret the pointee type, keeping the address; the new handle is
    /// thin, as a handle to a single `U` is.
    pub fn cast<U>(self) -> (r: NonNullMut<U>)
        ensures
            r.address() == self.address(),
            r.metadata() == Metadata::Thin,
    {
        proof {
            use_type_invariant(&self);
        }
        NonNullMut { addr: self.addr, meta: Metadata::Thin, _marker: PhantomData }
    }
}

impl<T: ?Sized> NonNullMut<T> {
    /// The handle displaced by a signed number of bytes.
    pub fn byte_offset(self, count: isize) -> (r: Self)
        requires
            0 < self.address() + count <= usize::MAX,
        ensures
            r.address() == self.address() + count,
            r.metadata() == self.metadata(),
    {
        proof {
            use_type_invariant(&self);
        }
        let addr: usize = if count >= 0 {
            self.addr + (count as usize)
        } else {
            let m: usize = ((-(count + 1)) as usize) + 1;
            self.addr - m
        };
        NonNullMut { addr, meta: self.meta, _marker: PhantomData }
    }

    /// The handle displaced forward by `count` bytes.
    pub fn byte_add(self, count: usize) -> (r: Self)
        requires
            self.address() + count <= usize::MAX,
        ensures
            r.address() == self.address() + count,
            r.metadata() == self.metadata(),
    {
        proof {
            use_type_invariant(&self);
        }
        NonNullMut { addr: self.addr + count, meta: self.meta, _marker: PhantomData }
    }

    /// The handle displaced backward by `count` bytes.
    pub fn byte_sub(self, count: usize) -> (r: Self)
        requires
            count < self.address(),
        ensures
            r.address() == self.address() - count,
            r.metadata() == self.metadata(),
    {
        proof {
            use_type_invariant(&self);
        }
        NonNullMut { addr: self.addr - count, meta: self.meta, _marker: PhantomData }
    }

    /// The signed byte distance from `origin` to this handle.
    ///
    /// The two addresses are assumed to lie in one allocated region, which
    /// bounds their distance by the machine limit stated here.
    pub fn byte_offset_from<U: ?Sized>(self, origin: NonNullMut<U>) -> (r: isize)
        requires
            isize::MIN <= self.address() - origin.address() <= isize::MAX,
        ensures
            r == self.address() - origin.address(),
    {
        if self.addr >= origin.addr {
            (self.addr - origin.addr) as isize
        } else {
            let m: usize = origin.addr - self.addr;
            if m <= (isize::MAX as usize) {
                -(m as isize)
            } else {
                isize::MIN
            }
        }
    }
}

impl<T> NonNullMut<T> {
    /// A fixed, well-aligned, non-zero placeholder address: the alignment of
    /// `T` itself.  The address is valid as a bit pattern only; it must not
    /// be dereferenced.
    pub fn dangling() -> (r: Self)
        ensures
            r.address() as nat == align_of::<T>(),
            r.address() as nat % align_of::<T>() == 0,
            r.metadata() == Metadata::Thin,
    {
        layout_for_type_is_valid::<T>();
        let addr = core::mem::align_of::<T>();
        NonNullMut { addr, meta: Metadata::Thin, _marker: PhantomData }
    }

    /// The handle displaced by a signed number of elements, each step
    /// `size_of::<T>()` bytes.
    pub fn offset(self, count: isize) -> (r: Self)
        requires
            0 < self.address() + count * size_of::<T>() <= usize::MAX,
        ensures
            r.address() == self.address() + count * size_of::<T>(),
            r.metadata() == self.metadata(),
    {
        proof {
            use_type_invariant(&self);
        }
        layout_for_type_is_valid::<T>();
        let stride = core::mem::size_of::<T>();
        let addr: usize = if count >= 0 {
            self.addr + (count as usize) * stride
        } else {
            let m: usize = ((-(count + 1)) as usize) + 1;
            proof {
                assert(m * stride + count * size_of::<T>() == 0) by (nonlinear_arith)
                    requires
                        m as int == -(count as int),
                        stride as int == size_of::<T>() as int,
                ;
            }
            self.addr - m * stride
        };
        NonNullMut { addr, meta: self.meta, _marker: PhantomData }
    }

    /// The handle displaced forward by `count` elements.
    pub fn add(self, count: usize) -> (r: Self)
        requires
            self.address() + count * size_of::<T>() <= usize::MAX,
        ensures
            r.address() == self.address() + count * size_of::<T>(),
            r.metadata() == self.metadata(),
    {
        proof {
            use_type_invariant(&self);
        }
        layout_for_type_is_valid::<T>();
        let stride = core::mem::size_of::<T>();
        NonNullMut { addr: self.addr + count * stride, meta: self.meta, _marker: PhantomData }
    }

    /// The handle displaced backward by `count` elements.
    pub fn sub(self, count: usize) -> (r: Self)
        requires
            count * size_of::<T>() < self.address(),
        ensures
            r.address() == self.address() - count * size_of::<T>(),
            r.metadata() == self.metadata(),
    {
        proof {
            use_type_invariant(&self);
        }
        layout_for_type_is_valid::<T>();
        let stride = core::mem::size_of::<T>();
        NonNullMut { addr: self.addr - count * stride, meta: self.meta, _marker: PhantomData }
    }

    /// The signed distance from `origin` to this handle, in elements.
    ///
    /// The two addresses are assumed to lie in one allocated region of
    /// `T` elements: their byte distance is an exact multiple of
    /// `size_of::<T>()` and bounded by the machine limit stated here.
    pub fn offset_from(self, origin: NonNullMut<T>) -> (r: isize)
        requires
            size_of::<T>() > 0,
            (self.address() - origin.address()) % (size_of::<T>() as int) == 0,
            isize::MIN <= self.address() - origin.address() <= isize::MAX,
        ensures
            r == (self.address() - origin.address()) / (size_of::<T>() as int),
    {
        layout_for_type_is_valid::<T>();
        let stride = core::mem::size_of::<T>();
        if self.addr >= origin.addr {
            let q = (self.addr - origin.addr) / stride;
            proof {
                lemma_div_nonincreasing((self.addr - origin.addr) as int, stride as int);
            }
            q as isize
        } else {
            let m: usize = (origin.addr - self.addr) / stride;
            proof {
                let a1 = self.addr as int;
                let a0 = origin.addr as int;
                let s = stride as int;
                let e = (a1 - a0) / s;
                lemma_fundamental_div_mod(a1 - a0, s);
                assert(a0 - a1 == s * (-e)) by (nonlinear_arith)
                    requires
                        a1 - a0 == s * e,
                ;
                lemma_div_multiples_vanish(-e, s);
                assert(m as int <= s * (m as int)) by (nonlinear_arith)
                    requires
                        s >= 1,
                        m as int >= 0,
                ;
            }
            if m <= (isize::MAX as usize) {
                -(m as isize)
            } else {
                isize::MIN
            }
        }
    }

    /// The number of elements by which to advance this handle so that its
    /// address satisfies `align`, where this can be computed by closing the
    /// gap to the next boundary; `usize::MAX` stands for "not computed".
    pub fn align_offset(self, align: usize) -> (r: usize)
        requires
            is_pow2(align as int),
        ensures
            r == align_offset_result(self.address(), align, size_of::<T>()),
            self.address() as int % align as int == 0 ==> r == 0,
            r != usize::MAX ==> (self.address() + r * size_of::<T>()) % (align as int) == 0,
            r != usize::MAX ==> r * size_of::<T>() < align,
    {
        proof {
            use_type_invariant(&self);
            reveal(is_pow2);
        }
        layout_for_type_is_valid::<T>();
        let stride = core::mem::size_of::<T>();
        let rem = self.addr % align;
        let gap: usize = if rem == 0 {
            0
        } else {
            align - rem
        };
        proof {
            lemma_mod_division_less_than_divisor(self.addr as int, align as int);
            assert(gap == align_gap(self.address(), align)) by {
                if rem == 0 {
                    lemma_mod_self_0(align as int);
                } else {
                    lemma_small_mod((align - rem) as nat, align as nat);
                }
            }
        }
        if stride == 0 {
            if rem == 0 {
                0
            } else {
                usize::MAX
            }
        } else if gap % stride == 0 {
            let r = gap / stride;
            proof {
                let a = self.addr as int;
                let al = align as int;
                let s = stride as int;
                let g = gap as int;
                lemma_div_nonincreasing(g, s);
                lemma_fundamental_div_mod(g, s);
                assert(r * s == g) by (nonlinear_arith)
                    requires
                        g == s * (g / s) + g % s,
                        g % s == 0,
                        r == g / s,
                ;
                lemma_fundamental_div_mod(a, al);
                assert((a + g) % al == 0) by {
                    let q = a / al;
                    if rem == 0 {
                        assert(a + g == q * al) by (nonlinear_arith)
                            requires
                                a == al * q + a % al,
                                a % al == 0,
                                g == 0,
                        ;
                        lemma_mod_multiples_basic(q, al);
                    } else {
                        assert(a + g == (q + 1) * al) by (nonlinear_arith)
                            requires
                                a == al * q + a % al,
                                g == al - a % al,
                        ;
                        lemma_mod_multiples_basic(q + 1, al);
                    }
                }
            }
            r
        } else {
            usize::MAX
        }
    }

    /// Whether the address already satisfies the natural alignment of `T`.
    pub fn is_aligned(self) -> (r: bool)
        ensures
            r == (self.address() as int % align_of::<T>() as int == 0),
    {
        layout_for_type_is_valid::<T>();
        self.addr % core::mem::align_of::<T>() == 0
    }
}

impl<T> NonNullMut<[T]> {
    /// The element count of a slice handle; a handle built without one
    /// counts zero elements.
    pub open spec fn slice_len(&self) -> usize {
        match self.metadata() {
            Metadata::Length(n) => n,
            Metadata::Thin => 0,
        }
    }

    /// A handle to a contiguous run of `len` elements starting at `data`.
    /// Nothing is checked about the run itself.
    pub fn slice_from_raw_parts(data: NonNullMut<T>, len: usize) -> (r: Self)
        ensures
            r.address() == data.address(),
            r.metadata() == Metadata::Length(len),
    {
        proof {
            use_type_invariant(&data);
        }
        NonNullMut { addr: data.addr, meta: Metadata::Length(len), _marker: PhantomData }
    }

    /// The element count the handle was built with.
    pub fn len(self) -> (r: usize)
        ensures
            r == self.slice_len(),
    {
        match self.meta {
            Metadata::Length(n) => n,
            Metadata::Thin => 0,
        }
    }

    /// Whether the handle counts zero elements.
    pub fn is_empty(self) -> (r: bool)
        ensures
            r == (self.slice_len() == 0),
    {
        self.len() == 0
    }
}

/// The number of bytes from `addr` up to the next address whose remainder by
/// `align` is zero: zero when `addr` is already such an address.
pub open spec fn align_gap(addr: usize, align: usize) -> int
    recommends
        align > 0,
{
    (align - addr % align) % (align as int)
}

/// What `align_offset` returns: the element count whose byte displacement
/// closes the gap to the next `align` boundary, or `usize::MAX` when no
/// whole number of `stride`-byte elements closes it.  A zero-sized element
/// can close only a zero gap.
pub open spec fn align_offset_result(addr: usize, align: usize, stride: nat) -> int
    recommends
        align > 0,
{
    if stride == 0 {
        if addr as int % align as int == 0 {
            0
        } else {
            usize::MAX as int
        }
    } else if align_gap(addr, align) % (stride as int) == 0 {
        align_gap(addr, align) / (stride as int)
    } else {
        usize::MAX as int
    }
}

impl<T: ?Sized> Clone for NonNullMut<T> {
    /// A copy of the handle: same address, same metadata.
    fn clone(&self) -> (r: Self)
        ensures
            r == *self,
    {
        *self
    }
}

impl<T: ?Sized> Copy for NonNullMut<T> {

}

impl<T: ?Sized> PartialEq for NonNullMut<T> {
    /// Identity over the held value: equal addresses and equal metadata.
    fn eq(&self, other: &Self) -> (r: bool) {
        self.addr == other.addr && self.meta == other.meta
    }
}

impl<T: ?Sized> Eq for NonNullMut<T> {

}

impl<T: ?Sized> vstd::std_specs::cmp::PartialEqSpecImpl for NonNullMut<T> {
    open spec fn obeys_eq_spec() -> bool {
        true
    }

    open spec fn eq_spec(&self, other: &Self) -> bool {
        self.address() == other.address() && self.metadata() == other.metadata()
    }
}

/// The order of two metadata values, compared after equal addresses: thin
/// handles sort before slice handles, slice handles sort by element count.
pub open spec fn metadata_order(m1: Metadata, m2: Metadata) -> core::cmp::Ordering {
    match (m1, m2) {
        (Metadata::Thin, Metadata::Thin) => core::cmp::Ordering::Equal,
        (Metadata::Thin, Metadata::Length(_)) => core::cmp::Ordering::Less,
        (Metadata::Length(_), Metadata::Thin) => core::cmp::Ordering::Greater,
        (Metadata::Length(n1), Metadata::Length(n2)) => if n1 < n2 {
            core::cmp::Ordering::Less
        } else if n1 > n2 {
            core::cmp::Ordering::Greater
        } else {
            core::cmp::Ordering::Equal
        },
    }
}

/// The total order on handles: numeric address order, with metadata as the
/// tie-breaker so that the order refines equality.
pub open spec fn handle_order(a1: usize, m1: Metadata, a2: usize, m2: Metadata) -> core::cmp::Ordering {
    if a1 < a2 {
        core::cmp::Ordering::Less
    } else if a1 > a2 {
        core::cmp::Ordering::Greater
    } else {
        metadata_order(m1, m2)
    }
}

impl<T: ?Sized> PartialOrd for NonNullMut<T> {
    /// The platform's total order over addresses; always comparable.
    fn partial_cmp(&self, other: &Self) -> (r: Option<core::cmp::Ordering>) {
        if self.addr < other.addr {
            Some(core::cmp::Ordering::Less)
        } else if self.addr > other.addr {
            Some(core::cmp::Ordering::Greater)
        } else {
            match (self.meta, other.meta) {
                (Metadata::Thin, Metadata::Thin) => Some(core::cmp::Ordering::Equal),
                (Metadata::Thin, Metadata::Length(_)) => Some(core::cmp::Ordering::Less),
                (Metadata::Length(_), Metadata::Thin) => Some(core::cmp::Ordering::Greater),
                (Metadata::Length(n1), Metadata::Length(n2)) => if n1 < n2 {
                    Some(core::cmp::Ordering::Less)
                } else if n1 > n2 {
                    Some(core::cmp::Ordering::Greater)
                } else {
                    Some(core::cmp::Ordering::Equal)
                },
            }
        }
    }
}

impl<T: ?Sized> vstd::std_specs::cmp::PartialOrdSpecImpl for NonNullMut<T> {
    open spec fn obeys_partial_cmp_spec() -> bool {
        true
    }

    open spec fn partial_cmp_spec(&self, other: &Self) -> Option<core::cmp::Ordering> {
        Some(handle_order(self.address(), self.metadata(), other.address(), other.metadata()))
    }
}

/// Relies on `core::ptr::from_ref` and the `addr` method of the raw pointer
/// it returns: the address of the referent.  A live reference never has the
/// zero address, which is all that is assumed of the result.
#[verifier::external_body]
fn address_of<T: ?Sized>(r: &T) -> (a: usize)
    ensures
        a != 0,
{
    core::ptr::from_ref(r).addr()
}

impl<T> From<&T> for NonNullMut<T> {
    /// The handle at the address of the referent; the lifetime is discarded,
    /// the address kept.  Which address a referent has is the machine's
    /// choice, so beyond thin-ness only non-zeroness is promised.
    fn from(r: &T) -> (h: Self)
        ensures
            h.metadata() == Metadata::Thin,
            h.address() != 0,
    {
        let addr = address_of(r);
        NonNullMut { addr, meta: Metadata::Thin, _marker: PhantomData }
    }
}

impl<T> vstd::std_specs::convert::FromSpecImpl<&T> for NonNullMut<T> {
    open spec fn obeys_from_spec() -> bool {
        false
    }

    open spec fn from_spec(v: &T) -> Self {
        arbitrary()
    }
}

impl<T> From<&mut T> for NonNullMut<T> {
    /// The handle at the address of the referent; the lifetime is discarded,
    /// the address kept.  Which address a referent has is the machine's
    /// choice, so beyond thin-ness only non-zeroness is promised.
    fn from(r: &mut T) -> (h: Self)
        ensures
            h.metadata() == Metadata::Thin,
            h.address() != 0,
    {
        let addr = address_of(&*r);
        NonNullMut { addr, meta: Metadata::Thin, _marker: PhantomData }
    }
}

impl<T> vstd::std_specs::convert::FromSpecImpl<&mut T> for NonNullMut<T> {
    open spec fn obeys_from_spec() -> bool {
        false
    }

    open spec fn from_spec(v: &mut T) -> Self {
        arbitrary()
    }
}

impl<T> From<&[T]> for NonNullMut<[T]> {
    /// The handle at the address of the slice, carrying the slice's element
    /// count; the lifetime is discarded.  Which address a slice has is the
    /// machine's choice, so only the count and non-zeroness are promised.
    fn from(r: &[T]) -> (h: Self)
        ensures
            h.metadata() == Metadata::Length(r@.len() as usize),
            h.address() != 0,
    {
        let len = r.len();
        let addr = address_of(r);
        NonNullMut { addr, meta: Metadata::Length(len), _marker: PhantomData }
    }
}

impl<T> vstd::std_specs::convert::FromSpecImpl<&[T]> for NonNullMut<[T]> {
    open spec fn obeys_from_spec() -> bool {
        false
    }

    open spec fn from_spec(v: &[T]) -> Self {
        arbitrary()
    }
}

impl<T> From<&mut [T]> for NonNullMut<[T]> {
    /// The handle at the address of the slice, carrying the slice's element
    /// count; the lifetime is discarded.  Which address a slice has is the
    /// machine's choice, so only the count and non-zeroness are promised.
    fn from(r: &mut [T]) -> (h: Self)
        ensures
            h.metadata() == Metadata::Length(old(r)@.len() as usize),
            h.address() != 0,
    {
        let len = r.len();
        let addr = address_of(&*r);
        NonNullMut { addr, meta: Metadata::Length(len), _marker: PhantomData }
    }
}

impl<T> vstd::std_specs::convert::FromSpecImpl<&mut [T]> for NonNullMut<[T]> {
    open spec fn obeys_from_spec() -> bool {
        false
    }

    open spec fn from_spec(v: &mut [T]) -> Self {
        arbitrary()
    }
}

} // verus!
