use nonnull_mut::Metadata;
use nonnull_mut::NonNullMut;
use std::hash::Hash;
use std::hash::Hasher;

#[test]
fn new_rejects_zero() {
    assert!(NonNullMut::<u32>::new(0).is_none());
}

#[test]
fn new_wraps_nonzero() {
    let h = NonNullMut::<u32>::new(0x1000).expect("non-zero address");
    assert_eq!(h.addr(), 0x1000);
    assert_eq!(h.as_ptr(), 0x1000);
    assert_eq!(h.as_inner(), 0x1000);
}

#[test]
fn new_unchecked_wraps() {
    let h = NonNullMut::<u32>::new_unchecked(0x2000);
    assert_eq!(h.addr(), 0x2000);
}

#[test]
fn from_inner_wraps() {
    let h = NonNullMut::<u32>::from_inner(0x3000);
    assert_eq!(h.as_inner(), 0x3000);
}

#[test]
fn dangling_is_aligned_and_nonzero() {
    let h = NonNullMut::<u32>::dangling();
    assert_eq!(h.addr(), core::mem::align_of::<u32>());
    assert!(h.addr() != 0);
    assert!(h.is_aligned());

    let h = NonNullMut::<u64>::dangling();
    assert_eq!(h.addr(), core::mem::align_of::<u64>());
    assert!(h.is_aligned());

    let h = NonNullMut::<u8>::dangling();
    assert_eq!(h.addr(), 1);
}

#[test]
fn with_addr_replaces_address() {
    let h = NonNullMut::<u32>::new(0x1000).unwrap();
    let g = h.with_addr(0x2468);
    assert_eq!(g.addr(), 0x2468);
}

#[test]
fn map_addr_applies_transformation() {
    let h = NonNullMut::<u32>::new(0x1000).unwrap();
    let g = h.map_addr(|a| a + 4);
    assert_eq!(g.addr(), 0x1004);
}

#[test]
fn cast_keeps_address() {
    let h = NonNullMut::<u32>::new(0x1000).unwrap();
    let g: NonNullMut<u8> = h.cast();
    assert_eq!(g.addr(), 0x1000);
}

#[test]
fn from_shared_reference_keeps_address() {
    let x = 7u32;
    let expected = core::ptr::from_ref(&x).addr();
    let h = NonNullMut::from(&x);
    assert_eq!(h.as_ptr(), expected);
}

#[test]
fn from_mutable_reference_keeps_address() {
    let mut x = 7u32;
    let expected = core::ptr::from_mut(&mut x).addr();
    let h = NonNullMut::from(&mut x);
    assert_eq!(h.as_ptr(), expected);
}

#[test]
fn equality_is_address_identity() {
    let h1 = NonNullMut::<u32>::new(0x10).unwrap();
    let h2 = NonNullMut::<u32>::new(0x10).unwrap();
    let h3 = NonNullMut::<u32>::new(0x20).unwrap();
    assert!(h1 == h2);
    assert!(h1 != h3);
    assert_eq!(h1.as_ptr() == h2.as_ptr(), h1 == h2);
    assert_eq!(h1.as_ptr() == h3.as_ptr(), h1 == h3);
}

#[test]
fn ordering_matches_address_order() {
    let h1 = NonNullMut::<u32>::new(0x10).unwrap();
    let h2 = NonNullMut::<u32>::new(0x10).unwrap();
    let h3 = NonNullMut::<u32>::new(0x20).unwrap();
    assert!(h1 < h3);
    assert!(h3 > h1);
    assert_eq!(h1.partial_cmp(&h2), Some(core::cmp::Ordering::Equal));
    assert_eq!(h1.partial_cmp(&h3), Some(core::cmp::Ordering::Less));
    assert_eq!(h3.partial_cmp(&h1), Some(core::cmp::Ordering::Greater));
}

#[test]
fn equal_handles_hash_identically() {
    let h1 = NonNullMut::<u32>::new(0x1234).unwrap();
    let h2 = NonNullMut::<u32>::new(0x1234).unwrap();
    let mut s1 = std::hash::DefaultHasher::new();
    let mut s2 = std::hash::DefaultHasher::new();
    h1.hash(&mut s1);
    h2.hash(&mut s2);
    assert_eq!(s1.finish(), s2.finish());
}

#[test]
fn clone_is_the_same_handle() {
    let h = NonNullMut::<u32>::new(0x1000).unwrap();
    let g = h.clone();
    assert!(g == h);
    assert_eq!(g.addr(), 0x1000);
}

#[test]
fn slice_handles_compare_by_address_and_length() {
    let base = NonNullMut::<u32>::new(0x1000).unwrap();
    let s1 = NonNullMut::<[u32]>::slice_from_raw_parts(base, 1);
    let s2 = NonNullMut::<[u32]>::slice_from_raw_parts(base, 2);
    let s3 = NonNullMut::<[u32]>::slice_from_raw_parts(base, 1);
    assert!(s1 != s2);
    assert!(s1 == s3);
    assert!(s1 < s2);
    assert_eq!(s1.as_ptr(), s2.as_ptr());
    assert_eq!(s1 == s2, s1.as_ptr() == s2.as_ptr() && s1.len() == s2.len());
    assert_eq!(s1 == s3, s1.as_ptr() == s3.as_ptr() && s1.len() == s3.len());
}

#[test]
fn from_slice_reference_keeps_address_and_length() {
    let v = [1u32, 2, 3];
    let expected = core::ptr::from_ref(&v[..]).addr();
    let h = NonNullMut::<[u32]>::from(&v[..]);
    assert_eq!(h.as_ptr(), expected);
    assert_eq!(h.len(), 3);
    assert!(!h.is_empty());
}

#[test]
fn from_mutable_slice_reference_keeps_address_and_length() {
    let mut v = [1u8, 2];
    let expected = core::ptr::from_mut(&mut v[..]).addr();
    let h = NonNullMut::<[u8]>::from(&mut v[..]);
    assert_eq!(h.as_ptr(), expected);
    assert_eq!(h.len(), 2);
}

#[test]
fn metadata_values_compare() {
    assert_eq!(Metadata::Thin, Metadata::Thin);
    assert_ne!(Metadata::Thin, Metadata::Length(0));
    assert_eq!(Metadata::Length(3), Metadata::Length(3));
}
