//! A hash of a value of logical type `T`, stored as the bit pattern of a
//! normal, finite, non-zero double.
use std::borrow::Borrow;
use std::hash::Hash;
use std::hash::Hasher;
use std::marker::PhantomData;
use vstd::prelude::*;
use vstd::std_specs::cmp::PartialEqSpec;

use crate::bits::{hash_63_bits, is_normal_bits, safe_bits};

verus! {

#[verifier::external_type_specification]
#[verifier::external_body]
#[verifier::reject_recursive_types(T)]
#[verifier::reject_recursive_types(H)]
pub struct ExHashOf<T, H: Hasher>(hash_of::HashOf<T, H>);

/// Relies on hash_of's `HashOf::to_inner`, which hands back the 64-bit hash
/// stored in the value. No spec function may range over the generic
/// `HashOf<T>`, so callers speak of the result through `call_ensures`.
pub assume_specification<T>[ hash_of::HashOf::<T>::to_inner ](
    h: hash_of::HashOf<T>,
) -> u64;

/// Relies on hash_of's `From<&T> for HashOf<Q, H>`, which feeds `value` to a
/// fresh hasher of type `H` and keeps what `finish` returns. The standard
/// library leaves `DefaultHasher`'s algorithm unspecified, so nothing is
/// stated of the result.
pub assume_specification<'a, T: Hash + ?Sized, Q: Borrow<T>, H: Hasher + Default>[ <hash_of::HashOf<Q, H> as From<&'a T>>::from ](
    value: &T,
) -> hash_of::HashOf<Q, H>;

/// A hash of some value of logical type `T`, re-encoded so that its bits read
/// as a normal, finite, non-zero double. `T` is a tag only: no `T` is owned,
/// stored or built.
#[derive(Debug, Hash)]
pub struct FloatHashOf<T> {
    hash: u64,
    _marker: PhantomData<T>,
}

impl<T> View for FloatHashOf<T> {
    type V = u64;

    /// The stored bit pattern.
    closed spec fn view(&self) -> u64 {
        self.hash
    }
}

impl<T> FloatHashOf<T> {
    /// The stored pattern always reads as a normal, finite, non-zero double;
    /// in particular it is never all zero.
    #[verifier::type_invariant]
    closed spec fn inv(&self) -> bool {
        is_normal_bits(self.hash) && self.hash != 0
    }

    /// Wraps an already computed 64-bit hash of a value of type `T`.
    pub fn from_u64(hash: u64) -> (r: Self)
        ensures
            r@ == safe_bits(hash),
    {
        let bits = hash_63_bits(hash);
        FloatHashOf { hash: bits, _marker: PhantomData }
    }

    /// The stored bit pattern: `f64::from_bits` of it is the double key.
    pub fn bits(&self) -> (r: u64)
        ensures
            r == self@,
            r != 0,
            is_normal_bits(r),
    {
        proof {
            use_type_invariant(self);
        }
        self.hash
    }
}

impl<T> Clone for FloatHashOf<T> {
    fn clone(&self) -> (r: Self)
        ensures
            r == *self,
    {
        *self
    }
}

impl<T> Copy for FloatHashOf<T> {

}

impl<T> PartialEq for FloatHashOf<T> {
    /// Compares the stored bit patterns, not their values as doubles.
    fn eq(&self, other: &Self) -> (r: bool) {
        self.hash == other.hash
    }
}

impl<T> vstd::std_specs::cmp::PartialEqSpecImpl for FloatHashOf<T> {
    open spec fn obeys_eq_spec() -> bool {
        true
    }

    open spec fn eq_spec(&self, other: &Self) -> bool {
        self@ == other@
    }
}

impl<T> Eq for FloatHashOf<T> {

}

impl<T> From<hash_of::HashOf<T>> for FloatHashOf<T> {
    /// Re-encodes the hash that `hash` holds.
    fn from(hash: hash_of::HashOf<T>) -> (r: Self)
        ensures
            exists|h: u64|
                call_ensures(hash_of::HashOf::<T>::to_inner, (hash,), h) && r@ == safe_bits(h),
            r@ != 0,
            is_normal_bits(r@),
    {
        let h = hash.to_inner();
        proof {
            crate::bits::lemma_result_is_normal(h);
        }
        Self::from_u64(h)
    }
}

impl<T> vstd::std_specs::convert::FromSpecImpl<hash_of::HashOf<T>> for FloatHashOf<T> {
    open spec fn obeys_from_spec() -> bool {
        false
    }

    open spec fn from_spec(v: hash_of::HashOf<T>) -> Self {
        arbitrary()
    }
}

impl<'a, T: Hash + ?Sized, Q: Borrow<T>> From<&'a T> for FloatHashOf<Q> {
    /// Hashes `value` as a `Q` would hash (the two agree through `Borrow`),
    /// then re-encodes that hash.
    fn from(value: &'a T) -> (r: Self)
        ensures
            exists|hh: hash_of::HashOf<Q>, h: u64|
                call_ensures(<hash_of::HashOf<Q> as From<&'a T>>::from, (value,), hh)
                    && call_ensures(hash_of::HashOf::<Q>::to_inner, (hh,), h) && r@ == safe_bits(h),
            r@ != 0,
            is_normal_bits(r@),
    {
        let hash = hash_of::HashOf::<Q>::from(value);
        Self::from(hash)
    }
}

impl<'a, T: Hash + ?Sized, Q: Borrow<T>> vstd::std_specs::convert::FromSpecImpl<&'a T> for FloatHashOf<Q> {
    open spec fn obeys_from_spec() -> bool {
        false
    }

    open spec fn from_spec(v: &'a T) -> Self {
        arbitrary()
    }
}

/// Two wrappers compare equal exactly when they are the same value, that is
/// when their stored bit patterns agree; for wrappers made from the hashes
/// `h1` and `h2`, exactly when the transform gives both the same pattern.
pub proof fn lemma_equal_iff_same_bits<T>(a: FloatHashOf<T>, b: FloatHashOf<T>, h1: u64, h2: u64)
    requires
        a@ == safe_bits(h1),
        b@ == safe_bits(h2),
    ensures
        a.eq_spec(&b) <==> a == b,
        a.eq_spec(&b) <==> safe_bits(h1) == safe_bits(h2),
{
}

} // verus!
