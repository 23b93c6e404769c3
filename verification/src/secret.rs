//! A fixed-size container for secret bytes that clears them when dropped.

use vstd::prelude::*;
use vstd::std_specs::cmp::{PartialEqSpec, PartialEqSpecImpl};

verus! {

/// Trusted: std's `TryFrom<&[u8]>` for `&[u8; N]`, which succeeds exactly
/// when the slice holds `N` elements and then views the same bytes.
#[verifier::external_body]
fn slice_as_array<const N: usize>(s: &[u8]) -> (r: Option<&[u8; N]>)
    ensures
        r is Some <==> s@.len() == N,
        r matches Some(a) ==> a@ == s@,
{
    <&[u8; N]>::try_from(s).ok()
}

/// Container for secrets that clears them on drop.
///
/// Using this in our code at least reduces the number of secrets that are
/// left lying around in memory.
pub struct Secret<const L: usize>(pub [u8; L]);

impl<const L: usize> Secret<L> {
    /// The secret's bytes as a sequence.
    pub open spec fn bytes(&self) -> Seq<u8> {
        self.0@
    }

    /// A secret of `L` zero bytes.
    pub fn new() -> (s: Self)
        ensures
            s.bytes() == Seq::new(L as nat, |i: int| 0u8),
    {
        let s = Self([0u8; L]);
        assert(s.bytes() =~= Seq::new(L as nat, |i: int| 0u8));
        s
    }

    /// Copy bytes into a secret; `b` must hold exactly `L` bytes.
    pub fn from_bytes(b: &[u8]) -> (s: Self)
        requires
            b@.len() == L,
        ensures
            s.bytes() == b@,
    {
        let mut a = [0u8; L];
        let mut i: usize = 0;
        while i < L
            invariant
                i <= L,
                b@.len() == L,
                forall|j: int| 0 <= j < i ==> a@[j] == b@[j],
            decreases L - i,
        {
            a[i] = b[i];
            i = i + 1;
        }
        assert(a@ =~= b@);
        Self(a)
    }

    /// The secret's bytes.
    pub fn as_bytes(&self) -> (r: &[u8; L])
        ensures
            r@ == self.bytes(),
    {
        &self.0
    }

    /// The first `N` bytes of the secret; `N` may not exceed `L`.
    pub fn first_n<const N: usize>(&self) -> (r: &[u8; N])
        requires
            N <= L,
        ensures
            r@ == self.bytes().subrange(0, N as int),
    {
        let prefix: &[u8] = &self.0[0..N];
        slice_as_array::<N>(prefix).unwrap()
    }

    /// A new secret holding a copy of the first `N` bytes of this one; `N`
    /// may not exceed `L`.
    pub fn first_n_clone<const N: usize>(&self) -> (r: Secret<N>)
        requires
            N <= L,
        ensures
            r.bytes() == self.bytes().subrange(0, N as int),
    {
        Secret::<N>(*self.first_n::<N>())
    }
}

/// Taking the first `M` bytes of the first `N` bytes of a secret gives the
/// first `M` bytes of the secret itself.
pub proof fn lemma_first_n_of_first_n<const L: usize, const N: usize, const M: usize>(
    s: Secret<L>,
    t: Secret<N>,
)
    requires
        M <= N <= L,
        t.bytes() == s.bytes().subrange(0, N as int),
    ensures
        t.bytes().subrange(0, M as int) == s.bytes().subrange(0, M as int),
{
    assert(t.bytes().subrange(0, M as int) =~= s.bytes().subrange(0, M as int));
}

/// The first `L` bytes of a secret of `L` bytes are the whole secret.
pub proof fn lemma_first_n_whole<const L: usize>(s: Secret<L>)
    ensures
        s.bytes().subrange(0, L as int) == s.bytes(),
{
    assert(s.bytes().subrange(0, L as int) =~= s.bytes());
}

/// Two secrets compare equal exactly when they hold the same bytes, so a
/// secret equals itself and its clone.
pub proof fn lemma_eq_is_byte_equality<const L: usize>(a: Secret<L>, b: Secret<L>)
    ensures
        PartialEqSpec::eq_spec(&a, &b) <==> a.bytes() == b.bytes(),
        PartialEqSpec::eq_spec(&a, &a),
{
}

impl<const L: usize> Default for Secret<L> {
    /// A secret of `L` zero bytes, as `new` gives.
    fn default() -> (s: Self)
        ensures
            s.bytes() == Seq::new(L as nat, |i: int| 0u8),
    {
        Self::new()
    }
}

impl<const L: usize> Clone for Secret<L> {
    fn clone(&self) -> (s: Self)
        ensures
            s.bytes() == self.bytes(),
    {
        Secret(self.0)
    }
}

impl<const L: usize> PartialEq for Secret<L> {
    fn eq(&self, other: &Self) -> (r: bool) {
        let mut i: usize = 0;
        while i < L
            invariant
                i <= L,
                forall|j: int| 0 <= j < i ==> self.0@[j] == other.0@[j],
            decreases L - i,
        {
            if self.0[i] != other.0[i] {
                return false;
            }
            i = i + 1;
        }
        assert(self.0@ =~= other.0@);
        true
    }
}

impl<const L: usize> PartialEqSpecImpl for Secret<L> {
    open spec fn obeys_eq_spec() -> bool {
        true
    }

    open spec fn eq_spec(&self, other: &Self) -> bool {
        self.bytes() == other.bytes()
    }
}

impl<const L: usize> Eq for Secret<L> {
}

impl<const L: usize> AsRef<[u8]> for Secret<L> {
    fn as_ref(&self) -> (r: &[u8])
        ensures
            self.bytes() == <[u8] as View>::view(r),
    {
        &self.0
    }
}

impl<const L: usize> AsRef<[u8; L]> for Secret<L> {
    fn as_ref(&self) -> (r: &[u8; L])
        ensures
            self.bytes() == <[u8; L] as View>::view(r),
    {
        &self.0
    }
}

impl<const L: usize> AsMut<[u8]> for Secret<L> {
    fn as_mut(&mut self) -> (r: &mut [u8])
        ensures
            old(self).bytes() == <[u8] as View>::view(&*r),
            final(self).bytes() == <[u8] as View>::view(&*final(r)),
    {
        &mut self.0
    }
}

impl<const L: usize> AsMut<[u8; L]> for Secret<L> {
    fn as_mut(&mut self) -> (r: &mut [u8; L])
        ensures
            old(self).bytes() == <[u8; L] as View>::view(&*r),
            final(self).bytes() == <[u8; L] as View>::view(&*final(r)),
    {
        &mut self.0
    }
}

/// Trusted: std's `hint::black_box`, which hands the bytes to the optimizer
/// as if something read them, so that the stores that cleared them are
/// kept; it returns without panicking.
#[verifier::external_body]
fn keep_cleared<const L: usize>(b: &[u8; L])
    opens_invariants none
    no_unwind
{
    std::hint::black_box(b);
}

impl<const L: usize> Drop for Secret<L> {
    fn drop(&mut self)
        ensures
            final(self).bytes() == Seq::new(L as nat, |i: int| 0u8),
        opens_invariants none
        no_unwind
    {
        let mut i: usize = 0;
        while i < L
            invariant
                i <= L,
                forall|j: int| 0 <= j < i ==> self.0@[j] == 0u8,
            decreases L - i,
        {
            self.0[i] = 0;
            i = i + 1;
        }
        keep_cleared(&self.0);
        assert(self.bytes() =~= Seq::new(L as nat, |i: int| 0u8));
    }
}

} // verus!
