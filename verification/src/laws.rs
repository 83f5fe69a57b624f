//! General laws of the slice-view capabilities, stated over the model
//! [`AsSlice::contents`] and proved once for every implementer.

use vstd::prelude::*;

use crate::AsMutSlice;
use crate::AsSlice;

verus! {

broadcast use vstd::array::group_array_axioms;

/// Law: the read-only view of a bare slice is the slice itself, so the view's
/// length always equals the source's length.
pub proof fn lemma_slice_view_is_identity<T>(s: &[T])
    ensures
        s.contents() == s@,
        s.contents().len() == s@.len(),
{
}

/// Law: the read-only view of a fixed-length array of length `N` has length
/// exactly `N`, and its `i`-th element is the array's `i`-th element, for
/// every `i`.
pub proof fn lemma_array_view_exact<T, const N: usize>(a: &[T; N])
    ensures
        a.contents() == a@,
        a.contents().len() == N,
        forall|i: int| 0 <= i < N ==> a.contents()[i] == a@[i],
{
}

/// Law: a shared reference is viewed exactly as its referent — forwarding is
/// transparent: same length, same elements, same order.
pub proof fn lemma_ref_forwarding_transparent<'a, S: ?Sized + AsSlice>(r: &'a S)
    ensures
        <&'a S as AsSlice>::contents(&r) == r.contents(),
{
}

/// Law: forwarding the read-only operation through a mutable reference is
/// transparent — the forwarded view and the direct view hold the same
/// content, and taking them mutates nothing.
pub fn mut_ref_read_forwarding_agrees<'a, S: ?Sized + AsSlice>(s: &'a mut S) -> (views: (
    Ghost<Seq<S::Element>>,
    Ghost<Seq<S::Element>>,
))
    ensures
        views.0@ == views.1@,
        views.1@ == (*old(s)).contents(),
        (*final(s)).contents() == (*old(s)).contents(),
{
    let forwarded = <&'a mut S as AsSlice>::as_slice(&s);
    let ghost f = forwarded@;
    let direct = (*s).as_slice();
    let ghost d = direct@;
    (Ghost(f), Ghost(d))
}

/// Law: forwarding the mutable operation through a mutable reference writes
/// through to the referent — a subsequent read-only call, direct or
/// forwarded, observes the write.
pub fn mut_ref_write_forwarding_observed<'a, S: ?Sized + AsMutSlice>(
    s: &'a mut S,
    i: usize,
    v: S::Element,
)
    requires
        i < (*old(s)).contents().len(),
    ensures
        (*final(s)).contents() == (*old(s)).contents().update(i as int, v),
{
    let mut fwd = s;
    let m = <&'a mut S as AsMutSlice>::as_mut_slice(&mut fwd);
    m[i] = v;
}

/// Law: writing one position of the contents changes that position to the
/// written value and leaves every other position unchanged, and the length
/// does not change (write locality / no aliasing across positions).
pub proof fn lemma_write_locality<T>(c: Seq<T>, i: int, v: T)
    requires
        0 <= i < c.len(),
    ensures
        c.update(i, v).len() == c.len(),
        c.update(i, v)[i] == v,
        forall|j: int| 0 <= j < c.len() && j != i ==> c.update(i, v)[j] == c[j],
{
}

/// Law (round trip): writing `v` at position `i` through the mutable view and
/// then reading position `i` of the contents — which the read-only view
/// reports verbatim — returns exactly the value just written.
pub fn write_through_view<S: ?Sized + AsMutSlice>(s: &mut S, i: usize, v: S::Element)
    requires
        i < old(s).contents().len(),
    ensures
        (*final(s)).contents() == old(s).contents().update(i as int, v),
        (*final(s)).contents()[i as int] == v,
{
    let m = s.as_mut_slice();
    m[i] = v;
}

/// Reads position `i` of the read-only view; together with
/// [`write_through_view`] this closes the round trip at the executable level.
pub fn read_through_view<S: ?Sized + AsSlice>(s: &S, i: usize) -> (r: &S::Element)
    requires
        i < s.contents().len(),
    ensures
        *r == s.contents()[i as int],
{
    let v = s.as_slice();
    &v[i]
}

/// Law (idempotence): two consecutive read-only views, with no intervening
/// mutation, hold identical content.
pub fn consecutive_views_agree<S: ?Sized + AsSlice>(s: &S) -> (r: (&[S::Element], &[S::Element]))
    ensures
        r.0@ == r.1@,
        r.0@ == s.contents(),
{
    (s.as_slice(), s.as_slice())
}

} // verus!
