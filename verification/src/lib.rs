//! `AsSlice` and `AsMutSlice` traits
//!
//! These traits are somewhat similar to `AsRef` and `AsMut` except that they
//! are **NOT** polymorphic (no input type parameter) and their methods always
//! return slices (`[T]`).
//!
//! The main use case of these traits is writing generic code that accepts
//! fixed size buffers: a bound `T: AsMutSlice<Element = u8>` accepts types
//! like `&'static mut [u8]` and `&'static mut [u8; 128]`.
//!
//! Each implementer carries a mathematical model of its contents, the
//! specification-level sequence [`AsSlice::contents`]. Both view operations
//! are contracted against that model: the immutable view holds exactly the
//! contents, and the mutable view writes through to them, so the two views
//! always agree on length, order and elements.

use vstd::prelude::*;

pub mod laws;

verus! {

broadcast use vstd::array::group_array_axioms;

/// Something that can be seen as an immutable slice
///
/// **NOTE**: This trait is implemented for bare slices (`[T]`), for arrays
/// (`[T; N]`) of every length, and for shared and mutable references to any
/// implementer (forwarding by delegation).
pub trait AsSlice {
    /// The element type of the slice view
    type Element;

    /// The model of `Self`: the sequence of elements that the slice views
    /// expose, in order
    spec fn contents(&self) -> Seq<Self::Element>;

    /// Returns the immutable slice view of `Self`
    ///
    /// The operation is total and infallible: it never mutates `self` (it
    /// borrows it immutably) and always returns a fully formed view of the
    /// entire contents, the zero-length case included.
    fn as_slice(&self) -> (r: &[Self::Element])
        ensures
            r@ == self.contents(),
    ;
}

/// Something that can be seen as a mutable slice
///
/// This capability refines [`AsSlice`]: a type may only be viewed mutably if
/// it can also be viewed immutably, and both views cover the same elements in
/// the same order.
///
/// **NOTE**: This trait is implemented for bare slices (`[T]`), for arrays
/// (`[T; N]`) of every length, and for mutable references to any implementer
/// (forwarding by delegation).
pub trait AsMutSlice: AsSlice {
    /// Returns the mutable slice view of `Self`
    ///
    /// The view starts out holding exactly the current contents, and every
    /// write made through it is reflected in the contents once the borrow
    /// ends: the mutable view aliases the full logical content, never a
    /// different subrange.
    fn as_mut_slice(&mut self) -> (r: &mut [Self::Element])
        ensures
            r@ == old(self).contents(),
            (*final(self)).contents() == final(r)@,
    ;
}

impl<T> AsSlice for [T] {
    type Element = T;

    open spec fn contents(&self) -> Seq<T> {
        self@
    }

    fn as_slice(&self) -> (r: &[T]) {
        self
    }
}

impl<T> AsMutSlice for [T] {
    fn as_mut_slice(&mut self) -> (r: &mut [T]) {
        self
    }
}

impl<T, const N: usize> AsSlice for [T; N] {
    type Element = T;

    open spec fn contents(&self) -> Seq<T> {
        self@
    }

    fn as_slice(&self) -> (r: &[T]) {
        self
    }
}

impl<T, const N: usize> AsMutSlice for [T; N] {
    fn as_mut_slice(&mut self) -> (r: &mut [T]) {
        self
    }
}

impl<'a, S> AsSlice for &'a S where S: ?Sized + AsSlice {
    type Element = S::Element;

    open spec fn contents(&self) -> Seq<S::Element> {
        (**self).contents()
    }

    fn as_slice(&self) -> (r: &[S::Element]) {
        (**self).as_slice()
    }
}

impl<'a, S> AsSlice for &'a mut S where S: ?Sized + AsSlice {
    type Element = S::Element;

    open spec fn contents(&self) -> Seq<S::Element> {
        (**self).contents()
    }

    fn as_slice(&self) -> (r: &[S::Element]) {
        (**self).as_slice()
    }
}

impl<'a, S> AsMutSlice for &'a mut S where S: ?Sized + AsMutSlice {
    /// Beyond the trait contract: forwarding hands back the same underlying
    /// reference, so the referent seen before the call is the one whose final
    /// value the caller observes.
    fn as_mut_slice(&mut self) -> (r: &mut [S::Element])
        ensures
            (*final(*old(self))).contents() == (*final(*final(self))).contents(),
    {
        (**self).as_mut_slice()
    }
}

} // verus!
