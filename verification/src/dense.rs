//! The dense vectors that hold the Jacobian rows and the velocities of
//! bodies in reduced coordinates.

use vstd::prelude::*;
use crate::fixed::Real;

verus! {

/// A dense column vector of fixed-point numbers, kept in a dynamically
/// sized vector of the linear-algebra library.
#[verifier::external_body]
pub struct DenseVector {
    inner: nalgebra::DVector<Real>,
}

/// The entries of a dense vector, from the first to the last.
pub uninterp spec fn dense_contents(v: DenseVector) -> Seq<Real>;

impl View for DenseVector {
    type V = Seq<Real>;

    open spec fn view(&self) -> Seq<Real> {
        dense_contents(*self)
    }
}

/// Calls `DVector::from_vec`, which builds the column vector whose rows are
/// the entries of `entries` in order.
#[verifier::external_body]
pub(crate) fn dense_from_vec(entries: Vec<Real>) -> (v: DenseVector)
    ensures
        dense_contents(v) == entries@,
{
    DenseVector { inner: nalgebra::DVector::from_vec(entries) }
}

/// Calls `Matrix::as_slice`, which for a column vector gives its rows in
/// order, and copies them.
#[verifier::external_body]
pub(crate) fn dense_to_vec(v: &DenseVector) -> (entries: Vec<Real>)
    ensures
        entries@ == dense_contents(*v),
{
    v.inner.as_slice().to_vec()
}

/// Calls `Matrix::len`, the number of entries, which for a column vector is
/// its number of rows.
#[verifier::external_body]
pub(crate) fn dense_len(v: &DenseVector) -> (n: usize)
    ensures
        n == dense_contents(*v).len(),
{
    v.inner.len()
}

/// Calls the indexing of `Matrix` by one number, which gives the entry at
/// that place and panics beyond the last entry.
#[verifier::external_body]
pub(crate) fn dense_get(v: &DenseVector, i: usize) -> (x: Real)
    requires
        i < dense_contents(*v).len(),
    ensures
        x == dense_contents(*v)[i as int],
{
    v.inner[i]
}

/// Calls the mutable indexing of `Matrix` by one number and stores `x`
/// there; it panics beyond the last entry, and no other entry changes.
#[verifier::external_body]
pub(crate) fn dense_set(v: &mut DenseVector, i: usize, x: Real)
    requires
        i < dense_contents(*old(v)).len(),
    ensures
        dense_contents(*final(v)) == dense_contents(*old(v)).update(i as int, x),
{
    v.inner[i] = x;
}

impl DenseVector {
    /// The vector with the entries of `entries` in order.
    pub fn from_vec(entries: Vec<Real>) -> (v: DenseVector)
        ensures
            v@ == entries@,
    {
        dense_from_vec(entries)
    }

    /// The entries in order.
    pub fn to_vec(&self) -> (entries: Vec<Real>)
        ensures
            entries@ == self@,
    {
        dense_to_vec(self)
    }

    /// Number of entries.
    pub fn len(&self) -> (n: usize)
        ensures
            n == self@.len(),
    {
        dense_len(self)
    }

    /// The entry at `i`, if there is one.
    pub fn get(&self, i: usize) -> (x: Option<Real>)
        ensures
            i < self@.len() ==> x == Some(self@[i as int]),
            i >= self@.len() ==> x.is_none(),
    {
        if i < dense_len(self) {
            Some(dense_get(self, i))
        } else {
            None
        }
    }

    /// Stores `x` at `i` and tells whether there is such an entry; where
    /// there is none, nothing changes.
    pub fn set(&mut self, i: usize, x: Real) -> (stored: bool)
        ensures
            stored == (i < old(self)@.len()),
            stored ==> final(self)@ == old(self)@.update(i as int, x),
            !stored ==> final(self)@ == old(self)@,
    {
        if i < dense_len(self) {
            dense_set(self, i, x);
            true
        } else {
            false
        }
    }
}

} // verus!
