//! Complex vectors and matrices.
//!
//! State vectors, density matrices and noise operators are arrays of the
//! `ndarray` crate with complex entries of the `num_complex` crate. The library
//! stores them and hands them back; it never looks inside them. Verus cannot
//! take the array type itself, so each kind of array is held in a struct whose
//! inside Verus does not read.

use ndarray::{Array1, Array2};
use num_complex::Complex64;
use vstd::prelude::*;

verus! {

/// A vector of complex numbers: an `ndarray::Array1` of `num_complex::Complex64`.
/// To Verus it is one value without parts.
#[verifier::external_body]
#[derive(Debug, PartialEq)]
pub struct ComplexVector {
    /// The array itself.
    pub array: Array1<Complex64>,
}

/// A matrix of complex numbers: an `ndarray::Array2` of `num_complex::Complex64`.
/// To Verus it is one value without parts.
#[verifier::external_body]
#[derive(Debug, PartialEq)]
pub struct ComplexMatrix {
    /// The array itself.
    pub array: Array2<Complex64>,
}

/// `ArrayBase::clone` on a complex vector: the copy is the same vector.
#[verifier::external_body]
fn copy_vector(vector: &ComplexVector) -> (r: ComplexVector)
    ensures
        r == *vector,
{
    ComplexVector { array: vector.array.clone() }
}

/// `ArrayBase::clone` on a complex matrix: the copy is the same matrix.
#[verifier::external_body]
fn copy_matrix(matrix: &ComplexMatrix) -> (r: ComplexMatrix)
    ensures
        r == *matrix,
{
    ComplexMatrix { array: matrix.array.clone() }
}

impl Clone for ComplexVector {
    /// A copy of the vector.
    fn clone(&self) -> (r: Self)
        ensures
            r == *self,
    {
        copy_vector(self)
    }
}

impl Clone for ComplexMatrix {
    /// A copy of the matrix.
    fn clone(&self) -> (r: Self)
        ensures
            r == *self,
    {
        copy_matrix(self)
    }
}

} // verus!
