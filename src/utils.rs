//! Observations of mixed types, read back with a checked downcast.
use vstd::prelude::*;

verus! {

/// The four kinds of value that an observation can hold.
#[derive(PartialEq, Eq, Structural, Clone, Copy, Debug)]
pub enum Kind {
    Float,
    Int,
    FloatArray,
    IntArray,
}

/// One observation handed to a model: a real number, an integer, or a
/// sequence of either. `F` is the representation of real numbers.
#[derive(Debug)]
pub enum Data<F> {
    Float(F),
    Int(i32),
    FloatArray(Vec<F>),
    IntArray(Vec<i32>),
}

/// An observation was read as a kind that it does not hold.
#[derive(PartialEq, Eq, Structural, Clone, Copy, Debug)]
pub struct TypeMismatch {
    pub expected: Kind,
    pub found: Kind,
}

impl<F> Data<F> {
    /// The kind of value held.
    pub open spec fn kind_of(&self) -> Kind {
        match self {
            Data::Float(_) => Kind::Float,
            Data::Int(_) => Kind::Int,
            Data::FloatArray(_) => Kind::FloatArray,
            Data::IntArray(_) => Kind::IntArray,
        }
    }

    /// The error for reading this observation as `expected`.
    pub open spec fn mismatch(&self, expected: Kind) -> TypeMismatch {
        TypeMismatch { expected, found: self.kind_of() }
    }

    pub fn kind(&self) -> (r: Kind)
        ensures
            r == self.kind_of(),
    {
        match self {
            Data::Float(_) => Kind::Float,
            Data::Int(_) => Kind::Int,
            Data::FloatArray(_) => Kind::FloatArray,
            Data::IntArray(_) => Kind::IntArray,
        }
    }

    /// The real number held, or `TypeMismatch` if the observation holds another kind.
    pub fn unpack_float(&self) -> (r: Result<&F, TypeMismatch>)
        ensures
            match self {
                Data::Float(x) => r == Ok::<&F, TypeMismatch>(x),
                _ => r == Err::<&F, TypeMismatch>(self.mismatch(Kind::Float)),
            },
    {
        match self {
            Data::Float(x) => Ok(x),
            _ => Err(TypeMismatch { expected: Kind::Float, found: self.kind() }),
        }
    }

    /// The integer held, or `TypeMismatch` if the observation holds another kind.
    pub fn unpack_int(&self) -> (r: Result<&i32, TypeMismatch>)
        ensures
            match self {
                Data::Int(n) => r == Ok::<&i32, TypeMismatch>(n),
                _ => r == Err::<&i32, TypeMismatch>(self.mismatch(Kind::Int)),
            },
    {
        match self {
            Data::Int(n) => Ok(n),
            _ => Err(TypeMismatch { expected: Kind::Int, found: self.kind() }),
        }
    }

    /// The sequence of reals held, or `TypeMismatch` if the observation holds another kind.
    pub fn unpack_float_array(&self) -> (r: Result<&Vec<F>, TypeMismatch>)
        ensures
            match self {
                Data::FloatArray(xs) => r == Ok::<&Vec<F>, TypeMismatch>(xs),
                _ => r == Err::<&Vec<F>, TypeMismatch>(self.mismatch(Kind::FloatArray)),
            },
    {
        match self {
            Data::FloatArray(xs) => Ok(xs),
            _ => Err(TypeMismatch { expected: Kind::FloatArray, found: self.kind() }),
        }
    }

    /// The sequence of integers held, or `TypeMismatch` if the observation holds another kind.
    pub fn unpack_int_array(&self) -> (r: Result<&Vec<i32>, TypeMismatch>)
        ensures
            match self {
                Data::IntArray(ns) => r == Ok::<&Vec<i32>, TypeMismatch>(ns),
                _ => r == Err::<&Vec<i32>, TypeMismatch>(self.mismatch(Kind::IntArray)),
            },
    {
        match self {
            Data::IntArray(ns) => Ok(ns),
            _ => Err(TypeMismatch { expected: Kind::IntArray, found: self.kind() }),
        }
    }
}

} // verus!
