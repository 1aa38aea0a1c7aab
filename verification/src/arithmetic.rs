//! The arithmetic unit: addition, subtraction, multiplication and division of
//! single-precision numbers, as the caller supplies them.
//!
//! The library decides and combines; it does not round. Every function that
//! has to add or multiply takes the unit as an argument and states its result
//! by what the unit answered.

use vstd::prelude::*;
use crate::single::Single;

verus! {

/// One of the four operations of the arithmetic unit.
#[derive(Clone, Copy, Debug, PartialEq, Eq, Structural)]
pub enum Op {
    Add,
    Sub,
    Mul,
    Div,
}

/// `unit` answers every request.
#[verifier::inline]
pub open spec fn total<F: Fn(Op, Single, Single) -> Single>(unit: &F) -> bool {
    forall|op: Op, a: Single, b: Single| call_requires(*unit, (op, a, b))
}

/// `r` is an answer of `unit` to `a op b`.
#[verifier::inline]
pub open spec fn gives<F: Fn(Op, Single, Single) -> Single>(
    unit: &F,
    op: Op,
    a: Single,
    b: Single,
    r: Single,
) -> bool {
    call_ensures(*unit, (op, a, b), r)
}

/// `unit` answers the same request the same way each time.
pub open spec fn functional<F: Fn(Op, Single, Single) -> Single>(unit: &F) -> bool {
    forall|op: Op, a: Single, b: Single, r: Single, s: Single|
        call_ensures(*unit, (op, a, b), r) && call_ensures(*unit, (op, a, b), s) ==> r == s
}

} // verus!
