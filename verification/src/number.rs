//! Numbers as the service passes them on.

use vstd::prelude::*;

verus! {

/// A number carried without arithmetic: an exact integer, or a binary64
/// floating-point value given by its bit pattern.
#[derive(Debug, Clone, Copy, PartialEq, Eq, Structural)]
pub enum Number {
    Integer(i128),
    Real(u64),
}

} // verus!
