//! Support for bindings to the CPython C API.
//!
//! The C API hands results back as plain `c_int` truth values, and its
//! type-check helpers come in two flavours: an exact check, which accepts an
//! object only when its type is the target type itself, and a subtype-aware
//! check, which also accepts instances of subtypes. The raw pointer layer
//! that reads object headers cannot be verified; the decisions it computes
//! with are stated and proved here on plain values.

use vstd::prelude::*;

verus! {

/// A truth value as the C API returns it: `1` for true, `0` for false.
pub open spec fn c_truth(b: bool) -> int {
    if b {
        1
    } else {
        0
    }
}

/// An opaque handle to a CPython memory arena. Arena values live inside the
/// runtime and are only ever reached through raw pointers; the type carries
/// no data of its own.
pub enum PyArena {
    Opaque,
}

/// The size request that asks a buffer to run to the end of its base object.
#[allow(non_upper_case_globals)]
pub const Py_END_OF_BUFFER: isize = -1;

/// The result of an exact type check: `1` exactly when the object's type is
/// the target type itself.
pub fn type_check_exact(same_type: bool) -> (r: i32)
    ensures
        r == c_truth(same_type),
{
    if same_type {
        1
    } else {
        0
    }
}

/// The result of a subtype-aware type check: `1` exactly when the object's
/// type is the target type itself or a subtype of it.
pub fn type_check(same_type: bool, is_subtype: bool) -> (r: i32)
    ensures
        r == c_truth(same_type || is_subtype),
{
    if same_type || is_subtype {
        1
    } else {
        0
    }
}

/// An object that passes the exact type check passes the subtype-aware check
/// for the same target type too, whatever the subtype relation says.
pub proof fn lemma_exact_check_implies_check(same_type: bool, is_subtype: bool)
    ensures
        c_truth(same_type) == 1 ==> c_truth(same_type || is_subtype) == 1,
{
}

} // verus!
