//! The error taxonomy of the library and the single place where a numeric
//! status of the subsystem is translated into it.
use vstd::prelude::*;

verus! {

/// What went wrong with one pool, one discovered entry, or a traversal.
#[derive(Clone, Copy, Debug, PartialEq, Eq, Structural)]
pub enum ZfsError {
    /// The subsystem answered with a nonzero, OS-style status code.
    Io(i32),
    /// A discovered entry held no usable configuration description.
    Malformed,
}

/// The result that a subsystem status stands for: zero is success, any
/// other value is an I/O error carrying that code.
pub open spec fn status_meaning(code: i32) -> Result<(), ZfsError> {
    if code == 0 {
        Ok(())
    } else {
        Err(ZfsError::Io(code))
    }
}

/// Translates a status code returned by the subsystem.
pub fn status_to_result(code: i32) -> (r: Result<(), ZfsError>)
    ensures
        r == status_meaning(code),
        r is Ok <==> code == 0,
{
    if code == 0 {
        Ok(())
    } else {
        Err(ZfsError::Io(code))
    }
}

} // verus!
