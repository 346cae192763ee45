//! The result-code translation of the dispatch bridge.
//!
//! The engine calls the medium through a fixed table of three function
//! pointers whose calling convention carries no structured error: a medium
//! outcome becomes a two-state code (zero success, negative failure), and on
//! the way back into the engine a code becomes the engine's status for the
//! operation that failed. The trampolines themselves cross an untyped
//! boundary and live outside this crate; the translation they apply is
//! stated and verified here.

use vstd::prelude::*;

verus! {

use crate::error::{FDB_ERASE_ERR, FDB_NO_ERR, FDB_READ_ERR, FDB_WRITE_ERR};

/// The three operations of the medium contract the bridge dispatches.
#[derive(Clone, Copy, Debug, PartialEq, Eq, Structural)]
pub enum MediumOp {
    Read,
    Write,
    Erase,
}

/// The engine status code reporting a failure of the given operation.
pub open spec fn spec_op_error_code(op: MediumOp) -> u32 {
    match op {
        MediumOp::Read => FDB_READ_ERR,
        MediumOp::Write => FDB_WRITE_ERR,
        MediumOp::Erase => FDB_ERASE_ERR,
    }
}

/// Encodes a medium outcome for the function-pointer convention: zero for
/// success, a negative code for failure.
pub fn vtable_result_code(ok: bool) -> (r: i32)
    ensures
        ok ==> r == 0,
        !ok ==> r == -1,
{
    if ok {
        0
    } else {
        -1
    }
}

/// Translates a function-pointer result code into the engine's status for
/// the dispatched operation: zero stays success, anything else becomes the
/// operation's failure code.
pub fn dispatch_status(code: i32, op: MediumOp) -> (r: u32)
    ensures
        code == 0 ==> r == FDB_NO_ERR,
        code != 0 ==> r == spec_op_error_code(op),
{
    if code == 0 {
        FDB_NO_ERR
    } else {
        match op {
            MediumOp::Read => FDB_READ_ERR,
            MediumOp::Write => FDB_WRITE_ERR,
            MediumOp::Erase => FDB_ERASE_ERR,
        }
    }
}

} // verus!
