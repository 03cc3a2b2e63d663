//! The boundary contract: the operations that the host offers to the module,
//! each as the request that the module hands over, and the length of the
//! buffer in which the host answers.

use vstd::prelude::*;

verus! {

/// The length of every reply buffer: one tag byte and room for the longest
/// payload.
pub const SINGLE_VAL_VEC_LEN: usize = 9;

/// One crossing of the boundary, ready to be made. Each variant is one
/// operation of the host; `arg` and `args` hold encoded values, and the host
/// answers every one of them with a single-value reply buffer.
#[derive(Debug, PartialEq, Eq)]
pub enum HostCall<'a> {
    /// Fetch a named value from the host's global scope.
    GetGlobal { name: &'a str },
    /// Set a named member of the referenced object to one encoded value.
    SetVal { ref_id: u32, name: &'a str, arg: Vec<u8> },
    /// Invoke the referenced function without arguments.
    Call0 { ref_id: u32 },
    /// Invoke the referenced function with one encoded argument.
    Call1 { ref_id: u32, arg: Vec<u8> },
    /// Invoke the referenced function with `argc` encoded arguments, one
    /// behind the other in `args`.
    CallArgs { ref_id: u32, argc: u32, args: Vec<u8> },
    /// Invoke a named member of the referenced object without arguments.
    CallMethod0 { ref_id: u32, name: &'a str },
    /// Invoke a named member of the referenced object with one encoded
    /// argument.
    CallMethod1 { ref_id: u32, name: &'a str, arg: Vec<u8> },
    /// Invoke a named member of the referenced object with `argc` encoded
    /// arguments, one behind the other in `args`.
    CallMethodArgs { ref_id: u32, name: &'a str, argc: u32, args: Vec<u8> },
}

} // verus!
