//! The errors of an invocation.

use vstd::prelude::*;

verus! {

/// A runtime fault that ends the invocation in which it happens.
#[derive(Clone, Copy, Debug, PartialEq, Eq, Structural)]
pub enum Trap {
    /// A memory or table access outside its bounds.
    OutOfBounds,
    /// An arithmetic fault, such as a division whose result does not fit.
    ArithmeticFault,
    /// The guest reached code marked unreachable.
    Unreachable,
    /// The invocation would have passed a limit set when the executor was
    /// made.
    ResourceLimitExceeded,
}

/// Why a host function failed.
#[derive(Clone, Copy, Debug, PartialEq, Eq, Structural)]
pub enum HostFuncError {
    /// A failure that the host function defines, with its code.
    User(u32),
    /// A failure of the runtime below the host function, with its code.
    Runtime(u32),
    /// The host function returned, but its results do not fit the result
    /// types that it was wrapped with.
    ResultMismatch,
}

/// Why an operation of this crate failed.
#[derive(Clone, Copy, Debug, PartialEq, Eq, Structural)]
pub enum ExecError {
    /// The executor could not be made from the configuration given.
    EngineInit,
    /// The arguments of a call do not fit the parameter types of the function,
    /// in number or in kind. Nothing has happened yet when this is returned.
    TypeMismatch,
    /// A function object and a signature do not fit: the signature is wider
    /// than a function object can carry, or raw arguments handed to a function
    /// object do not have its parameter types.
    SignatureMismatch,
    /// The invocation ended in a runtime fault.
    Trap(Trap),
    /// A host function called during the invocation failed; the cause is
    /// inside.
    HostFunction(HostFuncError),
    /// The suspended invocation was abandoned.
    Cancelled,
    /// The state of an asynchronous invocation does not allow the operation:
    /// a call was begun on a state that a call has used, or resumed on a state
    /// that holds no suspended call.
    AsyncMisuse,
}

} // verus!
