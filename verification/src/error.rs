use vstd::prelude::*;

verus! {

/// Why running a program stopped before its end.
#[derive(Clone, Copy, Debug, PartialEq, Eq, Structural)]
pub enum RuntimeError {
    /// The program refers to a table entry, variable or function that does
    /// not exist, or to an array as a plain variable in a table it cannot be.
    MalformedProgram,
    /// A value of the wrong type reached an operation.
    TypeMismatch,
    /// A library function was called with the wrong number of arguments or
    /// with an argument it does not accept.
    InvalidArgument,
    /// Integer arithmetic overflowed, or a shift amount was out of range.
    IntegerOverflow,
    DivisionByZero,
    /// `Read` ran past the end of the data.
    OutOfData,
    /// An array element outside the array.
    IndexOutOfRange,
    /// An array with a negative number of elements.
    InvalidArraySize,
    /// A stack slot beyond the end of the stack.
    StackOverflow,
    /// Window input was queried while no window is open.
    NoWindow,
    /// The window could not be opened.
    WindowFailed,
    /// A buffer or image handle that is not in use, or a pixel outside the
    /// buffer.
    InvalidHandle,
    /// A statement the interpreter does not execute (`End`).
    UnsupportedStatement,
    /// The step budget given to the interpreter ran out.
    OutOfFuel,
}

} // verus!
