use vstd::prelude::*;

verus! {

/// An error that occurs when an unexpected value is encountered inside a record.
#[derive(Debug, Clone, Copy, PartialEq, Eq, Structural)]
pub enum ValueError {
    /// A tag field holds a value outside the known set.
    UnexpectedEnumValue,
    /// A text field does not hold valid UTF-8.
    InvalidString,
}

/// An error of a query against the kernel.
#[derive(Debug, Clone, Copy, PartialEq, Eq, Structural)]
pub enum QueryError {
    /// The call failed; the payload is the error number that the OS reported.
    OsError(i32),
    /// The kernel reported a byte count that fits neither the record layout
    /// nor the buffer that was handed to it.
    MalformedResponse,
}

} // verus!
