use vstd::prelude::*;

verus! {

/// A wrapper around a process ID.
#[derive(Debug, Clone, Copy, PartialEq, Eq, Structural)]
pub struct Pid(pub u32);

/// A wrapper around a file descriptor.
#[derive(Debug, Clone, Copy, PartialEq, Eq, Structural)]
pub struct Fd(pub i32);

/// A wrapper around a Mach fileport.
#[derive(Debug, Clone, Copy, PartialEq, Eq, Structural)]
pub struct FilePort(pub u32);

} // verus!
