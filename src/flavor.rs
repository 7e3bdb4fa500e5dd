use vstd::prelude::*;

verus! {

/// Selectors of the per-process entry point (`proc_pidinfo`), also used by
/// the list queries.
#[allow(non_camel_case_types)]
#[derive(Debug, Clone, Copy, PartialEq, Eq, Structural)]
pub enum ProcPidInfoFlavor {
    PROC_PIDLISTFDS,
    PROC_PIDTASKALLINFO,
    PROC_PIDTBSDINFO,
    PROC_PIDTASKINFO,
    PROC_PIDTHREADINFO,
    PROC_PIDLISTTHREADS,
    PROC_PIDREGIONINFO,
    PROC_PIDREGIONPATHINFO,
    PROC_PIDVNODEPATHINFO,
    PROC_PIDTHREADPATHINFO,
    PROC_PIDPATHINFO,
    PROC_PIDWORKQUEUEINFO,
    PROC_PIDT_SHORTBSDINFO,
    PROC_PIDLISTFILEPORTS,
    PROC_PIDTHREADID64INFO,
    PROC_PID_RUSAGE,
}

/// The number that the kernel expects for each per-process selector.
pub open spec fn pid_flavor_code(f: ProcPidInfoFlavor) -> i32 {
    match f {
        ProcPidInfoFlavor::PROC_PIDLISTFDS => 1,
        ProcPidInfoFlavor::PROC_PIDTASKALLINFO => 2,
        ProcPidInfoFlavor::PROC_PIDTBSDINFO => 3,
        ProcPidInfoFlavor::PROC_PIDTASKINFO => 4,
        ProcPidInfoFlavor::PROC_PIDTHREADINFO => 5,
        ProcPidInfoFlavor::PROC_PIDLISTTHREADS => 6,
        ProcPidInfoFlavor::PROC_PIDREGIONINFO => 7,
        ProcPidInfoFlavor::PROC_PIDREGIONPATHINFO => 8,
        ProcPidInfoFlavor::PROC_PIDVNODEPATHINFO => 9,
        ProcPidInfoFlavor::PROC_PIDTHREADPATHINFO => 10,
        ProcPidInfoFlavor::PROC_PIDPATHINFO => 11,
        ProcPidInfoFlavor::PROC_PIDWORKQUEUEINFO => 12,
        ProcPidInfoFlavor::PROC_PIDT_SHORTBSDINFO => 13,
        ProcPidInfoFlavor::PROC_PIDLISTFILEPORTS => 14,
        ProcPidInfoFlavor::PROC_PIDTHREADID64INFO => 15,
        ProcPidInfoFlavor::PROC_PID_RUSAGE => 16,
    }
}

impl ProcPidInfoFlavor {
    pub fn code(self) -> (r: i32)
        ensures
            r == pid_flavor_code(self),
    {
        match self {
            ProcPidInfoFlavor::PROC_PIDLISTFDS => 1,
            ProcPidInfoFlavor::PROC_PIDTASKALLINFO => 2,
            ProcPidInfoFlavor::PROC_PIDTBSDINFO => 3,
            ProcPidInfoFlavor::PROC_PIDTASKINFO => 4,
            ProcPidInfoFlavor::PROC_PIDTHREADINFO => 5,
            ProcPidInfoFlavor::PROC_PIDLISTTHREADS => 6,
            ProcPidInfoFlavor::PROC_PIDREGIONINFO => 7,
            ProcPidInfoFlavor::PROC_PIDREGIONPATHINFO => 8,
            ProcPidInfoFlavor::PROC_PIDVNODEPATHINFO => 9,
            ProcPidInfoFlavor::PROC_PIDTHREADPATHINFO => 10,
            ProcPidInfoFlavor::PROC_PIDPATHINFO => 11,
            ProcPidInfoFlavor::PROC_PIDWORKQUEUEINFO => 12,
            ProcPidInfoFlavor::PROC_PIDT_SHORTBSDINFO => 13,
            ProcPidInfoFlavor::PROC_PIDLISTFILEPORTS => 14,
            ProcPidInfoFlavor::PROC_PIDTHREADID64INFO => 15,
            ProcPidInfoFlavor::PROC_PID_RUSAGE => 16,
        }
    }
}

/// Selectors of the per-descriptor entry points (`proc_pidfdinfo`,
/// `proc_pidfileportinfo`).
#[allow(non_camel_case_types)]
#[derive(Debug, Clone, Copy, PartialEq, Eq, Structural)]
pub enum ProcPidFdInfoFlavor {
    PROC_PIDFDVNODEINFO,
    PROC_PIDFDVNODEPATHINFO,
    PROC_PIDFDSOCKETINFO,
    PROC_PIDFDPSEMINFO,
    PROC_PIDFDPSHMINFO,
    PROC_PIDFDPIPEINFO,
    PROC_PIDFDKQUEUEINFO,
    PROC_PIDFDATALKINFO,
    PROC_PIDFDCHANNELINFO,
}

/// The number that the kernel expects for each per-descriptor selector.
pub open spec fn fd_flavor_code(f: ProcPidFdInfoFlavor) -> i32 {
    match f {
        ProcPidFdInfoFlavor::PROC_PIDFDVNODEINFO => 1,
        ProcPidFdInfoFlavor::PROC_PIDFDVNODEPATHINFO => 2,
        ProcPidFdInfoFlavor::PROC_PIDFDSOCKETINFO => 3,
        ProcPidFdInfoFlavor::PROC_PIDFDPSEMINFO => 4,
        ProcPidFdInfoFlavor::PROC_PIDFDPSHMINFO => 5,
        ProcPidFdInfoFlavor::PROC_PIDFDPIPEINFO => 6,
        ProcPidFdInfoFlavor::PROC_PIDFDKQUEUEINFO => 7,
        ProcPidFdInfoFlavor::PROC_PIDFDATALKINFO => 8,
        ProcPidFdInfoFlavor::PROC_PIDFDCHANNELINFO => 10,
    }
}

impl ProcPidFdInfoFlavor {
    pub fn code(self) -> (r: i32)
        ensures
            r == fd_flavor_code(self),
    {
        match self {
            ProcPidFdInfoFlavor::PROC_PIDFDVNODEINFO => 1,
            ProcPidFdInfoFlavor::PROC_PIDFDVNODEPATHINFO => 2,
            ProcPidFdInfoFlavor::PROC_PIDFDSOCKETINFO => 3,
            ProcPidFdInfoFlavor::PROC_PIDFDPSEMINFO => 4,
            ProcPidFdInfoFlavor::PROC_PIDFDPSHMINFO => 5,
            ProcPidFdInfoFlavor::PROC_PIDFDPIPEINFO => 6,
            ProcPidFdInfoFlavor::PROC_PIDFDKQUEUEINFO => 7,
            ProcPidFdInfoFlavor::PROC_PIDFDATALKINFO => 8,
            ProcPidFdInfoFlavor::PROC_PIDFDCHANNELINFO => 10,
        }
    }
}

/// The largest record size that any record type may declare.
pub const MAX_RECORD_SIZE: usize = 0x10_0000;

/// A fixed-size record that the kernel writes into a caller's buffer.
pub trait Record: Sized {
    /// The size of the record in bytes, as the OS ABI lays it out.
    spec fn byte_size() -> nat;

    /// `self` is the record that the bytes `b` encode.
    spec fn encoded_by(self, b: Seq<u8>) -> bool;

    /// Bytes encode at most one record.
    proof fn lemma_encoding_unique(x: Self, y: Self, b: Seq<u8>)
        requires
            x.encoded_by(b),
            y.encoded_by(b),
        ensures
            x == y,
    ;

    fn size() -> (r: usize)
        ensures
            r == Self::byte_size(),
            0 < r <= MAX_RECORD_SIZE,
    ;

    fn from_bytes(b: &[u8]) -> (r: Self)
        requires
            b@.len() == Self::byte_size(),
        ensures
            r.encoded_by(b@),
    ;
}

/// A record produced by the per-process entry point.
pub trait HasFlavor: Record {
    spec fn spec_flavor() -> ProcPidInfoFlavor;

    fn flavor() -> (r: ProcPidInfoFlavor)
        ensures
            r == Self::spec_flavor(),
    ;
}

/// A record of which the per-process entry point returns an array.
pub trait HasFlavorList: Record {
    spec fn spec_flavor() -> ProcPidInfoFlavor;

    fn flavor() -> (r: ProcPidInfoFlavor)
        ensures
            r == Self::spec_flavor(),
    ;
}

/// A record produced by the per-descriptor and per-fileport entry points.
pub trait HasFdFlavor: Record {
    spec fn spec_flavor() -> ProcPidFdInfoFlavor;

    fn flavor() -> (r: ProcPidFdInfoFlavor)
        ensures
            r == Self::spec_flavor(),
    ;
}

} // verus!
