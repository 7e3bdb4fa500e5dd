use vstd::prelude::*;

use crate::error::ValueError;

verus! {

/// The kind of object that a file descriptor or a fileport refers to.
#[allow(non_camel_case_types)]
#[derive(Debug, Clone, Copy, PartialEq, Eq, Structural)]
pub enum ProcFDType {
    ATALK,
    VNODE,
    SOCKET,
    PSHM,
    PSEM,
    KQUEUE,
    PIPE,
    FSEVENTS,
    NETPOLICY,
    CHANNEL,
    NEXUS,
}

/// The raw tag that the kernel uses for each kind.
pub open spec fn fd_type_code(t: ProcFDType) -> u32 {
    match t {
        ProcFDType::ATALK => 0,
        ProcFDType::VNODE => 1,
        ProcFDType::SOCKET => 2,
        ProcFDType::PSHM => 3,
        ProcFDType::PSEM => 4,
        ProcFDType::KQUEUE => 5,
        ProcFDType::PIPE => 6,
        ProcFDType::FSEVENTS => 7,
        ProcFDType::NETPOLICY => 9,
        ProcFDType::CHANNEL => 10,
        ProcFDType::NEXUS => 11,
    }
}

/// The kind whose tag is `v`, if any.
pub open spec fn fd_type_of(v: u32) -> Option<ProcFDType> {
    if v == 0 {
        Some(ProcFDType::ATALK)
    } else if v == 1 {
        Some(ProcFDType::VNODE)
    } else if v == 2 {
        Some(ProcFDType::SOCKET)
    } else if v == 3 {
        Some(ProcFDType::PSHM)
    } else if v == 4 {
        Some(ProcFDType::PSEM)
    } else if v == 5 {
        Some(ProcFDType::KQUEUE)
    } else if v == 6 {
        Some(ProcFDType::PIPE)
    } else if v == 7 {
        Some(ProcFDType::FSEVENTS)
    } else if v == 9 {
        Some(ProcFDType::NETPOLICY)
    } else if v == 10 {
        Some(ProcFDType::CHANNEL)
    } else if v == 11 {
        Some(ProcFDType::NEXUS)
    } else {
        None
    }
}

/// Decoding a tag and taking the tag of a kind are inverse: every kind's tag
/// decodes to that kind, and a tag that decodes is that kind's tag.
pub proof fn lemma_fd_type_round_trip(t: ProcFDType, v: u32)
    ensures
        fd_type_of(fd_type_code(t)) == Some(t),
        fd_type_of(v) matches Some(k) ==> fd_type_code(k) == v,
{
}

impl ProcFDType {
    /// Decodes a raw tag; an unknown tag is an error, never a guess.
    pub fn from_raw(v: u32) -> (r: Result<ProcFDType, ValueError>)
        ensures
            match fd_type_of(v) {
                Some(t) => r == Ok::<ProcFDType, ValueError>(t),
                None => r == Err::<ProcFDType, ValueError>(ValueError::UnexpectedEnumValue),
            },
    {
        match v {
            0 => Ok(ProcFDType::ATALK),
            1 => Ok(ProcFDType::VNODE),
            2 => Ok(ProcFDType::SOCKET),
            3 => Ok(ProcFDType::PSHM),
            4 => Ok(ProcFDType::PSEM),
            5 => Ok(ProcFDType::KQUEUE),
            6 => Ok(ProcFDType::PIPE),
            7 => Ok(ProcFDType::FSEVENTS),
            9 => Ok(ProcFDType::NETPOLICY),
            10 => Ok(ProcFDType::CHANNEL),
            11 => Ok(ProcFDType::NEXUS),
            _ => Err(ValueError::UnexpectedEnumValue),
        }
    }

    /// The raw tag of this kind.
    pub fn raw(self) -> (r: u32)
        ensures
            r == fd_type_code(self),
    {
        match self {
            ProcFDType::ATALK => 0,
            ProcFDType::VNODE => 1,
            ProcFDType::SOCKET => 2,
            ProcFDType::PSHM => 3,
            ProcFDType::PSEM => 4,
            ProcFDType::KQUEUE => 5,
            ProcFDType::PIPE => 6,
            ProcFDType::FSEVENTS => 7,
            ProcFDType::NETPOLICY => 9,
            ProcFDType::CHANNEL => 10,
            ProcFDType::NEXUS => 11,
        }
    }
}

} // verus!
