use vstd::prelude::*;

use crate::bytes::{
    le_i32, le_i64, le_u16, le_u32, le_u64, read_bytes, read_i32, read_i64, read_u16, read_u32,
    read_u64,
};
use crate::error::ValueError;
use crate::fd_type::{fd_type_of, ProcFDType};
use crate::flavor::{
    HasFdFlavor, HasFlavor, HasFlavorList, ProcPidFdInfoFlavor, ProcPidInfoFlavor, Record,
};
use crate::ids::{Fd, FilePort, Pid};
use crate::text::{c_str, libc_str_to_path, libc_str_to_str, utf8_decode};

verus! {

/// The length of a command name field.
pub const MAXCOMLEN: usize = 16;

/// The length of the long process name field.
pub const DOUBLE_MAXCOMLEN: usize = 32;

/// The length of a path field.
pub const MAXPATHLEN: usize = 1024;

/// Information about a file descriptor. Returned as an array by [`proc_pidinfo_list`].
#[derive(Debug, Clone, Copy)]
pub struct ProcFDInfo {
    pub proc_fd: Fd,
    pub proc_fdtype: u32,
}

impl ProcFDInfo {
    /// The record is the one that `b` holds at `off`.
    pub open spec fn encoded_at(self, b: Seq<u8>, off: int) -> bool {
        &&& self.proc_fd.0 == le_i32(b, off)
        &&& self.proc_fdtype == le_u32(b, off + 4)
    }

    /// Only one record is encoded by the bytes at `off`.
    pub proof fn lemma_encoded_at_unique(x: Self, y: Self, b: Seq<u8>, off: int)
        requires
            x.encoded_at(b, off),
            y.encoded_at(b, off),
        ensures
            x == y,
    {
    }

    /// Reads the record that `b` holds at `off`.
    pub fn decode_at(b: &[u8], off: usize) -> (r: Self)
        requires
            off + 8 <= b@.len(),
        ensures
            r.encoded_at(b@, off as int),
    {
        // The slice length bounds every offset computed below.
        let _len = b.len();
        ProcFDInfo {
            proc_fd: Fd(read_i32(b, off)),
            proc_fdtype: read_u32(b, off + 4),
        }
    }
}

impl Record for ProcFDInfo {
    proof fn lemma_encoding_unique(x: Self, y: Self, b: Seq<u8>) {
        Self::lemma_encoded_at_unique(x, y, b, 0);
    }

    open spec fn byte_size() -> nat {
        8
    }

    open spec fn encoded_by(self, b: Seq<u8>) -> bool {
        self.encoded_at(b, 0)
    }

    fn size() -> (r: usize) {
        8
    }

    fn from_bytes(b: &[u8]) -> (r: Self) {
        Self::decode_at(b, 0)
    }
}

impl HasFlavorList for ProcFDInfo {
    open spec fn spec_flavor() -> ProcPidInfoFlavor {
        ProcPidInfoFlavor::PROC_PIDLISTFDS
    }

    fn flavor() -> (r: ProcPidInfoFlavor) {
        ProcPidInfoFlavor::PROC_PIDLISTFDS
    }
}

/// Information about a fileport. Returned as an array by [`proc_pidinfo_list`].
#[derive(Debug, Clone, Copy)]
pub struct ProcFilePortInfo {
    pub proc_fileport: FilePort,
    pub proc_fdtype: u32,
}

impl ProcFilePortInfo {
    /// The record is the one that `b` holds at `off`.
    pub open spec fn encoded_at(self, b: Seq<u8>, off: int) -> bool {
        &&& self.proc_fileport.0 == le_u32(b, off)
        &&& self.proc_fdtype == le_u32(b, off + 4)
    }

    /// Only one record is encoded by the bytes at `off`.
    pub proof fn lemma_encoded_at_unique(x: Self, y: Self, b: Seq<u8>, off: int)
        requires
            x.encoded_at(b, off),
            y.encoded_at(b, off),
        ensures
            x == y,
    {
    }

    /// Reads the record that `b` holds at `off`.
    pub fn decode_at(b: &[u8], off: usize) -> (r: Self)
        requires
            off + 8 <= b@.len(),
        ensures
            r.encoded_at(b@, off as int),
    {
        // The slice length bounds every offset computed below.
        let _len = b.len();
        ProcFilePortInfo {
            proc_fileport: FilePort(read_u32(b, off)),
            proc_fdtype: read_u32(b, off + 4),
        }
    }
}

impl Record for ProcFilePortInfo {
    proof fn lemma_encoding_unique(x: Self, y: Self, b: Seq<u8>) {
        Self::lemma_encoded_at_unique(x, y, b, 0);
    }

    open spec fn byte_size() -> nat {
        8
    }

    open spec fn encoded_by(self, b: Seq<u8>) -> bool {
        self.encoded_at(b, 0)
    }

    fn size() -> (r: usize) {
        8
    }

    fn from_bytes(b: &[u8]) -> (r: Self) {
        Self::decode_at(b, 0)
    }
}

impl HasFlavorList for ProcFilePortInfo {
    open spec fn spec_flavor() -> ProcPidInfoFlavor {
        ProcPidInfoFlavor::PROC_PIDLISTFILEPORTS
    }

    fn flavor() -> (r: ProcPidInfoFlavor) {
        ProcPidInfoFlavor::PROC_PIDLISTFILEPORTS
    }
}

/// Task information about a process. Usable with [`proc_pidinfo`].
#[derive(Debug, Clone, Copy)]
pub struct ProcTaskInfo {
    pub pti_virtual_size: u64,
    pub pti_resident_size: u64,
    pub pti_total_user: u64,
    pub pti_total_system: u64,
    pub pti_threads_user: u64,
    pub pti_threads_system: u64,
    pub pti_policy: i32,
    pub pti_faults: i32,
    pub pti_pageins: i32,
    pub pti_cow_faults: i32,
    pub pti_messages_sent: i32,
    pub pti_messages_received: i32,
    pub pti_syscalls_mach: i32,
    pub pti_syscalls_unix: i32,
    pub pti_csw: i32,
    pub pti_threadnum: i32,
    pub pti_numrunning: i32,
    pub pti_priority: i32,
}

impl ProcTaskInfo {
    /// The record is the one that `b` holds at `off`.
    pub open spec fn encoded_at(self, b: Seq<u8>, off: int) -> bool {
        &&& self.pti_virtual_size == le_u64(b, off)
        &&& self.pti_resident_size == le_u64(b, off + 8)
        &&& self.pti_total_user == le_u64(b, off + 16)
        &&& self.pti_total_system == le_u64(b, off + 24)
        &&& self.pti_threads_user == le_u64(b, off + 32)
        &&& self.pti_threads_system == le_u64(b, off + 40)
        &&& self.pti_policy == le_i32(b, off + 48)
        &&& self.pti_faults == le_i32(b, off + 52)
        &&& self.pti_pageins == le_i32(b, off + 56)
        &&& self.pti_cow_faults == le_i32(b, off + 60)
        &&& self.pti_messages_sent == le_i32(b, off + 64)
        &&& self.pti_messages_received == le_i32(b, off + 68)
        &&& self.pti_syscalls_mach == le_i32(b, off + 72)
        &&& self.pti_syscalls_unix == le_i32(b, off + 76)
        &&& self.pti_csw == le_i32(b, off + 80)
        &&& self.pti_threadnum == le_i32(b, off + 84)
        &&& self.pti_numrunning == le_i32(b, off + 88)
        &&& self.pti_priority == le_i32(b, off + 92)
    }

    /// Only one record is encoded by the bytes at `off`.
    pub proof fn lemma_encoded_at_unique(x: Self, y: Self, b: Seq<u8>, off: int)
        requires
            x.encoded_at(b, off),
            y.encoded_at(b, off),
        ensures
            x == y,
    {
    }

    /// Reads the record that `b` holds at `off`.
    pub fn decode_at(b: &[u8], off: usize) -> (r: Self)
        requires
            off + 96 <= b@.len(),
        ensures
            r.encoded_at(b@, off as int),
    {
        // The slice length bounds every offset computed below.
        let _len = b.len();
        ProcTaskInfo {
            pti_virtual_size: read_u64(b, off),
            pti_resident_size: read_u64(b, off + 8),
            pti_total_user: read_u64(b, off + 16),
            pti_total_system: read_u64(b, off + 24),
            pti_threads_user: read_u64(b, off + 32),
            pti_threads_system: read_u64(b, off + 40),
            pti_policy: read_i32(b, off + 48),
            pti_faults: read_i32(b, off + 52),
            pti_pageins: read_i32(b, off + 56),
            pti_cow_faults: read_i32(b, off + 60),
            pti_messages_sent: read_i32(b, off + 64),
            pti_messages_received: read_i32(b, off + 68),
            pti_syscalls_mach: read_i32(b, off + 72),
            pti_syscalls_unix: read_i32(b, off + 76),
            pti_csw: read_i32(b, off + 80),
            pti_threadnum: read_i32(b, off + 84),
            pti_numrunning: read_i32(b, off + 88),
            pti_priority: read_i32(b, off + 92),
        }
    }
}

impl Record for ProcTaskInfo {
    proof fn lemma_encoding_unique(x: Self, y: Self, b: Seq<u8>) {
        Self::lemma_encoded_at_unique(x, y, b, 0);
    }

    open spec fn byte_size() -> nat {
        96
    }

    open spec fn encoded_by(self, b: Seq<u8>) -> bool {
        self.encoded_at(b, 0)
    }

    fn size() -> (r: usize) {
        96
    }

    fn from_bytes(b: &[u8]) -> (r: Self) {
        Self::decode_at(b, 0)
    }
}

impl HasFlavor for ProcTaskInfo {
    open spec fn spec_flavor() -> ProcPidInfoFlavor {
        ProcPidInfoFlavor::PROC_PIDTASKINFO
    }

    fn flavor() -> (r: ProcPidInfoFlavor) {
        ProcPidInfoFlavor::PROC_PIDTASKINFO
    }
}

/// BSD-style information about a process. Usable with [`proc_pidinfo`].
///
/// In some cases, [`ProcBSDInfo`] may not be available, while [`ProcBSDShortInfo`] is.
#[derive(Debug, Clone, Copy)]
pub struct ProcBSDInfo {
    pub pbi_flags: u32,
    pub pbi_status: u32,
    pub pbi_xstatus: u32,
    pub pbi_pid: Pid,
    pub pbi_ppid: Pid,
    pub pbi_uid: u32,
    pub pbi_gid: u32,
    pub pbi_ruid: u32,
    pub pbi_rgid: u32,
    pub pbi_svuid: u32,
    pub pbi_svgid: u32,
    pub rfu_1: u32,
    pub pbi_comm: [u8; MAXCOMLEN],
    pub pbi_name: [u8; DOUBLE_MAXCOMLEN],
    pub pbi_nfiles: u32,
    pub pbi_pgid: u32,
    pub pbi_pjobc: u32,
    pub e_tdev: u32,
    pub e_tpgid: u32,
    pub pbi_nice: i32,
    pub pbi_start_tvsec: u64,
    pub pbi_start_tvusec: u64,
}

impl ProcBSDInfo {
    /// The record is the one that `b` holds at `off`.
    pub open spec fn encoded_at(self, b: Seq<u8>, off: int) -> bool {
        &&& self.pbi_flags == le_u32(b, off)
        &&& self.pbi_status == le_u32(b, off + 4)
        &&& self.pbi_xstatus == le_u32(b, off + 8)
        &&& self.pbi_pid.0 == le_u32(b, off + 12)
        &&& self.pbi_ppid.0 == le_u32(b, off + 16)
        &&& self.pbi_uid == le_u32(b, off + 20)
        &&& self.pbi_gid == le_u32(b, off + 24)
        &&& self.pbi_ruid == le_u32(b, off + 28)
        &&& self.pbi_rgid == le_u32(b, off + 32)
        &&& self.pbi_svuid == le_u32(b, off + 36)
        &&& self.pbi_svgid == le_u32(b, off + 40)
        &&& self.rfu_1 == le_u32(b, off + 44)
        &&& self.pbi_comm@ == b.subrange(off + 48, off + 64)
        &&& self.pbi_name@ == b.subrange(off + 64, off + 96)
        &&& self.pbi_nfiles == le_u32(b, off + 96)
        &&& self.pbi_pgid == le_u32(b, off + 100)
        &&& self.pbi_pjobc == le_u32(b, off + 104)
        &&& self.e_tdev == le_u32(b, off + 108)
        &&& self.e_tpgid == le_u32(b, off + 112)
        &&& self.pbi_nice == le_i32(b, off + 116)
        &&& self.pbi_start_tvsec == le_u64(b, off + 120)
        &&& self.pbi_start_tvusec == le_u64(b, off + 128)
    }

    /// Only one record is encoded by the bytes at `off`.
    pub proof fn lemma_encoded_at_unique(x: Self, y: Self, b: Seq<u8>, off: int)
        requires
            x.encoded_at(b, off),
            y.encoded_at(b, off),
        ensures
            x == y,
    {
        assert(x.pbi_comm =~= y.pbi_comm);
        assert(x.pbi_name =~= y.pbi_name);
    }

    /// Reads the record that `b` holds at `off`.
    pub fn decode_at(b: &[u8], off: usize) -> (r: Self)
        requires
            off + 136 <= b@.len(),
        ensures
            r.encoded_at(b@, off as int),
    {
        // The slice length bounds every offset computed below.
        let _len = b.len();
        ProcBSDInfo {
            pbi_flags: read_u32(b, off),
            pbi_status: read_u32(b, off + 4),
            pbi_xstatus: read_u32(b, off + 8),
            pbi_pid: Pid(read_u32(b, off + 12)),
            pbi_ppid: Pid(read_u32(b, off + 16)),
            pbi_uid: read_u32(b, off + 20),
            pbi_gid: read_u32(b, off + 24),
            pbi_ruid: read_u32(b, off + 28),
            pbi_rgid: read_u32(b, off + 32),
            pbi_svuid: read_u32(b, off + 36),
            pbi_svgid: read_u32(b, off + 40),
            rfu_1: read_u32(b, off + 44),
            pbi_comm: read_bytes(b, off + 48),
            pbi_name: read_bytes(b, off + 64),
            pbi_nfiles: read_u32(b, off + 96),
            pbi_pgid: read_u32(b, off + 100),
            pbi_pjobc: read_u32(b, off + 104),
            e_tdev: read_u32(b, off + 108),
            e_tpgid: read_u32(b, off + 112),
            pbi_nice: read_i32(b, off + 116),
            pbi_start_tvsec: read_u64(b, off + 120),
            pbi_start_tvusec: read_u64(b, off + 128),
        }
    }
}

impl Record for ProcBSDInfo {
    proof fn lemma_encoding_unique(x: Self, y: Self, b: Seq<u8>) {
        Self::lemma_encoded_at_unique(x, y, b, 0);
    }

    open spec fn byte_size() -> nat {
        136
    }

    open spec fn encoded_by(self, b: Seq<u8>) -> bool {
        self.encoded_at(b, 0)
    }

    fn size() -> (r: usize) {
        136
    }

    fn from_bytes(b: &[u8]) -> (r: Self) {
        Self::decode_at(b, 0)
    }
}

impl HasFlavor for ProcBSDInfo {
    open spec fn spec_flavor() -> ProcPidInfoFlavor {
        ProcPidInfoFlavor::PROC_PIDTBSDINFO
    }

    fn flavor() -> (r: ProcPidInfoFlavor) {
        ProcPidInfoFlavor::PROC_PIDTBSDINFO
    }
}

/// A short version of [`ProcBSDInfo`]. Usable with [`proc_pidinfo`].
#[derive(Debug, Clone, Copy)]
pub struct ProcBSDShortInfo {
    pub pbsi_pid: Pid,
    pub pbsi_ppid: Pid,
    pub pbsi_pgid: u32,
    pub pbsi_status: u32,
    pub pbsi_comm: [u8; MAXCOMLEN],
    pub pbsi_flags: u32,
    pub pbsi_uid: u32,
    pub pbsi_gid: u32,
    pub pbsi_ruid: u32,
    pub pbsi_rgid: u32,
    pub pbsi_svuid: u32,
    pub pbsi_svgid: u32,
    pub pbsi_rfu: u32,
}

impl ProcBSDShortInfo {
    /// The record is the one that `b` holds at `off`.
    pub open spec fn encoded_at(self, b: Seq<u8>, off: int) -> bool {
        &&& self.pbsi_pid.0 == le_u32(b, off)
        &&& self.pbsi_ppid.0 == le_u32(b, off + 4)
        &&& self.pbsi_pgid == le_u32(b, off + 8)
        &&& self.pbsi_status == le_u32(b, off + 12)
        &&& self.pbsi_comm@ == b.subrange(off + 16, off + 32)
        &&& self.pbsi_flags == le_u32(b, off + 32)
        &&& self.pbsi_uid == le_u32(b, off + 36)
        &&& self.pbsi_gid == le_u32(b, off + 40)
        &&& self.pbsi_ruid == le_u32(b, off + 44)
        &&& self.pbsi_rgid == le_u32(b, off + 48)
        &&& self.pbsi_svuid == le_u32(b, off + 52)
        &&& self.pbsi_svgid == le_u32(b, off + 56)
        &&& self.pbsi_rfu == le_u32(b, off + 60)
    }

    /// Only one record is encoded by the bytes at `off`.
    pub proof fn lemma_encoded_at_unique(x: Self, y: Self, b: Seq<u8>, off: int)
        requires
            x.encoded_at(b, off),
            y.encoded_at(b, off),
        ensures
            x == y,
    {
        assert(x.pbsi_comm =~= y.pbsi_comm);
    }

    /// Reads the record that `b` holds at `off`.
    pub fn decode_at(b: &[u8], off: usize) -> (r: Self)
        requires
            off + 64 <= b@.len(),
        ensures
            r.encoded_at(b@, off as int),
    {
        // The slice length bounds every offset computed below.
        let _len = b.len();
        ProcBSDShortInfo {
            pbsi_pid: Pid(read_u32(b, off)),
            pbsi_ppid: Pid(read_u32(b, off + 4)),
            pbsi_pgid: read_u32(b, off + 8),
            pbsi_status: read_u32(b, off + 12),
            pbsi_comm: read_bytes(b, off + 16),
            pbsi_flags: read_u32(b, off + 32),
            pbsi_uid: read_u32(b, off + 36),
            pbsi_gid: read_u32(b, off + 40),
            pbsi_ruid: read_u32(b, off + 44),
            pbsi_rgid: read_u32(b, off + 48),
            pbsi_svuid: read_u32(b, off + 52),
            pbsi_svgid: read_u32(b, off + 56),
            pbsi_rfu: read_u32(b, off + 60),
        }
    }
}

impl Record for ProcBSDShortInfo {
    proof fn lemma_encoding_unique(x: Self, y: Self, b: Seq<u8>) {
        Self::lemma_encoded_at_unique(x, y, b, 0);
    }

    open spec fn byte_size() -> nat {
        64
    }

    open spec fn encoded_by(self, b: Seq<u8>) -> bool {
        self.encoded_at(b, 0)
    }

    fn size() -> (r: usize) {
        64
    }

    fn from_bytes(b: &[u8]) -> (r: Self) {
        Self::decode_at(b, 0)
    }
}

impl HasFlavor for ProcBSDShortInfo {
    open spec fn spec_flavor() -> ProcPidInfoFlavor {
        ProcPidInfoFlavor::PROC_PIDT_SHORTBSDINFO
    }

    fn flavor() -> (r: ProcPidInfoFlavor) {
        ProcPidInfoFlavor::PROC_PIDT_SHORTBSDINFO
    }
}

/// Task information about a process. Usable with [`proc_pidinfo`].
///
/// Returns both [`ProcBSDInfo`] and [`ProcTaskInfo`] in one struct.
#[derive(Debug, Clone, Copy)]
pub struct ProcTaskAllInfo {
    pub pbsd: ProcBSDInfo,
    pub ptinfo: ProcTaskInfo,
}

impl ProcTaskAllInfo {
    /// The record is the one that `b` holds at `off`.
    pub open spec fn encoded_at(self, b: Seq<u8>, off: int) -> bool {
        &&& self.pbsd.encoded_at(b, off)
        &&& self.ptinfo.encoded_at(b, off + 136)
    }

    /// Only one record is encoded by the bytes at `off`.
    pub proof fn lemma_encoded_at_unique(x: Self, y: Self, b: Seq<u8>, off: int)
        requires
            x.encoded_at(b, off),
            y.encoded_at(b, off),
        ensures
            x == y,
    {
        ProcBSDInfo::lemma_encoded_at_unique(x.pbsd, y.pbsd, b, off);
        ProcTaskInfo::lemma_encoded_at_unique(x.ptinfo, y.ptinfo, b, off + 136);
    }

    /// Reads the record that `b` holds at `off`.
    pub fn decode_at(b: &[u8], off: usize) -> (r: Self)
        requires
            off + 232 <= b@.len(),
        ensures
            r.encoded_at(b@, off as int),
    {
        // The slice length bounds every offset computed below.
        let _len = b.len();
        ProcTaskAllInfo {
            pbsd: ProcBSDInfo::decode_at(b, off),
            ptinfo: ProcTaskInfo::decode_at(b, off + 136),
        }
    }
}

impl Record for ProcTaskAllInfo {
    proof fn lemma_encoding_unique(x: Self, y: Self, b: Seq<u8>) {
        Self::lemma_encoded_at_unique(x, y, b, 0);
    }

    open spec fn byte_size() -> nat {
        232
    }

    open spec fn encoded_by(self, b: Seq<u8>) -> bool {
        self.encoded_at(b, 0)
    }

    fn size() -> (r: usize) {
        232
    }

    fn from_bytes(b: &[u8]) -> (r: Self) {
        Self::decode_at(b, 0)
    }
}

impl HasFlavor for ProcTaskAllInfo {
    open spec fn spec_flavor() -> ProcPidInfoFlavor {
        ProcPidInfoFlavor::PROC_PIDTASKALLINFO
    }

    fn flavor() -> (r: ProcPidInfoFlavor) {
        ProcPidInfoFlavor::PROC_PIDTASKALLINFO
    }
}

/// General information about a file descriptor. See [`VnodeFdInfo`]
/// or [`VnodeFdInfoWithPath`] for more specific information.
#[derive(Debug, Clone, Copy)]
pub struct ProcFileInfo {
    pub fi_openflags: u32,
    pub fi_status: u32,
    pub fi_offset: i64,
    pub fi_type: i32,
    pub fi_guardflags: u32,
}

impl ProcFileInfo {
    /// The record is the one that `b` holds at `off`.
    pub open spec fn encoded_at(self, b: Seq<u8>, off: int) -> bool {
        &&& self.fi_openflags == le_u32(b, off)
        &&& self.fi_status == le_u32(b, off + 4)
        &&& self.fi_offset == le_i64(b, off + 8)
        &&& self.fi_type == le_i32(b, off + 16)
        &&& self.fi_guardflags == le_u32(b, off + 20)
    }

    /// Only one record is encoded by the bytes at `off`.
    pub proof fn lemma_encoded_at_unique(x: Self, y: Self, b: Seq<u8>, off: int)
        requires
            x.encoded_at(b, off),
            y.encoded_at(b, off),
        ensures
            x == y,
    {
    }

    /// Reads the record that `b` holds at `off`.
    pub fn decode_at(b: &[u8], off: usize) -> (r: Self)
        requires
            off + 24 <= b@.len(),
        ensures
            r.encoded_at(b@, off as int),
    {
        // The slice length bounds every offset computed below.
        let _len = b.len();
        ProcFileInfo {
            fi_openflags: read_u32(b, off),
            fi_status: read_u32(b, off + 4),
            fi_offset: read_i64(b, off + 8),
            fi_type: read_i32(b, off + 16),
            fi_guardflags: read_u32(b, off + 20),
        }
    }
}

impl Record for ProcFileInfo {
    proof fn lemma_encoding_unique(x: Self, y: Self, b: Seq<u8>) {
        Self::lemma_encoded_at_unique(x, y, b, 0);
    }

    open spec fn byte_size() -> nat {
        24
    }

    open spec fn encoded_by(self, b: Seq<u8>) -> bool {
        self.encoded_at(b, 0)
    }

    fn size() -> (r: usize) {
        24
    }

    fn from_bytes(b: &[u8]) -> (r: Self) {
        Self::decode_at(b, 0)
    }
}

/// General information about a vnode. See [`VnodeFdInfo`],
/// [`VnodeFdInfoWithPath`], or [`VnodeInfoPath`] for more specific information.
#[derive(Debug, Clone, Copy)]
pub struct VInfoStat {
    pub vst_dev: u32,
    pub vst_mode: u16,
    pub vst_nlink: u16,
    pub vst_ino: u64,
    pub vst_uid: u32,
    pub vst_gid: u32,
    pub vst_atime: i64,
    pub vst_atimensec: i64,
    pub vst_mtime: i64,
    pub vst_mtimensec: i64,
    pub vst_ctime: i64,
    pub vst_ctimensec: i64,
    pub vst_birthtime: i64,
    pub vst_birthtimensec: i64,
    pub vst_size: i64,
    pub vst_blocks: i64,
    pub vst_blksize: i32,
    pub vst_flags: u32,
    pub vst_gen: u32,
    pub vst_rdev: u32,
    pub vst_qspare: [i64; 2],
}

impl VInfoStat {
    /// The record is the one that `b` holds at `off`.
    pub open spec fn encoded_at(self, b: Seq<u8>, off: int) -> bool {
        &&& self.vst_dev == le_u32(b, off)
        &&& self.vst_mode == le_u16(b, off + 4)
        &&& self.vst_nlink == le_u16(b, off + 6)
        &&& self.vst_ino == le_u64(b, off + 8)
        &&& self.vst_uid == le_u32(b, off + 16)
        &&& self.vst_gid == le_u32(b, off + 20)
        &&& self.vst_atime == le_i64(b, off + 24)
        &&& self.vst_atimensec == le_i64(b, off + 32)
        &&& self.vst_mtime == le_i64(b, off + 40)
        &&& self.vst_mtimensec == le_i64(b, off + 48)
        &&& self.vst_ctime == le_i64(b, off + 56)
        &&& self.vst_ctimensec == le_i64(b, off + 64)
        &&& self.vst_birthtime == le_i64(b, off + 72)
        &&& self.vst_birthtimensec == le_i64(b, off + 80)
        &&& self.vst_size == le_i64(b, off + 88)
        &&& self.vst_blocks == le_i64(b, off + 96)
        &&& self.vst_blksize == le_i32(b, off + 104)
        &&& self.vst_flags == le_u32(b, off + 108)
        &&& self.vst_gen == le_u32(b, off + 112)
        &&& self.vst_rdev == le_u32(b, off + 116)
        &&& self.vst_qspare@ == seq![le_i64(b, off + 120) as i64, le_i64(b, off + 128) as i64]
    }

    /// Only one record is encoded by the bytes at `off`.
    pub proof fn lemma_encoded_at_unique(x: Self, y: Self, b: Seq<u8>, off: int)
        requires
            x.encoded_at(b, off),
            y.encoded_at(b, off),
        ensures
            x == y,
    {
        assert(x.vst_qspare =~= y.vst_qspare);
    }

    /// Reads the record that `b` holds at `off`.
    pub fn decode_at(b: &[u8], off: usize) -> (r: Self)
        requires
            off + 136 <= b@.len(),
        ensures
            r.encoded_at(b@, off as int),
    {
        // The slice length bounds every offset computed below.
        let _len = b.len();
        VInfoStat {
            vst_dev: read_u32(b, off),
            vst_mode: read_u16(b, off + 4),
            vst_nlink: read_u16(b, off + 6),
            vst_ino: read_u64(b, off + 8),
            vst_uid: read_u32(b, off + 16),
            vst_gid: read_u32(b, off + 20),
            vst_atime: read_i64(b, off + 24),
            vst_atimensec: read_i64(b, off + 32),
            vst_mtime: read_i64(b, off + 40),
            vst_mtimensec: read_i64(b, off + 48),
            vst_ctime: read_i64(b, off + 56),
            vst_ctimensec: read_i64(b, off + 64),
            vst_birthtime: read_i64(b, off + 72),
            vst_birthtimensec: read_i64(b, off + 80),
            vst_size: read_i64(b, off + 88),
            vst_blocks: read_i64(b, off + 96),
            vst_blksize: read_i32(b, off + 104),
            vst_flags: read_u32(b, off + 108),
            vst_gen: read_u32(b, off + 112),
            vst_rdev: read_u32(b, off + 116),
            vst_qspare: [read_i64(b, off + 120), read_i64(b, off + 128)],
        }
    }
}

impl Record for VInfoStat {
    proof fn lemma_encoding_unique(x: Self, y: Self, b: Seq<u8>) {
        Self::lemma_encoded_at_unique(x, y, b, 0);
    }

    open spec fn byte_size() -> nat {
        136
    }

    open spec fn encoded_by(self, b: Seq<u8>) -> bool {
        self.encoded_at(b, 0)
    }

    fn size() -> (r: usize) {
        136
    }

    fn from_bytes(b: &[u8]) -> (r: Self) {
        Self::decode_at(b, 0)
    }
}

/// General information about a vnode. See [`VnodeFdInfo`] or [`VnodeFdInfoWithPath`]
/// for more specific information.
#[derive(Debug, Clone, Copy)]
pub struct VnodeInfo {
    pub vi_stat: VInfoStat,
    pub vi_type: i32,
    pub vi_pad: i32,
    pub vi_fsid: [i32; 2],
}

impl VnodeInfo {
    /// The record is the one that `b` holds at `off`.
    pub open spec fn encoded_at(self, b: Seq<u8>, off: int) -> bool {
        &&& self.vi_stat.encoded_at(b, off)
        &&& self.vi_type == le_i32(b, off + 136)
        &&& self.vi_pad == le_i32(b, off + 140)
        &&& self.vi_fsid@ == seq![le_i32(b, off + 144) as i32, le_i32(b, off + 148) as i32]
    }

    /// Only one record is encoded by the bytes at `off`.
    pub proof fn lemma_encoded_at_unique(x: Self, y: Self, b: Seq<u8>, off: int)
        requires
            x.encoded_at(b, off),
            y.encoded_at(b, off),
        ensures
            x == y,
    {
        VInfoStat::lemma_encoded_at_unique(x.vi_stat, y.vi_stat, b, off);
        assert(x.vi_fsid =~= y.vi_fsid);
    }

    /// Reads the record that `b` holds at `off`.
    pub fn decode_at(b: &[u8], off: usize) -> (r: Self)
        requires
            off + 152 <= b@.len(),
        ensures
            r.encoded_at(b@, off as int),
    {
        // The slice length bounds every offset computed below.
        let _len = b.len();
        VnodeInfo {
            vi_stat: VInfoStat::decode_at(b, off),
            vi_type: read_i32(b, off + 136),
            vi_pad: read_i32(b, off + 140),
            vi_fsid: [read_i32(b, off + 144), read_i32(b, off + 148)],
        }
    }
}

impl Record for VnodeInfo {
    proof fn lemma_encoding_unique(x: Self, y: Self, b: Seq<u8>) {
        Self::lemma_encoded_at_unique(x, y, b, 0);
    }

    open spec fn byte_size() -> nat {
        152
    }

    open spec fn encoded_by(self, b: Seq<u8>) -> bool {
        self.encoded_at(b, 0)
    }

    fn size() -> (r: usize) {
        152
    }

    fn from_bytes(b: &[u8]) -> (r: Self) {
        Self::decode_at(b, 0)
    }
}

/// Path information about a vnode. See [`VnodeFdInfoWithPath`] for more specific information.
#[derive(Debug, Clone, Copy)]
pub struct VnodeInfoPath {
    pub vip_vi: VnodeInfo,
    pub vip_path: [u8; MAXPATHLEN],
}

impl VnodeInfoPath {
    /// The record is the one that `b` holds at `off`.
    pub open spec fn encoded_at(self, b: Seq<u8>, off: int) -> bool {
        &&& self.vip_vi.encoded_at(b, off)
        &&& self.vip_path@ == b.subrange(off + 152, off + 1176)
    }

    /// Only one record is encoded by the bytes at `off`.
    pub proof fn lemma_encoded_at_unique(x: Self, y: Self, b: Seq<u8>, off: int)
        requires
            x.encoded_at(b, off),
            y.encoded_at(b, off),
        ensures
            x == y,
    {
        VnodeInfo::lemma_encoded_at_unique(x.vip_vi, y.vip_vi, b, off);
        assert(x.vip_path =~= y.vip_path);
    }

    /// Reads the record that `b` holds at `off`.
    pub fn decode_at(b: &[u8], off: usize) -> (r: Self)
        requires
            off + 1176 <= b@.len(),
        ensures
            r.encoded_at(b@, off as int),
    {
        // The slice length bounds every offset computed below.
        let _len = b.len();
        VnodeInfoPath {
            vip_vi: VnodeInfo::decode_at(b, off),
            vip_path: read_bytes(b, off + 152),
        }
    }
}

impl Record for VnodeInfoPath {
    proof fn lemma_encoding_unique(x: Self, y: Self, b: Seq<u8>) {
        Self::lemma_encoded_at_unique(x, y, b, 0);
    }

    open spec fn byte_size() -> nat {
        1176
    }

    open spec fn encoded_by(self, b: Seq<u8>) -> bool {
        self.encoded_at(b, 0)
    }

    fn size() -> (r: usize) {
        1176
    }

    fn from_bytes(b: &[u8]) -> (r: Self) {
        Self::decode_at(b, 0)
    }
}

/// Information about [`ProcFDType::VNODE`] file descriptors.
#[derive(Debug, Clone, Copy)]
pub struct VnodeFdInfo {
    pub pfi: ProcFileInfo,
    pub pvi: VnodeInfo,
}

impl VnodeFdInfo {
    /// The record is the one that `b` holds at `off`.
    pub open spec fn encoded_at(self, b: Seq<u8>, off: int) -> bool {
        &&& self.pfi.encoded_at(b, off)
        &&& self.pvi.encoded_at(b, off + 24)
    }

    /// Only one record is encoded by the bytes at `off`.
    pub proof fn lemma_encoded_at_unique(x: Self, y: Self, b: Seq<u8>, off: int)
        requires
            x.encoded_at(b, off),
            y.encoded_at(b, off),
        ensures
            x == y,
    {
        ProcFileInfo::lemma_encoded_at_unique(x.pfi, y.pfi, b, off);
        VnodeInfo::lemma_encoded_at_unique(x.pvi, y.pvi, b, off + 24);
    }

    /// Reads the record that `b` holds at `off`.
    pub fn decode_at(b: &[u8], off: usize) -> (r: Self)
        requires
            off + 176 <= b@.len(),
        ensures
            r.encoded_at(b@, off as int),
    {
        // The slice length bounds every offset computed below.
        let _len = b.len();
        VnodeFdInfo {
            pfi: ProcFileInfo::decode_at(b, off),
            pvi: VnodeInfo::decode_at(b, off + 24),
        }
    }
}

impl Record for VnodeFdInfo {
    proof fn lemma_encoding_unique(x: Self, y: Self, b: Seq<u8>) {
        Self::lemma_encoded_at_unique(x, y, b, 0);
    }

    open spec fn byte_size() -> nat {
        176
    }

    open spec fn encoded_by(self, b: Seq<u8>) -> bool {
        self.encoded_at(b, 0)
    }

    fn size() -> (r: usize) {
        176
    }

    fn from_bytes(b: &[u8]) -> (r: Self) {
        Self::decode_at(b, 0)
    }
}

impl HasFdFlavor for VnodeFdInfo {
    open spec fn spec_flavor() -> ProcPidFdInfoFlavor {
        ProcPidFdInfoFlavor::PROC_PIDFDVNODEINFO
    }

    fn flavor() -> (r: ProcPidFdInfoFlavor) {
        ProcPidFdInfoFlavor::PROC_PIDFDVNODEINFO
    }
}

/// Information about [`ProcFDType::VNODE`] file descriptors, with the path.
#[derive(Debug, Clone, Copy)]
pub struct VnodeFdInfoWithPath {
    pub pfi: ProcFileInfo,
    pub pvip: VnodeInfoPath,
}

impl VnodeFdInfoWithPath {
    /// The record is the one that `b` holds at `off`.
    pub open spec fn encoded_at(self, b: Seq<u8>, off: int) -> bool {
        &&& self.pfi.encoded_at(b, off)
        &&& self.pvip.encoded_at(b, off + 24)
    }

    /// Only one record is encoded by the bytes at `off`.
    pub proof fn lemma_encoded_at_unique(x: Self, y: Self, b: Seq<u8>, off: int)
        requires
            x.encoded_at(b, off),
            y.encoded_at(b, off),
        ensures
            x == y,
    {
        ProcFileInfo::lemma_encoded_at_unique(x.pfi, y.pfi, b, off);
        VnodeInfoPath::lemma_encoded_at_unique(x.pvip, y.pvip, b, off + 24);
    }

    /// Reads the record that `b` holds at `off`.
    pub fn decode_at(b: &[u8], off: usize) -> (r: Self)
        requires
            off + 1200 <= b@.len(),
        ensures
            r.encoded_at(b@, off as int),
    {
        // The slice length bounds every offset computed below.
        let _len = b.len();
        VnodeFdInfoWithPath {
            pfi: ProcFileInfo::decode_at(b, off),
            pvip: VnodeInfoPath::decode_at(b, off + 24),
        }
    }
}

impl Record for VnodeFdInfoWithPath {
    proof fn lemma_encoding_unique(x: Self, y: Self, b: Seq<u8>) {
        Self::lemma_encoded_at_unique(x, y, b, 0);
    }

    open spec fn byte_size() -> nat {
        1200
    }

    open spec fn encoded_by(self, b: Seq<u8>) -> bool {
        self.encoded_at(b, 0)
    }

    fn size() -> (r: usize) {
        1200
    }

    fn from_bytes(b: &[u8]) -> (r: Self) {
        Self::decode_at(b, 0)
    }
}

impl HasFdFlavor for VnodeFdInfoWithPath {
    open spec fn spec_flavor() -> ProcPidFdInfoFlavor {
        ProcPidFdInfoFlavor::PROC_PIDFDVNODEPATHINFO
    }

    fn flavor() -> (r: ProcPidFdInfoFlavor) {
        ProcPidFdInfoFlavor::PROC_PIDFDVNODEPATHINFO
    }
}

/// General information about a pipe. See [`PipeFdInfo`] for more specific information.
#[derive(Debug, Clone, Copy)]
pub struct PipeInfo {
    pub pipe_stat: VInfoStat,
    pub pipe_handle: u64,
    pub pipe_peerhandle: u64,
    pub pipe_status: i32,
    pub rfu_1: i32,
}

impl PipeInfo {
    /// The record is the one that `b` holds at `off`.
    pub open spec fn encoded_at(self, b: Seq<u8>, off: int) -> bool {
        &&& self.pipe_stat.encoded_at(b, off)
        &&& self.pipe_handle == le_u64(b, off + 136)
        &&& self.pipe_peerhandle == le_u64(b, off + 144)
        &&& self.pipe_status == le_i32(b, off + 152)
        &&& self.rfu_1 == le_i32(b, off + 156)
    }

    /// Only one record is encoded by the bytes at `off`.
    pub proof fn lemma_encoded_at_unique(x: Self, y: Self, b: Seq<u8>, off: int)
        requires
            x.encoded_at(b, off),
            y.encoded_at(b, off),
        ensures
            x == y,
    {
        VInfoStat::lemma_encoded_at_unique(x.pipe_stat, y.pipe_stat, b, off);
    }

    /// Reads the record that `b` holds at `off`.
    pub fn decode_at(b: &[u8], off: usize) -> (r: Self)
        requires
            off + 160 <= b@.len(),
        ensures
            r.encoded_at(b@, off as int),
    {
        // The slice length bounds every offset computed below.
        let _len = b.len();
        PipeInfo {
            pipe_stat: VInfoStat::decode_at(b, off),
            pipe_handle: read_u64(b, off + 136),
            pipe_peerhandle: read_u64(b, off + 144),
            pipe_status: read_i32(b, off + 152),
            rfu_1: read_i32(b, off + 156),
        }
    }
}

impl Record for PipeInfo {
    proof fn lemma_encoding_unique(x: Self, y: Self, b: Seq<u8>) {
        Self::lemma_encoded_at_unique(x, y, b, 0);
    }

    open spec fn byte_size() -> nat {
        160
    }

    open spec fn encoded_by(self, b: Seq<u8>) -> bool {
        self.encoded_at(b, 0)
    }

    fn size() -> (r: usize) {
        160
    }

    fn from_bytes(b: &[u8]) -> (r: Self) {
        Self::decode_at(b, 0)
    }
}

/// Information about [`ProcFDType::PIPE`] file descriptors.
#[derive(Debug, Clone, Copy)]
pub struct PipeFdInfo {
    pub pfi: ProcFileInfo,
    pub pipe_info: PipeInfo,
}

impl PipeFdInfo {
    /// The record is the one that `b` holds at `off`.
    pub open spec fn encoded_at(self, b: Seq<u8>, off: int) -> bool {
        &&& self.pfi.encoded_at(b, off)
        &&& self.pipe_info.encoded_at(b, off + 24)
    }

    /// Only one record is encoded by the bytes at `off`.
    pub proof fn lemma_encoded_at_unique(x: Self, y: Self, b: Seq<u8>, off: int)
        requires
            x.encoded_at(b, off),
            y.encoded_at(b, off),
        ensures
            x == y,
    {
        ProcFileInfo::lemma_encoded_at_unique(x.pfi, y.pfi, b, off);
        PipeInfo::lemma_encoded_at_unique(x.pipe_info, y.pipe_info, b, off + 24);
    }

    /// Reads the record that `b` holds at `off`.
    pub fn decode_at(b: &[u8], off: usize) -> (r: Self)
        requires
            off + 184 <= b@.len(),
        ensures
            r.encoded_at(b@, off as int),
    {
        // The slice length bounds every offset computed below.
        let _len = b.len();
        PipeFdInfo {
            pfi: ProcFileInfo::decode_at(b, off),
            pipe_info: PipeInfo::decode_at(b, off + 24),
        }
    }
}

impl Record for PipeFdInfo {
    proof fn lemma_encoding_unique(x: Self, y: Self, b: Seq<u8>) {
        Self::lemma_encoded_at_unique(x, y, b, 0);
    }

    open spec fn byte_size() -> nat {
        184
    }

    open spec fn encoded_by(self, b: Seq<u8>) -> bool {
        self.encoded_at(b, 0)
    }

    fn size() -> (r: usize) {
        184
    }

    fn from_bytes(b: &[u8]) -> (r: Self) {
        Self::decode_at(b, 0)
    }
}

impl HasFdFlavor for PipeFdInfo {
    open spec fn spec_flavor() -> ProcPidFdInfoFlavor {
        ProcPidFdInfoFlavor::PROC_PIDFDPIPEINFO
    }

    fn flavor() -> (r: ProcPidFdInfoFlavor) {
        ProcPidFdInfoFlavor::PROC_PIDFDPIPEINFO
    }
}

impl ProcFDInfo {
    /// Decodes the descriptor's type tag.
    pub fn fd_type(&self) -> (r: Result<ProcFDType, ValueError>)
        ensures
            match fd_type_of(self.proc_fdtype) {
                Some(t) => r == Ok::<ProcFDType, ValueError>(t),
                None => r == Err::<ProcFDType, ValueError>(ValueError::UnexpectedEnumValue),
            },
    {
        ProcFDType::from_raw(self.proc_fdtype)
    }
}

impl ProcFilePortInfo {
    /// Decodes the fileport's type tag.
    pub fn fd_type(&self) -> (r: Result<ProcFDType, ValueError>)
        ensures
            match fd_type_of(self.proc_fdtype) {
                Some(t) => r == Ok::<ProcFDType, ValueError>(t),
                None => r == Err::<ProcFDType, ValueError>(ValueError::UnexpectedEnumValue),
            },
    {
        ProcFDType::from_raw(self.proc_fdtype)
    }
}

impl ProcBSDShortInfo {
    /// The command name, decoded as UTF-8.
    pub fn comm(&self) -> (r: Result<&str, ValueError>)
        ensures
            match utf8_decode(c_str(self.pbsi_comm@)) {
                Some(t) => r matches Ok(s) && s@ == t,
                None => r == Err::<&str, ValueError>(ValueError::InvalidString),
            },
    {
        libc_str_to_str(self.pbsi_comm.as_slice())
    }
}

impl VnodeInfoPath {
    /// The vnode's path, as the bytes before the terminator.
    pub fn path(&self) -> (r: Result<&[u8], ValueError>)
        ensures
            r matches Ok(p) && p@ == c_str(self.vip_path@),
    {
        libc_str_to_path(self.vip_path.as_slice())
    }
}

impl VnodeFdInfoWithPath {
    /// The path of the descriptor's vnode, as the bytes before the terminator.
    pub fn path(&self) -> (r: Result<&[u8], ValueError>)
        ensures
            r matches Ok(p) && p@ == c_str(self.pvip.vip_path@),
    {
        self.pvip.path()
    }
}

} // verus!
