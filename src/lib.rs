//! A typed layer over the per-process introspection API of Apple kernels
//! (`proc_pidinfo`, `proc_pidfdinfo`, `proc_pidfileportinfo`).
//!
//! The library decides everything about a query without making the kernel
//! call itself: a query names its entry point, selector and buffer size, and
//! reading the kernel's reply (a fixed-size record, or an array of records
//! fetched with a growing buffer) is done by verified code. Records embed
//! NUL-terminated text and a descriptor-type tag, which are decoded here too.

mod bytes;
mod error;
mod fd_type;
mod flavor;
mod ids;
mod query;
mod records;
mod text;

pub use error::{QueryError, ValueError};
pub use fd_type::ProcFDType;
pub use flavor::{
    HasFdFlavor, HasFlavor, HasFlavorList, ProcPidFdInfoFlavor, ProcPidInfoFlavor, Record,
    MAX_RECORD_SIZE,
};
pub use ids::{Fd, FilePort, Pid};
pub use query::{
    check_fixed_reply, proc_pidfdinfo, proc_pidfdinfo_self, proc_pidfileportinfo,
    proc_pidfileportinfo_self, proc_pidinfo, proc_pidinfo_list, proc_pidinfo_list_self,
    proc_pidinfo_self, EntryPoint, ListQuery, ListStep, RecordQuery, Target,
    DEFAULT_LIST_RECORDS, MAX_BUFFER,
};
pub use records::{
    PipeFdInfo, PipeInfo, ProcBSDInfo, ProcBSDShortInfo, ProcFDInfo, ProcFileInfo,
    ProcFilePortInfo, ProcTaskAllInfo, ProcTaskInfo, VInfoStat, VnodeFdInfo, VnodeFdInfoWithPath,
    VnodeInfo, VnodeInfoPath, DOUBLE_MAXCOMLEN, MAXCOMLEN, MAXPATHLEN,
};
pub use text::{c_str_bytes, libc_str_to_path, libc_str_to_str};
