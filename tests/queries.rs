use proc_pidinfo::{
    proc_pidfdinfo_self, proc_pidfileportinfo, proc_pidfileportinfo_self, proc_pidinfo,
    proc_pidinfo_list, proc_pidinfo_list_self, proc_pidinfo_self, EntryPoint, Fd, FilePort,
    HasFlavorList, ListQuery, ListStep, Pid, ProcBSDShortInfo, ProcFDInfo, ProcFDType,
    ProcFilePortInfo, ProcTaskAllInfo, QueryError, Record, RecordQuery, Target, VnodeFdInfo,
    VnodeFdInfoWithPath,
};

/// The process id that the synthetic kernel gives the calling process.
const SELF_PID: u32 = 4242;

fn put_u32(buf: &mut [u8], off: usize, v: u32) {
    buf[off..off + 4].copy_from_slice(&v.to_le_bytes());
}

fn put_bytes(buf: &mut [u8], off: usize, s: &[u8]) {
    buf[off..off + s.len()].copy_from_slice(s);
}

/// A stand-in for the kernel's entry points: the calling process has three
/// descriptors (a vnode, a pipe and a socket) and one vnode fileport; process
/// 1 has a vnode and a pipe fileport; process 0 has nothing to list.
fn resolve(target: Target) -> u32 {
    match target {
        Target::CallingProcess => SELF_PID,
        Target::Process(p) => p.0,
    }
}

fn list_payload(pid: u32, flavor: i32) -> Vec<u8> {
    let entries: Vec<(u32, u32)> = match (pid, flavor) {
        (SELF_PID, 1) => vec![(0, 1), (1, 6), (3, 2)],
        (SELF_PID, 14) => vec![(0x1003, 1)],
        (1, 14) => vec![(0x2003, 1), (0x2007, 6)],
        _ => vec![],
    };
    let mut out = vec![0u8; entries.len() * 8];
    for (i, (id, kind)) in entries.iter().enumerate() {
        put_u32(&mut out, i * 8, *id);
        put_u32(&mut out, i * 8 + 4, *kind);
    }
    out
}

fn list_call(pid: u32, flavor: i32, capacity: usize) -> (i32, Vec<u8>) {
    let payload = list_payload(pid, flavor);
    let mut buffer = vec![0u8; capacity];
    if capacity == 0 {
        return (payload.len() as i32, buffer);
    }
    let n = payload.len().min(capacity);
    buffer[..n].copy_from_slice(&payload[..n]);
    (n as i32, buffer)
}

fn record_call(pid: u32, entry: EntryPoint, flavor: i32, size: usize) -> (i32, Vec<u8>) {
    let mut buffer = vec![0u8; size];
    let written = match (entry, flavor) {
        (EntryPoint::Process, 13) => {
            put_u32(&mut buffer, 0, pid);
            put_u32(&mut buffer, 4, 1);
            put_bytes(&mut buffer, 16, if pid == 0 { b"kernel_task" } else { b"tester" });
            true
        }
        (EntryPoint::Process, 2) => {
            put_u32(&mut buffer, 12, pid);
            put_u32(&mut buffer, 16, 1);
            true
        }
        (EntryPoint::Descriptor(Fd(0)), 1 | 2) => true,
        (EntryPoint::FilePort(FilePort(0x1003 | 0x2003)), 1 | 2) => true,
        _ => false,
    };
    if written && flavor == 2 && size == 1200 {
        put_bytes(&mut buffer, 24 + 152, b"/dev/ttys001");
    }
    (if written { size as i32 } else { 0 }, buffer)
}

fn run_list<T: HasFlavorList>(mut q: ListQuery<T>) -> Result<Vec<T>, QueryError> {
    let pid = resolve(q.target);
    loop {
        let (res, buffer) = list_call(pid, q.flavor, q.capacity);
        match q.on_reply(res, 0, &buffer) {
            ListStep::Call(_) => {}
            ListStep::Done(v) => return Ok(v),
            ListStep::Failed(e) => return Err(e),
        }
    }
}

fn run_record<T: Record>(q: RecordQuery<T>) -> Result<Option<T>, QueryError> {
    let (res, buffer) = record_call(resolve(q.target), q.entry, q.flavor, q.buffer_size);
    q.finish(res, 0, &buffer)
}

#[test]
fn test_proc_pidinfo_pid_zero() {
    let result = run_list(proc_pidinfo_list::<ProcFDInfo>(Pid(0))).unwrap();
    assert!(result.is_empty());
}

#[test]
fn test_proc_pidinfo_fileport_zero() {
    let result = run_list(proc_pidinfo_list::<ProcFilePortInfo>(Pid(0))).unwrap();
    assert!(result.is_empty());
}

#[test]
fn test_proc_pidinfo_fileport_one() {
    let result = run_list(proc_pidinfo_list::<ProcFilePortInfo>(Pid(1))).unwrap();
    for port in result {
        println!("{:?}", port);
        if port.fd_type() == Ok(ProcFDType::VNODE) {
            let vnode = run_record(proc_pidfileportinfo::<VnodeFdInfo>(Pid(1), port.proc_fileport))
                .unwrap()
                .unwrap();
            println!("{:?}", vnode);
        }
    }
}

#[test]
fn test_proc_pidinfo_self() {
    let result = run_list(proc_pidinfo_list_self::<ProcFDInfo>()).unwrap();
    for fd in result {
        if fd.fd_type() == Ok(ProcFDType::VNODE) {
            let vnode = run_record(proc_pidfdinfo_self::<VnodeFdInfo>(fd.proc_fd))
                .unwrap()
                .unwrap();
            println!("{:?}", vnode);
            if let Some(vnode) =
                run_record(proc_pidfdinfo_self::<VnodeFdInfoWithPath>(fd.proc_fd)).unwrap()
            {
                println!("Path: {:?}", vnode.path().unwrap());
            }
        } else {
            let res = run_record(proc_pidfdinfo_self::<VnodeFdInfo>(fd.proc_fd)).unwrap();
            assert!(res.is_none());
        }
    }
}

#[test]
fn test_proc_pidinfo_fileport_self() {
    let result = run_list(proc_pidinfo_list_self::<ProcFilePortInfo>()).unwrap();
    for port in result {
        if port.fd_type() == Ok(ProcFDType::VNODE) {
            let vnode = run_record(proc_pidfileportinfo_self::<VnodeFdInfo>(port.proc_fileport))
                .unwrap()
                .unwrap();
            println!("{:?}", vnode);
            if let Some(vnode) =
                run_record(proc_pidfileportinfo_self::<VnodeFdInfoWithPath>(port.proc_fileport))
                    .unwrap()
            {
                println!("Path: {:?}", vnode.path().unwrap());
            }
        } else {
            let res =
                run_record(proc_pidfileportinfo_self::<VnodeFdInfo>(port.proc_fileport)).unwrap();
            assert!(res.is_none());
        }
    }
}

#[test]
fn test_proc_task_info_self() {
    let result = run_record(proc_pidinfo_self::<ProcTaskAllInfo>()).unwrap().unwrap();
    assert_eq!(result.pbsd.pbi_pid, Pid(SELF_PID));
    println!("{:?}", result);
}

#[test]
fn test_proc_task_info_short_self() {
    let result = run_record(proc_pidinfo_self::<ProcBSDShortInfo>()).unwrap().unwrap();
    assert_eq!(result.pbsi_pid, Pid(SELF_PID));
    println!("{:?}", result);
}

#[test]
fn test_proc_task_info_short_zero() {
    let result = run_record(proc_pidinfo::<ProcBSDShortInfo>(Pid(0))).unwrap().unwrap();
    assert_eq!(result.pbsi_pid, Pid(0));
    println!("{:?}", result);
    println!("{}", result.comm().unwrap());
}

#[test]
fn short_bsd_info_of_calling_process_names_it() {
    let info = run_record(proc_pidinfo_self::<ProcBSDShortInfo>()).unwrap().unwrap();
    assert_eq!(info.pbsi_pid, Pid(SELF_PID));
    assert_eq!(info.pbsi_ppid, Pid(1));
    let name = info.comm().unwrap();
    assert_eq!(name, "tester");
    assert!(!name.is_empty());
    assert!(!name.contains('\0'));
}

#[test]
fn vnode_descriptors_have_known_tags_and_details() {
    let fds = run_list(proc_pidinfo_list_self::<ProcFDInfo>()).unwrap();
    assert_eq!(fds.len(), 3);
    assert_eq!(fds[0].proc_fd, Fd(0));
    assert_eq!(fds[1].fd_type(), Ok(ProcFDType::PIPE));
    assert_eq!(fds[2].fd_type(), Ok(ProcFDType::SOCKET));
    let mut vnodes = 0;
    for fd in fds {
        let kind = fd.fd_type();
        assert!(kind.is_ok());
        if kind == Ok(ProcFDType::VNODE) {
            vnodes += 1;
            let detail = run_record(proc_pidfdinfo_self::<VnodeFdInfoWithPath>(fd.proc_fd))
                .unwrap()
                .unwrap();
            assert_eq!(detail.path().unwrap(), b"/dev/ttys001");
        }
    }
    assert_eq!(vnodes, 1);
}

#[test]
fn list_queries_repeat_identically_on_unchanged_state() {
    let a = run_list(proc_pidinfo_list::<ProcFilePortInfo>(Pid(1))).unwrap();
    let b = run_list(proc_pidinfo_list::<ProcFilePortInfo>(Pid(1))).unwrap();
    assert_eq!(a.len(), 2);
    assert_eq!(a.len(), b.len());
    for (x, y) in a.iter().zip(b.iter()) {
        assert_eq!(x.proc_fileport, y.proc_fileport);
        assert_eq!(x.proc_fdtype, y.proc_fdtype);
    }
    assert_eq!(a[1].proc_fileport, FilePort(0x2007));
}
