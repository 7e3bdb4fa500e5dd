use proc_pidinfo::{
    check_fixed_reply, libc_str_to_path, libc_str_to_str, proc_pidfdinfo, proc_pidinfo,
    proc_pidinfo_list, c_str_bytes, EntryPoint, Fd, ListStep, Pid, PipeFdInfo, ProcBSDInfo,
    ProcFDInfo, ProcFDType, ProcFilePortInfo, ProcPidFdInfoFlavor, ProcPidInfoFlavor,
    ProcTaskInfo, QueryError, Record, Target, ValueError, VnodeFdInfo, VnodeFdInfoWithPath,
    MAX_BUFFER,
};

#[test]
fn fixed_reply_negative_is_os_error() {
    assert_eq!(check_fixed_reply(-1, 3, 64), Err(QueryError::OsError(3)));
}

#[test]
fn fixed_reply_zero_is_absence() {
    assert_eq!(check_fixed_reply(0, 0, 64), Ok(false));
}

#[test]
fn fixed_reply_exact_is_record() {
    assert_eq!(check_fixed_reply(64, 0, 64), Ok(true));
}

#[test]
fn fixed_reply_other_size_is_malformed() {
    assert_eq!(check_fixed_reply(32, 0, 64), Err(QueryError::MalformedResponse));
    assert_eq!(check_fixed_reply(65, 0, 64), Err(QueryError::MalformedResponse));
}

#[test]
fn fixed_query_reads_record_or_nothing() {
    let q = proc_pidinfo::<ProcTaskInfo>(Pid(7));
    assert_eq!(q.target, Target::Process(Pid(7)));
    assert_eq!(q.entry, EntryPoint::Process);
    assert_eq!(q.flavor, 4);
    assert_eq!(q.buffer_size, 96);
    let mut buffer = vec![0u8; 96];
    buffer[0] = 0x10;
    buffer[48..52].copy_from_slice(&(-2i32).to_le_bytes());
    let info = q.finish(96, 0, &buffer).unwrap().unwrap();
    assert_eq!(info.pti_virtual_size, 0x10);
    assert_eq!(info.pti_policy, -2);
    assert!(q.finish(0, 0, &buffer).unwrap().is_none());
    assert_eq!(q.finish(-1, 1, &buffer).err(), Some(QueryError::OsError(1)));
    assert_eq!(q.finish(95, 0, &buffer).err(), Some(QueryError::MalformedResponse));
}

#[test]
fn fd_query_uses_descriptor_flavors() {
    let q = proc_pidfdinfo::<PipeFdInfo>(Pid(3), Fd(5));
    assert_eq!(q.entry, EntryPoint::Descriptor(Fd(5)));
    assert_eq!(q.flavor, 6);
    assert_eq!(q.buffer_size, 184);
    assert_eq!(proc_pidfdinfo::<VnodeFdInfo>(Pid(3), Fd(5)).flavor, 1);
    let q = proc_pidfdinfo::<VnodeFdInfoWithPath>(Pid(3), Fd(5));
    assert_eq!(q.flavor, 2);
    assert_eq!(q.buffer_size, 1200);
}

#[test]
fn flavor_codes() {
    assert_eq!(ProcPidInfoFlavor::PROC_PIDLISTFDS.code(), 1);
    assert_eq!(ProcPidInfoFlavor::PROC_PIDT_SHORTBSDINFO.code(), 13);
    assert_eq!(ProcPidInfoFlavor::PROC_PID_RUSAGE.code(), 16);
    assert_eq!(ProcPidFdInfoFlavor::PROC_PIDFDATALKINFO.code(), 8);
    assert_eq!(ProcPidFdInfoFlavor::PROC_PIDFDCHANNELINFO.code(), 10);
}

#[test]
fn record_sizes_follow_the_abi() {
    assert_eq!(ProcFDInfo::size(), 8);
    assert_eq!(ProcBSDInfo::size(), 136);
    assert_eq!(ProcTaskInfo::size(), 96);
}

#[test]
fn list_probe_failure_is_os_error() {
    let mut q = proc_pidinfo_list::<ProcFDInfo>(Pid(1));
    assert_eq!(q.capacity, 0);
    assert!(matches!(q.on_reply(-1, 1, &[]), ListStep::Failed(QueryError::OsError(1))));
}

#[test]
fn list_probe_without_hint_makes_room_for_sixteen() {
    let mut q = proc_pidinfo_list::<ProcFDInfo>(Pid(1));
    assert!(matches!(q.on_reply(0, 0, &[]), ListStep::Call(128)));
    assert_eq!(q.capacity, 128);
}

#[test]
fn list_probe_hint_is_used() {
    let mut q = proc_pidinfo_list::<ProcFilePortInfo>(Pid(1));
    assert_eq!(q.flavor, 14);
    assert!(matches!(q.on_reply(40, 0, &[]), ListStep::Call(40)));
}

#[test]
fn list_non_multiple_reply_is_malformed() {
    let mut q = proc_pidinfo_list::<ProcFDInfo>(Pid(1));
    q.on_reply(0, 0, &[]);
    let buffer = vec![0u8; 128];
    assert!(matches!(q.on_reply(12, 0, &buffer), ListStep::Failed(QueryError::MalformedResponse)));
}

#[test]
fn list_reply_beyond_buffer_is_malformed() {
    let mut q = proc_pidinfo_list::<ProcFDInfo>(Pid(1));
    q.on_reply(0, 0, &[]);
    let buffer = vec![0u8; 128];
    assert!(matches!(q.on_reply(136, 0, &buffer), ListStep::Failed(QueryError::MalformedResponse)));
}

#[test]
fn list_negative_reply_is_os_error() {
    let mut q = proc_pidinfo_list::<ProcFDInfo>(Pid(1));
    q.on_reply(0, 0, &[]);
    let buffer = vec![0u8; 128];
    assert!(matches!(q.on_reply(-1, 13, &buffer), ListStep::Failed(QueryError::OsError(13))));
}

#[test]
fn list_full_reply_always_grows() {
    let mut q = proc_pidinfo_list::<ProcFDInfo>(Pid(1));
    q.on_reply(16, 0, &[]);
    let mut expected = 32;
    for _ in 0..4 {
        let cap = q.capacity;
        let buffer = vec![0u8; cap];
        match q.on_reply(cap as i32, 0, &buffer) {
            ListStep::Call(n) => assert_eq!(n, expected),
            _ => panic!("a full buffer must grow"),
        }
        expected *= 2;
    }
    assert_eq!(q.capacity, 256);
}

#[test]
fn list_growth_stops_at_largest_buffer() {
    let mut q = proc_pidinfo_list::<ProcFDInfo>(Pid(1));
    q.on_reply(0x7000_0000, 0, &[]);
    assert_eq!(q.capacity, 0x7000_0000);
    q.capacity = 0x10;
    let buffer = vec![0u8; 0x10];
    q.on_reply(0x10, 0, &buffer);
    assert_eq!(q.capacity, 0x20);
    assert!(MAX_BUFFER == 0x7fff_ffff);
}

#[test]
fn list_records_come_in_kernel_order() {
    let mut q = proc_pidinfo_list::<ProcFDInfo>(Pid(1));
    q.on_reply(0, 0, &[]);
    let mut buffer = vec![0u8; 128];
    buffer[0..4].copy_from_slice(&7i32.to_le_bytes());
    buffer[4..8].copy_from_slice(&1u32.to_le_bytes());
    buffer[8..12].copy_from_slice(&(-1i32).to_le_bytes());
    buffer[12..16].copy_from_slice(&99u32.to_le_bytes());
    match q.on_reply(16, 0, &buffer) {
        ListStep::Done(v) => {
            assert_eq!(v.len(), 2);
            assert_eq!(v[0].proc_fd, Fd(7));
            assert_eq!(v[0].fd_type(), Ok(ProcFDType::VNODE));
            assert_eq!(v[1].proc_fd, Fd(-1));
            assert_eq!(v[1].fd_type(), Err(ValueError::UnexpectedEnumValue));
        }
        _ => panic!("expected records"),
    }
}

#[test]
fn fd_type_tags() {
    let known = [
        (0, ProcFDType::ATALK),
        (1, ProcFDType::VNODE),
        (2, ProcFDType::SOCKET),
        (3, ProcFDType::PSHM),
        (4, ProcFDType::PSEM),
        (5, ProcFDType::KQUEUE),
        (6, ProcFDType::PIPE),
        (7, ProcFDType::FSEVENTS),
        (9, ProcFDType::NETPOLICY),
        (10, ProcFDType::CHANNEL),
        (11, ProcFDType::NEXUS),
    ];
    for (raw, t) in known {
        assert_eq!(ProcFDType::from_raw(raw), Ok(t));
        assert_eq!(t.raw(), raw);
    }
    for raw in [8, 12, 0xffff_ffff] {
        assert_eq!(ProcFDType::from_raw(raw), Err(ValueError::UnexpectedEnumValue));
    }
}

#[test]
fn text_without_nul_is_whole_array() {
    assert_eq!(libc_str_to_str(b"abcd"), Ok("abcd"));
    assert_eq!(c_str_bytes(b"abcd"), b"abcd");
}

#[test]
fn text_stops_at_first_nul() {
    assert_eq!(libc_str_to_str(b"ab\0cd\0"), Ok("ab"));
    assert_eq!(libc_str_to_str(b"\0abc"), Ok(""));
    assert_eq!(libc_str_to_str(b""), Ok(""));
}

#[test]
fn text_decoding_is_repeatable() {
    let bytes = *b"launchd\0\0\0\0\0\0\0\0\0";
    assert_eq!(libc_str_to_str(&bytes), libc_str_to_str(&bytes));
    assert_eq!(libc_str_to_str(&bytes), Ok("launchd"));
}

#[test]
fn text_invalid_utf8_is_error() {
    assert_eq!(libc_str_to_str(&[0x61, 0xff, 0x62]), Err(ValueError::InvalidString));
    assert_eq!(libc_str_to_str(&[0x61, 0, 0xff]), Ok("a"));
    assert_eq!(libc_str_to_str("é".as_bytes()), Ok("é"));
}

#[test]
fn path_accepts_any_bytes() {
    assert_eq!(libc_str_to_path(&[0x2f, 0xff, 0, 0x41]), Ok(&[0x2f, 0xff][..]));
    assert_eq!(libc_str_to_path(b"/tmp"), Ok(&b"/tmp"[..]));
}

#[test]
fn bsd_info_decodes_fields() {
    let mut b = vec![0u8; 136];
    b[12..16].copy_from_slice(&77u32.to_le_bytes());
    b[48..52].copy_from_slice(b"init");
    b[64..67].copy_from_slice(b"foo");
    b[116..120].copy_from_slice(&(-5i32).to_le_bytes());
    b[128..136].copy_from_slice(&0x0102_0304_0506_0708u64.to_le_bytes());
    let info = ProcBSDInfo::from_bytes(&b);
    assert_eq!(info.pbi_pid, Pid(77));
    assert_eq!(&info.pbi_comm[..4], b"init");
    assert_eq!(&info.pbi_name[..3], b"foo");
    assert_eq!(info.pbi_nice, -5);
    assert_eq!(info.pbi_start_tvusec, 0x0102_0304_0506_0708);
}

#[test]
fn vnode_info_decodes_nested_fields() {
    let mut b = vec![0u8; 1200];
    b[8..16].copy_from_slice(&(-3i64).to_le_bytes());
    b[24 + 4..24 + 6].copy_from_slice(&0o100644u16.to_le_bytes());
    b[24 + 128..24 + 136].copy_from_slice(&9i64.to_le_bytes());
    b[24 + 148..24 + 152].copy_from_slice(&(-7i32).to_le_bytes());
    b[176..180].copy_from_slice(b"/etc");
    let info = VnodeFdInfoWithPath::from_bytes(&b);
    assert_eq!(info.pfi.fi_offset, -3);
    assert_eq!(info.pvip.vip_vi.vi_stat.vst_mode, 0o100644);
    assert_eq!(info.pvip.vip_vi.vi_stat.vst_qspare, [0, 9]);
    assert_eq!(info.pvip.vip_vi.vi_fsid, [0, -7]);
    assert_eq!(info.path(), Ok(&b"/etc"[..]));
}
