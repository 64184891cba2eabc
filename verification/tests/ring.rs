use perfcnt::linux::perf_format::PerfError;
use perfcnt::linux::{
    CommRecord, Event, EventHeader, ExitRecord, FileReadFormat, ForkRecord, LostRecord, MMAPPage,
    MMAPRecord, ReadRecord, SampleRecord, ThrottleRecord,
};

fn u16le(v: u16) -> Vec<u8> {
    v.to_le_bytes().to_vec()
}

fn u32le(v: u32) -> Vec<u8> {
    v.to_le_bytes().to_vec()
}

fn u64le(v: u64) -> Vec<u8> {
    v.to_le_bytes().to_vec()
}

fn cat(parts: &[Vec<u8>]) -> Vec<u8> {
    let mut out = Vec::new();
    for p in parts {
        out.extend_from_slice(p);
    }
    out
}

fn header(event_type: u32, size: u16) -> Vec<u8> {
    cat(&[u32le(event_type), u16le(1), u16le(size)])
}

fn page(data_head: u64, data_tail: u64) -> MMAPPage {
    MMAPPage {
        version: 0,
        compat_version: 0,
        lock: 0,
        index: 0,
        offset: 0,
        time_enabled: 0,
        time_running: 0,
        capabilities: 0,
        pmc_width: 0,
        time_shift: 0,
        time_mult: 0,
        time_offset: 0,
        reserved: [0; 120],
        data_head,
        data_tail,
    }
}

#[test]
fn file_read_format_has_four_words() {
    let bytes = cat(&[u64le(1000), u64le(20), u64le(10), u64le(7), vec![1]]);
    assert_eq!(
        FileReadFormat::from_bytes(&bytes).unwrap(),
        FileReadFormat { value: 1000, time_enabled: 20, time_running: 10, id: 7 }
    );
    assert_eq!(
        FileReadFormat::from_bytes(&bytes[..31]).unwrap_err(),
        PerfError::Truncated { expected: 32, available: 31 }
    );
    assert_eq!(
        FileReadFormat::default(),
        FileReadFormat { value: 0, time_enabled: 0, time_running: 0, id: 0 }
    );
}

#[test]
fn ring_offset_wraps_around() {
    let size = 16 * 4096;
    assert_eq!(page(0, 0).next_offset(size), None);
    assert_eq!(page(48, 0).next_offset(size), Some(0));
    assert_eq!(page(100, 48).next_offset(size), Some(48));
    assert_eq!(page(100, 100).next_offset(size), None);
    assert_eq!(page(100, 101).next_offset(size), None);
    assert_eq!(page(70000, 65536).next_offset(size), Some(0));
    assert_eq!(page(70000, 65536 + 24).next_offset(size), Some(24));
    assert_eq!(page(u64::MAX, u64::MAX - 1).next_offset(size), Some(65534));
    assert_eq!(page(10, 0).next_offset(0), None);
}

#[test]
fn ring_header() {
    let bytes = header(9, 104);
    assert_eq!(
        EventHeader::from_bytes(&bytes).unwrap(),
        EventHeader { event_type: 9, misc: 1, size: 104 }
    );
    assert_eq!(
        EventHeader::from_bytes(&bytes[..5]).unwrap_err(),
        PerfError::Truncated { expected: 8, available: 5 }
    );
    assert_eq!(EventHeader::default(), EventHeader { event_type: 0, misc: 0, size: 0 });
}

#[test]
fn ring_mmap_record() {
    let bytes = cat(&[
        header(1, 56),
        u32le(17),
        u32le(18),
        u64le(0x400000),
        u64le(0x1000),
        u64le(0x20),
        b"/bin/ls\0junk".to_vec(),
    ]);
    let v = MMAPRecord::from_bytes(&bytes).unwrap();
    assert_eq!(v.header, EventHeader { event_type: 1, misc: 1, size: 56 });
    assert_eq!(v.pid, 17);
    assert_eq!(v.tid, 18);
    assert_eq!(v.addr, 0x400000);
    assert_eq!(v.len, 0x1000);
    assert_eq!(v.pgoff, 0x20);
    assert_eq!(v.filename, "/bin/ls");
    let v = MMAPRecord::from_bytes(&bytes[..44]).unwrap();
    assert_eq!(v.filename, "/bin");
    let v = MMAPRecord::from_bytes(&bytes[..40]).unwrap();
    assert_eq!(v.filename, "");
    assert_eq!(
        MMAPRecord::from_bytes(&bytes[..39]).unwrap_err(),
        PerfError::Truncated { expected: 40, available: 39 }
    );
}

#[test]
fn ring_lost_record() {
    let bytes = cat(&[header(2, 24), u64le(5), u64le(600)]);
    assert_eq!(
        LostRecord::from_bytes(&bytes).unwrap(),
        LostRecord { header: EventHeader { event_type: 2, misc: 1, size: 24 }, id: 5, lost: 600 }
    );
    assert_eq!(
        LostRecord::from_bytes(&bytes[..23]).unwrap_err(),
        PerfError::Truncated { expected: 24, available: 23 }
    );
}

#[test]
fn ring_comm_record() {
    let bytes = cat(&[header(3, 24), u32le(5), u32le(6), b"cat\0\0\0\0\0".to_vec()]);
    let v = CommRecord::from_bytes(&bytes).unwrap();
    assert_eq!(v.pid, 5);
    assert_eq!(v.tid, 6);
    assert_eq!(v.comm, "cat");
    assert_eq!(
        CommRecord::from_bytes(&bytes[..15]).unwrap_err(),
        PerfError::Truncated { expected: 16, available: 15 }
    );
}

#[test]
fn ring_exit_and_fork_records() {
    let bytes = cat(&[header(4, 32), u32le(1), u32le(2), u32le(3), u32le(4), u64le(5)]);
    assert_eq!(
        ExitRecord::from_bytes(&bytes).unwrap(),
        ExitRecord {
            header: EventHeader { event_type: 4, misc: 1, size: 32 },
            pid: 1,
            ppid: 2,
            tid: 3,
            ptid: 4,
            time: 5,
        }
    );
    assert_eq!(
        ForkRecord::from_bytes(&bytes).unwrap(),
        ForkRecord {
            header: EventHeader { event_type: 4, misc: 1, size: 32 },
            pid: 1,
            ppid: 2,
            tid: 3,
            ptid: 4,
            time: 5,
        }
    );
    assert_eq!(
        ExitRecord::from_bytes(&bytes[..31]).unwrap_err(),
        PerfError::Truncated { expected: 32, available: 31 }
    );
    assert_eq!(
        ForkRecord::from_bytes(&bytes[..8]).unwrap_err(),
        PerfError::Truncated { expected: 32, available: 8 }
    );
}

#[test]
fn ring_throttle_record() {
    let bytes = cat(&[header(5, 32), u64le(1), u64le(2), u64le(3)]);
    assert_eq!(
        ThrottleRecord::from_bytes(&bytes).unwrap(),
        ThrottleRecord {
            header: EventHeader { event_type: 5, misc: 1, size: 32 },
            time: 1,
            id: 2,
            stream_id: 3,
        }
    );
    assert_eq!(
        ThrottleRecord::from_bytes(&[]).unwrap_err(),
        PerfError::Truncated { expected: 32, available: 0 }
    );
}

#[test]
fn ring_read_record() {
    let bytes = cat(&[header(8, 48), u32le(1), u32le(2), u64le(3), u64le(4), u64le(5), u64le(6)]);
    assert_eq!(
        ReadRecord::from_bytes(&bytes).unwrap(),
        ReadRecord {
            header: EventHeader { event_type: 8, misc: 1, size: 48 },
            pid: 1,
            tid: 2,
            value: FileReadFormat { value: 3, time_enabled: 4, time_running: 5, id: 6 },
        }
    );
    assert_eq!(
        ReadRecord::from_bytes(&bytes[..47]).unwrap_err(),
        PerfError::Truncated { expected: 48, available: 47 }
    );
}

fn sample_bytes() -> Vec<u8> {
    cat(&[
        header(9, 104),
        u64le(0x1111),
        u32le(2),
        u32le(3),
        u64le(4),
        u64le(5),
        u64le(6),
        u32le(7),
        u32le(8),
        u32le(9),
        u32le(10),
        u64le(11),
        u64le(12),
        u64le(13),
        u64le(14),
        u64le(15),
    ])
}

#[test]
fn ring_sample_record() {
    let bytes = sample_bytes();
    assert_eq!(bytes.len(), 104);
    let v = SampleRecord::from_bytes(&bytes).unwrap();
    assert_eq!(v.header, EventHeader { event_type: 9, misc: 1, size: 104 });
    assert_eq!(v.ip, 0x1111);
    assert_eq!(v.pid, 2);
    assert_eq!(v.tid, 3);
    assert_eq!(v.time, 4);
    assert_eq!(v.addr, 5);
    assert_eq!(v.id, 6);
    assert_eq!(v.stream_id, 7 | (8 << 32));
    assert_eq!(v.cpu, 8);
    assert_eq!(v.res, 9);
    assert_eq!(v.period, 11);
    assert_eq!(v.v, FileReadFormat { value: 12, time_enabled: 13, time_running: 14, id: 15 });
    assert!(v.ips.is_empty());
    assert!(v.raw_sample.is_empty());
    assert!(v.lbr.is_empty());
    assert_eq!(v.abi, 0);
    assert!(v.regs.is_empty());
    assert!(v.user_stack.is_empty());
    assert_eq!(v.dyn_size, 0);
    assert_eq!(v.weight, 0);
    assert_eq!(v.data_str, 0);
    assert_eq!(
        SampleRecord::from_bytes(&bytes[..103]).unwrap_err(),
        PerfError::Truncated { expected: 104, available: 103 }
    );
}

#[test]
fn ring_events_are_picked_by_type() {
    let mut body = vec![0_u8; 120];
    let mut code = 1;
    while code <= 9 {
        body[..4].copy_from_slice(&u32le(code));
        let ev = Event::from_bytes(&body).unwrap();
        let matches = match (code, &ev) {
            (1, Event::MMAP(_)) => true,
            (2, Event::Lost(_)) => true,
            (3, Event::Comm(_)) => true,
            (4, Event::Exit(_)) => true,
            (5, Event::Throttle(_)) => true,
            (6, Event::Unthrottle(_)) => true,
            (7, Event::Fork(_)) => true,
            (8, Event::Read(_)) => true,
            (9, Event::Sample(_)) => true,
            _ => false,
        };
        assert!(matches);
        code += 1;
    }
    let bytes = cat(&[header(6, 32), u64le(1), u64le(2), u64le(3)]);
    assert_eq!(
        Event::from_bytes(&bytes).unwrap(),
        Event::Unthrottle(ThrottleRecord {
            header: EventHeader { event_type: 6, misc: 1, size: 32 },
            time: 1,
            id: 2,
            stream_id: 3,
        })
    );
}

#[test]
fn ring_events_of_other_types_are_refused() {
    let mut body = vec![0_u8; 120];
    for code in [0_u32, 10, 11, 67, 68, 1000].iter() {
        body[..4].copy_from_slice(&u32le(*code));
        assert_eq!(Event::from_bytes(&body).unwrap_err(), PerfError::UnknownRecordType(*code));
    }
}

#[test]
fn ring_events_need_their_bytes() {
    assert_eq!(
        Event::from_bytes(&[1, 0, 0]).unwrap_err(),
        PerfError::Truncated { expected: 8, available: 3 }
    );
    let bytes = cat(&[header(9, 104), vec![0; 50]]);
    assert_eq!(
        Event::from_bytes(&bytes).unwrap_err(),
        PerfError::Truncated { expected: 104, available: 58 }
    );
    let bytes = header(2, 24);
    assert_eq!(
        Event::from_bytes(&bytes).unwrap_err(),
        PerfError::Truncated { expected: 24, available: 8 }
    );
}
