use perfcnt::linux::perf_file::PerfFile;
use perfcnt::linux::perf_format::{
    EventData, EventType, HeaderFlag, NrCpus, PerfError, PerfFileSection,
};

fn u16le(v: u16) -> Vec<u8> {
    v.to_le_bytes().to_vec()
}

fn u32le(v: u32) -> Vec<u8> {
    v.to_le_bytes().to_vec()
}

fn u64le(v: u64) -> Vec<u8> {
    v.to_le_bytes().to_vec()
}

fn i32le(v: i32) -> Vec<u8> {
    v.to_le_bytes().to_vec()
}

fn cat(parts: &[Vec<u8>]) -> Vec<u8> {
    let mut out = Vec::new();
    for p in parts {
        out.extend_from_slice(p);
    }
    out
}

fn string(text: &str, padded_to: usize) -> Vec<u8> {
    let mut bytes = text.as_bytes().to_vec();
    while bytes.len() < padded_to {
        bytes.push(0);
    }
    cat(&[u32le(bytes.len() as u32), bytes])
}

fn record(event_type: u32, payload: &[u8]) -> Vec<u8> {
    cat(&[u32le(event_type), u16le(0), u16le(8 + payload.len() as u16), payload.to_vec()])
}

fn attr_entry(size: usize, sample_type: u64, read_format: u64) -> Vec<u8> {
    let mut block = cat(&[
        u32le(0),
        u32le(112),
        u64le(0),
        u64le(0),
        u64le(sample_type),
        u64le(read_format),
    ]);
    block.resize(size, 0);
    block
}

const HEADER: usize = 136;

/// A file: the header, padded to 136 bytes; the attribute entries; the data;
/// the section table; the sections.
fn file(
    flag_bytes: [u8; 3],
    attr_size: u64,
    attrs: &[u8],
    data: &[u8],
    sections: &[Vec<u8>],
) -> Vec<u8> {
    let attrs_at = HEADER;
    let data_at = attrs_at + attrs.len();
    let table_at = data_at + data.len();
    let mut bytes = cat(&[
        b"PERFILE2".to_vec(),
        u64le(HEADER as u64),
        u64le(attr_size),
        u64le(attrs_at as u64),
        u64le(attrs.len() as u64),
        u64le(data_at as u64),
        u64le(data.len() as u64),
        u64le(0),
        u64le(0),
        flag_bytes.to_vec(),
    ]);
    bytes.resize(HEADER, 0);
    bytes.extend_from_slice(attrs);
    bytes.extend_from_slice(data);
    let mut at = table_at + 16 * sections.len();
    for s in sections {
        bytes.extend_from_slice(&u64le(at as u64));
        bytes.extend_from_slice(&u64le(s.len() as u64));
        at += s.len();
    }
    for s in sections {
        bytes.extend_from_slice(s);
    }
    bytes
}

fn mmap_record() -> Vec<u8> {
    record(
        1,
        &cat(&[
            i32le(17),
            u32le(17),
            u64le(0x400000),
            u64le(0x1000),
            u64le(0),
            b"a.out\0\0\0".to_vec(),
        ]),
    )
}

#[test]
fn minimal_header() {
    let mut bytes = vec![0_u8; 136];
    bytes[..8].copy_from_slice(b"PERFILE2");
    bytes[8] = 136;
    let pf = PerfFile::new(bytes).unwrap();
    assert_eq!(pf.header.size, 136);
    assert_eq!(pf.header.attr_size, 0);
    assert!(pf.attrs.is_empty());
    let mut records = pf.data();
    assert!(records.next().is_none());
    assert_eq!(records.error(), None);
    assert!(pf.data().collect().is_empty());
    assert!(pf.get_build_id().is_none());
    assert!(pf.get_hostname().is_none());
    assert!(pf.get_os_release().is_none());
    assert!(pf.get_version().is_none());
    assert!(pf.get_arch().is_none());
    assert!(pf.get_nr_cpus().is_none());
    assert!(pf.get_cpu_description().is_none());
    assert!(pf.get_cpu_id().is_none());
    assert!(pf.get_total_memory().is_none());
    assert!(pf.get_cmd_line().is_none());
    assert!(pf.get_event_description().is_none());
    assert!(pf.get_cpu_topology().is_none());
    assert!(pf.get_numa_topology().is_none());
    assert!(pf.get_pmu_mappings().is_none());
    assert!(pf.get_group_descriptions().is_none());
    assert!(pf.get_tracing_data().is_none());
    assert!(pf.get_branch_stack().is_none());
    assert_eq!(pf.sections().unwrap(), vec![]);
}

#[test]
fn file_with_a_single_mmap_record() {
    let pf = PerfFile::new(file([0, 0, 0], 0, &[], &mmap_record(), &[])).unwrap();
    assert_eq!(pf.header.data.size, 48);
    let mut records = pf.data();
    let ev = records.next().unwrap();
    assert_eq!(ev.header.event_type, EventType::Mmap);
    assert_eq!(ev.header.size, 48);
    match ev.data {
        EventData::MMAP(v) => {
            assert_eq!(v.pid, 17);
            assert_eq!(v.tid, 17);
            assert_eq!(v.addr, 0x400000);
            assert_eq!(v.len, 0x1000);
            assert_eq!(v.pgoff, 0);
            assert_eq!(v.filename, "a.out");
        }
        _ => panic!("not an mmap record"),
    }
    assert!(records.next().is_none());
    assert!(records.next().is_none());
    assert_eq!(records.error(), None);
}

#[test]
fn feature_flags_ordering() {
    let bytes = file(
        [0x80 | 0x40 | 0x08, 0, 0],
        0,
        &[],
        &[],
        &[string("host1", 8), string("x86_64", 8), cat(&[u32le(4), u32le(8)])],
    );
    let pf = PerfFile::new(bytes).unwrap();
    assert_eq!(pf.get_hostname(), Some("host1".to_string()));
    assert_eq!(pf.get_arch(), Some("x86_64".to_string()));
    assert_eq!(pf.get_nr_cpus(), Some(NrCpus { online: 4, available: 8 }));
    assert_eq!(pf.get_os_release(), None);
    assert_eq!(pf.get_version(), None);
    assert_eq!(pf.get_total_memory(), None);
    let sections = pf.sections().unwrap();
    assert_eq!(sections.len(), 3);
    assert_eq!(sections[0].0, HeaderFlag::Hostname);
    assert_eq!(sections[1].0, HeaderFlag::Arch);
    assert_eq!(sections[2].0, HeaderFlag::NrCpus);
    assert_eq!(sections[0].1, PerfFileSection { offset: 136 + 48, size: 12 });
    assert_eq!(sections[1].1, PerfFileSection { offset: 136 + 60, size: 12 });
    assert_eq!(sections[2].1, PerfFileSection { offset: 136 + 72, size: 8 });
    assert_eq!(pf.get_section(HeaderFlag::Arch), Some(sections[1].1));
    assert_eq!(pf.get_section(HeaderFlag::Version), None);
    assert_eq!(pf.get_section_slice(HeaderFlag::NrCpus).unwrap(), &[4, 0, 0, 0, 8, 0, 0, 0]);
}

#[test]
fn every_feature_has_its_accessor() {
    let build_id = cat(&[
        u32le(67),
        u16le(0),
        u16le(48),
        i32le(-1),
        vec![0xab_u8; 24],
        b"[kernel]\0\0\0\0".to_vec(),
    ]);
    let event_desc = cat(&[
        u32le(1),
        u32le(112),
        attr_entry(112, 0x3, 0),
        u32le(1),
        string("cycles", 8),
        u64le(42),
    ]);
    let cpu_topology = cat(&[u32le(1), string("0-3", 4), u32le(1), string("0-1", 4)]);
    let numa = cat(&[u32le(1), u32le(0), u64le(100), u64le(50), string("0-3", 4)]);
    let pmu = cat(&[u32le(1), u32le(4), string("cpu", 4)]);
    let groups = cat(&[u32le(1), string("{a,b}", 8), u32le(0), u32le(2)]);
    let sections = vec![
        vec![1, 2, 3],                  // tracing data
        build_id,                       // build id
        string("host", 8),              // hostname
        string("5.4.0", 8),             // os release
        string("5.4.g", 8),             // version
        string("x86_64", 8),            // arch
        cat(&[u32le(2), u32le(4)]),     // nr cpus
        string("Some CPU", 16),         // cpu desc
        string("GenuineIntel,6,85,4", 24), // cpu id
        u64le(16_000_000),              // total mem
        string("perf record", 16),      // cmd line
        event_desc,                     // event desc
        cpu_topology,                   // cpu topology
        numa,                           // numa topology
        vec![],                         // branch stack
        pmu,                            // pmu mappings
        groups,                         // group desc
    ];
    let pf = PerfFile::new(file([0xfe, 0xff, 0x03], 0, &[], &[], &sections)).unwrap();
    assert_eq!(pf.sections().unwrap().len(), 17);
    let id = pf.get_build_id().unwrap();
    assert_eq!(id.pid, -1);
    assert_eq!(id.build_id, vec![0xab_u8; 24]);
    assert_eq!(id.filename, "[kernel]");
    assert_eq!(pf.get_hostname(), Some("host".to_string()));
    assert_eq!(pf.get_os_release(), Some("5.4.0".to_string()));
    assert_eq!(pf.get_version(), Some("5.4.g".to_string()));
    assert_eq!(pf.get_arch(), Some("x86_64".to_string()));
    assert_eq!(pf.get_nr_cpus(), Some(NrCpus { online: 2, available: 4 }));
    assert_eq!(pf.get_cpu_description(), Some("Some CPU".to_string()));
    assert_eq!(pf.get_cpu_id(), Some("GenuineIntel,6,85,4".to_string()));
    assert_eq!(pf.get_total_memory(), Some(16_000_000));
    assert_eq!(pf.get_cmd_line(), Some("perf record".to_string()));
    let descs = pf.get_event_description().unwrap();
    assert_eq!(descs.len(), 1);
    assert_eq!(descs[0].event_string, "cycles");
    assert_eq!(descs[0].ids, vec![42]);
    assert_eq!(descs[0].attr.sample_type.bits(), 0x3);
    let topology = pf.get_cpu_topology().unwrap();
    assert_eq!(topology.cores, vec!["0-3".to_string()]);
    assert_eq!(topology.threads, vec!["0-1".to_string()]);
    let nodes = pf.get_numa_topology().unwrap();
    assert_eq!(nodes.len(), 1);
    assert_eq!(nodes[0].mem_total, 100);
    assert_eq!(nodes[0].mem_free, 50);
    assert_eq!(nodes[0].cpus, "0-3");
    let pmus = pf.get_pmu_mappings().unwrap();
    assert_eq!(pmus.len(), 1);
    assert_eq!(pmus[0].pmu_type, 4);
    assert_eq!(pmus[0].pmu_name, "cpu");
    let groups = pf.get_group_descriptions().unwrap();
    assert_eq!(groups.len(), 1);
    assert_eq!(groups[0].string, "{a,b}");
    assert_eq!(groups[0].nr_members, 2);
    assert_eq!(pf.get_tracing_data(), Some(vec![1, 2, 3]));
    assert_eq!(pf.get_branch_stack(), Some(vec![]));
    assert_eq!(pf.get_section_slice(HeaderFlag::TracingData).unwrap(), &[1, 2, 3]);
    assert!(pf.get_section_slice(HeaderFlag::BranchStack).unwrap().is_empty());
}

#[test]
fn a_malformed_section_reads_as_absent() {
    let bytes = file(
        [0x80 | 0x08, 0x04, 0],
        0,
        &[],
        &[],
        &[cat(&[u32le(50), b"host".to_vec()]), vec![1, 2, 3], vec![9; 7]],
    );
    let pf = PerfFile::new(bytes).unwrap();
    assert_eq!(pf.sections().unwrap().len(), 3);
    assert_eq!(pf.get_hostname(), None);
    assert_eq!(pf.get_nr_cpus(), None);
    assert_eq!(pf.get_total_memory(), None);
    assert!(pf.get_section(HeaderFlag::Hostname).is_some());
}

#[test]
fn a_section_outside_the_file_reads_as_absent() {
    let mut bytes = file([0x08, 0, 0], 0, &[], &[], &[string("host1", 8)]);
    let len = bytes.len();
    bytes.truncate(len - 1);
    let pf = PerfFile::new(bytes).unwrap();
    assert!(pf.get_section(HeaderFlag::Hostname).is_some());
    assert!(pf.get_section_slice(HeaderFlag::Hostname).is_none());
    assert_eq!(pf.get_hostname(), None);
}

#[test]
fn a_truncated_section_table() {
    let mut bytes = file([0x08 | 0x40, 0, 0], 0, &[], &[], &[vec![], vec![]]);
    bytes.truncate(136 + 16 + 9);
    let pf = PerfFile::new(bytes).unwrap();
    assert_eq!(pf.sections().unwrap_err(), PerfError::Truncated { expected: 16, available: 9 });
    assert_eq!(
        pf.parse_header_sections().unwrap_err(),
        PerfError::Truncated { expected: 16, available: 9 }
    );
    assert_eq!(pf.get_section(HeaderFlag::Hostname), None);
    assert_eq!(pf.get_hostname(), None);
    assert_eq!(pf.get_arch(), None);
}

#[test]
fn section_count_is_the_number_of_set_flags() {
    let mut word: u32 = 0;
    while word < (1 << 17) {
        let flag_bytes = [
            ((word & 0x7f) << 1) as u8,
            ((word >> 7) & 0xff) as u8,
            ((word >> 15) & 0x3) as u8,
        ];
        let count = word.count_ones() as usize;
        let sections: Vec<Vec<u8>> = (0..count).map(|i| vec![i as u8; i]).collect();
        let pf = PerfFile::new(file(flag_bytes, 0, &[], &[], &sections)).unwrap();
        let found = pf.sections().unwrap();
        assert_eq!(found.len(), count);
        assert_eq!(pf.parse_header_sections().unwrap().len(), count);
        assert_eq!(pf.header.flags.collect().len(), count);
        for (i, (flag, section)) in found.iter().enumerate() {
            assert_eq!(section.size, i as u64);
            assert_eq!(pf.get_section(*flag), Some(*section));
            assert_eq!(pf.get_section_slice(*flag).unwrap(), &vec![i as u8; i][..]);
        }
        word += 1021;
    }
}

#[test]
fn attribute_table_is_cut_into_entries() {
    let attrs = cat(&[attr_entry(128, 0x1, 0), attr_entry(128, 0x2, 0x4), attr_entry(128, 0x4, 0)]);
    let pf = PerfFile::new(file([0, 0, 0], 128, &attrs, &[], &[])).unwrap();
    assert_eq!(pf.header.attrs.size % pf.header.attr_size, 0);
    assert_eq!(pf.attrs.len() as u64, pf.header.attrs.size / pf.header.attr_size);
    assert_eq!(pf.attrs.len(), 3);
    assert_eq!(pf.attrs[0].sample_type.bits(), 0x1);
    assert_eq!(pf.attrs[1].sample_type.bits(), 0x2);
    assert_eq!(pf.attrs[1].read_format.bits(), 0x4);
    assert_eq!(pf.attrs[2].sample_type.bits(), 0x4);
    let attrs = attr_entry(112, 0x9, 0);
    let pf = PerfFile::new(file([0, 0, 0], 112, &attrs, &[], &[])).unwrap();
    assert_eq!(pf.attrs.len(), 1);
    assert_eq!(pf.attrs[0].sample_type.bits(), 0x9);
    assert_eq!(pf.attrs[0].size, 112);
}

#[test]
fn attribute_table_must_be_made_of_whole_entries() {
    let attrs = vec![0_u8; 300];
    assert_eq!(
        PerfFile::new(file([0, 0, 0], 128, &attrs, &[], &[])).unwrap_err(),
        PerfError::InconsistentSizes
    );
    assert_eq!(
        PerfFile::new(file([0, 0, 0], 0, &attrs, &[], &[])).unwrap_err(),
        PerfError::InconsistentSizes
    );
    assert_eq!(
        PerfFile::new(file([0, 0, 0], 301, &attrs, &[], &[])).unwrap_err(),
        PerfError::InconsistentSizes
    );
    assert_eq!(
        PerfFile::new(file([0, 0, 0], 100, &attrs, &[], &[])).unwrap_err(),
        PerfError::Truncated { expected: 112, available: 100 }
    );
    assert!(PerfFile::new(file([0, 0, 0], 150, &attrs, &[], &[])).is_ok());
    assert!(PerfFile::new(file([0, 0, 0], 300, &attrs, &[], &[])).is_ok());
    assert!(PerfFile::new(file([0, 0, 0], 77, &[], &[], &[])).is_ok());
}

#[test]
fn opening_fails_on_a_bad_tag() {
    let mut bytes = file([0, 0, 0], 0, &[], &[], &[]);
    bytes[0] = b'Q';
    assert_eq!(PerfFile::new(bytes).unwrap_err(), PerfError::BadMagic);
    assert_eq!(PerfFile::new(vec![0; 136]).unwrap_err(), PerfError::BadMagic);
}

#[test]
fn opening_fails_on_a_short_file() {
    assert_eq!(
        PerfFile::new(vec![]).unwrap_err(),
        PerfError::Truncated { expected: 8, available: 0 }
    );
    assert_eq!(
        PerfFile::new(b"PERFILE2".to_vec()).unwrap_err(),
        PerfError::Truncated { expected: 125, available: 0 }
    );
    let mut bytes = file([0, 0, 0], 0, &[], &[], &[]);
    bytes.truncate(132);
    assert_eq!(
        PerfFile::new(bytes).unwrap_err(),
        PerfError::Truncated { expected: 125, available: 124 }
    );
}

#[test]
fn opening_fails_on_sections_outside_the_file() {
    let attrs = attr_entry(128, 0, 0);
    let mut bytes = file([0, 0, 0], 128, &attrs, &mmap_record(), &[]);
    bytes.truncate(136 + 128 + 40);
    assert_eq!(
        PerfFile::new(bytes.clone()).unwrap_err(),
        PerfError::Truncated { expected: 48, available: 40 }
    );
    bytes.truncate(136 + 100);
    assert_eq!(
        PerfFile::new(bytes.clone()).unwrap_err(),
        PerfError::Truncated { expected: 128, available: 100 }
    );
    bytes.truncate(134);
    assert_eq!(
        PerfFile::new(bytes).unwrap_err(),
        PerfError::Truncated { expected: 128, available: 0 }
    );
    let mut bytes = file([0, 0, 0], 0, &[], &[], &[]);
    bytes[40..48].copy_from_slice(&u64le(u64::MAX));
    bytes[48..56].copy_from_slice(&u64le(u64::MAX));
    assert!(PerfFile::new(bytes).is_err());
}

#[test]
fn records_are_walked_in_file_order() {
    let attrs = attr_entry(128, 0x1 | 0x4, 0);
    let data = cat(&[
        record(3, &cat(&[i32le(1), i32le(1), b"init\0\0\0\0".to_vec()])),
        mmap_record(),
        record(9, &cat(&[u64le(0x1000), u64le(77)])),
        record(99, &[1, 2, 3, 4]),
        record(7, &cat(&[u32le(1), u32le(2), u32le(3), u32le(4), u64le(5)])),
        record(68, &[]),
    ]);
    let pf = PerfFile::new(file([0, 0, 0], 128, &attrs, &data, &[])).unwrap();
    let mut records = pf.data();
    let mut types = Vec::new();
    let mut advanced = 0;
    while let Some(ev) = records.next() {
        advanced += ev.header.size as usize;
        types.push(ev.header.event_type);
    }
    assert_eq!(
        types,
        vec![
            EventType::Comm,
            EventType::Mmap,
            EventType::Sample,
            EventType::Unknown(99),
            EventType::Fork,
            EventType::FinishedRound,
        ]
    );
    assert_eq!(advanced, data.len());
    assert_eq!(records.error(), None);
}

#[test]
fn each_step_is_as_long_as_the_record() {
    let data = cat(&[
        record(68, &[]),
        record(200, &[0; 24]),
        mmap_record(),
        record(5, &cat(&[u64le(1), u64le(2), u64le(3), vec![0; 40]])),
    ]);
    let pf = PerfFile::new(file([0, 0, 0], 0, &[], &data, &[])).unwrap();
    let mut records = pf.data();
    let mut offset = 0;
    let sizes = [8, 32, 48, 72];
    for size in sizes.iter() {
        assert_eq!(records.position(), offset);
        assert_eq!(records.remaining_len(), data.len() - offset);
        let ev = records.next().unwrap();
        assert_eq!(ev.header.size as usize, *size);
        let start = offset;
        offset += ev.header.size as usize;
        assert_eq!(records.position(), offset);
        assert_eq!(&data[start + 6..start + 8], &u16le(*size as u16)[..]);
    }
    assert_eq!(offset, data.len());
    assert!(records.next().is_none());
    assert_eq!(records.position(), data.len());
    assert_eq!(records.remaining_len(), 0);
}

#[test]
fn collected_records_tile_the_data_section() {
    let attrs = attr_entry(128, 0x100, 0);
    let data = cat(&[
        record(9, &u64le(4000)),
        record(9, &cat(&[u64le(4001), vec![0; 8]])),
        mmap_record(),
        record(68, &[]),
    ]);
    let pf = PerfFile::new(file([0, 0, 0], 128, &attrs, &data, &[])).unwrap();
    let mut records = pf.data();
    let events = records.collect();
    assert_eq!(events.len(), 4);
    assert_eq!(records.error(), None);
    let total: u64 = events.iter().map(|e| e.header.size as u64).sum();
    assert_eq!(total, pf.header.data.size);
    match &events[1].data {
        EventData::Sample(v) => assert_eq!(v.period, Some(4001)),
        _ => panic!("not a sample"),
    }
    assert!(records.collect().is_empty());
}

#[test]
fn a_truncated_record_ends_the_walk() {
    let mut data = cat(&[record(68, &[]), mmap_record()]);
    data.truncate(8 + 30);
    let pf = PerfFile::new(file([0, 0, 0], 0, &[], &data, &[])).unwrap();
    let mut records = pf.data();
    assert!(records.next().is_some());
    assert_eq!(records.error(), None);
    assert!(records.next().is_none());
    assert_eq!(records.error(), Some(PerfError::Truncated { expected: 48, available: 30 }));
    assert!(records.next().is_none());
    assert_eq!(records.error(), Some(PerfError::Truncated { expected: 48, available: 30 }));
    let mut records = pf.data();
    let events = records.collect();
    assert_eq!(events.len(), 1);
    assert_eq!(records.error(), Some(PerfError::Truncated { expected: 48, available: 30 }));
}

#[test]
fn fewer_than_eight_bytes_end_the_walk() {
    let data = cat(&[record(68, &[]), vec![1, 2, 3, 4, 5, 6, 7]]);
    let pf = PerfFile::new(file([0, 0, 0], 0, &[], &data, &[])).unwrap();
    let mut records = pf.data();
    assert!(records.next().is_some());
    assert!(records.next().is_none());
    assert_eq!(records.error(), None);
    assert_eq!(records.position(), 8);
    assert_eq!(records.remaining_len(), 7);
}

#[test]
fn a_record_of_eight_bytes_at_the_end_is_walked() {
    let data = cat(&[mmap_record(), record(68, &[])]);
    let pf = PerfFile::new(file([0, 0, 0], 0, &[], &data, &[])).unwrap();
    let events = pf.data().collect();
    assert_eq!(events.len(), 2);
    assert_eq!(events[1].header.event_type, EventType::FinishedRound);
}

#[test]
fn a_record_smaller_than_its_header_ends_the_walk() {
    let data = cat(&[u32le(68), u16le(0), u16le(4), vec![0; 8]]);
    let pf = PerfFile::new(file([0, 0, 0], 0, &[], &data, &[])).unwrap();
    let mut records = pf.data();
    assert!(records.next().is_none());
    assert_eq!(records.error(), Some(PerfError::InconsistentSizes));
}

#[test]
fn a_sample_without_an_event_ends_the_walk() {
    let data = record(9, &u64le(1));
    let pf = PerfFile::new(file([0, 0, 0], 0, &[], &data, &[])).unwrap();
    let mut records = pf.data();
    assert!(records.next().is_none());
    assert_eq!(records.error(), Some(PerfError::InconsistentSizes));
}

#[test]
fn data_outside_the_file_ends_the_walk_before_it_starts() {
    let mut pf = PerfFile::new(file([0, 0, 0], 0, &[], &mmap_record(), &[])).unwrap();
    pf.header.data.size = 49;
    let mut records = pf.data();
    assert!(records.next().is_none());
    assert_eq!(records.error(), Some(PerfError::Truncated { expected: 49, available: 48 }));
    assert_eq!(pf.sections().unwrap_err(), PerfError::Truncated { expected: 49, available: 48 });
}
