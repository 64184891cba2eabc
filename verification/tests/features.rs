use perfcnt::linux::features::parse_event_desc_item;
use perfcnt::linux::parser::{
    parse_cpu_topology, parse_event_desc, parse_group_description, parse_group_descriptions,
    parse_header, parse_numa_node, parse_numa_topology, parse_perf_string,
    parse_perf_string_list, parse_pmu_mapping, parse_pmu_mappings,
};
use perfcnt::linux::perf_format::{
    GroupDesc, HeaderFlag, HeaderFlags, NumaNode, PerfError, PerfFileSection, PmuMapping,
};

fn u32le(v: u32) -> Vec<u8> {
    v.to_le_bytes().to_vec()
}

fn u64le(v: u64) -> Vec<u8> {
    v.to_le_bytes().to_vec()
}

fn cat(parts: &[Vec<u8>]) -> Vec<u8> {
    let mut out = Vec::new();
    for p in parts {
        out.extend_from_slice(p);
    }
    out
}

fn string(text: &str, padded_to: usize) -> Vec<u8> {
    let mut bytes = text.as_bytes().to_vec();
    while bytes.len() < padded_to {
        bytes.push(0);
    }
    cat(&[u32le(bytes.len() as u32), bytes])
}

fn header_bytes(flag_bytes: [u8; 3]) -> Vec<u8> {
    let mut bytes = cat(&[
        b"PERFILE2".to_vec(),
        u64le(104),
        u64le(128),
        u64le(0x100),
        u64le(0x200),
        u64le(0x300),
        u64le(0x400),
        u64le(0x500),
        u64le(0x600),
        flag_bytes.to_vec(),
    ]);
    bytes.resize(133, 0);
    bytes
}

fn no_flags() -> HeaderFlags {
    HeaderFlags {
        nrcpus: false,
        arch: false,
        version: false,
        osrelease: false,
        hostname: false,
        build_id: false,
        tracing_data: false,
        branch_stack: false,
        numa_topology: false,
        cpu_topology: false,
        event_desc: false,
        cmdline: false,
        total_mem: false,
        cpuid: false,
        cpudesc: false,
        group_desc: false,
        pmu_mappings: false,
    }
}

#[test]
fn perf_string_ends_at_its_first_nul() {
    let bytes = cat(&[string("host1", 8), vec![0xaa]]);
    let (rest, text) = parse_perf_string(&bytes).unwrap();
    assert_eq!(text, "host1");
    assert_eq!(rest, &[0xaa]);
}

#[test]
fn perf_string_without_padding() {
    let bytes = cat(&[u32le(6), b"x86_64".to_vec()]);
    let (rest, text) = parse_perf_string(&bytes).unwrap();
    assert_eq!(text, "x86_64");
    assert!(rest.is_empty());
}

#[test]
fn perf_string_drops_what_follows_the_nul() {
    let bytes = cat(&[u32le(8), b"ab\0cd\0\0\0".to_vec()]);
    let (_, text) = parse_perf_string(&bytes).unwrap();
    assert_eq!(text, "ab");
    let bytes = cat(&[u32le(0)]);
    let (_, text) = parse_perf_string(&bytes).unwrap();
    assert_eq!(text, "");
    let bytes = cat(&[u32le(2), vec![0, b'a']]);
    let (_, text) = parse_perf_string(&bytes).unwrap();
    assert_eq!(text, "");
}

#[test]
fn perf_string_errors() {
    assert_eq!(
        parse_perf_string(&[1, 0]).unwrap_err(),
        PerfError::Truncated { expected: 4, available: 2 }
    );
    let bytes = cat(&[u32le(9), b"short".to_vec()]);
    assert_eq!(
        parse_perf_string(&bytes).unwrap_err(),
        PerfError::Truncated { expected: 9, available: 5 }
    );
}

#[test]
fn perf_string_list_is_counted() {
    let bytes = cat(&[u32le(3), string("0-3", 4), string("", 0), string("4-7", 8), vec![1]]);
    let (rest, v) = parse_perf_string_list(&bytes).unwrap();
    assert_eq!(v, vec!["0-3".to_string(), "".to_string(), "4-7".to_string()]);
    assert_eq!(rest, &[1]);
    let empty = u32le(0);
    let (rest, v) = parse_perf_string_list(&empty).unwrap();
    assert!(v.is_empty());
    assert!(rest.is_empty());
}

#[test]
fn perf_string_list_fails_with_the_error_of_its_item() {
    let bytes = cat(&[u32le(2), string("0-3", 4), u32le(5), vec![b'a']]);
    assert_eq!(
        parse_perf_string_list(&bytes).unwrap_err(),
        PerfError::Truncated { expected: 5, available: 1 }
    );
    let bytes = cat(&[u32le(2), string("0-3", 4)]);
    assert_eq!(
        parse_perf_string_list(&bytes).unwrap_err(),
        PerfError::Truncated { expected: 4, available: 0 }
    );
    assert_eq!(
        parse_perf_string_list(&[]).unwrap_err(),
        PerfError::Truncated { expected: 4, available: 0 }
    );
    let bytes = cat(&[u32le(u32::MAX)]);
    assert_eq!(
        parse_perf_string_list(&bytes).unwrap_err(),
        PerfError::Truncated { expected: 4, available: 0 }
    );
}

#[test]
fn cpu_topology_has_two_lists() {
    let bytes = cat(&[
        u32le(2),
        string("0-1", 4),
        string("2-3", 4),
        u32le(1),
        string("0,2", 4),
    ]);
    let (rest, v) = parse_cpu_topology(&bytes).unwrap();
    assert_eq!(v.cores, vec!["0-1".to_string(), "2-3".to_string()]);
    assert_eq!(v.threads, vec!["0,2".to_string()]);
    assert!(rest.is_empty());
    assert_eq!(
        parse_cpu_topology(&bytes[..20]).unwrap_err(),
        PerfError::Truncated { expected: 4, available: 0 }
    );
}

#[test]
fn numa_node_has_total_before_free() {
    let bytes = cat(&[u32le(1), u64le(16000), u64le(4000), string("0-7", 4), vec![5]]);
    let (rest, v) = parse_numa_node(&bytes).unwrap();
    assert_eq!(
        v,
        NumaNode { node_nr: 1, mem_total: 16000, mem_free: 4000, cpus: "0-7".to_string() }
    );
    assert_eq!(rest, &[5]);
    assert_eq!(
        parse_numa_node(&bytes[..19]).unwrap_err(),
        PerfError::Truncated { expected: 20, available: 19 }
    );
    assert_eq!(
        parse_numa_node(&bytes[..22]).unwrap_err(),
        PerfError::Truncated { expected: 4, available: 2 }
    );
}

#[test]
fn numa_topology_is_counted() {
    let bytes = cat(&[
        u32le(2),
        u32le(0),
        u64le(10),
        u64le(5),
        string("0-3", 4),
        u32le(1),
        u64le(20),
        u64le(6),
        string("4-7", 8),
    ]);
    let (rest, v) = parse_numa_topology(&bytes).unwrap();
    assert_eq!(v.len(), 2);
    assert_eq!(v[0], NumaNode { node_nr: 0, mem_total: 10, mem_free: 5, cpus: "0-3".to_string() });
    assert_eq!(v[1], NumaNode { node_nr: 1, mem_total: 20, mem_free: 6, cpus: "4-7".to_string() });
    assert!(rest.is_empty());
    assert_eq!(
        parse_numa_topology(&bytes[..40]).unwrap_err(),
        PerfError::Truncated { expected: 20, available: 8 }
    );
}

#[test]
fn pmu_mapping_has_type_before_name() {
    let bytes = cat(&[u32le(4), string("cpu", 4)]);
    let (rest, v) = parse_pmu_mapping(&bytes).unwrap();
    assert_eq!(v, PmuMapping { pmu_type: 4, pmu_name: "cpu".to_string() });
    assert!(rest.is_empty());
}

#[test]
fn pmu_mappings_are_counted() {
    let bytes = cat(&[
        u32le(3),
        u32le(4),
        string("cpu", 4),
        u32le(1),
        string("software", 9),
        u32le(2),
        string("tracepoint", 11),
        vec![0xff],
    ]);
    let (rest, v) = parse_pmu_mappings(&bytes).unwrap();
    assert_eq!(
        v,
        vec![
            PmuMapping { pmu_type: 4, pmu_name: "cpu".to_string() },
            PmuMapping { pmu_type: 1, pmu_name: "software".to_string() },
            PmuMapping { pmu_type: 2, pmu_name: "tracepoint".to_string() },
        ]
    );
    assert_eq!(rest, &[0xff]);
    assert_eq!(
        parse_pmu_mappings(&bytes[..14]).unwrap_err(),
        PerfError::Truncated { expected: 4, available: 2 }
    );
}

#[test]
fn group_description_has_name_before_numbers() {
    let bytes = cat(&[string("{cycles,instructions}", 24), u32le(0), u32le(2), vec![9]]);
    let (rest, v) = parse_group_description(&bytes).unwrap();
    assert_eq!(
        v,
        GroupDesc { string: "{cycles,instructions}".to_string(), leader_idx: 0, nr_members: 2 }
    );
    assert_eq!(rest, &[9]);
    assert_eq!(
        parse_group_description(&bytes[..30]).unwrap_err(),
        PerfError::Truncated { expected: 8, available: 2 }
    );
}

#[test]
fn group_descriptions_are_counted() {
    let bytes = cat(&[
        u32le(2),
        string("a", 4),
        u32le(0),
        u32le(2),
        string("bc", 4),
        u32le(2),
        u32le(3),
    ]);
    let (rest, v) = parse_group_descriptions(&bytes).unwrap();
    assert_eq!(
        v,
        vec![
            GroupDesc { string: "a".to_string(), leader_idx: 0, nr_members: 2 },
            GroupDesc { string: "bc".to_string(), leader_idx: 2, nr_members: 3 },
        ]
    );
    assert!(rest.is_empty());
}

fn attr_block(size: usize, config: u64, sample_type: u64) -> Vec<u8> {
    let mut block = cat(&[u32le(0), u32le(size as u32), u64le(config), u64le(0), u64le(sample_type)]);
    block.resize(size, 0);
    block
}

#[test]
fn event_desc_reads_each_event() {
    let bytes = cat(&[
        u32le(2),
        u32le(120),
        attr_block(120, 0x11, 0x3),
        u32le(2),
        string("cycles", 8),
        u64le(100),
        u64le(101),
        attr_block(120, 0x22, 0x7),
        u32le(0),
        string("instructions", 16),
        vec![0xee],
    ]);
    let (rest, v) = parse_event_desc(&bytes).unwrap();
    assert_eq!(rest, &[0xee]);
    assert_eq!(v.len(), 2);
    assert_eq!(v[0].attr.config, 0x11);
    assert_eq!(v[0].attr.sample_type.bits(), 0x3);
    assert_eq!(v[0].attr.size, 120);
    assert_eq!(v[0].event_string, "cycles");
    assert_eq!(v[0].ids, vec![100, 101]);
    assert_eq!(v[1].attr.config, 0x22);
    assert_eq!(v[1].attr.sample_type.bits(), 0x7);
    assert_eq!(v[1].event_string, "instructions");
    assert!(v[1].ids.is_empty());
}

#[test]
fn event_desc_item_errors() {
    let good = cat(&[attr_block(112, 1, 1), u32le(1), string("e", 4), u64le(5)]);
    let (rest, v) = parse_event_desc_item(&good, 112).unwrap();
    assert!(rest.is_empty());
    assert_eq!(v.ids, vec![5]);
    assert_eq!(
        parse_event_desc_item(&good[..100], 112).unwrap_err(),
        PerfError::Truncated { expected: 112, available: 100 }
    );
    assert_eq!(
        parse_event_desc_item(&good, 111).unwrap_err(),
        PerfError::Truncated { expected: 112, available: 111 }
    );
    assert_eq!(
        parse_event_desc_item(&good[..114], 112).unwrap_err(),
        PerfError::Truncated { expected: 4, available: 2 }
    );
    assert_eq!(
        parse_event_desc_item(&good[..118], 112).unwrap_err(),
        PerfError::Truncated { expected: 4, available: 2 }
    );
    assert_eq!(
        parse_event_desc_item(&good[..127], 112).unwrap_err(),
        PerfError::Truncated { expected: 8, available: 3 }
    );
}

#[test]
fn event_desc_errors() {
    assert_eq!(
        parse_event_desc(&[0; 7]).unwrap_err(),
        PerfError::Truncated { expected: 8, available: 7 }
    );
    let bytes = cat(&[u32le(1), u32le(112), vec![0; 50]]);
    assert_eq!(
        parse_event_desc(&bytes).unwrap_err(),
        PerfError::Truncated { expected: 112, available: 50 }
    );
    let bytes = cat(&[u32le(0), u32le(5), vec![0; 50]]);
    let (rest, v) = parse_event_desc(&bytes).unwrap();
    assert!(v.is_empty());
    assert_eq!(rest.len(), 50);
}

#[test]
fn header_is_read_field_by_field() {
    let mut bytes = header_bytes([0, 0, 0]);
    bytes.push(0x77);
    let (rest, h) = parse_header(&bytes).unwrap();
    assert_eq!(rest, &[0x77]);
    assert_eq!(h.size, 104);
    assert_eq!(h.attr_size, 128);
    assert_eq!(h.attrs, PerfFileSection { offset: 0x100, size: 0x200 });
    assert_eq!(h.data, PerfFileSection { offset: 0x300, size: 0x400 });
    assert_eq!(h.event_types, PerfFileSection { offset: 0x500, size: 0x600 });
    assert_eq!(h.flags, no_flags());
    assert!(h.flags.collect().is_empty());
}

#[test]
fn header_needs_its_tag() {
    let mut bytes = header_bytes([0, 0, 0]);
    bytes[7] = b'1';
    assert_eq!(parse_header(&bytes).unwrap_err(), PerfError::BadMagic);
    assert_eq!(parse_header(b"PERFILE1").unwrap_err(), PerfError::BadMagic);
    assert_eq!(parse_header(&[0; 200]).unwrap_err(), PerfError::BadMagic);
    assert_eq!(parse_header(b"perfile2 and more").unwrap_err(), PerfError::BadMagic);
}

#[test]
fn header_needs_133_bytes() {
    let bytes = header_bytes([0, 0, 0]);
    assert_eq!(bytes.len(), 133);
    assert!(parse_header(&bytes).is_ok());
    assert_eq!(
        parse_header(&bytes[..132]).unwrap_err(),
        PerfError::Truncated { expected: 125, available: 124 }
    );
    assert_eq!(
        parse_header(&bytes[..8]).unwrap_err(),
        PerfError::Truncated { expected: 125, available: 0 }
    );
    assert_eq!(
        parse_header(&bytes[..7]).unwrap_err(),
        PerfError::Truncated { expected: 8, available: 7 }
    );
    assert_eq!(parse_header(&[]).unwrap_err(), PerfError::Truncated { expected: 8, available: 0 });
}

#[test]
fn header_flags_each_have_their_bit() {
    let table: [(usize, u8, HeaderFlag); 17] = [
        (0, 0x80, HeaderFlag::NrCpus),
        (0, 0x40, HeaderFlag::Arch),
        (0, 0x20, HeaderFlag::Version),
        (0, 0x10, HeaderFlag::OsRelease),
        (0, 0x08, HeaderFlag::Hostname),
        (0, 0x04, HeaderFlag::BuildId),
        (0, 0x02, HeaderFlag::TracingData),
        (1, 0x80, HeaderFlag::BranchStack),
        (1, 0x40, HeaderFlag::NumaTopology),
        (1, 0x20, HeaderFlag::CpuTopology),
        (1, 0x10, HeaderFlag::EventDesc),
        (1, 0x08, HeaderFlag::CmdLine),
        (1, 0x04, HeaderFlag::TotalMem),
        (1, 0x02, HeaderFlag::CpuId),
        (1, 0x01, HeaderFlag::CpuDesc),
        (2, 0x02, HeaderFlag::GroupDesc),
        (2, 0x01, HeaderFlag::PmuMappings),
    ];
    for (byte, bit, flag) in table.iter() {
        let mut flag_bytes = [0_u8; 3];
        flag_bytes[*byte] = *bit;
        let (_, h) = parse_header(&header_bytes(flag_bytes)).unwrap();
        assert_eq!(h.flags.collect(), vec![*flag]);
        for (_, _, other) in table.iter() {
            assert_eq!(h.flags.contains(*other), other == flag);
        }
    }
}

#[test]
fn header_flag_bits_without_a_feature_are_ignored() {
    let (_, h) = parse_header(&header_bytes([0x01, 0x00, 0xfc])).unwrap();
    assert_eq!(h.flags, no_flags());
    let mut bytes = header_bytes([0, 0, 0]);
    let mut i = 75;
    while i < 133 {
        bytes[i] = 0xff;
        i += 1;
    }
    let (_, h) = parse_header(&bytes).unwrap();
    assert_eq!(h.flags, no_flags());
}

#[test]
fn flags_are_collected_in_file_order() {
    let (_, h) = parse_header(&header_bytes([0xfe, 0xff, 0x03])).unwrap();
    assert_eq!(
        h.flags.collect(),
        vec![
            HeaderFlag::TracingData,
            HeaderFlag::BuildId,
            HeaderFlag::Hostname,
            HeaderFlag::OsRelease,
            HeaderFlag::Version,
            HeaderFlag::Arch,
            HeaderFlag::NrCpus,
            HeaderFlag::CpuDesc,
            HeaderFlag::CpuId,
            HeaderFlag::TotalMem,
            HeaderFlag::CmdLine,
            HeaderFlag::EventDesc,
            HeaderFlag::CpuTopology,
            HeaderFlag::NumaTopology,
            HeaderFlag::BranchStack,
            HeaderFlag::PmuMappings,
            HeaderFlag::GroupDesc,
        ]
    );
    let mut flags = no_flags();
    flags.nrcpus = true;
    flags.hostname = true;
    flags.arch = true;
    assert_eq!(flags.collect(), vec![HeaderFlag::Hostname, HeaderFlag::Arch, HeaderFlag::NrCpus]);
}

#[test]
fn collected_flags_are_as_many_as_bits_are_set() {
    let mut word: u32 = 0;
    while word < (1 << 17) {
        let flag_bytes = [
            ((word & 0x7f) << 1) as u8,
            ((word >> 7) & 0xff) as u8,
            ((word >> 15) & 0x3) as u8,
        ];
        let (_, h) = parse_header(&header_bytes(flag_bytes)).unwrap();
        let collected = h.flags.collect();
        assert_eq!(collected.len(), word.count_ones() as usize);
        let mut k = 0;
        while k + 1 < collected.len() {
            assert!(collected[k].position() < collected[k + 1].position());
            k += 1;
        }
        for flag in collected.iter() {
            assert!(h.flags.contains(*flag));
        }
        word += 97;
    }
}

#[test]
fn features_have_their_places() {
    let mut k = 0;
    while k < 17 {
        assert_eq!(HeaderFlag::nth(k).position(), k);
        k += 1;
    }
    assert_eq!(HeaderFlag::nth(0), HeaderFlag::TracingData);
    assert_eq!(HeaderFlag::nth(6), HeaderFlag::NrCpus);
    assert_eq!(HeaderFlag::nth(15), HeaderFlag::PmuMappings);
    assert_eq!(HeaderFlag::nth(16), HeaderFlag::GroupDesc);
}
