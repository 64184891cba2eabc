use perfcnt::intel::{line_breaks, model_key};
use perfcnt::linux::perf_event::{
    PERF_FLAG_FD_OUTPUT, PERF_FLAG_PID_CGROUP, PERF_TYPE_HARDWARE, PERF_TYPE_HW_CACHE,
    PERF_TYPE_RAW, PERF_TYPE_SOFTWARE,
};
use perfcnt::linux::perf_format::{EventAttr, EventAttrFlags, ReadFormatFlags, SampleFormatFlags};
use perfcnt::linux::{
    CacheId, CacheOpId, CacheOpResultId, HardwareEventType, IntelEventDescription,
    PerfCounterBuilderLinux, SoftwareEventType, Tuple,
};

#[test]
fn default_builder_measures_the_calling_process_on_any_cpu() {
    let pc = PerfCounterBuilderLinux::default();
    assert_eq!(pc.group, -1);
    assert_eq!(pc.pid, 0);
    assert_eq!(pc.cpu, -1);
    assert_eq!(pc.flags, 0);
    assert_eq!(pc.attrs, EventAttr::default());
}

#[test]
fn hardware_events_have_their_numbers() {
    let events = [
        (HardwareEventType::CPUCycles, 0),
        (HardwareEventType::Instructions, 1),
        (HardwareEventType::CacheReferences, 2),
        (HardwareEventType::CacheMisses, 3),
        (HardwareEventType::BranchInstructions, 4),
        (HardwareEventType::BranchMisses, 5),
        (HardwareEventType::BusCycles, 6),
        (HardwareEventType::StalledCyclesFrontend, 7),
        (HardwareEventType::StalledCyclesBackend, 8),
        (HardwareEventType::RefCPUCycles, 9),
    ];
    for (event, number) in events.iter() {
        assert_eq!(event.config(), *number);
        let pc = PerfCounterBuilderLinux::from_hardware_event(*event);
        assert_eq!(pc.attrs.attr_type, PERF_TYPE_HARDWARE);
        assert_eq!(pc.attrs.attr_type, 0);
        assert_eq!(pc.attrs.config, *number);
        assert_eq!(pc.pid, 0);
        assert_eq!(pc.cpu, -1);
        assert_eq!(pc.group, -1);
    }
}

#[test]
fn software_events_have_their_numbers() {
    let events = [
        (SoftwareEventType::CpuClock, 0),
        (SoftwareEventType::TaskClock, 1),
        (SoftwareEventType::PageFaults, 2),
        (SoftwareEventType::ContextSwitches, 3),
        (SoftwareEventType::CpuMigrations, 4),
        (SoftwareEventType::PageFaultsMin, 5),
        (SoftwareEventType::PageFaultsMaj, 6),
        (SoftwareEventType::AlignmentFaults, 7),
        (SoftwareEventType::EmulationFaults, 8),
    ];
    for (event, number) in events.iter() {
        assert_eq!(event.config(), *number);
        let pc = PerfCounterBuilderLinux::from_software_event(*event);
        assert_eq!(pc.attrs.attr_type, PERF_TYPE_SOFTWARE);
        assert_eq!(pc.attrs.attr_type, 1);
        assert_eq!(pc.attrs.config, *number);
    }
}

#[test]
fn cache_events_pack_three_numbers() {
    let pc = PerfCounterBuilderLinux::from_cache_event(
        CacheId::L1D,
        CacheOpId::Read,
        CacheOpResultId::Miss,
    );
    assert_eq!(pc.attrs.attr_type, PERF_TYPE_HW_CACHE);
    assert_eq!(pc.attrs.attr_type, 3);
    assert_eq!(pc.attrs.config, 0x1_0000);
    let pc = PerfCounterBuilderLinux::from_cache_event(
        CacheId::NODE,
        CacheOpId::Prefetch,
        CacheOpResultId::Access,
    );
    assert_eq!(pc.attrs.config, 0x0206);
    let pc = PerfCounterBuilderLinux::from_cache_event(
        CacheId::DTLB,
        CacheOpId::Write,
        CacheOpResultId::Miss,
    );
    assert_eq!(pc.attrs.config, 0x1_0103);
    assert_eq!(CacheId::L1I.code(), 1);
    assert_eq!(CacheId::LL.code(), 2);
    assert_eq!(CacheId::ITLB.code(), 4);
    assert_eq!(CacheId::BPU.code(), 5);
}

fn intel(code: u8, umask: u8, cmask: u8, edge: bool, any: bool, inv: bool) -> IntelEventDescription {
    IntelEventDescription {
        event_code: Tuple::One(code),
        umask: Tuple::One(umask),
        counter_mask: cmask,
        edge_detect: edge,
        any_thread: any,
        invert: inv,
    }
}

#[test]
fn intel_events_are_raw_events() {
    let pc = PerfCounterBuilderLinux::from_intel_event_description(&intel(
        0xc4, 0x00, 0, false, false, false,
    ));
    assert_eq!(pc.attrs.attr_type, PERF_TYPE_RAW);
    assert_eq!(pc.attrs.attr_type, 4);
    assert_eq!(pc.attrs.config, 0xc4);
    let pc = PerfCounterBuilderLinux::from_intel_event_description(&intel(
        0x3c, 0x01, 2, false, false, false,
    ));
    assert_eq!(pc.attrs.config, 0x0200_013c);
    let pc = PerfCounterBuilderLinux::from_intel_event_description(&intel(
        0, 0, 0, true, false, false,
    ));
    assert_eq!(pc.attrs.config, 1 << 18);
    let pc = PerfCounterBuilderLinux::from_intel_event_description(&intel(
        0, 0, 0, false, true, false,
    ));
    assert_eq!(pc.attrs.config, 1 << 21);
    let pc = PerfCounterBuilderLinux::from_intel_event_description(&intel(
        0, 0, 0, false, false, true,
    ));
    assert_eq!(pc.attrs.config, 1 << 23);
    let pc = PerfCounterBuilderLinux::from_intel_event_description(&intel(
        0xff, 0xff, 0xff, true, true, true,
    ));
    assert_eq!(pc.attrs.config, 0xffa4_ffff);
}

#[test]
fn builder_calls_can_be_chained() {
    let mut pc = PerfCounterBuilderLinux::from_hardware_event(HardwareEventType::CacheMisses);
    pc.exclude_kernel().exclude_idle();
    assert_eq!(
        pc.attrs.settings.bits(),
        EventAttrFlags::EVENT_ATTR_EXCLUDE_KERNEL | EventAttrFlags::EVENT_ATTR_EXCLUDE_IDLE
    );
    assert_eq!(pc.attrs.config, 3);

    let mut pc = PerfCounterBuilderLinux::from_software_event(SoftwareEventType::CpuClock);
    pc.set_sample_frequency(10000).set_ip_sample_zero_skid().enable_mmap().enable_mmap_data();
    assert_eq!(pc.attrs.sample_period_freq, 10000);
    assert_eq!(
        pc.attrs.settings.bits(),
        EventAttrFlags::EVENT_ATTR_FREQ
            | EventAttrFlags::EVENT_ATTR_SAMPLE_IP_ZERO_SKID
            | EventAttrFlags::EVENT_ATTR_MMAP
            | EventAttrFlags::EVENT_ATTR_MMAP_DATA
    );

    let mut pc = PerfCounterBuilderLinux::from_software_event(SoftwareEventType::ContextSwitches);
    pc.on_cpu(0).for_all_pids();
    assert_eq!(pc.cpu, 0);
    assert_eq!(pc.pid, -1);
}

#[test]
fn settings_are_one_bit_each() {
    let calls: [(fn(&mut PerfCounterBuilderLinux) -> &mut PerfCounterBuilderLinux, u64); 17] = [
        (PerfCounterBuilderLinux::disable, 1 << 0),
        (PerfCounterBuilderLinux::inherit, 1 << 1),
        (PerfCounterBuilderLinux::pinned, 1 << 2),
        (PerfCounterBuilderLinux::exclusive, 1 << 3),
        (PerfCounterBuilderLinux::exclude_user, 1 << 4),
        (PerfCounterBuilderLinux::exclude_kernel, 1 << 5),
        (PerfCounterBuilderLinux::exclude_hv, 1 << 6),
        (PerfCounterBuilderLinux::exclude_idle, 1 << 7),
        (PerfCounterBuilderLinux::enable_mmap, 1 << 8),
        (PerfCounterBuilderLinux::inherit_stat, 1 << 11),
        (PerfCounterBuilderLinux::enable_on_exec, 1 << 12),
        (PerfCounterBuilderLinux::enable_task_notification, 1 << 13),
        (PerfCounterBuilderLinux::set_ip_sample_arbitrary_skid, 0),
        (PerfCounterBuilderLinux::set_ip_sample_constant_skid, 1 << 15),
        (PerfCounterBuilderLinux::set_ip_sample_req_zero_skid, 2 << 15),
        (PerfCounterBuilderLinux::enable_mmap_data, 1 << 17),
        (PerfCounterBuilderLinux::set_ip_sample_zero_skid, 3 << 15),
    ];
    let mut all = PerfCounterBuilderLinux::default();
    let mut expected: u64 = 0;
    for (call, mask) in calls.iter() {
        let mut pc = PerfCounterBuilderLinux::default();
        call(&mut pc);
        assert_eq!(pc.attrs.settings.bits(), *mask);
        let mut other = PerfCounterBuilderLinux::default();
        other.attrs.settings = EventAttrFlags::from_bits_truncate(*mask);
        assert_eq!(pc, other);
        call(&mut all);
        expected |= *mask;
        assert_eq!(all.attrs.settings.bits(), expected);
    }
}

#[test]
fn sample_period_and_frequency() {
    let mut pc = PerfCounterBuilderLinux::default();
    pc.set_sample_period(4000);
    assert_eq!(pc.attrs.sample_period_freq, 4000);
    assert_eq!(pc.attrs.settings.bits(), 0);
    pc.set_sample_frequency(99);
    assert_eq!(pc.attrs.sample_period_freq, 99);
    assert_eq!(pc.attrs.settings.bits(), EventAttrFlags::EVENT_ATTR_FREQ);
    assert_eq!(pc.attrs.settings.bits(), 1 << 10);
}

#[test]
fn watermark_sets_the_count_and_the_bit() {
    let mut pc = PerfCounterBuilderLinux::default();
    pc.disable().enable_watermark(64);
    assert_eq!(pc.attrs.wakeup_events_watermark, 64);
    assert_eq!(pc.attrs.settings.bits(), (1 << 14) | 1);
}

#[test]
fn read_formats_are_one_bit_each() {
    let mut pc = PerfCounterBuilderLinux::default();
    pc.enable_read_format_time_enabled();
    assert_eq!(pc.attrs.read_format.bits(), ReadFormatFlags::FORMAT_TOTAL_TIME_ENABLED);
    pc.enable_read_format_time_running();
    assert_eq!(pc.attrs.read_format.bits(), 0x3);
    pc.enable_read_format_id();
    assert_eq!(pc.attrs.read_format.bits(), 0x7);
    pc.enable_read_format_group();
    assert_eq!(pc.attrs.read_format.bits(), 0xf);
    assert!(pc.attrs.read_format.has_group());
    assert_eq!(pc.attrs.settings.bits(), 0);
    assert_eq!(pc.attrs.sample_type.bits(), 0);
}

#[test]
fn sampled_fields_are_one_bit_each() {
    let calls: [(fn(&mut PerfCounterBuilderLinux) -> &PerfCounterBuilderLinux, u64); 18] = [
        (PerfCounterBuilderLinux::enable_sampling_ip, SampleFormatFlags::PERF_SAMPLE_IP),
        (PerfCounterBuilderLinux::enable_sampling_tid, SampleFormatFlags::PERF_SAMPLE_TID),
        (PerfCounterBuilderLinux::enable_sampling_time, SampleFormatFlags::PERF_SAMPLE_TIME),
        (PerfCounterBuilderLinux::enable_sampling_addr, SampleFormatFlags::PERF_SAMPLE_ADDR),
        (PerfCounterBuilderLinux::enable_sampling_read, SampleFormatFlags::PERF_SAMPLE_READ),
        (
            PerfCounterBuilderLinux::enable_sampling_callchain,
            SampleFormatFlags::PERF_SAMPLE_CALLCHAIN,
        ),
        (PerfCounterBuilderLinux::enable_sampling_sample_id, SampleFormatFlags::PERF_SAMPLE_ID),
        (PerfCounterBuilderLinux::enable_sampling_cpu, SampleFormatFlags::PERF_SAMPLE_CPU),
        (PerfCounterBuilderLinux::enable_sampling_period, SampleFormatFlags::PERF_SAMPLE_PERIOD),
        (
            PerfCounterBuilderLinux::enable_sampling_stream_id,
            SampleFormatFlags::PERF_SAMPLE_STREAM_ID,
        ),
        (PerfCounterBuilderLinux::enable_sampling_raw, SampleFormatFlags::PERF_SAMPLE_RAW),
        (
            PerfCounterBuilderLinux::enable_sampling_branch_stack,
            SampleFormatFlags::PERF_SAMPLE_BRANCH_STACK,
        ),
        (
            PerfCounterBuilderLinux::enable_sampling_regs_user,
            SampleFormatFlags::PERF_SAMPLE_REGS_USER,
        ),
        (
            PerfCounterBuilderLinux::enable_sampling_stack_user,
            SampleFormatFlags::PERF_SAMPLE_STACK_USER,
        ),
        (
            PerfCounterBuilderLinux::enable_sampling_sample_weight,
            SampleFormatFlags::PERF_SAMPLE_WEIGHT,
        ),
        (
            PerfCounterBuilderLinux::enable_sampling_data_src,
            SampleFormatFlags::PERF_SAMPLE_DATA_SRC,
        ),
        (
            PerfCounterBuilderLinux::enable_sampling_identifier,
            SampleFormatFlags::PERF_SAMPLE_IDENTIFIER,
        ),
        (
            PerfCounterBuilderLinux::enable_sampling_transaction,
            SampleFormatFlags::PERF_SAMPLE_TRANSACTION,
        ),
    ];
    let mut all = PerfCounterBuilderLinux::default();
    let mut expected: u64 = 0;
    for (call, mask) in calls.iter() {
        let mut pc = PerfCounterBuilderLinux::default();
        let returned = *call(&mut pc);
        assert_eq!(returned.attrs.sample_type.bits(), *mask);
        assert_eq!(pc.attrs.sample_type.bits(), *mask);
        assert_eq!(pc.attrs.settings.bits(), 0);
        call(&mut all);
        expected |= *mask;
        assert_eq!(all.attrs.sample_type.bits(), expected);
    }
    assert_eq!(expected, 0x3ffff);
}

#[test]
fn group_flags_pid_and_cpu() {
    let mut pc = PerfCounterBuilderLinux::default();
    pc.set_group(7);
    assert_eq!(pc.group, 7);
    pc.set_flag_fd_output();
    assert_eq!(pc.flags, PERF_FLAG_FD_OUTPUT);
    assert_eq!(pc.flags, 0x02);
    pc.set_flag_pid_cgroup();
    assert_eq!(pc.flags, PERF_FLAG_FD_OUTPUT | PERF_FLAG_PID_CGROUP);
    assert_eq!(pc.flags, 0x06);
    pc.for_pid(1234);
    assert_eq!(pc.pid, 1234);
    pc.for_all_pids();
    assert_eq!(pc.pid, -1);
    pc.on_cpu(3);
    assert_eq!(pc.cpu, 3);
    pc.on_all_cpus();
    assert_eq!(pc.cpu, -1);
    assert_eq!(pc.attrs, EventAttr::default());
}

#[test]
fn processors_are_named_by_vendor_family_and_model() {
    assert_eq!(model_key("GenuineIntel", 6, 2, 12), "GenuineIntel-6-2C");
    assert_eq!(model_key("GenuineIntel", 6, 5, 14), "GenuineIntel-6-5E");
    assert_eq!(model_key("GenuineIntel", 6, 1, 10), "GenuineIntel-6-1A");
    assert_eq!(model_key("AuthenticAMD", 23, 3, 1), "AuthenticAMD-23-31");
    assert_eq!(model_key("", 0, 0, 0), "-0-00");
    assert_eq!(model_key("X", 255, 255, 255), "X-255-FFFF");
    assert_eq!(model_key("X", 10, 16, 9), "X-10-109");
    assert_eq!(model_key("X", 100, 15, 160), "X-100-FA0");
}

#[test]
fn processor_keys_agree_with_the_formatter() {
    let mut n: u32 = 0;
    while n < 256 {
        let a = n as u8;
        let b = (n * 7 % 256) as u8;
        let c = (n * 13 % 256) as u8;
        assert_eq!(
            model_key("Vendor", a, b, c),
            format!("{}-{}-{:X}{:X}", "Vendor", a, b, c)
        );
        n += 1;
    }
}

#[test]
fn lines_break_before_the_word_that_does_not_fit() {
    assert_eq!(line_breaks(&vec![]), vec![]);
    assert_eq!(line_breaks(&vec![10, 20, 30]), vec![false, false, false]);
    assert_eq!(line_breaks(&vec![10, 20, 30, 1]), vec![false, false, false, true]);
    assert_eq!(line_breaks(&vec![30, 30, 30, 31, 1]), vec![false, false, true, true, false]);
    assert_eq!(line_breaks(&vec![30, 30, 30, 31, 30]), vec![false, false, true, true, true]);
    assert_eq!(line_breaks(&vec![61, 1, 59, 1]), vec![true, true, false, true]);
    assert_eq!(line_breaks(&vec![60, 0, 0, 1]), vec![false, false, false, true]);
    assert_eq!(line_breaks(&vec![usize::MAX, usize::MAX, 5]), vec![true, true, true]);
    assert_eq!(line_breaks(&vec![0, 0, 0]), vec![false, false, false]);
}
