use macchina_read::kern::KERN_SUCCESS;
use macchina_read::ControlValue;
use macchina_read::MacOSMemoryReadout;
use macchina_read::ReadoutError;
use macchina_read::VmStatistics;

fn counters(free: u32, inactive: u32, speculative: u32, active: u32, wire: u32, purgeable: u32) -> VmStatistics {
    VmStatistics {
        free_count: free,
        active_count: active,
        inactive_count: inactive,
        wire_count: wire,
        purgeable_count: purgeable,
        speculative_count: speculative,
    }
}

#[test]
fn free_memory_in_kilobytes() {
    let readout = MacOSMemoryReadout::with_sizes(4096, 8 * 1024 * 1024 * 1024);
    let stats = counters(100, 50, 10, 0, 0, 0);
    assert!(readout.measurable(&stats));
    assert_eq!(readout.free(&stats), Ok(560));
}

#[test]
fn free_memory_truncates() {
    let stats = counters(100, 50, 10, 0, 0, 0);
    let readout = MacOSMemoryReadout::with_sizes(4097, 0);
    assert!(readout.measurable(&stats));
    assert_eq!(readout.free(&stats), Ok(560));
    let odd = MacOSMemoryReadout::with_sizes(1023, 0);
    let three = counters(2, 2, 1, 0, 0, 0);
    assert!(odd.measurable(&three));
    assert_eq!(odd.free(&three), Ok(2));
}

#[test]
fn used_and_reclaimable_memory() {
    let readout = MacOSMemoryReadout::with_sizes(4096, 0);
    let stats = counters(0, 0, 0, 200, 56, 7);
    assert!(readout.measurable(&stats));
    assert_eq!(readout.used(&stats), Ok(1024));
    assert_eq!(readout.reclaimable(&stats), Ok(28));
    assert_eq!(readout.free(&stats), Ok(0));
}

#[test]
fn large_counters_do_not_overflow() {
    let readout = MacOSMemoryReadout::with_sizes(1 << 40, 0);
    let stats = counters(u32::MAX, u32::MAX, 0, u32::MAX, u32::MAX, u32::MAX);
    assert!(readout.measurable(&stats));
    let pages: u128 = 2 * (u32::MAX as u128);
    let expected = (pages * (1u128 << 40) / 1024) as u64;
    assert_eq!(readout.free(&stats), Ok(expected));
    assert_eq!(readout.used(&stats), Ok(expected));
    assert_eq!(readout.reclaimable(&stats), Ok(expected / 2));
}

#[test]
fn unmeasurable_counters_are_told() {
    let readout = MacOSMemoryReadout::with_sizes(4096, 0);
    assert!(!readout.measurable(&counters(1, 1, 3, 0, 0, 0)));
    let huge = MacOSMemoryReadout::with_sizes(u64::MAX, 0);
    assert!(!huge.measurable(&counters(u32::MAX, 0, 0, 0, 0, 0)));
    assert!(huge.measurable(&counters(1024, 0, 0, 0, 0, 0)));
    assert!(!huge.measurable(&counters(1025, 0, 0, 0, 0, 0)));
}

#[test]
fn total_memory_in_kilobytes() {
    let readout = MacOSMemoryReadout::with_sizes(4096, 8 * 1024 * 1024 * 1024);
    assert_eq!(readout.total(), Ok(8 * 1024 * 1024));
    assert_eq!(MacOSMemoryReadout::with_sizes(4096, 2047).total(), Ok(1));
}

#[test]
fn readout_from_control_values() {
    let made = MacOSMemoryReadout::from_controls(Ok(ControlValue::S64(16384)), Ok(ControlValue::S64(1 << 34)));
    assert_eq!(made, Ok(MacOSMemoryReadout::with_sizes(16384, 1 << 34)));
    assert_eq!(made.unwrap().total(), Ok(1 << 24));
}

#[test]
fn readout_from_unusable_controls() {
    let page = || Err(ReadoutError::Other(String::from("Could not get vm page size.")));
    let memory = || Err(ReadoutError::Other(String::from("Could not get physical memory size.")));
    assert_eq!(MacOSMemoryReadout::from_controls(Ok(ControlValue::Unexpected), Ok(ControlValue::S64(1))), page());
    assert_eq!(MacOSMemoryReadout::from_controls(Ok(ControlValue::S64(-1)), Ok(ControlValue::S64(1))), page());
    assert_eq!(MacOSMemoryReadout::from_controls(Ok(ControlValue::S64(1)), Ok(ControlValue::Unexpected)), memory());
    assert_eq!(MacOSMemoryReadout::from_controls(Ok(ControlValue::S64(1)), Ok(ControlValue::S64(-5))), memory());
    assert_eq!(
        MacOSMemoryReadout::from_controls(Ok(ControlValue::Unexpected), Ok(ControlValue::Unexpected)),
        page()
    );
    assert_eq!(
        MacOSMemoryReadout::from_controls(Err(ReadoutError::MetricNotAvailable), Ok(ControlValue::S64(1))),
        Err(ReadoutError::MetricNotAvailable)
    );
    assert_eq!(
        MacOSMemoryReadout::from_controls(
            Ok(ControlValue::S64(1)),
            Err(ReadoutError::SysctlError(String::from("failed")))
        ),
        Err(ReadoutError::SysctlError(String::from("failed")))
    );
}

#[test]
fn readout_from_this_machine() {
    match MacOSMemoryReadout::new() {
        Ok(readout) => assert!(readout.total().is_ok()),
        Err(ReadoutError::MetricNotAvailable) => {}
        Err(ReadoutError::SysctlError(detail)) => {
            assert!(detail.starts_with("Error while accessing system control: "))
        }
        Err(ReadoutError::Other(message)) => assert!(
            message == "Could not get vm page size." || message == "Could not get physical memory size."
        ),
    }
}

#[test]
fn counters_the_kernel_refused() {
    let stats = counters(1, 2, 3, 4, 5, 6);
    assert_eq!(MacOSMemoryReadout::mach_vm_stats(KERN_SUCCESS, stats), Ok(stats));
    assert_eq!(
        MacOSMemoryReadout::mach_vm_stats(5, stats),
        Err(ReadoutError::Other(String::from("Could not retrieve vm statistics from host.")))
    );
    assert_eq!(
        MacOSMemoryReadout::mach_vm_stats(-1, stats),
        Err(ReadoutError::Other(String::from("Could not retrieve vm statistics from host.")))
    );
}
