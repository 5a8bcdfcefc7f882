//! The memory readout: total, free, used and reclaimable memory in kilobytes.

use vstd::prelude::*;
use crate::control::is_read_failure;
use crate::control::read_control_value;
use crate::control::resolve_control;
use crate::control::ControlValue;
use crate::error::ReadoutError;
use crate::error::ReadoutErrorView;
use crate::kern::KERN_SUCCESS;

verus! {

/// The control that holds the size of a page in bytes.
pub const PAGE_SIZE_CONTROL: &'static str = "hw.pagesize";

/// The control that holds the size of the physical memory in bytes.
pub const MEMORY_SIZE_CONTROL: &'static str = "hw.memsize";

/// The kernel's virtual-memory counters, each a number of pages.
#[derive(Debug, Clone, Copy, PartialEq, Eq)]
pub struct VmStatistics {
    pub free_count: u32,
    pub active_count: u32,
    pub inactive_count: u32,
    pub wire_count: u32,
    pub purgeable_count: u32,
    pub speculative_count: u32,
}

/// `pages` pages of `page_size` bytes in kilobytes; the remainder is dropped.
pub open spec fn kilobytes(pages: int, page_size: int) -> int {
    pages * page_size / 1024
}

impl VmStatistics {
    /// The pages that count as free: free and inactive ones, less the
    /// speculative ones.
    pub open spec fn free_pages(self) -> int {
        self.free_count + self.inactive_count - self.speculative_count
    }

    /// The pages that count as used: active and wired ones.
    pub open spec fn used_pages(self) -> int {
        self.active_count + self.wire_count
    }
}

/// The text of the error for a memory control that holds no usable number.
pub open spec fn page_size_failure() -> ReadoutErrorView {
    ReadoutErrorView::Other("Could not get vm page size."@)
}

/// The text of the error for a physical memory size that is no usable number.
pub open spec fn memory_size_failure() -> ReadoutErrorView {
    ReadoutErrorView::Other("Could not get physical memory size."@)
}

/// The text of the error for virtual-memory counters that the kernel refused.
pub open spec fn vm_statistics_failure() -> ReadoutErrorView {
    ReadoutErrorView::Other("Could not retrieve vm statistics from host."@)
}

/// The byte count that a control read amounts to: the number of a signed
/// 64-bit value that is not negative, the read's own error, or `otherwise`
/// for any other value.
pub open spec fn byte_count(
    outcome: Result<ControlValue, ReadoutError>,
    otherwise: ReadoutErrorView,
) -> Result<u64, ReadoutErrorView> {
    match outcome {
        Ok(ControlValue::S64(number)) => if number >= 0 {
            Ok(number as u64)
        } else {
            Err(otherwise)
        },
        Ok(ControlValue::Unexpected) => Err(otherwise),
        Err(e) => Err(e@),
    }
}

/// The two sizes that the reads of the two controls amount to: both where
/// both reads gave a usable number, else the error of the page size, else
/// that of the physical memory size.
pub open spec fn sizes_of(
    page_size: Result<ControlValue, ReadoutError>,
    physical_memory: Result<ControlValue, ReadoutError>,
) -> Result<(u64, u64), ReadoutErrorView> {
    match (
        byte_count(page_size, page_size_failure()),
        byte_count(physical_memory, memory_size_failure()),
    ) {
        (Ok(page), Ok(memory)) => Ok((page, memory)),
        (Err(e), _) => Err(e),
        (Ok(_), Err(e)) => Err(e),
    }
}

/// What reading a control can give: a value, `MetricNotAvailable` for a
/// control that this machine lacks, or a read failure.
pub open spec fn read_outcome(outcome: Result<ControlValue, ReadoutError>) -> bool {
    match outcome {
        Ok(_) => true,
        Err(e) => e@ == ReadoutErrorView::MetricNotAvailable || is_read_failure(e@),
    }
}

/// The sizes of a readout that was made, or the error of one that was not.
pub open spec fn made_sizes(r: Result<MacOSMemoryReadout, ReadoutError>) -> Result<
    (u64, u64),
    ReadoutErrorView,
> {
    match r {
        Ok(readout) => Ok((readout.page_size(), readout.physical_memory())),
        Err(e) => Err(e@),
    }
}

/// Page size and physical memory size, captured once when the readout is made.
#[derive(Debug, Clone, Copy, PartialEq, Eq)]
pub struct MacOSMemoryReadout {
    page_size: u64,
    physical_memory: u64,
}

impl MacOSMemoryReadout {
    /// The size of one page in bytes.
    pub closed spec fn page_size(&self) -> u64 {
        self.page_size
    }

    /// The size of the physical memory in bytes.
    pub closed spec fn physical_memory(&self) -> u64 {
        self.physical_memory
    }

    /// A readout over sizes that were read elsewhere.
    pub fn with_sizes(page_size: u64, physical_memory: u64) -> (r: MacOSMemoryReadout)
        ensures
            r.page_size() == page_size,
            r.physical_memory() == physical_memory,
    {
        MacOSMemoryReadout { page_size, physical_memory }
    }

    /// The readout that the reads of the two controls amount to: see
    /// [`sizes_of`].
    pub fn from_controls(
        page_size: Result<ControlValue, ReadoutError>,
        physical_memory: Result<ControlValue, ReadoutError>,
    ) -> (r: Result<MacOSMemoryReadout, ReadoutError>)
        ensures
            made_sizes(r) == sizes_of(page_size, physical_memory),
    {
        let page: u64 = match page_size {
            Ok(ControlValue::S64(number)) => {
                if number < 0 {
                    return Err(ReadoutError::other("Could not get vm page size."));
                }
                number as u64
            },
            Ok(ControlValue::Unexpected) => {
                return Err(ReadoutError::other("Could not get vm page size."));
            },
            Err(e) => {
                return Err(e);
            },
        };
        let memory: u64 = match physical_memory {
            Ok(ControlValue::S64(number)) => {
                if number < 0 {
                    return Err(ReadoutError::other("Could not get physical memory size."));
                }
                number as u64
            },
            Ok(ControlValue::Unexpected) => {
                return Err(ReadoutError::other("Could not get physical memory size."));
            },
            Err(e) => {
                return Err(e);
            },
        };
        Ok(MacOSMemoryReadout { page_size: page, physical_memory: memory })
    }

    /// Reads the controls `hw.pagesize` and `hw.memsize` and makes the readout
    /// that the two reads amount to. It fails, and leaves it to the caller to
    /// stop, where either control is missing, cannot be read or holds no
    /// usable number.
    pub fn new() -> (r: Result<MacOSMemoryReadout, ReadoutError>)
        ensures
            exists|page_size: Result<ControlValue, ReadoutError>, physical_memory: Result<ControlValue, ReadoutError>|
                read_outcome(page_size) && read_outcome(physical_memory) && made_sizes(r)
                    == #[trigger] sizes_of(page_size, physical_memory),
    {
        let page_size = read_control_value(&resolve_control(PAGE_SIZE_CONTROL));
        let physical_memory = read_control_value(&resolve_control(MEMORY_SIZE_CONTROL));
        let r = Self::from_controls(page_size, physical_memory);
        assert(read_outcome(page_size) && read_outcome(physical_memory) && made_sizes(r) == sizes_of(
            page_size,
            physical_memory,
        ));
        r
    }

    /// What the kernel's answer to a request for its counters amounts to:
    /// the counters where it reported success, else an `Other` error.
    pub fn mach_vm_stats(kern_return: i32, counters: VmStatistics) -> (r: Result<
        VmStatistics,
        ReadoutError,
    >)
        ensures
            kern_return == KERN_SUCCESS ==> r == Ok::<_, ReadoutError>(counters),
            kern_return != KERN_SUCCESS ==> r is Err && r->Err_0@ == vm_statistics_failure(),
    {
        if kern_return == KERN_SUCCESS {
            return Ok(counters);
        }
        Err(ReadoutError::other("Could not retrieve vm statistics from host."))
    }

    /// Whether every quantity of `vm_stats` can be told in kilobytes: the
    /// free pages are not negative and each quantity fits in 64 bits.
    pub open spec fn can_measure(&self, vm_stats: VmStatistics) -> bool {
        &&& 0 <= vm_stats.free_pages()
        &&& kilobytes(vm_stats.free_pages(), self.page_size() as int) <= u64::MAX
        &&& kilobytes(vm_stats.used_pages(), self.page_size() as int) <= u64::MAX
        &&& kilobytes(vm_stats.purgeable_count as int, self.page_size() as int) <= u64::MAX
    }

    /// Tests [`Self::can_measure`].
    pub fn measurable(&self, vm_stats: &VmStatistics) -> (r: bool)
        ensures
            r == self.can_measure(*vm_stats),
    {
        let free: u64 = vm_stats.free_count as u64 + vm_stats.inactive_count as u64;
        let speculative: u64 = vm_stats.speculative_count as u64;
        let used: u64 = vm_stats.active_count as u64 + vm_stats.wire_count as u64;
        free >= speculative && kilobytes_fit(free - speculative, self.page_size) && kilobytes_fit(
            used,
            self.page_size,
        ) && kilobytes_fit(vm_stats.purgeable_count as u64, self.page_size)
    }

    /// The physical memory in kilobytes.
    pub fn total(&self) -> (r: Result<u64, ReadoutError>)
        ensures
            r == Ok::<u64, ReadoutError>((self.physical_memory() / 1024) as u64),
    {
        Ok(self.physical_memory / 1024)
    }

    /// The free memory in kilobytes.
    pub fn free(&self, vm_stats: &VmStatistics) -> (r: Result<u64, ReadoutError>)
        requires
            0 <= vm_stats.free_pages(),
            kilobytes(vm_stats.free_pages(), self.page_size() as int) <= u64::MAX,
        ensures
            r is Ok,
            r->Ok_0 == kilobytes(vm_stats.free_pages(), self.page_size() as int),
    {
        let pages: u64 = vm_stats.free_count as u64 + vm_stats.inactive_count as u64
            - vm_stats.speculative_count as u64;
        Ok(pages_to_kilobytes(pages, self.page_size))
    }

    /// The reclaimable memory in kilobytes.
    pub fn reclaimable(&self, vm_stats: &VmStatistics) -> (r: Result<u64, ReadoutError>)
        requires
            kilobytes(vm_stats.purgeable_count as int, self.page_size() as int) <= u64::MAX,
        ensures
            r is Ok,
            r->Ok_0 == kilobytes(vm_stats.purgeable_count as int, self.page_size() as int),
    {
        Ok(pages_to_kilobytes(vm_stats.purgeable_count as u64, self.page_size))
    }

    /// The used memory in kilobytes.
    pub fn used(&self, vm_stats: &VmStatistics) -> (r: Result<u64, ReadoutError>)
        requires
            kilobytes(vm_stats.used_pages(), self.page_size() as int) <= u64::MAX,
        ensures
            r is Ok,
            r->Ok_0 == kilobytes(vm_stats.used_pages(), self.page_size() as int),
    {
        let pages: u64 = vm_stats.active_count as u64 + vm_stats.wire_count as u64;
        Ok(pages_to_kilobytes(pages, self.page_size))
    }
}

/// Whether `pages` pages of `page_size` bytes are a number of kilobytes that
/// fits in 64 bits.
fn kilobytes_fit(pages: u64, page_size: u64) -> (r: bool)
    ensures
        r == (kilobytes(pages as int, page_size as int) <= u64::MAX),
{
    assert(pages * page_size <= u64::MAX * u64::MAX) by (nonlinear_arith)
        requires
            pages <= u64::MAX,
            page_size <= u64::MAX,
    ;
    assert(0 <= pages * page_size) by (nonlinear_arith);
    let bytes: u128 = pages as u128 * page_size as u128;
    bytes / 1024 <= u64::MAX as u128
}

/// `pages` pages of `page_size` bytes in kilobytes, where that fits.
fn pages_to_kilobytes(pages: u64, page_size: u64) -> (kb: u64)
    requires
        kilobytes(pages as int, page_size as int) <= u64::MAX,
    ensures
        kb == kilobytes(pages as int, page_size as int),
{
    assert(pages * page_size <= u64::MAX * u64::MAX) by (nonlinear_arith)
        requires
            pages <= u64::MAX,
            page_size <= u64::MAX,
    ;
    assert(0 <= pages * page_size) by (nonlinear_arith);
    let bytes: u128 = pages as u128 * page_size as u128;
    (bytes / 1024) as u64
}

} // verus!
