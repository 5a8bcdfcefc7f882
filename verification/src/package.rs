//! The package readout: how many packages the package manager holds.

use vstd::prelude::*;
use crate::error::ReadoutError;
use crate::error::ReadoutErrorView;
use crate::error::text_result;
use crate::text::decimal;
use crate::text::to_decimal;

verus! {

/// The entries of a directory that may be missing: none where it is.
pub open spec fn entries(directory: Option<usize>) -> nat {
    match directory {
        Some(count) => count as nat,
        None => 0,
    }
}

/// Counts installed packages by the entries of the package manager's two
/// directories.
#[derive(Debug, Clone, Copy)]
pub struct MacOSPackageReadout;

impl MacOSPackageReadout {
    /// The package readout; it holds nothing.
    pub fn new() -> (r: MacOSPackageReadout) {
        MacOSPackageReadout
    }

    /// The number of packages, given how many entries each of the two
    /// directories holds (`None` for a directory that is missing). The total
    /// as a decimal numeral; `MetricNotAvailable` where it is zero.
    pub fn count_pkgs(&self, cellar: Option<usize>, caskroom: Option<usize>) -> (r: Result<
        String,
        ReadoutError,
    >)
        ensures
            entries(cellar) + entries(caskroom) == 0 ==> text_result(r) == Err::<Seq<char>, _>(
                ReadoutErrorView::MetricNotAvailable,
            ),
            entries(cellar) + entries(caskroom) > 0 ==> text_result(r) == Ok::<_, ReadoutErrorView>(
                decimal(entries(cellar) + entries(caskroom)),
            ),
    {
        let cellar_count: usize = match cellar {
            Some(count) => count,
            None => 0,
        };
        let caskroom_count: usize = match caskroom {
            Some(count) => count,
            None => 0,
        };
        let total: u128 = cellar_count as u128 + caskroom_count as u128;
        if total == 0 {
            return Err(ReadoutError::MetricNotAvailable);
        }
        Ok(to_decimal(total))
    }
}

} // verus!
