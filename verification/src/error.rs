//! The failure kinds shared by every readout.

use vstd::prelude::*;

verus! {

/// Why a readout could not produce a metric.
#[derive(Debug, Clone, PartialEq, Eq)]
pub enum ReadoutError {
    /// The fact does not exist on this machine or could not be located.
    MetricNotAvailable,
    /// Reading a kernel control failed; the text describes the system error.
    SysctlError(String),
    /// Any other failure, with an explanation for a human reader.
    Other(String),
}

/// The mathematical value of a [`ReadoutError`]: its kind and its text.
pub ghost enum ReadoutErrorView {
    MetricNotAvailable,
    SysctlError(Seq<char>),
    Other(Seq<char>),
}

impl View for ReadoutError {
    type V = ReadoutErrorView;

    open spec fn view(&self) -> ReadoutErrorView {
        match self {
            ReadoutError::MetricNotAvailable => ReadoutErrorView::MetricNotAvailable,
            ReadoutError::SysctlError(detail) => ReadoutErrorView::SysctlError(detail@),
            ReadoutError::Other(message) => ReadoutErrorView::Other(message@),
        }
    }
}

/// The view of a fallible text result: the text or the error, each as a value.
pub open spec fn text_result(r: Result<String, ReadoutError>) -> Result<Seq<char>, ReadoutErrorView> {
    match r {
        Ok(s) => Ok(s@),
        Err(e) => Err(e@),
    }
}

impl ReadoutError {
    /// An `Other` error carrying `message`.
    pub fn other(message: &str) -> (e: ReadoutError)
        ensures
            e@ == ReadoutErrorView::Other(message@),
    {
        ReadoutError::Other(String::from_str(message))
    }
}

} // verus!
