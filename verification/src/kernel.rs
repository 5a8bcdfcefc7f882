//! The kernel readout: type and release of the running kernel.

use vstd::prelude::*;
use sysctl::Ctl;
use crate::control::is_read_failure;
use crate::control::read_control_string;
use crate::control::resolve_control;
use crate::error::ReadoutError;
use crate::error::ReadoutErrorView;
use crate::error::text_result;

verus! {

/// The control that holds the kernel's type.
pub const OS_TYPE_CONTROL: &'static str = "kern.ostype";

/// The control that holds the kernel's release.
pub const OS_RELEASE_CONTROL: &'static str = "kern.osrelease";

/// Holds the two controls of the kernel readout, each resolved or not when
/// the readout was made.
pub struct MacOSKernelReadout {
    os_type_ctl: Option<Ctl>,
    os_release_ctl: Option<Ctl>,
}

impl MacOSKernelReadout {
    /// Whether the control behind [`Self::os_type`] was resolved.
    pub closed spec fn os_type_resolved(&self) -> bool {
        self.os_type_ctl is Some
    }

    /// Whether the control behind [`Self::os_release`] was resolved.
    pub closed spec fn os_release_resolved(&self) -> bool {
        self.os_release_ctl is Some
    }

    /// Resolves the two controls, once. Never fails: a control that this
    /// machine lacks stays unresolved, and is not looked up again.
    pub fn new() -> (r: MacOSKernelReadout) {
        let os_type_ctl = resolve_control(OS_TYPE_CONTROL);
        let os_release_ctl = resolve_control(OS_RELEASE_CONTROL);
        Self::with_controls(os_type_ctl, os_release_ctl)
    }

    /// A readout over handles that were resolved elsewhere.
    pub fn with_controls(os_type_ctl: Option<Ctl>, os_release_ctl: Option<Ctl>) -> (r: MacOSKernelReadout)
        ensures
            r.os_type_resolved() == (os_type_ctl is Some),
            r.os_release_resolved() == (os_release_ctl is Some),
    {
        MacOSKernelReadout { os_type_ctl, os_release_ctl }
    }

    /// The kernel's release. `MetricNotAvailable` where the control is
    /// unresolved; else its text or a read failure.
    pub fn os_release(&self) -> (r: Result<String, ReadoutError>)
        ensures
            !self.os_release_resolved() ==> text_result(r) == Err::<Seq<char>, _>(
                ReadoutErrorView::MetricNotAvailable,
            ),
            self.os_release_resolved() ==> r is Ok || is_read_failure(r->Err_0@),
    {
        read_control_string(&self.os_release_ctl)
    }

    /// The kernel's type. `MetricNotAvailable` where the control is
    /// unresolved; else its text or a read failure.
    pub fn os_type(&self) -> (r: Result<String, ReadoutError>)
        ensures
            !self.os_type_resolved() ==> text_result(r) == Err::<Seq<char>, _>(
                ReadoutErrorView::MetricNotAvailable,
            ),
            self.os_type_resolved() ==> r is Ok || is_read_failure(r->Err_0@),
    {
        read_control_string(&self.os_type_ctl)
    }
}

} // verus!
