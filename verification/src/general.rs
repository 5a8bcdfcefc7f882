//! The general readout: host name, processor, uptime and machine.

use vstd::prelude::*;
use vstd::string::StringExecFns;
use sysctl::Ctl;
use crate::control::is_read_failure;
use crate::control::read_control_string;
use crate::control::read_control_time;
use crate::control::resolve_control;
use crate::control::TimeValue;
use crate::error::ReadoutError;
use crate::error::ReadoutErrorView;
use crate::error::text_result;
use crate::version::macos_version_to_name;
use crate::version::version_name;
use crate::version::version_text;
use crate::version::NSOperatingSystemVersion;

verus! {

/// A point in time, or a length of time: whole seconds and nanoseconds.
#[derive(Debug, Clone, Copy, PartialEq, Eq)]
pub struct Span {
    pub secs: u64,
    pub nanos: u32,
}

impl Span {
    /// The span in nanoseconds.
    pub open spec fn total_nanos(self) -> int {
        self.secs * 1_000_000_000 + self.nanos
    }

    /// Less than one second is held as nanoseconds.
    pub open spec fn well_formed(self) -> bool {
        self.nanos < 1_000_000_000
    }
}

impl TimeValue {
    /// The time value in nanoseconds since the epoch.
    pub open spec fn total_nanos(self) -> int {
        self.tv_sec * 1_000_000_000 + self.tv_usec * 1_000
    }

    /// Neither seconds nor microseconds are negative. A million microseconds
    /// or more count as the seconds that they are.
    pub open spec fn well_formed(self) -> bool {
        0 <= self.tv_sec && 0 <= self.tv_usec
    }
}

/// The time from `boot` to `now` can be told: both are well formed and `now`
/// is not before `boot`.
pub open spec fn uptime_known(boot: TimeValue, now: Span) -> bool {
    boot.well_formed() && now.well_formed() && boot.total_nanos() <= now.total_nanos()
}

/// The text of the error for an uptime that cannot be told.
pub open spec fn uptime_failure() -> ReadoutErrorView {
    ReadoutErrorView::Other("Error calculating boot time since unix epoch."@)
}

/// The time from `boot` to `now`, exact to the nanosecond, or the error
/// where it cannot be told.
pub open spec fn elapsed(boot: TimeValue, now: Span) -> Result<Span, ReadoutErrorView> {
    if uptime_known(boot, now) {
        let nanos = now.total_nanos() - boot.total_nanos();
        Ok(Span { secs: (nanos / 1_000_000_000) as u64, nanos: (nanos % 1_000_000_000) as u32 })
    } else {
        Err(uptime_failure())
    }
}

/// A fallible span with its error as a value.
pub open spec fn span_result(r: Result<Span, ReadoutError>) -> Result<Span, ReadoutErrorView> {
    match r {
        Ok(span) => Ok(span),
        Err(e) => Err(e@),
    }
}

/// The time that passed from `boot` to `now`, exact to the nanosecond. Fails
/// with `Other` where `now` lies before `boot` or either value is malformed.
pub fn elapsed_since_boot(boot: TimeValue, now: Span) -> (r: Result<Span, ReadoutError>)
    ensures
        span_result(r) == elapsed(boot, now),
        r matches Ok(span) ==> span.well_formed() && span.total_nanos() == now.total_nanos()
            - boot.total_nanos(),
{
    if boot.tv_sec < 0 || boot.tv_usec < 0 || now.nanos >= 1_000_000_000 {
        return Err(ReadoutError::other("Error calculating boot time since unix epoch."));
    }
    let boot_total: u128 = boot.tv_sec as u128 * 1_000_000_000 + boot.tv_usec as u128 * 1_000;
    let now_total: u128 = now.secs as u128 * 1_000_000_000 + now.nanos as u128;
    if now_total < boot_total {
        return Err(ReadoutError::other("Error calculating boot time since unix epoch."));
    }
    let passed: u128 = now_total - boot_total;
    Ok(Span { secs: (passed / 1_000_000_000) as u64, nanos: (passed % 1_000_000_000) as u32 })
}

/// `"<model> (macOS <version> <marketing name>)"`.
pub open spec fn machine_text(model: Seq<char>, v: NSOperatingSystemVersion) -> Seq<char> {
    model + " (macOS "@ + version_text(v) + " "@ + version_name(v.major_version, v.minor_version)
        + ")"@
}

/// Describes the machine: its hardware model, then in brackets the product
/// name, the version and the version's marketing name.
pub fn describe_machine(model: &str, os_version: NSOperatingSystemVersion) -> (text: String)
    ensures
        text@ == machine_text(model@, os_version),
{
    let version = os_version.into_string();
    let name = macos_version_to_name(os_version.major_version, os_version.minor_version);
    let mut text = String::from_str(model);
    text.append(" (");
    text.append("macOS");
    text.append(" ");
    text.append(version.as_str());
    text.append(" ");
    text.append(name);
    text.append(")");
    proof {
        reveal_strlit(" (");
        reveal_strlit("macOS");
        reveal_strlit(" ");
        reveal_strlit(" (macOS ");
        assert(" (macOS "@ =~= " ("@ + "macOS"@ + " "@);
        assert(text@ =~= machine_text(model@, os_version));
    }
    text
}

/// The control that holds the processor's brand string.
pub const CPU_BRAND_CONTROL: &'static str = "machdep.cpu.brand_string";

/// The control that holds the time of boot.
pub const BOOT_TIME_CONTROL: &'static str = "kern.boottime";

/// The control that holds the host's name.
pub const HOSTNAME_CONTROL: &'static str = "kern.hostname";

/// The control that holds the hardware model.
pub const HW_MODEL_CONTROL: &'static str = "hw.model";

/// Holds the four controls of the general readout, each resolved or not when
/// the readout was made.
pub struct MacOSGeneralReadout {
    cpu_brand_ctl: Option<Ctl>,
    boot_time_ctl: Option<Ctl>,
    hostname_ctl: Option<Ctl>,
    hw_model_ctl: Option<Ctl>,
}

impl MacOSGeneralReadout {
    /// Whether the processor's brand string was resolved.
    pub closed spec fn cpu_brand_resolved(&self) -> bool {
        self.cpu_brand_ctl is Some
    }

    /// Whether the boot time was resolved.
    pub closed spec fn boot_time_resolved(&self) -> bool {
        self.boot_time_ctl is Some
    }

    /// Whether the host name was resolved.
    pub closed spec fn hostname_resolved(&self) -> bool {
        self.hostname_ctl is Some
    }

    /// Whether the hardware model was resolved.
    pub closed spec fn hw_model_resolved(&self) -> bool {
        self.hw_model_ctl is Some
    }

    /// Resolves the four controls, once. Never fails: a control that this
    /// machine lacks stays unresolved, and is not looked up again.
    pub fn new() -> (r: MacOSGeneralReadout) {
        let cpu_brand_ctl = resolve_control(CPU_BRAND_CONTROL);
        let boot_time_ctl = resolve_control(BOOT_TIME_CONTROL);
        let hostname_ctl = resolve_control(HOSTNAME_CONTROL);
        let hw_model_ctl = resolve_control(HW_MODEL_CONTROL);
        Self::with_controls(cpu_brand_ctl, boot_time_ctl, hostname_ctl, hw_model_ctl)
    }

    /// A readout over handles that were resolved elsewhere.
    pub fn with_controls(
        cpu_brand_ctl: Option<Ctl>,
        boot_time_ctl: Option<Ctl>,
        hostname_ctl: Option<Ctl>,
        hw_model_ctl: Option<Ctl>,
    ) -> (r: MacOSGeneralReadout)
        ensures
            r.cpu_brand_resolved() == (cpu_brand_ctl is Some),
            r.boot_time_resolved() == (boot_time_ctl is Some),
            r.hostname_resolved() == (hostname_ctl is Some),
            r.hw_model_resolved() == (hw_model_ctl is Some),
    {
        MacOSGeneralReadout { cpu_brand_ctl, boot_time_ctl, hostname_ctl, hw_model_ctl }
    }

    /// The host's name. `MetricNotAvailable` where the control is unresolved;
    /// else its text or a read failure.
    pub fn hostname(&self) -> (r: Result<String, ReadoutError>)
        ensures
            !self.hostname_resolved() ==> text_result(r) == Err::<Seq<char>, _>(
                ReadoutErrorView::MetricNotAvailable,
            ),
            self.hostname_resolved() ==> r is Ok || is_read_failure(r->Err_0@),
    {
        read_control_string(&self.hostname_ctl)
    }

    /// The processor's model name. `MetricNotAvailable` where the control is
    /// unresolved; else its text or a read failure.
    pub fn cpu_model_name(&self) -> (r: Result<String, ReadoutError>)
        ensures
            !self.cpu_brand_resolved() ==> text_result(r) == Err::<Seq<char>, _>(
                ReadoutErrorView::MetricNotAvailable,
            ),
            self.cpu_brand_resolved() ==> r is Ok || is_read_failure(r->Err_0@),
    {
        read_control_string(&self.cpu_brand_ctl)
    }

    /// Always `"Aqua"`.
    pub fn desktop_environment(&self) -> (r: Result<String, ReadoutError>)
        ensures
            text_result(r) == Ok::<_, ReadoutErrorView>("Aqua"@),
    {
        Ok(String::from_str("Aqua"))
    }

    /// Always `"Quartz Compositor"`.
    pub fn window_manager(&self) -> (r: Result<String, ReadoutError>)
        ensures
            text_result(r) == Ok::<_, ReadoutErrorView>("Quartz Compositor"@),
    {
        Ok(String::from_str("Quartz Compositor"))
    }

    /// The time since boot at the instant `now`. `MetricNotAvailable` where
    /// the boot-time control is unresolved; a read failure where reading it
    /// fails; else what [`elapsed_since_boot`] gives for the boot time read.
    pub fn uptime(&self, now: Span) -> (r: Result<Span, ReadoutError>)
        ensures
            !self.boot_time_resolved() ==> r is Err && r->Err_0@
                == ReadoutErrorView::MetricNotAvailable,
            self.boot_time_resolved() ==> (r matches Err(e) && is_read_failure(e@)) || exists|
                boot: TimeValue,
            |
                span_result(r) == #[trigger] elapsed(boot, now),
    {
        let boot = read_control_time(&self.boot_time_ctl)?;
        let r = elapsed_since_boot(boot, now);
        assert(span_result(r) == elapsed(boot, now));
        r
    }

    /// The machine at operating-system version `os_version`.
    /// `MetricNotAvailable` where the hardware-model control is unresolved; a
    /// read failure where reading it fails; else [`machine_text`] of the
    /// model read.
    pub fn machine(&self, os_version: NSOperatingSystemVersion) -> (r: Result<String, ReadoutError>)
        ensures
            !self.hw_model_resolved() ==> text_result(r) == Err::<Seq<char>, _>(
                ReadoutErrorView::MetricNotAvailable,
            ),
            self.hw_model_resolved() ==> match r {
                Ok(text) => exists|model: Seq<char>| text@ == machine_text(model, os_version),
                Err(e) => is_read_failure(e@),
            },
    {
        let mac_model = read_control_string(&self.hw_model_ctl)?;
        let text = describe_machine(mac_model.as_str(), os_version);
        Ok(text)
    }
}

} // verus!
