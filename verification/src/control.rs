//! Kernel controls: named key/value parameters of the operating system,
//! resolved once into a handle and read on demand.

use vstd::prelude::*;
use vstd::string::StringExecFns;
use sysctl::Sysctl;
use sysctl::Ctl;
use sysctl::SysctlError;
use crate::error::ReadoutError;
use crate::error::ReadoutErrorView;
use crate::error::text_result;

verus! {

/// `sysctl::Ctl`, the handle of one resolved control. Nothing is known of its
/// contents.
#[verifier::external_type_specification]
#[verifier::external_body]
pub struct ExCtl(sysctl::Ctl);

/// `sysctl::SysctlError`, the failure of a lookup or a read.
#[verifier::external_type_specification]
#[verifier::external_body]
pub struct ExSysctlError(sysctl::SysctlError);

/// What a control holds, as far as the readouts tell values apart.
#[derive(Debug, Clone, PartialEq, Eq)]
pub enum ControlValue {
    /// A signed 64-bit number.
    S64(i64),
    /// Any other kind of value.
    Unexpected,
}

/// A kernel time value: seconds and microseconds since the epoch.
#[derive(Debug, Clone, Copy, PartialEq, Eq)]
pub struct TimeValue {
    pub tv_sec: i64,
    pub tv_usec: i64,
}

/// Calls `sysctl::Ctl::new` and keeps the handle where the lookup succeeded;
/// a control that this machine lacks gives `None`. Whether it does depends on
/// the machine, so nothing is claimed of the result.
#[verifier::external_body]
pub(crate) fn resolve_control(name: &str) -> (handle: Option<Ctl>) {
    Ctl::new(name).ok()
}

/// Calls `sysctl::Ctl::value_string`: the control's current value as text, or
/// the crate's error. Nothing is claimed of either. The outside function stops
/// the process where the kernel hands out more data than it announced.
#[verifier::external_body]
pub(crate) fn control_string(ctl: &Ctl) -> (outcome: Result<String, SysctlError>) {
    ctl.value_string()
}

/// Calls `sysctl::Ctl::value` and keeps the number of a signed 64-bit value;
/// every other kind of value becomes `Unexpected`. Nothing is claimed of which
/// one comes back. The outside function stops the process where the kernel
/// hands out more data than it announced.
#[verifier::external_body]
pub(crate) fn control_value(ctl: &Ctl) -> (outcome: Result<ControlValue, SysctlError>) {
    match ctl.value() {
        Ok(sysctl::CtlValue::S64(number)) => Ok(ControlValue::S64(number)),
        Ok(_) => Ok(ControlValue::Unexpected),
        Err(e) => Err(e),
    }
}

/// Calls `sysctl::Ctl::value` and keeps the bytes of a value that the kernel
/// hands out as a structure or a node; every other kind of value becomes
/// `None`. Nothing is claimed of which one comes back. The outside function
/// stops the process where the kernel hands out more data than it announced.
#[verifier::external_body]
pub(crate) fn control_bytes(ctl: &Ctl) -> (outcome: Result<Option<Vec<u8>>, SysctlError>) {
    match ctl.value() {
        Ok(sysctl::CtlValue::Struct(bytes)) => Ok(Some(bytes)),
        Ok(sysctl::CtlValue::Node(bytes)) => Ok(Some(bytes)),
        Ok(_) => Ok(None),
        Err(e) => Err(e),
    }
}

/// The `Debug` text of a `sysctl::SysctlError`. Nothing is claimed of it.
#[verifier::external_body]
pub(crate) fn describe_failure(e: &SysctlError) -> (text: String) {
    format!("{:?}", e)
}

/// How the text of every control-read failure begins.
pub open spec fn failure_prefix() -> Seq<char> {
    "Error while accessing system control: "@
}

/// `e` is a control-read failure: a `SysctlError` whose text begins with
/// [`failure_prefix`].
pub open spec fn is_read_failure(e: ReadoutErrorView) -> bool {
    e matches ReadoutErrorView::SysctlError(detail) && failure_prefix().is_prefix_of(detail)
}

/// The error of a control read that failed for the reason `detail`.
pub open spec fn failure_of(detail: Seq<char>) -> ReadoutErrorView {
    ReadoutErrorView::SysctlError(failure_prefix() + detail)
}

/// The error of a control whose value cannot be taken as the kind asked for.
pub open spec fn extraction_failure() -> ReadoutErrorView {
    failure_of("ExtractionError"@)
}

impl ReadoutError {
    /// The error of a control read that failed for the reason `detail`: a
    /// `SysctlError` whose text is the fixed prefix followed by `detail`.
    pub fn read_failure(detail: &str) -> (r: ReadoutError)
        ensures
            r@ == failure_of(detail@),
            is_read_failure(r@),
    {
        let mut text = String::from_str("Error while accessing system control: ");
        text.append(detail);
        assert(failure_prefix() =~= text@.subrange(0, failure_prefix().len() as int));
        ReadoutError::SysctlError(text)
    }

    /// Turns the failure of a control read into a `SysctlError` whose text is
    /// the fixed prefix followed by the failure's description.
    pub fn from_sysctl(e: &SysctlError) -> (r: ReadoutError)
        ensures
            is_read_failure(r@),
            exists|detail: Seq<char>| r@ == #[trigger] failure_of(detail),
    {
        let detail = describe_failure(e);
        let r = ReadoutError::read_failure(detail.as_str());
        assert(r@ == failure_of(detail@));
        r
    }
}

/// What a read that the system answered with `outcome` amounts to: the value
/// where the read succeeded, a `SysctlError` where it failed.
pub fn settle_read<T>(outcome: Result<T, SysctlError>) -> (r: Result<T, ReadoutError>)
    ensures
        outcome matches Ok(value) ==> r == Ok::<T, ReadoutError>(value),
        outcome is Err ==> r is Err && is_read_failure(r->Err_0@) && exists|detail: Seq<char>|
            r->Err_0@ == #[trigger] failure_of(detail),
{
    match outcome {
        Ok(value) => Ok(value),
        Err(e) => Err(ReadoutError::from_sysctl(&e)),
    }
}

/// Reads a control as text. An unresolved handle gives `MetricNotAvailable`
/// and is never looked up again; a resolved one gives its text or a read
/// failure.
pub fn read_control_string(handle: &Option<Ctl>) -> (r: Result<String, ReadoutError>)
    ensures
        handle is None ==> text_result(r) == Err::<Seq<char>, _>(ReadoutErrorView::MetricNotAvailable),
        handle is Some ==> r is Ok || is_read_failure(r->Err_0@),
{
    match handle {
        None => Err(ReadoutError::MetricNotAvailable),
        Some(ctl) => settle_read(control_string(ctl)),
    }
}

/// Reads a control as a typed value, with the same failures as
/// [`read_control_string`].
pub fn read_control_value(handle: &Option<Ctl>) -> (r: Result<ControlValue, ReadoutError>)
    ensures
        handle is None ==> r is Err && r->Err_0@ == ReadoutErrorView::MetricNotAvailable,
        handle is Some ==> r is Ok || is_read_failure(r->Err_0@),
{
    match handle {
        None => Err(ReadoutError::MetricNotAvailable),
        Some(ctl) => settle_read(control_value(ctl)),
    }
}

/// The number that the eight bytes of `bytes` from `at` on spell, lowest byte
/// first.
pub open spec fn unsigned_64_at(bytes: Seq<u8>, at: int) -> int {
    bytes[at] + bytes[at + 1] * 0x100 + bytes[at + 2] * 0x1_0000 + bytes[at + 3] * 0x100_0000
        + bytes[at + 4] * 0x1_0000_0000 + bytes[at + 5] * 0x100_0000_0000 + bytes[at + 6]
        * 0x1_0000_0000_0000 + bytes[at + 7] * 0x100_0000_0000_0000
}

/// The number that the four bytes of `bytes` from `at` on spell, lowest byte
/// first.
pub open spec fn unsigned_32_at(bytes: Seq<u8>, at: int) -> int {
    bytes[at] + bytes[at + 1] * 0x100 + bytes[at + 2] * 0x1_0000 + bytes[at + 3] * 0x100_0000
}

/// The signed number that `unsigned` stands for in two's complement, where
/// `modulus` is two to the number of bits.
pub open spec fn twos_complement(unsigned: int, modulus: int) -> int {
    if 2 * unsigned >= modulus {
        unsigned - modulus
    } else {
        unsigned
    }
}

/// The size of a kernel time value in bytes: eight of seconds, four of
/// microseconds, four unused.
pub const TIME_VALUE_SIZE: usize = 16;

/// The time value that `bytes` hold, or the error where they are not the
/// bytes of one.
pub open spec fn time_of(bytes: Seq<u8>) -> Result<TimeValue, ReadoutErrorView> {
    if bytes.len() == TIME_VALUE_SIZE {
        Ok(
            TimeValue {
                tv_sec: twos_complement(unsigned_64_at(bytes, 0), 0x1_0000_0000_0000_0000) as i64,
                tv_usec: twos_complement(unsigned_32_at(bytes, 8), 0x1_0000_0000) as i64,
            },
        )
    } else {
        Err(extraction_failure())
    }
}

/// A fallible time value with its error as a value.
pub open spec fn time_result(r: Result<TimeValue, ReadoutError>) -> Result<
    TimeValue,
    ReadoutErrorView,
> {
    match r {
        Ok(time) => Ok(time),
        Err(e) => Err(e@),
    }
}

/// Decodes a kernel time value from the bytes of a control: signed seconds in
/// the first eight bytes, signed microseconds in the next four, each with its
/// lowest byte first. Bytes of any other length than sixteen are no time
/// value and give a read failure.
pub fn time_value_of(bytes: &[u8]) -> (r: Result<TimeValue, ReadoutError>)
    ensures
        time_result(r) == time_of(bytes@),
{
    if bytes.len() != TIME_VALUE_SIZE {
        return Err(ReadoutError::read_failure("ExtractionError"));
    }
    let seconds: u64 = bytes[0] as u64 + bytes[1] as u64 * 0x100 + bytes[2] as u64 * 0x1_0000
        + bytes[3] as u64 * 0x100_0000 + bytes[4] as u64 * 0x1_0000_0000 + bytes[5] as u64
        * 0x100_0000_0000 + bytes[6] as u64 * 0x1_0000_0000_0000 + bytes[7] as u64
        * 0x100_0000_0000_0000;
    let micros: u32 = bytes[8] as u32 + bytes[9] as u32 * 0x100 + bytes[10] as u32 * 0x1_0000
        + bytes[11] as u32 * 0x100_0000;
    let tv_sec: i64 = if seconds >= 0x8000_0000_0000_0000 {
        (seconds - 0x8000_0000_0000_0000) as i64 + i64::MIN
    } else {
        seconds as i64
    };
    let tv_usec: i64 = if micros >= 0x8000_0000 {
        micros as i64 - 0x1_0000_0000
    } else {
        micros as i64
    };
    Ok(TimeValue { tv_sec, tv_usec })
}

/// What a read for a time value that the system answered with `outcome`
/// amounts to: the time value that the bytes hold; a read failure where the
/// value has no bytes, or not those of a time value, or the read failed.
pub fn settle_time(outcome: Result<Option<Vec<u8>>, SysctlError>) -> (r: Result<
    TimeValue,
    ReadoutError,
>)
    ensures
        outcome matches Ok(Some(bytes)) ==> time_result(r) == time_of(bytes@),
        outcome matches Ok(None) ==> time_result(r) == Err::<TimeValue, _>(extraction_failure()),
        outcome is Err ==> r is Err && is_read_failure(r->Err_0@),
        r is Ok || is_read_failure(r->Err_0@),
{
    match outcome {
        Ok(Some(bytes)) => time_value_of(bytes.as_slice()),
        Ok(None) => Err(ReadoutError::read_failure("ExtractionError")),
        Err(e) => Err(ReadoutError::from_sysctl(&e)),
    }
}

/// Reads a control as a kernel time value, with the same failures as
/// [`read_control_string`]; a value that is no time value is a read failure.
pub fn read_control_time(handle: &Option<Ctl>) -> (r: Result<TimeValue, ReadoutError>)
    ensures
        handle is None ==> r is Err && r->Err_0@ == ReadoutErrorView::MetricNotAvailable,
        handle is Some ==> r is Ok || is_read_failure(r->Err_0@),
{
    match handle {
        None => Err(ReadoutError::MetricNotAvailable),
        Some(ctl) => settle_time(control_bytes(ctl)),
    }
}

} // verus!
