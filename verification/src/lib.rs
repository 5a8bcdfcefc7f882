//! System readouts for macOS: battery, kernel, general, memory, product and
//! package metrics, each normalised into a string or an unsigned integer, or
//! into a [`ReadoutError`] that says why the metric is missing.

pub mod error;
pub mod kern;
pub mod text;
pub mod version;

pub use error::ReadoutError;
pub use error::ReadoutErrorView;
pub use version::macos_version_to_name;
pub use version::MacOSProductReadout;
pub use version::NSOperatingSystemVersion;
pub mod control;
pub mod kernel;

pub use control::ControlValue;
pub use control::TimeValue;
pub use kernel::MacOSKernelReadout;
pub mod general;

pub use general::MacOSGeneralReadout;
pub use general::Span;
pub mod battery;
pub mod memory;
pub mod package;

pub use battery::MacOSBatteryReadout;
pub use battery::MacOSIOPMPowerSource;
pub use battery::PowerSourceProperties;
pub use memory::MacOSMemoryReadout;
pub use memory::VmStatistics;
pub use package::MacOSPackageReadout;
pub mod registry;

pub use registry::FetchAction;
pub use registry::FetchEvent;
pub use registry::FetchState;
