//! Startup negotiation: what is asked of the adapter and the device, how
//! the surface's pixel format is chosen, and which failures are fatal.
//! The asynchronous handshake itself happens in the embedding application;
//! the requests and the format decision are fixed here.

use vstd::prelude::*;

verus! {

/// The power class asked for when negotiating an adapter.
#[derive(Clone, Copy, Debug, PartialEq, Eq)]
pub enum PowerPreference {
    LowPower,
    HighPerformance,
}

/// What the harness asks of adapter negotiation.
#[derive(Clone, Copy, Debug, PartialEq, Eq)]
pub struct AdapterRequest {
    pub power: PowerPreference,
    /// The adapter must be able to present to the window's surface.
    pub require_surface_compatible: bool,
    /// Whether a software fallback adapter is acceptable when asked for
    /// directly. The harness never forces the fallback.
    pub force_fallback: bool,
}

/// The resource-limit tier asked of the logical device.
#[derive(Clone, Copy, Debug, PartialEq, Eq)]
pub enum LimitsTier {
    /// The most portable tier, to maximise hardware compatibility.
    Downlevel,
    Default,
}

/// What the harness asks of device creation.
#[derive(Clone, Copy, Debug, PartialEq, Eq)]
pub struct DeviceRequest {
    /// No optional features beyond the default set.
    pub no_extra_features: bool,
    pub limits: LimitsTier,
}

/// The unrecoverable startup failures. Each ends the process; none is
/// retried.
#[derive(Clone, Copy, Debug, PartialEq, Eq)]
pub enum StartupError {
    /// No adapter compatible with the surface was found.
    NoAdapter,
    /// The adapter refused the requested feature set or limits.
    DeviceDenied,
    /// The surface reported no supported pixel format.
    NoSupportedFormat,
}

/// The one adapter request the harness ever makes: surface-compatible,
/// default power class, no forced software fallback.
pub fn adapter_request() -> (r: AdapterRequest)
    ensures
        r.power == PowerPreference::LowPower,
        r.require_surface_compatible,
        !r.force_fallback,
{
    AdapterRequest {
        power: PowerPreference::LowPower,
        require_surface_compatible: true,
        force_fallback: false,
    }
}

/// The one device request the harness ever makes: no extra features,
/// downlevel limits.
pub fn device_request() -> (r: DeviceRequest)
    ensures
        r.no_extra_features,
        r.limits == LimitsTier::Downlevel,
{
    DeviceRequest { no_extra_features: true, limits: LimitsTier::Downlevel }
}

/// Classify adapter negotiation. No compatible adapter is the fatal
/// `NoAdapter`: the loop never starts, and nothing is retried.
pub fn adapter_outcome(found: bool) -> (r: Result<(), StartupError>)
    ensures
        r == if found {
            Ok::<(), StartupError>(())
        } else {
            Err::<(), StartupError>(StartupError::NoAdapter)
        },
{
    if found {
        Ok(())
    } else {
        Err(StartupError::NoAdapter)
    }
}

/// Classify device creation. An adapter that refuses the requested
/// feature set or limits is the fatal `DeviceDenied`; nothing is
/// retried.
pub fn device_outcome(granted: bool) -> (r: Result<(), StartupError>)
    ensures
        r == if granted {
            Ok::<(), StartupError>(())
        } else {
            Err::<(), StartupError>(StartupError::DeviceDenied)
        },
{
    if granted {
        Ok(())
    } else {
        Err(StartupError::DeviceDenied)
    }
}

/// Choose the surface's pixel format from the supported list: the first
/// entry, negotiated once and kept for the surface's lifetime. An empty
/// list is a fatal startup error, like a failed adapter negotiation.
pub fn choose_format(supported: &Vec<u32>) -> (r: Result<u32, StartupError>)
    ensures
        supported@.len() > 0 ==> r == Ok::<u32, StartupError>(supported@[0]),
        supported@.len() == 0 ==> r == Err::<u32, StartupError>(StartupError::NoSupportedFormat),
{
    if supported.len() > 0 {
        Ok(supported[0])
    } else {
        Err(StartupError::NoSupportedFormat)
    }
}

} // verus!
