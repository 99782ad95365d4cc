use vstd::prelude::*;
use crate::gate::{GatePhase, LinkReadinessGate};
use crate::resources::{BleCapacity, BleHostResources, ResourceError, ble_resource_error};

verus! {

/// The protocols that take turns driving the shared radio.
#[derive(Clone, Copy, Debug, PartialEq, Eq, Structural)]
pub enum Protocol {
    WifiStation,
    BleHost,
}

/// Exclusive right to drive the radio for one protocol. Only a
/// `RadioHandle` hands one out, at most once per protocol.
pub struct RadioCapability {
    protocol: Protocol,
}

impl RadioCapability {
    pub closed spec fn spec_protocol(&self) -> Protocol {
        self.protocol
    }

    pub fn protocol(&self) -> (r: Protocol)
        ensures
            r == self.spec_protocol(),
    {
        self.protocol
    }
}

/// Failures that abort startup: there is no way to go on after one.
#[derive(Clone, Copy, Debug, PartialEq, Eq, Structural)]
pub enum StartupError {
    /// The capability asked for was already handed out.
    RadioUnavailable,
    /// BLE was asked for before the Wi-Fi bring-up completed.
    NetworkNotReady,
    /// A resource pool could not be built.
    Resources(ResourceError),
}

/// The single physical radio, split into one capability per protocol.
#[derive(Clone, Copy, Debug, PartialEq, Eq, Structural)]
pub struct RadioHandle {
    pub wifi_issued: bool,
    pub ble_issued: bool,
}

/// The error that asking for the BLE capability gives, if any.
pub open spec fn ble_grant_error(radio: RadioHandle, gate: LinkReadinessGate) -> Option<
    StartupError,
> {
    if radio.ble_issued {
        Some(StartupError::RadioUnavailable)
    } else if !radio.wifi_issued || gate.phase != GatePhase::Ready {
        Some(StartupError::NetworkNotReady)
    } else {
        None
    }
}

/// A BLE host ready to be bound: the radio capability and its pools.
pub struct BleHostSetup {
    pub capability: RadioCapability,
    pub resources: BleHostResources,
}

impl RadioHandle {
    /// The radio as it comes out of boot: nothing handed out.
    pub fn new() -> (r: RadioHandle)
        ensures
            !r.wifi_issued,
            !r.ble_issued,
    {
        RadioHandle { wifi_issued: false, ble_issued: false }
    }

    /// Hands out the Wi-Fi station capability, once.
    pub fn take_wifi(&mut self) -> (r: Result<RadioCapability, StartupError>)
        ensures
            r is Ok <==> !old(self).wifi_issued,
            r matches Ok(c) ==> c.spec_protocol() == Protocol::WifiStation,
            r matches Err(e) ==> e == StartupError::RadioUnavailable,
            final(self).wifi_issued,
            final(self).ble_issued == old(self).ble_issued,
    {
        if self.wifi_issued {
            Err(StartupError::RadioUnavailable)
        } else {
            self.wifi_issued = true;
            Ok(RadioCapability { protocol: Protocol::WifiStation })
        }
    }

    /// Hands out the BLE capability, once, and only after the Wi-Fi
    /// capability went out and `gate` released its caller.
    pub fn take_ble(&mut self, gate: &LinkReadinessGate) -> (r: Result<
        RadioCapability,
        StartupError,
    >)
        ensures
            r is Ok <==> ble_grant_error(*old(self), *gate) is None,
            r matches Ok(c) ==> c.spec_protocol() == Protocol::BleHost,
            r matches Err(e) ==> ble_grant_error(*old(self), *gate) == Some(e),
            final(self).wifi_issued == old(self).wifi_issued,
            final(self).ble_issued == (old(self).ble_issued || r is Ok),
    {
        if self.ble_issued {
            return Err(StartupError::RadioUnavailable);
        }
        if !self.wifi_issued || !gate.is_ready() {
            return Err(StartupError::NetworkNotReady);
        }
        self.ble_issued = true;
        Ok(RadioCapability { protocol: Protocol::BleHost })
    }
}

/// Builds the BLE host's pools for `requested` and takes the BLE capability
/// of `radio`. The pools are checked first, so a refused configuration
/// leaves the radio untouched.
pub fn init_ble_host(radio: &mut RadioHandle, gate: &LinkReadinessGate, requested: BleCapacity) -> (r:
    Result<BleHostSetup, StartupError>)
    ensures
        r is Ok <==> ble_resource_error(requested) is None && ble_grant_error(*old(radio), *gate) is None,
        ble_resource_error(requested) matches Some(e) ==> r == Err::<BleHostSetup, StartupError>(
            StartupError::Resources(e),
        ),
        ble_resource_error(requested) is None && ble_grant_error(*old(radio), *gate) is Some
            ==> r == Err::<BleHostSetup, StartupError>(ble_grant_error(*old(radio), *gate)->0),
        r matches Ok(setup) ==> {
            &&& setup.capability.spec_protocol() == Protocol::BleHost
            &&& setup.resources.connections.spec_reserved() == requested.max_connections
            &&& setup.resources.channels.spec_reserved() == requested.max_channels
        },
        final(radio).wifi_issued == old(radio).wifi_issued,
        final(radio).ble_issued == (old(radio).ble_issued || r is Ok),
{
    let resources = match BleHostResources::new(requested) {
        Ok(res) => res,
        Err(e) => return Err(StartupError::Resources(e)),
    };
    match radio.take_ble(gate) {
        Ok(capability) => Ok(BleHostSetup { capability, resources }),
        Err(e) => Err(e),
    }
}

} // verus!
