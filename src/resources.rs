use vstd::prelude::*;

verus! {

/// Socket slots of the network stack.
pub const NETWORK_SOCKET_SLOTS: usize = 3;

/// Simultaneous BLE connections the host is built for.
pub const BLE_CONNECTIONS_MAX: usize = 1;

/// L2CAP channels the BLE host is built for.
pub const L2CAP_CHANNELS_MAX: usize = 1;

/// A request for more slots than a pool was built with.
#[derive(Clone, Copy, Debug, PartialEq, Eq, Structural)]
pub enum ResourceError {
    OverCapacity { requested: usize, capacity: usize },
}

/// A fixed-capacity set of slots. Its capacity is set when it is built and
/// never grows; it holds exactly the slots requested then, never fewer.
pub struct StackResourcePool {
    capacity: usize,
    reserved: usize,
}

impl StackResourcePool {
    #[verifier::type_invariant]
    spec fn inv(&self) -> bool {
        self.reserved <= self.capacity
    }

    /// The number of slots the pool was built with.
    pub closed spec fn spec_capacity(&self) -> nat {
        self.capacity as nat
    }

    /// The number of slots reserved at construction.
    pub closed spec fn spec_reserved(&self) -> nat {
        self.reserved as nat
    }

    /// Builds a pool of `capacity` slots holding `requested` of them, or
    /// refuses when `requested` exceeds `capacity`.
    pub fn with_capacity(capacity: usize, requested: usize) -> (r: Result<
        StackResourcePool,
        ResourceError,
    >)
        ensures
            r is Ok <==> requested <= capacity,
            r matches Ok(p) ==> p.spec_capacity() == capacity && p.spec_reserved() == requested,
            r matches Err(e) ==> e == (ResourceError::OverCapacity { requested, capacity }),
    {
        if requested > capacity {
            Err(ResourceError::OverCapacity { requested, capacity })
        } else {
            Ok(StackResourcePool { capacity, reserved: requested })
        }
    }

    /// The pool of the network stack's sockets, of `NETWORK_SOCKET_SLOTS` slots.
    pub fn network_sockets(requested: usize) -> (r: Result<StackResourcePool, ResourceError>)
        ensures
            r is Ok <==> requested <= NETWORK_SOCKET_SLOTS,
            r matches Ok(p) ==> p.spec_capacity() == NETWORK_SOCKET_SLOTS && p.spec_reserved()
                == requested,
            r matches Err(e) ==> e == (ResourceError::OverCapacity {
                requested,
                capacity: NETWORK_SOCKET_SLOTS,
            }),
    {
        StackResourcePool::with_capacity(NETWORK_SOCKET_SLOTS, requested)
    }

    pub fn capacity(&self) -> (r: usize)
        ensures
            r == self.spec_capacity(),
    {
        self.capacity
    }

    pub fn reserved(&self) -> (r: usize)
        ensures
            r == self.spec_reserved(),
            r <= self.spec_capacity(),
    {
        proof {
            use_type_invariant(self);
        }
        self.reserved
    }
}

/// What the BLE host asks for: connections and L2CAP channels.
#[derive(Clone, Copy, Debug, PartialEq, Eq, Structural)]
pub struct BleCapacity {
    pub max_connections: usize,
    pub max_channels: usize,
}

/// The BLE host's two pools, built together once.
pub struct BleHostResources {
    pub connections: StackResourcePool,
    pub channels: StackResourcePool,
}

/// The error that building the BLE pools for `requested` gives, if any:
/// connections are checked before channels.
pub open spec fn ble_resource_error(requested: BleCapacity) -> Option<ResourceError> {
    if requested.max_connections > BLE_CONNECTIONS_MAX {
        Some(
            ResourceError::OverCapacity {
                requested: requested.max_connections,
                capacity: BLE_CONNECTIONS_MAX,
            },
        )
    } else if requested.max_channels > L2CAP_CHANNELS_MAX {
        Some(
            ResourceError::OverCapacity {
                requested: requested.max_channels,
                capacity: L2CAP_CHANNELS_MAX,
            },
        )
    } else {
        None
    }
}

impl BleHostResources {
    /// Builds the connection pool and the channel pool for `requested`,
    /// against `BLE_CONNECTIONS_MAX` and `L2CAP_CHANNELS_MAX`.
    pub fn new(requested: BleCapacity) -> (r: Result<BleHostResources, ResourceError>)
        ensures
            r is Err <==> ble_resource_error(requested) is Some,
            r matches Err(e) ==> ble_resource_error(requested) == Some(e),
            r matches Ok(res) ==> {
                &&& res.connections.spec_capacity() == BLE_CONNECTIONS_MAX
                &&& res.connections.spec_reserved() == requested.max_connections
                &&& res.channels.spec_capacity() == L2CAP_CHANNELS_MAX
                &&& res.channels.spec_reserved() == requested.max_channels
            },
    {
        let connections = match StackResourcePool::with_capacity(
            BLE_CONNECTIONS_MAX,
            requested.max_connections,
        ) {
            Ok(p) => p,
            Err(e) => return Err(e),
        };
        let channels = match StackResourcePool::with_capacity(
            L2CAP_CHANNELS_MAX,
            requested.max_channels,
        ) {
            Ok(p) => p,
            Err(e) => return Err(e),
        };
        Ok(BleHostResources { connections, channels })
    }
}

} // verus!
