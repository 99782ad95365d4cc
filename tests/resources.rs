use connectivity_supervisor::resources::{
    BleCapacity, BleHostResources, ResourceError, StackResourcePool, BLE_CONNECTIONS_MAX,
    L2CAP_CHANNELS_MAX, NETWORK_SOCKET_SLOTS,
};

#[test]
fn pool_within_capacity_keeps_every_slot() {
    let pool = StackResourcePool::with_capacity(4, 4).unwrap();
    assert_eq!(pool.capacity(), 4);
    assert_eq!(pool.reserved(), 4);
    let empty = StackResourcePool::with_capacity(4, 0).unwrap();
    assert_eq!(empty.reserved(), 0);
}

#[test]
fn pool_over_capacity_is_refused() {
    assert_eq!(
        StackResourcePool::with_capacity(3, 4).err(),
        Some(ResourceError::OverCapacity { requested: 4, capacity: 3 })
    );
    assert_eq!(
        StackResourcePool::with_capacity(0, usize::MAX).err(),
        Some(ResourceError::OverCapacity { requested: usize::MAX, capacity: 0 })
    );
}

#[test]
fn network_pool_has_three_sockets() {
    assert_eq!(NETWORK_SOCKET_SLOTS, 3);
    let pool = StackResourcePool::network_sockets(3).unwrap();
    assert_eq!(pool.capacity(), 3);
    assert_eq!(pool.reserved(), 3);
    assert_eq!(
        StackResourcePool::network_sockets(4).err(),
        Some(ResourceError::OverCapacity { requested: 4, capacity: 3 })
    );
}

#[test]
fn ble_pools_at_reference_capacity() {
    assert_eq!(BLE_CONNECTIONS_MAX, 1);
    assert_eq!(L2CAP_CHANNELS_MAX, 1);
    let res = BleHostResources::new(BleCapacity { max_connections: 1, max_channels: 1 }).unwrap();
    assert_eq!(res.connections.reserved(), 1);
    assert_eq!(res.connections.capacity(), 1);
    assert_eq!(res.channels.reserved(), 1);
    assert_eq!(res.channels.capacity(), 1);
}

#[test]
fn ble_pools_refuse_extra_connections_first() {
    assert_eq!(
        BleHostResources::new(BleCapacity { max_connections: 2, max_channels: 5 }).err(),
        Some(ResourceError::OverCapacity { requested: 2, capacity: 1 })
    );
    assert_eq!(
        BleHostResources::new(BleCapacity { max_connections: 1, max_channels: 2 }).err(),
        Some(ResourceError::OverCapacity { requested: 2, capacity: 1 })
    );
}
