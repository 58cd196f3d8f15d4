use pi485_bridge::arbiter::{BusError, Phase, Polarity, SharedBus, SpiConfig};

fn display() -> SpiConfig {
    SpiConfig { frequency: 64_000_000, polarity: Polarity::IdleHigh, phase: Phase::CaptureOnSecondTransition }
}

fn ethernet() -> SpiConfig {
    SpiConfig { frequency: 50_000_000, polarity: Polarity::IdleLow, phase: Phase::CaptureOnFirstTransition }
}

#[test]
fn busy_bus_refuses_until_released() {
    let mut bus = SharedBus::new();
    let a = bus.add_device(display());
    let b = bus.add_device(ethernet());
    assert_eq!(bus.begin_transaction(a), Ok(display()));
    assert!(bus.is_busy());
    assert_eq!(bus.begin_transaction(b), Err(BusError::Busy));
    assert!(matches!(bus.transfer(b, &vec![1, 2]), Err(BusError::NotHolder)));
    assert_eq!(bus.end_transaction(b), Err(BusError::NotHolder));
    assert_eq!(bus.end_transaction(a), Ok(()));
    assert!(!bus.is_busy());
    assert_eq!(bus.begin_transaction(b), Ok(ethernet()));
}

#[test]
fn next_device_gets_its_own_configuration() {
    let mut bus = SharedBus::new();
    let a = bus.add_device(display());
    let b = bus.add_device(ethernet());
    assert_eq!(bus.begin_transaction(a), Ok(display()));
    let f = bus.transfer(a, &vec![0xAA]).ok().unwrap();
    assert_eq!(f.config, display());
    assert_eq!(f.bytes, vec![0xAA]);
    assert_eq!(bus.end_transaction(a), Ok(()));
    assert_eq!(bus.applied(), Some(display()));
    assert_eq!(bus.begin_transaction(b), Ok(ethernet()));
    assert_eq!(bus.applied(), Some(ethernet()));
    let f = bus.transfer(b, &vec![0x01, 0x02, 0x03]).ok().unwrap();
    assert_eq!(f.config, ethernet());
    assert_eq!(f.bytes, vec![0x01, 0x02, 0x03]);
}

#[test]
fn unknown_device_and_idle_bus_are_refused() {
    let mut bus = SharedBus::new();
    assert_eq!(bus.begin_transaction(0), Err(BusError::UnknownDevice));
    let a = bus.add_device(display());
    assert!(matches!(bus.transfer(a, &vec![]), Err(BusError::NotHolder)));
    assert_eq!(bus.end_transaction(a), Err(BusError::NotHolder));
    assert_eq!(bus.applied(), None);
}
