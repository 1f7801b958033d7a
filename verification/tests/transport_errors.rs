use pca9685::bus::{MockBus, MockFault};
use pca9685::channels::Pca9685;
use pca9685::{Channel, Error};

#[test]
fn transport_failure_propagates_unchanged() {
    let mut d = Pca9685::new(MockBus::new());
    d.bus.fail = true;
    assert_eq!(d.get_channel_on(Channel::C0), Err(Error::Bus(MockFault)));
    assert_eq!(d.set_channel_on(Channel::C0, 10), Err(Error::Bus(MockFault)));
    assert_eq!(d.set_channel_full_off(Channel::C0, true), Err(Error::Bus(MockFault)));
    assert_eq!(d.set_channel_on_off(Channel::C0, 1, 2), Err(Error::Bus(MockFault)));
    assert_eq!(d.get_effective_pulse(Channel::C0), Err(Error::Bus(MockFault)));
    assert_eq!(d.get_all_channels_on_off_with_flags(), Err(Error::Bus(MockFault)));
    let vals = vec![0u16; 32];
    assert_eq!(d.set_all_channels_on_off_with_flags(&vals), Err(Error::Bus(MockFault)));
}

#[test]
fn validation_still_comes_before_the_bus() {
    let mut d = Pca9685::new(MockBus::new());
    d.bus.fail = true;
    // Invalid input is rejected before the failing transport is touched.
    assert_eq!(d.set_channel_on(Channel::C2, 9999), Err(Error::InvalidInputData));
    let short = vec![0u16; 3];
    assert_eq!(d.set_all_channels_on_off_with_flags(&short), Err(Error::InvalidInputData));
}

#[test]
fn failed_calls_leave_the_chip_untouched() {
    let mut d = Pca9685::new(MockBus::new());
    assert_eq!(d.set_channel_on(Channel::C3, 500), Ok(()));
    d.bus.fail = true;
    assert!(d.set_channel_on(Channel::C3, 1000).is_err());
    d.bus.fail = false;
    assert_eq!(d.get_channel_on(Channel::C3), Ok(500));
    assert_eq!(d.bus.write_count(), 1);
}
