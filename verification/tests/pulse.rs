use pca9685::bus::MockBus;
use pca9685::channels::Pca9685;
use pca9685::registers::{get_register_off, get_register_on};
use pca9685::Channel;

fn driver() -> Pca9685<MockBus> {
    Pca9685::new(MockBus::new())
}

#[test]
fn pulse_length_simple_difference() {
    assert_eq!(Pca9685::<MockBus>::get_pulse_length(100, 2000), 1900);
    assert_eq!(Pca9685::<MockBus>::get_pulse_length(0, 4095), 4095);
    assert_eq!(Pca9685::<MockBus>::get_pulse_length(5, 5), 0);
}

#[test]
fn pulse_length_wraps_around_the_period() {
    assert_eq!(Pca9685::<MockBus>::get_pulse_length(4000, 100), 195);
    assert_eq!(Pca9685::<MockBus>::get_pulse_length(4095, 0), 0);
    assert_eq!(Pca9685::<MockBus>::get_pulse_length(1, 0), 4094);
}

#[test]
fn effective_pulse_full_off_wins() {
    let mut d = driver();
    assert_eq!(d.set_channel_on_off(Channel::C6, 100, 2000), Ok(()));
    assert_eq!(d.set_channel_full_on(Channel::C6, true), Ok(()));
    assert_eq!(d.set_channel_full_off(Channel::C6, true), Ok(()));
    assert_eq!(d.get_effective_pulse(Channel::C6), Ok(0));
}

#[test]
fn effective_pulse_full_on_beats_counters() {
    let mut d = driver();
    assert_eq!(d.set_channel_on_off(Channel::C7, 100, 2000), Ok(()));
    assert_eq!(d.set_channel_full_on(Channel::C7, true), Ok(()));
    assert_eq!(d.get_effective_pulse(Channel::C7), Ok(4095));
    // Clearing full ON hands the result back to the counters.
    assert_eq!(d.set_channel_full_on(Channel::C7, false), Ok(()));
    assert_eq!(d.get_effective_pulse(Channel::C7), Ok(1900));
}

#[test]
fn effective_pulse_counters_decide_when_flags_clear() {
    let mut d = driver();
    assert_eq!(d.set_channel_on_off(Channel::C8, 100, 2000), Ok(()));
    assert_eq!(d.get_effective_pulse(Channel::C8), Ok(1900));
    assert_eq!(d.set_channel_on_off(Channel::C8, 4000, 100), Ok(()));
    assert_eq!(d.get_effective_pulse(Channel::C8), Ok(195));
}

#[test]
fn register_map_matches_the_datasheet() {
    assert_eq!(get_register_on(Channel::C0), 6);
    assert_eq!(get_register_off(Channel::C0), 8);
    assert_eq!(get_register_on(Channel::C1), 10);
    assert_eq!(get_register_off(Channel::C1), 12);
    assert_eq!(get_register_on(Channel::C15), 66);
    assert_eq!(get_register_off(Channel::C15), 68);
    assert_eq!(get_register_on(Channel::All), 250);
    assert_eq!(get_register_off(Channel::All), 252);
}
