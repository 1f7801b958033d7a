use pca9685::bus::MockBus;
use pca9685::channels::Pca9685;
use pca9685::{Channel, Error};

fn driver() -> Pca9685<MockBus> {
    Pca9685::new(MockBus::new())
}

#[test]
fn fresh_chip_reads_zero() {
    let mut d = driver();
    assert_eq!(d.get_channel_on(Channel::C0), Ok(0));
    assert_eq!(d.get_channel_off(Channel::C15), Ok(0));
    assert_eq!(d.bus.write_count(), 0);
}

#[test]
fn set_then_get_roundtrips_on_counter() {
    let mut d = driver();
    for v in [0u16, 1, 7, 2048, 4095] {
        assert_eq!(d.set_channel_on(Channel::C3, v), Ok(()));
        assert_eq!(d.get_channel_on(Channel::C3), Ok(v));
    }
}

#[test]
fn set_then_get_roundtrips_off_counter() {
    let mut d = driver();
    for v in [0u16, 42, 4095] {
        assert_eq!(d.set_channel_off(Channel::C9, v), Ok(()));
        assert_eq!(d.get_channel_off(Channel::C9), Ok(v));
    }
}

#[test]
fn set_counter_leaves_full_flag_alone() {
    let mut d = driver();
    assert_eq!(d.set_channel_full_on(Channel::C1, true), Ok(()));
    assert_eq!(d.set_channel_on(Channel::C1, 1000), Ok(()));
    assert_eq!(d.get_channel_on(Channel::C1), Ok(1000));
    let (on_t, _off_t) = d.get_channel_on_off_with_flags(Channel::C1).unwrap();
    assert!(Pca9685::<MockBus>::is_full_flag_set(on_t));
    assert_eq!(on_t & 0x0fff, 1000);

    // The same round trip with the flag clear leaves it clear.
    assert_eq!(d.set_channel_full_on(Channel::C1, false), Ok(()));
    assert_eq!(d.set_channel_on(Channel::C1, 2000), Ok(()));
    let (on_t, _off_t) = d.get_channel_on_off_with_flags(Channel::C1).unwrap();
    assert!(!Pca9685::<MockBus>::is_full_flag_set(on_t));
    assert_eq!(on_t & 0x0fff, 2000);
}

#[test]
fn out_of_range_counter_rejected_without_bus_write() {
    let mut d = driver();
    assert_eq!(d.set_channel_on(Channel::C0, 4096), Err(Error::InvalidInputData));
    assert_eq!(d.set_channel_on(Channel::C0, u16::MAX), Err(Error::InvalidInputData));
    assert_eq!(d.set_channel_off(Channel::C0, 4096), Err(Error::InvalidInputData));
    assert_eq!(d.bus.write_count(), 0);
    assert_eq!(d.get_channel_on(Channel::C0), Ok(0));
}

#[test]
fn setting_flag_to_its_value_issues_no_write() {
    let mut d = driver();
    // Fresh chip: both flags are clear, so clearing again is a no-op.
    assert_eq!(d.set_channel_full_on(Channel::C2, false), Ok(()));
    assert_eq!(d.bus.write_count(), 0);
    assert_eq!(d.set_channel_full_on(Channel::C2, true), Ok(()));
    assert_eq!(d.bus.write_count(), 1);
    assert_eq!(d.set_channel_full_on(Channel::C2, true), Ok(()));
    assert_eq!(d.bus.write_count(), 1);
    assert_eq!(d.set_channel_full_on(Channel::C2, false), Ok(()));
    assert_eq!(d.bus.write_count(), 2);
    assert_eq!(d.set_channel_full_off(Channel::C2, true), Ok(()));
    assert_eq!(d.set_channel_full_off(Channel::C2, true), Ok(()));
    assert_eq!(d.bus.write_count(), 3);
}

#[test]
fn flag_change_writes_only_the_high_byte() {
    let mut d = driver();
    assert_eq!(d.set_channel_on(Channel::C4, 0x234), Ok(()));
    let before = d.bus.write_count();
    assert_eq!(d.set_channel_full_on(Channel::C4, true), Ok(()));
    assert_eq!(d.bus.write_count(), before + 1);
    // Channel 4's ON pair sits at 22; the flag lives in the high byte at 23.
    let op = d.bus.log.last().unwrap();
    assert_eq!(op.reg, 23);
    assert_eq!(op.data, vec![0x12]);
    // The counter bits survive the flag write.
    assert_eq!(d.get_channel_on(Channel::C4), Ok(0x234));
}

#[test]
fn set_on_off_packs_little_endian() {
    let mut d = driver();
    assert_eq!(d.set_channel_on_off(Channel::C0, 0x123, 0x456), Ok(()));
    assert_eq!(d.bus.write_count(), 1);
    let op = &d.bus.log[0];
    assert_eq!(op.reg, 6);
    assert_eq!(op.data, vec![0x23, 0x01, 0x56, 0x04]);
    assert_eq!(&d.bus.bank[6..10], &[0x23, 0x01, 0x56, 0x04]);
    assert_eq!(d.get_channel_on_off_with_flags(Channel::C0), Ok((0x123, 0x456)));
}

#[test]
fn set_on_off_rejects_out_of_range_values() {
    let mut d = driver();
    assert_eq!(d.set_channel_on_off(Channel::C5, 4096, 0), Err(Error::InvalidInputData));
    assert_eq!(d.set_channel_on_off(Channel::C5, 0, 4096), Err(Error::InvalidInputData));
    assert_eq!(d.bus.write_count(), 0);
}

#[test]
fn set_on_off_overwrites_previous_flags() {
    let mut d = driver();
    assert_eq!(d.set_channel_full_on(Channel::C5, true), Ok(()));
    assert_eq!(d.set_channel_full_off(Channel::C5, true), Ok(()));
    assert_eq!(d.set_channel_on_off(Channel::C5, 100, 200), Ok(()));
    let (on_t, off_t) = d.get_channel_on_off_with_flags(Channel::C5).unwrap();
    assert!(!Pca9685::<MockBus>::is_full_flag_set(on_t));
    assert!(!Pca9685::<MockBus>::is_full_flag_set(off_t));
    assert_eq!((on_t, off_t), (100, 200));
}

#[test]
fn full_flag_is_bit_twelve() {
    assert!(Pca9685::<MockBus>::is_full_flag_set(0x1000));
    assert!(Pca9685::<MockBus>::is_full_flag_set(0x1fff));
    assert!(!Pca9685::<MockBus>::is_full_flag_set(0x0fff));
    assert!(!Pca9685::<MockBus>::is_full_flag_set(0));
    assert!(!Pca9685::<MockBus>::is_full_flag_set(0xe000));
}

#[test]
fn broadcast_channel_uses_its_own_slot() {
    let mut d = driver();
    assert_eq!(d.set_channel_on(Channel::All, 77), Ok(()));
    assert_eq!(d.get_channel_on(Channel::All), Ok(77));
    // The broadcast pair sits at 250, far from every per-channel slot.
    assert_eq!(d.bus.log[0].reg, 250);
    assert_eq!(d.get_channel_on(Channel::C15), Ok(0));
}
