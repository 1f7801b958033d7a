use pca9685::bus::MockBus;
use pca9685::channels::Pca9685;
use pca9685::{Channel, Error};

fn driver() -> Pca9685<MockBus> {
    Pca9685::new(MockBus::new())
}

/// 32 synthetic double-register values, counters and flag bits mixed.
fn synthetic_values() -> Vec<u16> {
    let mut vals = Vec::new();
    for i in 0..32u16 {
        let counter = (i * 117) & 0x0fff;
        let flag = if i % 3 == 0 { 0x1000 } else { 0 };
        vals.push(counter | flag);
    }
    vals
}

#[test]
fn bulk_write_rejects_short_payload() {
    let mut d = driver();
    let vals = vec![0u16; 31];
    assert_eq!(d.set_all_channels_on_off_with_flags(&vals), Err(Error::InvalidInputData));
    assert_eq!(d.bus.write_count(), 0);
}

#[test]
fn bulk_write_rejects_long_payload() {
    let mut d = driver();
    let vals = vec![0u16; 33];
    assert_eq!(d.set_all_channels_on_off_with_flags(&vals), Err(Error::InvalidInputData));
    let empty: Vec<u16> = Vec::new();
    assert_eq!(d.set_all_channels_on_off_with_flags(&empty), Err(Error::InvalidInputData));
    assert_eq!(d.bus.write_count(), 0);
}

#[test]
fn bulk_roundtrip_is_byte_identical() {
    let mut d = driver();
    let vals = synthetic_values();
    assert_eq!(d.set_all_channels_on_off_with_flags(&vals), Ok(()));
    assert_eq!(d.bus.write_count(), 1);
    let read_back = d.get_all_channels_on_off_with_flags().unwrap();
    assert_eq!(read_back, vals);
    // Reading is passive: still exactly one write transaction.
    assert_eq!(d.bus.write_count(), 1);
}

#[test]
fn bulk_write_is_one_little_endian_transaction() {
    let mut d = driver();
    let mut vals = vec![0u16; 32];
    vals[0] = 0x1234;
    vals[1] = 0x0a0b;
    assert_eq!(d.set_all_channels_on_off_with_flags(&vals), Ok(()));
    let op = &d.bus.log[0];
    assert_eq!(op.reg, 6);
    assert_eq!(op.data.len(), 64);
    assert_eq!(&op.data[0..4], &[0x34, 0x12, 0x0b, 0x0a]);
}

#[test]
fn bulk_read_sees_single_channel_writes() {
    let mut d = driver();
    assert_eq!(d.set_channel_on(Channel::C0, 5), Ok(()));
    assert_eq!(d.set_channel_off(Channel::C0, 9), Ok(()));
    assert_eq!(d.set_channel_off(Channel::C15, 4095), Ok(()));
    let all = d.get_all_channels_on_off_with_flags().unwrap();
    assert_eq!(all.len(), 32);
    assert_eq!(all[0], 5);
    assert_eq!(all[1], 9);
    assert_eq!(all[31], 4095);
}

#[test]
fn single_channel_getters_mask_bulk_written_flags() {
    let mut d = driver();
    let mut vals = vec![0u16; 32];
    vals[2] = 0x1abc;  // channel 1 ON, flag bit set
    assert_eq!(d.set_all_channels_on_off_with_flags(&vals), Ok(()));
    assert_eq!(d.get_channel_on(Channel::C1), Ok(0x0abc));
    let (on_t, _) = d.get_channel_on_off_with_flags(Channel::C1).unwrap();
    assert_eq!(on_t, 0x1abc);
}
