//! The channel operations: flag-preserving counter access, idempotent flag
//! writes, the four-byte ON/OFF overwrite, the all-channel bulk transfers,
//! and the effective pulse-length read.
//!
//! Every operation states, over the ghost register bank of its bus, exactly
//! which bytes it changes, how many write transactions it issues, and on
//! which inputs it fails with which error.  An out-of-range input is
//! rejected before any bus access, so the chip is never partially updated on
//! invalid input.

use vstd::prelude::*;
use crate::{Channel, Error};
use crate::bus::Bus;
use crate::codec::{
    bulk_regs, counter_bits, full_flag, high_byte, lemma_flag_is_high_bit, lemma_word_bytes,
    low_byte, reg16_at, set_counter_regs, set_flag_regs, set_on_off_regs, spec_effective_pulse,
    spec_pulse_length,
};
use crate::registers::{
    get_register_off, get_register_on, lemma_register_layout, spec_register_off, spec_register_on,
};

verus! {

/// The base address the all-channel bulk transfers start at: channel 0's
/// ON low byte.
pub const BULK_BASE: u8 = 6;

/// The register-level driver for the chip, generic over its bus transport.
#[derive(Debug)]
pub struct Pca9685<B> {
    /// The bus the chip is reached over.
    pub bus: B,
}

impl<B: Bus> Pca9685<B> {
    /// The driver holds no state of its own: it is well formed exactly when
    /// its bus presents the chip's 256-register bank.
    pub open spec fn wf(&self) -> bool {
        self.bus.regs().len() == 256
    }

    /// The chip's register bank as the bus presents it.
    pub open spec fn regs(&self) -> Seq<u8> {
        self.bus.regs()
    }

    /// How many write transactions the bus has carried.
    pub open spec fn writes(&self) -> nat {
        self.bus.writes()
    }

    /// Whether auto-increment addressing is enabled on the bus.
    pub open spec fn auto_inc(&self) -> bool {
        self.bus.auto_inc()
    }

    /// A driver over `bus`.
    pub fn new(bus: B) -> (r: Pca9685<B>)
        ensures
            r.bus == bus,
    {
        Pca9685 { bus }
    }

    /// Read the double-register at base `register` with the full ON/OFF
    /// flag (and the reserved bits) masked out.  One bus read, no write.
    fn get_double_register_without_flag(&mut self, register: u8) -> (r: Result<
        u16,
        Error<B::BusError>,
    >)
        requires
            old(self).wf(),
            register + 1 < 256,
        ensures
            final(self).wf(),
            final(self).regs() == old(self).regs(),
            final(self).writes() == old(self).writes(),
            final(self).auto_inc() == old(self).auto_inc(),
            r is Ok ==> r->Ok_0 == counter_bits(reg16_at(old(self).regs(), register as int)),
            r is Err ==> r->Err_0 is Bus,
    {
        match self.bus.read_double_register(register) {
            Ok(value) => Ok(value & 0x0fff),
            Err(e) => Err(Error::Bus(e)),
        }
    }

    /// Write the counter of the double-register at base `register` without
    /// touching its full ON/OFF flag: the current high byte is read back,
    /// its flag bit is merged into the new value, and the pair is written as
    /// one transaction.
    fn set_double_register_without_flag(&mut self, register: u8, value: u16) -> (r: Result<
        (),
        Error<B::BusError>,
    >)
        requires
            old(self).wf(),
            register + 1 < 256,
        ensures
            final(self).wf(),
            final(self).auto_inc() == old(self).auto_inc(),
            old(self).writes() <= final(self).writes() <= old(self).writes() + 1,
            (r is Err && r->Err_0 is InvalidInputData) <==> value > 4095,
            value > 4095 ==> final(self).bus == old(self).bus,
            r is Ok ==> final(self).regs() == set_counter_regs(
                old(self).regs(),
                register as int,
                value,
            ) && final(self).writes() == old(self).writes() + 1,
    {
        if value > 4095 {
            return Err(Error::InvalidInputData);
        }
        let reg_h = match self.bus.read_register(register + 1) {
            Ok(v) => v,
            Err(e) => { return Err(Error::Bus(e)) },
        };
        let merged = (((reg_h & 0x10) as u16) << 8u16) | value;
        proof {
            assert(low_byte((((reg_h & 0x10) as u16) << 8u16) | value) == low_byte(value)
                && high_byte((((reg_h & 0x10) as u16) << 8u16) | value) == ((reg_h & 0x10) | (
            (value >> 8u16) as u8))) by (bit_vector)
                requires
                    value <= 4095,
            ;
        }
        match self.bus.write_double_register(register, merged) {
            Ok(()) => Ok(()),
            Err(e) => Err(Error::Bus(e)),
        }
    }

    /// Get the `ON` counter for the selected channel.
    ///
    /// This method masks the `full ON` flag.
    pub fn get_channel_on(&mut self, channel: Channel) -> (r: Result<u16, Error<B::BusError>>)
        requires
            old(self).wf(),
        ensures
            final(self).wf(),
            final(self).regs() == old(self).regs(),
            final(self).writes() == old(self).writes(),
            final(self).auto_inc() == old(self).auto_inc(),
            r is Ok ==> r->Ok_0 == counter_bits(
                reg16_at(old(self).regs(), spec_register_on(channel) as int),
            ),
            r is Err ==> r->Err_0 is Bus,
    {
        proof {
            lemma_register_layout(channel);
        }
        let reg = get_register_on(channel);
        self.get_double_register_without_flag(reg)
    }

    /// Set the `ON` counter for the selected channel; fails with
    /// invalid-input, before any bus access, when `value` exceeds 4095.
    ///
    /// This method does not touch the `full ON` flag.  Note that the full
    /// off setting takes precedence over the `on` settings.
    pub fn set_channel_on(&mut self, channel: Channel, value: u16) -> (r: Result<
        (),
        Error<B::BusError>,
    >)
        requires
            old(self).wf(),
        ensures
            final(self).wf(),
            final(self).auto_inc() == old(self).auto_inc(),
            old(self).writes() <= final(self).writes() <= old(self).writes() + 1,
            (r is Err && r->Err_0 is InvalidInputData) <==> value > 4095,
            value > 4095 ==> final(self).bus == old(self).bus,
            r is Ok ==> final(self).regs() == set_counter_regs(
                old(self).regs(),
                spec_register_on(channel) as int,
                value,
            ) && final(self).writes() == old(self).writes() + 1,
    {
        proof {
            lemma_register_layout(channel);
        }
        let reg = get_register_on(channel);
        self.set_double_register_without_flag(reg, value)
    }

    /// Get the `OFF` counter for the selected channel.
    ///
    /// This method masks the `full OFF` flag.
    pub fn get_channel_off(&mut self, channel: Channel) -> (r: Result<u16, Error<B::BusError>>)
        requires
            old(self).wf(),
        ensures
            final(self).wf(),
            final(self).regs() == old(self).regs(),
            final(self).writes() == old(self).writes(),
            final(self).auto_inc() == old(self).auto_inc(),
            r is Ok ==> r->Ok_0 == counter_bits(
                reg16_at(old(self).regs(), spec_register_off(channel) as int),
            ),
            r is Err ==> r->Err_0 is Bus,
    {
        proof {
            lemma_register_layout(channel);
        }
        let reg = get_register_off(channel);
        self.get_double_register_without_flag(reg)
    }

    /// Set the `OFF` counter for the selected channel; fails with
    /// invalid-input, before any bus access, when `value` exceeds 4095.
    ///
    /// This method does not touch the `full OFF` flag.
    pub fn set_channel_off(&mut self, channel: Channel, value: u16) -> (r: Result<
        (),
        Error<B::BusError>,
    >)
        requires
            old(self).wf(),
        ensures
            final(self).wf(),
            final(self).auto_inc() == old(self).auto_inc(),
            old(self).writes() <= final(self).writes() <= old(self).writes() + 1,
            (r is Err && r->Err_0 is InvalidInputData) <==> value > 4095,
            value > 4095 ==> final(self).bus == old(self).bus,
            r is Ok ==> final(self).regs() == set_counter_regs(
                old(self).regs(),
                spec_register_off(channel) as int,
                value,
            ) && final(self).writes() == old(self).writes() + 1,
    {
        proof {
            lemma_register_layout(channel);
        }
        let reg = get_register_off(channel);
        self.set_double_register_without_flag(reg, value)
    }

    /// Set or clear the full ON/OFF flag of the double-register at base
    /// `register`.  When the stored flag already has the requested value no
    /// bus write is issued; otherwise exactly one write of the high byte
    /// alone, with the counter bits of that byte preserved.
    fn set_register_full_flag(&mut self, register: u8, flag_value: bool) -> (r: Result<
        (),
        Error<B::BusError>,
    >)
        requires
            old(self).wf(),
            register + 1 < 256,
        ensures
            final(self).wf(),
            final(self).auto_inc() == old(self).auto_inc(),
            old(self).writes() <= final(self).writes() <= old(self).writes() + 1,
            r is Err ==> r->Err_0 is Bus,
            r is Ok && full_flag(reg16_at(old(self).regs(), register as int)) == flag_value
                ==> final(self).regs() == old(self).regs() && final(self).writes()
                == old(self).writes(),
            r is Ok && full_flag(reg16_at(old(self).regs(), register as int)) != flag_value
                ==> final(self).regs() == set_flag_regs(
                old(self).regs(),
                register as int,
                flag_value,
            ) && final(self).writes() == old(self).writes() + 1,
    {
        let high_addr = register + 1;  // the flag lives in the high byte
        let reg_h = match self.bus.read_register(high_addr) {
            Ok(v) => v,
            Err(e) => { return Err(Error::Bus(e)) },
        };
        proof {
            lemma_flag_is_high_bit(self.bus.regs()[register as int], reg_h);
        }
        if flag_value && (reg_h & 0x10 == 0) {
            match self.bus.write_register(high_addr, reg_h | 0x10) {
                Ok(()) => Ok(()),
                Err(e) => Err(Error::Bus(e)),
            }
        } else if !flag_value && (reg_h & 0x10 != 0) {
            match self.bus.write_register(high_addr, reg_h & 0x0f) {
                Ok(()) => Ok(()),
                Err(e) => Err(Error::Bus(e)),
            }
        } else {
            Ok(())
        }
    }

    /// Set the channel always on by setting its `full ON` flag, or clear
    /// that flag again.  Writing the value the flag already has issues no
    /// bus write.
    ///
    /// Note that the full off setting takes precedence over the `on`
    /// settings.
    pub fn set_channel_full_on(&mut self, channel: Channel, flag_value: bool) -> (r: Result<
        (),
        Error<B::BusError>,
    >)
        requires
            old(self).wf(),
        ensures
            final(self).wf(),
            final(self).auto_inc() == old(self).auto_inc(),
            old(self).writes() <= final(self).writes() <= old(self).writes() + 1,
            r is Err ==> r->Err_0 is Bus,
            r is Ok && full_flag(reg16_at(old(self).regs(), spec_register_on(channel) as int))
                == flag_value ==> final(self).regs() == old(self).regs() && final(self).writes()
                == old(self).writes(),
            r is Ok && full_flag(reg16_at(old(self).regs(), spec_register_on(channel) as int))
                != flag_value ==> final(self).regs() == set_flag_regs(
                old(self).regs(),
                spec_register_on(channel) as int,
                flag_value,
            ) && final(self).writes() == old(self).writes() + 1,
    {
        proof {
            lemma_register_layout(channel);
        }
        let reg = get_register_on(channel);
        self.set_register_full_flag(reg, flag_value)
    }

    /// Set the channel always off by setting its `full OFF` flag, or clear
    /// that flag again.  Writing the value the flag already has issues no
    /// bus write.
    ///
    /// This takes precedence over the `on` settings.
    pub fn set_channel_full_off(&mut self, channel: Channel, flag_value: bool) -> (r: Result<
        (),
        Error<B::BusError>,
    >)
        requires
            old(self).wf(),
        ensures
            final(self).wf(),
            final(self).auto_inc() == old(self).auto_inc(),
            old(self).writes() <= final(self).writes() <= old(self).writes() + 1,
            r is Err ==> r->Err_0 is Bus,
            r is Ok && full_flag(reg16_at(old(self).regs(), spec_register_off(channel) as int))
                == flag_value ==> final(self).regs() == old(self).regs() && final(self).writes()
                == old(self).writes(),
            r is Ok && full_flag(reg16_at(old(self).regs(), spec_register_off(channel) as int))
                != flag_value ==> final(self).regs() == set_flag_regs(
                old(self).regs(),
                spec_register_off(channel) as int,
                flag_value,
            ) && final(self).writes() == old(self).writes() + 1,
    {
        proof {
            lemma_register_layout(channel);
        }
        let reg = get_register_off(channel);
        self.set_register_full_flag(reg, flag_value)
    }

    /// Set the channel's `ON` and `OFF` counters in one four-byte
    /// transaction; fails with invalid-input, before any bus access, when
    /// either value exceeds 4095.
    ///
    /// This method overrides the `full ON/OFF` flags: both end up clear.
    /// Callers who need to preserve flags must use the single-counter
    /// setters instead.
    pub fn set_channel_on_off(&mut self, channel: Channel, on_value: u16, off_value: u16) -> (r:
        Result<(), Error<B::BusError>>)
        requires
            old(self).wf(),
        ensures
            final(self).wf(),
            final(self).auto_inc() == old(self).auto_inc(),
            old(self).writes() <= final(self).writes() <= old(self).writes() + 1,
            (r is Err && r->Err_0 is InvalidInputData) <==> (on_value > 4095 || off_value > 4095),
            on_value > 4095 || off_value > 4095 ==> final(self).bus == old(self).bus,
            r is Ok ==> final(self).regs() == set_on_off_regs(
                old(self).regs(),
                spec_register_on(channel) as int,
                on_value,
                off_value,
            ) && final(self).writes() == old(self).writes() + 1,
            r is Err ==> r->Err_0 is Bus || (on_value > 4095 || off_value > 4095),
    {
        if on_value > 4095 || off_value > 4095 {
            return Err(Error::InvalidInputData);
        }
        proof {
            lemma_register_layout(channel);
        }
        let reg = get_register_on(channel);
        match self.bus.write_two_double_registers(reg, on_value, off_value) {
            Ok(()) => Ok(()),
            Err(e) => Err(Error::Bus(e)),
        }
    }

    /// Check whether a raw double-register value has its `full ON/OFF` flag
    /// set.
    pub fn is_full_flag_set(value: u16) -> (r: bool)
        ensures
            r == full_flag(value),
    {
        value & 0x1000 != 0
    }

    /// Get the raw values of the channel's `ON` and `OFF` double-registers,
    /// flag bits included.
    pub fn get_channel_on_off_with_flags(&mut self, channel: Channel) -> (r: Result<
        (u16, u16),
        Error<B::BusError>,
    >)
        requires
            old(self).wf(),
        ensures
            final(self).wf(),
            final(self).regs() == old(self).regs(),
            final(self).writes() == old(self).writes(),
            final(self).auto_inc() == old(self).auto_inc(),
            r is Ok ==> r->Ok_0.0 == reg16_at(old(self).regs(), spec_register_on(channel) as int),
            r is Ok ==> r->Ok_0.1 == reg16_at(old(self).regs(), spec_register_off(channel) as int),
            r is Err ==> r->Err_0 is Bus,
    {
        proof {
            lemma_register_layout(channel);
        }
        let reg = get_register_on(channel);
        match self.bus.read_two_double_registers(reg) {
            Ok(pair) => Ok(pair),
            Err(e) => Err(Error::Bus(e)),
        }
    }

    /// Get the raw values of the `ON` and `OFF` double-registers of all 16
    /// channels in one bulk read, flag bits included: 32 values in
    /// on/off-interleaved order (channel 0 ON, channel 0 OFF, channel 1 ON,
    /// and so on), each decoded little-endian from the wire bytes.
    pub fn get_all_channels_on_off_with_flags(&mut self) -> (r: Result<
        Vec<u16>,
        Error<B::BusError>,
    >)
        requires
            old(self).wf(),
        ensures
            final(self).wf(),
            final(self).regs() == old(self).regs(),
            final(self).writes() == old(self).writes(),
            r is Ok ==> final(self).auto_inc(),
            r is Ok ==> r->Ok_0@.len() == 32,
            r is Ok ==> forall|i: int|
                0 <= i < 32 ==> r->Ok_0@[i] == reg16_at(
                    old(self).regs(),
                    BULK_BASE + 2 * i,
                ),
            r is Err ==> r->Err_0 is Bus,
    {
        match self.bus.enable_auto_increment() {
            Ok(()) => (),
            Err(e) => { return Err(Error::Bus(e)) },
        };
        let data = match self.bus.read_block(BULK_BASE, 64) {
            Ok(d) => d,
            Err(e) => { return Err(Error::Bus(e)) },
        };
        let mut out: Vec<u16> = Vec::new();
        let mut i: usize = 0;
        while i < 32
            invariant
                i <= 32,
                data@.len() == 64,
                data@ == self.regs().subrange(BULK_BASE as int, BULK_BASE + 64),
                self.wf(),
                out@.len() == i,
                forall|j: int|
                    0 <= j < i ==> out@[j] == reg16_at(self.regs(), BULK_BASE + 2 * j),
            decreases 32 - i,
        {
            let l = data[2 * i];
            let h = data[2 * i + 1];
            out.push((l as u16) | ((h as u16) << 8u16));
            i = i + 1;
        }
        Ok(out)
    }

    /// Set the raw values of the `ON` and `OFF` double-registers of all 16
    /// channels in one bulk write; fails with invalid-input, before any bus
    /// access, unless exactly 32 values are supplied (channel 0 ON, channel
    /// 0 OFF, channel 1 ON, and so on).
    ///
    /// This write is a raw overwrite: it does not preserve previously set
    /// flag bits, so each supplied value must already carry the flag bits
    /// the caller wants stored.
    pub fn set_all_channels_on_off_with_flags(&mut self, channels_data: &Vec<u16>) -> (r: Result<
        (),
        Error<B::BusError>,
    >)
        requires
            old(self).wf(),
        ensures
            final(self).wf(),
            old(self).writes() <= final(self).writes() <= old(self).writes() + 1,
            (r is Err && r->Err_0 is InvalidInputData) <==> channels_data@.len() != 32,
            channels_data@.len() != 32 ==> final(self).bus == old(self).bus,
            r is Ok ==> final(self).regs() == bulk_regs(
                old(self).regs(),
                BULK_BASE as int,
                channels_data@,
            ) && final(self).writes() == old(self).writes() + 1 && final(self).auto_inc(),
            r is Err && channels_data@.len() == 32 ==> r->Err_0 is Bus,
    {
        if channels_data.len() != 32 {
            return Err(Error::InvalidInputData);
        }
        let mut data: Vec<u8> = Vec::new();
        let mut i: usize = 0;
        while i < 32
            invariant
                i <= 32,
                channels_data@.len() == 32,
                data@.len() == 2 * i,
                forall|j: int|
                    0 <= j < i ==> data@[2 * j] == low_byte(channels_data@[j]) && data@[2 * j
                        + 1] == high_byte(channels_data@[j]),
            decreases 32 - i,
        {
            let v = channels_data[i];
            proof {
                assert(low_byte(v) == (v & 0xff) as u8 && high_byte(v) == (v >> 8u16) as u8)
                    by (bit_vector);
            }
            data.push((v & 0xff) as u8);
            data.push((v >> 8u16) as u8);
            i = i + 1;
        }
        match self.bus.enable_auto_increment() {
            Ok(()) => (),
            Err(e) => { return Err(Error::Bus(e)) },
        };
        let ghost before = self.regs();
        match self.bus.write_block(BULK_BASE, &data) {
            Ok(()) => {
                proof {
                    assert(self.regs() =~= bulk_regs(before, BULK_BASE as int, channels_data@));
                }
                Ok(())
            },
            Err(e) => Err(Error::Bus(e)),
        }
    }

    /// Get the pulse length that a pair of bare 12-bit `ON` and `OFF`
    /// counters produces: the cyclic distance from the ON tick to the OFF
    /// tick in the 4096-tick period.
    ///
    /// The `full ON/OFF` flags of the channel must be clear for this value
    /// to be the channel's effective output.
    pub fn get_pulse_length(on_t: u16, off_t: u16) -> (r: u16)
        requires
            on_t <= 4095,
            off_t <= 4095,
        ensures
            r == spec_pulse_length(on_t, off_t),
            r <= 4095,
    {
        if off_t >= on_t {
            off_t - on_t
        } else {
            4095 - on_t + off_t
        }
    }

    /// Get the effective pulse length of the channel from its raw `ON` and
    /// `OFF` double-registers, honouring the chip's precedence: full OFF
    /// forces 0, otherwise full ON forces 4095, otherwise the 12-bit
    /// counters alone decide.
    pub fn get_effective_pulse(&mut self, channel: Channel) -> (r: Result<u16, Error<B::BusError>>)
        requires
            old(self).wf(),
        ensures
            final(self).wf(),
            final(self).regs() == old(self).regs(),
            final(self).writes() == old(self).writes(),
            final(self).auto_inc() == old(self).auto_inc(),
            r is Ok ==> r->Ok_0 == spec_effective_pulse(
                reg16_at(old(self).regs(), spec_register_on(channel) as int),
                reg16_at(old(self).regs(), spec_register_off(channel) as int),
            ),
            r is Err ==> r->Err_0 is Bus,
    {
        proof {
            lemma_register_layout(channel);
        }
        let reg = get_register_on(channel);
        let (on_t, off_t) = match self.bus.read_two_double_registers(reg) {
            Ok(pair) => pair,
            Err(e) => { return Err(Error::Bus(e)) },
        };
        if Self::is_full_flag_set(off_t) {
            Ok(0)
        } else if Self::is_full_flag_set(on_t) {
            Ok(4095)
        } else {
            proof {
                lemma_word_bytes(on_t);
                lemma_word_bytes(off_t);
            }
            Ok(Self::get_pulse_length(on_t & 0x0fff, off_t & 0x0fff))
        }
    }
}

} // verus!
