//! The bus transport collaborator.
//!
//! [`Bus`] states, over a ghost view of the chip's 256-byte register bank,
//! what every transport primitive the driver builds on does: which bytes a
//! read returns, which bytes a write replaces, and that each write primitive
//! is one bus transaction.  [`MockBus`] is an in-memory register bank that
//! implements the trait and is verified against it; tests drive the codec
//! through it and can count and inspect the write transactions it saw.

use vstd::prelude::*;
use vstd::pervasive::VecAdditionalExecFns;
use crate::codec::{block_write_regs, high_byte, low_byte, reg16_at};

verus! {

/// The transport the driver talks through: raw byte and word access to the
/// chip's register bank, plus the auto-increment mode that bulk transfers
/// need.  Reads leave the bank alone; each write primitive is one bus
/// transaction.  A failed primitive may leave the bank partially updated,
/// but never changes its size, and performs at most its one transaction.
pub trait Bus: Sized {
    /// The transport's own error type, passed through to callers unchanged.
    type BusError;

    /// The chip's register bank, one byte per register address.
    spec fn regs(&self) -> Seq<u8>;

    /// How many write transactions the bus has carried.
    spec fn writes(&self) -> nat;

    /// Whether auto-increment addressing is enabled.
    spec fn auto_inc(&self) -> bool;

    /// Read the byte register at `reg`.
    fn read_register(&mut self, reg: u8) -> (r: Result<u8, Self::BusError>)
        requires
            old(self).regs().len() == 256,
        ensures
            final(self).regs() == old(self).regs(),
            final(self).writes() == old(self).writes(),
            final(self).auto_inc() == old(self).auto_inc(),
            r is Ok ==> r->Ok_0 == old(self).regs()[reg as int],
    ;

    /// Write the byte register at `reg`.
    fn write_register(&mut self, reg: u8, value: u8) -> (r: Result<(), Self::BusError>)
        requires
            old(self).regs().len() == 256,
        ensures
            final(self).regs().len() == old(self).regs().len(),
            final(self).auto_inc() == old(self).auto_inc(),
            old(self).writes() <= final(self).writes() <= old(self).writes() + 1,
            r is Ok ==> final(self).regs() == old(self).regs().update(reg as int, value),
            r is Ok ==> final(self).writes() == old(self).writes() + 1,
    ;

    /// Read the little-endian double-register at base `reg`.
    fn read_double_register(&mut self, reg: u8) -> (r: Result<u16, Self::BusError>)
        requires
            old(self).regs().len() == 256,
            reg + 1 < 256,
        ensures
            final(self).regs() == old(self).regs(),
            final(self).writes() == old(self).writes(),
            final(self).auto_inc() == old(self).auto_inc(),
            r is Ok ==> r->Ok_0 == reg16_at(old(self).regs(), reg as int),
    ;

    /// Write `value` to the double-register at base `reg`, low byte first,
    /// as one transaction.
    fn write_double_register(&mut self, reg: u8, value: u16) -> (r: Result<(), Self::BusError>)
        requires
            old(self).regs().len() == 256,
            reg + 1 < 256,
        ensures
            final(self).regs().len() == old(self).regs().len(),
            final(self).auto_inc() == old(self).auto_inc(),
            old(self).writes() <= final(self).writes() <= old(self).writes() + 1,
            r is Ok ==> final(self).regs() == old(self).regs().update(
                reg as int,
                low_byte(value),
            ).update(reg + 1, high_byte(value)),
            r is Ok ==> final(self).writes() == old(self).writes() + 1,
    ;

    /// Write two consecutive double-registers starting at base `reg`, as one
    /// four-byte transaction.
    fn write_two_double_registers(&mut self, reg: u8, first: u16, second: u16) -> (r: Result<
        (),
        Self::BusError,
    >)
        requires
            old(self).regs().len() == 256,
            reg + 3 < 256,
        ensures
            final(self).regs().len() == old(self).regs().len(),
            final(self).auto_inc() == old(self).auto_inc(),
            old(self).writes() <= final(self).writes() <= old(self).writes() + 1,
            r is Ok ==> final(self).regs() == old(self).regs().update(
                reg as int,
                low_byte(first),
            ).update(reg + 1, high_byte(first)).update(reg + 2, low_byte(second)).update(
                reg + 3,
                high_byte(second),
            ),
            r is Ok ==> final(self).writes() == old(self).writes() + 1,
    ;

    /// Read two consecutive double-registers starting at base `reg`.
    fn read_two_double_registers(&mut self, reg: u8) -> (r: Result<(u16, u16), Self::BusError>)
        requires
            old(self).regs().len() == 256,
            reg + 3 < 256,
        ensures
            final(self).regs() == old(self).regs(),
            final(self).writes() == old(self).writes(),
            final(self).auto_inc() == old(self).auto_inc(),
            r is Ok ==> r->Ok_0.0 == reg16_at(old(self).regs(), reg as int),
            r is Ok ==> r->Ok_0.1 == reg16_at(old(self).regs(), reg as int + 2),
    ;

    /// Enable auto-increment addressing; idempotent, required before any
    /// block transfer.
    fn enable_auto_increment(&mut self) -> (r: Result<(), Self::BusError>)
        requires
            old(self).regs().len() == 256,
        ensures
            final(self).regs() == old(self).regs(),
            final(self).writes() == old(self).writes(),
            r is Ok ==> final(self).auto_inc(),
    ;

    /// Read `n` consecutive byte registers starting at `reg` in one
    /// transaction, relying on auto-increment addressing.
    fn read_block(&mut self, reg: u8, n: usize) -> (r: Result<Vec<u8>, Self::BusError>)
        requires
            old(self).regs().len() == 256,
            old(self).auto_inc(),
            reg + n <= 256,
        ensures
            final(self).regs() == old(self).regs(),
            final(self).writes() == old(self).writes(),
            final(self).auto_inc() == old(self).auto_inc(),
            r is Ok ==> r->Ok_0@ == old(self).regs().subrange(reg as int, reg + n),
    ;

    /// Write `data` to the consecutive byte registers starting at `reg` in
    /// one transaction, relying on auto-increment addressing.
    fn write_block(&mut self, reg: u8, data: &Vec<u8>) -> (r: Result<(), Self::BusError>)
        requires
            old(self).regs().len() == 256,
            old(self).auto_inc(),
            reg + data@.len() <= 256,
        ensures
            final(self).regs().len() == old(self).regs().len(),
            final(self).auto_inc() == old(self).auto_inc(),
            old(self).writes() <= final(self).writes() <= old(self).writes() + 1,
            r is Ok ==> final(self).regs() == block_write_regs(
                old(self).regs(),
                reg as int,
                data@,
            ),
            r is Ok ==> final(self).writes() == old(self).writes() + 1,
    ;
}

/// The transport error of [`MockBus`]: what the mock returns from every
/// primitive while its failure switch is on.
#[derive(Debug, PartialEq, Eq)]
pub struct MockFault;

/// One write transaction as a [`MockBus`] saw it: the first register it
/// targeted and the bytes it carried.
#[derive(Debug)]
pub struct WriteOp {
    /// The register address the transaction started at.
    pub reg: u8,
    /// The bytes written, in address order.
    pub data: Vec<u8>,
}

/// An in-memory register bank that stands in for the chip in tests: every
/// write transaction is logged, and flipping [`MockBus::fail`] makes every
/// primitive fail without touching the bank, to exercise transport error
/// paths.
#[derive(Debug)]
pub struct MockBus {
    /// The simulated register bank; always 256 bytes.
    pub bank: Vec<u8>,
    /// One entry per write transaction, oldest first.
    pub log: Vec<WriteOp>,
    /// Whether auto-increment addressing has been enabled.
    pub auto_inc_on: bool,
    /// While set, every primitive returns [`MockFault`] and does nothing.
    pub fail: bool,
}

impl MockBus {
    /// A bank of 256 zeroed registers with an empty log.
    pub fn new() -> (r: MockBus)
        ensures
            r.regs().len() == 256,
            forall|i: int| 0 <= i < 256 ==> r.regs()[i] == 0u8,
            r.writes() == 0,
            !r.auto_inc(),
            !r.fail,
    {
        let mut bank: Vec<u8> = Vec::new();
        let mut i: usize = 0;
        while i < 256
            invariant
                i <= 256,
                bank@.len() == i,
                forall|j: int| 0 <= j < i ==> bank@[j] == 0u8,
            decreases 256 - i,
        {
            bank.push(0);
            i = i + 1;
        }
        MockBus { bank, log: Vec::new(), auto_inc_on: false, fail: false }
    }

    /// How many write transactions the bus has carried, for inspection from
    /// tests.
    pub fn write_count(&self) -> (r: usize)
        ensures
            r == self.writes(),
    {
        self.log.len()
    }
}

impl Bus for MockBus {
    type BusError = MockFault;

    open spec fn regs(&self) -> Seq<u8> {
        self.bank@
    }

    open spec fn writes(&self) -> nat {
        self.log@.len()
    }

    open spec fn auto_inc(&self) -> bool {
        self.auto_inc_on
    }

    fn read_register(&mut self, reg: u8) -> (r: Result<u8, MockFault>) {
        if self.fail {
            return Err(MockFault);
        }
        Ok(self.bank[reg as usize])
    }

    fn write_register(&mut self, reg: u8, value: u8) -> (r: Result<(), MockFault>) {
        if self.fail {
            return Err(MockFault);
        }
        self.bank.set(reg as usize, value);
        let mut data: Vec<u8> = Vec::new();
        data.push(value);
        self.log.push(WriteOp { reg, data });
        Ok(())
    }

    fn read_double_register(&mut self, reg: u8) -> (r: Result<u16, MockFault>) {
        if self.fail {
            return Err(MockFault);
        }
        let l = self.bank[reg as usize];
        let h = self.bank[reg as usize + 1];
        Ok((l as u16) | ((h as u16) << 8u16))
    }

    fn write_double_register(&mut self, reg: u8, value: u16) -> (r: Result<(), MockFault>) {
        if self.fail {
            return Err(MockFault);
        }
        let l = (value & 0xff) as u8;
        let h = (value >> 8u16) as u8;
        proof {
            assert(low_byte(value) == (value & 0xff) as u8 && high_byte(value) == (value
                >> 8u16) as u8) by (bit_vector);
        }
        self.bank.set(reg as usize, l);
        self.bank.set(reg as usize + 1, h);
        let mut data: Vec<u8> = Vec::new();
        data.push(l);
        data.push(h);
        self.log.push(WriteOp { reg, data });
        Ok(())
    }

    fn write_two_double_registers(&mut self, reg: u8, first: u16, second: u16) -> (r: Result<
        (),
        MockFault,
    >) {
        if self.fail {
            return Err(MockFault);
        }
        let l1 = (first & 0xff) as u8;
        let h1 = (first >> 8u16) as u8;
        let l2 = (second & 0xff) as u8;
        let h2 = (second >> 8u16) as u8;
        proof {
            assert(low_byte(first) == (first & 0xff) as u8 && high_byte(first) == (first
                >> 8u16) as u8) by (bit_vector);
            assert(low_byte(second) == (second & 0xff) as u8 && high_byte(second) == (second
                >> 8u16) as u8) by (bit_vector);
        }
        self.bank.set(reg as usize, l1);
        self.bank.set(reg as usize + 1, h1);
        self.bank.set(reg as usize + 2, l2);
        self.bank.set(reg as usize + 3, h2);
        let mut data: Vec<u8> = Vec::new();
        data.push(l1);
        data.push(h1);
        data.push(l2);
        data.push(h2);
        self.log.push(WriteOp { reg, data });
        Ok(())
    }

    fn read_two_double_registers(&mut self, reg: u8) -> (r: Result<(u16, u16), MockFault>) {
        if self.fail {
            return Err(MockFault);
        }
        let l1 = self.bank[reg as usize];
        let h1 = self.bank[reg as usize + 1];
        let l2 = self.bank[reg as usize + 2];
        let h2 = self.bank[reg as usize + 3];
        Ok(((l1 as u16) | ((h1 as u16) << 8u16), (l2 as u16) | ((h2 as u16) << 8u16)))
    }

    fn enable_auto_increment(&mut self) -> (r: Result<(), MockFault>) {
        if self.fail {
            return Err(MockFault);
        }
        self.auto_inc_on = true;
        Ok(())
    }

    fn read_block(&mut self, reg: u8, n: usize) -> (r: Result<Vec<u8>, MockFault>) {
        if self.fail {
            return Err(MockFault);
        }
        let mut out: Vec<u8> = Vec::new();
        let mut i: usize = 0;
        while i < n
            invariant
                i <= n,
                reg + n <= 256,
                self.bank@.len() == 256,
                out@.len() == i,
                forall|j: int| 0 <= j < i ==> out@[j] == self.bank@[reg + j],
            decreases n - i,
        {
            out.push(self.bank[reg as usize + i]);
            i = i + 1;
        }
        proof {
            assert(out@ =~= self.bank@.subrange(reg as int, reg + n));
        }
        Ok(out)
    }

    fn write_block(&mut self, reg: u8, data: &Vec<u8>) -> (r: Result<(), MockFault>) {
        if self.fail {
            return Err(MockFault);
        }
        let n = data.len();
        let mut copy: Vec<u8> = Vec::new();
        let mut i: usize = 0;
        while i < n
            invariant
                i <= n,
                n == data@.len(),
                reg + n <= 256,
                self.bank@.len() == 256,
                copy@.len() == i,
                forall|j: int| 0 <= j < i ==> copy@[j] == data@[j],
                forall|j: int|
                    0 <= j < 256 ==> self.bank@[j] == (if reg <= j < reg + i {
                        data@[j - reg]
                    } else {
                        old(self).bank@[j]
                    }),
                self.log@ == old(self).log@,
                self.auto_inc_on == old(self).auto_inc_on,
            decreases n - i,
        {
            self.bank.set(reg as usize + i, data[i]);
            copy.push(data[i]);
            i = i + 1;
        }
        self.log.push(WriteOp { reg, data: copy });
        proof {
            assert(self.bank@ =~= block_write_regs(old(self).bank@, reg as int, data@));
        }
        Ok(())
    }
}

} // verus!
