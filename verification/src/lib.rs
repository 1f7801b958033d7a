//! Register-level control logic for a 16-channel PWM controller chip that is
//! reached over a two-wire serial bus.
//!
//! The chip keeps, for every channel, an ON and an OFF double-register: a
//! 16-bit value whose low 12 bits are a counter (0..=4095) and whose bit 12 is
//! a "full ON" / "full OFF" override flag.  This crate holds the codec for
//! those registers (flag-preserving counter writes, idempotent flag writes,
//! raw reads), the auto-increment bulk transfer that moves all 32
//! double-registers in one transaction, and the pulse-length calculator that
//! applies the chip's flag precedence (full OFF beats full ON beats the
//! counted pulse).
//!
//! The bus transport is a collaborator: the [`bus::Bus`] trait states what
//! each primitive does to the chip's register bank, and [`bus::MockBus`] is an
//! in-memory implementation, verified against that statement, for tests.

use vstd::prelude::*;

pub mod bus;
pub mod codec;
pub mod registers;
pub mod channels;

verus! {

/// One of the chip's 16 PWM channels, or the broadcast pseudo-channel that a
/// write applies to every channel at once.
#[derive(Clone, Copy, Debug, PartialEq, Eq, Structural)]
pub enum Channel {
    C0,
    C1,
    C2,
    C3,
    C4,
    C5,
    C6,
    C7,
    C8,
    C9,
    C10,
    C11,
    C12,
    C13,
    C14,
    C15,
    All,
}

/// What a channel operation can fail with.
#[derive(Debug, PartialEq, Eq)]
pub enum Error<E> {
    /// A counter value above 4095, or a bulk payload whose length is not 32.
    /// Raised before any bus access; no chip state is touched.
    InvalidInputData,
    /// A bus read or write failed; the transport's error is passed on
    /// unchanged.
    Bus(E),
}

} // verus!
