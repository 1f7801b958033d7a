//! Register addressing: the fixed map from a channel and a register kind
//! (ON or OFF) to the physical base address of that double-register.
//!
//! The table is the chip's memory map: channel `n` owns four bytes starting
//! at `6 + 4 * n` (ON low, ON high, OFF low, OFF high), and the broadcast
//! channel owns the four bytes starting at 250.

use vstd::prelude::*;
use crate::Channel;

verus! {

/// Base address of a channel's ON double-register.
pub open spec fn spec_register_on(channel: Channel) -> u8 {
    match channel {
        Channel::C0 => 6,
        Channel::C1 => 10,
        Channel::C2 => 14,
        Channel::C3 => 18,
        Channel::C4 => 22,
        Channel::C5 => 26,
        Channel::C6 => 30,
        Channel::C7 => 34,
        Channel::C8 => 38,
        Channel::C9 => 42,
        Channel::C10 => 46,
        Channel::C11 => 50,
        Channel::C12 => 54,
        Channel::C13 => 58,
        Channel::C14 => 62,
        Channel::C15 => 66,
        Channel::All => 250,
    }
}

/// Base address of a channel's OFF double-register.
pub open spec fn spec_register_off(channel: Channel) -> u8 {
    match channel {
        Channel::C0 => 8,
        Channel::C1 => 12,
        Channel::C2 => 16,
        Channel::C3 => 20,
        Channel::C4 => 24,
        Channel::C5 => 28,
        Channel::C6 => 32,
        Channel::C7 => 36,
        Channel::C8 => 40,
        Channel::C9 => 44,
        Channel::C10 => 48,
        Channel::C11 => 52,
        Channel::C12 => 56,
        Channel::C13 => 60,
        Channel::C14 => 64,
        Channel::C15 => 68,
        Channel::All => 252,
    }
}

/// Every ON base address leaves room for the four bytes of the channel's
/// ON and OFF pairs, and the OFF pair sits right behind the ON pair.
pub proof fn lemma_register_layout(channel: Channel)
    ensures
        6 <= spec_register_on(channel),
        spec_register_on(channel) + 4 <= 256,
        spec_register_off(channel) == spec_register_on(channel) + 2,
{
}

/// Resolve the ON double-register address of `channel`.
pub fn get_register_on(channel: Channel) -> (r: u8)
    ensures
        r == spec_register_on(channel),
{
    match channel {
        Channel::C0 => 6,
        Channel::C1 => 10,
        Channel::C2 => 14,
        Channel::C3 => 18,
        Channel::C4 => 22,
        Channel::C5 => 26,
        Channel::C6 => 30,
        Channel::C7 => 34,
        Channel::C8 => 38,
        Channel::C9 => 42,
        Channel::C10 => 46,
        Channel::C11 => 50,
        Channel::C12 => 54,
        Channel::C13 => 58,
        Channel::C14 => 62,
        Channel::C15 => 66,
        Channel::All => 250,
    }
}

/// Resolve the OFF double-register address of `channel`.
pub fn get_register_off(channel: Channel) -> (r: u8)
    ensures
        r == spec_register_off(channel),
{
    match channel {
        Channel::C0 => 8,
        Channel::C1 => 12,
        Channel::C2 => 16,
        Channel::C3 => 20,
        Channel::C4 => 24,
        Channel::C5 => 28,
        Channel::C6 => 32,
        Channel::C7 => 36,
        Channel::C8 => 40,
        Channel::C9 => 44,
        Channel::C10 => 48,
        Channel::C11 => 52,
        Channel::C12 => 56,
        Channel::C13 => 60,
        Channel::C14 => 64,
        Channel::C15 => 68,
        Channel::All => 252,
    }
}

} // verus!
