//! The channel register codec, as mathematics: how a 16-bit double-register
//! value splits into its 12-bit counter and its full ON/OFF flag, how the
//! driver's writes transform the chip's register bank, and the laws that the
//! codec obeys (round trips, flag preservation, overwrite semantics).
//!
//! The register bank is modelled as a `Seq<u8>` of the chip's 256 byte-wide
//! registers; a double-register at base address `r` is the little-endian pair
//! of bytes `r` (low) and `r + 1` (high).

use vstd::prelude::*;

verus! {

/// The low byte of a 16-bit register value.
pub open spec fn low_byte(v: u16) -> u8 {
    v as u8
}

/// The high byte of a 16-bit register value.
pub open spec fn high_byte(v: u16) -> u8 {
    (v >> 8) as u8
}

/// The 16-bit value of a little-endian (low, high) byte pair.
pub open spec fn word_of(l: u8, h: u8) -> u16 {
    (l as u16) | ((h as u16) << 8)
}

/// The 12-bit counter part of a double-register value.
pub open spec fn counter_bits(v: u16) -> u16 {
    v & 0x0fff
}

/// Whether the full ON/OFF flag (bit 12) of a double-register value is set.
pub open spec fn full_flag(v: u16) -> bool {
    v & 0x1000 != 0
}

/// The double-register value stored at base address `r` of the bank.
pub open spec fn reg16_at(regs: Seq<u8>, r: int) -> u16 {
    word_of(regs[r], regs[r + 1])
}

/// The high byte after a flag-preserving counter write: the flag bit of the
/// old high byte `h` is kept, the counter bits come from the new value `v`,
/// and the reserved bits are cleared.
pub open spec fn merged_high_byte(h: u8, v: u16) -> u8 {
    (h & 0x10) | high_byte(v)
}

/// The high byte after a flag write: the counter bits of the old high byte
/// `h` are kept and the flag bit follows `flag`.  Clearing the flag also
/// clears the reserved bits, setting it leaves them alone.
pub open spec fn flag_high_byte(h: u8, flag: bool) -> u8 {
    if flag {
        h | 0x10
    } else {
        h & 0x0f
    }
}

/// The bank after a flag-preserving counter write of `v` to the
/// double-register at base `r`.
pub open spec fn set_counter_regs(regs: Seq<u8>, r: int, v: u16) -> Seq<u8> {
    regs.update(r, low_byte(v)).update(r + 1, merged_high_byte(regs[r + 1], v))
}

/// The bank after a flag write to the double-register at base `r`.
pub open spec fn set_flag_regs(regs: Seq<u8>, r: int, flag: bool) -> Seq<u8> {
    regs.update(r + 1, flag_high_byte(regs[r + 1], flag))
}

/// The bank after the four-byte overwrite of a channel's ON and OFF pairs
/// at base `r` with the bare counter values `on_v` and `off_v`.
pub open spec fn set_on_off_regs(regs: Seq<u8>, r: int, on_v: u16, off_v: u16) -> Seq<u8> {
    regs.update(r, low_byte(on_v)).update(r + 1, high_byte(on_v)).update(
        r + 2,
        low_byte(off_v),
    ).update(r + 3, high_byte(off_v))
}

/// The bank after a block write of `data` starting at base `r`.
pub open spec fn block_write_regs(regs: Seq<u8>, r: int, data: Seq<u8>) -> Seq<u8> {
    Seq::new(regs.len(), |i: int| if r <= i < r + data.len() { data[i - r] } else { regs[i] })
}

/// The bank after the bulk overwrite of `vals.len()` double-registers
/// starting at base `r`, each packed little-endian.
pub open spec fn bulk_regs(regs: Seq<u8>, r: int, vals: Seq<u16>) -> Seq<u8> {
    Seq::new(
        regs.len(),
        |i: int|
            if r <= i < r + 2 * vals.len() {
                if (i - r) % 2 == 0 {
                    low_byte(vals[(i - r) / 2])
                } else {
                    high_byte(vals[(i - r) / 2])
                }
            } else {
                regs[i]
            },
    )
}

/// A counter never exceeds 4095, and splitting a value into bytes and
/// reassembling them gives the value back.
pub proof fn lemma_word_bytes(v: u16)
    by (bit_vector)
    ensures
        counter_bits(v) <= 4095,
        word_of(low_byte(v), high_byte(v)) == v,
{
}

/// The full flag of a double-register value lives in bit 4 of its high byte.
pub proof fn lemma_flag_is_high_bit(l: u8, h: u8)
    by (bit_vector)
    ensures
        full_flag(word_of(l, h)) == (h & 0x10 != 0),
        counter_bits(word_of(l, h)) == word_of(l, h & 0x0f),
{
}

/// A flag-preserving counter write stores exactly the requested counter and
/// leaves the flag bit as it was.
pub proof fn lemma_merged_high_byte(h: u8, v: u16)
    by (bit_vector)
    requires
        v <= 4095,
    ensures
        counter_bits(word_of(low_byte(v), merged_high_byte(h, v))) == v,
        full_flag(word_of(low_byte(v), merged_high_byte(h, v))) == (h & 0x10 != 0),
{
}

/// A flag write moves the flag bit to the requested value and keeps every
/// counter bit of the high byte.
pub proof fn lemma_flag_high_byte(h: u8, flag: bool)
    by (bit_vector)
    ensures
        flag_high_byte(h, flag) & 0x10 != 0 <==> flag,
        flag_high_byte(h, flag) & 0x0f == h & 0x0f,
{
}

/// Setting a channel's counter and reading it back returns the value that
/// was set, and the full flag survives the round trip untouched.
pub proof fn lemma_set_then_get_roundtrip(regs: Seq<u8>, r: int, v: u16)
    requires
        0 <= r,
        r + 1 < regs.len(),
        v <= 4095,
    ensures
        counter_bits(reg16_at(set_counter_regs(regs, r, v), r)) == v,
        full_flag(reg16_at(set_counter_regs(regs, r, v), r)) == full_flag(reg16_at(regs, r)),
{
    let h = regs[r + 1];
    assert(set_counter_regs(regs, r, v)[r] == low_byte(v));
    assert(set_counter_regs(regs, r, v)[r + 1] == merged_high_byte(h, v));
    lemma_merged_high_byte(h, v);
    lemma_flag_is_high_bit(regs[r], h);
    assert(full_flag(word_of(regs[r], h)) == (h & 0x10 != 0));
}

/// A flag write changes at most the flag bit of the stored double-register:
/// afterwards the flag reads back as requested and the counter is what it
/// was before.
pub proof fn lemma_flag_write(regs: Seq<u8>, r: int, flag: bool)
    requires
        0 <= r,
        r + 1 < regs.len(),
    ensures
        full_flag(reg16_at(set_flag_regs(regs, r, flag), r)) == flag,
        counter_bits(reg16_at(set_flag_regs(regs, r, flag), r)) == counter_bits(
            reg16_at(regs, r),
        ),
{
    let l = regs[r];
    let h = regs[r + 1];
    assert(set_flag_regs(regs, r, flag)[r] == l);
    assert(set_flag_regs(regs, r, flag)[r + 1] == flag_high_byte(h, flag));
    lemma_flag_high_byte(h, flag);
    lemma_flag_is_high_bit(l, flag_high_byte(h, flag));
    lemma_flag_is_high_bit(l, h);
    assert(word_of(l, flag_high_byte(h, flag) & 0x0f) == word_of(l, h & 0x0f));
}

/// The four-byte ON/OFF overwrite stores the bare counters and leaves both
/// full flags clear, whatever flags were set before.
pub proof fn lemma_on_off_overwrite(regs: Seq<u8>, r: int, on_v: u16, off_v: u16)
    requires
        0 <= r,
        r + 3 < regs.len(),
        on_v <= 4095,
        off_v <= 4095,
    ensures
        reg16_at(set_on_off_regs(regs, r, on_v, off_v), r) == on_v,
        reg16_at(set_on_off_regs(regs, r, on_v, off_v), r + 2) == off_v,
        !full_flag(reg16_at(set_on_off_regs(regs, r, on_v, off_v), r)),
        !full_flag(reg16_at(set_on_off_regs(regs, r, on_v, off_v), r + 2)),
{
    let after = set_on_off_regs(regs, r, on_v, off_v);
    assert(after[r] == low_byte(on_v));
    assert(after[r + 1] == high_byte(on_v));
    assert(after[r + 2] == low_byte(off_v));
    assert(after[r + 3] == high_byte(off_v));
    lemma_word_bytes(on_v);
    lemma_word_bytes(off_v);
    assert(!full_flag(on_v) && !full_flag(off_v)) by (bit_vector)
        requires
            on_v <= 4095,
            off_v <= 4095,
    ;
}

/// Bulk round trip: after the bulk overwrite with `vals`, every
/// double-register slot holds exactly the value supplied for it, flag bits
/// included.
pub proof fn lemma_bulk_roundtrip(regs: Seq<u8>, r: int, vals: Seq<u16>)
    requires
        0 <= r,
        r + 2 * vals.len() <= regs.len(),
    ensures
        forall|i: int|
            0 <= i < vals.len() ==> reg16_at(bulk_regs(regs, r, vals), r + 2 * i) == vals[i],
{
    assert forall|i: int| 0 <= i < vals.len() implies reg16_at(bulk_regs(regs, r, vals), r + 2 * i)
        == vals[i] by {
        let after = bulk_regs(regs, r, vals);
        assert((r + 2 * i - r) % 2 == 0 && (r + 2 * i - r) / 2 == i);
        assert((r + 2 * i + 1 - r) % 2 == 1 && (r + 2 * i + 1 - r) / 2 == i);
        assert(after[r + 2 * i] == low_byte(vals[i]));
        assert(after[r + 2 * i + 1] == high_byte(vals[i]));
        lemma_word_bytes(vals[i]);
    }
}

/// The effective pulse length of a channel whose flags are both clear:
/// the cyclic distance from the ON tick to the OFF tick in the chip's
/// 4096-tick period.
pub open spec fn spec_pulse_length(on_t: u16, off_t: u16) -> u16
    recommends
        on_t <= 4095,
        off_t <= 4095,
{
    if off_t >= on_t {
        (off_t - on_t) as u16
    } else {
        (4095 - on_t + off_t) as u16
    }
}

/// The effective pulse length of a channel from its raw ON and OFF
/// double-register values: full OFF forces 0, otherwise full ON forces 4095,
/// otherwise the counters decide.
pub open spec fn spec_effective_pulse(on_t: u16, off_t: u16) -> u16 {
    if full_flag(off_t) {
        0
    } else if full_flag(on_t) {
        4095
    } else {
        spec_pulse_length(counter_bits(on_t), counter_bits(off_t))
    }
}

/// The chip's documented precedence: full OFF wins over everything, full ON
/// wins over the counters, and with both flags clear the counters alone
/// decide the pulse.
pub proof fn lemma_pulse_precedence(on_t: u16, off_t: u16)
    ensures
        full_flag(off_t) ==> spec_effective_pulse(on_t, off_t) == 0,
        !full_flag(off_t) && full_flag(on_t) ==> spec_effective_pulse(on_t, off_t) == 4095,
        !full_flag(off_t) && !full_flag(on_t) ==> spec_effective_pulse(on_t, off_t)
            == spec_pulse_length(counter_bits(on_t), counter_bits(off_t)),
{
}

} // verus!
