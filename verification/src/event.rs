//! The canonical highlight event and its derived outbound identifier.

use vstd::prelude::*;

verus! {

/// A highlight span in the editor buffer: the canonical event every inbound
/// message is translated to, queued once, forwarded once, then discarded.
/// `duration_bits` carries the 32-bit float duration as its bit pattern.
#[derive(Clone, Debug, PartialEq)]
pub struct HighlightEvent {
    /// One-indexed logical output channel.
    pub stream_id: i32,
    /// Row of the first highlighted cell.
    pub start_row: i32,
    /// Column of the first highlighted cell.
    pub start_col: i32,
    /// Row of the last highlighted cell.
    pub end_row: i32,
    /// Column of the last highlighted cell.
    pub end_col: i32,
    /// Duration in seconds, as the bit pattern of a 32-bit float.
    pub duration_bits: u32,
    /// Sound name from the extended schema; retained but never forwarded.
    pub sound_name: Option<String>,
}

/// Whether the 32-bit float with bit pattern `bits` is finite: its exponent
/// bits are not all ones, which would mean an infinity or a NaN.
pub open spec fn spec_f32_bits_finite(bits: u32) -> bool {
    (bits >> 23u32) & 0xffu32 != 0xffu32
}

/// Checks, on the bit pattern alone, that a 32-bit float is finite.
pub fn f32_bits_finite(bits: u32) -> (r: bool)
    ensures
        r == spec_f32_bits_finite(bits),
{
    (bits >> 23u32) & 0xffu32 != 0xffu32
}

/// The invariant of every translated event: the stream number is
/// one-indexed and the duration is a finite float. The translator rejects
/// any message whose values would break it.
pub open spec fn spec_event_invariant(e: HighlightEvent) -> bool {
    &&& e.stream_id >= 1
    &&& spec_f32_bits_finite(e.duration_bits)
}

/// The advisory outbound identifier of an event: `start_row * 1000 +
/// start_col`, wrapping on `i32` overflow. It is derived at forwarding time,
/// never stored, and intentionally collision-prone when `start_row` is 0.
pub open spec fn spec_event_id(e: HighlightEvent) -> i32 {
    e.start_row.wrapping_mul(1000i32).wrapping_add(e.start_col)
}

/// Derives the outbound event identifier from an event's start cell.
pub fn event_id(e: &HighlightEvent) -> (r: i32)
    ensures
        r == spec_event_id(*e),
        i32::MIN <= e.start_row * 1000 + e.start_col <= i32::MAX ==> r == e.start_row * 1000
            + e.start_col,
{
    let row_part = e.start_row.wrapping_mul(1000);
    row_part.wrapping_add(e.start_col)
}

} // verus!
