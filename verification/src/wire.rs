//! The encoder and batcher: one outbound datagram per event, in the fixed
//! six-slot layout the editor plugin expects, and the periodic tick that
//! drains the buffer and encodes the whole batch in enqueue order.

use vstd::prelude::*;

use crate::buffer::Buffer;
use crate::config::Config;
use crate::decode::{ingest_datagram, packet_of};
use crate::event::{event_id, spec_event_id, HighlightEvent};
use crate::packet::{
    spec_errors_of_packet, spec_events_of_packet, spec_nested_of_packet, Packet,
};
use crate::translate::SchemaError;

verus! {

/// The bit pattern of the 32-bit float 1.0: the constant cycle value every
/// outbound message carries.
pub const CYCLE_ONE_BITS: u32 = 0x3f80_0000;

/// The bytes of the outbound OSC message with address `addr` and arguments
/// `[stream_id:int, duration:float, cycle:float, start_col:int,
/// event_id:int, end_col:int]`, where `duration` and `cycle` are the 32-bit
/// floats with bit patterns `duration_bits` and `cycle_bits`.
pub uninterp spec fn wire_of(
    addr: Seq<char>,
    stream_id: i32,
    duration_bits: u32,
    cycle_bits: u32,
    start_col: i32,
    event_id: i32,
    end_col: i32,
) -> Seq<u8>;

/// Relies on rosc::encoder::encode, which deterministically serializes one
/// OSC message and, writing into a byte vector, cannot fail. The message
/// carries the fixed layout `[stream_id:int, duration:float, cycle:float,
/// start_col:int, event_id:int, end_col:int]`; the two floats are rebuilt
/// from their bit patterns with bytemuck::cast.
#[verifier::external_body]
fn encode_highlight(
    addr: &str,
    stream_id: i32,
    duration_bits: u32,
    cycle_bits: u32,
    start_col: i32,
    event_id: i32,
    end_col: i32,
) -> (r: Vec<u8>)
    ensures
        r@ == wire_of(addr@, stream_id, duration_bits, cycle_bits, start_col, event_id, end_col),
{
    let msg = rosc::OscMessage {
        addr: addr.to_string(),
        args: vec![
            rosc::OscType::Int(stream_id),
            rosc::OscType::Float(bytemuck::cast(duration_bits)),
            rosc::OscType::Float(bytemuck::cast(cycle_bits)),
            rosc::OscType::Int(start_col),
            rosc::OscType::Int(event_id),
            rosc::OscType::Int(end_col),
        ],
    };
    rosc::encoder::encode(&rosc::OscPacket::Message(msg)).unwrap_or_default()
}

/// The outbound datagram of one event: its fields in the fixed layout, under
/// the configured outbound address, with the derived event identifier.
pub open spec fn spec_encode_event(out_addr: Seq<char>, e: HighlightEvent) -> Seq<u8> {
    wire_of(
        out_addr,
        e.stream_id,
        e.duration_bits,
        CYCLE_ONE_BITS,
        e.start_col,
        spec_event_id(e),
        e.end_col,
    )
}

/// Builds the one outbound datagram that forwards an event.
pub fn encode_event(out_addr: &str, e: &HighlightEvent) -> (r: Vec<u8>)
    ensures
        r@ == spec_encode_event(out_addr@, *e),
{
    let id = event_id(e);
    encode_highlight(out_addr, e.stream_id, e.duration_bits, CYCLE_ONE_BITS, e.start_col, id, e.end_col)
}

/// Encodes a batch of events, one datagram per event, preserving order.
pub fn encode_batch(out_addr: &str, events: &Vec<HighlightEvent>) -> (r: Vec<Vec<u8>>)
    ensures
        r@.len() == events@.len(),
        forall|j: int|
            0 <= j < events@.len() ==> r@[j]@ == spec_encode_event(out_addr@, events@[j]),
{
    let mut out: Vec<Vec<u8>> = Vec::new();
    let mut i: usize = 0;
    while i < events.len()
        invariant
            i <= events@.len(),
            out@.len() == i,
            forall|j: int| 0 <= j < i ==> out@[j]@ == spec_encode_event(out_addr@, events@[j]),
        decreases events@.len() - i,
    {
        let d = encode_event(out_addr, &events[i]);
        out.push(d);
        i = i + 1;
    }
    out
}

/// One batcher tick: atomically removes every queued event, leaving the
/// buffer empty, then encodes one outbound datagram per removed event. The
/// datagrams come back in exact enqueue order — ticks never merge or reorder
/// events — and an empty buffer yields no datagram and no error.
pub fn tick(cfg: &Config, buf: &mut Buffer) -> (r: Vec<Vec<u8>>)
    ensures
        final(buf)@.len() == 0,
        r@.len() == old(buf)@.len(),
        forall|j: int|
            0 <= j < old(buf)@.len() ==> r@[j]@ == spec_encode_event(
                cfg.outbound_addr@,
                old(buf)@[j],
            ),
        old(buf)@.len() == 0 ==> r@.len() == 0,
{
    let events = buf.drain_all();
    encode_batch(cfg.outbound_addr.as_str(), &events)
}

/// One step of the serial fallback mode: decode one datagram, translate its
/// messages, and encode their outbound datagrams, strictly sequentially and
/// with no buffering between receive and forward — so trivially in arrival
/// order, like the batched mode. The datagrams are exactly the encodings,
/// in wire order, of the events of the packet the bytes decode to, beside
/// the schema error of each dropped message and the count of doubly nested
/// bundles skipped; `None` comes back exactly when the bytes are malformed,
/// and then nothing is forwarded.
pub fn serial_step(cfg: &Config, data: &[u8]) -> (r: Option<
    (Vec<Vec<u8>>, Vec<SchemaError>, usize),
>)
    ensures
        r is Some <==> packet_of(data@) is Some,
        packet_of(data@) matches Some(p) ==> r matches Some(outcome) && {
            let es = spec_events_of_packet(cfg.filter_addr@, cfg.schema_override, p);
            &&& outcome.0@.len() == es.len()
            &&& forall|j: int|
                0 <= j < es.len() ==> outcome.0@[j]@ == spec_encode_event(
                    cfg.outbound_addr@,
                    es[j],
                )
            &&& outcome.1@ == spec_errors_of_packet(cfg.filter_addr@, cfg.schema_override, p)
            &&& outcome.2 == spec_nested_of_packet(p)
        },
{
    let mut scratch = Buffer::new();
    match ingest_datagram(cfg, data, &mut scratch) {
        None => None,
        Some(outcome) => {
            proof {
                if let Some(p) = packet_of(data@) {
                    assert(Seq::<HighlightEvent>::empty() + spec_events_of_packet(
                        cfg.filter_addr@,
                        cfg.schema_override,
                        p,
                    ) =~= spec_events_of_packet(cfg.filter_addr@, cfg.schema_override, p));
                }
            }
            let outs = tick(cfg, &mut scratch);
            Some((outs, outcome.dropped, outcome.nested_skipped))
        },
    }
}

} // verus!
