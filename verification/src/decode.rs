//! The decoder boundary: rosc parses each raw datagram, and the result is
//! reshaped into this library's packet model before any logic reads it.

use vstd::prelude::*;

use crate::args::OscArg;
use crate::buffer::Buffer;
use crate::config::Config;
use crate::packet::{
    process_packet, spec_errors_of_packet, spec_events_of_packet, spec_nested_of_packet,
    IngestOutcome, Packet,
};
use crate::translate::OscMsg;

verus! {

#[verifier::external_type_specification]
#[verifier::external_body]
pub struct ExOscPacket(rosc::OscPacket);

#[verifier::external_type_specification]
#[verifier::external_body]
pub struct ExOscMessage(rosc::OscMessage);

#[verifier::external_type_specification]
#[verifier::external_body]
pub struct ExOscType(rosc::OscType);

/// Converts one rosc argument into this library's argument model, one arm
/// per variant; a float argument is carried on as its bit pattern.
#[verifier::external_body]
fn arg_pieces(a: rosc::OscType) -> (r: OscArg)
{
    match a {
        rosc::OscType::Int(i) => OscArg::Int(i),
        rosc::OscType::Long(l) => OscArg::Long(l),
        rosc::OscType::Float(f) => OscArg::Float(f.to_bits()),
        rosc::OscType::Double(d) => OscArg::Double(d.to_bits()),
        rosc::OscType::String(s) => OscArg::Text(s),
        _ => OscArg::Other,
    }
}

/// Converts one rosc message into this library's message model: the address
/// moves over, and each argument converts in order.
#[verifier::external_body]
fn message_pieces(m: rosc::OscMessage) -> (r: OscMsg)
{
    OscMsg { addr: m.addr, args: m.args.into_iter().map(arg_pieces).collect() }
}

/// Converts one rosc packet into this library's packet model, one arm per
/// variant; a bundle's children convert recursively, and its unused
/// timestamp is not retained.
#[verifier::external_body]
fn packet_pieces(p: rosc::OscPacket) -> (r: Packet)
{
    match p {
        rosc::OscPacket::Message(m) => Packet::Message(message_pieces(m)),
        rosc::OscPacket::Bundle(b) => Packet::Bundle(
            b.content.into_iter().map(packet_pieces).collect(),
        ),
    }
}

/// The packet a datagram's bytes decode to, reshaped into this library's
/// model, or `None` for malformed bytes. Decoding is a function of the
/// bytes alone.
pub uninterp spec fn packet_of(data: Seq<u8>) -> Option<Packet>;

/// Relies on rosc::decoder::decode_udp: a pure parser that reads one OSC
/// packet from the datagram's bytes, deterministically, or reports
/// malformed bytes as an error, which comes back here as `None`. The
/// conversion to this library's model is deterministic too, so the result
/// is a function of the bytes alone.
#[verifier::external_body]
fn decode_datagram(data: &[u8]) -> (r: Option<Packet>)
    ensures
        r == packet_of(data@),
{
    match rosc::decoder::decode_udp(data) {
        Ok((_, p)) => Some(packet_pieces(p)),
        Err(_) => None,
    }
}

/// The inbound pipeline for one raw datagram: decode, translate every
/// carried message, and append the resulting events behind the buffer's
/// queued events, in wire order. Returns what the datagram yielded — the
/// events of the packet the bytes decode to, the schema error of each
/// dropped message, and the count of doubly nested bundles skipped — or
/// `None` exactly when the bytes are malformed, which leaves the buffer
/// untouched. Nothing already queued is ever dropped or reordered, so a
/// malformed or partly invalid datagram never disturbs earlier traffic.
pub fn ingest_datagram(cfg: &Config, data: &[u8], buf: &mut Buffer) -> (n: Option<IngestOutcome>)
    ensures
        old(buf)@.is_prefix_of(final(buf)@),
        n is Some <==> packet_of(data@) is Some,
        n is None ==> final(buf)@ == old(buf)@,
        packet_of(data@) matches Some(p) ==> final(buf)@ == old(buf)@ + spec_events_of_packet(
            cfg.filter_addr@,
            cfg.schema_override,
            p,
        ),
        packet_of(data@) matches Some(p) ==> {
            &&& n is Some
            &&& n->Some_0.queued == spec_events_of_packet(
                cfg.filter_addr@,
                cfg.schema_override,
                p,
            ).len()
            &&& n->Some_0.dropped@ == spec_errors_of_packet(
                cfg.filter_addr@,
                cfg.schema_override,
                p,
            )
            &&& n->Some_0.nested_skipped == spec_nested_of_packet(p)
        },
{
    match decode_datagram(data) {
        Some(packet) => {
            let outcome = process_packet(cfg, &packet, buf);
            proof {
                assert(buf@.subrange(0, old(buf)@.len() as int) =~= old(buf)@);
            }
            Some(outcome)
        },
        None => {
            proof {
                assert(buf@.subrange(0, old(buf)@.len() as int) =~= old(buf)@);
            }
            None
        },
    }
}

} // verus!
