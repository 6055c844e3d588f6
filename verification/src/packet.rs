//! Decoded packets and the inbound half of the pipeline: one datagram is
//! decoded into a message or a one-level bundle, and every message it
//! carries is translated and enqueued, in wire order.

use vstd::prelude::*;

use crate::buffer::Buffer;
use crate::config::{Config, Schema};
use crate::event::HighlightEvent;
use crate::translate::{spec_translate, translate, OscMsg, SchemaError};

verus! {

/// A decoded OSC packet: a single message, or a bundle of packets. The wire
/// format allows arbitrary nesting, but this bridge processes a bundle's
/// direct messages only: a bundle inside a bundle is dropped unprocessed.
pub enum Packet {
    /// A single message.
    Message(OscMsg),
    /// A bundle; its timestamp is not used and not retained.
    Bundle(Vec<Packet>),
}

/// The events one direct child of a packet contributes: a message yields its
/// translation when it has one, and a nested bundle yields nothing, since
/// bundle depth is capped at one.
pub open spec fn spec_events_of_child(
    filter: Seq<char>,
    ovr: Option<Schema>,
    p: Packet,
) -> Seq<HighlightEvent> {
    match p {
        Packet::Message(m) => match spec_translate(filter, ovr, m.addr@, m.args@) {
            Ok(e) => seq![e],
            Err(_) => Seq::empty(),
        },
        Packet::Bundle(_) => Seq::empty(),
    }
}

/// The events a bundle's children contribute, in wire order.
pub open spec fn spec_events_of_children(
    filter: Seq<char>,
    ovr: Option<Schema>,
    items: Seq<Packet>,
) -> Seq<HighlightEvent>
    decreases items.len(),
{
    if items.len() == 0 {
        Seq::empty()
    } else {
        spec_events_of_child(filter, ovr, items[0]) + spec_events_of_children(
            filter,
            ovr,
            items.drop_first(),
        )
    }
}

/// The events one decoded packet contributes to the buffer, in wire order.
pub open spec fn spec_events_of_packet(
    filter: Seq<char>,
    ovr: Option<Schema>,
    p: Packet,
) -> Seq<HighlightEvent> {
    match p {
        Packet::Message(_) => spec_events_of_child(filter, ovr, p),
        Packet::Bundle(items) => spec_events_of_children(filter, ovr, items@),
    }
}

/// Contribution distributes over concatenation of child lists.
proof fn lemma_children_concat(
    filter: Seq<char>,
    ovr: Option<Schema>,
    a: Seq<Packet>,
    b: Seq<Packet>,
)
    ensures
        spec_events_of_children(filter, ovr, a + b) == spec_events_of_children(filter, ovr, a)
            + spec_events_of_children(filter, ovr, b),
    decreases a.len(),
{
    if a.len() == 0 {
        assert(a + b =~= b);
        assert(spec_events_of_children(filter, ovr, a) + spec_events_of_children(
            filter,
            ovr,
            b,
        ) =~= spec_events_of_children(filter, ovr, b));
    } else {
        assert((a + b).drop_first() =~= a.drop_first() + b);
        lemma_children_concat(filter, ovr, a.drop_first(), b);
        assert(spec_events_of_child(filter, ovr, a[0]) + (spec_events_of_children(
            filter,
            ovr,
            a.drop_first(),
        ) + spec_events_of_children(filter, ovr, b)) =~= spec_events_of_children(filter, ovr, a)
            + spec_events_of_children(filter, ovr, b));
    }
}

/// A child list of one element contributes that child's events.
proof fn lemma_children_singleton(filter: Seq<char>, ovr: Option<Schema>, p: Packet)
    ensures
        spec_events_of_children(filter, ovr, seq![p]) == spec_events_of_child(filter, ovr, p),
{
    let s = seq![p];
    assert(s[0] == p);
    assert(s.drop_first() =~= Seq::<Packet>::empty());
    assert(spec_events_of_children(filter, ovr, Seq::<Packet>::empty())
        == Seq::<HighlightEvent>::empty());
    assert(spec_events_of_child(filter, ovr, p) + Seq::<HighlightEvent>::empty()
        =~= spec_events_of_child(filter, ovr, p));
}

/// The drop reasons one direct child of a packet contributes: a message
/// yields its schema error when it has one, and a nested bundle yields
/// nothing here — it is dropped for depth, not for its schema.
pub open spec fn spec_errors_of_child(
    filter: Seq<char>,
    ovr: Option<Schema>,
    p: Packet,
) -> Seq<SchemaError> {
    match p {
        Packet::Message(m) => match spec_translate(filter, ovr, m.addr@, m.args@) {
            Ok(_) => Seq::empty(),
            Err(e) => seq![e],
        },
        Packet::Bundle(_) => Seq::empty(),
    }
}

/// The drop reasons a bundle's children contribute, in wire order.
pub open spec fn spec_errors_of_children(
    filter: Seq<char>,
    ovr: Option<Schema>,
    items: Seq<Packet>,
) -> Seq<SchemaError>
    decreases items.len(),
{
    if items.len() == 0 {
        Seq::empty()
    } else {
        spec_errors_of_child(filter, ovr, items[0]) + spec_errors_of_children(
            filter,
            ovr,
            items.drop_first(),
        )
    }
}

/// The drop reasons one decoded packet contributes, in wire order: one
/// entry per direct message that does not translate.
pub open spec fn spec_errors_of_packet(
    filter: Seq<char>,
    ovr: Option<Schema>,
    p: Packet,
) -> Seq<SchemaError> {
    match p {
        Packet::Message(_) => spec_errors_of_child(filter, ovr, p),
        Packet::Bundle(items) => spec_errors_of_children(filter, ovr, items@),
    }
}

/// Drop reasons distribute over concatenation of child lists.
proof fn lemma_errors_concat(
    filter: Seq<char>,
    ovr: Option<Schema>,
    a: Seq<Packet>,
    b: Seq<Packet>,
)
    ensures
        spec_errors_of_children(filter, ovr, a + b) == spec_errors_of_children(filter, ovr, a)
            + spec_errors_of_children(filter, ovr, b),
    decreases a.len(),
{
    if a.len() == 0 {
        assert(a + b =~= b);
        assert(spec_errors_of_children(filter, ovr, a) + spec_errors_of_children(
            filter,
            ovr,
            b,
        ) =~= spec_errors_of_children(filter, ovr, b));
    } else {
        assert((a + b).drop_first() =~= a.drop_first() + b);
        lemma_errors_concat(filter, ovr, a.drop_first(), b);
        assert(spec_errors_of_child(filter, ovr, a[0]) + (spec_errors_of_children(
            filter,
            ovr,
            a.drop_first(),
        ) + spec_errors_of_children(filter, ovr, b)) =~= spec_errors_of_children(filter, ovr, a)
            + spec_errors_of_children(filter, ovr, b));
    }
}

/// A child list of one element contributes that child's drop reasons.
proof fn lemma_errors_singleton(filter: Seq<char>, ovr: Option<Schema>, p: Packet)
    ensures
        spec_errors_of_children(filter, ovr, seq![p]) == spec_errors_of_child(filter, ovr, p),
{
    let s = seq![p];
    assert(s[0] == p);
    assert(s.drop_first() =~= Seq::<Packet>::empty());
    assert(spec_errors_of_children(filter, ovr, Seq::<Packet>::empty())
        == Seq::<SchemaError>::empty());
    assert(spec_errors_of_child(filter, ovr, p) + Seq::<SchemaError>::empty()
        =~= spec_errors_of_child(filter, ovr, p));
}

/// How many doubly nested bundles one direct child of a packet holds: a
/// nested bundle counts once, whole; a message counts none.
pub open spec fn spec_nested_of_child(p: Packet) -> nat {
    match p {
        Packet::Message(_) => 0,
        Packet::Bundle(_) => 1,
    }
}

/// How many doubly nested bundles a bundle's children hold.
pub open spec fn spec_nested_of_children(items: Seq<Packet>) -> nat
    decreases items.len(),
{
    if items.len() == 0 {
        0
    } else {
        spec_nested_of_child(items[0]) + spec_nested_of_children(items.drop_first())
    }
}

/// How many doubly nested bundles one decoded packet drops for depth.
pub open spec fn spec_nested_of_packet(p: Packet) -> nat {
    match p {
        Packet::Message(_) => 0,
        Packet::Bundle(items) => spec_nested_of_children(items@),
    }
}

/// The nested-bundle count distributes over concatenation of child lists.
proof fn lemma_nested_concat(a: Seq<Packet>, b: Seq<Packet>)
    ensures
        spec_nested_of_children(a + b) == spec_nested_of_children(a) + spec_nested_of_children(b),
    decreases a.len(),
{
    if a.len() == 0 {
        assert(a + b =~= b);
    } else {
        assert((a + b).drop_first() =~= a.drop_first() + b);
        lemma_nested_concat(a.drop_first(), b);
    }
}

/// A child list of one element holds that child's nested-bundle count.
proof fn lemma_nested_singleton(p: Packet)
    ensures
        spec_nested_of_children(seq![p]) == spec_nested_of_child(p),
{
    let s = seq![p];
    assert(s[0] == p);
    assert(s.drop_first() =~= Seq::<Packet>::empty());
    assert(spec_nested_of_children(Seq::<Packet>::empty()) == 0);
}

/// What processing one packet yielded: how many events were enqueued, the
/// schema error of each dropped message in wire order, and how many doubly
/// nested bundles were skipped for depth.
pub struct IngestOutcome {
    /// Number of events appended to the buffer.
    pub queued: usize,
    /// One schema error per dropped message, in wire order.
    pub dropped: Vec<SchemaError>,
    /// Number of doubly nested bundles dropped unprocessed.
    pub nested_skipped: usize,
}

/// Translates every message a decoded packet carries and appends the
/// resulting events behind the buffer's queued events, in wire order.
/// Returns how many events were enqueued, the schema error of each dropped
/// message in wire order, and how many doubly nested bundles were skipped.
/// A message that translates to a schema error is dropped alone; it never
/// interrupts the rest.
pub fn process_packet(cfg: &Config, p: &Packet, buf: &mut Buffer) -> (r: IngestOutcome)
    ensures
        final(buf)@ == old(buf)@ + spec_events_of_packet(
            cfg.filter_addr@,
            cfg.schema_override,
            *p,
        ),
        r.queued == spec_events_of_packet(cfg.filter_addr@, cfg.schema_override, *p).len(),
        r.dropped@ == spec_errors_of_packet(cfg.filter_addr@, cfg.schema_override, *p),
        r.nested_skipped == spec_nested_of_packet(*p),
{
    let ghost filter = cfg.filter_addr@;
    let ghost ovr = cfg.schema_override;
    let ghost base = buf@;
    let mut dropped: Vec<SchemaError> = Vec::new();
    match p {
        Packet::Message(m) => {
            match translate(cfg, m) {
                Ok(e) => {
                    buf.push(e);
                    proof {
                        assert(buf@ =~= base + spec_events_of_packet(filter, ovr, *p));
                    }
                    IngestOutcome { queued: 1, dropped, nested_skipped: 0 }
                },
                Err(err) => {
                    dropped.push(err);
                    proof {
                        assert(buf@ =~= base + spec_events_of_packet(filter, ovr, *p));
                        assert(dropped@ =~= seq![err]);
                    }
                    IngestOutcome { queued: 0, dropped, nested_skipped: 0 }
                },
            }
        },
        Packet::Bundle(items) => {
            let mut n: usize = 0;
            let mut skipped: usize = 0;
            let mut i: usize = 0;
            proof {
                assert(items@.take(0int) =~= Seq::<Packet>::empty());
                assert(base + Seq::<HighlightEvent>::empty() =~= base);
            }
            while i < items.len()
                invariant
                    filter == cfg.filter_addr@,
                    ovr == cfg.schema_override,
                    i <= items@.len(),
                    n <= i,
                    buf@ == base + spec_events_of_children(filter, ovr, items@.take(i as int)),
                    n == spec_events_of_children(filter, ovr, items@.take(i as int)).len(),
                    dropped@ == spec_errors_of_children(filter, ovr, items@.take(i as int)),
                    skipped <= i,
                    skipped == spec_nested_of_children(items@.take(i as int)),
                decreases items@.len() - i,
            {
                let ghost pre = items@.take(i as int);
                let ghost cur = items@[i as int];
                proof {
                    assert(items@.take(i as int + 1) =~= pre + seq![cur]);
                    lemma_children_concat(filter, ovr, pre, seq![cur]);
                    lemma_children_singleton(filter, ovr, cur);
                    lemma_errors_concat(filter, ovr, pre, seq![cur]);
                    lemma_errors_singleton(filter, ovr, cur);
                    lemma_nested_concat(pre, seq![cur]);
                    lemma_nested_singleton(cur);
                }
                match &items[i] {
                    Packet::Message(m) => {
                        match translate(cfg, m) {
                            Ok(e) => {
                                buf.push(e);
                                n = n + 1;
                            },
                            Err(err) => {
                                dropped.push(err);
                            },
                        }
                    },
                    Packet::Bundle(_) => {
                        // A doubly nested bundle: depth is capped at one, so
                        // its contents are dropped whole.
                        skipped = skipped + 1;
                    },
                }
                proof {
                    assert(buf@ =~= base + spec_events_of_children(
                        filter,
                        ovr,
                        items@.take(i as int + 1),
                    ));
                    assert(dropped@ =~= spec_errors_of_children(
                        filter,
                        ovr,
                        items@.take(i as int + 1),
                    ));
                }
                i = i + 1;
            }
            proof {
                assert(items@.take(items@.len() as int) =~= items@);
            }
            IngestOutcome { queued: n, dropped, nested_skipped: skipped }
        },
    }
}

} // verus!
