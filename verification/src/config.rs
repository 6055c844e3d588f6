//! The configuration surface: ports, the inbound filter address, the
//! outbound address literal, the batch interval, and the schema selection.

use vstd::prelude::*;

verus! {

/// The two mutually exclusive inbound argument schemas.
#[derive(Clone, Copy, Debug, PartialEq, Eq, Structural)]
pub enum Schema {
    /// Seven positional arguments from the pattern runtime:
    /// `sound_name, cps, cycle, orbit, delta, start_pos, end_pos`.
    Extended,
    /// Six positional arguments already in canonical layout:
    /// `stream_id, start_row, start_col, end_row, end_col, duration`.
    Canonical,
}

/// The scheduling model the batch interval selects.
#[derive(Clone, Copy, Debug, PartialEq, Eq, Structural)]
pub enum Mode {
    /// A single loop alternates receive, translate and forward, unbuffered.
    Serial,
    /// A timer loop drains the buffer every given number of milliseconds.
    Batched(u64),
}

/// The values that configure the bridge, regardless of concrete syntax.
pub struct Config {
    /// UDP port the inbound socket listens on.
    pub listen_port: u16,
    /// Whether debug logging is enabled.
    pub debug: bool,
    /// Only inbound messages whose address equals this string are processed.
    pub filter_addr: String,
    /// UDP port the outbound datagrams are sent to, on the local host.
    pub outbound_port: u16,
    /// Address literal of every outbound message. The receiving plugin
    /// matches on exact string equality, so this must be spelled exactly as
    /// that plugin expects; a mismatch fails silently.
    pub outbound_addr: String,
    /// Batch interval in milliseconds; 0 selects the serial fallback mode.
    pub batch_interval_ms: u64,
    /// Forces one schema for every inbound message; `None` selects the
    /// schema per message by its positional argument count.
    pub schema_override: Option<Schema>,
}

/// The default inbound filter address.
pub open spec fn spec_default_filter() -> Seq<char> {
    "/editor/highlights"@
}

/// The default outbound address literal. This bridge forwards under the same
/// literal it listens on, which is what the receiving plugin matches.
pub open spec fn spec_default_outbound_addr() -> Seq<char> {
    "/editor/highlights"@
}

impl Config {
    /// The documented defaults: listen on 6013, no debug logging, filter
    /// `/editor/highlights`, forward to 6011 under the same literal, batch
    /// every 10 ms, schema selected per message by argument count.
    pub fn new_default() -> (r: Config)
        ensures
            r.listen_port == 6013,
            !r.debug,
            r.filter_addr@ == spec_default_filter(),
            r.outbound_port == 6011,
            r.outbound_addr@ == spec_default_outbound_addr(),
            r.batch_interval_ms == 10,
            r.schema_override is None,
    {
        Config {
            listen_port: 6013,
            debug: false,
            filter_addr: "/editor/highlights".to_owned(),
            outbound_port: 6011,
            outbound_addr: "/editor/highlights".to_owned(),
            batch_interval_ms: 10,
            schema_override: None,
        }
    }

    /// The scheduling model this configuration selects: a batch interval of
    /// 0 activates the serial fallback mode.
    pub fn mode(&self) -> (r: Mode)
        ensures
            self.batch_interval_ms == 0 ==> r == Mode::Serial,
            self.batch_interval_ms != 0 ==> r == Mode::Batched(self.batch_interval_ms),
    {
        if self.batch_interval_ms == 0 {
            Mode::Serial
        } else {
            Mode::Batched(self.batch_interval_ms)
        }
    }
}

} // verus!
