//! The translator: address-filters one decoded message, selects its schema,
//! validates argument count and types, and builds the canonical event.

use vstd::prelude::*;

use crate::args::{
    spec_arg_to_float_bits, spec_arg_to_int, spec_arg_to_text, spec_narrowed_not_finite,
    arg_to_float_bits, arg_to_int, arg_to_text, OscArg,
};
use crate::config::{Config, Schema};
use crate::event::{f32_bits_finite, spec_event_invariant, spec_f32_bits_finite, HighlightEvent};

verus! {

/// One decoded OSC message: its address and its positional arguments.
pub struct OscMsg {
    /// The message's OSC address, matched against the configured filter.
    pub addr: String,
    /// The positional arguments, in wire order.
    pub args: Vec<OscArg>,
}

/// Why a message was dropped instead of translated. Every variant is
/// per-message and non-fatal: the stream continues.
#[derive(Clone, Copy, Debug, PartialEq, Eq, Structural)]
pub enum SchemaError {
    /// The address differs from the configured filter; dropped silently.
    AddressMismatch,
    /// Too few positional arguments for any supported schema.
    ArgCount,
    /// A slot holds an argument of the wrong kind.
    ArgType,
    /// The values would break the event invariant: a stream number below 1
    /// or a non-finite duration.
    InvalidValue,
}

/// The schema a message of `n` positional arguments falls under when no
/// override is configured: seven or more select the extended schema, exactly
/// six the canonical one, fewer none.
pub open spec fn spec_schema_of_count(n: nat) -> Option<Schema> {
    if n >= 7 {
        Some(Schema::Extended)
    } else if n == 6 {
        Some(Schema::Canonical)
    } else {
        None
    }
}

/// The schema in force for a message: the configured override if any, else
/// the one its argument count selects.
pub open spec fn spec_schema_for(ovr: Option<Schema>, n: nat) -> Option<Schema> {
    match ovr {
        Some(s) => Some(s),
        None => spec_schema_of_count(n),
    }
}

/// The minimum argument count of a schema.
pub open spec fn spec_min_args(s: Schema) -> nat {
    match s {
        Schema::Extended => 7,
        Schema::Canonical => 6,
    }
}

/// Translation under the extended schema, given at least 7 arguments:
/// `sound_name:string, cps:float, cycle:float, orbit:int, delta:float,
/// start_pos:int, end_pos:int`. `cps` and `cycle` are validated as numeric
/// and discarded; rows default to 0; `stream_id` is `orbit + 1`. An orbit
/// below 0 or at `i32::MAX`, or a non-finite duration, would break the
/// event invariant and is rejected; a NaN double rejects whatever payload
/// its narrowing carries.
pub open spec fn spec_translate_extended(args: Seq<OscArg>) -> Result<HighlightEvent, SchemaError>
{
    if spec_arg_to_text(args[0]) is None || spec_arg_to_float_bits(args[1]) is None
        || spec_arg_to_float_bits(args[2]) is None || spec_arg_to_int(args[3]) is None
        || spec_arg_to_float_bits(args[4]) is None || spec_arg_to_int(args[5]) is None
        || spec_arg_to_int(args[6]) is None {
        Err(SchemaError::ArgType)
    } else {
        let orbit = spec_arg_to_int(args[3]).unwrap();
        if orbit < 0 || orbit == i32::MAX || spec_narrowed_not_finite(args[4]) {
            Err(SchemaError::InvalidValue)
        } else {
            Ok(
                HighlightEvent {
                    stream_id: (orbit + 1) as i32,
                    start_row: 0,
                    start_col: spec_arg_to_int(args[5]).unwrap(),
                    end_row: 0,
                    end_col: spec_arg_to_int(args[6]).unwrap(),
                    duration_bits: spec_arg_to_float_bits(args[4]).unwrap(),
                    sound_name: Some(spec_arg_to_text(args[0]).unwrap()),
                },
            )
        }
    }
}

/// Translation under the canonical schema, given at least 6 arguments:
/// `stream_id:int, start_row:int, start_col:int, end_row:int, end_col:int,
/// duration:float`. Fields are copied verbatim, with no derivation. A
/// stream number below 1 or a non-finite duration would break the event
/// invariant and is rejected.
pub open spec fn spec_translate_canonical(args: Seq<OscArg>) -> Result<HighlightEvent, SchemaError>
{
    if spec_arg_to_int(args[0]) is None || spec_arg_to_int(args[1]) is None
        || spec_arg_to_int(args[2]) is None || spec_arg_to_int(args[3]) is None
        || spec_arg_to_int(args[4]) is None || spec_arg_to_float_bits(args[5]) is None {
        Err(SchemaError::ArgType)
    } else {
        let stream_id = spec_arg_to_int(args[0]).unwrap();
        if stream_id < 1 || spec_narrowed_not_finite(args[5]) {
            Err(SchemaError::InvalidValue)
        } else {
            Ok(
                HighlightEvent {
                    stream_id,
                    start_row: spec_arg_to_int(args[1]).unwrap(),
                    start_col: spec_arg_to_int(args[2]).unwrap(),
                    end_row: spec_arg_to_int(args[3]).unwrap(),
                    end_col: spec_arg_to_int(args[4]).unwrap(),
                    duration_bits: spec_arg_to_float_bits(args[5]).unwrap(),
                    sound_name: None,
                },
            )
        }
    }
}

/// What translating one message yields: the canonical event, or the reason
/// the message is dropped. The address is matched first, by exact string
/// equality; then the schema in force checks its argument count and types.
pub open spec fn spec_translate(
    filter: Seq<char>,
    ovr: Option<Schema>,
    addr: Seq<char>,
    args: Seq<OscArg>,
) -> Result<HighlightEvent, SchemaError> {
    if addr != filter {
        Err(SchemaError::AddressMismatch)
    } else {
        match spec_schema_for(ovr, args.len()) {
            None => Err(SchemaError::ArgCount),
            Some(s) => if args.len() < spec_min_args(s) {
                Err(SchemaError::ArgCount)
            } else {
                match s {
                    Schema::Extended => spec_translate_extended(args),
                    Schema::Canonical => spec_translate_canonical(args),
                }
            },
        }
    }
}

/// The data-model law: every event a translation yields satisfies the
/// event invariant — its stream number is at least 1 and its duration is a
/// finite float. A message whose values would break the invariant is
/// rejected as `SchemaError::InvalidValue` instead of being enqueued.
pub proof fn lemma_translation_establishes_invariant(
    filter: Seq<char>,
    ovr: Option<Schema>,
    addr: Seq<char>,
    args: Seq<OscArg>,
)
    ensures
        spec_translate(filter, ovr, addr, args) matches Ok(e) ==> spec_event_invariant(e),
{
}

/// Translates one decoded message under a configuration, or says why it is
/// dropped. Success is owed exactly when the address equals the filter, the
/// schema in force has enough arguments, every slot is well-typed, and the
/// values satisfy the event invariant.
pub fn translate(cfg: &Config, msg: &OscMsg) -> (r: Result<HighlightEvent, SchemaError>)
    ensures
        r == spec_translate(cfg.filter_addr@, cfg.schema_override, msg.addr@, msg.args@),
        msg.addr@ != cfg.filter_addr@ <==> r == Err::<HighlightEvent, SchemaError>(
            SchemaError::AddressMismatch,
        ),
{
    if !(msg.addr == cfg.filter_addr) {
        return Err(SchemaError::AddressMismatch);
    }
    let schema = match cfg.schema_override {
        Some(s) => s,
        None => {
            if msg.args.len() >= 7 {
                Schema::Extended
            } else if msg.args.len() == 6 {
                Schema::Canonical
            } else {
                return Err(SchemaError::ArgCount);
            }
        },
    };
    match schema {
        Schema::Extended => {
            if msg.args.len() < 7 {
                return Err(SchemaError::ArgCount);
            }
            translate_extended(&msg.args)
        },
        Schema::Canonical => {
            if msg.args.len() < 6 {
                return Err(SchemaError::ArgCount);
            }
            translate_canonical(&msg.args)
        },
    }
}

/// Builds the event from the seven extended-schema slots.
fn translate_extended(args: &Vec<OscArg>) -> (r: Result<HighlightEvent, SchemaError>)
    requires
        args@.len() >= 7,
    ensures
        r == spec_translate_extended(args@),
{
    let sound_name = match arg_to_text(&args[0]) {
        Some(s) => s,
        None => { return Err(SchemaError::ArgType) },
    };
    if arg_to_float_bits(&args[1]).is_none() {
        return Err(SchemaError::ArgType);
    }
    if arg_to_float_bits(&args[2]).is_none() {
        return Err(SchemaError::ArgType);
    }
    let orbit = match arg_to_int(&args[3]) {
        Some(v) => v,
        None => { return Err(SchemaError::ArgType) },
    };
    let duration_bits = match arg_to_float_bits(&args[4]) {
        Some(v) => v,
        None => { return Err(SchemaError::ArgType) },
    };
    let start_col = match arg_to_int(&args[5]) {
        Some(v) => v,
        None => { return Err(SchemaError::ArgType) },
    };
    let end_col = match arg_to_int(&args[6]) {
        Some(v) => v,
        None => { return Err(SchemaError::ArgType) },
    };
    if orbit < 0 || orbit == i32::MAX || !f32_bits_finite(duration_bits) {
        return Err(SchemaError::InvalidValue);
    }
    Ok(
        HighlightEvent {
            stream_id: orbit + 1,
            start_row: 0,
            start_col,
            end_row: 0,
            end_col,
            duration_bits,
            sound_name: Some(sound_name),
        },
    )
}

/// Builds the event from the six canonical-schema slots.
fn translate_canonical(args: &Vec<OscArg>) -> (r: Result<HighlightEvent, SchemaError>)
    requires
        args@.len() >= 6,
    ensures
        r == spec_translate_canonical(args@),
{
    let stream_id = match arg_to_int(&args[0]) {
        Some(v) => v,
        None => { return Err(SchemaError::ArgType) },
    };
    let start_row = match arg_to_int(&args[1]) {
        Some(v) => v,
        None => { return Err(SchemaError::ArgType) },
    };
    let start_col = match arg_to_int(&args[2]) {
        Some(v) => v,
        None => { return Err(SchemaError::ArgType) },
    };
    let end_row = match arg_to_int(&args[3]) {
        Some(v) => v,
        None => { return Err(SchemaError::ArgType) },
    };
    let end_col = match arg_to_int(&args[4]) {
        Some(v) => v,
        None => { return Err(SchemaError::ArgType) },
    };
    let duration_bits = match arg_to_float_bits(&args[5]) {
        Some(v) => v,
        None => { return Err(SchemaError::ArgType) },
    };
    if stream_id < 1 || !f32_bits_finite(duration_bits) {
        return Err(SchemaError::InvalidValue);
    }
    Ok(
        HighlightEvent {
            stream_id,
            start_row,
            start_col,
            end_row,
            end_col,
            duration_bits,
            sound_name: None,
        },
    )
}

} // verus!
