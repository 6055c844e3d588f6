use osc_bridge::args::OscArg;
use osc_bridge::buffer::Buffer;
use osc_bridge::config::{Config, Mode, Schema};
use osc_bridge::decode::ingest_datagram;
use osc_bridge::event::{event_id, HighlightEvent};
use osc_bridge::translate::{translate, OscMsg, SchemaError};
use osc_bridge::wire::{encode_event, serial_step, tick};

fn default_config() -> Config {
    Config::new_default()
}

fn sample_event(start_row: i32, start_col: i32) -> HighlightEvent {
    HighlightEvent {
        stream_id: 1,
        start_row,
        start_col,
        end_row: start_row,
        end_col: start_col + 1,
        duration_bits: 0.5f32.to_bits(),
        sound_name: None,
    }
}

fn extended_args(orbit: i32, delta: f32, start_pos: i32, end_pos: i32, sound: &str) -> Vec<OscArg> {
    vec![
        OscArg::Text(sound.to_string()),
        OscArg::Float(0.5625f32.to_bits()),
        OscArg::Float(120.25f32.to_bits()),
        OscArg::Int(orbit),
        OscArg::Float(delta.to_bits()),
        OscArg::Int(start_pos),
        OscArg::Int(end_pos),
    ]
}

fn extended_datagram(addr: &str, orbit: i32, delta: f32, start_pos: i32, end_pos: i32, sound: &str) -> Vec<u8> {
    let msg = rosc::OscMessage {
        addr: addr.to_string(),
        args: vec![
            rosc::OscType::String(sound.to_string()),
            rosc::OscType::Float(0.5625),
            rosc::OscType::Float(120.25),
            rosc::OscType::Int(orbit),
            rosc::OscType::Float(delta),
            rosc::OscType::Int(start_pos),
            rosc::OscType::Int(end_pos),
        ],
    };
    rosc::encoder::encode(&rosc::OscPacket::Message(msg)).unwrap()
}

fn queued_count(r: Option<osc_bridge::packet::IngestOutcome>) -> usize {
    r.expect("datagram should decode").queued
}

fn decoded_message(bytes: &[u8]) -> rosc::OscMessage {
    match rosc::decoder::decode_udp(bytes).unwrap().1 {
        rosc::OscPacket::Message(m) => m,
        rosc::OscPacket::Bundle(_) => panic!("expected a message"),
    }
}

#[test]
fn extended_schema_derivation() {
    let cfg = default_config();
    let msg = OscMsg {
        addr: "/editor/highlights".to_string(),
        args: extended_args(2, 0.5, 10, 20, "bd"),
    };
    let e = translate(&cfg, &msg).unwrap();
    assert_eq!(e.stream_id, 3);
    assert_eq!(e.start_row, 0);
    assert_eq!(e.end_row, 0);
    assert_eq!(e.start_col, 10);
    assert_eq!(e.end_col, 20);
    assert_eq!(e.duration_bits, 0.5f32.to_bits());
    assert_eq!(e.sound_name.as_deref(), Some("bd"));
}

#[test]
fn canonical_schema_copies_verbatim() {
    let cfg = default_config();
    let msg = OscMsg {
        addr: "/editor/highlights".to_string(),
        args: vec![
            OscArg::Int(5),
            OscArg::Int(0),
            OscArg::Int(3),
            OscArg::Int(0),
            OscArg::Int(8),
            OscArg::Float(1.25f32.to_bits()),
        ],
    };
    let e = translate(&cfg, &msg).unwrap();
    assert_eq!(e.stream_id, 5);
    assert_eq!(e.start_row, 0);
    assert_eq!(e.start_col, 3);
    assert_eq!(e.end_row, 0);
    assert_eq!(e.end_col, 8);
    assert_eq!(e.duration_bits, 1.25f32.to_bits());
    assert_eq!(e.sound_name, None);
}

#[test]
fn address_filter_drops_foreign_messages() {
    let cfg = default_config();
    let msg = OscMsg {
        addr: "/foo".to_string(),
        args: extended_args(2, 0.5, 10, 20, "bd"),
    };
    assert_eq!(translate(&cfg, &msg), Err(SchemaError::AddressMismatch));

    // End to end: a datagram to /foo buffers nothing and forwards nothing.
    let mut buf = Buffer::new();
    let data = extended_datagram("/foo", 2, 0.5, 10, 20, "bd");
    let outcome = ingest_datagram(&cfg, &data, &mut buf).unwrap();
    assert_eq!(outcome.queued, 0);
    assert_eq!(outcome.dropped, vec![SchemaError::AddressMismatch]);
    assert_eq!(outcome.nested_skipped, 0);
    assert_eq!(buf.len(), 0);
    let outs = tick(&cfg, &mut buf);
    assert_eq!(outs.len(), 0);
}

#[test]
fn double_arguments_are_accepted_and_narrowed() {
    let cfg = default_config();
    let msg = OscMsg {
        addr: "/editor/highlights".to_string(),
        args: vec![
            OscArg::Text("bd".to_string()),
            OscArg::Double(0.5625f64.to_bits()),
            OscArg::Double(120.25f64.to_bits()),
            OscArg::Double(2.0f64.to_bits()),
            OscArg::Double(0.5f64.to_bits()),
            OscArg::Double(10.9f64.to_bits()),
            OscArg::Double(20.2f64.to_bits()),
        ],
    };
    let e = translate(&cfg, &msg).unwrap();
    assert_eq!(e.stream_id, 3);
    assert_eq!(e.start_col, 10); // truncation toward zero
    assert_eq!(e.end_col, 20);
    assert_eq!(e.duration_bits, 0.5f32.to_bits()); // narrowed, no error
}

#[test]
fn numeric_coercion_is_not_identity() {
    // A float argument in an integer slot truncates: the result is the
    // numeric value, not the stored bit pattern.
    let a = OscArg::Float(2.9f32.to_bits());
    assert_eq!(osc_bridge::args::arg_to_int(&a), Some(2));
    // An integer argument in a float slot rounds to the float's bits.
    let b = OscArg::Int(2);
    assert_eq!(osc_bridge::args::arg_to_float_bits(&b), Some(2.0f32.to_bits()));
    // A long keeps its low 32 bits, as the wire format's consumers expect
    // of an `as` narrowing: two's-complement wrap.
    let c = OscArg::Long(i64::MAX);
    assert_eq!(osc_bridge::args::arg_to_int(&c), Some(-1));
    let w = OscArg::Long((1i64 << 32) + 5);
    assert_eq!(osc_bridge::args::arg_to_int(&w), Some(5));
    // A long in a float slot rounds to the float's bits.
    let d = OscArg::Long(3);
    assert_eq!(osc_bridge::args::arg_to_float_bits(&d), Some(3.0f32.to_bits()));
    // A double in a float slot narrows to the nearest 32-bit float.
    let e = OscArg::Double(0.1f64.to_bits());
    assert_eq!(osc_bridge::args::arg_to_float_bits(&e), Some((0.1f64 as f32).to_bits()));
}

#[test]
fn batch_preserves_enqueue_order() {
    let cfg = default_config();
    let mut buf = Buffer::new();
    for orbit in 0..5 {
        let data = extended_datagram("/editor/highlights", orbit, 0.5, orbit, orbit + 1, "bd");
        assert_eq!(queued_count(ingest_datagram(&cfg, &data, &mut buf)), 1);
    }
    assert_eq!(buf.len(), 5);
    let outs = tick(&cfg, &mut buf);
    assert_eq!(outs.len(), 5);
    assert_eq!(buf.len(), 0);
    for (i, bytes) in outs.iter().enumerate() {
        let m = decoded_message(bytes);
        assert_eq!(m.addr, "/editor/highlights");
        assert_eq!(m.args[0], rosc::OscType::Int(i as i32 + 1));
    }
}

#[test]
fn empty_tick_forwards_nothing() {
    let cfg = default_config();
    let mut buf = Buffer::new();
    let outs = tick(&cfg, &mut buf);
    assert_eq!(outs.len(), 0);
    assert_eq!(buf.len(), 0);
}

#[test]
fn malformed_datagram_is_dropped_and_stream_continues() {
    let cfg = default_config();
    let mut buf = Buffer::new();
    let garbage: Vec<u8> = vec![0x13, 0x37, 0xff, 0x00, 0x42, 0x99, 0x01];
    assert!(ingest_datagram(&cfg, &garbage, &mut buf).is_none());
    assert_eq!(buf.len(), 0);
    // The next well-formed datagram is processed normally.
    let data = extended_datagram("/editor/highlights", 0, 0.25, 1, 2, "sn");
    assert_eq!(queued_count(ingest_datagram(&cfg, &data, &mut buf)), 1);
    assert_eq!(buf.len(), 1);
}

#[test]
fn event_id_derivation() {
    let a = sample_event(0, 7);
    assert_eq!(event_id(&a), 7);
    let b = sample_event(2, 3);
    assert_eq!(event_id(&b), 2003);
}

#[test]
fn outbound_layout_is_fixed_six_slots() {
    let e = HighlightEvent {
        stream_id: 3,
        start_row: 2,
        start_col: 10,
        end_row: 2,
        end_col: 20,
        duration_bits: 0.5f32.to_bits(),
        sound_name: Some("bd".to_string()),
    };
    let bytes = encode_event("/editor/highlights", &e);
    let m = decoded_message(&bytes);
    assert_eq!(m.addr, "/editor/highlights");
    assert_eq!(m.args.len(), 6);
    assert_eq!(m.args[0], rosc::OscType::Int(3));
    assert_eq!(m.args[1], rosc::OscType::Float(0.5));
    assert_eq!(m.args[2], rosc::OscType::Float(1.0));
    assert_eq!(osc_bridge::wire::CYCLE_ONE_BITS, 1.0f32.to_bits());
    assert_eq!(m.args[3], rosc::OscType::Int(10));
    assert_eq!(m.args[4], rosc::OscType::Int(2010)); // 2 * 1000 + 10
    assert_eq!(m.args[5], rosc::OscType::Int(20));
}

#[test]
fn bundle_children_are_processed_and_nesting_is_capped() {
    let cfg = default_config();
    let inner_msg = |orbit: i32| {
        rosc::OscPacket::Message(rosc::OscMessage {
            addr: "/editor/highlights".to_string(),
            args: vec![
                rosc::OscType::String("bd".to_string()),
                rosc::OscType::Float(0.5625),
                rosc::OscType::Float(120.25),
                rosc::OscType::Int(orbit),
                rosc::OscType::Float(0.5),
                rosc::OscType::Int(1),
                rosc::OscType::Int(2),
            ],
        })
    };
    let nested = rosc::OscPacket::Bundle(rosc::OscBundle {
        timetag: rosc::OscTime { seconds: 0, fractional: 1 },
        content: vec![inner_msg(9)],
    });
    let bundle = rosc::OscPacket::Bundle(rosc::OscBundle {
        timetag: rosc::OscTime { seconds: 0, fractional: 1 },
        content: vec![inner_msg(0), nested, inner_msg(1)],
    });
    let data = rosc::encoder::encode(&bundle).unwrap();
    let mut buf = Buffer::new();
    // The doubly nested message is not processed: only the two direct ones,
    // and the skipped inner bundle is reported, so it can be logged.
    let outcome = ingest_datagram(&cfg, &data, &mut buf).unwrap();
    assert_eq!(outcome.queued, 2);
    assert_eq!(outcome.nested_skipped, 1);
    let outs = tick(&cfg, &mut buf);
    assert_eq!(outs.len(), 2);
    assert_eq!(decoded_message(&outs[0]).args[0], rosc::OscType::Int(1));
    assert_eq!(decoded_message(&outs[1]).args[0], rosc::OscType::Int(2));
}

#[test]
fn schema_errors_name_their_cause() {
    let cfg = default_config();
    let too_few = OscMsg {
        addr: "/editor/highlights".to_string(),
        args: vec![OscArg::Int(1), OscArg::Int(2)],
    };
    assert_eq!(translate(&cfg, &too_few), Err(SchemaError::ArgCount));

    let mut wrong_type_args = extended_args(2, 0.5, 10, 20, "bd");
    wrong_type_args[0] = OscArg::Int(1); // a number in the string slot
    let wrong_type = OscMsg {
        addr: "/editor/highlights".to_string(),
        args: wrong_type_args,
    };
    assert_eq!(translate(&cfg, &wrong_type), Err(SchemaError::ArgType));

    let mut text_in_numeric = extended_args(2, 0.5, 10, 20, "bd");
    text_in_numeric[3] = OscArg::Text("two".to_string());
    let wrong_numeric = OscMsg {
        addr: "/editor/highlights".to_string(),
        args: text_in_numeric,
    };
    assert_eq!(translate(&cfg, &wrong_numeric), Err(SchemaError::ArgType));
}

#[test]
fn schema_override_forces_layout() {
    let mut cfg = default_config();
    cfg.schema_override = Some(Schema::Canonical);
    // Seven arguments, but the override reads them canonically.
    let msg = OscMsg {
        addr: "/editor/highlights".to_string(),
        args: vec![
            OscArg::Int(5),
            OscArg::Int(1),
            OscArg::Int(3),
            OscArg::Int(1),
            OscArg::Int(8),
            OscArg::Float(1.25f32.to_bits()),
            OscArg::Int(99),
        ],
    };
    let e = translate(&cfg, &msg).unwrap();
    assert_eq!(e.stream_id, 5);
    assert_eq!(e.start_row, 1);

    cfg.schema_override = Some(Schema::Extended);
    let six = OscMsg {
        addr: "/editor/highlights".to_string(),
        args: vec![
            OscArg::Int(5),
            OscArg::Int(1),
            OscArg::Int(3),
            OscArg::Int(1),
            OscArg::Int(8),
            OscArg::Float(1.25f32.to_bits()),
        ],
    };
    assert_eq!(translate(&cfg, &six), Err(SchemaError::ArgCount));
}

#[test]
fn defaults_and_mode_selection() {
    let cfg = default_config();
    assert_eq!(cfg.listen_port, 6013);
    assert!(!cfg.debug);
    assert_eq!(cfg.filter_addr, "/editor/highlights");
    assert_eq!(cfg.outbound_port, 6011);
    assert_eq!(cfg.outbound_addr, "/editor/highlights");
    assert_eq!(cfg.batch_interval_ms, 10);
    assert_eq!(cfg.schema_override, None);
    assert_eq!(cfg.mode(), Mode::Batched(10));

    let mut serial = default_config();
    serial.batch_interval_ms = 0;
    assert_eq!(serial.mode(), Mode::Serial);
}

#[test]
fn buffer_is_fifo_and_drains_whole() {
    let mut buf = Buffer::new();
    assert!(buf.is_empty());
    buf.push(sample_event(0, 1));
    buf.push(sample_event(0, 2));
    buf.push(sample_event(0, 3));
    assert_eq!(buf.len(), 3);
    let drained = buf.drain_all();
    assert!(buf.is_empty());
    let cols: Vec<i32> = drained.iter().map(|e| e.start_col).collect();
    assert_eq!(cols, vec![1, 2, 3]);
}

#[test]
fn serial_step_forwards_without_buffering() {
    let cfg = default_config();
    let data = extended_datagram("/editor/highlights", 2, 0.5, 10, 20, "bd");
    let (outs, dropped, nested) = serial_step(&cfg, &data).unwrap();
    assert_eq!(outs.len(), 1);
    assert!(dropped.is_empty());
    assert_eq!(nested, 0);
    let m = decoded_message(&outs[0]);
    assert_eq!(m.args[0], rosc::OscType::Int(3));
    assert_eq!(m.args[1], rosc::OscType::Float(0.5));

    let garbage: Vec<u8> = vec![1, 2, 3, 4];
    assert!(serial_step(&cfg, &garbage).is_none());
}

#[test]
fn invariant_breaking_values_are_rejected() {
    let cfg = default_config();
    // A canonical stream number of 0 is below the one-indexed range.
    let zero_stream = OscMsg {
        addr: "/editor/highlights".to_string(),
        args: vec![
            OscArg::Int(0),
            OscArg::Int(0),
            OscArg::Int(3),
            OscArg::Int(0),
            OscArg::Int(8),
            OscArg::Float(1.25f32.to_bits()),
        ],
    };
    assert_eq!(translate(&cfg, &zero_stream), Err(SchemaError::InvalidValue));

    // A negative orbit would give a stream number below 1.
    let neg_orbit = OscMsg {
        addr: "/editor/highlights".to_string(),
        args: extended_args(-1, 0.5, 10, 20, "bd"),
    };
    assert_eq!(translate(&cfg, &neg_orbit), Err(SchemaError::InvalidValue));

    // A non-finite duration, supplied directly or narrowed from a double.
    let mut inf_args = extended_args(2, 0.5, 10, 20, "bd");
    inf_args[4] = OscArg::Float(f32::INFINITY.to_bits());
    let inf_duration = OscMsg {
        addr: "/editor/highlights".to_string(),
        args: inf_args,
    };
    assert_eq!(translate(&cfg, &inf_duration), Err(SchemaError::InvalidValue));

    let mut nan_args = extended_args(2, 0.5, 10, 20, "bd");
    nan_args[4] = OscArg::Double(f64::NAN.to_bits());
    let nan_duration = OscMsg {
        addr: "/editor/highlights".to_string(),
        args: nan_args,
    };
    assert_eq!(translate(&cfg, &nan_duration), Err(SchemaError::InvalidValue));

    // Every translated event satisfies the invariant.
    let ok = translate(&cfg, &OscMsg {
        addr: "/editor/highlights".to_string(),
        args: extended_args(0, 0.5, 10, 20, "bd"),
    })
    .unwrap();
    assert!(ok.stream_id >= 1);
    assert!(f32::from_bits(ok.duration_bits).is_finite());
}
