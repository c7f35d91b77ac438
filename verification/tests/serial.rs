use mysensors::gateway::message::{Command, Internal, Kind, Message, PayloadType, Sensor};
use mysensors::gateway::serial::{decode, encode, MalformedStringError};

fn message(command: Command, payload: PayloadType) -> Message {
    Message { node_id: 7, child_sensor_id: 9, command, ack: false, payload }
}

#[test]
fn can_encode() {
    let msg = Message {
        node_id: 0,
        child_sensor_id: 0,
        command: Command::Presentation(Sensor::Door),
        ack: false,
        payload: PayloadType::Int(0),
    };
    let msg_str = encode(&msg);
    assert_eq!(msg_str, "0;0;0;0;0;0\n");
}

#[test]
fn can_encode_last_sensor() {
    let msg = Message {
        node_id: 2,
        child_sensor_id: 3,
        command: Command::Presentation(Sensor::WaterQuality),
        ack: false,
        payload: PayloadType::Int(5),
    };
    let msg_str = encode(&msg);
    assert_eq!(msg_str, "2;3;0;0;39;5\n");
}

#[test]
fn can_encode_last_payload() {
    let msg = Message {
        node_id: 4,
        child_sensor_id: 2,
        command: Command::SetValue(Kind::PowerFactor),
        ack: true,
        payload: PayloadType::Float(2.5f32.to_string()),
    };
    let msg_str = encode(&msg);
    assert_eq!(msg_str, "4;2;1;1;56;2.5\n");
}

#[test]
fn can_decode() {
    let msg_str = "0;0;0;0;0;0\n";
    let msg = decode(&msg_str).unwrap();
    let expected = Message {
        node_id: 0,
        child_sensor_id: 0,
        command: Command::Presentation(Sensor::Door),
        ack: false,
        payload: PayloadType::Int(0),
    };
    assert_eq!(msg, expected);
}

#[test]
fn can_decode_last_sensor() {
    let msg_str = "2;3;0;0;39;5\n";
    let msg = decode(&msg_str).unwrap();
    let expected = Message {
        node_id: 2,
        child_sensor_id: 3,
        command: Command::Presentation(Sensor::WaterQuality),
        ack: false,
        payload: PayloadType::Int(5),
    };
    assert_eq!(msg, expected);
    assert_eq!(encode(&msg), msg_str);
}

#[test]
fn can_decode_last_payload() {
    let msg_str = "4;2;1;1;56;2.5\n";
    let msg = decode(&msg_str).unwrap();
    let expected = Message {
        node_id: 4,
        child_sensor_id: 2,
        command: Command::SetValue(Kind::PowerFactor),
        ack: true,
        payload: PayloadType::Float(2.5f32.to_string()),
    };
    assert_eq!(msg, expected);
    match msg.payload {
        PayloadType::Float(literal) => assert_eq!(literal.parse::<f32>().unwrap(), 2.5f32),
        _ => panic!("Should be a float!"),
    }
}

#[test]
fn doesnt_decode_malformed_string() {
    let msg_str = "trait-based generics";
    let msg = decode(msg_str);
    match msg {
        Ok(_) => panic!("Should return error!"),
        Err(e) => assert_eq!(e.to_string(), "Malformed string: trait-based generics"),
    }
}

#[test]
fn doesnt_decode_types_out_of_range() {
    let msg_str = "999;999;999;999;999;999\n";
    let msg = decode(msg_str);
    match msg {
        Ok(_) => panic!("Should return error!"),
        Err(e) => assert_eq!(
            e.to_string(),
            "Malformed string: 999;999;999;999;999;999\n"
        ),
    }
}

#[test]
fn error_keeps_the_line_and_describes_itself() {
    let e = MalformedStringError::new("1;2");
    assert_eq!(e.to_string(), "Malformed string: 1;2");
    assert_eq!(e.description(), "Malformed string");
}

#[test]
fn sensor_codes_at_the_edges() {
    assert_eq!(Sensor::from_u32(0), Some(Sensor::Door));
    assert_eq!(Sensor::from_u32(39), Some(Sensor::WaterQuality));
    assert_eq!(Sensor::from_u32(40), None);
    assert_eq!(Sensor::from_u32(u32::MAX), None);
    assert_eq!(Sensor::Door.to_u32(), 0);
    assert_eq!(Sensor::WaterQuality.to_u32(), 39);
}

#[test]
fn kind_codes_at_the_edges() {
    assert_eq!(Kind::from_u32(0), Some(Kind::Temperature));
    assert_eq!(Kind::from_u32(56), Some(Kind::PowerFactor));
    assert_eq!(Kind::from_u32(57), None);
    assert_eq!(Kind::Temperature.to_u32(), 0);
    assert_eq!(Kind::PowerFactor.to_u32(), 56);
}

#[test]
fn internal_codes_at_the_edges() {
    assert_eq!(Internal::from_u32(0), Some(Internal::BatteryLevel));
    assert_eq!(Internal::from_u32(28), Some(Internal::Debug));
    assert_eq!(Internal::from_u32(29), None);
    assert_eq!(Internal::BatteryLevel.to_u32(), 0);
    assert_eq!(Internal::Debug.to_u32(), 28);
}

#[test]
fn every_code_gives_back_its_value() {
    for n in 0..40u32 {
        assert_eq!(Sensor::from_u32(n).unwrap().to_u32(), n);
    }
    for n in 0..57u32 {
        assert_eq!(Kind::from_u32(n).unwrap().to_u32(), n);
    }
    for n in 0..29u32 {
        assert_eq!(Internal::from_u32(n).unwrap().to_u32(), n);
    }
}

#[test]
fn codes_in_the_middle_of_the_tables() {
    assert_eq!(Sensor::from_u32(6), Some(Sensor::Temperature));
    assert_eq!(Sensor::from_u32(23), Some(Sensor::Custom));
    assert_eq!(Kind::from_u32(17), Some(Kind::Watt));
    assert_eq!(Kind::from_u32(47), Some(Kind::Text));
    assert_eq!(Internal::from_u32(11), Some(Internal::SketchName));
    assert_eq!(Internal::from_u32(12), Some(Internal::SketchVersion));
    assert_eq!(Internal::from_u32(19), Some(Internal::Presentation));
}

#[test]
fn command_codes_both_ways() {
    assert_eq!(Command::Presentation(Sensor::Motion).encode(), (0, 1));
    assert_eq!(Command::SetValue(Kind::Humidity).encode(), (1, 1));
    assert_eq!(Command::Req(Kind::Status).encode(), (2, 2));
    assert_eq!(Command::Internal(Internal::SketchName).encode(), (3, 11));
    assert_eq!(Command::Stream.encode(), (4, 0));
    assert_eq!(Command::decode((0, 1)), Some(Command::Presentation(Sensor::Motion)));
    assert_eq!(Command::decode((1, 1)), Some(Command::SetValue(Kind::Humidity)));
    assert_eq!(Command::decode((2, 2)), Some(Command::Req(Kind::Status)));
    assert_eq!(Command::decode((3, 11)), Some(Command::Internal(Internal::SketchName)));
    assert_eq!(Command::decode((4, 0)), Some(Command::Stream));
    assert_eq!(Command::decode((4, 77)), Some(Command::Stream));
    assert_eq!(Command::decode((5, 0)), None);
    assert_eq!(Command::decode((0, 40)), None);
    assert_eq!(Command::decode((1, 57)), None);
    assert_eq!(Command::decode((2, 57)), None);
    assert_eq!(Command::decode((3, 29)), None);
}

#[test]
fn decodes_the_last_value_of_each_vocabulary_and_not_the_next() {
    assert_eq!(
        decode("1;1;0;0;39;x\n").unwrap().command,
        Command::Presentation(Sensor::WaterQuality)
    );
    assert!(decode("1;1;0;0;40;x\n").is_err());
    assert_eq!(decode("1;1;1;0;56;x\n").unwrap().command, Command::SetValue(Kind::PowerFactor));
    assert!(decode("1;1;1;0;57;x\n").is_err());
    assert_eq!(decode("1;1;2;0;56;x\n").unwrap().command, Command::Req(Kind::PowerFactor));
    assert!(decode("1;1;2;0;57;x\n").is_err());
    assert_eq!(decode("1;1;3;0;28;x\n").unwrap().command, Command::Internal(Internal::Debug));
    assert!(decode("1;1;3;0;29;x\n").is_err());
    assert_eq!(decode("1;1;4;0;0;x\n").unwrap().command, Command::Stream);
    assert_eq!(decode("1;1;4;0;9;x\n").unwrap().command, Command::Stream);
    assert!(decode("1;1;5;0;0;x\n").is_err());
}

#[test]
fn encodes_the_first_and_last_value_of_each_vocabulary() {
    assert_eq!(encode(&message(Command::Presentation(Sensor::Door), PayloadType::Int(1))), "7;9;0;0;0;1\n");
    assert_eq!(encode(&message(Command::SetValue(Kind::Temperature), PayloadType::Int(1))), "7;9;1;0;0;1\n");
    assert_eq!(encode(&message(Command::Req(Kind::PowerFactor), PayloadType::Int(1))), "7;9;2;0;56;1\n");
    assert_eq!(encode(&message(Command::Internal(Internal::BatteryLevel), PayloadType::Int(1))), "7;9;3;0;0;1\n");
    assert_eq!(encode(&message(Command::Internal(Internal::Debug), PayloadType::Int(1))), "7;9;3;0;28;1\n");
    assert_eq!(encode(&message(Command::Stream, PayloadType::Int(1))), "7;9;4;0;0;1\n");
}

#[test]
fn numbers_are_written_in_decimal() {
    let msg = Message {
        node_id: u32::MAX,
        child_sensor_id: 1000,
        command: Command::SetValue(Kind::Var1),
        ack: true,
        payload: PayloadType::Int(90210),
    };
    assert_eq!(encode(&msg), "4294967295;1000;1;1;24;90210\n");
    assert_eq!(decode("4294967295;1000;1;1;24;90210\n").unwrap(), msg);
}

#[test]
fn a_string_payload_is_written_as_it_is() {
    let msg = message(Command::Internal(Internal::SketchName), PayloadType::Str("Door bell".to_string()));
    assert_eq!(encode(&msg), "7;9;3;0;11;Door bell\n");
    assert_eq!(decode("7;9;3;0;11;Door bell\n").unwrap(), msg);
}

#[test]
fn round_trip_of_each_kind_of_payload() {
    let payloads = vec![
        PayloadType::Int(0),
        PayloadType::Int(42),
        PayloadType::Int(u32::MAX),
        PayloadType::Float("2.5".to_string()),
        PayloadType::Float("-17".to_string()),
        PayloadType::Float("1e-3".to_string()),
        PayloadType::Float("NaN".to_string()),
        PayloadType::Str(String::new()),
        PayloadType::Str("on".to_string()),
        PayloadType::Str("1.0.2".to_string()),
        PayloadType::Str("caf\u{e9} \u{2603}".to_string()),
    ];
    let commands = vec![
        Command::Presentation(Sensor::Temperature),
        Command::SetValue(Kind::Text),
        Command::Req(Kind::Watt),
        Command::Internal(Internal::SketchVersion),
        Command::Stream,
    ];
    for payload in payloads.iter() {
        for command in commands.iter() {
            for ack in [false, true] {
                let msg = Message {
                    node_id: 12,
                    child_sensor_id: 255,
                    command: *command,
                    ack,
                    payload: payload.clone(),
                };
                assert_eq!(decode(&encode(&msg)).unwrap(), msg);
            }
        }
    }
}

#[test]
fn some_payloads_do_not_come_back_as_they_went() {
    let looks_like_a_number = message(Command::SetValue(Kind::Text), PayloadType::Str("5".to_string()));
    assert_eq!(decode(&encode(&looks_like_a_number)).unwrap().payload, PayloadType::Int(5));
    let whole_float = message(Command::SetValue(Kind::Temperature), PayloadType::Float(2.0f32.to_string()));
    assert_eq!(encode(&whole_float), "7;9;1;0;0;2\n");
    assert_eq!(decode(&encode(&whole_float)).unwrap().payload, PayloadType::Int(2));
    let padded = message(Command::SetValue(Kind::Text), PayloadType::Str(" a ".to_string()));
    assert_eq!(decode(&encode(&padded)).unwrap().payload, PayloadType::Str("a".to_string()));
    let divided = message(Command::SetValue(Kind::Text), PayloadType::Str("a;b".to_string()));
    assert!(decode(&encode(&divided)).is_err());
}

#[test]
fn the_acknowledge_flag_is_set_by_any_number_but_zero() {
    assert!(!decode("1;2;1;0;0;5\n").unwrap().ack);
    assert!(decode("1;2;1;1;0;5\n").unwrap().ack);
    assert!(decode("1;2;1;7;0;5\n").unwrap().ack);
    assert!(decode("1;2;1;4294967295;0;5\n").unwrap().ack);
}

#[test]
fn a_line_needs_exactly_six_fields() {
    for line in ["", "\n", "1", "1;2;1;0;0", "1;2;1;0;0\n", ";;;;", "1;2;1;0;0;5;6\n", "1;2;1;0;0;a;b\n", "1;2;1;0;0;5;"] {
        match decode(line) {
            Ok(_) => panic!("Should return error!"),
            Err(e) => assert_eq!(e.to_string(), format!("Malformed string: {}", line)),
        }
    }
    assert!(decode("1;2;1;0;0;").is_ok());
}

#[test]
fn a_number_field_holds_an_unsigned_number_and_nothing_else() {
    for line in [
        "a;2;1;0;0;5\n",
        "1;b;1;0;0;5\n",
        "1;2;c;0;0;5\n",
        "1;2;1;d;0;5\n",
        "1;2;1;0;e;5\n",
        ";2;1;0;0;5\n",
        "1;;1;0;0;5\n",
        "-1;2;1;0;0;5\n",
        " 1;2;1;0;0;5\n",
        "1 ;2;1;0;0;5\n",
        "1.0;2;1;0;0;5\n",
        "+;2;1;0;0;5\n",
        "++1;2;1;0;0;5\n",
        "4294967296;2;1;0;0;5\n",
        "99999999999999999999;2;1;0;0;5\n",
        "0x1;2;1;0;0;5\n",
        "\u{663};2;1;0;0;5\n",
    ] {
        match decode(line) {
            Ok(_) => panic!("Should return error!"),
            Err(e) => assert_eq!(e.to_string(), format!("Malformed string: {}", line)),
        }
    }
    let msg = decode("+1;002;01;+0;00000000000000000047;5\n").unwrap();
    assert_eq!(msg.node_id, 1);
    assert_eq!(msg.child_sensor_id, 2);
    assert_eq!(msg.command, Command::SetValue(Kind::Text));
    assert!(!msg.ack);
}

#[test]
fn the_payload_is_read_without_the_white_space_around_it() {
    assert_eq!(decode("1;2;1;0;0; 12 \r\n").unwrap().payload, PayloadType::Int(12));
    assert_eq!(decode("1;2;1;0;0;\t2.5\n").unwrap().payload, PayloadType::Float("2.5".to_string()));
    assert_eq!(decode("1;2;1;0;0;  a b  \n").unwrap().payload, PayloadType::Str("a b".to_string()));
    assert_eq!(decode("1;2;1;0;0;\n").unwrap().payload, PayloadType::Str(String::new()));
    assert_eq!(decode("1;2;1;0;0; \n").unwrap().payload, PayloadType::Str(String::new()));
    assert_eq!(decode("1;2;1;0;0;7").unwrap().payload, PayloadType::Int(7));
    assert_eq!(
        decode("1;2;1;0;0;\u{a0}\u{2003}x\u{3000}\u{85}\n").unwrap().payload,
        PayloadType::Str("x".to_string())
    );
}

#[test]
fn white_space_is_what_the_standard_library_trims() {
    for code in 0..0x3100u32 {
        if let Some(c) = char::from_u32(code) {
            if c == ';' {
                continue;
            }
            let line = format!("1;2;1;0;47;{}word{}", c, c);
            let expected = format!("{}word{}", c, c).trim().to_string();
            assert_eq!(decode(&line).unwrap().payload, PayloadType::Str(expected));
        }
    }
}

#[test]
fn a_payload_is_an_integer_before_a_float_before_a_string() {
    assert_eq!(PayloadType::decode("5"), PayloadType::Int(5));
    assert_eq!(PayloadType::decode("+5"), PayloadType::Int(5));
    assert_eq!(PayloadType::decode("007"), PayloadType::Int(7));
    assert_eq!(PayloadType::decode("4294967295"), PayloadType::Int(u32::MAX));
    assert_eq!(PayloadType::decode("4294967296"), PayloadType::Float("4294967296".to_string()));
    assert_eq!(PayloadType::decode("-5"), PayloadType::Float("-5".to_string()));
    assert_eq!(PayloadType::decode("5.0"), PayloadType::Float("5.0".to_string()));
    assert_eq!(PayloadType::decode("five"), PayloadType::Str("five".to_string()));
    assert_eq!(PayloadType::decode(""), PayloadType::Str(String::new()));
    assert_eq!(PayloadType::decode(" 5"), PayloadType::Str(" 5".to_string()));
}

#[test]
fn a_float_is_what_the_standard_library_reads_as_one() {
    let texts = [
        "", "+", "-", ".", "+.", "-.", "e", "e5", "E5", ".e5", "1e", "1e+", "1e-", "1E", "1e5",
        "1E5", "1e+5", "1e-5", "1.e5", "1.5e5", ".5e5", ".5E-05", "1.", ".5", "1.5", "+1.5",
        "-1.5", "+-1.5", "--1", "++1", "1.5.5", "1..5", "1e5e5", "1e5.5", "1e5.", "0", "-0",
        "0.0", "00.00", "1_000", "1,5", "0x10", "1f", "1.0f32", "inf", "INF", "Inf", "+inf",
        "-inf", "infinity", "INFINITY", "Infinity", "-Infinity", "+iNfInItY", "infinit",
        "infinityy", "in", "nan", "NaN", "NAN", "+nan", "-NaN", "nan1", "1nan", "na", " 1.5",
        "1.5 ", "1 .5", "1e 5", "\u{663}.5", "1.\u{663}", "\u{ff11}", "1\u{e9}", "123456789012345678901234567890",
        "0.000000000000000000000000000000000000000000000000000001", "1e999", "-1e-999",
        "12345678901234567890e12345678901234567890", "i", "n", "\u{207f}an", "\u{131}nf", "\u{130}nf", "nAn", "iNF",
        "@nf", "in\u{46}", "\u{49}\u{4e}\u{66}", "[nf", "`nf", "{nf", "i^f", "\u{69}\u{6e}\u{26}",
    ];
    for text in texts {
        let expected = if let Ok(n) = text.parse::<u32>() {
            PayloadType::Int(n)
        } else if text.parse::<f32>().is_ok() {
            PayloadType::Float(text.to_string())
        } else {
            PayloadType::Str(text.to_string())
        };
        assert_eq!(PayloadType::decode(text), expected, "for {:?}", text);
    }
}

#[test]
fn an_integer_is_what_the_standard_library_reads_as_one() {
    let texts = [
        "0", "1", "9", "10", "+0", "-0", "+", "-", "", "00", "4294967295", "4294967296",
        "04294967295", "42949672950", "18446744073709551616", "1a", "a1", "1 ", "\u{661}", "1.0", "+ 1",
        "1+", "/1", ":1", "1/", "1:",
    ];
    for text in texts {
        assert_eq!(
            matches!(PayloadType::decode(text), PayloadType::Int(_)),
            text.parse::<u32>().is_ok(),
            "for {:?}",
            text
        );
        if let Ok(n) = text.parse::<u32>() {
            assert_eq!(PayloadType::decode(text), PayloadType::Int(n));
        }
    }
}

#[test]
fn the_text_of_a_payload() {
    assert_eq!(PayloadType::Int(15).to_string(), "15");
    assert_eq!(PayloadType::Int(0).to_string(), "0");
    assert_eq!(PayloadType::Int(u32::MAX).to_string(), "4294967295");
    assert_eq!(PayloadType::Float("2.5".to_string()).to_string(), "2.5");
    assert_eq!(PayloadType::Str("abc".to_string()).to_string(), "abc");
    assert_eq!(PayloadType::Str("abc".to_string()).get_str(), "abc");
    assert_eq!(PayloadType::Int(15).get_str(), "");
    assert_eq!(PayloadType::Float("2.5".to_string()).get_str(), "");
}

#[test]
fn payloads_are_the_same_when_variant_and_value_are() {
    assert!(PayloadType::Int(1).same(&PayloadType::Int(1)));
    assert!(!PayloadType::Int(1).same(&PayloadType::Int(2)));
    assert!(!PayloadType::Int(1).same(&PayloadType::Str("1".to_string())));
    assert!(PayloadType::Str("a".to_string()).same(&PayloadType::Str("a".to_string())));
    assert!(!PayloadType::Str("a".to_string()).same(&PayloadType::Str("b".to_string())));
    assert!(PayloadType::Float("1.5".to_string()).same(&PayloadType::Float("1.5".to_string())));
    assert!(!PayloadType::Float("1.5".to_string()).same(&PayloadType::Str("1.5".to_string())));
    assert_eq!(PayloadType::Str("a".to_string()).clone(), PayloadType::Str("a".to_string()));
}
