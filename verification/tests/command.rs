use veifka::command::{
    error_reply, lookup_command, parse_command, to_ascii_upper, unknown_command_reply,
};
use veifka::command::{Command, CommandKind};
use veifka::Frame;

fn bulk(bytes: &[u8]) -> Frame {
    Frame::BulkString(bytes.to_vec())
}

fn request(parts: &[&[u8]]) -> Frame {
    Frame::Array(parts.iter().map(|part| bulk(part)).collect())
}

fn error(text: &str) -> Frame {
    Frame::Error(text.to_string())
}

#[test]
fn names_are_matched_ignoring_case() {
    assert_eq!(lookup_command(b"PING"), Some(CommandKind::Ping));
    assert_eq!(lookup_command(b"ping"), Some(CommandKind::Ping));
    assert_eq!(lookup_command(b"PiNg"), Some(CommandKind::Ping));
    assert_eq!(lookup_command(b"set"), Some(CommandKind::SetKey));
    assert_eq!(lookup_command(b"Get"), Some(CommandKind::GetKey));
    assert_eq!(lookup_command(b"dEL"), Some(CommandKind::DelKeys));
    assert_eq!(lookup_command(b"exists"), Some(CommandKind::ExistsKey));
    assert_eq!(lookup_command(b"mGeT"), Some(CommandKind::MgetKeys));
}

#[test]
fn other_names_are_no_commands() {
    assert_eq!(lookup_command(b""), None);
    assert_eq!(lookup_command(b"FOO"), None);
    assert_eq!(lookup_command(b"PIN"), None);
    assert_eq!(lookup_command(b"PINGS"), None);
    assert_eq!(lookup_command(b"SET "), None);
    assert_eq!(lookup_command(b"GE\xd4"), None);
    // '@' + 0x20 is '`': only letters change case.
    assert_eq!(lookup_command(b"S\x25T"), None);
    assert_eq!(lookup_command(&[0x50, 0x49, 0x4e, 0x27]), None);
}

#[test]
fn only_ascii_lower_case_letters_are_raised() {
    assert_eq!(to_ascii_upper(b'a'), b'A');
    assert_eq!(to_ascii_upper(b'z'), b'Z');
    assert_eq!(to_ascii_upper(b'm'), b'M');
    assert_eq!(to_ascii_upper(b'A'), b'A');
    assert_eq!(to_ascii_upper(b'Z'), b'Z');
    assert_eq!(to_ascii_upper(b'`'), b'`');
    assert_eq!(to_ascii_upper(b'{'), b'{');
    assert_eq!(to_ascii_upper(b'0'), b'0');
    assert_eq!(to_ascii_upper(0xe9), 0xe9);
    for b in 0..=255u8 {
        assert_eq!(to_ascii_upper(b), b.to_ascii_uppercase());
    }
}

#[test]
fn command_names_and_arities() {
    assert_eq!(CommandKind::Ping.name_text(), "PING");
    assert_eq!(CommandKind::SetKey.name_text(), "SET");
    assert_eq!(CommandKind::GetKey.name_text(), "GET");
    assert_eq!(CommandKind::DelKeys.name_text(), "DEL");
    assert_eq!(CommandKind::ExistsKey.name_text(), "EXISTS");
    assert_eq!(CommandKind::MgetKeys.name_text(), "MGET");

    assert!(CommandKind::Ping.arity_ok(0));
    assert!(CommandKind::Ping.arity_ok(3));
    assert!(CommandKind::SetKey.arity_ok(2));
    assert!(!CommandKind::SetKey.arity_ok(1));
    assert!(!CommandKind::SetKey.arity_ok(3));
    assert!(CommandKind::GetKey.arity_ok(1));
    assert!(!CommandKind::GetKey.arity_ok(0));
    assert!(!CommandKind::GetKey.arity_ok(2));
    assert!(CommandKind::ExistsKey.arity_ok(1));
    assert!(!CommandKind::ExistsKey.arity_ok(2));
    assert!(CommandKind::DelKeys.arity_ok(1));
    assert!(CommandKind::DelKeys.arity_ok(5));
    assert!(!CommandKind::DelKeys.arity_ok(0));
    assert!(CommandKind::MgetKeys.arity_ok(1));
    assert!(CommandKind::MgetKeys.arity_ok(9));
    assert!(!CommandKind::MgetKeys.arity_ok(0));
}

#[test]
fn well_formed_requests_parse_to_their_commands() {
    assert_eq!(parse_command(&request(&[b"PING"])), Ok(Command::Ping));
    assert_eq!(
        parse_command(&request(&[b"SET", b"k", b"v"])),
        Ok(Command::SetKey { key: b"k".to_vec(), value: b"v".to_vec() })
    );
    assert_eq!(
        parse_command(&request(&[b"get", b"k"])),
        Ok(Command::GetKey { key: b"k".to_vec() })
    );
    assert_eq!(
        parse_command(&request(&[b"Del", b"a", b"b", b"c"])),
        Ok(Command::DelKeys { keys: vec![b"a".to_vec(), b"b".to_vec(), b"c".to_vec()] })
    );
    assert_eq!(
        parse_command(&request(&[b"EXISTS", b"k"])),
        Ok(Command::ExistsKey { key: b"k".to_vec() })
    );
    assert_eq!(
        parse_command(&request(&[b"MGET", b"x", b"y"])),
        Ok(Command::MgetKeys { keys: vec![b"x".to_vec(), b"y".to_vec()] })
    );
}

#[test]
fn arguments_are_passed_through_untouched() {
    let key = [0x00u8, 0xff, b'K', b'e', b'y'];
    let value = [0xc3u8, 0x28, 0x0d, 0x0a];
    assert_eq!(
        parse_command(&request(&[b"set", &key, &value])),
        Ok(Command::SetKey { key: key.to_vec(), value: value.to_vec() })
    );
    assert_eq!(
        parse_command(&request(&[b"SET", b"", b""])),
        Ok(Command::SetKey { key: Vec::new(), value: Vec::new() })
    );
}

#[test]
fn the_name_may_be_a_simple_string() {
    let frame = Frame::Array(vec![Frame::SimpleString(b"ping".to_vec())]);
    assert_eq!(parse_command(&frame), Ok(Command::Ping));
    let frame = Frame::Array(vec![Frame::SimpleString(b"GET".to_vec()), bulk(b"k")]);
    assert_eq!(parse_command(&frame), Ok(Command::GetKey { key: b"k".to_vec() }));
}

#[test]
fn ping_takes_any_arguments() {
    assert_eq!(parse_command(&request(&[b"PING", b"hello"])), Ok(Command::Ping));
    let frame = Frame::Array(vec![bulk(b"PING"), Frame::Integer(1), Frame::Null]);
    assert_eq!(parse_command(&frame), Ok(Command::Ping));
}

#[test]
fn a_frame_that_is_no_array_is_refused() {
    for frame in [
        Frame::SimpleString(b"PING".to_vec()),
        Frame::Error("ERR".to_string()),
        Frame::Integer(1),
        bulk(b"PING"),
        Frame::Null,
    ] {
        assert_eq!(parse_command(&frame), Err(error("ERR invalid command type")));
    }
}

#[test]
fn an_empty_array_is_refused() {
    assert_eq!(parse_command(&Frame::Array(Vec::new())), Err(error("ERR Empty command")));
}

#[test]
fn a_name_that_is_no_string_is_refused() {
    for name in [
        Frame::Integer(7),
        Frame::Null,
        Frame::Error("PING".to_string()),
        Frame::Array(vec![bulk(b"PING")]),
    ] {
        let frame = Frame::Array(vec![name, bulk(b"k")]);
        assert_eq!(parse_command(&frame), Err(error("ERR invalid command type")));
    }
}

#[test]
fn an_unknown_name_is_shown_as_received() {
    assert_eq!(parse_command(&request(&[b"FOO"])), Err(error("ERR unknown command 'FOO'")));
    assert_eq!(
        parse_command(&request(&[b"foo", b"bar"])),
        Err(error("ERR unknown command 'foo'"))
    );
    assert_eq!(parse_command(&request(&[b""])), Err(error("ERR unknown command ''")));
    assert_eq!(
        parse_command(&request(&["gr\u{fc}\u{df}e".as_bytes()])),
        Err(error("ERR unknown command 'gr\u{fc}\u{df}e'"))
    );
}

#[test]
fn an_unknown_name_that_is_not_utf8_is_shown_with_replacements() {
    assert_eq!(
        parse_command(&request(&[&[b'F', 0xff, b'O']])),
        Err(error("ERR unknown command 'F\u{fffd}O'"))
    );
}

#[test]
fn a_wrong_number_of_arguments_is_refused() {
    let cases: [(&[&[u8]], &str); 9] = [
        (&[b"SET", b"k"], "SET"),
        (&[b"SET"], "SET"),
        (&[b"set", b"k", b"v", b"x"], "SET"),
        (&[b"GET"], "GET"),
        (&[b"get", b"a", b"b"], "GET"),
        (&[b"DEL"], "DEL"),
        (&[b"exists"], "EXISTS"),
        (&[b"EXISTS", b"a", b"b"], "EXISTS"),
        (&[b"mget"], "MGET"),
    ];
    for (parts, name) in cases {
        assert_eq!(
            parse_command(&request(parts)),
            Err(error(&format!("ERR Wrong number of arguments for {}", name)))
        );
    }
}

#[test]
fn the_number_of_arguments_is_judged_before_their_types() {
    let frame = Frame::Array(vec![bulk(b"SET"), Frame::Integer(1)]);
    assert_eq!(parse_command(&frame), Err(error("ERR Wrong number of arguments for SET")));
}

#[test]
fn a_key_that_is_no_bulk_string_is_refused() {
    let not_bulk = || {
        vec![
            Frame::Integer(1),
            Frame::Null,
            Frame::SimpleString(b"k".to_vec()),
            Frame::Error("k".to_string()),
            Frame::Array(vec![bulk(b"k")]),
        ]
    };
    for key in not_bulk() {
        let frame = Frame::Array(vec![bulk(b"SET"), key, bulk(b"v")]);
        assert_eq!(parse_command(&frame), Err(error("ERR Invalid key type")));
    }
    for key in not_bulk() {
        let frame = Frame::Array(vec![bulk(b"GET"), key]);
        assert_eq!(parse_command(&frame), Err(error("ERR Invalid key type")));
    }
    for key in not_bulk() {
        let frame = Frame::Array(vec![bulk(b"EXISTS"), key]);
        assert_eq!(parse_command(&frame), Err(error("ERR Invalid key type")));
    }
    for key in not_bulk() {
        let frame = Frame::Array(vec![bulk(b"DEL"), bulk(b"a"), key, bulk(b"c")]);
        assert_eq!(parse_command(&frame), Err(error("ERR Invalid key type")));
    }
    for key in not_bulk() {
        let frame = Frame::Array(vec![bulk(b"MGET"), bulk(b"a"), bulk(b"b"), key]);
        assert_eq!(parse_command(&frame), Err(error("ERR Invalid key type")));
    }
}

#[test]
fn a_value_that_is_no_bulk_string_is_refused() {
    let frame = Frame::Array(vec![bulk(b"SET"), bulk(b"k"), Frame::Integer(5)]);
    assert_eq!(parse_command(&frame), Err(error("ERR Invalid value type")));
    let frame = Frame::Array(vec![bulk(b"SET"), bulk(b"k"), Frame::Null]);
    assert_eq!(parse_command(&frame), Err(error("ERR Invalid value type")));
}

#[test]
fn the_key_is_judged_before_the_value() {
    let frame = Frame::Array(vec![bulk(b"SET"), Frame::Integer(1), Frame::Integer(2)]);
    assert_eq!(parse_command(&frame), Err(error("ERR Invalid key type")));
}

#[test]
fn the_reply_to_an_unknown_name_quotes_it() {
    assert_eq!(unknown_command_reply("FOO"), error("ERR unknown command 'FOO'"));
    assert_eq!(unknown_command_reply(""), error("ERR unknown command ''"));
    assert_eq!(unknown_command_reply("a'b"), error("ERR unknown command 'a'b'"));
}

#[test]
fn error_reply_carries_its_text() {
    assert_eq!(error_reply("ERR something"), error("ERR something"));
    assert_eq!(error_reply(""), error(""));
}

#[test]
fn only_ping_leaves_storage_alone() {
    assert!(!Command::Ping.touches_storage());
    assert!(Command::SetKey { key: b"k".to_vec(), value: b"v".to_vec() }.touches_storage());
    assert!(Command::GetKey { key: b"k".to_vec() }.touches_storage());
    assert!(Command::DelKeys { keys: vec![b"k".to_vec()] }.touches_storage());
    assert!(Command::ExistsKey { key: b"k".to_vec() }.touches_storage());
    assert!(Command::MgetKeys { keys: vec![b"k".to_vec()] }.touches_storage());
}

#[test]
fn a_frame_and_its_clone_are_equal() {
    let frame = Frame::Array(vec![
        Frame::SimpleString(b"OK".to_vec()),
        Frame::Error("ERR x".to_string()),
        Frame::Integer(-3),
        bulk(&[0, 255, 7]),
        Frame::Array(vec![Frame::Null, Frame::Array(Vec::new()), bulk(b"deep")]),
        Frame::Null,
    ]);
    assert_eq!(frame.clone(), frame);
    assert_ne!(frame.clone(), Frame::Array(Vec::new()));
}
