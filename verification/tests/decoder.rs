use ircdecode::{
    parse_command, parse_line, parse_message, parse_notice_params, Command, Error, Message,
    MessageStream, NoticeParams, TransportFault, VecSource,
};

#[test]
fn line_with_prefix() {
    let (prefix, section) = parse_line(":irc.example.net NOTICE x :hi").unwrap();
    assert_eq!(prefix, Some(String::from("irc.example.net")));
    assert_eq!(section, "NOTICE x :hi");
}

#[test]
fn line_without_prefix_is_trimmed() {
    let (prefix, section) = parse_line("  NOTICE alice :hello  ").unwrap();
    assert_eq!(prefix, None);
    assert_eq!(section, "NOTICE alice :hello");
}

#[test]
fn empty_line_is_invalid() {
    match parse_line("") {
        Err(Error::InvalidLine(raw)) => assert_eq!(raw, ""),
        _ => panic!("expected InvalidLine"),
    }
}

#[test]
fn whitespace_line_is_invalid() {
    match parse_line("   ") {
        Err(Error::InvalidLine(raw)) => assert_eq!(raw, "   "),
        _ => panic!("expected InvalidLine"),
    }
}

#[test]
fn prefix_with_only_whitespace_after_is_invalid() {
    match parse_line(":server.example   ") {
        Err(Error::InvalidLine(raw)) => assert_eq!(raw, ":server.example   "),
        _ => panic!("expected InvalidLine"),
    }
}

#[test]
fn unterminated_prefix_marker_is_no_prefix() {
    let (prefix, section) = parse_line(":abc").unwrap();
    assert_eq!(prefix, None);
    assert_eq!(section, ":abc");
}

#[test]
fn line_tolerates_trailing_crlf() {
    let (prefix, section) = parse_line("NOTICE a :b\r\n").unwrap();
    assert_eq!(prefix, None);
    assert_eq!(section, "NOTICE a :b");
}

#[test]
fn notice_with_marked_trailing_message() {
    let command = parse_command("NOTICE #chan :hello world").unwrap();
    let Command::Notice(params) = command;
    assert_eq!(params.target, "#chan");
    assert_eq!(params.message, "hello world");
}

#[test]
fn notice_with_unmarked_message() {
    let command = parse_command("NOTICE #chan hello").unwrap();
    let Command::Notice(params) = command;
    assert_eq!(params.target, "#chan");
    assert_eq!(params.message, "hello");
}

#[test]
fn notice_without_params_is_invalid_params() {
    match parse_command("NOTICE") {
        Err(Error::InvalidParams(name, raw)) => {
            assert_eq!(name, "NOTICE");
            assert_eq!(raw, "NOTICE");
        }
        _ => panic!("expected InvalidParams"),
    }
}

#[test]
fn unknown_verb_is_invalid_command() {
    match parse_command("FROBNICATE x y") {
        Err(Error::InvalidCommand(raw)) => assert_eq!(raw, "FROBNICATE x y"),
        _ => panic!("expected InvalidCommand"),
    }
}

#[test]
fn empty_section_is_invalid_command() {
    match parse_command("") {
        Err(Error::InvalidCommand(raw)) => assert_eq!(raw, ""),
        _ => panic!("expected InvalidCommand"),
    }
}

#[test]
fn notice_with_empty_message_is_valid() {
    let command = parse_command("NOTICE alice").unwrap();
    let Command::Notice(params) = command;
    assert_eq!(params.target, "alice");
    assert_eq!(params.message, "");
}

#[test]
fn notice_strips_exactly_one_marker_colon() {
    let command = parse_command("NOTICE alice ::smile").unwrap();
    let Command::Notice(params) = command;
    assert_eq!(params.message, ":smile");
}

#[test]
fn notice_collapses_separator_run() {
    let command = parse_command("NOTICE alice    :spaced  out").unwrap();
    let Command::Notice(params) = command;
    assert_eq!(params.target, "alice");
    assert_eq!(params.message, "spaced  out");
}

#[test]
fn notice_accepts_tab_separators() {
    let command = parse_command("NOTICE\talice\t:hi").unwrap();
    let Command::Notice(params) = command;
    assert_eq!(params.target, "alice");
    assert_eq!(params.message, "hi");
}

#[test]
fn notice_params_empty_string_is_invalid() {
    match parse_notice_params("") {
        Err(Error::InvalidParams(name, raw)) => {
            assert_eq!(name, "NOTICE");
            assert_eq!(raw, "");
        }
        _ => panic!("expected InvalidParams"),
    }
}

#[test]
fn notice_params_whitespace_only_is_invalid() {
    match parse_notice_params("  \t ") {
        Err(Error::InvalidParams(name, raw)) => {
            assert_eq!(name, "NOTICE");
            assert_eq!(raw, "  \t ");
        }
        _ => panic!("expected InvalidParams"),
    }
}

#[test]
fn notice_params_target_only() {
    let params = parse_notice_params("bob").unwrap();
    assert_eq!(params, NoticeParams { target: String::from("bob"), message: String::new() });
}

#[test]
fn prefix_separator_run_is_collapsed() {
    let (prefix, section) = parse_line(":server.example   NOTICE a :b").unwrap();
    assert_eq!(prefix, Some(String::from("server.example")));
    assert_eq!(section, "NOTICE a :b");
}

#[test]
fn notice_trailing_whitespace_only_means_empty_message() {
    let command = parse_command("NOTICE  bob  ").unwrap();
    let Command::Notice(params) = command;
    assert_eq!(params.target, "bob");
    assert_eq!(params.message, "");
}

#[test]
fn whole_message_without_prefix_decodes() {
    let message = parse_message("NOTICE bob :hi there").unwrap();
    assert_eq!(
        message,
        Message {
            prefix: None,
            command: Command::Notice(NoticeParams {
                target: String::from("bob"),
                message: String::from("hi there"),
            }),
        }
    );
}

#[test]
fn whole_message_decodes() {
    let message = parse_message(":irc.example.net NOTICE alice :Welcome").unwrap();
    assert_eq!(
        message,
        Message {
            prefix: Some(String::from("irc.example.net")),
            command: Command::Notice(NoticeParams {
                target: String::from("alice"),
                message: String::from("Welcome"),
            }),
        }
    );
}

#[test]
fn parsing_twice_is_idempotent() {
    let line = ":irc.example.net NOTICE alice :Welcome";
    assert_eq!(parse_message(line), parse_message(line));
    let bad = "FROBNICATE x y";
    assert_eq!(parse_command(bad), parse_command(bad));
}

#[test]
fn stream_yields_message_then_transport_error() {
    let source = VecSource::new(vec![String::from(":irc.example.net NOTICE alice :Welcome")]);
    let mut stream = MessageStream::new(source);
    let message = stream.read_one().unwrap();
    assert_eq!(
        message,
        Message {
            prefix: Some(String::from("irc.example.net")),
            command: Command::Notice(NoticeParams {
                target: String::from("alice"),
                message: String::from("Welcome"),
            }),
        }
    );
    match stream.read_one() {
        Err(Error::TransportError(fault)) => assert_eq!(fault, TransportFault::EndOfStream),
        _ => panic!("expected TransportError"),
    }
}

#[test]
fn closed_stream_keeps_returning_the_same_fault() {
    let source = VecSource::new(vec![]);
    let mut stream = MessageStream::new(source);
    for _ in 0..3 {
        match stream.read_one() {
            Err(Error::TransportError(fault)) => assert_eq!(fault, TransportFault::EndOfStream),
            _ => panic!("expected TransportError"),
        }
    }
}

#[test]
fn malformed_line_is_consumed_not_rereturned() {
    let source = VecSource::new(vec![String::from("garbage"), String::from("NOTICE a :b")]);
    let mut stream = MessageStream::new(source);
    match stream.read_one() {
        Err(Error::InvalidCommand(raw)) => assert_eq!(raw, "garbage"),
        other => panic!("expected InvalidCommand, got {:?}", other),
    }
    let message = stream.read_one().unwrap();
    assert_eq!(
        message,
        Message {
            prefix: None,
            command: Command::Notice(NoticeParams {
                target: String::from("a"),
                message: String::from("b"),
            }),
        }
    );
}
