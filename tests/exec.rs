use wasi_provider::command::{parse_exec_query, Command, CommandOptions, ParseError};
use wasi_provider::dispatch::{
    exec_reply, parse_args, prepare_call, render_results, ArgValue, ArgumentError, ExecError,
    FloatError, RetValue, ValKind,
};
use wasi_provider::gateway::{exec_frame, exec_response, log_error_response, LogFailure};
use wasi_provider::link::{import_abi, resolve_import, Abi, LinkError};
use wasi_provider::number::{parse_i32, parse_i64, IntError};
use wasi_provider::render::{decimal_string, join_lines};
use wasi_provider::text::{split_on, split_words};

fn strings(v: &[&str]) -> Vec<String> {
    v.iter().map(|s| s.to_string()).collect()
}

#[test]
fn parse_command_line() {
    let c = Command::parse("add 1 2").unwrap();
    assert_eq!(c.function, "add");
    assert_eq!(c.args, strings(&["1", "2"]));
}

#[test]
fn parse_empty_command_line_fails() {
    assert_eq!(Command::parse("").err(), Some(ParseError::Empty));
    assert_eq!(Command::parse("   ").err(), Some(ParseError::Empty));
}

#[test]
fn parse_command_line_extra_spaces() {
    let c = Command::parse("  mul\t3   4 ").unwrap();
    assert_eq!(c.function, "mul");
    assert_eq!(c.args, strings(&["3", "4"]));
}

#[test]
fn query_with_repeated_command_keys() {
    let o = parse_exec_query(&"command=add&command=1&command=2".to_string()).unwrap();
    assert_eq!(o.command.function, "add");
    assert_eq!(o.command.args, strings(&["1", "2"]));
    assert!(!o.stdin && !o.stdout && !o.stderr && !o.tty);
}

#[test]
fn query_without_command_key_fails() {
    assert_eq!(
        parse_exec_query(&"foo=bar".to_string()).err(),
        Some(ParseError::MissingCommand)
    );
}

#[test]
fn query_pair_without_value_fails() {
    assert_eq!(
        parse_exec_query(&"command".to_string()).err(),
        Some(ParseError::MissingValue)
    );
    assert_eq!(
        parse_exec_query(&"command=add&tty".to_string()).err(),
        Some(ParseError::MissingValue)
    );
    assert_eq!(parse_exec_query(&"".to_string()).err(), Some(ParseError::MissingValue));
}

#[test]
fn query_ignores_other_keys() {
    let o = parse_exec_query(&"stdin=true&command=f&tty=false&command=x".to_string()).unwrap();
    assert_eq!(o.command.function, "f");
    assert_eq!(o.command.args, strings(&["x"]));
}

#[test]
fn query_value_stops_at_second_equals() {
    let o = parse_exec_query(&"command=a=b".to_string()).unwrap();
    assert_eq!(o.command.function, "a");
    assert!(o.command.args.is_empty());
}

#[test]
fn options_have_default_flags() {
    let o = CommandOptions::new(Command { function: "f".to_string(), args: vec![] });
    assert!(!o.stdin && !o.stdout && !o.stderr && !o.tty);
    assert_eq!(o.command.function, "f");
}

#[test]
fn split_keeps_empty_pieces() {
    assert_eq!(split_on("a&&b&", '&'), strings(&["a", "", "b", ""]));
    assert_eq!(split_on("", '&'), strings(&[""]));
    assert_eq!(split_words(" x  yz "), strings(&["x", "yz"]));
}

#[test]
fn coerce_two_i32_arguments() {
    let params = vec![ValKind::I32, ValKind::I32];
    let v = parse_args(&params, &strings(&["1", "2"])).unwrap();
    assert_eq!(v.len(), 2);
    assert!(matches!(v[0], ArgValue::I32(1)));
    assert!(matches!(v[1], ArgValue::I32(2)));
}

#[test]
fn coerce_not_enough_arguments() {
    let params = vec![ValKind::I32, ValKind::I32];
    assert_eq!(parse_args(&params, &strings(&["1"])).err(), Some(ArgumentError::NotEnough));
    assert_eq!(
        ArgumentError::NotEnough.message(),
        "Not enough arguments".to_string()
    );
}

#[test]
fn coerce_invalid_number() {
    let params = vec![ValKind::I32, ValKind::I32];
    assert_eq!(
        parse_args(&params, &strings(&["x", "2"])).err(),
        Some(ArgumentError::Invalid(IntError::InvalidDigit))
    );
    assert_eq!(
        parse_args(&params, &strings(&["2147483648", "2"])).err(),
        Some(ArgumentError::Invalid(IntError::PosOverflow))
    );
    assert_eq!(
        parse_args(&params, &strings(&["", "2"])).err(),
        Some(ArgumentError::Invalid(IntError::Empty))
    );
    assert_eq!(
        ArgumentError::Invalid(IntError::InvalidDigit).message(),
        "invalid digit found in string"
    );
    assert_eq!(
        ArgumentError::InvalidFloat(FloatError::Invalid).message(),
        "invalid float literal"
    );
}

#[test]
fn coerce_ignores_extra_arguments() {
    let params = vec![ValKind::I64];
    let v = parse_args(&params, &strings(&["-9", "5", "junk"])).unwrap();
    assert_eq!(v.len(), 1);
    assert!(matches!(v[0], ArgValue::I64(-9)));
}

#[test]
fn coerce_unsupported_kind() {
    let params = vec![ValKind::I32, ValKind::Other];
    assert_eq!(
        parse_args(&params, &strings(&["1", "2"])).err(),
        Some(ArgumentError::Unsupported)
    );
}

#[test]
fn coerce_float_text_is_carried() {
    let params = vec![ValKind::F32, ValKind::F64];
    let v = parse_args(&params, &strings(&["1.5", "2e3"])).unwrap();
    assert!(matches!(&v[0], ArgValue::F32(s) if s == "1.5"));
    assert!(matches!(&v[1], ArgValue::F64(s) if s == "2e3"));
}

#[test]
fn integer_parsing_edges() {
    assert_eq!(parse_i64("+7"), Ok(7));
    assert_eq!(parse_i64("-0"), Ok(0));
    assert_eq!(parse_i64("007"), Ok(7));
    assert_eq!(parse_i64("-"), Err(IntError::InvalidDigit));
    assert_eq!(parse_i64("+"), Err(IntError::InvalidDigit));
    assert_eq!(parse_i64(""), Err(IntError::Empty));
    assert_eq!(parse_i64("1 "), Err(IntError::InvalidDigit));
    assert_eq!(parse_i64("9223372036854775807"), Ok(i64::MAX));
    assert_eq!(parse_i64("-9223372036854775808"), Ok(i64::MIN));
    assert_eq!(parse_i64("9223372036854775808"), Err(IntError::PosOverflow));
    assert_eq!(parse_i64("-9223372036854775809"), Err(IntError::NegOverflow));
    assert_eq!(parse_i32("2147483647"), Ok(i32::MAX));
    assert_eq!(parse_i32("-2147483648"), Ok(i32::MIN));
    assert_eq!(parse_i32("-2147483649"), Err(IntError::NegOverflow));
    assert_eq!(parse_i32("99999999999x"), Err(IntError::PosOverflow));
    assert_eq!(parse_i32("12x99999999999"), Err(IntError::InvalidDigit));
}

#[test]
fn integer_parsing_agrees_with_std() {
    for s in ["", "-", "+", "0", "+12", "-12", "1_0", "2147483648", "-2147483648", "99999999999x", "x1", "٣"] {
        let ours = parse_i32(s);
        let std_result = s.parse::<i32>();
        match (&ours, &std_result) {
            (Ok(a), Ok(b)) => assert_eq!(a, b),
            (Err(e), Err(f)) => assert_eq!(e.message(), f.to_string(), "text {:?}", s),
            _ => panic!("disagreement on {:?}", s),
        }
    }
}

#[test]
fn render_values_joined_by_newlines() {
    let vals = vec![
        RetValue::I32(-5),
        RetValue::I64(42),
        RetValue::V128(340282366920938463463374607431768211455),
        RetValue::Reference,
        RetValue::Text("1.5".to_string()),
    ];
    assert_eq!(
        render_results(&vals),
        "-5\n42\n340282366920938463463374607431768211455\n<externref>\n1.5"
    );
    assert_eq!(render_results(&vec![]), "");
    assert_eq!(render_results(&vec![RetValue::I32(0)]), "0");
}

#[test]
fn decimal_rendering() {
    assert_eq!(decimal_string(i64::MIN as i128), "-9223372036854775808");
    assert_eq!(decimal_string(1000), "1000");
    assert_eq!(join_lines(&strings(&["a", "", "b"])), "a\n\nb");
}

#[test]
fn prepare_call_lookup_error() {
    let c = Command { function: "nope".to_string(), args: vec![] };
    match prepare_call(&c, &None) {
        Err(ExecError::Lookup(f)) => assert_eq!(f, "nope"),
        _ => panic!("expected a lookup error"),
    }
    assert_eq!(
        ExecError::Lookup("nope".to_string()).message(),
        "No function found with name nope"
    );
}

#[test]
fn prepare_call_argument_error() {
    let c = Command { function: "add".to_string(), args: strings(&["1"]) };
    let r = prepare_call(&c, &Some(vec![ValKind::I32, ValKind::I32]));
    assert!(matches!(r, Err(ExecError::Argument(ArgumentError::NotEnough))));
    assert_eq!(
        ExecError::Argument(ArgumentError::NotEnough).message(),
        "Error parsing the args: Not enough arguments"
    );
}

#[test]
fn exec_reply_renders_or_wraps() {
    assert_eq!(exec_reply(Ok(vec![RetValue::I32(42)])).unwrap(), "42");
    match exec_reply(Err("trap".to_string())) {
        Err(e) => assert_eq!(e.message(), "Error executing command: trap"),
        Ok(_) => panic!("expected an execution error"),
    }
    assert_eq!(ExecError::Channel.message(), "exec channel closed");
}

#[test]
fn websocket_frames() {
    assert_eq!(exec_frame(&Ok("42".to_string())), vec![1u8, b'4', b'2']);
    let mut expected = vec![2u8];
    expected.extend_from_slice(b"bad thing");
    assert_eq!(exec_frame(&Err("bad thing".to_string())), expected);
}

#[test]
fn unary_responses() {
    assert_eq!(exec_response(&Ok("42".to_string())), (200, b"42".to_vec()));
    assert_eq!(exec_response(&Err("no".to_string())), (500, b"no".to_vec()));
    assert_eq!(
        log_error_response(LogFailure::NotImplemented, "x"),
        (501, "Logs not implemented in provider.".to_string())
    );
    assert_eq!(
        log_error_response(LogFailure::Other, "disk"),
        (500, "Server error: disk".to_string())
    );
}

#[test]
fn import_namespaces() {
    assert_eq!(import_abi("wasi_snapshot_preview1").ok(), Some(Abi::Snapshot));
    assert_eq!(import_abi("wasi_unstable").ok(), Some(Abi::Unstable));
    assert_eq!(resolve_import("wasi_unstable", "fd_write", false, true).ok(), Some(Abi::Unstable));
    match resolve_import("wasi_snapshot_preview1", "nope", false, true) {
        Err(LinkError::MissingSymbol(n, s)) => {
            assert_eq!(n, "wasi_snapshot_preview1");
            assert_eq!(s, "nope");
        }
        _ => panic!("expected a missing symbol"),
    }
    match resolve_import("env", "f", true, true) {
        Err(LinkError::UnknownNamespace(n)) => assert_eq!(n, "env"),
        _ => panic!("expected an unknown namespace"),
    }
    match import_abi("env") {
        Err(LinkError::UnknownNamespace(n)) => assert_eq!(n, "env"),
        _ => panic!("expected a link error"),
    }
}
