use carrera_live::protocol::{decode_line, parse_u8, split_fields, strip_terminator, ControllerWord, DecodedLine, ProgramWord};

#[test]
fn decode_both_words() {
    let d = decode_line(b"4;200;3-2;150");
    assert_eq!(
        d,
        DecodedLine {
            program: Some(ProgramWord { command: 4, data: 200, controller: 3 }),
            controller: Some(ControllerWord { car_id: 2, speed: 150 }),
        }
    );
}

#[test]
fn decode_non_numeric_program_field() {
    let d = decode_line(b"x;200;3");
    assert_eq!(d, DecodedLine { program: None, controller: None });
}

#[test]
fn decode_extra_program_fields_ignored() {
    let d = decode_line(b"5;1;7;99;zz");
    assert_eq!(d.program, Some(ProgramWord { command: 5, data: 1, controller: 7 }));
    assert_eq!(d.controller, None);
}

#[test]
fn decode_short_program_word() {
    assert_eq!(decode_line(b"5;1").program, None);
    assert_eq!(decode_line(b"").program, None);
}

#[test]
fn decode_controller_word_needs_two_fields() {
    assert_eq!(decode_line(b"5;1;0-1;2;3").controller, None);
    assert_eq!(decode_line(b"5;1;0-1").controller, None);
    assert_eq!(decode_line(b"5;1;0-1;300").controller, None);
    assert_eq!(decode_line(b"5;1;0-7;255").controller, Some(ControllerWord { car_id: 7, speed: 255 }));
}

#[test]
fn parse_bytes() {
    assert_eq!(parse_u8(b"0"), Some(0));
    assert_eq!(parse_u8(b"255"), Some(255));
    assert_eq!(parse_u8(b"007"), Some(7));
    assert_eq!(parse_u8(b"+7"), Some(7));
    assert_eq!(parse_u8(b"256"), None);
    assert_eq!(parse_u8(b"99999"), None);
    assert_eq!(parse_u8(b""), None);
    assert_eq!(parse_u8(b"+"), None);
    assert_eq!(parse_u8(b"-1"), None);
    assert_eq!(parse_u8(b"1 "), None);
    assert_eq!(parse_u8(b"++1"), None);
}

#[test]
fn parse_agrees_with_std() {
    let samples: [&str; 12] = ["0", "1", "42", "255", "256", "+9", "+", "", "-0", "12a", "0000000000255", "1000"];
    for s in samples {
        assert_eq!(parse_u8(s.as_bytes()), s.parse::<u8>().ok(), "field {:?}", s);
    }
}

#[test]
fn split_keeps_empty_pieces() {
    let parts = split_fields(b";a;;b;", b';');
    assert_eq!(parts, vec![vec![], vec![b'a'], vec![], vec![b'b'], vec![]]);
    assert_eq!(split_fields(b"", b';'), vec![Vec::<u8>::new()]);
}

#[test]
fn strip_line_terminators() {
    assert_eq!(strip_terminator(b"4;1;2\r\n"), b"4;1;2".to_vec());
    assert_eq!(strip_terminator(b"4;1;2\n"), b"4;1;2".to_vec());
    assert_eq!(strip_terminator(b"4;1;2"), b"4;1;2".to_vec());
    assert_eq!(strip_terminator(b"\r\n"), Vec::<u8>::new());
    assert_eq!(strip_terminator(b"\n"), Vec::<u8>::new());
    assert_eq!(strip_terminator(b"x"), b"x".to_vec());
    assert_eq!(strip_terminator(b""), Vec::<u8>::new());
}
