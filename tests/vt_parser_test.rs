use tabssh::vt::{VtCommand, VtParser};

#[test]
fn test_simple_text() {
    let mut parser = VtParser::new();

    let cmd = parser.parse(b'H');
    assert!(matches!(cmd, Some(VtCommand::Print('H'))));

    let cmd = parser.parse(b'i');
    assert!(matches!(cmd, Some(VtCommand::Print('i'))));
}

#[test]
fn test_cursor_movement() {
    let mut parser = VtParser::new();

    parser.parse(0x1B);
    parser.parse(b'[');
    let cmd = parser.parse(b'A');
    assert!(matches!(cmd, Some(VtCommand::CursorUp(1))));
}

#[test]
fn test_cursor_position() {
    let mut parser = VtParser::new();

    parser.parse(0x1B);
    parser.parse(b'[');
    parser.parse(b'5');
    parser.parse(b';');
    parser.parse(b'1');
    parser.parse(b'0');
    let cmd = parser.parse(b'H');
    assert!(matches!(cmd, Some(VtCommand::CursorPosition(4, 9))));
}

#[test]
fn test_clear_screen() {
    let mut parser = VtParser::new();

    parser.parse(0x1B);
    parser.parse(b'[');
    parser.parse(b'2');
    let cmd = parser.parse(b'J');
    assert!(matches!(cmd, Some(VtCommand::ClearScreen(2))));
}

#[test]
fn vt_parser_graphics_mode_and_osc() {
    let mut parser = VtParser::new();
    for b in b"\x1b[1;31" {
        assert!(parser.parse(*b).is_none());
    }
    match parser.parse(b'm') {
        Some(VtCommand::SetGraphicsMode(v)) => assert_eq!(v, vec![1, 31]),
        _ => panic!("expected a graphics mode command"),
    }
    for b in b"\x1b]0;title\x07" {
        assert!(parser.parse(*b).is_none());
    }
    assert!(matches!(parser.parse(b'z'), Some(VtCommand::Print('z'))));
    for b in b"\x1b[99999999999" {
        assert!(parser.parse(*b).is_none());
    }
    assert!(matches!(parser.parse(b'B'), Some(VtCommand::CursorDown(1))));
}
