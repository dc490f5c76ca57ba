use halfblock::cursor::ByteCursor;
use halfblock::input::{
    get_real_mouse_pos, parse_csi, parse_event, parse_utf8_char, InputEvent, KeyEvent,
    MouseButton, MouseEvent, ParseError,
};
use halfblock::math::Vec2;

/// Decodes the first event of `bytes`; gives it with the number of bytes left.
fn decode(bytes: &[u8]) -> (Result<InputEvent, ParseError>, usize) {
    let mut cur = ByteCursor::new(bytes[1..].to_vec());
    let r = parse_event(bytes[0], &mut cur);
    (r, cur.len())
}

fn key(k: KeyEvent) -> Result<InputEvent, ParseError> {
    Ok(InputEvent::Key(k))
}

fn mouse(m: MouseEvent) -> Result<InputEvent, ParseError> {
    Ok(InputEvent::Mouse(m))
}

#[test]
fn cursor_hands_out_each_byte_once() {
    let mut cur = ByteCursor::new(vec![7, 8, 9]);
    assert_eq!(cur.len(), 3);
    assert_eq!(cur.next(), Some(7));
    assert_eq!(cur.next(), Some(8));
    assert_eq!(cur.len(), 1);
    assert_eq!(cur.next(), Some(9));
    assert_eq!(cur.next(), None);
    assert_eq!(cur.next(), None);
    assert_eq!(cur.len(), 0);
}

#[test]
fn escape_bracket_a_is_up() {
    assert_eq!(decode(b"\x1b[A"), (key(KeyEvent::Up), 0));
}

#[test]
fn sgr_press_gives_the_pixel() {
    assert_eq!(
        decode(b"\x1b[<0;5;10M"),
        (
            mouse(MouseEvent::ButtonPressed(MouseButton::Left, Vec2::new(4, 18))),
            0
        )
    );
}

#[test]
fn real_mouse_pos_formula() {
    assert_eq!(get_real_mouse_pos(5, 10), Vec2::new(4, 18));
    assert_eq!(get_real_mouse_pos(1, 1), Vec2::new(0, 0));
    assert_eq!(get_real_mouse_pos(0, 0), Vec2::new(-1, -2));
    assert_eq!(get_real_mouse_pos(65535, 65535), Vec2::new(65534, 131068));
}

#[test]
fn navigation_keys() {
    assert_eq!(decode(b"\x1b[D"), (key(KeyEvent::Left), 0));
    assert_eq!(decode(b"\x1b[C"), (key(KeyEvent::Right), 0));
    assert_eq!(decode(b"\x1b[B"), (key(KeyEvent::Down), 0));
    assert_eq!(decode(b"\x1b[H"), (key(KeyEvent::Home), 0));
    assert_eq!(decode(b"\x1b[F"), (key(KeyEvent::End), 0));
    assert_eq!(decode(b"\x1b[Z"), (key(KeyEvent::BackTab), 0));
}

#[test]
fn only_the_bytes_of_one_event_are_taken() {
    assert_eq!(decode(b"\x1b[A\x1b[B"), (key(KeyEvent::Up), 3));
    assert_eq!(decode(b"ab"), (key(KeyEvent::Char('a')), 1));
    assert_eq!(
        decode(b"\x1b[<0;5;10Mxyz"),
        (
            mouse(MouseEvent::ButtonPressed(MouseButton::Left, Vec2::new(4, 18))),
            3
        )
    );
    assert_eq!(decode(b"\x1b[3~~"), (key(KeyEvent::Delete), 1));
    assert_eq!(decode(b"\x1b[q\x1b[A"), (Err(ParseError::Event), 3));
}

#[test]
fn function_keys() {
    assert_eq!(decode(b"\x1bOP"), (key(KeyEvent::F(1)), 0));
    assert_eq!(decode(b"\x1bOQ"), (key(KeyEvent::F(2)), 0));
    assert_eq!(decode(b"\x1bOR"), (key(KeyEvent::F(3)), 0));
    assert_eq!(decode(b"\x1bOS"), (key(KeyEvent::F(4)), 0));
    assert_eq!(decode(b"\x1b[[A"), (key(KeyEvent::F(1)), 0));
    assert_eq!(decode(b"\x1b[[C"), (key(KeyEvent::F(3)), 0));
    assert_eq!(decode(b"\x1b[[E"), (key(KeyEvent::F(5)), 0));
    assert_eq!(decode(b"\x1b[11~"), (key(KeyEvent::F(1)), 0));
    assert_eq!(decode(b"\x1b[15~"), (key(KeyEvent::F(5)), 0));
    assert_eq!(decode(b"\x1b[17~"), (key(KeyEvent::F(6)), 0));
    assert_eq!(decode(b"\x1b[21~"), (key(KeyEvent::F(10)), 0));
    assert_eq!(decode(b"\x1b[23~"), (key(KeyEvent::F(11)), 0));
    assert_eq!(decode(b"\x1b[24~"), (key(KeyEvent::F(12)), 0));
}

#[test]
fn special_keys() {
    assert_eq!(decode(b"\x1b[1~"), (key(KeyEvent::Home), 0));
    assert_eq!(decode(b"\x1b[7~"), (key(KeyEvent::Home), 0));
    assert_eq!(decode(b"\x1b[2~"), (key(KeyEvent::Insert), 0));
    assert_eq!(decode(b"\x1b[3~"), (key(KeyEvent::Delete), 0));
    assert_eq!(decode(b"\x1b[4~"), (key(KeyEvent::End), 0));
    assert_eq!(decode(b"\x1b[8~"), (key(KeyEvent::End), 0));
    assert_eq!(decode(b"\x1b[5~"), (key(KeyEvent::PageUp), 0));
    assert_eq!(decode(b"\x1b[6~"), (key(KeyEvent::PageDown), 0));
    assert_eq!(decode(b"\x1b[003~"), (key(KeyEvent::Delete), 0));
}

#[test]
fn special_keys_that_are_not_known() {
    assert_eq!(decode(b"\x1b[9~"), (Err(ParseError::Event), 0));
    assert_eq!(decode(b"\x1b[0~"), (Err(ParseError::Event), 0));
    assert_eq!(decode(b"\x1b[16~"), (Err(ParseError::Event), 0));
    assert_eq!(decode(b"\x1b[22~"), (Err(ParseError::Event), 0));
    assert_eq!(decode(b"\x1b[25~"), (Err(ParseError::Event), 0));
    assert_eq!(decode(b"\x1b[255~"), (Err(ParseError::Event), 0));
    assert_eq!(decode(b"\x1b[256~"), (Err(ParseError::Event), 0));
    assert_eq!(decode(b"\x1b[3;2~"), (Err(ParseError::Event), 0));
    assert_eq!(decode(b"\x1b[3;~"), (Err(ParseError::Event), 0));
    assert_eq!(decode(b"\x1b[3 ~"), (Err(ParseError::Event), 0));
    assert_eq!(decode(b"\x1b[3x"), (Err(ParseError::Event), 0));
    assert_eq!(decode(b"\x1b[3"), (Err(ParseError::Event), 0));
    assert_eq!(decode(b"\x1b[31"), (Err(ParseError::Event), 0));
}

#[test]
fn control_bytes() {
    assert_eq!(decode(b"\n"), (key(KeyEvent::Char('\n')), 0));
    assert_eq!(decode(b"\r"), (key(KeyEvent::Char('\n')), 0));
    assert_eq!(decode(b"\t"), (key(KeyEvent::Char('\t')), 0));
    assert_eq!(decode(b"\x7f"), (key(KeyEvent::Backspace), 0));
    assert_eq!(decode(b"\x00"), (key(KeyEvent::Null), 0));
    assert_eq!(decode(b"\x01"), (key(KeyEvent::Ctrl('a')), 0));
    assert_eq!(decode(b"\x03"), (key(KeyEvent::Ctrl('c')), 0));
    assert_eq!(decode(b"\x08"), (key(KeyEvent::Ctrl('h')), 0));
    assert_eq!(decode(b"\x0b"), (key(KeyEvent::Ctrl('k')), 0));
    assert_eq!(decode(b"\x1a"), (key(KeyEvent::Ctrl('z')), 0));
    assert_eq!(decode(b"\x1c"), (key(KeyEvent::Ctrl('4')), 0));
    assert_eq!(decode(b"\x1d"), (key(KeyEvent::Ctrl('5')), 0));
    assert_eq!(decode(b"\x1f"), (key(KeyEvent::Ctrl('7')), 0));
}

#[test]
fn plain_characters() {
    assert_eq!(decode(b"a"), (key(KeyEvent::Char('a')), 0));
    assert_eq!(decode(b" "), (key(KeyEvent::Char(' ')), 0));
    assert_eq!(decode(b"~"), (key(KeyEvent::Char('~')), 0));
    assert_eq!(decode("é".as_bytes()), (key(KeyEvent::Char('é')), 0));
    assert_eq!(decode("€".as_bytes()), (key(KeyEvent::Char('€')), 0));
    assert_eq!(decode("😀".as_bytes()), (key(KeyEvent::Char('😀')), 0));
    assert_eq!(decode("éa".as_bytes()), (key(KeyEvent::Char('é')), 1));
}

#[test]
fn alt_characters() {
    assert_eq!(decode(b"\x1ba"), (key(KeyEvent::Alt('a')), 0));
    assert_eq!(decode(b"\x1b\x1b"), (key(KeyEvent::Alt('\x1b')), 0));
    assert_eq!(decode("\x1bé".as_bytes()), (key(KeyEvent::Alt('é')), 0));
    assert_eq!(decode("\x1b€x".as_bytes()), (key(KeyEvent::Alt('€')), 1));
}

#[test]
fn bytes_that_are_no_character() {
    assert_eq!(decode(b"\xc3"), (Err(ParseError::Utf8), 0));
    assert_eq!(decode(b"\xe2\x82"), (Err(ParseError::Utf8), 0));
    assert_eq!(decode(b"\xff\x41\x42\x43\x44"), (Err(ParseError::Utf8), 1));
    assert_eq!(decode(b"\x80\x80\x80\x80"), (Err(ParseError::Utf8), 0));
    assert_eq!(decode(b"\xc3\x28\x29"), (Err(ParseError::Utf8), 0));
    assert_eq!(decode(b"\xed\xa0\x80"), (Err(ParseError::Utf8), 0));
    assert_eq!(decode(b"\xc0\x80"), (Err(ParseError::Utf8), 0));
    assert_eq!(decode(b"\x1b\xc3"), (Err(ParseError::Utf8), 0));
    assert_eq!(decode(b"\x1b\xff\x41\x42\x43\x44"), (Err(ParseError::Utf8), 1));
}

#[test]
fn parse_utf8_char_reads_what_it_needs() {
    let mut cur = ByteCursor::new(vec![0x41]);
    assert_eq!(parse_utf8_char(b'x', &mut cur), Ok('x'));
    assert_eq!(cur.len(), 1);
    let mut cur = ByteCursor::new(vec![0xa9, 0x41]);
    assert_eq!(parse_utf8_char(0xc3, &mut cur), Ok('é'));
    assert_eq!(cur.len(), 1);
    let mut cur = ByteCursor::new(vec![0x9f, 0x98, 0x80, 0x41]);
    assert_eq!(parse_utf8_char(0xf0, &mut cur), Ok('😀'));
    assert_eq!(cur.len(), 1);
    let mut cur = ByteCursor::new(vec![0x9f, 0x98]);
    assert_eq!(parse_utf8_char(0xf0, &mut cur), Err(ParseError::Utf8));
    assert_eq!(cur.len(), 0);
    let mut cur = ByteCursor::new(vec![]);
    assert_eq!(parse_utf8_char(0xf0, &mut cur), Err(ParseError::Utf8));
}

#[test]
fn sequences_that_end_early() {
    assert_eq!(decode(b"\x1b"), (Err(ParseError::Event), 0));
    assert_eq!(decode(b"\x1b["), (Err(ParseError::Event), 0));
    assert_eq!(decode(b"\x1b[["), (Err(ParseError::Event), 0));
    assert_eq!(decode(b"\x1bO"), (Err(ParseError::Event), 0));
    assert_eq!(decode(b"\x1b[M"), (Err(ParseError::Event), 0));
    assert_eq!(decode(b"\x1b[M\x20"), (Err(ParseError::Event), 0));
    assert_eq!(decode(b"\x1b[M\x20\x21"), (Err(ParseError::Event), 0));
    assert_eq!(decode(b"\x1b[<"), (Err(ParseError::Event), 0));
    assert_eq!(decode(b"\x1b[<0;5;10"), (Err(ParseError::Event), 0));
}

#[test]
fn sequences_that_are_not_known() {
    assert_eq!(decode(b"\x1bOA"), (Err(ParseError::Event), 0));
    assert_eq!(decode(b"\x1bOT"), (Err(ParseError::Event), 0));
    assert_eq!(decode(b"\x1b[[F"), (Err(ParseError::Event), 0));
    assert_eq!(decode(b"\x1b[[@"), (Err(ParseError::Event), 0));
    assert_eq!(decode(b"\x1b[E"), (Err(ParseError::Event), 0));
    assert_eq!(decode(b"\x1b[~"), (Err(ParseError::Event), 0));
    assert_eq!(decode(b"\x1b[;"), (Err(ParseError::Event), 0));
}

#[test]
fn x10_mouse() {
    let at = Vec2::new(4, 18);
    assert_eq!(
        decode(b"\x1b[M\x20\x25\x2a"),
        (mouse(MouseEvent::ButtonPressed(MouseButton::Left, at)), 0)
    );
    assert_eq!(
        decode(b"\x1b[M\x21\x25\x2a"),
        (mouse(MouseEvent::ButtonPressed(MouseButton::Middle, at)), 0)
    );
    assert_eq!(
        decode(b"\x1b[M\x22\x25\x2a"),
        (mouse(MouseEvent::ButtonPressed(MouseButton::Right, at)), 0)
    );
    assert_eq!(
        decode(b"\x1b[M\x23\x25\x2a"),
        (mouse(MouseEvent::ButtonReleased(MouseButton::Left, at)), 0)
    );
    assert_eq!(
        decode(b"\x1b[M\x60\x25\x2a"),
        (mouse(MouseEvent::ButtonPressed(MouseButton::WheelUp, at)), 0)
    );
    assert_eq!(
        decode(b"\x1b[M\x61\x25\x2a"),
        (mouse(MouseEvent::ButtonPressed(MouseButton::WheelDown, at)), 0)
    );
    assert_eq!(
        decode(b"\x1b[M\x62\x25\x2a"),
        (mouse(MouseEvent::ButtonPressed(MouseButton::Right, at)), 0)
    );
    assert_eq!(
        decode(b"\x1b[M\x24\x25\x2a"),
        (mouse(MouseEvent::ButtonPressed(MouseButton::Left, at)), 0)
    );
}

#[test]
fn x10_mouse_with_small_and_large_bytes() {
    assert_eq!(
        decode(b"\x1b[M\x20\x0a\x00"),
        (
            mouse(MouseEvent::ButtonPressed(MouseButton::Left, Vec2::new(-1, -2))),
            0
        )
    );
    assert_eq!(
        decode(b"\x1b[M\x20\xff\xff"),
        (
            mouse(MouseEvent::ButtonPressed(MouseButton::Left, Vec2::new(222, 444))),
            0
        )
    );
    // the button code is the byte less 32, modulo 256: 0 gives 224, 0x90 gives 0x70
    assert_eq!(
        decode(b"\x1b[M\x00\x21\x21"),
        (
            mouse(MouseEvent::ButtonPressed(MouseButton::WheelUp, Vec2::new(0, 0))),
            0
        )
    );
    assert_eq!(
        decode(b"\x1b[M\x1f\x21\x21"),
        (
            mouse(MouseEvent::ButtonReleased(MouseButton::Left, Vec2::new(0, 0))),
            0
        )
    );
    assert_eq!(
        decode(b"\x1b[M\x90\x21\x21"),
        (
            mouse(MouseEvent::ButtonPressed(MouseButton::WheelUp, Vec2::new(0, 0))),
            0
        )
    );
    assert_eq!(
        decode(b"\x1b[M\xa1\x21\x21"),
        (
            mouse(MouseEvent::ButtonPressed(MouseButton::Middle, Vec2::new(0, 0))),
            0
        )
    );
}

#[test]
fn sgr_mouse() {
    let at = Vec2::new(4, 18);
    assert_eq!(
        decode(b"\x1b[<1;5;10M"),
        (mouse(MouseEvent::ButtonPressed(MouseButton::Middle, at)), 0)
    );
    assert_eq!(
        decode(b"\x1b[<2;5;10M"),
        (mouse(MouseEvent::ButtonPressed(MouseButton::Right, at)), 0)
    );
    assert_eq!(
        decode(b"\x1b[<64;5;10M"),
        (mouse(MouseEvent::ButtonPressed(MouseButton::WheelUp, at)), 0)
    );
    assert_eq!(
        decode(b"\x1b[<65;5;10M"),
        (mouse(MouseEvent::ButtonPressed(MouseButton::WheelDown, at)), 0)
    );
    assert_eq!(
        decode(b"\x1b[<2;5;10m"),
        (mouse(MouseEvent::ButtonReleased(MouseButton::Left, at)), 0)
    );
    assert_eq!(
        decode(b"\x1b[<32;5;10M"),
        (mouse(MouseEvent::Hold(MouseButton::Left, at)), 0)
    );
    assert_eq!(
        decode(b"\x1b[<32;5;10m"),
        (mouse(MouseEvent::Hold(MouseButton::Left, at)), 0)
    );
    assert_eq!(
        decode(b"\x1b[<3;5;10M"),
        (mouse(MouseEvent::ButtonReleased(MouseButton::Left, at)), 0)
    );
    assert_eq!(
        decode(b"\x1b[<0;65535;65535M"),
        (
            mouse(MouseEvent::ButtonPressed(
                MouseButton::Left,
                Vec2::new(65534, 131068)
            )),
            0
        )
    );
    assert_eq!(
        decode(b"\x1b[<0;0;0M"),
        (
            mouse(MouseEvent::ButtonPressed(MouseButton::Left, Vec2::new(-1, -2))),
            0
        )
    );
}

#[test]
fn sgr_mouse_numbers_as_written() {
    let at = Vec2::new(4, 18);
    assert_eq!(
        decode(b"\x1b[<+0;+5;0010M"),
        (mouse(MouseEvent::ButtonPressed(MouseButton::Left, at)), 0)
    );
    assert_eq!(
        decode(b"\x1b[<0;5;10;M"),
        (mouse(MouseEvent::ButtonPressed(MouseButton::Left, at)), 0)
    );
    assert_eq!(
        decode(b"\x1b[<0;5;10;what ever;M"),
        (mouse(MouseEvent::ButtonPressed(MouseButton::Left, at)), 0)
    );
    assert_eq!(
        decode("\x1b[<0;5;10;é;M".as_bytes()),
        (mouse(MouseEvent::ButtonPressed(MouseButton::Left, at)), 0)
    );
}

#[test]
fn sgr_mouse_that_is_malformed() {
    let bad: [&[u8]; 16] = [
        b"\x1b[<M",
        b"\x1b[<0M",
        b"\x1b[<0;5M",
        b"\x1b[<0;5;M",
        b"\x1b[<;5;10M",
        b"\x1b[<a;5;10M",
        b"\x1b[<0;5;1x0M",
        b"\x1b[<0;-5;10M",
        b"\x1b[<0;++5;10M",
        b"\x1b[<0;+;10M",
        b"\x1b[<0; 5;10M",
        b"\x1b[<0;5;65536M",
        b"\x1b[<0;99999999999999999999;10M",
        b"\x1b[<4;5;10M",
        b"\x1b[<66;5;10M",
        b"\x1b[<0;5;10;\xff;M",
    ];
    for bytes in bad {
        assert_eq!(decode(bytes), (Err(ParseError::Event), 0));
    }
}

#[test]
fn numbered_mouse() {
    let at = Vec2::new(4, 18);
    assert_eq!(
        decode(b"\x1b[32;5;10M"),
        (mouse(MouseEvent::ButtonPressed(MouseButton::Left, at)), 0)
    );
    assert_eq!(
        decode(b"\x1b[33;5;10M"),
        (mouse(MouseEvent::ButtonPressed(MouseButton::Middle, at)), 0)
    );
    assert_eq!(
        decode(b"\x1b[34;5;10M"),
        (mouse(MouseEvent::ButtonPressed(MouseButton::Right, at)), 0)
    );
    assert_eq!(
        decode(b"\x1b[35;5;10M"),
        (mouse(MouseEvent::ButtonReleased(MouseButton::Left, at)), 0)
    );
    assert_eq!(
        decode(b"\x1b[64;5;10M"),
        (mouse(MouseEvent::Hold(MouseButton::Left, at)), 0)
    );
    assert_eq!(
        decode(b"\x1b[96;5;10M"),
        (mouse(MouseEvent::ButtonPressed(MouseButton::WheelUp, at)), 0)
    );
    assert_eq!(
        decode(b"\x1b[97;5;10M"),
        (mouse(MouseEvent::ButtonPressed(MouseButton::WheelUp, at)), 0)
    );
    assert_eq!(
        decode(b"\x1b[32;5;10;7M"),
        (mouse(MouseEvent::ButtonPressed(MouseButton::Left, at)), 0)
    );
}

#[test]
fn numbered_mouse_that_is_malformed() {
    let bad: [&[u8]; 8] = [
        b"\x1b[32;5;10;M",
        b"\x1b[32;5M",
        b"\x1b[32M",
        b"\x1b[32;5;10;!M",
        b"\x1b[32;5;70000M",
        b"\x1b[36;5;10M",
        b"\x1b[0;5;10M",
        b"\x1b[32;;10M",
    ];
    for bytes in bad {
        assert_eq!(decode(bytes), (Err(ParseError::Event), 0));
    }
}

#[test]
fn numbered_sequence_ends_at_the_first_final_byte() {
    assert_eq!(decode(b"\x1b[32;5;10;xM"), (Err(ParseError::Event), 1));
    assert_eq!(decode(b"\x1b[3@~"), (Err(ParseError::Event), 1));
}

#[test]
fn parse_csi_after_the_bracket() {
    let mut cur = ByteCursor::new(b"A".to_vec());
    assert_eq!(parse_csi(&mut cur), Some(InputEvent::Key(KeyEvent::Up)));
    let mut cur = ByteCursor::new(b"<0;5;10M!".to_vec());
    assert_eq!(
        parse_csi(&mut cur),
        Some(InputEvent::Mouse(MouseEvent::ButtonPressed(
            MouseButton::Left,
            Vec2::new(4, 18)
        )))
    );
    assert_eq!(cur.len(), 1);
    let mut cur = ByteCursor::new(Vec::new());
    assert_eq!(parse_csi(&mut cur), None);
    let mut cur = ByteCursor::new(b"?25l".to_vec());
    assert_eq!(parse_csi(&mut cur), None);
    assert_eq!(cur.len(), 3);
}

#[test]
fn errors_in_words() {
    assert_eq!(ParseError::Event.message(), "Could not parse an event");
    assert_eq!(ParseError::Utf8.message(), "Input character is not valid UTF-8");
}
