//! Keyboard and mouse events, and the decoder that reads them from the bytes
//! a terminal sends.

use vstd::prelude::*;
use vstd::string::StrSliceExecFns;
use vstd::utf8::{decode_utf8, valid_utf8};
use crate::cursor::ByteCursor;
use crate::math::Vec2;
use crate::numeric::{parse_fields, read_fields, split, split_fields};

verus! {

/// What the terminal reported.
#[derive(Debug, Clone, PartialEq, Eq, Hash)]
pub enum InputEvent {
    Key(KeyEvent),
    Mouse(MouseEvent),
    /// Bytes that are no event. The decoder of this library reports such bytes
    /// as a failure and never as an event of this kind.
    Unsupported(Vec<u8>),
}

/// A key press.
#[derive(Debug, Copy, Clone, PartialEq, Eq, Hash, Structural)]
pub enum KeyEvent {
    Backspace,
    Left,
    Right,
    Up,
    Down,
    Home,
    End,
    PageUp,
    PageDown,
    /// Shift and Tab.
    BackTab,
    Delete,
    Insert,
    /// A function key, by its number.
    F(u8),
    Char(char),
    Alt(char),
    Ctrl(char),
    Null,
    Esc,
}

/// A mouse action, with the button and the pixel it happened at.
#[derive(Debug, Copy, Clone, PartialEq, Eq, Hash, Structural)]
pub enum MouseEvent {
    ButtonPressed(MouseButton, Vec2),
    ButtonReleased(MouseButton, Vec2),
    Hold(MouseButton, Vec2),
}

#[derive(Debug, Copy, Clone, PartialEq, Eq, Hash, Structural)]
pub enum MouseButton {
    Left,
    Right,
    Middle,
    WheelUp,
    WheelDown,
}

/// Why bytes could not be read as an event.
#[derive(Debug, Copy, Clone, PartialEq, Eq, Hash, Structural)]
pub enum ParseError {
    /// The bytes are no sequence that the decoder knows, or end inside one.
    Event,
    /// The bytes are no well-formed UTF-8 character.
    Utf8,
}

impl ParseError {
    /// The error in words.
    pub fn message(&self) -> (m: &'static str)
        ensures
            m@ == (match *self {
                ParseError::Event => "Could not parse an event"@,
                ParseError::Utf8 => "Input character is not valid UTF-8"@,
            }),
    {
        match self {
            ParseError::Event => "Could not parse an event",
            ParseError::Utf8 => "Input character is not valid UTF-8",
        }
    }
}

/// What decoding one event gives: the event or the failure, and how many of
/// the bytes that followed the first were used up.
pub struct Decoded<T> {
    pub value: T,
    pub used: int,
}

/// The pixel under the character cell at column `cx`, row `cy`, both counted
/// from one: each character row holds two pixel rows.
pub open spec fn real_mouse_pos(cx: int, cy: int) -> Vec2 {
    Vec2 { x: (cx - 1) as i32, y: (2 * cy - 2) as i32 }
}

/// `b` less 32, but not below zero.
pub open spec fn less_32(b: u8) -> int {
    if b >= 32 {
        b - 32
    } else {
        0
    }
}

/// The mouse event of the X10 encoding, from the three bytes that follow
/// `ESC [ M`. The button code is the first byte less 32, taken modulo 256:
/// its two low bits choose the button, and bit 6 turns the first two into the
/// wheel.
pub open spec fn x10_event(b: u8, x: u8, y: u8) -> MouseEvent {
    let cb: int = if b >= 32 {
        b - 32
    } else {
        b + 224
    };
    let wheel = (cb / 64) % 2 == 1;
    let pos = real_mouse_pos(less_32(x), less_32(y));
    if cb % 4 == 0 {
        if wheel {
            MouseEvent::ButtonPressed(MouseButton::WheelUp, pos)
        } else {
            MouseEvent::ButtonPressed(MouseButton::Left, pos)
        }
    } else if cb % 4 == 1 {
        if wheel {
            MouseEvent::ButtonPressed(MouseButton::WheelDown, pos)
        } else {
            MouseEvent::ButtonPressed(MouseButton::Middle, pos)
        }
    } else if cb % 4 == 2 {
        MouseEvent::ButtonPressed(MouseButton::Right, pos)
    } else {
        MouseEvent::ButtonReleased(MouseButton::Left, pos)
    }
}

/// The button that an SGR button code names.
pub open spec fn sgr_button(cb: nat) -> Option<MouseButton> {
    if cb == 0 {
        Some(MouseButton::Left)
    } else if cb == 1 {
        Some(MouseButton::Middle)
    } else if cb == 2 {
        Some(MouseButton::Right)
    } else if cb == 64 {
        Some(MouseButton::WheelUp)
    } else if cb == 65 {
        Some(MouseButton::WheelDown)
    } else {
        None
    }
}

/// The mouse event of the SGR encoding, from its three numbers and its last
/// byte: `M` for a press, `m` for a release. A release and a hold name no
/// button on the wire and are reported with the left one.
pub open spec fn sgr_event(cb: nat, cx: nat, cy: nat, last: u8) -> Option<MouseEvent> {
    let pos = real_mouse_pos(cx as int, cy as int);
    if sgr_button(cb) is Some {
        if last == 0x4d {
            Some(MouseEvent::ButtonPressed(sgr_button(cb).unwrap(), pos))
        } else if last == 0x6d {
            Some(MouseEvent::ButtonReleased(MouseButton::Left, pos))
        } else {
            None
        }
    } else if cb == 32 {
        Some(MouseEvent::Hold(MouseButton::Left, pos))
    } else if cb == 3 {
        Some(MouseEvent::ButtonReleased(MouseButton::Left, pos))
    } else {
        None
    }
}

/// The mouse event of the numbered encoding that ends in `M`, from its three
/// numbers.
pub open spec fn numbered_mouse_event(cb: nat, cx: nat, cy: nat) -> Option<MouseEvent> {
    let pos = real_mouse_pos(cx as int, cy as int);
    if cb == 32 {
        Some(MouseEvent::ButtonPressed(MouseButton::Left, pos))
    } else if cb == 33 {
        Some(MouseEvent::ButtonPressed(MouseButton::Middle, pos))
    } else if cb == 34 {
        Some(MouseEvent::ButtonPressed(MouseButton::Right, pos))
    } else if cb == 35 {
        Some(MouseEvent::ButtonReleased(MouseButton::Left, pos))
    } else if cb == 64 {
        Some(MouseEvent::Hold(MouseButton::Left, pos))
    } else if cb == 96 || cb == 97 {
        Some(MouseEvent::ButtonPressed(MouseButton::WheelUp, pos))
    } else {
        None
    }
}

/// The key that the number before a `~` names.
pub open spec fn special_key(v: nat) -> Option<KeyEvent> {
    if v == 1 || v == 7 {
        Some(KeyEvent::Home)
    } else if v == 2 {
        Some(KeyEvent::Insert)
    } else if v == 3 {
        Some(KeyEvent::Delete)
    } else if v == 4 || v == 8 {
        Some(KeyEvent::End)
    } else if v == 5 {
        Some(KeyEvent::PageUp)
    } else if v == 6 {
        Some(KeyEvent::PageDown)
    } else if 11 <= v <= 15 {
        Some(KeyEvent::F((v - 10) as u8))
    } else if 17 <= v <= 21 {
        Some(KeyEvent::F((v - 11) as u8))
    } else if 23 <= v <= 24 {
        Some(KeyEvent::F((v - 12) as u8))
    } else {
        None
    }
}

/// Among the bytes after `ESC [ <`, the numbers run up to `M` or `m`; among
/// those of a numbered sequence, up to the first byte from 64 to 126.
pub open spec fn is_stop(sgr: bool, b: u8) -> bool {
    if sgr {
        b == 0x4d || b == 0x6d
    } else {
        64 <= b <= 126
    }
}

/// Index of the first stop byte of `s` at or after `from`; the length of `s`
/// if there is none.
pub open spec fn first_stop(s: Seq<u8>, sgr: bool, from: int) -> int
    decreases s.len() - from,
{
    if from < 0 || from >= s.len() {
        s.len() as int
    } else if is_stop(sgr, s[from]) {
        from
    } else {
        first_stop(s, sgr, from + 1)
    }
}

/// A mouse event as an input event, or nothing.
pub open spec fn mouse(m: Option<MouseEvent>) -> Option<InputEvent> {
    match m {
        Some(e) => Some(InputEvent::Mouse(e)),
        None => None,
    }
}

/// A key event as an input event, or nothing.
pub open spec fn key(k: Option<KeyEvent>) -> Option<InputEvent> {
    match k {
        Some(e) => Some(InputEvent::Key(e)),
        None => None,
    }
}

/// What the bytes `s` after `ESC [ <` decode to. The bytes up to the first
/// `M` or `m` must be UTF-8 and hold at least three fields, of which the first
/// three are numbers up to 65535: button code, column, row.
pub open spec fn sgr_spec(s: Seq<u8>) -> Decoded<Option<InputEvent>> {
    let k = first_stop(s, true, 0);
    if k >= s.len() {
        Decoded { value: None, used: s.len() as int }
    } else {
        let body = s.take(k);
        let nums = parse_fields(split_fields(body), 3, 0xffff);
        Decoded {
            value: if valid_utf8(body) && nums is Some {
                mouse(sgr_event(nums.unwrap()[0], nums.unwrap()[1], nums.unwrap()[2], s[k]))
            } else {
                None
            },
            used: k + 1,
        }
    }
}

/// What a numbered sequence decodes to: `ESC [`, the digit `first`, then `s`.
/// The bytes up to the final byte are fields, each a number. With the final
/// byte `M` they are numbers up to 65535, of which the first three give a
/// mouse event; with `~` there is one number up to 255, which names a key.
pub open spec fn numbered_spec(first: u8, s: Seq<u8>) -> Decoded<Option<InputEvent>> {
    let k = first_stop(s, false, 0);
    if k >= s.len() {
        Decoded { value: None, used: s.len() as int }
    } else {
        let fields = split_fields(seq![first] + s.take(k));
        let wide = parse_fields(fields, fields.len() as int, 0xffff);
        let narrow = parse_fields(fields, fields.len() as int, 0xff);
        Decoded {
            value: if s[k] == 0x4d {
                if wide is Some && fields.len() >= 3 {
                    mouse(
                        numbered_mouse_event(
                            wide.unwrap()[0],
                            wide.unwrap()[1],
                            wide.unwrap()[2],
                        ),
                    )
                } else {
                    None
                }
            } else if s[k] == 0x7e {
                if narrow is Some && fields.len() == 1 {
                    key(special_key(narrow.unwrap()[0]))
                } else {
                    None
                }
            } else {
                None
            },
            used: k + 1,
        }
    }
}

/// The key of a sequence `ESC [` and one more byte.
pub open spec fn csi_key(b: u8) -> Option<KeyEvent> {
    if b == 0x44 {
        Some(KeyEvent::Left)
    } else if b == 0x43 {
        Some(KeyEvent::Right)
    } else if b == 0x41 {
        Some(KeyEvent::Up)
    } else if b == 0x42 {
        Some(KeyEvent::Down)
    } else if b == 0x48 {
        Some(KeyEvent::Home)
    } else if b == 0x46 {
        Some(KeyEvent::End)
    } else if b == 0x5a {
        Some(KeyEvent::BackTab)
    } else {
        None
    }
}

/// What the bytes `s` after `ESC [` decode to, and how many of them that
/// takes. A sequence that the bytes end in the middle of decodes to nothing
/// and takes them all.
pub open spec fn csi_spec(s: Seq<u8>) -> Decoded<Option<InputEvent>> {
    if s.len() == 0 {
        Decoded { value: None, used: 0 }
    } else {
        let b = s[0];
        let t = s.skip(1);
        if b == 0x5b {
            if t.len() == 0 {
                Decoded { value: None, used: 1 }
            } else if 0x41 <= t[0] <= 0x45 {
                Decoded {
                    value: Some(InputEvent::Key(KeyEvent::F((1 + t[0] - 0x41) as u8))),
                    used: 2,
                }
            } else {
                Decoded { value: None, used: 2 }
            }
        } else if csi_key(b) is Some {
            Decoded { value: key(csi_key(b)), used: 1 }
        } else if b == 0x4d {
            if t.len() < 3 {
                Decoded { value: None, used: 1 + t.len() as int }
            } else {
                Decoded {
                    value: Some(InputEvent::Mouse(x10_event(t[0], t[1], t[2]))),
                    used: 4,
                }
            }
        } else if b == 0x3c {
            Decoded { value: sgr_spec(t).value, used: 1 + sgr_spec(t).used }
        } else if 0x30 <= b <= 0x39 {
            Decoded { value: numbered_spec(b, t).value, used: 1 + numbered_spec(b, t).used }
        } else {
            Decoded { value: None, used: 1 }
        }
    }
}

/// The first character that the UTF-8 bytes `s` hold.
pub open spec fn first_char(s: Seq<u8>) -> char {
    decode_utf8(s)[0]
}

/// The character that starts with the byte `c` and goes on in `s`. A byte
/// below 128 is itself the character. Otherwise bytes are taken from `s` until
/// those taken, after `c`, are one UTF-8 character; after three without that,
/// or when `s` ends, there is none.
pub open spec fn utf8_char_spec(c: u8, s: Seq<u8>) -> Decoded<Result<char, ParseError>> {
    let lead = seq![c];
    if c < 0x80 {
        Decoded { value: Ok(c as char), used: 0 }
    } else if s.len() >= 1 && valid_utf8(lead + s.take(1)) {
        Decoded { value: Ok(first_char(lead + s.take(1))), used: 1 }
    } else if s.len() >= 2 && valid_utf8(lead + s.take(2)) {
        Decoded { value: Ok(first_char(lead + s.take(2))), used: 2 }
    } else if s.len() >= 3 && valid_utf8(lead + s.take(3)) {
        Decoded { value: Ok(first_char(lead + s.take(3))), used: 3 }
    } else {
        Decoded {
            value: Err(ParseError::Utf8),
            used: if s.len() < 3 {
                s.len() as int
            } else {
                3
            },
        }
    }
}

/// An event or the failure to parse one.
pub open spec fn event_or_error(e: Option<InputEvent>) -> Result<InputEvent, ParseError> {
    match e {
        Some(v) => Ok(v),
        None => Err(ParseError::Event),
    }
}

/// What the byte `item` and the bytes `s` after it decode to, and how many
/// bytes of `s` that takes.
pub open spec fn event_spec(item: u8, s: Seq<u8>) -> Decoded<Result<InputEvent, ParseError>> {
    if item == 0x1b {
        if s.len() == 0 {
            Decoded { value: Err(ParseError::Event), used: 0 }
        } else if s[0] == 0x4f {
            if s.len() < 2 {
                Decoded { value: Err(ParseError::Event), used: 1 }
            } else if 0x50 <= s[1] <= 0x53 {
                Decoded {
                    value: Ok(InputEvent::Key(KeyEvent::F((1 + s[1] - 0x50) as u8))),
                    used: 2,
                }
            } else {
                Decoded { value: Err(ParseError::Event), used: 2 }
            }
        } else if s[0] == 0x5b {
            Decoded {
                value: event_or_error(csi_spec(s.skip(1)).value),
                used: 1 + csi_spec(s.skip(1)).used,
            }
        } else {
            let d = utf8_char_spec(s[0], s.skip(1));
            Decoded {
                value: match d.value {
                    Ok(ch) => Ok(InputEvent::Key(KeyEvent::Alt(ch))),
                    Err(e) => Err(e),
                },
                used: 1 + d.used,
            }
        }
    } else if item == 0x0a || item == 0x0d {
        Decoded { value: Ok(InputEvent::Key(KeyEvent::Char('\n'))), used: 0 }
    } else if item == 0x09 {
        Decoded { value: Ok(InputEvent::Key(KeyEvent::Char('\t'))), used: 0 }
    } else if item == 0x7f {
        Decoded { value: Ok(InputEvent::Key(KeyEvent::Backspace)), used: 0 }
    } else if 0x01 <= item <= 0x1a {
        Decoded {
            value: Ok(InputEvent::Key(KeyEvent::Ctrl((item - 0x01 + 0x61) as char))),
            used: 0,
        }
    } else if 0x1c <= item <= 0x1f {
        Decoded {
            value: Ok(InputEvent::Key(KeyEvent::Ctrl((item - 0x1c + 0x34) as char))),
            used: 0,
        }
    } else if item == 0 {
        Decoded { value: Ok(InputEvent::Key(KeyEvent::Null)), used: 0 }
    } else {
        let d = utf8_char_spec(item, s);
        Decoded {
            value: match d.value {
                Ok(ch) => Ok(InputEvent::Key(KeyEvent::Char(ch))),
                Err(e) => Err(e),
            },
            used: d.used,
        }
    }
}

/// The pixel under the character cell at column `cx`, row `cy`.
pub fn get_real_mouse_pos(cx: u16, cy: u16) -> (p: Vec2)
    ensures
        p == real_mouse_pos(cx as int, cy as int),
{
    Vec2::new(cx as i32 - 1, 2 * (cy as i32) - 2)
}

fn x10_mouse(b: u8, x: u8, y: u8) -> (e: MouseEvent)
    ensures
        e == x10_event(b, x, y),
{
    let cb: u8 = if b >= 32 {
        b - 32
    } else {
        b + 224
    };
    let cx: u16 = if x >= 32 {
        (x - 32) as u16
    } else {
        0
    };
    let cy: u16 = if y >= 32 {
        (y - 32) as u16
    } else {
        0
    };
    let wheel = (cb / 64) % 2 == 1;
    let pos = get_real_mouse_pos(cx, cy);
    let low = cb % 4;
    if low == 0 {
        if wheel {
            MouseEvent::ButtonPressed(MouseButton::WheelUp, pos)
        } else {
            MouseEvent::ButtonPressed(MouseButton::Left, pos)
        }
    } else if low == 1 {
        if wheel {
            MouseEvent::ButtonPressed(MouseButton::WheelDown, pos)
        } else {
            MouseEvent::ButtonPressed(MouseButton::Middle, pos)
        }
    } else if low == 2 {
        MouseEvent::ButtonPressed(MouseButton::Right, pos)
    } else {
        MouseEvent::ButtonReleased(MouseButton::Left, pos)
    }
}

fn sgr_mouse(cb: u16, cx: u16, cy: u16, last: u8) -> (e: Option<MouseEvent>)
    ensures
        e == sgr_event(cb as nat, cx as nat, cy as nat, last),
{
    let pos = get_real_mouse_pos(cx, cy);
    if cb <= 2 || cb == 64 || cb == 65 {
        let button = if cb == 0 {
            MouseButton::Left
        } else if cb == 1 {
            MouseButton::Middle
        } else if cb == 2 {
            MouseButton::Right
        } else if cb == 64 {
            MouseButton::WheelUp
        } else {
            MouseButton::WheelDown
        };
        if last == 0x4d {
            Some(MouseEvent::ButtonPressed(button, pos))
        } else if last == 0x6d {
            Some(MouseEvent::ButtonReleased(MouseButton::Left, pos))
        } else {
            None
        }
    } else if cb == 32 {
        Some(MouseEvent::Hold(MouseButton::Left, pos))
    } else if cb == 3 {
        Some(MouseEvent::ButtonReleased(MouseButton::Left, pos))
    } else {
        None
    }
}

fn numbered_mouse(cb: u16, cx: u16, cy: u16) -> (e: Option<MouseEvent>)
    ensures
        e == numbered_mouse_event(cb as nat, cx as nat, cy as nat),
{
    let pos = get_real_mouse_pos(cx, cy);
    if cb == 32 {
        Some(MouseEvent::ButtonPressed(MouseButton::Left, pos))
    } else if cb == 33 {
        Some(MouseEvent::ButtonPressed(MouseButton::Middle, pos))
    } else if cb == 34 {
        Some(MouseEvent::ButtonPressed(MouseButton::Right, pos))
    } else if cb == 35 {
        Some(MouseEvent::ButtonReleased(MouseButton::Left, pos))
    } else if cb == 64 {
        Some(MouseEvent::Hold(MouseButton::Left, pos))
    } else if cb == 96 || cb == 97 {
        Some(MouseEvent::ButtonPressed(MouseButton::WheelUp, pos))
    } else {
        None
    }
}

fn special(v: u8) -> (k: Option<KeyEvent>)
    ensures
        k == special_key(v as nat),
{
    if v == 1 || v == 7 {
        Some(KeyEvent::Home)
    } else if v == 2 {
        Some(KeyEvent::Insert)
    } else if v == 3 {
        Some(KeyEvent::Delete)
    } else if v == 4 || v == 8 {
        Some(KeyEvent::End)
    } else if v == 5 {
        Some(KeyEvent::PageUp)
    } else if v == 6 {
        Some(KeyEvent::PageDown)
    } else if 11 <= v && v <= 15 {
        Some(KeyEvent::F(v - 10))
    } else if 17 <= v && v <= 21 {
        Some(KeyEvent::F(v - 11))
    } else if 23 <= v && v <= 24 {
        Some(KeyEvent::F(v - 12))
    } else {
        None
    }
}

/// Calls `core::str::from_utf8`. The contract is taken from its documentation
/// and is not proved here: it gives the bytes as a string exactly when they are
/// well-formed UTF-8, and the string then holds the characters that they
/// encode.
#[verifier::external_body]
fn str_from_utf8(bytes: &[u8]) -> (r: Option<&str>)
    ensures
        r is Some <==> valid_utf8(bytes@),
        r matches Some(s) ==> s@ == decode_utf8(bytes@),
{
    core::str::from_utf8(bytes).ok()
}

/// Takes bytes from `iter` up to and with the first stop byte, appends those
/// before it to `buf` and returns it; without one, takes them all.
fn read_until(iter: &mut ByteCursor, sgr: bool, buf: &mut Vec<u8>) -> (last: Option<u8>)
    ensures
        ({
            let s = old(iter).remaining();
            let k = first_stop(s, sgr, 0);
            &&& final(buf)@ == old(buf)@ + s.take(k)
            &&& k < s.len() ==> last == Some(s[k]) && final(iter).remaining() == s.skip(k + 1)
            &&& k >= s.len() ==> last is None && final(iter).remaining() == Seq::<u8>::empty()
        }),
{
    let ghost s = iter.remaining();
    let ghost n: int = 0;
    loop
        invariant
            0 <= n <= s.len(),
            s == old(iter).remaining(),
            iter.remaining() == s.skip(n),
            buf@ == old(buf)@ + s.take(n),
            first_stop(s, sgr, 0) == first_stop(s, sgr, n),
        decreases s.len() - n,
    {
        match iter.next() {
            None => {
                return None;
            },
            Some(b) => {
                let stop = if sgr {
                    b == 0x4d || b == 0x6d
                } else {
                    64 <= b && b <= 126
                };
                if stop {
                    return Some(b);
                }
                buf.push(b);
                proof {
                    n = n + 1;
                }
            },
        }
    }
}

/// Reads the character that starts with the byte `c`, taking what more it
/// needs from `iter`.
pub fn parse_utf8_char(c: u8, iter: &mut ByteCursor) -> (r: Result<char, ParseError>)
    ensures
        r == utf8_char_spec(c, old(iter).remaining()).value,
        final(iter).remaining() == old(iter).remaining().skip(
            utf8_char_spec(c, old(iter).remaining()).used,
        ),
{
    let ghost s = iter.remaining();
    if c < 0x80 {
        return Ok(c as char);
    }
    let mut bytes: Vec<u8> = Vec::new();
    bytes.push(c);
    let ghost n: int = 0;
    loop
        invariant
            0 <= n < 3,
            c >= 0x80,
            s == old(iter).remaining(),
            n <= s.len(),
            iter.remaining() == s.skip(n),
            bytes@ == seq![c] + s.take(n),
            forall|k: int| 1 <= k <= n ==> !valid_utf8(seq![c] + #[trigger] s.take(k)),
        decreases 3 - n,
    {
        match iter.next() {
            None => {
                return Err(ParseError::Utf8);
            },
            Some(b) => {
                bytes.push(b);
                proof {
                    assert(bytes@ =~= seq![c] + s.take(n + 1));
                    n = n + 1;
                }
                match str_from_utf8(bytes.as_slice()) {
                    Some(st) => {
                        return Ok(st.get_char(0));
                    },
                    None => {},
                }
                if bytes.len() >= 4 {
                    return Err(ParseError::Utf8);
                }
            },
        }
    }
}

/// Decodes what follows `ESC [ <`.
fn parse_sgr(iter: &mut ByteCursor) -> (r: Option<InputEvent>)
    ensures
        r == sgr_spec(old(iter).remaining()).value,
        final(iter).remaining() == old(iter).remaining().skip(
            sgr_spec(old(iter).remaining()).used,
        ),
{
    let ghost s = iter.remaining();
    let mut buf: Vec<u8> = Vec::new();
    let last = read_until(iter, true, &mut buf);
    match last {
        None => None,
        Some(c) => {
            if str_from_utf8(buf.as_slice()).is_none() {
                return None;
            }
            let fields = split(&buf);
            match read_fields(&fields, 3, 0xffff) {
                None => None,
                Some(nums) => {
                    match sgr_mouse(nums[0] as u16, nums[1] as u16, nums[2] as u16, c) {
                        Some(m) => Some(InputEvent::Mouse(m)),
                        None => None,
                    }
                },
            }
        },
    }
}

/// Decodes a numbered sequence, whose first digit `first` is already read.
fn parse_numbered(first: u8, iter: &mut ByteCursor) -> (r: Option<InputEvent>)
    ensures
        r == numbered_spec(first, old(iter).remaining()).value,
        final(iter).remaining() == old(iter).remaining().skip(
            numbered_spec(first, old(iter).remaining()).used,
        ),
{
    let ghost s = iter.remaining();
    let mut buf: Vec<u8> = Vec::new();
    buf.push(first);
    let last = read_until(iter, false, &mut buf);
    match last {
        None => None,
        Some(c) => {
            let fields = split(&buf);
            if c == 0x4d {
                match read_fields(&fields, fields.len(), 0xffff) {
                    None => None,
                    Some(nums) => {
                        if nums.len() < 3 {
                            return None;
                        }
                        match numbered_mouse(nums[0] as u16, nums[1] as u16, nums[2] as u16) {
                            Some(m) => Some(InputEvent::Mouse(m)),
                            None => None,
                        }
                    },
                }
            } else if c == 0x7e {
                match read_fields(&fields, fields.len(), 0xff) {
                    None => None,
                    Some(nums) => {
                        if nums.len() != 1 {
                            return None;
                        }
                        match special(nums[0] as u8) {
                            Some(k) => Some(InputEvent::Key(k)),
                            None => None,
                        }
                    },
                }
            } else {
                None
            }
        },
    }
}

/// Decodes what follows `ESC [`, taking from `iter` the bytes of one
/// sequence. Gives nothing for a sequence that is not known, or that the
/// bytes end in the middle of.
pub fn parse_csi(iter: &mut ByteCursor) -> (r: Option<InputEvent>)
    ensures
        r == csi_spec(old(iter).remaining()).value,
        final(iter).remaining() == old(iter).remaining().skip(
            csi_spec(old(iter).remaining()).used,
        ),
{
    let ghost s = iter.remaining();
    let b = match iter.next() {
        None => {
            return None;
        },
        Some(b) => b,
    };
    let ghost t = s.skip(1);
    if b == 0x5b {
        match iter.next() {
            None => None,
            Some(v) => {
                if 0x41 <= v && v <= 0x45 {
                    Some(InputEvent::Key(KeyEvent::F(1 + v - 0x41)))
                } else {
                    None
                }
            },
        }
    } else if b == 0x44 {
        Some(InputEvent::Key(KeyEvent::Left))
    } else if b == 0x43 {
        Some(InputEvent::Key(KeyEvent::Right))
    } else if b == 0x41 {
        Some(InputEvent::Key(KeyEvent::Up))
    } else if b == 0x42 {
        Some(InputEvent::Key(KeyEvent::Down))
    } else if b == 0x48 {
        Some(InputEvent::Key(KeyEvent::Home))
    } else if b == 0x46 {
        Some(InputEvent::Key(KeyEvent::End))
    } else if b == 0x5a {
        Some(InputEvent::Key(KeyEvent::BackTab))
    } else if b == 0x4d {
        let cb = match iter.next() {
            None => {
                return None;
            },
            Some(v) => v,
        };
        let cx = match iter.next() {
            None => {
                return None;
            },
            Some(v) => v,
        };
        let cy = match iter.next() {
            None => {
                return None;
            },
            Some(v) => v,
        };
        Some(InputEvent::Mouse(x10_mouse(cb, cx, cy)))
    } else if b == 0x3c {
        let r = parse_sgr(iter);
        assert(t.skip(sgr_spec(t).used) =~= s.skip(1 + sgr_spec(t).used)) by {
            lemma_first_stop_bounds(t, true, 0);
        }
        r
    } else if 0x30 <= b && b <= 0x39 {
        let r = parse_numbered(b, iter);
        assert(t.skip(numbered_spec(b, t).used) =~= s.skip(1 + numbered_spec(b, t).used)) by {
            lemma_first_stop_bounds(t, false, 0);
        }
        r
    } else {
        None
    }
}

proof fn lemma_first_stop_bounds(s: Seq<u8>, sgr: bool, from: int)
    requires
        0 <= from <= s.len(),
    ensures
        from <= first_stop(s, sgr, from) <= s.len(),
    decreases s.len() - from,
{
    if from < s.len() && !is_stop(sgr, s[from]) {
        lemma_first_stop_bounds(s, sgr, from + 1);
    }
}

/// Decodes one event from the byte `item`, which is already read, and as
/// many bytes from `iter` as the event takes.
pub fn parse_event(item: u8, iter: &mut ByteCursor) -> (r: Result<InputEvent, ParseError>)
    ensures
        r == event_spec(item, old(iter).remaining()).value,
        final(iter).remaining() == old(iter).remaining().skip(
            event_spec(item, old(iter).remaining()).used,
        ),
{
    let ghost s = iter.remaining();
    if item == 0x1b {
        let b = match iter.next() {
            None => {
                return Err(ParseError::Event);
            },
            Some(b) => b,
        };
        let ghost t = s.skip(1);
        if b == 0x4f {
            match iter.next() {
                None => Err(ParseError::Event),
                Some(v) => {
                    if 0x50 <= v && v <= 0x53 {
                        Ok(InputEvent::Key(KeyEvent::F(1 + v - 0x50)))
                    } else {
                        Err(ParseError::Event)
                    }
                },
            }
        } else if b == 0x5b {
            let r = parse_csi(iter);
            proof {
                lemma_csi_used_bounds(t);
            }
            match r {
                Some(e) => Ok(e),
                None => Err(ParseError::Event),
            }
        } else {
            let r = parse_utf8_char(b, iter);
            match r {
                Ok(ch) => Ok(InputEvent::Key(KeyEvent::Alt(ch))),
                Err(e) => Err(e),
            }
        }
    } else if item == 0x0a || item == 0x0d {
        Ok(InputEvent::Key(KeyEvent::Char('\n')))
    } else if item == 0x09 {
        Ok(InputEvent::Key(KeyEvent::Char('\t')))
    } else if item == 0x7f {
        Ok(InputEvent::Key(KeyEvent::Backspace))
    } else if 0x01 <= item && item <= 0x1a {
        Ok(InputEvent::Key(KeyEvent::Ctrl((item - 0x01 + 0x61) as char)))
    } else if 0x1c <= item && item <= 0x1f {
        Ok(InputEvent::Key(KeyEvent::Ctrl((item - 0x1c + 0x34) as char)))
    } else if item == 0 {
        Ok(InputEvent::Key(KeyEvent::Null))
    } else {
        match parse_utf8_char(item, iter) {
            Ok(ch) => Ok(InputEvent::Key(KeyEvent::Char(ch))),
            Err(e) => Err(e),
        }
    }
}

/// A sequence uses no more bytes than there are.
pub proof fn lemma_csi_used_bounds(s: Seq<u8>)
    ensures
        0 <= csi_spec(s).used <= s.len(),
{
    if s.len() > 0 {
        lemma_first_stop_bounds(s.skip(1), true, 0);
        lemma_first_stop_bounds(s.skip(1), false, 0);
    }
}

/// The input listener, as far as it decides: it decodes the terminal's bytes,
/// and it remembers the button that was pressed last, because the terminal
/// names none when it reports a hold or a release.
pub struct Input {
    last_pressed: MouseButton,
}

/// The event that is published for `evt` while `button` is the one pressed
/// last: a release or a hold gets that button, anything else stays.
pub open spec fn published(button: MouseButton, evt: InputEvent) -> InputEvent {
    match evt {
        InputEvent::Mouse(MouseEvent::ButtonReleased(_, pos)) => InputEvent::Mouse(
            MouseEvent::ButtonReleased(button, pos),
        ),
        InputEvent::Mouse(MouseEvent::Hold(_, pos)) => InputEvent::Mouse(
            MouseEvent::Hold(button, pos),
        ),
        _ => evt,
    }
}

/// The button pressed last once `evt` has been seen.
pub open spec fn pressed_after(button: MouseButton, evt: InputEvent) -> MouseButton {
    match evt {
        InputEvent::Mouse(MouseEvent::ButtonPressed(b, _)) => b,
        _ => button,
    }
}

impl Input {
    /// The button that was pressed last.
    pub closed spec fn button(&self) -> MouseButton {
        self.last_pressed
    }

    /// A listener that has seen no press yet, which counts as the left button.
    pub fn new() -> (l: Self)
        ensures
            l.button() == MouseButton::Left,
    {
        Input { last_pressed: MouseButton::Left }
    }

    /// The escape sequences that make the terminal report the mouse: presses
    /// and releases, moves while a button is held, and both the numbered and
    /// the SGR encoding of what it reports.
    pub fn enable_mouse() -> (s: &'static str)
        ensures
            s@ == "\x1b[?1000h\x1b[?1002h\x1b[?1015h\x1b[?1006h"@,
    {
        "\x1b[?1000h\x1b[?1002h\x1b[?1015h\x1b[?1006h"
    }

    /// The escape sequences that end what `enable_mouse` began, in reverse.
    pub fn disable_mouse() -> (s: &'static str)
        ensures
            s@ == "\x1b[?1006l\x1b[?1015l\x1b[?1002l\x1b[?1000l"@,
    {
        "\x1b[?1006l\x1b[?1015l\x1b[?1002l\x1b[?1000l"
    }

    /// Takes a decoded event and gives the one to publish.
    pub fn track(&mut self, evt: InputEvent) -> (out: InputEvent)
        ensures
            out == published(old(self).button(), evt),
            final(self).button() == pressed_after(old(self).button(), evt),
    {
        match evt {
            InputEvent::Mouse(MouseEvent::ButtonPressed(button, pos)) => {
                self.last_pressed = button;
                InputEvent::Mouse(MouseEvent::ButtonPressed(button, pos))
            },
            InputEvent::Mouse(MouseEvent::ButtonReleased(_, pos)) => InputEvent::Mouse(
                MouseEvent::ButtonReleased(self.last_pressed, pos),
            ),
            InputEvent::Mouse(MouseEvent::Hold(_, pos)) => InputEvent::Mouse(
                MouseEvent::Hold(self.last_pressed, pos),
            ),
            other => other,
        }
    }

    /// One turn of the listener: takes the bytes of one event from `iter` and
    /// gives the event to publish. Gives nothing when no byte is left, and
    /// nothing for bytes that do not decode, which are dropped.
    pub fn poll(&mut self, iter: &mut ByteCursor) -> (out: Option<InputEvent>)
        ensures
            ({
                let s = old(iter).remaining();
                if s.len() == 0 {
                    &&& out is None
                    &&& final(iter).remaining() == s
                    &&& final(self).button() == old(self).button()
                } else {
                    let d = event_spec(s[0], s.skip(1));
                    &&& final(iter).remaining() == s.skip(1 + d.used)
                    &&& match d.value {
                        Ok(evt) => {
                            &&& out == Some(published(old(self).button(), evt))
                            &&& final(self).button() == pressed_after(old(self).button(), evt)
                        },
                        Err(_) => out is None && final(self).button() == old(self).button(),
                    }
                }
            }),
    {
        let ghost s = iter.remaining();
        match iter.next() {
            None => None,
            Some(item) => {
                let r = parse_event(item, iter);
                proof {
                    lemma_event_used_bounds(item, s.skip(1));
                }
                match r {
                    Ok(evt) => Some(self.track(evt)),
                    Err(_) => None,
                }
            },
        }
    }
}

/// An event uses no more bytes than there are.
pub proof fn lemma_event_used_bounds(item: u8, s: Seq<u8>)
    ensures
        0 <= event_spec(item, s).used <= s.len(),
{
    if s.len() > 0 {
        lemma_csi_used_bounds(s.skip(1));
    }
}

/// The button of a press stays with the holds and releases that follow it,
/// whatever button the decoder put into them.
pub proof fn lemma_button_memory(
    before: MouseButton,
    pressed: MouseButton,
    p0: Vec2,
    held: MouseButton,
    p1: Vec2,
    released: MouseButton,
    p2: Vec2,
)
    ensures
        ({
            let e0 = InputEvent::Mouse(MouseEvent::ButtonPressed(pressed, p0));
            let e1 = InputEvent::Mouse(MouseEvent::Hold(held, p1));
            let e2 = InputEvent::Mouse(MouseEvent::ButtonReleased(released, p2));
            let b0 = pressed_after(before, e0);
            let b1 = pressed_after(b0, e1);
            &&& published(before, e0) == e0
            &&& published(b0, e1) == InputEvent::Mouse(MouseEvent::Hold(pressed, p1))
            &&& published(b1, e2) == InputEvent::Mouse(MouseEvent::ButtonReleased(pressed, p2))
        }),
{
}

} // verus!
