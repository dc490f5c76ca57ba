use halfblock::cursor::ByteCursor;
use halfblock::input::{Input, InputEvent, KeyEvent, MouseButton, MouseEvent};
use halfblock::math::Vec2;

#[test]
fn button_stays_with_hold_and_release() {
    let p0 = Vec2::new(1, 2);
    let p1 = Vec2::new(3, 4);
    let p2 = Vec2::new(5, 6);
    let mut listener = Input::new();
    assert_eq!(
        listener.track(InputEvent::Mouse(MouseEvent::ButtonPressed(MouseButton::Right, p0))),
        InputEvent::Mouse(MouseEvent::ButtonPressed(MouseButton::Right, p0))
    );
    assert_eq!(
        listener.track(InputEvent::Mouse(MouseEvent::Hold(MouseButton::Left, p1))),
        InputEvent::Mouse(MouseEvent::Hold(MouseButton::Right, p1))
    );
    assert_eq!(
        listener.track(InputEvent::Mouse(MouseEvent::ButtonReleased(MouseButton::Left, p2))),
        InputEvent::Mouse(MouseEvent::ButtonReleased(MouseButton::Right, p2))
    );
    assert_eq!(
        listener.track(InputEvent::Mouse(MouseEvent::Hold(MouseButton::WheelDown, p1))),
        InputEvent::Mouse(MouseEvent::Hold(MouseButton::Right, p1))
    );
}

#[test]
fn before_any_press_the_button_is_the_left_one() {
    let mut listener = Input::new();
    let p = Vec2::new(0, 0);
    assert_eq!(
        listener.track(InputEvent::Mouse(MouseEvent::ButtonReleased(MouseButton::Middle, p))),
        InputEvent::Mouse(MouseEvent::ButtonReleased(MouseButton::Left, p))
    );
}

#[test]
fn other_events_pass_unchanged() {
    let mut listener = Input::new();
    let p = Vec2::new(9, 9);
    assert_eq!(
        listener.track(InputEvent::Mouse(MouseEvent::ButtonPressed(MouseButton::Middle, p))),
        InputEvent::Mouse(MouseEvent::ButtonPressed(MouseButton::Middle, p))
    );
    assert_eq!(
        listener.track(InputEvent::Key(KeyEvent::Up)),
        InputEvent::Key(KeyEvent::Up)
    );
    assert_eq!(
        listener.track(InputEvent::Unsupported(vec![1, 2, 3])),
        InputEvent::Unsupported(vec![1, 2, 3])
    );
    assert_eq!(
        listener.track(InputEvent::Mouse(MouseEvent::Hold(MouseButton::Left, p))),
        InputEvent::Mouse(MouseEvent::Hold(MouseButton::Middle, p))
    );
}

#[test]
fn poll_decodes_a_stream_and_drops_what_fails() {
    let mut bytes = Vec::new();
    bytes.extend_from_slice(b"\x1b[<2;5;10M");
    bytes.extend_from_slice(b"\x1b[<32;6;10M");
    bytes.extend_from_slice(b"\x1b[q");
    bytes.extend_from_slice(b"\x1b[<2;7;11m");
    bytes.extend_from_slice(b"\x1b[M\x23\x25\x2a");
    bytes.extend_from_slice(b"x");
    let mut cur = ByteCursor::new(bytes);
    let mut listener = Input::new();
    assert_eq!(
        listener.poll(&mut cur),
        Some(InputEvent::Mouse(MouseEvent::ButtonPressed(
            MouseButton::Right,
            Vec2::new(4, 18)
        )))
    );
    assert_eq!(
        listener.poll(&mut cur),
        Some(InputEvent::Mouse(MouseEvent::Hold(
            MouseButton::Right,
            Vec2::new(5, 18)
        )))
    );
    assert_eq!(listener.poll(&mut cur), None);
    assert_eq!(
        listener.poll(&mut cur),
        Some(InputEvent::Mouse(MouseEvent::ButtonReleased(
            MouseButton::Right,
            Vec2::new(6, 20)
        )))
    );
    assert_eq!(
        listener.poll(&mut cur),
        Some(InputEvent::Mouse(MouseEvent::ButtonReleased(
            MouseButton::Right,
            Vec2::new(4, 18)
        )))
    );
    assert_eq!(
        listener.poll(&mut cur),
        Some(InputEvent::Key(KeyEvent::Char('x')))
    );
    assert_eq!(cur.len(), 0);
    assert_eq!(listener.poll(&mut cur), None);
}

#[test]
fn mouse_reporting_sequences() {
    assert_eq!(
        Input::enable_mouse(),
        "\x1b[?1000h\x1b[?1002h\x1b[?1015h\x1b[?1006h"
    );
    assert_eq!(
        Input::disable_mouse(),
        "\x1b[?1006l\x1b[?1015l\x1b[?1002l\x1b[?1000l"
    );
}

#[test]
fn input() {
    // the keys and the mouse move a point about a screen of 40 by 20
    let size = Vec2::new(40, 20);
    let mut pos = size / 2;
    let mut bytes = Vec::new();
    bytes.extend_from_slice(b"\x1b[A\x1b[A\x1b[D\x1b[B\x1b[C\x1b[C");
    bytes.extend_from_slice(b"\x1b[<0;5;10M");
    bytes.extend_from_slice(b"\x1b[<32;6;10M");
    bytes.extend_from_slice(b"\x1b[<0;9;9m");
    bytes.extend_from_slice(b"\x1b[B");
    bytes.push(0x03);
    let mut cur = ByteCursor::new(bytes);
    let mut listener = Input::new();
    let mut seen = Vec::new();
    let mut stopped = false;
    while cur.len() > 0 && !stopped {
        if let Some(event) = listener.poll(&mut cur) {
            match event {
                InputEvent::Key(event) => match event {
                    KeyEvent::Ctrl('c') => stopped = true,
                    KeyEvent::Up => {
                        if pos.y > 1 {
                            pos.y -= 1
                        }
                    }
                    KeyEvent::Down => {
                        if pos.y <= size.y - 2 {
                            pos.y += 1
                        }
                    }
                    KeyEvent::Left => {
                        if pos.x > 1 {
                            pos.x -= 1
                        }
                    }
                    KeyEvent::Right => {
                        if pos.x <= size.x - 2 {
                            pos.x += 1
                        }
                    }
                    _ => (),
                },
                InputEvent::Mouse(event) => match event {
                    MouseEvent::ButtonPressed(_, mpos) | MouseEvent::Hold(_, mpos) => pos = mpos,
                    _ => (),
                },
                _ => (),
            }
            seen.push(pos);
        }
    }
    assert!(stopped);
    assert_eq!(cur.len(), 0);
    assert_eq!(
        seen,
        vec![
            Vec2::new(20, 9),
            Vec2::new(20, 8),
            Vec2::new(19, 8),
            Vec2::new(19, 9),
            Vec2::new(20, 9),
            Vec2::new(21, 9),
            Vec2::new(4, 18),
            Vec2::new(5, 18),
            Vec2::new(5, 18),
            Vec2::new(5, 19),
            Vec2::new(5, 19),
        ]
    );
}
