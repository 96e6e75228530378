//! Tests for the keyboard and mouse event variants, their `Event`
//! dispatch, and the narrowing traits.

use input::keyboard::Key;
use input::keyboard::KeyboardEvent;
use input::keyboard::ToKeyboardEvent;
use input::mouse::Button;
use input::mouse::MouseEvent;
use input::mouse::ToMouseEvent;
use input::DeviceID;
use input::ElementID;
use input::Event;
use input::Timestamp;

fn device() -> DeviceID {
    DeviceID(String::from("keyboard0"))
}

fn key_press() -> KeyboardEvent {
    KeyboardEvent::KeyPress {
        timestamp: Timestamp(42),
        device: device(),
        element: ElementID(97),
        key: Some(Key::A),
    }
}

fn key_release() -> KeyboardEvent {
    KeyboardEvent::KeyRelease {
        timestamp: Timestamp(43),
        device: device(),
        element: ElementID(97),
        key: Some(Key::A),
    }
}

fn mouse_move(delta_x: f64, delta_y: f64) -> MouseEvent {
    MouseEvent::MouseMove {
        timestamp: Timestamp(7),
        device: DeviceID(String::from("mouse0")),
        element: ElementID(1),
        x: 100.0f64.to_bits(),
        y: 200.0f64.to_bits(),
        draw_x: 100.0f64.to_bits(),
        draw_y: 200.0f64.to_bits(),
        delta_x: delta_x.to_bits(),
        delta_y: delta_y.to_bits(),
        draw_delta_x: delta_x.to_bits(),
        draw_delta_y: delta_y.to_bits(),
    }
}

fn mouse_scroll(x: f64, y: f64) -> MouseEvent {
    MouseEvent::MouseScroll {
        timestamp: Timestamp(8),
        device: DeviceID(String::from("mouse0")),
        element: ElementID(2),
        x: x.to_bits(),
        y: y.to_bits(),
    }
}

fn value_of<E: Event>(ev: &E) -> f64 {
    f64::from_bits(ev.get_element_value())
}

#[test]
fn key_press_reads_one_and_release_reads_zero() {
    assert_eq!(value_of(&key_press()), 1.0);
    assert_eq!(value_of(&key_release()), 0.0);
}

#[test]
fn keyboard_event_getters_return_the_fields() {
    let ev = key_press();
    assert_eq!(ev.get_timestamp(), &Timestamp(42));
    assert_eq!(ev.get_timestamp().as_nanoseconds(), 42);
    assert_eq!(ev.get_device_id(), &device());
    assert_eq!(ev.get_element_id(), &ElementID(97));
}

#[test]
fn mouse_move_reads_its_x_delta_first() {
    assert_eq!(value_of(&mouse_move(3.0, 0.0)), 3.0);
    assert_eq!(value_of(&mouse_move(0.0, -2.0)), -2.0);
    assert_eq!(value_of(&mouse_move(1.5, -2.0)), 1.5);
    // A negative zero x delta still counts as zero.
    assert_eq!(value_of(&mouse_move(-0.0, -2.0)), -2.0);
}

#[test]
fn mouse_scroll_reads_its_x_amount_first() {
    assert_eq!(value_of(&mouse_scroll(0.0, 5.0)), 5.0);
    assert_eq!(value_of(&mouse_scroll(2.0, 5.0)), 2.0);
    assert_eq!(value_of(&mouse_scroll(-0.0, 5.0)), 5.0);
}

#[test]
fn mouse_press_reads_one_and_release_reads_zero() {
    let press = MouseEvent::MousePress {
        timestamp: Timestamp(9),
        device: DeviceID(String::from("mouse0")),
        element: ElementID(3),
        button: Some(Button::Left),
    };
    let release = MouseEvent::MouseRelease {
        timestamp: Timestamp(10),
        device: DeviceID(String::from("mouse0")),
        element: ElementID(3),
        button: Some(Button::Left),
    };
    assert_eq!(value_of(&press), 1.0);
    assert_eq!(value_of(&release), 0.0);
    assert_eq!(press.get_element_id(), &ElementID(3));
}

#[test]
fn identity_narrowing_returns_an_equal_copy() {
    let kev = key_press();
    assert_eq!(kev.to_keyboard_event(), Some(key_press()));
    let mev = mouse_scroll(0.0, 5.0);
    assert_eq!(mev.to_mouse_event(), Some(mouse_scroll(0.0, 5.0)));
}

#[test]
fn cross_family_narrowing_returns_none() {
    assert_eq!(mouse_move(3.0, 0.0).to_keyboard_event(), None);
    assert_eq!(mouse_scroll(0.0, 5.0).to_keyboard_event(), None);
    assert_eq!(key_press().to_mouse_event(), None);
    assert_eq!(key_release().to_mouse_event(), None);
}

#[test]
fn event_clones_compare_equal() {
    assert_eq!(key_press().clone(), key_press());
    assert_eq!(mouse_move(3.0, 4.0).clone(), mouse_move(3.0, 4.0));
}

fn hash_of<T: std::hash::Hash>(v: &T) -> u64 {
    let mut h = std::collections::hash_map::DefaultHasher::new();
    std::hash::Hash::hash(v, &mut h);
    std::hash::Hasher::finish(&h)
}

#[test]
fn buttons_are_ordered_and_hashable() {
    assert!(Button::Left < Button::Right);
    assert!(Button::Right < Button::Middle);
    assert!(Button::Middle < Button::X1);
    assert!(Button::X1 < Button::X2);
    assert_eq!(Button::Left, Button::Left);
    assert_eq!(hash_of(&Button::Left), hash_of(&Button::Left));
    assert_ne!(Button::Left, Button::X2);
}
