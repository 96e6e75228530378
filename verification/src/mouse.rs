//! Back-end agnostic mouse buttons.

use vstd::prelude::*;
use crate::Device;
use crate::DeviceID;
use crate::ElementID;
use crate::Event;
use crate::Timestamp;
use crate::VALUE_MAGNITUDE_MASK;
use crate::VALUE_ONE_BITS;
use crate::VALUE_ZERO_BITS;
use crate::is_zero_value;
use crate::keyboard::KeyboardEvent;
use crate::keyboard::ToKeyboardEvent;

verus! {

/// An object that represents a mouse.
pub trait MouseDevice: Device {
    /// Returns the position of the cursor on the surface.
    ///
    /// The value is the (x, y) coordinates in pixels relative to the
    /// top-left hand corner of the surface.
    fn get_cursor_position(&self) -> (i16, i16);
}

/// An event triggered by a mouse device.
///
/// Coordinates and deltas are carried as IEEE 754 binary64 bit patterns.
#[derive(Debug, PartialEq, Eq)]
pub enum MouseEvent {
    /// Pressed a mouse button.
    MousePress {
        /// When the event happened.
        timestamp: Timestamp,
        /// Which device triggered this event.
        device: DeviceID,
        /// Which button triggered this event.
        element: ElementID,
        /// The meaning of the button if known.
        button: Option<Button>,
    },
    /// Released a mouse button.
    MouseRelease {
        /// When the event happened.
        timestamp: Timestamp,
        /// Which device triggered this event.
        device: DeviceID,
        /// Which button triggered this event.
        element: ElementID,
        /// The meaning of the button if known.
        button: Option<Button>,
    },
    /// Moved mouse cursor.
    MouseMove {
        /// When the event happened.
        timestamp: Timestamp,
        /// Which device triggered this event.
        device: DeviceID,
        /// Which axis triggered this event.
        element: ElementID,
        /// x in window coordinates.
        x: u64,
        /// y in window coordinates.
        y: u64,
        /// x in drawing coordinates.
        draw_x: u64,
        /// y in drawing coordinates.
        draw_y: u64,
        /// Delta x in window coordinates.
        delta_x: u64,
        /// Delta y in window coordinates.
        delta_y: u64,
        /// Delta x in drawing coordinates.
        draw_delta_x: u64,
        /// Delta y in drawing coordinates.
        draw_delta_y: u64,
    },
    /// Scrolled mouse.
    MouseScroll {
        /// When the event happened.
        timestamp: Timestamp,
        /// Which device triggered this event.
        device: DeviceID,
        /// Which axis triggered this event.
        element: ElementID,
        /// x.
        x: u64,
        /// y.
        y: u64,
    },
}

impl Clone for MouseEvent {
    fn clone(&self) -> (r: Self)
        ensures
            r == *self,
    {
        match self {
            MouseEvent::MousePress { timestamp, device, element, button } => {
                MouseEvent::MousePress {
                    timestamp: *timestamp,
                    device: device.clone(),
                    element: *element,
                    button: *button,
                }
            },
            MouseEvent::MouseRelease { timestamp, device, element, button } => {
                MouseEvent::MouseRelease {
                    timestamp: *timestamp,
                    device: device.clone(),
                    element: *element,
                    button: *button,
                }
            },
            MouseEvent::MouseMove {
                timestamp,
                device,
                element,
                x,
                y,
                draw_x,
                draw_y,
                delta_x,
                delta_y,
                draw_delta_x,
                draw_delta_y,
            } => {
                MouseEvent::MouseMove {
                    timestamp: *timestamp,
                    device: device.clone(),
                    element: *element,
                    x: *x,
                    y: *y,
                    draw_x: *draw_x,
                    draw_y: *draw_y,
                    delta_x: *delta_x,
                    delta_y: *delta_y,
                    draw_delta_x: *draw_delta_x,
                    draw_delta_y: *draw_delta_y,
                }
            },
            MouseEvent::MouseScroll { timestamp, device, element, x, y } => {
                MouseEvent::MouseScroll {
                    timestamp: *timestamp,
                    device: device.clone(),
                    element: *element,
                    x: *x,
                    y: *y,
                }
            },
        }
    }
}

impl Event for MouseEvent {
    open spec fn spec_timestamp(&self) -> Timestamp {
        match *self {
            MouseEvent::MousePress { timestamp, .. } => timestamp,
            MouseEvent::MouseRelease { timestamp, .. } => timestamp,
            MouseEvent::MouseMove { timestamp, .. } => timestamp,
            MouseEvent::MouseScroll { timestamp, .. } => timestamp,
        }
    }

    open spec fn spec_device_id(&self) -> Seq<char> {
        match self {
            MouseEvent::MousePress { device, .. } => device@,
            MouseEvent::MouseRelease { device, .. } => device@,
            MouseEvent::MouseMove { device, .. } => device@,
            MouseEvent::MouseScroll { device, .. } => device@,
        }
    }

    open spec fn spec_element_id(&self) -> ElementID {
        match *self {
            MouseEvent::MousePress { element, .. } => element,
            MouseEvent::MouseRelease { element, .. } => element,
            MouseEvent::MouseMove { element, .. } => element,
            MouseEvent::MouseScroll { element, .. } => element,
        }
    }

    /// A press reads as one and a release as zero.  A move reads as its
    /// x delta unless that is zero, in which case it reads as its y
    /// delta; a scroll likewise over its x and y amounts.
    ///
    /// Collapsing a two-dimensional motion into one scalar, preferring
    /// the x component, is a deliberate lossy summary kept for interface
    /// compatibility: callers that need the full motion must match the
    /// concrete variant instead of going through `Event`.
    open spec fn spec_element_value(&self) -> u64 {
        match *self {
            MouseEvent::MousePress { .. } => VALUE_ONE_BITS,
            MouseEvent::MouseRelease { .. } => VALUE_ZERO_BITS,
            MouseEvent::MouseMove { delta_x, delta_y, .. } => if !is_zero_value(delta_x) {
                delta_x
            } else {
                delta_y
            },
            MouseEvent::MouseScroll { x, y, .. } => if !is_zero_value(x) {
                x
            } else {
                y
            },
        }
    }

    fn get_timestamp(&self) -> (r: &Timestamp) {
        match self {
            MouseEvent::MousePress { timestamp, .. } => timestamp,
            MouseEvent::MouseRelease { timestamp, .. } => timestamp,
            MouseEvent::MouseMove { timestamp, .. } => timestamp,
            MouseEvent::MouseScroll { timestamp, .. } => timestamp,
        }
    }

    fn get_device_id(&self) -> (r: &DeviceID) {
        match self {
            MouseEvent::MousePress { device, .. } => device,
            MouseEvent::MouseRelease { device, .. } => device,
            MouseEvent::MouseMove { device, .. } => device,
            MouseEvent::MouseScroll { device, .. } => device,
        }
    }

    fn get_element_id(&self) -> (r: &ElementID) {
        match self {
            MouseEvent::MousePress { element, .. } => element,
            MouseEvent::MouseRelease { element, .. } => element,
            MouseEvent::MouseMove { element, .. } => element,
            MouseEvent::MouseScroll { element, .. } => element,
        }
    }

    fn get_element_value(&self) -> (v: u64) {
        match self {
            MouseEvent::MousePress { .. } => VALUE_ONE_BITS,
            MouseEvent::MouseRelease { .. } => VALUE_ZERO_BITS,
            MouseEvent::MouseMove { delta_x, delta_y, .. } => {
                if *delta_x & VALUE_MAGNITUDE_MASK != 0 {
                    *delta_x
                } else {
                    *delta_y
                }
            },
            MouseEvent::MouseScroll { x, y, .. } => {
                if *x & VALUE_MAGNITUDE_MASK != 0 {
                    *x
                } else {
                    *y
                }
            },
        }
    }
}

/// Trait for events that can be turned into `MouseEvent`s.
///
/// Narrowing is fallible by design: an event that does not originate
/// from a mouse yields `None`, which is an absence, not an error.
pub trait ToMouseEvent: Event {
    /// What this event narrows to, as a mathematical value: the mouse
    /// event it is, or `None` when it does not originate from a mouse.
    spec fn spec_to_mouse_event(&self) -> Option<MouseEvent>;

    /// Turns the event into a mouse event.
    fn to_mouse_event(&self) -> (r: Option<MouseEvent>)
        ensures
            r == self.spec_to_mouse_event(),
    ;
}

impl ToMouseEvent for MouseEvent {
    /// The identity narrowing always succeeds and is a value copy.
    open spec fn spec_to_mouse_event(&self) -> Option<MouseEvent> {
        Some(*self)
    }

    fn to_mouse_event(&self) -> (r: Option<MouseEvent>)
        ensures
            r == Some(*self),
    {
        Some(self.clone())
    }
}

impl ToKeyboardEvent for MouseEvent {
    /// A mouse event never originates from a keyboard, so this
    /// narrowing always yields `None`.
    open spec fn spec_to_keyboard_event(&self) -> Option<KeyboardEvent> {
        None
    }

    fn to_keyboard_event(&self) -> (r: Option<KeyboardEvent>)
        ensures
            r is None,
    {
        None
    }
}

/// Represent a mouse button.
#[derive(Clone, Copy, Debug, PartialEq, Eq, Structural, PartialOrd, Ord, Hash)]
pub enum Button {
    /// Left mouse button.
    Left,
    /// Right mouse button.
    Right,
    /// Middle mouse button.
    Middle,
    /// Extra mouse button number 1.
    X1,
    /// Extra mouse button number 2.
    X2,
}

} // verus!
