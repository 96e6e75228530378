//! Back-end agnostic model of human-input devices.
//!
//! This crate defines a uniform data model for input devices (keyboards,
//! mice, and by extension other device families) so that application code
//! can consume input events without depending on any particular windowing
//! or OS input backend.  A backend produces values implementing the
//! [`Device`] and [`Event`] traits; application code narrows each event to
//! a concrete device family through the narrowing traits in [`keyboard`]
//! and [`mouse`].
//!
//! Element values (button states, axis readings) are carried as the raw
//! IEEE 754 binary64 bit pattern of the reading, held in a `u64`.  This
//! keeps the whole data model in the verified world; converting a bit
//! pattern to or from a native floating-point number is the backend's
//! one-line job at the boundary.

use vstd::prelude::*;

pub mod keyboard;
pub mod mouse;

verus! {

/// The IEEE 754 binary64 bit pattern of the value one.
pub const VALUE_ONE_BITS: u64 = 0x3FF0_0000_0000_0000;

/// The IEEE 754 binary64 bit pattern of positive zero.
pub const VALUE_ZERO_BITS: u64 = 0;

/// Mask selecting the exponent and mantissa of an IEEE 754 binary64 bit
/// pattern, i.e. everything but the sign.
pub const VALUE_MAGNITUDE_MASK: u64 = 0x7FFF_FFFF_FFFF_FFFF;

/// Holds exactly when the bit pattern `b` encodes a zero reading
/// (positive or negative zero).
pub open spec fn is_zero_value(b: u64) -> bool {
    b & VALUE_MAGNITUDE_MASK == 0
}

/// Decides whether the bit pattern `b` encodes a zero reading
/// (positive or negative zero).
pub fn value_is_zero(b: u64) -> (r: bool)
    ensures
        r == is_zero_value(b),
{
    b & VALUE_MAGNITUDE_MASK == 0
}

/// Represents when an event happened, as a number of nanoseconds since an
/// undefined, implementation-chosen epoch.
///
/// Ordering is total; the absolute value carries no cross-process meaning.
#[derive(Clone, Copy, Debug, PartialEq, Eq, Structural, PartialOrd, Ord, Hash)]
pub struct Timestamp(pub u64);

impl Timestamp {
    /// Returns the number of nanoseconds since an undefined epoch.
    pub fn as_nanoseconds(&self) -> (r: u64)
        ensures
            r == self.0,
    {
        self.0
    }
}

/// Represents an identifier for a device on the system.
///
/// Each device must have a different `DeviceID`. Two identical devices
/// should provide the same `DeviceID`.
///
/// The `DeviceID` should be persistent: if you store its value in a file,
/// then quit the program, relaunch it, and reload the value, it should
/// still match the same device.
///
/// The exact value is platform-specific and thus implementation-defined.
#[derive(Debug, PartialEq, Eq, PartialOrd, Ord, Hash)]
pub struct DeviceID(pub String);

impl View for DeviceID {
    type V = Seq<char>;

    open spec fn view(&self) -> Seq<char> {
        self.0@
    }
}

impl Clone for DeviceID {
    fn clone(&self) -> (r: Self)
        ensures
            r == *self,
    {
        DeviceID(self.0.clone())
    }
}

/// Represents an identifier of an element on a device.
///
/// The exact value is implementation-defined. For keyboards, this is
/// usually the scancode of the key.
#[derive(Clone, Copy, Debug, PartialEq, Eq, Structural, PartialOrd, Ord, Hash)]
pub struct ElementID(pub u64);

/// An element of a device. For example a button.
///
/// Axis ranges are carried as IEEE 754 binary64 bit patterns.
#[derive(Debug, PartialEq, Eq)]
pub enum Element {
    /// An axis which produces absolute values, always within the given
    /// range.
    ///
    /// Example: the axes of a joystick.
    AbsoluteAxis {
        /// Identifier for this element on the device.
        id: ElementID,
        /// The human-friendly name of this element.
        name: String,
        /// Bit patterns of the minimum and maximum values of the axis.
        range: (u64, u64),
    },
    /// An axis which produces relative values, with no fixed range.
    ///
    /// Example: an accelerometer, the axes of a mouse.
    RelativeAxis {
        /// Identifier for this element on the device.
        id: ElementID,
        /// The human-friendly name of this element.
        name: String,
    },
    /// A button which can be either pressed or released.
    ///
    /// Example: mouse buttons, keyboard keys.
    Button {
        /// Identifier for this element on the device.
        id: ElementID,
        /// The human-friendly name of this element.
        name: String,
    },
    /// An element of unspecified type.
    ///
    /// This can be used for "system" elements that produce events but
    /// that are neither axes nor buttons.
    UnknownElement {
        /// Identifier for this element on the device.
        id: ElementID,
    },
}

impl Element {
    /// The identifier of this element, whatever its kind.
    pub open spec fn spec_id(self) -> ElementID {
        match self {
            Element::AbsoluteAxis { id, .. } => id,
            Element::RelativeAxis { id, .. } => id,
            Element::Button { id, .. } => id,
            Element::UnknownElement { id } => id,
        }
    }

    /// Returns the identifier of this element, whatever its kind.
    pub fn id(&self) -> (r: ElementID)
        ensures
            r == self.spec_id(),
    {
        match self {
            Element::AbsoluteAxis { id, .. } => *id,
            Element::RelativeAxis { id, .. } => *id,
            Element::Button { id, .. } => *id,
            Element::UnknownElement { id } => *id,
        }
    }
}

/// Holds exactly when no two elements of `els` share an `ElementID`.
///
/// Every device must maintain this invariant over its element list.
pub open spec fn unique_element_ids(els: Seq<Element>) -> bool {
    forall|i: int, j: int|
        0 <= i < j < els.len() ==> #[trigger] els[i].spec_id() != #[trigger] els[j].spec_id()
}

/// Holds exactly when some element of `els` is a button with identifier
/// `id`.
pub open spec fn has_button_element(els: Seq<Element>, id: ElementID) -> bool {
    exists|i: int| 0 <= i < els.len() && (#[trigger] els[i]) is Button && els[i].spec_id() == id
}

/// Decides whether no two elements of `els` share an `ElementID`.
///
/// A backend can run this over a freshly built element list to check the
/// uniqueness invariant that `Device::get_elements` promises.
pub fn elements_have_unique_ids(els: &[Element]) -> (b: bool)
    ensures
        b == unique_element_ids(els@),
{
    let n = els.len();
    for i in 0..n
        invariant
            n == els@.len(),
            forall|p: int, q: int|
                0 <= p < q < els@.len() && p < i ==> #[trigger] els@[p].spec_id()
                    != #[trigger] els@[q].spec_id(),
    {
        for j in (i + 1)..n
            invariant
                i < n == els@.len(),
                forall|p: int, q: int|
                    0 <= p < q < els@.len() && p < i ==> #[trigger] els@[p].spec_id()
                        != #[trigger] els@[q].spec_id(),
            forall|q: int|
                i < q < j ==> els@[i as int].spec_id() != #[trigger] els@[q].spec_id(),
        {
            if els[i].id() == els[j].id() {
                return false;
            }
        }
    }
    true
}

/// Object which provides information about a specific device.
///
/// Concrete devices are supplied by a backend, not by this crate; the
/// contracts below are the obligations every backend implementation
/// takes on.
pub trait Device {
    /// The stable identity of this device, as a mathematical value.
    spec fn spec_device_id(&self) -> Seq<char>;

    /// The full, static capability list of this device, as a
    /// mathematical value.  It does not change over the device's
    /// lifetime.
    spec fn spec_elements(&self) -> Seq<Element>;

    /// Returns the ID of this device.
    fn get_device_id(&self) -> (r: &DeviceID)
        ensures
            r@ == self.spec_device_id(),
    ;

    /// Returns the list of elements (ie. buttons and axes) on this
    /// device.
    ///
    /// No two elements of the list share an `ElementID`.
    fn get_elements(&self) -> (r: &[Element])
        ensures
            r@ == self.spec_elements(),
            unique_element_ids(r@),
    ;

    /// Returns the human-friendly name of the device, for display only;
    /// it carries no uniqueness guarantee.
    fn get_human_friendly_name(&self) -> &str;

    /// Returns the bit pattern of the current value of an element.
    ///
    /// For absolute axes, the value is within the element's range.  For
    /// relative axes, the value is arbitrary.  For buttons, the value is
    /// either zero (released) or one (pressed).  What is returned for an
    /// ID that does not belong to this device is backend-defined.
    fn get_value(&self, id: &ElementID) -> (v: u64)
        ensures
            has_button_element(self.spec_elements(), *id) ==> v == VALUE_ZERO_BITS || v
                == VALUE_ONE_BITS,
    ;
}

/// Trait for an event produced by a device.
///
/// This is the polymorphism seam: application code written against
/// `Event` alone works for any device family.
pub trait Event {
    /// The moment this event happened, as a mathematical value.
    spec fn spec_timestamp(&self) -> Timestamp;

    /// The identity of the device that triggered this event, as a
    /// mathematical value.
    spec fn spec_device_id(&self) -> Seq<char>;

    /// The element that triggered this event, as a mathematical value.
    spec fn spec_element_id(&self) -> ElementID;

    /// The bit pattern of the new value of the element, as a
    /// mathematical value.
    spec fn spec_element_value(&self) -> u64;

    /// Returns the moment when the event happened.
    fn get_timestamp(&self) -> (r: &Timestamp)
        ensures
            *r == self.spec_timestamp(),
    ;

    /// Returns which device triggered this event.
    fn get_device_id(&self) -> (r: &DeviceID)
        ensures
            r@ == self.spec_device_id(),
    ;

    /// Returns which element triggered this event.
    fn get_element_id(&self) -> (r: &ElementID)
        ensures
            *r == self.spec_element_id(),
    ;

    /// Returns the bit pattern of the new value of the element.
    ///
    /// For absolute axes, the value is within the element's range.  For
    /// relative axes, the value is arbitrary.  For buttons, the value is
    /// either zero (released) or one (pressed).
    fn get_element_value(&self) -> (v: u64)
        ensures
            v == self.spec_element_value(),
    ;
}

} // verus!
