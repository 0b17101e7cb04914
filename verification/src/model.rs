//! The bounded data model of a single controller: its identity, its live
//! state, and the exact fractions that stand for normalized axis positions.

use vstd::prelude::*;

verus! {

/// Number of controller slots a context holds.
pub const MAX_DEVICES: usize = 8;

/// Capacity of the button array of a controller.
pub const MAX_DIGITAL: usize = 16;

/// Capacity of the axis array of a controller.
pub const MAX_ANALOG: usize = 8;

/// Width of the native thumbstick range: raw values run from -32768 to 32767.
pub const THUMBSTICK_SPAN: i32 = 65535;

/// Distance from the lowest raw thumbstick value to zero.
pub const THUMBSTICK_OFFSET: i32 = 32768;

/// Width of the native trigger range: raw values run from 0 to 255.
pub const TRIGGER_SPAN: i32 = 255;

/// Mathematical value of a [`ControllerInfo`].
pub struct ControllerInfoView {
    pub name: Seq<char>,
    pub digital_count: nat,
    pub analog_count: nat,
}

impl ControllerInfoView {
    /// The identity of a controller nobody has described yet.
    pub open spec fn null() -> Self {
        ControllerInfoView { name: "null"@, digital_count: 0, analog_count: 0 }
    }

    /// Both counts fit the fixed capacities.
    pub open spec fn within_capacity(self) -> bool {
        self.digital_count <= MAX_DIGITAL && self.analog_count <= MAX_ANALOG
    }
}

/// Identity and capabilities of a controller.
#[derive(Debug)]
pub struct ControllerInfo {
    pub name: String,
    pub digital_count: usize,
    pub analog_count: usize,
}

impl View for ControllerInfo {
    type V = ControllerInfoView;

    open spec fn view(&self) -> ControllerInfoView {
        ControllerInfoView {
            name: self.name@,
            digital_count: self.digital_count as nat,
            analog_count: self.analog_count as nat,
        }
    }
}

impl ControllerInfo {
    /// An info named `"null"` with no button and no axis.
    pub fn new() -> (info: Self)
        ensures
            info@ == ControllerInfoView::null(),
    {
        Self { name: "null".to_owned(), digital_count: 0, analog_count: 0 }
    }
}

/// Whether a controller currently answers in its slot.
#[derive(Debug, Clone, Copy, PartialEq, Eq, Structural)]
pub enum ControllerStatus {
    Disconnected,
    Connected,
}

/// An exact rational number `numer / denom`.
pub struct Fraction {
    pub numer: int,
    pub denom: int,
}

impl Fraction {
    /// The denominator is positive and the value lies in `[-1, 1]`.
    pub open spec fn in_unit_range(self) -> bool {
        0 < self.denom && -self.denom <= self.numer <= self.denom
    }

    /// The value `0`, the rest position of an axis that was never read.
    pub open spec fn zero() -> Fraction {
        Fraction { numer: 0, denom: 1 }
    }

    /// `(raw + 32768) / 65535 * 2 - 1`, brought to one denominator.
    pub open spec fn thumbstick(raw: i16) -> Fraction {
        Fraction {
            numer: 2 * (raw + THUMBSTICK_OFFSET) - THUMBSTICK_SPAN,
            denom: THUMBSTICK_SPAN as int,
        }
    }

    /// `raw / 255 * 2 - 1`, brought to one denominator.
    pub open spec fn trigger(raw: u8) -> Fraction {
        Fraction { numer: 2 * raw - TRIGGER_SPAN, denom: TRIGGER_SPAN as int }
    }
}

/// A normalized axis position, stored as an exact fraction of two integers.
///
/// Every value of this type lies in `[-1, 1]`.
#[derive(Debug, Clone, Copy, PartialEq, Eq, Structural)]
pub struct AxisValue {
    numerator: i32,
    denominator: i32,
}

impl View for AxisValue {
    type V = Fraction;

    closed spec fn view(&self) -> Fraction {
        Fraction { numer: self.numerator as int, denom: self.denominator as int }
    }
}

impl AxisValue {
    #[verifier::type_invariant]
    spec fn normalized(self) -> bool {
        self@.in_unit_range()
    }

    /// The rest position, `0`.
    pub fn neutral() -> (value: Self)
        ensures
            value@ == Fraction::zero(),
    {
        AxisValue { numerator: 0, denominator: 1 }
    }

    /// Normalizes a raw thumbstick reading: -32768 becomes -1 and 32767 becomes 1.
    pub fn from_thumbstick(raw: i16) -> (value: Self)
        ensures
            value@ == Fraction::thumbstick(raw),
    {
        let shifted: i32 = raw as i32 + THUMBSTICK_OFFSET;
        AxisValue { numerator: 2 * shifted - THUMBSTICK_SPAN, denominator: THUMBSTICK_SPAN }
    }

    /// Normalizes a raw trigger reading: 0 becomes -1 and 255 becomes 1.
    pub fn from_trigger(raw: u8) -> (value: Self)
        ensures
            value@ == Fraction::trigger(raw),
    {
        AxisValue { numerator: 2 * (raw as i32) - TRIGGER_SPAN, denominator: TRIGGER_SPAN }
    }

    /// The numerator of the fraction.
    pub fn numerator(&self) -> (n: i32)
        ensures
            n == self@.numer,
            -self@.denom <= n <= self@.denom,
    {
        proof {
            use_type_invariant(self);
        }
        self.numerator
    }

    /// The denominator of the fraction, always positive.
    pub fn denominator(&self) -> (d: i32)
        ensures
            d == self@.denom,
            d > 0,
    {
        proof {
            use_type_invariant(self);
        }
        self.denominator
    }
}

/// Mathematical value of a [`ControllerState`].
pub struct ControllerStateView {
    pub status: ControllerStatus,
    pub sequence: nat,
    pub digital: Seq<bool>,
    pub analog: Seq<Fraction>,
}

impl ControllerStateView {
    /// The state of a slot that has never been read: disconnected, sequence
    /// zero, no button held, every axis at rest.
    pub open spec fn disconnected() -> Self {
        ControllerStateView {
            status: ControllerStatus::Disconnected,
            sequence: 0,
            digital: Seq::new(MAX_DIGITAL as nat, |i: int| false),
            analog: Seq::new(MAX_ANALOG as nat, |i: int| Fraction::zero()),
        }
    }

    /// Both arrays have their fixed length and every axis lies in `[-1, 1]`.
    pub open spec fn well_formed(self) -> bool {
        &&& self.digital.len() == MAX_DIGITAL
        &&& self.analog.len() == MAX_ANALOG
        &&& forall|i: int| 0 <= i < self.analog.len() ==> (#[trigger] self.analog[i]).in_unit_range()
    }
}

/// Live state of a controller.
#[derive(Debug, Clone, Copy)]
pub struct ControllerState {
    pub status: ControllerStatus,
    pub sequence: usize,
    pub digital_state: [bool; MAX_DIGITAL],
    pub analog_state: [AxisValue; MAX_ANALOG],
}

impl View for ControllerState {
    type V = ControllerStateView;

    open spec fn view(&self) -> ControllerStateView {
        ControllerStateView {
            status: self.status,
            sequence: self.sequence as nat,
            digital: self.digital_state@,
            analog: Seq::new(MAX_ANALOG as nat, |i: int| self.analog_state[i]@),
        }
    }
}

impl ControllerState {
    /// A disconnected state with everything at zero.
    pub fn new() -> (state: Self)
        ensures
            state@ == ControllerStateView::disconnected(),
    {
        let state = Self {
            status: ControllerStatus::Disconnected,
            sequence: 0,
            digital_state: [false; MAX_DIGITAL],
            analog_state: [AxisValue::neutral(); MAX_ANALOG],
        };
        assert(state@.digital =~= ControllerStateView::disconnected().digital);
        assert(state@.analog =~= ControllerStateView::disconnected().analog);
        state
    }
}

} // verus!
