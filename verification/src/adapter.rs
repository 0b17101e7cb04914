//! Conversion of native reports into the bounded data model: the device
//! name, the button mapping table, the axis count, and the button and axis
//! arrays of a live state.

use vstd::prelude::*;
use vstd::string::*;
use crate::model::{AxisValue, Fraction, MAX_ANALOG, MAX_DIGITAL};
use crate::native::{
    NativeGamepad, BUTTON_KINDS, BUTTON_ORDER, SUBTYPE_ARCADE_STICK, SUBTYPE_DANCE_PAD,
    SUBTYPE_DRUM_KIT, SUBTYPE_FLIGHT_STICK, SUBTYPE_GAMEPAD, SUBTYPE_GUITAR, SUBTYPE_WHEEL,
};

verus! {

/// The words that a device subtype adds to the base name; nothing for a
/// subtype the library does not know.
pub open spec fn subtype_suffix(sub_type: u8) -> Seq<char> {
    if sub_type == SUBTYPE_GAMEPAD {
        " gamepad"@
    } else if sub_type == SUBTYPE_WHEEL {
        " wheel"@
    } else if sub_type == SUBTYPE_ARCADE_STICK {
        " arcade stick"@
    } else if sub_type == SUBTYPE_FLIGHT_STICK {
        " flight stick"@
    } else if sub_type == SUBTYPE_DANCE_PAD {
        " dance pad"@
    } else if sub_type == SUBTYPE_GUITAR {
        " guitar"@
    } else if sub_type == SUBTYPE_DRUM_KIT {
        " drum"@
    } else {
        Seq::empty()
    }
}

/// The name of a device of the given subtype.
pub open spec fn device_name(sub_type: u8) -> Seq<char> {
    "XBOX360"@ + subtype_suffix(sub_type) + " controller"@
}

/// Whether the bitmask `buttons` has a bit in common with `mask`.
pub open spec fn has_button(buttons: u16, mask: u16) -> bool {
    buttons & mask != 0
}

/// The test that picks from the recognized masks those present in `buttons`.
pub open spec fn button_filter(buttons: u16) -> spec_fn(u16) -> bool {
    |mask: u16| has_button(buttons, mask)
}

/// The recognized button masks present in `buttons`, in recognition order.
pub open spec fn discovered_buttons(buttons: u16) -> Seq<u16> {
    BUTTON_ORDER@.filter(button_filter(buttons))
}

/// A mapping table after a capability refresh that found `found`: the
/// discovered masks fill the table from the front, and the entries behind
/// them stay as they were.
pub open spec fn remapped(table: Seq<u16>, found: Seq<u16>) -> Seq<u16> {
    Seq::new(table.len(), |i: int| if i < found.len() { found[i] } else { table[i] })
}

/// 1 for a control the device has, 0 for one it lacks.
pub open spec fn present(nonzero: bool) -> nat {
    if nonzero { 1 } else { 0 }
}

/// The number of axes whose capability value is nonzero.
pub open spec fn axis_count(gamepad: NativeGamepad) -> nat {
    present(gamepad.left_trigger != 0) + present(gamepad.right_trigger != 0)
        + present(gamepad.thumb_lx != 0) + present(gamepad.thumb_ly != 0)
        + present(gamepad.thumb_rx != 0) + present(gamepad.thumb_ry != 0)
}

/// The button array after a state refresh: each of the first `count` entries
/// tests the bitmask against the mapping table, the others stay.
pub open spec fn digital_bits(old_bits: Seq<bool>, buttons: u16, table: Seq<u16>, count: nat) -> Seq<bool> {
    Seq::new(
        old_bits.len(),
        |i: int| if i < count { has_button(buttons, table[i]) } else { old_bits[i] },
    )
}

/// The axis array after a state refresh: left stick, the two triggers, right
/// stick, each normalized to `[-1, 1]`; entries behind them stay.
pub open spec fn analog_values(old_axes: Seq<Fraction>, gamepad: NativeGamepad) -> Seq<Fraction> {
    old_axes.update(0, Fraction::thumbstick(gamepad.thumb_lx)).update(
        1,
        Fraction::thumbstick(gamepad.thumb_ly),
    ).update(2, Fraction::trigger(gamepad.left_trigger)).update(
        3,
        Fraction::trigger(gamepad.right_trigger),
    ).update(4, Fraction::thumbstick(gamepad.thumb_rx)).update(
        5,
        Fraction::thumbstick(gamepad.thumb_ry),
    )
}

/// No capability report names more buttons than the library recognizes, so
/// the discovered masks always fit the mapping table.
pub proof fn lemma_discovered_fits(buttons: u16)
    ensures
        discovered_buttons(buttons).len() <= BUTTON_KINDS,
        BUTTON_KINDS <= MAX_DIGITAL,
{
    BUTTON_ORDER@.lemma_filter_len(button_filter(buttons));
}

/// Builds the name of a device of the given subtype.
pub fn build_device_name(sub_type: u8) -> (name: String)
    ensures
        name@ == device_name(sub_type),
{
    let mut name = String::from_str("XBOX360");
    if sub_type == SUBTYPE_GAMEPAD {
        name.append(" gamepad");
    } else if sub_type == SUBTYPE_WHEEL {
        name.append(" wheel");
    } else if sub_type == SUBTYPE_ARCADE_STICK {
        name.append(" arcade stick");
    } else if sub_type == SUBTYPE_FLIGHT_STICK {
        name.append(" flight stick");
    } else if sub_type == SUBTYPE_DANCE_PAD {
        name.append(" dance pad");
    } else if sub_type == SUBTYPE_GUITAR {
        name.append(" guitar");
    } else if sub_type == SUBTYPE_DRUM_KIT {
        name.append(" drum");
    } else {
        assert(name@ =~= "XBOX360"@ + subtype_suffix(sub_type));
    }
    name.append(" controller");
    name
}

/// Writes the recognized masks present in `buttons` to the front of `table`,
/// in recognition order, and returns how many there are.
pub fn discover_buttons(buttons: u16, table: &mut [u16; MAX_DIGITAL]) -> (count: usize)
    ensures
        count == discovered_buttons(buttons).len(),
        count <= BUTTON_KINDS,
        final(table)@ == remapped(old(table)@, discovered_buttons(buttons)),
{
    let ghost test = button_filter(buttons);
    let mut count: usize = 0;
    let mut next: usize = 0;
    assert(BUTTON_ORDER@.take(0).filter(test) =~= Seq::<u16>::empty()) by {
        reveal(Seq::filter);
    }
    assert(table@ =~= remapped(old(table)@, Seq::<u16>::empty()));
    while next < BUTTON_KINDS
        invariant
            next <= BUTTON_KINDS,
            count <= next,
            test == button_filter(buttons),
            count == BUTTON_ORDER@.take(next as int).filter(test).len(),
            table@ == remapped(old(table)@, BUTTON_ORDER@.take(next as int).filter(test)),
        decreases BUTTON_KINDS - next,
    {
        let mask = BUTTON_ORDER[next];
        let ghost seen = BUTTON_ORDER@.take(next as int);
        proof {
            assert(BUTTON_ORDER@.take(next + 1) =~= seen.push(mask));
            seen.lemma_filter_push(mask, test);
        }
        if buttons & mask != 0 {
            table[count] = mask;
            count += 1;
            assert(table@ =~= remapped(old(table)@, seen.filter(test).push(mask)));
        }
        next += 1;
    }
    assert(BUTTON_ORDER@.take(BUTTON_KINDS as int) =~= BUTTON_ORDER@);
    count
}

/// Counts the axes whose capability value is nonzero.
pub fn count_axes(gamepad: &NativeGamepad) -> (count: usize)
    ensures
        count == axis_count(*gamepad),
        count <= 6,
{
    let mut count: usize = 0;
    if gamepad.left_trigger != 0 {
        count += 1;
    }
    if gamepad.right_trigger != 0 {
        count += 1;
    }
    if gamepad.thumb_lx != 0 {
        count += 1;
    }
    if gamepad.thumb_ly != 0 {
        count += 1;
    }
    if gamepad.thumb_rx != 0 {
        count += 1;
    }
    if gamepad.thumb_ry != 0 {
        count += 1;
    }
    count
}

/// Sets each of the first `count` entries of `bits` by testing `buttons`
/// against the entry of `table` at the same index.
pub fn read_buttons(
    buttons: u16,
    table: &[u16; MAX_DIGITAL],
    count: usize,
    bits: &mut [bool; MAX_DIGITAL],
)
    requires
        count <= MAX_DIGITAL,
    ensures
        final(bits)@ == digital_bits(old(bits)@, buttons, table@, count as nat),
{
    let mut i: usize = 0;
    assert(bits@ =~= digital_bits(old(bits)@, buttons, table@, 0));
    while i < count
        invariant
            i <= count <= MAX_DIGITAL,
            bits@ == digital_bits(old(bits)@, buttons, table@, i as nat),
        decreases count - i,
    {
        bits[i] = buttons & table[i] != 0;
        i += 1;
        assert(bits@ =~= digital_bits(old(bits)@, buttons, table@, i as nat));
    }
}

/// Normalizes the six axes of a report into the front of `axes`.
pub fn read_axes(gamepad: &NativeGamepad, axes: &mut [AxisValue; MAX_ANALOG])
    ensures
        Seq::new(MAX_ANALOG as nat, |i: int| final(axes)[i]@) == analog_values(
            Seq::new(MAX_ANALOG as nat, |i: int| old(axes)[i]@),
            *gamepad,
        ),
{
    axes[0] = AxisValue::from_thumbstick(gamepad.thumb_lx);
    axes[1] = AxisValue::from_thumbstick(gamepad.thumb_ly);
    axes[2] = AxisValue::from_trigger(gamepad.left_trigger);
    axes[3] = AxisValue::from_trigger(gamepad.right_trigger);
    axes[4] = AxisValue::from_thumbstick(gamepad.thumb_rx);
    axes[5] = AxisValue::from_thumbstick(gamepad.thumb_ry);
    assert(Seq::new(MAX_ANALOG as nat, |i: int| axes[i]@) =~= analog_values(
        Seq::new(MAX_ANALOG as nat, |i: int| old(axes)[i]@),
        *gamepad,
    ));
}

} // verus!
