//! Device-node paths, by which an enumeration tells the interfaces of one
//! input device apart.

use vstd::prelude::*;

verus! {

/// First byte of the tag `js` that the legacy joystick interface carries in
/// its node name (`/dev/input/js0`).
pub const TAG_FIRST: u8 = 0x6a;

/// Second byte of the tag `js`.
pub const TAG_SECOND: u8 = 0x73;

/// Whether the tag `js` stands in `path` at position `at`.
pub open spec fn tag_at(path: Seq<u8>, at: int) -> bool {
    0 <= at && at + 1 < path.len() && path[at] == TAG_FIRST && path[at + 1] == TAG_SECOND
}

/// Whether the tag `js` occurs anywhere in `path`.
pub open spec fn names_joystick_interface(path: Seq<u8>) -> bool {
    exists|at: int| tag_at(path, at)
}

/// Tells whether a device-node path belongs to the legacy joystick
/// interface, which an enumeration of gamepads passes over.
pub fn is_joystick_interface(path: &[u8]) -> (found: bool)
    ensures
        found == names_joystick_interface(path@),
{
    if path.len() < 2 {
        return false;
    }
    let last: usize = path.len() - 1;
    let mut at: usize = 0;
    while at < last
        invariant
            at <= last,
            last + 1 == path.len(),
            forall|earlier: int| 0 <= earlier < at ==> !tag_at(path@, earlier),
        decreases last - at,
    {
        if path[at] == TAG_FIRST && path[at + 1] == TAG_SECOND {
            assert(tag_at(path@, at as int));
            return true;
        }
        at += 1;
    }
    false
}

} // verus!
