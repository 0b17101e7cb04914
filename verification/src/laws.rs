//! Laws of the slot transitions: what holds of every slot, every native
//! report and every run of refreshes.

use vstd::prelude::*;
use crate::adapter::{discovered_buttons, has_button, lemma_discovered_fits, remapped};
use crate::model::{Fraction, MAX_DIGITAL};
use crate::native::{NativeCapabilities, NativeState};
use crate::slot::{
    connected_count, is_connected, status_of, with_presence, RefreshOutcome, SlotView,
};

verus! {

/// One poll of a slot's state: the answer of the native state query and the
/// answer of the capability query, `None` where a query failed or was not made.
pub struct Poll {
    pub native: Option<NativeState>,
    pub capabilities: Option<NativeCapabilities>,
}

/// The slot after a run of state refreshes, one for each poll in order.
pub open spec fn replay(slot: SlotView, polls: Seq<Poll>) -> SlotView
    decreases polls.len(),
{
    if polls.len() == 0 {
        slot
    } else {
        replay(slot, polls.drop_last()).refresh_state(
            polls.last().native,
            polls.last().capabilities,
        )
    }
}

/// The positive answers among the probes of a presence scan.
pub open spec fn answered() -> spec_fn(bool) -> bool {
    |probe: bool| probe
}

/// Every normalized thumbstick reading lies in `[-1, 1]`; the lowest raw
/// value gives exactly `-1`, the highest exactly `1`, and a larger raw value
/// never gives a smaller position.
pub proof fn lemma_thumbstick_normalized(raw: i16, other: i16)
    ensures
        Fraction::thumbstick(raw).in_unit_range(),
        raw == i16::MIN <==> Fraction::thumbstick(raw).numer == -Fraction::thumbstick(raw).denom,
        raw == i16::MAX <==> Fraction::thumbstick(raw).numer == Fraction::thumbstick(raw).denom,
        Fraction::thumbstick(raw).denom == Fraction::thumbstick(other).denom,
        raw <= other <==> Fraction::thumbstick(raw).numer <= Fraction::thumbstick(other).numer,
{
}

/// Every normalized trigger reading lies in `[-1, 1]`; a released trigger
/// gives exactly `-1`, a fully pressed one exactly `1`, and a larger raw
/// value never gives a smaller position.
pub proof fn lemma_trigger_normalized(raw: u8, other: u8)
    ensures
        Fraction::trigger(raw).in_unit_range(),
        raw == u8::MIN <==> Fraction::trigger(raw).numer == -Fraction::trigger(raw).denom,
        raw == u8::MAX <==> Fraction::trigger(raw).numer == Fraction::trigger(raw).denom,
        Fraction::trigger(raw).denom == Fraction::trigger(other).denom,
        raw <= other <==> Fraction::trigger(raw).numer <= Fraction::trigger(other).numer,
{
}

/// Refreshing a state twice from the same native answer gives what the
/// first refresh gave, and the second refresh recomputes nothing, whatever
/// the capability queries return.
pub proof fn lemma_refresh_state_idempotent(
    slot: SlotView,
    native: Option<NativeState>,
    first: Option<NativeCapabilities>,
    second: Option<NativeCapabilities>,
)
    ensures
        slot.refresh_state(native, first).refresh_state(native, second) == slot.refresh_state(
            native,
            first,
        ),
        slot.refresh_state(native, first).outcome(native) != RefreshOutcome::Recomputed,
{
}

/// Refreshing an info twice from the same capability report gives what the
/// first refresh gave.
pub proof fn lemma_refresh_info_idempotent(slot: SlotView, capabilities: Option<NativeCapabilities>)
    ensures
        slot.refresh_info(capabilities).refresh_info(capabilities) == slot.refresh_info(
            capabilities,
        ),
{
    if capabilities is Some {
        let found = discovered_buttons(capabilities->0.gamepad.buttons);
        assert(remapped(remapped(slot.buttons, found), found) =~= remapped(slot.buttons, found));
    }
}

/// Scanning twice with the same probe answers gives what the first scan gave.
pub proof fn lemma_presence_idempotent(slots: Seq<SlotView>, present: Seq<bool>)
    ensures
        with_presence(with_presence(slots, present), present) == with_presence(slots, present),
{
    assert(with_presence(with_presence(slots, present), present) =~= with_presence(
        slots,
        present,
    ));
}

/// A presence scan counts one connected slot for each positive probe.
pub proof fn lemma_count_matches_probes(slots: Seq<SlotView>, present: Seq<bool>)
    requires
        slots.len() == present.len(),
    ensures
        connected_count(with_presence(slots, present)) == present.filter(answered()).len(),
    decreases slots.len(),
{
    reveal(Seq::filter);
    let scanned = with_presence(slots, present);
    if slots.len() > 0 {
        lemma_count_matches_probes(slots.drop_last(), present.drop_last());
        assert(scanned.drop_last() =~= with_presence(slots.drop_last(), present.drop_last()));
        assert(scanned.last().state.status == status_of(present.last()));
    }
}

/// After a successful state refresh the stored sequence is the packet
/// number that the native state carried.
pub proof fn lemma_sequence_is_packet_number(
    slot: SlotView,
    native: NativeState,
    capabilities: Option<NativeCapabilities>,
)
    ensures
        slot.with_sample(native, capabilities).state.sequence == native.packet_number,
{
}

/// While the native packet counter does not run backwards, the stored
/// sequence does not either, and two successive reads store the same
/// sequence only if no new packet arrived between them.
pub proof fn lemma_sequence_monotone(
    slot: SlotView,
    earlier: NativeState,
    later: NativeState,
    first: Option<NativeCapabilities>,
    second: Option<NativeCapabilities>,
)
    requires
        earlier.packet_number <= later.packet_number,
    ensures
        ({
            let once = slot.with_sample(earlier, first);
            let twice = once.with_sample(later, second);
            &&& once.state.sequence <= twice.state.sequence
            &&& once.state.sequence == twice.state.sequence <==> earlier.packet_number
                == later.packet_number
            &&& once.state.sequence == twice.state.sequence ==> twice == once
        }),
{
}

/// A state refresh never touches the connection status.
pub proof fn lemma_refresh_state_keeps_status(
    slot: SlotView,
    native: Option<NativeState>,
    capabilities: Option<NativeCapabilities>,
)
    ensures
        slot.refresh_state(native, capabilities).state.status == slot.state.status,
{
}

/// An info refresh never touches the live state, and a presence probe
/// touches nothing but the status.
pub proof fn lemma_refreshes_are_separate(
    slot: SlotView,
    capabilities: Option<NativeCapabilities>,
    connected: bool,
)
    ensures
        slot.refresh_info(capabilities).state == slot.state,
        slot.with_status(connected).info == slot.info,
        slot.with_status(connected).buttons == slot.buttons,
        slot.with_status(connected).state.sequence == slot.state.sequence,
        slot.with_status(connected).state.digital == slot.state.digital,
        slot.with_status(connected).state.analog == slot.state.analog,
{
}

/// A capability refresh lists the discovered buttons at the front of the
/// mapping table, in recognition order, and counts exactly those.
pub proof fn lemma_discovery_fills_front(slot: SlotView, capabilities: NativeCapabilities)
    requires
        slot.well_formed(),
    ensures
        ({
            let found = discovered_buttons(capabilities.gamepad.buttons);
            let described = slot.with_capabilities(capabilities);
            &&& described.info.digital_count == found.len()
            &&& described.info.digital_count <= MAX_DIGITAL
            &&& described.buttons.take(found.len() as int) == found
            &&& forall|i: int|
                0 <= i < found.len() ==> has_button(
                    capabilities.gamepad.buttons,
                    #[trigger] described.buttons[i],
                )
        }),
{
    let buttons = capabilities.gamepad.buttons;
    let found = discovered_buttons(buttons);
    let described = slot.with_capabilities(capabilities);
    lemma_discovered_fits(buttons);
    assert(described.buttons.take(found.len() as int) =~= found);
    assert forall|i: int| 0 <= i < found.len() implies has_button(
        buttons,
        #[trigger] described.buttons[i],
    ) by {
        crate::native::BUTTON_ORDER@.lemma_filter_pred(crate::adapter::button_filter(buttons), i);
    }
}

/// Once a slot knows at least one button, no run of state refreshes
/// changes its info or its mapping table.
pub proof fn lemma_mapping_stable(slot: SlotView, polls: Seq<Poll>)
    requires
        slot.info.digital_count > 0,
    ensures
        replay(slot, polls).info == slot.info,
        replay(slot, polls).buttons == slot.buttons,
    decreases polls.len(),
{
    if polls.len() > 0 {
        lemma_mapping_stable(slot, polls.drop_last());
    }
}

/// Once a slot knows its buttons, every state refresh that sees a new
/// packet, after any run of earlier refreshes, sets button `i` of the state
/// from the bit that entry `i` of the mapping table names.
pub proof fn lemma_buttons_follow_mapping(
    slot: SlotView,
    polls: Seq<Poll>,
    native: NativeState,
    capabilities: Option<NativeCapabilities>,
    i: int,
)
    requires
        slot.well_formed(),
        0 <= i < slot.info.digital_count,
        replay(slot, polls).has_new_packet(native),
    ensures
        replay(slot, polls).with_sample(native, capabilities).state.digital[i] == has_button(
            native.gamepad.buttons,
            slot.buttons[i],
        ),
{
    lemma_mapping_stable(slot, polls);
    lemma_replay_well_formed(slot, polls);
}

/// No run of state refreshes leads out of the well-formed slots.
pub proof fn lemma_replay_well_formed(slot: SlotView, polls: Seq<Poll>)
    requires
        slot.well_formed(),
    ensures
        replay(slot, polls).well_formed(),
    decreases polls.len(),
{
    if polls.len() > 0 {
        lemma_replay_well_formed(slot, polls.drop_last());
        let before = replay(slot, polls.drop_last());
        if polls.last().native is Some {
            before.lemma_with_sample_well_formed(
                polls.last().native->0,
                polls.last().capabilities,
            );
        }
    }
}

/// A slot that is not connected, or connected, stays so under any run of
/// state refreshes: only a presence scan changes the status.
pub proof fn lemma_replay_keeps_status(slot: SlotView, polls: Seq<Poll>)
    ensures
        replay(slot, polls).state.status == slot.state.status,
    decreases polls.len(),
{
    if polls.len() > 0 {
        lemma_replay_keeps_status(slot, polls.drop_last());
    }
}

/// The number of connected slots never exceeds the number of slots.
pub proof fn lemma_connected_count_bounded(slots: Seq<SlotView>)
    ensures
        connected_count(slots) <= slots.len(),
{
    slots.lemma_filter_len(is_connected());
}

} // verus!
