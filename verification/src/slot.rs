//! The record a context keeps for one controller slot, as a mathematical
//! value, and the transitions a refresh applies to it.

use vstd::prelude::*;
use crate::adapter::{
    analog_values, axis_count, device_name, digital_bits, discovered_buttons,
    lemma_discovered_fits, remapped,
};
use crate::model::{
    ControllerInfoView, ControllerStateView, ControllerStatus, MAX_DEVICES, MAX_DIGITAL,
};
use crate::native::{NativeCapabilities, NativeState};

verus! {

/// What a state refresh did to a slot.
#[derive(Debug, Clone, Copy, PartialEq, Eq, Structural)]
pub enum RefreshOutcome {
    /// There was no native state to read, or no such slot; nothing changed.
    Unavailable,
    /// The native packet number is the stored one; nothing was recomputed.
    Unchanged,
    /// A new packet arrived; the button and axis arrays were recomputed.
    Recomputed,
}

/// The record of one slot: identity, live state and button mapping table.
///
/// Entry `i` of `buttons` names the native button that entry `i` of
/// `state.digital` reports.
pub struct SlotView {
    pub info: ControllerInfoView,
    pub state: ControllerStateView,
    pub buttons: Seq<u16>,
}

/// The status that a presence probe gives a slot.
pub open spec fn status_of(connected: bool) -> ControllerStatus {
    if connected {
        ControllerStatus::Connected
    } else {
        ControllerStatus::Disconnected
    }
}

impl SlotView {
    /// A slot nobody has refreshed: null info, disconnected state, empty table.
    pub open spec fn initial() -> Self {
        SlotView {
            info: ControllerInfoView::null(),
            state: ControllerStateView::disconnected(),
            buttons: Seq::new(MAX_DIGITAL as nat, |i: int| 0u16),
        }
    }

    /// The counts fit the capacities, the arrays have their fixed lengths and
    /// every axis lies in `[-1, 1]`.
    pub open spec fn well_formed(self) -> bool {
        &&& self.info.within_capacity()
        &&& self.state.well_formed()
        &&& self.buttons.len() == MAX_DIGITAL
    }

    /// The slot after a presence probe: only the status changes.
    pub open spec fn with_status(self, connected: bool) -> Self {
        SlotView {
            info: self.info,
            state: ControllerStateView {
                status: status_of(connected),
                sequence: self.state.sequence,
                digital: self.state.digital,
                analog: self.state.analog,
            },
            buttons: self.buttons,
        }
    }

    /// The slot after a capability report was taken in: the name follows
    /// the subtype, the discovered buttons fill the mapping table from the
    /// front in recognition order, and the axis count is the number of axes
    /// the report marks. The live state is not touched.
    pub open spec fn with_capabilities(self, capabilities: NativeCapabilities) -> Self {
        let found = discovered_buttons(capabilities.gamepad.buttons);
        SlotView {
            info: ControllerInfoView {
                name: device_name(capabilities.sub_type),
                digital_count: found.len(),
                analog_count: axis_count(capabilities.gamepad),
            },
            state: self.state,
            buttons: remapped(self.buttons, found),
        }
    }

    /// The slot after an info refresh: a failed capability query leaves it
    /// as it was.
    pub open spec fn refresh_info(self, capabilities: Option<NativeCapabilities>) -> Self {
        match capabilities {
            Some(report) => self.with_capabilities(report),
            None => self,
        }
    }

    /// Whether `native` carries a packet number other than the stored one.
    pub open spec fn has_new_packet(self, native: NativeState) -> bool {
        native.packet_number as nat != self.state.sequence
    }

    /// Whether a state refresh with `native` will consult a capability
    /// report: there is a new packet and no button is known yet.
    pub open spec fn needs_capabilities(self, native: Option<NativeState>) -> bool {
        native matches Some(sample) && self.has_new_packet(sample) && self.info.digital_count == 0
    }

    /// The slot after a native state was read. With the stored packet number
    /// nothing changes. With a new one the sequence follows it, the info is
    /// refreshed first if no button is known, the first `digital_count`
    /// buttons are read through the mapping table and the six axes are
    /// normalized. The status is not touched.
    pub open spec fn with_sample(
        self,
        native: NativeState,
        capabilities: Option<NativeCapabilities>,
    ) -> Self {
        if !self.has_new_packet(native) {
            self
        } else {
            let known = if self.info.digital_count == 0 {
                self.refresh_info(capabilities)
            } else {
                self
            };
            SlotView {
                info: known.info,
                state: ControllerStateView {
                    status: self.state.status,
                    sequence: native.packet_number as nat,
                    digital: digital_bits(
                        self.state.digital,
                        native.gamepad.buttons,
                        known.buttons,
                        known.info.digital_count,
                    ),
                    analog: analog_values(self.state.analog, native.gamepad),
                },
                buttons: known.buttons,
            }
        }
    }

    /// The slot after a state refresh: a failed state query leaves it as it
    /// was.
    pub open spec fn refresh_state(
        self,
        native: Option<NativeState>,
        capabilities: Option<NativeCapabilities>,
    ) -> Self {
        match native {
            Some(sample) => self.with_sample(sample, capabilities),
            None => self,
        }
    }

    /// What a state refresh with `native` reports.
    pub open spec fn outcome(self, native: Option<NativeState>) -> RefreshOutcome {
        match native {
            Some(sample) => if self.has_new_packet(sample) {
                RefreshOutcome::Recomputed
            } else {
                RefreshOutcome::Unchanged
            },
            None => RefreshOutcome::Unavailable,
        }
    }

    /// Taking in a capability report keeps a slot well formed.
    pub proof fn lemma_with_capabilities_well_formed(self, capabilities: NativeCapabilities)
        requires
            self.well_formed(),
        ensures
            self.with_capabilities(capabilities).well_formed(),
    {
        lemma_discovered_fits(capabilities.gamepad.buttons);
    }

    /// Reading a native state keeps a slot well formed.
    pub proof fn lemma_with_sample_well_formed(
        self,
        native: NativeState,
        capabilities: Option<NativeCapabilities>,
    )
        requires
            self.well_formed(),
        ensures
            self.with_sample(native, capabilities).well_formed(),
    {
        if capabilities is Some {
            self.lemma_with_capabilities_well_formed(capabilities->0);
        }
    }
}

/// Whether a slot reports a connected controller.
pub open spec fn is_connected() -> spec_fn(SlotView) -> bool {
    |slot: SlotView| slot.state.status == ControllerStatus::Connected
}

/// The number of slots that report a connected controller.
pub open spec fn connected_count(slots: Seq<SlotView>) -> nat {
    slots.filter(is_connected()).len()
}

/// The slots after a presence scan: slot `i` is connected exactly if
/// `present[i]` holds, and nothing else changes.
pub open spec fn with_presence(slots: Seq<SlotView>, present: Seq<bool>) -> Seq<SlotView> {
    Seq::new(slots.len(), |i: int| slots[i].with_status(present[i]))
}

/// A context's slots: one well-formed record for each of the fixed slots.
pub open spec fn well_formed_slots(slots: Seq<SlotView>) -> bool {
    &&& slots.len() == MAX_DEVICES
    &&& forall|i: int| 0 <= i < slots.len() ==> (#[trigger] slots[i]).well_formed()
}

} // verus!
