//! The controller context: one record per slot, refreshed from the native
//! reports that the caller hands in, and read through borrowed views that
//! fall back to fixed sentinels whenever there is nothing to report.

use vstd::prelude::*;
use crate::adapter::{build_device_name, count_axes, discover_buttons, read_axes, read_buttons};
use crate::model::{
    ControllerInfo, ControllerInfoView, ControllerState, ControllerStateView, ControllerStatus,
    MAX_DEVICES, MAX_DIGITAL,
};
use crate::native::{NativeCapabilities, NativeState};
use crate::slot::{
    connected_count, is_connected, well_formed_slots, with_presence, RefreshOutcome, SlotView,
};

verus! {

/// The three refresh operations on the slots of a context. Each takes the
/// answer of the native query it stands for: `None` where the query failed.
pub trait ControllerContextInterface {
    /// The records of the slots, in slot order.
    spec fn slots(&self) -> Seq<SlotView>;

    /// Stores the result of a presence scan in every slot and returns the
    /// number of slots that are now connected.
    fn get_controller_count(&mut self, present: &[bool; MAX_DEVICES]) -> (count: usize)
        ensures
            final(self).slots() == with_presence(old(self).slots(), present@),
            count == connected_count(final(self).slots()),
            well_formed_slots(old(self).slots()),
            well_formed_slots(final(self).slots()),
    ;

    /// Refreshes the info of a slot from a capability report and lends it
    /// out. Without a report, or with a number beyond the last slot, nothing
    /// changes and the null info is lent.
    fn borrow_controller_info(
        &mut self,
        controller_num: usize,
        capabilities: Option<NativeCapabilities>,
    ) -> (info: &ControllerInfo)
        ensures
            controller_num < MAX_DEVICES ==> final(self).slots() == old(self).slots().update(
                controller_num as int,
                old(self).slots()[controller_num as int].refresh_info(capabilities),
            ),
            controller_num >= MAX_DEVICES ==> final(self).slots() == old(self).slots(),
            info@ == if controller_num < MAX_DEVICES && capabilities is Some {
                final(self).slots()[controller_num as int].info
            } else {
                ControllerInfoView::null()
            },
            well_formed_slots(old(self).slots()),
            well_formed_slots(final(self).slots()),
    ;

    /// Refreshes the state of a slot from a native state and lends it out.
    /// Without a native state, or with a number beyond the last slot,
    /// nothing changes and the disconnected state is lent. `capabilities`
    /// is consulted only where [`SlotView::needs_capabilities`] holds.
    fn borrow_controller_state(
        &mut self,
        controller_num: usize,
        native: Option<NativeState>,
        capabilities: Option<NativeCapabilities>,
    ) -> (state: &ControllerState)
        ensures
            controller_num < MAX_DEVICES ==> final(self).slots() == old(self).slots().update(
                controller_num as int,
                old(self).slots()[controller_num as int].refresh_state(native, capabilities),
            ),
            controller_num >= MAX_DEVICES ==> final(self).slots() == old(self).slots(),
            state@ == if controller_num < MAX_DEVICES && native is Some {
                final(self).slots()[controller_num as int].state
            } else {
                ControllerStateView::disconnected()
            },
            well_formed_slots(old(self).slots()),
            well_formed_slots(final(self).slots()),
    ;
}

/// Puts `value` in place of the element of `items` at `index`.
fn store<T>(items: &mut Vec<T>, index: usize, value: T)
    requires
        index < old(items).len(),
    ensures
        final(items)@ == old(items)@.update(index as int, value),
    no_unwind
{
    items[index] = value;
}

/// Up to [`MAX_DEVICES`] controllers behind one polling interface.
pub struct ControllerContext {
    info: Vec<ControllerInfo>,
    state: Vec<ControllerState>,
    buttons: Vec<[u16; MAX_DIGITAL]>,
    default_info: ControllerInfo,
    default_state: ControllerState,
}

impl ControllerContext {
    #[verifier::type_invariant]
    spec fn consistent(self) -> bool {
        &&& self.info.len() == MAX_DEVICES
        &&& self.state.len() == MAX_DEVICES
        &&& self.buttons.len() == MAX_DEVICES
        &&& self.default_info@ == ControllerInfoView::null()
        &&& self.default_state@ == ControllerStateView::disconnected()
        &&& forall|i: int|
            0 <= i < MAX_DEVICES ==> (#[trigger] self.info[i])@.within_capacity()
        &&& forall|i: int| 0 <= i < MAX_DEVICES ==> (#[trigger] self.state[i])@.well_formed()
    }

    /// The record of slot `i`, read off the three parallel vectors.
    spec fn slot(&self, i: int) -> SlotView {
        SlotView { info: self.info[i]@, state: self.state[i]@, buttons: self.buttons[i]@ }
    }

    /// A context whose slots are all empty and disconnected.
    pub fn new() -> (context: Self)
        ensures
            context.slots() == Seq::new(MAX_DEVICES as nat, |i: int| SlotView::initial()),
            well_formed_slots(context.slots()),
    {
        let mut info: Vec<ControllerInfo> = Vec::new();
        let mut state: Vec<ControllerState> = Vec::new();
        let mut buttons: Vec<[u16; MAX_DIGITAL]> = Vec::new();
        let mut filled: usize = 0;
        while filled < MAX_DEVICES
            invariant
                filled <= MAX_DEVICES,
                info.len() == filled,
                state.len() == filled,
                buttons.len() == filled,
                forall|i: int| 0 <= i < filled ==> (#[trigger] info[i])@ == ControllerInfoView::null(),
                forall|i: int|
                    0 <= i < filled ==> (#[trigger] state[i])@
                        == ControllerStateView::disconnected(),
                forall|i: int|
                    0 <= i < filled ==> (#[trigger] buttons[i])@ == SlotView::initial().buttons,
            decreases MAX_DEVICES - filled,
        {
            info.push(ControllerInfo::new());
            state.push(ControllerState::new());
            let table: [u16; MAX_DIGITAL] = [0u16; MAX_DIGITAL];
            assert(table@ =~= SlotView::initial().buttons);
            buttons.push(table);
            filled += 1;
        }
        let context = Self {
            info,
            state,
            buttons,
            default_info: ControllerInfo::new(),
            default_state: ControllerState::new(),
        };
        assert(context.slots() =~= Seq::new(MAX_DEVICES as nat, |i: int| SlotView::initial()));
        context
    }

    /// Turns a capability report into the info and the mapping table
    /// of slot `id`.
    fn update_info(&mut self, id: usize, capabilities: &NativeCapabilities)
        requires
            id < MAX_DEVICES,
        ensures
            final(self).slots() == old(self).slots().update(
                id as int,
                old(self).slots()[id as int].with_capabilities(*capabilities),
            ),
    {
        proof {
            use_type_invariant(&*self);
        }
        let name = build_device_name(capabilities.sub_type);
        let mut table: [u16; MAX_DIGITAL] = self.buttons[id];
        let digital_count = discover_buttons(capabilities.gamepad.buttons, &mut table);
        let analog_count = count_axes(&capabilities.gamepad);
        store(&mut self.buttons, id, table);
        store(&mut self.info, id, ControllerInfo { name, digital_count, analog_count });
        assert(self.slots() =~= old(self).slots().update(
            id as int,
            old(self).slots()[id as int].with_capabilities(*capabilities),
        ));
    }

    /// Reads a native state into slot `id`, unless it carries the packet
    /// number that the slot already holds. Returns whether it recomputed.
    fn update_state(
        &mut self,
        id: usize,
        native: &NativeState,
        capabilities: Option<NativeCapabilities>,
    ) -> (recomputed: bool)
        requires
            id < MAX_DEVICES,
        ensures
            final(self).slots() == old(self).slots().update(
                id as int,
                old(self).slots()[id as int].with_sample(*native, capabilities),
            ),
            recomputed == old(self).slots()[id as int].has_new_packet(*native),
    {
        proof {
            use_type_invariant(&*self);
        }
        if native.packet_number as usize == self.state[id].sequence {
            assert(self.slots() =~= old(self).slots().update(
                id as int,
                old(self).slots()[id as int].with_sample(*native, capabilities),
            ));
            return false;
        }
        if self.info[id].digital_count == 0 {
            self.borrow_controller_info(id, capabilities);
        }
        proof {
            use_type_invariant(&*self);
        }
        let ghost described = self.slots();
        let mut sample: ControllerState = self.state[id];
        sample.sequence = native.packet_number as usize;
        read_buttons(
            native.gamepad.buttons,
            &self.buttons[id],
            self.info[id].digital_count,
            &mut sample.digital_state,
        );
        read_axes(&native.gamepad, &mut sample.analog_state);
        store(&mut self.state, id, sample);
        proof {
            let after = old(self).slots()[id as int].with_sample(*native, capabilities);
            assert(sample@.digital =~= after.state.digital);
            assert(sample@.analog =~= after.state.analog);
            assert forall|i: int| 0 <= i < MAX_DEVICES && i != id implies self.slots()[i] == old(
                self,
            ).slots()[i] by {
                assert(self.slots()[i] == described[i]);
            }
            assert(self.slots() =~= old(self).slots().update(id as int, after));
        }
        true
    }

    /// Presence scan over all slots: see
    /// [`ControllerContextInterface::get_controller_count`].
    pub fn scan_controllers(&mut self, present: &[bool; MAX_DEVICES]) -> (count: usize)
        ensures
            final(self).slots() == with_presence(old(self).slots(), present@),
            count == connected_count(final(self).slots()),
            count <= MAX_DEVICES,
            well_formed_slots(old(self).slots()),
            well_formed_slots(final(self).slots()),
    {
        let count = self.get_controller_count(present);
        proof {
            self.slots().lemma_filter_len(is_connected());
        }
        count
    }

    /// Whether [`ControllerContext::state`] and [`ControllerContext::update`]
    /// would consult a capability report for this slot and native state.
    pub fn needs_capabilities(&self, index: usize, native: &Option<NativeState>) -> (needed: bool)
        ensures
            needed == (index < MAX_DEVICES && self.slots()[index as int].needs_capabilities(
                *native,
            )),
            well_formed_slots(self.slots()),
    {
        proof {
            use_type_invariant(self);
            self.lemma_well_formed();
        }
        if index >= MAX_DEVICES {
            return false;
        }
        match native {
            Some(sample) => sample.packet_number as usize != self.state[index].sequence
                && self.info[index].digital_count == 0,
            None => false,
        }
    }

    /// Refreshes the state of slot `index` and says what the refresh did.
    /// An index beyond the last slot changes nothing.
    pub fn update(
        &mut self,
        index: usize,
        native: Option<NativeState>,
        capabilities: Option<NativeCapabilities>,
    ) -> (outcome: RefreshOutcome)
        ensures
            index < MAX_DEVICES ==> final(self).slots() == old(self).slots().update(
                index as int,
                old(self).slots()[index as int].refresh_state(native, capabilities),
            ) && outcome == old(self).slots()[index as int].outcome(native),
            index >= MAX_DEVICES ==> final(self).slots() == old(self).slots() && outcome
                == RefreshOutcome::Unavailable,
            well_formed_slots(old(self).slots()),
            well_formed_slots(final(self).slots()),
    {
        proof {
            use_type_invariant(&*self);
            self.lemma_well_formed();
        }
        if index >= MAX_DEVICES {
            return RefreshOutcome::Unavailable;
        }
        match native {
            Some(sample) => {
                let recomputed = self.update_state(index, &sample, capabilities);
                proof {
                    use_type_invariant(&*self);
                    self.lemma_well_formed();
                }
                if recomputed {
                    RefreshOutcome::Recomputed
                } else {
                    RefreshOutcome::Unchanged
                }
            },
            None => {
                assert(self.slots() =~= old(self).slots().update(
                    index as int,
                    old(self).slots()[index as int],
                ));
                RefreshOutcome::Unavailable
            },
        }
    }

    /// The info of slot `index`, refreshed from `capabilities`. Lends the
    /// null info, and changes nothing, where the index is beyond the last
    /// slot or the capability query failed.
    pub fn info(&mut self, index: usize, capabilities: Option<NativeCapabilities>) -> (info:
        &ControllerInfo)
        ensures
            index < MAX_DEVICES ==> final(self).slots() == old(self).slots().update(
                index as int,
                old(self).slots()[index as int].refresh_info(capabilities),
            ),
            index >= MAX_DEVICES ==> final(self).slots() == old(self).slots(),
            info@ == if index < MAX_DEVICES && capabilities is Some {
                final(self).slots()[index as int].info
            } else {
                ControllerInfoView::null()
            },
            well_formed_slots(old(self).slots()),
            well_formed_slots(final(self).slots()),
    {
        self.borrow_controller_info(index, capabilities)
    }

    /// The state of slot `index`, refreshed from `native`. Lends the
    /// disconnected state, and changes nothing, where the index is beyond
    /// the last slot or the state query failed.
    pub fn state(
        &mut self,
        index: usize,
        native: Option<NativeState>,
        capabilities: Option<NativeCapabilities>,
    ) -> (state: &ControllerState)
        ensures
            index < MAX_DEVICES ==> final(self).slots() == old(self).slots().update(
                index as int,
                old(self).slots()[index as int].refresh_state(native, capabilities),
            ),
            index >= MAX_DEVICES ==> final(self).slots() == old(self).slots(),
            state@ == if index < MAX_DEVICES && native is Some {
                final(self).slots()[index as int].state
            } else {
                ControllerStateView::disconnected()
            },
            well_formed_slots(old(self).slots()),
            well_formed_slots(final(self).slots()),
    {
        self.borrow_controller_state(index, native, capabilities)
    }

    /// What the invariant of the context says of its slots.
    proof fn lemma_well_formed(&self)
        requires
            self.consistent(),
        ensures
            well_formed_slots(self.slots()),
    {
    }
}

impl ControllerContextInterface for ControllerContext {
    closed spec fn slots(&self) -> Seq<SlotView> {
        Seq::new(MAX_DEVICES as nat, |i: int| self.slot(i))
    }

    fn get_controller_count(&mut self, present: &[bool; MAX_DEVICES]) -> (count: usize) {
        proof {
            use_type_invariant(&*self);
            self.lemma_well_formed();
        }
        let ghost target = with_presence(old(self).slots(), present@);
        let mut count: usize = 0;
        let mut id: usize = 0;
        assert(target.take(0).filter(is_connected()) =~= Seq::<SlotView>::empty()) by {
            reveal(Seq::filter);
        }
        while id < MAX_DEVICES
            invariant
                id <= MAX_DEVICES,
                count <= id,
                self.consistent(),
                target == with_presence(old(self).slots(), present@),
                target.len() == MAX_DEVICES,
                count == target.take(id as int).filter(is_connected()).len(),
                forall|i: int| 0 <= i < id ==> self.slots()[i] == #[trigger] target[i],
                forall|i: int|
                    id <= i < MAX_DEVICES ==> self.slots()[i] == #[trigger] old(self).slots()[i],
            decreases MAX_DEVICES - id,
        {
            let ghost before = self.slots();
            proof {
                assert(target.take(id + 1) =~= target.take(id as int).push(target[id as int]));
                target.take(id as int).lemma_filter_len_push(is_connected(), target[id as int]);
            }
            let mut probed: ControllerState = self.state[id];
            if present[id] {
                count += 1;
                probed.status = ControllerStatus::Connected;
            } else {
                probed.status = ControllerStatus::Disconnected;
            }
            store(&mut self.state, id, probed);
            proof {
                use_type_invariant(&*self);
                assert(self.slots()[id as int] == target[id as int]);
                assert forall|i: int| 0 <= i < MAX_DEVICES && i != id implies self.slots()[i]
                    == before[i] by {}
            }
            id += 1;
        }
        assert(target.take(MAX_DEVICES as int) =~= target);
        assert(self.slots() =~= target);
        proof {
            self.lemma_well_formed();
        }
        count
    }

    fn borrow_controller_info(
        &mut self,
        controller_num: usize,
        capabilities: Option<NativeCapabilities>,
    ) -> (info: &ControllerInfo) {
        proof {
            use_type_invariant(&*self);
            self.lemma_well_formed();
        }
        if controller_num >= MAX_DEVICES {
            return &self.default_info;
        }
        match capabilities {
            Some(report) => {
                self.update_info(controller_num, &report);
                proof {
                    use_type_invariant(&*self);
                    self.lemma_well_formed();
                }
                &self.info[controller_num]
            },
            None => {
                assert(self.slots() =~= old(self).slots().update(
                    controller_num as int,
                    old(self).slots()[controller_num as int],
                ));
                &self.default_info
            },
        }
    }

    fn borrow_controller_state(
        &mut self,
        controller_num: usize,
        native: Option<NativeState>,
        capabilities: Option<NativeCapabilities>,
    ) -> (state: &ControllerState) {
        proof {
            use_type_invariant(&*self);
            self.lemma_well_formed();
        }
        if controller_num >= MAX_DEVICES {
            return &self.default_state;
        }
        match native {
            Some(sample) => {
                self.update_state(controller_num, &sample, capabilities);
                proof {
                    use_type_invariant(&*self);
                    self.lemma_well_formed();
                }
                &self.state[controller_num]
            },
            None => {
                assert(self.slots() =~= old(self).slots().update(
                    controller_num as int,
                    old(self).slots()[controller_num as int],
                ));
                &self.default_state
            },
        }
    }
}

} // verus!
