//! The acceptance filter programmed into the CAN controller.
//!
//! The controller has two receive buffers: RXB0 is governed by filters F0 and
//! F1 under mask 0, RXB1 by filters F2 to F5 under mask 1. A frame with a
//! standard identifier `id` passes a filter `f` under mask `m` when
//! `(id & m) == (f & m)`, so a mask of `0x7FF` asks for an exact match.

use vstd::prelude::*;

use crate::canbus::{oil_pressure_can_id, oil_temp_can_id, standard_can_id, CanId};
use crate::constants::canbus_config::{FILTER_MASK, OIL_PRESSURE_CAN_ID, OIL_TEMP_CAN_ID};

verus! {

/// A receive mask of the controller.
#[derive(Clone, Copy, Debug, PartialEq, Eq, Structural)]
pub enum RxMaskSlot {
    Mask0,
    Mask1,
}

/// A receive filter of the controller.
#[derive(Clone, Copy, Debug, PartialEq, Eq, Structural)]
pub enum RxFilterSlot {
    F0,
    F1,
    F2,
    F3,
    F4,
    F5,
}

/// One step of the controller set-up.
#[derive(Clone, Copy, Debug, PartialEq, Eq, Structural)]
pub enum ControllerCommand {
    /// Enter configuration mode, where masks and filters can be written.
    EnterConfigMode,
    /// Write a receive mask.
    SetMask(RxMaskSlot, CanId),
    /// Write a receive filter.
    SetFilter(RxFilterSlot, CanId),
    /// Return to normal operation.
    EnterNormalMode,
}

/// The mask that governs a filter.
pub open spec fn mask_of(slot: RxFilterSlot) -> RxMaskSlot {
    match slot {
        RxFilterSlot::F0 | RxFilterSlot::F1 => RxMaskSlot::Mask0,
        _ => RxMaskSlot::Mask1,
    }
}

/// Whether a standard identifier passes filter `filter` under mask `mask`.
pub open spec fn filter_matches(mask: u16, filter: u16, id: u16) -> bool {
    id & mask == filter & mask
}

/// The set-up, in order: configuration mode, both masks to `0x7FF`, F0 and F2
/// for the oil temperature frame, F1 and F3 for the oil pressure frame, normal mode.
pub open spec fn filter_setup_spec() -> Seq<ControllerCommand> {
    seq![
        ControllerCommand::EnterConfigMode,
        ControllerCommand::SetMask(RxMaskSlot::Mask0, CanId::Standard(FILTER_MASK)),
        ControllerCommand::SetMask(RxMaskSlot::Mask1, CanId::Standard(FILTER_MASK)),
        ControllerCommand::SetFilter(RxFilterSlot::F0, CanId::Standard(OIL_TEMP_CAN_ID)),
        ControllerCommand::SetFilter(RxFilterSlot::F1, CanId::Standard(OIL_PRESSURE_CAN_ID)),
        ControllerCommand::SetFilter(RxFilterSlot::F2, CanId::Standard(OIL_TEMP_CAN_ID)),
        ControllerCommand::SetFilter(RxFilterSlot::F3, CanId::Standard(OIL_PRESSURE_CAN_ID)),
        ControllerCommand::EnterNormalMode,
    ]
}

/// Whether the commands `cmds` write standard `mask` into `slot`.
pub open spec fn sets_mask(cmds: Seq<ControllerCommand>, slot: RxMaskSlot, mask: u16) -> bool {
    exists|j: int| 0 <= j < cmds.len() && cmds[j] == ControllerCommand::SetMask(slot, CanId::Standard(mask))
}

/// Whether `cmd` writes a standard filter that passes `id` under `mask`, a
/// mask that `cmds` writes for that filter.
pub open spec fn filter_passes(cmds: Seq<ControllerCommand>, cmd: ControllerCommand, mask: u16, id: u16) -> bool {
    match cmd {
        ControllerCommand::SetFilter(slot, CanId::Standard(filter)) =>
            sets_mask(cmds, mask_of(slot), mask) && filter_matches(mask, filter, id),
        _ => false,
    }
}

/// Whether a filter written by `cmds` passes the standard identifier `id` under
/// a mask that `cmds` writes for it.
pub open spec fn setup_accepts(cmds: Seq<ControllerCommand>, id: u16) -> bool {
    exists|i: int, mask: u16| 0 <= i < cmds.len() && #[trigger] filter_passes(cmds, cmds[i], mask, id)
}

/// The commands that set up the controller's acceptance filter.
pub fn filter_setup() -> (cmds: [ControllerCommand; 8])
    ensures
        cmds@ == filter_setup_spec(),
{
    let mask = standard_can_id(FILTER_MASK).unwrap();
    let oil_temp = oil_temp_can_id();
    let oil_pressure = oil_pressure_can_id();
    let cmds = [
        ControllerCommand::EnterConfigMode,
        ControllerCommand::SetMask(RxMaskSlot::Mask0, mask),
        ControllerCommand::SetMask(RxMaskSlot::Mask1, mask),
        ControllerCommand::SetFilter(RxFilterSlot::F0, oil_temp),
        ControllerCommand::SetFilter(RxFilterSlot::F1, oil_pressure),
        ControllerCommand::SetFilter(RxFilterSlot::F2, oil_temp),
        ControllerCommand::SetFilter(RxFilterSlot::F3, oil_pressure),
        ControllerCommand::EnterNormalMode,
    ];
    assert(cmds@ =~= filter_setup_spec());
    cmds
}

/// Under a mask of all eleven bits, a filter passes exactly its own identifier.
pub proof fn lemma_full_mask_exact_match(filter: u16, id: u16)
    requires
        filter <= 0x7FF,
        id <= 0x7FF,
    ensures
        filter_matches(0x7FF, filter, id) <==> id == filter,
{
    assert((id & 0x7FF) == id) by (bit_vector)
        requires
            id <= 0x7FF,
    ;
    assert((filter & 0x7FF) == filter) by (bit_vector)
        requires
            filter <= 0x7FF,
    ;
}

/// The controller, once set up, passes a standard identifier exactly when it
/// is the oil temperature or the oil pressure identifier.
pub proof fn lemma_setup_accepts_gauge_ids(id: u16)
    requires
        id <= 0x7FF,
    ensures
        setup_accepts(filter_setup_spec(), id) <==> (id == OIL_TEMP_CAN_ID || id == OIL_PRESSURE_CAN_ID),
{
    let cmds = filter_setup_spec();
    lemma_full_mask_exact_match(OIL_TEMP_CAN_ID, id);
    lemma_full_mask_exact_match(OIL_PRESSURE_CAN_ID, id);
    assert(cmds[1] == ControllerCommand::SetMask(RxMaskSlot::Mask0, CanId::Standard(FILTER_MASK)));
    assert(cmds[2] == ControllerCommand::SetMask(RxMaskSlot::Mask1, CanId::Standard(FILTER_MASK)));
    assert(sets_mask(cmds, RxMaskSlot::Mask0, FILTER_MASK));
    assert(sets_mask(cmds, RxMaskSlot::Mask1, FILTER_MASK));
    if id == OIL_TEMP_CAN_ID {
        assert(cmds[3] == ControllerCommand::SetFilter(RxFilterSlot::F0, CanId::Standard(OIL_TEMP_CAN_ID)));
        assert(filter_passes(cmds, cmds[3], FILTER_MASK, id));
    } else if id == OIL_PRESSURE_CAN_ID {
        assert(cmds[4] == ControllerCommand::SetFilter(RxFilterSlot::F1, CanId::Standard(OIL_PRESSURE_CAN_ID)));
        assert(filter_passes(cmds, cmds[4], FILTER_MASK, id));
    } else {
        assert forall|i: int, mask: u16| 0 <= i < cmds.len() implies !#[trigger] filter_passes(cmds, cmds[i], mask, id) by {
            if let ControllerCommand::SetFilter(slot, CanId::Standard(filter)) = cmds[i] {
                assert(filter == OIL_TEMP_CAN_ID || filter == OIL_PRESSURE_CAN_ID);
                if sets_mask(cmds, mask_of(slot), mask) {
                    let j = choose|j: int| 0 <= j < cmds.len() && cmds[j] == ControllerCommand::SetMask(mask_of(slot), CanId::Standard(mask));
                    assert(mask == FILTER_MASK);
                }
            }
        }
    }
}

} // verus!
