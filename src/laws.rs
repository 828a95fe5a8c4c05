//! Facts about sequences of equip and dequip calls, stated over the model
//! that `ApparelPlacement::equip` and `ApparelPlacement::dequip` guarantee.

use vstd::prelude::*;

use crate::apparel::{Apparel, ApparelPos, Garment};
use crate::placement::ApparelPlacement;

verus! {

/// One call on a placement.
pub enum SlotCommand {
    Equip(Garment),
    Dequip(ApparelPos),
}

/// The state after one call.
pub open spec fn step(p: ApparelPlacement, cmd: SlotCommand) -> ApparelPlacement {
    match cmd {
        SlotCommand::Equip(g) => p.after_equip(g),
        SlotCommand::Dequip(pos) => p.after_dequip(pos),
    }
}

/// The state after the calls in `cmds`, first to last.
pub open spec fn run(p: ApparelPlacement, cmds: Seq<SlotCommand>) -> ApparelPlacement
    decreases cmds.len(),
{
    if cmds.len() == 0 {
        p
    } else {
        run(step(p, cmds[0]), cmds.drop_first())
    }
}

/// Equipping or dequipping on one position never changes the occupant of
/// any other position.
pub proof fn lemma_slot_independence(
    p: ApparelPlacement,
    garment: Garment,
    pos: ApparelPos,
    other: ApparelPos,
)
    ensures
        other != garment.worn_at() ==> p.after_equip(garment).slot(other) == p.slot(other),
        other != pos ==> p.after_dequip(pos).slot(other) == p.slot(other),
{
    p.lemma_with_slot(garment.worn_at(), Some(garment));
    p.lemma_with_slot(pos, None);
}

/// After any sequence of calls, starting from a consistent placement (such as
/// a new one), each occupied slot holds a garment worn on that slot's
/// position.
pub proof fn lemma_commands_keep_wf(p: ApparelPlacement, cmds: Seq<SlotCommand>)
    requires
        p.wf(),
    ensures
        run(p, cmds).wf(),
    decreases cmds.len(),
{
    if cmds.len() > 0 {
        match cmds[0] {
            SlotCommand::Equip(g) => p.lemma_equip_keeps_wf(g),
            SlotCommand::Dequip(pos) => p.lemma_dequip_keeps_wf(pos),
        }
        lemma_commands_keep_wf(step(p, cmds[0]), cmds.drop_first());
    }
}

/// Equipping a garment and then dequipping its position hands back exactly
/// that garment. Where the slot was empty before, the placement is back where
/// it started; where it held another garment, that garment was reported by
/// the equip and the slot ends empty.
pub proof fn lemma_round_trip(p: ApparelPlacement, garment: Garment)
    ensures
        p.after_equip(garment).dequip_result(garment.worn_at()) == Some(seq![garment]),
        p.after_equip(garment).after_dequip(garment.worn_at()).slot(garment.worn_at())
            is None,
        p.slot(garment.worn_at()) is None ==> p.after_equip(garment).after_dequip(
            garment.worn_at(),
        ) == p,
        p.slot(garment.worn_at()) is Some ==> p.equip_result(garment) == Some(
            seq![p.slot(garment.worn_at())->0],
        ),
{
    let pos = garment.worn_at();
    p.lemma_with_slot(pos, Some(garment));
    p.after_equip(garment).lemma_with_slot(pos, None);
}

} // verus!
