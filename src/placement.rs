use vstd::prelude::*;

use crate::apparel::{Apparel, ApparelPos, Garment};

verus! {

/// What a character wears: at most one garment on each body position.
#[derive(Debug, Clone, Copy)]
pub struct ApparelPlacement {
    pub head: Option<Garment>,
    pub torso: Option<Garment>,
    pub hands: Option<Garment>,
    pub feet: Option<Garment>,
}

/// The displaced items a call reports: `None` when nothing left a slot,
/// otherwise the one garment that did.
pub open spec fn displaced(prior: Option<Garment>) -> Option<Seq<Garment>> {
    match prior {
        Some(g) => Some(seq![g]),
        None => None,
    }
}

/// The sequence view of an equip or dequip result.
pub open spec fn result_view(r: Option<Vec<Garment>>) -> Option<Seq<Garment>> {
    match r {
        Some(v) => Some(v@),
        None => None,
    }
}

impl ApparelPlacement {
    /// The placement with every slot empty.
    pub open spec fn empty() -> ApparelPlacement {
        ApparelPlacement { head: None, torso: None, hands: None, feet: None }
    }

    /// The occupant of the slot for `pos`.
    pub open spec fn slot(self, pos: ApparelPos) -> Option<Garment> {
        match pos {
            ApparelPos::Head => self.head,
            ApparelPos::Torso => self.torso,
            ApparelPos::Hands => self.hands,
            ApparelPos::Feet => self.feet,
        }
    }

    /// The placement with the slot for `pos` set to `occupant` and every
    /// other slot as it was.
    pub open spec fn with_slot(self, pos: ApparelPos, occupant: Option<Garment>) -> ApparelPlacement {
        match pos {
            ApparelPos::Head => ApparelPlacement { head: occupant, ..self },
            ApparelPos::Torso => ApparelPlacement { torso: occupant, ..self },
            ApparelPos::Hands => ApparelPlacement { hands: occupant, ..self },
            ApparelPos::Feet => ApparelPlacement { feet: occupant, ..self },
        }
    }

    /// Every occupied slot holds a garment worn on that slot's position.
    pub open spec fn wf(self) -> bool {
        forall|pos: ApparelPos|
            #[trigger] self.slot(pos) is Some ==> self.slot(pos)->0.worn_at() == pos
    }

    /// The state after wearing `garment` in its own slot.
    pub open spec fn after_equip(self, garment: Garment) -> ApparelPlacement {
        self.with_slot(garment.worn_at(), Some(garment))
    }

    /// What wearing `garment` reports: the prior occupant of its slot, if any.
    pub open spec fn equip_result(self, garment: Garment) -> Option<Seq<Garment>> {
        displaced(self.slot(garment.worn_at()))
    }

    /// The state after clearing the slot for `pos`.
    pub open spec fn after_dequip(self, pos: ApparelPos) -> ApparelPlacement {
        self.with_slot(pos, None)
    }

    /// What clearing the slot for `pos` reports: its occupant, if any.
    pub open spec fn dequip_result(self, pos: ApparelPos) -> Option<Seq<Garment>> {
        displaced(self.slot(pos))
    }

    /// Setting one slot changes that slot alone.
    pub proof fn lemma_with_slot(self, pos: ApparelPos, occupant: Option<Garment>)
        ensures
            forall|q: ApparelPos|
                #[trigger] self.with_slot(pos, occupant).slot(q) == if q == pos {
                    occupant
                } else {
                    self.slot(q)
                },
    {
    }

    /// Wearing a garment keeps every slot consistent with its occupant.
    pub proof fn lemma_equip_keeps_wf(self, garment: Garment)
        requires
            self.wf(),
        ensures
            self.after_equip(garment).wf(),
    {
        self.lemma_with_slot(garment.worn_at(), Some(garment));
    }

    /// Clearing a slot keeps every slot consistent with its occupant.
    pub proof fn lemma_dequip_keeps_wf(self, pos: ApparelPos)
        requires
            self.wf(),
        ensures
            self.after_dequip(pos).wf(),
    {
        self.lemma_with_slot(pos, None);
    }

    /// A placement with nothing worn.
    pub fn new() -> (r: Self)
        ensures
            r == Self::empty(),
            r.wf(),
    {
        ApparelPlacement { head: None, torso: None, hands: None, feet: None }
    }

    /// Clears the slot that `garment` is worn on and hands `garment` back.
    fn dequip_garment(&mut self, garment: Garment) -> (r: Garment)
        ensures
            *final(self) == old(self).after_dequip(garment.worn_at()),
            r == garment,
    {
        match garment.position() {
            ApparelPos::Head => self.head = None,
            ApparelPos::Torso => self.torso = None,
            ApparelPos::Hands => self.hands = None,
            ApparelPos::Feet => self.feet = None,
        }
        garment
    }

    /// Takes off whatever is worn on `position`.
    ///
    /// Reports the removed garment, or `None` when the slot was already
    /// empty; every other slot is left as it was.
    pub fn dequip(&mut self, position: ApparelPos) -> (r: Option<Vec<Garment>>)
        requires
            old(self).wf(),
        ensures
            final(self).wf(),
            *final(self) == old(self).after_dequip(position),
            final(self).slot(position) is None,
            result_view(r) == old(self).dequip_result(position),
    {
        proof {
            old(self).lemma_dequip_keeps_wf(position);
        }
        match position {
            ApparelPos::Head => match self.head {
                Some(garment) => Some(vec![self.dequip_garment(garment)]),
                None => None,
            },
            ApparelPos::Torso => match self.torso {
                Some(garment) => Some(vec![self.dequip_garment(garment)]),
                None => None,
            },
            ApparelPos::Hands => match self.hands {
                Some(garment) => Some(vec![self.dequip_garment(garment)]),
                None => None,
            },
            ApparelPos::Feet => match self.feet {
                Some(garment) => Some(vec![self.dequip_garment(garment)]),
                None => None,
            },
        }
    }

    /// Puts `garment` on in the slot of its own position.
    ///
    /// Reports the garment it displaced from that slot, or `None` when the
    /// slot was empty. Wearing a garment that already occupies its slot
    /// reports that garment as displaced by itself. Every other slot is left
    /// as it was.
    pub fn equip(&mut self, garment: Garment) -> (r: Option<Vec<Garment>>)
        requires
            old(self).wf(),
        ensures
            final(self).wf(),
            *final(self) == old(self).after_equip(garment),
            final(self).slot(garment.worn_at()) == Some(garment),
            result_view(r) == old(self).equip_result(garment),
    {
        proof {
            old(self).lemma_equip_keeps_wf(garment);
        }
        match garment.position() {
            ApparelPos::Head => match self.head {
                Some(other) => {
                    let ret = self.dequip_garment(other);
                    self.head = Some(garment);
                    Some(vec![ret])
                },
                None => {
                    self.head = Some(garment);
                    None
                },
            },
            ApparelPos::Torso => match self.torso {
                Some(other) => {
                    let ret = self.dequip_garment(other);
                    self.torso = Some(garment);
                    Some(vec![ret])
                },
                None => {
                    self.torso = Some(garment);
                    None
                },
            },
            ApparelPos::Hands => match self.hands {
                Some(other) => {
                    let ret = self.dequip_garment(other);
                    self.hands = Some(garment);
                    Some(vec![ret])
                },
                None => {
                    self.hands = Some(garment);
                    None
                },
            },
            ApparelPos::Feet => match self.feet {
                Some(other) => {
                    let ret = self.dequip_garment(other);
                    self.feet = Some(garment);
                    Some(vec![ret])
                },
                None => {
                    self.feet = Some(garment);
                    None
                },
            },
        }
    }
}

} // verus!
