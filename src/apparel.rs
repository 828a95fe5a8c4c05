use vstd::prelude::*;

use crate::item::{Item, ItemType};

verus! {

/// The four body positions a garment can be worn on.
#[derive(Debug, Clone, Copy, PartialEq, Eq, Structural)]
pub enum ApparelPos {
    Head,
    Torso,
    Hands,
    Feet,
}

/// An item worn on exactly one body position.
pub trait Apparel: Item {
    /// The body position the garment is worn on.
    spec fn worn_at(&self) -> ApparelPos;

    fn position(&self) -> (r: ApparelPos)
        ensures
            r == self.worn_at(),
    ;
}

/// A garment without a combat rating.
#[derive(Debug, Clone, Copy, PartialEq)]
pub struct Clothing {
    name: &'static str,
    position: ApparelPos,
    weight: u16,
    value: u16,
}

impl Item for Clothing {
    closed spec fn item_name(&self) -> Seq<char> {
        self.name@
    }

    closed spec fn item_weight(&self) -> u16 {
        self.weight
    }

    closed spec fn item_value(&self) -> u16 {
        self.value
    }

    open spec fn item_kind(&self) -> ItemType {
        ItemType::Clothing(*self)
    }

    fn name(&self) -> (r: &'static str) {
        self.name
    }

    fn weight(&self) -> (r: u16) {
        self.weight
    }

    fn value(&self) -> (r: u16) {
        self.value
    }

    fn intrinsic(&self) -> (r: ItemType) {
        ItemType::Clothing(*self)
    }
}

impl Apparel for Clothing {
    closed spec fn worn_at(&self) -> ApparelPos {
        self.position
    }

    fn position(&self) -> (r: ApparelPos) {
        self.position
    }
}

} // verus!

verus! {

/// A garment with a base combat rating.
#[derive(Debug, Clone, Copy, PartialEq)]
pub struct Armor {
    name: &'static str,
    position: ApparelPos,
    base_armor: u16,
    weight: u16,
    value: u16,
}

impl Armor {
    /// The rating this piece contributes before any modifier.
    pub closed spec fn rating(&self) -> u16 {
        self.base_armor
    }

    pub fn armor(&self) -> (r: u16)
        ensures
            r == self.rating(),
    {
        self.base_armor
    }
}

impl Item for Armor {
    closed spec fn item_name(&self) -> Seq<char> {
        self.name@
    }

    closed spec fn item_weight(&self) -> u16 {
        self.weight
    }

    closed spec fn item_value(&self) -> u16 {
        self.value
    }

    open spec fn item_kind(&self) -> ItemType {
        ItemType::Armor(*self)
    }

    fn name(&self) -> (r: &'static str) {
        self.name
    }

    fn weight(&self) -> (r: u16) {
        self.weight
    }

    fn value(&self) -> (r: u16) {
        self.value
    }

    fn intrinsic(&self) -> (r: ItemType) {
        ItemType::Armor(*self)
    }
}

impl Apparel for Armor {
    closed spec fn worn_at(&self) -> ApparelPos {
        self.position
    }

    fn position(&self) -> (r: ApparelPos) {
        self.position
    }
}

} // verus!

verus! {

impl Apparel for ItemType {
    open spec fn worn_at(&self) -> ApparelPos {
        match self {
            ItemType::Clothing(c) => c.worn_at(),
            ItemType::Armor(a) => a.worn_at(),
        }
    }

    fn position(&self) -> (r: ApparelPos) {
        match self {
            ItemType::Clothing(c) => c.position(),
            ItemType::Armor(a) => a.position(),
        }
    }
}

/// A handle on one entry of the fixed, read-only apparel catalog.
///
/// A slot manager holds handles, never its own copies of the records; the
/// record behind a handle never changes.
#[derive(Debug, Clone, Copy, PartialEq, Eq, Structural)]
pub enum Garment {
    Footwraps,
    RoughspunTunic,
    StormcloakCuirass,
    ImperialLightArmor,
    ImperialLightBoots,
    ImperialLightBracers,
    ImperialLightHelmet,
}

impl Garment {
    /// The display name of the catalog entry.
    pub open spec fn label(self) -> &'static str {
        match self {
            Garment::Footwraps => "Footwraps",
            Garment::RoughspunTunic => "Roughspun Tunic",
            Garment::StormcloakCuirass => "Stormcloak Cuirass",
            Garment::ImperialLightArmor => "Imperial Light Armor",
            Garment::ImperialLightBoots => "Imperial Light Boots",
            Garment::ImperialLightBracers => "Imperial Light Bracers",
            Garment::ImperialLightHelmet => "Imperial Light Helmet",
        }
    }

    /// The body position of the catalog entry.
    pub open spec fn body_pos(self) -> ApparelPos {
        match self {
            Garment::Footwraps => ApparelPos::Feet,
            Garment::RoughspunTunic => ApparelPos::Torso,
            Garment::StormcloakCuirass => ApparelPos::Torso,
            Garment::ImperialLightArmor => ApparelPos::Torso,
            Garment::ImperialLightBoots => ApparelPos::Feet,
            Garment::ImperialLightBracers => ApparelPos::Hands,
            Garment::ImperialLightHelmet => ApparelPos::Head,
        }
    }

    /// The carry weight of the catalog entry.
    pub open spec fn carry_weight(self) -> u16 {
        match self {
            Garment::Footwraps => 1,
            Garment::RoughspunTunic => 1,
            Garment::StormcloakCuirass => 8,
            Garment::ImperialLightArmor => 6,
            Garment::ImperialLightBoots => 2,
            Garment::ImperialLightBracers => 1,
            Garment::ImperialLightHelmet => 2,
        }
    }

    /// The currency worth of the catalog entry.
    pub open spec fn worth(self) -> u16 {
        match self {
            Garment::Footwraps => 1,
            Garment::RoughspunTunic => 1,
            Garment::StormcloakCuirass => 25,
            Garment::ImperialLightArmor => 75,
            Garment::ImperialLightBoots => 15,
            Garment::ImperialLightBracers => 15,
            Garment::ImperialLightHelmet => 35,
        }
    }

    /// The base rating of an armor entry; `None` for clothing.
    pub open spec fn armor_rating(self) -> Option<u16> {
        match self {
            Garment::Footwraps => None,
            Garment::RoughspunTunic => None,
            Garment::StormcloakCuirass => Some(23),
            Garment::ImperialLightArmor => Some(23),
            Garment::ImperialLightBoots => Some(7),
            Garment::ImperialLightBracers => Some(7),
            Garment::ImperialLightHelmet => Some(12),
        }
    }

    /// Looks up the catalog record behind the handle.
    pub fn record(self) -> (r: ItemType)
        ensures
            r == self.item_kind(),
            r.item_name() == self.item_name(),
            r.item_weight() == self.item_weight(),
            r.item_value() == self.item_value(),
            r.worn_at() == self.worn_at(),
            r.rating_of() == self.armor_rating(),
    {
        match self {
            Garment::Footwraps => ItemType::Clothing(
                Clothing { name: "Footwraps", position: ApparelPos::Feet, weight: 1, value: 1 },
            ),
            Garment::RoughspunTunic => ItemType::Clothing(
                Clothing { name: "Roughspun Tunic", position: ApparelPos::Torso, weight: 1, value: 1 },
            ),
            Garment::StormcloakCuirass => ItemType::Armor(
                Armor {
                    name: "Stormcloak Cuirass",
                    position: ApparelPos::Torso,
                    base_armor: 23,
                    weight: 8,
                    value: 25,
                },
            ),
            Garment::ImperialLightArmor => ItemType::Armor(
                Armor {
                    name: "Imperial Light Armor",
                    position: ApparelPos::Torso,
                    base_armor: 23,
                    weight: 6,
                    value: 75,
                },
            ),
            Garment::ImperialLightBoots => ItemType::Armor(
                Armor {
                    name: "Imperial Light Boots",
                    position: ApparelPos::Feet,
                    base_armor: 7,
                    weight: 2,
                    value: 15,
                },
            ),
            Garment::ImperialLightBracers => ItemType::Armor(
                Armor {
                    name: "Imperial Light Bracers",
                    position: ApparelPos::Hands,
                    base_armor: 7,
                    weight: 1,
                    value: 15,
                },
            ),
            Garment::ImperialLightHelmet => ItemType::Armor(
                Armor {
                    name: "Imperial Light Helmet",
                    position: ApparelPos::Head,
                    base_armor: 12,
                    weight: 2,
                    value: 35,
                },
            ),
        }
    }
}

impl Item for Garment {
    open spec fn item_name(&self) -> Seq<char> {
        self.label()@
    }

    open spec fn item_weight(&self) -> u16 {
        self.carry_weight()
    }

    open spec fn item_value(&self) -> u16 {
        self.worth()
    }

    /// The record assembled from the entry's listed fields.
    closed spec fn item_kind(&self) -> ItemType {
        match self.armor_rating() {
            Some(rating) => ItemType::Armor(
                Armor {
                    name: self.label(),
                    position: self.body_pos(),
                    base_armor: rating,
                    weight: self.carry_weight(),
                    value: self.worth(),
                },
            ),
            None => ItemType::Clothing(
                Clothing {
                    name: self.label(),
                    position: self.body_pos(),
                    weight: self.carry_weight(),
                    value: self.worth(),
                },
            ),
        }
    }

    fn name(&self) -> (r: &'static str) {
        self.record().name()
    }

    fn weight(&self) -> (r: u16) {
        self.record().weight()
    }

    fn value(&self) -> (r: u16) {
        self.record().value()
    }

    fn intrinsic(&self) -> (r: ItemType) {
        self.record()
    }
}

impl Apparel for Garment {
    open spec fn worn_at(&self) -> ApparelPos {
        self.body_pos()
    }

    fn position(&self) -> (r: ApparelPos) {
        self.record().position()
    }
}

} // verus!
