use vstd::prelude::*;

use crate::apparel::{Armor, Clothing};

verus! {

/// The concrete kind of an item, so that a consumer can reach the data that
/// only one kind carries (the rating of a piece of armor).
#[derive(Debug, Clone, Copy)]
pub enum ItemType {
    Clothing(Clothing),
    Armor(Armor),
}

impl ItemType {
    /// The base rating when the item is armor; `None` for clothing.
    pub open spec fn rating_of(self) -> Option<u16> {
        match self {
            ItemType::Clothing(_) => None,
            ItemType::Armor(a) => Some(a.rating()),
        }
    }
}

/// What every item exposes: a display name, a carry weight and a worth.
pub trait Item {
    /// The display name.
    spec fn item_name(&self) -> Seq<char>;

    /// The carry cost.
    spec fn item_weight(&self) -> u16;

    /// The currency worth.
    spec fn item_value(&self) -> u16;

    /// The concrete record behind the item.
    spec fn item_kind(&self) -> ItemType;

    fn name(&self) -> (r: &'static str)
        ensures
            r@ == self.item_name(),
    ;

    fn weight(&self) -> (r: u16)
        ensures
            r == self.item_weight(),
    ;

    fn value(&self) -> (r: u16)
        ensures
            r == self.item_value(),
    ;

    fn intrinsic(&self) -> (r: ItemType)
        ensures
            r == self.item_kind(),
    ;
}

} // verus!

verus! {

impl Item for ItemType {
    open spec fn item_name(&self) -> Seq<char> {
        match self {
            ItemType::Clothing(c) => c.item_name(),
            ItemType::Armor(a) => a.item_name(),
        }
    }

    open spec fn item_weight(&self) -> u16 {
        match self {
            ItemType::Clothing(c) => c.item_weight(),
            ItemType::Armor(a) => a.item_weight(),
        }
    }

    open spec fn item_value(&self) -> u16 {
        match self {
            ItemType::Clothing(c) => c.item_value(),
            ItemType::Armor(a) => a.item_value(),
        }
    }

    open spec fn item_kind(&self) -> ItemType {
        *self
    }

    fn name(&self) -> (r: &'static str) {
        match self {
            ItemType::Clothing(c) => c.name(),
            ItemType::Armor(a) => a.name(),
        }
    }

    fn weight(&self) -> (r: u16) {
        match self {
            ItemType::Clothing(c) => c.weight(),
            ItemType::Armor(a) => a.weight(),
        }
    }

    fn value(&self) -> (r: u16) {
        match self {
            ItemType::Clothing(c) => c.value(),
            ItemType::Armor(a) => a.value(),
        }
    }

    fn intrinsic(&self) -> (r: ItemType) {
        *self
    }
}

} // verus!
