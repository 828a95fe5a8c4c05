use wardrobe::apparel::{Apparel, ApparelPos, Garment};
use wardrobe::item::{Item, ItemType};

#[test]
fn footwraps_record() {
    let g = Garment::Footwraps;
    assert_eq!(g.name(), "Footwraps");
    assert_eq!(g.position(), ApparelPos::Feet);
    assert_eq!(g.weight(), 1);
    assert_eq!(g.value(), 1);
    assert!(matches!(g.intrinsic(), ItemType::Clothing(_)));
}

#[test]
fn roughspun_tunic_record() {
    let g = Garment::RoughspunTunic;
    assert_eq!(g.name(), "Roughspun Tunic");
    assert_eq!(g.position(), ApparelPos::Torso);
    assert_eq!(g.weight(), 1);
    assert_eq!(g.value(), 1);
    match g.record() {
        ItemType::Clothing(c) => {
            assert_eq!(c.name(), "Roughspun Tunic");
            assert_eq!(c.position(), ApparelPos::Torso);
            assert!(matches!(c.intrinsic(), ItemType::Clothing(_)));
        }
        ItemType::Armor(_) => panic!("tunic is clothing"),
    }
}

#[test]
fn stormcloak_cuirass_record() {
    let g = Garment::StormcloakCuirass;
    assert_eq!(g.name(), "Stormcloak Cuirass");
    assert_eq!(g.position(), ApparelPos::Torso);
    assert_eq!(g.weight(), 8);
    assert_eq!(g.value(), 25);
    match g.intrinsic() {
        ItemType::Armor(a) => {
            assert_eq!(a.armor(), 23);
            assert_eq!(a.weight(), 8);
            assert_eq!(a.value(), 25);
            assert_eq!(a.position(), ApparelPos::Torso);
        }
        ItemType::Clothing(_) => panic!("cuirass is armor"),
    }
}

fn armor_of(g: Garment) -> u16 {
    match g.intrinsic() {
        ItemType::Armor(a) => a.armor(),
        ItemType::Clothing(_) => panic!("not armor"),
    }
}

#[test]
fn imperial_records() {
    assert_eq!(Garment::ImperialLightArmor.name(), "Imperial Light Armor");
    assert_eq!(Garment::ImperialLightArmor.position(), ApparelPos::Torso);
    assert_eq!(Garment::ImperialLightArmor.weight(), 6);
    assert_eq!(Garment::ImperialLightArmor.value(), 75);
    assert_eq!(armor_of(Garment::ImperialLightArmor), 23);

    assert_eq!(Garment::ImperialLightBoots.name(), "Imperial Light Boots");
    assert_eq!(Garment::ImperialLightBoots.position(), ApparelPos::Feet);
    assert_eq!(Garment::ImperialLightBoots.weight(), 2);
    assert_eq!(Garment::ImperialLightBoots.value(), 15);
    assert_eq!(armor_of(Garment::ImperialLightBoots), 7);

    assert_eq!(Garment::ImperialLightBracers.name(), "Imperial Light Bracers");
    assert_eq!(Garment::ImperialLightBracers.position(), ApparelPos::Hands);
    assert_eq!(Garment::ImperialLightBracers.weight(), 1);
    assert_eq!(Garment::ImperialLightBracers.value(), 15);
    assert_eq!(armor_of(Garment::ImperialLightBracers), 7);

    assert_eq!(Garment::ImperialLightHelmet.name(), "Imperial Light Helmet");
    assert_eq!(Garment::ImperialLightHelmet.position(), ApparelPos::Head);
    assert_eq!(Garment::ImperialLightHelmet.weight(), 2);
    assert_eq!(Garment::ImperialLightHelmet.value(), 35);
    assert_eq!(armor_of(Garment::ImperialLightHelmet), 12);
}

#[test]
fn item_type_accessors_follow_variant() {
    let t = Garment::ImperialLightBoots.record();
    assert_eq!(t.name(), "Imperial Light Boots");
    assert_eq!(t.weight(), 2);
    assert_eq!(t.value(), 15);
    assert_eq!(t.position(), ApparelPos::Feet);
    assert!(matches!(t.intrinsic(), ItemType::Armor(_)));
}

#[test]
fn intrinsic_returns_same_record() {
    match Garment::Footwraps.record() {
        ItemType::Clothing(c) => match c.intrinsic() {
            ItemType::Clothing(d) => assert_eq!(c, d),
            ItemType::Armor(_) => panic!("clothing reported as armor"),
        },
        ItemType::Armor(_) => panic!("footwraps are clothing"),
    }
    match Garment::StormcloakCuirass.record() {
        ItemType::Armor(a) => match a.intrinsic() {
            ItemType::Armor(b) => {
                assert_eq!(a, b);
                assert_eq!(b.armor(), 23);
            }
            ItemType::Clothing(_) => panic!("armor reported as clothing"),
        },
        ItemType::Clothing(_) => panic!("cuirass is armor"),
    }
}
