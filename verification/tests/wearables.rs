use underworld_core::components::material::Material;
use underworld_core::components::wearables::WearableType;

#[test]
fn all_lists_every_kind_once() {
    let all = WearableType::all();
    assert_eq!(14, all.len());
    assert!(all.contains(&WearableType::Breastplate));
    assert!(all.contains(&WearableType::Vest));
}

#[test]
fn body_region_conflicts_hold_both_ways() {
    assert!(WearableType::Breastplate.unable_to_be_used_with(&WearableType::Shirt));
    assert!(WearableType::Shirt.unable_to_be_used_with(&WearableType::Breastplate));
    assert!(WearableType::Crown.unable_to_be_used_with(&WearableType::Mask));
    assert!(!WearableType::Crown.unable_to_be_used_with(&WearableType::Boots));
    assert!(WearableType::Cloak.unable_to_be_used_with(&WearableType::Cloak));
}

#[test]
fn materials_come_from_the_kind_table() {
    let materials = WearableType::PlateBoots.possible_materials();
    assert_eq!(vec![Material::Iron, Material::Steel], materials);
    assert!(WearableType::Gloves.possible_materials().contains(&Material::Leather));
}

#[test]
fn multiples_and_regions() {
    assert!(WearableType::Boots.is_multiple());
    assert!(!WearableType::Crown.is_multiple());
    assert!(WearableType::Trousers.is_lower_body());
    assert!(WearableType::PlateHelmet.is_headgear());
    assert!(WearableType::Vest.is_upper_body());
    assert!(WearableType::PlateBoots.is_footwear());
    assert!(WearableType::Shackles.is_for_hands());
}
