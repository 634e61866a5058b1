use underworld_core::components::life_modifier::LifeModifier;

#[test]
fn describe() {
    assert_eq!("zombie", LifeModifier::Zombie.describe());
    assert_eq!("vampire", LifeModifier::Vampire.describe());
    assert_eq!("skeleton", LifeModifier::Skeleton.describe());
}

#[test]
fn as_adjective() {
    assert_eq!("zombified", LifeModifier::Zombie.as_adjective());
    assert_eq!("vampiric", LifeModifier::Vampire.as_adjective());
    assert_eq!("skeletal", LifeModifier::Skeleton.as_adjective());
}
