use vstd::prelude::*;
use vstd::string::StringExecFns;

use super::equipment::LocationTag;
use super::material::Material;
use super::object_descriptor::ObjectDescriptor;
use super::object_tag::ObjectTag;

verus! {

/// Kinds of wearable items.
#[derive(Clone, Copy, Debug, PartialEq, Eq, Structural)]
pub enum WearableType {
    Breastplate,
    Mask,
    Cloak,
    Shirt,
    Trousers,
    Crown,
    Boots,
    Gloves,
    LoinCloth,
    PlateBoots,
    PlateGauntlets,
    PlateHelmet,
    Shackles,
    Vest,
}

impl WearableType {
    /// Every wearable kind, in declaration order.
    pub open spec fn spec_all() -> Seq<WearableType> {
        seq![
            WearableType::Breastplate,
            WearableType::Mask,
            WearableType::Cloak,
            WearableType::Shirt,
            WearableType::Trousers,
            WearableType::Crown,
            WearableType::Boots,
            WearableType::Gloves,
            WearableType::LoinCloth,
            WearableType::PlateBoots,
            WearableType::PlateGauntlets,
            WearableType::PlateHelmet,
            WearableType::Shackles,
            WearableType::Vest,
        ]
    }

    pub fn all() -> (r: Vec<WearableType>)
        ensures
            r@ == WearableType::spec_all(),
    {
        let r = vec![
            WearableType::Breastplate,
            WearableType::Mask,
            WearableType::Cloak,
            WearableType::Shirt,
            WearableType::Trousers,
            WearableType::Crown,
            WearableType::Boots,
            WearableType::Gloves,
            WearableType::LoinCloth,
            WearableType::PlateBoots,
            WearableType::PlateGauntlets,
            WearableType::PlateHelmet,
            WearableType::Shackles,
            WearableType::Vest,
        ];
        proof {
            assert(r@ =~= WearableType::spec_all());
        }
        r
    }

    /// Whether the kind is worn as a matching set rather than a single piece.
    pub open spec fn spec_is_multiple(self) -> bool {
        match self {
            WearableType::Breastplate => true,
            WearableType::Trousers => true,
            WearableType::Boots => true,
            WearableType::Gloves => true,
            WearableType::PlateBoots => true,
            WearableType::PlateGauntlets => true,
            _ => false,
        }
    }

    pub fn is_multiple(&self) -> (r: bool)
        ensures
            r == self.spec_is_multiple(),
    {
        match *self {
            WearableType::Breastplate => true,
            WearableType::Cloak => false,
            WearableType::Shirt => false,
            WearableType::PlateHelmet => false,
            WearableType::Shackles => false,
            WearableType::Mask => false,
            WearableType::Trousers => true,
            WearableType::Crown => false,
            WearableType::Boots => true,
            WearableType::Gloves => true,
            WearableType::LoinCloth => false,
            WearableType::PlateBoots => true,
            WearableType::PlateGauntlets => true,
            WearableType::Vest => false,
        }
    }

    pub open spec fn spec_is_lower_body(self) -> bool {
        self == WearableType::LoinCloth || self == WearableType::Trousers
    }

    pub fn is_lower_body(&self) -> (r: bool)
        ensures
            r == self.spec_is_lower_body(),
    {
        matches!(*self, WearableType::LoinCloth | WearableType::Trousers)
    }

    pub open spec fn spec_is_headgear(self) -> bool {
        self == WearableType::Crown || self == WearableType::Mask || self
            == WearableType::PlateHelmet
    }

    pub fn is_headgear(&self) -> (r: bool)
        ensures
            r == self.spec_is_headgear(),
    {
        matches!(*self, WearableType::Crown | WearableType::Mask | WearableType::PlateHelmet)
    }

    pub open spec fn spec_is_upper_body(self) -> bool {
        self == WearableType::Breastplate || self == WearableType::Shirt || self
            == WearableType::Vest
    }

    pub fn is_upper_body(&self) -> (r: bool)
        ensures
            r == self.spec_is_upper_body(),
    {
        matches!(*self, WearableType::Breastplate | WearableType::Shirt | WearableType::Vest)
    }

    pub open spec fn spec_is_footwear(self) -> bool {
        self == WearableType::Boots || self == WearableType::PlateBoots
    }

    pub fn is_footwear(&self) -> (r: bool)
        ensures
            r == self.spec_is_footwear(),
    {
        matches!(*self, WearableType::Boots | WearableType::PlateBoots)
    }

    pub open spec fn spec_is_for_hands(self) -> bool {
        self == WearableType::Shackles || self == WearableType::Boots || self
            == WearableType::PlateBoots
    }

    pub fn is_for_hands(&self) -> (r: bool)
        ensures
            r == self.spec_is_for_hands(),
    {
        matches!(*self, WearableType::Shackles | WearableType::Boots | WearableType::PlateBoots)
    }

    /// The body-region conflict table: `self` cannot be equipped together
    /// with `other` when this holds.
    pub open spec fn spec_unable_to_be_used_with(self, other: WearableType) -> bool {
        match self {
            WearableType::Breastplate => other.spec_is_upper_body(),
            WearableType::Boots => other.spec_is_footwear(),
            WearableType::Cloak => other == WearableType::Cloak,
            WearableType::Crown => other.spec_is_headgear(),
            WearableType::Gloves => other.spec_is_for_hands(),
            WearableType::LoinCloth => other.spec_is_lower_body(),
            WearableType::Mask => other.spec_is_headgear(),
            WearableType::PlateBoots => other.spec_is_footwear(),
            WearableType::PlateGauntlets => other.spec_is_footwear(),
            WearableType::PlateHelmet => other.spec_is_headgear(),
            WearableType::Shackles => other.spec_is_for_hands(),
            WearableType::Shirt => other.spec_is_upper_body(),
            WearableType::Trousers => other.spec_is_lower_body(),
            WearableType::Vest => other.spec_is_upper_body(),
        }
    }

    pub fn unable_to_be_used_with(&self, other: &WearableType) -> (r: bool)
        ensures
            r == self.spec_unable_to_be_used_with(*other),
    {
        match *self {
            WearableType::Breastplate => other.is_upper_body(),
            WearableType::Boots => other.is_footwear(),
            WearableType::Cloak => *other == WearableType::Cloak,
            WearableType::Crown => other.is_headgear(),
            WearableType::Gloves => other.is_for_hands(),
            WearableType::LoinCloth => other.is_lower_body(),
            WearableType::Mask => other.is_headgear(),
            WearableType::PlateBoots => other.is_footwear(),
            WearableType::PlateGauntlets => other.is_footwear(),
            WearableType::PlateHelmet => other.is_headgear(),
            WearableType::Shackles => other.is_for_hands(),
            WearableType::Shirt => other.is_upper_body(),
            WearableType::Trousers => other.is_lower_body(),
            WearableType::Vest => other.is_upper_body(),
        }
    }

    /// Descriptors a generated wearable of this kind must carry.
    pub open spec fn spec_necessary_descriptors(self) -> Seq<ObjectDescriptor> {
        match self {
            WearableType::Shackles => seq![ObjectDescriptor::SetOf],
            _ => Seq::<ObjectDescriptor>::empty(),
        }
    }

    pub fn necessary_descriptors(&self) -> (r: Vec<ObjectDescriptor>)
        ensures
            r@ =~= self.spec_necessary_descriptors(),
    {
        match *self {
            WearableType::Shackles => vec![ObjectDescriptor::SetOf],
            _ => Vec::new(),
        }
    }

    /// Materials a wearable of this kind can be built from.
    pub open spec fn spec_possible_materials(self) -> Seq<Material> {
        match self {
            WearableType::Breastplate => seq![Material::Iron, Material::Leather, Material::Steel],
            WearableType::Mask => seq![Material::Bone, Material::Iron],
            WearableType::Cloak => seq![Material::Linen, Material::Hide, Material::Wool],
            WearableType::Shirt => seq![
                Material::Wool,
                Material::Linen,
                Material::Cotton,
                Material::Silk,
            ],
            WearableType::Trousers => seq![
                Material::Hide,
                Material::Leather,
                Material::Wool,
                Material::Linen,
            ],
            WearableType::Crown => seq![Material::Bone, Material::Gold, Material::Stone],
            WearableType::Boots => seq![
                Material::Hide,
                Material::Iron,
                Material::Leather,
                Material::Steel,
            ],
            WearableType::Gloves => seq![Material::Hide, Material::Leather],
            WearableType::LoinCloth => seq![
                Material::Hide,
                Material::Wool,
                Material::Leather,
                Material::Silk,
                Material::Linen,
                Material::Cotton,
            ],
            WearableType::PlateBoots => seq![Material::Iron, Material::Steel],
            WearableType::PlateGauntlets => seq![Material::Iron, Material::Steel],
            WearableType::PlateHelmet => seq![Material::Iron, Material::Steel],
            WearableType::Shackles => seq![Material::Iron, Material::Leather, Material::Steel],
            WearableType::Vest => seq![Material::Fur, Material::Hide, Material::Leather],
        }
    }

    pub fn possible_materials(&self) -> (r: Vec<Material>)
        ensures
            r@ =~= self.spec_possible_materials(),
    {
        match *self {
            WearableType::Breastplate => vec![Material::Iron, Material::Leather, Material::Steel],
            WearableType::Mask => vec![Material::Bone, Material::Iron],
            WearableType::Cloak => vec![Material::Linen, Material::Hide, Material::Wool],
            WearableType::Shirt => vec![
                Material::Wool,
                Material::Linen,
                Material::Cotton,
                Material::Silk,
            ],
            WearableType::Trousers => vec![
                Material::Hide,
                Material::Leather,
                Material::Wool,
                Material::Linen,
            ],
            WearableType::Crown => vec![Material::Bone, Material::Gold, Material::Stone],
            WearableType::Boots => vec![
                Material::Hide,
                Material::Iron,
                Material::Leather,
                Material::Steel,
            ],
            WearableType::Gloves => vec![Material::Hide, Material::Leather],
            WearableType::LoinCloth => vec![
                Material::Hide,
                Material::Wool,
                Material::Leather,
                Material::Silk,
                Material::Linen,
                Material::Cotton,
            ],
            WearableType::PlateBoots => vec![Material::Iron, Material::Steel],
            WearableType::PlateGauntlets => vec![Material::Iron, Material::Steel],
            WearableType::PlateHelmet => vec![Material::Iron, Material::Steel],
            WearableType::Shackles => vec![Material::Iron, Material::Leather, Material::Steel],
            WearableType::Vest => vec![Material::Fur, Material::Hide, Material::Leather],
        }
    }

    /// Category tags for this kind.
    pub open spec fn spec_tags(self) -> Seq<ObjectTag> {
        match self {
            WearableType::Breastplate => seq![ObjectTag::Armour],
            WearableType::Mask => seq![ObjectTag::Accessory],
            WearableType::Cloak => seq![ObjectTag::Clothing],
            WearableType::Shirt => seq![ObjectTag::Clothing],
            WearableType::Trousers => seq![ObjectTag::Clothing],
            WearableType::Crown => seq![ObjectTag::Accessory],
            WearableType::Boots => seq![ObjectTag::Armour],
            WearableType::Gloves => seq![ObjectTag::Clothing],
            WearableType::LoinCloth => seq![ObjectTag::Clothing],
            WearableType::PlateBoots => seq![ObjectTag::Armour],
            WearableType::PlateGauntlets => seq![ObjectTag::Armour],
            WearableType::PlateHelmet => seq![ObjectTag::Armour],
            WearableType::Shackles => seq![ObjectTag::Accessory, ObjectTag::Rope],
            WearableType::Vest => seq![ObjectTag::Clothing],
        }
    }

    pub fn tags(&self) -> (r: Vec<ObjectTag>)
        ensures
            r@ =~= self.spec_tags(),
    {
        match *self {
            WearableType::Breastplate => vec![ObjectTag::Armour],
            WearableType::Mask => vec![ObjectTag::Accessory],
            WearableType::Cloak => vec![ObjectTag::Clothing],
            WearableType::Shirt => vec![ObjectTag::Clothing],
            WearableType::Trousers => vec![ObjectTag::Clothing],
            WearableType::Crown => vec![ObjectTag::Accessory],
            WearableType::Boots => vec![ObjectTag::Armour],
            WearableType::Gloves => vec![ObjectTag::Clothing],
            WearableType::LoinCloth => vec![ObjectTag::Clothing],
            WearableType::PlateBoots => vec![ObjectTag::Armour],
            WearableType::PlateGauntlets => vec![ObjectTag::Armour],
            WearableType::PlateHelmet => vec![ObjectTag::Armour],
            WearableType::Shackles => vec![ObjectTag::Accessory, ObjectTag::Rope],
            WearableType::Vest => vec![ObjectTag::Clothing],
        }
    }

    /// Locations an item of this kind can legally be placed in.
    pub open spec fn spec_possible_location_tags(self) -> Seq<LocationTag> {
        match self {
            WearableType::Breastplate => seq![
                LocationTag::Equipped,
                LocationTag::Body,
                LocationTag::Packed,
            ],
            WearableType::Cloak => seq![
                LocationTag::Equipped,
                LocationTag::Shoulder,
                LocationTag::Packed,
            ],
            WearableType::Shirt => seq![LocationTag::Equipped, LocationTag::Body, LocationTag::Packed],
            WearableType::PlateHelmet => seq![
                LocationTag::Equipped,
                LocationTag::Head,
                LocationTag::Packed,
            ],
            WearableType::Shackles => seq![
                LocationTag::Equipped,
                LocationTag::Wrist,
                LocationTag::Packed,
            ],
            WearableType::Mask => seq![LocationTag::Equipped, LocationTag::Head, LocationTag::Packed],
            WearableType::Trousers => seq![
                LocationTag::Equipped,
                LocationTag::Leg,
                LocationTag::Packed,
            ],
            WearableType::Crown => seq![LocationTag::Equipped, LocationTag::Head, LocationTag::Packed],
            WearableType::Boots => seq![LocationTag::Equipped, LocationTag::Feet, LocationTag::Packed],
            WearableType::Gloves => seq![
                LocationTag::Equipped,
                LocationTag::Hand,
                LocationTag::Packed,
            ],
            WearableType::LoinCloth => seq![
                LocationTag::Equipped,
                LocationTag::Waist,
                LocationTag::Packed,
            ],
            WearableType::PlateBoots => seq![
                LocationTag::Equipped,
                LocationTag::Feet,
                LocationTag::Packed,
            ],
            WearableType::PlateGauntlets => seq![
                LocationTag::Equipped,
                LocationTag::Hand,
                LocationTag::Packed,
            ],
            WearableType::Vest => seq![LocationTag::Equipped, LocationTag::Body, LocationTag::Packed],
        }
    }

    pub fn possible_location_tags(&self) -> (r: Vec<LocationTag>)
        ensures
            r@ =~= self.spec_possible_location_tags(),
    {
        match *self {
            WearableType::Breastplate => vec![
                LocationTag::Equipped,
                LocationTag::Body,
                LocationTag::Packed,
            ],
            WearableType::Cloak => vec![
                LocationTag::Equipped,
                LocationTag::Shoulder,
                LocationTag::Packed,
            ],
            WearableType::Shirt => vec![LocationTag::Equipped, LocationTag::Body, LocationTag::Packed],
            WearableType::PlateHelmet => vec![
                LocationTag::Equipped,
                LocationTag::Head,
                LocationTag::Packed,
            ],
            WearableType::Shackles => vec![
                LocationTag::Equipped,
                LocationTag::Wrist,
                LocationTag::Packed,
            ],
            WearableType::Mask => vec![LocationTag::Equipped, LocationTag::Head, LocationTag::Packed],
            WearableType::Trousers => vec![
                LocationTag::Equipped,
                LocationTag::Leg,
                LocationTag::Packed,
            ],
            WearableType::Crown => vec![LocationTag::Equipped, LocationTag::Head, LocationTag::Packed],
            WearableType::Boots => vec![LocationTag::Equipped, LocationTag::Feet, LocationTag::Packed],
            WearableType::Gloves => vec![
                LocationTag::Equipped,
                LocationTag::Hand,
                LocationTag::Packed,
            ],
            WearableType::LoinCloth => vec![
                LocationTag::Equipped,
                LocationTag::Waist,
                LocationTag::Packed,
            ],
            WearableType::PlateBoots => vec![
                LocationTag::Equipped,
                LocationTag::Feet,
                LocationTag::Packed,
            ],
            WearableType::PlateGauntlets => vec![
                LocationTag::Equipped,
                LocationTag::Hand,
                LocationTag::Packed,
            ],
            WearableType::Vest => vec![LocationTag::Equipped, LocationTag::Body, LocationTag::Packed],
        }
    }

    /// The body region an equipped item of this kind occupies.
    pub open spec fn spec_character_location_tags(self) -> Seq<LocationTag> {
        match self {
            WearableType::Breastplate => seq![LocationTag::Body],
            WearableType::Mask => seq![LocationTag::Head],
            WearableType::Cloak => seq![LocationTag::Shoulder],
            WearableType::Shirt => seq![LocationTag::Body],
            WearableType::Trousers => seq![LocationTag::Leg],
            WearableType::Crown => seq![LocationTag::Head],
            WearableType::Boots => seq![LocationTag::Feet],
            WearableType::Gloves => seq![LocationTag::Hand],
            WearableType::LoinCloth => seq![LocationTag::Waist],
            WearableType::PlateBoots => seq![LocationTag::Feet],
            WearableType::PlateGauntlets => seq![LocationTag::Hand],
            WearableType::PlateHelmet => seq![LocationTag::Head],
            WearableType::Shackles => seq![LocationTag::Ankle, LocationTag::Wrist],
            WearableType::Vest => seq![LocationTag::Body],
        }
    }

    pub fn character_location_tags(&self) -> (r: Vec<LocationTag>)
        ensures
            r@ =~= self.spec_character_location_tags(),
    {
        match *self {
            WearableType::Breastplate => vec![LocationTag::Body],
            WearableType::Mask => vec![LocationTag::Head],
            WearableType::Cloak => vec![LocationTag::Shoulder],
            WearableType::Shirt => vec![LocationTag::Body],
            WearableType::Trousers => vec![LocationTag::Leg],
            WearableType::Crown => vec![LocationTag::Head],
            WearableType::Boots => vec![LocationTag::Feet],
            WearableType::Gloves => vec![LocationTag::Hand],
            WearableType::LoinCloth => vec![LocationTag::Waist],
            WearableType::PlateBoots => vec![LocationTag::Feet],
            WearableType::PlateGauntlets => vec![LocationTag::Hand],
            WearableType::PlateHelmet => vec![LocationTag::Head],
            WearableType::Shackles => vec![LocationTag::Ankle, LocationTag::Wrist],
            WearableType::Vest => vec![LocationTag::Body],
        }
    }

    /// The noun used for this kind in composed descriptions.
    pub open spec fn spec_describe(self) -> Seq<char> {
        match self {
            WearableType::Breastplate => "armour"@,
            WearableType::Cloak => "cloak"@,
            WearableType::Shirt => "shirt"@,
            WearableType::PlateHelmet => "plate helmet"@,
            WearableType::Shackles => "shackles"@,
            WearableType::Mask => "mask"@,
            WearableType::Trousers => "trousers"@,
            WearableType::Crown => "crown"@,
            WearableType::Boots => "boots"@,
            WearableType::Gloves => "gloves"@,
            WearableType::LoinCloth => "loin cloth"@,
            WearableType::PlateBoots => "plate boots"@,
            WearableType::PlateGauntlets => "plate gauntlets"@,
            WearableType::Vest => "vest"@,
        }
    }

    pub fn describe(&self) -> (r: String)
        ensures
            r@ == self.spec_describe(),
    {
        match *self {
            WearableType::Breastplate => String::from_str("armour"),
            WearableType::Cloak => String::from_str("cloak"),
            WearableType::Shirt => String::from_str("shirt"),
            WearableType::PlateHelmet => String::from_str("plate helmet"),
            WearableType::Shackles => String::from_str("shackles"),
            WearableType::Mask => String::from_str("mask"),
            WearableType::Trousers => String::from_str("trousers"),
            WearableType::Crown => String::from_str("crown"),
            WearableType::Boots => String::from_str("boots"),
            WearableType::Gloves => String::from_str("gloves"),
            WearableType::LoinCloth => String::from_str("loin cloth"),
            WearableType::PlateBoots => String::from_str("plate boots"),
            WearableType::PlateGauntlets => String::from_str("plate gauntlets"),
            WearableType::Vest => String::from_str("vest"),
        }
    }
}

} // verus!
