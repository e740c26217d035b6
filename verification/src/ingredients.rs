//! The ingredient catalogue: every mixable ingredient with its price and
//! display data, its transformation rule (which effects it replaces), its
//! signature effect, and the `apply` engine that advances a mix state.

use crate::effects::insert_if_absent_spec;
use crate::effects::Effect;
use crate::effects::EffectList;
use vstd::prelude::*;

verus! {

/// Grows a vector only with values it does not already hold.
pub trait VecExtensions<T> {
    fn push_if_not_exists(&mut self, item: T);
}

impl VecExtensions<Effect> for Vec<Effect> {
    fn push_if_not_exists(&mut self, item: Effect)
        ensures
            final(self)@ == insert_if_absent_spec(old(self)@, item),
    {
        let mut i: usize = 0;
        while i < self.len()
            invariant
                0 <= i <= self@.len(),
                forall|j: int| 0 <= j < i ==> self@[j] != item,
            decreases self@.len() - i,
        {
            if self[i] == item {
                return ;
            }
            i += 1;
        }
        self.push(item);
    }
}

/// One of the sixteen mixable ingredients.
#[derive(Clone, Copy, Debug, PartialEq, Eq, Structural)]
pub enum Ingredient {
    Cuke,
    Banana,
    Paracetamol,
    Donut,
    Viagra,
    MouthWash,
    FluMedicine,
    Gasoline,
    EnergyDrink,
    MotorOil,
    MegaBean,
    Chili,
    Battery,
    Iodine,
    Addy,
    HorseSemen,
}

/// Price of one ingredient, in whole dollars.
pub open spec fn price_spec(i: Ingredient) -> int {
    match i {
        Ingredient::Cuke => 2,
        Ingredient::Banana => 2,
        Ingredient::Paracetamol => 3,
        Ingredient::Donut => 3,
        Ingredient::Viagra => 4,
        Ingredient::MouthWash => 4,
        Ingredient::FluMedicine => 5,
        Ingredient::Gasoline => 5,
        Ingredient::EnergyDrink => 6,
        Ingredient::MotorOil => 6,
        Ingredient::MegaBean => 7,
        Ingredient::Chili => 7,
        Ingredient::Battery => 8,
        Ingredient::Iodine => 8,
        Ingredient::Addy => 9,
        Ingredient::HorseSemen => 9,
    }
}

/// Which ingredient each identifier denotes.
pub open spec fn ingredient_from_u8_spec(id: u8) -> Option<Ingredient> {
    match id {
        0u8 => Some(Ingredient::Cuke),
        1u8 => Some(Ingredient::Banana),
        2u8 => Some(Ingredient::Paracetamol),
        3u8 => Some(Ingredient::Donut),
        4u8 => Some(Ingredient::Viagra),
        5u8 => Some(Ingredient::MouthWash),
        6u8 => Some(Ingredient::FluMedicine),
        7u8 => Some(Ingredient::Gasoline),
        8u8 => Some(Ingredient::EnergyDrink),
        9u8 => Some(Ingredient::MotorOil),
        10u8 => Some(Ingredient::MegaBean),
        11u8 => Some(Ingredient::Chili),
        12u8 => Some(Ingredient::Battery),
        13u8 => Some(Ingredient::Iodine),
        14u8 => Some(Ingredient::Addy),
        15u8 => Some(Ingredient::HorseSemen),
        _ => None,
    }
}

/// The transformation rule: which effect this ingredient turns `e` into.
/// Effects the ingredient does not map pass through unchanged.
pub open spec fn rule_spec(i: Ingredient, e: Effect) -> Effect {
    match i {
        Ingredient::Cuke => match e {
            Effect::Euphoric => Effect::Laxative,
            Effect::Foggy => Effect::Cyclopean,
            Effect::Gingeritis => Effect::ThoughtProvoking,
            Effect::Munchies => Effect::Athletic,
            Effect::Slippery => Effect::Munchies,
            Effect::Sneaky => Effect::Paranoia,
            Effect::Toxic => Effect::Euphoric,
            _ => e,
        },
        Ingredient::Banana => match e {
            Effect::Calming => Effect::Sneaky,
            Effect::Cyclopean => Effect::Energizing,
            Effect::Disorienting => Effect::Focused,
            Effect::Energizing => Effect::ThoughtProvoking,
            Effect::Focused => Effect::SeizureInducing,
            Effect::LongFaced => Effect::Refreshing,
            Effect::Paranoia => Effect::Jennerising,
            Effect::Smelly => Effect::AntiGravity,
            Effect::Toxic => Effect::Smelly,
            _ => e,
        },
        Ingredient::Paracetamol => match e {
            Effect::Calming => Effect::Slippery,
            Effect::Electrifying => Effect::Athletic,
            Effect::Energizing => Effect::Paranoia,
            Effect::Focused => Effect::Gingeritis,
            Effect::Foggy => Effect::Calming,
            Effect::Glowing => Effect::Toxic,
            Effect::Munchies => Effect::AntiGravity,
            Effect::Paranoia => Effect::Balding,
            Effect::Spicy => Effect::BrightEyed,
            Effect::Toxic => Effect::TropicThunder,
            _ => e,
        },
        Ingredient::Donut => match e {
            Effect::AntiGravity => Effect::Slippery,
            Effect::Balding => Effect::Sneaky,
            Effect::CalorieDense => Effect::Explosive,
            Effect::Focused => Effect::Euphoric,
            Effect::Jennerising => Effect::Gingeritis,
            Effect::Munchies => Effect::Calming,
            Effect::Shrinking => Effect::Energizing,
            _ => e,
        },
        Ingredient::Viagra => match e {
            Effect::Athletic => Effect::Sneaky,
            Effect::Disorienting => Effect::Toxic,
            Effect::Euphoric => Effect::BrightEyed,
            Effect::Laxative => Effect::Calming,
            Effect::Shrinking => Effect::Gingeritis,
            _ => e,
        },
        Ingredient::MouthWash => match e {
            Effect::Calming => Effect::AntiGravity,
            Effect::CalorieDense => Effect::Sneaky,
            Effect::Explosive => Effect::Sedating,
            Effect::Focused => Effect::Jennerising,
            _ => e,
        },
        Ingredient::FluMedicine => match e {
            Effect::Athletic => Effect::Munchies,
            Effect::Calming => Effect::BrightEyed,
            Effect::Cyclopean => Effect::Foggy,
            Effect::Electrifying => Effect::Refreshing,
            Effect::Euphoric => Effect::Toxic,
            Effect::Focused => Effect::Calming,
            Effect::Laxative => Effect::Euphoric,
            Effect::Munchies => Effect::Slippery,
            Effect::Shrinking => Effect::Paranoia,
            Effect::ThoughtProvoking => Effect::Gingeritis,
            _ => e,
        },
        Ingredient::Gasoline => match e {
            Effect::Disorienting => Effect::Glowing,
            Effect::Electrifying => Effect::Disorienting,
            Effect::Energizing => Effect::Euphoric,
            Effect::Euphoric => Effect::Spicy,
            Effect::Gingeritis => Effect::Smelly,
            Effect::Jennerising => Effect::Sneaky,
            Effect::Laxative => Effect::Foggy,
            Effect::Munchies => Effect::Sedating,
            Effect::Paranoia => Effect::Calming,
            Effect::Shrinking => Effect::Focused,
            Effect::Sneaky => Effect::TropicThunder,
            _ => e,
        },
        Ingredient::EnergyDrink => match e {
            Effect::Disorienting => Effect::Electrifying,
            Effect::Euphoric => Effect::Energizing,
            Effect::Focused => Effect::Shrinking,
            Effect::Foggy => Effect::Laxative,
            Effect::Glowing => Effect::Disorienting,
            Effect::Schizophrenic => Effect::Balding,
            Effect::Sedating => Effect::Munchies,
            Effect::Spicy => Effect::Euphoric,
            Effect::TropicThunder => Effect::Sneaky,
            _ => e,
        },
        Ingredient::MotorOil => match e {
            Effect::Energizing => Effect::Munchies,
            Effect::Euphoric => Effect::Sedating,
            Effect::Foggy => Effect::Toxic,
            Effect::Munchies => Effect::Schizophrenic,
            Effect::Paranoia => Effect::AntiGravity,
            _ => e,
        },
        Ingredient::MegaBean => match e {
            Effect::Athletic => Effect::Laxative,
            Effect::Calming => Effect::Glowing,
            Effect::Energizing => Effect::Cyclopean,
            Effect::Focused => Effect::Disorienting,
            Effect::Jennerising => Effect::Paranoia,
            Effect::SeizureInducing => Effect::Focused,
            Effect::Shrinking => Effect::Electrifying,
            Effect::Slippery => Effect::Toxic,
            Effect::Sneaky => Effect::Calming,
            Effect::ThoughtProvoking => Effect::Energizing,
            _ => e,
        },
        Ingredient::Chili => match e {
            Effect::AntiGravity => Effect::TropicThunder,
            Effect::Athletic => Effect::Euphoric,
            Effect::Laxative => Effect::LongFaced,
            Effect::Munchies => Effect::Toxic,
            Effect::Shrinking => Effect::Refreshing,
            Effect::Sneaky => Effect::BrightEyed,
            _ => e,
        },
        Ingredient::Battery => match e {
            Effect::Cyclopean => Effect::Glowing,
            Effect::Electrifying => Effect::Euphoric,
            Effect::Euphoric => Effect::Zombifying,
            Effect::Laxative => Effect::CalorieDense,
            Effect::Munchies => Effect::TropicThunder,
            Effect::Shrinking => Effect::Munchies,
            _ => e,
        },
        Ingredient::Iodine => match e {
            Effect::Calming => Effect::Balding,
            Effect::CalorieDense => Effect::Gingeritis,
            Effect::Euphoric => Effect::SeizureInducing,
            Effect::Foggy => Effect::Paranoia,
            Effect::Refreshing => Effect::ThoughtProvoking,
            Effect::Toxic => Effect::Sneaky,
            _ => e,
        },
        Ingredient::Addy => match e {
            Effect::Explosive => Effect::Euphoric,
            Effect::Foggy => Effect::Energizing,
            Effect::Glowing => Effect::Refreshing,
            Effect::LongFaced => Effect::Electrifying,
            Effect::Sedating => Effect::Gingeritis,
            _ => e,
        },
        Ingredient::HorseSemen => match e {
            Effect::AntiGravity => Effect::Calming,
            Effect::Gingeritis => Effect::Refreshing,
            Effect::SeizureInducing => Effect::Energizing,
            Effect::ThoughtProvoking => Effect::Electrifying,
            _ => e,
        },
    }
}

/// The effect every ingredient unconditionally guarantees to add.
pub open spec fn signature_spec(i: Ingredient) -> Effect {
    match i {
        Ingredient::Cuke => Effect::Energizing,
        Ingredient::Banana => Effect::Gingeritis,
        Ingredient::Paracetamol => Effect::Sneaky,
        Ingredient::Donut => Effect::CalorieDense,
        Ingredient::Viagra => Effect::TropicThunder,
        Ingredient::MouthWash => Effect::Balding,
        Ingredient::FluMedicine => Effect::Sedating,
        Ingredient::Gasoline => Effect::Toxic,
        Ingredient::EnergyDrink => Effect::Athletic,
        Ingredient::MotorOil => Effect::Slippery,
        Ingredient::MegaBean => Effect::Foggy,
        Ingredient::Chili => Effect::Spicy,
        Ingredient::Battery => Effect::BrightEyed,
        Ingredient::Iodine => Effect::Jennerising,
        Ingredient::Addy => Effect::ThoughtProvoking,
        Ingredient::HorseSemen => Effect::LongFaced,
    }
}

/// One pass of the transformation rule over the whole input, in order: each
/// input effect is replaced by its rule image and inserted if absent.
pub open spec fn apply_pass(i: Ingredient, s: Seq<Effect>) -> Seq<Effect>
    decreases s.len(),
{
    if s.len() == 0 {
        Seq::empty()
    } else {
        insert_if_absent_spec(apply_pass(i, s.drop_last()), rule_spec(i, s.last()))
    }
}

/// What mixing one ingredient into a mix state yields: one rule pass over the
/// input, then the signature effect if absent.
pub open spec fn apply_spec(i: Ingredient, s: Seq<Effect>) -> Seq<Effect> {
    insert_if_absent_spec(apply_pass(i, s), signature_spec(i))
}

/// The catalogue order of the sixteen ingredients.
pub open spec fn all_ingredients_seq() -> Seq<Ingredient> {
    seq![
        Ingredient::Cuke,
        Ingredient::Banana,
        Ingredient::Paracetamol,
        Ingredient::Donut,
        Ingredient::Viagra,
        Ingredient::MouthWash,
        Ingredient::FluMedicine,
        Ingredient::Gasoline,
        Ingredient::EnergyDrink,
        Ingredient::MotorOil,
        Ingredient::MegaBean,
        Ingredient::Chili,
        Ingredient::Battery,
        Ingredient::Iodine,
        Ingredient::Addy,
        Ingredient::HorseSemen,
    ]
}

impl Ingredient {
    /// The ingredient with one numeric identifier, if any.
    pub fn from_u8(id: u8) -> (r: Option<Ingredient>)
        ensures
            r == ingredient_from_u8_spec(id),
    {
        match id {
            0u8 => Some(Ingredient::Cuke),
            1u8 => Some(Ingredient::Banana),
            2u8 => Some(Ingredient::Paracetamol),
            3u8 => Some(Ingredient::Donut),
            4u8 => Some(Ingredient::Viagra),
            5u8 => Some(Ingredient::MouthWash),
            6u8 => Some(Ingredient::FluMedicine),
            7u8 => Some(Ingredient::Gasoline),
            8u8 => Some(Ingredient::EnergyDrink),
            9u8 => Some(Ingredient::MotorOil),
            10u8 => Some(Ingredient::MegaBean),
            11u8 => Some(Ingredient::Chili),
            12u8 => Some(Ingredient::Battery),
            13u8 => Some(Ingredient::Iodine),
            14u8 => Some(Ingredient::Addy),
            15u8 => Some(Ingredient::HorseSemen),
            _ => None,
        }
    }

    /// Price of this ingredient, in whole dollars.
    pub fn price(&self) -> (r: u8)
        ensures
            r == price_spec(*self),
            2 <= r <= 9,
    {
        match self {
            Ingredient::Cuke => 2,
            Ingredient::Banana => 2,
            Ingredient::Paracetamol => 3,
            Ingredient::Donut => 3,
            Ingredient::Viagra => 4,
            Ingredient::MouthWash => 4,
            Ingredient::FluMedicine => 5,
            Ingredient::Gasoline => 5,
            Ingredient::EnergyDrink => 6,
            Ingredient::MotorOil => 6,
            Ingredient::MegaBean => 7,
            Ingredient::Chili => 7,
            Ingredient::Battery => 8,
            Ingredient::Iodine => 8,
            Ingredient::Addy => 9,
            Ingredient::HorseSemen => 9,
        }
    }

    /// Display name of this ingredient.
    pub fn name(&self) -> (r: &'static str)
        ensures
            r@ == name_spec(*self),
    {
        match self {
            Ingredient::Cuke => "Cuke",
            Ingredient::Banana => "Banana",
            Ingredient::Paracetamol => "Paracetamol",
            Ingredient::Donut => "Donut",
            Ingredient::Viagra => "Viagra",
            Ingredient::MouthWash => "Mouth Wash",
            Ingredient::FluMedicine => "Flu Medicine",
            Ingredient::Gasoline => "Gasoline",
            Ingredient::EnergyDrink => "Energy Drink",
            Ingredient::MotorOil => "Motor Oil",
            Ingredient::MegaBean => "Mega Bean",
            Ingredient::Chili => "Chili",
            Ingredient::Battery => "Battery",
            Ingredient::Iodine => "Iodine",
            Ingredient::Addy => "Addy",
            Ingredient::HorseSemen => "Horse Semen",
        }
    }

    /// Display emoji of this ingredient.
    pub fn emoji(&self) -> (r: &'static str)
        ensures
            r@ == emoji_spec(*self),
    {
        match self {
            Ingredient::Cuke => "🥤",
            Ingredient::Banana => "🍌",
            Ingredient::Paracetamol => "⚪",
            Ingredient::Donut => "🍩",
            Ingredient::Viagra => "🔵",
            Ingredient::MouthWash => "💧",
            Ingredient::FluMedicine => "🧴",
            Ingredient::Gasoline => "⛽",
            Ingredient::EnergyDrink => "⚡",
            Ingredient::MotorOil => "🛢️",
            Ingredient::MegaBean => "🫘",
            Ingredient::Chili => "🌶️",
            Ingredient::Battery => "🔋",
            Ingredient::Iodine => "🧪",
            Ingredient::Addy => "💊",
            Ingredient::HorseSemen => "🐎",
        }
    }

    /// Two-letter abbreviation of this ingredient.
    pub fn abbreviation(&self) -> (r: &'static str)
        ensures
            r@ == abbreviation_spec(*self),
    {
        match self {
            Ingredient::Cuke => "Cu",
            Ingredient::Banana => "Ba",
            Ingredient::Paracetamol => "Pa",
            Ingredient::Donut => "Dn",
            Ingredient::Viagra => "Vi",
            Ingredient::MouthWash => "MW",
            Ingredient::FluMedicine => "FM",
            Ingredient::Gasoline => "Ga",
            Ingredient::EnergyDrink => "ED",
            Ingredient::MotorOil => "MO",
            Ingredient::MegaBean => "MB",
            Ingredient::Chili => "Ch",
            Ingredient::Battery => "Bt",
            Ingredient::Iodine => "Io",
            Ingredient::Addy => "Ad",
            Ingredient::HorseSemen => "HS",
        }
    }

    /// The transformation rule on one effect; identity off the rule's domain.
    fn rule(&self, e: Effect) -> (r: Effect)
        ensures
            r == rule_spec(*self, e),
    {
        match self {
            Ingredient::Cuke => match e {
                Effect::Euphoric => Effect::Laxative,
                Effect::Foggy => Effect::Cyclopean,
                Effect::Gingeritis => Effect::ThoughtProvoking,
                Effect::Munchies => Effect::Athletic,
                Effect::Slippery => Effect::Munchies,
                Effect::Sneaky => Effect::Paranoia,
                Effect::Toxic => Effect::Euphoric,
                _ => e,
            },
            Ingredient::Banana => match e {
                Effect::Calming => Effect::Sneaky,
                Effect::Cyclopean => Effect::Energizing,
                Effect::Disorienting => Effect::Focused,
                Effect::Energizing => Effect::ThoughtProvoking,
                Effect::Focused => Effect::SeizureInducing,
                Effect::LongFaced => Effect::Refreshing,
                Effect::Paranoia => Effect::Jennerising,
                Effect::Smelly => Effect::AntiGravity,
                Effect::Toxic => Effect::Smelly,
                _ => e,
            },
            Ingredient::Paracetamol => match e {
                Effect::Calming => Effect::Slippery,
                Effect::Electrifying => Effect::Athletic,
                Effect::Energizing => Effect::Paranoia,
                Effect::Focused => Effect::Gingeritis,
                Effect::Foggy => Effect::Calming,
                Effect::Glowing => Effect::Toxic,
                Effect::Munchies => Effect::AntiGravity,
                Effect::Paranoia => Effect::Balding,
                Effect::Spicy => Effect::BrightEyed,
                Effect::Toxic => Effect::TropicThunder,
                _ => e,
            },
            Ingredient::Donut => match e {
                Effect::AntiGravity => Effect::Slippery,
                Effect::Balding => Effect::Sneaky,
                Effect::CalorieDense => Effect::Explosive,
                Effect::Focused => Effect::Euphoric,
                Effect::Jennerising => Effect::Gingeritis,
                Effect::Munchies => Effect::Calming,
                Effect::Shrinking => Effect::Energizing,
                _ => e,
            },
            Ingredient::Viagra => match e {
                Effect::Athletic => Effect::Sneaky,
                Effect::Disorienting => Effect::Toxic,
                Effect::Euphoric => Effect::BrightEyed,
                Effect::Laxative => Effect::Calming,
                Effect::Shrinking => Effect::Gingeritis,
                _ => e,
            },
            Ingredient::MouthWash => match e {
                Effect::Calming => Effect::AntiGravity,
                Effect::CalorieDense => Effect::Sneaky,
                Effect::Explosive => Effect::Sedating,
                Effect::Focused => Effect::Jennerising,
                _ => e,
            },
            Ingredient::FluMedicine => match e {
                Effect::Athletic => Effect::Munchies,
                Effect::Calming => Effect::BrightEyed,
                Effect::Cyclopean => Effect::Foggy,
                Effect::Electrifying => Effect::Refreshing,
                Effect::Euphoric => Effect::Toxic,
                Effect::Focused => Effect::Calming,
                Effect::Laxative => Effect::Euphoric,
                Effect::Munchies => Effect::Slippery,
                Effect::Shrinking => Effect::Paranoia,
                Effect::ThoughtProvoking => Effect::Gingeritis,
                _ => e,
            },
            Ingredient::Gasoline => match e {
                Effect::Disorienting => Effect::Glowing,
                Effect::Electrifying => Effect::Disorienting,
                Effect::Energizing => Effect::Euphoric,
                Effect::Euphoric => Effect::Spicy,
                Effect::Gingeritis => Effect::Smelly,
                Effect::Jennerising => Effect::Sneaky,
                Effect::Laxative => Effect::Foggy,
                Effect::Munchies => Effect::Sedating,
                Effect::Paranoia => Effect::Calming,
                Effect::Shrinking => Effect::Focused,
                Effect::Sneaky => Effect::TropicThunder,
                _ => e,
            },
            Ingredient::EnergyDrink => match e {
                Effect::Disorienting => Effect::Electrifying,
                Effect::Euphoric => Effect::Energizing,
                Effect::Focused => Effect::Shrinking,
                Effect::Foggy => Effect::Laxative,
                Effect::Glowing => Effect::Disorienting,
                Effect::Schizophrenic => Effect::Balding,
                Effect::Sedating => Effect::Munchies,
                Effect::Spicy => Effect::Euphoric,
                Effect::TropicThunder => Effect::Sneaky,
                _ => e,
            },
            Ingredient::MotorOil => match e {
                Effect::Energizing => Effect::Munchies,
                Effect::Euphoric => Effect::Sedating,
                Effect::Foggy => Effect::Toxic,
                Effect::Munchies => Effect::Schizophrenic,
                Effect::Paranoia => Effect::AntiGravity,
                _ => e,
            },
            Ingredient::MegaBean => match e {
                Effect::Athletic => Effect::Laxative,
                Effect::Calming => Effect::Glowing,
                Effect::Energizing => Effect::Cyclopean,
                Effect::Focused => Effect::Disorienting,
                Effect::Jennerising => Effect::Paranoia,
                Effect::SeizureInducing => Effect::Focused,
                Effect::Shrinking => Effect::Electrifying,
                Effect::Slippery => Effect::Toxic,
                Effect::Sneaky => Effect::Calming,
                Effect::ThoughtProvoking => Effect::Energizing,
                _ => e,
            },
            Ingredient::Chili => match e {
                Effect::AntiGravity => Effect::TropicThunder,
                Effect::Athletic => Effect::Euphoric,
                Effect::Laxative => Effect::LongFaced,
                Effect::Munchies => Effect::Toxic,
                Effect::Shrinking => Effect::Refreshing,
                Effect::Sneaky => Effect::BrightEyed,
                _ => e,
            },
            Ingredient::Battery => match e {
                Effect::Cyclopean => Effect::Glowing,
                Effect::Electrifying => Effect::Euphoric,
                Effect::Euphoric => Effect::Zombifying,
                Effect::Laxative => Effect::CalorieDense,
                Effect::Munchies => Effect::TropicThunder,
                Effect::Shrinking => Effect::Munchies,
                _ => e,
            },
            Ingredient::Iodine => match e {
                Effect::Calming => Effect::Balding,
                Effect::CalorieDense => Effect::Gingeritis,
                Effect::Euphoric => Effect::SeizureInducing,
                Effect::Foggy => Effect::Paranoia,
                Effect::Refreshing => Effect::ThoughtProvoking,
                Effect::Toxic => Effect::Sneaky,
                _ => e,
            },
            Ingredient::Addy => match e {
                Effect::Explosive => Effect::Euphoric,
                Effect::Foggy => Effect::Energizing,
                Effect::Glowing => Effect::Refreshing,
                Effect::LongFaced => Effect::Electrifying,
                Effect::Sedating => Effect::Gingeritis,
                _ => e,
            },
            Ingredient::HorseSemen => match e {
                Effect::AntiGravity => Effect::Calming,
                Effect::Gingeritis => Effect::Refreshing,
                Effect::SeizureInducing => Effect::Energizing,
                Effect::ThoughtProvoking => Effect::Electrifying,
                _ => e,
            },
        }
    }

    /// The effect this ingredient unconditionally adds.
    fn signature_effect(&self) -> (r: Effect)
        ensures
            r == signature_spec(*self),
    {
        match self {
            Ingredient::Cuke => Effect::Energizing,
            Ingredient::Banana => Effect::Gingeritis,
            Ingredient::Paracetamol => Effect::Sneaky,
            Ingredient::Donut => Effect::CalorieDense,
            Ingredient::Viagra => Effect::TropicThunder,
            Ingredient::MouthWash => Effect::Balding,
            Ingredient::FluMedicine => Effect::Sedating,
            Ingredient::Gasoline => Effect::Toxic,
            Ingredient::EnergyDrink => Effect::Athletic,
            Ingredient::MotorOil => Effect::Slippery,
            Ingredient::MegaBean => Effect::Foggy,
            Ingredient::Chili => Effect::Spicy,
            Ingredient::Battery => Effect::BrightEyed,
            Ingredient::Iodine => Effect::Jennerising,
            Ingredient::Addy => Effect::ThoughtProvoking,
            Ingredient::HorseSemen => Effect::LongFaced,
        }
    }

    /// Mix this ingredient into a mix state: every effect is passed through
    /// the transformation rule in order, inserted if absent, and the
    /// signature effect is appended if absent.
    pub fn apply(&self, effects: &EffectList) -> (r: EffectList)
        ensures
            r@ == apply_spec(*self, effects@),
            r.wf(),
    {
        let mut result = EffectList::new();
        let mut idx: usize = 0;
        while idx < effects.len()
            invariant
                0 <= idx <= effects@.len(),
                result.wf(),
                result@ == apply_pass(*self, effects@.subrange(0, idx as int)),
            decreases effects@.len() - idx,
        {
            let e = effects.get(idx);
            result.insert_if_absent(self.rule(e));
            proof {
                let pre = effects@.subrange(0, idx as int);
                let post = effects@.subrange(0, idx as int + 1);
                assert(post.drop_last() =~= pre);
                assert(post.last() == effects@[idx as int]);
            }
            idx += 1;
        }
        proof {
            assert(effects@.subrange(0, effects@.len() as int) =~= effects@);
        }
        result.insert_if_absent(self.signature_effect());
        result
    }

    /// The whole catalogue as a vector, in its fixed order.
    pub fn all() -> (r: Vec<Ingredient>)
        ensures
            r@ == all_ingredients_seq(),
    {
        let mut v: Vec<Ingredient> = Vec::new();
        v.push(Ingredient::Cuke);
        v.push(Ingredient::Banana);
        v.push(Ingredient::Paracetamol);
        v.push(Ingredient::Donut);
        v.push(Ingredient::Viagra);
        v.push(Ingredient::MouthWash);
        v.push(Ingredient::FluMedicine);
        v.push(Ingredient::Gasoline);
        v.push(Ingredient::EnergyDrink);
        v.push(Ingredient::MotorOil);
        v.push(Ingredient::MegaBean);
        v.push(Ingredient::Chili);
        v.push(Ingredient::Battery);
        v.push(Ingredient::Iodine);
        v.push(Ingredient::Addy);
        v.push(Ingredient::HorseSemen);
        proof {
            assert(v@ =~= all_ingredients_seq());
        }
        v
    }
}

/// Display name of one ingredient.
pub open spec fn name_spec(i: Ingredient) -> Seq<char> {
    match i {
        Ingredient::Cuke => "Cuke"@,
        Ingredient::Banana => "Banana"@,
        Ingredient::Paracetamol => "Paracetamol"@,
        Ingredient::Donut => "Donut"@,
        Ingredient::Viagra => "Viagra"@,
        Ingredient::MouthWash => "Mouth Wash"@,
        Ingredient::FluMedicine => "Flu Medicine"@,
        Ingredient::Gasoline => "Gasoline"@,
        Ingredient::EnergyDrink => "Energy Drink"@,
        Ingredient::MotorOil => "Motor Oil"@,
        Ingredient::MegaBean => "Mega Bean"@,
        Ingredient::Chili => "Chili"@,
        Ingredient::Battery => "Battery"@,
        Ingredient::Iodine => "Iodine"@,
        Ingredient::Addy => "Addy"@,
        Ingredient::HorseSemen => "Horse Semen"@,
    }
}

/// Display emoji of one ingredient.
pub open spec fn emoji_spec(i: Ingredient) -> Seq<char> {
    match i {
        Ingredient::Cuke => "🥤"@,
        Ingredient::Banana => "🍌"@,
        Ingredient::Paracetamol => "⚪"@,
        Ingredient::Donut => "🍩"@,
        Ingredient::Viagra => "🔵"@,
        Ingredient::MouthWash => "💧"@,
        Ingredient::FluMedicine => "🧴"@,
        Ingredient::Gasoline => "⛽"@,
        Ingredient::EnergyDrink => "⚡"@,
        Ingredient::MotorOil => "🛢️"@,
        Ingredient::MegaBean => "🫘"@,
        Ingredient::Chili => "🌶️"@,
        Ingredient::Battery => "🔋"@,
        Ingredient::Iodine => "🧪"@,
        Ingredient::Addy => "💊"@,
        Ingredient::HorseSemen => "🐎"@,
    }
}

/// Two-letter abbreviation of one ingredient.
pub open spec fn abbreviation_spec(i: Ingredient) -> Seq<char> {
    match i {
        Ingredient::Cuke => "Cu"@,
        Ingredient::Banana => "Ba"@,
        Ingredient::Paracetamol => "Pa"@,
        Ingredient::Donut => "Dn"@,
        Ingredient::Viagra => "Vi"@,
        Ingredient::MouthWash => "MW"@,
        Ingredient::FluMedicine => "FM"@,
        Ingredient::Gasoline => "Ga"@,
        Ingredient::EnergyDrink => "ED"@,
        Ingredient::MotorOil => "MO"@,
        Ingredient::MegaBean => "MB"@,
        Ingredient::Chili => "Ch"@,
        Ingredient::Battery => "Bt"@,
        Ingredient::Iodine => "Io"@,
        Ingredient::Addy => "Ad"@,
        Ingredient::HorseSemen => "HS"@,
    }
}

/// An insertion through the growth rule never creates a duplicate.
pub proof fn lemma_insert_preserves_no_dup(s: Seq<Effect>, e: Effect)
    requires
        s.no_duplicates(),
    ensures
        insert_if_absent_spec(s, e).no_duplicates(),
{
    if !s.contains(e) {
        assert forall|j: int, k: int|
            0 <= j < k < s.push(e).len() implies s.push(e)[j] != s.push(e)[k] by {
            if k < s.len() {
            } else {
                assert(s.push(e)[k] == e);
                assert(s.push(e)[j] == s[j]);
            }
        }
    }
}

/// One rule pass yields a duplicate-free collection, whatever it read.
pub proof fn lemma_apply_pass_no_dup(i: Ingredient, s: Seq<Effect>)
    ensures
        apply_pass(i, s).no_duplicates(),
    decreases s.len(),
{
    if s.len() == 0 {
    } else {
        lemma_apply_pass_no_dup(i, s.drop_last());
        lemma_insert_preserves_no_dup(apply_pass(i, s.drop_last()), rule_spec(i, s.last()));
    }
}

/// Mixing an ingredient never yields duplicate effects, whatever collection
/// it was given.
pub proof fn lemma_apply_no_duplicates(i: Ingredient, s: Seq<Effect>)
    ensures
        apply_spec(i, s).no_duplicates(),
{
    lemma_apply_pass_no_dup(i, s);
    lemma_insert_preserves_no_dup(apply_pass(i, s), signature_spec(i));
}

/// Mixing is deterministic: equal ingredient and equal collection always
/// yield the same collection, value and order alike.
pub proof fn lemma_apply_deterministic(i1: Ingredient, i2: Ingredient, s1: Seq<Effect>, s2: Seq<Effect>)
    requires
        i1 == i2,
        s1 == s2,
    ensures
        apply_spec(i1, s1) == apply_spec(i2, s2),
{
}

} // verus!
