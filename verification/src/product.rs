//! The product catalogue: every base product with its base sell price and its
//! optional seed effect, the effect the mix starts from.

use crate::effects::Effect;
use vstd::prelude::*;

verus! {

/// One of the base products a mix starts from.
#[derive(Clone, Copy, Debug, PartialEq, Eq, Structural)]
pub enum Product {
    OgKush,
    SourDiesel,
    GreenCrack,
    GrandaddyPurple,
    Meth,
    Coke,
}

/// Base sell price of one product, in whole dollars.
pub open spec fn value_spec(p: Product) -> int {
    match p {
        Product::Meth => 70,
        Product::Coke => 150,
        _ => 35,
    }
}

/// Seed effect of one product: the effect its mix state starts with.
pub open spec fn effect_spec(p: Product) -> Option<Effect> {
    match p {
        Product::OgKush => Some(Effect::Calming),
        Product::SourDiesel => Some(Effect::Refreshing),
        Product::GreenCrack => Some(Effect::Energizing),
        Product::GrandaddyPurple => Some(Effect::Sedating),
        _ => None,
    }
}

/// Which product each identifier denotes.
pub open spec fn product_from_u8_spec(id: u8) -> Option<Product> {
    match id {
        0u8 => Some(Product::OgKush),
        1u8 => Some(Product::SourDiesel),
        2u8 => Some(Product::GreenCrack),
        3u8 => Some(Product::GrandaddyPurple),
        4u8 => Some(Product::Meth),
        5u8 => Some(Product::Coke),
        _ => None,
    }
}

/// Display name of one product.
pub open spec fn product_name_spec(p: Product) -> Seq<char> {
    match p {
        Product::OgKush => "OG Kush"@,
        Product::SourDiesel => "Sour Diesel"@,
        Product::GreenCrack => "Green Crack"@,
        Product::GrandaddyPurple => "Grandaddy Purple"@,
        Product::Meth => "Meth"@,
        Product::Coke => "Coke"@,
    }
}

impl Product {
    /// Base sell price of this product, in whole dollars.
    pub fn value(&self) -> (r: u32)
        ensures
            r == value_spec(*self),
    {
        match self {
            Product::Meth => 70,
            Product::Coke => 150,
            _ => 35,
        }
    }

    /// Seed effect of this product, if it has one.
    pub fn effect(&self) -> (r: Option<Effect>)
        ensures
            r == effect_spec(*self),
    {
        match self {
            Product::OgKush => Some(Effect::Calming),
            Product::SourDiesel => Some(Effect::Refreshing),
            Product::GreenCrack => Some(Effect::Energizing),
            Product::GrandaddyPurple => Some(Effect::Sedating),
            _ => None,
        }
    }

    /// Display name of this product.
    pub fn name(&self) -> (r: &'static str)
        ensures
            r@ == product_name_spec(*self),
    {
        match self {
            Product::OgKush => "OG Kush",
            Product::SourDiesel => "Sour Diesel",
            Product::GreenCrack => "Green Crack",
            Product::GrandaddyPurple => "Grandaddy Purple",
            Product::Meth => "Meth",
            Product::Coke => "Coke",
        }
    }

    /// The product with one numeric identifier, if any.
    pub fn from_u8(id: u8) -> (r: Option<Product>)
        ensures
            r == product_from_u8_spec(id),
    {
        match id {
            0u8 => Some(Product::OgKush),
            1u8 => Some(Product::SourDiesel),
            2u8 => Some(Product::GreenCrack),
            3u8 => Some(Product::GrandaddyPurple),
            4u8 => Some(Product::Meth),
            5u8 => Some(Product::Coke),
            _ => None,
        }
    }
}

} // verus!
