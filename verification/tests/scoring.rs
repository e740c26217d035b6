use find_mix::calc_addictiveness;
use find_mix::calc_cost;
use find_mix::calc_profit;
use find_mix::calc_sell_price;
use find_mix::effects::Effect;
use find_mix::effects::EffectList;
use find_mix::ingredients::Ingredient;

fn list_of(effects: Vec<Effect>) -> EffectList {
    let mut l = EffectList::new();
    for e in effects {
        l.insert_if_absent(e);
    }
    l
}

#[test]
fn test_calc_sell_price() {
    let all_effects = list_of(Effect::all());
    let result = calc_sell_price(35, &all_effects);
    // 35 dollars times (1 + 9.10), in cents: 353.50 dollars.
    assert_eq!(result, 35350);
}

#[test]
fn test_calc_cost_positive() {
    let all_ingredient: Vec<Ingredient> = Ingredient::all();
    let result = calc_cost(&all_ingredient);
    // 88 dollars, in cents.
    assert_eq!(result, 88 * 100);
}

#[test]
fn test_calc_cost_negative() {
    let result = calc_cost(&vec![]);
    assert_eq!(result, 0);
}

#[test]
fn test_calc_profit_zero() {
    let result = calc_profit(50, 50);
    assert_eq!(result, 0);
}

#[test]
fn test_calc_profit_positive() {
    let result = calc_profit(50, 10);
    assert_eq!(result, 40);
}

#[test]
fn test_calc_profit_negative() {
    let result = calc_profit(50, 60);
    assert_eq!(result, -10);
}

#[test]
fn test_calc_addictiveness() {
    let effects = list_of(vec![Effect::Sedating]);
    let result = calc_addictiveness(1, &effects);
    // Sedating contributes nothing; one mixing step adds the flat 0.05.
    assert_eq!(result, 50);
}

#[test]
fn addictiveness_without_steps_has_no_bonus() {
    let effects = list_of(vec![Effect::Sedating]);
    assert_eq!(calc_addictiveness(0, &effects), 0);
    let effects2 = list_of(vec![Effect::BrightEyed]);
    assert_eq!(calc_addictiveness(0, &effects2), 200);
}

#[test]
fn addictiveness_with_steps_always_has_bonus() {
    let effects = list_of(vec![Effect::BrightEyed]);
    assert_eq!(calc_addictiveness(1, &effects), 250);
    assert_eq!(calc_addictiveness(7, &effects), 250);
}

#[test]
fn addictiveness_clamps_at_one() {
    // TropicThunder and Spicy alone sum to 1.468.
    let effects = list_of(vec![Effect::TropicThunder, Effect::Spicy]);
    assert_eq!(calc_addictiveness(0, &effects), 1000);
    assert_eq!(calc_addictiveness(3, &effects), 1000);
}

#[test]
fn effect_catalogue_is_complete() {
    let all = Effect::all();
    assert_eq!(all.len(), 34);
    let ings = Ingredient::all();
    assert_eq!(ings.len(), 16);
}

#[test]
fn sell_price_of_empty_mix_is_base() {
    let effects = EffectList::new();
    assert_eq!(calc_sell_price(35, &effects), 3500);
    assert_eq!(calc_sell_price(150, &effects), 15000);
}
