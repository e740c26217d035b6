use find_mix::calc_cost;
use find_mix::calc_profit;
use find_mix::calc_sell_price;
use find_mix::effects::Effect;
use find_mix::effects::EffectList;
use find_mix::ingredients::Ingredient;
use find_mix::product::Product;
use find_mix::try_all_combinations_not_threaded;
use find_mix::try_all_combinations_threaded;
use find_mix::ingredients::VecExtensions;
use find_mix::SearchError;

fn list_of(effects: Vec<Effect>) -> EffectList {
    let mut l = EffectList::new();
    for e in effects {
        l.insert_if_absent(e);
    }
    l
}

fn effects_as_vec(l: &EffectList) -> Vec<Effect> {
    let mut out = Vec::new();
    let mut i = 0;
    while i < l.len() {
        out.push(l.get(i));
        i += 1;
    }
    out
}

#[test]
fn apply_never_duplicates() {
    // Cuke maps Euphoric to Laxative; Laxative itself is already waiting in
    // the input, so a naive append would duplicate it.
    let input = list_of(vec![Effect::Euphoric, Effect::Laxative]);
    let out = Ingredient::Cuke.apply(&input);
    let v = effects_as_vec(&out);
    assert_eq!(v, vec![Effect::Laxative, Effect::Energizing]);
    for i in 0..v.len() {
        for j in 0..i {
            assert_ne!(v[i], v[j]);
        }
    }
}

#[test]
fn apply_is_deterministic() {
    let input = list_of(vec![Effect::Calming, Effect::Athletic, Effect::Toxic]);
    let once = Ingredient::Gasoline.apply(&input);
    let twice = Ingredient::Gasoline.apply(&input);
    assert!(once.equals(&twice));
    assert_eq!(effects_as_vec(&once), effects_as_vec(&twice));
}

#[test]
fn apply_replaces_and_appends_signature() {
    // Banana: Calming -> Sneaky, signature Gingeritis.
    let input = list_of(vec![Effect::Calming]);
    let out = Ingredient::Banana.apply(&input);
    assert_eq!(effects_as_vec(&out), vec![Effect::Sneaky, Effect::Gingeritis]);
}

#[test]
fn depth_zero_scores_the_seed_alone() {
    let product = Product::OgKush;
    let r = try_all_combinations_not_threaded(
        product.value(),
        0,
        product.effect(),
        Ingredient::all(),
        false,
    )
    .unwrap();
    assert_eq!(r.ingredients.len(), 0);
    assert_eq!(r.cost, 0);
    assert_eq!(effects_as_vec(&r.effects), vec![Effect::Calming]);
    // Calming multiplies by 0.10: 35 * 1.10 = 38.50 dollars, minus nothing.
    assert_eq!(r.profit, 3850);
    assert_eq!(r.profit, calc_profit(calc_sell_price(35, &r.effects), r.cost));
}

#[test]
fn result_scores_its_own_choices() {
    let product = Product::GreenCrack;
    let r = try_all_combinations_not_threaded(
        product.value(),
        2,
        product.effect(),
        Ingredient::all(),
        false,
    )
    .unwrap();
    assert_eq!(r.ingredients.len(), 2);
    assert_eq!(r.cost, calc_cost(&r.ingredients));
    let sell = calc_sell_price(product.value(), &r.effects);
    assert_eq!(r.profit, calc_profit(sell, r.cost));
}

#[test]
fn sequential_and_parallel_agree() {
    let product = Product::OgKush;
    let seq = try_all_combinations_not_threaded(
        product.value(),
        3,
        product.effect(),
        Ingredient::all(),
        false,
    )
    .unwrap();
    let par = try_all_combinations_threaded(
        product.value(),
        3,
        product.effect(),
        Ingredient::all(),
        false,
    )
    .unwrap();
    assert_eq!(seq.profit, par.profit);
    assert_eq!(seq.cost, par.cost);
    assert_eq!(seq.ingredients, par.ingredients);
    assert!(seq.effects.equals(&par.effects));
}

#[test]
fn sequential_and_parallel_agree_with_pruning() {
    let product = Product::Meth;
    let seq = try_all_combinations_not_threaded(
        product.value(),
        3,
        product.effect(),
        Ingredient::all(),
        true,
    )
    .unwrap();
    let par = try_all_combinations_threaded(
        product.value(),
        3,
        product.effect(),
        Ingredient::all(),
        true,
    )
    .unwrap();
    assert_eq!(seq.profit, par.profit);
    assert_eq!(seq.cost, par.cost);
    assert_eq!(seq.ingredients, par.ingredients);
    assert!(seq.effects.equals(&par.effects));
}

#[test]
fn single_ingredient_universe_mixes_it_repeatedly() {
    let product = Product::OgKush;
    let depth = 3;
    let r = try_all_combinations_not_threaded(
        product.value(),
        depth,
        product.effect(),
        vec![Ingredient::Cuke],
        false,
    )
    .unwrap();
    assert_eq!(r.ingredients, vec![Ingredient::Cuke; 3]);
    let mut manual = list_of(vec![Effect::Calming]);
    for _ in 0..depth {
        manual = Ingredient::Cuke.apply(&manual);
    }
    assert!(r.effects.equals(&manual));
    assert_eq!(r.cost, calc_cost(&r.ingredients));
    assert_eq!(
        r.profit,
        calc_profit(calc_sell_price(product.value(), &manual), r.cost)
    );
}

#[test]
fn empty_universe_with_depth_is_rejected() {
    let r = try_all_combinations_not_threaded(35, 1, Some(Effect::Calming), vec![], false);
    assert!(matches!(r, Err(SearchError::InvalidRequest)));
    let r2 = try_all_combinations_threaded(35, 4, None, vec![], true);
    assert!(matches!(r2, Err(SearchError::InvalidRequest)));
}

#[test]
fn empty_universe_without_depth_is_served() {
    let r = try_all_combinations_not_threaded(35, 0, Some(Effect::Calming), vec![], false);
    assert!(r.is_ok());
    assert_eq!(r.unwrap().profit, 3850);
}

#[test]
fn pruning_stops_at_a_fixed_point() {
    // Green Crack seeds Energizing; Cuke leaves an Energizing-only mix
    // unchanged, so with pruning the branch is scored after one step.
    let product = Product::GreenCrack;
    let pruned = try_all_combinations_not_threaded(
        product.value(),
        2,
        product.effect(),
        vec![Ingredient::Cuke],
        true,
    )
    .unwrap();
    assert_eq!(pruned.ingredients.len(), 1);
    let full = try_all_combinations_not_threaded(
        product.value(),
        2,
        product.effect(),
        vec![Ingredient::Cuke],
        false,
    )
    .unwrap();
    assert_eq!(full.ingredients.len(), 2);
}

#[test]
fn catalogue_lookups() {
    assert_eq!(Ingredient::from_u8(0), Some(Ingredient::Cuke));
    assert_eq!(Ingredient::from_u8(15), Some(Ingredient::HorseSemen));
    assert_eq!(Ingredient::from_u8(16), None);
    assert_eq!(Product::from_u8(4), Some(Product::Meth));
    assert_eq!(Product::from_u8(6), None);
    assert_eq!(Ingredient::MegaBean.price(), 7);
    assert_eq!(Ingredient::MegaBean.name(), "Mega Bean");
    assert_eq!(Ingredient::MegaBean.abbreviation(), "MB");
    assert_eq!(Ingredient::Banana.emoji(), "\u{1f34c}");
    assert_eq!(Product::Coke.value(), 150);
    assert_eq!(Product::Coke.effect(), None);
    assert_eq!(Product::GrandaddyPurple.effect(), Some(Effect::Sedating));
    assert_eq!(Product::GrandaddyPurple.name(), "Grandaddy Purple");
}

#[test]
fn push_if_not_exists_skips_duplicates() {
    let mut v: Vec<Effect> = Vec::new();
    v.push_if_not_exists(Effect::Calming);
    v.push_if_not_exists(Effect::Sneaky);
    v.push_if_not_exists(Effect::Calming);
    assert_eq!(v, vec![Effect::Calming, Effect::Sneaky]);
}
