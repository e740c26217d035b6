//! Recipe optimizer for a mixing game: ingredients transform a product's
//! active effects, and a depth-bounded search finds the ingredient sequence
//! with the highest profit.
//!
//! All money is held in integer units: base prices in whole dollars, sell
//! prices, costs and profits in cents, effect price multipliers in hundredths,
//! addictiveness in thousandths. This keeps every score exact.

pub mod effects;
pub mod ingredients;
pub mod product;

use vstd::prelude::*;

verus! {

use crate::effects::lemma_distinct_effects_len;
use crate::effects::multiplier_spec;
use crate::effects::addictiveness_spec;
use crate::effects::Effect;
use crate::effects::EffectList;
use crate::ingredients::apply_spec;
use crate::ingredients::lemma_apply_no_duplicates;
use crate::ingredients::price_spec;
use crate::ingredients::Ingredient;

/// Sum of the sell-price multipliers of a collection, in hundredths.
pub open spec fn sum_mult(s: Seq<Effect>) -> int
    decreases s.len(),
{
    if s.len() == 0 {
        0
    } else {
        sum_mult(s.drop_last()) + multiplier_spec(s.last())
    }
}

/// Sell price of a product with the given effects: the base price (whole
/// dollars) scaled by one plus the summed multipliers. The result is in
/// cents, and exact.
pub open spec fn sell_price_spec(base_price: int, effects: Seq<Effect>) -> int {
    base_price * (100 + sum_mult(effects))
}

/// Total price of a sequence of ingredients, in cents.
pub open spec fn cost_spec(s: Seq<Ingredient>) -> int
    decreases s.len(),
{
    if s.len() == 0 {
        0
    } else {
        cost_spec(s.drop_last()) + 100 * price_spec(s.last())
    }
}

/// Sum of the addictiveness contributions of a collection, in thousandths.
pub open spec fn sum_addict(s: Seq<Effect>) -> int
    decreases s.len(),
{
    if s.len() == 0 {
        0
    } else {
        sum_addict(s.drop_last()) + addictiveness_spec(s.last())
    }
}

/// Addictiveness of a finished mix, in thousandths: the summed contributions,
/// plus a flat bonus of five hundredths once any ingredient was mixed in,
/// clamped into the unit interval.
pub open spec fn addictiveness_total_spec(depth: int, effects: Seq<Effect>) -> int {
    let raw = sum_addict(effects) + if depth > 0 {
        50int
    } else {
        0int
    };
    if raw > 1000 {
        1000
    } else if raw < 0 {
        0
    } else {
        raw
    }
}

/// The multiplier sum is non-negative and grows by at most sixty hundredths
/// per effect.
pub proof fn lemma_sum_mult_bounds(s: Seq<Effect>)
    ensures
        0 <= sum_mult(s) <= 60 * s.len(),
    decreases s.len(),
{
    if s.len() > 0 {
        lemma_sum_mult_bounds(s.drop_last());
    }
}

/// The addictiveness sum is non-negative and grows by at most one unit per
/// effect.
pub proof fn lemma_sum_addict_bounds(s: Seq<Effect>)
    ensures
        0 <= sum_addict(s) <= 1000 * s.len(),
    decreases s.len(),
{
    if s.len() > 0 {
        lemma_sum_addict_bounds(s.drop_last());
    }
}

/// Sell price of the product with the given active effects, in cents:
/// `base_price * (1 + sum of multipliers)`, computed exactly.
pub fn calc_sell_price(base_price: u32, effects: &EffectList) -> (r: u64)
    requires
        effects.wf(),
    ensures
        r == sell_price_spec(base_price as int, effects@),
{
    proof {
        lemma_distinct_effects_len(effects@);
    }
    let ghost whole = effects@;
    let mut sum: u32 = 0;
    let mut i: usize = 0;
    while i < effects.len()
        invariant
            0 <= i <= whole.len(),
            whole.len() <= 34,
            effects@ == whole,
            effects.wf(),
            sum == sum_mult(whole.subrange(0, i as int)),
            sum <= 60 * i,
        decreases whole.len() - i,
    {
        let e = effects.get(i);
        sum = sum + e.multiplier();
        proof {
            let pre = whole.subrange(0, i as int);
            let post = whole.subrange(0, i as int + 1);
            assert(post.drop_last() =~= pre);
            assert(post.last() == whole[i as int]);
        }
        i += 1;
    }
    proof {
        assert(whole.subrange(0, whole.len() as int) =~= whole);
        assert((base_price as int) * (100 + sum as int) <= 0xffff_ffffint * 2140) by (nonlinear_arith)
            requires
                base_price <= 0xffff_ffffu32,
                sum <= 2040,
        ;
        assert((base_price as int) * (100 + sum as int) >= 0) by (nonlinear_arith)
            requires
                sum >= 0,
        ;
    }
    (base_price as u64) * (100 + sum as u64)
}

/// Total price of the chosen ingredients, in cents.
pub fn calc_cost(ingredients: &Vec<Ingredient>) -> (r: u64)
    requires
        ingredients@.len() <= 0xffff_ffff,
    ensures
        r == cost_spec(ingredients@),
        r <= 900 * ingredients@.len(),
{
    let mut sum: u64 = 0;
    let mut i: usize = 0;
    while i < ingredients.len()
        invariant
            0 <= i <= ingredients@.len(),
            ingredients@.len() <= 0xffff_ffff,
            sum == cost_spec(ingredients@.subrange(0, i as int)),
            sum <= 900 * i,
        decreases ingredients@.len() - i,
    {
        let p = ingredients[i].price();
        sum = sum + 100 * (p as u64);
        proof {
            let pre = ingredients@.subrange(0, i as int);
            let post = ingredients@.subrange(0, i as int + 1);
            assert(post.drop_last() =~= pre);
            assert(post.last() == ingredients@[i as int]);
        }
        i += 1;
    }
    proof {
        assert(ingredients@.subrange(0, ingredients@.len() as int) =~= ingredients@);
    }
    sum
}

/// Profit of a finished mix: sell price minus cost, both in cents.
pub fn calc_profit(sell_price: u64, cost: u64) -> (r: i64)
    requires
        sell_price <= i64::MAX,
        cost <= i64::MAX,
    ensures
        r == sell_price - cost,
{
    (sell_price as i64) - (cost as i64)
}

/// Addictiveness of a finished mix, in thousandths of the unit interval.
/// The flat bonus applies exactly when at least one ingredient was mixed in,
/// and the result is clamped into `[0, 1000]`.
pub fn calc_addictiveness(depth: u32, effects: &EffectList) -> (r: u32)
    requires
        effects.wf(),
    ensures
        r == addictiveness_total_spec(depth as int, effects@),
        r <= 1000,
        depth == 0 && sum_addict(effects@) <= 1000 ==> r == sum_addict(effects@),
        depth > 0 && sum_addict(effects@) + 50 <= 1000 ==> r == sum_addict(effects@) + 50,
{
    proof {
        lemma_distinct_effects_len(effects@);
        lemma_sum_addict_bounds(effects@);
    }
    let ghost whole = effects@;
    let mut sum: u32 = 0;
    let mut i: usize = 0;
    while i < effects.len()
        invariant
            0 <= i <= whole.len(),
            whole.len() <= 34,
            effects@ == whole,
            effects.wf(),
            sum == sum_addict(whole.subrange(0, i as int)),
            sum <= 1000 * i,
        decreases whole.len() - i,
    {
        let e = effects.get(i);
        sum = sum + e.addictiveness();
        proof {
            let pre = whole.subrange(0, i as int);
            let post = whole.subrange(0, i as int + 1);
            assert(post.drop_last() =~= pre);
            assert(post.last() == whole[i as int]);
        }
        i += 1;
    }
    proof {
        assert(whole.subrange(0, whole.len() as int) =~= whole);
    }
    if depth > 0 {
        sum = sum + 50;
    }
    if sum > 1000 {
        1000
    } else {
        sum
    }
}

/// The mathematical content of one search outcome.
pub ghost struct ResultView {
    pub profit: int,
    pub cost: int,
    pub ingredients: Seq<Ingredient>,
    pub effects: Seq<Effect>,
}

/// One search outcome: the profit and cost in cents, the chosen ingredient
/// sequence, and the resulting effect collection.
pub struct CombinationResult {
    pub profit: i64,
    pub cost: u64,
    pub ingredients: Vec<Ingredient>,
    pub effects: EffectList,
}

impl View for CombinationResult {
    type V = ResultView;

    open spec fn view(&self) -> ResultView {
        ResultView {
            profit: self.profit as int,
            cost: self.cost as int,
            ingredients: self.ingredients@,
            effects: self.effects@,
        }
    }
}

/// Why a search request was rejected.
#[derive(Clone, Copy, Debug, PartialEq, Eq, Structural)]
pub enum SearchError {
    /// The ingredient universe is empty although at least one mixing step was
    /// requested, so no leaf exists.
    InvalidRequest,
}

/// The mix state a search starts from: the product's seed effect if it has
/// one, else nothing.
pub open spec fn init_effects_spec(seed: Option<Effect>) -> Seq<Effect> {
    match seed {
        Some(e) => seq![e],
        None => Seq::empty(),
    }
}

/// The outcome scored at one leaf of the search tree.
pub open spec fn leaf_spec(base_price: int, ings: Seq<Ingredient>, effs: Seq<Effect>) -> ResultView {
    ResultView {
        profit: sell_price_spec(base_price, effs) - cost_spec(ings),
        cost: cost_spec(ings),
        ingredients: ings,
        effects: effs,
    }
}

/// The reduction order: a candidate beats the incumbent only with strictly
/// greater profit, or equal profit at strictly lower cost.
pub open spec fn better(cand: ResultView, incumbent: ResultView) -> bool {
    cand.profit > incumbent.profit || (cand.profit == incumbent.profit && cand.cost
        < incumbent.cost)
}

/// Reduce two sibling outcomes to one; on a full tie the incumbent (the one
/// encountered first) is kept.
pub open spec fn pick(incumbent: ResultView, cand: ResultView) -> ResultView {
    if better(cand, incumbent) {
        cand
    } else {
        incumbent
    }
}

/// The one best outcome of the whole subtree under a node with `remaining`
/// mixing steps left: at a leaf the node's own score, otherwise the reduction
/// over all children, in universe order.
pub open spec fn search_spec(
    universe: Seq<Ingredient>,
    base_price: int,
    remaining: nat,
    ings: Seq<Ingredient>,
    effs: Seq<Effect>,
    pruning: bool,
) -> ResultView
    decreases remaining, universe.len() as int + 2, 0int,
{
    if remaining == 0 {
        leaf_spec(base_price, ings, effs)
    } else {
        best_range_spec(universe, base_price, remaining, ings, effs, pruning, 0, universe.len() as int)
    }
}

/// Termination measure of a child range; positive even for a degenerate
/// range, so the recursion is well-founded for every input.
pub open spec fn range_measure(lo: int, hi: int) -> int {
    if hi - lo < 0 {
        1
    } else {
        hi - lo + 1
    }
}

/// The reduction of the children with indices `lo..hi`, folded from the left
/// so that on full ties the earliest child wins.
pub open spec fn best_range_spec(
    universe: Seq<Ingredient>,
    base_price: int,
    remaining: nat,
    ings: Seq<Ingredient>,
    effs: Seq<Effect>,
    pruning: bool,
    lo: int,
    hi: int,
) -> ResultView
    decreases remaining, range_measure(lo, hi), 1int,
{
    if hi <= lo + 1 {
        child_spec(universe, base_price, remaining, ings, effs, pruning, lo)
    } else {
        pick(
            best_range_spec(universe, base_price, remaining, ings, effs, pruning, lo, hi - 1),
            child_spec(universe, base_price, remaining, ings, effs, pruning, hi - 1),
        )
    }
}

/// The best outcome reachable by choosing the `k`-th universe ingredient
/// next. With pruning enabled, a child whose transformation left the effect
/// collection unchanged is scored as a leaf at once instead of being explored
/// deeper.
pub open spec fn child_spec(
    universe: Seq<Ingredient>,
    base_price: int,
    remaining: nat,
    ings: Seq<Ingredient>,
    effs: Seq<Effect>,
    pruning: bool,
    k: int,
) -> ResultView
    decreases remaining, 0int, 0int,
{
    let ing = universe[k];
    let ne = apply_spec(ing, effs);
    let ni = ings.push(ing);
    if remaining <= 1 || (pruning && ne == effs) {
        leaf_spec(base_price, ni, ne)
    } else {
        search_spec(universe, base_price, (remaining - 1) as nat, ni, ne, pruning)
    }
}

/// Every search outcome scores its own ingredients and effects: its cost is
/// the summed price of its chosen ingredients, its profit is the sell price
/// of its effects minus that cost, its effect collection is duplicate-free,
/// and without pruning the chosen sequence is exactly as long as the
/// requested depth.
pub proof fn lemma_search_invariants(
    universe: Seq<Ingredient>,
    base_price: int,
    remaining: nat,
    ings: Seq<Ingredient>,
    effs: Seq<Effect>,
    pruning: bool,
)
    requires
        effs.no_duplicates(),
    ensures
        ({
            let r = search_spec(universe, base_price, remaining, ings, effs, pruning);
            &&& r.cost == cost_spec(r.ingredients)
            &&& r.profit == sell_price_spec(base_price, r.effects) - r.cost
            &&& r.effects.no_duplicates()
            &&& !pruning ==> r.ingredients.len() == ings.len() + remaining
            &&& r.ingredients.len() <= ings.len() + remaining
        }),
    decreases remaining, universe.len() as int + 2, 0int,
{
    if remaining == 0 {
    } else {
        lemma_best_range_invariants(
            universe,
            base_price,
            remaining,
            ings,
            effs,
            pruning,
            0,
            universe.len() as int,
        );
    }
}

proof fn lemma_best_range_invariants(
    universe: Seq<Ingredient>,
    base_price: int,
    remaining: nat,
    ings: Seq<Ingredient>,
    effs: Seq<Effect>,
    pruning: bool,
    lo: int,
    hi: int,
)
    requires
        effs.no_duplicates(),
    ensures
        ({
            let r = best_range_spec(universe, base_price, remaining, ings, effs, pruning, lo, hi);
            &&& r.cost == cost_spec(r.ingredients)
            &&& r.profit == sell_price_spec(base_price, r.effects) - r.cost
            &&& r.effects.no_duplicates()
            &&& (!pruning && remaining > 0) ==> r.ingredients.len() == ings.len() + remaining
            &&& remaining > 0 ==> r.ingredients.len() <= ings.len() + remaining
        }),
    decreases remaining, range_measure(lo, hi), 1int,
{
    if hi <= lo + 1 {
        lemma_child_invariants(universe, base_price, remaining, ings, effs, pruning, lo);
    } else {
        lemma_best_range_invariants(universe, base_price, remaining, ings, effs, pruning, lo, hi - 1);
        lemma_child_invariants(universe, base_price, remaining, ings, effs, pruning, hi - 1);
    }
}

proof fn lemma_child_invariants(
    universe: Seq<Ingredient>,
    base_price: int,
    remaining: nat,
    ings: Seq<Ingredient>,
    effs: Seq<Effect>,
    pruning: bool,
    k: int,
)
    requires
        effs.no_duplicates(),
    ensures
        ({
            let r = child_spec(universe, base_price, remaining, ings, effs, pruning, k);
            &&& r.cost == cost_spec(r.ingredients)
            &&& r.profit == sell_price_spec(base_price, r.effects) - r.cost
            &&& r.effects.no_duplicates()
            &&& (!pruning && remaining > 0) ==> r.ingredients.len() == ings.len() + remaining
            &&& remaining > 0 ==> r.ingredients.len() <= ings.len() + remaining
        }),
    decreases remaining, 0int, 0int,
{
    let ing = universe[k];
    let ne = apply_spec(ing, effs);
    let ni = ings.push(ing);
    lemma_apply_no_duplicates(ing, effs);
    if remaining <= 1 || (pruning && ne == effs) {
        assert(ni.drop_last() =~= ings);
    } else {
        lemma_search_invariants(universe, base_price, (remaining - 1) as nat, ni, ne, pruning);
    }
}

/// Copies a vector of ingredients element by element.
fn copy_ingredients(v: &Vec<Ingredient>) -> (r: Vec<Ingredient>)
    ensures
        r@ == v@,
{
    let mut out: Vec<Ingredient> = Vec::new();
    let mut i: usize = 0;
    while i < v.len()
        invariant
            0 <= i <= v@.len(),
            out@ == v@.subrange(0, i as int),
        decreases v@.len() - i,
    {
        out.push(v[i]);
        proof {
            assert(out@ =~= v@.subrange(0, i as int + 1));
        }
        i += 1;
    }
    proof {
        assert(out@ =~= v@);
    }
    out
}

/// Scores one leaf of the search tree.
fn make_leaf(base_price: u32, ings: &Vec<Ingredient>, effs: &EffectList) -> (r: CombinationResult)
    requires
        effs.wf(),
        ings@.len() <= 0xffff_ffff,
    ensures
        r@ == leaf_spec(base_price as int, ings@, effs@),
{
    let sell = calc_sell_price(base_price, effs);
    let cost = calc_cost(ings);
    proof {
        lemma_distinct_effects_len(effs@);
        lemma_sum_mult_bounds(effs@);
        assert((base_price as int) * (100 + sum_mult(effs@)) <= 0xffff_ffffint * 2140)
            by (nonlinear_arith)
            requires
                base_price <= 0xffff_ffffu32,
                0 <= sum_mult(effs@) <= 2040,
        ;
        assert((base_price as int) * (100 + sum_mult(effs@)) >= 0) by (nonlinear_arith)
            requires
                sum_mult(effs@) >= 0,
        ;
    }
    let profit = calc_profit(sell, cost);
    CombinationResult {
        profit,
        cost,
        ingredients: copy_ingredients(ings),
        effects: effs.duplicate(),
    }
}

/// Reduces a candidate outcome into the incumbent under the search's order:
/// strictly greater profit wins, then strictly lower cost; full ties keep the
/// incumbent.
fn pick_result(incumbent: CombinationResult, cand: CombinationResult) -> (r: CombinationResult)
    ensures
        r@ == pick(incumbent@, cand@),
{
    if cand.profit > incumbent.profit || (cand.profit == incumbent.profit && cand.cost
        < incumbent.cost) {
        cand
    } else {
        incumbent
    }
}

/// Explores the child reached by mixing in the `k`-th universe ingredient.
fn eval_child(
    universe: &Vec<Ingredient>,
    base_price: u32,
    remaining: u32,
    cur_ings: &Vec<Ingredient>,
    cur_effs: &EffectList,
    pruning: bool,
    k: usize,
) -> (r: CombinationResult)
    requires
        k < universe@.len(),
        remaining >= 1,
        cur_effs.wf(),
        cur_ings@.len() + remaining <= 0xffff_ffff,
    ensures
        r@ == child_spec(
            universe@,
            base_price as int,
            remaining as nat,
            cur_ings@,
            cur_effs@,
            pruning,
            k as int,
        ),
    decreases remaining, 0int,
{
    let ing = universe[k];
    let mut ni = copy_ingredients(cur_ings);
    ni.push(ing);
    let ne = ing.apply(cur_effs);
    if remaining == 1 {
        make_leaf(base_price, &ni, &ne)
    } else if pruning && ne.equals(cur_effs) {
        make_leaf(base_price, &ni, &ne)
    } else {
        generate_combinations(universe, base_price, remaining - 1, &ni, &ne, pruning)
    }
}

/// The depth-first walk of the search tree: scores the node itself once no
/// steps remain, otherwise reduces all children in universe order.
fn generate_combinations(
    universe: &Vec<Ingredient>,
    base_price: u32,
    remaining: u32,
    cur_ings: &Vec<Ingredient>,
    cur_effs: &EffectList,
    pruning: bool,
) -> (r: CombinationResult)
    requires
        remaining > 0 ==> universe@.len() > 0,
        cur_effs.wf(),
        cur_ings@.len() + remaining <= 0xffff_ffff,
    ensures
        r@ == search_spec(
            universe@,
            base_price as int,
            remaining as nat,
            cur_ings@,
            cur_effs@,
            pruning,
        ),
    decreases remaining, 1int,
{
    if remaining == 0 {
        return make_leaf(base_price, cur_ings, cur_effs);
    }
    let mut best = eval_child(universe, base_price, remaining, cur_ings, cur_effs, pruning, 0);
    let mut k: usize = 1;
    while k < universe.len()
        invariant
            1 <= k <= universe@.len(),
            remaining >= 1,
            cur_effs.wf(),
            cur_ings@.len() + remaining <= 0xffff_ffff,
            best@ == best_range_spec(
                universe@,
                base_price as int,
                remaining as nat,
                cur_ings@,
                cur_effs@,
                pruning,
                0,
                k as int,
            ),
        decreases universe@.len() - k,
    {
        let cand = eval_child(universe, base_price, remaining, cur_ings, cur_effs, pruning, k);
        best = pick_result(best, cand);
        k += 1;
    }
    best
}

/// The reduction is associative: reducing three outcomes pairwise gives the
/// same winner however the pairs are grouped, as long as their order is kept.
/// This is what lets sibling subtrees be reduced independently, in parallel,
/// without changing the result.
pub proof fn lemma_pick_assoc(a: ResultView, b: ResultView, c: ResultView)
    ensures
        pick(pick(a, b), c) == pick(a, pick(b, c)),
{
}

/// Splitting a child range anywhere and reducing the two halves separately
/// yields the same outcome as reducing the whole range in order.
pub proof fn lemma_best_range_split(
    universe: Seq<Ingredient>,
    base_price: int,
    remaining: nat,
    ings: Seq<Ingredient>,
    effs: Seq<Effect>,
    pruning: bool,
    lo: int,
    mid: int,
    hi: int,
)
    requires
        lo < mid < hi,
    ensures
        best_range_spec(universe, base_price, remaining, ings, effs, pruning, lo, hi) == pick(
            best_range_spec(universe, base_price, remaining, ings, effs, pruning, lo, mid),
            best_range_spec(universe, base_price, remaining, ings, effs, pruning, mid, hi),
        ),
    decreases hi - mid,
{
    if hi == mid + 1 {
    } else {
        lemma_best_range_split(universe, base_price, remaining, ings, effs, pruning, lo, mid, hi - 1);
        lemma_pick_assoc(
            best_range_spec(universe, base_price, remaining, ings, effs, pruning, lo, mid),
            best_range_spec(universe, base_price, remaining, ings, effs, pruning, mid, hi - 1),
            child_spec(universe, base_price, remaining, ings, effs, pruning, hi - 1),
        );
    }
}

/// Relies on rayon::join: it calls each closure exactly once, the two calls
/// possibly running on different worker threads, and returns the pair of
/// their results.
pub assume_specification<A, B, RA, RB>[ rayon::join::<A, B, RA, RB> ](
    oper_a: A,
    oper_b: B,
) -> (r: (RA, RB)) where
    A: FnOnce() -> RA + Send,
    B: FnOnce() -> RB + Send,
    RA: Send,
    RB: Send,

    requires
        call_requires(oper_a, ()),
        call_requires(oper_b, ()),
    ensures
        call_ensures(oper_a, (), r.0),
        call_ensures(oper_b, (), r.1),
;

/// Explores the child reached by mixing in the `k`-th universe ingredient,
/// exploring its subtree with the parallel walk.
fn eval_child_par(
    universe: &Vec<Ingredient>,
    base_price: u32,
    remaining: u32,
    cur_ings: &Vec<Ingredient>,
    cur_effs: &EffectList,
    pruning: bool,
    k: usize,
) -> (r: CombinationResult)
    requires
        k < universe@.len(),
        remaining >= 1,
        cur_effs.wf(),
        cur_ings@.len() + remaining <= 0xffff_ffff,
    ensures
        r@ == child_spec(
            universe@,
            base_price as int,
            remaining as nat,
            cur_ings@,
            cur_effs@,
            pruning,
            k as int,
        ),
    decreases remaining, 0int,
{
    let ing = universe[k];
    let mut ni = copy_ingredients(cur_ings);
    ni.push(ing);
    let ne = ing.apply(cur_effs);
    if remaining == 1 {
        make_leaf(base_price, &ni, &ne)
    } else if pruning && ne.equals(cur_effs) {
        make_leaf(base_price, &ni, &ne)
    } else {
        generate_combinations_par(universe, base_price, remaining - 1, &ni, &ne, pruning)
    }
}

/// Reduces the children with indices `lo..hi`, handing the two halves of the
/// range to rayon as independent tasks and reducing their two winners.
fn par_best(
    universe: &Vec<Ingredient>,
    base_price: u32,
    remaining: u32,
    cur_ings: &Vec<Ingredient>,
    cur_effs: &EffectList,
    pruning: bool,
    lo: usize,
    hi: usize,
) -> (r: CombinationResult)
    requires
        lo < hi <= universe@.len(),
        remaining >= 1,
        cur_effs.wf(),
        cur_ings@.len() + remaining <= 0xffff_ffff,
    ensures
        r@ == best_range_spec(
            universe@,
            base_price as int,
            remaining as nat,
            cur_ings@,
            cur_effs@,
            pruning,
            lo as int,
            hi as int,
        ),
    decreases remaining, (hi - lo) as int,
{
    if hi - lo == 1 {
        return eval_child_par(universe, base_price, remaining, cur_ings, cur_effs, pruning, lo);
    }
    let mid = lo + (hi - lo) / 2;
    let ghost lower = best_range_spec(
        universe@,
        base_price as int,
        remaining as nat,
        cur_ings@,
        cur_effs@,
        pruning,
        lo as int,
        mid as int,
    );
    let ghost upper = best_range_spec(
        universe@,
        base_price as int,
        remaining as nat,
        cur_ings@,
        cur_effs@,
        pruning,
        mid as int,
        hi as int,
    );
    let (a, b) = rayon::join(
        (|| -> (out: CombinationResult)
            ensures
                out@ == lower,
            { par_best(universe, base_price, remaining, cur_ings, cur_effs, pruning, lo, mid) }),
        (|| -> (out: CombinationResult)
            ensures
                out@ == upper,
            { par_best(universe, base_price, remaining, cur_ings, cur_effs, pruning, mid, hi) }),
    );
    proof {
        lemma_best_range_split(
            universe@,
            base_price as int,
            remaining as nat,
            cur_ings@,
            cur_effs@,
            pruning,
            lo as int,
            mid as int,
            hi as int,
        );
    }
    pick_result(a, b)
}

/// The parallel walk of the search tree: the same reduction as the
/// sequential walk, with sibling subtrees explored as independent tasks.
fn generate_combinations_par(
    universe: &Vec<Ingredient>,
    base_price: u32,
    remaining: u32,
    cur_ings: &Vec<Ingredient>,
    cur_effs: &EffectList,
    pruning: bool,
) -> (r: CombinationResult)
    requires
        remaining > 0 ==> universe@.len() > 0,
        cur_effs.wf(),
        cur_ings@.len() + remaining <= 0xffff_ffff,
    ensures
        r@ == search_spec(
            universe@,
            base_price as int,
            remaining as nat,
            cur_ings@,
            cur_effs@,
            pruning,
        ),
    decreases remaining, universe@.len() as int + 1,
{
    if remaining == 0 {
        return make_leaf(base_price, cur_ings, cur_effs);
    }
    par_best(universe, base_price, remaining, cur_ings, cur_effs, pruning, 0, universe.len())
}

/// Finds the most profitable ingredient sequence of length `depth` for a
/// product with the given base price (whole dollars) and optional seed
/// effect, choosing from `available_ingredients`, exploring the tree
/// sequentially. With `pruning` enabled, a child whose transformation left
/// the effect collection unchanged is scored at once instead of being
/// explored deeper, which may shorten its ingredient sequence.
///
/// Returns an error exactly when the universe is empty although at least one
/// step was requested; every other request yields exactly one result, the
/// same one `try_all_combinations_threaded` yields.
pub fn try_all_combinations_not_threaded(
    base_price: u32,
    depth: u32,
    initial_effect: Option<Effect>,
    available_ingredients: Vec<Ingredient>,
    pruning: bool,
) -> (r: Result<CombinationResult, SearchError>)
    ensures
        r is Err <==> (available_ingredients@.len() == 0 && depth > 0),
        r is Err ==> r == Result::<CombinationResult, SearchError>::Err(SearchError::InvalidRequest),
        r is Ok ==> (r->Ok_0)@ == search_spec(
            available_ingredients@,
            base_price as int,
            depth as nat,
            Seq::<Ingredient>::empty(),
            init_effects_spec(initial_effect),
            pruning,
        ),
        r is Ok ==> (r->Ok_0)@.cost == cost_spec((r->Ok_0)@.ingredients),
        r is Ok ==> (r->Ok_0)@.profit == sell_price_spec(base_price as int, (r->Ok_0)@.effects)
            - (r->Ok_0)@.cost,
        r is Ok ==> (r->Ok_0)@.effects.no_duplicates(),
        (r is Ok && !pruning) ==> (r->Ok_0)@.ingredients.len() == depth,
{
    if available_ingredients.len() == 0 && depth > 0 {
        return Err(SearchError::InvalidRequest);
    }
    let mut effs = EffectList::new();
    match initial_effect {
        Some(e) => effs.insert_if_absent(e),
        None => (),
    }
    proof {
        assert(effs@ =~= init_effects_spec(initial_effect));
        lemma_search_invariants(
            available_ingredients@,
            base_price as int,
            depth as nat,
            Seq::<Ingredient>::empty(),
            effs@,
            pruning,
        );
    }
    let ings: Vec<Ingredient> = Vec::new();
    Ok(generate_combinations(&available_ingredients, base_price, depth, &ings, &effs, pruning))
}

/// The parallel twin of `try_all_combinations_not_threaded`: same request,
/// same contract, same result — both walks compute `search_spec` of the same
/// arguments — with sibling subtrees explored as independent rayon tasks.
pub fn try_all_combinations_threaded(
    base_price: u32,
    depth: u32,
    initial_effect: Option<Effect>,
    available_ingredients: Vec<Ingredient>,
    pruning: bool,
) -> (r: Result<CombinationResult, SearchError>)
    ensures
        r is Err <==> (available_ingredients@.len() == 0 && depth > 0),
        r is Err ==> r == Result::<CombinationResult, SearchError>::Err(SearchError::InvalidRequest),
        r is Ok ==> (r->Ok_0)@ == search_spec(
            available_ingredients@,
            base_price as int,
            depth as nat,
            Seq::<Ingredient>::empty(),
            init_effects_spec(initial_effect),
            pruning,
        ),
        r is Ok ==> (r->Ok_0)@.cost == cost_spec((r->Ok_0)@.ingredients),
        r is Ok ==> (r->Ok_0)@.profit == sell_price_spec(base_price as int, (r->Ok_0)@.effects)
            - (r->Ok_0)@.cost,
        r is Ok ==> (r->Ok_0)@.effects.no_duplicates(),
        (r is Ok && !pruning) ==> (r->Ok_0)@.ingredients.len() == depth,
{
    if available_ingredients.len() == 0 && depth > 0 {
        return Err(SearchError::InvalidRequest);
    }
    let mut effs = EffectList::new();
    match initial_effect {
        Some(e) => effs.insert_if_absent(e),
        None => (),
    }
    proof {
        assert(effs@ =~= init_effects_spec(initial_effect));
        lemma_search_invariants(
            available_ingredients@,
            base_price as int,
            depth as nat,
            Seq::<Ingredient>::empty(),
            effs@,
            pruning,
        );
    }
    let ings: Vec<Ingredient> = Vec::new();
    Ok(generate_combinations_par(&available_ingredients, base_price, depth, &ings, &effs, pruning))
}

} // verus!
