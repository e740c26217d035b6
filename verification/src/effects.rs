//! The effect catalogue: every effect a mix can carry, with its price
//! multiplier (hundredths) and addictiveness contribution (thousandths),
//! and the ordered duplicate-free collection the mix state lives in.

use vstd::prelude::*;
use vstd::set_lib::lemma_int_range;
use vstd::set_lib::lemma_len_subset;
use vstd::set_lib::set_int_range;

verus! {

/// One of the finite set of effects a mixed product can carry.
#[derive(Clone, Copy, Debug, PartialEq, Eq, Structural)]
pub enum Effect {
    AntiGravity,
    Athletic,
    Balding,
    BrightEyed,
    Calming,
    CalorieDense,
    Cyclopean,
    Disorienting,
    Electrifying,
    Energizing,
    Euphoric,
    Explosive,
    Focused,
    Foggy,
    Gingeritis,
    Glowing,
    Jennerising,
    Laxative,
    LongFaced,
    Munchies,
    Paranoia,
    Refreshing,
    Schizophrenic,
    Sedating,
    SeizureInducing,
    Shrinking,
    Slippery,
    Smelly,
    Sneaky,
    Spicy,
    ThoughtProvoking,
    Toxic,
    TropicThunder,
    Zombifying,
}

/// Sell-price multiplier of one effect, in hundredths.
pub open spec fn multiplier_spec(e: Effect) -> int {
    match e {
        Effect::AntiGravity => 54,
        Effect::Athletic => 32,
        Effect::Balding => 30,
        Effect::BrightEyed => 40,
        Effect::Calming => 10,
        Effect::CalorieDense => 28,
        Effect::Cyclopean => 56,
        Effect::Disorienting => 0,
        Effect::Electrifying => 50,
        Effect::Energizing => 22,
        Effect::Euphoric => 18,
        Effect::Explosive => 0,
        Effect::Focused => 16,
        Effect::Foggy => 36,
        Effect::Gingeritis => 20,
        Effect::Glowing => 48,
        Effect::Jennerising => 42,
        Effect::Laxative => 0,
        Effect::LongFaced => 52,
        Effect::Munchies => 12,
        Effect::Paranoia => 0,
        Effect::Refreshing => 14,
        Effect::Schizophrenic => 0,
        Effect::Sedating => 26,
        Effect::SeizureInducing => 0,
        Effect::Shrinking => 60,
        Effect::Slippery => 34,
        Effect::Smelly => 0,
        Effect::Sneaky => 24,
        Effect::Spicy => 38,
        Effect::ThoughtProvoking => 44,
        Effect::Toxic => 0,
        Effect::TropicThunder => 46,
        Effect::Zombifying => 58,
    }
}

/// Addictiveness contribution of one effect, in thousandths.
pub open spec fn addictiveness_spec(e: Effect) -> int {
    match e {
        Effect::AntiGravity => 611,
        Effect::Athletic => 607,
        Effect::Balding => 0,
        Effect::BrightEyed => 200,
        Effect::Calming => 0,
        Effect::CalorieDense => 100,
        Effect::Cyclopean => 100,
        Effect::Disorienting => 0,
        Effect::Electrifying => 235,
        Effect::Energizing => 340,
        Effect::Euphoric => 235,
        Effect::Explosive => 0,
        Effect::Focused => 104,
        Effect::Foggy => 100,
        Effect::Gingeritis => 0,
        Effect::Glowing => 472,
        Effect::Jennerising => 343,
        Effect::Laxative => 100,
        Effect::LongFaced => 607,
        Effect::Munchies => 96,
        Effect::Paranoia => 0,
        Effect::Refreshing => 104,
        Effect::Schizophrenic => 0,
        Effect::Sedating => 0,
        Effect::SeizureInducing => 0,
        Effect::Shrinking => 336,
        Effect::Slippery => 309,
        Effect::Smelly => 0,
        Effect::Sneaky => 327,
        Effect::Spicy => 665,
        Effect::ThoughtProvoking => 370,
        Effect::Toxic => 0,
        Effect::TropicThunder => 803,
        Effect::Zombifying => 598,
    }
}

/// Position of one effect in the catalogue's order; distinct for each effect.
pub open spec fn effect_id(e: Effect) -> int {
    match e {
        Effect::AntiGravity => 0,
        Effect::Athletic => 1,
        Effect::Balding => 2,
        Effect::BrightEyed => 3,
        Effect::Calming => 4,
        Effect::CalorieDense => 5,
        Effect::Cyclopean => 6,
        Effect::Disorienting => 7,
        Effect::Electrifying => 8,
        Effect::Energizing => 9,
        Effect::Euphoric => 10,
        Effect::Explosive => 11,
        Effect::Focused => 12,
        Effect::Foggy => 13,
        Effect::Gingeritis => 14,
        Effect::Glowing => 15,
        Effect::Jennerising => 16,
        Effect::Laxative => 17,
        Effect::LongFaced => 18,
        Effect::Munchies => 19,
        Effect::Paranoia => 20,
        Effect::Refreshing => 21,
        Effect::Schizophrenic => 22,
        Effect::Sedating => 23,
        Effect::SeizureInducing => 24,
        Effect::Shrinking => 25,
        Effect::Slippery => 26,
        Effect::Smelly => 27,
        Effect::Sneaky => 28,
        Effect::Spicy => 29,
        Effect::ThoughtProvoking => 30,
        Effect::Toxic => 31,
        Effect::TropicThunder => 32,
        Effect::Zombifying => 33,
    }
}

/// The whole catalogue, in its fixed order.
pub open spec fn all_effects_seq() -> Seq<Effect> {
    seq![
        Effect::AntiGravity,
        Effect::Athletic,
        Effect::Balding,
        Effect::BrightEyed,
        Effect::Calming,
        Effect::CalorieDense,
        Effect::Cyclopean,
        Effect::Disorienting,
        Effect::Electrifying,
        Effect::Energizing,
        Effect::Euphoric,
        Effect::Explosive,
        Effect::Focused,
        Effect::Foggy,
        Effect::Gingeritis,
        Effect::Glowing,
        Effect::Jennerising,
        Effect::Laxative,
        Effect::LongFaced,
        Effect::Munchies,
        Effect::Paranoia,
        Effect::Refreshing,
        Effect::Schizophrenic,
        Effect::Sedating,
        Effect::SeizureInducing,
        Effect::Shrinking,
        Effect::Slippery,
        Effect::Smelly,
        Effect::Sneaky,
        Effect::Spicy,
        Effect::ThoughtProvoking,
        Effect::Toxic,
        Effect::TropicThunder,
        Effect::Zombifying,
    ]
}

impl Effect {
    /// Sell-price multiplier of this effect, in hundredths.
    pub fn multiplier(&self) -> (r: u32)
        ensures
            r == multiplier_spec(*self),
            r <= 60,
    {
        match self {
            Effect::AntiGravity => 54,
            Effect::Athletic => 32,
            Effect::Balding => 30,
            Effect::BrightEyed => 40,
            Effect::Calming => 10,
            Effect::CalorieDense => 28,
            Effect::Cyclopean => 56,
            Effect::Disorienting => 0,
            Effect::Electrifying => 50,
            Effect::Energizing => 22,
            Effect::Euphoric => 18,
            Effect::Explosive => 0,
            Effect::Focused => 16,
            Effect::Foggy => 36,
            Effect::Gingeritis => 20,
            Effect::Glowing => 48,
            Effect::Jennerising => 42,
            Effect::Laxative => 0,
            Effect::LongFaced => 52,
            Effect::Munchies => 12,
            Effect::Paranoia => 0,
            Effect::Refreshing => 14,
            Effect::Schizophrenic => 0,
            Effect::Sedating => 26,
            Effect::SeizureInducing => 0,
            Effect::Shrinking => 60,
            Effect::Slippery => 34,
            Effect::Smelly => 0,
            Effect::Sneaky => 24,
            Effect::Spicy => 38,
            Effect::ThoughtProvoking => 44,
            Effect::Toxic => 0,
            Effect::TropicThunder => 46,
            Effect::Zombifying => 58,
        }
    }

    /// Addictiveness contribution of this effect, in thousandths.
    pub fn addictiveness(&self) -> (r: u32)
        ensures
            r == addictiveness_spec(*self),
            r <= 1000,
    {
        match self {
            Effect::AntiGravity => 611,
            Effect::Athletic => 607,
            Effect::Balding => 0,
            Effect::BrightEyed => 200,
            Effect::Calming => 0,
            Effect::CalorieDense => 100,
            Effect::Cyclopean => 100,
            Effect::Disorienting => 0,
            Effect::Electrifying => 235,
            Effect::Energizing => 340,
            Effect::Euphoric => 235,
            Effect::Explosive => 0,
            Effect::Focused => 104,
            Effect::Foggy => 100,
            Effect::Gingeritis => 0,
            Effect::Glowing => 472,
            Effect::Jennerising => 343,
            Effect::Laxative => 100,
            Effect::LongFaced => 607,
            Effect::Munchies => 96,
            Effect::Paranoia => 0,
            Effect::Refreshing => 104,
            Effect::Schizophrenic => 0,
            Effect::Sedating => 0,
            Effect::SeizureInducing => 0,
            Effect::Shrinking => 336,
            Effect::Slippery => 309,
            Effect::Smelly => 0,
            Effect::Sneaky => 327,
            Effect::Spicy => 665,
            Effect::ThoughtProvoking => 370,
            Effect::Toxic => 0,
            Effect::TropicThunder => 803,
            Effect::Zombifying => 598,
        }
    }

    /// The whole catalogue as a vector, in its fixed order.
    pub fn all() -> (r: Vec<Effect>)
        ensures
            r@ == all_effects_seq(),
    {
        let mut v: Vec<Effect> = Vec::new();
        v.push(Effect::AntiGravity);
        v.push(Effect::Athletic);
        v.push(Effect::Balding);
        v.push(Effect::BrightEyed);
        v.push(Effect::Calming);
        v.push(Effect::CalorieDense);
        v.push(Effect::Cyclopean);
        v.push(Effect::Disorienting);
        v.push(Effect::Electrifying);
        v.push(Effect::Energizing);
        v.push(Effect::Euphoric);
        v.push(Effect::Explosive);
        v.push(Effect::Focused);
        v.push(Effect::Foggy);
        v.push(Effect::Gingeritis);
        v.push(Effect::Glowing);
        v.push(Effect::Jennerising);
        v.push(Effect::Laxative);
        v.push(Effect::LongFaced);
        v.push(Effect::Munchies);
        v.push(Effect::Paranoia);
        v.push(Effect::Refreshing);
        v.push(Effect::Schizophrenic);
        v.push(Effect::Sedating);
        v.push(Effect::SeizureInducing);
        v.push(Effect::Shrinking);
        v.push(Effect::Slippery);
        v.push(Effect::Smelly);
        v.push(Effect::Sneaky);
        v.push(Effect::Spicy);
        v.push(Effect::ThoughtProvoking);
        v.push(Effect::Toxic);
        v.push(Effect::TropicThunder);
        v.push(Effect::Zombifying);
        proof {
            assert(v@ =~= all_effects_seq());
        }
        v
    }
}

/// Every effect's catalogue position lies below the catalogue's size.
pub proof fn lemma_effect_id_bounds(e: Effect)
    ensures
        0 <= effect_id(e) < 34,
{
}

/// Distinct effects sit at distinct catalogue positions.
pub proof fn lemma_effect_id_injective(a: Effect, b: Effect)
    requires
        a != b,
    ensures
        effect_id(a) != effect_id(b),
{
}

/// A sequence of pairwise-distinct effects can never be longer than the
/// catalogue itself.
pub proof fn lemma_distinct_effects_len(s: Seq<Effect>)
    requires
        s.no_duplicates(),
    ensures
        s.len() <= 34,
{
    let ids = s.map_values(|e: Effect| effect_id(e));
    assert(ids.len() == s.len());
    assert forall|j: int, k: int| 0 <= j < k < ids.len() implies ids[j] != ids[k] by {
        assert(s[j] != s[k]);
        lemma_effect_id_injective(s[j], s[k]);
    }
    assert(ids.no_duplicates());
    ids.unique_seq_to_set();
    assert forall|x: int| ids.to_set().contains(x) implies set_int_range(0, 34).contains(x) by {
        assert(ids.contains(x));
        let i = choose|i: int| 0 <= i < ids.len() && ids[i] == x;
        lemma_effect_id_bounds(s[i]);
    }
    assert(ids.to_set().subset_of(set_int_range(0, 34)));
    lemma_int_range(0, 34);
    lemma_len_subset(ids.to_set(), set_int_range(0, 34));
}

/// The single growth rule of the mix state: append an effect only when it is
/// not already present, keeping first-insertion order.
pub open spec fn insert_if_absent_spec(s: Seq<Effect>, e: Effect) -> Seq<Effect> {
    if s.contains(e) {
        s
    } else {
        s.push(e)
    }
}

/// The evolving mix state: an ordered collection of effects with set
/// semantics. It never holds the same effect twice, and the order is the
/// order of first insertion.
pub struct EffectList {
    v: Vec<Effect>,
}

impl View for EffectList {
    type V = Seq<Effect>;

    closed spec fn view(&self) -> Seq<Effect> {
        self.v@
    }
}

impl EffectList {
    /// The collection's invariant: no effect appears twice.
    pub open spec fn wf(self) -> bool {
        self@.no_duplicates()
    }

    /// An empty mix state.
    pub fn new() -> (r: Self)
        ensures
            r@ == Seq::<Effect>::empty(),
            r.wf(),
    {
        EffectList { v: Vec::new() }
    }

    /// How many effects are active.
    pub fn len(&self) -> (r: usize)
        ensures
            r == self@.len(),
    {
        self.v.len()
    }

    /// The effect at one position.
    pub fn get(&self, i: usize) -> (r: Effect)
        requires
            i < self@.len(),
        ensures
            r == self@[i as int],
    {
        self.v[i]
    }

    /// Whether an effect is active.
    pub fn has(&self, e: Effect) -> (r: bool)
        ensures
            r == self@.contains(e),
    {
        let mut i: usize = 0;
        while i < self.v.len()
            invariant
                0 <= i <= self.v@.len(),
                forall|j: int| 0 <= j < i ==> self.v@[j] != e,
            decreases self.v@.len() - i,
        {
            if self.v[i] == e {
                return true;
            }
            i += 1;
        }
        false
    }

    /// Add an effect unless it is already active; the one mutator, so the
    /// no-duplicates invariant is enforced structurally.
    pub fn insert_if_absent(&mut self, e: Effect)
        requires
            old(self).wf(),
        ensures
            final(self)@ == insert_if_absent_spec(old(self)@, e),
            final(self).wf(),
    {
        if !self.has(e) {
            self.v.push(e);
        }
    }

    /// An independent copy of the mix state.
    pub fn duplicate(&self) -> (r: Self)
        ensures
            r@ == self@,
    {
        let mut out: Vec<Effect> = Vec::new();
        let mut i: usize = 0;
        while i < self.v.len()
            invariant
                0 <= i <= self.v@.len(),
                out@ == self.v@.subrange(0, i as int),
            decreases self.v@.len() - i,
        {
            out.push(self.v[i]);
            proof {
                assert(out@ =~= self.v@.subrange(0, i as int + 1));
            }
            i += 1;
        }
        proof {
            assert(out@ =~= self.v@);
        }
        EffectList { v: out }
    }

    /// Whether two mix states hold the same effects in the same order.
    pub fn equals(&self, other: &EffectList) -> (r: bool)
        ensures
            r == (self@ == other@),
    {
        if self.v.len() != other.v.len() {
            return false;
        }
        let mut i: usize = 0;
        while i < self.v.len()
            invariant
                0 <= i <= self.v@.len(),
                self.v@.len() == other.v@.len(),
                forall|j: int| 0 <= j < i ==> self.v@[j] == other.v@[j],
            decreases self.v@.len() - i,
        {
            if self.v[i] != other.v[i] {
                return false;
            }
            i += 1;
        }
        proof {
            assert(self.v@ =~= other.v@);
        }
        true
    }
}

} // verus!
