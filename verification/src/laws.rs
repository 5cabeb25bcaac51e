use vstd::prelude::*;

use crate::avalanche_json::{AvalancheForecastJson, AvalancheProblemJson};
use crate::avalanche_request::{
    aspects_mask, elevations_mask, spec_likelihood, spec_normalize_forecast,
    spec_normalize_problem, spec_normalize_problems, spec_problem_type, ForecastView,
    NormalizeError, ProblemView,
};
use crate::enumerations::{Likelihood, ProblemTypes};
use crate::text::norm_text;

verus! {

/// Law: a forecast whose first danger entry carries ratings l, m, u
/// normalizes with overall danger exactly l + m + u — a plain sum, not a
/// maximum or a weighted score.
pub proof fn lemma_overall_danger_is_sum(
    f: AvalancheForecastJson,
    fv: ForecastView,
    l: i32,
    m: i32,
    u: i32,
)
    requires
        f.danger@.len() > 0,
        f.danger@[0].lower == Some(l),
        f.danger@[0].middle == Some(m),
        f.danger@[0].upper == Some(u),
        spec_normalize_forecast(f) == Ok::<ForecastView, NormalizeError>(fv),
    ensures
        fv.overall_danger == l + m + u,
        fv.danger_above_treeline == u,
        fv.danger_at_treeline == m,
        fv.danger_below_treeling == l,
{
}

/// Concatenating descriptor lists ORs their masks.
pub proof fn lemma_masks_distribute(a: Seq<Seq<char>>, b: Seq<Seq<char>>)
    ensures
        aspects_mask(a + b) == aspects_mask(a) | aspects_mask(b),
        elevations_mask(a + b) == elevations_mask(a) | elevations_mask(b),
    decreases b.len(),
{
    if b.len() == 0 {
        assert(a + b =~= a);
        assert(forall|x: u32| #![auto] x | 0 == x) by (bit_vector);
    } else {
        lemma_masks_distribute(a, b.drop_last());
        assert((a + b).drop_last() =~= a + b.drop_last());
        assert((a + b).last() == b.last());
        assert(forall|x: u32, y: u32, z: u32| #![auto] (x | y) | z == x | (y | z))
            by (bit_vector);
    }
}

/// Law: the exposure masks are OR-accumulations, so the order in which the
/// location descriptors arrive does not affect them.
pub proof fn lemma_masks_order_independent(a: Seq<Seq<char>>, b: Seq<Seq<char>>)
    ensures
        aspects_mask(a + b) == aspects_mask(b + a),
        elevations_mask(a + b) == elevations_mask(b + a),
{
    lemma_masks_distribute(a, b);
    lemma_masks_distribute(b, a);
    assert(forall|x: u32, y: u32| #![auto] x | y == y | x) by (bit_vector);
}

/// Law: the problem-type vocabulary is total and deterministic on its eight
/// recognized normalized names, and the likelihood vocabulary on its five.
pub proof fn lemma_vocabulary_total()
    ensures
        spec_problem_type("windslab"@) == Some(ProblemTypes::WindSlab),
        spec_problem_type("stormslab"@) == Some(ProblemTypes::StormSlab),
        spec_problem_type("persistentslab"@) == Some(ProblemTypes::PersistentSlab),
        spec_problem_type("loosedry"@) == Some(ProblemTypes::LooseDry),
        spec_problem_type("persistentweaklayer"@) == Some(ProblemTypes::PersistentWeakLayer),
        spec_problem_type("cornicefall"@) == Some(ProblemTypes::CorniceFall),
        spec_problem_type("glide"@) == Some(ProblemTypes::Glide),
        spec_problem_type("wetloose"@) == Some(ProblemTypes::WetSnow),
        spec_likelihood("unlikely"@) == Some(Likelihood::Unlikely),
        spec_likelihood("possible"@) == Some(Likelihood::Possible),
        spec_likelihood("likely"@) == Some(Likelihood::Likely),
        spec_likelihood("verylikely"@) == Some(Likelihood::VeryLikely),
        spec_likelihood("certain"@) == Some(Likelihood::Certain),
{
    reveal_strlit("windslab");
    reveal_strlit("stormslab");
    reveal_strlit("persistentslab");
    reveal_strlit("loosedry");
    reveal_strlit("persistentweaklayer");
    reveal_strlit("cornicefall");
    reveal_strlit("glide");
    reveal_strlit("wetloose");
    reveal_strlit("unlikely");
    reveal_strlit("possible");
    reveal_strlit("likely");
    reveal_strlit("verylikely");
    reveal_strlit("certain");
    assert("windslab"@.len() == 8);
    assert("stormslab"@.len() == 9);
    assert("persistentslab"@.len() == 14);
    assert("loosedry"@.len() == 8);
    assert("persistentweaklayer"@.len() == 19);
    assert("cornicefall"@.len() == 11);
    assert("glide"@.len() == 5);
    assert("wetloose"@.len() == 8);
    assert("unlikely"@.len() == 8);
    assert("possible"@.len() == 8);
    assert("likely"@.len() == 6);
    assert("verylikely"@.len() == 10);
    assert("certain"@.len() == 7);
    assert("loosedry"@[0] != "windslab"@[0]);
    assert("wetloose"@[0] != "loosedry"@[0]);
    assert("wetloose"@[1] != "windslab"@[1]);
    assert("possible"@[0] != "unlikely"@[0]);
}

/// A problem list fails on its first faulty entry, with that entry's fault.
pub proof fn lemma_problems_first_fault(ps: Seq<AvalancheProblemJson>, i: int, e: NormalizeError)
    requires
        0 <= i < ps.len(),
        forall|j: int|
            0 <= j < i ==> #[trigger] spec_normalize_problem(ps[j]) is Ok,
        spec_normalize_problem(ps[i]) == Err::<ProblemView, NormalizeError>(e),
    ensures
        spec_normalize_problems(ps) == Err::<Seq<ProblemView>, NormalizeError>(e),
    decreases i,
{
    if i == 0 {
    } else {
        assert(spec_normalize_problem(ps[0]) is Ok);
        lemma_problems_first_fault(ps.drop_first(), i - 1, e);
        assert(ps.drop_first()[i - 1] == ps[i]);
    }
}

/// Law: a problem whose name or likelihood misses the vocabulary makes its
/// forecast's normalization fail, never a silent default.
pub proof fn lemma_unrecognized_vocabulary_fatal(f: AvalancheForecastJson, i: int)
    requires
        0 <= i < f.forecast_avalanche_problems@.len(),
        forall|j: int|
            0 <= j < i ==> #[trigger] spec_normalize_problem(
                f.forecast_avalanche_problems@[j],
            ) is Ok,
        f.forecast_avalanche_problems@[i].name matches Some(n) ==> spec_problem_type(
            norm_text(n@),
        ) is None || (f.forecast_avalanche_problems@[i].likelihood matches Some(l)
            && spec_likelihood(norm_text(l@)) is None),
    ensures
        spec_normalize_forecast(f) is Err,
{
    let p = f.forecast_avalanche_problems@[i];
    assert(spec_normalize_problem(p) is Err);
    let e = choose|e: NormalizeError| spec_normalize_problem(p) == Err::<
        ProblemView,
        NormalizeError,
    >(e);
    lemma_problems_first_fault(f.forecast_avalanche_problems@, i, e);
}

} // verus!
