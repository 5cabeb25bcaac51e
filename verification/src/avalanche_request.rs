use vstd::prelude::*;

use crate::avalanche_json::{AvalancheForecastJson, AvalancheProblemJson, DangerJson};
use crate::datetime::{spec_parse_date_time, parse_date_time, ForecastDateTime};
use crate::enumerations::{
    likelihood_ordinal, problem_type_ordinal, size_ordinal, Likelihood, ProblemTypes, Size,
    ASPECT_EAST, ASPECT_NORTH, ASPECT_NORTHEAST, ASPECT_NORTHWEST, ASPECT_SOUTH, ASPECT_SOUTHEAST,
    ASPECT_SOUTHWEST, ASPECT_WEST, ELEVATION_ABOVE_TREELINE, ELEVATION_AT_TREELINE,
    ELEVATION_BELOW_TREELINE,
};
use crate::text::{chars_eq_str, norm_text, normalize_label, split_tokens, str_chars, tokens_of};

verus! {

/// Why one raw forecast could not be normalized. Every variant is fatal for
/// the run, as upstream vocabulary gaps are meant to surface loudly.
#[derive(Clone, Copy, Debug, PartialEq, Eq, Structural)]
pub enum NormalizeError {
    MissingProblemName,
    MissingLikelihood,
    UnknownProblemType,
    UnknownLikelihood,
    MissingSizeCode,
    UnknownSizeCode,
    MissingZoneId,
    ZoneIdOutOfRange,
    MissingCreatedAt,
    InvalidCreatedAt,
    MissingBottomLine,
    MissingDangerRating,
    DangerOutOfRange,
}

/// One canonical avalanche-problem record: bit-packed exposure and wire
/// ordinals for the enumerated codes.
#[derive(Clone, Debug)]
pub struct AvalancheProblem {
    pub additional_notes: String,
    pub aspects: u32,
    pub elevations: u32,
    pub problem_type: u32,
    pub likelihood: u32,
    pub size: u32,
}

/// Mathematical image of one canonical problem record.
pub struct ProblemView {
    pub additional_notes: Seq<char>,
    pub aspects: u32,
    pub elevations: u32,
    pub problem_type: u32,
    pub likelihood: u32,
    pub size: u32,
}

impl View for AvalancheProblem {
    type V = ProblemView;

    open spec fn view(&self) -> ProblemView {
        ProblemView {
            additional_notes: self.additional_notes@,
            aspects: self.aspects,
            elevations: self.elevations,
            problem_type: self.problem_type,
            likelihood: self.likelihood,
            size: self.size,
        }
    }
}

/// One canonical forecast: resolved zone, timestamp, narrative, danger
/// ratings and the problem list, in input order.
#[derive(Clone, Debug)]
pub struct AvalanchePostRequest {
    pub zone_id: u32,
    pub forecast_date: ForecastDateTime,
    pub bottom_line: String,
    pub overall_danger: u32,
    pub danger_above_treeline: u32,
    pub danger_at_treeline: u32,
    pub danger_below_treeling: u32,
    pub avalanche_problems: Vec<AvalancheProblem>,
}

/// Mathematical image of one canonical forecast.
pub struct ForecastView {
    pub zone_id: u32,
    pub forecast_date: ForecastDateTime,
    pub bottom_line: Seq<char>,
    pub overall_danger: u32,
    pub danger_above_treeline: u32,
    pub danger_at_treeline: u32,
    pub danger_below_treeling: u32,
    pub avalanche_problems: Seq<ProblemView>,
}

impl View for AvalanchePostRequest {
    type V = ForecastView;

    open spec fn view(&self) -> ForecastView {
        ForecastView {
            zone_id: self.zone_id,
            forecast_date: self.forecast_date,
            bottom_line: self.bottom_line@,
            overall_danger: self.overall_danger,
            danger_above_treeline: self.danger_above_treeline,
            danger_at_treeline: self.danger_at_treeline,
            danger_below_treeling: self.danger_below_treeling,
            avalanche_problems: self.avalanche_problems@.map_values(|p: AvalancheProblem| p@),
        }
    }
}

/// Aspect flag named by a descriptor's first token; zero when unrecognized.
pub open spec fn aspect_flag_of(tok: Seq<char>) -> u32 {
    if tok == "north"@ {
        ASPECT_NORTH
    } else if tok == "northwest"@ {
        ASPECT_NORTHWEST
    } else if tok == "west"@ {
        ASPECT_WEST
    } else if tok == "southwest"@ {
        ASPECT_SOUTHWEST
    } else if tok == "south"@ {
        ASPECT_SOUTH
    } else if tok == "southeast"@ {
        ASPECT_SOUTHEAST
    } else if tok == "east"@ {
        ASPECT_EAST
    } else if tok == "northeast"@ {
        ASPECT_NORTHEAST
    } else {
        0
    }
}

/// Elevation flag named by a descriptor's second token; zero when
/// unrecognized.
pub open spec fn elevation_flag_of(tok: Seq<char>) -> u32 {
    if tok == "upper"@ {
        ELEVATION_ABOVE_TREELINE
    } else if tok == "middle"@ {
        ELEVATION_AT_TREELINE
    } else if tok == "lower"@ {
        ELEVATION_BELOW_TREELINE
    } else {
        0
    }
}

/// Aspect bit contributed by one location descriptor.
pub open spec fn descriptor_aspect(d: Seq<char>) -> u32 {
    if tokens_of(d).len() >= 1 {
        aspect_flag_of(tokens_of(d)[0])
    } else {
        0
    }
}

/// Elevation bit contributed by one location descriptor.
pub open spec fn descriptor_elevation(d: Seq<char>) -> u32 {
    if tokens_of(d).len() >= 2 {
        elevation_flag_of(tokens_of(d)[1])
    } else {
        0
    }
}

/// Bitwise OR of the aspect bits of all descriptors.
pub open spec fn aspects_mask(ds: Seq<Seq<char>>) -> u32
    decreases ds.len(),
{
    if ds.len() == 0 {
        0
    } else {
        aspects_mask(ds.drop_last()) | descriptor_aspect(ds.last())
    }
}

/// Bitwise OR of the elevation bits of all descriptors.
pub open spec fn elevations_mask(ds: Seq<Seq<char>>) -> u32
    decreases ds.len(),
{
    if ds.len() == 0 {
        0
    } else {
        elevations_mask(ds.drop_last()) | descriptor_elevation(ds.last())
    }
}

/// The closed problem-type vocabulary, on normalized names.
pub open spec fn spec_problem_type(s: Seq<char>) -> Option<ProblemTypes> {
    if s == "windslab"@ {
        Some(ProblemTypes::WindSlab)
    } else if s == "stormslab"@ {
        Some(ProblemTypes::StormSlab)
    } else if s == "persistentslab"@ {
        Some(ProblemTypes::PersistentSlab)
    } else if s == "loosedry"@ {
        Some(ProblemTypes::LooseDry)
    } else if s == "persistentweaklayer"@ {
        Some(ProblemTypes::PersistentWeakLayer)
    } else if s == "cornicefall"@ {
        Some(ProblemTypes::CorniceFall)
    } else if s == "glide"@ {
        Some(ProblemTypes::Glide)
    } else if s == "wetloose"@ {
        Some(ProblemTypes::WetSnow)
    } else {
        None
    }
}

/// The closed likelihood vocabulary, on normalized labels.
pub open spec fn spec_likelihood(s: Seq<char>) -> Option<Likelihood> {
    if s == "unlikely"@ {
        Some(Likelihood::Unlikely)
    } else if s == "possible"@ {
        Some(Likelihood::Possible)
    } else if s == "likely"@ {
        Some(Likelihood::Likely)
    } else if s == "verylikely"@ {
        Some(Likelihood::VeryLikely)
    } else if s == "certain"@ {
        Some(Likelihood::Certain)
    } else {
        None
    }
}

/// The size ranges named by the two-character size-code pair. Unrecognized
/// pairs are rejected with an observable error, never silently mapped to the
/// smallest range.
pub open spec fn spec_size(a: Seq<char>, b: Seq<char>) -> Option<Size> {
    if a == "1"@ && b == "2"@ {
        Some(Size::SmallLarge)
    } else if a == "2"@ && b == "3"@ {
        Some(Size::LargeVeryLarge)
    } else if a == "3"@ && b == "4"@ {
        Some(Size::VeryLargeHistoric)
    } else {
        None
    }
}

/// What normalizing one raw problem yields: the canonical record, or the
/// first fatal fault in the order the fields are read.
pub open spec fn spec_normalize_problem(p: AvalancheProblemJson) -> Result<
    ProblemView,
    NormalizeError,
> {
    match p.name {
        None => Err(NormalizeError::MissingProblemName),
        Some(name) => match p.likelihood {
            None => Err(NormalizeError::MissingLikelihood),
            Some(lik) => match spec_problem_type(norm_text(name@)) {
                None => Err(NormalizeError::UnknownProblemType),
                Some(pt) => match spec_likelihood(norm_text(lik@)) {
                    None => Err(NormalizeError::UnknownLikelihood),
                    Some(lk) => if p.size@.len() < 2 {
                        Err(NormalizeError::MissingSizeCode)
                    } else {
                        match spec_size(p.size@[0]@, p.size@[1]@) {
                            None => Err(NormalizeError::UnknownSizeCode),
                            Some(sz) => Ok(
                                ProblemView {
                                    additional_notes: match p.discussion {
                                        Some(d) => d@,
                                        None => Seq::empty(),
                                    },
                                    aspects: aspects_mask(p.location.deep_view()),
                                    elevations: elevations_mask(p.location.deep_view()),
                                    problem_type: problem_type_ordinal(pt),
                                    likelihood: likelihood_ordinal(lk),
                                    size: size_ordinal(sz),
                                },
                            ),
                        }
                    },
                },
            },
        },
    }
}

/// What normalizing a problem list yields: the records in input order, or
/// the first problem's fault.
pub open spec fn spec_normalize_problems(ps: Seq<AvalancheProblemJson>) -> Result<
    Seq<ProblemView>,
    NormalizeError,
>
    decreases ps.len(),
{
    if ps.len() == 0 {
        Ok(Seq::empty())
    } else {
        match spec_normalize_problem(ps[0]) {
            Err(e) => Err(e),
            Ok(pv) => match spec_normalize_problems(ps.drop_first()) {
                Err(e) => Err(e),
                Ok(tail) => Ok(seq![pv] + tail),
            },
        }
    }
}

/// What the overall-danger aggregate yields from a raw danger list: the sum
/// of the first entry's three band ratings, or the first fault.
pub open spec fn spec_overall_danger(ds: Seq<DangerJson>) -> Result<u32, NormalizeError> {
    if ds.len() == 0 {
        Err(NormalizeError::MissingDangerRating)
    } else {
        match ds[0].lower {
            None => Err(NormalizeError::MissingDangerRating),
            Some(l) => match ds[0].middle {
                None => Err(NormalizeError::MissingDangerRating),
                Some(m) => match ds[0].upper {
                    None => Err(NormalizeError::MissingDangerRating),
                    Some(u) => if l < 0 || m < 0 || u < 0 || l + m + u > u32::MAX {
                        Err(NormalizeError::DangerOutOfRange)
                    } else {
                        Ok((l + m + u) as u32)
                    },
                },
            },
        }
    }
}

/// What normalizing one raw forecast yields: the canonical forecast, or the
/// first fatal fault, problems first, then zone, timestamp, narrative and
/// danger, in the order the fields are read.
pub open spec fn spec_normalize_forecast(f: AvalancheForecastJson) -> Result<
    ForecastView,
    NormalizeError,
> {
    match spec_normalize_problems(f.forecast_avalanche_problems@) {
        Err(e) => Err(e),
        Ok(pvs) => if f.forecast_zone@.len() == 0 {
            Err(NormalizeError::MissingZoneId)
        } else {
            match f.forecast_zone@[0].id {
                None => Err(NormalizeError::MissingZoneId),
                Some(zid) => if zid < 0 {
                    Err(NormalizeError::ZoneIdOutOfRange)
                } else {
                    match f.created_at {
                        None => Err(NormalizeError::MissingCreatedAt),
                        Some(c) => match spec_parse_date_time(c@, ' ') {
                            None => Err(NormalizeError::InvalidCreatedAt),
                            Some(dt) => match f.bottom_line {
                                None => Err(NormalizeError::MissingBottomLine),
                                Some(bl) => match spec_overall_danger(f.danger@) {
                                    Err(e) => Err(e),
                                    Ok(overall) => Ok(
                                        ForecastView {
                                            zone_id: zid as u32,
                                            forecast_date: dt,
                                            bottom_line: bl@,
                                            overall_danger: overall,
                                            danger_above_treeline: spec_band(f.danger@[0].upper),
                                            danger_at_treeline: spec_band(f.danger@[0].middle),
                                            danger_below_treeling: spec_band(f.danger@[0].lower),
                                            avalanche_problems: pvs,
                                        },
                                    ),
                                },
                            },
                        },
                    }
                },
            }
        },
    }
}

/// One band rating as stored: the raw integer, which `spec_overall_danger`
/// has already confirmed present and non-negative.
pub open spec fn spec_band(r: Option<i32>) -> u32 {
    match r {
        Some(v) => v as u32,
        None => 0,
    }
}

/// Aspect flag of a descriptor token, exact against `aspect_flag_of`.
pub fn aspect_flag(tok: &Vec<char>) -> (r: u32)
    ensures
        r == aspect_flag_of(tok@),
{
    if chars_eq_str(tok, "north") {
        ASPECT_NORTH
    } else if chars_eq_str(tok, "northwest") {
        ASPECT_NORTHWEST
    } else if chars_eq_str(tok, "west") {
        ASPECT_WEST
    } else if chars_eq_str(tok, "southwest") {
        ASPECT_SOUTHWEST
    } else if chars_eq_str(tok, "south") {
        ASPECT_SOUTH
    } else if chars_eq_str(tok, "southeast") {
        ASPECT_SOUTHEAST
    } else if chars_eq_str(tok, "east") {
        ASPECT_EAST
    } else if chars_eq_str(tok, "northeast") {
        ASPECT_NORTHEAST
    } else {
        0
    }
}

/// Elevation flag of a descriptor token, exact against `elevation_flag_of`.
pub fn elevation_flag(tok: &Vec<char>) -> (r: u32)
    ensures
        r == elevation_flag_of(tok@),
{
    if chars_eq_str(tok, "upper") {
        ELEVATION_ABOVE_TREELINE
    } else if chars_eq_str(tok, "middle") {
        ELEVATION_AT_TREELINE
    } else if chars_eq_str(tok, "lower") {
        ELEVATION_BELOW_TREELINE
    } else {
        0
    }
}

/// Problem-type lookup on a normalized name, exact against the vocabulary.
pub fn match_problem_type(tok: &Vec<char>) -> (r: Option<ProblemTypes>)
    ensures
        r == spec_problem_type(tok@),
{
    if chars_eq_str(tok, "windslab") {
        Some(ProblemTypes::WindSlab)
    } else if chars_eq_str(tok, "stormslab") {
        Some(ProblemTypes::StormSlab)
    } else if chars_eq_str(tok, "persistentslab") {
        Some(ProblemTypes::PersistentSlab)
    } else if chars_eq_str(tok, "loosedry") {
        Some(ProblemTypes::LooseDry)
    } else if chars_eq_str(tok, "persistentweaklayer") {
        Some(ProblemTypes::PersistentWeakLayer)
    } else if chars_eq_str(tok, "cornicefall") {
        Some(ProblemTypes::CorniceFall)
    } else if chars_eq_str(tok, "glide") {
        Some(ProblemTypes::Glide)
    } else if chars_eq_str(tok, "wetloose") {
        Some(ProblemTypes::WetSnow)
    } else {
        None
    }
}

/// Likelihood lookup on a normalized label, exact against the vocabulary.
pub fn match_likelihood(tok: &Vec<char>) -> (r: Option<Likelihood>)
    ensures
        r == spec_likelihood(tok@),
{
    if chars_eq_str(tok, "unlikely") {
        Some(Likelihood::Unlikely)
    } else if chars_eq_str(tok, "possible") {
        Some(Likelihood::Possible)
    } else if chars_eq_str(tok, "likely") {
        Some(Likelihood::Likely)
    } else if chars_eq_str(tok, "verylikely") {
        Some(Likelihood::VeryLikely)
    } else if chars_eq_str(tok, "certain") {
        Some(Likelihood::Certain)
    } else {
        None
    }
}

impl AvalancheProblem {
    /// Normalize one raw avalanche problem, exactly as
    /// `spec_normalize_problem` says: accumulate exposure bits across the
    /// location descriptors and resolve the three enumerated codes, failing
    /// on absent or unrecognized vocabulary.
    pub fn from(problem_json: &AvalancheProblemJson) -> (r: Result<AvalancheProblem, NormalizeError>)
        ensures
            match r {
                Ok(cp) => spec_normalize_problem(*problem_json) == Ok::<
                    ProblemView,
                    NormalizeError,
                >(cp@),
                Err(e) => spec_normalize_problem(*problem_json) == Err::<
                    ProblemView,
                    NormalizeError,
                >(e),
            },
    {
        let name = match &problem_json.name {
            Some(n) => n,
            None => {
                return Err(NormalizeError::MissingProblemName);
            },
        };
        let lik = match &problem_json.likelihood {
            Some(l) => l,
            None => {
                return Err(NormalizeError::MissingLikelihood);
            },
        };
        let pt = match match_problem_type(&normalize_label(name.as_str())) {
            Some(pt) => pt,
            None => {
                return Err(NormalizeError::UnknownProblemType);
            },
        };
        let lk = match match_likelihood(&normalize_label(lik.as_str())) {
            Some(lk) => lk,
            None => {
                return Err(NormalizeError::UnknownLikelihood);
            },
        };
        if problem_json.size.len() < 2 {
            return Err(NormalizeError::MissingSizeCode);
        }
        let size0 = str_chars(problem_json.size[0].as_str());
        let size1 = str_chars(problem_json.size[1].as_str());
        let sz: Size;
        if chars_eq_str(&size0, "1") && chars_eq_str(&size1, "2") {
            sz = Size::SmallLarge;
        } else if chars_eq_str(&size0, "2") && chars_eq_str(&size1, "3") {
            sz = Size::LargeVeryLarge;
        } else if chars_eq_str(&size0, "3") && chars_eq_str(&size1, "4") {
            sz = Size::VeryLargeHistoric;
        } else {
            return Err(NormalizeError::UnknownSizeCode);
        }
        let ghost locs = problem_json.location.deep_view();
        let mut aspects: u32 = 0;
        let mut elevations: u32 = 0;
        let mut i: usize = 0;
        proof {
            assert(locs.take(0) =~= Seq::<Seq<char>>::empty());
        }
        while i < problem_json.location.len()
            invariant
                i <= problem_json.location.len(),
                locs == problem_json.location.deep_view(),
                locs.len() == problem_json.location.len(),
                aspects == aspects_mask(locs.take(i as int)),
                elevations == elevations_mask(locs.take(i as int)),
            decreases problem_json.location.len() - i,
        {
            let toks = split_tokens(problem_json.location[i].as_str());
            proof {
                assert(locs[i as int] == problem_json.location@[i as int]@);
                assert(toks.deep_view() == tokens_of(locs[i as int]));
            }
            let a: u32;
            let e: u32;
            if toks.len() >= 1 {
                proof {
                    assert(toks.deep_view()[0] == toks@[0]@);
                }
                a = aspect_flag(&toks[0]);
            } else {
                a = 0;
            }
            if toks.len() >= 2 {
                proof {
                    assert(toks.deep_view()[1] == toks@[1]@);
                }
                e = elevation_flag(&toks[1]);
            } else {
                e = 0;
            }
            proof {
                assert(locs.take(i + 1).drop_last() =~= locs.take(i as int));
                assert(locs.take(i + 1).last() == locs[i as int]);
            }
            aspects = aspects | a;
            elevations = elevations | e;
            i = i + 1;
        }
        proof {
            assert(locs.take(locs.len() as int) =~= locs);
        }
        let additional_notes = match &problem_json.discussion {
            Some(d) => d.clone(),
            None => String::new(),
        };
        Ok(
            AvalancheProblem {
                additional_notes,
                aspects,
                elevations,
                problem_type: pt.ordinal(),
                likelihood: lk.ordinal(),
                size: sz.ordinal(),
            },
        )
    }
}

impl AvalanchePostRequest {
    /// Normalize one raw forecast into its canonical record, exactly as
    /// `spec_normalize_forecast` says. Any absent required field, unmatched
    /// vocabulary token or malformed timestamp is returned as the fault.
    pub fn from(avalanche_json: &AvalancheForecastJson) -> (r: Result<
        AvalanchePostRequest,
        NormalizeError,
    >)
        ensures
            match r {
                Ok(fc) => spec_normalize_forecast(*avalanche_json) == Ok::<
                    ForecastView,
                    NormalizeError,
                >(fc@),
                Err(e) => spec_normalize_forecast(*avalanche_json) == Err::<
                    ForecastView,
                    NormalizeError,
                >(e),
            },
    {
        let ghost raw_problems = avalanche_json.forecast_avalanche_problems@;
        let mut problems: Vec<AvalancheProblem> = Vec::new();
        let mut i: usize = 0;
        proof {
            assert(raw_problems.skip(0) =~= raw_problems);
            assert(problems@.map_values(|p: AvalancheProblem| p@) =~= Seq::<ProblemView>::empty());
        }
        while i < avalanche_json.forecast_avalanche_problems.len()
            invariant
                i <= avalanche_json.forecast_avalanche_problems.len(),
                raw_problems == avalanche_json.forecast_avalanche_problems@,
                spec_normalize_problems(raw_problems) == (match spec_normalize_problems(
                    raw_problems.skip(i as int),
                ) {
                    Err(e) => Err::<Seq<ProblemView>, NormalizeError>(e),
                    Ok(tail) => Ok::<Seq<ProblemView>, NormalizeError>(
                        problems@.map_values(|p: AvalancheProblem| p@) + tail,
                    ),
                }),
            decreases avalanche_json.forecast_avalanche_problems.len() - i,
        {
            let ghost rest = raw_problems.skip(i as int);
            proof {
                assert(rest[0] == raw_problems[i as int]);
                assert(rest.drop_first() =~= raw_problems.skip(i + 1));
            }
            match AvalancheProblem::from(&avalanche_json.forecast_avalanche_problems[i]) {
                Ok(cp) => {
                    let ghost pvs = problems@.map_values(|p: AvalancheProblem| p@);
                    problems.push(cp);
                    proof {
                        assert(problems@.map_values(|p: AvalancheProblem| p@) =~= pvs.push(cp@));
                        assert(forall|tail: Seq<ProblemView>|
                            (pvs + (seq![cp@] + tail)) =~= (pvs.push(cp@) + tail));
                    }
                },
                Err(e) => {
                    return Err(e);
                },
            }
            i = i + 1;
        }
        proof {
            assert(raw_problems.skip(raw_problems.len() as int) =~= Seq::<
                AvalancheProblemJson,
            >::empty());
            assert(problems@.map_values(|p: AvalancheProblem| p@) + Seq::<ProblemView>::empty()
                =~= problems@.map_values(|p: AvalancheProblem| p@));
        }
        if avalanche_json.forecast_zone.len() == 0 {
            return Err(NormalizeError::MissingZoneId);
        }
        let zid = match avalanche_json.forecast_zone[0].id {
            Some(z) => z,
            None => {
                return Err(NormalizeError::MissingZoneId);
            },
        };
        if zid < 0 {
            return Err(NormalizeError::ZoneIdOutOfRange);
        }
        let created = match &avalanche_json.created_at {
            Some(c) => c,
            None => {
                return Err(NormalizeError::MissingCreatedAt);
            },
        };
        let forecast_date = match parse_date_time(&str_chars(created.as_str()), ' ') {
            Some(dt) => dt,
            None => {
                return Err(NormalizeError::InvalidCreatedAt);
            },
        };
        let bottom_line = match &avalanche_json.bottom_line {
            Some(b) => b.clone(),
            None => {
                return Err(NormalizeError::MissingBottomLine);
            },
        };
        let overall_danger = match Self::get_overall_danger(&avalanche_json.danger) {
            Ok(s) => s,
            Err(e) => {
                return Err(e);
            },
        };
        let first_danger = &avalanche_json.danger[0];
        let danger_above_treeline = match first_danger.upper {
            Some(v) => v as u32,
            None => 0,
        };
        let danger_at_treeline = match first_danger.middle {
            Some(v) => v as u32,
            None => 0,
        };
        let danger_below_treeling = match first_danger.lower {
            Some(v) => v as u32,
            None => 0,
        };
        Ok(
            AvalanchePostRequest {
                zone_id: zid as u32,
                forecast_date,
                bottom_line,
                overall_danger,
                danger_above_treeline,
                danger_at_treeline,
                danger_below_treeling,
                avalanche_problems: problems,
            },
        )
    }

    /// Sum of the first danger entry's three band ratings, exactly as
    /// `spec_overall_danger` says; absent entries or ratings outside the
    /// output range are faults.
    pub fn get_overall_danger(danger_arr: &Vec<DangerJson>) -> (r: Result<u32, NormalizeError>)
        ensures
            r == spec_overall_danger(danger_arr@),
    {
        if danger_arr.len() == 0 {
            return Err(NormalizeError::MissingDangerRating);
        }
        let current = &danger_arr[0];
        let l = match current.lower {
            Some(v) => v,
            None => {
                return Err(NormalizeError::MissingDangerRating);
            },
        };
        let m = match current.middle {
            Some(v) => v,
            None => {
                return Err(NormalizeError::MissingDangerRating);
            },
        };
        let u = match current.upper {
            Some(v) => v,
            None => {
                return Err(NormalizeError::MissingDangerRating);
            },
        };
        if l < 0 || m < 0 || u < 0 {
            return Err(NormalizeError::DangerOutOfRange);
        }
        let sum: u64 = l as u64 + m as u64 + u as u64;
        if sum > u32::MAX as u64 {
            return Err(NormalizeError::DangerOutOfRange);
        }
        Ok(sum as u32)
    }
}

} // verus!
