use vstd::prelude::*;

verus! {

/// The monitored forecast zones, each issued by one avalanche center.
#[derive(Clone, Copy, Debug, PartialEq, Eq, Structural)]
pub enum AvalancheZoneIds {
    CentralOregon,
    Bridgeport,
    Shasta,
    Sierra,
}

/// The center code of a zone, as the upstream query string spells it.
pub open spec fn spec_identifier(z: AvalancheZoneIds) -> Seq<char> {
    match z {
        AvalancheZoneIds::CentralOregon => "COAA"@,
        AvalancheZoneIds::Bridgeport => "BAC"@,
        AvalancheZoneIds::Shasta => "MSAC"@,
        AvalancheZoneIds::Sierra => "SAC"@,
    }
}

/// The numeric id of a zone, as the upstream query string carries it.
pub open spec fn spec_zone_number(z: AvalancheZoneIds) -> u32 {
    match z {
        AvalancheZoneIds::CentralOregon => 1619,
        AvalancheZoneIds::Bridgeport => 1350,
        AvalancheZoneIds::Shasta => 1432,
        AvalancheZoneIds::Sierra => 1605,
    }
}

impl AvalancheZoneIds {
    /// The issuing center's code for this zone.
    pub fn get_identifier_st(&self) -> (r: &str)
        ensures
            r@ == spec_identifier(*self),
    {
        match self {
            Self::CentralOregon => "COAA",
            Self::Bridgeport => "BAC",
            Self::Shasta => "MSAC",
            Self::Sierra => "SAC",
        }
    }

    /// The numeric zone id for this zone.
    pub fn zone_number(&self) -> (r: u32)
        ensures
            r == spec_zone_number(*self),
    {
        match self {
            Self::CentralOregon => 1619,
            Self::Bridgeport => 1350,
            Self::Shasta => 1432,
            Self::Sierra => 1605,
        }
    }
}

/// What the fetch loop does with one zone's response.
#[derive(Clone, Copy, Debug, PartialEq, Eq, Structural)]
pub enum FetchAction {
    /// Success status and a body that parsed: keep the document.
    Append,
    /// Success status but a body that did not parse: drop this zone, go on.
    SkipZone,
    /// Any non-success status: the run is unrecoverable.
    AbortRun,
}

/// What the fetch loop must do with one response: abort the whole run on a
/// non-OK status, keep a parsed document, and skip only a zone whose body
/// failed to parse.
pub open spec fn spec_fetch_decision(status: u16, parsed: bool) -> FetchAction {
    if status != 200 {
        FetchAction::AbortRun
    } else if parsed {
        FetchAction::Append
    } else {
        FetchAction::SkipZone
    }
}

/// Decide one fetched response, exactly as `spec_fetch_decision` says:
/// `status` is the HTTP status and `parsed` whether the body deserialized
/// into a forecast document.
pub fn fetch_decision(status: u16, parsed: bool) -> (r: FetchAction)
    ensures
        r == spec_fetch_decision(status, parsed),
{
    if status != 200 {
        FetchAction::AbortRun
    } else if parsed {
        FetchAction::Append
    } else {
        FetchAction::SkipZone
    }
}

} // verus!
