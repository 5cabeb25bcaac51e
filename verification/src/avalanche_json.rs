use vstd::prelude::*;

verus! {

/// One forecast document as the upstream avalanche API returns it. Most
/// fields are optional because upstream omits them inconsistently; the
/// normalizer decides which absences are fatal.
#[derive(Debug, Clone)]
pub struct AvalancheForecastJson {
    pub id: Option<i32>,
    pub published_time: Option<String>,
    pub expires_time: Option<String>,
    pub created_at: Option<String>,
    pub updated_at: Option<String>,
    pub author: Option<String>,
    pub product_type: Option<String>,
    pub bottom_line: Option<String>,
    pub hazard_discussion: Option<String>,
    pub weather_discussion: Option<String>,
    pub announcement: Option<String>,
    pub status: Option<String>,
    pub media: Vec<MediaJson>,
    pub weather_data: Option<AvalancheZoneWeatherJson>,
    pub avalanche_center: Option<AvalancheCenterJson>,
    pub forecast_avalanche_problems: Vec<AvalancheProblemJson>,
    pub danger: Vec<DangerJson>,
    pub forecast_zone: Vec<ForecastZoneJson>,
}

/// A media reference attached to a forecast; ignored downstream.
#[derive(Debug, Clone)]
pub struct MediaJson {
    pub id: Option<i32>,
    pub url: Option<MediaUrlJson>,
    pub media_type: Option<String>,
    pub title: Option<String>,
    pub caption: Option<String>,
    pub favorite: Option<bool>,
}

/// Alternative renderings of one media item; ignored downstream.
#[derive(Debug, Clone)]
pub struct MediaUrlJson {
    pub large: Option<String>,
    pub medium: Option<String>,
    pub original: Option<String>,
    pub thumbnail: Option<String>,
}

/// Weather-product reference; ignored downstream.
#[derive(Debug, Clone)]
pub struct AvalancheZoneWeatherJson {
    pub weather_product_id: Option<i32>,
}

/// Issuing avalanche center descriptor; ignored downstream.
#[derive(Debug, Clone)]
pub struct AvalancheCenterJson {
    pub id: Option<String>,
    pub name: Option<String>,
    pub url: Option<String>,
    pub city: Option<String>,
    pub state: Option<String>,
}

/// One avalanche problem as received: free-text name, likelihood and size
/// labels, plus "<aspect> <elevation>" location descriptor strings.
#[derive(Debug, Clone)]
pub struct AvalancheProblemJson {
    pub id: Option<i32>,
    pub forecast_id: Option<i32>,
    pub avalanche_problem_id: Option<i32>,
    pub rank: Option<i32>,
    pub likelihood: Option<String>,
    pub discussion: Option<String>,
    pub location: Vec<String>,
    pub size: Vec<String>,
    pub name: Option<String>,
    pub problem_description: Option<String>,
    pub icon: Option<String>,
}

/// Danger ratings for one validity day, one optional integer per elevation
/// band. Only the first entry of a forecast's danger list is authoritative.
#[derive(Debug, Clone)]
pub struct DangerJson {
    pub lower: Option<i32>,
    pub upper: Option<i32>,
    pub middle: Option<i32>,
    pub valid_day: Option<String>,
}

/// A forecast zone descriptor; only the first entry's numeric id is used.
#[derive(Debug, Clone)]
pub struct ForecastZoneJson {
    pub id: Option<i32>,
    pub name: Option<String>,
    pub url: Option<String>,
    pub state: Option<String>,
    pub zone_id: Option<String>,
    pub config: Option<String>,
}

} // verus!
