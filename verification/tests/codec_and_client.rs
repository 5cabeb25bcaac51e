use freesnow::avalanche_json::{
    AvalancheForecastJson, AvalancheProblemJson, DangerJson, ForecastZoneJson,
};
use freesnow::avalanche_request::AvalanchePostRequest;
use freesnow::client::{fetch_decision, AvalancheZoneIds, FetchAction};
use freesnow::codec::build_post_body;

fn scenario_forecast(bottom_line: &str, discussion: &str) -> AvalancheForecastJson {
    AvalancheForecastJson {
        id: None,
        published_time: None,
        expires_time: None,
        created_at: Some("2024-01-15 06:00:00".to_string()),
        updated_at: None,
        author: None,
        product_type: None,
        bottom_line: Some(bottom_line.to_string()),
        hazard_discussion: None,
        weather_discussion: None,
        announcement: None,
        status: None,
        media: vec![],
        weather_data: None,
        avalanche_center: None,
        forecast_avalanche_problems: vec![AvalancheProblemJson {
            id: None,
            forecast_id: None,
            avalanche_problem_id: None,
            rank: None,
            likelihood: Some("Likely".to_string()),
            discussion: Some(discussion.to_string()),
            location: vec!["north upper".to_string(), "northeast upper".to_string()],
            size: vec!["1".to_string(), "2".to_string()],
            name: Some("Wind Slab".to_string()),
            problem_description: None,
            icon: None,
        }],
        danger: vec![DangerJson {
            lower: Some(1),
            upper: Some(2),
            middle: Some(2),
            valid_day: None,
        }],
        forecast_zone: vec![ForecastZoneJson {
            id: Some(1619),
            name: None,
            url: None,
            state: None,
            zone_id: None,
            config: None,
        }],
    }
}

#[test]
fn encoded_body_parses_back_to_identical_values() {
    let raw = scenario_forecast("Moderate danger", "Wind loading near ridges");
    let fr = AvalanchePostRequest::from(&raw).unwrap();
    let body = build_post_body(&vec![fr]);
    let v: serde_json::Value = serde_json::from_str(&body).unwrap();
    let arr = v.as_array().unwrap();
    assert_eq!(arr.len(), 1);
    let o = &arr[0];
    assert_eq!(o["zone_id"].as_u64().unwrap(), 1619);
    assert_eq!(o["forecast_date"].as_str().unwrap(), "2024-01-15T06:00:00");
    assert_eq!(o["bottom_line"].as_str().unwrap(), "Moderate danger");
    assert_eq!(o["overall_danger"].as_u64().unwrap(), 5);
    assert_eq!(o["danger_above_treeline"].as_u64().unwrap(), 2);
    assert_eq!(o["danger_at_treeline"].as_u64().unwrap(), 2);
    assert_eq!(o["danger_below_treeling"].as_u64().unwrap(), 1);
    let problems = o["avalanche_problems"].as_array().unwrap();
    assert_eq!(problems.len(), 1);
    let p = &problems[0];
    assert_eq!(p["additional_notes"].as_str().unwrap(), "Wind loading near ridges");
    assert_eq!(p["aspects"].as_u64().unwrap(), 0x01 | 0x80);
    assert_eq!(p["elevations"].as_u64().unwrap(), 0x04);
    assert_eq!(p["problem_type"].as_u64().unwrap(), 1);
    assert_eq!(p["likelihood"].as_u64().unwrap(), 3);
    assert_eq!(p["size"].as_u64().unwrap(), 0);
}

#[test]
fn encoding_escapes_are_lossless() {
    let tricky = "say \"hello\"\\ \n\t\r and a bell \u{7} end";
    let raw = scenario_forecast(tricky, "notes with \"quotes\" and \\slashes\\");
    let fr = AvalanchePostRequest::from(&raw).unwrap();
    let body = build_post_body(&vec![fr]);
    let v: serde_json::Value = serde_json::from_str(&body).unwrap();
    let o = &v.as_array().unwrap()[0];
    assert_eq!(o["bottom_line"].as_str().unwrap(), tricky);
    assert_eq!(
        o["avalanche_problems"][0]["additional_notes"].as_str().unwrap(),
        "notes with \"quotes\" and \\slashes\\"
    );
}

#[test]
fn empty_forecast_list_encodes_as_empty_array() {
    let body = build_post_body(&vec![]);
    assert_eq!(body, "[]".to_string());
    let v: serde_json::Value = serde_json::from_str(&body).unwrap();
    assert_eq!(v.as_array().unwrap().len(), 0);
}

#[test]
fn two_forecasts_encode_in_order() {
    let raw1 = scenario_forecast("First", "a");
    let mut raw2 = scenario_forecast("Second", "b");
    raw2.forecast_zone[0].id = Some(1350);
    let f1 = AvalanchePostRequest::from(&raw1).unwrap();
    let f2 = AvalanchePostRequest::from(&raw2).unwrap();
    let body = build_post_body(&vec![f1, f2]);
    let v: serde_json::Value = serde_json::from_str(&body).unwrap();
    let arr = v.as_array().unwrap();
    assert_eq!(arr.len(), 2);
    assert_eq!(arr[0]["bottom_line"].as_str().unwrap(), "First");
    assert_eq!(arr[1]["zone_id"].as_u64().unwrap(), 1350);
}

#[test]
fn non_success_status_aborts_the_run() {
    assert_eq!(fetch_decision(500, true), FetchAction::AbortRun);
    assert_eq!(fetch_decision(500, false), FetchAction::AbortRun);
    assert_eq!(fetch_decision(404, true), FetchAction::AbortRun);
    assert_eq!(fetch_decision(201, true), FetchAction::AbortRun);
}

#[test]
fn success_status_keeps_or_skips_on_parse() {
    assert_eq!(fetch_decision(200, true), FetchAction::Append);
    assert_eq!(fetch_decision(200, false), FetchAction::SkipZone);
}

#[test]
fn zone_identifiers_match_their_centers() {
    assert_eq!(AvalancheZoneIds::CentralOregon.get_identifier_st(), "COAA");
    assert_eq!(AvalancheZoneIds::Bridgeport.get_identifier_st(), "BAC");
    assert_eq!(AvalancheZoneIds::Shasta.get_identifier_st(), "MSAC");
    assert_eq!(AvalancheZoneIds::Sierra.get_identifier_st(), "SAC");
    assert_eq!(AvalancheZoneIds::CentralOregon.zone_number(), 1619);
    assert_eq!(AvalancheZoneIds::Bridgeport.zone_number(), 1350);
    assert_eq!(AvalancheZoneIds::Shasta.zone_number(), 1432);
    assert_eq!(AvalancheZoneIds::Sierra.zone_number(), 1605);
}
