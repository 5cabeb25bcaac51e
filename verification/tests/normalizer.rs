use freesnow::avalanche_json::{
    AvalancheForecastJson, AvalancheProblemJson, DangerJson, ForecastZoneJson,
};
use freesnow::avalanche_request::{AvalanchePostRequest, AvalancheProblem, NormalizeError};

fn base_problem() -> AvalancheProblemJson {
    AvalancheProblemJson {
        id: None,
        forecast_id: None,
        avalanche_problem_id: None,
        rank: None,
        likelihood: Some("Likely".to_string()),
        discussion: None,
        location: vec![],
        size: vec!["1".to_string(), "2".to_string()],
        name: Some("Wind Slab".to_string()),
        problem_description: None,
        icon: None,
    }
}

fn base_forecast() -> AvalancheForecastJson {
    AvalancheForecastJson {
        id: None,
        published_time: None,
        expires_time: None,
        created_at: Some("2024-01-15 06:00:00".to_string()),
        updated_at: None,
        author: None,
        product_type: None,
        bottom_line: Some("Moderate danger".to_string()),
        hazard_discussion: None,
        weather_discussion: None,
        announcement: None,
        status: None,
        media: vec![],
        weather_data: None,
        avalanche_center: None,
        forecast_avalanche_problems: vec![],
        danger: vec![DangerJson {
            lower: Some(1),
            upper: Some(2),
            middle: Some(2),
            valid_day: None,
        }],
        forecast_zone: vec![ForecastZoneJson {
            id: Some(1619),
            name: None,
            url: None,
            state: None,
            zone_id: None,
            config: None,
        }],
    }
}

#[test]
fn overall_danger_is_plain_sum() {
    let danger = vec![DangerJson {
        lower: Some(1),
        upper: Some(2),
        middle: Some(2),
        valid_day: None,
    }];
    assert_eq!(AvalanchePostRequest::get_overall_danger(&danger), Ok(5));
}

#[test]
fn overall_danger_uses_only_first_entry() {
    let danger = vec![
        DangerJson { lower: Some(1), upper: Some(1), middle: Some(1), valid_day: None },
        DangerJson { lower: Some(5), upper: Some(5), middle: Some(5), valid_day: None },
    ];
    assert_eq!(AvalanchePostRequest::get_overall_danger(&danger), Ok(3));
}

#[test]
fn overall_danger_missing_entry_or_band_fails() {
    assert_eq!(
        AvalanchePostRequest::get_overall_danger(&vec![]),
        Err(NormalizeError::MissingDangerRating)
    );
    let danger = vec![DangerJson { lower: Some(1), upper: None, middle: Some(2), valid_day: None }];
    assert_eq!(
        AvalanchePostRequest::get_overall_danger(&danger),
        Err(NormalizeError::MissingDangerRating)
    );
}

#[test]
fn overall_danger_negative_rating_fails() {
    let danger = vec![DangerJson {
        lower: Some(-1),
        upper: Some(2),
        middle: Some(2),
        valid_day: None,
    }];
    assert_eq!(
        AvalanchePostRequest::get_overall_danger(&danger),
        Err(NormalizeError::DangerOutOfRange)
    );
}

#[test]
fn aspect_and_elevation_bits_accumulate() {
    let mut p = base_problem();
    p.location = vec!["north upper".to_string(), "northeast upper".to_string()];
    let cp = AvalancheProblem::from(&p).unwrap();
    assert_eq!(cp.aspects, 0x01 | 0x80);
    assert_eq!(cp.elevations, 0x04);
}

#[test]
fn descriptor_order_does_not_matter() {
    let mut p1 = base_problem();
    p1.location = vec![
        "north upper".to_string(),
        "southwest lower".to_string(),
        "east middle".to_string(),
    ];
    let mut p2 = base_problem();
    p2.location = vec![
        "east middle".to_string(),
        "north upper".to_string(),
        "southwest lower".to_string(),
    ];
    let c1 = AvalancheProblem::from(&p1).unwrap();
    let c2 = AvalancheProblem::from(&p2).unwrap();
    assert_eq!(c1.aspects, c2.aspects);
    assert_eq!(c1.elevations, c2.elevations);
}

#[test]
fn unrecognized_descriptor_tokens_are_ignored() {
    let mut p = base_problem();
    p.location = vec!["sideways nowhere".to_string(), "south lower".to_string()];
    let cp = AvalancheProblem::from(&p).unwrap();
    assert_eq!(cp.aspects, 0x10);
    assert_eq!(cp.elevations, 0x01);
}

#[test]
fn problem_vocabulary_is_total() {
    let names = vec![
        ("Wind Slab", 1),
        ("Storm Slab", 2),
        ("Persistent Slab", 3),
        ("Loose Dry", 4),
        ("Persistent Weak Layer", 5),
        ("Cornice Fall", 6),
        ("Glide", 7),
        ("Wet Loose", 8),
    ];
    for (name, ordinal) in names {
        let mut p = base_problem();
        p.name = Some(name.to_string());
        let cp = AvalancheProblem::from(&p).unwrap();
        assert_eq!(cp.problem_type, ordinal);
    }
}

#[test]
fn likelihood_vocabulary_is_total() {
    let names = vec![
        ("Unlikely", 1),
        ("Possible", 2),
        ("Likely", 3),
        ("Very Likely", 4),
        ("Certain", 5),
    ];
    for (name, ordinal) in names {
        let mut p = base_problem();
        p.likelihood = Some(name.to_string());
        let cp = AvalancheProblem::from(&p).unwrap();
        assert_eq!(cp.likelihood, ordinal);
    }
}

#[test]
fn unknown_problem_name_is_fatal() {
    let mut p = base_problem();
    p.name = Some("Space Slab".to_string());
    assert_eq!(AvalancheProblem::from(&p).unwrap_err(), NormalizeError::UnknownProblemType);
    let mut f = base_forecast();
    f.forecast_avalanche_problems = vec![p];
    assert_eq!(AvalanchePostRequest::from(&f).unwrap_err(), NormalizeError::UnknownProblemType);
}

#[test]
fn unknown_likelihood_is_fatal() {
    let mut p = base_problem();
    p.likelihood = Some("Inevitable".to_string());
    assert_eq!(AvalancheProblem::from(&p).unwrap_err(), NormalizeError::UnknownLikelihood);
    let mut f = base_forecast();
    f.forecast_avalanche_problems = vec![p];
    assert_eq!(AvalanchePostRequest::from(&f).unwrap_err(), NormalizeError::UnknownLikelihood);
}

#[test]
fn size_codes_map_and_unknown_pairs_fail() {
    let mut p = base_problem();
    p.size = vec!["1".to_string(), "2".to_string()];
    assert_eq!(AvalancheProblem::from(&p).unwrap().size, 0);
    p.size = vec!["2".to_string(), "3".to_string()];
    assert_eq!(AvalancheProblem::from(&p).unwrap().size, 1);
    p.size = vec!["3".to_string(), "4".to_string()];
    assert_eq!(AvalancheProblem::from(&p).unwrap().size, 2);
    p.size = vec!["9".to_string(), "9".to_string()];
    assert_eq!(AvalancheProblem::from(&p).unwrap_err(), NormalizeError::UnknownSizeCode);
    p.size = vec!["1".to_string()];
    assert_eq!(AvalancheProblem::from(&p).unwrap_err(), NormalizeError::MissingSizeCode);
}

#[test]
fn missing_name_or_likelihood_is_fatal() {
    let mut p = base_problem();
    p.name = None;
    assert_eq!(AvalancheProblem::from(&p).unwrap_err(), NormalizeError::MissingProblemName);
    let mut p = base_problem();
    p.likelihood = None;
    assert_eq!(AvalancheProblem::from(&p).unwrap_err(), NormalizeError::MissingLikelihood);
}

#[test]
fn full_scenario_normalizes_exactly() {
    let mut f = base_forecast();
    let mut p = base_problem();
    p.location = vec!["north upper".to_string(), "northeast upper".to_string()];
    f.forecast_avalanche_problems = vec![p];
    let fr = AvalanchePostRequest::from(&f).unwrap();
    assert_eq!(fr.zone_id, 1619);
    assert_eq!(fr.forecast_date.year, 2024);
    assert_eq!(fr.forecast_date.month, 1);
    assert_eq!(fr.forecast_date.day, 15);
    assert_eq!(fr.forecast_date.hour, 6);
    assert_eq!(fr.forecast_date.minute, 0);
    assert_eq!(fr.forecast_date.second, 0);
    assert_eq!(fr.bottom_line, "Moderate danger".to_string());
    assert_eq!(fr.overall_danger, 5);
    assert_eq!(fr.danger_above_treeline, 2);
    assert_eq!(fr.danger_at_treeline, 2);
    assert_eq!(fr.danger_below_treeling, 1);
    assert_eq!(fr.avalanche_problems.len(), 1);
    let cp = &fr.avalanche_problems[0];
    assert_eq!(cp.aspects, 0x01 | 0x80);
    assert_eq!(cp.elevations, 0x04);
    assert_eq!(cp.problem_type, 1);
    assert_eq!(cp.likelihood, 3);
    assert_eq!(cp.size, 0);
    assert_eq!(cp.additional_notes, String::new());
}

#[test]
fn missing_zone_is_fatal_never_zone_zero() {
    let mut f = base_forecast();
    f.forecast_zone = vec![];
    assert_eq!(AvalanchePostRequest::from(&f).unwrap_err(), NormalizeError::MissingZoneId);
    let mut f = base_forecast();
    f.forecast_zone[0].id = None;
    assert_eq!(AvalanchePostRequest::from(&f).unwrap_err(), NormalizeError::MissingZoneId);
}

#[test]
fn missing_or_malformed_timestamp_is_fatal() {
    let mut f = base_forecast();
    f.created_at = None;
    assert_eq!(AvalanchePostRequest::from(&f).unwrap_err(), NormalizeError::MissingCreatedAt);
    let mut f = base_forecast();
    f.created_at = Some("January 15, 2024".to_string());
    assert_eq!(AvalanchePostRequest::from(&f).unwrap_err(), NormalizeError::InvalidCreatedAt);
    let mut f = base_forecast();
    f.created_at = Some("2024-02-30 06:00:00".to_string());
    assert_eq!(AvalanchePostRequest::from(&f).unwrap_err(), NormalizeError::InvalidCreatedAt);
    let mut f = base_forecast();
    f.created_at = Some("2024-02-29 06:00:00".to_string());
    assert!(AvalanchePostRequest::from(&f).is_ok());
    let mut f = base_forecast();
    f.created_at = Some("2023-02-29 06:00:00".to_string());
    assert_eq!(AvalanchePostRequest::from(&f).unwrap_err(), NormalizeError::InvalidCreatedAt);
}

#[test]
fn missing_bottom_line_is_fatal() {
    let mut f = base_forecast();
    f.bottom_line = None;
    assert_eq!(AvalanchePostRequest::from(&f).unwrap_err(), NormalizeError::MissingBottomLine);
}

#[test]
fn discussion_is_the_one_tolerated_absence() {
    let mut p = base_problem();
    p.discussion = Some("Deep slab instability".to_string());
    assert_eq!(
        AvalancheProblem::from(&p).unwrap().additional_notes,
        "Deep slab instability".to_string()
    );
    let mut p = base_problem();
    p.discussion = None;
    assert_eq!(AvalancheProblem::from(&p).unwrap().additional_notes, String::new());
}
