use freesnow::datetime::{parse_date_time, ForecastDateTime};
use freesnow::text::{normalize_label, split_tokens, str_chars};

#[test]
fn labels_are_lowercased_and_stripped() {
    assert_eq!(normalize_label("Wind Slab"), vec!['w', 'i', 'n', 'd', 's', 'l', 'a', 'b']);
    assert_eq!(normalize_label("  Very\tLikely "), str_chars("verylikely"));
    assert_eq!(normalize_label(""), Vec::<char>::new());
}

#[test]
fn descriptors_split_on_whitespace() {
    let toks = split_tokens("north  upper");
    assert_eq!(toks.len(), 2);
    assert_eq!(toks[0], str_chars("north"));
    assert_eq!(toks[1], str_chars("upper"));
    assert_eq!(split_tokens("   ").len(), 0);
    assert_eq!(split_tokens("one two three").len(), 3);
}

#[test]
fn date_time_parses_the_exact_pattern() {
    let dt = parse_date_time(&str_chars("2024-01-15 06:00:00"), ' ').unwrap();
    assert_eq!(
        dt,
        ForecastDateTime { year: 2024, month: 1, day: 15, hour: 6, minute: 0, second: 0 }
    );
    assert_eq!(parse_date_time(&str_chars("2024-01-15T06:00:00"), 'T').unwrap(), dt);
    assert!(parse_date_time(&str_chars("2024-01-15T06:00:00"), ' ').is_none());
    assert!(parse_date_time(&str_chars("2024-13-15 06:00:00"), ' ').is_none());
    assert!(parse_date_time(&str_chars("2024-01-15 24:00:00"), ' ').is_none());
    assert!(parse_date_time(&str_chars("2024-01-15 06:00"), ' ').is_none());
    assert!(parse_date_time(&str_chars("2024-02-29 00:00:00"), ' ').is_some());
    assert!(parse_date_time(&str_chars("1900-02-29 00:00:00"), ' ').is_none());
    assert!(parse_date_time(&str_chars("2000-02-29 00:00:00"), ' ').is_some());
}
