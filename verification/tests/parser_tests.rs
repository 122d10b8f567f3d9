use slasshy::percent::parse_percent;
use slasshy::progress::{
    classify_progress_line, parse_progress, parse_progress_template, ParsedLine,
};

#[test]
fn template_line_parses_to_exact_fields() {
    let u = parse_progress_template("50.0%|10.5MiB/s|00:05|52.5MiB|105.0MiB").unwrap();
    assert_eq!(u.percent_centi, 5000);
    assert_eq!(u.speed, "10.5MiB/s");
    assert_eq!(u.eta, "00:05");
}

#[test]
fn template_line_with_spaces_and_na_markers() {
    let u = parse_progress_template("  3.2% | N/A | N/A |x|y").unwrap();
    assert_eq!(u.percent_centi, 320);
    assert_eq!(u.speed, "");
    assert_eq!(u.eta, "");
}

#[test]
fn template_line_with_too_few_fields_fails() {
    assert!(parse_progress_template("50.0%|10.5MiB/s").is_none());
    assert!(parse_progress_template("just text").is_none());
}

#[test]
fn template_line_with_unparsable_percent_fails() {
    assert!(parse_progress_template("abc|10.5MiB/s|00:05").is_none());
    assert!(parse_progress_template("|10.5MiB/s|00:05").is_none());
    assert!(parse_progress_template("1.2.3%|a|b").is_none());
}

#[test]
fn template_percent_is_clamped_into_range() {
    let over = parse_progress_template("150.0%|a|b").unwrap();
    assert_eq!(over.percent_centi, 10000);
    let under = parse_progress_template("-3.5%|a|b").unwrap();
    assert_eq!(under.percent_centi, 0);
}

#[test]
fn free_text_line_parses_to_exact_fields() {
    let u = parse_progress("[download]  50.0% of 100.00MiB at 10.00MiB/s ETA 00:05").unwrap();
    assert_eq!(u.percent_centi, 5000);
    assert_eq!(u.speed, "10.00MiB/s");
    assert_eq!(u.eta, "00:05");
}

#[test]
fn free_text_line_without_download_marker_fails() {
    assert!(parse_progress("  50.0% of 100.00MiB at 10.00MiB/s ETA 00:05").is_none());
}

#[test]
fn free_text_line_without_percent_token_fails() {
    assert!(parse_progress("[download] Destination: clip.mp4").is_none());
    assert!(parse_progress("[download] 50.0 of some file").is_none());
}

#[test]
fn free_text_line_without_speed_or_eta_markers_leaves_them_empty() {
    let u = parse_progress("[download] 12.5% of 4.00MiB").unwrap();
    assert_eq!(u.percent_centi, 1250);
    assert_eq!(u.speed, "");
    assert_eq!(u.eta, "");
}

#[test]
fn classification_prefers_the_template_strategy() {
    let r = classify_progress_line("50.0%|10.5MiB/s|00:05|52.5MiB|105.0MiB");
    match r {
        ParsedLine::Update(u) => {
            assert_eq!(u.percent_centi, 5000);
            assert_eq!(u.speed, "10.5MiB/s");
        },
        _ => panic!("expected an update"),
    }
}

#[test]
fn merger_line_with_no_percent_classifies_as_merge() {
    let r = classify_progress_line("[Merger] Merging formats into \"clip.mp4\"");
    assert!(matches!(r, ParsedLine::Merge));
    let r = classify_progress_line("[ExtractAudio] Destination: clip.mp3");
    assert!(matches!(r, ParsedLine::Merge));
    let r = classify_progress_line("[ffmpeg] fixing container");
    assert!(matches!(r, ParsedLine::Merge));
}

#[test]
fn unrelated_line_classifies_as_ignore() {
    let r = classify_progress_line("[info] Downloading webpage");
    assert!(matches!(r, ParsedLine::Ignore));
    let r = classify_progress_line("");
    assert!(matches!(r, ParsedLine::Ignore));
}

#[test]
fn percent_numeral_grammar() {
    assert_eq!(parse_percent("50.0"), Some(5000));
    assert_eq!(parse_percent("100"), Some(10000));
    assert_eq!(parse_percent("0"), Some(0));
    assert_eq!(parse_percent(".5"), Some(50));
    assert_eq!(parse_percent("5."), Some(500));
    assert_eq!(parse_percent("12.345"), Some(1234));
    assert_eq!(parse_percent("99.99"), Some(9999));
    assert_eq!(parse_percent("100.5"), Some(10000));
    assert_eq!(parse_percent("1234567890123456789012345"), Some(10000));
    assert_eq!(parse_percent("-5"), Some(0));
    assert_eq!(parse_percent("-0.0"), Some(0));
    assert_eq!(parse_percent(""), None);
    assert_eq!(parse_percent("-"), None);
    assert_eq!(parse_percent("."), None);
    assert_eq!(parse_percent("-."), None);
    assert_eq!(parse_percent("1.2.3"), None);
    assert_eq!(parse_percent("1-2"), None);
    assert_eq!(parse_percent("--1"), None);
    assert_eq!(parse_percent("12a"), None);
}
