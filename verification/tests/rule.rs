use html_rewriter::rule::upgrade_scheme;

#[test]
fn scheme_at_the_start_is_upgraded() {
    assert_eq!(upgrade_scheme("http://example.com"), "https://example.com");
}

#[test]
fn every_occurrence_is_upgraded() {
    assert_eq!(upgrade_scheme("http://x.com/http:path"), "https://x.com/https:path");
}

#[test]
fn occurrence_in_the_middle_is_upgraded() {
    assert_eq!(upgrade_scheme("/go?to=http://a.b"), "/go?to=https://a.b");
}

#[test]
fn adjacent_occurrences_are_upgraded() {
    assert_eq!(upgrade_scheme("http:http:"), "https:https:");
}

#[test]
fn value_without_scheme_is_kept() {
    assert_eq!(upgrade_scheme("/relative/path"), "/relative/path");
    assert_eq!(upgrade_scheme("mailto:someone@example.com"), "mailto:someone@example.com");
}

#[test]
fn empty_value_is_kept() {
    assert_eq!(upgrade_scheme(""), "");
}

#[test]
fn secure_scheme_is_kept() {
    assert_eq!(upgrade_scheme("https://example.com"), "https://example.com");
}

#[test]
fn scheme_is_matched_by_case() {
    assert_eq!(upgrade_scheme("HTTP://example.com"), "HTTP://example.com");
    assert_eq!(upgrade_scheme("Http:x"), "Http:x");
}

#[test]
fn cut_off_scheme_is_kept() {
    assert_eq!(upgrade_scheme("http"), "http");
    assert_eq!(upgrade_scheme("http//x"), "http//x");
    assert_eq!(upgrade_scheme("x/htt"), "x/htt");
}

#[test]
fn scheme_after_a_false_start_is_upgraded() {
    assert_eq!(upgrade_scheme("hhttp:"), "hhttps:");
    assert_eq!(upgrade_scheme("hthttp:x"), "hthttps:x");
    assert_eq!(upgrade_scheme("httphttp:"), "httphttps:");
}

#[test]
fn text_beyond_ascii_is_kept() {
    assert_eq!(upgrade_scheme("http://exämple.com/päth"), "https://exämple.com/päth");
    assert_eq!(upgrade_scheme("\u{1F600}http:\u{1F600}"), "\u{1F600}https:\u{1F600}");
}

#[test]
fn text_around_an_occurrence_is_rewritten_on_its_own() {
    let before = "see http://a and ";
    let after = " or http://b";
    let whole = format!("{}http:{}", before, after);
    let parts = format!("{}https:{}", upgrade_scheme(before), upgrade_scheme(after));
    assert_eq!(upgrade_scheme(&whole), parts);
    assert_eq!(parts, "see https://a and https: or https://b");
}

#[test]
fn upgraded_value_holds_no_insecure_scheme() {
    let out = upgrade_scheme("http:http://http:/hhttp:http");
    assert_eq!(out, "https:https://https:/hhttps:http");
    assert!(!out.contains("http:"));
}

#[test]
fn upgrading_twice_changes_nothing() {
    let once = upgrade_scheme("a http://x b http:y");
    assert_eq!(upgrade_scheme(&once), once);
}
