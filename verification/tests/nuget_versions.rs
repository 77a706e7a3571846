use std::cmp::Ordering;

use csharp_plus::version::{cmp_prerelease_token, highest_version, NuGetVersion};

fn parse(input: &str) -> NuGetVersion {
    NuGetVersion::parse(input).expect("version should parse")
}

#[test]
fn parses_two_to_four_segments() {
    assert_eq!(parse("1").raw, "1");
    assert_eq!(parse("1.2").raw, "1.2");
    assert_eq!(parse("1.2.3").raw, "1.2.3");
    assert_eq!(parse("1.2.3.4").raw, "1.2.3.4");
    assert_eq!(parse("1.2.3-rc.1").raw, "1.2.3-rc.1");
    assert_eq!(parse("1.2.3.4-preview").raw, "1.2.3.4-preview");
}

#[test]
fn rejects_unparseable_versions() {
    assert!(NuGetVersion::parse("").is_none());
    assert!(NuGetVersion::parse("abc").is_none());
    assert!(NuGetVersion::parse("1.x.3").is_none());
    assert!(NuGetVersion::parse("1.2.3.4.5").is_none());
}

#[test]
fn orders_by_core_segments() {
    assert!(parse("1.2.3") < parse("1.2.4"));
    assert!(parse("1.2.9") < parse("1.3.0"));
    assert!(parse("1.9.9.9") < parse("2.0.0"));
    assert!(parse("1.2.3.9") < parse("1.2.4"));
    assert!(parse("1.2.3.4") < parse("1.2.3.5"));
}

#[test]
fn prerelease_orders_below_release() {
    assert!(parse("1.0.0-rc.1") < parse("1.0.0"));
    assert!(parse("1.0.0-beta") < parse("1.0.0-rc.1"));
}

#[test]
fn prerelease_tokens_compare_numerically_then_alphabetically() {
    assert!(parse("1.0.0-beta.1") < parse("1.0.0-beta.2"));
    assert!(parse("1.0.0-alpha") < parse("1.0.0-beta"));
    assert!(parse("1.0.0-1") < parse("1.0.0-alpha"));
    assert!(parse("1.0.0-RC1") == parse("1.0.0-rc1"));
}

#[test]
fn shorter_prerelease_orders_below_longer_equal_prefix() {
    assert!(parse("1.0.0-beta") < parse("1.0.0-beta.1"));
    assert!(parse("1.0.0-beta.1") < parse("1.0.0-beta.1.1"));
}

#[test]
fn max_picks_highest_version_ignoring_none() {
    let versions = [
        "5.0.0-preview.1",
        "4.2.1",
        "5.0.0",
        "not-a-version",
        "5.0.0-rc.2",
    ];
    let parsed: Vec<NuGetVersion> = versions
        .iter()
        .filter_map(|v| NuGetVersion::parse(v))
        .collect();
    let highest = highest_version(&parsed).map(|i| parsed[i].raw.clone());
    assert_eq!(highest.as_deref(), Some("5.0.0"));
}

#[test]
fn equality_is_total_order_equality() {
    assert_eq!(parse("1.2.3"), parse("1.2.3.0"));
    assert_ne!(parse("1.2.3"), parse("1.2.3-rc.1"));
}

#[test]
fn parse_fills_missing_segments_with_zero() {
    let v = parse("7.8");
    assert_eq!((v.major, v.minor, v.patch, v.revision), (7, 8, 0, 0));
    assert!(v.prerelease.is_none());
    let w = parse("1.2.3.4-rc.1-hotfix");
    assert_eq!((w.major, w.minor, w.patch, w.revision), (1, 2, 3, 4));
    assert_eq!(w.prerelease.as_deref(), Some("rc.1-hotfix"));
}

#[test]
fn parse_follows_u64_from_str() {
    assert_eq!(parse("+1.2").major, 1);
    assert_eq!(parse("007").major, 7);
    assert_eq!(parse("18446744073709551615").major, u64::MAX);
    assert!(NuGetVersion::parse("18446744073709551616").is_none());
    assert!(NuGetVersion::parse("1..2").is_none());
    assert!(NuGetVersion::parse("1.2.").is_none());
    assert!(NuGetVersion::parse("-1").is_none());
    assert!(NuGetVersion::parse(" 1").is_none());
    assert!(NuGetVersion::parse("+").is_none());
}

#[test]
fn prerelease_token_order() {
    assert_eq!(cmp_prerelease_token("2", "10"), Ordering::Less);
    assert_eq!(cmp_prerelease_token("01", "1"), Ordering::Equal);
    assert_eq!(cmp_prerelease_token("9", "a"), Ordering::Less);
    assert_eq!(cmp_prerelease_token("b", "A"), Ordering::Greater);
    assert_eq!(cmp_prerelease_token("Beta", "beta"), Ordering::Equal);
    assert_eq!(cmp_prerelease_token("18446744073709551616", "a"), Ordering::Less);
}

#[test]
fn order_is_antisymmetric_and_transitive_on_samples() {
    let samples = ["1.0.0-alpha", "1.0.0-alpha.1", "1.0.0-beta", "1.0.0", "1.0.1", "1.0.1.0"];
    for a in samples {
        for b in samples {
            let x = parse(a);
            let y = parse(b);
            assert_eq!(x.cmp(&y), y.cmp(&x).reverse());
            for c in samples {
                let z = parse(c);
                if x.cmp(&y) != Ordering::Greater && y.cmp(&z) != Ordering::Greater {
                    assert_ne!(x.cmp(&z), Ordering::Greater);
                }
            }
        }
    }
}

#[test]
fn highest_version_takes_the_last_of_equals() {
    let parsed = vec![parse("1.2"), parse("1.2.0"), parse("1.1")];
    assert_eq!(highest_version(&parsed), Some(1));
    let empty: Vec<NuGetVersion> = Vec::new();
    assert_eq!(highest_version(&empty), None);
}

#[test]
fn every_version_equals_itself() {
    for s in ["1", "1.0.0-Beta.2", "4.3.2.1", "0.0.0-a.b.c"] {
        assert_eq!(parse(s).cmp(&parse(s)), Ordering::Equal);
        assert!(parse(s) == parse(s));
    }
}
