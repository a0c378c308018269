use nqrust_installer::version::{
    determine_latest_release_tag, latest_release_index, Precedence, ReleaseVersion,
};

fn tags(list: &[&str]) -> Vec<String> {
    list.iter().map(|t| t.to_string()).collect()
}

#[test]
fn latest_release_is_the_maximum_by_version_not_by_text() {
    assert_eq!(
        determine_latest_release_tag(&tags(&["1.2.0", "1.10.0", "1.9.9"])),
        Some("1.10.0".to_string())
    );
}

#[test]
fn latest_release_does_not_depend_on_the_order_of_the_tags() {
    let orders: [[&str; 3]; 6] = [
        ["1.2.0", "1.10.0", "1.9.9"],
        ["1.2.0", "1.9.9", "1.10.0"],
        ["1.10.0", "1.2.0", "1.9.9"],
        ["1.10.0", "1.9.9", "1.2.0"],
        ["1.9.9", "1.2.0", "1.10.0"],
        ["1.9.9", "1.10.0", "1.2.0"],
    ];
    for order in orders {
        assert_eq!(determine_latest_release_tag(&tags(&order)), Some("1.10.0".to_string()));
    }
}

#[test]
fn tags_that_are_no_version_are_passed_over() {
    assert_eq!(
        determine_latest_release_tag(&tags(&["latest", "main", "v0.3.1", "sha-abc", "0.3.0"])),
        Some("v0.3.1".to_string())
    );
    assert_eq!(determine_latest_release_tag(&tags(&["latest", "1.0", "1", "x.y.z"])), None);
    assert_eq!(determine_latest_release_tag(&tags(&[])), None);
    assert_eq!(latest_release_index(&tags(&["latest", "2.0.0", "10.0.0"])), Some(2));
    assert_eq!(latest_release_index(&tags(&["latest"])), None);
}

#[test]
fn one_leading_v_is_set_aside() {
    assert!(ReleaseVersion::of_tag("v1.2.3").is_some());
    assert!(ReleaseVersion::of_tag("1.2.3").is_some());
    assert!(ReleaseVersion::of_tag("vv1.2.3").is_none());
    assert!(ReleaseVersion::of_tag("V1.2.3").is_none());
    assert!(ReleaseVersion::of_tag("v").is_none());
    assert!(ReleaseVersion::of_tag("").is_none());
    assert!(ReleaseVersion::parse("v1.2.3").is_none());
    assert!(ReleaseVersion::parse("1.2.3").is_some());
}

#[test]
fn parsed_versions_show_their_parts() {
    let v = ReleaseVersion::of_tag("v12.34.56-rc.1+build.7").unwrap();
    assert_eq!(v.major_number(), 12);
    assert_eq!(v.minor_number(), 34);
    assert_eq!(v.patch_number(), 56);
    assert_eq!(v.pre_release_text(), "rc.1");
    let r = ReleaseVersion::parse("1.0.0").unwrap();
    assert_eq!(r.pre_release_text(), "");
    let z = ReleaseVersion::zero();
    assert_eq!((z.major_number(), z.minor_number(), z.patch_number()), (0, 0, 0));
    assert_eq!(z.pre_release_text(), "");
}

#[test]
fn first_of_equal_versions_is_chosen() {
    assert_eq!(
        determine_latest_release_tag(&tags(&["1.2.0", "v1.2.0", "1.1.0"])),
        Some("1.2.0".to_string())
    );
    assert_eq!(
        determine_latest_release_tag(&tags(&["v1.2.0", "1.2.0"])),
        Some("v1.2.0".to_string())
    );
    assert_eq!(
        determine_latest_release_tag(&tags(&["1.2.0+a", "1.2.0+b"])),
        Some("1.2.0+a".to_string())
    );
}

#[test]
fn a_release_outranks_its_pre_releases() {
    assert_eq!(
        determine_latest_release_tag(&tags(&["1.0.0-rc.1", "1.0.0", "1.0.0-beta"])),
        Some("1.0.0".to_string())
    );
    assert_eq!(
        determine_latest_release_tag(&tags(&["1.0.0-alpha", "1.0.0-alpha.1", "1.0.0-beta.2", "1.0.0-beta.11"])),
        Some("1.0.0-beta.11".to_string())
    );
}

#[test]
fn rank_against_compares_by_precedence() {
    let a = ReleaseVersion::parse("1.9.9").unwrap();
    let b = ReleaseVersion::parse("1.10.0").unwrap();
    let c = ReleaseVersion::parse("1.10.0+build").unwrap();
    let d = ReleaseVersion::parse("1.10.0-rc.1").unwrap();
    assert_eq!(a.rank_against(&b), Precedence::Lower);
    assert_eq!(b.rank_against(&a), Precedence::Higher);
    assert_eq!(b.rank_against(&b), Precedence::Same);
    assert_eq!(b.rank_against(&c), Precedence::Same);
    assert_eq!(d.rank_against(&b), Precedence::Lower);
    assert_eq!(d.rank_against(&a), Precedence::Higher);
    assert!(b.outranks(&a));
    assert!(!a.outranks(&b));
    assert!(!b.outranks(&c));
    assert!(a.outranks(&ReleaseVersion::zero()));
    assert!(!ReleaseVersion::zero().outranks(&ReleaseVersion::zero()));
}
