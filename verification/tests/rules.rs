use signature_patcher::pattern::{patterns, select_rule};

#[test]
fn table_holds_rule_a() {
    let rule = patterns()[0];
    assert_eq!(rule.description, "Recent major release A");
    assert_eq!((rule.build_min, rule.build_max), (26100, 99999));
    assert_eq!(
        rule.search,
        &[0x8B, 0x81, 0x38, 0x06, 0x00, 0x00, 0x39, 0x81, 0x3C, 0x06, 0x00, 0x00, 0x75]
    );
    assert_eq!(
        rule.replace,
        &[0xB8, 0x00, 0x01, 0x00, 0x00, 0x89, 0x81, 0x38, 0x06, 0x00, 0x00, 0x90, 0xEB]
    );
}

#[test]
fn table_holds_rule_b() {
    let rule = patterns()[1];
    assert_eq!(rule.description, "Mid-generation release B");
    assert_eq!((rule.build_min, rule.build_max), (9600, 26099));
    assert_eq!(rule.search, &[0x39, 0x81, 0x3C, 0x06, 0x00, 0x00, 0x0F]);
    assert_eq!(rule.replace, &[0xB8, 0x00, 0x01, 0x00, 0x00, 0x89, 0x81]);
}

#[test]
fn table_holds_rule_c() {
    let rule = patterns()[2];
    assert_eq!(rule.description, "Legacy release C");
    assert_eq!((rule.build_min, rule.build_max), (7600, 9599));
    assert_eq!(rule.search, &[0x39, 0x87, 0x3C, 0x06, 0x00, 0x00, 0x0F]);
    assert_eq!(rule.replace, &[0xB8, 0x00, 0x01, 0x00, 0x00, 0x90, 0x89]);
}

#[test]
fn every_rule_overwrites_in_place() {
    assert_eq!(patterns().len(), 3);
    for rule in patterns() {
        assert_eq!(rule.search.len(), rule.replace.len());
        assert!(!rule.search.is_empty());
        assert!(rule.build_min <= rule.build_max);
    }
}

#[test]
fn select_rule_at_the_edges_of_the_ranges() {
    assert!(select_rule(0).is_none());
    assert!(select_rule(7599).is_none());
    assert_eq!(select_rule(7600).unwrap().description, "Legacy release C");
    assert_eq!(select_rule(9599).unwrap().description, "Legacy release C");
    assert_eq!(select_rule(9600).unwrap().description, "Mid-generation release B");
    assert_eq!(select_rule(26099).unwrap().description, "Mid-generation release B");
    assert_eq!(select_rule(26100).unwrap().description, "Recent major release A");
    assert_eq!(select_rule(99999).unwrap().description, "Recent major release A");
    assert!(select_rule(100000).is_none());
    assert!(select_rule(u32::MAX).is_none());
}

#[test]
fn select_rule_is_the_same_on_every_call() {
    for build in [0u32, 7600, 9000, 19045, 22631, 26100, 26200, 99999, 100000] {
        let first = select_rule(build);
        let second = select_rule(build);
        match (first, second) {
            (None, None) => {}
            (Some(a), Some(b)) => {
                assert_eq!(a.description, b.description);
                assert_eq!(a.build_min, b.build_min);
                assert_eq!(a.build_max, b.build_max);
                assert_eq!(a.search, b.search);
                assert_eq!(a.replace, b.replace);
            }
            _ => panic!("the two choices for build {} differ", build),
        }
    }
}

#[test]
fn selected_rule_covers_the_build() {
    for build in [7600u32, 8000, 9600, 10240, 19045, 26099, 26100, 50000] {
        let rule = select_rule(build).unwrap();
        assert!(rule.build_min <= build && build <= rule.build_max);
    }
}
