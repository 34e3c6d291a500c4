use marathon_cloud::filtering::convert::parse_values_content;
use marathon_cloud::filtering::convert::resolve_filter_values;
use marathon_cloud::filtering::convert::strip_comment;
use marathon_cloud::filtering::convert::validate;
use marathon_cloud::filtering::convert::validate_filter;
use marathon_cloud::filtering::convert::validate_filters;
use marathon_cloud::filtering::convert::xctestplan_ids_to_filter;
use marathon_cloud::filtering::convert::xctestplan_to_marathonfile;
use marathon_cloud::filtering::model::Filter;
use marathon_cloud::filtering::model::FilteringConfiguration;
use marathon_cloud::filtering::xctestplan::SparseTestPlan;
use marathon_cloud::filtering::xctestplan::Target;
use marathon_cloud::filtering::xctestplan::TestTarget;

fn leaf_filter(mtype: &str) -> Filter {
    Filter {
        mtype: mtype.to_string(),
        regex: Some(".*Test".to_string()),
        values: None,
        file: None,
        filters: None,
        op: None,
    }
}

fn values_filter(mtype: &str, values: Vec<&str>) -> Filter {
    Filter {
        mtype: mtype.to_string(),
        regex: None,
        values: Some(values.into_iter().map(|v| v.to_string()).collect()),
        file: None,
        filters: None,
        op: None,
    }
}

#[test]
fn test_validate_accepts_simple_allowlist() {
    let cnf = FilteringConfiguration {
        allowlist: Some(vec![leaf_filter("fully-qualified-test-name")]),
        blocklist: None,
    };
    let content = "filteringConfiguration:\n  allowlist:\n    - type: fully-qualified-test-name\n      regex: \".*Test\"\n";
    assert!(validate(content, &cnf).is_ok());
}

#[test]
fn test_validate_requires_mandatory_sections() {
    let cnf = FilteringConfiguration {
        allowlist: None,
        blocklist: None,
    };
    assert!(validate("something: else", &cnf).is_err());
    assert!(validate("filteringConfiguration:\n  other: x", &cnf).is_err());
}

#[test]
fn test_validate_filter_rejects_unsupported_and_unknown_types() {
    assert!(validate_filter(&leaf_filter("allure")).is_err());
    assert!(validate_filter(&leaf_filter("fragmentation")).is_err());
    assert!(validate_filter(&leaf_filter("no-such-type")).is_err());
    assert!(validate_filter(&leaf_filter("method")).is_ok());
    assert!(validate_filter(&leaf_filter("simple-test-name")).is_ok());
}

#[test]
fn test_validate_filter_wants_exactly_one_field() {
    let mut both = leaf_filter("method");
    both.values = Some(vec!["a".to_string()]);
    assert!(validate_filter(&both).is_err());

    let mut none = leaf_filter("method");
    none.regex = None;
    assert!(validate_filter(&none).is_err());

    let mut file_based = leaf_filter("method");
    file_based.regex = None;
    file_based.file = Some("values.txt".to_string());
    assert!(validate_filter(&file_based).is_ok());

    file_based.file = Some("/absolute/values.txt".to_string());
    assert!(validate_filter(&file_based).is_err());
}

#[test]
fn test_validate_filters_checks_composition() {
    let composition = Filter {
        mtype: "composition".to_string(),
        regex: None,
        values: None,
        file: None,
        filters: Some(vec![
            leaf_filter("method"),
            values_filter("annotation", vec!["com.example.MyAnnotation"]),
        ]),
        op: Some("UNION".to_string()),
    };
    assert!(validate_filters(&vec![composition]).is_ok());

    let missing_op = Filter {
        mtype: "composition".to_string(),
        regex: None,
        values: None,
        file: None,
        filters: Some(vec![leaf_filter("method")]),
        op: None,
    };
    assert!(validate_filters(&vec![missing_op]).is_err());

    let empty_op = Filter {
        mtype: "composition".to_string(),
        regex: None,
        values: None,
        file: None,
        filters: None,
        op: Some("UNION".to_string()),
    };
    assert!(validate_filters(&vec![empty_op]).is_err());
}

#[test]
fn test_strip_comment_removes_trailing_comment() {
    assert_eq!(strip_comment("com.example.test1   # first test"), "com.example.test1".to_string());
    assert_eq!(strip_comment("com.example.test2"), "com.example.test2".to_string());
    assert_eq!(strip_comment("no#comment-here"), "no#comment-here".to_string());
}

#[test]
fn test_parse_values_content_skips_blanks_and_comments() {
    let content = "com.example.test1\n# a full comment line\n\n  com.example.test2  \nClassName#test4 \t# trailing words\n";
    let values = parse_values_content(content);
    assert_eq!(
        values,
        vec![
            "com.example.test1".to_string(),
            "com.example.test2".to_string(),
            "ClassName#test4".to_string(),
        ]
    );
}

#[test]
fn test_resolve_filter_values_replaces_the_file() {
    let mut f = leaf_filter("method");
    f.regex = None;
    f.file = Some("values.txt".to_string());
    let resolved = resolve_filter_values(f, vec!["a".to_string(), "b".to_string()]);
    assert_eq!(resolved.values, Some(vec!["a".to_string(), "b".to_string()]));
    assert_eq!(resolved.file, None);
    assert_eq!(resolved.mtype, "method".to_string());
}

#[test]
fn test_xctestplan_ids_mix_classes_and_tests() {
    let ids = vec![
        "CrashingTests".to_string(),
        "MoreTests\\/testDismissModal".to_string(),
        "SlowTests/testTextSlow1()".to_string(),
    ];
    let filter = xctestplan_ids_to_filter(&ids);
    assert_eq!(filter.mtype, "composition".to_string());
    assert_eq!(filter.op, Some("UNION".to_string()));
    let parts = filter.filters.unwrap();
    assert_eq!(parts.len(), 2);
    assert_eq!(parts[0].mtype, "simple-class-name".to_string());
    assert_eq!(parts[0].values, Some(vec!["CrashingTests".to_string()]));
    assert_eq!(parts[1].mtype, "simple-test-name".to_string());
    assert_eq!(
        parts[1].values,
        Some(vec![
            "MoreTests#testDismissModal".to_string(),
            "SlowTests#testTextSlow1".to_string(),
        ])
    );
}

#[test]
fn test_xctestplan_ids_classes_only() {
    let filter = xctestplan_ids_to_filter(&vec!["OnlyClasses".to_string()]);
    assert_eq!(filter.mtype, "simple-class-name".to_string());
    assert_eq!(filter.values, Some(vec!["OnlyClasses".to_string()]));
    assert_eq!(filter.filters, None);
}

fn target(name: &str, selected: Option<Vec<&str>>, skipped: Option<Vec<&str>>) -> TestTarget {
    TestTarget {
        parallelizable: None,
        skipped_tests: skipped.map(|v| v.into_iter().map(|s| s.to_string()).collect()),
        selected_tests: selected.map(|v| v.into_iter().map(|s| s.to_string()).collect()),
        target: Target {
            container_path: "container".to_string(),
            identifier: "id".to_string(),
            name: name.to_string(),
        },
        enabled: None,
    }
}

#[test]
fn test_xctestplan_to_marathonfile_builds_blocklist() {
    let plan = SparseTestPlan {
        configurations: vec![],
        test_targets: vec![target(
            "MyTarget",
            None,
            Some(vec!["CrashingTests", "MoreTests\\/testDismissModal"]),
        )],
    };
    let m = xctestplan_to_marathonfile(&plan, None).unwrap();
    assert!(m.filtering_configuration.allowlist.is_none());
    let blocklist = m.filtering_configuration.blocklist.unwrap();
    assert_eq!(blocklist.len(), 1);
    assert_eq!(blocklist[0].mtype, "composition".to_string());
}

#[test]
fn test_xctestplan_to_marathonfile_selects_target_by_name() {
    let plan = SparseTestPlan {
        configurations: vec![],
        test_targets: vec![
            target("First", Some(vec!["A"]), None),
            target("Second", Some(vec!["B"]), None),
        ],
    };
    let m = xctestplan_to_marathonfile(&plan, Some("Second".to_string())).unwrap();
    let allowlist = m.filtering_configuration.allowlist.unwrap();
    assert_eq!(allowlist[0].values, Some(vec!["B".to_string()]));

    assert!(xctestplan_to_marathonfile(&plan, Some("Missing".to_string())).is_err());
    let empty = SparseTestPlan {
        configurations: vec![],
        test_targets: vec![],
    };
    assert!(xctestplan_to_marathonfile(&empty, None).is_err());
}
