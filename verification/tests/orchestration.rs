use rhai::Engine;
use tlint::cli::{exit_code, exit_code_of, is_check_extension, is_directory, normalize_rules, ArgValidator};
use tlint::dsl::types::{failures, into_result, ValidationDiagnostic, Validator};
use tlint::dsl::validation::{get_json_schema, is_enabled, validate, EnabledValidator};
use tlint::validators::expectation_validator::ExpectationValidator;
use tlint::validators::link_validator::{LinkCheck, LinkValidator};
use tlint::validators::schema_validator::SchemaValidator;
use tlint::validators::value_validator::{validate_values, ValueValidator};
use tlint::www::{decode_failure, lint_report};

const EVERYTHING_WRONG: &str = r#"
    id: 156F64
    name: Corosync configuration file
    group: Corosync
    description: |
      Corosync `token` timeout is set to expected value
    remediation: |
      ## Remediation
      ...
    unknown: 1
    facts:
      - name: corosync_token_timeout
        gatherer: corosync.conf
    values:
      - name: expected_token_timeout
        default: 5000
        conditions:
          - value: 30000
            when: kekw?
    expectations:
      - name: timeout
        expect: kekw?
"#;

fn document(yaml: &str) -> serde_json::Value {
    serde_yaml::from_str(yaml).expect("Unable to parse yaml")
}

fn broken_link() -> LinkValidator {
    LinkValidator {
        checks: vec![LinkCheck::Failed {
            error: "no network".to_string(),
        }],
    }
}

fn parts(diagnostic: &ValidationDiagnostic) -> (bool, String, String, String) {
    match diagnostic {
        ValidationDiagnostic::Warning {
            check_id,
            message,
            instance_path,
        } => (false, check_id.clone(), message.clone(), instance_path.clone()),
        ValidationDiagnostic::Critical {
            check_id,
            message,
            instance_path,
        } => (true, check_id.clone(), message.clone(), instance_path.clone()),
    }
}

fn paths(enabled: &[EnabledValidator]) -> Vec<String> {
    let schema = get_json_schema().unwrap();
    let engine = Engine::new();
    match validate(
        &document(EVERYTHING_WRONG),
        "156F64",
        &schema,
        &engine,
        &broken_link(),
        &enabled.to_vec(),
    ) {
        Ok(()) => vec![],
        Err(diagnostics) => diagnostics.iter().map(|d| parts(d).3).collect(),
    }
}

#[test]
fn validators_run_in_a_fixed_order_whatever_the_order_of_the_rules() {
    let expected = vec!["/expectations/0", "N/A", "", "/values/0/conditions/0"];
    assert_eq!(
        paths(&[
            EnabledValidator::Expectation,
            EnabledValidator::Link,
            EnabledValidator::Schema,
            EnabledValidator::Value
        ]),
        expected
    );
    assert_eq!(
        paths(&[
            EnabledValidator::Value,
            EnabledValidator::Schema,
            EnabledValidator::Link,
            EnabledValidator::Expectation,
            EnabledValidator::Value
        ]),
        expected
    );
}

#[test]
fn only_enabled_validators_run() {
    assert!(paths(&[]).is_empty());
    assert_eq!(paths(&[EnabledValidator::Expectation]), vec!["/expectations/0"]);
    assert_eq!(paths(&[EnabledValidator::Link]), vec!["N/A"]);
    assert_eq!(paths(&[EnabledValidator::Schema]), vec![""]);
    assert_eq!(paths(&[EnabledValidator::Value]), vec!["/values/0/conditions/0"]);
    assert_eq!(
        paths(&[EnabledValidator::Schema, EnabledValidator::Expectation]),
        vec!["/expectations/0", ""]
    );
}

#[test]
fn validating_twice_gives_identical_diagnostics() {
    let schema = get_json_schema().unwrap();
    let engine = Engine::new();
    let json = document(EVERYTHING_WRONG);
    let enabled = vec![
        EnabledValidator::Expectation,
        EnabledValidator::Link,
        EnabledValidator::Schema,
        EnabledValidator::Value,
    ];
    let first = validate(&json, "156F64", &schema, &engine, &broken_link(), &enabled);
    let second = validate(&json, "156F64", &schema, &engine, &broken_link(), &enabled);
    assert!(first.is_err());
    assert_eq!(format!("{:?}", first), format!("{:?}", second));
    let other_schema = get_json_schema().unwrap();
    let other_engine = Engine::new();
    let third = validate(&json, "156F64", &other_schema, &other_engine, &broken_link(), &enabled);
    assert_eq!(format!("{:?}", first), format!("{:?}", third));
}

#[test]
fn validators_agree_with_the_functions_behind_them() {
    let schema = get_json_schema().unwrap();
    let engine = Engine::new();
    let json = document(EVERYTHING_WRONG);
    assert_eq!(ExpectationValidator { engine: &engine }.validate(&json, "X").len(), 1);
    assert_eq!(SchemaValidator { schema: &schema }.validate(&json, "X").len(), 1);
    assert_eq!(ValueValidator { engine: &engine }.validate(&json, "X").len(), 1);
    assert_eq!(
        parts(&broken_link().validate(&json, "X")[0]),
        (
            true,
            "X".to_string(),
            "Failed to validate link in check: no network".to_string(),
            "N/A".to_string()
        )
    );
}

#[test]
fn crate_level_validate_runs_the_offline_validators() {
    let schema = get_json_schema().unwrap();
    let engine = Engine::new();
    let diagnostics =
        tlint::validate(&document(EVERYTHING_WRONG), "156F64", &schema, &engine).unwrap_err();
    let found: Vec<String> = diagnostics.iter().map(|d| parts(d).3).collect();
    assert_eq!(found, vec!["/expectations/0", "", "/values/0/conditions/0"]);
    let fine = EVERYTHING_WRONG
        .replace("kekw?", "facts.a == 1")
        .replace("    unknown: 1\n", "");
    assert!(tlint::validate(&document(&fine), "156F64", &schema, &engine).is_ok());
}

#[test]
fn conditions_are_reported_with_both_indices() {
    let json = document(
        r#"
        values:
          - name: fine
            default: 1
          - name: second
            default: 2
            conditions:
              - value: 1
                when: env.a == 1
              - value: 2
                when: kekw?
              - value: 3
              - value: 4
                when: 12
              - value: 5
                when: also kekw?
        "#,
    );
    let engine = Engine::new();
    let diagnostics = validate_values(&json, "V1", &engine);
    let found: Vec<(bool, String, String)> = diagnostics
        .iter()
        .map(|d| {
            let (critical, check_id, _, path) = parts(d);
            (critical, check_id, path)
        })
        .collect();
    assert_eq!(
        found,
        vec![
            (true, "V1".to_string(), "/values/1/conditions/1".to_string()),
            (true, "V1".to_string(), "/values/1/conditions/4".to_string()),
        ]
    );
    assert_eq!(parts(&diagnostics[0]).2, "Unknown operator: '?' (line 1, position 5)");
}

#[test]
fn document_without_values_array_has_no_findings() {
    let engine = Engine::new();
    assert!(validate_values(&document("id: x"), "id", &engine).is_empty());
    assert!(validate_values(&document("values: 5"), "id", &engine).is_empty());
    assert!(validate_values(&document("values: [{conditions: 5}, 7]"), "id", &engine).is_empty());
}

#[test]
fn link_outcomes_become_diagnostics() {
    let checked = |success: bool, details: Option<&str>, unsupported: bool| LinkCheck::Checked {
        source: "https://example.org/x".to_string(),
        success,
        details: details.map(|text| text.to_string()),
        unsupported,
        code: "404".to_string(),
    };
    let validator = LinkValidator {
        checks: vec![
            checked(true, Some("ignored"), true),
            checked(false, Some("Not Found"), true),
            checked(false, None, true),
            LinkCheck::Failed {
                error: "builder failed".to_string(),
            },
            checked(false, None, false),
        ],
    };
    let diagnostics = validator.validate(&document("id: x"), "L1");
    let found: Vec<(bool, String, String, String)> = diagnostics.iter().map(parts).collect();
    let expected: Vec<(bool, String, String, String)> = vec![
        (false, "Invalid link (https://example.org/x): Not Found"),
        (false, "Invalid link (https://example.org/x): Unsupported Format"),
        (true, "Failed to validate link in check: builder failed"),
        (false, "Invalid link (https://example.org/x): 404"),
    ]
    .into_iter()
    .map(|(critical, message)| (critical, "L1".to_string(), message.to_string(), "N/A".to_string()))
    .collect();
    assert_eq!(found, expected);
    let nothing = LinkValidator { checks: vec![] };
    assert!(nothing.validate(&document("id: x"), "L1").is_empty());
}

#[test]
fn links_are_taken_from_remediation_then_description() {
    let json = document(
        r#"
        description: |
          See https://example.org/description for more.
        remediation: |
          ## Abstract
          Read [the guide](https://example.org/guide).
          Then https://example.org/second
        name: https://example.org/not-looked-at
        "#,
    );
    assert_eq!(
        LinkValidator::links(&json),
        vec![
            "https://example.org/guide",
            "https://example.org/second",
            "https://example.org/description"
        ]
    );
    assert!(LinkValidator::links(&document("id: x")).is_empty());
}

#[test]
fn is_enabled_looks_for_the_validator() {
    let enabled = vec![EnabledValidator::Schema, EnabledValidator::Value];
    assert!(is_enabled(&enabled, EnabledValidator::Schema));
    assert!(is_enabled(&enabled, EnabledValidator::Value));
    assert!(!is_enabled(&enabled, EnabledValidator::Link));
    assert!(!is_enabled(&vec![], EnabledValidator::Link));
}

#[test]
fn all_rule_enables_every_validator() {
    let all = vec![
        EnabledValidator::Expectation,
        EnabledValidator::Link,
        EnabledValidator::Schema,
        EnabledValidator::Value,
    ];
    assert_eq!(normalize_rules(vec![ArgValidator::All]), all);
    assert_eq!(normalize_rules(vec![ArgValidator::Schema, ArgValidator::All]), all);
}

#[test]
fn named_rules_enable_what_they_name() {
    assert_eq!(
        normalize_rules(vec![ArgValidator::Value, ArgValidator::Schema, ArgValidator::Value]),
        vec![EnabledValidator::Value, EnabledValidator::Schema, EnabledValidator::Value]
    );
    assert_eq!(normalize_rules(vec![ArgValidator::Link]), vec![EnabledValidator::Link]);
    assert_eq!(
        normalize_rules(vec![ArgValidator::Expectation]),
        vec![EnabledValidator::Expectation]
    );
    assert!(normalize_rules(vec![]).is_empty());
    assert_eq!(Option::<EnabledValidator>::from(ArgValidator::All), None);
    assert_eq!(
        Option::<EnabledValidator>::from(ArgValidator::Link),
        Some(EnabledValidator::Link)
    );
}

#[test]
fn sweep_exit_code_is_zero_only_without_any_error() {
    let warning = || ValidationDiagnostic::Warning {
        check_id: "id".to_string(),
        message: "m".to_string(),
        instance_path: "/p".to_string(),
    };
    assert_eq!(exit_code(&vec![], &vec![]), 0);
    assert_eq!(exit_code(&vec![], &vec![Ok(()), Ok(())]), 0);
    assert_eq!(exit_code(&vec!["missing field `id`".to_string()], &vec![Ok(())]), 1);
    assert_eq!(exit_code(&vec![], &vec![Ok(()), Err(vec![warning()]), Ok(())]), 1);
    assert_eq!(exit_code(&vec!["e".to_string()], &vec![Err(vec![warning()])]), 1);
    assert_eq!(exit_code_of(&Ok(())), 0);
    assert_eq!(exit_code_of(&Err(vec![warning()])), 1);
}

#[test]
fn check_files_end_in_yml_or_yaml() {
    assert!(is_check_extension(Some("yml")));
    assert!(is_check_extension(Some("yaml")));
    assert!(!is_check_extension(Some("YML")));
    assert!(!is_check_extension(Some("json")));
    assert!(!is_check_extension(Some("")));
    assert!(!is_check_extension(None));
}

#[test]
fn no_argument_names_no_directory() {
    assert!(!is_directory(None));
    assert!(is_directory(Some("/".to_string())));
    assert!(!is_directory(Some("/this/path/does/not/exist".to_string())));
}

#[test]
fn result_is_ok_exactly_for_an_empty_list() {
    assert!(into_result(vec![]).is_ok());
    let one = vec![ValidationDiagnostic::Critical {
        check_id: "id".to_string(),
        message: "m".to_string(),
        instance_path: "/p".to_string(),
    }];
    assert_eq!(into_result(one).unwrap_err().len(), 1);
}

#[test]
fn failures_keeps_the_errors_in_order() {
    let diagnostic = |path: &str| ValidationDiagnostic::Critical {
        check_id: "id".to_string(),
        message: "m".to_string(),
        instance_path: path.to_string(),
    };
    let kept = failures(vec![Ok(()), Err(diagnostic("/a")), Ok(()), Err(diagnostic("/b"))]);
    let found: Vec<String> = kept.iter().map(|d| parts(d).3).collect();
    assert_eq!(found, vec!["/a", "/b"]);
}

#[test]
fn lint_report_flattens_diagnostics_to_messages() {
    let report = lint_report(&Ok(()));
    assert!(report.result);
    assert_eq!(report.messages, vec!["Ok!"]);
    let report = lint_report(&Err(vec![
        ValidationDiagnostic::Critical {
            check_id: "id".to_string(),
            message: "first".to_string(),
            instance_path: "/a".to_string(),
        },
        ValidationDiagnostic::Warning {
            check_id: "id".to_string(),
            message: "second".to_string(),
            instance_path: "".to_string(),
        },
    ]));
    assert!(!report.result);
    assert_eq!(report.messages, vec!["first - path: /a", "second - path: "]);
    let report = decode_failure("missing field `id`".to_string());
    assert!(!report.result);
    assert_eq!(report.messages, vec!["missing field `id`"]);
}
