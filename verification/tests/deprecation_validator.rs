use tlint::dsl::types::ValidationDiagnostic;
use tlint::dsl::validation::get_json_schema;
use tlint::validators::deprecation_validator::DeprecationValidator;

#[test]
fn deprecation_validator_validate_wrong_check() {
    let input = r#"
            id: 156F64
            name: Corosync configuration file
            group: Corosync
            description: |
              Corosync `token` timeout is set to expected value
            remediation: |
              ## Abstract
              The value of the Corosync `token` timeout is not set as recommended.
              ## Remediation
              ...
            premium: true
            facts:
              - name: corosync_token_timeout
                gatherer: corosync.conf
                argument: totem.token
            values:
              - name: expected_token_timeout
                default: 5000
                conditions:
                  - value: 30000
                    when: env.provider == "azure" || env.provider == "aws"
                  - value: 20000
                    whens: env.provider == "gcp"
            expectations:
              - name: timeout
                expect: facts.corosync_token_timeout == values.expected_token_timeout
        "#;

    let json_value: serde_json::Value =
        serde_yaml::from_str(input).expect("the test string should be valid yaml");
    let json_schema = get_json_schema().expect("a valid JSON schema should be embedded");
    let validator = DeprecationValidator {
        schema: &json_schema,
    };
    let diagnostics = validator.validate(&json_value, "156F64");

    assert!(
        diagnostics.is_ok(),
        "an invalid check can not raise deprecation warnings"
    );
}

#[test]
fn deprecation_validator_validate_ok_check() {
    let input = r#"
            id: 156F64
            name: Corosync configuration file
            group: Corosync
            description: |
              Corosync `token` timeout is set to expected value
            remediation: |
              ## Abstract
              The value of the Corosync `token` timeout is not set as recommended.
              ## Remediation
              ...
            metadata:
              target_type: cluster
              provider:
                - aws
                - azure
            facts:
              - name: corosync_token_timeout
                gatherer: corosync.conf
                argument: totem.token
            values:
              - name: expected_token_timeout
                default: 5000
                conditions:
                  - value: 30000
                    when: env.provider == "azure" || env.provider == "aws"
                  - value: 20000
                    when: env.provider == "gcp"
            expectations:
              - name: timeout
                expect: facts.corosync_token_timeout == values.expected_token_timeout
        "#;

    let json_value: serde_json::Value =
        serde_yaml::from_str(input).expect("the test string should be valid yaml");
    let json_schema = get_json_schema().expect("a valid JSON schema should be embedded");
    let validator = DeprecationValidator {
        schema: &json_schema,
    };
    let diagnostics = validator.validate(&json_value, "156F64");
    assert!(
        diagnostics.is_ok(),
        "a valid check can not raise deprecation warnings"
    );
}

#[test]
fn deprecation_validator_validate_deprecated_check() {
    let input = r#"
                id: 156F64
                name: Corosync configuration file
                group: Corosync
                description: |
                  Corosync `token` timeout is set to expected value
                remediation: |
                  ## Abstract
                  The value of the Corosync `token` timeout is not set as recommended.
                  ## Remediation
                  ...
                premium: true
                metadata:
                  target_type: cluster
                  provider:
                    - aws
                    - azure
                facts:
                  - name: corosync_token_timeout
                    gatherer: corosync.conf
                    argument: totem.token
                values:
                  - name: expected_token_timeout
                    default: 5000
                    conditions:
                      - value: 30000
                        when: env.provider == "azure" || env.provider == "aws"
                      - value: 20000
                        when: env.provider == "gcp"
                expectations:
                  - name: timeout
                    expect: facts.corosync_token_timeout == values.expected_token_timeout
            "#;

    let json_value: serde_json::Value =
        serde_yaml::from_str(input).expect("the test string should be valid yaml");
    let json_schema = get_json_schema().expect("a valid JSON schema should be embedded");
    let validator = DeprecationValidator {
        schema: &json_schema,
    };
    let diagnostics = validator.validate(&json_value, "156F64");

    assert!(diagnostics.as_ref().is_err_and(|d| d.len() == 1));

    if let Err(diagnostics) = diagnostics {
        match &diagnostics[0] {
            ValidationDiagnostic::Warning {
                message,
                instance_path,
                ..
            } => {
                assert_eq!(
                    message,
                    "Property 'premium' is deprecated and will be removed in the future"
                );
                assert_eq!(instance_path, "/premium");
            }
            v => panic!("Unexpected variant {:?}", v),
        };
    };
}
