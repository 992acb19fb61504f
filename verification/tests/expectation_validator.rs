use rhai::Engine;
use tlint::dsl::types::ValidationDiagnostic;
use tlint::validators::expectation_validator::validate_expectations;

#[test]
fn expectation_validator_validate_ok_check() {
    let input = r#"
            id: 156F64
            name: Corosync configuration file
            group: Corosync
            description: |
              Corosync `token` timeout is set to expected value
            remediation: |
              ## Abstract
              The value of the Corosync `token` timeout is not set as recommended.
              ## Remediation
              ...
            premium: true
            metadata:
              target_type: cluster
              provider:
                - aws
                - azure
            facts:
              - name: corosync_token_timeout
                gatherer: corosync.conf
                argument: totem.token
            values:
              - name: expected_token_timeout
                default: 5000
                conditions:
                  - value: 30000
                    when: env.provider == "azure" || env.provider == "aws"
                  - value: 20000
                    when: env.provider == "gcp"
            expectations:
              - name: timeout
                expect: facts.corosync_token_timeout == values.expected_token_timeout
        "#;

    let engine = Engine::new();

    let json_value: serde_json::Value =
        serde_yaml::from_str(input).expect("Unable to parse yaml");
    let validation_result = validate_expectations(&json_value, "156F64", &engine);

    assert!(validation_result.is_empty());
}

#[test]
fn expectation_validator_validate_invalid_expect_expectation_check() {
    let input = r#"
            id: 156F64
            name: Corosync configuration file
            group: Corosync
            description: |
              Corosync `token` timeout is set to expected value
            remediation: |
              ## Abstract
              The value of the Corosync `token` timeout is not set as recommended.
              ## Remediation
              ...
            facts:
              - name: corosync_token_timeout
                gatherer: corosync.conf
                argument: totem.token
            values:
              - name: expected_token_timeout
                default: 5000
                conditions:
                  - value: 30000
                    when: env.provider == "azure" || env.provider == "aws"
                  - value: 20000
                    when: env.provider == "gcp"
            expectations:
              - name: timeout
                expect: kekw?
        "#;

    let engine = Engine::new();

    let json_value: serde_json::Value =
        serde_yaml::from_str(input).expect("Unable to parse yaml");
    let validation_errors = validate_expectations(&json_value, "156F64", &engine);

    assert!(validation_errors.len() == 1);
    match &validation_errors[0] {
        w @ ValidationDiagnostic::Warning { .. } => panic!("Unexpected variant {:?}", w),
        ValidationDiagnostic::Critical {
            check_id,
            message,
            instance_path,
        } => {
            assert_eq!(check_id, "156F64");
            assert_eq!(message, "Unknown operator: '?' (line 1, position 5)");
            assert_eq!(instance_path, "/expectations/0");
        }
    }
}
