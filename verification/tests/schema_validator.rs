use tlint::dsl::types::{ValidationDiagnostic, Validator};
use tlint::dsl::validation::get_json_schema;
use tlint::validators::schema_validator::{validate_schema, SchemaValidator};

#[test]
fn schema_validator_validate_wrong_check() {
    let input = r#"
            id: 156F64
            name: Corosync configuration file
            group: Corosync
            description: |
              Corosync `token` timeout is set to expected value
            remediation: |
              ## Abstract
              The value of the Corosync `token` timeout is not set as recommended.
              ## Remediation
              ...
            facts:
              - name: corosync_token_timeout
                gatherer: corosync.conf
                argument: totem.token
            values:
              - name: expected_token_timeout
                default: 5000
                conditions:
                  - value: 30000
                    when: env.provider == "azure" || env.provider == "aws"
                  - value: 20000
                    whens: env.provider == "gcp"
            expectations:
              - name: timeout
                expect: facts.corosync_token_timeout == values.expected_token_timeout
        "#;

    let json_value: serde_json::Value =
        serde_yaml::from_str(input).expect("the test string should be valid yaml");
    let json_schema = get_json_schema().expect("a valid JSON schema should be embedded");
    let validator = SchemaValidator {
        schema: &json_schema,
    };

    let expected_check_id = "156F64";
    let diagnostics = validator.validate(&json_value, expected_check_id);

    assert!(diagnostics.len() == 2);

    match &diagnostics[0] {
        w @ ValidationDiagnostic::Warning { .. } => panic!("Unexpected variant {:?}", w),
        ValidationDiagnostic::Critical {
            message,
            instance_path,
            check_id,
        } => {
            assert_eq!(check_id, expected_check_id);
            assert_eq!(
                message,
                "Additional properties are not allowed ('whens' was unexpected)"
            );
            assert_eq!(instance_path, "/values/0/conditions/1");
        }
    };

    match &diagnostics[1] {
        w @ ValidationDiagnostic::Warning { .. } => panic!("Unexpected variant {:?}", w),
        ValidationDiagnostic::Critical {
            message,
            instance_path,
            check_id,
        } => {
            assert_eq!(check_id, expected_check_id);
            assert_eq!(message, "\"when\" is a required property");
            assert_eq!(instance_path, "/values/0/conditions/1");
        }
    };
}

#[test]
fn schema_validator_validate_deprecated_check() {
    let input = r#"
            id: 156F64
            name: Corosync configuration file
            group: Corosync
            description: |
              Corosync `token` timeout is set to expected value
            remediation: |
              ## Abstract
              The value of the Corosync `token` timeout is not set as recommended.
              ## Remediation
              ...
            premium: true
            metadata:
              target_type: cluster
              provider:
                - aws
                - azure
            facts:
              - name: corosync_token_timeout
                gatherer: corosync.conf
                argument: totem.token
            values:
              - name: expected_token_timeout
                default: 5000
                conditions:
                  - value: 30000
                    when: env.provider == "azure" || env.provider == "aws"
                  - value: 20000
                    when: env.provider == "gcp"
            expectations:
              - name: timeout
                expect: facts.corosync_token_timeout == values.expected_token_timeout
        "#;

    let json_value: serde_json::Value =
        serde_yaml::from_str(input).expect("the test string should be valid yaml");
    let json_schema = get_json_schema().expect("a valid JSON schema should be embedded");
    let validator = SchemaValidator {
        schema: &json_schema,
    };

    let expected_check_id = "156F64";
    let diagnostics = validator.validate(&json_value, expected_check_id);

    assert!(diagnostics.len() == 1);

    match &diagnostics[0] {
        ValidationDiagnostic::Warning {
            message,
            instance_path,
            check_id,
        } => {
            assert_eq!(check_id, expected_check_id);
            assert_eq!(
                message,
                "Property 'premium' is deprecated and will be removed in the future"
            );
            assert_eq!(instance_path, "/premium");
        }
        e @ ValidationDiagnostic::Critical { .. } => panic!("Unexpected variant {:?}", e),
    };
}

#[test]
fn schema_validator_validate_ok_check() {
    let input = r#"
            id: 156F64
            name: Corosync configuration file
            group: Corosync
            description: |
              Corosync `token` timeout is set to expected value
            remediation: |
              ## Abstract
              The value of the Corosync `token` timeout is not set as recommended.
              ## Remediation
              ...
            metadata:
              target_type: cluster
              provider:
                - aws
                - azure
            facts:
              - name: corosync_token_timeout
                gatherer: corosync.conf
                argument: totem.token
            values:
              - name: expected_token_timeout
                default: 5000
                conditions:
                  - value: 30000
                    when: env.provider == "azure" || env.provider == "aws"
                  - value: 20000
                    when: env.provider == "gcp"
            expectations:
              - name: timeout
                expect: facts.corosync_token_timeout == values.expected_token_timeout
        "#;

    let json_value: serde_json::Value =
        serde_yaml::from_str(input).expect("Unable to parse yaml");
    let json_schema = get_json_schema().expect("a valid JSON schema should be embedded");
    let validation_result = validate_schema(&json_value, "156F64", &json_schema);

    assert!(validation_result.is_empty());
}
