use pmcfg::argvalidator::{validate_args, ValidateArg};
use pmcfg::envs::Environment;
use pmcfg::errors::CliConfigError;
use pmcfg::projects::Project;

#[test]
fn every_project_label_resolves() {
    for (label, expected) in [
        ("registration", Project::Registration),
        ("authentication", Project::Authentication),
        ("authorization", Project::Authorization),
        ("api", Project::Api),
    ] {
        let raw = String::from(label);
        let result = Project::from_cli(Some(&raw));
        assert_eq!(result.ok().unwrap(), expected);
    }
}

#[test]
fn an_unknown_project_is_invalid() {
    for label in ["Api", "API", "billing", "", "api "] {
        let raw = String::from(label);
        let result = Project::from_cli(Some(&raw));
        assert_eq!(
            result.err().unwrap(),
            CliConfigError::CliArgError("Invalid project".to_owned())
        );
    }
}

#[test]
fn an_absent_project_is_missing() {
    let result = Project::from_cli(None);
    assert_eq!(
        result.err().unwrap(),
        CliConfigError::CliArgError("Missing project".to_owned())
    );
}

#[test]
fn every_environment_label_resolves() {
    for (label, expected) in [
        ("live", Environment::Live),
        ("staging", Environment::Staging),
        ("hotfix", Environment::Hotfix),
    ] {
        let raw = String::from(label);
        let result = Environment::from_cli(Some(&raw));
        assert_eq!(result.ok().unwrap(), expected);
    }
}

#[test]
fn an_unknown_environment_is_invalid() {
    for label in ["Live", "STAGING", "prod", "", "live "] {
        let raw = String::from(label);
        let result = Environment::from_cli(Some(&raw));
        assert_eq!(
            result.err().unwrap(),
            CliConfigError::CliArgError("Invalid environment".to_owned())
        );
    }
}

#[test]
fn an_absent_environment_is_missing() {
    let result = Environment::from_cli(None);
    assert_eq!(
        result.err().unwrap(),
        CliConfigError::CliArgError("Missing environment".to_owned())
    );
}

#[test]
fn validate_accepts_present_and_rejects_absent() {
    let value = String::from("x");
    let present: Option<&String> = Some(&value);
    let absent: Option<&String> = None;
    assert!(present.validate());
    assert!(!absent.validate());
}

#[test]
fn validate_args_fails_on_any_absent_value() {
    let value = String::from("x");
    let none: Vec<Option<&String>> = Vec::new();
    assert!(validate_args(&none).is_ok());

    let all_present = vec![Some(&value), Some(&value)];
    assert!(validate_args(&all_present).is_ok());

    let one_absent = vec![Some(&value), None];
    assert_eq!(
        validate_args(&one_absent).err().unwrap(),
        CliConfigError::CliArgError("Missing argument".to_owned())
    );

    let all_absent: Vec<Option<&String>> = vec![None, None];
    assert_eq!(
        validate_args(&all_absent).err().unwrap(),
        CliConfigError::CliArgError("Missing argument".to_owned())
    );
}
