use tgba_installer::error::{LineError, ProvisionError};

#[test]
fn aggregate_parse_message() {
    let err = ProvisionError::RequirementParse(vec![
        LineError { line_no: 2, message: "bad name".to_string() },
        LineError { line_no: 14, message: "bad version".to_string() },
    ]);
    assert_eq!(
        err.message(),
        "errors in parsing requirements file: \nLine 2: bad name\nLine 14: bad version"
    );
}

#[test]
fn other_messages() {
    assert_eq!(
        ProvisionError::NotFound("3.11".to_string()).message(),
        "no download information for Python 3.11 in the installer configuration"
    );
    assert_eq!(
        ProvisionError::Patch { file: "a.bat".to_string(), cause: "denied".to_string() }.message(),
        "failed to patch a.bat: denied"
    );
    assert_eq!(
        ProvisionError::Download { index: 1, message: "numpy: timeout".to_string() }.message(),
        "numpy: timeout"
    );
    assert_eq!(
        ProvisionError::Install { stdout: "o".to_string(), stderr: "e".to_string() }.message(),
        "package installation failed\nSTDOUT:\no\nSTDERR:\ne"
    );
}


#[test]
fn config_platform_and_resolution_messages() {
    assert_eq!(
        ProvisionError::Config("missing key".to_string()).message(),
        "invalid configuration: missing key"
    );
    assert_eq!(
        ProvisionError::PlatformDetection("no ver".to_string()).message(),
        "failed to read the platform information: no ver"
    );
    assert_eq!(
        ProvisionError::Resolution("numpy".to_string()).message(),
        "no compatible artifact for numpy on any mirror"
    );
    assert_eq!(
        ProvisionError::Integrity { expected: "aa".to_string(), actual: "bb".to_string() }.message(),
        "checksum mismatch: expected aa, got bb"
    );
}

#[test]
fn empty_parse_error_list_message() {
    assert_eq!(
        ProvisionError::RequirementParse(Vec::new()).message(),
        "errors in parsing requirements file: "
    );
}

#[test]
fn line_numbers_in_decimal() {
    let err = ProvisionError::RequirementParse(vec![
        LineError { line_no: 0, message: "a".to_string() },
        LineError { line_no: 9, message: "b".to_string() },
        LineError { line_no: 10, message: "c".to_string() },
        LineError { line_no: 1203, message: "d".to_string() },
    ]);
    assert_eq!(
        err.message(),
        "errors in parsing requirements file: \nLine 0: a\nLine 9: b\nLine 10: c\nLine 1203: d"
    );
}
