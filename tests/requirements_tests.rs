use tgba_installer::error::ProvisionError;
use tgba_installer::requirements::{
    canonicalize_name, collect_requirements, extract_requirements, obligated_packages,
    requirements_filename, Requirement,
};

fn lines(items: &[&str]) -> Vec<String> {
    items.iter().map(|s| s.to_string()).collect()
}

#[test]
fn canonical_name_lowercases_and_collapses_separators() {
    assert_eq!(canonicalize_name("Foo_Bar"), "foo-bar");
    assert_eq!(canonicalize_name("zope.interface"), "zope-interface");
    assert_eq!(canonicalize_name("A-_.b"), "a-b");
    assert_eq!(canonicalize_name("numpy"), "numpy");
}

#[test]
fn canonical_name_is_idempotent() {
    for name in ["Foo__Bar", "jupyter_core", "Pillow", "ruamel.yaml.clib"] {
        let once = canonicalize_name(name);
        assert_eq!(canonicalize_name(&once), once);
    }
}

#[test]
fn parsed_requirement_round_trips_canonical_name() {
    let req = Requirement::parse("Jupyter_Core==5.3.1").ok().unwrap();
    assert_eq!(req.name(), "Jupyter_Core");
    assert_eq!(req.canonical_name(), canonicalize_name("Jupyter_Core"));
    assert_eq!(req.canonical_name(), "jupyter-core");
    assert!(req.to_string().starts_with("Jupyter_Core"));
}

#[test]
fn well_formed_lines_all_parse_in_order() {
    let reqs = extract_requirements(&lines(&["numpy==1.24.4", "pandas>=2.0", "Requests"]))
        .ok()
        .unwrap();
    assert_eq!(reqs.len(), 3);
    assert_eq!(reqs[0].name(), "numpy");
    assert_eq!(reqs[1].name(), "pandas");
    assert_eq!(reqs[2].canonical_name(), "requests");
}

#[test]
fn malformed_lines_are_all_reported_with_numbers() {
    let input = lines(&["numpy==1.24.4", "!!bad", "pandas>=2.0", "==1.0", "ok-pkg"]);
    match extract_requirements(&input) {
        Err(ProvisionError::RequirementParse(errs)) => {
            let numbers: Vec<usize> = errs.iter().map(|e| e.line_no).collect();
            assert_eq!(numbers, vec![2, 4]);
            assert!(!errs[0].message.is_empty());
        }
        _ => panic!("expected a parse error"),
    }
}

#[test]
fn every_line_malformed_gives_one_entry_each() {
    let input = lines(&["!a", "@b", "#c"]);
    match extract_requirements(&input) {
        Err(ProvisionError::RequirementParse(errs)) => {
            let numbers: Vec<usize> = errs.iter().map(|e| e.line_no).collect();
            assert_eq!(numbers, vec![1, 2, 3]);
        }
        _ => panic!("expected a parse error"),
    }
}

#[test]
fn empty_list_parses_to_nothing() {
    let reqs = extract_requirements(&Vec::new()).ok().unwrap();
    assert!(reqs.is_empty());
}

#[test]
fn bootstrap_packages_parse() {
    let reqs = obligated_packages().ok().unwrap();
    assert_eq!(reqs.len(), 2);
    assert_eq!(reqs[0].name(), "setuptools");
    assert_eq!(reqs[1].name(), "wheel");
}

#[test]
fn collected_list_ends_with_bootstrap_packages() {
    let reqs = collect_requirements(&lines(&["numpy==1.24.4"])).ok().unwrap();
    let names: Vec<&str> = reqs.iter().map(|r| r.name()).collect();
    assert_eq!(names, vec!["numpy", "setuptools", "wheel"]);
}

#[test]
fn collected_list_reports_bad_pinned_lines() {
    match collect_requirements(&lines(&["numpy==1.24.4", "bad line ("])) {
        Err(ProvisionError::RequirementParse(errs)) => {
            assert_eq!(errs.len(), 1);
            assert_eq!(errs[0].line_no, 2);
        }
        _ => panic!("expected a parse error"),
    }
}

#[test]
fn requirements_file_name_convention() {
    assert_eq!(
        requirements_filename("3.11", "win_amd64"),
        "requirements-3.11-win_amd64.txt"
    );
}

#[test]
fn parse_error_message_lists_lines() {
    let input = lines(&["!x"]);
    let err = extract_requirements(&input).err().unwrap();
    let text = err.message();
    assert!(text.starts_with("errors in parsing requirements file: \nLine 1: "));
}
