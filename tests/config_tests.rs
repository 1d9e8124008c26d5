use tgba_installer::config::{python_version_for_major, CPythonDistSource, Config, PyPIMirror};
use tgba_installer::error::ProvisionError;

fn sample_config() -> Config {
    Config::new(
        "23.2.1".to_string(),
        vec![PyPIMirror::new("tuna", "https://pypi.tuna.tsinghua.edu.cn/simple")],
        vec![
            CPythonDistSource::new("3.8", "3.8.10", "https://example.org/py38.zip", "aa11"),
            CPythonDistSource::new("3.11", "3.11.5", "https://example.org/py311.zip", "bb22"),
            CPythonDistSource::new("3.11", "3.11.4", "https://example.org/py311-old.zip", "cc33"),
        ],
    )
}

#[test]
fn mirror_url_joining_adds_separator() {
    let mirror = PyPIMirror::new("idx", "https://idx/simple");
    assert_eq!(mirror.package_url("foo"), "https://idx/simple/foo/");
}

#[test]
fn mirror_url_joining_keeps_single_separator() {
    let mirror = PyPIMirror::new("idx", "https://idx/simple/");
    assert_eq!(mirror.package_url("foo"), "https://idx/simple/foo/");
}

#[test]
fn mirror_url_normalization_is_idempotent() {
    let a = PyPIMirror::new("a", "https://idx/simple");
    let b = PyPIMirror::new("b", "https://idx/simple/");
    assert_eq!(a.package_url("numpy"), b.package_url("numpy"));
}

#[test]
fn mirror_getters() {
    let mirror = PyPIMirror::new("tuna", "https://idx/simple");
    assert_eq!(mirror.name(), "tuna");
    assert_eq!(mirror.url(), "https://idx/simple");
}

#[test]
fn platform_major_ten_maps_to_311() {
    assert_eq!(python_version_for_major(10), "3.11");
}

#[test]
fn platform_major_six_maps_to_38() {
    assert_eq!(python_version_for_major(6), "3.8");
}

#[test]
fn platform_boundary_seven_and_eight() {
    assert_eq!(python_version_for_major(7), "3.8");
    assert_eq!(python_version_for_major(8), "3.11");
}

#[test]
fn source_for_new_host_is_first_311() {
    let config = sample_config();
    let dist = config.get_cpytion_source(10).ok().unwrap();
    assert_eq!(dist.python_version(), "3.11");
    assert_eq!(dist.cpython_version(), "3.11.5");
    assert_eq!(dist.url(), "https://example.org/py311.zip");
    assert_eq!(dist.checksum(), "bb22");
}

#[test]
fn source_for_old_host_is_38() {
    let config = sample_config();
    let dist = config.get_cpytion_source(6).ok().unwrap();
    assert_eq!(dist.cpython_version(), "3.8.10");
}

#[test]
fn missing_source_is_not_found() {
    let config = Config::new(
        "23.2.1".to_string(),
        vec![],
        vec![CPythonDistSource::new("3.8", "3.8.10", "u", "c")],
    );
    match config.get_cpytion_source(11) {
        Err(ProvisionError::NotFound(tag)) => assert_eq!(tag, "3.11"),
        _ => panic!("expected NotFound"),
    }
}

#[test]
fn config_getters() {
    let config = sample_config();
    assert_eq!(config.pip_version(), "23.2.1");
    assert_eq!(config.get_pypi_mirrors().len(), 1);
    assert_eq!(config.get_pypi_mirrors()[0].name(), "tuna");
}

#[test]
fn validate_accepts_one_source_per_tag() {
    let config = Config::new(
        "23.2.1".to_string(),
        vec![],
        vec![
            CPythonDistSource::new("3.8", "3.8.10", "u1", "c1"),
            CPythonDistSource::new("3.11", "3.11.5", "u2", "c2"),
        ],
    );
    assert!(config.validate().is_ok());
}

#[test]
fn validate_rejects_duplicate_or_missing_tag() {
    match sample_config().validate() {
        Err(ProvisionError::Config(msg)) => assert!(msg.contains("3.11")),
        _ => panic!("expected a configuration error"),
    }
    let only_311 = Config::new(
        "1".to_string(),
        vec![],
        vec![CPythonDistSource::new("3.11", "3.11.5", "u", "c")],
    );
    match only_311.validate() {
        Err(ProvisionError::Config(msg)) => assert!(msg.contains("3.8")),
        _ => panic!("expected a configuration error"),
    }
}

#[test]
fn requirement_index_url_uses_canonical_name() {
    let req = tgba_installer::requirements::Requirement::parse("Foo_Bar==1.0").ok().unwrap();
    let a = PyPIMirror::new("idx", "https://idx/simple");
    let b = PyPIMirror::new("idx", "https://idx/simple/");
    assert_eq!(a.requirement_url(&req), "https://idx/simple/foo-bar/");
    assert_eq!(b.requirement_url(&req), "https://idx/simple/foo-bar/");
}
