use tgba_installer::scriptfixs::{disable_labtensions, fix_matplotlibrc, fix_patches, fix_win_activate_scripts};

fn lines(items: &[&str]) -> Vec<String> {
    items.iter().map(|s| s.to_string()).collect()
}

#[test]
fn activate_prompt_is_rebranded() {
    let out = fix_win_activate_scripts(&lines(&[
        "@echo off",
        "set PROMPT=(venv) %PROMPT%",
        "set VIRTUAL_ENV_PROMPT=(venv) ",
        "set VIRTUAL_ENV=C:\\env",
    ]));
    assert_eq!(
        out,
        lines(&[
            "@echo off",
            "set PROMPT=TGBA %PROMPT% ",
            "set VIRTUAL_ENV_PROMPT=TGBA ",
            "set VIRTUAL_ENV=C:\\env",
        ])
    );
}

#[test]
fn matplotlibrc_fonts_are_set() {
    let out = fix_matplotlibrc(&lines(&[
        "#font.family:  sans-serif",
        "#font.sans-serif: DejaVu Sans, Bitstream Vera Sans",
        "#font.style:   normal",
    ]));
    assert_eq!(
        out,
        lines(&[
            "font.family:  sans-serif",
            "font.sans-serif: Noto Sans CJK SC, Microsoft YaHei, SimHei, DejaVu Sans, Lucida Sans Unicode, Arial, Helvetica, sans-serif",
            "#font.style:   normal",
        ])
    );
}

#[test]
fn labconfig_disables_both_extensions() {
    let doc = disable_labtensions();
    assert!(doc.contains("\"@jupyterlab/cell-toolbar-extension\": true"));
    assert!(doc.contains("\"@jupyterlab/debugger-extension\": true"));
    assert!(doc.contains("\"disabledExtensions\""));
}

#[test]
fn patching_twice_equals_patching_once() {
    let activate = lines(&["set PROMPT=(venv) %PROMPT%", "set VIRTUAL_ENV_PROMPT=(venv) ", "rem"]);
    let rc = lines(&["#font.family: serif", "#font.sans-serif: Arial", "axes.grid: False"]);
    let once = fix_patches(&activate, &rc);
    let twice = fix_patches(&once.activate_script, &once.matplotlibrc);
    assert_eq!(once.activate_script, twice.activate_script);
    assert_eq!(once.matplotlibrc, twice.matplotlibrc);
    assert_eq!(once.labconfig, twice.labconfig);
}

#[test]
fn unrelated_lines_pass_through() {
    let input = lines(&["", "echo PROMPT", "font.size: 10"]);
    assert_eq!(fix_win_activate_scripts(&input), input);
    assert_eq!(fix_matplotlibrc(&input), input);
}
