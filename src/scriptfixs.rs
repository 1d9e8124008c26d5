//! Post-install corrections to files generated inside the environment:
//! the activation script's prompt, matplotlib's font settings, and the
//! JupyterLab page configuration.

use vstd::prelude::*;

verus! {

/// The capture groups of the leftmost-first match of `pattern` in `text` as
/// the regex crate reports them (group 0 is the whole match, a group that
/// did not take part is `None`); `None` when nothing matches or the pattern
/// does not compile.
pub uninterp spec fn regex_captures(pattern: Seq<char>, text: Seq<char>) -> Option<Seq<Option<Seq<char>>>>;

/// Relies on `regex::Regex::new` to compile `pattern` and on
/// `regex::Regex::captures` for the groups of the first match in `text`.
#[verifier::external_body]
fn captures(pattern: &str, text: &str) -> (r: Option<Vec<Option<String>>>)
    ensures
        r is Some <==> regex_captures(pattern@, text@) is Some,
        r is Some ==> regex_captures(pattern@, text@) == Some(r->Some_0.deep_view()),
{
    match regex::Regex::new(pattern) {
        Ok(re) => re.captures(text).map(
            |caps| caps.iter().map(|m| m.map(|m| m.as_str().to_string())).collect(),
        ),
        Err(_) => None,
    }
}

/// Group `i` of a match, when the match exists and the group took part.
pub open spec fn group_of(caps: Option<Seq<Option<Seq<char>>>>, i: int) -> Option<Seq<char>> {
    match caps {
        Some(groups) => if 0 <= i < groups.len() {
            groups[i]
        } else {
            None
        },
        None => None,
    }
}

fn group_text(caps: &Option<Vec<Option<String>>>, i: usize) -> (r: Option<String>)
    ensures
        r.deep_view() == group_of(caps.deep_view(), i as int),
{
    match caps {
        Some(groups) => {
            if i < groups.len() {
                match &groups[i] {
                    Some(s) => Some(s.clone()),
                    None => None,
                }
            } else {
                None
            }
        },
        None => None,
    }
}

/// The prompt prefix written into the activation script.
pub open spec fn prompt_text() -> Seq<char> {
    "TGBA "@
}

/// Assignment of the prompt that wraps the previous prompt.
pub open spec fn prompt_pattern() -> Seq<char> {
    "(set PROMPT=).*(%PROMPT%)"@
}

/// Assignment of the virtual environment's prompt variable.
pub open spec fn venv_prompt_pattern() -> Seq<char> {
    "(set VIRTUAL_ENV_PROMPT=).*"@
}

/// One line of the activation script after the prompt rewrite: a prompt
/// assignment keeps its captured head and tail around the fixed prompt, a
/// virtual-environment prompt assignment gets the fixed prompt, and every
/// other line passes through.
pub open spec fn fixed_activate_line(line: Seq<char>) -> Seq<char> {
    let c1 = regex_captures(prompt_pattern(), line);
    let c2 = regex_captures(venv_prompt_pattern(), line);
    if group_of(c1, 1) is Some && group_of(c1, 2) is Some {
        group_of(c1, 1)->Some_0 + prompt_text() + group_of(c1, 2)->Some_0 + " "@
    } else if group_of(c2, 1) is Some {
        group_of(c2, 1)->Some_0 + prompt_text()
    } else {
        line
    }
}

fn fix_activate_line(line: &str) -> (r: String)
    ensures
        r@ == fixed_activate_line(line@),
{
    let c1 = captures("(set PROMPT=).*(%PROMPT%)", line);
    let head = group_text(&c1, 1);
    let tail = group_text(&c1, 2);
    if let (Some(mut out), Some(tail)) = (head, tail) {
        out.append("TGBA ");
        out.append(tail.as_str());
        out.append(" ");
        return out;
    }
    let c2 = captures("(set VIRTUAL_ENV_PROMPT=).*", line);
    match group_text(&c2, 1) {
        Some(mut out) => {
            out.append("TGBA ");
            out
        },
        None => String::from_str(line),
    }
}

/// Rewrites the prompt assignments of the activation script, line by line.
pub fn fix_win_activate_scripts(lines: &Vec<String>) -> (r: Vec<String>)
    ensures
        r.deep_view() == lines.deep_view().map_values(|l: Seq<char>| fixed_activate_line(l)),
{
    let mut out: Vec<String> = Vec::new();
    let mut i: usize = 0;
    while i < lines.len()
        invariant
            i <= lines.len(),
            out.deep_view() == lines.deep_view().take(i as int).map_values(
                |l: Seq<char>| fixed_activate_line(l),
            ),
        decreases lines.len() - i,
    {
        let fixed = fix_activate_line(lines[i].as_str());
        let ghost before = out.deep_view();
        out.push(fixed);
        assert(out.deep_view() =~= before.push(fixed@));
        assert(lines.deep_view()[i as int] == lines[i as int]@);
        assert(out.deep_view() =~= lines.deep_view().take(i + 1).map_values(
            |l: Seq<char>| fixed_activate_line(l),
        ));
        i = i + 1;
    }
    assert(lines.deep_view().take(lines.len() as int) =~= lines.deep_view());
    out
}

/// The font family setting, commented out or not.
pub open spec fn font_family_pattern() -> Seq<char> {
    "#?(font\\.family:.*)"@
}

/// The sans-serif font list setting, commented out or not.
pub open spec fn sans_serif_pattern() -> Seq<char> {
    "#?(font\\.sans-serif:).*"@
}

/// The ordered fallback fonts for sans-serif text.
pub open spec fn sans_fonts() -> Seq<char> {
    "Noto Sans CJK SC, Microsoft YaHei, SimHei, DejaVu Sans, Lucida Sans Unicode, Arial, Helvetica, sans-serif"@
}

/// One line of the font configuration after the rewrite: the font family
/// setting loses its comment mark, the sans-serif setting gets the fixed
/// fallback list, and every other line passes through.
pub open spec fn fixed_matplotlibrc_line(line: Seq<char>) -> Seq<char> {
    let c1 = regex_captures(font_family_pattern(), line);
    let c2 = regex_captures(sans_serif_pattern(), line);
    if group_of(c1, 1) is Some {
        group_of(c1, 1)->Some_0
    } else if group_of(c2, 1) is Some {
        group_of(c2, 1)->Some_0 + " "@ + sans_fonts()
    } else {
        line
    }
}

fn fix_matplotlibrc_line(line: &str) -> (r: String)
    ensures
        r@ == fixed_matplotlibrc_line(line@),
{
    let c1 = captures("#?(font\\.family:.*)", line);
    if let Some(family) = group_text(&c1, 1) {
        return family;
    }
    let c2 = captures("#?(font\\.sans-serif:).*", line);
    match group_text(&c2, 1) {
        Some(mut out) => {
            out.append(" ");
            out.append(
                "Noto Sans CJK SC, Microsoft YaHei, SimHei, DejaVu Sans, Lucida Sans Unicode, Arial, Helvetica, sans-serif",
            );
            out
        },
        None => String::from_str(line),
    }
}

/// Rewrites the font settings of matplotlib's configuration, line by line.
pub fn fix_matplotlibrc(lines: &Vec<String>) -> (r: Vec<String>)
    ensures
        r.deep_view() == lines.deep_view().map_values(|l: Seq<char>| fixed_matplotlibrc_line(l)),
{
    let mut out: Vec<String> = Vec::new();
    let mut i: usize = 0;
    while i < lines.len()
        invariant
            i <= lines.len(),
            out.deep_view() == lines.deep_view().take(i as int).map_values(
                |l: Seq<char>| fixed_matplotlibrc_line(l),
            ),
        decreases lines.len() - i,
    {
        let fixed = fix_matplotlibrc_line(lines[i].as_str());
        let ghost before = out.deep_view();
        out.push(fixed);
        assert(out.deep_view() =~= before.push(fixed@));
        assert(lines.deep_view()[i as int] == lines[i as int]@);
        assert(out.deep_view() =~= lines.deep_view().take(i + 1).map_values(
            |l: Seq<char>| fixed_matplotlibrc_line(l),
        ));
        i = i + 1;
    }
    assert(lines.deep_view().take(lines.len() as int) =~= lines.deep_view());
    out
}

/// The JupyterLab page configuration that disables the cell toolbar and
/// debugger extensions.
pub open spec fn labconfig_document() -> Seq<char> {
    "\n{\n    \"disabledExtensions\": {\n        \"@jupyterlab/cell-toolbar-extension\": true,\n        \"@jupyterlab/debugger-extension\": true\n    }\n}    \n\n"@
}

/// The full text of the JupyterLab page configuration file.
pub fn disable_labtensions() -> (r: String)
    ensures
        r@ == labconfig_document(),
{
    String::from_str(
        "\n{\n    \"disabledExtensions\": {\n        \"@jupyterlab/cell-toolbar-extension\": true,\n        \"@jupyterlab/debugger-extension\": true\n    }\n}    \n\n",
    )
}

/// The patched contents of the three files.
pub struct PatchedFiles {
    pub activate_script: Vec<String>,
    pub matplotlibrc: Vec<String>,
    pub labconfig: String,
}

/// What the three passes make of the activation script's lines and the font
/// configuration's lines.
pub open spec fn patched(activate: Seq<Seq<char>>, rc: Seq<Seq<char>>, r: PatchedFiles) -> bool {
    &&& r.activate_script.deep_view() == activate.map_values(|l: Seq<char>| fixed_activate_line(l))
    &&& r.matplotlibrc.deep_view() == rc.map_values(|l: Seq<char>| fixed_matplotlibrc_line(l))
    &&& r.labconfig@ == labconfig_document()
}

/// Runs the three patch passes over the current file contents.
pub fn fix_patches(activate_script: &Vec<String>, matplotlibrc: &Vec<String>) -> (r: PatchedFiles)
    ensures
        patched(activate_script.deep_view(), matplotlibrc.deep_view(), r),
{
    PatchedFiles {
        activate_script: fix_win_activate_scripts(activate_script),
        matplotlibrc: fix_matplotlibrc(matplotlibrc),
        labconfig: disable_labtensions(),
    }
}

/// Patching already patched files leaves the JupyterLab page configuration
/// as the first run wrote it, and keeps each file's line count. (The two
/// line passes rewrite a line by what the regex engine matches in it, which
/// this library names but does not define, so their own idempotence is not
/// stated here.)
pub proof fn lemma_repatching_keeps_labconfig(
    activate: Seq<Seq<char>>,
    rc: Seq<Seq<char>>,
    once: PatchedFiles,
    twice: PatchedFiles,
)
    requires
        patched(activate, rc, once),
        patched(once.activate_script.deep_view(), once.matplotlibrc.deep_view(), twice),
    ensures
        twice.labconfig@ == once.labconfig@,
        twice.activate_script.len() == once.activate_script.len(),
        twice.matplotlibrc.len() == once.matplotlibrc.len(),
{
    assert(twice.activate_script.deep_view().len() == once.activate_script.deep_view().len());
    assert(twice.matplotlibrc.deep_view().len() == once.matplotlibrc.deep_view().len());
}

} // verus!
