//! Pinned requirement lists: parsing with error accumulation, canonical
//! package names, and the fixed bootstrap packages.

use vstd::prelude::*;

use crate::error::{LineError, ProvisionError};
use crate::text::{ascii_lower, ends_with_char, is_ascii_upper, push_char, str_ends_with_char, to_ascii_lower};

verus! {

/// What pep508_rs makes of one requirement line: `None` when it refuses the
/// line, otherwise the distribution name as written and the requirement's
/// display form.
pub uninterp spec fn pep508_parse(line: Seq<char>) -> Option<(Seq<char>, Seq<char>)>;

/// Relies on `pep508_rs::Requirement::from_str` to parse a line, on the
/// `name` field and the `Display` impl of the parsed requirement, and on the
/// `Display` impl of the error's message.
#[verifier::external_body]
fn parse_pep508(line: &str) -> (r: Result<(String, String), String>)
    ensures
        r is Ok <==> pep508_parse(line@) is Some,
        r is Ok ==> pep508_parse(line@) == Some((r->Ok_0.0@, r->Ok_0.1@)),
{
    match <pep508_rs::Requirement as std::str::FromStr>::from_str(line) {
        Ok(req) => Ok((req.name.clone(), req.to_string())),
        Err(err) => Err(err.message.to_string()),
    }
}

pub open spec fn is_name_separator(c: char) -> bool {
    c == '-' || c == '_' || c == '.'
}

/// The canonical form of a package name: ASCII letters in lower case and
/// every run of `-`, `_` and `.` replaced by a single `-`.
pub open spec fn canonical_name(s: Seq<char>) -> Seq<char>
    decreases s.len(),
{
    if s.len() == 0 {
        seq![]
    } else {
        let prev = canonical_name(s.drop_last());
        let c = s.last();
        if is_name_separator(c) {
            if ends_with_char(prev, '-') {
                prev
            } else {
                prev.push('-')
            }
        } else {
            prev.push(ascii_lower(c))
        }
    }
}

/// Canonicalizes a package name for index lookups.
pub fn canonicalize_name(name: &str) -> (r: String)
    ensures
        r@ == canonical_name(name@),
{
    let n = name.unicode_len();
    let mut r = String::new();
    let mut i: usize = 0;
    while i < n
        invariant
            n == name@.len(),
            i <= n,
            r@ == canonical_name(name@.take(i as int)),
        decreases n - i,
    {
        let c = name.get_char(i);
        assert(name@.take(i + 1).drop_last() =~= name@.take(i as int));
        if c == '-' || c == '_' || c == '.' {
            if !str_ends_with_char(r.as_str(), '-') {
                push_char(&mut r, '-');
            }
        } else {
            push_char(&mut r, to_ascii_lower(c));
        }
        i = i + 1;
    }
    assert(name@.take(n as int) =~= name@);
    r
}

/// A parsed pinned dependency.
pub struct Requirement {
    name: String,
    display: String,
}

impl Requirement {
    /// The distribution name as the requirement spells it.
    pub closed spec fn spec_name(&self) -> Seq<char> {
        self.name@
    }

    /// The requirement's display form.
    pub closed spec fn spec_display(&self) -> Seq<char> {
        self.display@
    }

    /// Parses one requirement line; on refusal, the parser's message.
    pub fn parse(line: &str) -> (r: Result<Requirement, String>)
        ensures
            r is Ok <==> pep508_parse(line@) is Some,
            r is Ok ==> pep508_parse(line@) == Some(
                (r->Ok_0.spec_name(), r->Ok_0.spec_display()),
            ),
    {
        match parse_pep508(line) {
            Ok((name, display)) => Ok(Requirement { name, display }),
            Err(message) => Err(message),
        }
    }

    pub fn name(&self) -> (r: &str)
        ensures
            r@ == self.spec_name(),
    {
        self.name.as_str()
    }

    /// The canonical form of the name, as index lookups use it.
    pub fn canonical_name(&self) -> (r: String)
        ensures
            r@ == canonical_name(self.spec_name()),
    {
        canonicalize_name(self.name.as_str())
    }

    /// The requirement in its display form.
    pub fn to_string(&self) -> (r: String)
        ensures
            r@ == self.spec_display(),
    {
        self.display.clone()
    }
}

/// Whether every line parses.
pub open spec fn all_parse(lines: Seq<Seq<char>>) -> bool {
    forall|i: int| 0 <= i < lines.len() ==> (#[trigger] pep508_parse(lines[i])) is Some
}

/// The 1-based numbers of the lines that do not parse, in order.
pub open spec fn failing_lines(lines: Seq<Seq<char>>) -> Seq<int>
    decreases lines.len(),
{
    if lines.len() == 0 {
        seq![]
    } else {
        let prev = failing_lines(lines.drop_last());
        if pep508_parse(lines.last()) is None {
            prev.push(lines.len() as int)
        } else {
            prev
        }
    }
}

/// `reqs` holds, in order, what the parser made of each line.
pub open spec fn parsed_from(reqs: Seq<Requirement>, lines: Seq<Seq<char>>) -> bool {
    &&& reqs.len() == lines.len()
    &&& forall|i: int|
        0 <= i < lines.len() ==> pep508_parse(#[trigger] lines[i]) == Some(
            (reqs[i].spec_name(), reqs[i].spec_display()),
        )
}

/// The outcome of parsing `lines` with every failure collected: the
/// requirements when all lines parse, otherwise one error entry per bad
/// line, numbered from 1.
pub open spec fn extracted(lines: Seq<Seq<char>>, r: Result<Vec<Requirement>, ProvisionError>) -> bool {
    match r {
        Ok(reqs) => all_parse(lines) && parsed_from(reqs@, lines),
        Err(ProvisionError::RequirementParse(errs)) => {
            &&& !all_parse(lines)
            &&& errs@.map_values(|e: LineError| e.line_no as int) == failing_lines(lines)
        },
        Err(_) => false,
    }
}

proof fn lemma_failing_lines_empty(lines: Seq<Seq<char>>)
    ensures
        failing_lines(lines).len() == 0 <==> all_parse(lines),
    decreases lines.len(),
{
    if lines.len() > 0 {
        let prev = lines.drop_last();
        lemma_failing_lines_empty(prev);
        assert(forall|i: int| 0 <= i < prev.len() ==> prev[i] == lines[i]);
        if all_parse(lines) {
            assert(pep508_parse(lines[lines.len() - 1]) is Some);
        }
        if failing_lines(lines).len() == 0 {
            assert forall|i: int| 0 <= i < lines.len() implies (#[trigger] pep508_parse(lines[i])) is Some by {
                if i < prev.len() {
                    assert(pep508_parse(prev[i]) is Some);
                }
            }
        }
    }
}

/// Parses a requirements list line by line. Every malformed line is
/// collected, so the error lists them all with their 1-based numbers; the
/// list is accepted only when all lines parse.
pub fn extract_requirements(lines: &Vec<String>) -> (r: Result<Vec<Requirement>, ProvisionError>)
    ensures
        extracted(lines.deep_view(), r),
{
    let ghost all = lines.deep_view();
    let mut requirements: Vec<Requirement> = Vec::new();
    let mut errors: Vec<LineError> = Vec::new();
    let mut i: usize = 0;
    while i < lines.len()
        invariant
            all == lines.deep_view(),
            i <= lines.len(),
            errors@.map_values(|e: LineError| e.line_no as int) == failing_lines(all.take(i as int)),
            parsed_from(requirements@, all.take(i as int)) || errors.len() > 0,
        decreases lines.len() - i,
    {
        let ghost prefix = all.take(i + 1);
        assert(prefix.drop_last() =~= all.take(i as int));
        assert(prefix.last() == lines[i as int]@);
        match Requirement::parse(lines[i].as_str()) {
            Ok(requirement) => {
                requirements.push(requirement);
                proof {
                    if errors.len() == 0 {
                        assert forall|k: int| 0 <= k < prefix.len() implies pep508_parse(
                            #[trigger] prefix[k],
                        ) == Some(
                            (requirements@[k].spec_name(), requirements@[k].spec_display()),
                        ) by {
                            if k < i {
                                assert(prefix[k] == all.take(i as int)[k]);
                            }
                        }
                    }
                }
            },
            Err(message) => {
                errors.push(LineError { line_no: i + 1, message });
                assert(errors@.map_values(|e: LineError| e.line_no as int) =~= failing_lines(
                    all.take(i as int),
                ).push(i + 1));
            },
        }
        i = i + 1;
    }
    assert(all.take(lines.len() as int) =~= all);
    proof {
        lemma_failing_lines_empty(all);
    }
    if errors.len() > 0 {
        Err(ProvisionError::RequirementParse(errors))
    } else {
        Ok(requirements)
    }
}

/// The bootstrap packages installed whatever the pinned list holds.
pub open spec fn obligated_lines() -> Seq<Seq<char>> {
    seq!["setuptools>=68.0.0"@, "wheel>=0.38.0"@]
}

/// Parses the bootstrap packages with the same accumulate-then-check
/// discipline as a requirements list.
pub fn obligated_packages() -> (r: Result<Vec<Requirement>, ProvisionError>)
    ensures
        extracted(obligated_lines(), r),
{
    let mut lines: Vec<String> = Vec::new();
    lines.push(String::from_str("setuptools>=68.0.0"));
    lines.push(String::from_str("wheel>=0.38.0"));
    assert(lines.deep_view() =~= obligated_lines());
    extract_requirements(&lines)
}

/// The full install list for a pinned list: its requirements followed by
/// the bootstrap packages. A parse failure in the pinned list is reported
/// first; one in the bootstrap packages only when the pinned list is clean.
pub open spec fn collected(lines: Seq<Seq<char>>, r: Result<Vec<Requirement>, ProvisionError>) -> bool {
    if !all_parse(lines) {
        extracted(lines, r)
    } else if !all_parse(obligated_lines()) {
        extracted(obligated_lines(), r)
    } else {
        extracted(lines + obligated_lines(), r)
    }
}

/// Parses a pinned requirements list and appends the bootstrap packages.
pub fn collect_requirements(lines: &Vec<String>) -> (r: Result<Vec<Requirement>, ProvisionError>)
    ensures
        collected(lines.deep_view(), r),
{
    let mut requirements = match extract_requirements(lines) {
        Ok(requirements) => requirements,
        Err(err) => {
            return Err(err);
        },
    };
    let mut extra = match obligated_packages() {
        Ok(extra) => extra,
        Err(err) => {
            return Err(err);
        },
    };
    let ghost first = requirements@;
    let ghost second = extra@;
    requirements.append(&mut extra);
    proof {
        let all = lines.deep_view() + obligated_lines();
        let n = lines.deep_view().len();
        assert forall|i: int| 0 <= i < all.len() implies (#[trigger] pep508_parse(all[i])) is Some by {
            if i < n {
                assert(all[i] == lines.deep_view()[i]);
            } else {
                assert(all[i] == obligated_lines()[i - n]);
            }
        }
        assert forall|i: int| 0 <= i < all.len() implies pep508_parse(#[trigger] all[i]) == Some(
            (requirements@[i].spec_name(), requirements@[i].spec_display()),
        ) by {
            if i < n {
                assert(all[i] == lines.deep_view()[i]);
                assert(requirements@[i] == first[i]);
            } else {
                assert(all[i] == obligated_lines()[i - n]);
                assert(requirements@[i] == second[i - n]);
            }
        }
    }
    Ok(requirements)
}

/// The file name of the pinned requirements list for an interpreter
/// version and platform tag.
pub open spec fn spec_requirements_filename(python_version: Seq<char>, platform_tag: Seq<char>) -> Seq<char> {
    "requirements-"@ + python_version + "-"@ + platform_tag + ".txt"@
}

pub fn requirements_filename(python_version: &str, platform_tag: &str) -> (r: String)
    ensures
        r@ == spec_requirements_filename(python_version@, platform_tag@),
{
    let mut r = String::from_str("requirements-");
    r.append(python_version);
    r.append("-");
    r.append(platform_tag);
    r.append(".txt");
    r
}

proof fn lemma_failing_lines_exact(lines: Seq<Seq<char>>)
    ensures
        forall|j: int|
            0 <= j < failing_lines(lines).len() ==> {
                let n = #[trigger] failing_lines(lines)[j];
                &&& 1 <= n <= lines.len()
                &&& pep508_parse(lines[n - 1]) is None
            },
        forall|i: int|
            0 <= i < lines.len() && (#[trigger] pep508_parse(lines[i])) is None ==> failing_lines(
                lines,
            ).contains(i + 1),
        forall|j: int, k: int|
            0 <= j < k < failing_lines(lines).len() ==> failing_lines(lines)[j]
                < failing_lines(lines)[k],
    decreases lines.len(),
{
    if lines.len() > 0 {
        let prev = lines.drop_last();
        lemma_failing_lines_exact(prev);
        let fp = failing_lines(prev);
        let f = failing_lines(lines);
        assert forall|j: int| 0 <= j < f.len() implies {
            let n = #[trigger] f[j];
            &&& 1 <= n <= lines.len()
            &&& pep508_parse(lines[n - 1]) is None
        } by {
            if j < fp.len() {
                assert(f[j] == fp[j]);
                assert(prev[fp[j] - 1] == lines[fp[j] - 1]);
            }
        }
        assert forall|i: int|
            0 <= i < lines.len() && (#[trigger] pep508_parse(lines[i])) is None implies f.contains(
            i + 1) by {
            if i < prev.len() {
                assert(prev[i] == lines[i]);
                let j = choose|j: int| 0 <= j < fp.len() && fp[j] == i + 1;
                assert(f[j] == fp[j]);
            } else {
                assert(f[f.len() - 1] == i + 1);
            }
        }
    }
}

/// When some lines of a list are malformed, the aggregate error holds one
/// entry per malformed line and no other: each entry names a malformed line
/// by its 1-based number, every malformed line is named, and the numbers
/// strictly increase, so none repeats.
pub proof fn lemma_every_bad_line_reported_once(
    lines: Seq<Seq<char>>,
    r: Result<Vec<Requirement>, ProvisionError>,
)
    requires
        extracted(lines, r),
        exists|i: int| 0 <= i < lines.len() && (#[trigger] pep508_parse(lines[i])) is None,
    ensures
        r matches Err(ProvisionError::RequirementParse(errs)) && {
            let nos = errs@.map_values(|e: LineError| e.line_no as int);
            &&& forall|j: int|
                0 <= j < nos.len() ==> {
                    let n = #[trigger] nos[j];
                    &&& 1 <= n <= lines.len()
                    &&& pep508_parse(lines[n - 1]) is None
                }
            &&& forall|i: int|
                0 <= i < lines.len() && (#[trigger] pep508_parse(lines[i])) is None
                    ==> nos.contains(i + 1)
            &&& forall|j: int, k: int| 0 <= j < k < nos.len() ==> nos[j] < nos[k]
        },
{
    lemma_failing_lines_exact(lines);
}

/// A canonical package name: no upper-case ASCII letter, no `_` or `.`,
/// and no two `-` in a row.
pub open spec fn is_canonical(t: Seq<char>) -> bool {
    &&& forall|i: int|
        0 <= i < t.len() ==> !is_ascii_upper(#[trigger] t[i]) && t[i] != '_' && t[i] != '.'
    &&& forall|i: int| 0 <= i < t.len() - 1 ==> !(#[trigger] t[i] == '-' && t[i + 1] == '-')
}

proof fn lemma_canonical_name_is_canonical(s: Seq<char>)
    ensures
        is_canonical(canonical_name(s)),
    decreases s.len(),
{
    if s.len() > 0 {
        lemma_canonical_name_is_canonical(s.drop_last());
        let prev = canonical_name(s.drop_last());
        let c = s.last();
        let t = canonical_name(s);
        if !is_name_separator(c) {
            let l = ascii_lower(c);
            assert(!is_ascii_upper(l) && l != '_' && l != '.' && l != '-');
            assert forall|i: int| 0 <= i < t.len() - 1 implies !(#[trigger] t[i] == '-' && t[i + 1] == '-') by {
                if i < prev.len() - 1 {
                    assert(t[i] == prev[i] && t[i + 1] == prev[i + 1]);
                }
            }
        } else if !ends_with_char(prev, '-') {
            assert forall|i: int| 0 <= i < t.len() - 1 implies !(#[trigger] t[i] == '-' && t[i + 1] == '-') by {
                if i < prev.len() - 1 {
                    assert(t[i] == prev[i] && t[i + 1] == prev[i + 1]);
                }
            }
        }
    }
}

proof fn lemma_canonical_fixed_point(t: Seq<char>)
    requires
        is_canonical(t),
    ensures
        canonical_name(t) == t,
    decreases t.len(),
{
    if t.len() > 0 {
        let prev = t.drop_last();
        assert(is_canonical(prev)) by {
            assert forall|i: int| 0 <= i < prev.len() - 1 implies !(#[trigger] prev[i] == '-' && prev[i + 1] == '-') by {
                assert(prev[i] == t[i] && prev[i + 1] == t[i + 1]);
            }
            assert forall|i: int| 0 <= i < prev.len() implies !is_ascii_upper(#[trigger] prev[i]) && prev[i] != '_' && prev[i] != '.' by {
                assert(prev[i] == t[i]);
            }
        }
        lemma_canonical_fixed_point(prev);
        let c = t.last();
        assert(!is_ascii_upper(c) && c != '_' && c != '.');
        if c == '-' {
            if prev.len() > 0 {
                assert(!(t[t.len() - 2] == '-' && t[t.len() - 1] == '-'));
            }
            assert(prev.push('-') =~= t);
        } else {
            assert(prev.push(ascii_lower(c)) =~= t);
        }
    }
}

/// Canonicalizing a canonical name changes nothing: the name a parsed
/// requirement reports in canonical form canonicalizes to itself.
pub proof fn lemma_canonical_name_idempotent(s: Seq<char>)
    ensures
        canonical_name(canonical_name(s)) == canonical_name(s),
{
    lemma_canonical_name_is_canonical(s);
    lemma_canonical_fixed_point(canonical_name(s));
}

/// For a list of well-formed lines, the requirement parsed from each line
/// reports, in canonical form, the canonical form of the name the parser
/// read from that line, and canonicalizing it again changes nothing.
pub proof fn lemma_parsed_names_round_trip(lines: Seq<Seq<char>>, reqs: Vec<Requirement>)
    requires
        extracted(lines, Ok(reqs)),
    ensures
        forall|i: int|
            0 <= i < lines.len() ==> {
                let name = canonical_name((#[trigger] reqs@[i]).spec_name());
                &&& name == canonical_name(pep508_parse(lines[i])->Some_0.0)
                &&& canonical_name(name) == name
            },
{
    assert forall|i: int| 0 <= i < lines.len() implies {
        let name = canonical_name((#[trigger] reqs@[i]).spec_name());
        &&& name == canonical_name(pep508_parse(lines[i])->Some_0.0)
        &&& canonical_name(name) == name
    } by {
        assert(pep508_parse(lines[i]) == Some((reqs@[i].spec_name(), reqs@[i].spec_display())));
        lemma_canonical_name_idempotent(reqs@[i].spec_name());
    }
}

} // verus!
