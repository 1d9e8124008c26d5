//! Host platform probing: the OS major version from the host's version
//! report, and the platform tag for the host's architecture.

use vstd::prelude::*;

verus! {

pub open spec fn is_digit(c: char) -> bool {
    '0' <= c && c <= '9'
}

/// The text from the first decimal digit on (empty when there is none).
pub open spec fn skip_non_digits(s: Seq<char>) -> Seq<char>
    decreases s.len(),
{
    if s.len() == 0 || is_digit(s[0]) {
        s
    } else {
        skip_non_digits(s.drop_first())
    }
}

/// The decimal digits at the start of `s`.
pub open spec fn digit_run(s: Seq<char>) -> Seq<char>
    decreases s.len(),
{
    if s.len() > 0 && is_digit(s[0]) {
        seq![s[0]] + digit_run(s.drop_first())
    } else {
        seq![]
    }
}

/// The value of a sequence of decimal digits.
pub open spec fn digits_value(d: Seq<char>) -> nat
    decreases d.len(),
{
    if d.len() == 0 {
        0
    } else {
        digits_value(d.drop_last()) * 10 + ((d.last() as u32) - ('0' as u32)) as nat
    }
}

/// The host's OS major version read from its version report: the first
/// number in the text. `None` when the text holds no digit or the number
/// does not fit in 32 bits.
pub open spec fn os_major_of(s: Seq<char>) -> Option<u32> {
    let run = digit_run(skip_non_digits(s));
    if run.len() == 0 || digits_value(run) > u32::MAX {
        None
    } else {
        Some(digits_value(run) as u32)
    }
}

proof fn lemma_digits_value_grows(a: Seq<char>, b: Seq<char>)
    requires
        forall|i: int| 0 <= i < b.len() ==> is_digit(#[trigger] b[i]),
    ensures
        digits_value(a + b) >= digits_value(a),
    decreases b.len(),
{
    if b.len() > 0 {
        assert((a + b).drop_last() =~= a + b.drop_last());
        lemma_digits_value_grows(a, b.drop_last());
    } else {
        assert(a + b =~= a);
    }
}

proof fn lemma_digit_run_all_digits(s: Seq<char>)
    ensures
        forall|i: int| 0 <= i < digit_run(s).len() ==> is_digit(#[trigger] digit_run(s)[i]),
    decreases s.len(),
{
    if s.len() > 0 && is_digit(s[0]) {
        lemma_digit_run_all_digits(s.drop_first());
        let r = digit_run(s);
        assert forall|i: int| 0 <= i < r.len() implies is_digit(#[trigger] r[i]) by {
            if i > 0 {
                assert(r[i] == digit_run(s.drop_first())[i - 1]);
            }
        }
    }
}

/// Reads the OS major version from the host's version report.
pub fn parse_os_major(text: &str) -> (r: Option<u32>)
    ensures
        r == os_major_of(text@),
{
    let ghost s = text@;
    let n = text.unicode_len();
    let mut i: usize = 0;
    assert(s.subrange(0, n as int) =~= s);
    while i < n && !('0' <= text.get_char(i) && text.get_char(i) <= '9')
        invariant
            n == s.len(),
            s == text@,
            i <= n,
            skip_non_digits(s) == skip_non_digits(s.subrange(i as int, n as int)),
        decreases n - i,
    {
        assert(s.subrange(i as int, n as int).drop_first() =~= s.subrange(i + 1, n as int));
        i = i + 1;
    }
    let start = i;
    let ghost rest = s.subrange(start as int, n as int);
    assert(skip_non_digits(rest) == rest);
    let mut value: u32 = 0;
    while i < n && ('0' <= text.get_char(i) && text.get_char(i) <= '9')
        invariant
            n == s.len(),
            s == text@,
            start <= i <= n,
            rest == s.subrange(start as int, n as int),
            skip_non_digits(s) == rest,
            digit_run(rest) == s.subrange(start as int, i as int) + digit_run(
                s.subrange(i as int, n as int),
            ),
            value == digits_value(s.subrange(start as int, i as int)),
        decreases n - i,
    {
        let c = text.get_char(i);
        let d = (c as u32) - ('0' as u32);
        let ghost before = s.subrange(start as int, i as int);
        assert(s.subrange(start as int, i + 1) =~= before.push(c));
        assert(s.subrange(start as int, i + 1).drop_last() =~= before);
        assert(s.subrange(i as int, n as int).drop_first() =~= s.subrange(i + 1, n as int));
        assert(digit_run(s.subrange(i as int, n as int)) == seq![c] + digit_run(
            s.subrange(i + 1, n as int),
        ));
        assert(before + (seq![c] + digit_run(s.subrange(i + 1, n as int))) =~= before.push(c)
            + digit_run(s.subrange(i + 1, n as int)));
        if value > (u32::MAX - d) / 10 {
            proof {
                let run = digit_run(rest);
                let prefix = before.push(c);
                let tail = digit_run(s.subrange(i + 1, n as int));
                lemma_digit_run_all_digits(s.subrange(i + 1, n as int));
                lemma_digits_value_grows(prefix, tail);
                assert(run == prefix + tail);
                assert(prefix.drop_last() =~= before);
                assert(prefix.last() == c);
                assert(digits_value(prefix) == value * 10 + d);
                assert(value * 10 + d > u32::MAX) by (nonlinear_arith)
                    requires
                        value > (u32::MAX - d) / 10,
                        d <= 9,
                ;
            }
            return None;
        }
        assert(value * 10 + d <= u32::MAX) by (nonlinear_arith)
            requires
                value <= (u32::MAX - d) / 10,
                d <= 9,
        ;
        value = value * 10 + d;
        i = i + 1;
    }
    proof {
        if i < n {
            assert(digit_run(s.subrange(i as int, n as int)) =~= seq![]);
        } else {
            assert(s.subrange(i as int, n as int) =~= seq![]);
        }
        assert(digit_run(rest) =~= s.subrange(start as int, i as int));
    }
    if i == start {
        None
    } else {
        Some(value)
    }
}

/// The platform tag of the host's CPU architecture, as Rust names it;
/// `None` for architectures without a supported tag.
pub open spec fn platform_tag_of(arch: Seq<char>) -> Option<Seq<char>> {
    if arch == "x86_64"@ {
        Some("win_amd64"@)
    } else if arch == "x86"@ {
        Some("win32"@)
    } else if arch == "aarch64"@ {
        Some("win_arm64"@)
    } else {
        None
    }
}

pub fn platform_tag_for_arch(arch: &str) -> (r: Option<String>)
    ensures
        r.deep_view() == platform_tag_of(arch@),
{
    let a = String::from_str(arch);
    if a == String::from_str("x86_64") {
        Some(String::from_str("win_amd64"))
    } else if a == String::from_str("x86") {
        Some(String::from_str("win32"))
    } else if a == String::from_str("aarch64") {
        Some(String::from_str("win_arm64"))
    } else {
        None
    }
}

} // verus!
