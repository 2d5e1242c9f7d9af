//! Which distro the monolith advertises: the `ID=` entry of
//! `/etc/os-release`, and the sign text built from it.

use vstd::prelude::*;
use crate::text::{all_ascii, ascii_uppercase, str_chars, to_uppercase, uppercase};

verus! {

/// Index of the first line feed at or after `i` (or the end of `s`).
pub open spec fn line_end(s: Seq<char>, i: int) -> int
    decreases s.len() - i,
{
    if i >= s.len() {
        s.len() as int
    } else if s[i] == '\n' {
        i
    } else {
        line_end(s, i + 1)
    }
}

/// `line_end` never goes backwards.
pub proof fn lemma_line_end(s: Seq<char>, i: int)
    requires
        0 <= i <= s.len(),
    ensures
        i <= line_end(s, i) <= s.len(),
        line_end(s, i) < s.len() ==> s[line_end(s, i)] == '\n',
        forall|k: int| i <= k < line_end(s, i) ==> s[k] != '\n',
    decreases s.len() - i,
{
    if i < s.len() && s[i] != '\n' {
        lemma_line_end(s, i + 1);
    }
}

/// The line starting at `start`, as `str::lines` yields it: without its line
/// feed, and without a carriage return right before that line feed.
pub open spec fn line_text(s: Seq<char>, start: int) -> Seq<char> {
    let e = line_end(s, start);
    let raw = s.subrange(start, e);
    if e < s.len() && raw.len() > 0 && raw.last() == '\r' { raw.drop_last() } else { raw }
}

/// `t` without leading and trailing double quotes (`trim_matches('"')`).
pub open spec fn trim_quotes(t: Seq<char>) -> Seq<char>
    decreases t.len(),
{
    if t.len() > 0 && t[0] == '"' {
        trim_quotes(t.skip(1))
    } else if t.len() > 0 && t.last() == '"' {
        trim_quotes(t.drop_last())
    } else {
        t
    }
}

/// Whether a line starts with `ID=`.
pub open spec fn is_id_line(line: Seq<char>) -> bool {
    line.len() >= 3 && line[0] == 'I' && line[1] == 'D' && line[2] == '='
}

/// The value of the first `ID=` line from `start` on, unquoted; `linux`
/// when there is none.
pub open spec fn distro_from(s: Seq<char>, start: int) -> Seq<char>
    decreases s.len() + 1 - start,
{
    if start < 0 || start >= s.len() {
        "linux"@
    } else {
        let line = line_text(s, start);
        if is_id_line(line) {
            trim_quotes(line.skip(3))
        } else {
            proof {
                lemma_line_end(s, start);
            }
            distro_from(s, line_end(s, start) + 1)
        }
    }
}

/// Finds the distro id in the text of an os-release file: the value of its
/// first `ID=` line with surrounding double quotes removed, or `linux`.
pub fn distro_from_os_release(content: &str) -> (r: String)
    ensures
        r@ == distro_from(content@, 0),
{
    let cs = str_chars(content);
    let n = cs.len();
    let ghost s = content@;
    let mut start: usize = 0;
    while start < n
        invariant
            cs@ == s,
            s == content@,
            n == s.len(),
            start <= n,
            distro_from(s, 0) == distro_from(s, start as int),
        decreases n - start,
    {
        let mut e = start;
        while e < n && cs[e] != '\n'
            invariant
                cs@ == s,
                n == s.len(),
                start <= e <= n,
                line_end(s, start as int) == line_end(s, e as int),
            decreases n - e,
        {
            e = e + 1;
        }
        proof {
            lemma_line_end(s, start as int);
            assert(line_end(s, start as int) == e);
        }
        let mut le = e;
        if e < n && le > start && cs[le - 1] == '\r' {
            le = le - 1;
        }
        proof {
            assert(line_text(s, start as int) =~= s.subrange(start as int, le as int));
        }
        if le - start >= 3 && cs[start] == 'I' && cs[start + 1] == 'D' && cs[start + 2] == '=' {
            let mut a = start + 3;
            let mut b = le;
            proof {
                assert(line_text(s, start as int).skip(3) =~= s.subrange(a as int, b as int));
            }
            while a < b && cs[a] == '"'
                invariant
                    cs@ == s,
                    n == s.len(),
                    start + 3 <= a <= b,
                    b == le,
                    le <= n,
                    trim_quotes(line_text(s, start as int).skip(3)) == trim_quotes(s.subrange(a as int, b as int)),
                decreases b - a,
            {
                proof {
                    assert(s.subrange(a as int, b as int).skip(1) =~= s.subrange(a + 1, b as int));
                }
                a = a + 1;
            }
            while b > a && cs[b - 1] == '"'
                invariant
                    cs@ == s,
                    n == s.len(),
                    start + 3 <= a <= b,
                    b <= le,
                    le <= n,
                    a < b ==> s[a as int] != '"',
                    trim_quotes(line_text(s, start as int).skip(3)) == trim_quotes(s.subrange(a as int, b as int)),
                decreases b - a,
            {
                proof {
                    assert(s.subrange(a as int, b as int).drop_last() =~= s.subrange(a as int, b - 1));
                }
                b = b - 1;
            }
            proof {
                let t = s.subrange(a as int, b as int);
                if a < b {
                    assert(t[0] == s[a as int]);
                    assert(t.last() == s[b - 1]);
                }
                assert(trim_quotes(t) == t);
            }
            return String::from_str(content.substring_char(a, b));
        }
        if e == n {
            proof {
                assert(distro_from(s, start as int) == distro_from(s, n as int + 1));
            }
            start = n;
        } else {
            start = e + 1;
        }
    }
    String::from_str("linux")
}

/// `name` followed by ` CORP`.
pub fn corp_sign(name: &str) -> (r: String)
    ensures
        r@ == name@ + " CORP"@,
{
    let mut r = String::from_str(name);
    r.append(" CORP");
    r
}

/// The monolith's sign text: the configured custom text, or the distro id
/// in upper case followed by ` CORP` when no custom text is set (for an
/// ASCII id, `a`..`z` mapped to `A`..`Z`).
pub fn monolith_sign_text(custom_text: &str, distro: &str) -> (r: String)
    ensures
        r@ == (if custom_text@.len() == 0 { uppercase(distro@) + " CORP"@ } else { custom_text@ }),
        custom_text@.len() == 0 && all_ascii(distro@) ==> r@ == ascii_uppercase(distro@) + " CORP"@,
{
    if custom_text.is_empty() {
        let up = to_uppercase(distro);
        corp_sign(up.as_str())
    } else {
        String::from_str(custom_text)
    }
}

} // verus!
