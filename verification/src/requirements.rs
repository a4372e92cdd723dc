//! Classification of requirements-file lines. The caller reads the file,
//! splits it into lines, and follows `-r` includes (tracking visited paths to
//! avoid cycles); what each line means is decided here.

use vstd::prelude::*;

verus! {

/// What one line of a requirements file asks for.
#[derive(Clone, Debug)]
pub enum RequirementLine {
    /// Blank, or a comment: nothing.
    Empty,
    /// `-r <path>`: include another requirements file.
    Include(String),
    /// `-e <spec>`: an editable install, kept as the whole line.
    Editable(String),
    /// A plain package spec.
    Package(String),
}

/// A whitespace character, as trimmed from line ends.
pub open spec fn spec_is_ws(c: char) -> bool {
    c == ' ' || c == '\t' || c == '\r' || c == '\n'
}

/// `t` is `s` with leading and trailing whitespace removed: a subrange of
/// `s` with only whitespace before and after it, itself starting and ending
/// with non-whitespace (or empty, when `s` is all whitespace).
pub open spec fn trimmed_ok(s: Seq<char>, t: Seq<char>) -> bool {
    exists|a: int, b: int|
        {
            &&& 0 <= a <= b <= s.len()
            &&& t == #[trigger] s.subrange(a, b)
            &&& (forall|j: int| 0 <= j < a ==> spec_is_ws(#[trigger] s[j]))
            &&& (forall|j: int| b <= j < s.len() ==> spec_is_ws(#[trigger] s[j]))
            &&& (a == b || (!spec_is_ws(s[a]) && !spec_is_ws(s[b - 1])))
        }
}

/// Whether `c` is trimmed from line ends.
fn is_ws(c: char) -> (r: bool)
    ensures
        r == spec_is_ws(c),
{
    c == ' ' || c == '\t' || c == '\r' || c == '\n'
}

/// `s` with leading and trailing whitespace removed.
pub fn trim_ws(s: &str) -> (r: &str)
    ensures
        trimmed_ok(s@, r@),
{
    let n = s.unicode_len();
    let mut a: usize = 0;
    while a < n && is_ws(s.get_char(a))
        invariant
            n == s@.len(),
            a <= n,
            forall|j: int| 0 <= j < a ==> spec_is_ws(#[trigger] s@[j]),
        decreases n - a,
    {
        a = a + 1;
    }
    let mut b: usize = n;
    while b > a && is_ws(s.get_char(b - 1))
        invariant
            n == s@.len(),
            a <= b <= n,
            forall|j: int| 0 <= j < a ==> spec_is_ws(#[trigger] s@[j]),
            forall|j: int| b <= j < n ==> spec_is_ws(#[trigger] s@[j]),
        decreases b,
    {
        b = b - 1;
    }
    let r = s.substring_char(a, b);
    proof {
        assert(trimmed_ok(s@, r@)) by {
            assert(r@ == s@.subrange(a as int, b as int));
        }
    }
    r
}

/// What `classify_requirement_line` decides for a line whose trimmed form is
/// `t`: blank lines and `#` comments carry nothing; `-r ` introduces an
/// include whose path is the trimmed remainder; `-e ` keeps the whole
/// trimmed line as an editable install; anything else is a package spec.
pub open spec fn classify_of_trimmed(t: Seq<char>, r: RequirementLine) -> bool {
    if t.len() == 0 || t[0] == '#' {
        r is Empty
    } else if t.len() >= 3 && t[0] == '-' && t[1] == 'r' && t[2] == ' ' {
        r matches RequirementLine::Include(p) && trimmed_ok(t.subrange(3, t.len() as int), p@)
    } else if t.len() >= 3 && t[0] == '-' && t[1] == 'e' && t[2] == ' ' {
        r matches RequirementLine::Editable(x) && x@ == t
    } else {
        r matches RequirementLine::Package(x) && x@ == t
    }
}

/// Decide what one requirements-file line asks for. The line is trimmed
/// first; comments and blank lines are skipped, `-r` names an include, `-e`
/// is kept whole, and everything else is a package spec.
pub fn classify_requirement_line(line: &str) -> (r: RequirementLine)
    ensures
        exists|t: Seq<char>| #[trigger] trimmed_ok(line@, t) && classify_of_trimmed(t, r),
{
    let t = trim_ws(line);
    let n = t.unicode_len();
    let r = if n == 0 {
        RequirementLine::Empty
    } else if t.get_char(0) == '#' {
        RequirementLine::Empty
    } else if n >= 3 && t.get_char(0) == '-' && t.get_char(1) == 'r' && t.get_char(2) == ' ' {
        let path = trim_ws(t.substring_char(3, n));
        RequirementLine::Include(String::from_str(path))
    } else if n >= 3 && t.get_char(0) == '-' && t.get_char(1) == 'e' && t.get_char(2) == ' ' {
        RequirementLine::Editable(String::from_str(t))
    } else {
        RequirementLine::Package(String::from_str(t))
    };
    proof {
        assert(trimmed_ok(line@, t@) && classify_of_trimmed(t@, r));
    }
    r
}

} // verus!
