//! Package specification strings: `name`, `name==1.0`, `name>=1.0`,
//! `name<=1.0`, `name>1.0`, `name<1.0`.
//!
//! A spec string is scanned for the operators `==`, `>=`, `<=`, `>`, `<`, in
//! that priority order; the first operator found splits the string into a
//! package name and a version constraint.

use vstd::prelude::*;

verus! {

/// A version constraint attached to a package name.
#[derive(Clone, Debug)]
pub enum VersionConstraint {
    Exact(String),
    AtLeast(String),
    AtMost(String),
    GreaterThan(String),
    LessThan(String),
}

/// The operator class of a constraint, without its version payload.
#[derive(Clone, Copy, Debug, PartialEq, Eq, Structural)]
pub enum ConstraintOp {
    Exact,
    AtLeast,
    AtMost,
    GreaterThan,
    LessThan,
}

impl VersionConstraint {
    /// Which operator this constraint was written with.
    pub open spec fn op(self) -> ConstraintOp {
        match self {
            VersionConstraint::Exact(_) => ConstraintOp::Exact,
            VersionConstraint::AtLeast(_) => ConstraintOp::AtLeast,
            VersionConstraint::AtMost(_) => ConstraintOp::AtMost,
            VersionConstraint::GreaterThan(_) => ConstraintOp::GreaterThan,
            VersionConstraint::LessThan(_) => ConstraintOp::LessThan,
        }
    }

    /// The version string the constraint carries.
    pub open spec fn version(self) -> Seq<char> {
        match self {
            VersionConstraint::Exact(v) => v@,
            VersionConstraint::AtLeast(v) => v@,
            VersionConstraint::AtMost(v) => v@,
            VersionConstraint::GreaterThan(v) => v@,
            VersionConstraint::LessThan(v) => v@,
        }
    }
}

/// A parsed package request: a name and an optional version constraint.
/// Immutable once parsed.
#[derive(Clone, Debug)]
pub struct PackageSpec {
    pub name: String,
    pub constraint: Option<VersionConstraint>,
}

/// The characters of the two-character operator pair `c0 c1` stand at
/// position `i` of `s`.
pub open spec fn match2_at(s: Seq<char>, c0: char, c1: char, i: int) -> bool {
    0 <= i && i + 1 < s.len() && s[i] == c0 && s[i + 1] == c1
}

/// The character `c` stands at position `i` of `s`.
pub open spec fn match1_at(s: Seq<char>, c: char, i: int) -> bool {
    0 <= i < s.len() && s[i] == c
}

/// The pair `c0 c1` occurs nowhere in `s`.
pub open spec fn no_match2(s: Seq<char>, c0: char, c1: char) -> bool {
    forall|j: int| !match2_at(s, c0, c1, j)
}

/// The character `c` occurs nowhere in `s`.
pub open spec fn no_match1(s: Seq<char>, c: char) -> bool {
    forall|j: int| !match1_at(s, c, j)
}

/// `i` is the first position of `s` where the pair `c0 c1` stands.
pub open spec fn first_match2(s: Seq<char>, c0: char, c1: char, i: int) -> bool {
    match2_at(s, c0, c1, i) && (forall|j: int| 0 <= j < i ==> !match2_at(s, c0, c1, j))
}

/// `i` is the first position of `s` where `c` stands.
pub open spec fn first_match1(s: Seq<char>, c: char, i: int) -> bool {
    match1_at(s, c, i) && (forall|j: int| 0 <= j < i ==> !match1_at(s, c, j))
}

/// What `parse_package_spec` returns on the string `s`: the first operator in
/// the priority order `==`, `>=`, `<=`, `>`, `<` splits `s`; a string with no
/// operator is all name.
pub open spec fn spec_parse_ok(s: Seq<char>, p: PackageSpec) -> bool {
    if !no_match2(s, '=', '=') {
        exists|i: int|
            first_match2(s, '=', '=', i) && p.name@ == s.subrange(0, i)
                && (p.constraint matches Some(c) && c.op() == ConstraintOp::Exact && c.version()
                == s.subrange(i + 2, s.len() as int))
    } else if !no_match2(s, '>', '=') {
        exists|i: int|
            first_match2(s, '>', '=', i) && p.name@ == s.subrange(0, i)
                && (p.constraint matches Some(c) && c.op() == ConstraintOp::AtLeast && c.version()
                == s.subrange(i + 2, s.len() as int))
    } else if !no_match2(s, '<', '=') {
        exists|i: int|
            first_match2(s, '<', '=', i) && p.name@ == s.subrange(0, i)
                && (p.constraint matches Some(c) && c.op() == ConstraintOp::AtMost && c.version()
                == s.subrange(i + 2, s.len() as int))
    } else if !no_match1(s, '>') {
        exists|i: int|
            first_match1(s, '>', i) && p.name@ == s.subrange(0, i)
                && (p.constraint matches Some(c) && c.op() == ConstraintOp::GreaterThan
                && c.version() == s.subrange(i + 1, s.len() as int))
    } else if !no_match1(s, '<') {
        exists|i: int|
            first_match1(s, '<', i) && p.name@ == s.subrange(0, i)
                && (p.constraint matches Some(c) && c.op() == ConstraintOp::LessThan && c.version()
                == s.subrange(i + 1, s.len() as int))
    } else {
        p.name@ == s && p.constraint is None
    }
}

/// The characters of the operator class `op`, as written in a spec string.
pub open spec fn op_chars(op: ConstraintOp) -> Seq<char> {
    match op {
        ConstraintOp::Exact => seq!['=', '='],
        ConstraintOp::AtLeast => seq!['>', '='],
        ConstraintOp::AtMost => seq!['<', '='],
        ConstraintOp::GreaterThan => seq!['>'],
        ConstraintOp::LessThan => seq!['<'],
    }
}

/// `s` holds none of the characters an operator is written with.
pub open spec fn operator_free(s: Seq<char>) -> bool {
    forall|j: int| 0 <= j < s.len() ==> s[j] != '=' && s[j] != '<' && s[j] != '>'
}

/// Law: a spec string with no operator characters parses to itself as the
/// name, with no constraint.
pub proof fn lemma_parse_round_trip_plain(s: Seq<char>, p: PackageSpec)
    requires
        operator_free(s),
        spec_parse_ok(s, p),
    ensures
        p.name@ == s,
        p.constraint is None,
{
    assert forall|j: int| !match2_at(s, '=', '=', j) by {
        if 0 <= j && j + 1 < s.len() {
            assert(s[j] != '=');
        }
    }
    assert forall|j: int| !match2_at(s, '>', '=', j) by {
        if 0 <= j && j + 1 < s.len() {
            assert(s[j] != '>');
        }
    }
    assert forall|j: int| !match2_at(s, '<', '=', j) by {
        if 0 <= j && j + 1 < s.len() {
            assert(s[j] != '<');
        }
    }
    assert forall|j: int| !match1_at(s, '>', j) by {
        if 0 <= j && j < s.len() {
            assert(s[j] != '>');
        }
    }
    assert forall|j: int| !match1_at(s, '<', j) by {
        if 0 <= j && j < s.len() {
            assert(s[j] != '<');
        }
    }
}

/// Law: writing a clean name, an operator, and a clean version back to back
/// and parsing the result gives back the same name, the same operator class,
/// and the same version. Here clean means free of the characters `=`, `<`,
/// `>`; a version holding them can shift which operator is found first.
pub proof fn lemma_parse_round_trip(name: Seq<char>, op: ConstraintOp, v: Seq<char>, p: PackageSpec)
    requires
        operator_free(name),
        operator_free(v),
        spec_parse_ok(name + op_chars(op) + v, p),
    ensures
        p.name@ == name,
        p.constraint matches Some(c) && c.op() == op && c.version() == v,
{
    let s = name + op_chars(op) + v;
    let ol = op_chars(op).len() as int;
    let nl = name.len() as int;
    let sl = s.len() as int;
    assert(sl == nl + ol + v.len());
    assert forall|j: int| 0 <= j < nl implies s[j] == name[j] by {}
    assert forall|j: int| nl + ol <= j < sl implies s[j] == v[j - nl - ol] by {}
    match op {
        ConstraintOp::Exact => {
            assert(s[nl] == '=' && s[nl + 1] == '=');
            assert forall|j: int| 0 <= j < nl implies !match2_at(s, '=', '=', j) by {
                assert(s[j] == name[j]);
            }
            assert(first_match2(s, '=', '=', nl));
            assert(!no_match2(s, '=', '='));
            let i = choose|i: int|
                first_match2(s, '=', '=', i) && p.name@ == s.subrange(0, i)
                    && (p.constraint matches Some(c) && c.op() == ConstraintOp::Exact
                    && c.version() == s.subrange(i + 2, sl));
            assert(i == nl) by {
                if i < nl {
                    assert(!match2_at(s, '=', '=', i));
                }
                if i > nl {
                    assert(!match2_at(s, '=', '=', nl));
                }
            }
            assert(s.subrange(0, nl) =~= name);
            assert(s.subrange(nl + 2, sl) =~= v);
        },
        ConstraintOp::AtLeast => {
            assert(s[nl] == '>' && s[nl + 1] == '=');
            assert forall|j: int| !match2_at(s, '=', '=', j) by {
                if 0 <= j && j + 1 < sl {
                    if j < nl {
                        assert(s[j] == name[j]);
                    } else if j == nl {
                        assert(s[j] == '>');
                    } else if j == nl + 1 {
                        assert(s[j + 1] == v[0]);
                    } else {
                        assert(s[j] == v[j - nl - ol]);
                    }
                }
            }
            assert forall|j: int| 0 <= j < nl implies !match2_at(s, '>', '=', j) by {
                assert(s[j] == name[j]);
            }
            assert(first_match2(s, '>', '=', nl));
            assert(!no_match2(s, '>', '='));
            let i = choose|i: int|
                first_match2(s, '>', '=', i) && p.name@ == s.subrange(0, i)
                    && (p.constraint matches Some(c) && c.op() == ConstraintOp::AtLeast
                    && c.version() == s.subrange(i + 2, sl));
            assert(i == nl) by {
                if i < nl {
                    assert(!match2_at(s, '>', '=', i));
                }
                if i > nl {
                    assert(!match2_at(s, '>', '=', nl));
                }
            }
            assert(s.subrange(0, nl) =~= name);
            assert(s.subrange(nl + 2, sl) =~= v);
        },
        ConstraintOp::AtMost => {
            assert(s[nl] == '<' && s[nl + 1] == '=');
            assert forall|j: int| !match2_at(s, '=', '=', j) by {
                if 0 <= j && j + 1 < sl {
                    if j < nl {
                        assert(s[j] == name[j]);
                    } else if j == nl {
                        assert(s[j] == '<');
                    } else if j == nl + 1 {
                        assert(s[j + 1] == v[0]);
                    } else {
                        assert(s[j] == v[j - nl - ol]);
                    }
                }
            }
            assert forall|j: int| !match2_at(s, '>', '=', j) by {
                if 0 <= j && j + 1 < sl {
                    if j < nl {
                        assert(s[j] == name[j]);
                    } else if j == nl {
                        assert(s[j] == '<');
                    } else if j == nl + 1 {
                        assert(s[j] == '=');
                    } else {
                        assert(s[j] == v[j - nl - ol]);
                    }
                }
            }
            assert forall|j: int| 0 <= j < nl implies !match2_at(s, '<', '=', j) by {
                assert(s[j] == name[j]);
            }
            assert(first_match2(s, '<', '=', nl));
            assert(!no_match2(s, '<', '='));
            let i = choose|i: int|
                first_match2(s, '<', '=', i) && p.name@ == s.subrange(0, i)
                    && (p.constraint matches Some(c) && c.op() == ConstraintOp::AtMost
                    && c.version() == s.subrange(i + 2, sl));
            assert(i == nl) by {
                if i < nl {
                    assert(!match2_at(s, '<', '=', i));
                }
                if i > nl {
                    assert(!match2_at(s, '<', '=', nl));
                }
            }
            assert(s.subrange(0, nl) =~= name);
            assert(s.subrange(nl + 2, sl) =~= v);
        },
        ConstraintOp::GreaterThan => {
            assert(s[nl] == '>');
            assert forall|j: int| !match2_at(s, '=', '=', j) by {
                if 0 <= j && j + 1 < sl {
                    if j < nl {
                        assert(s[j] == name[j]);
                    } else if j == nl {
                        assert(s[j] == '>');
                    } else {
                        assert(s[j] == v[j - nl - ol]);
                    }
                }
            }
            assert forall|j: int| !match2_at(s, '>', '=', j) by {
                if 0 <= j && j + 1 < sl {
                    if j < nl {
                        assert(s[j] == name[j]);
                    } else if j == nl {
                        assert(s[j + 1] == v[0]);
                    } else {
                        assert(s[j] == v[j - nl - ol]);
                    }
                }
            }
            assert forall|j: int| !match2_at(s, '<', '=', j) by {
                if 0 <= j && j + 1 < sl {
                    if j < nl {
                        assert(s[j] == name[j]);
                    } else if j == nl {
                        assert(s[j] == '>');
                    } else {
                        assert(s[j] == v[j - nl - ol]);
                    }
                }
            }
            assert forall|j: int| 0 <= j < nl implies !match1_at(s, '>', j) by {
                assert(s[j] == name[j]);
            }
            assert(first_match1(s, '>', nl));
            assert(!no_match1(s, '>'));
            let i = choose|i: int|
                first_match1(s, '>', i) && p.name@ == s.subrange(0, i)
                    && (p.constraint matches Some(c) && c.op() == ConstraintOp::GreaterThan
                    && c.version() == s.subrange(i + 1, sl));
            assert(i == nl) by {
                if i < nl {
                    assert(!match1_at(s, '>', i));
                }
                if i > nl {
                    assert(!match1_at(s, '>', nl));
                }
            }
            assert(s.subrange(0, nl) =~= name);
            assert(s.subrange(nl + 1, sl) =~= v);
        },
        ConstraintOp::LessThan => {
            assert(s[nl] == '<');
            assert forall|j: int| !match2_at(s, '=', '=', j) by {
                if 0 <= j && j + 1 < sl {
                    if j < nl {
                        assert(s[j] == name[j]);
                    } else if j == nl {
                        assert(s[j] == '<');
                    } else {
                        assert(s[j] == v[j - nl - ol]);
                    }
                }
            }
            assert forall|j: int| !match2_at(s, '>', '=', j) by {
                if 0 <= j && j + 1 < sl {
                    if j < nl {
                        assert(s[j] == name[j]);
                    } else if j == nl {
                        assert(s[j] == '<');
                    } else {
                        assert(s[j] == v[j - nl - ol]);
                    }
                }
            }
            assert forall|j: int| !match2_at(s, '<', '=', j) by {
                if 0 <= j && j + 1 < sl {
                    if j < nl {
                        assert(s[j] == name[j]);
                    } else if j == nl {
                        assert(s[j + 1] == v[0]);
                    } else {
                        assert(s[j] == v[j - nl - ol]);
                    }
                }
            }
            assert forall|j: int| !match1_at(s, '>', j) by {
                if 0 <= j && j < sl {
                    if j < nl {
                        assert(s[j] == name[j]);
                    } else if j == nl {
                        assert(s[j] == '<');
                    } else {
                        assert(s[j] == v[j - nl - ol]);
                    }
                }
            }
            assert forall|j: int| 0 <= j < nl implies !match1_at(s, '<', j) by {
                assert(s[j] == name[j]);
            }
            assert(first_match1(s, '<', nl));
            assert(!no_match1(s, '<'));
            let i = choose|i: int|
                first_match1(s, '<', i) && p.name@ == s.subrange(0, i)
                    && (p.constraint matches Some(c) && c.op() == ConstraintOp::LessThan
                    && c.version() == s.subrange(i + 1, sl));
            assert(i == nl) by {
                if i < nl {
                    assert(!match1_at(s, '<', i));
                }
                if i > nl {
                    assert(!match1_at(s, '<', nl));
                }
            }
            assert(s.subrange(0, nl) =~= name);
            assert(s.subrange(nl + 1, sl) =~= v);
        },
    }
}

/// First position where the pair `c0 c1` occurs in `s`, if any.
fn find2(s: &str, c0: char, c1: char) -> (r: Option<usize>)
    ensures
        match r {
            Some(i) => first_match2(s@, c0, c1, i as int),
            None => no_match2(s@, c0, c1),
        },
{
    let n = s.unicode_len();
    if n < 2 {
        return None;
    }
    let mut i: usize = 0;
    while i + 1 < n
        invariant
            n == s@.len(),
            2 <= n,
            i <= n - 1,
            forall|j: int| 0 <= j < i ==> !match2_at(s@, c0, c1, j),
        decreases n - i,
    {
        if s.get_char(i) == c0 && s.get_char(i + 1) == c1 {
            return Some(i);
        }
        i = i + 1;
    }
    None
}

/// First position where `c` occurs in `s`, if any.
fn find1(s: &str, c: char) -> (r: Option<usize>)
    ensures
        match r {
            Some(i) => first_match1(s@, c, i as int),
            None => no_match1(s@, c),
        },
{
    let n = s.unicode_len();
    let mut i: usize = 0;
    while i < n
        invariant
            n == s@.len(),
            i <= n,
            forall|j: int| 0 <= j < i ==> !match1_at(s@, c, j),
        decreases n - i,
    {
        if s.get_char(i) == c {
            return Some(i);
        }
        i = i + 1;
    }
    None
}

/// Parse a package specification string into a name and an optional version
/// constraint. The operators `==`, `>=`, `<=`, `>`, `<` are searched in that
/// priority order; the first one found wins.
pub fn parse_package_spec(spec: &str) -> (r: PackageSpec)
    ensures
        spec_parse_ok(spec@, r),
{
    let n = spec.unicode_len();
    if let Some(i) = find2(spec, '=', '=') {
        let name = String::from_str(spec.substring_char(0, i));
        let ver = String::from_str(spec.substring_char(i + 2, n));
        PackageSpec { name, constraint: Some(VersionConstraint::Exact(ver)) }
    } else if let Some(i) = find2(spec, '>', '=') {
        let name = String::from_str(spec.substring_char(0, i));
        let ver = String::from_str(spec.substring_char(i + 2, n));
        PackageSpec { name, constraint: Some(VersionConstraint::AtLeast(ver)) }
    } else if let Some(i) = find2(spec, '<', '=') {
        let name = String::from_str(spec.substring_char(0, i));
        let ver = String::from_str(spec.substring_char(i + 2, n));
        PackageSpec { name, constraint: Some(VersionConstraint::AtMost(ver)) }
    } else if let Some(i) = find1(spec, '>') {
        let name = String::from_str(spec.substring_char(0, i));
        let ver = String::from_str(spec.substring_char(i + 1, n));
        PackageSpec { name, constraint: Some(VersionConstraint::GreaterThan(ver)) }
    } else if let Some(i) = find1(spec, '<') {
        let name = String::from_str(spec.substring_char(0, i));
        let ver = String::from_str(spec.substring_char(i + 1, n));
        PackageSpec { name, constraint: Some(VersionConstraint::LessThan(ver)) }
    } else {
        PackageSpec { name: String::from_str(spec), constraint: None }
    }
}

} // verus!
