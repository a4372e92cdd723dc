//! Release selection over fetched index metadata.
//!
//! The index response is modelled as an ordered list of releases, each a
//! version string with its list of artifact URLs. The caller fetches and
//! decodes the index document and hands it over in this form.

use vstd::prelude::*;
use crate::pkgspec::{match1_at, no_match1, VersionConstraint};

verus! {

/// One release of a package: its version string and the download URLs of its
/// artifact files, in index order.
#[derive(Clone, Debug)]
pub struct ReleaseEntry {
    pub version: String,
    pub files: Vec<String>,
}

/// Index metadata for one package: its releases in index order. Read-only
/// once fetched.
#[derive(Clone, Debug)]
pub struct PackageMetadata {
    pub releases: Vec<ReleaseEntry>,
}

/// One artifact to acquire: where to get it and what to call it on disk.
#[derive(Clone, Debug)]
pub struct ReleaseFile {
    pub url: String,
    pub file_name: String,
}

/// Why selection failed: the requested version is absent, there are no
/// releases at all, or the selected release lists no files.
#[derive(Clone, Copy, Debug, PartialEq, Eq, Structural)]
pub enum SelectError {
    NoMatchingRelease,
}

impl PackageMetadata {
    /// A release map has each version at most once.
    pub open spec fn wf(self) -> bool {
        forall|a: int, b: int|
            0 <= a < b < self.releases@.len() ==> #[trigger] self.releases@[a].version@
                != #[trigger] self.releases@[b].version@
    }

    /// The releases of this package, in index order.
    pub fn releases(&self) -> (r: &Vec<ReleaseEntry>)
        ensures
            r == &self.releases,
    {
        &self.releases
    }
}

/// The generic artifact name used when a URL has no final path segment.
pub open spec fn generic_file_name() -> Seq<char> {
    "package.whl"@
}

/// `i` is the position of the last `/` in `s`.
pub open spec fn last_slash_at(s: Seq<char>, i: int) -> bool {
    match1_at(s, '/', i) && (forall|j: int| i < j < s.len() ==> s[j] != '/')
}

/// `name` is the file name derived from `url`: the substring after the final
/// `/`, the whole URL when it has no `/`, and the generic name when that
/// leaves nothing.
pub open spec fn file_name_ok(url: Seq<char>, name: Seq<char>) -> bool {
    if no_match1(url, '/') {
        name == (if url.len() == 0 {
            generic_file_name()
        } else {
            url
        })
    } else {
        exists|i: int|
            #[trigger] last_slash_at(url, i) && name == (if i + 1 == url.len() {
                generic_file_name()
            } else {
                url.subrange(i + 1, url.len() as int)
            })
    }
}

/// `files` is `urls`, each turned into a `ReleaseFile` with its derived file
/// name, in order.
pub open spec fn files_match(urls: Seq<String>, files: Seq<ReleaseFile>) -> bool {
    &&& files.len() == urls.len()
    &&& forall|t: int|
        0 <= t < urls.len() ==> #[trigger] files[t].url@ == urls[t]@ && file_name_ok(
            urls[t]@,
            files[t].file_name@,
        )
}

/// The version string demanded exactly, if the constraint demands one.
pub open spec fn spec_exact_version(c: Option<VersionConstraint>) -> Option<Seq<char>> {
    match c {
        Some(VersionConstraint::Exact(v)) => Some(v@),
        _ => None,
    }
}

/// Some release in `rs` carries the version `v`.
pub open spec fn has_version(rs: Seq<ReleaseEntry>, v: Seq<char>) -> bool {
    exists|k: int| 0 <= k < rs.len() && #[trigger] rs[k].version@ == v
}

/// `k` is the release that the selection policy picks: the release carrying
/// the version `v` when one is demanded, and otherwise the last release in
/// index order. The last entry stands in for "latest"; no semantic version
/// comparison is made.
pub open spec fn version_chosen(rs: Seq<ReleaseEntry>, v: Option<Seq<char>>, k: int) -> bool {
    &&& 0 <= k < rs.len()
    &&& match v {
        Some(ver) => rs[k].version@ == ver,
        None => k == rs.len() - 1,
    }
}

/// `k` is the release picked for the constraint `c`: only an exact
/// constraint demands a particular version.
pub open spec fn is_chosen(rs: Seq<ReleaseEntry>, c: Option<VersionConstraint>, k: int) -> bool {
    version_chosen(rs, spec_exact_version(c), k)
}

/// Everything `get_download_urls` promises: on success the files of the
/// chosen release, each with its derived name, and never an empty list; on
/// failure the reason the policy found nothing.
pub open spec fn select_files_post(
    rs: Seq<ReleaseEntry>,
    c: Option<VersionConstraint>,
    r: Result<Vec<ReleaseFile>, SelectError>,
) -> bool {
    match r {
        Ok(files) => exists|k: int|
            #[trigger] is_chosen(rs, c, k) && rs[k].files@.len() > 0 && files_match(
                rs[k].files@,
                files@,
            ),
        Err(e) => {
            &&& e == SelectError::NoMatchingRelease
            &&& match spec_exact_version(c) {
                Some(v) => !has_version(rs, v) || (forall|k: int|
                    #[trigger] is_chosen(rs, c, k) ==> rs[k].files@.len() == 0),
                None => rs.len() == 0 || rs[rs.len() - 1].files@.len() == 0,
            }
        },
    }
}

/// File name for one URL: the substring after its last `/`; the whole URL
/// when it has no `/`; the generic name when that leaves nothing.
fn extract_file_name(url: &str) -> (r: String)
    ensures
        file_name_ok(url@, r@),
{
    let n = url.unicode_len();
    let mut i = n;
    while i > 0
        invariant
            n == url@.len(),
            i <= n,
            forall|j: int| i <= j < n ==> url@[j] != '/',
        decreases i,
    {
        if url.get_char(i - 1) == '/' {
            proof {
                assert(last_slash_at(url@, i - 1));
            }
            if i == n {
                return String::from_str("package.whl");
            }
            return String::from_str(url.substring_char(i, n));
        }
        i = i - 1;
    }
    if n == 0 {
        String::from_str("package.whl")
    } else {
        String::from_str(url)
    }
}

/// First release carrying the version `v`, if any.
pub(crate) fn find_version(rs: &Vec<ReleaseEntry>, v: &String) -> (r: Option<usize>)
    ensures
        match r {
            Some(k) => k < rs@.len() && rs@[k as int].version@ == v@,
            None => !has_version(rs@, v@),
        },
{
    let mut k: usize = 0;
    while k < rs.len()
        invariant
            k <= rs@.len(),
            forall|j: int| 0 <= j < k ==> #[trigger] rs@[j].version@ != v@,
        decreases rs@.len() - k,
    {
        if rs[k].version == *v {
            return Some(k);
        }
        k = k + 1;
    }
    None
}

/// Select the artifacts to acquire for one package: the files of the exactly
/// demanded version, or of the last release in index order for any other (or
/// no) constraint. Fails when the demanded version is absent, when there are
/// no releases, or when the selected release lists no files; a successful
/// result is never empty.
pub fn get_download_urls(meta: &PackageMetadata, constraint: &Option<VersionConstraint>) -> (r:
    Result<Vec<ReleaseFile>, SelectError>)
    requires
        meta.wf(),
    ensures
        select_files_post(meta.releases@, *constraint, r),
{
    let rs = &meta.releases;
    let ghost rss = rs@;
    let chosen: Option<usize> = match constraint {
        Some(VersionConstraint::Exact(v)) => {
            let found = find_version(rs, v);
            if found.is_none() {
                return Err(SelectError::NoMatchingRelease);
            }
            found
        },
        _ => {
            if rs.len() > 0 {
                Some(rs.len() - 1)
            } else {
                return Err(SelectError::NoMatchingRelease);
            }
        },
    };
    let k = chosen.unwrap();
    proof {
        assert(is_chosen(rss, *constraint, k as int));
    }
    let entry = &rs[k];
    if entry.files.len() == 0 {
        proof {
            assert forall|k2: int| is_chosen(rss, *constraint, k2) implies rss[k2].files@.len()
                == 0 by {
                assert(rss[k2].version@ == rss[k as int].version@);
                if k2 != k as int {
                    if k2 < k as int {
                        assert(rss[k2].version@ != rss[k as int].version@);
                    } else {
                        assert(rss[k as int].version@ != rss[k2].version@);
                    }
                }
            }
        }
        return Err(SelectError::NoMatchingRelease);
    }
    let mut out: Vec<ReleaseFile> = Vec::new();
    let mut j: usize = 0;
    while j < entry.files.len()
        invariant
            rss == rs@,
            k < rss.len(),
            entry == rs[k as int],
            j <= entry.files@.len(),
            out@.len() == j,
            forall|t: int|
                0 <= t < j ==> #[trigger] out@[t].url@ == entry.files@[t]@ && file_name_ok(
                    entry.files@[t]@,
                    out@[t].file_name@,
                ),
        decreases entry.files@.len() - j,
    {
        let url = &entry.files[j];
        let name = extract_file_name(url.as_str());
        out.push(ReleaseFile { url: url.clone(), file_name: name });
        j = j + 1;
    }
    proof {
        assert(files_match(rss[k as int].files@, out@));
    }
    Ok(out)
}

/// Law: an exact-version constraint whose version no release carries always
/// fails with `NoMatchingRelease`; it never yields an empty-but-successful
/// list.
pub proof fn lemma_exact_absent_always_fails(
    rs: Seq<ReleaseEntry>,
    c: Option<VersionConstraint>,
    r: Result<Vec<ReleaseFile>, SelectError>,
)
    requires
        select_files_post(rs, c, r),
        c matches Some(VersionConstraint::Exact(v)) && !has_version(rs, v@),
    ensures
        r matches Err(e) && e == SelectError::NoMatchingRelease,
{
    if r is Ok {
        let k = choose|k: int|
            is_chosen(rs, c, k) && rs[k].files@.len() > 0 && files_match(
                rs[k].files@,
                r->Ok_0@,
            );
        assert(rs[k].version@ == spec_exact_version(c)->Some_0);
    }
}

/// The URL of the index document for one package:
/// `https://pypi.org/pypi/<name>/json`.
pub fn metadata_url(package: &str) -> (r: String)
    ensures
        r@ == "https://pypi.org/pypi/"@ + package@ + "/json"@,
{
    let mut s = String::from_str("https://pypi.org/pypi/");
    s.append(package);
    s.append("/json");
    s
}

} // verus!
