//! The lock file's in-memory form: resolved packages keyed by name, plus a
//! metadata block of tool and timestamp details. Reading and writing the
//! on-disk form belongs to the caller.

use vstd::prelude::*;
use crate::resolver::{find_version, has_version, version_chosen, PackageMetadata};

verus! {

/// One resolved package: name, version, source URL, and (one level of)
/// dependencies.
#[derive(Debug)]
pub struct Dependency {
    pub name: String,
    pub version: String,
    pub source: String,
    pub dependencies: Vec<Dependency>,
}

/// The lock file's metadata block: format version, Python version,
/// timestamp, and tool version.
#[derive(Clone, Debug)]
pub struct LockFileMetadata {
    pub version: String,
    pub python_version: String,
    pub generated_at: String,
    pub mint_version: String,
}

/// The lock file: resolved packages, each name at most once, and the
/// metadata block.
#[derive(Debug)]
pub struct LockFile {
    pub packages: Vec<Dependency>,
    pub metadata: LockFileMetadata,
}

/// Relies on chrono::Utc::now, rendered with DateTime::to_rfc3339: the
/// current time in RFC 3339 form. The result depends on the clock, so
/// nothing more is assumed of it.
#[verifier::external_body]
fn utc_now_rfc3339() -> (r: String) {
    chrono::Utc::now().to_rfc3339()
}

/// The version a one-level lookup asks for, as a sequence of characters.
pub open spec fn spec_requested_version(version: Option<&str>) -> Option<Seq<char>> {
    match version {
        Some(v) => Some(v@),
        None => None,
    }
}

/// One level of dependency lookup: the resolved record for one package, from
/// its fetched index metadata. The release picked is the one carrying the
/// requested version, or the last release in index order when none is
/// requested; the record points at that release's first file. `None` when
/// the requested version is absent, there are no releases, or the picked
/// release lists no files. Dependencies of the dependency are not followed.
pub fn dependency_from_metadata(name: &str, version: Option<&str>, meta: &PackageMetadata) -> (r:
    Option<Dependency>)
    requires
        meta.wf(),
    ensures
        match r {
            Some(d) => {
                &&& d.name@ == name@
                &&& d.version@ == (match spec_requested_version(version) {
                    Some(v) => v,
                    None => "latest"@,
                })
                &&& d.dependencies@.len() == 0
                &&& exists|k: int|
                    #[trigger] version_chosen(
                        meta.releases@,
                        spec_requested_version(version),
                        k,
                    ) && meta.releases@[k].files@.len() > 0 && d.source@
                        == meta.releases@[k].files@[0]@
            },
            None => match spec_requested_version(version) {
                Some(v) => !has_version(meta.releases@, v) || (forall|k: int|
                    #[trigger] version_chosen(meta.releases@, Some(v), k)
                        ==> meta.releases@[k].files@.len() == 0),
                None => meta.releases@.len() == 0 || meta.releases@[meta.releases@.len()
                    - 1].files@.len() == 0,
            },
        },
{
    let rs = &meta.releases;
    let ghost rss = rs@;
    let chosen: Option<usize> = match version {
        Some(v) => {
            let key = String::from_str(v);
            let found = find_version(rs, &key);
            if found.is_none() {
                return None;
            }
            found
        },
        None => {
            if rs.len() > 0 {
                Some(rs.len() - 1)
            } else {
                return None;
            }
        },
    };
    let k = chosen.unwrap();
    proof {
        assert(version_chosen(rss, spec_requested_version(version), k as int));
    }
    if rs[k].files.len() == 0 {
        proof {
            if let Some(v) = spec_requested_version(version) {
                assert forall|k2: int| version_chosen(rss, Some(v), k2) implies rss[k2].files@.len()
                    == 0 by {
                    if k2 != k as int {
                        if k2 < k as int {
                            assert(rss[k2].version@ != rss[k as int].version@);
                        } else {
                            assert(rss[k as int].version@ != rss[k2].version@);
                        }
                    }
                }
            }
        }
        return None;
    }
    Some(
        Dependency {
            name: String::from_str(name),
            version: match version {
                Some(v) => String::from_str(v),
                None => String::from_str("latest"),
            },
            source: rs[k].files[0].clone(),
            dependencies: Vec::new(),
        },
    )
}

/// Some package in `ps` is named `name`.
pub open spec fn has_package_named(ps: Seq<Dependency>, name: Seq<char>) -> bool {
    exists|k: int| 0 <= k < ps.len() && #[trigger] ps[k].name@ == name
}

impl LockFile {
    /// Each package name occurs at most once.
    pub open spec fn wf(self) -> bool {
        forall|a: int, b: int|
            0 <= a < b < self.packages@.len() ==> #[trigger] self.packages@[a].name@
                != #[trigger] self.packages@[b].name@
    }

    /// A fresh lock file with no packages, stamped with the current time.
    pub fn new(python_version: String, mint_version: String) -> (r: LockFile)
        ensures
            r.wf(),
            r.packages@.len() == 0,
            r.metadata.version@ == "1.0"@,
            r.metadata.python_version@ == python_version@,
            r.metadata.mint_version@ == mint_version@,
    {
        LockFile {
            packages: Vec::new(),
            metadata: LockFileMetadata {
                version: String::from_str("1.0"),
                python_version,
                generated_at: utc_now_rfc3339(),
                mint_version,
            },
        }
    }

    /// Index of the package named `name`, if one exists.
    fn find_package(&self, name: &String) -> (r: Option<usize>)
        ensures
            match r {
                Some(k) => k < self.packages@.len() && self.packages@[k as int].name@ == name@,
                None => !has_package_named(self.packages@, name@),
            },
    {
        let mut k: usize = 0;
        while k < self.packages.len()
            invariant
                k <= self.packages@.len(),
                forall|j: int| 0 <= j < k ==> #[trigger] self.packages@[j].name@ != name@,
            decreases self.packages@.len() - k,
        {
            if self.packages[k].name == *name {
                return Some(k);
            }
            k = k + 1;
        }
        None
    }

    /// Add a resolved package, replacing any package of the same name.
    pub fn add_package(&mut self, dep: Dependency)
        requires
            old(self).wf(),
        ensures
            final(self).wf(),
            final(self).metadata == old(self).metadata,
            has_package_named(final(self).packages@, dep.name@),
            if has_package_named(old(self).packages@, dep.name@) {
                exists|k: int|
                    0 <= k < old(self).packages@.len() && #[trigger] old(self).packages@[k].name@
                        == dep.name@ && final(self).packages@ == old(self).packages@.update(k, dep)
            } else {
                final(self).packages@ == old(self).packages@.push(dep)
            },
    {
        let ghost before = self.packages@;
        let ghost nameview = dep.name@;
        let found = self.find_package(&dep.name);
        match found {
            Some(k) => {
                self.packages[k] = dep;
                proof {
                    assert forall|a: int, b: int|
                        0 <= a < b < self.packages@.len() implies #[trigger] self.packages@[a].name@
                        != #[trigger] self.packages@[b].name@ by {
                        assert(self.packages@[a].name@ == before[a].name@);
                        assert(self.packages@[b].name@ == before[b].name@);
                        assert(before[a].name@ != before[b].name@);
                    }
                    assert(self.packages@[k as int].name@ == nameview);
                }
            },
            None => {
                self.packages.push(dep);
                proof {
                    let last = self.packages@.len() - 1;
                    assert(self.packages@[last].name@ == nameview);
                    assert forall|a: int, b: int|
                        0 <= a < b < self.packages@.len() implies #[trigger] self.packages@[a].name@
                        != #[trigger] self.packages@[b].name@ by {
                        if b == last {
                            assert(self.packages@[a].name@ == before[a].name@);
                            assert(!has_package_named(before, nameview));
                        } else {
                            assert(before[a].name@ != before[b].name@);
                        }
                    }
                }
            },
        }
    }

    /// Whether a package of this name is locked.
    pub fn has_package(&self, name: &str) -> (r: bool)
        ensures
            r == has_package_named(self.packages@, name@),
    {
        let key = String::from_str(name);
        self.find_package(&key).is_some()
    }

    /// The locked package of this name, if any.
    pub fn get_package(&self, name: &str) -> (r: Option<&Dependency>)
        ensures
            match r {
                Some(d) => has_package_named(self.packages@, name@) && d.name@ == name@ && (
                exists|k: int|
                    0 <= k < self.packages@.len() && *d == #[trigger] self.packages@[k]),
                None => !has_package_named(self.packages@, name@),
            },
    {
        let key = String::from_str(name);
        match self.find_package(&key) {
            Some(k) => Some(&self.packages[k]),
            None => None,
        }
    }
}

} // verus!
