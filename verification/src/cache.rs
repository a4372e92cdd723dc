//! The artifact cache: one flat directory of files, reused by modification
//! age alone.
//!
//! The directory's observable state is modelled as a list of entries, one per
//! file, each carrying its name and its modification time in seconds. The
//! caller reads the real directory into this model, asks it what to do, and
//! carries the answer out; the decisions themselves, and the staleness
//! policy, live here.

use vstd::prelude::*;

verus! {

/// Age in seconds up to which an existing cache file is reused instead of
/// copied over: 24 hours.
pub const FRESH_SECS: u64 = 86400;

/// Age in seconds beyond which a sweep deletes a cache file: 7 days.
pub const SWEEP_AGE_SECS: u64 = 604800;

/// One file in the cache directory: its name and its modification time,
/// in seconds of some fixed clock.
#[derive(Clone, Debug)]
pub struct CacheEntryInfo {
    pub name: String,
    pub modified_secs: u64,
}

/// The observable state of the cache directory.
#[derive(Clone, Debug)]
pub struct CacheState {
    pub entries: Vec<CacheEntryInfo>,
}

/// A file modified at `modified` is fresh at `now`: no older than 24 hours,
/// and not from the future (a future modification time counts as stale, so
/// the file is copied over).
pub open spec fn spec_is_fresh(modified: u64, now: u64) -> bool {
    modified <= now && now - modified <= FRESH_SECS
}

/// A file modified at `modified` is expired at `now`: strictly older than
/// 7 days. A future modification time never counts as expired.
pub open spec fn spec_is_expired(modified: u64, now: u64) -> bool {
    modified <= now && now - modified > SWEEP_AGE_SECS
}

/// Whether an existing cache file is fresh enough to reuse.
pub fn entry_is_fresh(modified_secs: u64, now_secs: u64) -> (r: bool)
    ensures
        r == spec_is_fresh(modified_secs, now_secs),
{
    modified_secs <= now_secs && now_secs - modified_secs <= FRESH_SECS
}

/// Whether a sweep at `now_secs` deletes a file modified at `modified_secs`.
pub fn entry_is_expired(modified_secs: u64, now_secs: u64) -> (r: bool)
    ensures
        r == spec_is_expired(modified_secs, now_secs),
{
    modified_secs <= now_secs && now_secs - modified_secs > SWEEP_AGE_SECS
}

/// What `store` asks the caller to do with the source file.
#[derive(Clone, Copy, Debug, PartialEq, Eq, Structural)]
pub enum StoreAction {
    /// Copy the source file over the cache path (creating or overwriting).
    Copied,
    /// The cached file is fresh; no copy is performed.
    Reused,
}

/// Some entry of `es` is named `name`.
pub open spec fn has_entry(es: Seq<CacheEntryInfo>, name: Seq<char>) -> bool {
    exists|k: int| 0 <= k < es.len() && #[trigger] es[k].name@ == name
}

/// Some entry of `es` is named `name` and is fresh at `now`.
pub open spec fn entry_fresh(es: Seq<CacheEntryInfo>, name: Seq<char>, now: u64) -> bool {
    exists|k: int|
        0 <= k < es.len() && #[trigger] es[k].name@ == name && spec_is_fresh(
            es[k].modified_secs,
            now,
        )
}

/// The entries that a sweep at `now` keeps: those not expired.
pub open spec fn kept_entries(es: Seq<CacheEntryInfo>, now: u64) -> Seq<CacheEntryInfo> {
    es.filter(|e: CacheEntryInfo| !spec_is_expired(e.modified_secs, now))
}

/// Everything `store` promises, as a relation between the entries before and
/// after: the file is reused exactly when a fresh entry of that name already
/// exists; otherwise the one entry of that name is created or overwritten
/// with modification time `now`, and nothing else changes.
pub open spec fn store_post(
    before: Seq<CacheEntryInfo>,
    after: Seq<CacheEntryInfo>,
    name: String,
    now: u64,
    r: StoreAction,
) -> bool {
    &&& (r == StoreAction::Reused <==> entry_fresh(before, name@, now))
    &&& (r == StoreAction::Reused ==> after == before)
    &&& (r == StoreAction::Copied ==> {
        if has_entry(before, name@) {
            exists|k: int|
                0 <= k < before.len() && #[trigger] before[k].name@ == name@ && after
                    == before.update(k, CacheEntryInfo { name, modified_secs: now })
        } else {
            after == before.push(CacheEntryInfo { name, modified_secs: now })
        }
    })
    &&& entry_fresh(after, name@, now)
}

impl CacheEntryInfo {
    /// A copy of this entry.
    fn clone_entry(&self) -> (r: CacheEntryInfo)
        ensures
            r == *self,
    {
        CacheEntryInfo { name: self.name.clone(), modified_secs: self.modified_secs }
    }
}

impl CacheState {
    /// Each file name occurs at most once: the model mirrors a directory.
    pub open spec fn wf(self) -> bool {
        forall|a: int, b: int|
            0 <= a < b < self.entries@.len() ==> #[trigger] self.entries@[a].name@
                != #[trigger] self.entries@[b].name@
    }

    /// An empty cache directory.
    pub fn new() -> (r: CacheState)
        ensures
            r.wf(),
            r.entries@.len() == 0,
    {
        CacheState { entries: Vec::new() }
    }

    /// Index of the entry named `name`, if one exists.
    fn find_entry(&self, name: &String) -> (r: Option<usize>)
        ensures
            match r {
                Some(k) => k < self.entries@.len() && self.entries@[k as int].name@ == name@,
                None => !has_entry(self.entries@, name@),
            },
    {
        let mut k: usize = 0;
        while k < self.entries.len()
            invariant
                k <= self.entries@.len(),
                forall|j: int| 0 <= j < k ==> #[trigger] self.entries@[j].name@ != name@,
            decreases self.entries@.len() - k,
        {
            if self.entries[k].name == *name {
                return Some(k);
            }
            k = k + 1;
        }
        None
    }

    /// Decide what storing the artifact `name` at time `now_secs` does, and
    /// record it. The file is reused exactly when a cache entry of that name
    /// exists and is fresh (no older than 24 hours); otherwise the source is
    /// copied into place, so the entry's modification time becomes `now_secs`.
    pub fn store(&mut self, name: String, now_secs: u64) -> (r: StoreAction)
        requires
            old(self).wf(),
        ensures
            final(self).wf(),
            store_post(old(self).entries@, final(self).entries@, name, now_secs, r),
    {
        let ghost before = self.entries@;
        let ghost nameview = name@;
        let found = self.find_entry(&name);
        match found {
            Some(k) => {
                if entry_is_fresh(self.entries[k].modified_secs, now_secs) {
                    proof {
                        assert(entry_fresh(before, nameview, now_secs));
                    }
                    StoreAction::Reused
                } else {
                    self.entries[k] = CacheEntryInfo { name, modified_secs: now_secs };
                    proof {
                        assert forall|j: int|
                            0 <= j < self.entries@.len() implies #[trigger] self.entries@[j].name@
                            == before[j].name@ by {}
                        assert forall|a: int, b: int|
                            0 <= a < b < self.entries@.len() implies #[trigger] self.entries@[a].name@
                            != #[trigger] self.entries@[b].name@ by {
                            assert(before[a].name@ != before[b].name@);
                        }
                        assert(self.entries@[k as int].name@ == nameview);
                        assert(entry_fresh(self.entries@, nameview, now_secs));
                        assert(!entry_fresh(before, nameview, now_secs)) by {
                            assert forall|j: int|
                                0 <= j < before.len() && #[trigger] before[j].name@ == nameview
                                implies !spec_is_fresh(before[j].modified_secs, now_secs) by {
                                if j != k {
                                    if j < k as int {
                                        assert(before[j].name@ != before[k as int].name@);
                                    } else {
                                        assert(before[k as int].name@ != before[j].name@);
                                    }
                                }
                            }
                        }
                    }
                    StoreAction::Copied
                }
            },
            None => {
                self.entries.push(CacheEntryInfo { name, modified_secs: now_secs });
                proof {
                    let last = self.entries@.len() - 1;
                    assert(self.entries@[last].name@ == nameview);
                    assert(entry_fresh(self.entries@, nameview, now_secs));
                    assert(!entry_fresh(before, nameview, now_secs));
                    assert forall|a: int, b: int|
                        0 <= a < b < self.entries@.len() implies #[trigger] self.entries@[a].name@
                        != #[trigger] self.entries@[b].name@ by {
                        if b == last {
                            assert(self.entries@[a].name@ == before[a].name@);
                            assert(!has_entry(before, nameview));
                        } else {
                            assert(before[a].name@ != before[b].name@);
                        }
                    }
                }
                StoreAction::Copied
            },
        }
    }

    /// Sweep the cache at time `now_secs`: delete every file strictly older
    /// than 7 days, keep every younger (or future-dated) file untouched, and
    /// return how many were deleted.
    pub fn sweep(&mut self, now_secs: u64) -> (removed: usize)
        requires
            old(self).wf(),
        ensures
            final(self).wf(),
            final(self).entries@ == kept_entries(old(self).entries@, now_secs),
            removed == old(self).entries@.len() - final(self).entries@.len(),
    {
        let ghost all = self.entries@;
        let mut kept: Vec<CacheEntryInfo> = Vec::new();
        let mut removed: usize = 0;
        let mut i: usize = 0;
        proof {
            reveal(Seq::filter);
            assert(all.subrange(0, 0) =~= Seq::<CacheEntryInfo>::empty());
            assert(kept@ == kept_entries(all.subrange(0, 0), now_secs));
        }
        while i < self.entries.len()
            invariant
                all == self.entries@,
                i <= all.len(),
                kept@ == kept_entries(all.subrange(0, i as int), now_secs),
                removed == i - kept@.len(),
            decreases all.len() - i,
        {
            let e = self.entries[i].clone_entry();
            proof {
                reveal(Seq::filter);
                assert(all.subrange(0, i + 1).drop_last() =~= all.subrange(0, i as int));
                assert(all.subrange(0, i + 1).last() == all[i as int]);
                kept_entries(all.subrange(0, i as int), now_secs).lemma_filter_len(
                    |e: CacheEntryInfo| !spec_is_expired(e.modified_secs, now_secs),
                );
                all.subrange(0, i as int).lemma_filter_len(
                    |e: CacheEntryInfo| !spec_is_expired(e.modified_secs, now_secs),
                );
            }
            if entry_is_expired(e.modified_secs, now_secs) {
                removed = removed + 1;
            } else {
                kept.push(e);
            }
            i = i + 1;
        }
        proof {
            assert(all.subrange(0, all.len() as int) =~= all);
            all.lemma_filter_len(|e: CacheEntryInfo| !spec_is_expired(e.modified_secs, now_secs));
            lemma_filter_keeps_wf(
                all,
                |e: CacheEntryInfo| !spec_is_expired(e.modified_secs, now_secs),
            );
        }
        self.entries = kept;
        removed
    }
}

/// `s` ends with `suffix`.
pub open spec fn spec_has_suffix(s: Seq<char>, suffix: Seq<char>) -> bool {
    s.len() >= suffix.len() && s.subrange(s.len() - suffix.len(), s.len() as int) == suffix
}

/// Relies on dirs::cache_dir: the platform's cache directory, if the
/// platform defines one; the result depends on the environment, so nothing
/// more is assumed of it.
#[verifier::external_body]
fn platform_cache_dir() -> (r: Option<String>) {
    dirs::cache_dir().and_then(|p| p.into_os_string().into_string().ok())
}

/// Relies on dirs::home_dir: the user's home directory, if the platform
/// defines one; the result depends on the environment, so nothing more is
/// assumed of it.
#[verifier::external_body]
fn platform_home_dir() -> (r: Option<String>) {
    dirs::home_dir().and_then(|p| p.into_os_string().into_string().ok())
}

/// The base directory the cache lives under: the platform cache directory,
/// else the home directory, else a relative fallback.
pub open spec fn spec_cache_base(sys: Option<String>, home: Option<String>) -> Seq<char> {
    match sys {
        Some(s) => s@,
        None => match home {
            Some(h) => h@,
            None => ".mint_cache"@,
        },
    }
}

/// Resolve the cache directory from the two platform directories: the first
/// available of cache directory, home directory, or a relative fallback, with
/// the cache's own subdirectory appended.
pub fn resolve_cache_dir(sys: Option<String>, home: Option<String>) -> (r: String)
    ensures
        r@ == spec_cache_base(sys, home) + "/.mint_cache"@,
{
    let base = match sys {
        Some(s) => s,
        None => match home {
            Some(h) => h,
            None => String::from_str(".mint_cache"),
        },
    };
    base.concat("/.mint_cache")
}

/// The cache directory for this machine, resolved from platform conventions.
/// Meant for the outermost composition point; the cache model itself takes
/// the directory it is given.
pub fn default_cache_location() -> (r: String)
    ensures
        spec_has_suffix(r@, "/.mint_cache"@),
{
    let sys = platform_cache_dir();
    let home = platform_home_dir();
    let r = resolve_cache_dir(sys, home);
    proof {
        let suffix = "/.mint_cache"@;
        assert(r@.subrange(r@.len() - suffix.len(), r@.len() as int) =~= suffix);
    }
    r
}

/// The on-disk path of a cached artifact: `<cache_dir>/<file_name>`.
pub fn cached_path(cache_dir: &str, file_name: &str) -> (r: String)
    ensures
        r@ == cache_dir@ + "/"@ + file_name@,
{
    let mut s = String::from_str(cache_dir);
    s.append("/");
    s.append(file_name);
    s
}

/// An element of a filtered sequence occurs in the sequence it was
/// filtered from.
proof fn lemma_filter_element_origin(
    es: Seq<CacheEntryInfo>,
    p: spec_fn(CacheEntryInfo) -> bool,
    i: int,
)
    requires
        0 <= i < es.filter(p).len(),
    ensures
        exists|j: int| 0 <= j < es.len() && #[trigger] es[j] == es.filter(p)[i],
    decreases es.len(),
{
    reveal(Seq::filter);
    if es.len() > 0 {
        let prefix = es.drop_last();
        if p(es.last()) && i == es.filter(p).len() - 1 {
            assert(es[es.len() - 1] == es.filter(p)[i]);
        } else {
            lemma_filter_element_origin(prefix, p, i);
            let j = choose|j: int| 0 <= j < prefix.len() && #[trigger] prefix[j] == prefix.filter(p)[i];
            assert(es[j] == es.filter(p)[i]);
        }
    }
}

/// Filtering an entry list whose names are pairwise distinct keeps them so.
proof fn lemma_filter_keeps_wf(es: Seq<CacheEntryInfo>, p: spec_fn(CacheEntryInfo) -> bool)
    requires
        forall|a: int, b: int|
            0 <= a < b < es.len() ==> #[trigger] es[a].name@ != #[trigger] es[b].name@,
    ensures
        forall|a: int, b: int|
            0 <= a < b < es.filter(p).len() ==> #[trigger] es.filter(p)[a].name@
                != #[trigger] es.filter(p)[b].name@,
    decreases es.len(),
{
    reveal(Seq::filter);
    if es.len() > 0 {
        let prefix = es.drop_last();
        lemma_filter_keeps_wf(prefix, p);
        if p(es.last()) {
            let f = es.filter(p);
            let fp = prefix.filter(p);
            assert(f == fp.push(es.last()));
            assert forall|a: int, b: int|
                0 <= a < b < f.len() implies #[trigger] f[a].name@ != #[trigger] f[b].name@ by {
                if b < f.len() - 1 {
                    assert(fp[a].name@ != fp[b].name@);
                } else {
                    lemma_filter_element_origin(prefix, p, a);
                    let j = choose|j: int| 0 <= j < prefix.len() && #[trigger] prefix[j] == fp[a];
                    assert(es[j].name@ != es[es.len() - 1].name@);
                }
            }
        }
    }
}

/// Law: a store that copied, followed within 24 hours by a store of the same
/// artifact, performs exactly one physical copy: the second call reuses the
/// entry and changes nothing.
pub proof fn lemma_store_twice_one_copy(
    es0: Seq<CacheEntryInfo>,
    es1: Seq<CacheEntryInfo>,
    es2: Seq<CacheEntryInfo>,
    name: String,
    t1: u64,
    t2: u64,
    r1: StoreAction,
    r2: StoreAction,
)
    requires
        store_post(es0, es1, name, t1, r1),
        store_post(es1, es2, name, t2, r2),
        r1 == StoreAction::Copied,
        t1 <= t2,
        t2 - t1 <= FRESH_SECS,
    ensures
        r2 == StoreAction::Reused,
        es2 == es1,
{
    if has_entry(es0, name@) {
        let k = choose|k: int|
            0 <= k < es0.len() && #[trigger] es0[k].name@ == name@ && es1 == es0.update(
                k,
                CacheEntryInfo { name, modified_secs: t1 },
            );
        assert(es1[k].name@ == name@ && es1[k].modified_secs == t1);
        assert(spec_is_fresh(es1[k].modified_secs, t2));
        assert(entry_fresh(es1, name@, t2));
    } else {
        let last = es1.len() - 1;
        assert(es1[last].name@ == name@ && es1[last].modified_secs == t1);
        assert(spec_is_fresh(es1[last].modified_secs, t2));
        assert(entry_fresh(es1, name@, t2));
    }
}

/// Law: when every cache entry of the artifact's name is stale at `t` (for
/// instance after its modification time was forced back more than 24 hours),
/// a store at `t` performs a fresh copy.
pub proof fn lemma_stale_entry_copies(
    es0: Seq<CacheEntryInfo>,
    es1: Seq<CacheEntryInfo>,
    name: String,
    t: u64,
    r: StoreAction,
)
    requires
        store_post(es0, es1, name, t, r),
        forall|k: int|
            0 <= k < es0.len() && #[trigger] es0[k].name@ == name@ ==> !spec_is_fresh(
                es0[k].modified_secs,
                t,
            ),
    ensures
        r == StoreAction::Copied,
{
    assert(!entry_fresh(es0, name@, t));
}

/// Law: a sweep is idempotent. What a sweep at `now` keeps, a second sweep at
/// the same time keeps whole: the second sweep removes zero files.
pub proof fn lemma_sweep_idempotent(es: Seq<CacheEntryInfo>, now: u64)
    ensures
        kept_entries(kept_entries(es, now), now) == kept_entries(es, now),
{
    let p = |e: CacheEntryInfo| !spec_is_expired(e.modified_secs, now);
    assert forall|i: int| 0 <= i < es.filter(p).len() implies p(#[trigger] es.filter(p)[i]) by {
        es.lemma_filter_pred(p, i);
    }
    lemma_filter_all_kept(es.filter(p), p);
}

/// Filtering keeps a sequence whole when every element passes the test.
proof fn lemma_filter_all_kept(es: Seq<CacheEntryInfo>, p: spec_fn(CacheEntryInfo) -> bool)
    requires
        forall|i: int| 0 <= i < es.len() ==> p(#[trigger] es[i]),
    ensures
        es.filter(p) == es,
    decreases es.len(),
{
    reveal(Seq::filter);
    if es.len() == 0 {
        assert(es.filter(p) =~= es);
    } else {
        let prefix = es.drop_last();
        assert forall|i: int| 0 <= i < prefix.len() implies p(#[trigger] prefix[i]) by {
            assert(prefix[i] == es[i]);
        }
        lemma_filter_all_kept(prefix, p);
        assert(es.filter(p) =~= es);
    }
}

} // verus!
