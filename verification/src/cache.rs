//! The cache-aside store: a date-stamped path for each logical cache name,
//! and read-through / write-through resolution of a fetched value.
//!
//! The store's control flow runs here over an explicit picture of the files
//! it may touch; the glue layer performs the same reads and writes against
//! the real filesystem and hands their outcomes over as plain values.

use vstd::prelude::*;
use vstd::string::StringExecFns;
use crate::date::{UtcDate, date_code, push_date_code, today_utc, lemma_date_code_inj};

verus! {

/// The `.json` extension every cache file carries.
pub open spec fn json_suffix() -> Seq<char> {
    seq!['.', 'j', 's', 'o', 'n']
}

/// Everything of a cache path that does not depend on the date.
pub open spec fn path_prefix(temp_dir: Seq<char>, name: Seq<char>) -> Seq<char> {
    temp_dir + seq!['/'] + name + seq!['.']
}

/// `<temp_dir>/<name>.<YYYYMMDD>.json`
pub open spec fn cache_path_spec(temp_dir: Seq<char>, name: Seq<char>, d: UtcDate) -> Seq<char> {
    path_prefix(temp_dir, name) + date_code(d) + json_suffix()
}

/// Law: for one name the path function is deterministic in the date, the
/// date decides the path, and two dates' paths differ only in the embedded
/// eight-character date stamp between a shared prefix and suffix.
pub proof fn lemma_cache_path_by_date(
    temp_dir: Seq<char>,
    name: Seq<char>,
    d1: UtcDate,
    d2: UtcDate,
)
    requires
        d1.wf(),
        d2.wf(),
    ensures
        d1 == d2 ==> cache_path_spec(temp_dir, name, d1) == cache_path_spec(temp_dir, name, d2),
        cache_path_spec(temp_dir, name, d1) == cache_path_spec(temp_dir, name, d2) ==> d1 == d2,
        cache_path_spec(temp_dir, name, d1) == path_prefix(temp_dir, name) + date_code(d1)
            + json_suffix(),
        date_code(d1).len() == 8,
{
    if cache_path_spec(temp_dir, name, d1) == cache_path_spec(temp_dir, name, d2) {
        let p = path_prefix(temp_dir, name);
        let n = p.len() as int;
        assert(date_code(d1) =~= cache_path_spec(temp_dir, name, d1).subrange(n, n + 8));
        assert(date_code(d2) =~= cache_path_spec(temp_dir, name, d2).subrange(n, n + 8));
        lemma_date_code_inj(d1, d2);
    }
}

/// The cache path for a logical name on a given date:
/// `<temp_dir>/<name>.<YYYYMMDD>.json`. Pure and side-effect free.
pub fn cache_path_for(temp_dir: &str, name: &str, date: &UtcDate) -> (r: String)
    requires
        date.wf(),
    ensures
        r@ == cache_path_spec(temp_dir@, name@, *date),
{
    proof {
        reveal_strlit("/");
        reveal_strlit(".");
        reveal_strlit(".json");
    }
    let mut s = String::new();
    s.append(temp_dir);
    s.append("/");
    s.append(name);
    s.append(".");
    push_date_code(&mut s, date);
    s.append(".json");
    proof {
        assert(s@ =~= cache_path_spec(temp_dir@, name@, *date));
    }
    s
}

/// The cache path for a logical name on today's UTC date, recomputed at
/// call time so that the path rotates with the calendar day.
pub fn dated_cache_path(temp_dir: &str, name: &str) -> (r: String)
    ensures
        exists|d: UtcDate| d.wf() && r@ == cache_path_spec(temp_dir@, name@, d),
{
    let date = today_utc();
    let r = cache_path_for(temp_dir, name, &date);
    proof {
        assert(date.wf() && r@ == cache_path_spec(temp_dir@, name@, date));
    }
    r
}

/// Why a cache-aside resolution failed, with the offending path or the
/// fetch operation's own message.
#[derive(Debug, Clone, PartialEq, Eq)]
pub enum CacheError {
    /// a cache file exists at the path but could not be read
    CacheReadFailed(String),
    /// the fetched value could not be written to the path
    CacheWriteFailed(String),
    /// the supplied fetch operation itself failed; its message passes
    /// through unchanged
    FetchFailed(String),
}

/// The store of a value failed on a write to this path.
pub open spec fn store_failed_at(r: Result<(), CacheError>, p: Seq<char>) -> bool {
    match r {
        Err(CacheError::CacheWriteFailed(q)) => q@ == p,
        _ => false,
    }
}

/// One file the store may touch: its path, its text, and whether a read
/// of it succeeds.
pub struct FsEntry {
    pub path: String,
    pub content: String,
    pub readable: bool,
}

/// The part of the filesystem the store touches, as plain values: the
/// files present, and whether writes succeed.
pub struct FsModel {
    pub entries: Vec<FsEntry>,
    pub write_allowed: bool,
}

impl FsModel {
    /// At most one entry per path.
    pub open spec fn wf(self) -> bool {
        forall|i: int, j: int|
            0 <= i < j < self.entries@.len() ==> self.entries@[i].path@ != self.entries@[j].path@
    }

    /// Whether a file exists at the path.
    pub open spec fn has(self, p: Seq<char>) -> bool {
        exists|i: int| 0 <= i < self.entries@.len() && self.entries@[i].path@ == p
    }

    pub open spec fn index_of(self, p: Seq<char>) -> int {
        choose|i: int| 0 <= i < self.entries@.len() && self.entries@[i].path@ == p
    }

    /// The text of the file at the path.
    pub open spec fn content_at(self, p: Seq<char>) -> Seq<char> {
        self.entries@[self.index_of(p)].content@
    }

    /// Whether a read of the file at the path succeeds.
    pub open spec fn readable_at(self, p: Seq<char>) -> bool {
        self.entries@[self.index_of(p)].readable
    }

    /// The file at `p` in `self` is exactly the file at `p` in `other`.
    pub open spec fn same_file_at(self, other: FsModel, p: Seq<char>) -> bool {
        &&& self.has(p) == other.has(p)
        &&& self.has(p) ==> self.content_at(p) == other.content_at(p) && self.readable_at(p)
            == other.readable_at(p)
    }

    proof fn lemma_index_unique(self, p: Seq<char>, i: int)
        requires
            self.wf(),
            0 <= i < self.entries@.len(),
            self.entries@[i].path@ == p,
        ensures
            self.index_of(p) == i,
            self.has(p),
    {
        assert(self.has(p));
        let j = self.index_of(p);
        if i < j {
            assert(self.entries@[i].path@ != self.entries@[j].path@);
        } else if j < i {
            assert(self.entries@[j].path@ != self.entries@[i].path@);
        }
    }

    fn find(&self, p: &String) -> (r: Option<usize>)
        requires
            self.wf(),
        ensures
            match r {
                Some(i) => i < self.entries@.len() && self.entries@[i as int].path@ == p@
                    && self.has(p@) && self.index_of(p@) == i,
                None => !self.has(p@),
            },
    {
        let mut k: usize = 0;
        while k < self.entries.len()
            invariant
                self.wf(),
                k <= self.entries@.len(),
                forall|j: int| 0 <= j < k ==> self.entries@[j].path@ != p@,
            decreases self.entries@.len() - k,
        {
            if self.entries[k].path == *p {
                proof {
                    self.lemma_index_unique(p@, k as int);
                }
                return Some(k);
            }
            k += 1;
        }
        None
    }

    /// Whether a file exists at the path; touches nothing.
    pub fn exists_at(&self, p: &String) -> (r: bool)
        requires
            self.wf(),
        ensures
            r == self.has(p@),
    {
        match self.find(p) {
            Some(_) => true,
            None => false,
        }
    }

    /// Reads the full text of the file at the path. A file that exists but
    /// cannot be read is a hard error, never a silent miss.
    pub fn read(&self, p: &String) -> (r: Result<String, CacheError>)
        requires
            self.wf(),
            self.has(p@),
        ensures
            self.readable_at(p@) ==> resolved_with(r, self.content_at(p@)),
            !self.readable_at(p@) ==> read_failed_at(r, p@),
    {
        let i = self.find(p).unwrap();
        if self.entries[i].readable {
            Ok(self.entries[i].content.clone())
        } else {
            Err(CacheError::CacheReadFailed(p.clone()))
        }
    }

    /// Creates or truncates the file at the path with the given text. When
    /// writes fail, nothing changes and the error names the path.
    pub fn write(&mut self, p: &String, content: &String) -> (r: Result<(), CacheError>)
        requires
            old(self).wf(),
        ensures
            final(self).wf(),
            final(self).write_allowed == old(self).write_allowed,
            old(self).write_allowed ==> {
                &&& r matches Ok(())
                &&& final(self).has(p@)
                &&& final(self).content_at(p@) == content@
                &&& final(self).readable_at(p@)
                &&& forall|q: Seq<char>| q != p@ ==> final(self).same_file_at(*old(self), q)
            },
            !old(self).write_allowed ==> *final(self) == *old(self) && store_failed_at(r, p@),
    {
        if !self.write_allowed {
            return Err(CacheError::CacheWriteFailed(p.clone()));
        }
        let entry = FsEntry { path: p.clone(), content: content.clone(), readable: true };
        match self.find(p) {
            Some(i) => {
                let ghost pre = *self;
                self.entries.set(i, entry);
                proof {
                    assert(self.wf());
                    self.lemma_index_unique(p@, i as int);
                    assert forall|q: Seq<char>| q != p@ implies self.same_file_at(pre, q) by {
                        if pre.has(q) {
                            let j = pre.index_of(q);
                            assert(pre.entries@[j].path@ == q);
                            assert(self.entries@[j].path@ == q);
                            self.lemma_index_unique(q, j);
                            pre.lemma_index_unique(q, j);
                        }
                        if self.has(q) {
                            let j = self.index_of(q);
                            assert(self.entries@[j].path@ == q);
                            assert(pre.entries@[j].path@ == q);
                            pre.lemma_index_unique(q, j);
                        }
                    }
                }
                Ok(())
            },
            None => {
                let ghost pre = *self;
                self.entries.push(entry);
                proof {
                    let n = pre.entries@.len() as int;
                    assert forall|i: int, j: int|
                        0 <= i < j < self.entries@.len() implies self.entries@[i].path@
                        != self.entries@[j].path@ by {
                        if j < n {
                            assert(pre.entries@[i].path@ != pre.entries@[j].path@);
                        } else {
                            assert(self.entries@[j].path@ == p@);
                            if i < n {
                                assert(self.entries@[i] == pre.entries@[i]);
                                if self.entries@[i].path@ == p@ {
                                    pre.lemma_index_unique(p@, i);
                                }
                            }
                        }
                    }
                    self.lemma_index_unique(p@, n);
                    assert forall|q: Seq<char>| q != p@ implies self.same_file_at(pre, q) by {
                        if pre.has(q) {
                            let j = pre.index_of(q);
                            assert(pre.entries@[j].path@ == q);
                            assert(self.entries@[j].path@ == q);
                            self.lemma_index_unique(q, j);
                            pre.lemma_index_unique(q, j);
                        }
                        if self.has(q) {
                            let j = self.index_of(q);
                            assert(self.entries@[j].path@ == q);
                            if j < n {
                                assert(pre.entries@[j].path@ == q);
                                pre.lemma_index_unique(q, j);
                            }
                        }
                    }
                }
                Ok(())
            },
        }
    }
}

/// What the supplied fetch operation produced when it ran: its value, or
/// its own failure message.
#[derive(Debug, Clone, PartialEq, Eq)]
pub enum FetchOutcome {
    Success(String),
    Failure(String),
}

/// The resolution succeeded with exactly this text.
pub open spec fn resolved_with(r: Result<String, CacheError>, s: Seq<char>) -> bool {
    match r {
        Ok(v) => v@ == s,
        Err(_) => false,
    }
}

/// The resolution failed on a read of this path.
pub open spec fn read_failed_at(r: Result<String, CacheError>, p: Seq<char>) -> bool {
    match r {
        Err(CacheError::CacheReadFailed(q)) => q@ == p,
        _ => false,
    }
}

/// The resolution failed on a write to this path.
pub open spec fn write_failed_at(r: Result<String, CacheError>, p: Seq<char>) -> bool {
    match r {
        Err(CacheError::CacheWriteFailed(q)) => q@ == p,
        _ => false,
    }
}

/// The resolution failed because the fetch operation failed with exactly
/// this message.
pub open spec fn fetch_failed_with(r: Result<String, CacheError>, m: Seq<char>) -> bool {
    match r {
        Err(CacheError::FetchFailed(q)) => q@ == m,
        _ => false,
    }
}

/// The read half of the store: the cached text when caching is on and a
/// file exists at the path, `None` otherwise. A file that exists but
/// cannot be read is a hard error, not a miss.
pub fn try_cached(use_cache: bool, cache_path: &String, fs: &FsModel) -> (r: Result<
    Option<String>,
    CacheError,
>)
    requires
        fs.wf(),
    ensures
        !(use_cache && fs.has(cache_path@)) ==> r == Result::<Option<String>, CacheError>::Ok(
            None,
        ),
        use_cache && fs.has(cache_path@) && fs.readable_at(cache_path@) ==> match r {
            Ok(Some(v)) => v@ == fs.content_at(cache_path@),
            _ => false,
        },
        use_cache && fs.has(cache_path@) && !fs.readable_at(cache_path@) ==> match r {
            Err(CacheError::CacheReadFailed(q)) => q@ == cache_path@,
            _ => false,
        },
{
    if use_cache && fs.exists_at(cache_path) {
        match fs.read(cache_path) {
            Ok(c) => Ok(Some(c)),
            Err(e) => Err(e),
        }
    } else {
        Ok(None)
    }
}

/// The write half of the store: persists the response at the path when
/// caching is on, touches nothing when it is off. A write failure is a
/// hard error naming the path.
pub fn try_write_cache(
    use_cache: bool,
    cache_path: &String,
    response: &String,
    fs: &mut FsModel,
) -> (r: Result<(), CacheError>)
    requires
        old(fs).wf(),
    ensures
        final(fs).wf(),
        final(fs).write_allowed == old(fs).write_allowed,
        !use_cache ==> *final(fs) == *old(fs) && r is Ok,
        use_cache && old(fs).write_allowed ==> {
            &&& r is Ok
            &&& final(fs).has(cache_path@)
            &&& final(fs).content_at(cache_path@) == response@
            &&& final(fs).readable_at(cache_path@)
            &&& forall|q: Seq<char>| q != cache_path@ ==> final(fs).same_file_at(*old(fs), q)
        },
        use_cache && !old(fs).write_allowed ==> *final(fs) == *old(fs) && store_failed_at(
            r,
            cache_path@,
        ),
{
    if use_cache {
        fs.write(cache_path, response)
    } else {
        Ok(())
    }
}

/// Cache-aside resolution of a value: the cached text on a hit, otherwise
/// the fetched value, persisted before it is returned.
///
/// With `use_cache` false the filesystem is never touched and the fetch
/// outcome passes through unchanged. On a hit the result is the cached
/// text whatever `fetch` holds — the fetch operation's outcome is never
/// consulted. On a miss a fetched value is written to the path before it
/// is returned, and a failed write replaces the value with a hard error.
pub fn try_cached_query(
    use_cache: bool,
    cache_path: &String,
    fetch: &FetchOutcome,
    fs: &mut FsModel,
) -> (r: Result<String, CacheError>)
    requires
        old(fs).wf(),
    ensures
        final(fs).wf(),
        // caching off: no file is created, read, or changed, and the fetch
        // outcome passes through unchanged
        !use_cache ==> *final(fs) == *old(fs) && match *fetch {
            FetchOutcome::Success(ref s) => resolved_with(r, s@),
            FetchOutcome::Failure(ref m) => fetch_failed_with(r, m@),
        },
        // hit: the cached text comes back, the fetch outcome is never
        // consulted, nothing changes on disk
        use_cache && old(fs).has(cache_path@) && old(fs).readable_at(cache_path@) ==> (*final(fs)
            == *old(fs) && resolved_with(r, old(fs).content_at(cache_path@))),
        // a file that exists but cannot be read is a hard error, not a miss
        use_cache && old(fs).has(cache_path@) && !old(fs).readable_at(cache_path@) ==> (*final(fs)
            == *old(fs) && read_failed_at(r, cache_path@)),
        // miss with a successful fetch: the value comes back and now sits
        // in a readable file at the path; no other file changes
        use_cache && !old(fs).has(cache_path@) && old(fs).write_allowed ==> match *fetch {
            FetchOutcome::Success(ref s) => {
                &&& resolved_with(r, s@)
                &&& final(fs).has(cache_path@)
                &&& final(fs).content_at(cache_path@) == s@
                &&& final(fs).readable_at(cache_path@)
                &&& forall|q: Seq<char>| q != cache_path@ ==> final(fs).same_file_at(*old(fs), q)
            },
            FetchOutcome::Failure(_) => true,
        },
        // miss where the write fails: the error replaces the fetched value
        use_cache && !old(fs).has(cache_path@) && !old(fs).write_allowed ==> match *fetch {
            FetchOutcome::Success(_) => *final(fs) == *old(fs) && write_failed_at(r, cache_path@),
            FetchOutcome::Failure(_) => true,
        },
        // miss where the fetch fails: its message passes through unchanged
        use_cache && !old(fs).has(cache_path@) ==> match *fetch {
            FetchOutcome::Success(_) => true,
            FetchOutcome::Failure(ref m) => *final(fs) == *old(fs) && fetch_failed_with(r, m@),
        },
{
    match try_cached(use_cache, cache_path, fs) {
        Err(e) => Err(e),
        Ok(Some(cached)) => Ok(cached),
        Ok(None) => {
            match fetch {
                FetchOutcome::Failure(m) => Err(CacheError::FetchFailed(m.clone())),
                FetchOutcome::Success(s) => {
                    match try_write_cache(use_cache, cache_path, s, fs) {
                        Ok(()) => Ok(s.clone()),
                        Err(e) => Err(e),
                    }
                },
            }
        },
    }
}

} // verus!
