//! Bookkeeping of running agents: one entry per (user, session).

use vstd::prelude::*;
use crate::chatlog::sessions_dir_path;
use crate::text::{str_eq, to_owned_string};

verus! {

/// What is kept for each (user, session): at most one entry per pair.
pub struct SessionCache<H> {
    entries: Vec<(String, usize, H)>,
}

/// Whether the entry at `i` belongs to (user, id).
pub open spec fn entry_is<H>(e: (String, usize, H), user: Seq<char>, id: usize) -> bool {
    e.0@ == user && e.1 == id
}

impl<H> SessionCache<H> {
    /// No two entries share a (user, session).
    #[verifier::type_invariant]
    spec fn wf(&self) -> bool {
        forall|i: int, j: int|
            0 <= i < self.entries@.len() && 0 <= j < self.entries@.len() && i != j ==> !(
            #[trigger] self.entries@[i].0@ == #[trigger] self.entries@[j].0@ && self.entries@[i].1
                == self.entries@[j].1)
    }

    /// Whether (user, id) has an entry.
    pub closed spec fn has(&self, user: Seq<char>, id: usize) -> bool {
        exists|i: int| 0 <= i < self.entries@.len() && entry_is(#[trigger] self.entries@[i], user, id)
    }

    /// The entry of (user, id), if it has one.
    pub closed spec fn lookup(&self, user: Seq<char>, id: usize) -> Option<H> {
        if self.has(user, id) {
            let i = choose|i: int| 0 <= i < self.entries@.len() && entry_is(#[trigger] self.entries@[i], user, id);
            Some(self.entries@[i].2)
        } else {
            None
        }
    }

    /// The number of entries.
    pub closed spec fn size(&self) -> nat {
        self.entries@.len()
    }

    proof fn lemma_lookup_at(&self, i: int)
        requires
            self.wf(),
            0 <= i < self.entries@.len(),
        ensures
            self.lookup(self.entries@[i].0@, self.entries@[i].1) == Some(self.entries@[i].2),
    {
        let user = self.entries@[i].0@;
        let id = self.entries@[i].1;
        assert(entry_is(self.entries@[i], user, id));
        let j = choose|j: int| 0 <= j < self.entries@.len() && entry_is(#[trigger] self.entries@[j], user, id);
        if j != i {
            assert(self.entries@[i].0@ == self.entries@[j].0@);
        }
    }

    /// An empty cache.
    pub fn new() -> (c: SessionCache<H>)
        ensures
            forall|user: Seq<char>, id: usize| c.lookup(user, id) is None,
            c.size() == 0,
    {
        SessionCache { entries: Vec::new() }
    }

    fn position(&self, user: &str, id: usize) -> (r: Option<usize>)
        ensures
            match r {
                Some(i) => i < self.entries@.len() && entry_is(self.entries@[i as int], user@, id),
                None => !self.has(user@, id),
            },
    {
        let mut i: usize = 0;
        while i < self.entries.len()
            invariant
                i <= self.entries@.len(),
                forall|k: int| 0 <= k < i ==> !entry_is(#[trigger] self.entries@[k], user@, id),
            decreases self.entries.len() - i,
        {
            if self.entries[i].1 == id && str_eq(self.entries[i].0.as_str(), user) {
                return Some(i);
            }
            i = i + 1;
        }
        None
    }

    /// Whether a user has an entry for some session.
    pub open spec fn knows_user(&self, user: Seq<char>) -> bool {
        exists|k: usize| #[trigger] self.lookup(user, k) is Some
    }

    /// Whether a user has an entry for some session.
    pub fn has_user(&self, user: &str) -> (b: bool)
        ensures
            b == self.knows_user(user@),
    {
        let mut i: usize = 0;
        while i < self.entries.len()
            invariant
                i <= self.entries@.len(),
                forall|j: int| 0 <= j < i ==> #[trigger] self.entries@[j].0@ != user@,
            decreases self.entries.len() - i,
        {
            if str_eq(self.entries[i].0.as_str(), user) {
                proof {
                    let id = self.entries@[i as int].1;
                    assert(entry_is(self.entries@[i as int], user@, id));
                    assert(self.has(user@, id));
                    assert(self.lookup(user@, id) is Some);
                }
                return true;
            }
            i = i + 1;
        }
        proof {
            assert forall|k: usize| !(#[trigger] self.lookup(user@, k) is Some) by {
                if self.has(user@, k) {
                    let j = choose|j: int| 0 <= j < self.entries@.len() && entry_is(#[trigger] self.entries@[j], user@, k);
                    assert(self.entries@[j].0@ != user@);
                }
            }
        }
        false
    }

    /// The entry of a user's session.
    pub fn get(&self, user: &str, id: usize) -> (r: Option<&H>)
        ensures
            match r {
                Some(h) => self.lookup(user@, id) == Some(*h),
                None => self.lookup(user@, id) is None,
            },
    {
        proof {
            use_type_invariant(self);
        }
        match self.position(user, id) {
            Some(i) => {
                proof {
                    self.lemma_lookup_at(i as int);
                }
                Some(&self.entries[i].2)
            },
            None => None,
        }
    }

    /// Records the entry of a user's session, replacing an earlier one.
    pub fn insert(&mut self, user: &str, id: usize, h: H)
        ensures
            final(self).lookup(user@, id) == Some(h),
            forall|u: Seq<char>, k: usize| !(u == user@ && k == id) ==> final(self).lookup(u, k) == old(self).lookup(u, k),
    {
        proof {
            use_type_invariant(&*self);
        }
        match self.position(user, id) {
            Some(i) => {
                let name = to_owned_string(user);
                let ghost before = self.entries@;
                let mut entries: Vec<(String, usize, H)> = Vec::new();
                std::mem::swap(&mut entries, &mut self.entries);
                entries.set(i, (name, id, h));
                self.entries = entries;
                proof {
                    assert forall|u: Seq<char>, k: usize| #![auto] self.has(u, k) == old(self).has(u, k) by {
                        if self.has(u, k) {
                            let j = choose|j: int| 0 <= j < self.entries@.len() && entry_is(#[trigger] self.entries@[j], u, k);
                            assert(entry_is(before[j], u, k));
                        }
                        if old(self).has(u, k) {
                            let j = choose|j: int| 0 <= j < before.len() && entry_is(#[trigger] before[j], u, k);
                            assert(entry_is(self.entries@[j], u, k));
                        }
                    }
                    self.lemma_lookup_at(i as int);
                    assert forall|u: Seq<char>, k: usize| !(u == user@ && k == id) implies self.lookup(u, k) == old(self).lookup(u, k) by {
                        if old(self).has(u, k) {
                            let j = choose|j: int| 0 <= j < before.len() && entry_is(#[trigger] before[j], u, k);
                            old(self).lemma_lookup_at(j);
                            self.lemma_lookup_at(j);
                        }
                    }
                }
            },
            None => {
                let name = to_owned_string(user);
                let ghost before = self.entries@;
                let mut entries: Vec<(String, usize, H)> = Vec::new();
                std::mem::swap(&mut entries, &mut self.entries);
                entries.push((name, id, h));
                self.entries = entries;
                proof {
                    let n = before.len() as int;
                    self.lemma_lookup_at(n);
                    assert forall|u: Seq<char>, k: usize| !(u == user@ && k == id) implies self.lookup(u, k) == old(self).lookup(u, k) by {
                        if old(self).has(u, k) {
                            let j = choose|j: int| 0 <= j < before.len() && entry_is(#[trigger] before[j], u, k);
                            old(self).lemma_lookup_at(j);
                            assert(self.entries@[j] == before[j]);
                            self.lemma_lookup_at(j);
                        }
                        if self.has(u, k) {
                            let j = choose|j: int| 0 <= j < self.entries@.len() && entry_is(#[trigger] self.entries@[j], u, k);
                            assert(j != n);
                            assert(entry_is(before[j], u, k));
                        }
                    }
                }
            },
        }
    }

    /// Forgets the entry of a user's session.
    pub fn remove(&mut self, user: &str, id: usize)
        ensures
            final(self).lookup(user@, id) is None,
            forall|u: Seq<char>, k: usize| !(u == user@ && k == id) ==> final(self).lookup(u, k) == old(self).lookup(u, k),
    {
        proof {
            use_type_invariant(&*self);
        }
        match self.position(user, id) {
            Some(i) => {
                let ghost before = self.entries@;
                let mut entries: Vec<(String, usize, H)> = Vec::new();
                std::mem::swap(&mut entries, &mut self.entries);
                let _ = entries.remove(i);
                self.entries = entries;
                proof {
                    assert forall|j: int| 0 <= j < self.entries@.len() implies #[trigger] self.entries@[j] == (if j < i {
                        before[j]
                    } else {
                        before[j + 1]
                    }) by {}
                    assert forall|u: Seq<char>, k: usize| !(u == user@ && k == id) implies self.lookup(u, k) == old(self).lookup(u, k) by {
                        if old(self).has(u, k) {
                            let j = choose|j: int| 0 <= j < before.len() && entry_is(#[trigger] before[j], u, k);
                            old(self).lemma_lookup_at(j);
                            assert(j != i);
                            let j2 = if j < i { j } else { j - 1 };
                            assert(self.entries@[j2] == before[j]);
                            self.lemma_lookup_at(j2);
                        }
                        if self.has(u, k) {
                            let j = choose|j: int| 0 <= j < self.entries@.len() && entry_is(#[trigger] self.entries@[j], u, k);
                            let j2 = if j < i { j } else { j + 1 };
                            assert(entry_is(before[j2], u, k));
                        }
                    }
                    if self.has(user@, id) {
                        let j = choose|j: int| 0 <= j < self.entries@.len() && entry_is(#[trigger] self.entries@[j], user@, id);
                        let j2 = if j < i { j } else { j + 1 };
                        assert(entry_is(before[j2], user@, id));
                        assert(before[j2].0@ == before[i as int].0@);
                    }
                }
            },
            None => {},
        }
    }
}

/// The directory whose session files list a user's sessions.
pub fn user_sessions_dir(username: &str) -> (p: String)
    ensures
        p@ == sessions_dir_path(username@),
{
    crate::chatlog::sessions_dir(username)
}

/// The part of a file name before its extension.
pub uninterp spec fn path_file_stem(path: Seq<char>) -> Option<Seq<char>>;

/// The file stem of a path.
///
/// Trusted: `std::path::Path::file_stem`, read back as text; the result is
/// named `path_file_stem` of the path.  Nothing else is claimed.
#[verifier::external_body]
fn file_stem(path: &str) -> (r: Option<String>)
    ensures
        r.deep_view() == path_file_stem(path@),
{
    std::path::Path::new(path).file_stem().map(|s| s.to_string_lossy().into_owned())
}

/// The sessions listed by a user's session files: the stem of every file
/// that has one, in listing order.
pub open spec fn session_names_of(files: Seq<Seq<char>>) -> Seq<Seq<char>>
    decreases files.len(),
{
    if files.len() == 0 {
        Seq::empty()
    } else {
        match path_file_stem(files.last()) {
            Some(stem) => session_names_of(files.drop_last()).push(stem),
            None => session_names_of(files.drop_last()),
        }
    }
}

/// Names the sessions of the session files found in a user's directory.
pub fn list_sessions(files: &Vec<String>) -> (names: Vec<String>)
    ensures
        names.deep_view() == session_names_of(files.deep_view()),
{
    let mut names: Vec<String> = Vec::new();
    let mut i: usize = 0;
    while i < files.len()
        invariant
            i <= files@.len(),
            names.deep_view() == session_names_of(files.deep_view().subrange(0, i as int)),
        decreases files.len() - i,
    {
        let ghost pre = files.deep_view().subrange(0, i + 1);
        assert(pre.drop_last() =~= files.deep_view().subrange(0, i as int));
        assert(pre.last() == files[i as int]@);
        match file_stem(files[i].as_str()) {
            Some(stem) => {
                names.push(stem);
                assert(names.deep_view() =~= session_names_of(pre));
            },
            None => {},
        }
        i = i + 1;
    }
    assert(files.deep_view().subrange(0, files@.len() as int) =~= files.deep_view());
    names
}


/// When every session file has a stem, the sessions listed are exactly those
/// stems, one per file, in listing order; in general no more names than
/// files are listed.
pub proof fn law_session_names(files: Seq<Seq<char>>)
    ensures
        session_names_of(files).len() <= files.len(),
        (forall|i: int| 0 <= i < files.len() ==> (#[trigger] path_file_stem(files[i])) is Some) ==> {
            &&& session_names_of(files).len() == files.len()
            &&& forall|i: int|
                0 <= i < files.len() ==> Some(#[trigger] session_names_of(files)[i]) == path_file_stem(files[i])
        },
    decreases files.len(),
{
    if files.len() > 0 {
        let pre = files.drop_last();
        law_session_names(pre);
        if forall|i: int| 0 <= i < files.len() ==> (#[trigger] path_file_stem(files[i])) is Some {
            assert forall|i: int| 0 <= i < pre.len() implies (#[trigger] path_file_stem(pre[i])) is Some by {
                assert(pre[i] == files[i]);
                assert(path_file_stem(files[i]) is Some);
            }
            let n = files.len() - 1;
            assert(path_file_stem(files[n]) is Some);
            assert(files.last() == files[n]);
            assert forall|i: int| 0 <= i < files.len() implies Some(#[trigger] session_names_of(files)[i])
                == path_file_stem(files[i]) by {
                if i < n {
                    assert(pre[i] == files[i]);
                    assert(Some(session_names_of(pre)[i]) == path_file_stem(pre[i]));
                }
            }
        }
    }
}

} // verus!
